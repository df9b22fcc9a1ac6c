//! Escaping of text for the places it is written to: SQL literals and
//! identifiers, CSV, tab-separated text, JSON, XML, Markdown tables, and
//! quoted `.env` values. Every escape replaces single characters by fixed
//! pieces, so each is stated as the concatenation of the pieces of its
//! characters.
use vstd::prelude::*;
use crate::text::{chars_of, contains_char, push_char, push_str};

verus! {

/// Which characters an escape rewrites, and into what.
#[derive(Copy, Clone, Debug, PartialEq, Eq, Structural)]
pub enum CharRule {
    /// `\` becomes `\\`, `'` becomes `''`.
    SqlValue,
    /// `'` becomes `''`.
    SqlLiteral,
    /// `]` becomes `]]`.
    Bracket,
    /// a backtick is doubled.
    Backtick,
    /// `"` becomes `""`.
    DoubleQuote,
    /// `|` becomes `\|`; line feed and carriage return become a space.
    Markdown,
    /// `\`, `"`, line feed, carriage return and tab become `\\`, `\"`, `\n`,
    /// `\r`, `\t`.
    Json,
    /// `&`, `<`, `>`, `"`, `'` become their XML entities.
    Xml,
    /// tab, line feed and carriage return become a space.
    Tsv,
    /// `\` becomes `\\`, `"` becomes `\"`.
    EnvValue,
}

/// The text that one character becomes under a rule.
pub open spec fn piece(rule: CharRule, c: char) -> Seq<char> {
    match rule {
        CharRule::SqlValue => if c == '\\' {
            "\\\\"@
        } else if c == '\'' {
            "''"@
        } else {
            seq![c]
        },
        CharRule::SqlLiteral => if c == '\'' {
            "''"@
        } else {
            seq![c]
        },
        CharRule::Bracket => if c == ']' {
            "]]"@
        } else {
            seq![c]
        },
        CharRule::Backtick => if c == '`' {
            "``"@
        } else {
            seq![c]
        },
        CharRule::DoubleQuote => if c == '"' {
            "\"\""@
        } else {
            seq![c]
        },
        CharRule::Markdown => if c == '|' {
            "\\|"@
        } else if c == '\n' || c == '\r' {
            " "@
        } else {
            seq![c]
        },
        CharRule::Json => if c == '\\' {
            "\\\\"@
        } else if c == '"' {
            "\\\""@
        } else if c == '\n' {
            "\\n"@
        } else if c == '\r' {
            "\\r"@
        } else if c == '\t' {
            "\\t"@
        } else {
            seq![c]
        },
        CharRule::Xml => if c == '&' {
            "&amp;"@
        } else if c == '<' {
            "&lt;"@
        } else if c == '>' {
            "&gt;"@
        } else if c == '"' {
            "&quot;"@
        } else if c == '\'' {
            "&apos;"@
        } else {
            seq![c]
        },
        CharRule::Tsv => if c == '\t' || c == '\n' || c == '\r' {
            " "@
        } else {
            seq![c]
        },
        CharRule::EnvValue => if c == '\\' {
            "\\\\"@
        } else if c == '"' {
            "\\\""@
        } else {
            seq![c]
        },
    }
}

/// `s` with every character replaced by its piece under `rule`.
pub open spec fn escaped(s: Seq<char>, rule: CharRule) -> Seq<char>
    decreases s.len(),
{
    if s.len() == 0 {
        Seq::empty()
    } else {
        escaped(s.drop_last(), rule) + piece(rule, s.last())
    }
}

fn push_piece(out: &mut String, rule: CharRule, c: char)
    ensures
        final(out)@ == old(out)@ + piece(rule, c),
{
    match rule {
        CharRule::SqlValue => {
            if c == '\\' {
                push_str(out, "\\\\");
            } else if c == '\'' {
                push_str(out, "''");
            } else {
                push_char(out, c);
            }
        },
        CharRule::SqlLiteral => {
            if c == '\'' {
                push_str(out, "''");
            } else {
                push_char(out, c);
            }
        },
        CharRule::Bracket => {
            if c == ']' {
                push_str(out, "]]");
            } else {
                push_char(out, c);
            }
        },
        CharRule::Backtick => {
            if c == '`' {
                push_str(out, "``");
            } else {
                push_char(out, c);
            }
        },
        CharRule::DoubleQuote => {
            if c == '"' {
                push_str(out, "\"\"");
            } else {
                push_char(out, c);
            }
        },
        CharRule::Markdown => {
            if c == '|' {
                push_str(out, "\\|");
            } else if c == '\n' || c == '\r' {
                push_str(out, " ");
            } else {
                push_char(out, c);
            }
        },
        CharRule::Json => {
            if c == '\\' {
                push_str(out, "\\\\");
            } else if c == '"' {
                push_str(out, "\\\"");
            } else if c == '\n' {
                push_str(out, "\\n");
            } else if c == '\r' {
                push_str(out, "\\r");
            } else if c == '\t' {
                push_str(out, "\\t");
            } else {
                push_char(out, c);
            }
        },
        CharRule::Xml => {
            if c == '&' {
                push_str(out, "&amp;");
            } else if c == '<' {
                push_str(out, "&lt;");
            } else if c == '>' {
                push_str(out, "&gt;");
            } else if c == '"' {
                push_str(out, "&quot;");
            } else if c == '\'' {
                push_str(out, "&apos;");
            } else {
                push_char(out, c);
            }
        },
        CharRule::Tsv => {
            if c == '\t' || c == '\n' || c == '\r' {
                push_str(out, " ");
            } else {
                push_char(out, c);
            }
        },
        CharRule::EnvValue => {
            if c == '\\' {
                push_str(out, "\\\\");
            } else if c == '"' {
                push_str(out, "\\\"");
            } else {
                push_char(out, c);
            }
        },
    }
    assert(seq![c] =~= Seq::<char>::empty().push(c));
}

/// `s` escaped under `rule`, as a new string.
pub fn escape_with(s: &str, rule: CharRule) -> (r: String)
    ensures
        r@ == escaped(s@, rule),
{
    let v = chars_of(s);
    let n = v.len();
    let mut out = String::new();
    let mut i: usize = 0;
    while i < n
        invariant
            n == v@.len(),
            v@ == s@,
            i <= n,
            out@ == escaped(v@.take(i as int), rule),
        decreases n - i,
    {
        push_piece(&mut out, rule, v[i]);
        assert(v@.take(i + 1).drop_last() =~= v@.take(i as int));
        i = i + 1;
    }
    assert(v@.take(n as int) =~= v@);
    out
}

/// Appends `s` escaped under `rule`.
pub fn push_escaped(out: &mut String, s: &str, rule: CharRule)
    ensures
        final(out)@ == old(out)@ + escaped(s@, rule),
{
    let e = escape_with(s, rule);
    out.append(e.as_str());
}

/// `raw.replace('\\', "\\\\").replace('\'', "''")`: the body of a quoted SQL
/// string.
pub fn escape_sql_value(raw: &str) -> (r: String)
    ensures
        r@ == escaped(raw@, CharRule::SqlValue),
{
    escape_with(raw, CharRule::SqlValue)
}

/// A Markdown table cell: `|` escaped, line breaks turned into spaces.
pub fn escape_md_value(raw: &str) -> (r: String)
    ensures
        r@ == escaped(raw@, CharRule::Markdown),
{
    escape_with(raw, CharRule::Markdown)
}

/// A JSON string body.
pub fn escape_json_value(raw: &str) -> (r: String)
    ensures
        r@ == escaped(raw@, CharRule::Json),
{
    escape_with(raw, CharRule::Json)
}

/// XML text or attribute content.
pub fn escape_xml_value(raw: &str) -> (r: String)
    ensures
        r@ == escaped(raw@, CharRule::Xml),
{
    escape_with(raw, CharRule::Xml)
}

/// A tab-separated cell: tabs and line breaks turned into spaces.
pub fn escape_tsv_value(raw: &str) -> (r: String)
    ensures
        r@ == escaped(raw@, CharRule::Tsv),
{
    escape_with(raw, CharRule::Tsv)
}

/// Whether a CSV cell needs quoting: it holds a comma, a double quote, a line
/// feed or a carriage return.
pub open spec fn csv_needs_quotes(s: Seq<char>) -> bool {
    s.contains(',') || s.contains('"') || s.contains('\n') || s.contains('\r')
}

/// A CSV cell: kept as it is, or quoted with inner quotes doubled when it
/// holds a separator, a quote or a line break.
pub open spec fn csv_cell(s: Seq<char>) -> Seq<char> {
    if csv_needs_quotes(s) {
        seq!['"'] + escaped(s, CharRule::DoubleQuote) + seq!['"']
    } else {
        s
    }
}

pub fn escape_csv_value(raw: &str) -> (r: String)
    ensures
        r@ == csv_cell(raw@),
{
    let v = chars_of(raw);
    if contains_char(&v, ',') || contains_char(&v, '"') || contains_char(&v, '\n')
        || contains_char(&v, '\r') {
        let mut out = String::new();
        push_char(&mut out, '"');
        push_escaped(&mut out, raw, CharRule::DoubleQuote);
        push_char(&mut out, '"');
        assert(out@ =~= seq!['"'] + escaped(raw@, CharRule::DoubleQuote) + seq!['"']);
        out
    } else {
        let mut out = String::new();
        out.append(raw);
        assert(out@ =~= raw@);
        out
    }
}

/// `"` + value with `\` and `"` escaped + `"`: a value as the `.env` file
/// holds it.
pub open spec fn env_quoted(v: Seq<char>) -> Seq<char> {
    seq!['"'] + escaped(v, CharRule::EnvValue) + seq!['"']
}

pub fn env_quote(v: &str) -> (r: String)
    ensures
        r@ == env_quoted(v@),
{
    let mut out = String::new();
    push_char(&mut out, '"');
    push_escaped(&mut out, v, CharRule::EnvValue);
    push_char(&mut out, '"');
    assert(out@ =~= env_quoted(v@));
    out
}

// ---------------------------------------------------------------------
// Facts about escaping
// ---------------------------------------------------------------------

/// Escaping distributes over concatenation.
pub proof fn lemma_escaped_append(a: Seq<char>, b: Seq<char>, rule: CharRule)
    ensures
        escaped(a + b, rule) == escaped(a, rule) + escaped(b, rule),
    decreases b.len(),
{
    if b.len() == 0 {
        assert(a + b =~= a);
        assert(escaped(a, rule) + escaped(b, rule) =~= escaped(a, rule));
    } else {
        lemma_escaped_append(a, b.drop_last(), rule);
        assert((a + b).drop_last() =~= a + b.drop_last());
        assert((a + b).last() == b.last());
        assert(escaped(a + b, rule) =~= escaped(a, rule) + escaped(b, rule));
    }
}

/// Text free of the characters a rule rewrites is left as it is.
pub proof fn lemma_escaped_identity(s: Seq<char>, rule: CharRule)
    requires
        forall|i: int| 0 <= i < s.len() ==> piece(rule, #[trigger] s[i]) == seq![s[i]],
    ensures
        escaped(s, rule) == s,
    decreases s.len(),
{
    if s.len() > 0 {
        lemma_escaped_identity(s.drop_last(), rule);
        assert(piece(rule, s.last()) == seq![s[s.len() - 1]]);
        assert(escaped(s, rule) =~= s);
    }
}

/// An SQL value escape never leaves a lone single quote: every quote it
/// writes comes in a pair, so the escaped text cannot close the literal it is
/// placed in.
pub open spec fn quotes_paired(s: Seq<char>) -> bool
    decreases s.len(),
{
    if s.len() == 0 {
        true
    } else if s[0] == '\'' {
        s.len() >= 2 && s[1] == '\'' && quotes_paired(s.skip(2))
    } else {
        quotes_paired(s.drop_first())
    }
}

proof fn lemma_quotes_paired_append(a: Seq<char>, b: Seq<char>)
    requires
        quotes_paired(a),
        quotes_paired(b),
    ensures
        quotes_paired(a + b),
    decreases a.len(),
{
    if a.len() == 0 {
        assert(a + b =~= b);
    } else if a[0] == '\'' {
        lemma_quotes_paired_append(a.skip(2), b);
        assert((a + b).skip(2) =~= a.skip(2) + b);
    } else {
        lemma_quotes_paired_append(a.drop_first(), b);
        assert((a + b).drop_first() =~= a.drop_first() + b);
    }
}

/// The body of an escaped SQL literal has its single quotes in pairs, for
/// every input.
pub proof fn law_sql_value_quotes_paired(s: Seq<char>)
    ensures
        quotes_paired(escaped(s, CharRule::SqlValue)),
        quotes_paired(escaped(s, CharRule::SqlLiteral)),
    decreases s.len(),
{
    if s.len() > 0 {
        law_sql_value_quotes_paired(s.drop_last());
        let c = s.last();
        reveal_strlit("\\\\");
        reveal_strlit("''");
        let p1 = piece(CharRule::SqlValue, c);
        let p2 = piece(CharRule::SqlLiteral, c);
        assert(quotes_paired(Seq::<char>::empty()));
        if c == '\'' {
            assert(p1.skip(2) =~= Seq::<char>::empty());
        } else if c == '\\' {
            assert(p1.drop_first() =~= seq!['\\']);
            assert(seq!['\\'].drop_first() =~= Seq::<char>::empty());
            assert(quotes_paired(seq!['\\']));
        } else {
            assert(p1.drop_first() =~= Seq::<char>::empty());
        }
        assert(quotes_paired(p1));
        if c == '\'' {
            assert(p2.skip(2) =~= Seq::<char>::empty());
        } else {
            assert(p2.drop_first() =~= Seq::<char>::empty());
        }
        assert(quotes_paired(p2));
        lemma_quotes_paired_append(escaped(s.drop_last(), CharRule::SqlValue), p1);
        lemma_quotes_paired_append(escaped(s.drop_last(), CharRule::SqlLiteral), p2);
    }
}

} // verus!
