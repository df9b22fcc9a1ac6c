//! Pieces of SQL and of the export report: quoted identifiers, literal
//! values, the paging and ordering clauses, file extensions, column clipping,
//! and the object selector.
use vstd::prelude::*;
use crate::config::{DbType, OutputFormat};
use crate::escape::{escaped, push_escaped, CharRule};
use crate::text::{
    chars_of, decimal, has_prefix, lines, lines_seq, push_char, push_str, starts_with, str_eq,
    string_from_chars, substring, trim, trim_chars, trim_seq, usize_to_string, views,
};

verus! {

/// An identifier quoted the way the database expects: `[..]` for SQL Server,
/// backticks for MySQL, double quotes otherwise; the closing quote character
/// is doubled inside.
pub open spec fn quoted_ident(db_type: DbType, ident: Seq<char>) -> Seq<char> {
    match db_type {
        DbType::Mssql => seq!['['] + escaped(ident, CharRule::Bracket) + seq![']'],
        DbType::Mysql => seq!['`'] + escaped(ident, CharRule::Backtick) + seq!['`'],
        DbType::Postgresql | DbType::Oracle | DbType::SqlLite => seq!['"'] + escaped(
            ident,
            CharRule::DoubleQuote,
        ) + seq!['"'],
    }
}

pub fn quote_ident(db_type: DbType, ident: &str) -> (r: String)
    ensures
        r@ == quoted_ident(db_type, ident@),
{
    let mut out = String::new();
    match db_type {
        DbType::Mssql => {
            push_char(&mut out, '[');
            push_escaped(&mut out, ident, CharRule::Bracket);
            push_char(&mut out, ']');
        },
        DbType::Mysql => {
            push_char(&mut out, '`');
            push_escaped(&mut out, ident, CharRule::Backtick);
            push_char(&mut out, '`');
        },
        DbType::Postgresql | DbType::Oracle | DbType::SqlLite => {
            push_char(&mut out, '"');
            push_escaped(&mut out, ident, CharRule::DoubleQuote);
            push_char(&mut out, '"');
        },
    }
    assert(out@ =~= quoted_ident(db_type, ident@));
    out
}

/// A single-quoted SQL string with its body escaped.
pub open spec fn sql_quoted(v: Seq<char>) -> Seq<char> {
    seq!['\''] + escaped(v, CharRule::SqlValue) + seq!['\'']
}

/// A value as an INSERT statement writes it: a quoted string, or `NULL`.
pub open spec fn insert_value(value: Option<Seq<char>>) -> Seq<char> {
    match value {
        Some(v) => sql_quoted(v),
        None => "NULL"@,
    }
}

pub fn sql_quote(v: &str) -> (r: String)
    ensures
        r@ == sql_quoted(v@),
{
    let mut out = String::new();
    push_char(&mut out, '\'');
    push_escaped(&mut out, v, CharRule::SqlValue);
    push_char(&mut out, '\'');
    assert(out@ =~= sql_quoted(v@));
    out
}

pub fn to_insert_value(value: Option<&str>) -> (r: String)
    ensures
        r@ == insert_value(
            match value {
                Some(v) => Some(v@),
                None => None,
            },
        ),
{
    match value {
        Some(v) => sql_quote(v),
        None => {
            let mut out = String::new();
            push_str(&mut out, "NULL");
            assert(out@ =~= "NULL"@);
            out
        },
    }
}

/// Text cut to `width` characters, the last one replaced by an ellipsis when
/// anything was cut.
pub open spec fn clipped(text: Seq<char>, width: nat) -> Seq<char> {
    if text.len() <= width {
        text
    } else if width == 0 {
        Seq::empty()
    } else if width == 1 {
        seq!['…']
    } else {
        text.take(width - 1).push('…')
    }
}

pub fn clip_text(text: &str, width: usize) -> (r: String)
    ensures
        r@ == clipped(text@, width as nat),
{
    let chars = chars_of(text);
    if chars.len() <= width {
        return string_from_chars(chars.as_slice());
    }
    if width == 0 {
        return String::new();
    }
    if width == 1 {
        let mut out = String::new();
        push_char(&mut out, '…');
        assert(out@ =~= seq!['…']);
        return out;
    }
    let mut out = substring(&chars, 0, width - 1);
    push_char(&mut out, '…');
    assert(out@ =~= text@.take(width - 1).push('…'));
    out
}

/// The paging clause: `OFFSET .. ROWS FETCH NEXT .. ROWS ONLY` for SQL Server
/// and Oracle, `LIMIT .. OFFSET ..` for the others.
pub open spec fn paging_clause(db_type: DbType, offset: nat, limit: nat) -> Seq<char> {
    match db_type {
        DbType::Mssql | DbType::Oracle => " OFFSET "@ + decimal(offset) + " ROWS FETCH NEXT "@
            + decimal(limit) + " ROWS ONLY"@,
        DbType::Mysql | DbType::Postgresql | DbType::SqlLite => " LIMIT "@ + decimal(limit)
            + " OFFSET "@ + decimal(offset),
    }
}

pub fn pagination_clause(db_type: DbType, offset: usize, limit: usize) -> (r: String)
    ensures
        r@ == paging_clause(db_type, offset as nat, limit as nat),
{
    let mut out = String::new();
    let o = usize_to_string(offset);
    let l = usize_to_string(limit);
    match db_type {
        DbType::Mssql | DbType::Oracle => {
            push_str(&mut out, " OFFSET ");
            push_str(&mut out, o.as_str());
            push_str(&mut out, " ROWS FETCH NEXT ");
            push_str(&mut out, l.as_str());
            push_str(&mut out, " ROWS ONLY");
        },
        DbType::Mysql | DbType::Postgresql | DbType::SqlLite => {
            push_str(&mut out, " LIMIT ");
            push_str(&mut out, l.as_str());
            push_str(&mut out, " OFFSET ");
            push_str(&mut out, o.as_str());
        },
    }
    assert(out@ =~= paging_clause(db_type, offset as nat, limit as nat));
    out
}

/// ` ORDER BY ` and the trimmed ordering when one is given; otherwise
/// ` ORDER BY 1` for SQL Server (whose paging needs an order) and nothing
/// for the others.
pub open spec fn ordering_clause(db_type: DbType, order_by: Option<Seq<char>>) -> Seq<char> {
    let t = match order_by {
        Some(o) => trim_seq(o),
        None => Seq::empty(),
    };
    if t.len() > 0 {
        " ORDER BY "@ + t
    } else {
        match db_type {
            DbType::Mssql => " ORDER BY 1"@,
            _ => Seq::empty(),
        }
    }
}

pub fn order_by_clause(db_type: DbType, order_by: Option<&str>) -> (r: String)
    ensures
        r@ == ordering_clause(
            db_type,
            match order_by {
                Some(o) => Some(o@),
                None => None,
            },
        ),
{
    let t = match order_by {
        Some(o) => trim(o),
        None => String::new(),
    };
    let mut out = String::new();
    if t.as_str().unicode_len() > 0 {
        push_str(&mut out, " ORDER BY ");
        push_str(&mut out, t.as_str());
    } else {
        match db_type {
            DbType::Mssql => push_str(&mut out, " ORDER BY 1"),
            _ => {},
        }
    }
    assert(out@ =~= ordering_clause(
        db_type,
        match order_by {
            Some(o) => Some(o@),
            None => None,
        },
    ));
    out
}

pub open spec fn file_extension(format: OutputFormat) -> Seq<char> {
    match format {
        OutputFormat::Sql => "sql"@,
        OutputFormat::SqlLite => "sqlite"@,
        OutputFormat::Csv => "csv"@,
        OutputFormat::Excel => "xlsx"@,
        OutputFormat::Json => "json"@,
        OutputFormat::Xml => "xml"@,
        OutputFormat::Md => "md"@,
    }
}

/// The extension of the files an export writes; Excel output is
/// tab-separated text under `.xlsx`.
pub fn output_file_extension(format: OutputFormat) -> (r: &'static str)
    ensures
        r@ == file_extension(format),
{
    match format {
        OutputFormat::Sql => "sql",
        OutputFormat::SqlLite => "sqlite",
        OutputFormat::Csv => "csv",
        OutputFormat::Excel => "xlsx",
        OutputFormat::Json => "json",
        OutputFormat::Xml => "xml",
        OutputFormat::Md => "md",
    }
}

// ---------------------------------------------------------------------
// Which objects an export covers
// ---------------------------------------------------------------------

/// How the objects of an export are chosen: by a regular expression over the
/// object names, by a file listing names, or by a file holding one query.
#[derive(Clone, Debug)]
pub enum ObjectSelector {
    Pattern(String),
    ListFile(String),
    SqlFile(String),
}

pub enum SelectorView {
    Pattern(Seq<char>),
    ListFile(Seq<char>),
    SqlFile(Seq<char>),
}

impl View for ObjectSelector {
    type V = SelectorView;

    open spec fn view(&self) -> SelectorView {
        match self {
            ObjectSelector::Pattern(s) => SelectorView::Pattern(s@),
            ObjectSelector::ListFile(s) => SelectorView::ListFile(s@),
            ObjectSelector::SqlFile(s) => SelectorView::SqlFile(s@),
        }
    }
}

/// `@sql:<file>` names a query file; `@list:<file>` and `@<file>` a list of
/// names (the file name trimmed); anything else is a pattern, kept as it is.
pub open spec fn selector_of(raw: Seq<char>) -> SelectorView {
    if has_prefix(raw, "@sql:"@) {
        SelectorView::SqlFile(trim_seq(raw.skip(5)))
    } else if has_prefix(raw, "@list:"@) {
        SelectorView::ListFile(trim_seq(raw.skip(6)))
    } else if has_prefix(raw, "@"@) {
        SelectorView::ListFile(trim_seq(raw.skip(1)))
    } else {
        SelectorView::Pattern(raw)
    }
}

pub fn parse_object_selector(raw: &str) -> (r: ObjectSelector)
    ensures
        r@ == selector_of(raw@),
{
    let v = chars_of(raw);
    proof {
        reveal_strlit("@sql:");
        reveal_strlit("@list:");
        reveal_strlit("@");
    }
    if starts_with(&v, "@sql:") {
        let rest = substring(&v, 5, v.len());
        let rv = chars_of(rest.as_str());
        assert(rv@ =~= raw@.skip(5));
        ObjectSelector::SqlFile(trim_chars(&rv))
    } else if starts_with(&v, "@list:") {
        let rest = substring(&v, 6, v.len());
        let rv = chars_of(rest.as_str());
        assert(rv@ =~= raw@.skip(6));
        ObjectSelector::ListFile(trim_chars(&rv))
    } else if starts_with(&v, "@") {
        let rest = substring(&v, 1, v.len());
        let rv = chars_of(rest.as_str());
        assert(rv@ =~= raw@.skip(1));
        ObjectSelector::ListFile(trim_chars(&rv))
    } else {
        ObjectSelector::Pattern(string_from_chars(v.as_slice()))
    }
}

/// A line of a list file names an object when, trimmed, it is not empty and
/// does not start with `#`.
pub open spec fn names_object(line: Seq<char>) -> bool {
    let t = trim_seq(line);
    t.len() > 0 && t[0] != '#'
}

/// The object names a list file holds: its trimmed lines that name an object,
/// each once, in the order they first occur.
pub open spec fn listed_names(content: Seq<char>) -> Set<Seq<char>> {
    Set::new(
        |n: Seq<char>|
            exists|i: int|
                0 <= i < lines_seq(content).len() && names_object(
                    #[trigger] lines_seq(content)[i],
                ) && trim_seq(lines_seq(content)[i]) == n,
    )
}

pub fn contains_string(v: &Vec<String>, s: &str) -> (r: bool)
    ensures
        r == views(v@).contains(s@),
{
    let n = v.len();
    let mut i: usize = 0;
    while i < n
        invariant
            n == v@.len(),
            i <= n,
            forall|k: int| 0 <= k < i ==> v@[k]@ != s@,
        decreases n - i,
    {
        if str_eq(v[i].as_str(), s) {
            assert(views(v@)[i as int] == s@);
            return true;
        }
        i = i + 1;
    }
    proof {
        if views(v@).contains(s@) {
            let k = choose|k: int| 0 <= k < views(v@).len() && views(v@)[k] == s@;
            assert(v@[k]@ == s@);
        }
    }
    false
}

/// The names in a list file's content: each distinct trimmed line that is
/// neither empty nor a `#` comment.
pub fn load_object_names_from_list_file(content: &str) -> (r: Vec<String>)
    ensures
        views(r@).to_set() == listed_names(content@),
        views(r@).no_duplicates(),
{
    let ls = lines(content);
    let n = ls.len();
    let mut out: Vec<String> = Vec::new();
    let mut i: usize = 0;
    while i < n
        invariant
            n == ls@.len(),
            views(ls@) == lines_seq(content@),
            i <= n,
            views(out@).no_duplicates(),
            forall|x: Seq<char>|
                views(out@).contains(x) <==> exists|k: int|
                    0 <= k < i && names_object(#[trigger] views(ls@)[k]) && trim_seq(
                        views(ls@)[k],
                    ) == x,
        decreases n - i,
    {
        let t = trim(ls[i].as_str());
        let tv = chars_of(t.as_str());
        assert(views(ls@)[i as int] == ls@[i as int]@);
        if tv.len() > 0 && tv[0] != '#' {
            if !contains_string(&out, t.as_str()) {
                let ghost old_out = out@;
                let ghost tval = t@;
                out.push(t);
                proof {
                    assert(views(out@) =~= views(old_out).push(tval));
                    assert forall|x: Seq<char>|
                        views(out@).contains(x) <==> exists|k: int|
                            0 <= k < i + 1 && names_object(#[trigger] views(ls@)[k]) && trim_seq(
                                views(ls@)[k],
                            ) == x by {
                        if views(out@).contains(x) {
                            let j = choose|j: int| 0 <= j < views(out@).len() && views(out@)[j] == x;
                            if j < views(old_out).len() {
                                assert(views(old_out)[j] == x);
                                assert(views(old_out).contains(x));
                            } else {
                                assert(names_object(views(ls@)[i as int]));
                            }
                        }
                        if exists|k: int|
                            0 <= k < i + 1 && names_object(#[trigger] views(ls@)[k]) && trim_seq(
                                views(ls@)[k],
                            ) == x {
                            let k = choose|k: int|
                                0 <= k < i + 1 && names_object(#[trigger] views(ls@)[k])
                                    && trim_seq(views(ls@)[k]) == x;
                            if k < i {
                                assert(views(old_out).contains(x));
                                let j = choose|j: int|
                                    0 <= j < views(old_out).len() && views(old_out)[j] == x;
                                assert(views(out@)[j] == x);
                            } else {
                                assert(views(out@)[views(old_out).len() as int] == x);
                            }
                        }
                    }
                }
            }
        } else {
            proof {
                assert(!names_object(views(ls@)[i as int]));
                assert forall|x: Seq<char>|
                    views(out@).contains(x) <==> exists|k: int|
                        0 <= k < i + 1 && names_object(#[trigger] views(ls@)[k]) && trim_seq(
                            views(ls@)[k],
                        ) == x by {
                    if exists|k: int|
                        0 <= k < i + 1 && names_object(#[trigger] views(ls@)[k]) && trim_seq(
                            views(ls@)[k],
                        ) == x {
                        let k = choose|k: int|
                            0 <= k < i + 1 && names_object(#[trigger] views(ls@)[k]) && trim_seq(
                                views(ls@)[k],
                            ) == x;
                        assert(k != i);
                    }
                }
            }
        }
        i = i + 1;
    }
    proof {
        assert forall|x: Seq<char>| views(out@).to_set().contains(x) <==> listed_names(
            content@,
        ).contains(x) by {
            if views(out@).contains(x) {
                let k = choose|k: int|
                    0 <= k < n && names_object(#[trigger] views(ls@)[k]) && trim_seq(views(ls@)[k])
                        == x;
                assert(lines_seq(content@)[k] == views(ls@)[k]);
            }
            if listed_names(content@).contains(x) {
                let k = choose|k: int|
                    0 <= k < lines_seq(content@).len() && names_object(
                        #[trigger] lines_seq(content@)[k],
                    ) && trim_seq(lines_seq(content@)[k]) == x;
                assert(views(ls@)[k] == lines_seq(content@)[k]);
            }
        }
        assert(views(out@).to_set() =~= listed_names(content@));
    }
    out
}

} // verus!
