//! Writing the configuration back into the `.env` file's text: every line
//! that assigns one of the managed keys is replaced by the current value (or
//! dropped when the value is unset), every other line is kept as it is, and
//! the managed keys the file did not mention are appended in their order.
use vstd::prelude::*;
use crate::config::{
    bool_to_string, compress_to_str, copy_opt_string, db_type_to_str, flow_to_str, lang_to_str,
    mode_to_str, opt_view, output_format_to_str, spec_bool_str, spec_compress_str,
    spec_db_type_str, spec_flow_str, spec_lang_str, spec_mode_str, spec_output_format_str, Cli,
    CliView,
};
use crate::escape::{env_quote, env_quoted, escaped, piece, CharRule};
use crate::sql_text::contains_string;
use crate::text::{
    chars_of, decimal, digit_char, is_ws, join, lemma_lines_have_no_lf, lemma_lines_of_terminated,
    lemma_trim_unchanged, join_seq, lines, lines_seq, push_str, str_eq, substring, to_owned,
    trim_chars, trim_seq, trim_start_index, trim_start_seq, u16_to_string, usize_to_string, views,
};

verus! {

/// The managed keys with the values they are to hold; `None` means the key
/// is not to appear in the file.
pub type EnvEntries = Seq<(Seq<char>, Option<Seq<char>>)>;

pub open spec fn entries_view(v: Seq<(String, Option<String>)>) -> EnvEntries {
    v.map_values(|e: (String, Option<String>)| (e.0@, opt_view(e.1)))
}

pub open spec fn count_text(o: Option<usize>) -> Option<Seq<char>> {
    match o {
        Some(n) => Some(decimal(n as nat)),
        None => None,
    }
}

pub open spec fn compress_text(o: Option<crate::config::CompressType>) -> Option<Seq<char>> {
    match o {
        Some(x) => Some(spec_compress_str(x)),
        None => None,
    }
}

/// The keys the file keeps for the configuration, in the order they are
/// appended, with the value each takes from `c`.
pub open spec fn managed_entries(c: CliView) -> EnvEntries {
    seq![
        ("DB2SQL_FLOW"@, Some(spec_flow_str(c.flow))),
        ("DB2SQL_MODE"@, Some(spec_mode_str(c.mode))),
        ("DB2SQL_LANG"@, Some(spec_lang_str(c.lang))),
        ("DB2SQL_EXPORT_DB_TYPE"@, Some(spec_db_type_str(c.db_type))),
        ("DB2SQL_EXPORT_HOST"@, Some(c.host)),
        ("DB2SQL_EXPORT_PORT"@, Some(decimal(c.port as nat))),
        ("DB2SQL_EXPORT_USER"@, Some(c.user)),
        ("DB2SQL_EXPORT_PASSWORD"@, Some(c.password)),
        ("DB2SQL_EXPORT_DB_NAME"@, Some(c.db_name)),
        ("DB2SQL_EXPORT_OBJECTS"@, Some(c.objects)),
        ("DB2SQL_EXPORT_CONDITION"@, c.condition),
        ("DB2SQL_EXPORT_ORDER_BY"@, c.order_by),
        ("DB2SQL_EXPORT_HIDE_PRIMARY_KEY"@, Some(spec_bool_str(c.hide_primary_key))),
        ("DB2SQL_EXPORT_OUTPUT_FORMAT"@, Some(spec_output_format_str(c.output_format))),
        ("DB2SQL_EXPORT_COMPRESS"@, compress_text(c.compress)),
        ("DB2SQL_EXPORT_DELETE_AFTER_COMPRESS"@, Some(spec_bool_str(c.delete_after_compress))),
        ("DB2SQL_EXPORT_OUTPUT_DIRECTORY"@, Some(c.output_directory)),
        ("DB2SQL_EXPORT_RECSIZE"@, count_text(c.recsize)),
        ("DB2SQL_EXPORT_PAGE_SIZE"@, Some(decimal(c.page_size as nat))),
        ("DB2SQL_EXPORT_PAGE_NO"@, count_text(c.page_no)),
        ("DB2SQL_IMPORT_HOST"@, Some(c.import_host)),
        ("DB2SQL_IMPORT_PORT"@, Some(decimal(c.import_port as nat))),
        ("DB2SQL_IMPORT_DB_TYPE"@, Some(spec_db_type_str(c.import_db_type))),
        ("DB2SQL_IMPORT_USER"@, Some(c.import_user)),
        ("DB2SQL_IMPORT_PASSWORD"@, Some(c.import_password)),
        ("DB2SQL_IMPORT_DB_NAME"@, Some(c.import_db_name)),
    ]
}

fn entry(key: &str, value: Option<String>) -> (r: (String, Option<String>))
    ensures
        r.0@ == key@,
        opt_view(r.1) == opt_view(value),
{
    (to_owned(key), value)
}

fn some_text(s: &str) -> (r: Option<String>)
    ensures
        opt_view(r) == Some(s@),
{
    Some(to_owned(s))
}

fn count_string(o: Option<usize>) -> (r: Option<String>)
    ensures
        opt_view(r) == count_text(o),
{
    match o {
        Some(n) => Some(usize_to_string(n)),
        None => None,
    }
}

/// The managed keys and their values for `cli`.
pub fn managed_env_entries(cli: &Cli) -> (r: Vec<(String, Option<String>)>)
    ensures
        entries_view(r@) == managed_entries(cli@),
{
    let compress = match cli.compress {
        Some(x) => some_text(compress_to_str(x)),
        None => None,
    };
    let mut v: Vec<(String, Option<String>)> = Vec::new();
    v.push(entry("DB2SQL_FLOW", some_text(flow_to_str(cli.flow))));
    v.push(entry("DB2SQL_MODE", some_text(mode_to_str(cli.mode))));
    v.push(entry("DB2SQL_LANG", some_text(lang_to_str(cli.lang))));
    v.push(entry("DB2SQL_EXPORT_DB_TYPE", some_text(db_type_to_str(cli.db_type))));
    v.push(entry("DB2SQL_EXPORT_HOST", some_text(cli.host.as_str())));
    v.push(entry("DB2SQL_EXPORT_PORT", Some(u16_to_string(cli.port))));
    v.push(entry("DB2SQL_EXPORT_USER", some_text(cli.user.as_str())));
    v.push(entry("DB2SQL_EXPORT_PASSWORD", some_text(cli.password.as_str())));
    v.push(entry("DB2SQL_EXPORT_DB_NAME", some_text(cli.db_name.as_str())));
    v.push(entry("DB2SQL_EXPORT_OBJECTS", some_text(cli.objects.as_str())));
    v.push(entry("DB2SQL_EXPORT_CONDITION", copy_opt_string(&cli.condition)));
    v.push(entry("DB2SQL_EXPORT_ORDER_BY", copy_opt_string(&cli.order_by)));
    v.push(entry("DB2SQL_EXPORT_HIDE_PRIMARY_KEY", Some(bool_to_string(cli.hide_primary_key))));
    v.push(
        entry("DB2SQL_EXPORT_OUTPUT_FORMAT", some_text(output_format_to_str(cli.output_format))),
    );
    v.push(entry("DB2SQL_EXPORT_COMPRESS", compress));
    v.push(
        entry(
            "DB2SQL_EXPORT_DELETE_AFTER_COMPRESS",
            Some(bool_to_string(cli.delete_after_compress)),
        ),
    );
    v.push(entry("DB2SQL_EXPORT_OUTPUT_DIRECTORY", some_text(cli.output_directory.as_str())));
    v.push(entry("DB2SQL_EXPORT_RECSIZE", count_string(cli.recsize)));
    v.push(entry("DB2SQL_EXPORT_PAGE_SIZE", Some(usize_to_string(cli.page_size))));
    v.push(entry("DB2SQL_EXPORT_PAGE_NO", count_string(cli.page_no)));
    v.push(entry("DB2SQL_IMPORT_HOST", some_text(cli.import_host.as_str())));
    v.push(entry("DB2SQL_IMPORT_PORT", Some(u16_to_string(cli.import_port))));
    v.push(entry("DB2SQL_IMPORT_DB_TYPE", some_text(db_type_to_str(cli.import_db_type))));
    v.push(entry("DB2SQL_IMPORT_USER", some_text(cli.import_user.as_str())));
    v.push(entry("DB2SQL_IMPORT_PASSWORD", some_text(cli.import_password.as_str())));
    v.push(entry("DB2SQL_IMPORT_DB_NAME", some_text(cli.import_db_name.as_str())));
    assert(entries_view(v@) =~= managed_entries(cli@));
    v
}

// ---------------------------------------------------------------------
// Reading a line
// ---------------------------------------------------------------------

/// Position of the first `c` in `s`, or the length when there is none.
pub open spec fn first_index(s: Seq<char>, c: char) -> nat
    decreases s.len(),
{
    if s.len() == 0 {
        0
    } else if s[0] == c {
        0
    } else {
        1 + first_index(s.drop_first(), c)
    }
}

/// The key a line assigns: on a line that is not a `#` comment and holds an
/// `=`, the text before the first `=`, trimmed.
pub open spec fn line_key(line: Seq<char>) -> Option<Seq<char>> {
    let t = trim_start_seq(line);
    if (t.len() > 0 && t[0] == '#') || !t.contains('=') {
        None
    } else {
        Some(trim_seq(t.take(first_index(t, '=') as int)))
    }
}

/// The value an entry gives `key`: `None` when `key` is not managed.
pub open spec fn lookup(m: EnvEntries, key: Seq<char>) -> Option<Option<Seq<char>>>
    decreases m.len(),
{
    if m.len() == 0 {
        None
    } else if m[0].0 == key {
        Some(m[0].1)
    } else {
        lookup(m.drop_first(), key)
    }
}

/// `KEY="value"`.
pub open spec fn env_line(key: Seq<char>, value: Seq<char>) -> Seq<char> {
    key + "="@ + env_quoted(value)
}

/// What becomes of one line of the file.
pub open spec fn rewritten_line(line: Seq<char>, m: EnvEntries) -> Seq<Seq<char>> {
    match line_key(line) {
        None => seq![line],
        Some(k) => match lookup(m, k) {
            None => seq![line],
            Some(Some(v)) => seq![env_line(k, v)],
            Some(None) => seq![],
        },
    }
}

pub open spec fn rewrite_lines(ls: Seq<Seq<char>>, m: EnvEntries) -> Seq<Seq<char>>
    decreases ls.len(),
{
    if ls.len() == 0 {
        seq![]
    } else {
        rewrite_lines(ls.drop_last(), m) + rewritten_line(ls.last(), m)
    }
}

/// Whether some line assigns `key`.
pub open spec fn mentions(ls: Seq<Seq<char>>, key: Seq<char>) -> bool {
    exists|i: int| 0 <= i < ls.len() && line_key(ls[i]) == Some(key)
}

/// The managed keys with a value that no line assigns, as lines, in order.
pub open spec fn appended_lines(ls: Seq<Seq<char>>, m: EnvEntries) -> Seq<Seq<char>>
    decreases m.len(),
{
    if m.len() == 0 {
        seq![]
    } else {
        let e = m.last();
        appended_lines(ls, m.drop_last()) + if !mentions(ls, e.0) && e.1 is Some {
            seq![env_line(e.0, e.1->0)]
        } else {
            seq![]
        }
    }
}

/// The lines the file is left with, before the closing empty line.
pub open spec fn env_file_lines(existing: Seq<char>, m: EnvEntries) -> Seq<Seq<char>> {
    let ls = lines_seq(existing);
    rewrite_lines(ls, m) + appended_lines(ls, m)
}

/// The new text of the file: its lines joined by line feeds, ending in one.
pub open spec fn env_file_text(existing: Seq<char>, m: EnvEntries) -> Seq<char> {
    join_seq(env_file_lines(existing, m).push(Seq::<char>::empty()), "\n"@)
}

fn first_eq_from(v: &Vec<char>, from: usize) -> (j: usize)
    requires
        from <= v@.len(),
    ensures
        from <= j <= v@.len(),
        j - from == first_index(v@.skip(from as int), '='),
        j < v@.len() <==> v@.skip(from as int).contains('='),
{
    let n = v.len();
    let mut j: usize = from;
    while j < n && v[j] != '='
        invariant
            n == v@.len(),
            from <= j <= n,
            first_index(v@.skip(from as int), '=') == (j - from) + first_index(
                v@.skip(j as int),
                '=',
            ),
            forall|k: int| from <= k < j ==> v@[k] != '=',
        decreases n - j,
    {
        assert(v@.skip(j as int).drop_first() =~= v@.skip(j + 1));
        j = j + 1;
    }
    proof {
        let t = v@.skip(from as int);
        if j < n {
            assert(t[j - from] == '=');
        } else {
            assert forall|k: int| 0 <= k < t.len() implies t[k] != '=' by {
                assert(t[k] == v@[from + k]);
            }
        }
    }
    j
}

/// The key `line` assigns, if any (see `line_key`).
pub fn line_key_of(line: &str) -> (r: Option<String>)
    ensures
        opt_view(r) == line_key(line@),
{
    let v = chars_of(line);
    let i = trim_start_index(&v);
    if i < v.len() && v[i] == '#' {
        return None;
    }
    let j = first_eq_from(&v, i);
    if j == v.len() {
        return None;
    }
    let key_part: Vec<char> = chars_of(substring(&v, i, j).as_str());
    proof {
        let t = v@.skip(i as int);
        assert(t.take((j - i) as int) =~= v@.subrange(i as int, j as int));
    }
    Some(trim_chars(&key_part))
}

/// The value the entries give `key`, if `key` is managed.
pub fn lookup_entry(m: &Vec<(String, Option<String>)>, key: &str) -> (r: Option<Option<String>>)
    ensures
        match r {
            Some(v) => lookup(entries_view(m@), key@) == Some(opt_view(v)),
            None => lookup(entries_view(m@), key@) is None,
        },
{
    let n = m.len();
    let mut i: usize = 0;
    assert(entries_view(m@).skip(0) =~= entries_view(m@));
    while i < n
        invariant
            n == m@.len(),
            i <= n,
            lookup(entries_view(m@), key@) == lookup(entries_view(m@).skip(i as int), key@),
        decreases n - i,
    {
        assert(entries_view(m@).skip(i as int)[0] == (m@[i as int].0@, opt_view(m@[i as int].1)));
        if str_eq(m[i].0.as_str(), key) {
            return Some(copy_opt_string(&m[i].1));
        }
        assert(entries_view(m@).skip(i as int).drop_first() =~= entries_view(m@).skip(i + 1));
        i = i + 1;
    }
    None
}

fn env_line_string(key: &str, value: &str) -> (r: String)
    ensures
        r@ == env_line(key@, value@),
{
    let mut s = to_owned(key);
    push_str(&mut s, "=");
    push_str(&mut s, env_quote(value).as_str());
    s
}

proof fn lemma_lookup_own_key(m: EnvEntries, j: int)
    requires
        0 <= j < m.len(),
    ensures
        lookup(m, m[j].0) is Some,
    decreases j,
{
    if j > 0 && m[0].0 != m[j].0 {
        assert(m.drop_first()[j - 1] == m[j]);
        lemma_lookup_own_key(m.drop_first(), j - 1);
    }
}

/// The new text of the `.env` file for the entries `m`, given its current
/// text (empty when there is no file).
pub fn render_env_text(existing: &str, m: &Vec<(String, Option<String>)>) -> (r: String)
    ensures
        r@ == env_file_text(existing@, entries_view(m@)),
{
    let ghost mv = entries_view(m@);
    let ls = lines(existing);
    let ghost lv = views(ls@);
    let mut out: Vec<String> = Vec::new();
    let mut seen: Vec<String> = Vec::new();
    let n = ls.len();
    let mut i: usize = 0;
    while i < n
        invariant
            n == ls@.len(),
            lv == views(ls@),
            lv == lines_seq(existing@),
            mv == entries_view(m@),
            i <= n,
            views(out@) == rewrite_lines(lv.take(i as int), mv),
            forall|k: Seq<char>|
                lookup(mv, k) is Some ==> (views(seen@).contains(k) <==> mentions(
                    lv.take(i as int),
                    k,
                )),
        decreases n - i,
    {
        let ghost before = views(out@);
        let ghost seen_before = views(seen@);
        assert(lv.take(i + 1).drop_last() =~= lv.take(i as int));
        assert(lv.take(i + 1).last() == ls@[i as int]@);
        let line = ls[i].as_str();
        match line_key_of(line) {
            None => {
                out.push(to_owned(line));
            },
            Some(k) => match lookup_entry(m, k.as_str()) {
                None => {
                    out.push(to_owned(line));
                },
                Some(val) => {
                    seen.push(to_owned(k.as_str()));
                    match val {
                        Some(v) => {
                            out.push(env_line_string(k.as_str(), v.as_str()));
                        },
                        None => {},
                    }
                },
            },
        }
        proof {
            assert(views(out@) =~= before + rewritten_line(lv[i as int], mv));
            let t1 = lv.take(i + 1);
            let t0 = lv.take(i as int);
            assert forall|k: Seq<char>| lookup(mv, k) is Some implies (views(seen@).contains(k)
                <==> mentions(t1, k)) by {
                if mentions(t1, k) {
                    let w = choose|w: int| 0 <= w < t1.len() && line_key(#[trigger] t1[w]) == Some(k);
                    if w < i {
                        assert(t0[w] == t1[w]);
                        assert(mentions(t0, k));
                    }
                }
                if mentions(t0, k) {
                    let w = choose|w: int| 0 <= w < t0.len() && line_key(#[trigger] t0[w]) == Some(k);
                    assert(t1[w] == t0[w]);
                }
                if line_key(lv[i as int]) == Some(k) {
                    assert(t1[i as int] == lv[i as int]);
                }
                if views(seen@).contains(k) && !seen_before.contains(k) {
                    assert(views(seen@) == seen_before.push(views(seen@).last()));
                }
                if seen_before.contains(k) {
                    let w = choose|w: int| 0 <= w < seen_before.len() && seen_before[w] == k;
                    assert(views(seen@)[w] == k);
                }
            }
        }
        i = i + 1;
    }
    assert(lv.take(n as int) =~= lv);
    let ghost rewritten = views(out@);
    let k = m.len();
    let mut j: usize = 0;
    assert(mv.take(0) =~= Seq::<(Seq<char>, Option<Seq<char>>)>::empty());
    while j < k
        invariant
            k == m@.len(),
            mv == entries_view(m@),
            lv == lines_seq(existing@),
            j <= k,
            views(out@) == rewritten + appended_lines(lv, mv.take(j as int)),
            rewritten == rewrite_lines(lv, mv),
            forall|key: Seq<char>|
                lookup(mv, key) is Some ==> (views(seen@).contains(key) <==> mentions(lv, key)),
        decreases k - j,
    {
        let ghost before = views(out@);
        assert(mv.take(j + 1).drop_last() =~= mv.take(j as int));
        assert(mv.take(j + 1).last() == mv[j as int]);
        assert(mv[j as int] == (m@[j as int].0@, opt_view(m@[j as int].1)));
        proof {
            lemma_lookup_own_key(mv, j as int);
            assert(views(seen@).contains(mv[j as int].0) <==> mentions(lv, mv[j as int].0));
            let e = mv[j as int];
            assert(appended_lines(lv, mv.take(j + 1)) == appended_lines(lv, mv.take(j as int)) + if !mentions(lv, e.0) && e.1 is Some {
                seq![env_line(e.0, e.1->0)]
            } else {
                seq![]
            });
        }
        let present = contains_string(&seen, m[j].0.as_str());
        if !present {
            match &m[j].1 {
                Some(v) => {
                    out.push(env_line_string(m[j].0.as_str(), v.as_str()));
                    assert(views(out@) =~= before.push(
                        env_line(mv[j as int].0, mv[j as int].1->0),
                    ));
                },
                None => {
                    assert(views(out@) =~= before);
                },
            }
        } else {
            assert(views(out@) =~= before);
        }
        assert(views(out@) =~= rewritten + appended_lines(lv, mv.take(j + 1)));
        j = j + 1;
    }
    assert(mv.take(k as int) =~= mv);
    out.push(String::new());
    assert(views(out@) =~= env_file_lines(existing@, mv).push(Seq::<char>::empty()));
    join(&out, "\n")
}

/// The new text of the `.env` file that keeps the configuration `cli`,
/// given its current text (empty when there is none or it cannot be read).
pub fn persist_env_from_cli(existing: &str, cli: &Cli) -> (r: String)
    ensures
        r@ == env_file_text(existing@, managed_entries(cli@)),
{
    let m = managed_env_entries(cli);
    render_env_text(existing, &m)
}

/// Where the `.env` file is: `../.env` when that file exists, else `.env`.
pub fn env_file_path(parent_env_exists: bool) -> (r: &'static str)
    ensures
        r@ == if parent_env_exists {
            "../.env"@
        } else {
            ".env"@
        },
{
    if parent_env_exists {
        "../.env"
    } else {
        ".env"
    }
}


// ---------------------------------------------------------------------
// Writing the file twice changes nothing
// ---------------------------------------------------------------------

/// A key the file can hold: not empty, without `=` or line feed, starting
/// with neither white space nor `#`, ending without white space.
pub open spec fn plain_key(k: Seq<char>) -> bool {
    &&& k.len() > 0
    &&& !k.contains('=')
    &&& !k.contains('\n')
    &&& !is_ws(k[0])
    &&& k[0] != '#'
    &&& !is_ws(k.last())
}

/// Entries the rewrite can settle: plain keys, each once, and values
/// without line feeds.
pub open spec fn entries_ok(m: EnvEntries) -> bool {
    &&& forall|i: int| 0 <= i < m.len() ==> plain_key(#[trigger] m[i].0)
    &&& forall|i: int, j: int| 0 <= i < j < m.len() ==> m[i].0 != m[j].0
    &&& forall|i: int|
        0 <= i < m.len() && (#[trigger] m[i]).1 is Some ==> !m[i].1->0.contains('\n')
}

/// A line the rewrite keeps as it is: it assigns no managed key.
pub open spec fn kept_line(line: Seq<char>, m: EnvEntries) -> bool {
    match line_key(line) {
        None => true,
        Some(k) => lookup(m, k) is None,
    }
}

pub open spec fn no_trailing_cr(l: Seq<char>) -> bool {
    !(l.len() > 0 && l.last() == '\r')
}

/// A line as the rewrite leaves it: kept, or the current assignment of a
/// managed key.
pub open spec fn settled_line(x: Seq<char>, m: EnvEntries) -> bool {
    ||| kept_line(x, m) && !x.contains('\n') && no_trailing_cr(x)
    ||| match line_key(x) {
        Some(k) => match lookup(m, k) {
            Some(Some(v)) => x == env_line(k, v) && !v.contains('\n') && plain_key(k),
            _ => false,
        },
        None => false,
    }
}

proof fn lemma_first_index_after(k: Seq<char>, rest: Seq<char>, c: char)
    requires
        !k.contains(c),
        rest.len() > 0,
        rest[0] == c,
    ensures
        first_index(k + rest, c) == k.len(),
    decreases k.len(),
{
    if k.len() == 0 {
        assert(k + rest =~= rest);
    } else {
        assert(k[0] != c);
        assert((k + rest).drop_first() =~= k.drop_first() + rest);
        assert(!k.drop_first().contains(c)) by {
            if k.drop_first().contains(c) {
                let i = choose|i: int| 0 <= i < k.drop_first().len() && k.drop_first()[i] == c;
                assert(k[i + 1] == c);
            }
        }
        lemma_first_index_after(k.drop_first(), rest, c);
    }
}

proof fn lemma_escaped_no_lf(v: Seq<char>)
    requires
        !v.contains('\n'),
    ensures
        !escaped(v, CharRule::EnvValue).contains('\n'),
    decreases v.len(),
{
    reveal_strlit("\\\\");
    reveal_strlit("\\\"");
    if v.len() > 0 {
        assert(!v.drop_last().contains('\n')) by {
            if v.drop_last().contains('\n') {
                let i = choose|i: int| 0 <= i < v.drop_last().len() && v.drop_last()[i] == '\n';
                assert(v[i] == '\n');
            }
        }
        lemma_escaped_no_lf(v.drop_last());
        let a = escaped(v.drop_last(), CharRule::EnvValue);
        let b = piece(CharRule::EnvValue, v.last());
        assert(v[v.len() - 1] == v.last());
        assert(!b.contains('\n'));
        assert(!(a + b).contains('\n')) by {
            if (a + b).contains('\n') {
                let i = choose|i: int| 0 <= i < (a + b).len() && (a + b)[i] == '\n';
                if i < a.len() {
                    assert(a[i] == '\n');
                } else {
                    assert(b[i - a.len()] == '\n');
                }
            }
        }
    }
}

/// The line written for a key assigns that key, holds no line feed, and
/// ends in a quote.
proof fn lemma_env_line_facts(k: Seq<char>, v: Seq<char>)
    requires
        plain_key(k),
        !v.contains('\n'),
    ensures
        line_key(env_line(k, v)) == Some(k),
        !env_line(k, v).contains('\n'),
        no_trailing_cr(env_line(k, v)),
{
    reveal_strlit("=");
    let line = env_line(k, v);
    let rest = "="@ + env_quoted(v);
    assert(line =~= k + rest);
    assert(line[0] == k[0]);
    assert(trim_start_seq(line) == line);
    assert(line[k.len() as int] == '=');
    assert(line.contains('='));
    lemma_first_index_after(k, rest, '=');
    assert(line.take(k.len() as int) =~= k);
    assert(k[k.len() - 1] == k.last());
    lemma_trim_unchanged(k);
    lemma_escaped_no_lf(v);
    let q = env_quoted(v);
    let e = escaped(v, CharRule::EnvValue);
    assert(q =~= seq!['"'] + e + seq!['"']);
    assert(line.last() == '"');
    assert(!line.contains('\n')) by {
        if line.contains('\n') {
            let i = choose|i: int| 0 <= i < line.len() && line[i] == '\n';
            if i < k.len() {
                assert(k[i] == '\n');
            } else if i == k.len() {
            } else if i == k.len() + 1 {
            } else if i < k.len() + 2 + e.len() {
                assert(e[i - k.len() - 2] == '\n');
            }
        }
    }
}

proof fn lemma_lookup_found(m: EnvEntries, k: Seq<char>) -> (i: int)
    requires
        lookup(m, k) is Some,
    ensures
        0 <= i < m.len(),
        m[i].0 == k,
        lookup(m, k) == Some(m[i].1),
    decreases m.len(),
{
    if m[0].0 == k {
        0
    } else {
        let j = lemma_lookup_found(m.drop_first(), k);
        j + 1
    }
}

proof fn lemma_lookup_distinct(m: EnvEntries, i: int)
    requires
        forall|a: int, b: int| 0 <= a < b < m.len() ==> m[a].0 != m[b].0,
        0 <= i < m.len(),
    ensures
        lookup(m, m[i].0) == Some(m[i].1),
    decreases i,
{
    if i > 0 {
        assert(m[0].0 != m[i].0);
        let d = m.drop_first();
        assert(d[i - 1] == m[i]);
        assert forall|a: int, b: int| 0 <= a < b < d.len() implies d[a].0 != d[b].0 by {
            assert(d[a] == m[a + 1]);
            assert(d[b] == m[b + 1]);
        }
        lemma_lookup_distinct(d, i - 1);
    }
}

proof fn lemma_rewritten_settled(l: Seq<char>, m: EnvEntries)
    requires
        entries_ok(m),
        !l.contains('\n'),
        kept_line(l, m) ==> no_trailing_cr(l),
    ensures
        forall|x: int|
            0 <= x < rewritten_line(l, m).len() ==> settled_line(
                #[trigger] rewritten_line(l, m)[x],
                m,
            ),
{
    match line_key(l) {
        None => {},
        Some(k) => {
            if lookup(m, k) is Some {
                let i = lemma_lookup_found(m, k);
                assert(plain_key(m[i].0));
                match m[i].1 {
                    Some(v) => {
                        assert(m[i].1 is Some);
                        lemma_env_line_facts(k, v);
                    },
                    None => {},
                }
            }
        },
    }
}

proof fn lemma_rewrite_settled(ls: Seq<Seq<char>>, m: EnvEntries)
    requires
        entries_ok(m),
        forall|i: int| 0 <= i < ls.len() ==> !(#[trigger] ls[i]).contains('\n'),
        forall|i: int| 0 <= i < ls.len() && kept_line(#[trigger] ls[i], m) ==> no_trailing_cr(ls[i]),
    ensures
        forall|x: int|
            0 <= x < rewrite_lines(ls, m).len() ==> settled_line(#[trigger] rewrite_lines(ls, m)[x], m),
    decreases ls.len(),
{
    if ls.len() > 0 {
        let front = ls.drop_last();
        assert forall|i: int| 0 <= i < front.len() implies !(#[trigger] front[i]).contains('\n') by {
            assert(front[i] == ls[i]);
        }
        assert forall|i: int| 0 <= i < front.len() && kept_line(#[trigger] front[i], m) implies no_trailing_cr(front[i]) by {
            assert(front[i] == ls[i]);
        }
        lemma_rewrite_settled(front, m);
        assert(ls[ls.len() - 1] == ls.last());
        lemma_rewritten_settled(ls.last(), m);
        let a = rewrite_lines(front, m);
        let b = rewritten_line(ls.last(), m);
        assert forall|x: int| 0 <= x < (a + b).len() implies settled_line(#[trigger] (a + b)[x], m) by {
            if x < a.len() {
                assert((a + b)[x] == a[x]);
            } else {
                assert((a + b)[x] == b[x - a.len()]);
            }
        }
    }
}

proof fn lemma_appended_settled(ls: Seq<Seq<char>>, m: EnvEntries, n: int)
    requires
        entries_ok(m),
        0 <= n <= m.len(),
    ensures
        forall|x: int|
            0 <= x < appended_lines(ls, m.take(n)).len() ==> settled_line(
                #[trigger] appended_lines(ls, m.take(n))[x],
                m,
            ),
    decreases n,
{
    if n > 0 {
        let mp = m.take(n);
        assert(mp.drop_last() =~= m.take(n - 1));
        assert(mp.last() == m[n - 1]);
        lemma_appended_settled(ls, m, n - 1);
        let a = appended_lines(ls, m.take(n - 1));
        let e = m[n - 1];
        if !mentions(ls, e.0) && e.1 is Some {
            lemma_lookup_distinct(m, n - 1);
            assert(plain_key(m[n - 1].0));
            lemma_env_line_facts(e.0, e.1->0);
        }
        let b = appended_lines(ls, mp).subrange(a.len() as int, appended_lines(ls, mp).len() as int);
        assert forall|x: int| 0 <= x < appended_lines(ls, mp).len() implies settled_line(
            #[trigger] appended_lines(ls, mp)[x],
            m,
        ) by {
            if x < a.len() {
                assert(appended_lines(ls, mp)[x] == a[x]);
            }
        }
    }
}

proof fn lemma_settled_fixed(xs: Seq<Seq<char>>, m: EnvEntries)
    requires
        forall|x: int| 0 <= x < xs.len() ==> settled_line(#[trigger] xs[x], m),
    ensures
        rewrite_lines(xs, m) == xs,
    decreases xs.len(),
{
    if xs.len() > 0 {
        let front = xs.drop_last();
        assert forall|x: int| 0 <= x < front.len() implies settled_line(#[trigger] front[x], m) by {
            assert(front[x] == xs[x]);
        }
        lemma_settled_fixed(front, m);
        assert(xs[xs.len() - 1] == xs.last());
        assert(rewritten_line(xs.last(), m) =~= seq![xs.last()]);
        assert(front.push(xs.last()) =~= xs);
    }
}

proof fn lemma_rewrite_holds(ls: Seq<Seq<char>>, m: EnvEntries, w: int)
    requires
        0 <= w < ls.len(),
    ensures
        forall|y: int|
            0 <= y < rewritten_line(ls[w], m).len() ==> rewrite_lines(ls, m).contains(
                #[trigger] rewritten_line(ls[w], m)[y],
            ),
    decreases ls.len(),
{
    let front = ls.drop_last();
    let a = rewrite_lines(front, m);
    let b = rewritten_line(ls.last(), m);
    if w == ls.len() - 1 {
        assert(ls[w] == ls.last());
        assert forall|y: int| 0 <= y < b.len() implies (a + b).contains(#[trigger] b[y]) by {
            assert((a + b)[a.len() + y] == b[y]);
        }
    } else {
        assert(front[w] == ls[w]);
        lemma_rewrite_holds(front, m, w);
        assert forall|y: int| 0 <= y < rewritten_line(ls[w], m).len() implies (a + b).contains(
            #[trigger] rewritten_line(ls[w], m)[y],
        ) by {
            let z = choose|z: int| 0 <= z < a.len() && a[z] == rewritten_line(ls[w], m)[y];
            assert((a + b)[z] == a[z]);
        }
    }
}

proof fn lemma_appended_holds(ls: Seq<Seq<char>>, m: EnvEntries, n: int, i: int)
    requires
        0 <= i < n <= m.len(),
        !mentions(ls, m[i].0),
        m[i].1 is Some,
    ensures
        appended_lines(ls, m.take(n)).contains(env_line(m[i].0, m[i].1->0)),
    decreases n,
{
    let mp = m.take(n);
    assert(mp.drop_last() =~= m.take(n - 1));
    assert(mp.last() == m[n - 1]);
    let a = appended_lines(ls, m.take(n - 1));
    if i == n - 1 {
        assert(appended_lines(ls, mp)[a.len() as int] == env_line(m[i].0, m[i].1->0));
    } else {
        lemma_appended_holds(ls, m, n - 1, i);
        let z = choose|z: int| 0 <= z < a.len() && a[z] == env_line(m[i].0, m[i].1->0);
        assert(appended_lines(ls, mp)[z] == a[z]);
    }
}

proof fn lemma_appended_none(xs: Seq<Seq<char>>, mp: EnvEntries)
    requires
        forall|i: int| 0 <= i < mp.len() && (#[trigger] mp[i]).1 is Some ==> mentions(xs, mp[i].0),
    ensures
        appended_lines(xs, mp) == Seq::<Seq<char>>::empty(),
    decreases mp.len(),
{
    if mp.len() > 0 {
        let front = mp.drop_last();
        assert forall|i: int| 0 <= i < front.len() && (#[trigger] front[i]).1 is Some implies mentions(xs, front[i].0) by {
            assert(front[i] == mp[i]);
        }
        lemma_appended_none(xs, front);
        assert(mp[mp.len() - 1] == mp.last());
    }
}

/// Rewriting the file a second time with the same entries leaves it as the
/// first rewrite left it. Lines that assign no managed key are kept as they
/// are, so a kept line that ends in a carriage return would lose it once it
/// is followed by a line feed; such lines are left out.
pub proof fn law_env_rewrite_settles(existing: Seq<char>, m: EnvEntries)
    requires
        entries_ok(m),
        forall|i: int|
            0 <= i < lines_seq(existing).len() && kept_line(#[trigger] lines_seq(existing)[i], m)
                ==> no_trailing_cr(lines_seq(existing)[i]),
    ensures
        env_file_text(env_file_text(existing, m), m) == env_file_text(existing, m),
{
    let ls = lines_seq(existing);
    lemma_lines_have_no_lf(existing);
    lemma_rewrite_settled(ls, m);
    lemma_appended_settled(ls, m, m.len() as int);
    assert(m.take(m.len() as int) =~= m);
    let a = rewrite_lines(ls, m);
    let b = appended_lines(ls, m);
    let o = env_file_lines(existing, m);
    assert(o == a + b);
    assert forall|x: int| 0 <= x < o.len() implies settled_line(#[trigger] o[x], m) by {
        if x < a.len() {
            assert(o[x] == a[x]);
        } else {
            assert(o[x] == b[x - a.len()]);
        }
    }
    assert forall|x: int| 0 <= x < o.len() implies !(#[trigger] o[x]).contains('\n') && no_trailing_cr(o[x]) by {
        assert(settled_line(o[x], m));
        if !(kept_line(o[x], m) && !o[x].contains('\n') && no_trailing_cr(o[x])) {
            let k = line_key(o[x])->0;
            let v = lookup(m, k)->0->0;
            lemma_env_line_facts(k, v);
        }
    }
    lemma_lines_of_terminated(o);
    assert(lines_seq(env_file_text(existing, m)) == o);
    lemma_settled_fixed(o, m);
    assert forall|i: int| 0 <= i < m.len() && (#[trigger] m[i]).1 is Some implies mentions(o, m[i].0) by {
        lemma_lookup_distinct(m, i);
        let v = m[i].1->0;
        lemma_env_line_facts(m[i].0, v);
        let line = env_line(m[i].0, v);
        if mentions(ls, m[i].0) {
            let w = choose|w: int| 0 <= w < ls.len() && line_key(ls[w]) == Some(m[i].0);
            lemma_rewrite_holds(ls, m, w);
            assert(rewritten_line(ls[w], m)[0] == line);
            let z = choose|z: int| 0 <= z < a.len() && a[z] == line;
            assert(o[z] == line);
        } else {
            lemma_appended_holds(ls, m, m.len() as int, i);
            let z = choose|z: int| 0 <= z < b.len() && b[z] == line;
            assert(o[a.len() + z] == line);
        }
    }
    lemma_appended_none(o, m);
    assert(env_file_lines(env_file_text(existing, m), m) =~= o);
}

/// What tells the managed keys apart: their lengths and a few characters.
pub(crate) proof fn lemma_key_facts()
    ensures
        "DB2SQL_FLOW"@.len() == 11,
        "DB2SQL_FLOW"@[7] == 'F',
        "DB2SQL_MODE"@.len() == 11,
        "DB2SQL_MODE"@[7] == 'M',
        "DB2SQL_LANG"@.len() == 11,
        "DB2SQL_LANG"@[7] == 'L',
        "DB2SQL_EXPORT_DB_TYPE"@.len() == 21,
        "DB2SQL_EXPORT_DB_TYPE"@[7] == 'E',
        "DB2SQL_EXPORT_DB_TYPE"@[14] == 'D',
        "DB2SQL_EXPORT_DB_TYPE"@[17] == 'T',
        "DB2SQL_EXPORT_HOST"@.len() == 18,
        "DB2SQL_EXPORT_HOST"@[7] == 'E',
        "DB2SQL_EXPORT_HOST"@[14] == 'H',
        "DB2SQL_EXPORT_HOST"@[17] == 'T',
        "DB2SQL_EXPORT_PORT"@.len() == 18,
        "DB2SQL_EXPORT_PORT"@[7] == 'E',
        "DB2SQL_EXPORT_PORT"@[14] == 'P',
        "DB2SQL_EXPORT_PORT"@[17] == 'T',
        "DB2SQL_EXPORT_USER"@.len() == 18,
        "DB2SQL_EXPORT_USER"@[7] == 'E',
        "DB2SQL_EXPORT_USER"@[14] == 'U',
        "DB2SQL_EXPORT_USER"@[17] == 'R',
        "DB2SQL_EXPORT_PASSWORD"@.len() == 22,
        "DB2SQL_EXPORT_PASSWORD"@[7] == 'E',
        "DB2SQL_EXPORT_PASSWORD"@[14] == 'P',
        "DB2SQL_EXPORT_PASSWORD"@[17] == 'S',
        "DB2SQL_EXPORT_DB_NAME"@.len() == 21,
        "DB2SQL_EXPORT_DB_NAME"@[7] == 'E',
        "DB2SQL_EXPORT_DB_NAME"@[14] == 'D',
        "DB2SQL_EXPORT_DB_NAME"@[17] == 'N',
        "DB2SQL_EXPORT_OBJECTS"@.len() == 21,
        "DB2SQL_EXPORT_OBJECTS"@[7] == 'E',
        "DB2SQL_EXPORT_OBJECTS"@[14] == 'O',
        "DB2SQL_EXPORT_OBJECTS"@[17] == 'E',
        "DB2SQL_EXPORT_CONDITION"@.len() == 23,
        "DB2SQL_EXPORT_CONDITION"@[7] == 'E',
        "DB2SQL_EXPORT_CONDITION"@[14] == 'C',
        "DB2SQL_EXPORT_CONDITION"@[17] == 'D',
        "DB2SQL_EXPORT_ORDER_BY"@.len() == 22,
        "DB2SQL_EXPORT_ORDER_BY"@[7] == 'E',
        "DB2SQL_EXPORT_ORDER_BY"@[14] == 'O',
        "DB2SQL_EXPORT_ORDER_BY"@[17] == 'E',
        "DB2SQL_EXPORT_HIDE_PRIMARY_KEY"@.len() == 30,
        "DB2SQL_EXPORT_HIDE_PRIMARY_KEY"@[7] == 'E',
        "DB2SQL_EXPORT_HIDE_PRIMARY_KEY"@[14] == 'H',
        "DB2SQL_EXPORT_HIDE_PRIMARY_KEY"@[17] == 'E',
        "DB2SQL_EXPORT_OUTPUT_FORMAT"@.len() == 27,
        "DB2SQL_EXPORT_OUTPUT_FORMAT"@[7] == 'E',
        "DB2SQL_EXPORT_OUTPUT_FORMAT"@[14] == 'O',
        "DB2SQL_EXPORT_OUTPUT_FORMAT"@[17] == 'P',
        "DB2SQL_EXPORT_COMPRESS"@.len() == 22,
        "DB2SQL_EXPORT_COMPRESS"@[7] == 'E',
        "DB2SQL_EXPORT_COMPRESS"@[14] == 'C',
        "DB2SQL_EXPORT_COMPRESS"@[17] == 'P',
        "DB2SQL_EXPORT_DELETE_AFTER_COMPRESS"@.len() == 35,
        "DB2SQL_EXPORT_DELETE_AFTER_COMPRESS"@[7] == 'E',
        "DB2SQL_EXPORT_DELETE_AFTER_COMPRESS"@[14] == 'D',
        "DB2SQL_EXPORT_DELETE_AFTER_COMPRESS"@[17] == 'E',
        "DB2SQL_EXPORT_OUTPUT_DIRECTORY"@.len() == 30,
        "DB2SQL_EXPORT_OUTPUT_DIRECTORY"@[7] == 'E',
        "DB2SQL_EXPORT_OUTPUT_DIRECTORY"@[14] == 'O',
        "DB2SQL_EXPORT_OUTPUT_DIRECTORY"@[17] == 'P',
        "DB2SQL_EXPORT_RECSIZE"@.len() == 21,
        "DB2SQL_EXPORT_RECSIZE"@[7] == 'E',
        "DB2SQL_EXPORT_RECSIZE"@[14] == 'R',
        "DB2SQL_EXPORT_RECSIZE"@[17] == 'S',
        "DB2SQL_EXPORT_PAGE_SIZE"@.len() == 23,
        "DB2SQL_EXPORT_PAGE_SIZE"@[7] == 'E',
        "DB2SQL_EXPORT_PAGE_SIZE"@[14] == 'P',
        "DB2SQL_EXPORT_PAGE_SIZE"@[17] == 'E',
        "DB2SQL_EXPORT_PAGE_NO"@.len() == 21,
        "DB2SQL_EXPORT_PAGE_NO"@[7] == 'E',
        "DB2SQL_EXPORT_PAGE_NO"@[14] == 'P',
        "DB2SQL_EXPORT_PAGE_NO"@[17] == 'E',
        "DB2SQL_IMPORT_HOST"@.len() == 18,
        "DB2SQL_IMPORT_HOST"@[7] == 'I',
        "DB2SQL_IMPORT_HOST"@[14] == 'H',
        "DB2SQL_IMPORT_HOST"@[17] == 'T',
        "DB2SQL_IMPORT_PORT"@.len() == 18,
        "DB2SQL_IMPORT_PORT"@[7] == 'I',
        "DB2SQL_IMPORT_PORT"@[14] == 'P',
        "DB2SQL_IMPORT_PORT"@[17] == 'T',
        "DB2SQL_IMPORT_DB_TYPE"@.len() == 21,
        "DB2SQL_IMPORT_DB_TYPE"@[7] == 'I',
        "DB2SQL_IMPORT_DB_TYPE"@[14] == 'D',
        "DB2SQL_IMPORT_DB_TYPE"@[17] == 'T',
        "DB2SQL_IMPORT_USER"@.len() == 18,
        "DB2SQL_IMPORT_USER"@[7] == 'I',
        "DB2SQL_IMPORT_USER"@[14] == 'U',
        "DB2SQL_IMPORT_USER"@[17] == 'R',
        "DB2SQL_IMPORT_PASSWORD"@.len() == 22,
        "DB2SQL_IMPORT_PASSWORD"@[7] == 'I',
        "DB2SQL_IMPORT_PASSWORD"@[14] == 'P',
        "DB2SQL_IMPORT_PASSWORD"@[17] == 'S',
        "DB2SQL_IMPORT_DB_NAME"@.len() == 21,
        "DB2SQL_IMPORT_DB_NAME"@[7] == 'I',
        "DB2SQL_IMPORT_DB_NAME"@[14] == 'D',
        "DB2SQL_IMPORT_DB_NAME"@[17] == 'N',
{
    reveal_strlit("DB2SQL_FLOW");
    reveal_strlit("DB2SQL_MODE");
    reveal_strlit("DB2SQL_LANG");
    reveal_strlit("DB2SQL_EXPORT_DB_TYPE");
    reveal_strlit("DB2SQL_EXPORT_HOST");
    reveal_strlit("DB2SQL_EXPORT_PORT");
    reveal_strlit("DB2SQL_EXPORT_USER");
    reveal_strlit("DB2SQL_EXPORT_PASSWORD");
    reveal_strlit("DB2SQL_EXPORT_DB_NAME");
    reveal_strlit("DB2SQL_EXPORT_OBJECTS");
    reveal_strlit("DB2SQL_EXPORT_CONDITION");
    reveal_strlit("DB2SQL_EXPORT_ORDER_BY");
    reveal_strlit("DB2SQL_EXPORT_HIDE_PRIMARY_KEY");
    reveal_strlit("DB2SQL_EXPORT_OUTPUT_FORMAT");
    reveal_strlit("DB2SQL_EXPORT_COMPRESS");
    reveal_strlit("DB2SQL_EXPORT_DELETE_AFTER_COMPRESS");
    reveal_strlit("DB2SQL_EXPORT_OUTPUT_DIRECTORY");
    reveal_strlit("DB2SQL_EXPORT_RECSIZE");
    reveal_strlit("DB2SQL_EXPORT_PAGE_SIZE");
    reveal_strlit("DB2SQL_EXPORT_PAGE_NO");
    reveal_strlit("DB2SQL_IMPORT_HOST");
    reveal_strlit("DB2SQL_IMPORT_PORT");
    reveal_strlit("DB2SQL_IMPORT_DB_TYPE");
    reveal_strlit("DB2SQL_IMPORT_USER");
    reveal_strlit("DB2SQL_IMPORT_PASSWORD");
    reveal_strlit("DB2SQL_IMPORT_DB_NAME");
}

proof fn lemma_keys_plain()
    ensures
        plain_key("DB2SQL_FLOW"@),
        plain_key("DB2SQL_MODE"@),
        plain_key("DB2SQL_LANG"@),
        plain_key("DB2SQL_EXPORT_DB_TYPE"@),
        plain_key("DB2SQL_EXPORT_HOST"@),
        plain_key("DB2SQL_EXPORT_PORT"@),
        plain_key("DB2SQL_EXPORT_USER"@),
        plain_key("DB2SQL_EXPORT_PASSWORD"@),
        plain_key("DB2SQL_EXPORT_DB_NAME"@),
        plain_key("DB2SQL_EXPORT_OBJECTS"@),
        plain_key("DB2SQL_EXPORT_CONDITION"@),
        plain_key("DB2SQL_EXPORT_ORDER_BY"@),
        plain_key("DB2SQL_EXPORT_HIDE_PRIMARY_KEY"@),
        plain_key("DB2SQL_EXPORT_OUTPUT_FORMAT"@),
        plain_key("DB2SQL_EXPORT_COMPRESS"@),
        plain_key("DB2SQL_EXPORT_DELETE_AFTER_COMPRESS"@),
        plain_key("DB2SQL_EXPORT_OUTPUT_DIRECTORY"@),
        plain_key("DB2SQL_EXPORT_RECSIZE"@),
        plain_key("DB2SQL_EXPORT_PAGE_SIZE"@),
        plain_key("DB2SQL_EXPORT_PAGE_NO"@),
        plain_key("DB2SQL_IMPORT_HOST"@),
        plain_key("DB2SQL_IMPORT_PORT"@),
        plain_key("DB2SQL_IMPORT_DB_TYPE"@),
        plain_key("DB2SQL_IMPORT_USER"@),
        plain_key("DB2SQL_IMPORT_PASSWORD"@),
        plain_key("DB2SQL_IMPORT_DB_NAME"@),
{
    reveal_strlit("DB2SQL_FLOW");
    reveal_strlit("DB2SQL_MODE");
    reveal_strlit("DB2SQL_LANG");
    reveal_strlit("DB2SQL_EXPORT_DB_TYPE");
    reveal_strlit("DB2SQL_EXPORT_HOST");
    reveal_strlit("DB2SQL_EXPORT_PORT");
    reveal_strlit("DB2SQL_EXPORT_USER");
    reveal_strlit("DB2SQL_EXPORT_PASSWORD");
    reveal_strlit("DB2SQL_EXPORT_DB_NAME");
    reveal_strlit("DB2SQL_EXPORT_OBJECTS");
    reveal_strlit("DB2SQL_EXPORT_CONDITION");
    reveal_strlit("DB2SQL_EXPORT_ORDER_BY");
    reveal_strlit("DB2SQL_EXPORT_HIDE_PRIMARY_KEY");
    reveal_strlit("DB2SQL_EXPORT_OUTPUT_FORMAT");
    reveal_strlit("DB2SQL_EXPORT_COMPRESS");
    reveal_strlit("DB2SQL_EXPORT_DELETE_AFTER_COMPRESS");
    reveal_strlit("DB2SQL_EXPORT_OUTPUT_DIRECTORY");
    reveal_strlit("DB2SQL_EXPORT_RECSIZE");
    reveal_strlit("DB2SQL_EXPORT_PAGE_SIZE");
    reveal_strlit("DB2SQL_EXPORT_PAGE_NO");
    reveal_strlit("DB2SQL_IMPORT_HOST");
    reveal_strlit("DB2SQL_IMPORT_PORT");
    reveal_strlit("DB2SQL_IMPORT_DB_TYPE");
    reveal_strlit("DB2SQL_IMPORT_USER");
    reveal_strlit("DB2SQL_IMPORT_PASSWORD");
    reveal_strlit("DB2SQL_IMPORT_DB_NAME");
}

proof fn lemma_names_without_lf()
    ensures
        !"export"@.contains('\n'),
        !"import"@.contains('\n'),
        !"tui"@.contains('\n'),
        !"cli"@.contains('\n'),
        !"tw"@.contains('\n'),
        !"en"@.contains('\n'),
        !"ja"@.contains('\n'),
        !"mssql"@.contains('\n'),
        !"oracle"@.contains('\n'),
        !"mysql"@.contains('\n'),
        !"postgresql"@.contains('\n'),
        !"sql-lite"@.contains('\n'),
        !"false"@.contains('\n'),
        !"true"@.contains('\n'),
        !"sql"@.contains('\n'),
        !"csv"@.contains('\n'),
        !"excel"@.contains('\n'),
        !"json"@.contains('\n'),
        !"xml"@.contains('\n'),
        !"md"@.contains('\n'),
        !"zip"@.contains('\n'),
        !"bzip"@.contains('\n'),
        !"tar"@.contains('\n'),
{
    reveal_strlit("export");
    reveal_strlit("import");
    reveal_strlit("tui");
    reveal_strlit("cli");
    reveal_strlit("tw");
    reveal_strlit("en");
    reveal_strlit("ja");
    reveal_strlit("mssql");
    reveal_strlit("oracle");
    reveal_strlit("mysql");
    reveal_strlit("postgresql");
    reveal_strlit("sql-lite");
    reveal_strlit("false");
    reveal_strlit("true");
    reveal_strlit("sql");
    reveal_strlit("csv");
    reveal_strlit("excel");
    reveal_strlit("json");
    reveal_strlit("xml");
    reveal_strlit("md");
    reveal_strlit("zip");
    reveal_strlit("bzip");
    reveal_strlit("tar");
}

proof fn lemma_decimal_without_lf(n: nat)
    ensures
        !decimal(n).contains('\n'),
    decreases n,
{
    if n >= 10 {
        lemma_decimal_without_lf(n / 10);
        let d = decimal(n / 10);
        let c = digit_char(n % 10);
        assert(c != '\n');
        assert(!d.push(c).contains('\n')) by {
            if d.push(c).contains('\n') {
                let i = choose|i: int| 0 <= i < d.push(c).len() && d.push(c)[i] == '\n';
                if i < d.len() {
                    assert(d[i] == '\n');
                }
            }
        }
    } else {
        assert(digit_char(n) != '\n');
        assert(!seq![digit_char(n)].contains('\n')) by {
            if seq![digit_char(n)].contains('\n') {
                let i = choose|i: int| 0 <= i < 1 && seq![digit_char(n)][i] == '\n';
                assert(i == 0);
            }
        }
    }
}

/// The configuration's text fields hold no line feed.
pub open spec fn single_line_texts(c: CliView) -> bool {
    &&& !c.host.contains('\n')
    &&& !c.user.contains('\n')
    &&& !c.password.contains('\n')
    &&& !c.db_name.contains('\n')
    &&& !c.objects.contains('\n')
    &&& (c.condition matches Some(v) ==> !v.contains('\n'))
    &&& (c.order_by matches Some(v) ==> !v.contains('\n'))
    &&& !c.output_directory.contains('\n')
    &&& !c.import_host.contains('\n')
    &&& !c.import_user.contains('\n')
    &&& !c.import_password.contains('\n')
    &&& !c.import_db_name.contains('\n')
}

/// The managed keys are plain and each appears once; with single-line text
/// fields no value holds a line feed.
pub proof fn lemma_managed_entries_ok(c: CliView)
    requires
        single_line_texts(c),
    ensures
        entries_ok(managed_entries(c)),
{
    let m = managed_entries(c);
    lemma_key_facts();
    lemma_keys_plain();
    lemma_names_without_lf();
    lemma_decimal_without_lf(c.port as nat);
    lemma_decimal_without_lf(c.import_port as nat);
    lemma_decimal_without_lf(c.page_size as nat);
    if c.recsize is Some {
        lemma_decimal_without_lf(c.recsize->0 as nat);
    }
    if c.page_no is Some {
        lemma_decimal_without_lf(c.page_no->0 as nat);
    }
    assert forall|i: int| 0 <= i < m.len() implies plain_key(#[trigger] m[i].0) by {}
    assert forall|i: int, j: int| 0 <= i < j < m.len() implies m[i].0 != m[j].0 by {}
    assert forall|i: int| 0 <= i < m.len() && (#[trigger] m[i]).1 is Some implies !m[i].1->0.contains('\n') by {}
}

/// Persisting the same configuration twice writes the same file as
/// persisting it once, when its text fields are single lines and no line
/// the file keeps as it is ends in a carriage return.
pub proof fn law_persist_settles(existing: Seq<char>, c: CliView)
    requires
        single_line_texts(c),
        forall|i: int|
            0 <= i < lines_seq(existing).len() && kept_line(
                #[trigger] lines_seq(existing)[i],
                managed_entries(c),
            ) ==> no_trailing_cr(lines_seq(existing)[i]),
    ensures
        env_file_text(env_file_text(existing, managed_entries(c)), managed_entries(c))
            == env_file_text(existing, managed_entries(c)),
{
    lemma_managed_entries_ok(c);
    law_env_rewrite_settles(existing, managed_entries(c));
}

} // verus!
