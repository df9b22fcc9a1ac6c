//! One page of a table export: the query that reads it, the file it goes to,
//! the values of its rows as the export keeps them, and the text of the file
//! in each output format.
use vstd::prelude::*;
use crate::config::{DbType, OutputFormat};
use crate::db_sql::{cell_view, row_view, rows_view, QueryResult};
use crate::escape::{
    csv_cell, escape_csv_value, escape_json_value, escape_md_value, escape_tsv_value,
    escape_xml_value, escaped, CharRule,
};
use crate::sql_text::{
    contains_string, file_extension, insert_value, order_by_clause, ordering_clause,
    output_file_extension, pagination_clause, paging_clause, quote_ident, quoted_ident,
    to_insert_value,
};
use crate::text::{
    chars_of, decimal, join, join_seq, lemma_views_push, lower_seq, push_str, substring, to_ascii_lower, to_owned,
    trim, trim_seq, usize_to_string, views, zero_pad, zero_pad6,
};

verus! {

// ---------------------------------------------------------------------
// The query and the file
// ---------------------------------------------------------------------

/// `SELECT * FROM <table>`, the trimmed condition after ` WHERE ` when there
/// is one, then the ordering and the paging clause.
pub open spec fn page_sql(
    db_type: DbType,
    table: Seq<char>,
    condition: Option<Seq<char>>,
    order_by: Option<Seq<char>>,
    offset: nat,
    limit: nat,
) -> Seq<char> {
    let base = "SELECT * FROM "@ + quoted_ident(db_type, table);
    let filtered = match condition {
        Some(c) => if trim_seq(c).len() > 0 {
            base + " WHERE "@ + trim_seq(c)
        } else {
            base
        },
        None => base,
    };
    filtered + ordering_clause(db_type, order_by) + paging_clause(db_type, offset, limit)
}

/// A page query with a condition is the same query without it, with
/// ` WHERE ` and the trimmed condition put right after the table name: the
/// condition is kept whatever the ordering and the paging, and a blank
/// condition is no condition.
pub proof fn law_page_query_filters(
    db_type: DbType,
    table: Seq<char>,
    condition: Seq<char>,
    order_by: Option<Seq<char>>,
    offset: nat,
    limit: nat,
)
    ensures
        ({
            let base = "SELECT * FROM "@ + quoted_ident(db_type, table);
            let plain = page_sql(db_type, table, None, order_by, offset, limit);
            &&& plain.len() >= base.len()
            &&& plain.take(base.len() as int) == base
            &&& trim_seq(condition).len() > 0 ==> page_sql(
                db_type,
                table,
                Some(condition),
                order_by,
                offset,
                limit,
            ) == base + " WHERE "@ + trim_seq(condition) + plain.skip(base.len() as int)
            &&& trim_seq(condition).len() == 0 ==> page_sql(
                db_type,
                table,
                Some(condition),
                order_by,
                offset,
                limit,
            ) == plain
        }),
{
    let base = "SELECT * FROM "@ + quoted_ident(db_type, table);
    let tail = ordering_clause(db_type, order_by) + paging_clause(db_type, offset, limit);
    let plain = page_sql(db_type, table, None, order_by, offset, limit);
    assert(plain =~= base + tail);
    assert(plain.take(base.len() as int) =~= base);
    assert(plain.skip(base.len() as int) =~= tail);
    if trim_seq(condition).len() > 0 {
        assert(page_sql(db_type, table, Some(condition), order_by, offset, limit)
            =~= base + " WHERE "@ + trim_seq(condition) + tail);
    }
}

pub open spec fn opt_str(o: Option<&str>) -> Option<Seq<char>> {
    match o {
        Some(s) => Some(s@),
        None => None,
    }
}

/// The query that reads one page of `table`.
pub fn page_select_sql(
    db_type: DbType,
    table: &str,
    condition: Option<&str>,
    order_by: Option<&str>,
    offset: usize,
    limit: usize,
) -> (r: String)
    ensures
        r@ == page_sql(
            db_type,
            table@,
            opt_str(condition),
            opt_str(order_by),
            offset as nat,
            limit as nat,
        ),
{
    let mut sql = to_owned("SELECT * FROM ");
    push_str(&mut sql, quote_ident(db_type, table).as_str());
    match condition {
        Some(c) => {
            let t = trim(c);
            if t.as_str().unicode_len() > 0 {
                push_str(&mut sql, " WHERE ");
                push_str(&mut sql, t.as_str());
            }
        },
        None => {},
    }
    push_str(&mut sql, order_by_clause(db_type, order_by).as_str());
    push_str(&mut sql, pagination_clause(db_type, offset, limit).as_str());
    sql
}

/// `<name>_<page, six digits at least>.<extension>`.
pub open spec fn page_file(name: Seq<char>, page: nat, format: OutputFormat) -> Seq<char> {
    name + "_"@ + zero_pad(decimal(page), 6) + "."@ + file_extension(format)
}

/// The name of the file a page of `name` is written to.
pub fn page_file_name(name: &str, page: usize, format: OutputFormat) -> (r: String)
    ensures
        r@ == page_file(name@, page as nat, format),
{
    let mut s = to_owned(name);
    push_str(&mut s, "_");
    push_str(&mut s, zero_pad6(page).as_str());
    push_str(&mut s, ".");
    push_str(&mut s, output_file_extension(format));
    s
}

// ---------------------------------------------------------------------
// The values a page keeps
// ---------------------------------------------------------------------

/// `s` without the `c` at its start (`str::trim_start_matches`).
pub open spec fn strip_start(s: Seq<char>, c: char) -> Seq<char>
    decreases s.len(),
{
    if s.len() > 0 && s[0] == c {
        strip_start(s.drop_first(), c)
    } else {
        s
    }
}

/// `s` without the `c` at its end (`str::trim_end_matches`).
pub open spec fn strip_end(s: Seq<char>, c: char) -> Seq<char>
    decreases s.len(),
{
    if s.len() > 0 && s.last() == c {
        strip_end(s.drop_last(), c)
    } else {
        s
    }
}

/// `str::trim_matches` with one character.
pub open spec fn strip_both(s: Seq<char>, c: char) -> Seq<char> {
    strip_end(strip_start(s, c), c)
}

fn strip_matches(s: &str, c: char) -> (r: String)
    ensures
        r@ == strip_both(s@, c),
{
    let v = chars_of(s);
    let n = v.len();
    let mut i: usize = 0;
    assert(v@.skip(0) =~= v@);
    while i < n && v[i] == c
        invariant
            n == v@.len(),
            i <= n,
            strip_start(v@, c) == strip_start(v@.skip(i as int), c),
        decreases n - i,
    {
        assert(v@.skip(i as int).drop_first() =~= v@.skip(i + 1));
        i = i + 1;
    }
    let mut j: usize = n;
    assert(v@.subrange(i as int, n as int) =~= v@.skip(i as int));
    while j > i && v[j - 1] == c
        invariant
            n == v@.len(),
            i <= j <= n,
            strip_end(v@.skip(i as int), c) == strip_end(v@.subrange(i as int, j as int), c),
        decreases j,
    {
        assert(v@.subrange(i as int, j as int).drop_last() =~= v@.subrange(i as int, j - 1));
        j = j - 1;
    }
    substring(&v, i, j)
}

/// A cell as a page export keeps it: written as an INSERT value, `NULL`
/// becomes no value and anything else loses its enclosing quotes.
pub open spec fn page_cell(v: Option<Seq<char>>) -> Option<Seq<char>> {
    let s = insert_value(v);
    if s == "NULL"@ {
        None
    } else {
        Some(strip_both(strip_both(s, '"'), '\''))
    }
}

/// The cell at `i` of a row; a row shorter than the columns has no value there.
pub open spec fn cell_at(row: Seq<Option<Seq<char>>>, i: int) -> Option<Seq<char>> {
    if 0 <= i < row.len() {
        row[i]
    } else {
        None
    }
}

/// The values a page keeps of one row: one per column, empty for a column
/// hidden as an auto-increment primary key (matched in lower case).
pub open spec fn page_row(
    cols: Seq<Seq<char>>,
    row: Seq<Option<Seq<char>>>,
    hide_primary_key: bool,
    pk_columns: Seq<Seq<char>>,
) -> Seq<Option<Seq<char>>> {
    Seq::new(
        cols.len(),
        |i: int|
            if hide_primary_key && pk_columns.contains(lower_seq(cols[i])) {
                None
            } else {
                page_cell(cell_at(row, i))
            },
    )
}

fn row_cell(row: &Vec<Option<String>>, i: usize) -> (r: Option<&str>)
    ensures
        opt_str(r) == cell_at(row_view(*row), i as int),
{
    if i < row.len() {
        match &row[i] {
            Some(s) => Some(s.as_str()),
            None => None,
        }
    } else {
        None
    }
}

fn page_cell_of(v: Option<&str>) -> (r: Option<String>)
    ensures
        cell_view(r) == page_cell(opt_str(v)),
{
    let s = to_insert_value(v);
    if str_is_null(s.as_str()) {
        None
    } else {
        let a = strip_matches(s.as_str(), '"');
        Some(strip_matches(a.as_str(), '\''))
    }
}

fn str_is_null(s: &str) -> (r: bool)
    ensures
        r == (s@ == "NULL"@),
{
    crate::text::str_eq(s, "NULL")
}

/// The values a page keeps of one row (see `page_row`).
pub fn page_row_values(
    cols: &Vec<String>,
    row: &Vec<Option<String>>,
    hide_primary_key: bool,
    pk_columns: &Vec<String>,
) -> (r: Vec<Option<String>>)
    ensures
        row_view(r) == page_row(views(cols@), row_view(*row), hide_primary_key, views(pk_columns@)),
{
    let n = cols.len();
    let mut out: Vec<Option<String>> = Vec::new();
    let mut i: usize = 0;
    while i < n
        invariant
            n == cols@.len(),
            i <= n,
            out@.len() == i,
            forall|k: int|
                0 <= k < i ==> cell_view(#[trigger] out@[k]) == page_row(
                    views(cols@),
                    row_view(*row),
                    hide_primary_key,
                    views(pk_columns@),
                )[k],
        decreases n - i,
    {
        let lc = to_ascii_lower(cols[i].as_str());
        assert(views(cols@)[i as int] == cols@[i as int]@);
        if hide_primary_key && contains_string(pk_columns, lc.as_str()) {
            out.push(None);
        } else {
            out.push(page_cell_of(row_cell(row, i)));
        }
        i = i + 1;
    }
    assert(row_view(out) =~= page_row(
        views(cols@),
        row_view(*row),
        hide_primary_key,
        views(pk_columns@),
    ));
    out
}


// ---------------------------------------------------------------------
// The text of an exported file
// ---------------------------------------------------------------------

/// The parts one after another.
pub open spec fn concat(parts: Seq<Seq<char>>) -> Seq<char>
    decreases parts.len(),
{
    if parts.len() == 0 {
        Seq::empty()
    } else {
        concat(parts.drop_last()) + parts.last()
    }
}

/// A value escaped under `rule`; no value gives nothing.
pub open spec fn esc_or_empty(v: Option<Seq<char>>, rule: CharRule) -> Seq<char> {
    match v {
        Some(s) => escaped(s, rule),
        None => Seq::empty(),
    }
}

pub open spec fn csv_or_empty(v: Option<Seq<char>>) -> Seq<char> {
    match v {
        Some(s) => csv_cell(s),
        None => Seq::empty(),
    }
}

pub open spec fn raw_or_empty(v: Option<Seq<char>>) -> Seq<char> {
    match v {
        Some(s) => s,
        None => Seq::empty(),
    }
}

/// `"column":"value"`, or `"column":null` without a value.
pub open spec fn json_field(col: Seq<char>, v: Option<Seq<char>>) -> Seq<char> {
    match v {
        Some(s) => "\""@ + escaped(col, CharRule::Json) + "\":\""@ + escaped(s, CharRule::Json)
            + "\""@,
        None => "\""@ + escaped(col, CharRule::Json) + "\":null"@,
    }
}

/// `    <c name="column">value</c>` and a line feed.
pub open spec fn xml_cell(col: Seq<char>, v: Option<Seq<char>>) -> Seq<char> {
    "    <c name=\""@ + escaped(col, CharRule::Xml) + "\">"@ + esc_or_empty(v, CharRule::Xml)
        + "</c>\n"@
}

/// The text one row contributes, row `i` (from 0) of the file. In a page
/// export a SQL row is a value tuple; the result of a query file is written
/// as plain comma-separated text instead.
pub open spec fn row_line(
    format: OutputFormat,
    query_mode: bool,
    name: Seq<char>,
    cols: Seq<Seq<char>>,
    vals: Seq<Option<Seq<char>>>,
    i: nat,
) -> Seq<char> {
    match format {
        OutputFormat::Sql => if query_mode {
            join_seq(vals.map_values(|v: Option<Seq<char>>| raw_or_empty(v)), ","@) + "\n"@
        } else {
            "("@ + join_seq(vals.map_values(|v: Option<Seq<char>>| insert_value(v)), ", "@)
                + ")"@
        },
        OutputFormat::Csv => join_seq(vals.map_values(|v: Option<Seq<char>>| csv_or_empty(v)), ","@)
            + "\n"@,
        OutputFormat::Excel => join_seq(
            vals.map_values(|v: Option<Seq<char>>| esc_or_empty(v, CharRule::Tsv)),
            "\t"@,
        ) + "\n"@,
        OutputFormat::Json => "  {"@ + join_seq(
            Seq::new(cols.len(), |k: int| json_field(cols[k], vals[k])),
            ","@,
        ) + "}"@,
        OutputFormat::Xml => "  <row>\n"@ + concat(
            Seq::new(cols.len(), |k: int| xml_cell(cols[k], vals[k])),
        ) + "  </row>\n"@,
        OutputFormat::Md => "| "@ + join_seq(
            seq![decimal(i + 1), escaped(name, CharRule::Markdown)] + vals.map_values(
                |v: Option<Seq<char>>| esc_or_empty(v, CharRule::Markdown),
            ),
            " | "@,
        ) + " |\n"@,
        OutputFormat::SqlLite => Seq::empty(),
    }
}

/// The Markdown table head: the row number, the table name, the columns.
pub open spec fn md_head(cols: Seq<Seq<char>>) -> Seq<char> {
    "| "@ + join_seq(
        (seq!["no"@, "表格名稱"@] + cols).map_values(|c: Seq<char>| escaped(c, CharRule::Markdown)),
        " | "@,
    ) + " |\n"@ + "| "@ + join_seq(
        seq!["---:"@, "---"@] + Seq::new(cols.len(), |k: int| "---"@),
        " | "@,
    ) + " |\n"@
}

/// `INSERT INTO <table> (<columns>)` and the start of its value list.
pub open spec fn insert_prefix(db_type: DbType, table: Seq<char>, cols: Seq<Seq<char>>) -> Seq<char> {
    "INSERT INTO "@ + quoted_ident(db_type, table) + " ("@ + join_seq(
        cols.map_values(|c: Seq<char>| quoted_ident(db_type, c)),
        ", "@,
    ) + ")\nVALUES\n    "@
}

/// The number of INSERT statements for `n` rows, a hundred rows each.
pub open spec fn batch_count(n: nat) -> nat {
    ((n + 99) / 100) as nat
}

/// The rows of batch `b`: from `100 b` up to a hundred of them.
pub open spec fn batch(tuples: Seq<Seq<char>>, b: int) -> Seq<Seq<char>> {
    let start = 100 * b;
    let end = if start + 100 <= tuples.len() {
        start + 100
    } else {
        tuples.len() as int
    };
    tuples.subrange(start, end)
}

/// The INSERT statements of a page share its rows out in order: every
/// statement holds between one and a hundred rows, row `i` is row `i % 100`
/// of statement `i / 100`, and there are just enough statements for all
/// rows.
pub proof fn law_batches_share_rows(tuples: Seq<Seq<char>>)
    ensures
        batch_count(tuples.len()) * 100 >= tuples.len(),
        tuples.len() > 0 ==> (batch_count(tuples.len()) - 1) * 100 < tuples.len(),
        forall|b: int|
            0 <= b < batch_count(tuples.len()) ==> 0 < (#[trigger] batch(tuples, b)).len() <= 100,
        forall|i: int|
            0 <= i < tuples.len() ==> i / 100 < batch_count(tuples.len()) && #[trigger] batch(
                tuples,
                i / 100,
            )[i % 100] == tuples[i],
{
    let n = tuples.len();
    assert forall|b: int| 0 <= b < batch_count(n) implies 0 < (#[trigger] batch(tuples, b)).len()
        <= 100 by {
        assert(100 * b < n);
    }
    assert forall|i: int| 0 <= i < n implies i / 100 < batch_count(n) && #[trigger] batch(
        tuples,
        i / 100,
    )[i % 100] == tuples[i] by {
        assert(100 * (i / 100) + i % 100 == i);
        assert(100 * (i / 100) <= i);
    }
}

/// One INSERT statement for each hundred rows, in order.
pub open spec fn sql_batches(prefix: Seq<char>, tuples: Seq<Seq<char>>) -> Seq<char> {
    concat(
        Seq::new(
            batch_count(tuples.len()),
            |b: int| prefix + join_seq(batch(tuples, b), ",\n    "@) + ";\n"@,
        ),
    )
}

/// The text of the file an export writes for the given rows, or `None` when
/// it writes none: without columns or rows there is no file, and a page of a
/// SQLite export goes into the database instead.
pub open spec fn export_text(
    format: OutputFormat,
    query_mode: bool,
    db_type: DbType,
    name: Seq<char>,
    cols: Seq<Seq<char>>,
    rows: Seq<Seq<Option<Seq<char>>>>,
) -> Option<Seq<char>> {
    if cols.len() == 0 || rows.len() == 0 {
        None
    } else {
        let lines = Seq::new(
            rows.len(),
            |i: int| row_line(format, query_mode, name, cols, rows[i], i as nat),
        );
        match format {
            OutputFormat::Sql => if query_mode {
                Some(join_seq(cols, ","@) + "\n"@ + concat(lines))
            } else {
                Some(sql_batches(insert_prefix(db_type, name, cols), lines))
            },
            OutputFormat::SqlLite => if query_mode {
                Some(Seq::empty())
            } else {
                None
            },
            OutputFormat::Csv => Some(
                join_seq(cols.map_values(|c: Seq<char>| csv_cell(c)), ","@) + "\n"@ + concat(lines),
            ),
            OutputFormat::Excel => Some(
                join_seq(cols.map_values(|c: Seq<char>| escaped(c, CharRule::Tsv)), "\t"@) + "\n"@
                    + concat(lines),
            ),
            OutputFormat::Json => Some("[\n"@ + join_seq(lines, ",\n"@) + "\n]\n"@),
            OutputFormat::Xml => Some("<rows>\n"@ + concat(lines) + "</rows>\n"@),
            OutputFormat::Md => Some(md_head(cols) + concat(lines)),
        }
    }
}


// ---------------------------------------------------------------------
// Building the text
// ---------------------------------------------------------------------

/// How a cell is written.
#[derive(Copy, Clone, Debug)]
pub enum CellStyle {
    /// The value itself, nothing for no value.
    Raw,
    /// An INSERT value: quoted and escaped, or `NULL`.
    Insert,
    /// A CSV cell, nothing for no value.
    Csv,
    /// The value escaped under a rule, nothing for no value.
    Escaped(CharRule),
}

pub open spec fn styled(style: CellStyle, v: Option<Seq<char>>) -> Seq<char> {
    match style {
        CellStyle::Raw => raw_or_empty(v),
        CellStyle::Insert => insert_value(v),
        CellStyle::Csv => csv_or_empty(v),
        CellStyle::Escaped(rule) => esc_or_empty(v, rule),
    }
}

fn styled_text(style: CellStyle, v: &Option<String>) -> (r: String)
    ensures
        r@ == styled(style, cell_view(*v)),
{
    match style {
        CellStyle::Raw => match v {
            Some(s) => to_owned(s.as_str()),
            None => String::new(),
        },
        CellStyle::Insert => match v {
            Some(s) => to_insert_value(Some(s.as_str())),
            None => to_insert_value(None),
        },
        CellStyle::Csv => match v {
            Some(s) => escape_csv_value(s.as_str()),
            None => String::new(),
        },
        CellStyle::Escaped(rule) => match v {
            Some(s) => crate::escape::escape_with(s.as_str(), rule),
            None => String::new(),
        },
    }
}

fn styled_cells(style: CellStyle, vals: &Vec<Option<String>>) -> (r: Vec<String>)
    ensures
        views(r@) == row_view(*vals).map_values(|v: Option<Seq<char>>| styled(style, v)),
{
    let n = vals.len();
    let mut out: Vec<String> = Vec::new();
    let mut i: usize = 0;
    while i < n
        invariant
            n == vals@.len(),
            i <= n,
            views(out@) == row_view(*vals).map_values(|v: Option<Seq<char>>| styled(style, v)).take(
                i as int,
            ),
        decreases n - i,
    {
        let t = styled_text(style, &vals[i]);
        proof {
            lemma_views_push(out@, t);
        }
        out.push(t);
        assert(views(out@) =~= row_view(*vals).map_values(
            |v: Option<Seq<char>>| styled(style, v),
        ).take(i + 1));
        i = i + 1;
    }
    assert(row_view(*vals).map_values(|v: Option<Seq<char>>| styled(style, v)).take(n as int)
        =~= row_view(*vals).map_values(|v: Option<Seq<char>>| styled(style, v)));
    out
}

fn styled_join(style: CellStyle, vals: &Vec<Option<String>>, sep: &str) -> (r: String)
    ensures
        r@ == join_seq(
            row_view(*vals).map_values(|v: Option<Seq<char>>| styled(style, v)),
            sep@,
        ),
{
    let cells = styled_cells(style, vals);
    join(&cells, sep)
}

/// All parts one after another.
fn concat_all(parts: &Vec<String>) -> (r: String)
    ensures
        r@ == concat(views(parts@)),
{
    let n = parts.len();
    let mut out = String::new();
    let mut i: usize = 0;
    while i < n
        invariant
            n == parts@.len(),
            i <= n,
            out@ == concat(views(parts@).take(i as int)),
        decreases n - i,
    {
        assert(views(parts@).take(i + 1).drop_last() =~= views(parts@).take(i as int));
        push_str(&mut out, parts[i].as_str());
        i = i + 1;
    }
    assert(views(parts@).take(n as int) =~= views(parts@));
    out
}

proof fn lemma_new_prefix(n: nat, k: nat, f: spec_fn(int) -> Seq<char>)
    requires
        k < n,
    ensures
        Seq::new((k + 1) as nat, f).drop_last() == Seq::new(k, f),
        Seq::new((k + 1) as nat, f).last() == f(k as int),
{
    assert(Seq::new((k + 1) as nat, f).drop_last() =~= Seq::new(k, f));
}

fn json_line(cols: &Vec<String>, vals: &Vec<Option<String>>) -> (r: String)
    requires
        vals@.len() == cols@.len(),
    ensures
        r@ == "  {"@ + join_seq(
            Seq::new(
                views(cols@).len(),
                |k: int| json_field(views(cols@)[k], row_view(*vals)[k]),
            ),
            ","@,
        ) + "}"@,
{
    let n = cols.len();
    let ghost f = |k: int| json_field(views(cols@)[k], row_view(*vals)[k]);
    let mut fields: Vec<String> = Vec::new();
    let mut k: usize = 0;
    while k < n
        invariant
            n == cols@.len(),
            n == vals@.len(),
            k <= n,
            f == (|k: int| json_field(views(cols@)[k], row_view(*vals)[k])),
            views(fields@) == Seq::new(k as nat, f),
        decreases n - k,
    {
        let col = escape_json_value(cols[k].as_str());
        let mut field = to_owned("\"");
        push_str(&mut field, col.as_str());
        match &vals[k] {
            Some(v) => {
                push_str(&mut field, "\":\"");
                push_str(&mut field, escape_json_value(v.as_str()).as_str());
                push_str(&mut field, "\"");
            },
            None => {
                push_str(&mut field, "\":null");
            },
        }
        proof {
            assert(views(cols@)[k as int] == cols@[k as int]@);
            assert(row_view(*vals)[k as int] == cell_view(vals@[k as int]));
            reveal_strlit("\"");
            reveal_strlit("\":\"");
            reveal_strlit("\":null");
            assert(field@ =~= f(k as int));
        }
        proof {
            lemma_views_push(fields@, field);
        }
        fields.push(field);
        proof {
            lemma_new_prefix(n as nat, k as nat, f);
            assert(views(fields@) =~= Seq::new((k + 1) as nat, f));
        }
        k = k + 1;
    }
    let mut out = to_owned("  {");
    push_str(&mut out, join(&fields, ",").as_str());
    push_str(&mut out, "}");
    out
}

fn xml_row(cols: &Vec<String>, vals: &Vec<Option<String>>) -> (r: String)
    requires
        vals@.len() == cols@.len(),
    ensures
        r@ == "  <row>\n"@ + concat(
            Seq::new(
                views(cols@).len(),
                |k: int| xml_cell(views(cols@)[k], row_view(*vals)[k]),
            ),
        ) + "  </row>\n"@,
{
    let n = cols.len();
    let ghost f = |k: int| xml_cell(views(cols@)[k], row_view(*vals)[k]);
    let mut body = String::new();
    let mut k: usize = 0;
    while k < n
        invariant
            n == cols@.len(),
            n == vals@.len(),
            k <= n,
            f == (|k: int| xml_cell(views(cols@)[k], row_view(*vals)[k])),
            body@ == concat(Seq::new(k as nat, f)),
        decreases n - k,
    {
        let mut cell = to_owned("    <c name=\"");
        push_str(&mut cell, escape_xml_value(cols[k].as_str()).as_str());
        push_str(&mut cell, "\">");
        match &vals[k] {
            Some(v) => push_str(&mut cell, escape_xml_value(v.as_str()).as_str()),
            None => {},
        }
        push_str(&mut cell, "</c>\n");
        proof {
            assert(views(cols@)[k as int] == cols@[k as int]@);
            assert(row_view(*vals)[k as int] == cell_view(vals@[k as int]));
            assert(cell@ =~= f(k as int));
            lemma_new_prefix(n as nat, k as nat, f);
        }
        push_str(&mut body, cell.as_str());
        k = k + 1;
    }
    let mut out = to_owned("  <row>\n");
    push_str(&mut out, body.as_str());
    push_str(&mut out, "  </row>\n");
    out
}

fn md_line(name: &str, vals: &Vec<Option<String>>, i: usize) -> (r: String)
    requires
        i < usize::MAX,
    ensures
        r@ == "| "@ + join_seq(
            seq![decimal((i + 1) as nat), escaped(name@, CharRule::Markdown)] + row_view(
                *vals,
            ).map_values(|v: Option<Seq<char>>| esc_or_empty(v, CharRule::Markdown)),
            " | "@,
        ) + " |\n"@,
{
    let mut cells: Vec<String> = Vec::new();
    cells.push(usize_to_string(i + 1));
    cells.push(escape_md_value(name));
    let rest = styled_cells(CellStyle::Escaped(CharRule::Markdown), vals);
    let ghost front = views(cells@);
    let m = rest.len();
    let mut k: usize = 0;
    while k < m
        invariant
            m == rest@.len(),
            k <= m,
            views(cells@) == front + views(rest@).take(k as int),
        decreases m - k,
    {
        let t = to_owned(rest[k].as_str());
        proof {
            lemma_views_push(cells@, t);
        }
        cells.push(t);
        assert(views(cells@) =~= front + views(rest@).take(k + 1));
        k = k + 1;
    }
    proof {
        assert(views(rest@).take(m as int) =~= views(rest@));
        assert(front =~= seq![decimal((i + 1) as nat), escaped(name@, CharRule::Markdown)]);
        assert(row_view(*vals).map_values(
            |v: Option<Seq<char>>| esc_or_empty(v, CharRule::Markdown),
        ) =~= row_view(*vals).map_values(
            |v: Option<Seq<char>>| styled(CellStyle::Escaped(CharRule::Markdown), v),
        ));
    }
    let mut out = to_owned("| ");
    push_str(&mut out, join(&cells, " | ").as_str());
    push_str(&mut out, " |\n");
    out
}

/// The text row `i` contributes to the file (see `row_line`).
fn row_line_text(
    format: OutputFormat,
    query_mode: bool,
    name: &str,
    cols: &Vec<String>,
    vals: &Vec<Option<String>>,
    i: usize,
) -> (r: String)
    requires
        vals@.len() == cols@.len(),
        i < usize::MAX,
    ensures
        r@ == row_line(format, query_mode, name@, views(cols@), row_view(*vals), i as nat),
{
    match format {
        OutputFormat::Sql => if query_mode {
            let mut out = styled_join(CellStyle::Raw, vals, ",");
            push_str(&mut out, "\n");
            assert(row_view(*vals).map_values(|v: Option<Seq<char>>| raw_or_empty(v))
                =~= row_view(*vals).map_values(|v: Option<Seq<char>>| styled(CellStyle::Raw, v)));
            out
        } else {
            let mut out = to_owned("(");
            push_str(&mut out, styled_join(CellStyle::Insert, vals, ", ").as_str());
            push_str(&mut out, ")");
            assert(row_view(*vals).map_values(|v: Option<Seq<char>>| insert_value(v))
                =~= row_view(*vals).map_values(
                |v: Option<Seq<char>>| styled(CellStyle::Insert, v),
            ));
            out
        },
        OutputFormat::Csv => {
            let mut out = styled_join(CellStyle::Csv, vals, ",");
            push_str(&mut out, "\n");
            assert(row_view(*vals).map_values(|v: Option<Seq<char>>| csv_or_empty(v))
                =~= row_view(*vals).map_values(|v: Option<Seq<char>>| styled(CellStyle::Csv, v)));
            out
        },
        OutputFormat::Excel => {
            let mut out = styled_join(CellStyle::Escaped(CharRule::Tsv), vals, "\t");
            push_str(&mut out, "\n");
            assert(row_view(*vals).map_values(
                |v: Option<Seq<char>>| esc_or_empty(v, CharRule::Tsv),
            ) =~= row_view(*vals).map_values(
                |v: Option<Seq<char>>| styled(CellStyle::Escaped(CharRule::Tsv), v),
            ));
            out
        },
        OutputFormat::Json => json_line(cols, vals),
        OutputFormat::Xml => xml_row(cols, vals),
        OutputFormat::Md => md_line(name, vals, i),
        OutputFormat::SqlLite => String::new(),
    }
}


fn as_cells(cols: &Vec<String>) -> (r: Vec<Option<String>>)
    ensures
        row_view(r) == views(cols@).map_values(|c: Seq<char>| Some(c)),
{
    let n = cols.len();
    let mut out: Vec<Option<String>> = Vec::new();
    let mut i: usize = 0;
    while i < n
        invariant
            n == cols@.len(),
            i <= n,
            row_view(out) == views(cols@).map_values(|c: Seq<char>| Some(c)).take(i as int),
        decreases n - i,
    {
        let ghost before = out@;
        let c = Some(to_owned(cols[i].as_str()));
        out.push(c);
        assert(out@ == before.push(c));
        assert(row_view(out) =~= before.map_values(|c: Option<String>| cell_view(c)).push(
            cell_view(c),
        ));
        assert(row_view(out) =~= views(cols@).map_values(|c: Seq<char>| Some(c)).take(i + 1));
        i = i + 1;
    }
    assert(views(cols@).map_values(|c: Seq<char>| Some(c)).take(n as int) =~= views(
        cols@,
    ).map_values(|c: Seq<char>| Some(c)));
    out
}

fn styled_header(style: CellStyle, cols: &Vec<String>, sep: &str) -> (r: String)
    ensures
        r@ == join_seq(
            views(cols@).map_values(|c: Seq<char>| styled(style, Some(c))),
            sep@,
        ),
{
    let cells = as_cells(cols);
    let r = styled_join(style, &cells, sep);
    assert(row_view(cells).map_values(|v: Option<Seq<char>>| styled(style, v)) =~= views(
        cols@,
    ).map_values(|c: Seq<char>| styled(style, Some(c))));
    r
}

fn row_lines(
    format: OutputFormat,
    query_mode: bool,
    name: &str,
    cols: &Vec<String>,
    rows: &Vec<Vec<Option<String>>>,
) -> (r: Vec<String>)
    requires
        forall|i: int| 0 <= i < rows@.len() ==> (#[trigger] rows@[i])@.len() == cols@.len(),
        rows@.len() < usize::MAX,
    ensures
        views(r@) == Seq::new(
            rows@.len() as nat,
            |i: int|
                row_line(format, query_mode, name@, views(cols@), rows_view(rows@)[i], i as nat),
        ),
{
    let ghost f = |i: int|
        row_line(format, query_mode, name@, views(cols@), rows_view(rows@)[i], i as nat);
    let n = rows.len();
    let mut out: Vec<String> = Vec::new();
    let mut i: usize = 0;
    while i < n
        invariant
            n == rows@.len(),
            n < usize::MAX,
            i <= n,
            forall|i: int| 0 <= i < rows@.len() ==> (#[trigger] rows@[i])@.len() == cols@.len(),
            f == (|i: int|
                row_line(format, query_mode, name@, views(cols@), rows_view(rows@)[i], i as nat)),
            views(out@) == Seq::new(i as nat, f),
        decreases n - i,
    {
        let t = row_line_text(format, query_mode, name, cols, &rows[i], i);
        proof {
            assert(rows_view(rows@)[i as int] == row_view(rows@[i as int]));
            lemma_views_push(out@, t);
            lemma_new_prefix(n as nat, i as nat, f);
        }
        out.push(t);
        assert(views(out@) =~= Seq::new((i + 1) as nat, f));
        i = i + 1;
    }
    out
}

fn slice_strings(v: &Vec<String>, from: usize, to: usize) -> (r: Vec<String>)
    requires
        from <= to <= v@.len(),
    ensures
        views(r@) == views(v@).subrange(from as int, to as int),
{
    let mut out: Vec<String> = Vec::new();
    let mut i: usize = from;
    while i < to
        invariant
            from <= i <= to,
            to <= v@.len(),
            views(out@) == views(v@).subrange(from as int, i as int),
        decreases to - i,
    {
        let t = to_owned(v[i].as_str());
        proof {
            lemma_views_push(out@, t);
        }
        out.push(t);
        assert(views(out@) =~= views(v@).subrange(from as int, i + 1));
        i = i + 1;
    }
    out
}

proof fn lemma_batch_count(n: nat, nb: nat)
    requires
        nb == n / 100 + if n % 100 == 0 {
            0nat
        } else {
            1nat
        },
    ensures
        nb == batch_count(n),
{
    assert(nb == batch_count(n)) by (nonlinear_arith)
        requires
            nb == n / 100 + if n % 100 == 0 {
                0nat
            } else {
                1nat
            },
    ;
}

proof fn lemma_batch_start(n: nat, b: nat)
    requires
        b < batch_count(n),
    ensures
        100 * b < n,
{
    assert(100 * b < n) by (nonlinear_arith)
        requires
            b < (n + 99) / 100,
    ;
}

fn sql_batches_text(prefix: &str, tuples: &Vec<String>) -> (r: String)
    ensures
        r@ == sql_batches(prefix@, views(tuples@)),
{
    let n = tuples.len();
    let nb: usize = n / 100 + if n % 100 == 0 {
        0
    } else {
        1
    };
    proof {
        lemma_batch_count(n as nat, nb as nat);
    }
    let ghost f = |b: int| prefix@ + join_seq(batch(views(tuples@), b), ",\n    "@) + ";\n"@;
    let mut out = String::new();
    let mut b: usize = 0;
    while b < nb
        invariant
            n == tuples@.len(),
            nb == batch_count(n as nat),
            b <= nb,
            f == (|b: int| prefix@ + join_seq(batch(views(tuples@), b), ",\n    "@) + ";\n"@),
            out@ == concat(Seq::new(b as nat, f)),
        decreases nb - b,
    {
        proof {
            lemma_batch_start(n as nat, b as nat);
        }
        let start: usize = 100 * b;
        let end: usize = if n - start >= 100 {
            start + 100
        } else {
            n
        };
        let part = slice_strings(tuples, start, end);
        let mut stmt = to_owned(prefix);
        push_str(&mut stmt, join(&part, ",\n    ").as_str());
        push_str(&mut stmt, ";\n");
        proof {
            assert(stmt@ == f(b as int));
            lemma_new_prefix(nb as nat, b as nat, f);
        }
        push_str(&mut out, stmt.as_str());
        b = b + 1;
    }
    out
}

fn md_head_text(cols: &Vec<String>) -> (r: String)
    ensures
        r@ == md_head(views(cols@)),
{
    let mut names: Vec<String> = Vec::new();
    names.push(to_owned("no"));
    names.push(to_owned("表格名稱"));
    let ghost front = views(names@);
    let n = cols.len();
    let mut k: usize = 0;
    while k < n
        invariant
            n == cols@.len(),
            k <= n,
            views(names@) == front + views(cols@).take(k as int),
        decreases n - k,
    {
        let t = to_owned(cols[k].as_str());
        proof {
            lemma_views_push(names@, t);
        }
        names.push(t);
        assert(views(names@) =~= front + views(cols@).take(k + 1));
        k = k + 1;
    }
    assert(views(cols@).take(n as int) =~= views(cols@));
    assert(front =~= seq!["no"@, "表格名稱"@]);
    let head = styled_header(CellStyle::Escaped(CharRule::Markdown), &names, " | ");
    assert((seq!["no"@, "表格名稱"@] + views(cols@)).map_values(
        |c: Seq<char>| escaped(c, CharRule::Markdown),
    ) =~= views(names@).map_values(
        |c: Seq<char>| styled(CellStyle::Escaped(CharRule::Markdown), Some(c)),
    ));
    let mut seps: Vec<String> = Vec::new();
    seps.push(to_owned("---:"));
    seps.push(to_owned("---"));
    let ghost sfront = views(seps@);
    let mut k: usize = 0;
    while k < n
        invariant
            k <= n,
            views(seps@) == sfront + Seq::new(k as nat, |j: int| "---"@),
        decreases n - k,
    {
        let t = to_owned("---");
        proof {
            lemma_views_push(seps@, t);
        }
        seps.push(t);
        assert(views(seps@) =~= sfront + Seq::new((k + 1) as nat, |j: int| "---"@));
        k = k + 1;
    }
    assert(sfront =~= seq!["---:"@, "---"@]);
    let mut out = to_owned("| ");
    push_str(&mut out, head.as_str());
    push_str(&mut out, " |\n| ");
    push_str(&mut out, join(&seps, " | ").as_str());
    push_str(&mut out, " |\n");
    proof {
        reveal_strlit(" |\n| ");
        reveal_strlit(" |\n");
        reveal_strlit("| ");
        assert(" |\n| "@ =~= " |\n"@ + "| "@);
    }
    out
}

fn insert_prefix_text(db_type: DbType, table: &str, cols: &Vec<String>) -> (r: String)
    ensures
        r@ == insert_prefix(db_type, table@, views(cols@)),
{
    let n = cols.len();
    let mut quoted: Vec<String> = Vec::new();
    let mut k: usize = 0;
    while k < n
        invariant
            n == cols@.len(),
            k <= n,
            views(quoted@) == views(cols@).map_values(|c: Seq<char>| quoted_ident(db_type, c)).take(
                k as int,
            ),
        decreases n - k,
    {
        let t = quote_ident(db_type, cols[k].as_str());
        proof {
            lemma_views_push(quoted@, t);
        }
        quoted.push(t);
        assert(views(quoted@) =~= views(cols@).map_values(
            |c: Seq<char>| quoted_ident(db_type, c),
        ).take(k + 1));
        k = k + 1;
    }
    assert(views(cols@).map_values(|c: Seq<char>| quoted_ident(db_type, c)).take(n as int)
        =~= views(cols@).map_values(|c: Seq<char>| quoted_ident(db_type, c)));
    let mut out = to_owned("INSERT INTO ");
    push_str(&mut out, quote_ident(db_type, table).as_str());
    push_str(&mut out, " (");
    push_str(&mut out, join(&quoted, ", ").as_str());
    push_str(&mut out, ")\nVALUES\n    ");
    out
}


/// The text of the file an export writes for the rows, whose values are
/// given one per column (see `export_text`).
pub fn export_file_text(
    format: OutputFormat,
    query_mode: bool,
    db_type: DbType,
    name: &str,
    cols: &Vec<String>,
    rows: &Vec<Vec<Option<String>>>,
) -> (r: Option<String>)
    requires
        forall|i: int| 0 <= i < rows@.len() ==> (#[trigger] rows@[i])@.len() == cols@.len(),
        rows@.len() < usize::MAX,
    ensures
        cell_view(r) == export_text(
            format,
            query_mode,
            db_type,
            name@,
            views(cols@),
            rows_view(rows@),
        ),
{
    if cols.len() == 0 || rows.len() == 0 {
        return None;
    }
    let lines = row_lines(format, query_mode, name, cols, rows);
    let ghost lv = Seq::new(
        rows_view(rows@).len(),
        |i: int|
            row_line(format, query_mode, name@, views(cols@), rows_view(rows@)[i], i as nat),
    );
    assert(views(lines@) =~= lv);
    match format {
        OutputFormat::Sql => if query_mode {
            let mut out = join(cols, ",");
            push_str(&mut out, "\n");
            push_str(&mut out, concat_all(&lines).as_str());
            Some(out)
        } else {
            let prefix = insert_prefix_text(db_type, name, cols);
            Some(sql_batches_text(prefix.as_str(), &lines))
        },
        OutputFormat::SqlLite => if query_mode {
            Some(String::new())
        } else {
            None
        },
        OutputFormat::Csv => {
            let mut out = styled_header(CellStyle::Csv, cols, ",");
            assert(views(cols@).map_values(|c: Seq<char>| csv_cell(c)) =~= views(
                cols@,
            ).map_values(|c: Seq<char>| styled(CellStyle::Csv, Some(c))));
            push_str(&mut out, "\n");
            push_str(&mut out, concat_all(&lines).as_str());
            Some(out)
        },
        OutputFormat::Excel => {
            let mut out = styled_header(CellStyle::Escaped(CharRule::Tsv), cols, "\t");
            assert(views(cols@).map_values(|c: Seq<char>| escaped(c, CharRule::Tsv)) =~= views(
                cols@,
            ).map_values(|c: Seq<char>| styled(CellStyle::Escaped(CharRule::Tsv), Some(c))));
            push_str(&mut out, "\n");
            push_str(&mut out, concat_all(&lines).as_str());
            Some(out)
        },
        OutputFormat::Json => {
            let mut out = to_owned("[\n");
            push_str(&mut out, join(&lines, ",\n").as_str());
            push_str(&mut out, "\n]\n");
            Some(out)
        },
        OutputFormat::Xml => {
            let mut out = to_owned("<rows>\n");
            push_str(&mut out, concat_all(&lines).as_str());
            push_str(&mut out, "</rows>\n");
            Some(out)
        },
        OutputFormat::Md => {
            let mut out = md_head_text(cols);
            push_str(&mut out, concat_all(&lines).as_str());
            Some(out)
        },
    }
}

// ---------------------------------------------------------------------
// A page of a table, the result of a query file
// ---------------------------------------------------------------------

/// What an export step leaves: the text of its file, if it writes one, and
/// the number of rows it exported.
pub struct ExportPiece {
    pub file_text: Option<String>,
    pub rows: usize,
}

/// The values a page keeps of each row of a result.
pub open spec fn page_rows(
    result: QueryResult,
    hide_primary_key: bool,
    pk_columns: Seq<Seq<char>>,
) -> Seq<Seq<Option<Seq<char>>>> {
    Seq::new(
        result.rows@.len(),
        |i: int|
            page_row(
                views(result.columns@),
                row_view(result.rows@[i]),
                hide_primary_key,
                pk_columns,
            ),
    )
}

/// The values a page keeps of each row of `result` (see `page_row`); a
/// SQLite export inserts these.
pub fn page_values(result: &QueryResult, hide_primary_key: bool, pk_columns: &Vec<String>) -> (r: Vec<
    Vec<Option<String>>,
>)
    ensures
        rows_view(r@) == page_rows(*result, hide_primary_key, views(pk_columns@)),
        r@.len() == result.rows@.len(),
        forall|i: int| 0 <= i < r@.len() ==> (#[trigger] r@[i])@.len() == result.columns@.len(),
{
    let n = result.rows.len();
    let mut out: Vec<Vec<Option<String>>> = Vec::new();
    let mut i: usize = 0;
    while i < n
        invariant
            n == result.rows@.len(),
            i <= n,
            rows_view(out@) == page_rows(*result, hide_primary_key, views(pk_columns@)).take(
                i as int,
            ),
            forall|i: int| 0 <= i < out@.len() ==> (#[trigger] out@[i])@.len() == result.columns@.len(),
        decreases n - i,
    {
        let vals = page_row_values(&result.columns, &result.rows[i], hide_primary_key, pk_columns);
        let ghost before = out@;
        out.push(vals);
        proof {
            assert(row_view(vals).len() == vals@.len());
            assert(out@ == before.push(vals));
            assert(rows_view(out@) =~= rows_view(before).push(row_view(vals)));
            assert(page_rows(*result, hide_primary_key, views(pk_columns@))[i as int] == row_view(
                vals,
            ));
            assert(rows_view(out@) =~= page_rows(*result, hide_primary_key, views(pk_columns@)).take(
                i + 1,
            ));
        }
        i = i + 1;
    }
    assert(page_rows(*result, hide_primary_key, views(pk_columns@)).take(n as int) =~= page_rows(
        *result,
        hide_primary_key,
        views(pk_columns@),
    ));
    out
}

/// One page of a table export, from the rows the page query returned: the
/// text of the page's file and the number of rows. A result without columns
/// exports nothing.
pub fn export_single_page(
    format: OutputFormat,
    db_type: DbType,
    table: &str,
    result: &QueryResult,
    hide_primary_key: bool,
    pk_columns: &Vec<String>,
) -> (r: ExportPiece)
    requires
        result.rows@.len() < usize::MAX,
    ensures
        r.rows == if result.columns@.len() == 0 {
            0
        } else {
            result.rows@.len()
        },
        cell_view(r.file_text) == export_text(
            format,
            false,
            db_type,
            table@,
            views(result.columns@),
            page_rows(*result, hide_primary_key, views(pk_columns@)),
        ),
{
    let vals = page_values(result, hide_primary_key, pk_columns);
    let text = export_file_text(format, false, db_type, table, &result.columns, &vals);
    let rows = if result.columns.len() == 0 {
        0
    } else {
        result.rows.len()
    };
    ExportPiece { file_text: text, rows }
}

/// The values of a query's row, one per column; a short row has no value in
/// its missing columns.
pub open spec fn query_rows(result: QueryResult) -> Seq<Seq<Option<Seq<char>>>> {
    Seq::new(
        result.rows@.len(),
        |i: int|
            Seq::new(
                result.columns@.len(),
                |k: int| cell_at(row_view(result.rows@[i]), k),
            ),
    )
}

fn query_values(result: &QueryResult) -> (r: Vec<Vec<Option<String>>>)
    ensures
        rows_view(r@) == query_rows(*result),
        r@.len() == result.rows@.len(),
        forall|i: int| 0 <= i < r@.len() ==> (#[trigger] r@[i])@.len() == result.columns@.len(),
{
    let n = result.rows.len();
    let m = result.columns.len();
    let mut out: Vec<Vec<Option<String>>> = Vec::new();
    let mut i: usize = 0;
    while i < n
        invariant
            n == result.rows@.len(),
            m == result.columns@.len(),
            i <= n,
            rows_view(out@) == query_rows(*result).take(i as int),
            forall|i: int| 0 <= i < out@.len() ==> (#[trigger] out@[i])@.len() == m,
        decreases n - i,
    {
        let row = &result.rows[i];
        let mut vals: Vec<Option<String>> = Vec::new();
        let mut k: usize = 0;
        while k < m
            invariant
                m == result.columns@.len(),
                i < n,
                n == result.rows@.len(),
                row == &result.rows@[i as int],
                k <= m,
                row_view(vals) == query_rows(*result)[i as int].take(k as int),
            decreases m - k,
        {
            let c = match row_cell(row, k) {
                Some(s) => Some(to_owned(s)),
                None => None,
            };
            let ghost before = vals@;
            vals.push(c);
            assert(vals@ == before.push(c));
            assert(row_view(vals) =~= before.map_values(|c: Option<String>| cell_view(c)).push(
                cell_view(c),
            ));
            assert(query_rows(*result)[i as int][k as int] == cell_at(
                row_view(result.rows@[i as int]),
                k as int,
            ));
            assert(row_view(vals) =~= query_rows(*result)[i as int].take(k + 1));
            k = k + 1;
        }
        assert(query_rows(*result)[i as int].take(m as int) =~= query_rows(*result)[i as int]);
        let ghost before = out@;
        out.push(vals);
        proof {
            assert(out@ == before.push(vals));
            assert(rows_view(out@) =~= rows_view(before).push(row_view(vals)));
            assert(rows_view(out@) =~= query_rows(*result).take(i + 1));
        }
        i = i + 1;
    }
    assert(query_rows(*result).take(n as int) =~= query_rows(*result));
    out
}

/// The export of a query file's result under the name `name`: the text of
/// its file and the number of rows. A result without columns exports
/// nothing.
pub fn export_sql_query_result(format: OutputFormat, name: &str, result: &QueryResult) -> (r:
    ExportPiece)
    requires
        result.rows@.len() < usize::MAX,
    ensures
        r.rows == if result.columns@.len() == 0 {
            0
        } else {
            result.rows@.len()
        },
        cell_view(r.file_text) == export_text(
            format,
            true,
            DbType::SqlLite,
            name@,
            views(result.columns@),
            query_rows(*result),
        ),
{
    let vals = query_values(result);
    let text = export_file_text(format, true, DbType::SqlLite, name, &result.columns, &vals);
    let rows = if result.columns.len() == 0 {
        0
    } else {
        result.rows.len()
    };
    ExportPiece { file_text: text, rows }
}

/// A query result is written as a page of a table is: in every format but
/// SQL (plain lines for a query, INSERT statements for a table) and SQLite
/// (rows go into the database), the file of a query result is the file a
/// page with the same columns and values gives.
pub proof fn law_query_text_is_page_text(
    format: OutputFormat,
    db_type: DbType,
    name: Seq<char>,
    cols: Seq<Seq<char>>,
    rows: Seq<Seq<Option<Seq<char>>>>,
)
    requires
        format != OutputFormat::Sql,
        format != OutputFormat::SqlLite,
    ensures
        export_text(format, true, db_type, name, cols, rows) == export_text(
            format,
            false,
            db_type,
            name,
            cols,
            rows,
        ),
{
    let a = Seq::new(
        rows.len(),
        |i: int| row_line(format, true, name, cols, rows[i], i as nat),
    );
    let b = Seq::new(
        rows.len(),
        |i: int| row_line(format, false, name, cols, rows[i], i as nat),
    );
    assert(a =~= b);
}

/// The header line of a tab-separated (Excel) file: the column names,
/// escaped, joined by tabs.
pub open spec fn tsv_header(cols: Seq<Seq<char>>) -> Seq<char> {
    join_seq(cols.map_values(|c: Seq<char>| escaped(c, CharRule::Tsv)), "\t"@) + "\n"@
}

/// An Excel (tab-separated) file, of a page or of a query result, starts
/// with the header line of its column names, followed by one line per row:
/// its values escaped and joined by tabs.
pub proof fn law_excel_text_has_header(
    query_mode: bool,
    db_type: DbType,
    name: Seq<char>,
    cols: Seq<Seq<char>>,
    rows: Seq<Seq<Option<Seq<char>>>>,
)
    requires
        cols.len() > 0,
        rows.len() > 0,
    ensures
        export_text(OutputFormat::Excel, query_mode, db_type, name, cols, rows) == Some(
            tsv_header(cols) + concat(
                Seq::new(
                    rows.len(),
                    |i: int|
                        join_seq(
                            rows[i].map_values(|v: Option<Seq<char>>| esc_or_empty(v, CharRule::Tsv)),
                            "\t"@,
                        ) + "\n"@,
                ),
            ),
        ),
{
    let lines = Seq::new(
        rows.len(),
        |i: int| row_line(OutputFormat::Excel, query_mode, name, cols, rows[i], i as nat),
    );
    assert(lines =~= Seq::new(
        rows.len(),
        |i: int|
            join_seq(
                rows[i].map_values(|v: Option<Seq<char>>| esc_or_empty(v, CharRule::Tsv)),
                "\t"@,
            ) + "\n"@,
    ));
}

/// A CSV line: the values' cells joined by commas, ended by a line feed.
pub open spec fn csv_line(vals: Seq<Option<Seq<char>>>) -> Seq<char> {
    join_seq(vals.map_values(|v: Option<Seq<char>>| csv_or_empty(v)), ","@) + "\n"@
}

/// The CSV file of a query's result is its header line, the column names
/// written as a line of values, followed by one line per row in order; a
/// result without columns or without rows writes no file.
pub proof fn law_query_result_csv(
    name: Seq<char>,
    cols: Seq<Seq<char>>,
    rows: Seq<Seq<Option<Seq<char>>>>,
)
    ensures
        export_text(OutputFormat::Csv, true, DbType::SqlLite, name, cols, rows) == if cols.len()
            == 0 || rows.len() == 0 {
            None::<Seq<char>>
        } else {
            Some(
                csv_line(cols.map_values(|c: Seq<char>| Some(c))) + concat(
                    Seq::new(rows.len(), |i: int| csv_line(rows[i])),
                ),
            )
        },
{
    let header = cols.map_values(|c: Seq<char>| Some(c));
    assert(header.map_values(|v: Option<Seq<char>>| csv_or_empty(v)) =~= cols.map_values(
        |c: Seq<char>| csv_cell(c),
    ));
    let lines = Seq::new(
        rows.len(),
        |i: int| row_line(OutputFormat::Csv, true, name, cols, rows[i], i as nat),
    );
    assert(lines =~= Seq::new(rows.len(), |i: int| csv_line(rows[i])));
}

/// The values of a query's rows, as a SQLite export inserts them.
pub fn query_result_values(result: &QueryResult) -> (r: Vec<Vec<Option<String>>>)
    ensures
        rows_view(r@) == query_rows(*result),
{
    query_values(result)
}

/// The name a query file's result is exported under: the file's stem, or
/// `sql_result` when it has none.
pub fn query_object_name(file_stem: Option<&str>) -> (r: String)
    ensures
        r@ == match file_stem {
            Some(s) => s@,
            None => "sql_result"@,
        },
{
    match file_stem {
        Some(s) => to_owned(s),
        None => to_owned("sql_result"),
    }
}

/// `CREATE TABLE IF NOT EXISTS <table> (<column> TEXT, ...);` for the SQLite
/// export file.
pub open spec fn sqlite_create(table: Seq<char>, cols: Seq<Seq<char>>) -> Seq<char> {
    "CREATE TABLE IF NOT EXISTS "@ + quoted_ident(DbType::SqlLite, table) + " ("@ + join_seq(
        cols.map_values(|c: Seq<char>| quoted_ident(DbType::SqlLite, c) + " TEXT"@),
        ", "@,
    ) + ");"@
}

/// `INSERT INTO <table> (<columns>) VALUES (?, ...)` for the SQLite export
/// file.
pub open spec fn sqlite_insert(table: Seq<char>, cols: Seq<Seq<char>>) -> Seq<char> {
    "INSERT INTO "@ + quoted_ident(DbType::SqlLite, table) + " ("@ + join_seq(
        cols.map_values(|c: Seq<char>| quoted_ident(DbType::SqlLite, c)),
        ", "@,
    ) + ") VALUES ("@ + join_seq(Seq::new(cols.len(), |k: int| "?"@), ", "@) + ")"@
}

pub fn sqlite_create_sql(table: &str, cols: &Vec<String>) -> (r: String)
    ensures
        r@ == sqlite_create(table@, views(cols@)),
{
    let n = cols.len();
    let mut parts: Vec<String> = Vec::new();
    let mut k: usize = 0;
    while k < n
        invariant
            n == cols@.len(),
            k <= n,
            views(parts@) == views(cols@).map_values(
                |c: Seq<char>| quoted_ident(DbType::SqlLite, c) + " TEXT"@,
            ).take(k as int),
        decreases n - k,
    {
        let mut t = quote_ident(DbType::SqlLite, cols[k].as_str());
        push_str(&mut t, " TEXT");
        proof {
            lemma_views_push(parts@, t);
        }
        parts.push(t);
        assert(views(parts@) =~= views(cols@).map_values(
            |c: Seq<char>| quoted_ident(DbType::SqlLite, c) + " TEXT"@,
        ).take(k + 1));
        k = k + 1;
    }
    assert(views(cols@).map_values(|c: Seq<char>| quoted_ident(DbType::SqlLite, c) + " TEXT"@).take(
        n as int,
    ) =~= views(cols@).map_values(|c: Seq<char>| quoted_ident(DbType::SqlLite, c) + " TEXT"@));
    let mut out = to_owned("CREATE TABLE IF NOT EXISTS ");
    push_str(&mut out, quote_ident(DbType::SqlLite, table).as_str());
    push_str(&mut out, " (");
    push_str(&mut out, join(&parts, ", ").as_str());
    push_str(&mut out, ");");
    out
}

pub fn sqlite_insert_sql(table: &str, cols: &Vec<String>) -> (r: String)
    ensures
        r@ == sqlite_insert(table@, views(cols@)),
{
    let n = cols.len();
    let mut quoted: Vec<String> = Vec::new();
    let mut marks: Vec<String> = Vec::new();
    let mut k: usize = 0;
    while k < n
        invariant
            n == cols@.len(),
            k <= n,
            views(quoted@) == views(cols@).map_values(
                |c: Seq<char>| quoted_ident(DbType::SqlLite, c),
            ).take(k as int),
            views(marks@) == Seq::new(k as nat, |j: int| "?"@),
        decreases n - k,
    {
        let t = quote_ident(DbType::SqlLite, cols[k].as_str());
        let q = to_owned("?");
        proof {
            lemma_views_push(quoted@, t);
            lemma_views_push(marks@, q);
        }
        quoted.push(t);
        marks.push(q);
        assert(views(quoted@) =~= views(cols@).map_values(
            |c: Seq<char>| quoted_ident(DbType::SqlLite, c),
        ).take(k + 1));
        assert(views(marks@) =~= Seq::new((k + 1) as nat, |j: int| "?"@));
        k = k + 1;
    }
    assert(views(cols@).map_values(|c: Seq<char>| quoted_ident(DbType::SqlLite, c)).take(n as int)
        =~= views(cols@).map_values(|c: Seq<char>| quoted_ident(DbType::SqlLite, c)));
    let mut out = to_owned("INSERT INTO ");
    push_str(&mut out, quote_ident(DbType::SqlLite, table).as_str());
    push_str(&mut out, " (");
    push_str(&mut out, join(&quoted, ", ").as_str());
    push_str(&mut out, ") VALUES (");
    push_str(&mut out, join(&marks, ", ").as_str());
    push_str(&mut out, ")");
    out
}

} // verus!
