//! The statements the tool sends to a database, and what it makes of the rows
//! that come back. The connection itself is the caller's: these functions
//! build the text of a statement, or take the result of one as plain values.
use vstd::prelude::*;
use crate::config::{Cli, DbType};
use crate::escape::{escaped, push_escaped, CharRule};
use crate::sql_text::{contains_string, quote_ident, quoted_ident, sql_quote, sql_quoted};
use crate::text::{
    decimal, eq_ignore_ascii_case, lemma_push_to_set, join, join_seq, lower_seq, parse_usize, parse_usize_seq,
    push_char, push_str, to_ascii_lower, to_owned, trim, trim_seq, usize_to_string, views,
};

verus! {

// ---------------------------------------------------------------------
// Query results as plain values
// ---------------------------------------------------------------------

/// The result of one query: column names, and rows of cells where `None` is
/// SQL NULL.
#[derive(Clone, Debug)]
pub struct QueryResult {
    pub columns: Vec<String>,
    pub rows: Vec<Vec<Option<String>>>,
}

pub open spec fn cell_view(c: Option<String>) -> Option<Seq<char>> {
    match c {
        Some(s) => Some(s@),
        None => None,
    }
}

pub open spec fn row_view(r: Vec<Option<String>>) -> Seq<Option<Seq<char>>> {
    r@.map_values(|c: Option<String>| cell_view(c))
}

pub open spec fn rows_view(rows: Seq<Vec<Option<String>>>) -> Seq<Seq<Option<Seq<char>>>> {
    rows.map_values(|r: Vec<Option<String>>| row_view(r))
}

/// The row count and size the tool shows for a table.
#[derive(Clone, Debug)]
pub struct TableStat {
    pub name: String,
    pub rows: usize,
    pub size_bytes: usize,
}

/// Why a statement could not be built.
#[derive(Clone, Debug, PartialEq, Eq, Structural)]
pub enum DbError {
    /// `invalid insert payload`: no columns, or not one value per column.
    InvalidInsertPayload,
}

impl DbError {
    /// The message the refusal is reported with.
    pub fn message(&self) -> (r: &'static str)
        ensures
            r@ == "invalid insert payload"@,
    {
        match self {
            DbError::InvalidInsertPayload => "invalid insert payload",
        }
    }
}

// ---------------------------------------------------------------------
// Catalogue queries
// ---------------------------------------------------------------------

pub open spec fn spec_list_objects_sql(db_type: DbType) -> Seq<char> {
    match db_type {
        DbType::Oracle => "SELECT object_name FROM (SELECT table_name AS object_name FROM user_tables UNION ALL SELECT view_name AS object_name FROM user_views) t ORDER BY object_name"@,
        DbType::SqlLite => "SELECT name FROM sqlite_master WHERE type IN ('table','view') AND name NOT LIKE 'sqlite_%' ORDER BY name"@,
        _ => "SELECT table_name FROM information_schema.tables WHERE table_type IN ('BASE TABLE', 'VIEW') ORDER BY table_name"@,
    }
}

/// The query listing the tables and views an export chooses from.
pub fn list_objects_sql(db_type: DbType) -> (r: &'static str)
    ensures
        r@ == spec_list_objects_sql(db_type),
{
    match db_type {
        DbType::Oracle => "SELECT object_name FROM (SELECT table_name AS object_name FROM user_tables UNION ALL SELECT view_name AS object_name FROM user_views) t ORDER BY object_name",
        DbType::SqlLite => "SELECT name FROM sqlite_master WHERE type IN ('table','view') AND name NOT LIKE 'sqlite_%' ORDER BY name",
        _ => "SELECT table_name FROM information_schema.tables WHERE table_type IN ('BASE TABLE', 'VIEW') ORDER BY table_name",
    }
}

pub open spec fn spec_list_tables_only_sql(db_type: DbType) -> Seq<char> {
    match db_type {
        DbType::Mssql => "SELECT table_name FROM information_schema.tables WHERE table_type='BASE TABLE' ORDER BY table_name"@,
        DbType::Mysql => "SELECT table_name FROM information_schema.tables WHERE table_schema = DATABASE() AND table_type='BASE TABLE' ORDER BY table_name"@,
        DbType::Postgresql => "SELECT table_name FROM information_schema.tables WHERE table_schema = current_schema() AND table_type='BASE TABLE' ORDER BY table_name"@,
        DbType::Oracle => "SELECT table_name FROM user_tables ORDER BY table_name"@,
        DbType::SqlLite => "SELECT name FROM sqlite_master WHERE type='table' AND name NOT LIKE 'sqlite_%' ORDER BY name"@,
    }
}

pub fn list_tables_only_sql(db_type: DbType) -> (r: &'static str)
    ensures
        r@ == spec_list_tables_only_sql(db_type),
{
    match db_type {
        DbType::Mssql => "SELECT table_name FROM information_schema.tables WHERE table_type='BASE TABLE' ORDER BY table_name",
        DbType::Mysql => "SELECT table_name FROM information_schema.tables WHERE table_schema = DATABASE() AND table_type='BASE TABLE' ORDER BY table_name",
        DbType::Postgresql => "SELECT table_name FROM information_schema.tables WHERE table_schema = current_schema() AND table_type='BASE TABLE' ORDER BY table_name",
        DbType::Oracle => "SELECT table_name FROM user_tables ORDER BY table_name",
        DbType::SqlLite => "SELECT name FROM sqlite_master WHERE type='table' AND name NOT LIKE 'sqlite_%' ORDER BY name",
    }
}

pub open spec fn spec_list_views_only_sql(db_type: DbType) -> Seq<char> {
    match db_type {
        DbType::Mssql => "SELECT table_name FROM information_schema.tables WHERE table_type='VIEW' ORDER BY table_name"@,
        DbType::Mysql => "SELECT table_name FROM information_schema.views WHERE table_schema = DATABASE() ORDER BY table_name"@,
        DbType::Postgresql => "SELECT table_name FROM information_schema.views WHERE table_schema = current_schema() ORDER BY table_name"@,
        DbType::Oracle => "SELECT view_name FROM user_views ORDER BY view_name"@,
        DbType::SqlLite => "SELECT name FROM sqlite_master WHERE type='view' ORDER BY name"@,
    }
}

pub fn list_views_only_sql(db_type: DbType) -> (r: &'static str)
    ensures
        r@ == spec_list_views_only_sql(db_type),
{
    match db_type {
        DbType::Mssql => "SELECT table_name FROM information_schema.tables WHERE table_type='VIEW' ORDER BY table_name",
        DbType::Mysql => "SELECT table_name FROM information_schema.views WHERE table_schema = DATABASE() ORDER BY table_name",
        DbType::Postgresql => "SELECT table_name FROM information_schema.views WHERE table_schema = current_schema() ORDER BY table_name",
        DbType::Oracle => "SELECT view_name FROM user_views ORDER BY view_name",
        DbType::SqlLite => "SELECT name FROM sqlite_master WHERE type='view' ORDER BY name",
    }
}

pub open spec fn spec_list_stored_procedures_sql(db_type: DbType) -> Seq<char> {
    match db_type {
        DbType::Mssql => "SELECT name FROM sys.procedures ORDER BY name"@,
        DbType::Mysql => "SELECT routine_name FROM information_schema.routines WHERE routine_schema = DATABASE() AND routine_type='PROCEDURE' ORDER BY routine_name"@,
        DbType::Postgresql => "SELECT routine_name FROM information_schema.routines WHERE specific_schema = current_schema() AND routine_type='PROCEDURE' ORDER BY routine_name"@,
        DbType::Oracle => "SELECT object_name FROM user_procedures WHERE object_type='PROCEDURE' ORDER BY object_name"@,
        DbType::SqlLite => "SELECT '' WHERE 1=0"@,
    }
}

/// SQLite has no stored procedures; its query returns no rows.
pub fn list_stored_procedures_sql(db_type: DbType) -> (r: &'static str)
    ensures
        r@ == spec_list_stored_procedures_sql(db_type),
{
    match db_type {
        DbType::Mssql => "SELECT name FROM sys.procedures ORDER BY name",
        DbType::Mysql => "SELECT routine_name FROM information_schema.routines WHERE routine_schema = DATABASE() AND routine_type='PROCEDURE' ORDER BY routine_name",
        DbType::Postgresql => "SELECT routine_name FROM information_schema.routines WHERE specific_schema = current_schema() AND routine_type='PROCEDURE' ORDER BY routine_name",
        DbType::Oracle => "SELECT object_name FROM user_procedures WHERE object_type='PROCEDURE' ORDER BY object_name",
        DbType::SqlLite => "SELECT '' WHERE 1=0",
    }
}

/// The SQL Server statistics query: per table, its row count and its size in
/// bytes.
pub open spec fn spec_mssql_table_stats_sql() -> Seq<char> {
    "SELECT t.name, CAST(SUM(p.rows) AS BIGINT) AS row_count, CAST(SUM(a.total_pages) * 8192 AS BIGINT) AS size_bytes FROM sys.tables t JOIN sys.indexes i ON t.object_id=i.object_id JOIN sys.partitions p ON i.object_id=p.object_id AND i.index_id=p.index_id JOIN sys.allocation_units a ON p.partition_id=a.container_id WHERE i.index_id IN (0,1) GROUP BY t.name ORDER BY t.name"@
}

/// The query behind the table list of the database page: statistics on SQL
/// Server, the plain table list elsewhere.
pub fn list_table_stats_sql(db_type: DbType) -> (r: &'static str)
    ensures
        r@ == (if db_type == DbType::Mssql {
            spec_mssql_table_stats_sql()
        } else {
            spec_list_tables_only_sql(db_type)
        }),
{
    match db_type {
        DbType::Mssql => "SELECT t.name, CAST(SUM(p.rows) AS BIGINT) AS row_count, CAST(SUM(a.total_pages) * 8192 AS BIGINT) AS size_bytes FROM sys.tables t JOIN sys.indexes i ON t.object_id=i.object_id JOIN sys.partitions p ON i.object_id=p.object_id AND i.index_id=p.index_id JOIN sys.allocation_units a ON p.partition_id=a.container_id WHERE i.index_id IN (0,1) GROUP BY t.name ORDER BY t.name",
        _ => list_tables_only_sql(db_type),
    }
}

// ---------------------------------------------------------------------
// Literals
// ---------------------------------------------------------------------

/// `raw` between single quotes with inner single quotes doubled (its double
/// quotes are kept as they are).
pub fn sql_quote_literal(raw: &str) -> (r: String)
    ensures
        r@ == seq!['\''] + escaped(raw@, CharRule::SqlLiteral) + seq!['\''],
{
    let mut out = String::new();
    push_char(&mut out, '\'');
    push_escaped(&mut out, raw, CharRule::SqlLiteral);
    push_char(&mut out, '\'');
    assert(out@ =~= seq!['\''] + escaped(raw@, CharRule::SqlLiteral) + seq!['\'']);
    out
}

/// A string literal for the database: SQL Server's is the national form
/// `N'..'`.
pub open spec fn string_literal(db_type: DbType, v: Seq<char>) -> Seq<char> {
    match db_type {
        DbType::Mssql => seq!['N'] + sql_quoted(v),
        _ => sql_quoted(v),
    }
}

pub fn sql_string_literal(db_type: DbType, value: &str) -> (r: String)
    ensures
        r@ == string_literal(db_type, value@),
{
    let q = sql_quote(value);
    match db_type {
        DbType::Mssql => {
            let mut out = String::new();
            push_char(&mut out, 'N');
            push_str(&mut out, q.as_str());
            assert(out@ =~= string_literal(db_type, value@));
            out
        },
        _ => q,
    }
}

/// An expression compared under the session's collation: on SQL Server with
/// a collation set, `expr COLLATE <collation>`; otherwise the expression.
pub open spec fn collated(cli: Cli, expr: Seq<char>) -> Seq<char> {
    if cli.db_type == DbType::Mssql && trim_seq(cli.export_collation@).len() > 0 {
        expr + " COLLATE "@ + trim_seq(cli.export_collation@)
    } else {
        expr
    }
}

pub fn mssql_collation_expr(cli: &Cli, expr: &str) -> (r: String)
    ensures
        r@ == collated(*cli, expr@),
{
    let c = trim(cli.export_collation.as_str());
    let mut out = to_owned(expr);
    if cli.db_type == DbType::Mssql && c.as_str().unicode_len() > 0 {
        push_str(&mut out, " COLLATE ");
        push_str(&mut out, c.as_str());
    }
    out
}

// ---------------------------------------------------------------------
// Auto-increment primary keys
// ---------------------------------------------------------------------

pub open spec fn spec_auto_increment_pk_columns_sql(db_type: DbType, table: Seq<char>) -> Seq<
    char,
> {
    let lit = seq!['\''] + escaped(table, CharRule::SqlLiteral) + seq!['\''];
    match db_type {
        DbType::Mssql => "SELECT c.name FROM sys.tables t JOIN sys.columns c ON c.object_id = t.object_id JOIN sys.index_columns ic ON ic.object_id = t.object_id AND ic.column_id = c.column_id JOIN sys.indexes i ON i.object_id = t.object_id AND i.index_id = ic.index_id WHERE t.name = "@
            + lit + " AND i.is_primary_key = 1 AND c.is_identity = 1"@,
        DbType::Mysql => "SELECT column_name FROM information_schema.columns WHERE table_schema = DATABASE() AND table_name = "@
            + lit + " AND column_key = 'PRI' AND extra LIKE '%auto_increment%'"@,
        DbType::Postgresql => "SELECT kcu.column_name FROM information_schema.table_constraints tc JOIN information_schema.key_column_usage kcu ON tc.constraint_name = kcu.constraint_name AND tc.table_schema = kcu.table_schema AND tc.table_name = kcu.table_name JOIN information_schema.columns c ON c.table_schema = kcu.table_schema AND c.table_name = kcu.table_name AND c.column_name = kcu.column_name WHERE tc.constraint_type = 'PRIMARY KEY' AND tc.table_schema = current_schema() AND tc.table_name = "@
            + lit + " AND (c.is_identity = 'YES' OR c.column_default LIKE 'nextval(%')"@,
        DbType::Oracle => "SELECT ucc.column_name FROM user_constraints uc JOIN user_cons_columns ucc ON uc.constraint_name = ucc.constraint_name JOIN user_tab_identity_cols uic ON uic.table_name = ucc.table_name AND uic.column_name = ucc.column_name WHERE uc.constraint_type = 'P' AND uc.table_name = UPPER("@
            + lit + ")"@,
        DbType::SqlLite => "SELECT name FROM pragma_table_info("@ + lit
            + ") WHERE pk > 0 AND UPPER(type) LIKE '%INT%'"@,
    }
}

/// The query naming a table's auto-increment primary key columns.
pub fn auto_increment_pk_columns_sql(db_type: DbType, table: &str) -> (r: String)
    ensures
        r@ == spec_auto_increment_pk_columns_sql(db_type, table@),
{
    let lit = sql_quote_literal(table);
    let mut out = String::new();
    match db_type {
        DbType::Mssql => {
            push_str(&mut out, "SELECT c.name FROM sys.tables t JOIN sys.columns c ON c.object_id = t.object_id JOIN sys.index_columns ic ON ic.object_id = t.object_id AND ic.column_id = c.column_id JOIN sys.indexes i ON i.object_id = t.object_id AND i.index_id = ic.index_id WHERE t.name = ");
            push_str(&mut out, lit.as_str());
            push_str(&mut out, " AND i.is_primary_key = 1 AND c.is_identity = 1");
        },
        DbType::Mysql => {
            push_str(&mut out, "SELECT column_name FROM information_schema.columns WHERE table_schema = DATABASE() AND table_name = ");
            push_str(&mut out, lit.as_str());
            push_str(&mut out, " AND column_key = 'PRI' AND extra LIKE '%auto_increment%'");
        },
        DbType::Postgresql => {
            push_str(&mut out, "SELECT kcu.column_name FROM information_schema.table_constraints tc JOIN information_schema.key_column_usage kcu ON tc.constraint_name = kcu.constraint_name AND tc.table_schema = kcu.table_schema AND tc.table_name = kcu.table_name JOIN information_schema.columns c ON c.table_schema = kcu.table_schema AND c.table_name = kcu.table_name AND c.column_name = kcu.column_name WHERE tc.constraint_type = 'PRIMARY KEY' AND tc.table_schema = current_schema() AND tc.table_name = ");
            push_str(&mut out, lit.as_str());
            push_str(&mut out, " AND (c.is_identity = 'YES' OR c.column_default LIKE 'nextval(%')");
        },
        DbType::Oracle => {
            push_str(&mut out, "SELECT ucc.column_name FROM user_constraints uc JOIN user_cons_columns ucc ON uc.constraint_name = ucc.constraint_name JOIN user_tab_identity_cols uic ON uic.table_name = ucc.table_name AND uic.column_name = ucc.column_name WHERE uc.constraint_type = 'P' AND uc.table_name = UPPER(");
            push_str(&mut out, lit.as_str());
            push_str(&mut out, ")");
        },
        DbType::SqlLite => {
            push_str(&mut out, "SELECT name FROM pragma_table_info(");
            push_str(&mut out, lit.as_str());
            push_str(&mut out, ") WHERE pk > 0 AND UPPER(type) LIKE '%INT%'");
        },
    }
    assert(out@ =~= spec_auto_increment_pk_columns_sql(db_type, table@));
    out
}

// ---------------------------------------------------------------------
// Reading rows
// ---------------------------------------------------------------------

/// The first cell of each row that has one, is not NULL, and is not blank.
pub open spec fn first_column_names(rows: Seq<Seq<Option<Seq<char>>>>) -> Seq<Seq<char>>
    decreases rows.len(),
{
    if rows.len() == 0 {
        Seq::empty()
    } else {
        let prev = first_column_names(rows.drop_last());
        let r = rows.last();
        if r.len() > 0 && r[0] is Some && trim_seq(r[0]->0).len() > 0 {
            prev.push(r[0]->0)
        } else {
            prev
        }
    }
}

pub fn query_first_column_as_vec(result: &QueryResult) -> (r: Vec<String>)
    ensures
        views(r@) == first_column_names(rows_view(result.rows@)),
{
    let n = result.rows.len();
    let mut out: Vec<String> = Vec::new();
    let mut i: usize = 0;
    while i < n
        invariant
            n == result.rows@.len(),
            i <= n,
            views(out@) == first_column_names(rows_view(result.rows@).take(i as int)),
        decreases n - i,
    {
        let row = &result.rows[i];
        assert(rows_view(result.rows@).take(i + 1).drop_last() =~= rows_view(result.rows@).take(
            i as int,
        ));
        assert(rows_view(result.rows@).take(i + 1).last() == row_view(*row));
        if row.len() > 0 {
            assert(row_view(*row)[0] == cell_view(row@[0]));
            match &row[0] {
                Some(item) => {
                    let t = trim(item.as_str());
                    if t.as_str().unicode_len() > 0 {
                        let ghost old_out = out@;
                        out.push(item.clone());
                        assert(views(out@) =~= views(old_out).push(item@));
                    }
                },
                None => {},
            }
        }
        i = i + 1;
    }
    assert(rows_view(result.rows@).take(n as int) =~= rows_view(result.rows@));
    out
}

/// The names of a catalogue listing (tables, views or procedures).
pub fn tui_list_tables(result: &QueryResult) -> (r: Vec<String>)
    ensures
        views(r@) == first_column_names(rows_view(result.rows@)),
{
    query_first_column_as_vec(result)
}

pub fn tui_list_views(result: &QueryResult) -> (r: Vec<String>)
    ensures
        views(r@) == first_column_names(rows_view(result.rows@)),
{
    query_first_column_as_vec(result)
}

pub fn tui_list_stored_procedures(result: &QueryResult) -> (r: Vec<String>)
    ensures
        views(r@) == first_column_names(rows_view(result.rows@)),
{
    query_first_column_as_vec(result)
}

/// A cell read as a count: its text parsed as a `usize`, or 0 when it is
/// missing, NULL or not a number.
pub open spec fn count_cell(r: Seq<Option<Seq<char>>>, i: int) -> usize {
    if 0 <= i < r.len() && r[i] is Some && parse_usize_seq(r[i]->0) is Some {
        parse_usize_seq(r[i]->0).unwrap()
    } else {
        0
    }
}

/// The name a statistics row is for: its first cell, or empty.
pub open spec fn name_cell(r: Seq<Option<Seq<char>>>) -> Seq<char> {
    if r.len() > 0 && r[0] is Some {
        r[0]->0
    } else {
        Seq::empty()
    }
}

pub open spec fn stat_view(s: TableStat) -> (Seq<char>, usize, usize) {
    (s.name@, s.rows, s.size_bytes)
}

/// The statistics rows whose name is not blank, as (name, rows, bytes).
pub open spec fn stats_of_rows(rows: Seq<Seq<Option<Seq<char>>>>) -> Seq<(Seq<char>, usize, usize)>
    decreases rows.len(),
{
    if rows.len() == 0 {
        Seq::empty()
    } else {
        let prev = stats_of_rows(rows.drop_last());
        let r = rows.last();
        if trim_seq(name_cell(r)).len() > 0 {
            prev.push((name_cell(r), count_cell(r, 1), count_cell(r, 2)))
        } else {
            prev
        }
    }
}

fn count_at(row: &Vec<Option<String>>, i: usize) -> (r: usize)
    ensures
        r == count_cell(row_view(*row), i as int),
{
    if i < row.len() {
        match &row[i] {
            Some(s) => match parse_usize(s.as_str()) {
                Some(v) => v,
                None => 0,
            },
            None => 0,
        }
    } else {
        0
    }
}

fn query_table_stats_rows(result: &QueryResult) -> (r: Vec<TableStat>)
    ensures
        r@.map_values(|s: TableStat| stat_view(s)) == stats_of_rows(rows_view(result.rows@)),
{
    let n = result.rows.len();
    let mut out: Vec<TableStat> = Vec::new();
    let mut i: usize = 0;
    while i < n
        invariant
            n == result.rows@.len(),
            i <= n,
            out@.map_values(|s: TableStat| stat_view(s)) == stats_of_rows(
                rows_view(result.rows@).take(i as int),
            ),
        decreases n - i,
    {
        let row = &result.rows[i];
        let ghost rv = row_view(*row);
        assert(rows_view(result.rows@).take(i + 1).drop_last() =~= rows_view(result.rows@).take(
            i as int,
        ));
        assert(rows_view(result.rows@).take(i + 1).last() == rv);
        let name = if row.len() > 0 {
            match &row[0] {
                Some(s) => s.clone(),
                None => String::new(),
            }
        } else {
            String::new()
        };
        assert(name@ == name_cell(rv));
        let t = trim(name.as_str());
        if t.as_str().unicode_len() > 0 {
            let rows = count_at(row, 1);
            let size_bytes = count_at(row, 2);
            let ghost old_out = out@;
            let st = TableStat { name, rows, size_bytes };
            let ghost sv = stat_view(st);
            out.push(st);
            assert(out@.map_values(|s: TableStat| stat_view(s)) =~= old_out.map_values(
                |s: TableStat| stat_view(s),
            ).push(sv));
        }
        i = i + 1;
    }
    assert(rows_view(result.rows@).take(n as int) =~= rows_view(result.rows@));
    out
}

/// The tables of the database page with their statistics: read from the
/// statistics query on SQL Server; elsewhere each listed table with 0 rows
/// and 0 bytes.
pub fn list_table_stats(db_type: DbType, result: &QueryResult) -> (r: Vec<TableStat>)
    ensures
        db_type == DbType::Mssql ==> r@.map_values(|s: TableStat| stat_view(s)) == stats_of_rows(
            rows_view(result.rows@),
        ),
        db_type != DbType::Mssql ==> r@.map_values(|s: TableStat| stat_view(s))
            == first_column_names(rows_view(result.rows@)).map_values(
            |n: Seq<char>| (n, 0usize, 0usize),
        ),
{
    if db_type == DbType::Mssql {
        query_table_stats_rows(result)
    } else {
        let names = query_first_column_as_vec(result);
        let n = names.len();
        let mut out: Vec<TableStat> = Vec::new();
        let mut i: usize = 0;
        while i < n
            invariant
                n == names@.len(),
                i <= n,
                out@.map_values(|s: TableStat| stat_view(s)) == views(names@).take(
                    i as int,
                ).map_values(|n: Seq<char>| (n, 0usize, 0usize)),
            decreases n - i,
        {
            let ghost old_out = out@;
            let st = TableStat { name: names[i].clone(), rows: 0, size_bytes: 0 };
            let ghost sv = stat_view(st);
            out.push(st);
            assert(out@.map_values(|s: TableStat| stat_view(s)) =~= old_out.map_values(
                |s: TableStat| stat_view(s),
            ).push(sv));
            assert(views(names@).take(i + 1) =~= views(names@).take(i as int).push(
                views(names@)[i as int],
            ));
            assert(out@.map_values(|s: TableStat| stat_view(s)) =~= views(names@).take(
                i + 1,
            ).map_values(|n: Seq<char>| (n, 0usize, 0usize)));
            i = i + 1;
        }
        assert(views(names@).take(n as int) =~= views(names@));
        out
    }
}

/// Cells as text: NULL becomes the empty string.
pub open spec fn cell_text(c: Option<Seq<char>>) -> Seq<char> {
    match c {
        Some(s) => s,
        None => Seq::empty(),
    }
}

pub open spec fn rows_text(rows: Seq<Seq<Option<Seq<char>>>>) -> Seq<Seq<Seq<char>>> {
    rows.map_values(|r: Seq<Option<Seq<char>>>| r.map_values(|c: Option<Seq<char>>| cell_text(c)))
}

fn row_to_strings(row: &Vec<Option<String>>) -> (r: Vec<String>)
    ensures
        views(r@) == row_view(*row).map_values(|c: Option<Seq<char>>| cell_text(c)),
{
    let n = row.len();
    let mut out: Vec<String> = Vec::new();
    let mut i: usize = 0;
    while i < n
        invariant
            n == row@.len(),
            i <= n,
            views(out@) == row_view(*row).take(i as int).map_values(
                |c: Option<Seq<char>>| cell_text(c),
            ),
        decreases n - i,
    {
        let s = match &row[i] {
            Some(v) => v.clone(),
            None => String::new(),
        };
        let ghost old_out = out@;
        let ghost sv = s@;
        assert(cell_text(row_view(*row)[i as int]) == sv);
        out.push(s);
        assert(views(out@) =~= views(old_out).push(sv));
        assert(row_view(*row).take(i + 1) =~= row_view(*row).take(i as int).push(
            row_view(*row)[i as int],
        ));
        assert(views(out@) =~= row_view(*row).take(i + 1).map_values(
            |c: Option<Seq<char>>| cell_text(c),
        ));
        i = i + 1;
    }
    assert(row_view(*row).take(n as int) =~= row_view(*row));
    out
}

/// Every cell as text, NULL as empty.
pub fn result_rows_to_strings(rows: &Vec<Vec<Option<String>>>) -> (r: Vec<Vec<String>>)
    ensures
        r@.map_values(|x: Vec<String>| views(x@)) == rows_text(rows_view(rows@)),
{
    let n = rows.len();
    let mut out: Vec<Vec<String>> = Vec::new();
    let mut i: usize = 0;
    while i < n
        invariant
            n == rows@.len(),
            i <= n,
            out@.map_values(|x: Vec<String>| views(x@)) == rows_text(rows_view(rows@).take(i as int)),
        decreases n - i,
    {
        let r = row_to_strings(&rows[i]);
        let ghost rv = views(r@);
        let ghost old_out = out@;
        out.push(r);
        assert(out@.map_values(|x: Vec<String>| views(x@)) =~= old_out.map_values(
            |x: Vec<String>| views(x@),
        ).push(rv));
        assert(rows_view(rows@).take(i + 1) =~= rows_view(rows@).take(i as int).push(
            rows_view(rows@)[i as int],
        ));
        assert(out@.map_values(|x: Vec<String>| views(x@)) =~= rows_text(
            rows_view(rows@).take(i + 1),
        ));
        i = i + 1;
    }
    assert(rows_view(rows@).take(n as int) =~= rows_view(rows@));
    out
}

// ---------------------------------------------------------------------
// Previews
// ---------------------------------------------------------------------

pub open spec fn spec_preview_sql(db_type: DbType, table: Seq<char>, limit: nat) -> Seq<char> {
    let qt = quoted_ident(db_type, table);
    match db_type {
        DbType::Mssql => "SELECT TOP "@ + decimal(limit) + " * FROM "@ + qt,
        DbType::Mysql | DbType::Postgresql | DbType::SqlLite => "SELECT * FROM "@ + qt
            + " LIMIT "@ + decimal(limit),
        DbType::Oracle => "SELECT * FROM "@ + qt + " FETCH FIRST "@ + decimal(limit)
            + " ROWS ONLY"@,
    }
}

/// The query for the first `limit` rows of a table.
pub fn table_preview_sql(db_type: DbType, table: &str, limit: usize) -> (r: String)
    ensures
        r@ == spec_preview_sql(db_type, table@, limit as nat),
{
    let qt = quote_ident(db_type, table);
    let l = usize_to_string(limit);
    let mut out = String::new();
    match db_type {
        DbType::Mssql => {
            push_str(&mut out, "SELECT TOP ");
            push_str(&mut out, l.as_str());
            push_str(&mut out, " * FROM ");
            push_str(&mut out, qt.as_str());
        },
        DbType::Mysql | DbType::Postgresql | DbType::SqlLite => {
            push_str(&mut out, "SELECT * FROM ");
            push_str(&mut out, qt.as_str());
            push_str(&mut out, " LIMIT ");
            push_str(&mut out, l.as_str());
        },
        DbType::Oracle => {
            push_str(&mut out, "SELECT * FROM ");
            push_str(&mut out, qt.as_str());
            push_str(&mut out, " FETCH FIRST ");
            push_str(&mut out, l.as_str());
            push_str(&mut out, " ROWS ONLY");
        },
    }
    assert(out@ =~= spec_preview_sql(db_type, table@, limit as nat));
    out
}

/// A preview as the grid shows it: the column names and the cells as text.
pub fn fetch_table_preview(result: &QueryResult) -> (r: (Vec<String>, Vec<Vec<String>>))
    ensures
        views(r.0@) == views(result.columns@),
        r.1@.map_values(|x: Vec<String>| views(x@)) == rows_text(rows_view(result.rows@)),
{
    (result.columns.clone(), result_rows_to_strings(&result.rows))
}

pub open spec fn spec_preview_page_sql(
    db_type: DbType,
    table: Seq<char>,
    offset: nat,
    page_size: nat,
) -> Seq<char> {
    let qt = quoted_ident(db_type, table);
    match db_type {
        DbType::Mssql | DbType::Oracle => "SELECT * FROM "@ + qt + " ORDER BY 1 OFFSET "@
            + decimal(offset) + " ROWS FETCH NEXT "@ + decimal(page_size) + " ROWS ONLY"@,
        DbType::Mysql | DbType::Postgresql | DbType::SqlLite => "SELECT * FROM "@ + qt
            + " ORDER BY 1 LIMIT "@ + decimal(page_size) + " OFFSET "@ + decimal(offset),
    }
}

/// The row offset of a 1-based page (page 0 is read as page 1).
pub open spec fn page_offset(page_no: nat, page_size: nat) -> nat {
    (if page_no > 0 {
        (page_no - 1) as nat
    } else {
        0
    }) * page_size
}

/// The query for one page of a table, ordered by its first column.
pub fn fetch_table_preview_page(db_type: DbType, table: &str, page_no: usize, page_size: usize) -> (r: String)
    requires
        page_offset(page_no as nat, page_size as nat) <= usize::MAX,
    ensures
        r@ == spec_preview_page_sql(
            db_type,
            table@,
            page_offset(page_no as nat, page_size as nat),
            page_size as nat,
        ),
{
    let prev: usize = if page_no > 0 {
        page_no - 1
    } else {
        0
    };
    let offset = prev * page_size;
    let qt = quote_ident(db_type, table);
    let o = usize_to_string(offset);
    let l = usize_to_string(page_size);
    let mut out = String::new();
    push_str(&mut out, "SELECT * FROM ");
    push_str(&mut out, qt.as_str());
    match db_type {
        DbType::Mssql | DbType::Oracle => {
            push_str(&mut out, " ORDER BY 1 OFFSET ");
            push_str(&mut out, o.as_str());
            push_str(&mut out, " ROWS FETCH NEXT ");
            push_str(&mut out, l.as_str());
            push_str(&mut out, " ROWS ONLY");
        },
        DbType::Mysql | DbType::Postgresql | DbType::SqlLite => {
            push_str(&mut out, " ORDER BY 1 LIMIT ");
            push_str(&mut out, l.as_str());
            push_str(&mut out, " OFFSET ");
            push_str(&mut out, o.as_str());
        },
    }
    assert(out@ =~= spec_preview_page_sql(
        db_type,
        table@,
        page_offset(page_no as nat, page_size as nat),
        page_size as nat,
    ));
    out
}

pub open spec fn spec_rows_by_sql(db_type: DbType, sql: Seq<char>, limit: nat) -> Seq<char> {
    match db_type {
        DbType::Mssql => "SELECT TOP "@ + decimal(limit) + " * FROM ("@ + sql + ") q"@,
        DbType::Mysql | DbType::Postgresql | DbType::SqlLite => "SELECT * FROM ("@ + sql
            + ") q LIMIT "@ + decimal(limit),
        DbType::Oracle => "SELECT * FROM ("@ + sql + ") q FETCH FIRST "@ + decimal(limit)
            + " ROWS ONLY"@,
    }
}

/// A user query wrapped so that at most `limit` rows come back.
pub fn fetch_rows_by_sql(db_type: DbType, sql: &str, limit: usize) -> (r: String)
    ensures
        r@ == spec_rows_by_sql(db_type, sql@, limit as nat),
{
    let l = usize_to_string(limit);
    let mut out = String::new();
    match db_type {
        DbType::Mssql => {
            push_str(&mut out, "SELECT TOP ");
            push_str(&mut out, l.as_str());
            push_str(&mut out, " * FROM (");
            push_str(&mut out, sql);
            push_str(&mut out, ") q");
        },
        DbType::Mysql | DbType::Postgresql | DbType::SqlLite => {
            push_str(&mut out, "SELECT * FROM (");
            push_str(&mut out, sql);
            push_str(&mut out, ") q LIMIT ");
            push_str(&mut out, l.as_str());
        },
        DbType::Oracle => {
            push_str(&mut out, "SELECT * FROM (");
            push_str(&mut out, sql);
            push_str(&mut out, ") q FETCH FIRST ");
            push_str(&mut out, l.as_str());
            push_str(&mut out, " ROWS ONLY");
        },
    }
    assert(out@ =~= spec_rows_by_sql(db_type, sql@, limit as nat));
    out
}

// ---------------------------------------------------------------------
// Column descriptions
// ---------------------------------------------------------------------

pub open spec fn spec_columns_info_sql(db_type: DbType, table: Seq<char>) -> Seq<char> {
    let lit = sql_quoted(table);
    match db_type {
        DbType::Mssql => "SELECT c.COLUMN_NAME, c.DATA_TYPE, ISNULL(ep.value, '') AS column_desc FROM INFORMATION_SCHEMA.COLUMNS c LEFT JOIN sys.columns sc ON sc.object_id = OBJECT_ID(c.TABLE_NAME) AND sc.name = c.COLUMN_NAME LEFT JOIN sys.extended_properties ep ON ep.major_id = sc.object_id AND ep.minor_id = sc.column_id AND ep.name='MS_Description' WHERE c.TABLE_NAME = "@
            + lit + " ORDER BY c.ORDINAL_POSITION"@,
        DbType::Mysql => "SELECT COLUMN_NAME, COLUMN_TYPE, IFNULL(COLUMN_COMMENT,'') FROM information_schema.columns WHERE table_schema = DATABASE() AND table_name = "@
            + lit + " ORDER BY ORDINAL_POSITION"@,
        DbType::Postgresql => "SELECT c.column_name, c.data_type, '' FROM information_schema.columns c WHERE c.table_schema = current_schema() AND c.table_name = "@
            + lit + " ORDER BY c.ordinal_position"@,
        DbType::Oracle => "SELECT utc.COLUMN_NAME, utc.DATA_TYPE, NVL(ucc.COMMENTS,'') FROM user_tab_columns utc LEFT JOIN user_col_comments ucc ON ucc.table_name = utc.table_name AND ucc.column_name = utc.column_name WHERE utc.table_name = UPPER("@
            + lit + ") ORDER BY utc.COLUMN_ID"@,
        DbType::SqlLite => "SELECT name, type, '' FROM pragma_table_info("@ + lit + ")"@,
    }
}

/// The query describing a table's columns: name, type, and comment.
pub fn table_columns_info_sql(db_type: DbType, table: &str) -> (r: String)
    ensures
        r@ == spec_columns_info_sql(db_type, table@),
{
    let lit = sql_quote(table);
    let mut out = String::new();
    match db_type {
        DbType::Mssql => {
            push_str(&mut out, "SELECT c.COLUMN_NAME, c.DATA_TYPE, ISNULL(ep.value, '') AS column_desc FROM INFORMATION_SCHEMA.COLUMNS c LEFT JOIN sys.columns sc ON sc.object_id = OBJECT_ID(c.TABLE_NAME) AND sc.name = c.COLUMN_NAME LEFT JOIN sys.extended_properties ep ON ep.major_id = sc.object_id AND ep.minor_id = sc.column_id AND ep.name='MS_Description' WHERE c.TABLE_NAME = ");
            push_str(&mut out, lit.as_str());
            push_str(&mut out, " ORDER BY c.ORDINAL_POSITION");
        },
        DbType::Mysql => {
            push_str(&mut out, "SELECT COLUMN_NAME, COLUMN_TYPE, IFNULL(COLUMN_COMMENT,'') FROM information_schema.columns WHERE table_schema = DATABASE() AND table_name = ");
            push_str(&mut out, lit.as_str());
            push_str(&mut out, " ORDER BY ORDINAL_POSITION");
        },
        DbType::Postgresql => {
            push_str(&mut out, "SELECT c.column_name, c.data_type, '' FROM information_schema.columns c WHERE c.table_schema = current_schema() AND c.table_name = ");
            push_str(&mut out, lit.as_str());
            push_str(&mut out, " ORDER BY c.ordinal_position");
        },
        DbType::Oracle => {
            push_str(&mut out, "SELECT utc.COLUMN_NAME, utc.DATA_TYPE, NVL(ucc.COMMENTS,'') FROM user_tab_columns utc LEFT JOIN user_col_comments ucc ON ucc.table_name = utc.table_name AND ucc.column_name = utc.column_name WHERE utc.table_name = UPPER(");
            push_str(&mut out, lit.as_str());
            push_str(&mut out, ") ORDER BY utc.COLUMN_ID");
        },
        DbType::SqlLite => {
            push_str(&mut out, "SELECT name, type, '' FROM pragma_table_info(");
            push_str(&mut out, lit.as_str());
            push_str(&mut out, ")");
        },
    }
    assert(out@ =~= spec_columns_info_sql(db_type, table@));
    out
}

/// The cell at `i` as text, missing or NULL cells as empty.
pub open spec fn text_at(r: Seq<Option<Seq<char>>>, i: int) -> Seq<char> {
    if 0 <= i < r.len() && r[i] is Some {
        r[i]->0
    } else {
        Seq::empty()
    }
}

/// (name, type, comment) of each described column whose name is not empty.
pub open spec fn column_infos(rows: Seq<Seq<Option<Seq<char>>>>) -> Seq<(Seq<char>, Seq<char>, Seq<char>)>
    decreases rows.len(),
{
    if rows.len() == 0 {
        Seq::empty()
    } else {
        let prev = column_infos(rows.drop_last());
        let r = rows.last();
        if text_at(r, 0).len() > 0 {
            prev.push((text_at(r, 0), text_at(r, 1), text_at(r, 2)))
        } else {
            prev
        }
    }
}

fn text_cell(row: &Vec<Option<String>>, i: usize) -> (r: String)
    ensures
        r@ == text_at(row_view(*row), i as int),
{
    if i < row.len() {
        match &row[i] {
            Some(s) => s.clone(),
            None => String::new(),
        }
    } else {
        String::new()
    }
}

pub open spec fn info_view(t: (String, String, String)) -> (Seq<char>, Seq<char>, Seq<char>) {
    (t.0@, t.1@, t.2@)
}

pub fn fetch_table_columns_info(result: &QueryResult) -> (r: Vec<(String, String, String)>)
    ensures
        r@.map_values(|t: (String, String, String)| info_view(t)) == column_infos(
            rows_view(result.rows@),
        ),
{
    let n = result.rows.len();
    let mut out: Vec<(String, String, String)> = Vec::new();
    let mut i: usize = 0;
    while i < n
        invariant
            n == result.rows@.len(),
            i <= n,
            out@.map_values(|t: (String, String, String)| info_view(t)) == column_infos(
                rows_view(result.rows@).take(i as int),
            ),
        decreases n - i,
    {
        let row = &result.rows[i];
        assert(rows_view(result.rows@).take(i + 1).drop_last() =~= rows_view(result.rows@).take(
            i as int,
        ));
        assert(rows_view(result.rows@).take(i + 1).last() == row_view(*row));
        let name = text_cell(row, 0);
        if name.as_str().unicode_len() > 0 {
            let ty = text_cell(row, 1);
            let desc = text_cell(row, 2);
            let ghost old_out = out@;
            let t = (name, ty, desc);
            let ghost tv = info_view(t);
            out.push(t);
            assert(out@.map_values(|t: (String, String, String)| info_view(t)) =~= old_out.map_values(
                |t: (String, String, String)| info_view(t),
            ).push(tv));
        }
        i = i + 1;
    }
    assert(rows_view(result.rows@).take(n as int) =~= rows_view(result.rows@));
    out
}

// ---------------------------------------------------------------------
// Object definitions
// ---------------------------------------------------------------------

pub open spec fn spec_object_definition_sql(db_type: DbType, name: Seq<char>, is_sp: bool) -> Seq<
    char,
> {
    let lit = sql_quoted(name);
    match db_type {
        DbType::Mssql => "SELECT ISNULL(OBJECT_DEFINITION(OBJECT_ID("@ + lit
            + ")), '-- no definition found')"@,
        DbType::Mysql => if is_sp {
            "SHOW CREATE PROCEDURE "@ + name
        } else {
            "SHOW CREATE VIEW "@ + name
        },
        DbType::Postgresql => if is_sp {
            "SELECT '-- PostgreSQL stored procedure definition query not configured'"@
        } else {
            "SELECT pg_get_viewdef("@ + lit + "::regclass, true)"@
        },
        DbType::Oracle => if is_sp {
            "SELECT TEXT FROM USER_SOURCE WHERE TYPE='PROCEDURE' AND NAME=UPPER("@ + lit
                + ") ORDER BY LINE"@
        } else {
            "SELECT TEXT FROM USER_VIEWS WHERE VIEW_NAME=UPPER("@ + lit + ")"@
        },
        DbType::SqlLite => if is_sp {
            "SELECT '-- sqlite does not support stored procedure'"@
        } else {
            "SELECT IFNULL(sql, '-- no definition found') FROM sqlite_master WHERE type='view' AND name="@
                + lit
        },
    }
}

/// The query that reads the definition of a view or stored procedure.
pub fn object_definition_sql(db_type: DbType, name: &str, is_sp: bool) -> (r: String)
    ensures
        r@ == spec_object_definition_sql(db_type, name@, is_sp),
{
    let lit = sql_quote(name);
    let mut out = String::new();
    match db_type {
        DbType::Mssql => {
            push_str(&mut out, "SELECT ISNULL(OBJECT_DEFINITION(OBJECT_ID(");
            push_str(&mut out, lit.as_str());
            push_str(&mut out, ")), '-- no definition found')");
        },
        DbType::Mysql => {
            if is_sp {
                push_str(&mut out, "SHOW CREATE PROCEDURE ");
            } else {
                push_str(&mut out, "SHOW CREATE VIEW ");
            }
            push_str(&mut out, name);
        },
        DbType::Postgresql => {
            if is_sp {
                push_str(
                    &mut out,
                    "SELECT '-- PostgreSQL stored procedure definition query not configured'",
                );
            } else {
                push_str(&mut out, "SELECT pg_get_viewdef(");
                push_str(&mut out, lit.as_str());
                push_str(&mut out, "::regclass, true)");
            }
        },
        DbType::Oracle => {
            if is_sp {
                push_str(&mut out, "SELECT TEXT FROM USER_SOURCE WHERE TYPE='PROCEDURE' AND NAME=UPPER(");
                push_str(&mut out, lit.as_str());
                push_str(&mut out, ") ORDER BY LINE");
            } else {
                push_str(&mut out, "SELECT TEXT FROM USER_VIEWS WHERE VIEW_NAME=UPPER(");
                push_str(&mut out, lit.as_str());
                push_str(&mut out, ")");
            }
        },
        DbType::SqlLite => {
            if is_sp {
                push_str(&mut out, "SELECT '-- sqlite does not support stored procedure'");
            } else {
                push_str(&mut out, "SELECT IFNULL(sql, '-- no definition found') FROM sqlite_master WHERE type='view' AND name=");
                push_str(&mut out, lit.as_str());
            }
        },
    }
    assert(out@ =~= spec_object_definition_sql(db_type, name@, is_sp));
    out
}

/// A cell as the preview shows it: NULL is written `NULL`.
pub open spec fn preview_cell(c: Option<Seq<char>>) -> Seq<char> {
    match c {
        Some(s) => s,
        None => "NULL"@,
    }
}

pub open spec fn preview_row(r: Seq<Option<Seq<char>>>) -> Seq<char> {
    join_seq(r.map_values(|c: Option<Seq<char>>| preview_cell(c)), " | "@)
}

/// The preview lines of a statement's result: a note when it returned no
/// result set; otherwise a `cols:` header and one line per row, cut after
/// `max_rows` rows with a note.
pub open spec fn preview_lines(
    columns: Seq<Seq<char>>,
    rows: Seq<Seq<Option<Seq<char>>>>,
    max_rows: nat,
) -> Seq<Seq<char>> {
    if columns.len() == 0 {
        seq!["ok: SQL executed (no result set)"@]
    } else {
        let header = seq!["cols: "@ + join_seq(columns, " | "@)];
        let shown = if rows.len() <= max_rows {
            rows
        } else {
            rows.take(max_rows as int)
        };
        let body = shown.map_values(|r: Seq<Option<Seq<char>>>| preview_row(r));
        if rows.len() <= max_rows {
            header + body
        } else {
            header + body.push("... truncated at "@ + decimal(max_rows) + " rows"@)
        }
    }
}

fn preview_row_string(row: &Vec<Option<String>>) -> (r: String)
    ensures
        r@ == preview_row(row_view(*row)),
{
    let n = row.len();
    let mut cells: Vec<String> = Vec::new();
    let mut i: usize = 0;
    while i < n
        invariant
            n == row@.len(),
            i <= n,
            views(cells@) == row_view(*row).take(i as int).map_values(
                |c: Option<Seq<char>>| preview_cell(c),
            ),
        decreases n - i,
    {
        let s = match &row[i] {
            Some(v) => v.clone(),
            None => to_owned("NULL"),
        };
        let ghost old = cells@;
        let ghost sv = s@;
        proof {
            reveal_strlit("NULL");
        }
        assert(preview_cell(row_view(*row)[i as int]) == sv);
        cells.push(s);
        assert(views(cells@) =~= views(old).push(sv));
        assert(row_view(*row).take(i + 1) =~= row_view(*row).take(i as int).push(
            row_view(*row)[i as int],
        ));
        assert(views(cells@) =~= row_view(*row).take(i + 1).map_values(
            |c: Option<Seq<char>>| preview_cell(c),
        ));
        i = i + 1;
    }
    assert(row_view(*row).take(n as int) =~= row_view(*row));
    join(&cells, " | ")
}

/// The lines the SQL window shows for a result.
pub fn execute_sql_preview(result: &QueryResult, max_rows: usize) -> (r: Vec<String>)
    ensures
        views(r@) == preview_lines(views(result.columns@), rows_view(result.rows@), max_rows as nat),
{
    let mut out: Vec<String> = Vec::new();
    if result.columns.len() == 0 {
        out.push(to_owned("ok: SQL executed (no result set)"));
        assert(views(out@) =~= seq!["ok: SQL executed (no result set)"@]);
        return out;
    }
    let mut header = to_owned("cols: ");
    let cols = join(&result.columns, " | ");
    push_str(&mut header, cols.as_str());
    out.push(header);
    let n = result.rows.len();
    let ghost rv = rows_view(result.rows@);
    let mut i: usize = 0;
    while i < n && i < max_rows
        invariant
            n == result.rows@.len(),
            rv == rows_view(result.rows@),
            i <= n,
            i <= max_rows,
            views(out@) == seq!["cols: "@ + join_seq(views(result.columns@), " | "@)] + rv.take(
                i as int,
            ).map_values(|r: Seq<Option<Seq<char>>>| preview_row(r)),
        decreases n - i,
    {
        let line = preview_row_string(&result.rows[i]);
        let ghost old = out@;
        let ghost lv = line@;
        assert(rv[i as int] == row_view(result.rows@[i as int]));
        out.push(line);
        assert(views(out@) =~= views(old).push(lv));
        assert(rv.take(i + 1) =~= rv.take(i as int).push(rv[i as int]));
        assert(views(out@) =~= seq!["cols: "@ + join_seq(views(result.columns@), " | "@)] + rv.take(
            i + 1,
        ).map_values(|r: Seq<Option<Seq<char>>>| preview_row(r)));
        i = i + 1;
    }
    if i < n {
        let mut note = to_owned("... truncated at ");
        let m = usize_to_string(max_rows);
        push_str(&mut note, m.as_str());
        push_str(&mut note, " rows");
        let ghost old = out@;
        let ghost nv = note@;
        out.push(note);
        assert(views(out@) =~= views(old).push(nv));
        assert(i == max_rows);
        assert(!(rv.len() <= max_rows as nat));
    } else {
        assert(rv.take(n as int) =~= rv);
    }
    out
}

/// What the definition window shows: the preview lines joined by line feeds,
/// or a note when there are none.
pub open spec fn definition_text(lines: Seq<Seq<char>>) -> Seq<char> {
    if lines.len() == 0 {
        "-- empty definition"@
    } else {
        join_seq(lines, "\n"@)
    }
}

pub fn fetch_db_object_definition(preview: &Vec<String>) -> (r: String)
    ensures
        r@ == definition_text(views(preview@)),
{
    if preview.len() == 0 {
        to_owned("-- empty definition")
    } else {
        join(preview, "\n")
    }
}

// ---------------------------------------------------------------------
// Editing rows
// ---------------------------------------------------------------------

/// A value typed into an edit field: `NULL` in any case is SQL NULL.
pub open spec fn is_null_word(v: Seq<char>) -> bool {
    lower_seq(v) == lower_seq("NULL"@)
}

pub open spec fn spec_update_sql(
    cli: Cli,
    table: Seq<char>,
    key_col: Seq<char>,
    key_val: Seq<char>,
    target_col: Seq<char>,
    new_val: Seq<char>,
) -> Seq<char> {
    let qt = quoted_ident(cli.db_type, table);
    let qk = quoted_ident(cli.db_type, key_col);
    let qc = quoted_ident(cli.db_type, target_col);
    let set_val = if is_null_word(new_val) {
        "NULL"@
    } else {
        string_literal(cli.db_type, new_val)
    };
    "UPDATE "@ + qt + " SET "@ + qc + " = "@ + set_val + " WHERE "@ + collated(cli, qk) + " = "@
        + collated(cli, string_literal(cli.db_type, key_val))
}

/// The statement that sets one cell of the row whose key column holds
/// `key_val`.
pub fn update_table_cell(
    cli: &Cli,
    table: &str,
    key_col: &str,
    key_val: &str,
    target_col: &str,
    new_val: &str,
) -> (r: String)
    ensures
        r@ == spec_update_sql(*cli, table@, key_col@, key_val@, target_col@, new_val@),
{
    let qt = quote_ident(cli.db_type, table);
    let qk = quote_ident(cli.db_type, key_col);
    let qc = quote_ident(cli.db_type, target_col);
    let set_val = if eq_ignore_ascii_case(new_val, "NULL") {
        to_owned("NULL")
    } else {
        sql_string_literal(cli.db_type, new_val)
    };
    let key_lit = sql_string_literal(cli.db_type, key_val);
    let lhs = mssql_collation_expr(cli, qk.as_str());
    let rhs = mssql_collation_expr(cli, key_lit.as_str());
    let mut out = to_owned("UPDATE ");
    push_str(&mut out, qt.as_str());
    push_str(&mut out, " SET ");
    push_str(&mut out, qc.as_str());
    push_str(&mut out, " = ");
    push_str(&mut out, set_val.as_str());
    push_str(&mut out, " WHERE ");
    push_str(&mut out, lhs.as_str());
    push_str(&mut out, " = ");
    push_str(&mut out, rhs.as_str());
    assert(out@ =~= spec_update_sql(*cli, table@, key_col@, key_val@, target_col@, new_val@));
    out
}

/// A value of a new row: blank or `NULL` is SQL NULL.
pub open spec fn new_row_value(db_type: DbType, v: Seq<char>) -> Seq<char> {
    if trim_seq(v).len() == 0 || is_null_word(v) {
        "NULL"@
    } else {
        string_literal(db_type, v)
    }
}

pub open spec fn spec_insert_row_sql(
    db_type: DbType,
    table: Seq<char>,
    cols: Seq<Seq<char>>,
    values: Seq<Seq<char>>,
) -> Seq<char> {
    "INSERT INTO "@ + quoted_ident(db_type, table) + " ("@ + join_seq(
        cols.map_values(|c: Seq<char>| quoted_ident(db_type, c)),
        ", "@,
    ) + ") VALUES ("@ + join_seq(values.map_values(|v: Seq<char>| new_row_value(db_type, v)), ", "@)
        + ")"@
}

/// The statement that inserts one row; refused unless there is one value per
/// column and at least one column.
pub fn insert_table_row(cli: &Cli, table: &str, cols: &Vec<String>, values: &Vec<String>) -> (r:
    Result<String, DbError>)
    ensures
        r is Ok <==> (cols@.len() > 0 && cols@.len() == values@.len()),
        r matches Ok(s) ==> s@ == spec_insert_row_sql(
            cli.db_type,
            table@,
            views(cols@),
            views(values@),
        ),
        r matches Err(e) ==> e == DbError::InvalidInsertPayload,
{
    if cols.len() == 0 || cols.len() != values.len() {
        return Err(DbError::InvalidInsertPayload);
    }
    let db_type = cli.db_type;
    let n = cols.len();
    let mut qcols: Vec<String> = Vec::new();
    let mut vals: Vec<String> = Vec::new();
    let mut i: usize = 0;
    while i < n
        invariant
            n == cols@.len() == values@.len(),
            i <= n,
            views(qcols@) == views(cols@).take(i as int).map_values(
                |c: Seq<char>| quoted_ident(db_type, c),
            ),
            views(vals@) == views(values@).take(i as int).map_values(
                |v: Seq<char>| new_row_value(db_type, v),
            ),
        decreases n - i,
    {
        let q = quote_ident(db_type, cols[i].as_str());
        let v = &values[i];
        let lit = if trim(v.as_str()).as_str().unicode_len() == 0 || eq_ignore_ascii_case(
            v.as_str(),
            "NULL",
        ) {
            to_owned("NULL")
        } else {
            sql_string_literal(db_type, v.as_str())
        };
        let ghost oq = qcols@;
        let ghost ov = vals@;
        let ghost qv = q@;
        let ghost litv = lit@;
        assert(views(cols@)[i as int] == cols@[i as int]@);
        assert(views(values@)[i as int] == values@[i as int]@);
        qcols.push(q);
        vals.push(lit);
        assert(views(qcols@) =~= views(oq).push(qv));
        assert(views(vals@) =~= views(ov).push(litv));
        assert(views(cols@).take(i + 1) =~= views(cols@).take(i as int).push(views(cols@)[i as int]));
        assert(views(values@).take(i + 1) =~= views(values@).take(i as int).push(
            views(values@)[i as int],
        ));
        assert(views(qcols@) =~= views(cols@).take(i + 1).map_values(
            |c: Seq<char>| quoted_ident(db_type, c),
        ));
        assert(views(vals@) =~= views(values@).take(i + 1).map_values(
            |v: Seq<char>| new_row_value(db_type, v),
        ));
        i = i + 1;
    }
    assert(views(cols@).take(n as int) =~= views(cols@));
    assert(views(values@).take(n as int) =~= views(values@));
    let qt = quote_ident(db_type, table);
    let col_sql = join(&qcols, ", ");
    let val_sql = join(&vals, ", ");
    let mut out = to_owned("INSERT INTO ");
    push_str(&mut out, qt.as_str());
    push_str(&mut out, " (");
    push_str(&mut out, col_sql.as_str());
    push_str(&mut out, ") VALUES (");
    push_str(&mut out, val_sql.as_str());
    push_str(&mut out, ")");
    assert(out@ =~= spec_insert_row_sql(db_type, table@, views(cols@), views(values@)));
    Ok(out)
}

pub open spec fn spec_delete_sql(cli: Cli, table: Seq<char>, key_col: Seq<char>, key_val: Seq<char>) -> Seq<char> {
    let qt = quoted_ident(cli.db_type, table);
    let qk = quoted_ident(cli.db_type, key_col);
    if trim_seq(key_val).len() == 0 || is_null_word(key_val) {
        "DELETE FROM "@ + qt + " WHERE "@ + collated(cli, qk) + " IS NULL"@
    } else {
        "DELETE FROM "@ + qt + " WHERE "@ + collated(cli, qk) + " = "@ + collated(
            cli,
            string_literal(cli.db_type, key_val),
        )
    }
}

/// The statement that deletes the row whose key column holds `key_val`; a
/// blank or `NULL` key matches NULL.
pub fn delete_table_row(cli: &Cli, table: &str, key_col: &str, key_val: &str) -> (r: String)
    ensures
        r@ == spec_delete_sql(*cli, table@, key_col@, key_val@),
{
    let qt = quote_ident(cli.db_type, table);
    let qk = quote_ident(cli.db_type, key_col);
    let lhs = mssql_collation_expr(cli, qk.as_str());
    let mut out = to_owned("DELETE FROM ");
    push_str(&mut out, qt.as_str());
    push_str(&mut out, " WHERE ");
    push_str(&mut out, lhs.as_str());
    if trim(key_val).as_str().unicode_len() == 0 || eq_ignore_ascii_case(key_val, "NULL") {
        push_str(&mut out, " IS NULL");
    } else {
        let lit = sql_string_literal(cli.db_type, key_val);
        let rhs = mssql_collation_expr(cli, lit.as_str());
        push_str(&mut out, " = ");
        push_str(&mut out, rhs.as_str());
    }
    assert(out@ =~= spec_delete_sql(*cli, table@, key_col@, key_val@));
    out
}

/// The auto-increment key columns of a table, lowercased, each once.
pub fn auto_increment_pk_column_set(result: &QueryResult) -> (r: Vec<String>)
    ensures
        views(r@).to_set() == first_column_names(rows_view(result.rows@)).map_values(
            |c: Seq<char>| lower_seq(c),
        ).to_set(),
        views(r@).no_duplicates(),
{
    let names = query_first_column_as_vec(result);
    let ghost lowered = views(names@).map_values(|c: Seq<char>| lower_seq(c));
    let n = names.len();
    let mut out: Vec<String> = Vec::new();
    let mut i: usize = 0;
    while i < n
        invariant
            n == names@.len(),
            lowered == views(names@).map_values(|c: Seq<char>| lower_seq(c)),
            i <= n,
            views(out@).no_duplicates(),
            views(out@).to_set() == lowered.take(i as int).to_set(),
        decreases n - i,
    {
        let l = to_ascii_lower(names[i].as_str());
        assert(lowered[i as int] == l@);
        assert(lowered.take(i + 1) =~= lowered.take(i as int).push(l@));
        if !contains_string(&out, l.as_str()) {
            let ghost old = out@;
            let ghost lv = l@;
            out.push(l);
            assert(views(out@) =~= views(old).push(lv));
            proof {
                lemma_push_to_set(views(old), lv);
                lemma_push_to_set(lowered.take(i as int), lv);
            }
        } else {
            proof {
                lemma_push_to_set(lowered.take(i as int), l@);
            }
            assert(views(out@).to_set().contains(l@));
            assert(lowered.take(i as int).to_set().insert(l@) =~= lowered.take(i as int).to_set());
        }
        i = i + 1;
    }
    assert(lowered.take(n as int) =~= lowered);
    out
}

} // verus!
