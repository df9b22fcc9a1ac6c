//! The text a connection is opened with: ODBC connection strings, the
//! PostgreSQL connection string, the session statements of a collation, and
//! whether a SQL Server statement is followed by a commit.
use vstd::prelude::*;
use crate::config::{Cli, CliView, DbType};
use crate::escape::{escaped, CharRule};
use crate::text::{
    chars_of, decimal, has_prefix, push_str, starts_with, to_ascii_upper, to_owned, trim,
    trim_seq, trim_start, trim_start_seq, u16_to_string, upper_seq,
};

verus! {

/// The ODBC driver used for a database type when none is configured.
pub open spec fn default_driver(db_type: DbType) -> Seq<char> {
    match db_type {
        DbType::Mssql => "ODBC Driver 18 for SQL Server"@,
        DbType::Mysql => "MySQL ODBC 8.0 Unicode Driver"@,
        DbType::Postgresql => "PostgreSQL Unicode"@,
        DbType::Oracle => "Oracle in OraDB19Home1"@,
        DbType::SqlLite => "SQLite3 ODBC Driver"@,
    }
}

/// The ODBC connection string for a configuration, with the configured
/// driver (`DB2SQL_ODBC_DRIVER`) or the type's default.
pub open spec fn odbc_connection(c: CliView, driver: Option<Seq<char>>) -> Seq<char> {
    let d = match driver {
        Some(x) => x,
        None => default_driver(c.db_type),
    };
    let port = decimal(c.port as nat);
    match c.db_type {
        DbType::Mssql => "Driver={"@ + d + "};Server="@ + c.host + ","@ + port + ";Database="@
            + c.db_name + ";Uid="@ + c.user + ";Pwd="@ + c.password
            + ";TrustServerCertificate=Yes;"@,
        DbType::Mysql => "Driver={"@ + d + "};Server="@ + c.host + ";Port="@ + port
            + ";Database="@ + c.db_name + ";User="@ + c.user + ";Password="@ + c.password + ";"@,
        DbType::Postgresql => "Driver={"@ + d + "};Server="@ + c.host + ";Port="@ + port
            + ";Database="@ + c.db_name + ";Uid="@ + c.user + ";Pwd="@ + c.password + ";"@,
        DbType::Oracle => "Driver={"@ + d + "};Dbq=//"@ + c.host + ":"@ + port + "/"@ + c.db_name
            + ";Uid="@ + c.user + ";Pwd="@ + c.password + ";"@,
        DbType::SqlLite => "Driver={"@ + d + "};Database="@ + c.db_name + ";"@,
    }
}

pub fn build_connection_string(cli: &Cli, driver: Option<&str>) -> (r: String)
    ensures
        r@ == odbc_connection(
            cli@,
            match driver {
                Some(x) => Some(x@),
                None => None,
            },
        ),
{
    let d = match driver {
        Some(x) => to_owned(x),
        None => to_owned(
            match cli.db_type {
                DbType::Mssql => "ODBC Driver 18 for SQL Server",
                DbType::Mysql => "MySQL ODBC 8.0 Unicode Driver",
                DbType::Postgresql => "PostgreSQL Unicode",
                DbType::Oracle => "Oracle in OraDB19Home1",
                DbType::SqlLite => "SQLite3 ODBC Driver",
            },
        ),
    };
    let port = u16_to_string(cli.port);
    let mut s = to_owned("Driver={");
    push_str(&mut s, d.as_str());
    match cli.db_type {
        DbType::Mssql => {
            push_str(&mut s, "};Server=");
            push_str(&mut s, cli.host.as_str());
            push_str(&mut s, ",");
            push_str(&mut s, port.as_str());
            push_str(&mut s, ";Database=");
            push_str(&mut s, cli.db_name.as_str());
            push_str(&mut s, ";Uid=");
            push_str(&mut s, cli.user.as_str());
            push_str(&mut s, ";Pwd=");
            push_str(&mut s, cli.password.as_str());
            push_str(&mut s, ";TrustServerCertificate=Yes;");
        },
        DbType::Mysql => {
            push_str(&mut s, "};Server=");
            push_str(&mut s, cli.host.as_str());
            push_str(&mut s, ";Port=");
            push_str(&mut s, port.as_str());
            push_str(&mut s, ";Database=");
            push_str(&mut s, cli.db_name.as_str());
            push_str(&mut s, ";User=");
            push_str(&mut s, cli.user.as_str());
            push_str(&mut s, ";Password=");
            push_str(&mut s, cli.password.as_str());
            push_str(&mut s, ";");
        },
        DbType::Postgresql => {
            push_str(&mut s, "};Server=");
            push_str(&mut s, cli.host.as_str());
            push_str(&mut s, ";Port=");
            push_str(&mut s, port.as_str());
            push_str(&mut s, ";Database=");
            push_str(&mut s, cli.db_name.as_str());
            push_str(&mut s, ";Uid=");
            push_str(&mut s, cli.user.as_str());
            push_str(&mut s, ";Pwd=");
            push_str(&mut s, cli.password.as_str());
            push_str(&mut s, ";");
        },
        DbType::Oracle => {
            push_str(&mut s, "};Dbq=//");
            push_str(&mut s, cli.host.as_str());
            push_str(&mut s, ":");
            push_str(&mut s, port.as_str());
            push_str(&mut s, "/");
            push_str(&mut s, cli.db_name.as_str());
            push_str(&mut s, ";Uid=");
            push_str(&mut s, cli.user.as_str());
            push_str(&mut s, ";Pwd=");
            push_str(&mut s, cli.password.as_str());
            push_str(&mut s, ";");
        },
        DbType::SqlLite => {
            push_str(&mut s, "};Database=");
            push_str(&mut s, cli.db_name.as_str());
            push_str(&mut s, ";");
        },
    }
    s
}

/// The PostgreSQL connection string of a configuration.
pub fn postgres_connection_string(cli: &Cli) -> (r: String)
    ensures
        r@ == "host="@ + cli@.host + " port="@ + decimal(cli@.port as nat) + " user="@ + cli@.user
            + " password="@ + cli@.password + " dbname="@ + cli@.db_name,
{
    let mut s = to_owned("host=");
    push_str(&mut s, cli.host.as_str());
    push_str(&mut s, " port=");
    push_str(&mut s, u16_to_string(cli.port).as_str());
    push_str(&mut s, " user=");
    push_str(&mut s, cli.user.as_str());
    push_str(&mut s, " password=");
    push_str(&mut s, cli.password.as_str());
    push_str(&mut s, " dbname=");
    push_str(&mut s, cli.db_name.as_str());
    s
}

/// `s` without its `"` characters.
pub open spec fn without_quotes(s: Seq<char>) -> Seq<char> {
    s.filter(|c: char| c != '"')
}

fn drop_quotes(s: &str) -> (r: String)
    ensures
        r@ == without_quotes(s@),
{
    let v = chars_of(s);
    let n = v.len();
    let mut out = String::new();
    let mut i: usize = 0;
    while i < n
        invariant
            n == v@.len(),
            i <= n,
            out@ == without_quotes(v@.take(i as int)),
        decreases n - i,
    {
        assert(v@.take(i + 1).drop_last() =~= v@.take(i as int));
        assert(v@.take(i + 1).last() == v@[i as int]);
        proof {
            reveal(Seq::filter);
        }
        if v[i] != '"' {
            crate::text::push_char(&mut out, v[i]);
        }
        i = i + 1;
    }
    assert(v@.take(n as int) =~= v@);
    out
}

/// The statements a SQL Server session runs when a collation is set: a
/// check that the collation exists, and the session value the tool reads
/// it back from. Nothing when no collation is set.
pub open spec fn collation_statements(collation: Seq<char>) -> Option<(Seq<char>, Seq<char>)> {
    let col = without_quotes(trim_seq(collation));
    if trim_seq(collation).len() == 0 {
        None
    } else {
        Some(
            (
                "SELECT N'' COLLATE "@ + col,
                "EXEC sp_set_session_context @key=N'DB2SQL_COLLATION', @value=N'"@ + escaped(
                    col,
                    CharRule::SqlValue,
                ) + "'"@,
            ),
        )
    }
}

pub fn mssql_collation_statements(collation: &str) -> (r: Option<(String, String)>)
    ensures
        match r {
            Some((a, b)) => collation_statements(collation@) == Some((a@, b@)),
            None => collation_statements(collation@) is None,
        },
{
    let t = trim(collation);
    if t.as_str().unicode_len() == 0 {
        return None;
    }
    let col = drop_quotes(t.as_str());
    let mut a = to_owned("SELECT N'' COLLATE ");
    push_str(&mut a, col.as_str());
    let mut b = to_owned("EXEC sp_set_session_context @key=N'DB2SQL_COLLATION', @value=N'");
    push_str(&mut b, crate::escape::escape_sql_value(col.as_str()).as_str());
    push_str(&mut b, "'");
    Some((a, b))
}

/// A SQL Server statement is followed by a commit unless it is a query
/// (it starts, after white space and in any case, with `SELECT`).
pub open spec fn commits_after(sql: Seq<char>) -> bool {
    !has_prefix(upper_seq(trim_start_seq(sql)), "SELECT"@)
}

pub fn needs_commit(sql: &str) -> (r: bool)
    ensures
        r == commits_after(sql@),
{
    let t = trim_start(sql);
    let u = chars_of(to_ascii_upper(t.as_str()).as_str());
    !starts_with(&u, "SELECT")
}

} // verus!
