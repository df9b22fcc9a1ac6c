use corn_dbio_kit::config::{default_tui_cli, DbType};
use corn_dbio_kit::connect::{
    build_connection_string, mssql_collation_statements, needs_commit,
    postgres_connection_string,
};
use corn_dbio_kit::progress::{RunProgressEvent, RunProgressSnapshot};

fn sample_cli(db_type: DbType, port: u16) -> corn_dbio_kit::config::Cli {
    let mut cli = default_tui_cli();
    cli.db_type = db_type;
    cli.host = "h".to_string();
    cli.port = port;
    cli.user = "u".to_string();
    cli.password = "p".to_string();
    cli.db_name = "d".to_string();
    cli
}

#[test]
fn connection_strings_per_database() {
    assert_eq!(
        build_connection_string(&sample_cli(DbType::Mssql, 1433), None),
        "Driver={ODBC Driver 18 for SQL Server};Server=h,1433;Database=d;Uid=u;Pwd=p;TrustServerCertificate=Yes;"
    );
    assert_eq!(
        build_connection_string(&sample_cli(DbType::Mysql, 3306), None),
        "Driver={MySQL ODBC 8.0 Unicode Driver};Server=h;Port=3306;Database=d;User=u;Password=p;"
    );
    assert_eq!(
        build_connection_string(&sample_cli(DbType::Postgresql, 5432), Some("PG")),
        "Driver={PG};Server=h;Port=5432;Database=d;Uid=u;Pwd=p;"
    );
    assert_eq!(
        build_connection_string(&sample_cli(DbType::Oracle, 1521), None),
        "Driver={Oracle in OraDB19Home1};Dbq=//h:1521/d;Uid=u;Pwd=p;"
    );
    assert_eq!(
        build_connection_string(&sample_cli(DbType::SqlLite, 0), None),
        "Driver={SQLite3 ODBC Driver};Database=d;"
    );
}

#[test]
fn postgres_connection_string_lists_the_fields() {
    assert_eq!(
        postgres_connection_string(&sample_cli(DbType::Postgresql, 5432)),
        "host=h port=5432 user=u password=p dbname=d"
    );
}

#[test]
fn collation_statements_quote_the_value() {
    assert_eq!(mssql_collation_statements("   "), None);
    assert_eq!(
        mssql_collation_statements(" \"Chinese_Taiwan_Stroke_CI_AS\" "),
        Some((
            "SELECT N'' COLLATE Chinese_Taiwan_Stroke_CI_AS".to_string(),
            "EXEC sp_set_session_context @key=N'DB2SQL_COLLATION', @value=N'Chinese_Taiwan_Stroke_CI_AS'"
                .to_string()
        ))
    );
    let (_, b) = mssql_collation_statements("a'b").unwrap();
    assert_eq!(b, "EXEC sp_set_session_context @key=N'DB2SQL_COLLATION', @value=N'a''b'");
}

#[test]
fn only_queries_skip_the_commit() {
    assert!(!needs_commit("  select * from t"));
    assert!(!needs_commit("SELECT 1"));
    assert!(needs_commit("insert into t values (1)"));
    assert!(needs_commit("with x as (select 1) select * from x"));
}

#[test]
fn progress_takes_the_given_fields() {
    let mut s = RunProgressSnapshot::default();
    assert_eq!(s.status, "idle");
    assert_eq!(s.overall_fraction(), (0, 0));
    let mut ev = RunProgressEvent::default();
    ev.total_items = Some(4);
    ev.current_item = Some("orders".to_string());
    s.apply_event(ev);
    assert_eq!(s.total_items, 4);
    assert_eq!(s.done_items, 0);
    assert_eq!(s.current_item, "orders");
    assert_eq!(s.status, "idle");
    let mut ev = RunProgressEvent::default();
    ev.done_items = Some(5);
    ev.status = Some("running".to_string());
    s.apply_event(ev);
    assert_eq!(s.overall_fraction(), (4, 4));
    assert_eq!(s.current_item, "orders");
    assert_eq!(s.status, "running");
}

#[test]
fn an_empty_event_changes_nothing_and_events_repeat_harmlessly() {
    let mut s = RunProgressSnapshot::default();
    let mut ev = RunProgressEvent::default();
    ev.done_items = Some(2);
    ev.total_items = Some(3);
    s.apply_event(ev);
    let before = s.copy();
    s.apply_event(RunProgressEvent::default());
    assert_eq!(s.done_items, before.done_items);
    assert_eq!(s.total_items, before.total_items);
    assert_eq!(s.status, before.status);
    let mut again = RunProgressEvent::default();
    again.done_items = Some(2);
    again.total_items = Some(3);
    s.apply_event(again);
    assert_eq!(s.overall_fraction(), (2, 3));
}
