use corn_dbio_kit::config::{default_tui_cli, DbType};
use corn_dbio_kit::db_sql::{
    auto_increment_pk_column_set, delete_table_row, execute_sql_preview,
    fetch_db_object_definition, fetch_rows_by_sql, fetch_table_columns_info,
    fetch_table_preview_page, insert_table_row, list_table_stats, list_tables_only_sql,
    mssql_collation_expr, object_definition_sql, query_first_column_as_vec,
    result_rows_to_strings, sql_quote_literal, sql_string_literal, table_preview_sql,
    update_table_cell, DbError, QueryResult,
};

fn s(v: &str) -> String {
    v.to_string()
}

fn result(cols: &[&str], rows: Vec<Vec<Option<&str>>>) -> QueryResult {
    QueryResult {
        columns: cols.iter().map(|c| c.to_string()).collect(),
        rows: rows
            .into_iter()
            .map(|r| r.into_iter().map(|c| c.map(|x| x.to_string())).collect())
            .collect(),
    }
}

#[test]
fn first_column_names_skip_null_and_blank() {
    let r = result(&["name"], vec![vec![Some("a")], vec![None], vec![Some("  ")], vec![], vec![Some("b")]]);
    assert_eq!(query_first_column_as_vec(&r), vec!["a", "b"]);
}

#[test]
fn table_statistics() {
    let r = result(
        &["name", "rows", "size"],
        vec![
            vec![Some("t1"), Some("10"), Some("8192")],
            vec![Some("t2"), Some("x"), None],
            vec![Some(" "), Some("1"), Some("1")],
        ],
    );
    let stats = list_table_stats(DbType::Mssql, &r);
    assert_eq!(stats.len(), 2);
    assert_eq!((stats[0].name.as_str(), stats[0].rows, stats[0].size_bytes), ("t1", 10, 8192));
    assert_eq!((stats[1].name.as_str(), stats[1].rows, stats[1].size_bytes), ("t2", 0, 0));
}

#[test]
fn sql_window_preview() {
    let r = result(&["a", "b"], vec![vec![Some("1"), None], vec![Some("2"), Some("x")], vec![Some("3"), Some("y")]]);
    assert_eq!(execute_sql_preview(&r, 5), vec!["cols: a | b", "1 | NULL", "2 | x", "3 | y"]);
    assert_eq!(
        execute_sql_preview(&r, 2),
        vec!["cols: a | b", "1 | NULL", "2 | x", "... truncated at 2 rows"]
    );
    let empty = result(&[], vec![]);
    assert_eq!(execute_sql_preview(&empty, 5), vec!["ok: SQL executed (no result set)"]);
    assert_eq!(fetch_db_object_definition(&vec![]), "-- empty definition");
    assert_eq!(fetch_db_object_definition(&vec![s("l1"), s("l2")]), "l1\nl2");
}

#[test]
fn preview_queries() {
    assert_eq!(table_preview_sql(DbType::Mssql, "t", 20), "SELECT TOP 20 * FROM [t]");
    assert_eq!(table_preview_sql(DbType::Mysql, "t", 20), "SELECT * FROM `t` LIMIT 20");
    assert_eq!(table_preview_sql(DbType::Oracle, "T", 5), "SELECT * FROM \"T\" FETCH FIRST 5 ROWS ONLY");
    assert_eq!(
        fetch_table_preview_page(DbType::Mssql, "t", 3, 20),
        "SELECT * FROM [t] ORDER BY 1 OFFSET 40 ROWS FETCH NEXT 20 ROWS ONLY"
    );
    assert_eq!(
        fetch_table_preview_page(DbType::Postgresql, "t", 0, 20),
        "SELECT * FROM \"t\" ORDER BY 1 LIMIT 20 OFFSET 0"
    );
    assert_eq!(fetch_rows_by_sql(DbType::Mssql, "select 1", 50), "SELECT TOP 50 * FROM (select 1) q");
    assert_eq!(fetch_rows_by_sql(DbType::SqlLite, "select 1", 50), "SELECT * FROM (select 1) q LIMIT 50");
    assert_eq!(object_definition_sql(DbType::Mysql, "v1", false), "SHOW CREATE VIEW v1");
    assert_eq!(object_definition_sql(DbType::Mysql, "p1", true), "SHOW CREATE PROCEDURE p1");
    assert_eq!(
        list_tables_only_sql(DbType::Oracle),
        "SELECT table_name FROM user_tables ORDER BY table_name"
    );
}

#[test]
fn literals_and_collation() {
    assert_eq!(sql_quote_literal("it's \"x\""), "'it''s \"x\"'");
    assert_eq!(sql_string_literal(DbType::Mssql, "a'b"), "N'a''b'");
    assert_eq!(sql_string_literal(DbType::Mysql, "a\\b"), "'a\\\\b'");
    let mut cli = default_tui_cli();
    assert_eq!(mssql_collation_expr(&cli, "[k]"), "[k]");
    cli.export_collation = s(" Chinese_Taiwan_Stroke_CI_AS ");
    assert_eq!(mssql_collation_expr(&cli, "[k]"), "[k] COLLATE Chinese_Taiwan_Stroke_CI_AS");
    cli.db_type = DbType::Mysql;
    assert_eq!(mssql_collation_expr(&cli, "`k`"), "`k`");
}

#[test]
fn editing_statements() {
    let mut cli = default_tui_cli();
    assert_eq!(
        update_table_cell(&cli, "t", "id", "7", "name", "O'Neil"),
        "UPDATE [t] SET [name] = N'O''Neil' WHERE [id] = N'7'"
    );
    assert_eq!(
        update_table_cell(&cli, "t", "id", "7", "name", "null"),
        "UPDATE [t] SET [name] = NULL WHERE [id] = N'7'"
    );
    assert_eq!(delete_table_row(&cli, "t", "id", " "), "DELETE FROM [t] WHERE [id] IS NULL");
    assert_eq!(delete_table_row(&cli, "t", "id", "5"), "DELETE FROM [t] WHERE [id] = N'5'");
    cli.db_type = DbType::Postgresql;
    assert_eq!(
        insert_table_row(&cli, "t", &vec![s("id"), s("name")], &vec![s(""), s("Ann")]).unwrap(),
        "INSERT INTO \"t\" (\"id\", \"name\") VALUES (NULL, 'Ann')"
    );
    assert_eq!(
        insert_table_row(&cli, "t", &vec![s("id")], &vec![]).unwrap_err(),
        DbError::InvalidInsertPayload
    );
    assert_eq!(insert_table_row(&cli, "t", &vec![], &vec![]).unwrap_err().message(), "invalid insert payload");
}

#[test]
fn column_descriptions_and_rows() {
    let r = result(
        &["name", "type", "desc"],
        vec![vec![Some("id"), Some("int"), None], vec![None, Some("x"), Some("y")], vec![Some("n"), Some("varchar"), Some("the name")]],
    );
    let info = fetch_table_columns_info(&r);
    assert_eq!(info, vec![(s("id"), s("int"), s("")), (s("n"), s("varchar"), s("the name"))]);
    let rows = result_rows_to_strings(&vec![vec![Some(s("a")), None]]);
    assert_eq!(rows, vec![vec![s("a"), s("")]]);
}

#[test]
fn auto_increment_keys_are_lowercased_once() {
    let r = result(&["c"], vec![vec![Some("ID")], vec![Some("id")], vec![Some("Seq")]]);
    let mut keys = auto_increment_pk_column_set(&r);
    keys.sort();
    assert_eq!(keys, vec!["id", "seq"]);
}
