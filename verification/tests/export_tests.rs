use corn_dbio_kit::config::{CompressType, DbType, OutputFormat};
use corn_dbio_kit::db_sql::QueryResult;
use corn_dbio_kit::export_page::{
    export_single_page, export_sql_query_result, page_file_name, page_select_sql, page_values,
    query_object_name, query_result_values, sqlite_create_sql, sqlite_insert_sql,
};
use corn_dbio_kit::export_run::{
    archive_extension, archive_file_name, command_output_text, compress_command,
    count_rows_sql, estimated_rows, export_header_text, export_outcome, export_row_text,
    export_rule_text, export_summary_line, select_objects_by_list, select_objects_by_pattern,
    TablePager,
};

fn s(v: &str) -> String {
    v.to_string()
}

fn result(cols: &[&str], rows: Vec<Vec<Option<&str>>>) -> QueryResult {
    QueryResult {
        columns: cols.iter().map(|c| c.to_string()).collect(),
        rows: rows
            .into_iter()
            .map(|r| r.into_iter().map(|c| c.map(|x| x.to_string())).collect())
            .collect(),
    }
}

#[test]
fn the_page_query() {
    assert_eq!(
        page_select_sql(DbType::Mssql, "orders", Some("  amount > 5 "), None, 0, 100),
        "SELECT * FROM [orders] WHERE amount > 5 ORDER BY 1 OFFSET 0 ROWS FETCH NEXT 100 ROWS ONLY"
    );
    assert_eq!(
        page_select_sql(DbType::Mysql, "t", Some("  "), Some("id desc"), 200, 100),
        "SELECT * FROM `t` ORDER BY id desc LIMIT 100 OFFSET 200"
    );
    assert_eq!(page_file_name("orders", 3, OutputFormat::Csv), "orders_000003.csv");
    assert_eq!(page_file_name("t", 1234567, OutputFormat::Excel), "t_1234567.xlsx");
}

#[test]
fn csv_page_with_hidden_key() {
    let r = result(&["ID", "name"], vec![vec![Some("1"), Some("a,b")], vec![Some("2"), None]]);
    let p = export_single_page(OutputFormat::Csv, DbType::Mssql, "t", &r, true, &vec![s("id")]);
    assert_eq!(p.rows, 2);
    assert_eq!(p.file_text.unwrap(), "ID,name\n,\"a,b\"\n,\n");
    let p = export_single_page(OutputFormat::Csv, DbType::Mssql, "t", &r, false, &vec![s("id")]);
    assert_eq!(p.file_text.unwrap(), "ID,name\n1,\"a,b\"\n2,\n");
}

#[test]
fn values_lose_their_quotes_and_keep_their_escapes() {
    let r = result(&["v"], vec![vec![Some("'quoted'")], vec![Some("it's")], vec![Some("\"x\"")]]);
    let vals = page_values(&r, false, &vec![]);
    assert_eq!(vals, vec![vec![Some(s("quoted"))], vec![Some(s("it''s"))], vec![Some(s("\"x\""))]]);
}

#[test]
fn sql_page_in_batches_of_a_hundred() {
    let rows: Vec<Vec<Option<String>>> = (0..150).map(|i| vec![Some(i.to_string())]).collect();
    let r = QueryResult { columns: vec![s("n")], rows };
    let p = export_single_page(OutputFormat::Sql, DbType::Mysql, "t", &r, false, &vec![]);
    let text = p.file_text.unwrap();
    assert_eq!(p.rows, 150);
    assert_eq!(text.matches("INSERT INTO `t` (`n`)\nVALUES\n    ").count(), 2);
    assert!(text.starts_with("INSERT INTO `t` (`n`)\nVALUES\n    ('0'),\n    ('1'),"));
    assert!(text.contains("('99');\nINSERT INTO `t` (`n`)\nVALUES\n    ('100'),"));
    assert!(text.ends_with("('149');\n"));
}

#[test]
fn sql_values_are_escaped_again() {
    let r = result(&["v", "w"], vec![vec![Some("it's"), None]]);
    let p = export_single_page(OutputFormat::Sql, DbType::Postgresql, "t", &r, false, &vec![]);
    assert_eq!(p.file_text.unwrap(), "INSERT INTO \"t\" (\"v\", \"w\")\nVALUES\n    ('it''''s', NULL);\n");
}

#[test]
fn json_xml_md_and_excel_pages() {
    let r = result(&["a", "b"], vec![vec![Some("x\"y"), None], vec![Some("<z>"), Some("w|v")]]);
    let json = export_single_page(OutputFormat::Json, DbType::SqlLite, "t", &r, false, &vec![]).file_text.unwrap();
    assert_eq!(json, "[\n  {\"a\":\"x\\\"y\",\"b\":null},\n  {\"a\":\"<z>\",\"b\":\"w|v\"}\n]\n");
    let xml = export_single_page(OutputFormat::Xml, DbType::SqlLite, "t", &r, false, &vec![]).file_text.unwrap();
    assert_eq!(
        xml,
        "<rows>\n  <row>\n    <c name=\"a\">x&quot;y</c>\n    <c name=\"b\"></c>\n  </row>\n  <row>\n    <c name=\"a\">&lt;z&gt;</c>\n    <c name=\"b\">w|v</c>\n  </row>\n</rows>\n"
    );
    let md = export_single_page(OutputFormat::Md, DbType::SqlLite, "t|1", &r, false, &vec![]).file_text.unwrap();
    assert_eq!(
        md,
        "| no | 表格名稱 | a | b |\n| ---: | --- | --- | --- |\n| 1 | t\\|1 | x\"y |  |\n| 2 | t\\|1 | <z> | w\\|v |\n"
    );
    let xls = export_single_page(OutputFormat::Excel, DbType::SqlLite, "t", &r, false, &vec![]).file_text.unwrap();
    assert_eq!(xls, "a\tb\nx\"y\t\n<z>\tw|v\n");
}

#[test]
fn empty_pages_and_sqlite_pages_write_no_file() {
    let none = result(&["a"], vec![]);
    let p = export_single_page(OutputFormat::Csv, DbType::SqlLite, "t", &none, false, &vec![]);
    assert_eq!((p.rows, p.file_text), (0, None));
    let nocols = result(&[], vec![vec![Some("x")]]);
    let p = export_single_page(OutputFormat::Csv, DbType::SqlLite, "t", &nocols, false, &vec![]);
    assert_eq!((p.rows, p.file_text), (0, None));
    let r = result(&["a"], vec![vec![Some("1")]]);
    let p = export_single_page(OutputFormat::SqlLite, DbType::SqlLite, "t", &r, false, &vec![]);
    assert_eq!((p.rows, p.file_text), (1, None));
}

#[test]
fn query_results() {
    let r = result(&["a", "b"], vec![vec![Some("1,2"), None], vec![Some("'q'")]]);
    let p = export_sql_query_result(OutputFormat::Sql, "report", &r);
    assert_eq!(p.rows, 2);
    assert_eq!(p.file_text.unwrap(), "a,b\n1,2,\n'q',\n");
    let p = export_sql_query_result(OutputFormat::Csv, "report", &r);
    assert_eq!(p.file_text.unwrap(), "a,b\n\"1,2\",\n'q',\n");
    let p = export_sql_query_result(OutputFormat::SqlLite, "report", &r);
    assert_eq!(p.file_text.unwrap(), "");
    assert_eq!(query_result_values(&r), vec![vec![Some(s("1,2")), None], vec![Some(s("'q'")), None]]);
    assert_eq!(query_object_name(Some("q1")), "q1");
    assert_eq!(query_object_name(None), "sql_result");
}

#[test]
fn sqlite_statements() {
    let cols = vec![s("a"), s("b\"c")];
    assert_eq!(sqlite_create_sql("t", &cols), "CREATE TABLE IF NOT EXISTS \"t\" (\"a\" TEXT, \"b\"\"c\" TEXT);");
    assert_eq!(sqlite_insert_sql("t", &cols), "INSERT INTO \"t\" (\"a\", \"b\"\"c\") VALUES (?, ?)");
}

#[test]
fn choosing_objects_by_pattern() {
    let all = vec![s("TRM_a"), s("other"), s("x_TRM_b"), s("TRM_c")];
    assert_eq!(select_objects_by_pattern(&all, "^TRM_").unwrap(), vec!["TRM_a", "TRM_c"]);
    assert_eq!(select_objects_by_pattern(&all, "TRM").unwrap(), vec!["TRM_a", "x_TRM_b", "TRM_c"]);
    assert_eq!(select_objects_by_pattern(&all, ".*").unwrap(), all);
    let e = select_objects_by_pattern(&all, "(").unwrap_err();
    assert!(e.starts_with("invalid --objects regex: "));
    assert!(e.len() > "invalid --objects regex: ".len());
}

#[test]
fn choosing_objects_by_list() {
    let all = vec![s("a"), s("b"), s("c")];
    assert_eq!(select_objects_by_list(&all, &vec![s("c"), s("a"), s("z")]), vec!["a", "c"]);
}

#[test]
fn a_table_read_page_by_page() {
    let mut pager = TablePager::start(Some(250), 100, None);
    let mut seen = vec![];
    let returned = [100usize, 100, 50];
    let mut i = 0;
    while let Some(plan) = pager.next_page() {
        seen.push((plan.page_index, plan.offset, plan.limit));
        pager.record_page(returned[i], plan.limit);
        i += 1;
    }
    assert_eq!(seen, vec![(1, 0, 100), (2, 100, 100), (3, 200, 50)]);
    assert_eq!(pager.total_rows, 250);
}

#[test]
fn a_short_page_or_a_single_page_ends_the_table() {
    let mut pager = TablePager::start(None, 10, None);
    let plan = pager.next_page().unwrap();
    pager.record_page(7, plan.limit);
    assert!(pager.finished);
    assert_eq!(pager.next_page().map(|p| p.page_index), None);
    let mut one = TablePager::start(None, 10, Some(4));
    let plan = one.next_page().unwrap();
    assert_eq!((plan.page_index, plan.offset, plan.limit), (4, 30, 10));
    one.record_page(10, plan.limit);
    assert!(one.finished);
    let mut zero = TablePager::start(Some(0), 10, None);
    assert!(zero.next_page().is_none());
}

#[test]
fn reports_and_outcome() {
    assert_eq!(count_rows_sql(DbType::Mssql, "t"), "SELECT COUNT(*) FROM [t]");
    assert_eq!(estimated_rows(&vec![s("42")]), 42);
    assert_eq!(estimated_rows(&vec![s("n/a")]), 0);
    assert_eq!(estimated_rows(&vec![]), 0);
    assert_eq!(export_outcome(0, false), None);
    assert_eq!(
        export_outcome(2, false).unwrap(),
        "export finished with failure: failed_tables=2, compress_failed=false"
    );
    assert_eq!(
        export_outcome(0, true).unwrap(),
        "export finished with failure: failed_tables=0, compress_failed=true"
    );
    assert_eq!(
        export_summary_line(3, 1, 120, "./export"),
        "summary success_tables=3 failed_tables=1 exported_rows=120 output_dir=./export"
    );
}

#[test]
fn report_table_lines() {
    assert_eq!(
        export_row_text("PAGE", "orders", Some(2), 100, 35, "OK"),
        "| PAGE     | orders                         |        2 |          100 |           35 | OK       |"
    );
    assert_eq!(
        export_row_text("TABLE", "a_very_long_table_name_that_does_not_fit", None, 0, 1, "FAIL"),
        "| TABLE    | a_very_long_table_name_that_d… |        - |            0 |            1 | FAIL     |"
    );
    assert_eq!(
        export_header_text(),
        "| TYPE     | TABLE                          |     PAGE |         ROWS |   ELAPSED_MS | STATUS   |"
    );
    assert_eq!(
        export_rule_text(),
        "+----------+--------------------------------+----------+--------------+--------------+----------+"
    );
}

#[test]
fn archiving() {
    assert_eq!(archive_extension(CompressType::Bzip), "bz2");
    assert_eq!(archive_file_name("20240101120000", CompressType::Zip), "wh-export-20240101120000.zip");
    let (p, a) = compress_command(CompressType::Zip, "x.zip", "export");
    assert_eq!((p.as_str(), a), ("zip", vec![s("-r"), s("-q"), s("x.zip"), s("export")]));
    let (p, a) = compress_command(CompressType::Bzip, "x.bz2", "export");
    assert_eq!((p.as_str(), a), ("tar", vec![s("-cjf"), s("x.bz2"), s("export")]));
    let (p, a) = compress_command(CompressType::Tar, "x.tar", "export");
    assert_eq!((p.as_str(), a), ("tar", vec![s("-cf"), s("x.tar"), s("export")]));
    assert_eq!(command_output_text(" 1700000000\n"), "1700000000");
}

#[test]
fn full_pages_go_on_until_an_empty_one() {
    let mut pager = TablePager::start(None, 10, None);
    let returned = [10usize, 10, 0, 10];
    let mut seen = vec![];
    let mut i = 0;
    while let Some(plan) = pager.next_page() {
        seen.push((plan.page_index, plan.offset, plan.limit));
        pager.record_page(returned[i], plan.limit);
        i += 1;
    }
    assert_eq!(seen, vec![(1, 0, 10), (2, 10, 10), (3, 20, 10)]);
    assert_eq!(pager.total_rows, 20);
}
