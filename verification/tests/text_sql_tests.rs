use corn_dbio_kit::config::{DbType, OutputFormat};
use corn_dbio_kit::escape::{
    env_quote, escape_csv_value, escape_json_value, escape_md_value, escape_sql_value,
    escape_tsv_value, escape_xml_value,
};
use corn_dbio_kit::sql_text::{
    clip_text, load_object_names_from_list_file, order_by_clause, output_file_extension,
    pagination_clause, parse_object_selector, quote_ident, to_insert_value, ObjectSelector,
};
use corn_dbio_kit::text::{
    eq_ignore_ascii_case, is_blank, join, lines, parse_u16, parse_usize, to_ascii_lower, trim,
    usize_to_string, zero_pad6,
};

#[test]
fn trimming_and_lines() {
    assert_eq!(trim("  a b \t\n"), "a b");
    assert_eq!(trim("\u{3000}x\u{a0}"), "x");
    assert!(is_blank(" \t "));
    assert!(!is_blank(" a "));
    assert_eq!(lines("a\r\nb\n\nc"), vec!["a", "b", "", "c"]);
    assert_eq!(lines("a\n"), vec!["a"]);
    assert_eq!(lines(""), Vec::<String>::new());
    assert_eq!(lines("x\r"), vec!["x\r"]);
    assert_eq!(join(&vec!["a".to_string(), "b".to_string(), "c".to_string()], ", "), "a, b, c");
    assert_eq!(to_ascii_lower("AbC-é"), "abc-é");
    assert!(eq_ignore_ascii_case("SELECT", "select"));
}

#[test]
fn numbers() {
    assert_eq!(usize_to_string(0), "0");
    assert_eq!(usize_to_string(1234567), "1234567");
    assert_eq!(zero_pad6(7), "000007");
    assert_eq!(zero_pad6(1234567), "1234567");
    assert_eq!(parse_usize("+12"), Some(12));
    assert_eq!(parse_usize("-1"), None);
    assert_eq!(parse_usize(""), None);
    assert_eq!(parse_usize("18446744073709551616"), None);
    assert_eq!(parse_u16("65535"), Some(65535));
    assert_eq!(parse_u16("65536"), None);
    assert_eq!(parse_u16(" 1"), None);
}

#[test]
fn escapes() {
    assert_eq!(escape_sql_value("a'b\\c"), "a''b\\\\c");
    assert_eq!(escape_csv_value("plain"), "plain");
    assert_eq!(escape_csv_value("a,b"), "\"a,b\"");
    assert_eq!(escape_csv_value("say \"hi\""), "\"say \"\"hi\"\"\"");
    assert_eq!(escape_csv_value("l1\nl2"), "\"l1\nl2\"");
    assert_eq!(escape_json_value("a\"b\\c\n\r\t"), "a\\\"b\\\\c\\n\\r\\t");
    assert_eq!(escape_xml_value("<a href=\"x\">'&'</a>"), "&lt;a href=&quot;x&quot;&gt;&apos;&amp;&apos;&lt;/a&gt;");
    assert_eq!(escape_tsv_value("a\tb\nc\rd"), "a b c d");
    assert_eq!(escape_md_value("a|b\nc\rd"), "a\\|b c d");
    assert_eq!(env_quote("p\"w\\d"), "\"p\\\"w\\\\d\"");
}

#[test]
fn identifiers_and_values() {
    assert_eq!(quote_ident(DbType::Mssql, "a]b"), "[a]]b]");
    assert_eq!(quote_ident(DbType::Mysql, "a`b"), "`a``b`");
    assert_eq!(quote_ident(DbType::Postgresql, "a\"b"), "\"a\"\"b\"");
    assert_eq!(quote_ident(DbType::Oracle, "T"), "\"T\"");
    assert_eq!(quote_ident(DbType::SqlLite, "t"), "\"t\"");
    assert_eq!(to_insert_value(Some("O'Hara")), "'O''Hara'");
    assert_eq!(to_insert_value(None), "NULL");
}

#[test]
fn paging_and_ordering() {
    assert_eq!(
        pagination_clause(DbType::Mssql, 20, 10),
        " OFFSET 20 ROWS FETCH NEXT 10 ROWS ONLY"
    );
    assert_eq!(
        pagination_clause(DbType::Oracle, 0, 5),
        " OFFSET 0 ROWS FETCH NEXT 5 ROWS ONLY"
    );
    assert_eq!(pagination_clause(DbType::Mysql, 20, 10), " LIMIT 10 OFFSET 20");
    assert_eq!(pagination_clause(DbType::SqlLite, 0, 1), " LIMIT 1 OFFSET 0");
    assert_eq!(order_by_clause(DbType::Mssql, None), " ORDER BY 1");
    assert_eq!(order_by_clause(DbType::Mssql, Some("  ")), " ORDER BY 1");
    assert_eq!(order_by_clause(DbType::Mysql, None), "");
    assert_eq!(order_by_clause(DbType::Postgresql, Some(" id desc ")), " ORDER BY id desc");
}

#[test]
fn clipping() {
    assert_eq!(clip_text("abc", 3), "abc");
    assert_eq!(clip_text("abcdef", 4), "abc…");
    assert_eq!(clip_text("abcdef", 1), "…");
    assert_eq!(clip_text("abcdef", 0), "");
}

#[test]
fn file_extensions() {
    assert_eq!(output_file_extension(OutputFormat::Sql), "sql");
    assert_eq!(output_file_extension(OutputFormat::SqlLite), "sqlite");
    assert_eq!(output_file_extension(OutputFormat::Excel), "xlsx");
    assert_eq!(output_file_extension(OutputFormat::Md), "md");
}

#[test]
fn object_selectors() {
    assert!(matches!(parse_object_selector("@sql: q.sql "), ObjectSelector::SqlFile(f) if f == "q.sql"));
    assert!(matches!(parse_object_selector("@list:names.txt"), ObjectSelector::ListFile(f) if f == "names.txt"));
    assert!(matches!(parse_object_selector("@/path/to/tables.txt"), ObjectSelector::ListFile(f) if f == "/path/to/tables.txt"));
    assert!(matches!(parse_object_selector("@sql:/path/to/query.sql"), ObjectSelector::SqlFile(f) if f == "/path/to/query.sql"));
    assert!(matches!(parse_object_selector("table*"), ObjectSelector::Pattern(p) if p == "table*"));
    assert!(matches!(parse_object_selector("^TRM_.*"), ObjectSelector::Pattern(p) if p == "^TRM_.*"));
    assert!(matches!(parse_object_selector(" @sql:x"), ObjectSelector::Pattern(p) if p == " @sql:x"));
}

#[test]
fn list_file_names() {
    let names = load_object_names_from_list_file("# tables\n a \n\nb\r\na\n#c\n");
    let mut sorted = names.clone();
    sorted.sort();
    assert_eq!(sorted, vec!["a", "b"]);
    assert_eq!(names.len(), 2);
}
