use corn_dbio_kit::cells::{
    column_data_to_string, ServerCell,
    bytes_to_hex, i64_to_string, import_value_text, mysql_value_to_string, sqlite_cell_text,
    unsigned_to_string, MysqlCell, SqliteCell,
};
use corn_dbio_kit::config::{default_tui_cli, DbType, ImportContentFormat};
use corn_dbio_kit::import::{
    build_insert_sql, check_import_format, check_import_target, detect_archive_kind,
    extract_command, import_target_cli, is_sqlite_source_name, no_sqlite_source_message,
    reports_rows, scan_dir_entries, source_columns_sql, source_row_count, source_rows_sql,
    source_tables_sql, temp_import_dir_path, values_tuple, ArchiveKind, DirEntryInfo,
    ImportCheck, InsertBatcher,
};

fn s(v: &str) -> String {
    v.to_string()
}

#[test]
fn hexadecimal_bytes() {
    assert_eq!(bytes_to_hex(&[0u8, 255, 16, 10]), "00ff100a");
    assert_eq!(bytes_to_hex(&[]), "");
}

#[test]
fn signed_and_unsigned_numbers() {
    assert_eq!(i64_to_string(-42), "-42");
    assert_eq!(i64_to_string(0), "0");
    assert_eq!(i64_to_string(i64::MIN), "-9223372036854775808");
    assert_eq!(i64_to_string(i64::MAX), "9223372036854775807");
    assert_eq!(unsigned_to_string(u64::MAX), "18446744073709551615");
}

#[test]
fn mysql_values() {
    assert_eq!(mysql_value_to_string(&MysqlCell::Null), "");
    assert_eq!(mysql_value_to_string(&MysqlCell::Int(-5)), "-5");
    assert_eq!(mysql_value_to_string(&MysqlCell::UInt(7)), "7");
    assert_eq!(mysql_value_to_string(&MysqlCell::Text(s("abc"))), "abc");
    assert_eq!(
        mysql_value_to_string(&MysqlCell::Date(2024, 3, 9, 7, 5, 0, 42)),
        "2024-03-09 07:05:00.000042"
    );
    assert_eq!(
        mysql_value_to_string(&MysqlCell::Time(true, 2, 13, 4, 5, 6)),
        "-2 13:04:05.000006"
    );
    assert_eq!(
        mysql_value_to_string(&MysqlCell::Time(false, 0, 0, 0, 0, 0)),
        "0 00:00:00.000000"
    );
}

#[test]
fn sqlite_values() {
    assert_eq!(sqlite_cell_text(&SqliteCell::Null), None);
    assert_eq!(sqlite_cell_text(&SqliteCell::Integer(-1)), Some(s("-1")));
    assert_eq!(sqlite_cell_text(&SqliteCell::Blob(vec![1, 2, 3])), Some(s("<3 bytes blob>")));
    assert_eq!(import_value_text(&SqliteCell::Null), "NULL");
    assert_eq!(import_value_text(&SqliteCell::Integer(12)), "'12'");
    assert_eq!(import_value_text(&SqliteCell::Text(s("O'Hara"))), "'O''Hara'");
    assert_eq!(import_value_text(&SqliteCell::Blob(vec![0xab, 0x01])), "'ab01'");
}

#[test]
fn archives_by_name() {
    assert_eq!(detect_archive_kind(Some("data.ZIP")), Some(ArchiveKind::Zip));
    assert_eq!(detect_archive_kind(Some("data.tar")), Some(ArchiveKind::Tar));
    assert_eq!(detect_archive_kind(Some("data.tar.bz2")), Some(ArchiveKind::Bzip));
    assert_eq!(detect_archive_kind(Some("data.tbz2")), Some(ArchiveKind::Bzip));
    assert_eq!(detect_archive_kind(Some("data.sqlite")), None);
    assert_eq!(detect_archive_kind(None), None);
    let (p, a) = extract_command(ArchiveKind::Zip, "a.zip", "/tmp/x");
    assert_eq!((p.as_str(), a), ("unzip", vec![s("-q"), s("a.zip"), s("-d"), s("/tmp/x")]));
    let (p, a) = extract_command(ArchiveKind::Bzip, "a.bz2", "/tmp/x");
    assert_eq!((p.as_str(), a), ("tar", vec![s("-xjf"), s("a.bz2"), s("-C"), s("/tmp/x")]));
    assert_eq!(temp_import_dir_path("1700000000", 42), "/tmp/corn-dbio-kit-import-1700000000-42");
}

#[test]
fn finding_the_sqlite_source() {
    assert!(is_sqlite_source_name("EXPORT.SQLITE"));
    assert!(is_sqlite_source_name("a.db"));
    assert!(!is_sqlite_source_name("a.csv"));
    let mut stack = vec![s("/root")];
    let entries = vec![
        DirEntryInfo { path: s("/x/sub"), is_dir: true, name: s("sub") },
        DirEntryInfo { path: s("/x/readme.txt"), is_dir: false, name: s("readme.txt") },
        DirEntryInfo { path: s("/x/data.db"), is_dir: false, name: s("data.db") },
        DirEntryInfo { path: s("/x/later"), is_dir: true, name: s("later") },
    ];
    assert_eq!(scan_dir_entries(&mut stack, &entries), Some(s("/x/data.db")));
    assert_eq!(stack, vec![s("/root"), s("/x/sub")]);
    let mut stack2 = vec![];
    let first_two = vec![
        DirEntryInfo { path: s("/x/sub"), is_dir: true, name: s("sub") },
        DirEntryInfo { path: s("/x/readme.txt"), is_dir: false, name: s("readme.txt") },
    ];
    assert_eq!(scan_dir_entries(&mut stack2, &first_two), None);
    assert_eq!(stack2, vec![s("/x/sub")]);
    assert_eq!(no_sqlite_source_message("/tmp/x"), "no sqlite source found under extracted directory: /tmp/x");
}

#[test]
fn target_and_checks() {
    let mut cli = default_tui_cli();
    cli.import_host = s("h2");
    cli.import_port = 5432;
    cli.import_db_type = DbType::Postgresql;
    cli.import_user = s("u2");
    cli.import_password = s("p2");
    cli.import_db_name = s("d2");
    cli.import_collation = s("C");
    let t = import_target_cli(&cli);
    assert_eq!((t.host.as_str(), t.port, t.db_type), ("h2", 5432, DbType::Postgresql));
    assert_eq!((t.user.as_str(), t.password.as_str(), t.db_name.as_str()), ("u2", "p2", "d2"));
    assert_eq!(t.export_collation, "C");
    assert!(check_import_target(&t).is_ok());
    let mut blank = t.clone();
    blank.password = s("  ");
    let e = check_import_target(&blank).unwrap_err();
    assert_eq!(e, ImportCheck::MissingConnectionFields);
    assert_eq!(e.message(), "missing import connection fields: import-host/import-user/import-password/import-db-name");
    blank.db_type = DbType::SqlLite;
    assert!(check_import_target(&blank).is_ok());
    assert!(check_import_format(&cli).is_ok());
    cli.import_content_format = ImportContentFormat::Csv;
    assert_eq!(
        check_import_format(&cli).unwrap_err().message(),
        "import currently supports import-content-format=sqlite only"
    );
}

#[test]
fn source_queries() {
    assert_eq!(
        source_tables_sql(),
        "SELECT name FROM sqlite_master WHERE type='table' AND name NOT LIKE 'sqlite_%' ORDER BY name"
    );
    assert_eq!(source_columns_sql("a\"b"), "PRAGMA table_info(\"a\"\"b\")");
    assert_eq!(source_rows_sql("t"), "SELECT * FROM \"t\"");
    assert_eq!(source_row_count(Some(12)), 12);
    assert_eq!(source_row_count(Some(-1)), 0);
    assert_eq!(source_row_count(None), 0);
    assert!(reports_rows(400));
    assert!(!reports_rows(401));
}

#[test]
fn insert_statements() {
    let cols = vec![s("[a]"), s("[b]")];
    let rows = vec![s("('1','x')"), s("('2',NULL)")];
    assert_eq!(
        build_insert_sql(DbType::Mssql, "[t]", &cols, &rows),
        "INSERT INTO [t] ([a], [b]) VALUES ('1','x'),('2',NULL)"
    );
    assert_eq!(
        build_insert_sql(DbType::Oracle, "\"T\"", &vec![s("\"A\"")], &vec![s("('1')"), s("('2')")]),
        "INSERT INTO \"T\" (\"A\") VALUES ('1'); INSERT INTO \"T\" (\"A\") VALUES ('2')"
    );
    assert_eq!(values_tuple(&vec![s("'1'"), s("NULL")]), "('1',NULL)");
}

#[test]
fn rows_go_out_in_hundreds_and_none_is_lost() {
    let mut b = InsertBatcher::new(DbType::Mysql, "t", &vec![s("a")]);
    assert_eq!(b.table, "`t`");
    let mut statements = vec![];
    for i in 0..250 {
        if let Some(stmt) = b.add_row(format!("('{i}')")) {
            statements.push(stmt);
        }
    }
    if let Some(stmt) = b.finish() {
        statements.push(stmt);
    }
    assert_eq!(statements.len(), 3);
    assert!(statements[0].starts_with("INSERT INTO `t` (`a`) VALUES ('0'),('1'),"));
    assert!(statements[0].ends_with(",('99')"));
    assert!(statements[1].starts_with("INSERT INTO `t` (`a`) VALUES ('100'),"));
    assert!(statements[2].ends_with(",('249')"));
    let total: usize = statements.iter().map(|s| s.matches("('").count()).sum();
    assert_eq!(total, 250);
    assert!(b.finish().is_none());
}

#[test]
fn server_values_as_text() {
    assert_eq!(column_data_to_string(&ServerCell::Null), None);
    assert_eq!(column_data_to_string(&ServerCell::Int(-42)), Some("-42".to_string()));
    assert_eq!(column_data_to_string(&ServerCell::Bit(true)), Some("true".to_string()));
    assert_eq!(column_data_to_string(&ServerCell::Bit(false)), Some("false".to_string()));
    assert_eq!(column_data_to_string(&ServerCell::Binary(vec![0x0a, 0xff])), Some("0aff".to_string()));
    assert_eq!(column_data_to_string(&ServerCell::Text("3.5".to_string())), Some("3.5".to_string()));
}
