use corn_dbio_kit::config::{
    default_tui_cli, CompressType, DbType, FlowMode, Lang, OutputFormat, RunMode,
};
use corn_dbio_kit::env::apply_env_to_cli;
use corn_dbio_kit::env_file::{
    env_file_path, line_key_of, lookup_entry, managed_env_entries, persist_env_from_cli,
    render_env_text,
};

fn s(v: &str) -> String {
    v.to_string()
}

#[test]
fn keys_of_lines() {
    assert_eq!(line_key_of("  DB2SQL_FLOW = \"x\""), Some(s("DB2SQL_FLOW")));
    assert_eq!(line_key_of("# DB2SQL_FLOW=x"), None);
    assert_eq!(line_key_of("   #x=1"), None);
    assert_eq!(line_key_of("no assignment"), None);
    assert_eq!(line_key_of("A=B=C"), Some(s("A")));
    assert_eq!(line_key_of("=v"), Some(s("")));
}

#[test]
fn managed_entries_follow_the_configuration() {
    let mut cli = default_tui_cli();
    cli.compress = Some(CompressType::Tar);
    cli.recsize = Some(12);
    let m = managed_env_entries(&cli);
    assert_eq!(m.len(), 26);
    assert_eq!(m[0], (s("DB2SQL_FLOW"), Some(s("export"))));
    assert_eq!(m[5], (s("DB2SQL_EXPORT_PORT"), Some(s("1433"))));
    assert_eq!(m[10], (s("DB2SQL_EXPORT_CONDITION"), None));
    assert_eq!(m[14], (s("DB2SQL_EXPORT_COMPRESS"), Some(s("tar"))));
    assert_eq!(m[17], (s("DB2SQL_EXPORT_RECSIZE"), Some(s("12"))));
    assert_eq!(lookup_entry(&m, "DB2SQL_EXPORT_PAGE_NO"), Some(None));
    assert_eq!(lookup_entry(&m, "OTHER"), None);
}

#[test]
fn rewriting_keeps_other_lines_and_appends_the_rest() {
    let m = vec![
        (s("K1"), Some(s("one"))),
        (s("K2"), None),
        (s("K3"), Some(s("a\"b"))),
    ];
    let existing = "# note\nK2=old\nOTHER=1\n  K1 = stale\nplain\n";
    let out = render_env_text(existing, &m);
    assert_eq!(out, "# note\nOTHER=1\nK1=\"one\"\nplain\nK3=\"a\\\"b\"\n");
    assert_eq!(render_env_text("", &m), "K1=\"one\"\nK3=\"a\\\"b\"\n");
}

#[test]
fn persisting_twice_changes_nothing() {
    let mut cli = default_tui_cli();
    cli.host = s("db.local");
    cli.condition = Some(s("x = 'y'"));
    let existing = "# kept\nDB2SQL_FLOW=import\nFOO=bar\r\nDB2SQL_EXPORT_CONDITION=\n";
    let once = persist_env_from_cli(existing, &cli);
    let twice = persist_env_from_cli(&once, &cli);
    assert_eq!(once, twice);
    assert!(once.starts_with("# kept\nDB2SQL_FLOW=\"export\"\nFOO=bar\nDB2SQL_EXPORT_CONDITION=\"x = 'y'\"\n"));
    assert!(once.contains("DB2SQL_EXPORT_HOST=\"db.local\"\n"));
    assert!(!once.contains("DB2SQL_EXPORT_ORDER_BY"));
    assert!(once.ends_with("\n"));
}

#[test]
fn where_the_env_file_is() {
    assert_eq!(env_file_path(true), "../.env");
    assert_eq!(env_file_path(false), ".env");
}

#[test]
fn saved_settings_read_back() {
    let mut cli = default_tui_cli();
    cli.flow = FlowMode::Import;
    cli.mode = RunMode::Cli;
    cli.lang = Lang::Ja;
    cli.db_type = DbType::Postgresql;
    cli.host = s("db.example");
    cli.port = 5433;
    cli.user = s("reader");
    cli.password = s("p w");
    cli.db_name = s("sales");
    cli.objects = s("^ord");
    cli.condition = Some(s("id > 3"));
    cli.order_by = None;
    cli.hide_primary_key = true;
    cli.output_format = OutputFormat::Json;
    cli.compress = Some(CompressType::Bzip);
    cli.delete_after_compress = true;
    cli.output_directory = s("./out");
    cli.recsize = Some(500);
    cli.page_size = 250;
    cli.page_no = None;
    cli.import_host = s("target");
    cli.import_port = 1521;
    cli.import_db_type = DbType::Oracle;
    cli.import_user = s("writer");
    cli.import_password = s("");
    cli.import_db_name = s("warehouse");
    let vars: Vec<(String, String)> = managed_env_entries(&cli)
        .into_iter()
        .filter_map(|(k, v)| v.map(|v| (k, v)))
        .collect();
    let mut back = default_tui_cli();
    back.order_by = Some(s("stale"));
    back.page_no = Some(9);
    back.import_password = s("kept");
    apply_env_to_cli(&mut back, &vars).unwrap();
    assert_eq!(back.flow, cli.flow);
    assert_eq!(back.mode, cli.mode);
    assert_eq!(back.lang, cli.lang);
    assert_eq!(back.db_type, cli.db_type);
    assert_eq!(back.host, cli.host);
    assert_eq!(back.port, cli.port);
    assert_eq!(back.user, cli.user);
    assert_eq!(back.password, cli.password);
    assert_eq!(back.db_name, cli.db_name);
    assert_eq!(back.objects, cli.objects);
    assert_eq!(back.condition, cli.condition);
    assert_eq!(back.order_by, None);
    assert_eq!(back.hide_primary_key, cli.hide_primary_key);
    assert_eq!(back.output_format, cli.output_format);
    assert_eq!(back.compress, cli.compress);
    assert_eq!(back.delete_after_compress, cli.delete_after_compress);
    assert_eq!(back.output_directory, cli.output_directory);
    assert_eq!(back.recsize, cli.recsize);
    assert_eq!(back.page_size, cli.page_size);
    assert_eq!(back.page_no, None);
    assert_eq!(back.import_host, cli.import_host);
    assert_eq!(back.import_port, cli.import_port);
    assert_eq!(back.import_db_type, cli.import_db_type);
    assert_eq!(back.import_user, cli.import_user);
    assert_eq!(back.import_password, "kept");
    assert_eq!(back.import_db_name, cli.import_db_name);
}
