use corn_dbio_kit::config::{
    bool_to_string, compress_to_str, db_type_to_str, default_tui_cli, flow_to_str, lang_to_str,
    mode_to_str, output_format_to_str, parse_bool_arg, parse_compress_type, parse_db_type,
    parse_flow_mode, parse_lang, parse_output_format, parse_positive_usize, parse_run_mode,
    CompressType, ConfigError, DbType, FlowMode, ImportContentFormat, Lang, OutputFormat, RunMode,
};

#[test]
fn db_type_names_are_read_in_any_case() {
    assert_eq!(parse_db_type("mssql").unwrap(), DbType::Mssql);
    assert_eq!(parse_db_type("MSSQL").unwrap(), DbType::Mssql);
    assert_eq!(parse_db_type("Oracle").unwrap(), DbType::Oracle);
    assert_eq!(parse_db_type("mysql").unwrap(), DbType::Mysql);
    assert_eq!(parse_db_type("postgres").unwrap(), DbType::Postgresql);
    assert_eq!(parse_db_type("PostgreSQL").unwrap(), DbType::Postgresql);
    assert_eq!(parse_db_type("sqlite").unwrap(), DbType::SqlLite);
    assert_eq!(parse_db_type("sql-lite").unwrap(), DbType::SqlLite);
}

#[test]
fn db_type_is_not_trimmed() {
    let e = parse_db_type(" mssql").unwrap_err();
    assert_eq!(
        e.message(),
        "unsupported db-type:  mssql (allowed: mssql, oracle, mysql, postgresql, sql-lite)"
    );
}

#[test]
fn output_format_is_trimmed_and_case_folded() {
    assert_eq!(parse_output_format(" CSV ").unwrap(), OutputFormat::Csv);
    assert_eq!(parse_output_format("sqlite").unwrap(), OutputFormat::SqlLite);
    assert_eq!(parse_output_format("Excel").unwrap(), OutputFormat::Excel);
    let e = parse_output_format("pdf").unwrap_err();
    assert_eq!(
        e.message(),
        "unsupported output-format: pdf (allowed: sql, sql-lite, csv, excel, json, xml, md)"
    );
}

#[test]
fn compress_mode_flow_lang_errors() {
    assert_eq!(parse_compress_type("BZIP").unwrap(), CompressType::Bzip);
    assert_eq!(
        parse_compress_type("rar").unwrap_err().message(),
        "unsupported compress value: rar (allowed: zip, bzip, tar)"
    );
    assert_eq!(parse_run_mode(" Cli ").unwrap(), RunMode::Cli);
    assert_eq!(
        parse_run_mode("gui").unwrap_err().message(),
        "unsupported mode: gui (allowed: cli, tui)"
    );
    assert_eq!(parse_flow_mode("IMPORT").unwrap(), FlowMode::Import);
    assert_eq!(
        parse_flow_mode("sync").unwrap_err().message(),
        "unsupported flow: sync (allowed: export, import)"
    );
    assert_eq!(parse_lang("ja").unwrap(), Lang::Ja);
    assert_eq!(
        parse_lang("fr").unwrap_err().message(),
        "unsupported lang: fr (allowed: tw, en, ja)"
    );
}

#[test]
fn every_name_reads_back_as_its_value() {
    for v in [DbType::Mssql, DbType::Oracle, DbType::Mysql, DbType::Postgresql, DbType::SqlLite] {
        assert_eq!(parse_db_type(db_type_to_str(v)).unwrap(), v);
    }
    for v in [
        OutputFormat::Sql,
        OutputFormat::SqlLite,
        OutputFormat::Csv,
        OutputFormat::Excel,
        OutputFormat::Json,
        OutputFormat::Xml,
        OutputFormat::Md,
    ] {
        assert_eq!(parse_output_format(output_format_to_str(v)).unwrap(), v);
    }
    for v in [CompressType::Zip, CompressType::Bzip, CompressType::Tar] {
        assert_eq!(parse_compress_type(compress_to_str(v)).unwrap(), v);
    }
    for v in [RunMode::Cli, RunMode::Tui] {
        assert_eq!(parse_run_mode(mode_to_str(v)).unwrap(), v);
    }
    for v in [Lang::Tw, Lang::En, Lang::Ja] {
        assert_eq!(parse_lang(lang_to_str(v)).unwrap(), v);
    }
    assert_eq!(parse_flow_mode(flow_to_str(FlowMode::Export)).unwrap(), FlowMode::Export);
    assert_eq!(parse_flow_mode(flow_to_str(FlowMode::Import)).unwrap(), FlowMode::Import);
    assert_eq!(parse_flow_mode(flow_to_str(FlowMode::ExportSchema)).unwrap(), FlowMode::Export);
    assert_eq!(parse_flow_mode(flow_to_str(FlowMode::ImportSchema)).unwrap(), FlowMode::Import);
    for b in [true, false] {
        assert_eq!(parse_bool_arg("x", &bool_to_string(b)).unwrap(), b);
    }
}

#[test]
fn booleans_and_counts() {
    assert_eq!(parse_bool_arg("--flag", " TRUE ").unwrap(), true);
    assert_eq!(parse_bool_arg("--flag", "False").unwrap(), false);
    let e = parse_bool_arg("--flag", "yes").unwrap_err();
    assert_eq!(e.message(), "invalid --flag value: yes (allowed: true|false)");
    assert_eq!(parse_positive_usize("--n", "42").unwrap(), 42);
    assert_eq!(parse_positive_usize("--n", "+7").unwrap(), 7);
    assert_eq!(parse_positive_usize("--n", "0").unwrap_err().message(), "invalid --n value: 0");
    assert_eq!(parse_positive_usize("--n", "4x").unwrap_err().message(), "invalid --n value: 4x");
    assert!(matches!(
        parse_positive_usize("--n", "").unwrap_err(),
        ConfigError::InvalidNumber { .. }
    ));
}

#[test]
fn names_written_for_each_value() {
    assert_eq!(flow_to_str(FlowMode::ExportSchema), "export");
    assert_eq!(flow_to_str(FlowMode::ImportSchema), "import");
    assert_eq!(db_type_to_str(DbType::SqlLite), "sql-lite");
    assert_eq!(output_format_to_str(OutputFormat::Excel), "excel");
    assert_eq!(compress_to_str(CompressType::Bzip), "bzip");
    assert_eq!(bool_to_string(true), "true");
}

#[test]
fn the_starting_configuration() {
    let c = default_tui_cli();
    assert_eq!(c.flow, FlowMode::Export);
    assert_eq!(c.mode, RunMode::Tui);
    assert_eq!(c.lang, Lang::En);
    assert_eq!(c.db_type, DbType::Mssql);
    assert_eq!(c.port, 1433);
    assert_eq!(c.objects, ".*");
    assert_eq!(c.condition, None);
    assert_eq!(c.output_format, OutputFormat::Sql);
    assert_eq!(c.output_directory, "./export");
    assert_eq!(c.page_size, 10000);
    assert_eq!(c.page_no, None);
    assert_eq!(c.import_port, 1433);
    assert_eq!(c.import_content_format, ImportContentFormat::SqlLite);
    assert_eq!(c.import_content_src, "./export/export.sqlite");
}

#[test]
fn each_refusal_has_its_message() {
    let cases = vec![
        (ConfigError::InvalidNumber { name: "A".to_string(), value: "v".to_string() }, "invalid A value: v"),
        (ConfigError::ZeroNumber { name: "A".to_string() }, "invalid A value: 0"),
        (ConfigError::InvalidPortArgument { name: "--export-port".to_string() }, "invalid --export-port value"),
        (
            ConfigError::InvalidFieldValue { name: "export-port".to_string(), value: "x".to_string() },
            "invalid export-port: x",
        ),
        (ConfigError::MissingValue { key: "--host".to_string() }, "missing value for --host"),
        (ConfigError::UnknownArgument { key: "--bad".to_string() }, "unknown argument: --bad"),
        (ConfigError::MissingRequired { what: "x".to_string() }, "missing required x"),
        (
            ConfigError::UnsupportedUnsetField { field: "flow".to_string() },
            "unsupported unset field: flow (allowed: export-condition,export-order-by,export-compress,export-recsize,export-page-no)",
        ),
    ];
    for (e, m) in cases {
        assert_eq!(e.message(), m);
    }
    let f = ConfigError::UnsupportedField { field: "zzz".to_string() }.message();
    assert!(f.starts_with("unsupported field: zzz (allowed: flow,db-type,host,"));
}
