use corn_dbio_kit::cli_args::{help_lines, parse_args, ParseOutcome};
use corn_dbio_kit::config::{
    default_tui_cli, CompressType, ConfigError, DbType, FlowMode, Lang, OutputFormat, RunMode,
};
use corn_dbio_kit::env::{apply_env_to_cli, env_non_empty};
use corn_dbio_kit::form::{
    apply_set_field, apply_unset_field, cli_snapshot_lines, cycle_field_option, field_options,
    form_field, form_field_count, get_field_value, set_field_value,
};

fn s(v: &str) -> String {
    v.to_string()
}

fn args(v: &[&str]) -> Vec<String> {
    v.iter().map(|x| x.to_string()).collect()
}

fn vars(v: &[(&str, &str)]) -> Vec<(String, String)> {
    v.iter().map(|(a, b)| (a.to_string(), b.to_string())).collect()
}

#[test]
fn environment_fills_the_configuration() {
    let mut cli = default_tui_cli();
    let env = vars(&[
        ("DB2SQL_HOST", " db1 "),
        ("DB2SQL_EXPORT_PORT", "1500"),
        ("DB2SQL_LANG", "EN"),
        ("DB2SQL_EXPORT_COMPRESS", "zip"),
        ("DB2SQL_IMPORT_DB_TYPE", "mysql"),
    ]);
    apply_env_to_cli(&mut cli, &env).unwrap();
    assert_eq!(cli.host, "db1");
    assert_eq!(cli.port, 1500);
    assert_eq!(cli.lang, Lang::En);
    assert_eq!(cli.compress, Some(CompressType::Zip));
    assert_eq!(cli.import_db_type, DbType::Mysql);
    assert_eq!(env_non_empty(&env, "DB2SQL_HOST"), Some(s("db1")));
    assert_eq!(env_non_empty(&env, "NOPE"), None);
}

#[test]
fn environment_errors_are_named_after_the_variable() {
    let mut cli = default_tui_cli();
    let e = apply_env_to_cli(&mut cli, &vars(&[("DB2SQL_EXPORT_PORT", "0")])).unwrap_err();
    assert_eq!(e.message(), "invalid DB2SQL_EXPORT_PORT value: 0");
    let e = apply_env_to_cli(&mut cli, &vars(&[("DB2SQL_EXPORT_PORT", "abc")])).unwrap_err();
    assert_eq!(e.message(), "invalid DB2SQL_EXPORT_PORT value: abc");
}

#[test]
fn options_override_the_environment() {
    let env = vars(&[("DB2SQL_EXPORT_HOST", "envhost")]);
    let r = parse_args(
        &args(&["prog", "--host", "h", "--mode", "cli", "--db-name", "d", "--user", "u", "--password", "p"]),
        &env,
    )
    .unwrap();
    match r {
        ParseOutcome::Cli(c) => {
            assert_eq!(c.host, "h");
            assert_eq!(c.mode, RunMode::Cli);
            assert_eq!(c.db_name, "d");
        }
        ParseOutcome::Help => panic!("expected a configuration"),
    }
    let r = parse_args(&args(&["prog"]), &env).unwrap();
    match r {
        ParseOutcome::Cli(c) => assert_eq!(c.host, "envhost"),
        ParseOutcome::Help => panic!("expected a configuration"),
    }
}

#[test]
fn help_and_argument_errors() {
    assert!(matches!(parse_args(&args(&["prog", "-h"]), &vec![]).unwrap(), ParseOutcome::Help));
    assert!(matches!(
        parse_args(&args(&["prog", "--output-format", "csv", "--help"]), &vec![]).unwrap(),
        ParseOutcome::Help
    ));
    let e = parse_args(&args(&["prog", "--bogus", "1"]), &vec![]).unwrap_err();
    assert_eq!(e.message(), "unknown argument: --bogus");
    let e = parse_args(&args(&["prog", "--host"]), &vec![]).unwrap_err();
    assert_eq!(e.message(), "missing value for --host");
    let e = parse_args(&args(&["prog", "--export-port", "x"]), &vec![]).unwrap_err();
    assert_eq!(e.message(), "invalid --export-port value");
    let e = parse_args(&args(&["prog", "--export-port", "0"]), &vec![]).unwrap_err();
    assert_eq!(e.message(), "invalid --export-port value: 0");
    let e = parse_args(&args(&["prog", "--mode", "cli"]), &vec![]).unwrap_err();
    assert_eq!(e.message(), "missing required --export-db-name (or DB2SQL_EXPORT_DB_NAME)");
    let e = parse_args(&args(&["prog", "--mode", "cli", "--flow", "import", "--import-db-name", "x"]), &vec![])
        .unwrap_err();
    assert_eq!(e.message(), "missing required --import-host (or DB2SQL_IMPORT_HOST)");
    let ok = parse_args(
        &args(&["prog", "--mode", "cli", "--db-type", "sqlite", "--db-name", "a.db"]),
        &vec![],
    )
    .unwrap();
    assert!(matches!(ok, ParseOutcome::Cli(_)));
}

#[test]
fn help_text_names_the_program() {
    let h = help_lines("corn");
    assert_eq!(h[0], "corn-dbio-kit - export table data to SQL INSERT scripts");
    assert_eq!(h.len(), 45);
    assert!(h[3].starts_with("  corn --db-type <mssql|oracle|mysql|postgresql|sql-lite>"));
    assert!(h[44].starts_with("  corn --mode cli --flow export"));
}

#[test]
fn form_fields_and_values() {
    assert_eq!(form_field(0), "flow");
    assert_eq!(form_field(25), "import-db-name");
    let mut cli = default_tui_cli();
    apply_set_field(&mut cli, "export-output-format", "md").unwrap();
    assert_eq!(cli.output_format, OutputFormat::Md);
    assert_eq!(get_field_value(&cli, "export-output-format"), "md");
    apply_set_field(&mut cli, "export-recsize", "500").unwrap();
    assert_eq!(get_field_value(&cli, "export-recsize"), "500");
    apply_unset_field(&mut cli, "export-recsize").unwrap();
    assert_eq!(get_field_value(&cli, "export-recsize"), "");
    assert_eq!(get_field_value(&cli, "export-compress"), "none");
    assert_eq!(get_field_value(&cli, "nope"), "");
}

#[test]
fn form_refusals_leave_the_configuration() {
    let mut cli = default_tui_cli();
    let e = apply_set_field(&mut cli, "export-port", "0").unwrap_err();
    assert_eq!(e.message(), "invalid export-port: 0");
    let e = apply_set_field(&mut cli, "export-port", "99999").unwrap_err();
    assert_eq!(e.message(), "invalid export-port: 99999");
    assert_eq!(cli.port, 1433);
    assert!(matches!(apply_set_field(&mut cli, "bogus", "cli").unwrap_err(), ConfigError::UnsupportedField { .. }));
    assert!(matches!(apply_set_field(&mut cli, "mode", "both").unwrap_err(), ConfigError::UnsupportedMode { .. }));
    assert_eq!(cli.mode, RunMode::Tui);
    assert!(matches!(
        apply_unset_field(&mut cli, "export-host").unwrap_err(),
        ConfigError::UnsupportedUnsetField { .. }
    ));
    let e = apply_set_field(&mut cli, "export-hide-primary-key", "maybe").unwrap_err();
    assert_eq!(e.message(), "invalid export-hide-primary-key value: maybe (allowed: true|false)");
}

#[test]
fn writing_blank_or_none_clears() {
    let mut cli = default_tui_cli();
    set_field_value(&mut cli, "export-compress", "tar").unwrap();
    assert_eq!(cli.compress, Some(CompressType::Tar));
    set_field_value(&mut cli, "export-compress", "none").unwrap();
    assert_eq!(cli.compress, None);
    set_field_value(&mut cli, "export-condition", "a=1").unwrap();
    assert_eq!(cli.condition, Some(s("a=1")));
    set_field_value(&mut cli, "export-condition", "   ").unwrap();
    assert_eq!(cli.condition, None);
}

#[test]
fn every_offered_option_reads_back() {
    for field in [
        "flow",
        "mode",
        "lang",
        "export-db-type",
        "export-hide-primary-key",
        "export-output-format",
        "export-compress",
        "export-delete-after-compress",
        "import-db-type",
    ] {
        for opt in field_options(field).unwrap() {
            let mut cli = default_tui_cli();
            set_field_value(&mut cli, field, opt).unwrap();
            assert_eq!(get_field_value(&cli, field), opt);
        }
    }
    assert_eq!(field_options("export-host"), None);
}

#[test]
fn cycling_forward_then_back_restores() {
    for field in ["flow", "lang", "export-db-type", "export-output-format", "export-compress", "import-db-type"] {
        let mut cli = default_tui_cli();
        let before = get_field_value(&cli, field);
        assert_eq!(cycle_field_option(&mut cli, field, 1).unwrap(), true);
        assert_ne!(get_field_value(&cli, field), before);
        assert_eq!(cycle_field_option(&mut cli, field, -1).unwrap(), true);
        assert_eq!(get_field_value(&cli, field), before);
    }
    let mut cli = default_tui_cli();
    cycle_field_option(&mut cli, "export-compress", -1).unwrap();
    assert_eq!(cli.compress, Some(CompressType::Tar));
    assert_eq!(cycle_field_option(&mut cli, "export-host", 1).unwrap(), false);
    assert_eq!(cycle_field_option(&mut cli, "mode", 1).unwrap(), true);
    assert_eq!(cli.mode, RunMode::Cli);
    assert_eq!(cycle_field_option(&mut cli, "mode", 1).unwrap(), true);
    assert_eq!(cli.mode, RunMode::Tui);
}

#[test]
fn the_last_write_wins() {
    let mut a = default_tui_cli();
    set_field_value(&mut a, "export-host", "first").unwrap();
    set_field_value(&mut a, "export-host", "second").unwrap();
    let mut b = default_tui_cli();
    set_field_value(&mut b, "export-host", "second").unwrap();
    assert_eq!(a.host, b.host);
    assert_eq!(a.host, "second");
}

#[test]
fn schema_flows_show_as_their_data_flow() {
    let mut cli = default_tui_cli();
    cli.flow = FlowMode::ExportSchema;
    assert_eq!(get_field_value(&cli, "flow"), "export");
}

#[test]
fn snapshot_lists_every_field_but_the_export_password() {
    let mut cli = default_tui_cli();
    cli.password = s("secret");
    cli.compress = Some(CompressType::Bzip);
    let lines = cli_snapshot_lines(&cli);
    assert_eq!(lines.len(), 25);
    assert_eq!(lines[0], "flow=export");
    assert_eq!(lines[1], "mode=Tui");
    assert_eq!(lines[3], "export-db-type=Mssql");
    assert_eq!(lines[13], "export-compress=Bzip");
    assert!(lines.iter().all(|l| !l.contains("secret")));
}

#[test]
fn the_form_lists_its_fields_in_order() {
    assert_eq!(form_field_count(), 26);
    assert_eq!(form_field(0), "flow");
    assert_eq!(form_field(form_field_count() - 1), "import-db-name");
}

#[test]
fn documented_defaults_and_flags() {
    let out = parse_args(&args(&["corn-dbio-kit"]), &vars(&[])).unwrap();
    let c = match out {
        ParseOutcome::Cli(c) => c,
        ParseOutcome::Help => panic!("no help asked"),
    };
    assert_eq!(c.lang, Lang::En);
    assert_eq!(c.db_type, DbType::Mssql);
    assert_eq!(c.output_format, OutputFormat::Sql);
    assert_eq!(c.output_directory, "./export");
    assert_eq!(c.page_size, 10000);
    let out = parse_args(
        &args(&["corn-dbio-kit", "--tui", "--import", "--output-dir", "./out"]),
        &vars(&[]),
    )
    .unwrap();
    match out {
        ParseOutcome::Cli(c) => {
            assert_eq!(c.mode, RunMode::Tui);
            assert_eq!(c.flow, FlowMode::Import);
            assert_eq!(c.output_directory, "./out");
        }
        ParseOutcome::Help => panic!("no help asked"),
    }
}

#[test]
fn short_field_names_in_the_form() {
    let mut cli = default_tui_cli();
    apply_set_field(&mut cli, "output-format", "md").unwrap();
    assert_eq!(cli.output_format, OutputFormat::Md);
    apply_set_field(&mut cli, "condition", "a=1").unwrap();
    assert_eq!(cli.condition, Some(s("a=1")));
    apply_unset_field(&mut cli, "condition").unwrap();
    assert_eq!(cli.condition, None);
    assert!(apply_set_field(&mut cli, "nope", "x").is_err());
}

#[test]
fn plain_environment_names_are_read() {
    let mut cli = default_tui_cli();
    let env = vars(&[
        ("DB_HOST", "localhost"),
        ("DB_PORT", "1444"),
        ("DB_USER", "sa"),
        ("DB_NAME", "mydb"),
        ("DB_TYPE", "mysql"),
        ("OUTPUT_FORMAT", "csv"),
        ("OUTPUT_DIR", "./out"),
    ]);
    apply_env_to_cli(&mut cli, &env).unwrap();
    assert_eq!(cli.host, "localhost");
    assert_eq!(cli.port, 1444);
    assert_eq!(cli.user, "sa");
    assert_eq!(cli.db_name, "mydb");
    assert_eq!(cli.db_type, DbType::Mysql);
    assert_eq!(cli.output_format, OutputFormat::Csv);
    assert_eq!(cli.output_directory, "./out");
    let mut cli = default_tui_cli();
    let env = vars(&[("DB_HOST", "plain"), ("DB2SQL_EXPORT_HOST", "own")]);
    apply_env_to_cli(&mut cli, &env).unwrap();
    assert_eq!(cli.host, "own");
}

#[test]
fn the_shown_value_is_always_an_offered_option() {
    let mut cli = default_tui_cli();
    cli.flow = FlowMode::ImportSchema;
    cli.mode = RunMode::Cli;
    cli.compress = None;
    cli.output_format = OutputFormat::Excel;
    cli.import_db_type = DbType::SqlLite;
    for i in 0..form_field_count() {
        let field = form_field(i);
        if let Some(opts) = field_options(field) {
            let shown = get_field_value(&cli, field);
            assert!(opts.iter().any(|o| *o == shown), "{field} shows {shown}");
        }
    }
    assert_eq!(get_field_value(&cli, "flow"), "import");
    assert_eq!(get_field_value(&cli, "export-compress"), "none");
}

#[test]
fn an_option_given_again_takes_its_later_value() {
    let r = parse_args(
        &args(&[
            "prog", "--export-host", "first", "--tui", "--user", "u", "--host", "second", "--port",
            "1500",
        ]),
        &vec![],
    )
    .unwrap();
    match r {
        ParseOutcome::Cli(c) => {
            assert_eq!(c.host, "second");
            assert_eq!(c.user, "u");
            assert_eq!(c.port, 1500);
            assert_eq!(c.mode, RunMode::Tui);
        }
        ParseOutcome::Help => panic!("expected a configuration"),
    }
    assert!(matches!(
        parse_args(&args(&["prog", "--port", "0", "--port", "5"]), &vec![]),
        Err(ConfigError::ZeroNumber { .. })
    ));
}

#[test]
fn a_yes_or_no_option_alone_means_true() {
    let r = parse_args(
        &args(&["prog", "--hide-primary-key", "--compress", "zip", "--delete-after-compress"]),
        &vec![],
    )
    .unwrap();
    match r {
        ParseOutcome::Cli(c) => {
            assert!(c.hide_primary_key);
            assert!(c.delete_after_compress);
            assert_eq!(c.compress, Some(CompressType::Zip));
        }
        ParseOutcome::Help => panic!("expected a configuration"),
    }
    let r = parse_args(&args(&["prog", "--hide-primary-key", "false"]), &vec![]).unwrap();
    match r {
        ParseOutcome::Cli(c) => assert!(!c.hide_primary_key),
        ParseOutcome::Help => panic!("expected a configuration"),
    }
    assert!(matches!(
        parse_args(&args(&["prog", "--host"]), &vec![]),
        Err(ConfigError::MissingValue { .. })
    ));
}

#[test]
fn the_form_and_the_set_command_agree_on_names() {
    let mut a = default_tui_cli();
    let mut b = default_tui_cli();
    set_field_value(&mut a, "output-format", "md").unwrap();
    apply_set_field(&mut b, "output-format", "md").unwrap();
    assert_eq!(a.output_format, OutputFormat::Md);
    assert_eq!(b.output_format, OutputFormat::Md);
    set_field_value(&mut a, "host", "db1").unwrap();
    assert_eq!(a.host, "db1");
    set_field_value(&mut a, "mode", "cli").unwrap();
    assert_eq!(a.mode, RunMode::Cli);
}

#[test]
fn typed_text_reads_back() {
    let mut cli = default_tui_cli();
    for field in ["export-host", "export-user", "export-objects", "import-db-name"] {
        set_field_value(&mut cli, field, " spaced value ").unwrap();
        assert_eq!(get_field_value(&cli, field), " spaced value ");
    }
    set_field_value(&mut cli, "export-condition", "id > 1").unwrap();
    assert_eq!(get_field_value(&cli, "export-condition"), "id > 1");
    set_field_value(&mut cli, "export-order-by", "id desc").unwrap();
    assert_eq!(get_field_value(&cli, "export-order-by"), "id desc");
}
