//! The command line: the environment gives the starting values, options
//! override them one by one, and a command-line run checks that its
//! connection fields are there.
use vstd::prelude::*;
use crate::config::{
    default_cli_view, default_tui_cli, Cli, CliView, ConfigErr, ConfigError, DbType, FlowMode,
    RunMode,
};
use crate::env::{apply_env_to_cli, env_apply, env_view, EnvView};
use crate::settings::{apply_setting, apply_setting_spec, Naming, Setting};
use crate::text::{chars_of, is_blank, push_str, str_eq, to_owned, trim_seq, views};

verus! {

/// What the command line asks for: a run with this configuration, or the
/// help text.
#[derive(Debug)]
pub enum ParseOutcome {
    Cli(Cli),
    Help,
}

/// The spec-level outcome of reading the command line.
pub enum ArgOutcome {
    Done(CliView),
    Help,
    Fail(ConfigErr),
}

pub open spec fn outcome_view(r: Result<ParseOutcome, ConfigError>) -> ArgOutcome {
    match r {
        Ok(ParseOutcome::Cli(c)) => ArgOutcome::Done(c@),
        Ok(ParseOutcome::Help) => ArgOutcome::Help,
        Err(e) => ArgOutcome::Fail(e@),
    }
}

/// The field an option sets, by its long name or its short alias.
pub open spec fn arg_setting(key: Seq<char>) -> Option<Setting> {
    if key == "--flow"@ {
        Some(Setting::Flow)
    } else if key == "--mode"@ {
        Some(Setting::Mode)
    } else if key == "--lang"@ {
        Some(Setting::Lang)
    } else if key == "--export-db-type"@ || key == "--db-type"@ {
        Some(Setting::DbType)
    } else if key == "--export-host"@ || key == "--host"@ {
        Some(Setting::Host)
    } else if key == "--export-port"@ || key == "--port"@ {
        Some(Setting::Port)
    } else if key == "--export-user"@ || key == "--user"@ {
        Some(Setting::User)
    } else if key == "--export-password"@ || key == "--password"@ {
        Some(Setting::Password)
    } else if key == "--export-db-name"@ || key == "--db-name"@ {
        Some(Setting::DbName)
    } else if key == "--export-objects"@ || key == "--export-tables"@ || key == "--objects"@
        || key == "--tables"@ {
        Some(Setting::Objects)
    } else if key == "--export-condition"@ || key == "--condition"@ {
        Some(Setting::Condition)
    } else if key == "--export-order-by"@ || key == "--order-by"@ {
        Some(Setting::OrderBy)
    } else if key == "--export-hide-primary-key"@ || key == "--hide-primary-key"@ {
        Some(Setting::HidePrimaryKey)
    } else if key == "--export-output-format"@ || key == "--output-format"@ {
        Some(Setting::OutputFormat)
    } else if key == "--export-compress"@ || key == "--compress"@ {
        Some(Setting::Compress)
    } else if key == "--export-delete-after-compress"@ || key == "--delete-after-compress"@ {
        Some(Setting::DeleteAfterCompress)
    } else if key == "--export-output-directory"@ || key == "--output-directory"@ || key
        == "--output-dir"@ {
        Some(Setting::OutputDirectory)
    } else if key == "--export-recsize"@ || key == "--recsize"@ {
        Some(Setting::Recsize)
    } else if key == "--export-page-size"@ || key == "--page-size"@ {
        Some(Setting::PageSize)
    } else if key == "--export-page-no"@ || key == "--page-no"@ {
        Some(Setting::PageNo)
    } else if key == "--import-host"@ {
        Some(Setting::ImportHost)
    } else if key == "--import-port"@ {
        Some(Setting::ImportPort)
    } else if key == "--import-db-type"@ {
        Some(Setting::ImportDbType)
    } else if key == "--import-user"@ {
        Some(Setting::ImportUser)
    } else if key == "--import-password"@ {
        Some(Setting::ImportPassword)
    } else if key == "--import-db-name"@ {
        Some(Setting::ImportDbName)
    } else {
        None
    }
}

pub fn arg_setting_of(key: &str) -> (r: Option<Setting>)
    ensures
        r == arg_setting(key@),
{
    if str_eq(key, "--flow") {
        Some(Setting::Flow)
    } else if str_eq(key, "--mode") {
        Some(Setting::Mode)
    } else if str_eq(key, "--lang") {
        Some(Setting::Lang)
    } else if str_eq(key, "--export-db-type") || str_eq(key, "--db-type") {
        Some(Setting::DbType)
    } else if str_eq(key, "--export-host") || str_eq(key, "--host") {
        Some(Setting::Host)
    } else if str_eq(key, "--export-port") || str_eq(key, "--port") {
        Some(Setting::Port)
    } else if str_eq(key, "--export-user") || str_eq(key, "--user") {
        Some(Setting::User)
    } else if str_eq(key, "--export-password") || str_eq(key, "--password") {
        Some(Setting::Password)
    } else if str_eq(key, "--export-db-name") || str_eq(key, "--db-name") {
        Some(Setting::DbName)
    } else if str_eq(key, "--export-objects") || str_eq(key, "--export-tables") || str_eq(
        key,
        "--objects",
    ) || str_eq(key, "--tables") {
        Some(Setting::Objects)
    } else if str_eq(key, "--export-condition") || str_eq(key, "--condition") {
        Some(Setting::Condition)
    } else if str_eq(key, "--export-order-by") || str_eq(key, "--order-by") {
        Some(Setting::OrderBy)
    } else if str_eq(key, "--export-hide-primary-key") || str_eq(key, "--hide-primary-key") {
        Some(Setting::HidePrimaryKey)
    } else if str_eq(key, "--export-output-format") || str_eq(key, "--output-format") {
        Some(Setting::OutputFormat)
    } else if str_eq(key, "--export-compress") || str_eq(key, "--compress") {
        Some(Setting::Compress)
    } else if str_eq(key, "--export-delete-after-compress") || str_eq(
        key,
        "--delete-after-compress",
    ) {
        Some(Setting::DeleteAfterCompress)
    } else if str_eq(key, "--export-output-directory") || str_eq(key, "--output-directory")
        || str_eq(key, "--output-dir") {
        Some(Setting::OutputDirectory)
    } else if str_eq(key, "--export-recsize") || str_eq(key, "--recsize") {
        Some(Setting::Recsize)
    } else if str_eq(key, "--export-page-size") || str_eq(key, "--page-size") {
        Some(Setting::PageSize)
    } else if str_eq(key, "--export-page-no") || str_eq(key, "--page-no") {
        Some(Setting::PageNo)
    } else if str_eq(key, "--import-host") {
        Some(Setting::ImportHost)
    } else if str_eq(key, "--import-port") {
        Some(Setting::ImportPort)
    } else if str_eq(key, "--import-db-type") {
        Some(Setting::ImportDbType)
    } else if str_eq(key, "--import-user") {
        Some(Setting::ImportUser)
    } else if str_eq(key, "--import-password") {
        Some(Setting::ImportPassword)
    } else if str_eq(key, "--import-db-name") {
        Some(Setting::ImportDbName)
    } else {
        None
    }
}

/// An argument that names an option: it starts with `--`.
pub open spec fn is_option_name(a: Seq<char>) -> bool {
    a.len() >= 2 && a[0] == '-' && a[1] == '-'
}

/// A yes-or-no option given without a value (last, or followed by another
/// option), as in `--delete-after-compress` alone: it means `true`.
pub open spec fn bare_switch(args: Seq<Seq<char>>, i: nat, s: Setting) -> bool {
    &&& (s == Setting::HidePrimaryKey || s == Setting::DeleteAfterCompress)
    &&& (i + 1 >= args.len() || is_option_name(args[i + 1 as int]))
}

/// The configuration with the yes-or-no field of `s` switched on.
pub open spec fn switched_on(s: Setting, c: CliView) -> CliView {
    if s == Setting::HidePrimaryKey {
        CliView { hide_primary_key: true, ..c }
    } else {
        CliView { delete_after_compress: true, ..c }
    }
}

fn is_option_name_text(a: &str) -> (r: bool)
    ensures
        r == is_option_name(a@),
{
    let v = chars_of(a);
    v.len() >= 2 && v[0] == '-' && v[1] == '-'
}

/// Reading the options from position `i` on: `--help` or `-h` asks for the
/// help text; `--tui` chooses the interactive mode and `--import` the import
/// flow; a yes-or-no option without a value means `true`; every other
/// option takes the next argument as its value.
pub open spec fn args_loop(c: CliView, args: Seq<Seq<char>>, i: nat) -> ArgOutcome
    decreases args.len() - i,
{
    if i >= args.len() {
        ArgOutcome::Done(c)
    } else {
        let key = args[i as int];
        if key == "--help"@ || key == "-h"@ {
            ArgOutcome::Help
        } else if key == "--tui"@ {
            args_loop(CliView { mode: RunMode::Tui, ..c }, args, i + 1)
        } else if key == "--import"@ {
            args_loop(CliView { flow: FlowMode::Import, ..c }, args, i + 1)
        } else {
            match arg_setting(key) {
                None => ArgOutcome::Fail(ConfigErr::UnknownArgument(key)),
                Some(s) => if bare_switch(args, i, s) {
                    args_loop(switched_on(s, c), args, i + 1)
                } else if i + 1 >= args.len() {
                    ArgOutcome::Fail(ConfigErr::MissingValue(key))
                } else {
                    match apply_setting_spec(s, Naming::Argument, c, args[i + 1 as int]) {
                        Ok(next) => args_loop(next, args, i + 2),
                        Err(e) => ArgOutcome::Fail(e),
                    }
                },
            }
        }
    }
}

/// A command-line run needs the connection fields of its flow; a SQLite
/// database needs only its file name.
pub open spec fn required_check(c: CliView) -> Option<ConfigErr> {
    if c.mode != RunMode::Cli {
        None
    } else {
        match c.flow {
            FlowMode::Export => if trim_seq(c.db_name).len() == 0 {
                Some(ConfigErr::MissingRequired("--export-db-name (or DB2SQL_EXPORT_DB_NAME)"@))
            } else if c.db_type != DbType::SqlLite && trim_seq(c.host).len() == 0 {
                Some(ConfigErr::MissingRequired("--export-host (or DB2SQL_EXPORT_HOST)"@))
            } else if c.db_type != DbType::SqlLite && trim_seq(c.user).len() == 0 {
                Some(ConfigErr::MissingRequired("--export-user (or DB2SQL_EXPORT_USER)"@))
            } else if c.db_type != DbType::SqlLite && trim_seq(c.password).len() == 0 {
                Some(ConfigErr::MissingRequired("--export-password (or DB2SQL_EXPORT_PASSWORD)"@))
            } else {
                None
            },
            FlowMode::Import => if trim_seq(c.import_db_name).len() == 0 {
                Some(ConfigErr::MissingRequired("--import-db-name (or DB2SQL_IMPORT_DB_NAME)"@))
            } else if c.import_db_type != DbType::SqlLite && trim_seq(c.import_host).len() == 0 {
                Some(ConfigErr::MissingRequired("--import-host (or DB2SQL_IMPORT_HOST)"@))
            } else if c.import_db_type != DbType::SqlLite && trim_seq(c.import_user).len() == 0 {
                Some(ConfigErr::MissingRequired("--import-user (or DB2SQL_IMPORT_USER)"@))
            } else if c.import_db_type != DbType::SqlLite && trim_seq(c.import_password).len()
                == 0 {
                Some(ConfigErr::MissingRequired("--import-password (or DB2SQL_IMPORT_PASSWORD)"@))
            } else {
                None
            },
            _ => None,
        }
    }
}

/// The whole reading: the environment over the defaults, then (when there are
/// options after the program name) the options and the required-field check.
pub open spec fn parse_args_spec(args: Seq<Seq<char>>, vars: EnvView) -> ArgOutcome {
    let (base, err) = env_apply(default_cli_view(), vars);
    if err is Some {
        ArgOutcome::Fail(err->0)
    } else if args.len() <= 1 {
        ArgOutcome::Done(base)
    } else {
        match args_loop(base, args, 1) {
            ArgOutcome::Done(c) => match required_check(c) {
                Some(e) => ArgOutcome::Fail(e),
                None => ArgOutcome::Done(c),
            },
            other => other,
        }
    }
}

fn missing(what: &str) -> (r: Result<(), ConfigError>)
    ensures
        r matches Err(e) && e@ == ConfigErr::MissingRequired(what@),
{
    Err(ConfigError::MissingRequired { what: to_owned(what) })
}

fn check_required(cli: &Cli) -> (r: Result<(), ConfigError>)
    ensures
        r is Ok <==> required_check(cli@) is None,
        r matches Err(e) ==> required_check(cli@) == Some(e@),
{
    if cli.mode != RunMode::Cli {
        return Ok(());
    }
    match cli.flow {
        FlowMode::Export => {
            if is_blank(cli.db_name.as_str()) {
                return missing("--export-db-name (or DB2SQL_EXPORT_DB_NAME)");
            }
            if cli.db_type != DbType::SqlLite {
                if is_blank(cli.host.as_str()) {
                    return missing("--export-host (or DB2SQL_EXPORT_HOST)");
                }
                if is_blank(cli.user.as_str()) {
                    return missing("--export-user (or DB2SQL_EXPORT_USER)");
                }
                if is_blank(cli.password.as_str()) {
                    return missing("--export-password (or DB2SQL_EXPORT_PASSWORD)");
                }
            }
            Ok(())
        },
        FlowMode::Import => {
            if is_blank(cli.import_db_name.as_str()) {
                return missing("--import-db-name (or DB2SQL_IMPORT_DB_NAME)");
            }
            if cli.import_db_type != DbType::SqlLite {
                if is_blank(cli.import_host.as_str()) {
                    return missing("--import-host (or DB2SQL_IMPORT_HOST)");
                }
                if is_blank(cli.import_user.as_str()) {
                    return missing("--import-user (or DB2SQL_IMPORT_USER)");
                }
                if is_blank(cli.import_password.as_str()) {
                    return missing("--import-password (or DB2SQL_IMPORT_PASSWORD)");
                }
            }
            Ok(())
        },
        _ => Ok(()),
    }
}

/// Reads the configuration from the program's arguments (`args[0]` is the
/// program name) over the environment variables `vars`.
pub fn parse_args(args: &Vec<String>, vars: &Vec<(String, String)>) -> (r: Result<
    ParseOutcome,
    ConfigError,
>)
    ensures
        outcome_view(r) == parse_args_spec(views(args@), env_view(vars@)),
{
    let mut cli = default_tui_cli();
    apply_env_to_cli(&mut cli, vars)?;
    if args.len() <= 1 {
        return Ok(ParseOutcome::Cli(cli));
    }
    let ghost av = views(args@);
    let ghost base = cli@;
    let n = args.len();
    let mut i: usize = 1;
    while i < n
        invariant
            n == args@.len(),
            av == views(args@),
            n > 1,
            env_apply(default_cli_view(), env_view(vars@)) == (base, None::<ConfigErr>),
            1 <= i <= n,
            args_loop(base, av, 1) == args_loop(cli@, av, i as nat),
        decreases n - i,
    {
        let key = args[i].as_str();
        assert(av[i as int] == key@);
        if str_eq(key, "--help") || str_eq(key, "-h") {
            return Ok(ParseOutcome::Help);
        }
        if str_eq(key, "--tui") {
            cli.mode = RunMode::Tui;
            i = i + 1;
            continue;
        }
        if str_eq(key, "--import") {
            cli.flow = FlowMode::Import;
            i = i + 1;
            continue;
        }
        match arg_setting_of(key) {
            None => {
                return Err(ConfigError::UnknownArgument { key: to_owned(key) });
            },
            Some(s) => {
                let switch = match s {
                    Setting::HidePrimaryKey | Setting::DeleteAfterCompress => i + 1 >= n
                        || is_option_name_text(args[i + 1].as_str()),
                    _ => false,
                };
                if switch {
                    proof {
                        if i + 1 < n {
                            assert(av[i + 1] == args@[i + 1]@);
                        }
                    }
                    if let Setting::HidePrimaryKey = s {
                        cli.hide_primary_key = true;
                    } else {
                        cli.delete_after_compress = true;
                    }
                    i = i + 1;
                    continue;
                }
                if i + 1 >= n {
                    return Err(ConfigError::MissingValue { key: to_owned(key) });
                }
                assert(av[i + 1] == args@[i + 1]@);
                apply_setting(s, Naming::Argument, &mut cli, args[i + 1].as_str())?;
                i = i + 2;
            },
        }
    }
    check_required(&cli)?;
    Ok(ParseOutcome::Cli(cli))
}

/// The help text, line by line, for the program named `program`.
pub open spec fn help_text(program: Seq<char>) -> Seq<Seq<char>> {
    seq![
        "corn-dbio-kit - export table data to SQL INSERT scripts"@,
        ""@,
        "Usage:"@,
        "  "@ + program + " --db-type <mssql|oracle|mysql|postgresql|sql-lite> --host <host> --port <port> --user <user> --password <password> --db-name <db-name> [--objects <regex|@sql:file|@list:file>] [--condition <where-condition>] [--output-directory <dir>] [--recsize <n>] [--page-size <n>] [--page-no <n>]"@,
        ""@,
        "Arguments:"@,
        "  --flow              流程：export|import，預設 export"@,
        "  --export-db-type    匯出資料庫類型（必填，含 sql-lite）"@,
        "  --mode              執行模式：cli|tui，預設 tui"@,
        "  --lang              語系：tw|en|ja，預設 en（tw:繁中, en:美式英文, ja:日文）"@,
        "  --export-host       匯出 DB host（必填）"@,
        "  --export-port       匯出 DB port（必填）"@,
        "  --export-user       匯出 DB 帳號（必填）"@,
        "  --export-password   匯出 DB 密碼（必填）"@,
        "  --export-db-name    匯出 DB 名稱（必填；export-db-type=sql-lite 時為 sqlite 檔名）"@,
        "  --export-objects    選擇物件(table/view)；可為 regex，預設 .* "@,
        "                      @sql:<filename> 讀取 SQL 檔內容執行後匯出"@,
        "                      @list:<filename> 讀取 table/view 名稱清單"@,
        "  --export-condition  WHERE 條件，不需寫 WHERE 關鍵字"@,
        "  --export-order-by   排序條件，例如 \"SnId desc\" 或 \"SnId\""@,
        "  --export-hide-primary-key  true|false；true 時自增主鍵欄位輸出為 NULL"@,
        "  --export-output-format     輸出格式：sql|sql-lite|csv|excel|json|xml|md，預設 sql"@,
        "  --export-compress          壓縮格式：zip|bzip|tar"@,
        "  --export-delete-after-compress true|false；壓縮成功後是否刪除輸出目錄"@,
        "  --export-output-directory  輸出目錄，預設 ./export"@,
        "  --export-recsize           每個 table 最多輸出筆數"@,
        "  --export-page-size         每頁筆數，預設 10000"@,
        "  --export-page-no           指定輸出第幾頁；未指定則輸出全部頁"@,
        "  --import-host       匯入目標 host（flow=import 時使用）"@,
        "  --import-port       匯入目標 port（flow=import 時使用）"@,
        "  --import-db-type    匯入目標資料庫類型：mssql|oracle|mysql|postgresql|sql-lite"@,
        "  --import-user       匯入目標使用者（flow=import 時使用）"@,
        "  --import-password   匯入目標密碼（flow=import 時使用）"@,
        "  --import-db-name    匯入目標資料庫（flow=import 時使用）"@,
        ""@,
        "Ratatui Commands (--mode tui):"@,
        "  /set <field> <value>     設定參數，例如 /set output-format md"@,
        "  /unset <field>           清除可選參數（condition/order-by/compress/recsize/page-no）"@,
        "  /show                    顯示目前設定"@,
        "  /run                     執行匯出"@,
        "  /help                    顯示指令說明"@,
        "  /quit                    離開 TUI"@,
        ""@,
        "Example:"@,
        "  "@ + program + " --mode cli --flow export --export-db-type mssql --export-host 192.168.0.25 --export-port 1433 --export-user TRC201 --export-password 'syscom#1' --export-db-name TRC_RData --export-objects '^TRM_.*' --export-condition \"SnId>0\" --export-order-by \"SnId desc\" --export-hide-primary-key true --export-output-format sql --export-compress zip --export-delete-after-compress false --export-page-size 10000"@,
    ]
}

fn with_program(before: &str, program: &str, after: &str) -> (r: String)
    ensures
        r@ == before@ + program@ + after@,
{
    let mut s = to_owned(before);
    push_str(&mut s, program);
    push_str(&mut s, after);
    s
}

/// The help text's lines (`--help`, or after an error in the arguments).
pub fn help_lines(program: &str) -> (r: Vec<String>)
    ensures
        views(r@) == help_text(program@),
{
    let mut out: Vec<String> = Vec::new();
    out.push(to_owned("corn-dbio-kit - export table data to SQL INSERT scripts"));
    out.push(to_owned(""));
    out.push(to_owned("Usage:"));
    out.push(with_program("  ", program, " --db-type <mssql|oracle|mysql|postgresql|sql-lite> --host <host> --port <port> --user <user> --password <password> --db-name <db-name> [--objects <regex|@sql:file|@list:file>] [--condition <where-condition>] [--output-directory <dir>] [--recsize <n>] [--page-size <n>] [--page-no <n>]"));
    out.push(to_owned(""));
    out.push(to_owned("Arguments:"));
    out.push(to_owned("  --flow              流程：export|import，預設 export"));
    out.push(to_owned("  --export-db-type    匯出資料庫類型（必填，含 sql-lite）"));
    out.push(to_owned("  --mode              執行模式：cli|tui，預設 tui"));
    out.push(to_owned("  --lang              語系：tw|en|ja，預設 en（tw:繁中, en:美式英文, ja:日文）"));
    out.push(to_owned("  --export-host       匯出 DB host（必填）"));
    out.push(to_owned("  --export-port       匯出 DB port（必填）"));
    out.push(to_owned("  --export-user       匯出 DB 帳號（必填）"));
    out.push(to_owned("  --export-password   匯出 DB 密碼（必填）"));
    out.push(to_owned("  --export-db-name    匯出 DB 名稱（必填；export-db-type=sql-lite 時為 sqlite 檔名）"));
    out.push(to_owned("  --export-objects    選擇物件(table/view)；可為 regex，預設 .* "));
    out.push(to_owned("                      @sql:<filename> 讀取 SQL 檔內容執行後匯出"));
    out.push(to_owned("                      @list:<filename> 讀取 table/view 名稱清單"));
    out.push(to_owned("  --export-condition  WHERE 條件，不需寫 WHERE 關鍵字"));
    out.push(to_owned("  --export-order-by   排序條件，例如 \"SnId desc\" 或 \"SnId\""));
    out.push(to_owned("  --export-hide-primary-key  true|false；true 時自增主鍵欄位輸出為 NULL"));
    out.push(to_owned("  --export-output-format     輸出格式：sql|sql-lite|csv|excel|json|xml|md，預設 sql"));
    out.push(to_owned("  --export-compress          壓縮格式：zip|bzip|tar"));
    out.push(to_owned("  --export-delete-after-compress true|false；壓縮成功後是否刪除輸出目錄"));
    out.push(to_owned("  --export-output-directory  輸出目錄，預設 ./export"));
    out.push(to_owned("  --export-recsize           每個 table 最多輸出筆數"));
    out.push(to_owned("  --export-page-size         每頁筆數，預設 10000"));
    out.push(to_owned("  --export-page-no           指定輸出第幾頁；未指定則輸出全部頁"));
    out.push(to_owned("  --import-host       匯入目標 host（flow=import 時使用）"));
    out.push(to_owned("  --import-port       匯入目標 port（flow=import 時使用）"));
    out.push(to_owned("  --import-db-type    匯入目標資料庫類型：mssql|oracle|mysql|postgresql|sql-lite"));
    out.push(to_owned("  --import-user       匯入目標使用者（flow=import 時使用）"));
    out.push(to_owned("  --import-password   匯入目標密碼（flow=import 時使用）"));
    out.push(to_owned("  --import-db-name    匯入目標資料庫（flow=import 時使用）"));
    out.push(to_owned(""));
    out.push(to_owned("Ratatui Commands (--mode tui):"));
    out.push(to_owned("  /set <field> <value>     設定參數，例如 /set output-format md"));
    out.push(to_owned("  /unset <field>           清除可選參數（condition/order-by/compress/recsize/page-no）"));
    out.push(to_owned("  /show                    顯示目前設定"));
    out.push(to_owned("  /run                     執行匯出"));
    out.push(to_owned("  /help                    顯示指令說明"));
    out.push(to_owned("  /quit                    離開 TUI"));
    out.push(to_owned(""));
    out.push(to_owned("Example:"));
    out.push(with_program("  ", program, " --mode cli --flow export --export-db-type mssql --export-host 192.168.0.25 --export-port 1433 --export-user TRC201 --export-password 'syscom#1' --export-db-name TRC_RData --export-objects '^TRM_.*' --export-condition \"SnId>0\" --export-order-by \"SnId desc\" --export-hide-primary-key true --export-output-format sql --export-compress zip --export-delete-after-compress false --export-page-size 10000"));
    assert(views(out@) =~= help_text(program@));
    out
}

} // verus!
