//! Setting one configuration field from text, the way both the command line
//! and the interactive form do it. The two differ only in the names their
//! error messages quote.
use vstd::prelude::*;
use crate::config::{
    parse_bool_arg, parse_compress_type, parse_db_type, parse_flow_mode, parse_lang,
    parse_output_format, parse_positive_usize, parse_run_mode, spec_parse_bool,
    spec_parse_compress_type, spec_parse_db_type, spec_parse_flow_mode, spec_parse_lang,
    spec_parse_output_format, spec_parse_run_mode, Cli, CliView, ConfigErr, ConfigError,
};
use crate::text::{parse_u16, parse_u16_seq, parse_usize_seq, to_owned};

verus! {

/// A configuration field that can be set from text.
#[derive(Copy, Clone, Debug, PartialEq, Eq, Structural)]
pub enum Setting {
    Flow,
    Mode,
    Lang,
    DbType,
    Host,
    Port,
    User,
    Password,
    DbName,
    Objects,
    Condition,
    OrderBy,
    HidePrimaryKey,
    OutputFormat,
    Compress,
    DeleteAfterCompress,
    OutputDirectory,
    Recsize,
    PageSize,
    PageNo,
    ImportHost,
    ImportPort,
    ImportDbType,
    ImportUser,
    ImportPassword,
    ImportDbName,
}

/// Where a setting came from, which decides the names errors quote: the
/// command line quotes `--export-port`, the form `export-port`, the
/// environment `DB2SQL_EXPORT_PORT`.
#[derive(Copy, Clone, Debug, PartialEq, Eq, Structural)]
pub enum Naming {
    Argument,
    Form,
    Environment,
}

pub open spec fn named(naming: Naming, arg: Seq<char>, form: Seq<char>, env: Seq<char>) -> Seq<
    char,
> {
    match naming {
        Naming::Argument => arg,
        Naming::Form => form,
        Naming::Environment => env,
    }
}

pub fn pick_name(naming: Naming, arg: &'static str, form: &'static str, env: &'static str) -> (r:
    &'static str)
    ensures
        r@ == named(naming, arg@, form@, env@),
{
    match naming {
        Naming::Argument => arg,
        Naming::Form => form,
        Naming::Environment => env,
    }
}

/// A port read from text: a `u16` that is not 0.
pub open spec fn port_setting(naming: Naming, import: bool, v: Seq<char>) -> Result<
    u16,
    ConfigErr,
> {
    let form = if import {
        "import-port"@
    } else {
        "export-port"@
    };
    let arg = if import {
        "--import-port"@
    } else {
        "--export-port"@
    };
    let env = if import {
        "DB2SQL_IMPORT_PORT"@
    } else {
        "DB2SQL_EXPORT_PORT"@
    };
    match parse_u16_seq(v) {
        None => Err(
            match naming {
                Naming::Argument => ConfigErr::InvalidPortArgument(arg),
                Naming::Form => ConfigErr::InvalidFieldValue(form, v),
                Naming::Environment => ConfigErr::InvalidNumber(env, v),
            },
        ),
        Some(p) => if p == 0 {
            Err(
                match naming {
                    Naming::Argument => ConfigErr::ZeroNumber(arg),
                    Naming::Form => ConfigErr::InvalidFieldValue(form, "0"@),
                    Naming::Environment => ConfigErr::ZeroNumber(env),
                },
            )
        } else {
            Ok(p)
        },
    }
}

/// A positive count read from text.
pub open spec fn count_setting(name: Seq<char>, v: Seq<char>) -> Result<usize, ConfigErr> {
    match parse_usize_seq(v) {
        None => Err(ConfigErr::InvalidNumber(name, v)),
        Some(n) => if n == 0 {
            Err(ConfigErr::ZeroNumber(name))
        } else {
            Ok(n)
        },
    }
}

/// A boolean read from text.
pub open spec fn bool_setting(name: Seq<char>, v: Seq<char>) -> Result<bool, ConfigErr> {
    match spec_parse_bool(v) {
        Some(b) => Ok(b),
        None => Err(ConfigErr::InvalidBool(name, v)),
    }
}

/// The configuration after setting `s` to the text `v`, or the refusal.
pub open spec fn apply_setting_spec(s: Setting, naming: Naming, c: CliView, v: Seq<char>) -> Result<
    CliView,
    ConfigErr,
> {
    match s {
        Setting::Flow => match spec_parse_flow_mode(v) {
            Some(x) => Ok(CliView { flow: x, ..c }),
            None => Err(ConfigErr::UnsupportedFlow(v)),
        },
        Setting::Mode => match spec_parse_run_mode(v) {
            Some(x) => Ok(CliView { mode: x, ..c }),
            None => Err(ConfigErr::UnsupportedMode(v)),
        },
        Setting::Lang => match spec_parse_lang(v) {
            Some(x) => Ok(CliView { lang: x, ..c }),
            None => Err(ConfigErr::UnsupportedLang(v)),
        },
        Setting::DbType => match spec_parse_db_type(v) {
            Some(x) => Ok(CliView { db_type: x, ..c }),
            None => Err(ConfigErr::UnsupportedDbType(v)),
        },
        Setting::Host => Ok(CliView { host: v, ..c }),
        Setting::Port => match port_setting(naming, false, v) {
            Ok(p) => Ok(CliView { port: p, ..c }),
            Err(e) => Err(e),
        },
        Setting::User => Ok(CliView { user: v, ..c }),
        Setting::Password => Ok(CliView { password: v, ..c }),
        Setting::DbName => Ok(CliView { db_name: v, ..c }),
        Setting::Objects => Ok(CliView { objects: v, ..c }),
        Setting::Condition => Ok(CliView { condition: Some(v), ..c }),
        Setting::OrderBy => Ok(CliView { order_by: Some(v), ..c }),
        Setting::HidePrimaryKey => match bool_setting(
            named(naming, "--export-hide-primary-key"@,
                "export-hide-primary-key"@,
                "DB2SQL_EXPORT_HIDE_PRIMARY_KEY"@),
            v,
        ) {
            Ok(b) => Ok(CliView { hide_primary_key: b, ..c }),
            Err(e) => Err(e),
        },
        Setting::OutputFormat => match spec_parse_output_format(v) {
            Some(x) => Ok(CliView { output_format: x, ..c }),
            None => Err(ConfigErr::UnsupportedOutputFormat(v)),
        },
        Setting::Compress => match spec_parse_compress_type(v) {
            Some(x) => Ok(CliView { compress: Some(x), ..c }),
            None => Err(ConfigErr::UnsupportedCompress(v)),
        },
        Setting::DeleteAfterCompress => match bool_setting(
            named(naming, "--export-delete-after-compress"@,
                "export-delete-after-compress"@,
                "DB2SQL_EXPORT_DELETE_AFTER_COMPRESS"@),
            v,
        ) {
            Ok(b) => Ok(CliView { delete_after_compress: b, ..c }),
            Err(e) => Err(e),
        },
        Setting::OutputDirectory => Ok(CliView { output_directory: v, ..c }),
        Setting::Recsize => match count_setting(
            named(naming, "--export-recsize"@, "export-recsize"@, "DB2SQL_EXPORT_RECSIZE"@),
            v,
        ) {
            Ok(n) => Ok(CliView { recsize: Some(n), ..c }),
            Err(e) => Err(e),
        },
        Setting::PageSize => match count_setting(
            named(naming, "--export-page-size"@, "export-page-size"@, "DB2SQL_EXPORT_PAGE_SIZE"@),
            v,
        ) {
            Ok(n) => Ok(CliView { page_size: n, ..c }),
            Err(e) => Err(e),
        },
        Setting::PageNo => match count_setting(
            named(naming, "--export-page-no"@, "export-page-no"@, "DB2SQL_EXPORT_PAGE_NO"@),
            v,
        ) {
            Ok(n) => Ok(CliView { page_no: Some(n), ..c }),
            Err(e) => Err(e),
        },
        Setting::ImportHost => Ok(CliView { import_host: v, ..c }),
        Setting::ImportPort => match port_setting(naming, true, v) {
            Ok(p) => Ok(CliView { import_port: p, ..c }),
            Err(e) => Err(e),
        },
        Setting::ImportDbType => match spec_parse_db_type(v) {
            Some(x) => Ok(CliView { import_db_type: x, ..c }),
            None => Err(ConfigErr::UnsupportedDbType(v)),
        },
        Setting::ImportUser => Ok(CliView { import_user: v, ..c }),
        Setting::ImportPassword => Ok(CliView { import_password: v, ..c }),
        Setting::ImportDbName => Ok(CliView { import_db_name: v, ..c }),
    }
}

fn read_port(naming: Naming, import: bool, value: &str) -> (r: Result<u16, ConfigError>)
    ensures
        r is Ok <==> port_setting(naming, import, value@) is Ok,
        r matches Ok(p) ==> port_setting(naming, import, value@) == Ok::<u16, ConfigErr>(p),
        r matches Err(e) ==> port_setting(naming, import, value@) == Err::<u16, ConfigErr>(e@),
{
    let form = if import {
        "import-port"
    } else {
        "export-port"
    };
    let arg = if import {
        "--import-port"
    } else {
        "--export-port"
    };
    let env = if import {
        "DB2SQL_IMPORT_PORT"
    } else {
        "DB2SQL_EXPORT_PORT"
    };
    match parse_u16(value) {
        None => match naming {
            Naming::Argument => Err(ConfigError::InvalidPortArgument { name: to_owned(arg) }),
            Naming::Form => Err(
                ConfigError::InvalidFieldValue { name: to_owned(form), value: to_owned(value) },
            ),
            Naming::Environment => Err(
                ConfigError::InvalidNumber { name: to_owned(env), value: to_owned(value) },
            ),
        },
        Some(p) => {
            if p == 0 {
                match naming {
                    Naming::Argument => Err(ConfigError::ZeroNumber { name: to_owned(arg) }),
                    Naming::Form => Err(
                        ConfigError::InvalidFieldValue {
                            name: to_owned(form),
                            value: to_owned("0"),
                        },
                    ),
                    Naming::Environment => Err(ConfigError::ZeroNumber { name: to_owned(env) }),
                }
            } else {
                Ok(p)
            }
        },
    }
}

/// Sets field `s` of `cli` from the text `value`. On a refusal nothing
/// changes.
pub fn apply_setting(s: Setting, naming: Naming, cli: &mut Cli, value: &str) -> (r: Result<
    (),
    ConfigError,
>)
    ensures
        r is Ok <==> apply_setting_spec(s, naming, old(cli)@, value@) is Ok,
        r is Ok ==> apply_setting_spec(s, naming, old(cli)@, value@) == Ok::<CliView, ConfigErr>(
            final(cli)@,
        ),
        r matches Err(e) ==> apply_setting_spec(s, naming, old(cli)@, value@) == Err::<
            CliView,
            ConfigErr,
        >(e@),
        r is Err ==> final(cli)@ == old(cli)@,
{
    match s {
        Setting::Flow => {
            let x = parse_flow_mode(value)?;
            cli.flow = x;
        },
        Setting::Mode => {
            let x = parse_run_mode(value)?;
            cli.mode = x;
        },
        Setting::Lang => {
            let x = parse_lang(value)?;
            cli.lang = x;
        },
        Setting::DbType => {
            let x = parse_db_type(value)?;
            cli.db_type = x;
        },
        Setting::Host => {
            cli.host = to_owned(value);
        },
        Setting::Port => {
            let p = read_port(naming, false, value)?;
            cli.port = p;
        },
        Setting::User => {
            cli.user = to_owned(value);
        },
        Setting::Password => {
            cli.password = to_owned(value);
        },
        Setting::DbName => {
            cli.db_name = to_owned(value);
        },
        Setting::Objects => {
            cli.objects = to_owned(value);
        },
        Setting::Condition => {
            cli.condition = Some(to_owned(value));
        },
        Setting::OrderBy => {
            cli.order_by = Some(to_owned(value));
        },
        Setting::HidePrimaryKey => {
            let name = pick_name(
                naming,
                "--export-hide-primary-key",
                "export-hide-primary-key",
                "DB2SQL_EXPORT_HIDE_PRIMARY_KEY",
            );
            let b = parse_bool_arg(name, value)?;
            cli.hide_primary_key = b;
        },
        Setting::OutputFormat => {
            let x = parse_output_format(value)?;
            cli.output_format = x;
        },
        Setting::Compress => {
            let x = parse_compress_type(value)?;
            cli.compress = Some(x);
        },
        Setting::DeleteAfterCompress => {
            let name = pick_name(
                naming,
                "--export-delete-after-compress",
                "export-delete-after-compress",
                "DB2SQL_EXPORT_DELETE_AFTER_COMPRESS",
            );
            let b = parse_bool_arg(name, value)?;
            cli.delete_after_compress = b;
        },
        Setting::OutputDirectory => {
            cli.output_directory = to_owned(value);
        },
        Setting::Recsize => {
            let name = pick_name(naming, "--export-recsize", "export-recsize", "DB2SQL_EXPORT_RECSIZE");
            let n = parse_positive_usize(name, value)?;
            cli.recsize = Some(n);
        },
        Setting::PageSize => {
            let name = pick_name(
                naming,
                "--export-page-size",
                "export-page-size",
                "DB2SQL_EXPORT_PAGE_SIZE",
            );
            let n = parse_positive_usize(name, value)?;
            cli.page_size = n;
        },
        Setting::PageNo => {
            let name = pick_name(naming, "--export-page-no", "export-page-no", "DB2SQL_EXPORT_PAGE_NO");
            let n = parse_positive_usize(name, value)?;
            cli.page_no = Some(n);
        },
        Setting::ImportHost => {
            cli.import_host = to_owned(value);
        },
        Setting::ImportPort => {
            let p = read_port(naming, true, value)?;
            cli.import_port = p;
        },
        Setting::ImportDbType => {
            let x = parse_db_type(value)?;
            cli.import_db_type = x;
        },
        Setting::ImportUser => {
            cli.import_user = to_owned(value);
        },
        Setting::ImportPassword => {
            cli.import_password = to_owned(value);
        },
        Setting::ImportDbName => {
            cli.import_db_name = to_owned(value);
        },
    }
    Ok(())
}

/// Setting a field twice leaves what the second setting alone would leave:
/// once the first was accepted, the earlier value plays no part.
pub proof fn law_setting_last_wins(s: Setting, naming: Naming, c: CliView, v1: Seq<char>, v2: Seq<char>)
    requires
        apply_setting_spec(s, naming, c, v1) is Ok,
    ensures
        apply_setting_spec(s, naming, apply_setting_spec(s, naming, c, v1)->Ok_0, v2)
            == apply_setting_spec(s, naming, c, v2),
{
    match s {
        Setting::Flow => {},
        Setting::Mode => {},
        Setting::Lang => {},
        Setting::DbType => {},
        Setting::Host => {},
        Setting::Port => {},
        Setting::User => {},
        Setting::Password => {},
        Setting::DbName => {},
        Setting::Objects => {},
        Setting::Condition => {},
        Setting::OrderBy => {},
        Setting::HidePrimaryKey => {},
        Setting::OutputFormat => {},
        Setting::Compress => {},
        Setting::DeleteAfterCompress => {},
        Setting::OutputDirectory => {},
        Setting::Recsize => {},
        Setting::PageSize => {},
        Setting::PageNo => {},
        Setting::ImportHost => {},
        Setting::ImportPort => {},
        Setting::ImportDbType => {},
        Setting::ImportUser => {},
        Setting::ImportPassword => {},
        Setting::ImportDbName => {},
    }
}

} // verus!
