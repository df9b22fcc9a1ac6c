//! Reading the configuration from environment variables (as the `.env` file
//! sets them). The variables are handed in as (name, value) pairs; the first
//! pair with a name counts.
use vstd::prelude::*;
use crate::config::{Cli, CliView, ConfigErr, ConfigError};
use crate::settings::{apply_setting, apply_setting_spec, Naming, Setting};
use crate::text::{str_eq, trim, trim_seq};

verus! {

pub type EnvView = Seq<(Seq<char>, Seq<char>)>;

pub open spec fn env_view(vars: Seq<(String, String)>) -> EnvView {
    vars.map_values(|p: (String, String)| (p.0@, p.1@))
}

/// The value of the first variable named `key`.
pub open spec fn env_lookup(vars: EnvView, key: Seq<char>) -> Option<Seq<char>>
    decreases vars.len(),
{
    if vars.len() == 0 {
        None
    } else if vars[0].0 == key {
        Some(vars[0].1)
    } else {
        env_lookup(vars.drop_first(), key)
    }
}

/// A variable's value, trimmed; a variable that is unset or blank counts as
/// not given.
pub open spec fn env_value(vars: EnvView, key: Seq<char>) -> Option<Seq<char>> {
    match env_lookup(vars, key) {
        Some(v) => if trim_seq(v).len() > 0 {
            Some(trim_seq(v))
        } else {
            None
        },
        None => None,
    }
}

/// The first of two variables that is given.
pub open spec fn env_value_either(vars: EnvView, key: Seq<char>, fallback: Option<Seq<char>>) -> Option<
    Seq<char>,
> {
    match env_value(vars, key) {
        Some(v) => Some(v),
        None => match fallback {
            Some(k) => env_value(vars, k),
            None => None,
        },
    }
}

/// Finds the value of `key` among the variables.
pub fn env_non_empty(vars: &Vec<(String, String)>, key: &str) -> (r: Option<String>)
    ensures
        opt_seq(r) == env_value(env_view(vars@), key@),
{
    let n = vars.len();
    let mut i: usize = 0;
    assert(env_view(vars@).skip(0) =~= env_view(vars@));
    while i < n
        invariant
            n == vars@.len(),
            i <= n,
            env_lookup(env_view(vars@), key@) == env_lookup(env_view(vars@).skip(i as int), key@),
        decreases n - i,
    {
        assert(env_view(vars@).skip(i as int)[0] == (vars@[i as int].0@, vars@[i as int].1@));
        if str_eq(vars[i].0.as_str(), key) {
            let t = trim(vars[i].1.as_str());
            if t.as_str().unicode_len() > 0 {
                return Some(t);
            } else {
                return None;
            }
        }
        assert(env_view(vars@).skip(i as int).drop_first() =~= env_view(vars@).skip(i + 1));
        i = i + 1;
    }
    None
}

pub open spec fn opt_seq(o: Option<String>) -> Option<Seq<char>> {
    match o {
        Some(s) => Some(s@),
        None => None,
    }
}

/// The number of steps in which the environment is read.
pub open spec fn env_step_count() -> nat {
    26
}

/// The field each step sets.
pub open spec fn env_setting(i: nat) -> Setting {
    if i == 0 {
        Setting::Flow
    } else if i == 1 {
        Setting::Mode
    } else if i == 2 {
        Setting::Lang
    } else if i == 3 {
        Setting::DbType
    } else if i == 4 {
        Setting::Host
    } else if i == 5 {
        Setting::Port
    } else if i == 6 {
        Setting::User
    } else if i == 7 {
        Setting::Password
    } else if i == 8 {
        Setting::DbName
    } else if i == 9 {
        Setting::Objects
    } else if i == 10 {
        Setting::Condition
    } else if i == 11 {
        Setting::OrderBy
    } else if i == 12 {
        Setting::HidePrimaryKey
    } else if i == 13 {
        Setting::OutputFormat
    } else if i == 14 {
        Setting::Compress
    } else if i == 15 {
        Setting::DeleteAfterCompress
    } else if i == 16 {
        Setting::OutputDirectory
    } else if i == 17 {
        Setting::Recsize
    } else if i == 18 {
        Setting::PageSize
    } else if i == 19 {
        Setting::PageNo
    } else if i == 20 {
        Setting::ImportHost
    } else if i == 21 {
        Setting::ImportPort
    } else if i == 22 {
        Setting::ImportDbType
    } else if i == 23 {
        Setting::ImportUser
    } else if i == 24 {
        Setting::ImportPassword
    } else {
        Setting::ImportDbName
    }
}

/// The variables each step reads: the main name, and for export settings the
/// shorter name it falls back to.
pub open spec fn env_keys(i: nat) -> (Seq<char>, Option<Seq<char>>) {
    if i == 0 {
        ("DB2SQL_FLOW"@, None)
    } else if i == 1 {
        ("DB2SQL_MODE"@, None)
    } else if i == 2 {
        ("DB2SQL_LANG"@, None)
    } else if i == 3 {
        ("DB2SQL_EXPORT_DB_TYPE"@, Some("DB2SQL_DB_TYPE"@))
    } else if i == 4 {
        ("DB2SQL_EXPORT_HOST"@, Some("DB2SQL_HOST"@))
    } else if i == 5 {
        ("DB2SQL_EXPORT_PORT"@, Some("DB2SQL_PORT"@))
    } else if i == 6 {
        ("DB2SQL_EXPORT_USER"@, Some("DB2SQL_USER"@))
    } else if i == 7 {
        ("DB2SQL_EXPORT_PASSWORD"@, Some("DB2SQL_PASSWORD"@))
    } else if i == 8 {
        ("DB2SQL_EXPORT_DB_NAME"@, Some("DB2SQL_DB_NAME"@))
    } else if i == 9 {
        ("DB2SQL_EXPORT_OBJECTS"@, Some("DB2SQL_OBJECTS"@))
    } else if i == 10 {
        ("DB2SQL_EXPORT_CONDITION"@, Some("DB2SQL_CONDITION"@))
    } else if i == 11 {
        ("DB2SQL_EXPORT_ORDER_BY"@, Some("DB2SQL_ORDER_BY"@))
    } else if i == 12 {
        ("DB2SQL_EXPORT_HIDE_PRIMARY_KEY"@, Some("DB2SQL_HIDE_PRIMARY_KEY"@))
    } else if i == 13 {
        ("DB2SQL_EXPORT_OUTPUT_FORMAT"@, Some("DB2SQL_OUTPUT_FORMAT"@))
    } else if i == 14 {
        ("DB2SQL_EXPORT_COMPRESS"@, Some("DB2SQL_COMPRESS"@))
    } else if i == 15 {
        ("DB2SQL_EXPORT_DELETE_AFTER_COMPRESS"@, Some("DB2SQL_DELETE_AFTER_COMPRESS"@))
    } else if i == 16 {
        ("DB2SQL_EXPORT_OUTPUT_DIRECTORY"@, Some("DB2SQL_OUTPUT_DIRECTORY"@))
    } else if i == 17 {
        ("DB2SQL_EXPORT_RECSIZE"@, Some("DB2SQL_RECSIZE"@))
    } else if i == 18 {
        ("DB2SQL_EXPORT_PAGE_SIZE"@, Some("DB2SQL_PAGE_SIZE"@))
    } else if i == 19 {
        ("DB2SQL_EXPORT_PAGE_NO"@, Some("DB2SQL_PAGE_NO"@))
    } else if i == 20 {
        ("DB2SQL_IMPORT_HOST"@, None)
    } else if i == 21 {
        ("DB2SQL_IMPORT_PORT"@, None)
    } else if i == 22 {
        ("DB2SQL_IMPORT_DB_TYPE"@, None)
    } else if i == 23 {
        ("DB2SQL_IMPORT_USER"@, None)
    } else if i == 24 {
        ("DB2SQL_IMPORT_PASSWORD"@, None)
    } else {
        ("DB2SQL_IMPORT_DB_NAME"@, None)
    }
}

/// The plain variable names a `.env` file may use instead (`DB_HOST`,
/// `OUTPUT_DIR`, ...), read when neither of the step's own names is given.
pub open spec fn env_plain_key(i: nat) -> Option<Seq<char>> {
    if i == 3 {
        Some("DB_TYPE"@)
    } else if i == 4 {
        Some("DB_HOST"@)
    } else if i == 5 {
        Some("DB_PORT"@)
    } else if i == 6 {
        Some("DB_USER"@)
    } else if i == 7 {
        Some("DB_PASSWORD"@)
    } else if i == 8 {
        Some("DB_NAME"@)
    } else if i == 13 {
        Some("OUTPUT_FORMAT"@)
    } else if i == 16 {
        Some("OUTPUT_DIR"@)
    } else {
        None
    }
}

fn plain_key_plan(i: usize) -> (r: Option<&'static str>)
    ensures
        match r {
            Some(k) => env_plain_key(i as nat) == Some(k@),
            None => env_plain_key(i as nat) is None,
        },
{
    if i == 3 {
        Some("DB_TYPE")
    } else if i == 4 {
        Some("DB_HOST")
    } else if i == 5 {
        Some("DB_PORT")
    } else if i == 6 {
        Some("DB_USER")
    } else if i == 7 {
        Some("DB_PASSWORD")
    } else if i == 8 {
        Some("DB_NAME")
    } else if i == 13 {
        Some("OUTPUT_FORMAT")
    } else if i == 16 {
        Some("OUTPUT_DIR")
    } else {
        None
    }
}

/// The value a step reads: its own names first, then the plain name.
pub open spec fn env_step_value(vars: EnvView, i: nat) -> Option<Seq<char>> {
    let (k, fallback) = env_keys(i);
    match env_value_either(vars, k, fallback) {
        Some(v) => Some(v),
        None => match env_plain_key(i) {
            Some(p) => env_value(vars, p),
            None => None,
        },
    }
}

/// The optional fields a missing variable clears.
pub open spec fn cleared_when_unset(s: Setting) -> bool {
    s == Setting::Condition || s == Setting::OrderBy || s == Setting::Compress || s
        == Setting::Recsize || s == Setting::PageNo
}

pub open spec fn cleared(s: Setting, c: CliView) -> CliView {
    match s {
        Setting::Condition => CliView { condition: None, ..c },
        Setting::OrderBy => CliView { order_by: None, ..c },
        Setting::Compress => CliView { compress: None, ..c },
        Setting::Recsize => CliView { recsize: None, ..c },
        Setting::PageNo => CliView { page_no: None, ..c },
        _ => c,
    }
}

/// One step: a given variable sets its field (or is refused); a missing one
/// clears an optional field and leaves the others.
pub open spec fn env_step(c: CliView, vars: EnvView, i: nat) -> Result<CliView, ConfigErr> {
    let s = env_setting(i);
    match env_step_value(vars, i) {
        Some(v) => apply_setting_spec(s, Naming::Environment, c, v),
        None => Ok(cleared(s, c)),
    }
}

/// The first `k` steps, stopping at the first refusal: the configuration
/// reached, and the refusal if there was one.
pub open spec fn env_steps(c: CliView, vars: EnvView, k: nat) -> (CliView, Option<ConfigErr>)
    decreases k,
{
    if k == 0 {
        (c, None)
    } else {
        let (prev, err) = env_steps(c, vars, (k - 1) as nat);
        if err is Some {
            (prev, err)
        } else {
            match env_step(prev, vars, (k - 1) as nat) {
                Ok(next) => (next, None),
                Err(e) => (prev, Some(e)),
            }
        }
    }
}

/// The whole reading of the environment.
pub open spec fn env_apply(c: CliView, vars: EnvView) -> (CliView, Option<ConfigErr>) {
    env_steps(c, vars, env_step_count())
}

fn step_plan(i: usize) -> (r: (Setting, &'static str, Option<&'static str>))
    requires
        i < 26,
    ensures
        r.0 == env_setting(i as nat),
        r.1@ == env_keys(i as nat).0,
        match r.2 {
            Some(k) => env_keys(i as nat).1 == Some(k@),
            None => env_keys(i as nat).1 is None,
        },
{
    if i == 0 {
        (Setting::Flow, "DB2SQL_FLOW", None)
    } else if i == 1 {
        (Setting::Mode, "DB2SQL_MODE", None)
    } else if i == 2 {
        (Setting::Lang, "DB2SQL_LANG", None)
    } else if i == 3 {
        (Setting::DbType, "DB2SQL_EXPORT_DB_TYPE", Some("DB2SQL_DB_TYPE"))
    } else if i == 4 {
        (Setting::Host, "DB2SQL_EXPORT_HOST", Some("DB2SQL_HOST"))
    } else if i == 5 {
        (Setting::Port, "DB2SQL_EXPORT_PORT", Some("DB2SQL_PORT"))
    } else if i == 6 {
        (Setting::User, "DB2SQL_EXPORT_USER", Some("DB2SQL_USER"))
    } else if i == 7 {
        (Setting::Password, "DB2SQL_EXPORT_PASSWORD", Some("DB2SQL_PASSWORD"))
    } else if i == 8 {
        (Setting::DbName, "DB2SQL_EXPORT_DB_NAME", Some("DB2SQL_DB_NAME"))
    } else if i == 9 {
        (Setting::Objects, "DB2SQL_EXPORT_OBJECTS", Some("DB2SQL_OBJECTS"))
    } else if i == 10 {
        (Setting::Condition, "DB2SQL_EXPORT_CONDITION", Some("DB2SQL_CONDITION"))
    } else if i == 11 {
        (Setting::OrderBy, "DB2SQL_EXPORT_ORDER_BY", Some("DB2SQL_ORDER_BY"))
    } else if i == 12 {
        (Setting::HidePrimaryKey, "DB2SQL_EXPORT_HIDE_PRIMARY_KEY", Some("DB2SQL_HIDE_PRIMARY_KEY"))
    } else if i == 13 {
        (Setting::OutputFormat, "DB2SQL_EXPORT_OUTPUT_FORMAT", Some("DB2SQL_OUTPUT_FORMAT"))
    } else if i == 14 {
        (Setting::Compress, "DB2SQL_EXPORT_COMPRESS", Some("DB2SQL_COMPRESS"))
    } else if i == 15 {
        (
            Setting::DeleteAfterCompress,
            "DB2SQL_EXPORT_DELETE_AFTER_COMPRESS",
            Some("DB2SQL_DELETE_AFTER_COMPRESS"),
        )
    } else if i == 16 {
        (Setting::OutputDirectory, "DB2SQL_EXPORT_OUTPUT_DIRECTORY", Some("DB2SQL_OUTPUT_DIRECTORY"))
    } else if i == 17 {
        (Setting::Recsize, "DB2SQL_EXPORT_RECSIZE", Some("DB2SQL_RECSIZE"))
    } else if i == 18 {
        (Setting::PageSize, "DB2SQL_EXPORT_PAGE_SIZE", Some("DB2SQL_PAGE_SIZE"))
    } else if i == 19 {
        (Setting::PageNo, "DB2SQL_EXPORT_PAGE_NO", Some("DB2SQL_PAGE_NO"))
    } else if i == 20 {
        (Setting::ImportHost, "DB2SQL_IMPORT_HOST", None)
    } else if i == 21 {
        (Setting::ImportPort, "DB2SQL_IMPORT_PORT", None)
    } else if i == 22 {
        (Setting::ImportDbType, "DB2SQL_IMPORT_DB_TYPE", None)
    } else if i == 23 {
        (Setting::ImportUser, "DB2SQL_IMPORT_USER", None)
    } else if i == 24 {
        (Setting::ImportPassword, "DB2SQL_IMPORT_PASSWORD", None)
    } else {
        (Setting::ImportDbName, "DB2SQL_IMPORT_DB_NAME", None)
    }
}

fn clear_setting(s: Setting, cli: &mut Cli)
    ensures
        final(cli)@ == cleared(s, old(cli)@),
{
    match s {
        Setting::Condition => cli.condition = None,
        Setting::OrderBy => cli.order_by = None,
        Setting::Compress => cli.compress = None,
        Setting::Recsize => cli.recsize = None,
        Setting::PageNo => cli.page_no = None,
        _ => {},
    }
}

fn apply_env_step(cli: &mut Cli, vars: &Vec<(String, String)>, i: usize) -> (r: Result<
    (),
    ConfigError,
>)
    requires
        i < 26,
    ensures
        r is Ok <==> env_step(old(cli)@, env_view(vars@), i as nat) is Ok,
        r is Ok ==> env_step(old(cli)@, env_view(vars@), i as nat) == Ok::<CliView, ConfigErr>(
            final(cli)@,
        ),
        r matches Err(e) ==> env_step(old(cli)@, env_view(vars@), i as nat) == Err::<
            CliView,
            ConfigErr,
        >(e@),
        r is Err ==> final(cli)@ == old(cli)@,
{
    let (s, key, fallback) = step_plan(i);
    let v = match env_non_empty(vars, key) {
        Some(v) => Some(v),
        None => match fallback {
            Some(k) => env_non_empty(vars, k),
            None => None,
        },
    };
    let v = match v {
        Some(v) => Some(v),
        None => match plain_key_plan(i) {
            Some(k) => env_non_empty(vars, k),
            None => None,
        },
    };
    match v {
        Some(v) => apply_setting(s, Naming::Environment, cli, v.as_str()),
        None => {
            clear_setting(s, cli);
            Ok(())
        },
    }
}

/// Sets `cli` from the variables, field by field in a fixed order, and stops
/// at the first value that is refused, with the fields before it already set.
pub fn apply_env_to_cli(cli: &mut Cli, vars: &Vec<(String, String)>) -> (r: Result<(), ConfigError>)
    ensures
        final(cli)@ == env_apply(old(cli)@, env_view(vars@)).0,
        r is Ok <==> env_apply(old(cli)@, env_view(vars@)).1 is None,
        r matches Err(e) ==> env_apply(old(cli)@, env_view(vars@)).1 == Some(e@),
{
    let ghost start = cli@;
    let mut i: usize = 0;
    while i < 26
        invariant
            i <= 26,
            start == old(cli)@,
            env_steps(start, env_view(vars@), i as nat) == (cli@, None::<ConfigErr>),
        decreases 26 - i,
    {
        let ghost before = cli@;
        match apply_env_step(cli, vars, i) {
            Ok(()) => {},
            Err(e) => {
                proof {
                    assert(cli@ == before);
                    assert(env_steps(start, env_view(vars@), (i + 1) as nat) == (
                        before,
                        Some(e@),
                    ));
                    lemma_env_steps_stop(start, env_view(vars@), (i + 1) as nat, 26);
                }
                return Err(e);
            },
        }
        i = i + 1;
    }
    Ok(())
}

/// Once a step is refused, the later steps change nothing.
proof fn lemma_env_steps_stop(c: CliView, vars: EnvView, k: nat, m: nat)
    requires
        k <= m,
        env_steps(c, vars, k).1 is Some,
    ensures
        env_steps(c, vars, m) == env_steps(c, vars, k),
    decreases m - k,
{
    if k < m {
        lemma_env_steps_stop(c, vars, k, (m - 1) as nat);
    }
}

} // verus!
