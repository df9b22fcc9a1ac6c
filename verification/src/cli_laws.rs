//! What reading the command line promises across its options: an option
//! given again later makes the earlier one count for nothing, and a
//! command-line export is refused exactly when a connection field is blank.
use vstd::prelude::*;
use crate::cli_args::{
    args_loop, arg_setting, bare_switch, parse_args_spec, switched_on, ArgOutcome,
};
use crate::config::{default_cli_view, CliView, DbType, FlowMode, RunMode};
use crate::env::{env_apply, EnvView};
use crate::text::trim_seq;
use crate::settings::{apply_setting_spec, Naming, Setting};

verus! {

/// Two configurations that agree on every field but the one the setting
/// `s` sets.
pub open spec fn same_except(s: Setting, x: CliView, y: CliView) -> bool {
    &&& (s == Setting::Flow || x.flow == y.flow)
    &&& (s == Setting::Mode || x.mode == y.mode)
    &&& (s == Setting::Lang || x.lang == y.lang)
    &&& (s == Setting::DbType || x.db_type == y.db_type)
    &&& (s == Setting::Host || x.host == y.host)
    &&& (s == Setting::Port || x.port == y.port)
    &&& (s == Setting::User || x.user == y.user)
    &&& (s == Setting::Password || x.password == y.password)
    &&& (s == Setting::DbName || x.db_name == y.db_name)
    &&& (s == Setting::Objects || x.objects == y.objects)
    &&& (s == Setting::Condition || x.condition == y.condition)
    &&& (s == Setting::OrderBy || x.order_by == y.order_by)
    &&& (s == Setting::HidePrimaryKey || x.hide_primary_key == y.hide_primary_key)
    &&& (s == Setting::OutputFormat || x.output_format == y.output_format)
    &&& (s == Setting::Compress || x.compress == y.compress)
    &&& (s == Setting::DeleteAfterCompress || x.delete_after_compress == y.delete_after_compress)
    &&& (s == Setting::OutputDirectory || x.output_directory == y.output_directory)
    &&& (s == Setting::Recsize || x.recsize == y.recsize)
    &&& (s == Setting::PageSize || x.page_size == y.page_size)
    &&& (s == Setting::PageNo || x.page_no == y.page_no)
    &&& (s == Setting::ImportHost || x.import_host == y.import_host)
    &&& (s == Setting::ImportPort || x.import_port == y.import_port)
    &&& (s == Setting::ImportDbType || x.import_db_type == y.import_db_type)
    &&& (s == Setting::ImportUser || x.import_user == y.import_user)
    &&& (s == Setting::ImportPassword || x.import_password == y.import_password)
    &&& (s == Setting::ImportDbName || x.import_db_name == y.import_db_name)
    &&& x.export_collation == y.export_collation
    &&& x.import_collation == y.import_collation
    &&& x.import_content_format == y.import_content_format
    &&& x.import_content_src == y.import_content_src
}

/// Whether an option's value is accepted, and the refusal when it is not,
/// do not depend on the configuration it is applied to.
proof fn lemma_refusal_independent(t: Setting, x: CliView, y: CliView, v: Seq<char>)
    ensures
        (apply_setting_spec(t, Naming::Argument, x, v) is Ok) == (apply_setting_spec(
            t,
            Naming::Argument,
            y,
            v,
        ) is Ok),
        apply_setting_spec(t, Naming::Argument, x, v) is Err ==> apply_setting_spec(
            t,
            Naming::Argument,
            x,
            v,
        ) == apply_setting_spec(t, Naming::Argument, y, v),
{
    match t {
        Setting::Flow => {},
        Setting::Mode => {},
        Setting::Lang => {},
        Setting::DbType => {},
        Setting::Host => {},
        Setting::Port => {},
        Setting::User => {},
        Setting::Password => {},
        Setting::DbName => {},
        Setting::Objects => {},
        Setting::Condition => {},
        Setting::OrderBy => {},
        Setting::HidePrimaryKey => {},
        Setting::OutputFormat => {},
        Setting::Compress => {},
        Setting::DeleteAfterCompress => {},
        Setting::OutputDirectory => {},
        Setting::Recsize => {},
        Setting::PageSize => {},
        Setting::PageNo => {},
        Setting::ImportHost => {},
        Setting::ImportPort => {},
        Setting::ImportDbType => {},
        Setting::ImportUser => {},
        Setting::ImportPassword => {},
        Setting::ImportDbName => {},
    }
}

/// Setting a field keeps two configurations that differ only in the field
/// of `s` that close; setting the field of `s` itself makes them the same.
proof fn lemma_setting_keeps_close(s: Setting, t: Setting, x: CliView, y: CliView, v: Seq<char>)
    requires
        same_except(s, x, y),
        apply_setting_spec(t, Naming::Argument, x, v) is Ok,
    ensures
        apply_setting_spec(t, Naming::Argument, y, v) is Ok,
        same_except(
            s,
            apply_setting_spec(t, Naming::Argument, x, v)->Ok_0,
            apply_setting_spec(t, Naming::Argument, y, v)->Ok_0,
        ),
        t == s ==> apply_setting_spec(t, Naming::Argument, x, v) == apply_setting_spec(
            t,
            Naming::Argument,
            y,
            v,
        ),
{
    lemma_refusal_independent(t, x, y, v);
    match t {
        Setting::Flow => {},
        Setting::Mode => {},
        Setting::Lang => {},
        Setting::DbType => {},
        Setting::Host => {},
        Setting::Port => {},
        Setting::User => {},
        Setting::Password => {},
        Setting::DbName => {},
        Setting::Objects => {},
        Setting::Condition => {},
        Setting::OrderBy => {},
        Setting::HidePrimaryKey => {},
        Setting::OutputFormat => {},
        Setting::Compress => {},
        Setting::DeleteAfterCompress => {},
        Setting::OutputDirectory => {},
        Setting::Recsize => {},
        Setting::PageSize => {},
        Setting::PageNo => {},
        Setting::ImportHost => {},
        Setting::ImportPort => {},
        Setting::ImportDbType => {},
        Setting::ImportUser => {},
        Setting::ImportPassword => {},
        Setting::ImportDbName => {},
    }
}

/// Setting a field to an accepted value gives a configuration that differs
/// from the first only in that field.
proof fn lemma_setting_changes_one(s: Setting, c: CliView, v: Seq<char>)
    requires
        apply_setting_spec(s, Naming::Argument, c, v) is Ok,
    ensures
        same_except(s, apply_setting_spec(s, Naming::Argument, c, v)->Ok_0, c),
{
    match s {
        Setting::Flow => {},
        Setting::Mode => {},
        Setting::Lang => {},
        Setting::DbType => {},
        Setting::Host => {},
        Setting::Port => {},
        Setting::User => {},
        Setting::Password => {},
        Setting::DbName => {},
        Setting::Objects => {},
        Setting::Condition => {},
        Setting::OrderBy => {},
        Setting::HidePrimaryKey => {},
        Setting::OutputFormat => {},
        Setting::Compress => {},
        Setting::DeleteAfterCompress => {},
        Setting::OutputDirectory => {},
        Setting::Recsize => {},
        Setting::PageSize => {},
        Setting::PageNo => {},
        Setting::ImportHost => {},
        Setting::ImportPort => {},
        Setting::ImportDbType => {},
        Setting::ImportUser => {},
        Setting::ImportPassword => {},
        Setting::ImportDbName => {},
    }
}

/// What tells the option names apart: their lengths and their third and
/// fourth characters.
proof fn lemma_option_name_facts()
    ensures
        "--help"@.len() == 6,
        "--help"@[2] == 'h',
        "--help"@[3] == 'e',
        "-h"@.len() == 2,
        "-h"@[1] == 'h',
        "--tui"@.len() == 5,
        "--tui"@[2] == 't',
        "--tui"@[3] == 'u',
        "--import"@.len() == 8,
        "--import"@[2] == 'i',
        "--import"@[3] == 'm',
        "--compress"@.len() == 10,
        "--compress"@[2] == 'c',
        "--compress"@[3] == 'o',
        "--condition"@.len() == 11,
        "--condition"@[2] == 'c',
        "--condition"@[3] == 'o',
        "--db-name"@.len() == 9,
        "--db-name"@[2] == 'd',
        "--db-name"@[3] == 'b',
        "--db-type"@.len() == 9,
        "--db-type"@[2] == 'd',
        "--db-type"@[3] == 'b',
        "--delete-after-compress"@.len() == 23,
        "--delete-after-compress"@[2] == 'd',
        "--delete-after-compress"@[3] == 'e',
        "--export-compress"@.len() == 17,
        "--export-compress"@[2] == 'e',
        "--export-compress"@[3] == 'x',
        "--export-condition"@.len() == 18,
        "--export-condition"@[2] == 'e',
        "--export-condition"@[3] == 'x',
        "--export-db-name"@.len() == 16,
        "--export-db-name"@[2] == 'e',
        "--export-db-name"@[3] == 'x',
        "--export-db-type"@.len() == 16,
        "--export-db-type"@[2] == 'e',
        "--export-db-type"@[3] == 'x',
        "--export-delete-after-compress"@.len() == 30,
        "--export-delete-after-compress"@[2] == 'e',
        "--export-delete-after-compress"@[3] == 'x',
        "--export-hide-primary-key"@.len() == 25,
        "--export-hide-primary-key"@[2] == 'e',
        "--export-hide-primary-key"@[3] == 'x',
        "--export-host"@.len() == 13,
        "--export-host"@[2] == 'e',
        "--export-host"@[3] == 'x',
        "--export-objects"@.len() == 16,
        "--export-objects"@[2] == 'e',
        "--export-objects"@[3] == 'x',
        "--export-order-by"@.len() == 17,
        "--export-order-by"@[2] == 'e',
        "--export-order-by"@[3] == 'x',
        "--export-output-directory"@.len() == 25,
        "--export-output-directory"@[2] == 'e',
        "--export-output-directory"@[3] == 'x',
        "--export-output-format"@.len() == 22,
        "--export-output-format"@[2] == 'e',
        "--export-output-format"@[3] == 'x',
        "--export-page-no"@.len() == 16,
        "--export-page-no"@[2] == 'e',
        "--export-page-no"@[3] == 'x',
        "--export-page-size"@.len() == 18,
        "--export-page-size"@[2] == 'e',
        "--export-page-size"@[3] == 'x',
        "--export-password"@.len() == 17,
        "--export-password"@[2] == 'e',
        "--export-password"@[3] == 'x',
        "--export-port"@.len() == 13,
        "--export-port"@[2] == 'e',
        "--export-port"@[3] == 'x',
        "--export-recsize"@.len() == 16,
        "--export-recsize"@[2] == 'e',
        "--export-recsize"@[3] == 'x',
        "--export-tables"@.len() == 15,
        "--export-tables"@[2] == 'e',
        "--export-tables"@[3] == 'x',
        "--export-user"@.len() == 13,
        "--export-user"@[2] == 'e',
        "--export-user"@[3] == 'x',
        "--flow"@.len() == 6,
        "--flow"@[2] == 'f',
        "--flow"@[3] == 'l',
        "--hide-primary-key"@.len() == 18,
        "--hide-primary-key"@[2] == 'h',
        "--hide-primary-key"@[3] == 'i',
        "--host"@.len() == 6,
        "--host"@[2] == 'h',
        "--host"@[3] == 'o',
        "--import-db-name"@.len() == 16,
        "--import-db-name"@[2] == 'i',
        "--import-db-name"@[3] == 'm',
        "--import-db-type"@.len() == 16,
        "--import-db-type"@[2] == 'i',
        "--import-db-type"@[3] == 'm',
        "--import-host"@.len() == 13,
        "--import-host"@[2] == 'i',
        "--import-host"@[3] == 'm',
        "--import-password"@.len() == 17,
        "--import-password"@[2] == 'i',
        "--import-password"@[3] == 'm',
        "--import-port"@.len() == 13,
        "--import-port"@[2] == 'i',
        "--import-port"@[3] == 'm',
        "--import-user"@.len() == 13,
        "--import-user"@[2] == 'i',
        "--import-user"@[3] == 'm',
        "--lang"@.len() == 6,
        "--lang"@[2] == 'l',
        "--lang"@[3] == 'a',
        "--mode"@.len() == 6,
        "--mode"@[2] == 'm',
        "--mode"@[3] == 'o',
        "--objects"@.len() == 9,
        "--objects"@[2] == 'o',
        "--objects"@[3] == 'b',
        "--order-by"@.len() == 10,
        "--order-by"@[2] == 'o',
        "--order-by"@[3] == 'r',
        "--output-dir"@.len() == 12,
        "--output-dir"@[2] == 'o',
        "--output-dir"@[3] == 'u',
        "--output-directory"@.len() == 18,
        "--output-directory"@[2] == 'o',
        "--output-directory"@[3] == 'u',
        "--output-format"@.len() == 15,
        "--output-format"@[2] == 'o',
        "--output-format"@[3] == 'u',
        "--page-no"@.len() == 9,
        "--page-no"@[2] == 'p',
        "--page-no"@[3] == 'a',
        "--page-size"@.len() == 11,
        "--page-size"@[2] == 'p',
        "--page-size"@[3] == 'a',
        "--password"@.len() == 10,
        "--password"@[2] == 'p',
        "--password"@[3] == 'a',
        "--port"@.len() == 6,
        "--port"@[2] == 'p',
        "--port"@[3] == 'o',
        "--recsize"@.len() == 9,
        "--recsize"@[2] == 'r',
        "--recsize"@[3] == 'e',
        "--tables"@.len() == 8,
        "--tables"@[2] == 't',
        "--tables"@[3] == 'a',
        "--user"@.len() == 6,
        "--user"@[2] == 'u',
        "--user"@[3] == 's',
{
    reveal_strlit("--help");
    reveal_strlit("-h");
    reveal_strlit("--tui");
    reveal_strlit("--import");
    reveal_strlit("--compress");
    reveal_strlit("--condition");
    reveal_strlit("--db-name");
    reveal_strlit("--db-type");
    reveal_strlit("--delete-after-compress");
    reveal_strlit("--export-compress");
    reveal_strlit("--export-condition");
    reveal_strlit("--export-db-name");
    reveal_strlit("--export-db-type");
    reveal_strlit("--export-delete-after-compress");
    reveal_strlit("--export-hide-primary-key");
    reveal_strlit("--export-host");
    reveal_strlit("--export-objects");
    reveal_strlit("--export-order-by");
    reveal_strlit("--export-output-directory");
    reveal_strlit("--export-output-format");
    reveal_strlit("--export-page-no");
    reveal_strlit("--export-page-size");
    reveal_strlit("--export-password");
    reveal_strlit("--export-port");
    reveal_strlit("--export-recsize");
    reveal_strlit("--export-tables");
    reveal_strlit("--export-user");
    reveal_strlit("--flow");
    reveal_strlit("--hide-primary-key");
    reveal_strlit("--host");
    reveal_strlit("--import-db-name");
    reveal_strlit("--import-db-type");
    reveal_strlit("--import-host");
    reveal_strlit("--import-password");
    reveal_strlit("--import-port");
    reveal_strlit("--import-user");
    reveal_strlit("--lang");
    reveal_strlit("--mode");
    reveal_strlit("--objects");
    reveal_strlit("--order-by");
    reveal_strlit("--output-dir");
    reveal_strlit("--output-directory");
    reveal_strlit("--output-format");
    reveal_strlit("--page-no");
    reveal_strlit("--page-size");
    reveal_strlit("--password");
    reveal_strlit("--port");
    reveal_strlit("--recsize");
    reveal_strlit("--tables");
    reveal_strlit("--user");
}

/// `--help`, `-h`, `--tui` and `--import` are none of the options that take
/// a value.
proof fn lemma_flag_names()
    ensures
        arg_setting("--help"@) is None,
        arg_setting("-h"@) is None,
        arg_setting("--tui"@) is None,
        arg_setting("--import"@) is None,
{
    lemma_option_name_facts();
}

/// Switching a yes-or-no field on keeps two configurations that differ
/// only in the field of `s` that close, and makes them the same when it
/// switches that very field.
proof fn lemma_switch_keeps_close(s: Setting, t: Setting, x: CliView, y: CliView)
    requires
        same_except(s, x, y),
        t == Setting::HidePrimaryKey || t == Setting::DeleteAfterCompress,
    ensures
        same_except(s, switched_on(t, x), switched_on(t, y)),
        t == s ==> switched_on(t, x) == switched_on(t, y),
{
}

/// Choosing the interactive mode or the import flow keeps two
/// configurations that differ only in the field of `s` that close.
proof fn lemma_mode_flow_keep_close(s: Setting, x: CliView, y: CliView)
    requires
        same_except(s, x, y),
    ensures
        same_except(s, CliView { mode: RunMode::Tui, ..x }, CliView { mode: RunMode::Tui, ..y }),
        same_except(
            s,
            CliView { flow: FlowMode::Import, ..x },
            CliView { flow: FlowMode::Import, ..y },
        ),
{
}

/// Reading options from position `p` comes to position `j` as the name of
/// an option, unless it stops before (at `--help`, at an unknown option).
pub open spec fn lands_on(args: Seq<Seq<char>>, p: nat, j: nat) -> bool
    decreases j - p,
{
    if p >= j {
        p == j
    } else {
        let key = args[p as int];
        if key == "--help"@ || key == "-h"@ {
            true
        } else if key == "--tui"@ || key == "--import"@ {
            lands_on(args, p + 1, j)
        } else {
            match arg_setting(key) {
                None => true,
                Some(t) => if bare_switch(args, p, t) {
                    lands_on(args, p + 1, j)
                } else {
                    p + 1 < j && lands_on(args, p + 2, j)
                },
            }
        }
    }
}

/// Two configurations that differ only in the field of `s` read the same
/// options alike, when the reading comes to an option for `s` that sets
/// that field anew.
#[verifier::spinoff_prover]
#[verifier::rlimit(40)]
proof fn lemma_loop_closes(
    s: Setting,
    x: CliView,
    y: CliView,
    args: Seq<Seq<char>>,
    p: nat,
    j: nat,
)
    requires
        same_except(s, x, y),
        lands_on(args, p, j),
        j < args.len(),
        arg_setting(args[j as int]) == Some(s),
    ensures
        args_loop(x, args, p) == args_loop(y, args, p),
    decreases j - p,
{
    lemma_flag_names();
    let key = args[p as int];
    if p == j {
        if bare_switch(args, p, s) {
            lemma_switch_keeps_close(s, s, x, y);
        } else if p + 1 < args.len() {
            let v = args[p + 1 as int];
            lemma_refusal_independent(s, x, y, v);
            if apply_setting_spec(s, Naming::Argument, x, v) is Ok {
                lemma_setting_keeps_close(s, s, x, y, v);
            }
        }
    } else if key == "--help"@ || key == "-h"@ {
    } else if key == "--tui"@ {
        lemma_mode_flow_keep_close(s, x, y);
        lemma_loop_closes(
            s,
            CliView { mode: RunMode::Tui, ..x },
            CliView { mode: RunMode::Tui, ..y },
            args,
            p + 1,
            j,
        );
    } else if key == "--import"@ {
        lemma_mode_flow_keep_close(s, x, y);
        lemma_loop_closes(
            s,
            CliView { flow: FlowMode::Import, ..x },
            CliView { flow: FlowMode::Import, ..y },
            args,
            p + 1,
            j,
        );
    } else {
        match arg_setting(key) {
            None => {},
            Some(t) => if bare_switch(args, p, t) {
                lemma_switch_keeps_close(s, t, x, y);
                lemma_loop_closes(s, switched_on(t, x), switched_on(t, y), args, p + 1, j);
            } else {
                let v = args[p + 1 as int];
                lemma_refusal_independent(t, x, y, v);
                if apply_setting_spec(t, Naming::Argument, x, v) is Ok {
                    lemma_setting_keeps_close(s, t, x, y, v);
                    lemma_loop_closes(
                        s,
                        apply_setting_spec(t, Naming::Argument, x, v)->Ok_0,
                        apply_setting_spec(t, Naming::Argument, y, v)->Ok_0,
                        args,
                        p + 2,
                        j,
                    );
                }
            },
        }
    }
}

/// Where the option at `i` ends: after its value, or right after its name
/// for a yes-or-no option given without a value.
pub open spec fn option_end(args: Seq<Seq<char>>, i: nat) -> nat {
    if bare_switch(args, i, arg_setting(args[i as int])->0) {
        i + 1
    } else {
        i + 2
    }
}

/// The option at `i` is read without a refusal from the configuration `c`.
pub open spec fn option_accepted(c: CliView, args: Seq<Seq<char>>, i: nat) -> bool {
    let s = arg_setting(args[i as int])->0;
    ||| bare_switch(args, i, s)
    ||| (i + 1 < args.len() && apply_setting_spec(s, Naming::Argument, c, args[i + 1 as int]) is Ok)
}

/// An option given again later counts for nothing the first time, as long
/// as it is accepted the first time: reading goes on as if the option had
/// not been given there, so the value given last is the one that holds.
/// (The options between the two are read whole, each name with its value.)
pub proof fn law_later_option_wins(c: CliView, args: Seq<Seq<char>>, i: nat, j: nat)
    requires
        j < args.len(),
        arg_setting(args[i as int]) is Some,
        arg_setting(args[j as int]) == arg_setting(args[i as int]),
        option_accepted(c, args, i),
        option_end(args, i) <= j,
        lands_on(args, option_end(args, i), j),
    ensures
        args_loop(c, args, i) == args_loop(c, args, option_end(args, i)),
{
    lemma_flag_names();
    let s = arg_setting(args[i as int])->0;
    if bare_switch(args, i, s) {
        let x = switched_on(s, c);
        assert(same_except(s, x, c));
        lemma_loop_closes(s, x, c, args, i + 1, j);
    } else {
        let v = args[i + 1 as int];
        lemma_setting_changes_one(s, c, v);
        let x = apply_setting_spec(s, Naming::Argument, c, v)->Ok_0;
        lemma_loop_closes(s, x, c, args, i + 2, j);
    }
}

/// A command-line export from a database other than SQLite is refused
/// exactly when, after the environment and the options, its database name,
/// host, user or password is blank; otherwise the configuration read is the
/// one it runs with.
pub proof fn law_cli_export_needs_connection(args: Seq<Seq<char>>, vars: EnvView)
    requires
        env_apply(default_cli_view(), vars).1 is None,
        args.len() > 1,
        args_loop(env_apply(default_cli_view(), vars).0, args, 1) is Done,
        args_loop(env_apply(default_cli_view(), vars).0, args, 1)->Done_0.mode == RunMode::Cli,
        args_loop(env_apply(default_cli_view(), vars).0, args, 1)->Done_0.flow == FlowMode::Export,
        args_loop(env_apply(default_cli_view(), vars).0, args, 1)->Done_0.db_type != DbType::SqlLite,
    ensures
        ({
            let c = args_loop(env_apply(default_cli_view(), vars).0, args, 1)->Done_0;
            &&& parse_args_spec(args, vars) is Fail <==> (trim_seq(c.db_name).len() == 0 || trim_seq(
                c.host,
            ).len() == 0 || trim_seq(c.user).len() == 0 || trim_seq(c.password).len() == 0)
            &&& !(parse_args_spec(args, vars) is Fail) ==> parse_args_spec(args, vars)
                == ArgOutcome::Done(c)
        }),
{
}

/// What tells every option name apart: its length and a few characters.
proof fn lemma_option_name_chars()
    ensures
        "--compress"@.len() == 10,
        "--compress"@[2] == 'c',
        "--compress"@[3] == 'o',
        "--compress"@[6] == 'r',
        "--compress"@[9] == 's',
        "--condition"@.len() == 11,
        "--condition"@[2] == 'c',
        "--condition"@[3] == 'o',
        "--condition"@[7] == 't',
        "--condition"@[9] == 'o',
        "--db-name"@.len() == 9,
        "--db-name"@[2] == 'd',
        "--db-name"@[3] == 'b',
        "--db-name"@[5] == 'n',
        "--db-type"@.len() == 9,
        "--db-type"@[2] == 'd',
        "--db-type"@[3] == 'b',
        "--db-type"@[5] == 't',
        "--delete-after-compress"@.len() == 23,
        "--delete-after-compress"@[2] == 'd',
        "--delete-after-compress"@[3] == 'e',
        "--delete-after-compress"@[9] == 'a',
        "--delete-after-compress"@[19] == 'r',
        "--export-compress"@.len() == 17,
        "--export-compress"@[2] == 'e',
        "--export-compress"@[3] == 'x',
        "--export-compress"@[9] == 'c',
        "--export-compress"@[13] == 'r',
        "--export-condition"@.len() == 18,
        "--export-condition"@[2] == 'e',
        "--export-condition"@[3] == 'x',
        "--export-condition"@[9] == 'c',
        "--export-condition"@[14] == 't',
        "--export-db-name"@.len() == 16,
        "--export-db-name"@[2] == 'e',
        "--export-db-name"@[3] == 'x',
        "--export-db-name"@[9] == 'd',
        "--export-db-name"@[12] == 'n',
        "--export-db-type"@.len() == 16,
        "--export-db-type"@[2] == 'e',
        "--export-db-type"@[3] == 'x',
        "--export-db-type"@[9] == 'd',
        "--export-db-type"@[12] == 't',
        "--export-delete-after-compress"@.len() == 30,
        "--export-delete-after-compress"@[2] == 'e',
        "--export-delete-after-compress"@[3] == 'x',
        "--export-delete-after-compress"@[9] == 'd',
        "--export-delete-after-compress"@[26] == 'r',
        "--export-hide-primary-key"@.len() == 25,
        "--export-hide-primary-key"@[2] == 'e',
        "--export-hide-primary-key"@[3] == 'x',
        "--export-hide-primary-key"@[9] == 'h',
        "--export-hide-primary-key"@[21] == '-',
        "--export-host"@.len() == 13,
        "--export-host"@[2] == 'e',
        "--export-host"@[3] == 'x',
        "--export-host"@[9] == 'h',
        "--export-objects"@.len() == 16,
        "--export-objects"@[2] == 'e',
        "--export-objects"@[3] == 'x',
        "--export-objects"@[9] == 'o',
        "--export-objects"@[12] == 'e',
        "--export-order-by"@.len() == 17,
        "--export-order-by"@[2] == 'e',
        "--export-order-by"@[3] == 'x',
        "--export-order-by"@[9] == 'o',
        "--export-order-by"@[13] == 'r',
        "--export-output-directory"@.len() == 25,
        "--export-output-directory"@[2] == 'e',
        "--export-output-directory"@[3] == 'x',
        "--export-output-directory"@[9] == 'o',
        "--export-output-directory"@[21] == 't',
        "--export-output-format"@.len() == 22,
        "--export-output-format"@[2] == 'e',
        "--export-output-format"@[3] == 'x',
        "--export-output-format"@[9] == 'o',
        "--export-output-format"@[18] == 'r',
        "--export-page-no"@.len() == 16,
        "--export-page-no"@[2] == 'e',
        "--export-page-no"@[3] == 'x',
        "--export-page-no"@[9] == 'p',
        "--export-page-no"@[12] == 'e',
        "--export-page-size"@.len() == 18,
        "--export-page-size"@[2] == 'e',
        "--export-page-size"@[3] == 'x',
        "--export-page-size"@[9] == 'p',
        "--export-page-size"@[14] == 's',
        "--export-password"@.len() == 17,
        "--export-password"@[2] == 'e',
        "--export-password"@[3] == 'x',
        "--export-password"@[9] == 'p',
        "--export-password"@[13] == 'w',
        "--export-port"@.len() == 13,
        "--export-port"@[2] == 'e',
        "--export-port"@[3] == 'x',
        "--export-port"@[9] == 'p',
        "--export-recsize"@.len() == 16,
        "--export-recsize"@[2] == 'e',
        "--export-recsize"@[3] == 'x',
        "--export-recsize"@[9] == 'r',
        "--export-recsize"@[12] == 's',
        "--export-tables"@.len() == 15,
        "--export-tables"@[2] == 'e',
        "--export-tables"@[3] == 'x',
        "--export-tables"@[9] == 't',
        "--export-tables"@[11] == 'b',
        "--export-user"@.len() == 13,
        "--export-user"@[2] == 'e',
        "--export-user"@[3] == 'x',
        "--export-user"@[9] == 'u',
        "--flow"@.len() == 6,
        "--flow"@[2] == 'f',
        "--flow"@[3] == 'l',
        "--hide-primary-key"@.len() == 18,
        "--hide-primary-key"@[2] == 'h',
        "--hide-primary-key"@[3] == 'i',
        "--hide-primary-key"@[9] == 'i',
        "--hide-primary-key"@[14] == '-',
        "--host"@.len() == 6,
        "--host"@[2] == 'h',
        "--host"@[3] == 'o',
        "--import-db-name"@.len() == 16,
        "--import-db-name"@[2] == 'i',
        "--import-db-name"@[3] == 'm',
        "--import-db-name"@[9] == 'd',
        "--import-db-name"@[12] == 'n',
        "--import-db-type"@.len() == 16,
        "--import-db-type"@[2] == 'i',
        "--import-db-type"@[3] == 'm',
        "--import-db-type"@[9] == 'd',
        "--import-db-type"@[12] == 't',
        "--import-host"@.len() == 13,
        "--import-host"@[2] == 'i',
        "--import-host"@[3] == 'm',
        "--import-host"@[9] == 'h',
        "--import-password"@.len() == 17,
        "--import-password"@[2] == 'i',
        "--import-password"@[3] == 'm',
        "--import-password"@[9] == 'p',
        "--import-password"@[13] == 'w',
        "--import-port"@.len() == 13,
        "--import-port"@[2] == 'i',
        "--import-port"@[3] == 'm',
        "--import-port"@[9] == 'p',
        "--import-user"@.len() == 13,
        "--import-user"@[2] == 'i',
        "--import-user"@[3] == 'm',
        "--import-user"@[9] == 'u',
        "--lang"@.len() == 6,
        "--lang"@[2] == 'l',
        "--lang"@[3] == 'a',
        "--mode"@.len() == 6,
        "--mode"@[2] == 'm',
        "--mode"@[3] == 'o',
        "--objects"@.len() == 9,
        "--objects"@[2] == 'o',
        "--objects"@[3] == 'b',
        "--objects"@[5] == 'e',
        "--order-by"@.len() == 10,
        "--order-by"@[2] == 'o',
        "--order-by"@[3] == 'r',
        "--order-by"@[6] == 'r',
        "--order-by"@[9] == 'y',
        "--output-dir"@.len() == 12,
        "--output-dir"@[2] == 'o',
        "--output-dir"@[3] == 'u',
        "--output-dir"@[8] == '-',
        "--output-dir"@[9] == 'd',
        "--output-directory"@.len() == 18,
        "--output-directory"@[2] == 'o',
        "--output-directory"@[3] == 'u',
        "--output-directory"@[9] == 'd',
        "--output-directory"@[14] == 't',
        "--output-format"@.len() == 15,
        "--output-format"@[2] == 'o',
        "--output-format"@[3] == 'u',
        "--output-format"@[9] == 'f',
        "--output-format"@[11] == 'r',
        "--page-no"@.len() == 9,
        "--page-no"@[2] == 'p',
        "--page-no"@[3] == 'a',
        "--page-no"@[5] == 'e',
        "--page-size"@.len() == 11,
        "--page-size"@[2] == 'p',
        "--page-size"@[3] == 'a',
        "--page-size"@[7] == 's',
        "--page-size"@[9] == 'z',
        "--password"@.len() == 10,
        "--password"@[2] == 'p',
        "--password"@[3] == 'a',
        "--password"@[6] == 'w',
        "--password"@[9] == 'd',
        "--port"@.len() == 6,
        "--port"@[2] == 'p',
        "--port"@[3] == 'o',
        "--recsize"@.len() == 9,
        "--recsize"@[2] == 'r',
        "--recsize"@[3] == 'e',
        "--recsize"@[5] == 's',
        "--tables"@.len() == 8,
        "--tables"@[2] == 't',
        "--tables"@[3] == 'a',
        "--tables"@[4] == 'b',
        "--user"@.len() == 6,
        "--user"@[2] == 'u',
        "--user"@[3] == 's',
{
    reveal_strlit("--compress");
    reveal_strlit("--condition");
    reveal_strlit("--db-name");
    reveal_strlit("--db-type");
    reveal_strlit("--delete-after-compress");
    reveal_strlit("--export-compress");
    reveal_strlit("--export-condition");
    reveal_strlit("--export-db-name");
    reveal_strlit("--export-db-type");
    reveal_strlit("--export-delete-after-compress");
    reveal_strlit("--export-hide-primary-key");
    reveal_strlit("--export-host");
    reveal_strlit("--export-objects");
    reveal_strlit("--export-order-by");
    reveal_strlit("--export-output-directory");
    reveal_strlit("--export-output-format");
    reveal_strlit("--export-page-no");
    reveal_strlit("--export-page-size");
    reveal_strlit("--export-password");
    reveal_strlit("--export-port");
    reveal_strlit("--export-recsize");
    reveal_strlit("--export-tables");
    reveal_strlit("--export-user");
    reveal_strlit("--flow");
    reveal_strlit("--hide-primary-key");
    reveal_strlit("--host");
    reveal_strlit("--import-db-name");
    reveal_strlit("--import-db-type");
    reveal_strlit("--import-host");
    reveal_strlit("--import-password");
    reveal_strlit("--import-port");
    reveal_strlit("--import-user");
    reveal_strlit("--lang");
    reveal_strlit("--mode");
    reveal_strlit("--objects");
    reveal_strlit("--order-by");
    reveal_strlit("--output-dir");
    reveal_strlit("--output-directory");
    reveal_strlit("--output-format");
    reveal_strlit("--page-no");
    reveal_strlit("--page-size");
    reveal_strlit("--password");
    reveal_strlit("--port");
    reveal_strlit("--recsize");
    reveal_strlit("--tables");
    reveal_strlit("--user");
}

/// The setting of each option that has both an `--export-` name and a
/// short name.
proof fn lemma_alias_settings()
    ensures
        arg_setting("--export-db-type"@) == Some(Setting::DbType),
        arg_setting("--db-type"@) == Some(Setting::DbType),
        arg_setting("--export-host"@) == Some(Setting::Host),
        arg_setting("--host"@) == Some(Setting::Host),
        arg_setting("--export-port"@) == Some(Setting::Port),
        arg_setting("--port"@) == Some(Setting::Port),
        arg_setting("--export-user"@) == Some(Setting::User),
        arg_setting("--user"@) == Some(Setting::User),
        arg_setting("--export-password"@) == Some(Setting::Password),
        arg_setting("--password"@) == Some(Setting::Password),
        arg_setting("--export-db-name"@) == Some(Setting::DbName),
        arg_setting("--db-name"@) == Some(Setting::DbName),
        arg_setting("--export-objects"@) == Some(Setting::Objects),
        arg_setting("--objects"@) == Some(Setting::Objects),
        arg_setting("--export-tables"@) == Some(Setting::Objects),
        arg_setting("--tables"@) == Some(Setting::Objects),
        arg_setting("--export-condition"@) == Some(Setting::Condition),
        arg_setting("--condition"@) == Some(Setting::Condition),
        arg_setting("--export-order-by"@) == Some(Setting::OrderBy),
        arg_setting("--order-by"@) == Some(Setting::OrderBy),
        arg_setting("--export-hide-primary-key"@) == Some(Setting::HidePrimaryKey),
        arg_setting("--hide-primary-key"@) == Some(Setting::HidePrimaryKey),
        arg_setting("--export-output-format"@) == Some(Setting::OutputFormat),
        arg_setting("--output-format"@) == Some(Setting::OutputFormat),
        arg_setting("--export-compress"@) == Some(Setting::Compress),
        arg_setting("--compress"@) == Some(Setting::Compress),
        arg_setting("--export-delete-after-compress"@) == Some(Setting::DeleteAfterCompress),
        arg_setting("--delete-after-compress"@) == Some(Setting::DeleteAfterCompress),
        arg_setting("--export-output-directory"@) == Some(Setting::OutputDirectory),
        arg_setting("--output-directory"@) == Some(Setting::OutputDirectory),
        arg_setting("--export-recsize"@) == Some(Setting::Recsize),
        arg_setting("--recsize"@) == Some(Setting::Recsize),
        arg_setting("--export-page-size"@) == Some(Setting::PageSize),
        arg_setting("--page-size"@) == Some(Setting::PageSize),
        arg_setting("--export-page-no"@) == Some(Setting::PageNo),
        arg_setting("--page-no"@) == Some(Setting::PageNo),
{
    lemma_option_name_chars();
}

/// The short name of an export option sets what its `--export-` name
/// sets: for every name `k`, if `--export-k` is an option then `--k` is
/// the same option (`--order-by` orders and `--condition` filters, as
/// `--export-order-by` and `--export-condition` do).
pub proof fn law_short_option_names(k: Seq<char>)
    ensures
        arg_setting("--export-"@ + k) is Some ==> arg_setting("--"@ + k) == arg_setting(
            "--export-"@ + k,
        ),
{
    let x = "--export-"@ + k;
    reveal_strlit("--export-");
    reveal_strlit("--");
    reveal_strlit("--compress");
    reveal_strlit("--condition");
    reveal_strlit("--db-name");
    reveal_strlit("--db-type");
    reveal_strlit("--delete-after-compress");
    reveal_strlit("--export-compress");
    reveal_strlit("--export-condition");
    reveal_strlit("--export-db-name");
    reveal_strlit("--export-db-type");
    reveal_strlit("--export-delete-after-compress");
    reveal_strlit("--export-hide-primary-key");
    reveal_strlit("--export-host");
    reveal_strlit("--export-objects");
    reveal_strlit("--export-order-by");
    reveal_strlit("--export-output-directory");
    reveal_strlit("--export-output-format");
    reveal_strlit("--export-page-no");
    reveal_strlit("--export-page-size");
    reveal_strlit("--export-password");
    reveal_strlit("--export-port");
    reveal_strlit("--export-recsize");
    reveal_strlit("--export-tables");
    reveal_strlit("--export-user");
    reveal_strlit("--flow");
    reveal_strlit("--hide-primary-key");
    reveal_strlit("--host");
    reveal_strlit("--import-db-name");
    reveal_strlit("--import-db-type");
    reveal_strlit("--import-host");
    reveal_strlit("--import-password");
    reveal_strlit("--import-port");
    reveal_strlit("--import-user");
    reveal_strlit("--lang");
    reveal_strlit("--mode");
    reveal_strlit("--objects");
    reveal_strlit("--order-by");
    reveal_strlit("--output-dir");
    reveal_strlit("--output-directory");
    reveal_strlit("--output-format");
    reveal_strlit("--page-no");
    reveal_strlit("--page-size");
    reveal_strlit("--password");
    reveal_strlit("--port");
    reveal_strlit("--recsize");
    reveal_strlit("--tables");
    reveal_strlit("--user");
    reveal_strlit("db-type");
    reveal_strlit("host");
    reveal_strlit("port");
    reveal_strlit("user");
    reveal_strlit("password");
    reveal_strlit("db-name");
    reveal_strlit("objects");
    reveal_strlit("tables");
    reveal_strlit("condition");
    reveal_strlit("order-by");
    reveal_strlit("hide-primary-key");
    reveal_strlit("output-format");
    reveal_strlit("compress");
    reveal_strlit("delete-after-compress");
    reveal_strlit("output-directory");
    reveal_strlit("recsize");
    reveal_strlit("page-size");
    reveal_strlit("page-no");
    lemma_option_name_chars();
    lemma_alias_settings();
    assert(x.len() == k.len() + 9);
    assert(x[2] == 'e' && x[3] == 'x');
    if x == "--export-db-type"@ {
        assert(k =~= x.skip(9));
        assert(x.skip(9) =~= "db-type"@);
        assert("--"@ + k =~= "--db-type"@);
    } else if x == "--export-host"@ {
        assert(k =~= x.skip(9));
        assert(x.skip(9) =~= "host"@);
        assert("--"@ + k =~= "--host"@);
    } else if x == "--export-port"@ {
        assert(k =~= x.skip(9));
        assert(x.skip(9) =~= "port"@);
        assert("--"@ + k =~= "--port"@);
    } else if x == "--export-user"@ {
        assert(k =~= x.skip(9));
        assert(x.skip(9) =~= "user"@);
        assert("--"@ + k =~= "--user"@);
    } else if x == "--export-password"@ {
        assert(k =~= x.skip(9));
        assert(x.skip(9) =~= "password"@);
        assert("--"@ + k =~= "--password"@);
    } else if x == "--export-db-name"@ {
        assert(k =~= x.skip(9));
        assert(x.skip(9) =~= "db-name"@);
        assert("--"@ + k =~= "--db-name"@);
    } else if x == "--export-objects"@ {
        assert(k =~= x.skip(9));
        assert(x.skip(9) =~= "objects"@);
        assert("--"@ + k =~= "--objects"@);
    } else if x == "--export-tables"@ {
        assert(k =~= x.skip(9));
        assert(x.skip(9) =~= "tables"@);
        assert("--"@ + k =~= "--tables"@);
    } else if x == "--export-condition"@ {
        assert(k =~= x.skip(9));
        assert(x.skip(9) =~= "condition"@);
        assert("--"@ + k =~= "--condition"@);
    } else if x == "--export-order-by"@ {
        assert(k =~= x.skip(9));
        assert(x.skip(9) =~= "order-by"@);
        assert("--"@ + k =~= "--order-by"@);
    } else if x == "--export-hide-primary-key"@ {
        assert(k =~= x.skip(9));
        assert(x.skip(9) =~= "hide-primary-key"@);
        assert("--"@ + k =~= "--hide-primary-key"@);
    } else if x == "--export-output-format"@ {
        assert(k =~= x.skip(9));
        assert(x.skip(9) =~= "output-format"@);
        assert("--"@ + k =~= "--output-format"@);
    } else if x == "--export-compress"@ {
        assert(k =~= x.skip(9));
        assert(x.skip(9) =~= "compress"@);
        assert("--"@ + k =~= "--compress"@);
    } else if x == "--export-delete-after-compress"@ {
        assert(k =~= x.skip(9));
        assert(x.skip(9) =~= "delete-after-compress"@);
        assert("--"@ + k =~= "--delete-after-compress"@);
    } else if x == "--export-output-directory"@ {
        assert(k =~= x.skip(9));
        assert(x.skip(9) =~= "output-directory"@);
        assert("--"@ + k =~= "--output-directory"@);
    } else if x == "--export-recsize"@ {
        assert(k =~= x.skip(9));
        assert(x.skip(9) =~= "recsize"@);
        assert("--"@ + k =~= "--recsize"@);
    } else if x == "--export-page-size"@ {
        assert(k =~= x.skip(9));
        assert(x.skip(9) =~= "page-size"@);
        assert("--"@ + k =~= "--page-size"@);
    } else if x == "--export-page-no"@ {
        assert(k =~= x.skip(9));
        assert(x.skip(9) =~= "page-no"@);
        assert("--"@ + k =~= "--page-no"@);
    } else {
        assert(arg_setting(x) is None);
    }
}

} // verus!
