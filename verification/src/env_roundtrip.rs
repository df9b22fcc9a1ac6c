//! Saving the configuration into `.env` and reading it back: the variables
//! the saved file sets give back the settings that were saved.
use vstd::prelude::*;
use crate::config::{
    law_bool_roundtrip, law_compress_roundtrip, law_db_type_roundtrip, law_flow_roundtrip,
    law_lang_roundtrip, law_mode_roundtrip, law_output_format_roundtrip, spec_bool_str,
    spec_db_type_str, spec_flow_str, spec_lang_str, spec_mode_str, spec_output_format_str,
    CliView, ConfigErr, FlowMode,
};
use crate::env::{
    env_apply, env_keys, env_lookup, env_plain_key, env_step, env_step_value, env_steps, env_value,
    EnvView,
};
use crate::env_file::{lemma_key_facts, managed_entries, EnvEntries};
use crate::text::{decimal, lemma_decimal_reads_back, lemma_trim_unchanged, trim_seq};

verus! {

/// The variables a saved file sets, in the file's order: every managed key
/// that has a value, with that value.
pub open spec fn saved_vars(m: EnvEntries) -> EnvView
    decreases m.len(),
{
    if m.len() == 0 {
        seq![]
    } else {
        let rest = saved_vars(m.drop_first());
        match m[0].1 {
            Some(v) => seq![(m[0].0, v)] + rest,
            None => rest,
        }
    }
}

/// No key is managed twice.
pub open spec fn distinct_keys(m: EnvEntries) -> bool {
    forall|a: int, b: int| 0 <= a < b < m.len() ==> m[a].0 != m[b].0
}

/// A key that no entry manages is not set.
proof fn lemma_saved_absent(m: EnvEntries, k: Seq<char>)
    requires
        forall|j: int| 0 <= j < m.len() ==> m[j].0 != k,
    ensures
        env_lookup(saved_vars(m), k) is None,
    decreases m.len(),
{
    if m.len() > 0 {
        let rest = m.drop_first();
        assert forall|j: int| 0 <= j < rest.len() implies rest[j].0 != k by {
            assert(rest[j] == m[j + 1]);
        }
        lemma_saved_absent(rest, k);
        match m[0].1 {
            Some(v) => {
                let s = seq![(m[0].0, v)] + saved_vars(rest);
                assert(s.drop_first() =~= saved_vars(rest));
            },
            None => {},
        }
    }
}

/// A managed key is set to its entry's value, or not set when the entry
/// has none.
proof fn lemma_saved_lookup(m: EnvEntries, i: int)
    requires
        0 <= i < m.len(),
        distinct_keys(m),
    ensures
        env_lookup(saved_vars(m), m[i].0) == m[i].1,
    decreases m.len(),
{
    let rest = m.drop_first();
    assert(distinct_keys(rest)) by {
        assert forall|a: int, b: int| 0 <= a < b < rest.len() implies rest[a].0 != rest[b].0 by {
            assert(rest[a] == m[a + 1]);
            assert(rest[b] == m[b + 1]);
        }
    }
    if i == 0 {
        assert forall|j: int| 0 <= j < rest.len() implies rest[j].0 != m[0].0 by {
            assert(rest[j] == m[j + 1]);
        }
        lemma_saved_absent(rest, m[0].0);
        match m[0].1 {
            Some(v) => {
                let s = seq![(m[0].0, v)] + saved_vars(rest);
                assert(s[0] == (m[0].0, v));
            },
            None => {},
        }
    } else {
        assert(rest[i - 1] == m[i]);
        lemma_saved_lookup(rest, i - 1);
        match m[0].1 {
            Some(v) => {
                let s = seq![(m[0].0, v)] + saved_vars(rest);
                assert(s.drop_first() =~= saved_vars(rest));
                assert(s[0].0 != m[i].0);
            },
            None => {},
        }
    }
}

/// What tells the names read only as fallbacks apart from the saved keys:
/// their lengths and their eighth characters.
proof fn lemma_fallback_key_facts()
    ensures
        "DB2SQL_DB_TYPE"@.len() == 14,
        "DB2SQL_DB_TYPE"@[7] == 'D',
        "DB2SQL_HOST"@.len() == 11,
        "DB2SQL_HOST"@[7] == 'H',
        "DB2SQL_PORT"@.len() == 11,
        "DB2SQL_PORT"@[7] == 'P',
        "DB2SQL_USER"@.len() == 11,
        "DB2SQL_USER"@[7] == 'U',
        "DB2SQL_PASSWORD"@.len() == 15,
        "DB2SQL_PASSWORD"@[7] == 'P',
        "DB2SQL_DB_NAME"@.len() == 14,
        "DB2SQL_DB_NAME"@[7] == 'D',
        "DB2SQL_OBJECTS"@.len() == 14,
        "DB2SQL_OBJECTS"@[7] == 'O',
        "DB2SQL_CONDITION"@.len() == 16,
        "DB2SQL_CONDITION"@[7] == 'C',
        "DB2SQL_ORDER_BY"@.len() == 15,
        "DB2SQL_ORDER_BY"@[7] == 'O',
        "DB2SQL_HIDE_PRIMARY_KEY"@.len() == 23,
        "DB2SQL_HIDE_PRIMARY_KEY"@[7] == 'H',
        "DB2SQL_OUTPUT_FORMAT"@.len() == 20,
        "DB2SQL_OUTPUT_FORMAT"@[7] == 'O',
        "DB2SQL_COMPRESS"@.len() == 15,
        "DB2SQL_COMPRESS"@[7] == 'C',
        "DB2SQL_DELETE_AFTER_COMPRESS"@.len() == 28,
        "DB2SQL_DELETE_AFTER_COMPRESS"@[7] == 'D',
        "DB2SQL_OUTPUT_DIRECTORY"@.len() == 23,
        "DB2SQL_OUTPUT_DIRECTORY"@[7] == 'O',
        "DB2SQL_RECSIZE"@.len() == 14,
        "DB2SQL_RECSIZE"@[7] == 'R',
        "DB2SQL_PAGE_SIZE"@.len() == 16,
        "DB2SQL_PAGE_SIZE"@[7] == 'P',
        "DB2SQL_PAGE_NO"@.len() == 14,
        "DB2SQL_PAGE_NO"@[7] == 'P',
        "DB_TYPE"@.len() == 7,
        "DB_HOST"@.len() == 7,
        "DB_PORT"@.len() == 7,
        "DB_USER"@.len() == 7,
        "DB_PASSWORD"@.len() == 11,
        "DB_PASSWORD"@[7] == 'W',
        "DB_NAME"@.len() == 7,
        "OUTPUT_FORMAT"@.len() == 13,
        "OUTPUT_FORMAT"@[7] == 'F',
        "OUTPUT_DIR"@.len() == 10,
        "OUTPUT_DIR"@[7] == 'D',
{
    reveal_strlit("DB2SQL_DB_TYPE");
    reveal_strlit("DB2SQL_HOST");
    reveal_strlit("DB2SQL_PORT");
    reveal_strlit("DB2SQL_USER");
    reveal_strlit("DB2SQL_PASSWORD");
    reveal_strlit("DB2SQL_DB_NAME");
    reveal_strlit("DB2SQL_OBJECTS");
    reveal_strlit("DB2SQL_CONDITION");
    reveal_strlit("DB2SQL_ORDER_BY");
    reveal_strlit("DB2SQL_HIDE_PRIMARY_KEY");
    reveal_strlit("DB2SQL_OUTPUT_FORMAT");
    reveal_strlit("DB2SQL_COMPRESS");
    reveal_strlit("DB2SQL_DELETE_AFTER_COMPRESS");
    reveal_strlit("DB2SQL_OUTPUT_DIRECTORY");
    reveal_strlit("DB2SQL_RECSIZE");
    reveal_strlit("DB2SQL_PAGE_SIZE");
    reveal_strlit("DB2SQL_PAGE_NO");
    reveal_strlit("DB_TYPE");
    reveal_strlit("DB_HOST");
    reveal_strlit("DB_PORT");
    reveal_strlit("DB_USER");
    reveal_strlit("DB_PASSWORD");
    reveal_strlit("DB_NAME");
    reveal_strlit("OUTPUT_FORMAT");
    reveal_strlit("OUTPUT_DIR");
}

/// The names of the enumerated values have no white space at either end.
proof fn lemma_value_names_trimmed()
    ensures
        trim_seq("export"@) == "export"@,
        "export"@.len() > 0,
        trim_seq("import"@) == "import"@,
        "import"@.len() > 0,
        trim_seq("tui"@) == "tui"@,
        "tui"@.len() > 0,
        trim_seq("cli"@) == "cli"@,
        "cli"@.len() > 0,
        trim_seq("tw"@) == "tw"@,
        "tw"@.len() > 0,
        trim_seq("en"@) == "en"@,
        "en"@.len() > 0,
        trim_seq("ja"@) == "ja"@,
        "ja"@.len() > 0,
        trim_seq("mssql"@) == "mssql"@,
        "mssql"@.len() > 0,
        trim_seq("oracle"@) == "oracle"@,
        "oracle"@.len() > 0,
        trim_seq("mysql"@) == "mysql"@,
        "mysql"@.len() > 0,
        trim_seq("postgresql"@) == "postgresql"@,
        "postgresql"@.len() > 0,
        trim_seq("sql-lite"@) == "sql-lite"@,
        "sql-lite"@.len() > 0,
        trim_seq("true"@) == "true"@,
        "true"@.len() > 0,
        trim_seq("false"@) == "false"@,
        "false"@.len() > 0,
        trim_seq("sql"@) == "sql"@,
        "sql"@.len() > 0,
        trim_seq("csv"@) == "csv"@,
        "csv"@.len() > 0,
        trim_seq("excel"@) == "excel"@,
        "excel"@.len() > 0,
        trim_seq("json"@) == "json"@,
        "json"@.len() > 0,
        trim_seq("xml"@) == "xml"@,
        "xml"@.len() > 0,
        trim_seq("md"@) == "md"@,
        "md"@.len() > 0,
        trim_seq("zip"@) == "zip"@,
        "zip"@.len() > 0,
        trim_seq("bzip"@) == "bzip"@,
        "bzip"@.len() > 0,
        trim_seq("tar"@) == "tar"@,
        "tar"@.len() > 0,
{
    reveal_strlit("export");
    lemma_trim_unchanged("export"@);
    reveal_strlit("import");
    lemma_trim_unchanged("import"@);
    reveal_strlit("tui");
    lemma_trim_unchanged("tui"@);
    reveal_strlit("cli");
    lemma_trim_unchanged("cli"@);
    reveal_strlit("tw");
    lemma_trim_unchanged("tw"@);
    reveal_strlit("en");
    lemma_trim_unchanged("en"@);
    reveal_strlit("ja");
    lemma_trim_unchanged("ja"@);
    reveal_strlit("mssql");
    lemma_trim_unchanged("mssql"@);
    reveal_strlit("oracle");
    lemma_trim_unchanged("oracle"@);
    reveal_strlit("mysql");
    lemma_trim_unchanged("mysql"@);
    reveal_strlit("postgresql");
    lemma_trim_unchanged("postgresql"@);
    reveal_strlit("sql-lite");
    lemma_trim_unchanged("sql-lite"@);
    reveal_strlit("true");
    lemma_trim_unchanged("true"@);
    reveal_strlit("false");
    lemma_trim_unchanged("false"@);
    reveal_strlit("sql");
    lemma_trim_unchanged("sql"@);
    reveal_strlit("csv");
    lemma_trim_unchanged("csv"@);
    reveal_strlit("excel");
    lemma_trim_unchanged("excel"@);
    reveal_strlit("json");
    lemma_trim_unchanged("json"@);
    reveal_strlit("xml");
    lemma_trim_unchanged("xml"@);
    reveal_strlit("md");
    lemma_trim_unchanged("md"@);
    reveal_strlit("zip");
    lemma_trim_unchanged("zip"@);
    reveal_strlit("bzip");
    lemma_trim_unchanged("bzip"@);
    reveal_strlit("tar");
    lemma_trim_unchanged("tar"@);
}

/// Text that reads back as itself: no white space at either end.
pub open spec fn trimmed(t: Seq<char>) -> bool {
    trim_seq(t) == t
}

/// A configuration `.env` holds exactly: a data flow (a schema flow is
/// saved under its data flow's name), numbers that are not zero (reading
/// refuses a zero), texts without white space at their ends (reading trims
/// it away), and optional texts that are not blank (a blank one reads as
/// unset).
pub open spec fn storable(c: CliView) -> bool {
    &&& (c.flow == FlowMode::Export || c.flow == FlowMode::Import)
    &&& c.port != 0
    &&& c.import_port != 0
    &&& c.page_size != 0
    &&& (c.recsize matches Some(n) ==> n != 0)
    &&& (c.page_no matches Some(n) ==> n != 0)
    &&& trimmed(c.host)
    &&& trimmed(c.user)
    &&& trimmed(c.password)
    &&& trimmed(c.db_name)
    &&& trimmed(c.objects)
    &&& (c.condition matches Some(v) ==> trimmed(v) && v.len() > 0)
    &&& (c.order_by matches Some(v) ==> trimmed(v) && v.len() > 0)
    &&& trimmed(c.output_directory)
    &&& trimmed(c.import_host)
    &&& trimmed(c.import_user)
    &&& trimmed(c.import_password)
    &&& trimmed(c.import_db_name)
}

/// The value a saved entry gives back when read: the saved text, or nothing
/// for an entry without a value or with a blank one.
pub open spec fn read_back(e: Option<Seq<char>>) -> Option<Seq<char>> {
    match e {
        Some(v) => if v.len() > 0 {
            Some(v)
        } else {
            None
        },
        None => None,
    }
}

/// Every value saved for a storable configuration reads back as itself.
proof fn lemma_entries_trimmed(c: CliView)
    requires
        storable(c),
    ensures
        forall|j: int|
            0 <= j < managed_entries(c).len() && (#[trigger] managed_entries(c)[j]).1 is Some
                ==> trim_seq(managed_entries(c)[j].1->0) == managed_entries(c)[j].1->0,
{
    lemma_value_names_trimmed();
    lemma_decimal_reads_back(c.port as nat);
    lemma_trim_unchanged(decimal(c.port as nat));
    lemma_decimal_reads_back(c.import_port as nat);
    lemma_trim_unchanged(decimal(c.import_port as nat));
    lemma_decimal_reads_back(c.page_size as nat);
    lemma_trim_unchanged(decimal(c.page_size as nat));
    if let Some(n) = c.recsize {
        lemma_decimal_reads_back(n as nat);
        lemma_trim_unchanged(decimal(n as nat));
    }
    if let Some(n) = c.page_no {
        lemma_decimal_reads_back(n as nat);
        lemma_trim_unchanged(decimal(n as nat));
    }
    let m = managed_entries(c);
    assert forall|j: int| 0 <= j < m.len() && (#[trigger] m[j]).1 is Some implies trim_seq(
        m[j].1->0,
    ) == m[j].1->0 by {}
}

/// Each reading step finds the value saved for its setting under the
/// setting's own name; a setting saved without a value, or with a blank one,
/// finds nothing under any of the names it reads.
proof fn lemma_step_value(c: CliView, k: nat)
    requires
        storable(c),
        k < 26,
    ensures
        env_step_value(saved_vars(managed_entries(c)), k) == read_back(
            managed_entries(c)[k as int].1,
        ),
{
    let m = managed_entries(c);
    let vars = saved_vars(m);
    lemma_key_facts();
    lemma_fallback_key_facts();
    lemma_entries_trimmed(c);
    assert(distinct_keys(m));
    lemma_saved_lookup(m, k as int);
    assert(env_keys(k).0 == m[k as int].0);
    assert(env_value(vars, m[k as int].0) == read_back(m[k as int].1));
    if let Some(f) = env_keys(k).1 {
        assert forall|j: int| 0 <= j < m.len() implies m[j].0 != f by {}
        lemma_saved_absent(m, f);
    }
    if let Some(p) = env_plain_key(k) {
        assert forall|j: int| 0 <= j < m.len() implies m[j].0 != p by {}
        lemma_saved_absent(m, p);
    }
}

/// A required text read back: the saved text, or, when it was blank (which
/// reading takes as unset), the text the configuration held before.
pub open spec fn kept_text(before: Seq<char>, saved: Seq<char>) -> Seq<char> {
    if saved.len() > 0 {
        saved
    } else {
        before
    }
}

/// What reading the variables saved from `c` makes of the configuration
/// `c0`: each of the saved settings as `c` has it (a blank required text
/// leaves the text `c0` had), and every field that is not saved as `c0` has
/// it.
pub open spec fn restored(c0: CliView, c: CliView) -> CliView {
    CliView {
        flow: c.flow,
        mode: c.mode,
        lang: c.lang,
        db_type: c.db_type,
        host: kept_text(c0.host, c.host),
        port: c.port,
        user: kept_text(c0.user, c.user),
        password: kept_text(c0.password, c.password),
        db_name: kept_text(c0.db_name, c.db_name),
        objects: kept_text(c0.objects, c.objects),
        condition: c.condition,
        order_by: c.order_by,
        hide_primary_key: c.hide_primary_key,
        output_format: c.output_format,
        compress: c.compress,
        delete_after_compress: c.delete_after_compress,
        output_directory: kept_text(c0.output_directory, c.output_directory),
        recsize: c.recsize,
        page_size: c.page_size,
        page_no: c.page_no,
        import_host: kept_text(c0.import_host, c.import_host),
        import_port: c.import_port,
        import_db_type: c.import_db_type,
        import_user: kept_text(c0.import_user, c.import_user),
        import_password: kept_text(c0.import_password, c.import_password),
        import_db_name: kept_text(c0.import_db_name, c.import_db_name),
        ..c0
    }
}

/// The configuration after the first `k` reading steps: the fields those
/// steps set as in `r`, the others as in `c0`.
pub open spec fn read_upto(c0: CliView, r: CliView, k: nat) -> CliView {
    CliView {
        flow: if k > 0 {
            r.flow
        } else {
            c0.flow
        },
        mode: if k > 1 {
            r.mode
        } else {
            c0.mode
        },
        lang: if k > 2 {
            r.lang
        } else {
            c0.lang
        },
        db_type: if k > 3 {
            r.db_type
        } else {
            c0.db_type
        },
        host: if k > 4 {
            r.host
        } else {
            c0.host
        },
        port: if k > 5 {
            r.port
        } else {
            c0.port
        },
        user: if k > 6 {
            r.user
        } else {
            c0.user
        },
        password: if k > 7 {
            r.password
        } else {
            c0.password
        },
        db_name: if k > 8 {
            r.db_name
        } else {
            c0.db_name
        },
        objects: if k > 9 {
            r.objects
        } else {
            c0.objects
        },
        condition: if k > 10 {
            r.condition
        } else {
            c0.condition
        },
        order_by: if k > 11 {
            r.order_by
        } else {
            c0.order_by
        },
        hide_primary_key: if k > 12 {
            r.hide_primary_key
        } else {
            c0.hide_primary_key
        },
        output_format: if k > 13 {
            r.output_format
        } else {
            c0.output_format
        },
        compress: if k > 14 {
            r.compress
        } else {
            c0.compress
        },
        delete_after_compress: if k > 15 {
            r.delete_after_compress
        } else {
            c0.delete_after_compress
        },
        output_directory: if k > 16 {
            r.output_directory
        } else {
            c0.output_directory
        },
        recsize: if k > 17 {
            r.recsize
        } else {
            c0.recsize
        },
        page_size: if k > 18 {
            r.page_size
        } else {
            c0.page_size
        },
        page_no: if k > 19 {
            r.page_no
        } else {
            c0.page_no
        },
        import_host: if k > 20 {
            r.import_host
        } else {
            c0.import_host
        },
        import_port: if k > 21 {
            r.import_port
        } else {
            c0.import_port
        },
        import_db_type: if k > 22 {
            r.import_db_type
        } else {
            c0.import_db_type
        },
        import_user: if k > 23 {
            r.import_user
        } else {
            c0.import_user
        },
        import_password: if k > 24 {
            r.import_password
        } else {
            c0.import_password
        },
        import_db_name: if k > 25 {
            r.import_db_name
        } else {
            c0.import_db_name
        },
        ..c0
    }
}

/// The step that reads `flow`, a value that is always saved.
#[verifier::spinoff_prover]
proof fn lemma_flow_step(c0: CliView, c: CliView)
    requires
        storable(c),
    ensures
        env_step(read_upto(c0, restored(c0, c), 0), saved_vars(managed_entries(c)), 0) == Ok::<
            CliView,
            ConfigErr,
        >(read_upto(c0, restored(c0, c), 1)),
{
    let vars = saved_vars(managed_entries(c));
    lemma_step_value(c, 0);
    lemma_value_names_trimmed();
    law_flow_roundtrip(c.flow);
    assert(env_step_value(vars, 0) == Some(spec_flow_str(c.flow)));
}

/// The step that reads `mode`, a value that is always saved.
#[verifier::spinoff_prover]
proof fn lemma_mode_step(c0: CliView, c: CliView)
    requires
        storable(c),
    ensures
        env_step(read_upto(c0, restored(c0, c), 1), saved_vars(managed_entries(c)), 1) == Ok::<
            CliView,
            ConfigErr,
        >(read_upto(c0, restored(c0, c), 2)),
{
    let vars = saved_vars(managed_entries(c));
    lemma_step_value(c, 1);
    lemma_value_names_trimmed();
    law_mode_roundtrip(c.mode);
    assert(env_step_value(vars, 1) == Some(spec_mode_str(c.mode)));
}

/// The step that reads `lang`, a value that is always saved.
#[verifier::spinoff_prover]
proof fn lemma_lang_step(c0: CliView, c: CliView)
    requires
        storable(c),
    ensures
        env_step(read_upto(c0, restored(c0, c), 2), saved_vars(managed_entries(c)), 2) == Ok::<
            CliView,
            ConfigErr,
        >(read_upto(c0, restored(c0, c), 3)),
{
    let vars = saved_vars(managed_entries(c));
    lemma_step_value(c, 2);
    lemma_value_names_trimmed();
    law_lang_roundtrip(c.lang);
    assert(env_step_value(vars, 2) == Some(spec_lang_str(c.lang)));
}

/// The step that reads `db_type`, a value that is always saved.
#[verifier::spinoff_prover]
proof fn lemma_db_type_step(c0: CliView, c: CliView)
    requires
        storable(c),
    ensures
        env_step(read_upto(c0, restored(c0, c), 3), saved_vars(managed_entries(c)), 3) == Ok::<
            CliView,
            ConfigErr,
        >(read_upto(c0, restored(c0, c), 4)),
{
    let vars = saved_vars(managed_entries(c));
    lemma_step_value(c, 3);
    lemma_value_names_trimmed();
    law_db_type_roundtrip(c.db_type);
    assert(env_step_value(vars, 3) == Some(spec_db_type_str(c.db_type)));
}

/// The step that reads `hide_primary_key`, a value that is always saved.
#[verifier::spinoff_prover]
proof fn lemma_hide_primary_key_step(c0: CliView, c: CliView)
    requires
        storable(c),
    ensures
        env_step(read_upto(c0, restored(c0, c), 12), saved_vars(managed_entries(c)), 12) == Ok::<
            CliView,
            ConfigErr,
        >(read_upto(c0, restored(c0, c), 13)),
{
    let vars = saved_vars(managed_entries(c));
    lemma_step_value(c, 12);
    lemma_value_names_trimmed();
    law_bool_roundtrip(c.hide_primary_key);
    assert(env_step_value(vars, 12) == Some(spec_bool_str(c.hide_primary_key)));
}

/// The step that reads `output_format`, a value that is always saved.
#[verifier::spinoff_prover]
proof fn lemma_output_format_step(c0: CliView, c: CliView)
    requires
        storable(c),
    ensures
        env_step(read_upto(c0, restored(c0, c), 13), saved_vars(managed_entries(c)), 13) == Ok::<
            CliView,
            ConfigErr,
        >(read_upto(c0, restored(c0, c), 14)),
{
    let vars = saved_vars(managed_entries(c));
    lemma_step_value(c, 13);
    lemma_value_names_trimmed();
    law_output_format_roundtrip(c.output_format);
    assert(env_step_value(vars, 13) == Some(spec_output_format_str(c.output_format)));
}

/// The step that reads `delete_after_compress`, a value that is always saved.
#[verifier::spinoff_prover]
proof fn lemma_delete_after_compress_step(c0: CliView, c: CliView)
    requires
        storable(c),
    ensures
        env_step(read_upto(c0, restored(c0, c), 15), saved_vars(managed_entries(c)), 15) == Ok::<
            CliView,
            ConfigErr,
        >(read_upto(c0, restored(c0, c), 16)),
{
    let vars = saved_vars(managed_entries(c));
    lemma_step_value(c, 15);
    lemma_value_names_trimmed();
    law_bool_roundtrip(c.delete_after_compress);
    assert(env_step_value(vars, 15) == Some(spec_bool_str(c.delete_after_compress)));
}

/// The step that reads `import_db_type`, a value that is always saved.
#[verifier::spinoff_prover]
proof fn lemma_import_db_type_step(c0: CliView, c: CliView)
    requires
        storable(c),
    ensures
        env_step(read_upto(c0, restored(c0, c), 22), saved_vars(managed_entries(c)), 22) == Ok::<
            CliView,
            ConfigErr,
        >(read_upto(c0, restored(c0, c), 23)),
{
    let vars = saved_vars(managed_entries(c));
    lemma_step_value(c, 22);
    lemma_value_names_trimmed();
    law_db_type_roundtrip(c.import_db_type);
    assert(env_step_value(vars, 22) == Some(spec_db_type_str(c.import_db_type)));
}

/// A step that reads a number that is always saved (steps are numbered as
/// `env_setting` numbers them).
#[verifier::spinoff_prover]
proof fn lemma_numeric_step(c0: CliView, c: CliView, k: nat)
    requires
        storable(c),
        k == 5 || k == 18 || k == 21,
    ensures
        env_step(read_upto(c0, restored(c0, c), k), saved_vars(managed_entries(c)), k) == Ok::<
            CliView,
            ConfigErr,
        >(read_upto(c0, restored(c0, c), k + 1)),
{
    let r = restored(c0, c);
    let x = read_upto(c0, r, k);
    let y = read_upto(c0, r, k + 1);
    let vars = saved_vars(managed_entries(c));
    lemma_step_value(c, k);
    if k == 5 {
        assert(env_step(x, vars, k) == Ok::<CliView, ConfigErr>(y)) by {
            lemma_decimal_reads_back(c.port as nat);
        }
    } else if k == 18 {
        assert(env_step(x, vars, k) == Ok::<CliView, ConfigErr>(y)) by {
            lemma_decimal_reads_back(c.page_size as nat);
        }
    } else if k == 21 {
        assert(env_step(x, vars, k) == Ok::<CliView, ConfigErr>(y)) by {
            lemma_decimal_reads_back(c.import_port as nat);
        }
    }
}

/// A step that reads an optional setting: a saved value sets it, a missing
/// one clears it.
#[verifier::spinoff_prover]
proof fn lemma_optional_step(c0: CliView, c: CliView, k: nat)
    requires
        storable(c),
        k == 10 || k == 11 || k == 14 || k == 17 || k == 19,
    ensures
        env_step(read_upto(c0, restored(c0, c), k), saved_vars(managed_entries(c)), k) == Ok::<
            CliView,
            ConfigErr,
        >(read_upto(c0, restored(c0, c), k + 1)),
{
    let r = restored(c0, c);
    let x = read_upto(c0, r, k);
    let y = read_upto(c0, r, k + 1);
    let vars = saved_vars(managed_entries(c));
    lemma_step_value(c, k);
    lemma_value_names_trimmed();
    if k == 10 {
        assert(env_step(x, vars, k) == Ok::<CliView, ConfigErr>(y));
    } else if k == 11 {
        assert(env_step(x, vars, k) == Ok::<CliView, ConfigErr>(y));
    } else if k == 14 {
        assert(env_step(x, vars, k) == Ok::<CliView, ConfigErr>(y)) by {
            if let Some(t) = c.compress {
                law_compress_roundtrip(t);
            }
        }
    } else if k == 17 {
        assert(env_step(x, vars, k) == Ok::<CliView, ConfigErr>(y)) by {
            if let Some(n) = c.recsize {
                lemma_decimal_reads_back(n as nat);
            }
        }
    } else if k == 19 {
        assert(env_step(x, vars, k) == Ok::<CliView, ConfigErr>(y)) by {
            if let Some(n) = c.page_no {
                lemma_decimal_reads_back(n as nat);
            }
        }
    }
}

/// A step that reads a required text: a saved text sets it, a blank one
/// leaves the field as it was.
#[verifier::spinoff_prover]
proof fn lemma_text_step(c0: CliView, c: CliView, k: nat)
    requires
        storable(c),
        k == 4 || k == 6 || k == 7 || k == 8 || k == 9 || k == 16 || k == 20 || k == 23 || k
            == 24 || k == 25,
    ensures
        env_step(read_upto(c0, restored(c0, c), k), saved_vars(managed_entries(c)), k) == Ok::<
            CliView,
            ConfigErr,
        >(read_upto(c0, restored(c0, c), k + 1)),
{
    let r = restored(c0, c);
    let x = read_upto(c0, r, k);
    let y = read_upto(c0, r, k + 1);
    let vars = saved_vars(managed_entries(c));
    lemma_step_value(c, k);
    if k == 4 {
        assert(env_step(x, vars, k) == Ok::<CliView, ConfigErr>(y));
    } else if k == 6 {
        assert(env_step(x, vars, k) == Ok::<CliView, ConfigErr>(y));
    } else if k == 7 {
        assert(env_step(x, vars, k) == Ok::<CliView, ConfigErr>(y));
    } else if k == 8 {
        assert(env_step(x, vars, k) == Ok::<CliView, ConfigErr>(y));
    } else if k == 9 {
        assert(env_step(x, vars, k) == Ok::<CliView, ConfigErr>(y));
    } else if k == 16 {
        assert(env_step(x, vars, k) == Ok::<CliView, ConfigErr>(y));
    } else if k == 20 {
        assert(env_step(x, vars, k) == Ok::<CliView, ConfigErr>(y));
    } else if k == 23 {
        assert(env_step(x, vars, k) == Ok::<CliView, ConfigErr>(y));
    } else if k == 24 {
        assert(env_step(x, vars, k) == Ok::<CliView, ConfigErr>(y));
    } else if k == 25 {
        assert(env_step(x, vars, k) == Ok::<CliView, ConfigErr>(y));
    }
}

/// The first `k` reading steps set their fields as `restored` has them and
/// refuse nothing.
proof fn lemma_read_steps(c0: CliView, c: CliView, k: nat)
    requires
        storable(c),
        k <= 26,
    ensures
        env_steps(c0, saved_vars(managed_entries(c)), k) == (
            read_upto(c0, restored(c0, c), k),
            None::<ConfigErr>,
        ),
    decreases k,
{
    if k == 0 {
        assert(read_upto(c0, restored(c0, c), 0) == c0);
    } else {
        let j = (k - 1) as nat;
        lemma_read_steps(c0, c, j);
        if j == 0 {
            lemma_flow_step(c0, c);
        } else if j == 1 {
            lemma_mode_step(c0, c);
        } else if j == 2 {
            lemma_lang_step(c0, c);
        } else if j == 3 {
            lemma_db_type_step(c0, c);
        } else if j == 12 {
            lemma_hide_primary_key_step(c0, c);
        } else if j == 13 {
            lemma_output_format_step(c0, c);
        } else if j == 15 {
            lemma_delete_after_compress_step(c0, c);
        } else if j == 22 {
            lemma_import_db_type_step(c0, c);
        } else if j == 5 || j == 18 || j == 21 {
            lemma_numeric_step(c0, c, j);
        } else if j == 10 || j == 11 || j == 14 || j == 17 || j == 19 {
            lemma_optional_step(c0, c, j);
        } else {
            lemma_text_step(c0, c, j);
        }
    }
}

/// Reading back the variables that saving a configuration writes into
/// `.env` refuses nothing and gives every saved setting as it was saved:
/// the flow, mode and language, the export and import connections, the
/// object selection, condition and order, the output options and the
/// paging. A required text saved blank reads as unset and leaves what the
/// configuration held; so reading into the configuration that was saved
/// changes nothing.
pub proof fn law_saved_settings_read_back(c0: CliView, c: CliView)
    requires
        storable(c),
    ensures
        env_apply(c0, saved_vars(managed_entries(c))) == (restored(c0, c), None::<ConfigErr>),
        env_apply(c, saved_vars(managed_entries(c))) == (c, None::<ConfigErr>),
{
    lemma_read_steps(c0, c, 26);
    assert(read_upto(c0, restored(c0, c), 26) == restored(c0, c));
    lemma_read_steps(c, c, 26);
    assert(read_upto(c, restored(c, c), 26) == c);
}

} // verus!
