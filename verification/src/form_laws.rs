//! What the interactive form promises across calls: the value shown for a
//! drop-down field is always one of its options, an offered option or any
//! typed text is accepted and shown back, the last write to a field wins,
//! and stepping a drop-down moves to the next option, forward and then back
//! restoring the configuration.
use vstd::prelude::*;
use crate::config::{
    law_bool_roundtrip, law_compress_roundtrip, law_db_type_roundtrip, law_flow_roundtrip,
    law_lang_roundtrip, law_mode_roundtrip, law_output_format_roundtrip, spec_bool_str,
    spec_compress_str, spec_db_type_str, spec_flow_str, spec_lang_str, spec_mode_str,
    spec_output_format_str, CliView, CompressType, ConfigErr, DbType, FlowMode, Lang, OutputFormat,
    RunMode,
};
use crate::form::{
    cycle_spec, cycled_option, field_value, form_setting, option_index, options_of,
    field_name, set_field_spec, set_field_value_spec,
};
use crate::settings::{law_setting_last_wins, Naming, Setting};
use crate::text::{is_ws, lemma_trim_unchanged, trim_seq};

verus! {

/// A field the form lets one pick from a drop-down and write: every field
/// with options.
pub open spec fn choice_field(field: Seq<char>) -> bool {
    options_of(field) is Some
}

/// No option is offered twice.
pub open spec fn distinct_options(s: Seq<Seq<char>>) -> bool {
    forall|i: int, j: int| 0 <= i < j < s.len() ==> s[i] != s[j]
}

/// The flow field shows one of its options only for a data flow; a schema
/// flow is shown under the name of the data flow it belongs to.
pub open spec fn shows_own_choice(c: CliView, field: Seq<char>) -> bool {
    field == "flow"@ ==> (c.flow == FlowMode::Export || c.flow == FlowMode::Import)
}

/// What tells the form's field names and option names apart: their
/// lengths and a few of their characters.
proof fn lemma_name_facts()
    ensures
        "flow"@.len() == 4,
        "flow"@[0] == 'f',
        "mode"@.len() == 4,
        "mode"@[0] == 'm',
        "lang"@.len() == 4,
        "lang"@[0] == 'l',
        "export-db-type"@.len() == 14,
        "export-db-type"@[0] == 'e',
        "export-db-type"@[7] == 'd',
        "export-db-type"@[10] == 't',
        "export-host"@.len() == 11,
        "export-host"@[0] == 'e',
        "export-host"@[7] == 'h',
        "export-host"@[10] == 't',
        "export-port"@.len() == 11,
        "export-port"@[0] == 'e',
        "export-port"@[7] == 'p',
        "export-port"@[10] == 't',
        "export-user"@.len() == 11,
        "export-user"@[0] == 'e',
        "export-user"@[7] == 'u',
        "export-user"@[10] == 'r',
        "export-password"@.len() == 15,
        "export-password"@[0] == 'e',
        "export-password"@[7] == 'p',
        "export-password"@[10] == 's',
        "export-db-name"@.len() == 14,
        "export-db-name"@[0] == 'e',
        "export-db-name"@[7] == 'd',
        "export-db-name"@[10] == 'n',
        "export-objects"@.len() == 14,
        "export-objects"@[0] == 'e',
        "export-objects"@[7] == 'o',
        "export-objects"@[10] == 'e',
        "export-condition"@.len() == 16,
        "export-condition"@[0] == 'e',
        "export-condition"@[7] == 'c',
        "export-condition"@[10] == 'd',
        "export-order-by"@.len() == 15,
        "export-order-by"@[0] == 'e',
        "export-order-by"@[7] == 'o',
        "export-order-by"@[10] == 'e',
        "export-hide-primary-key"@.len() == 23,
        "export-hide-primary-key"@[0] == 'e',
        "export-hide-primary-key"@[7] == 'h',
        "export-hide-primary-key"@[10] == 'e',
        "export-output-format"@.len() == 20,
        "export-output-format"@[0] == 'e',
        "export-output-format"@[7] == 'o',
        "export-output-format"@[10] == 'p',
        "export-compress"@.len() == 15,
        "export-compress"@[0] == 'e',
        "export-compress"@[7] == 'c',
        "export-compress"@[10] == 'p',
        "export-delete-after-compress"@.len() == 28,
        "export-delete-after-compress"@[0] == 'e',
        "export-delete-after-compress"@[7] == 'd',
        "export-delete-after-compress"@[10] == 'e',
        "export-output-directory"@.len() == 23,
        "export-output-directory"@[0] == 'e',
        "export-output-directory"@[7] == 'o',
        "export-output-directory"@[10] == 'p',
        "export-recsize"@.len() == 14,
        "export-recsize"@[0] == 'e',
        "export-recsize"@[7] == 'r',
        "export-recsize"@[10] == 's',
        "export-page-size"@.len() == 16,
        "export-page-size"@[0] == 'e',
        "export-page-size"@[7] == 'p',
        "export-page-size"@[10] == 'e',
        "export-page-no"@.len() == 14,
        "export-page-no"@[0] == 'e',
        "export-page-no"@[7] == 'p',
        "export-page-no"@[10] == 'e',
        "import-host"@.len() == 11,
        "import-host"@[0] == 'i',
        "import-host"@[7] == 'h',
        "import-host"@[10] == 't',
        "import-port"@.len() == 11,
        "import-port"@[0] == 'i',
        "import-port"@[7] == 'p',
        "import-port"@[10] == 't',
        "import-db-type"@.len() == 14,
        "import-db-type"@[0] == 'i',
        "import-db-type"@[7] == 'd',
        "import-db-type"@[10] == 't',
        "import-user"@.len() == 11,
        "import-user"@[0] == 'i',
        "import-user"@[7] == 'u',
        "import-user"@[10] == 'r',
        "import-password"@.len() == 15,
        "import-password"@[0] == 'i',
        "import-password"@[7] == 'p',
        "import-password"@[10] == 's',
        "import-db-name"@.len() == 14,
        "import-db-name"@[0] == 'i',
        "import-db-name"@[7] == 'd',
        "import-db-name"@[10] == 'n',
        "export"@.len() == 6,
        "export"@[0] == 'e',
        "export"@[1] == 'x',
        "export"@[5] == 't',
        "import"@.len() == 6,
        "import"@[0] == 'i',
        "import"@[1] == 'm',
        "import"@[5] == 't',
        "tui"@.len() == 3,
        "tui"@[0] == 't',
        "tui"@[1] == 'u',
        "tui"@[2] == 'i',
        "cli"@.len() == 3,
        "cli"@[0] == 'c',
        "cli"@[1] == 'l',
        "cli"@[2] == 'i',
        "tw"@.len() == 2,
        "tw"@[0] == 't',
        "tw"@[1] == 'w',
        "en"@.len() == 2,
        "en"@[0] == 'e',
        "en"@[1] == 'n',
        "ja"@.len() == 2,
        "ja"@[0] == 'j',
        "ja"@[1] == 'a',
        "mssql"@.len() == 5,
        "mssql"@[0] == 'm',
        "mssql"@[1] == 's',
        "mssql"@[4] == 'l',
        "oracle"@.len() == 6,
        "oracle"@[0] == 'o',
        "oracle"@[1] == 'r',
        "oracle"@[5] == 'e',
        "mysql"@.len() == 5,
        "mysql"@[0] == 'm',
        "mysql"@[1] == 'y',
        "mysql"@[4] == 'l',
        "postgresql"@.len() == 10,
        "postgresql"@[0] == 'p',
        "postgresql"@[1] == 'o',
        "postgresql"@[9] == 'l',
        "sql-lite"@.len() == 8,
        "sql-lite"@[0] == 's',
        "sql-lite"@[1] == 'q',
        "sql-lite"@[7] == 'e',
        "false"@.len() == 5,
        "false"@[0] == 'f',
        "false"@[1] == 'a',
        "false"@[4] == 'e',
        "true"@.len() == 4,
        "true"@[0] == 't',
        "true"@[1] == 'r',
        "true"@[3] == 'e',
        "sql"@.len() == 3,
        "sql"@[0] == 's',
        "sql"@[1] == 'q',
        "sql"@[2] == 'l',
        "csv"@.len() == 3,
        "csv"@[0] == 'c',
        "csv"@[1] == 's',
        "csv"@[2] == 'v',
        "excel"@.len() == 5,
        "excel"@[0] == 'e',
        "excel"@[1] == 'x',
        "excel"@[4] == 'l',
        "json"@.len() == 4,
        "json"@[0] == 'j',
        "json"@[1] == 's',
        "json"@[3] == 'n',
        "xml"@.len() == 3,
        "xml"@[0] == 'x',
        "xml"@[1] == 'm',
        "xml"@[2] == 'l',
        "md"@.len() == 2,
        "md"@[0] == 'm',
        "md"@[1] == 'd',
        "none"@.len() == 4,
        "none"@[0] == 'n',
        "none"@[1] == 'o',
        "none"@[3] == 'e',
        "zip"@.len() == 3,
        "zip"@[0] == 'z',
        "zip"@[1] == 'i',
        "zip"@[2] == 'p',
        "bzip"@.len() == 4,
        "bzip"@[0] == 'b',
        "bzip"@[1] == 'z',
        "bzip"@[3] == 'p',
        "tar"@.len() == 3,
        "tar"@[0] == 't',
        "tar"@[1] == 'a',
        "tar"@[2] == 'r',
{
    reveal_strlit("flow");
    reveal_strlit("mode");
    reveal_strlit("lang");
    reveal_strlit("export-db-type");
    reveal_strlit("export-host");
    reveal_strlit("export-port");
    reveal_strlit("export-user");
    reveal_strlit("export-password");
    reveal_strlit("export-db-name");
    reveal_strlit("export-objects");
    reveal_strlit("export-condition");
    reveal_strlit("export-order-by");
    reveal_strlit("export-hide-primary-key");
    reveal_strlit("export-output-format");
    reveal_strlit("export-compress");
    reveal_strlit("export-delete-after-compress");
    reveal_strlit("export-output-directory");
    reveal_strlit("export-recsize");
    reveal_strlit("export-page-size");
    reveal_strlit("export-page-no");
    reveal_strlit("import-host");
    reveal_strlit("import-port");
    reveal_strlit("import-db-type");
    reveal_strlit("import-user");
    reveal_strlit("import-password");
    reveal_strlit("import-db-name");
    reveal_strlit("export");
    reveal_strlit("import");
    reveal_strlit("tui");
    reveal_strlit("cli");
    reveal_strlit("tw");
    reveal_strlit("en");
    reveal_strlit("ja");
    reveal_strlit("mssql");
    reveal_strlit("oracle");
    reveal_strlit("mysql");
    reveal_strlit("postgresql");
    reveal_strlit("sql-lite");
    reveal_strlit("false");
    reveal_strlit("true");
    reveal_strlit("sql");
    reveal_strlit("csv");
    reveal_strlit("excel");
    reveal_strlit("json");
    reveal_strlit("xml");
    reveal_strlit("md");
    reveal_strlit("none");
    reveal_strlit("zip");
    reveal_strlit("bzip");
    reveal_strlit("tar");
}

/// What tells the short export names apart from the form's own names:
/// their lengths and first characters.
proof fn lemma_short_name_facts()
    ensures
        "db-type"@.len() == 7,
        "db-type"@[0] == 'd',
        "host"@.len() == 4,
        "host"@[0] == 'h',
        "port"@.len() == 4,
        "port"@[0] == 'p',
        "user"@.len() == 4,
        "user"@[0] == 'u',
        "password"@.len() == 8,
        "password"@[0] == 'p',
        "db-name"@.len() == 7,
        "db-name"@[0] == 'd',
        "objects"@.len() == 7,
        "objects"@[0] == 'o',
        "condition"@.len() == 9,
        "condition"@[0] == 'c',
        "order-by"@.len() == 8,
        "order-by"@[0] == 'o',
        "hide-primary-key"@.len() == 16,
        "hide-primary-key"@[0] == 'h',
        "output-format"@.len() == 13,
        "output-format"@[0] == 'o',
        "compress"@.len() == 8,
        "compress"@[0] == 'c',
        "delete-after-compress"@.len() == 21,
        "delete-after-compress"@[0] == 'd',
        "output-directory"@.len() == 16,
        "output-directory"@[0] == 'o',
        "recsize"@.len() == 7,
        "recsize"@[0] == 'r',
        "page-size"@.len() == 9,
        "page-size"@[0] == 'p',
        "page-no"@.len() == 7,
        "page-no"@[0] == 'p',
{
    reveal_strlit("db-type");
    reveal_strlit("host");
    reveal_strlit("port");
    reveal_strlit("user");
    reveal_strlit("password");
    reveal_strlit("db-name");
    reveal_strlit("objects");
    reveal_strlit("condition");
    reveal_strlit("order-by");
    reveal_strlit("hide-primary-key");
    reveal_strlit("output-format");
    reveal_strlit("compress");
    reveal_strlit("delete-after-compress");
    reveal_strlit("output-directory");
    reveal_strlit("recsize");
    reveal_strlit("page-size");
    reveal_strlit("page-no");
}

/// A form field's own name is no short name: it stands for itself.
proof fn lemma_form_name_kept(field: Seq<char>)
    requires
        form_setting(field) is Some,
    ensures
        field_name(field) == field,
{
    lemma_name_facts();
    lemma_short_name_facts();
}

/// An option's name is never blank, so writing it is never taken for a
/// clearing.
proof fn lemma_option_not_blank(v: Seq<char>)
    requires
        v.len() > 0,
        !is_ws(v[0]),
        !is_ws(v[v.len() - 1]),
    ensures
        trim_seq(v).len() > 0,
{
    lemma_trim_unchanged(v);
}

proof fn lemma_option_index_at(opts: Seq<Seq<char>>, k: int)
    requires
        distinct_options(opts),
        0 <= k < opts.len(),
    ensures
        option_index(opts, opts[k]) == k,
    decreases k,
{
    if k > 0 {
        assert(opts[0] != opts[k]);
        assert(exists|i: int| 0 <= i < opts.len() && opts[i] == opts[k]);
        let d = opts.drop_first();
        assert(d[k - 1] == opts[k]);
        assert forall|i: int, j: int| 0 <= i < j < d.len() implies d[i] != d[j] by {
            assert(d[i] == opts[i + 1]);
            assert(d[j] == opts[j + 1]);
        }
        lemma_option_index_at(d, k - 1);
    }
}

proof fn lemma_step_back(k: int, n: int)
    requires
        0 <= k < n,
    ensures
        0 <= (k + 1) % n < n,
        (((k + 1) % n) + (-1)) % n == k,
{
    if k + 1 < n {
        assert((k + 1) % n == k + 1) by (nonlinear_arith)
            requires
                0 <= k + 1 < n,
        ;
        assert(k % n == k) by (nonlinear_arith)
            requires
                0 <= k < n,
        ;
    } else {
        assert((k + 1) % n == 0) by (nonlinear_arith)
            requires
                k + 1 == n,
                n > 0,
        ;
        assert((-1int) % n == n - 1) by (nonlinear_arith)
            requires
                n > 0,
        ;
    }
}

/// Writing a value to a choice field other than compression goes through
/// the field's own setting.
proof fn lemma_choice_goes_to_setting(c: CliView, field: Seq<char>, v: Seq<char>)
    requires
        choice_field(field),
        field != "export-compress"@,
    ensures
        set_field_value_spec(c, field, v) == set_field_spec(c, field, v),
{
    lemma_name_facts();
    lemma_form_name_kept(field);
}

/// The facts a cycle needs of each choice field: its options differ, the
/// shown value is one of them, and writing the shown value changes nothing.
proof fn lemma_choice_facts(c: CliView, field: Seq<char>) -> (k: int)
    requires
        choice_field(field),
        shows_own_choice(c, field),
    ensures
        distinct_options(options_of(field).unwrap()),
        0 <= k < options_of(field).unwrap().len(),
        options_of(field).unwrap()[k] == field_value(c, field),
        set_field_value_spec(c, field, field_value(c, field)) == Ok::<CliView, ConfigErr>(c),
{
    lemma_name_facts();
    let opts = options_of(field).unwrap();
    let cur = field_value(c, field);
    if field == "flow"@ {
        lemma_choice_goes_to_setting(c, field, cur);
        law_flow_roundtrip(c.flow);
        assert(form_setting(field) == Some(Setting::Flow));
        if c.flow == FlowMode::Export {
            0
        } else {
            1
        }
    } else if field == "mode"@ {
        lemma_choice_goes_to_setting(c, field, cur);
        law_mode_roundtrip(c.mode);
        assert(form_setting(field) == Some(Setting::Mode));
        match c.mode {
            RunMode::Tui => 0,
            RunMode::Cli => 1,
        }
    } else if field == "lang"@ {
        lemma_choice_goes_to_setting(c, field, cur);
        law_lang_roundtrip(c.lang);
        assert(form_setting(field) == Some(Setting::Lang));
        match c.lang {
            Lang::Tw => 0,
            Lang::En => 1,
            Lang::Ja => 2,
        }
    } else if field == "export-db-type"@ || field == "import-db-type"@ {
        lemma_choice_goes_to_setting(c, field, cur);
        let v = if field == "export-db-type"@ {
            c.db_type
        } else {
            c.import_db_type
        };
        law_db_type_roundtrip(v);
        assert(opts == seq!["mssql"@, "oracle"@, "mysql"@, "postgresql"@, "sql-lite"@]);
        assert(distinct_options(opts));
        match v {
            DbType::Mssql => 0,
            DbType::Oracle => 1,
            DbType::Mysql => 2,
            DbType::Postgresql => 3,
            DbType::SqlLite => 4,
        }
    } else if field == "export-hide-primary-key"@ || field == "export-delete-after-compress"@ {
        lemma_choice_goes_to_setting(c, field, cur);
        let b = if field == "export-hide-primary-key"@ {
            c.hide_primary_key
        } else {
            c.delete_after_compress
        };
        law_bool_roundtrip(b);
        if b {
            1
        } else {
            0
        }
    } else if field == "export-output-format"@ {
        lemma_choice_goes_to_setting(c, field, cur);
        law_output_format_roundtrip(c.output_format);
        assert(opts == seq!["sql"@, "sql-lite"@, "csv"@, "excel"@, "json"@, "xml"@, "md"@]);
        assert(distinct_options(opts));
        match c.output_format {
            OutputFormat::Sql => 0,
            OutputFormat::SqlLite => 1,
            OutputFormat::Csv => 2,
            OutputFormat::Excel => 3,
            OutputFormat::Json => 4,
            OutputFormat::Xml => 5,
            OutputFormat::Md => 6,
        }
    } else {
        assert(field == "export-compress"@);
        assert(form_setting(field) == Some(Setting::Compress));
        lemma_form_name_kept(field);
        assert(opts == seq!["none"@, "zip"@, "bzip"@, "tar"@]);
        assert(distinct_options(opts));
        match c.compress {
            None => 0,
            Some(x) => {
                law_compress_roundtrip(x);
                lemma_option_not_blank(cur);
                assert(cur != "none"@);
                assert(form_setting(field) == Some(Setting::Compress));
                match x {
                    CompressType::Zip => 1,
                    CompressType::Bzip => 2,
                    CompressType::Tar => 3,
                }
            },
        }
    }
}

/// Choosing any option offered for a choice field is accepted, and the form
/// then shows that option.
pub proof fn law_option_readback(c: CliView, field: Seq<char>, k: int)
    requires
        choice_field(field),
        0 <= k < options_of(field).unwrap().len(),
    ensures
        set_field_value_spec(c, field, options_of(field).unwrap()[k]) is Ok,
        field_value(set_field_value_spec(c, field, options_of(field).unwrap()[k])->Ok_0, field)
            == options_of(field).unwrap()[k],
{
    lemma_name_facts();
    let opts = options_of(field).unwrap();
    let v = opts[k];
    if field == "flow"@ {
        lemma_choice_goes_to_setting(c, field, v);
        let x = if k == 0 {
            FlowMode::Export
        } else {
            FlowMode::Import
        };
        assert(v == spec_flow_str(x));
        law_flow_roundtrip(x);
    } else if field == "mode"@ {
        lemma_choice_goes_to_setting(c, field, v);
        let x = if k == 0 {
            RunMode::Tui
        } else {
            RunMode::Cli
        };
        assert(v == spec_mode_str(x));
        law_mode_roundtrip(x);
    } else if field == "lang"@ {
        lemma_choice_goes_to_setting(c, field, v);
        let x = if k == 0 {
            Lang::Tw
        } else if k == 1 {
            Lang::En
        } else {
            Lang::Ja
        };
        assert(v == spec_lang_str(x));
        law_lang_roundtrip(x);
    } else if field == "export-db-type"@ || field == "import-db-type"@ {
        lemma_choice_goes_to_setting(c, field, v);
        let x = if k == 0 {
            DbType::Mssql
        } else if k == 1 {
            DbType::Oracle
        } else if k == 2 {
            DbType::Mysql
        } else if k == 3 {
            DbType::Postgresql
        } else {
            DbType::SqlLite
        };
        assert(v == spec_db_type_str(x));
        law_db_type_roundtrip(x);
    } else if field == "export-hide-primary-key"@ || field == "export-delete-after-compress"@ {
        lemma_choice_goes_to_setting(c, field, v);
        let b = k == 1;
        assert(v == spec_bool_str(b));
        law_bool_roundtrip(b);
    } else if field == "export-output-format"@ {
        lemma_choice_goes_to_setting(c, field, v);
        let x = if k == 0 {
            OutputFormat::Sql
        } else if k == 1 {
            OutputFormat::SqlLite
        } else if k == 2 {
            OutputFormat::Csv
        } else if k == 3 {
            OutputFormat::Excel
        } else if k == 4 {
            OutputFormat::Json
        } else if k == 5 {
            OutputFormat::Xml
        } else {
            OutputFormat::Md
        };
        assert(v == spec_output_format_str(x));
        law_output_format_roundtrip(x);
    } else {
        assert(field == "export-compress"@);
        assert(form_setting(field) == Some(Setting::Compress));
        lemma_form_name_kept(field);
        if k > 0 {
            let x = if k == 1 {
                CompressType::Zip
            } else if k == 2 {
                CompressType::Bzip
            } else {
                CompressType::Tar
            };
            assert(v == spec_compress_str(x));
            law_compress_roundtrip(x);
            lemma_option_not_blank(v);
            assert(v != "none"@);
            assert(form_setting(field) == Some(Setting::Compress));
        }
    }
}

/// Whatever the configuration, the form shows for a field with a drop-down
/// one of that field's options (a schema flow shows as its data flow, and no
/// compression as `none`).
pub proof fn law_shown_value_is_offered(c: CliView, field: Seq<char>)
    requires
        options_of(field) is Some,
    ensures
        options_of(field).unwrap().contains(field_value(c, field)),
{
    lemma_name_facts();
    let opts = options_of(field).unwrap();
    let cur = field_value(c, field);
    let k: int = if field == "flow"@ {
        match c.flow {
            FlowMode::Export | FlowMode::ExportSchema => 0,
            _ => 1,
        }
    } else if field == "mode"@ {
        match c.mode {
            RunMode::Tui => 0,
            RunMode::Cli => 1,
        }
    } else if field == "lang"@ {
        match c.lang {
            Lang::Tw => 0,
            Lang::En => 1,
            Lang::Ja => 2,
        }
    } else if field == "export-db-type"@ || field == "import-db-type"@ {
        let v = if field == "export-db-type"@ {
            c.db_type
        } else {
            c.import_db_type
        };
        match v {
            DbType::Mssql => 0,
            DbType::Oracle => 1,
            DbType::Mysql => 2,
            DbType::Postgresql => 3,
            DbType::SqlLite => 4,
        }
    } else if field == "export-hide-primary-key"@ || field == "export-delete-after-compress"@ {
        let b = if field == "export-hide-primary-key"@ {
            c.hide_primary_key
        } else {
            c.delete_after_compress
        };
        if b {
            1
        } else {
            0
        }
    } else if field == "export-output-format"@ {
        match c.output_format {
            OutputFormat::Sql => 0,
            OutputFormat::SqlLite => 1,
            OutputFormat::Csv => 2,
            OutputFormat::Excel => 3,
            OutputFormat::Json => 4,
            OutputFormat::Xml => 5,
            OutputFormat::Md => 6,
        }
    } else {
        match c.compress {
            None => 0,
            Some(CompressType::Zip) => 1,
            Some(CompressType::Bzip) => 2,
            Some(CompressType::Tar) => 3,
        }
    };
    assert(0 <= k < opts.len() && opts[k] == cur);
}

/// A field the form takes free text for: the connection texts, the object
/// selection and the output directory.
pub open spec fn text_field(field: Seq<char>) -> bool {
    field == "export-host"@ || field == "export-user"@ || field == "export-password"@ || field
        == "export-db-name"@ || field == "export-objects"@ || field == "export-output-directory"@
        || field == "import-host"@ || field == "import-user"@ || field == "import-password"@
        || field == "import-db-name"@
}

/// Any text typed into a free-text field is accepted, and the form then
/// shows that text.
pub proof fn law_text_readback(c: CliView, field: Seq<char>, v: Seq<char>)
    requires
        text_field(field),
    ensures
        set_field_value_spec(c, field, v) is Ok,
        field_value(set_field_value_spec(c, field, v)->Ok_0, field) == v,
{
    lemma_name_facts();
    lemma_form_name_kept(field);
}

/// A condition or an order typed with some text in it is accepted, and the
/// form then shows that text.
pub proof fn law_clause_readback(c: CliView, field: Seq<char>, v: Seq<char>)
    requires
        field == "export-condition"@ || field == "export-order-by"@,
        trim_seq(v).len() > 0,
    ensures
        set_field_value_spec(c, field, v) is Ok,
        field_value(set_field_value_spec(c, field, v)->Ok_0, field) == v,
{
    lemma_name_facts();
    lemma_form_name_kept(field);
}

/// Stepping a choice field is accepted and moves it to the option `dir`
/// steps away from the one shown, wrapping around.
pub proof fn law_cycle_moves(c: CliView, field: Seq<char>, dir: int)
    requires
        choice_field(field),
    ensures
        cycle_spec(c, field, dir) is Ok,
        cycle_spec(c, field, dir)->Ok_0.1,
        field_value(cycle_spec(c, field, dir)->Ok_0.0, field) == cycled_option(
            options_of(field).unwrap(),
            field_value(c, field),
            dir,
        ),
{
    let opts = options_of(field).unwrap();
    let j = (option_index(opts, field_value(c, field)) + dir) % (opts.len() as int);
    law_option_readback(c, field, j);
}

/// Two writes to the same field leave what the second alone would leave:
/// once the first was accepted, the earlier value plays no part.
#[verifier::spinoff_prover]
#[verifier::rlimit(40)]
pub proof fn law_last_write_wins(c: CliView, field: Seq<char>, v1: Seq<char>, v2: Seq<char>)
    requires
        set_field_value_spec(c, field, v1) is Ok,
    ensures
        set_field_value_spec(set_field_value_spec(c, field, v1)->Ok_0, field, v2)
            == set_field_value_spec(c, field, v2),
{
    lemma_name_facts();
    if field == "export-compress"@ {
        assert(form_setting(field) == Some(Setting::Compress));
        lemma_form_name_kept(field);
    } else if field == "export-condition"@ {
        assert(form_setting(field) == Some(Setting::Condition));
        lemma_form_name_kept(field);
    } else if field == "export-order-by"@ {
        assert(form_setting(field) == Some(Setting::OrderBy));
        lemma_form_name_kept(field);
    } else if field == "export-recsize"@ {
        assert(form_setting(field) == Some(Setting::Recsize));
        lemma_form_name_kept(field);
    } else if field == "export-page-no"@ {
        assert(form_setting(field) == Some(Setting::PageNo));
        lemma_form_name_kept(field);
    } else {
        let f = field_name(field);
        assert(set_field_value_spec(c, field, v1) == set_field_spec(c, f, v1));
        let c1 = set_field_value_spec(c, field, v1)->Ok_0;
        assert(set_field_value_spec(c1, field, v2) == set_field_spec(c1, f, v2));
        assert(set_field_value_spec(c, field, v2) == set_field_spec(c, f, v2));
        match form_setting(f) {
            Some(s) => {
                law_setting_last_wins(s, Naming::Form, c, v1, v2);
            },
            None => {},
        }
    }
}

/// Stepping a choice field (any drop-down field) one option forward and
/// then one back gives the configuration one started from.
pub proof fn law_cycle_forward_back(c: CliView, field: Seq<char>)
    requires
        choice_field(field),
        shows_own_choice(c, field),
    ensures
        cycle_spec(c, field, 1) is Ok,
        cycle_spec(c, field, 1)->Ok_0.1,
        cycle_spec(cycle_spec(c, field, 1)->Ok_0.0, field, -1) == Ok::<(CliView, bool), ConfigErr>(
            (c, true),
        ),
{
    let opts = options_of(field).unwrap();
    let n = opts.len() as int;
    let cur = field_value(c, field);
    let k = lemma_choice_facts(c, field);
    lemma_option_index_at(opts, k);
    lemma_step_back(k, n);
    let j = (k + 1) % n;
    assert(cycled_option(opts, cur, 1) == opts[j]);
    law_option_readback(c, field, j);
    let c1 = set_field_value_spec(c, field, opts[j])->Ok_0;
    lemma_option_index_at(opts, j);
    assert(option_index(opts, field_value(c1, field)) == j);
    assert(cycled_option(opts, field_value(c1, field), -1) == cur);
    law_last_write_wins(c, field, opts[j], cur);
}

} // verus!
