//! The interactive form: its fields by name, the value each shows, the
//! drop-down options of the enumerated ones, and setting, clearing and
//! cycling a field.
use vstd::prelude::*;
use crate::config::{
    bool_to_string, compress_to_str, db_type_to_str, flow_to_str, lang_to_str, mode_to_str,
    opt_view, output_format_to_str, spec_bool_str, spec_compress_str, spec_db_type_str,
    spec_flow_str, spec_lang_str, spec_mode_str, spec_output_format_str, Cli, CliView, CompressType,
    ConfigErr, ConfigError, DbType, Lang, OutputFormat, RunMode,
};
use crate::settings::{apply_setting, apply_setting_spec, Naming, Setting};
use crate::text::{
    decimal, is_blank, push_str, str_eq, to_owned, trim_seq, u16_to_string, usize_to_string,
    views,
};

verus! {

/// The form's fields, in the order it lists them.
pub open spec fn form_fields() -> Seq<Seq<char>> {
    seq![
        "flow"@,
        "mode"@,
        "lang"@,
        "export-db-type"@,
        "export-host"@,
        "export-port"@,
        "export-user"@,
        "export-password"@,
        "export-db-name"@,
        "export-objects"@,
        "export-condition"@,
        "export-order-by"@,
        "export-hide-primary-key"@,
        "export-output-format"@,
        "export-compress"@,
        "export-delete-after-compress"@,
        "export-output-directory"@,
        "export-recsize"@,
        "export-page-size"@,
        "export-page-no"@,
        "import-host"@,
        "import-port"@,
        "import-db-type"@,
        "import-user"@,
        "import-password"@,
        "import-db-name"@,
    ]
}

/// The number of the form's fields.
pub fn form_field_count() -> (r: usize)
    ensures
        r == form_fields().len(),
{
    26
}

/// The name of the form's field at position `i` (of 26).
pub fn form_field(i: usize) -> (r: &'static str)
    requires
        i < 26,
    ensures
        r@ == form_fields()[i as int],
{
    let r = if i == 0 {
        "flow"
    } else if i == 1 {
        "mode"
    } else if i == 2 {
        "lang"
    } else if i == 3 {
        "export-db-type"
    } else if i == 4 {
        "export-host"
    } else if i == 5 {
        "export-port"
    } else if i == 6 {
        "export-user"
    } else if i == 7 {
        "export-password"
    } else if i == 8 {
        "export-db-name"
    } else if i == 9 {
        "export-objects"
    } else if i == 10 {
        "export-condition"
    } else if i == 11 {
        "export-order-by"
    } else if i == 12 {
        "export-hide-primary-key"
    } else if i == 13 {
        "export-output-format"
    } else if i == 14 {
        "export-compress"
    } else if i == 15 {
        "export-delete-after-compress"
    } else if i == 16 {
        "export-output-directory"
    } else if i == 17 {
        "export-recsize"
    } else if i == 18 {
        "export-page-size"
    } else if i == 19 {
        "export-page-no"
    } else if i == 20 {
        "import-host"
    } else if i == 21 {
        "import-port"
    } else if i == 22 {
        "import-db-type"
    } else if i == 23 {
        "import-user"
    } else if i == 24 {
        "import-password"
    } else {
        "import-db-name"
    };
    r
}

/// The setting a form field name stands for.
pub open spec fn form_setting(field: Seq<char>) -> Option<Setting> {
    if field == "flow"@ {
        Some(Setting::Flow)
    } else if field == "mode"@ {
        Some(Setting::Mode)
    } else if field == "lang"@ {
        Some(Setting::Lang)
    } else if field == "export-db-type"@ {
        Some(Setting::DbType)
    } else if field == "export-host"@ {
        Some(Setting::Host)
    } else if field == "export-port"@ {
        Some(Setting::Port)
    } else if field == "export-user"@ {
        Some(Setting::User)
    } else if field == "export-password"@ {
        Some(Setting::Password)
    } else if field == "export-db-name"@ {
        Some(Setting::DbName)
    } else if field == "export-objects"@ {
        Some(Setting::Objects)
    } else if field == "export-condition"@ {
        Some(Setting::Condition)
    } else if field == "export-order-by"@ {
        Some(Setting::OrderBy)
    } else if field == "export-hide-primary-key"@ {
        Some(Setting::HidePrimaryKey)
    } else if field == "export-output-format"@ {
        Some(Setting::OutputFormat)
    } else if field == "export-compress"@ {
        Some(Setting::Compress)
    } else if field == "export-delete-after-compress"@ {
        Some(Setting::DeleteAfterCompress)
    } else if field == "export-output-directory"@ {
        Some(Setting::OutputDirectory)
    } else if field == "export-recsize"@ {
        Some(Setting::Recsize)
    } else if field == "export-page-size"@ {
        Some(Setting::PageSize)
    } else if field == "export-page-no"@ {
        Some(Setting::PageNo)
    } else if field == "import-host"@ {
        Some(Setting::ImportHost)
    } else if field == "import-port"@ {
        Some(Setting::ImportPort)
    } else if field == "import-db-type"@ {
        Some(Setting::ImportDbType)
    } else if field == "import-user"@ {
        Some(Setting::ImportUser)
    } else if field == "import-password"@ {
        Some(Setting::ImportPassword)
    } else if field == "import-db-name"@ {
        Some(Setting::ImportDbName)
    } else {
        None
    }
}

fn form_setting_of(field: &str) -> (r: Option<Setting>)
    ensures
        r == form_setting(field@),
{
    if str_eq(field, "flow") {
        Some(Setting::Flow)
    } else if str_eq(field, "mode") {
        Some(Setting::Mode)
    } else if str_eq(field, "lang") {
        Some(Setting::Lang)
    } else if str_eq(field, "export-db-type") {
        Some(Setting::DbType)
    } else if str_eq(field, "export-host") {
        Some(Setting::Host)
    } else if str_eq(field, "export-port") {
        Some(Setting::Port)
    } else if str_eq(field, "export-user") {
        Some(Setting::User)
    } else if str_eq(field, "export-password") {
        Some(Setting::Password)
    } else if str_eq(field, "export-db-name") {
        Some(Setting::DbName)
    } else if str_eq(field, "export-objects") {
        Some(Setting::Objects)
    } else if str_eq(field, "export-condition") {
        Some(Setting::Condition)
    } else if str_eq(field, "export-order-by") {
        Some(Setting::OrderBy)
    } else if str_eq(field, "export-hide-primary-key") {
        Some(Setting::HidePrimaryKey)
    } else if str_eq(field, "export-output-format") {
        Some(Setting::OutputFormat)
    } else if str_eq(field, "export-compress") {
        Some(Setting::Compress)
    } else if str_eq(field, "export-delete-after-compress") {
        Some(Setting::DeleteAfterCompress)
    } else if str_eq(field, "export-output-directory") {
        Some(Setting::OutputDirectory)
    } else if str_eq(field, "export-recsize") {
        Some(Setting::Recsize)
    } else if str_eq(field, "export-page-size") {
        Some(Setting::PageSize)
    } else if str_eq(field, "export-page-no") {
        Some(Setting::PageNo)
    } else if str_eq(field, "import-host") {
        Some(Setting::ImportHost)
    } else if str_eq(field, "import-port") {
        Some(Setting::ImportPort)
    } else if str_eq(field, "import-db-type") {
        Some(Setting::ImportDbType)
    } else if str_eq(field, "import-user") {
        Some(Setting::ImportUser)
    } else if str_eq(field, "import-password") {
        Some(Setting::ImportPassword)
    } else if str_eq(field, "import-db-name") {
        Some(Setting::ImportDbName)
    } else {
        None
    }
}

/// The export fields may be named without their `export-` prefix (as in
/// `/set output-format md`).
pub open spec fn is_short_export_name(field: Seq<char>) -> bool {
    field == "db-type"@ || field == "host"@ || field == "port"@ || field == "user"@ || field == "password"@ || field == "db-name"@ || field == "objects"@ || field == "condition"@ || field == "order-by"@ || field == "hide-primary-key"@ || field == "output-format"@ || field == "compress"@ || field == "delete-after-compress"@ || field == "output-directory"@ || field == "recsize"@ || field == "page-size"@ || field == "page-no"@
}

/// The form field a typed name stands for.
pub open spec fn field_name(field: Seq<char>) -> Seq<char> {
    if is_short_export_name(field) {
        "export-"@ + field
    } else {
        field
    }
}

fn field_name_of(field: &str) -> (r: String)
    ensures
        r@ == field_name(field@),
{
    if str_eq(field, "db-type") || str_eq(field, "host") || str_eq(field, "port") || str_eq(field, "user") || str_eq(field, "password") || str_eq(field, "db-name") || str_eq(field, "objects") || str_eq(field, "condition") || str_eq(field, "order-by") || str_eq(field, "hide-primary-key") || str_eq(field, "output-format") || str_eq(field, "compress") || str_eq(field, "delete-after-compress") || str_eq(field, "output-directory") || str_eq(field, "recsize") || str_eq(field, "page-size") || str_eq(field, "page-no") {
        let mut s = to_owned("export-");
        push_str(&mut s, field);
        s
    } else {
        to_owned(field)
    }
}

/// Setting a field from the form (`/set <field> <value>`).
pub open spec fn set_field_spec(c: CliView, field: Seq<char>, v: Seq<char>) -> Result<CliView, ConfigErr> {
    match form_setting(field) {
        Some(s) => apply_setting_spec(s, Naming::Form, c, v),
        None => Err(ConfigErr::UnsupportedField(field)),
    }
}

fn set_named_field(cli: &mut Cli, field: &str, value: &str) -> (r: Result<(), ConfigError>)
    ensures
        r is Ok <==> set_field_spec(old(cli)@, field@, value@) is Ok,
        r is Ok ==> set_field_spec(old(cli)@, field@, value@) == Ok::<CliView, ConfigErr>(
            final(cli)@,
        ),
        r matches Err(e) ==> set_field_spec(old(cli)@, field@, value@) == Err::<CliView, ConfigErr>(
            e@,
        ),
        r is Err ==> final(cli)@ == old(cli)@,
{
    match form_setting_of(field) {
        Some(s) => apply_setting(s, Naming::Form, cli, value),
        None => Err(ConfigError::UnsupportedField { field: to_owned(field) }),
    }
}

/// Sets a field by its form name or, for export fields, its short name.
pub fn apply_set_field(cli: &mut Cli, field: &str, value: &str) -> (r: Result<(), ConfigError>)
    ensures
        r is Ok <==> set_field_spec(old(cli)@, field_name(field@), value@) is Ok,
        r is Ok ==> set_field_spec(old(cli)@, field_name(field@), value@) == Ok::<
            CliView,
            ConfigErr,
        >(final(cli)@),
        r matches Err(e) ==> set_field_spec(old(cli)@, field_name(field@), value@) == Err::<
            CliView,
            ConfigErr,
        >(e@),
        r is Err ==> final(cli)@ == old(cli)@,
{
    let name = field_name_of(field);
    set_named_field(cli, name.as_str(), value)
}

/// Clearing an optional field (`/unset <field>`).
pub open spec fn unset_field_spec(c: CliView, field: Seq<char>) -> Result<CliView, ConfigErr> {
    if field == "export-condition"@ {
        Ok(CliView { condition: None, ..c })
    } else if field == "export-order-by"@ {
        Ok(CliView { order_by: None, ..c })
    } else if field == "export-compress"@ {
        Ok(CliView { compress: None, ..c })
    } else if field == "export-recsize"@ {
        Ok(CliView { recsize: None, ..c })
    } else if field == "export-page-no"@ {
        Ok(CliView { page_no: None, ..c })
    } else {
        Err(ConfigErr::UnsupportedUnsetField(field))
    }
}

fn unset_named_field(cli: &mut Cli, field: &str) -> (r: Result<(), ConfigError>)
    ensures
        r is Ok <==> unset_field_spec(old(cli)@, field@) is Ok,
        r is Ok ==> unset_field_spec(old(cli)@, field@) == Ok::<CliView, ConfigErr>(final(cli)@),
        r matches Err(e) ==> unset_field_spec(old(cli)@, field@) == Err::<CliView, ConfigErr>(e@),
        r is Err ==> final(cli)@ == old(cli)@,
{
    if str_eq(field, "export-condition") {
        cli.condition = None;
    } else if str_eq(field, "export-order-by") {
        cli.order_by = None;
    } else if str_eq(field, "export-compress") {
        cli.compress = None;
    } else if str_eq(field, "export-recsize") {
        cli.recsize = None;
    } else if str_eq(field, "export-page-no") {
        cli.page_no = None;
    } else {
        return Err(ConfigError::UnsupportedUnsetField { field: to_owned(field) });
    }
    Ok(())
}

/// Clears an optional field, named by its form name or its short name.
pub fn apply_unset_field(cli: &mut Cli, field: &str) -> (r: Result<(), ConfigError>)
    ensures
        r is Ok <==> unset_field_spec(old(cli)@, field_name(field@)) is Ok,
        r is Ok ==> unset_field_spec(old(cli)@, field_name(field@)) == Ok::<CliView, ConfigErr>(
            final(cli)@,
        ),
        r matches Err(e) ==> unset_field_spec(old(cli)@, field_name(field@)) == Err::<
            CliView,
            ConfigErr,
        >(e@),
        r is Err ==> final(cli)@ == old(cli)@,
{
    let name = field_name_of(field);
    unset_named_field(cli, name.as_str())
}

/// The drop-down options of the enumerated fields, in the order the arrow
/// keys step through them.
pub open spec fn options_of(field: Seq<char>) -> Option<Seq<Seq<char>>> {
    if field == "flow"@ {
        Some(seq!["export"@, "import"@])
    } else if field == "mode"@ {
        Some(seq!["tui"@, "cli"@])
    } else if field == "lang"@ {
        Some(seq!["tw"@, "en"@, "ja"@])
    } else if field == "export-db-type"@ || field == "import-db-type"@ {
        Some(seq!["mssql"@, "oracle"@, "mysql"@, "postgresql"@, "sql-lite"@])
    } else if field == "export-hide-primary-key"@ || field == "export-delete-after-compress"@ {
        Some(seq!["false"@, "true"@])
    } else if field == "export-output-format"@ {
        Some(seq!["sql"@, "sql-lite"@, "csv"@, "excel"@, "json"@, "xml"@, "md"@])
    } else if field == "export-compress"@ {
        Some(seq!["none"@, "zip"@, "bzip"@, "tar"@])
    } else {
        None
    }
}

pub open spec fn str_views(v: Seq<&'static str>) -> Seq<Seq<char>> {
    v.map_values(|s: &'static str| s@)
}

pub fn field_options(field: &str) -> (r: Option<Vec<&'static str>>)
    ensures
        match r {
            Some(v) => options_of(field@) == Some(str_views(v@)),
            None => options_of(field@) is None,
        },
{
    let r = if str_eq(field, "flow") {
        Some(vec!["export", "import"])
    } else if str_eq(field, "mode") {
        Some(vec!["tui", "cli"])
    } else if str_eq(field, "lang") {
        Some(vec!["tw", "en", "ja"])
    } else if str_eq(field, "export-db-type") || str_eq(field, "import-db-type") {
        Some(vec!["mssql", "oracle", "mysql", "postgresql", "sql-lite"])
    } else if str_eq(field, "export-hide-primary-key") || str_eq(
        field,
        "export-delete-after-compress",
    ) {
        Some(vec!["false", "true"])
    } else if str_eq(field, "export-output-format") {
        Some(vec!["sql", "sql-lite", "csv", "excel", "json", "xml", "md"])
    } else if str_eq(field, "export-compress") {
        Some(vec!["none", "zip", "bzip", "tar"])
    } else {
        None
    };
    proof {
        if r is Some {
            assert(str_views(r.unwrap()@) =~= options_of(field@).unwrap());
        }
    }
    r
}

/// A count shown on the form: its digits, or empty when unset.
pub open spec fn opt_count_text(o: Option<usize>) -> Seq<char> {
    match o {
        Some(n) => decimal(n as nat),
        None => Seq::empty(),
    }
}

pub open spec fn opt_text(o: Option<Seq<char>>) -> Seq<char> {
    match o {
        Some(s) => s,
        None => Seq::empty(),
    }
}

/// The text the form shows for a field; unknown names show nothing.
pub open spec fn field_value(c: CliView, field: Seq<char>) -> Seq<char> {
    if field == "flow"@ {
        spec_flow_str(c.flow)
    } else if field == "mode"@ {
        spec_mode_str(c.mode)
    } else if field == "lang"@ {
        spec_lang_str(c.lang)
    } else if field == "export-db-type"@ {
        spec_db_type_str(c.db_type)
    } else if field == "export-host"@ {
        c.host
    } else if field == "export-port"@ {
        decimal(c.port as nat)
    } else if field == "export-user"@ {
        c.user
    } else if field == "export-password"@ {
        c.password
    } else if field == "export-db-name"@ {
        c.db_name
    } else if field == "export-objects"@ {
        c.objects
    } else if field == "export-condition"@ {
        opt_text(c.condition)
    } else if field == "export-order-by"@ {
        opt_text(c.order_by)
    } else if field == "export-hide-primary-key"@ {
        spec_bool_str(c.hide_primary_key)
    } else if field == "export-output-format"@ {
        spec_output_format_str(c.output_format)
    } else if field == "export-compress"@ {
        match c.compress {
            Some(x) => spec_compress_str(x),
            None => "none"@,
        }
    } else if field == "export-delete-after-compress"@ {
        spec_bool_str(c.delete_after_compress)
    } else if field == "export-output-directory"@ {
        c.output_directory
    } else if field == "export-recsize"@ {
        opt_count_text(c.recsize)
    } else if field == "export-page-size"@ {
        decimal(c.page_size as nat)
    } else if field == "export-page-no"@ {
        opt_count_text(c.page_no)
    } else if field == "import-host"@ {
        c.import_host
    } else if field == "import-port"@ {
        decimal(c.import_port as nat)
    } else if field == "import-db-type"@ {
        spec_db_type_str(c.import_db_type)
    } else if field == "import-user"@ {
        c.import_user
    } else if field == "import-password"@ {
        c.import_password
    } else if field == "import-db-name"@ {
        c.import_db_name
    } else {
        Seq::empty()
    }
}

fn opt_string_text(o: &Option<String>) -> (r: String)
    ensures
        r@ == opt_text(opt_view(*o)),
{
    match o {
        Some(s) => s.clone(),
        None => String::new(),
    }
}

fn opt_count_string(o: Option<usize>) -> (r: String)
    ensures
        r@ == opt_count_text(o),
{
    match o {
        Some(n) => usize_to_string(n),
        None => String::new(),
    }
}

pub fn get_field_value(cli: &Cli, field: &str) -> (r: String)
    ensures
        r@ == field_value(cli@, field@),
{
    if str_eq(field, "flow") {
        to_owned(flow_to_str(cli.flow))
    } else if str_eq(field, "mode") {
        to_owned(mode_to_str(cli.mode))
    } else if str_eq(field, "lang") {
        to_owned(lang_to_str(cli.lang))
    } else if str_eq(field, "export-db-type") {
        to_owned(db_type_to_str(cli.db_type))
    } else if str_eq(field, "export-host") {
        cli.host.clone()
    } else if str_eq(field, "export-port") {
        u16_to_string(cli.port)
    } else if str_eq(field, "export-user") {
        cli.user.clone()
    } else if str_eq(field, "export-password") {
        cli.password.clone()
    } else if str_eq(field, "export-db-name") {
        cli.db_name.clone()
    } else if str_eq(field, "export-objects") {
        cli.objects.clone()
    } else if str_eq(field, "export-condition") {
        opt_string_text(&cli.condition)
    } else if str_eq(field, "export-order-by") {
        opt_string_text(&cli.order_by)
    } else if str_eq(field, "export-hide-primary-key") {
        bool_to_string(cli.hide_primary_key)
    } else if str_eq(field, "export-output-format") {
        to_owned(output_format_to_str(cli.output_format))
    } else if str_eq(field, "export-compress") {
        match cli.compress {
            Some(x) => to_owned(compress_to_str(x)),
            None => to_owned("none"),
        }
    } else if str_eq(field, "export-delete-after-compress") {
        bool_to_string(cli.delete_after_compress)
    } else if str_eq(field, "export-output-directory") {
        cli.output_directory.clone()
    } else if str_eq(field, "export-recsize") {
        opt_count_string(cli.recsize)
    } else if str_eq(field, "export-page-size") {
        usize_to_string(cli.page_size)
    } else if str_eq(field, "export-page-no") {
        opt_count_string(cli.page_no)
    } else if str_eq(field, "import-host") {
        cli.import_host.clone()
    } else if str_eq(field, "import-port") {
        u16_to_string(cli.import_port)
    } else if str_eq(field, "import-db-type") {
        to_owned(db_type_to_str(cli.import_db_type))
    } else if str_eq(field, "import-user") {
        cli.import_user.clone()
    } else if str_eq(field, "import-password") {
        cli.import_password.clone()
    } else if str_eq(field, "import-db-name") {
        cli.import_db_name.clone()
    } else {
        String::new()
    }
}

/// Writing a value into the form: `none` or a blank value turns compression
/// off, a blank value clears the other optional fields, and anything else is
/// set as `/set` sets it (short export names included).
pub open spec fn set_field_value_spec(c: CliView, field: Seq<char>, v: Seq<char>) -> Result<
    CliView,
    ConfigErr,
> {
    if field == "export-compress"@ && (v == "none"@ || trim_seq(v).len() == 0) {
        Ok(CliView { compress: None, ..c })
    } else if (field == "export-condition"@ || field == "export-order-by"@ || field
        == "export-recsize"@ || field == "export-page-no"@) && trim_seq(v).len() == 0 {
        unset_field_spec(c, field)
    } else {
        set_field_spec(c, field_name(field), v)
    }
}

pub fn set_field_value(cli: &mut Cli, field: &str, value: &str) -> (r: Result<(), ConfigError>)
    ensures
        r is Ok <==> set_field_value_spec(old(cli)@, field@, value@) is Ok,
        r is Ok ==> set_field_value_spec(old(cli)@, field@, value@) == Ok::<CliView, ConfigErr>(
            final(cli)@,
        ),
        r matches Err(e) ==> set_field_value_spec(old(cli)@, field@, value@) == Err::<
            CliView,
            ConfigErr,
        >(e@),
        r is Err ==> final(cli)@ == old(cli)@,
{
    if str_eq(field, "export-compress") && (str_eq(value, "none") || is_blank(value)) {
        cli.compress = None;
        return Ok(());
    }
    if (str_eq(field, "export-condition") || str_eq(field, "export-order-by") || str_eq(
        field,
        "export-recsize",
    ) || str_eq(field, "export-page-no")) && is_blank(value) {
        return unset_named_field(cli, field);
    }
    apply_set_field(cli, field, value)
}

/// The position of the first option equal to `cur`, or 0 when there is none.
pub open spec fn option_index(opts: Seq<Seq<char>>, cur: Seq<char>) -> nat
    decreases opts.len(),
{
    if opts.len() == 0 {
        0
    } else if opts[0] == cur {
        0
    } else if exists|i: int| 0 <= i < opts.len() && opts[i] == cur {
        1 + option_index(opts.drop_first(), cur)
    } else {
        0
    }
}

/// The option `dir` steps away from the current one, wrapping around.
pub open spec fn cycled_option(opts: Seq<Seq<char>>, cur: Seq<char>, dir: int) -> Seq<char> {
    opts[(option_index(opts, cur) + dir) % (opts.len() as int)]
}

/// Stepping an enumerated field's value through its options (left and right
/// arrows). `Ok(false)` when the field has no options.
pub open spec fn cycle_spec(c: CliView, field: Seq<char>, dir: int) -> Result<(CliView, bool), ConfigErr> {
    match options_of(field) {
        None => Ok((c, false)),
        Some(opts) => match set_field_value_spec(
            c,
            field,
            cycled_option(opts, field_value(c, field), dir),
        ) {
            Ok(next) => Ok((next, true)),
            Err(e) => Err(e),
        },
    }
}

fn find_option(opts: &Vec<&'static str>, cur: &str) -> (r: usize)
    ensures
        r == option_index(str_views(opts@), cur@),
        opts@.len() > 0 ==> r < opts@.len(),
{
    let n = opts.len();
    let mut i: usize = 0;
    assert(str_views(opts@).skip(0) =~= str_views(opts@));
    while i < n
        invariant
            n == opts@.len(),
            i <= n,
            forall|k: int| 0 <= k < i ==> str_views(opts@)[k] != cur@,
            option_index(str_views(opts@), cur@) == if exists|k: int|
                i <= k < n && str_views(opts@)[k] == cur@ {
                i + option_index(str_views(opts@).skip(i as int), cur@)
            } else {
                0
            },
        decreases n - i,
    {
        assert(str_views(opts@)[i as int] == opts@[i as int]@);
        if str_eq(opts[i], cur) {
            proof {
                assert(str_views(opts@).skip(i as int)[0] == cur@);
                assert(exists|k: int| i <= k < n && str_views(opts@)[k] == cur@);
            }
            return i;
        }
        proof {
            let s = str_views(opts@).skip(i as int);
            assert(s.drop_first() =~= str_views(opts@).skip(i + 1));
            if exists|k: int| i + 1 <= k < n && str_views(opts@)[k] == cur@ {
                let k = choose|k: int| i + 1 <= k < n && str_views(opts@)[k] == cur@;
                assert(s[k - i] == cur@);
                assert(exists|j: int| 0 <= j < s.len() && s[j] == cur@);
            } else {
                assert(!(exists|k: int| i <= k < n && str_views(opts@)[k] == cur@));
            }
        }
        i = i + 1;
    }
    0
}

pub fn cycle_field_option(cli: &mut Cli, field: &str, dir: i32) -> (r: Result<bool, ConfigError>)
    requires
        options_of(field@) is Some ==> option_index(
            options_of(field@).unwrap(),
            field_value(old(cli)@, field@),
        ) + dir <= i32::MAX,
    ensures
        match cycle_spec(old(cli)@, field@, dir as int) {
            Ok((next, changed)) => r == Ok::<bool, ConfigError>(changed) && final(cli)@ == next,
            Err(e) => r is Err && final(cli)@ == old(cli)@,
        },
        r matches Err(e) ==> cycle_spec(old(cli)@, field@, dir as int) == Err::<
            (CliView, bool),
            ConfigErr,
        >(e@),
{
    let opts = match field_options(field) {
        Some(v) => v,
        None => return Ok(false),
    };
    let cur = get_field_value(cli, field);
    let idx = find_option(&opts, cur.as_str());
    let len = opts.len();
    assert(len >= 2 && len <= 7);
    let sum: i64 = idx as i64 + dir as i64;
    let m: i64 = len as i64;
    let ni: usize = if sum >= 0 {
        (sum % m) as usize
    } else {
        let q: i64 = (-sum) % m;
        proof {
            lemma_negative_mod(sum as int, m as int, q as int);
        }
        if q == 0 {
            0
        } else {
            (m - q) as usize
        }
    };
    assert(ni as int == (idx as int + dir as int) % (len as int));
    assert(str_views(opts@)[ni as int] == opts@[ni as int]@);
    set_field_value(cli, field, opts[ni])?;
    Ok(true)
}

proof fn lemma_negative_mod(s: int, m: int, q: int)
    requires
        s < 0,
        m > 0,
        q == (-s) % m,
    ensures
        q == 0 ==> s % m == 0,
        q != 0 ==> s % m == m - q,
{
    let a = -s;
    assert(a == m * (a / m) + q) by (nonlinear_arith)
        requires
            m > 0,
            q == a % m,
    ;
    if q == 0 {
        assert(s == m * (-(a / m))) by (nonlinear_arith)
            requires
                a == m * (a / m) + q,
                q == 0,
                s == -a,
        ;
        assert(s % m == 0) by (nonlinear_arith)
            requires
                s == m * (-(a / m)),
                m > 0,
        ;
    } else {
        assert(s == m * (-(a / m) - 1) + (m - q)) by (nonlinear_arith)
            requires
                a == m * (a / m) + q,
                s == -a,
        ;
        assert(0 < m - q < m) by (nonlinear_arith)
            requires
                q == a % m,
                q != 0,
                m > 0,
        ;
        assert(s % m == m - q) by (nonlinear_arith)
            requires
                s == m * (-(a / m) - 1) + (m - q),
                0 < m - q < m,
                m > 0,
        ;
    }
}

// ---------------------------------------------------------------------
// The `/show` listing
// ---------------------------------------------------------------------

pub open spec fn debug_mode(v: RunMode) -> Seq<char> {
    match v {
        RunMode::Cli => "Cli"@,
        RunMode::Tui => "Tui"@,
    }
}

pub open spec fn debug_lang(v: Lang) -> Seq<char> {
    match v {
        Lang::Tw => "Tw"@,
        Lang::En => "En"@,
        Lang::Ja => "Ja"@,
    }
}

pub open spec fn debug_db_type(v: DbType) -> Seq<char> {
    match v {
        DbType::Mssql => "Mssql"@,
        DbType::Oracle => "Oracle"@,
        DbType::Mysql => "Mysql"@,
        DbType::Postgresql => "Postgresql"@,
        DbType::SqlLite => "SqlLite"@,
    }
}

pub open spec fn debug_output_format(v: OutputFormat) -> Seq<char> {
    match v {
        OutputFormat::Sql => "Sql"@,
        OutputFormat::SqlLite => "SqlLite"@,
        OutputFormat::Csv => "Csv"@,
        OutputFormat::Excel => "Excel"@,
        OutputFormat::Json => "Json"@,
        OutputFormat::Xml => "Xml"@,
        OutputFormat::Md => "Md"@,
    }
}

pub open spec fn debug_compress(v: CompressType) -> Seq<char> {
    match v {
        CompressType::Zip => "Zip"@,
        CompressType::Bzip => "Bzip"@,
        CompressType::Tar => "Tar"@,
    }
}

fn mode_debug(v: RunMode) -> (r: &'static str)
    ensures
        r@ == debug_mode(v),
{
    match v {
        RunMode::Cli => "Cli",
        RunMode::Tui => "Tui",
    }
}

fn lang_debug(v: Lang) -> (r: &'static str)
    ensures
        r@ == debug_lang(v),
{
    match v {
        Lang::Tw => "Tw",
        Lang::En => "En",
        Lang::Ja => "Ja",
    }
}

fn db_type_debug(v: DbType) -> (r: &'static str)
    ensures
        r@ == debug_db_type(v),
{
    match v {
        DbType::Mssql => "Mssql",
        DbType::Oracle => "Oracle",
        DbType::Mysql => "Mysql",
        DbType::Postgresql => "Postgresql",
        DbType::SqlLite => "SqlLite",
    }
}

fn output_format_debug(v: OutputFormat) -> (r: &'static str)
    ensures
        r@ == debug_output_format(v),
{
    match v {
        OutputFormat::Sql => "Sql",
        OutputFormat::SqlLite => "SqlLite",
        OutputFormat::Csv => "Csv",
        OutputFormat::Excel => "Excel",
        OutputFormat::Json => "Json",
        OutputFormat::Xml => "Xml",
        OutputFormat::Md => "Md",
    }
}

fn compress_debug(v: CompressType) -> (r: &'static str)
    ensures
        r@ == debug_compress(v),
{
    match v {
        CompressType::Zip => "Zip",
        CompressType::Bzip => "Bzip",
        CompressType::Tar => "Tar",
    }
}

/// The configuration as `/show` lists it, one `name=value` line per field
/// (the export password is left out).
pub open spec fn snapshot_lines(c: CliView) -> Seq<Seq<char>> {
    seq![
        "flow="@ + spec_flow_str(c.flow),
        "mode="@ + debug_mode(c.mode),
        "lang="@ + debug_lang(c.lang),
        "export-db-type="@ + debug_db_type(c.db_type),
        "export-host="@ + c.host,
        "export-port="@ + decimal(c.port as nat),
        "export-user="@ + c.user,
        "export-db-name="@ + c.db_name,
        "export-objects="@ + c.objects,
        "export-condition="@ + opt_text(c.condition),
        "export-order-by="@ + opt_text(c.order_by),
        "export-hide-primary-key="@ + spec_bool_str(c.hide_primary_key),
        "export-output-format="@ + debug_output_format(c.output_format),
        "export-compress="@ + match c.compress {
            Some(x) => debug_compress(x),
            None => "none"@,
        },
        "export-delete-after-compress="@ + spec_bool_str(c.delete_after_compress),
        "export-output-directory="@ + c.output_directory,
        "export-recsize="@ + opt_count_text(c.recsize),
        "export-page-size="@ + decimal(c.page_size as nat),
        "export-page-no="@ + opt_count_text(c.page_no),
        "import-host="@ + c.import_host,
        "import-port="@ + decimal(c.import_port as nat),
        "import-db-type="@ + debug_db_type(c.import_db_type),
        "import-user="@ + c.import_user,
        "import-password="@ + c.import_password,
        "import-db-name="@ + c.import_db_name,
    ]
}

fn line(prefix: &str, value: &str) -> (r: String)
    ensures
        r@ == prefix@ + value@,
{
    let mut s = to_owned(prefix);
    push_str(&mut s, value);
    s
}

pub fn cli_snapshot_lines(cli: &Cli) -> (r: Vec<String>)
    ensures
        views(r@) == snapshot_lines(cli@),
{
    let mut out: Vec<String> = Vec::new();
    out.push(line("flow=", flow_to_str(cli.flow)));
    out.push(line("mode=", mode_debug(cli.mode)));
    out.push(line("lang=", lang_debug(cli.lang)));
    out.push(line("export-db-type=", db_type_debug(cli.db_type)));
    out.push(line("export-host=", cli.host.as_str()));
    out.push(line("export-port=", u16_to_string(cli.port).as_str()));
    out.push(line("export-user=", cli.user.as_str()));
    out.push(line("export-db-name=", cli.db_name.as_str()));
    out.push(line("export-objects=", cli.objects.as_str()));
    out.push(line("export-condition=", opt_string_text(&cli.condition).as_str()));
    out.push(line("export-order-by=", opt_string_text(&cli.order_by).as_str()));
    out.push(line("export-hide-primary-key=", bool_to_string(cli.hide_primary_key).as_str()));
    out.push(line("export-output-format=", output_format_debug(cli.output_format)));
    let comp = match cli.compress {
        Some(x) => compress_debug(x),
        None => "none",
    };
    out.push(line("export-compress=", comp));
    out.push(
        line("export-delete-after-compress=", bool_to_string(cli.delete_after_compress).as_str()),
    );
    out.push(line("export-output-directory=", cli.output_directory.as_str()));
    out.push(line("export-recsize=", opt_count_string(cli.recsize).as_str()));
    out.push(line("export-page-size=", usize_to_string(cli.page_size).as_str()));
    out.push(line("export-page-no=", opt_count_string(cli.page_no).as_str()));
    out.push(line("import-host=", cli.import_host.as_str()));
    out.push(line("import-port=", u16_to_string(cli.import_port).as_str()));
    out.push(line("import-db-type=", db_type_debug(cli.import_db_type)));
    out.push(line("import-user=", cli.import_user.as_str()));
    out.push(line("import-password=", cli.import_password.as_str()));
    out.push(line("import-db-name=", cli.import_db_name.as_str()));
    assert(views(out@) =~= snapshot_lines(cli@));
    out
}

} // verus!
