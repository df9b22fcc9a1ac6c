//! The run configuration: its enumerations, the `Cli` record, the parsers
//! that read each enumeration from text, and the names they are written back
//! under.
use vstd::prelude::*;
use crate::text::{
    lower_seq, parse_usize, parse_usize_seq, push_str, str_eq, to_ascii_lower, to_owned, trim, trim_end_seq,
    trim_seq, trim_start_seq,
};

verus! {

#[derive(Copy, Clone, Debug, PartialEq, Eq, Structural)]
pub enum DbType {
    Mssql,
    Oracle,
    Mysql,
    Postgresql,
    SqlLite,
}

#[derive(Copy, Clone, Debug, PartialEq, Eq, Structural)]
pub enum OutputFormat {
    Sql,
    SqlLite,
    Csv,
    Excel,
    Json,
    Xml,
    Md,
}

#[derive(Copy, Clone, Debug, PartialEq, Eq, Structural)]
pub enum ImportContentFormat {
    Sql,
    Csv,
    Md,
    Excel,
    SqlLite,
}

#[derive(Copy, Clone, Debug, PartialEq, Eq, Structural)]
pub enum CompressType {
    Zip,
    Bzip,
    Tar,
}

#[derive(Copy, Clone, Debug, PartialEq, Eq, Structural)]
pub enum RunMode {
    Cli,
    Tui,
}

#[derive(Copy, Clone, Debug, PartialEq, Eq, Structural)]
pub enum FlowMode {
    Export,
    Import,
    ExportSchema,
    ImportSchema,
}

#[derive(Copy, Clone, Debug, PartialEq, Eq, Structural)]
pub enum Lang {
    Tw,
    En,
    Ja,
}

/// The whole configuration of a run: the export source, the export options,
/// and the import target.
#[derive(Clone, Debug)]
pub struct Cli {
    pub flow: FlowMode,
    pub mode: RunMode,
    pub lang: Lang,
    pub db_type: DbType,
    pub host: String,
    pub port: u16,
    pub user: String,
    pub password: String,
    pub db_name: String,
    pub objects: String,
    pub condition: Option<String>,
    pub order_by: Option<String>,
    pub hide_primary_key: bool,
    pub output_format: OutputFormat,
    pub compress: Option<CompressType>,
    pub delete_after_compress: bool,
    pub output_directory: String,
    pub recsize: Option<usize>,
    pub page_size: usize,
    pub page_no: Option<usize>,
    pub export_collation: String,
    pub import_host: String,
    pub import_port: u16,
    pub import_db_type: DbType,
    pub import_user: String,
    pub import_password: String,
    pub import_db_name: String,
    pub import_collation: String,
    pub import_content_format: ImportContentFormat,
    pub import_content_src: String,
}

/// The mathematical content of a `Cli`: every text field by its characters.
pub struct CliView {
    pub flow: FlowMode,
    pub mode: RunMode,
    pub lang: Lang,
    pub db_type: DbType,
    pub host: Seq<char>,
    pub port: u16,
    pub user: Seq<char>,
    pub password: Seq<char>,
    pub db_name: Seq<char>,
    pub objects: Seq<char>,
    pub condition: Option<Seq<char>>,
    pub order_by: Option<Seq<char>>,
    pub hide_primary_key: bool,
    pub output_format: OutputFormat,
    pub compress: Option<CompressType>,
    pub delete_after_compress: bool,
    pub output_directory: Seq<char>,
    pub recsize: Option<usize>,
    pub page_size: usize,
    pub page_no: Option<usize>,
    pub export_collation: Seq<char>,
    pub import_host: Seq<char>,
    pub import_port: u16,
    pub import_db_type: DbType,
    pub import_user: Seq<char>,
    pub import_password: Seq<char>,
    pub import_db_name: Seq<char>,
    pub import_collation: Seq<char>,
    pub import_content_format: ImportContentFormat,
    pub import_content_src: Seq<char>,
}

pub open spec fn opt_view(o: Option<String>) -> Option<Seq<char>> {
    match o {
        Some(s) => Some(s@),
        None => None,
    }
}

impl View for Cli {
    type V = CliView;

    open spec fn view(&self) -> CliView {
        CliView {
            flow: self.flow,
            mode: self.mode,
            lang: self.lang,
            db_type: self.db_type,
            host: self.host@,
            port: self.port,
            user: self.user@,
            password: self.password@,
            db_name: self.db_name@,
            objects: self.objects@,
            condition: opt_view(self.condition),
            order_by: opt_view(self.order_by),
            hide_primary_key: self.hide_primary_key,
            output_format: self.output_format,
            compress: self.compress,
            delete_after_compress: self.delete_after_compress,
            output_directory: self.output_directory@,
            recsize: self.recsize,
            page_size: self.page_size,
            page_no: self.page_no,
            export_collation: self.export_collation@,
            import_host: self.import_host@,
            import_port: self.import_port,
            import_db_type: self.import_db_type,
            import_user: self.import_user@,
            import_password: self.import_password@,
            import_db_name: self.import_db_name@,
            import_collation: self.import_collation@,
            import_content_format: self.import_content_format,
            import_content_src: self.import_content_src@,
        }
    }
}

/// The configuration a run starts from.
pub open spec fn default_cli_view() -> CliView {
    CliView {
        flow: FlowMode::Export,
        mode: RunMode::Tui,
        lang: Lang::En,
        db_type: DbType::Mssql,
        host: Seq::empty(),
        port: 1433,
        user: Seq::empty(),
        password: Seq::empty(),
        db_name: Seq::empty(),
        objects: ".*"@,
        condition: None,
        order_by: None,
        hide_primary_key: false,
        output_format: OutputFormat::Sql,
        compress: None,
        delete_after_compress: false,
        output_directory: "./export"@,
        recsize: None,
        page_size: 10000,
        page_no: None,
        export_collation: Seq::empty(),
        import_host: Seq::empty(),
        import_port: 1433,
        import_db_type: DbType::Mssql,
        import_user: Seq::empty(),
        import_password: Seq::empty(),
        import_db_name: Seq::empty(),
        import_collation: Seq::empty(),
        import_content_format: ImportContentFormat::SqlLite,
        import_content_src: "./export/export.sqlite"@,
    }
}

/// Why a configuration value was refused. Each variant carries the text that
/// its message quotes.
#[derive(Clone, Debug)]
pub enum ConfigError {
    /// `unsupported db-type: {raw} (allowed: ...)`
    UnsupportedDbType { raw: String },
    /// `unsupported output-format: {raw} (allowed: ...)`
    UnsupportedOutputFormat { raw: String },
    /// `unsupported compress value: {raw} (allowed: ...)`
    UnsupportedCompress { raw: String },
    /// `unsupported mode: {raw} (allowed: cli, tui)`
    UnsupportedMode { raw: String },
    /// `unsupported flow: {raw} (allowed: export, import)`
    UnsupportedFlow { raw: String },
    /// `unsupported lang: {raw} (allowed: tw, en, ja)`
    UnsupportedLang { raw: String },
    /// `invalid {name} value: {value} (allowed: true|false)`
    InvalidBool { name: String, value: String },
    /// `invalid {name} value: {value}`: not a number, or out of range
    InvalidNumber { name: String, value: String },
    /// `invalid {name} value: 0`
    ZeroNumber { name: String },
    /// `invalid {name} value`: a port given on the command line is not a number
    InvalidPortArgument { name: String },
    /// `invalid {name}: {value}`: a form field got a value that is not a port
    InvalidFieldValue { name: String, value: String },
    /// `missing value for {key}`
    MissingValue { key: String },
    /// `unknown argument: {key}`
    UnknownArgument { key: String },
    /// `missing required {what}`
    MissingRequired { what: String },
    /// `unsupported field: {field} (allowed: ...)`
    UnsupportedField { field: String },
    /// `unsupported unset field: {field} (allowed: ...)`
    UnsupportedUnsetField { field: String },
}

/// The mathematical content of a `ConfigError`: which refusal, and the texts
/// it quotes.
pub enum ConfigErr {
    UnsupportedDbType(Seq<char>),
    UnsupportedOutputFormat(Seq<char>),
    UnsupportedCompress(Seq<char>),
    UnsupportedMode(Seq<char>),
    UnsupportedFlow(Seq<char>),
    UnsupportedLang(Seq<char>),
    InvalidBool(Seq<char>, Seq<char>),
    InvalidNumber(Seq<char>, Seq<char>),
    ZeroNumber(Seq<char>),
    InvalidPortArgument(Seq<char>),
    InvalidFieldValue(Seq<char>, Seq<char>),
    MissingValue(Seq<char>),
    UnknownArgument(Seq<char>),
    MissingRequired(Seq<char>),
    UnsupportedField(Seq<char>),
    UnsupportedUnsetField(Seq<char>),
}

impl View for ConfigError {
    type V = ConfigErr;

    open spec fn view(&self) -> ConfigErr {
        match self {
            ConfigError::UnsupportedDbType { raw } => ConfigErr::UnsupportedDbType(raw@),
            ConfigError::UnsupportedOutputFormat { raw } => ConfigErr::UnsupportedOutputFormat(raw@),
            ConfigError::UnsupportedCompress { raw } => ConfigErr::UnsupportedCompress(raw@),
            ConfigError::UnsupportedMode { raw } => ConfigErr::UnsupportedMode(raw@),
            ConfigError::UnsupportedFlow { raw } => ConfigErr::UnsupportedFlow(raw@),
            ConfigError::UnsupportedLang { raw } => ConfigErr::UnsupportedLang(raw@),
            ConfigError::InvalidBool { name, value } => ConfigErr::InvalidBool(name@, value@),
            ConfigError::InvalidNumber { name, value } => ConfigErr::InvalidNumber(name@, value@),
            ConfigError::ZeroNumber { name } => ConfigErr::ZeroNumber(name@),
            ConfigError::InvalidPortArgument { name } => ConfigErr::InvalidPortArgument(name@),
            ConfigError::InvalidFieldValue { name, value } => ConfigErr::InvalidFieldValue(name@, value@),
            ConfigError::MissingValue { key } => ConfigErr::MissingValue(key@),
            ConfigError::UnknownArgument { key } => ConfigErr::UnknownArgument(key@),
            ConfigError::MissingRequired { what } => ConfigErr::MissingRequired(what@),
            ConfigError::UnsupportedField { field } => ConfigErr::UnsupportedField(field@),
            ConfigError::UnsupportedUnsetField { field } => ConfigErr::UnsupportedUnsetField(field@),
        }
    }
}

/// The message a refusal is reported with.
pub open spec fn error_text(e: ConfigErr) -> Seq<char> {
    match e {
        ConfigErr::UnsupportedDbType(raw) => "unsupported db-type: "@ + raw
            + " (allowed: mssql, oracle, mysql, postgresql, sql-lite)"@,
        ConfigErr::UnsupportedOutputFormat(raw) => "unsupported output-format: "@ + raw
            + " (allowed: sql, sql-lite, csv, excel, json, xml, md)"@,
        ConfigErr::UnsupportedCompress(raw) => "unsupported compress value: "@ + raw
            + " (allowed: zip, bzip, tar)"@,
        ConfigErr::UnsupportedMode(raw) => "unsupported mode: "@ + raw + " (allowed: cli, tui)"@,
        ConfigErr::UnsupportedFlow(raw) => "unsupported flow: "@ + raw
            + " (allowed: export, import)"@,
        ConfigErr::UnsupportedLang(raw) => "unsupported lang: "@ + raw + " (allowed: tw, en, ja)"@,
        ConfigErr::InvalidBool(name, value) => "invalid "@ + name + " value: "@ + value
            + " (allowed: true|false)"@,
        ConfigErr::InvalidNumber(name, value) => "invalid "@ + name + " value: "@ + value,
        ConfigErr::ZeroNumber(name) => "invalid "@ + name + " value: 0"@,
        ConfigErr::InvalidPortArgument(name) => "invalid "@ + name + " value"@,
        ConfigErr::InvalidFieldValue(name, value) => "invalid "@ + name + ": "@ + value,
        ConfigErr::MissingValue(key) => "missing value for "@ + key,
        ConfigErr::UnknownArgument(key) => "unknown argument: "@ + key,
        ConfigErr::MissingRequired(what) => "missing required "@ + what,
        ConfigErr::UnsupportedField(field) => "unsupported field: "@ + field + " (allowed: flow,db-type,host,port,user,password,db-name,objects,condition,order-by,hide-primary-key,output-format,compress,delete-after-compress,output-directory,recsize,page-size,page-no,import-host,import-port,import-db-type,import-user,import-password,import-db-name)"@,
        ConfigErr::UnsupportedUnsetField(field) => "unsupported unset field: "@ + field
            + " (allowed: export-condition,export-order-by,export-compress,export-recsize,export-page-no)"@,
    }
}

fn text3(a: &str, b: &str, c: &str) -> (r: String)
    ensures
        r@ == a@ + b@ + c@,
{
    let mut s = to_owned(a);
    push_str(&mut s, b);
    push_str(&mut s, c);
    s
}

fn text2(a: &str, b: &str) -> (r: String)
    ensures
        r@ == a@ + b@,
{
    let mut s = to_owned(a);
    push_str(&mut s, b);
    s
}

impl ConfigError {
    /// The message the refusal is reported with.
    pub fn message(&self) -> (r: String)
        ensures
            r@ == error_text(self@),
    {
        match self {
            ConfigError::UnsupportedDbType { raw } => text3(
                "unsupported db-type: ",
                raw.as_str(),
                " (allowed: mssql, oracle, mysql, postgresql, sql-lite)",
            ),
            ConfigError::UnsupportedOutputFormat { raw } => text3(
                "unsupported output-format: ",
                raw.as_str(),
                " (allowed: sql, sql-lite, csv, excel, json, xml, md)",
            ),
            ConfigError::UnsupportedCompress { raw } => text3(
                "unsupported compress value: ",
                raw.as_str(),
                " (allowed: zip, bzip, tar)",
            ),
            ConfigError::UnsupportedMode { raw } => text3(
                "unsupported mode: ",
                raw.as_str(),
                " (allowed: cli, tui)",
            ),
            ConfigError::UnsupportedFlow { raw } => text3(
                "unsupported flow: ",
                raw.as_str(),
                " (allowed: export, import)",
            ),
            ConfigError::UnsupportedLang { raw } => text3(
                "unsupported lang: ",
                raw.as_str(),
                " (allowed: tw, en, ja)",
            ),
            ConfigError::InvalidBool { name, value } => {
                let mut s = text3("invalid ", name.as_str(), " value: ");
                push_str(&mut s, value.as_str());
                push_str(&mut s, " (allowed: true|false)");
                s
            },
            ConfigError::InvalidNumber { name, value } => {
                let mut s = text3("invalid ", name.as_str(), " value: ");
                push_str(&mut s, value.as_str());
                s
            },
            ConfigError::ZeroNumber { name } => text3("invalid ", name.as_str(), " value: 0"),
            ConfigError::InvalidPortArgument { name } => text3("invalid ", name.as_str(), " value"),
            ConfigError::InvalidFieldValue { name, value } => {
                let mut s = text3("invalid ", name.as_str(), ": ");
                push_str(&mut s, value.as_str());
                s
            },
            ConfigError::MissingValue { key } => text2("missing value for ", key.as_str()),
            ConfigError::UnknownArgument { key } => text2("unknown argument: ", key.as_str()),
            ConfigError::MissingRequired { what } => text2("missing required ", what.as_str()),
            ConfigError::UnsupportedField { field } => text3(
                "unsupported field: ",
                field.as_str(),
                " (allowed: flow,db-type,host,port,user,password,db-name,objects,condition,order-by,hide-primary-key,output-format,compress,delete-after-compress,output-directory,recsize,page-size,page-no,import-host,import-port,import-db-type,import-user,import-password,import-db-name)",
            ),
            ConfigError::UnsupportedUnsetField { field } => text3(
                "unsupported unset field: ",
                field.as_str(),
                " (allowed: export-condition,export-order-by,export-compress,export-recsize,export-page-no)",
            ),
        }
    }
}

// ---------------------------------------------------------------------
// Copies with known contents
// ---------------------------------------------------------------------

pub fn copy_string(s: &String) -> (r: String)
    ensures
        r == *s,
{
    s.clone()
}

pub fn copy_opt_string(o: &Option<String>) -> (r: Option<String>)
    ensures
        r == *o,
{
    match o {
        Some(s) => Some(s.clone()),
        None => None,
    }
}

impl Cli {
    /// A field-for-field copy.
    pub fn copy(&self) -> (r: Cli)
        ensures
            r == *self,
    {
        Cli {
            flow: self.flow,
            mode: self.mode,
            lang: self.lang,
            db_type: self.db_type,
            host: copy_string(&self.host),
            port: self.port,
            user: copy_string(&self.user),
            password: copy_string(&self.password),
            db_name: copy_string(&self.db_name),
            objects: copy_string(&self.objects),
            condition: copy_opt_string(&self.condition),
            order_by: copy_opt_string(&self.order_by),
            hide_primary_key: self.hide_primary_key,
            output_format: self.output_format,
            compress: self.compress,
            delete_after_compress: self.delete_after_compress,
            output_directory: copy_string(&self.output_directory),
            recsize: self.recsize,
            page_size: self.page_size,
            page_no: self.page_no,
            export_collation: copy_string(&self.export_collation),
            import_host: copy_string(&self.import_host),
            import_port: self.import_port,
            import_db_type: self.import_db_type,
            import_user: copy_string(&self.import_user),
            import_password: copy_string(&self.import_password),
            import_db_name: copy_string(&self.import_db_name),
            import_collation: copy_string(&self.import_collation),
            import_content_format: self.import_content_format,
            import_content_src: copy_string(&self.import_content_src),
        }
    }
}

// ---------------------------------------------------------------------
// Reading the enumerations from text
// ---------------------------------------------------------------------

/// The key a value is looked up by: trimmed, then ASCII-lowercased.
pub open spec fn key_of(raw: Seq<char>) -> Seq<char> {
    lower_seq(trim_seq(raw))
}

/// Trimmed and ASCII-lowercased copy of `raw`.
pub fn normalize_key(raw: &str) -> (r: String)
    ensures
        r@ == key_of(raw@),
{
    let t = trim(raw);
    to_ascii_lower(t.as_str())
}

/// The database type a name denotes. Case is ignored; the name is not
/// trimmed.
pub open spec fn spec_parse_db_type(raw: Seq<char>) -> Option<DbType> {
    let k = lower_seq(raw);
    if k == "mssql"@ {
        Some(DbType::Mssql)
    } else if k == "oracle"@ {
        Some(DbType::Oracle)
    } else if k == "mysql"@ {
        Some(DbType::Mysql)
    } else if k == "postgresql"@ || k == "postgres"@ {
        Some(DbType::Postgresql)
    } else if k == "sql-lite"@ || k == "sqlite"@ {
        Some(DbType::SqlLite)
    } else {
        None
    }
}

pub fn parse_db_type(raw: &str) -> (r: Result<DbType, ConfigError>)
    ensures
        r matches Ok(v) ==> spec_parse_db_type(raw@) == Some(v),
        r is Ok <==> spec_parse_db_type(raw@) is Some,
        r matches Err(e) ==> e@ == ConfigErr::UnsupportedDbType(raw@),
{
    let k = to_ascii_lower(raw);
    let k = k.as_str();
    if str_eq(k, "mssql") {
        Ok(DbType::Mssql)
    } else if str_eq(k, "oracle") {
        Ok(DbType::Oracle)
    } else if str_eq(k, "mysql") {
        Ok(DbType::Mysql)
    } else if str_eq(k, "postgresql") || str_eq(k, "postgres") {
        Ok(DbType::Postgresql)
    } else if str_eq(k, "sql-lite") || str_eq(k, "sqlite") {
        Ok(DbType::SqlLite)
    } else {
        Err(ConfigError::UnsupportedDbType { raw: to_owned(raw) })
    }
}

/// The output format a name denotes, after trimming and ignoring case.
pub open spec fn spec_parse_output_format(raw: Seq<char>) -> Option<OutputFormat> {
    let k = key_of(raw);
    if k == "sql"@ {
        Some(OutputFormat::Sql)
    } else if k == "sql-lite"@ || k == "sqlite"@ {
        Some(OutputFormat::SqlLite)
    } else if k == "csv"@ {
        Some(OutputFormat::Csv)
    } else if k == "excel"@ {
        Some(OutputFormat::Excel)
    } else if k == "json"@ {
        Some(OutputFormat::Json)
    } else if k == "xml"@ {
        Some(OutputFormat::Xml)
    } else if k == "md"@ {
        Some(OutputFormat::Md)
    } else {
        None
    }
}

pub fn parse_output_format(raw: &str) -> (r: Result<OutputFormat, ConfigError>)
    ensures
        r matches Ok(v) ==> spec_parse_output_format(raw@) == Some(v),
        r is Ok <==> spec_parse_output_format(raw@) is Some,
        r matches Err(e) ==> e@ == ConfigErr::UnsupportedOutputFormat(raw@),
{
    let k = normalize_key(raw);
    let k = k.as_str();
    if str_eq(k, "sql") {
        Ok(OutputFormat::Sql)
    } else if str_eq(k, "sql-lite") || str_eq(k, "sqlite") {
        Ok(OutputFormat::SqlLite)
    } else if str_eq(k, "csv") {
        Ok(OutputFormat::Csv)
    } else if str_eq(k, "excel") {
        Ok(OutputFormat::Excel)
    } else if str_eq(k, "json") {
        Ok(OutputFormat::Json)
    } else if str_eq(k, "xml") {
        Ok(OutputFormat::Xml)
    } else if str_eq(k, "md") {
        Ok(OutputFormat::Md)
    } else {
        Err(ConfigError::UnsupportedOutputFormat { raw: to_owned(raw) })
    }
}

pub open spec fn spec_parse_compress_type(raw: Seq<char>) -> Option<CompressType> {
    let k = key_of(raw);
    if k == "zip"@ {
        Some(CompressType::Zip)
    } else if k == "bzip"@ {
        Some(CompressType::Bzip)
    } else if k == "tar"@ {
        Some(CompressType::Tar)
    } else {
        None
    }
}

pub fn parse_compress_type(raw: &str) -> (r: Result<CompressType, ConfigError>)
    ensures
        r matches Ok(v) ==> spec_parse_compress_type(raw@) == Some(v),
        r is Ok <==> spec_parse_compress_type(raw@) is Some,
        r matches Err(e) ==> e@ == ConfigErr::UnsupportedCompress(raw@),
{
    let k = normalize_key(raw);
    let k = k.as_str();
    if str_eq(k, "zip") {
        Ok(CompressType::Zip)
    } else if str_eq(k, "bzip") {
        Ok(CompressType::Bzip)
    } else if str_eq(k, "tar") {
        Ok(CompressType::Tar)
    } else {
        Err(ConfigError::UnsupportedCompress { raw: to_owned(raw) })
    }
}

pub open spec fn spec_parse_run_mode(raw: Seq<char>) -> Option<RunMode> {
    let k = key_of(raw);
    if k == "cli"@ {
        Some(RunMode::Cli)
    } else if k == "tui"@ {
        Some(RunMode::Tui)
    } else {
        None
    }
}

pub fn parse_run_mode(raw: &str) -> (r: Result<RunMode, ConfigError>)
    ensures
        r matches Ok(v) ==> spec_parse_run_mode(raw@) == Some(v),
        r is Ok <==> spec_parse_run_mode(raw@) is Some,
        r matches Err(e) ==> e@ == ConfigErr::UnsupportedMode(raw@),
{
    let k = normalize_key(raw);
    let k = k.as_str();
    if str_eq(k, "cli") {
        Ok(RunMode::Cli)
    } else if str_eq(k, "tui") {
        Ok(RunMode::Tui)
    } else {
        Err(ConfigError::UnsupportedMode { raw: to_owned(raw) })
    }
}

/// Only the two data flows can be named; the schema flows are reached from
/// the menu alone.
pub open spec fn spec_parse_flow_mode(raw: Seq<char>) -> Option<FlowMode> {
    let k = key_of(raw);
    if k == "export"@ {
        Some(FlowMode::Export)
    } else if k == "import"@ {
        Some(FlowMode::Import)
    } else {
        None
    }
}

pub fn parse_flow_mode(raw: &str) -> (r: Result<FlowMode, ConfigError>)
    ensures
        r matches Ok(v) ==> spec_parse_flow_mode(raw@) == Some(v),
        r is Ok <==> spec_parse_flow_mode(raw@) is Some,
        r matches Err(e) ==> e@ == ConfigErr::UnsupportedFlow(raw@),
{
    let k = normalize_key(raw);
    let k = k.as_str();
    if str_eq(k, "export") {
        Ok(FlowMode::Export)
    } else if str_eq(k, "import") {
        Ok(FlowMode::Import)
    } else {
        Err(ConfigError::UnsupportedFlow { raw: to_owned(raw) })
    }
}

pub open spec fn spec_parse_lang(raw: Seq<char>) -> Option<Lang> {
    let k = key_of(raw);
    if k == "tw"@ {
        Some(Lang::Tw)
    } else if k == "en"@ {
        Some(Lang::En)
    } else if k == "ja"@ {
        Some(Lang::Ja)
    } else {
        None
    }
}

pub fn parse_lang(raw: &str) -> (r: Result<Lang, ConfigError>)
    ensures
        r matches Ok(v) ==> spec_parse_lang(raw@) == Some(v),
        r is Ok <==> spec_parse_lang(raw@) is Some,
        r matches Err(e) ==> e@ == ConfigErr::UnsupportedLang(raw@),
{
    let k = normalize_key(raw);
    let k = k.as_str();
    if str_eq(k, "tw") {
        Ok(Lang::Tw)
    } else if str_eq(k, "en") {
        Ok(Lang::En)
    } else if str_eq(k, "ja") {
        Ok(Lang::Ja)
    } else {
        Err(ConfigError::UnsupportedLang { raw: to_owned(raw) })
    }
}

/// A positive count: `str::parse::<usize>` of the untrimmed text, and not 0.
pub fn parse_positive_usize(name: &str, value: &str) -> (r: Result<usize, ConfigError>)
    ensures
        r matches Ok(v) ==> parse_usize_seq(value@) == Some(v) && v > 0,
        r is Ok <==> (parse_usize_seq(value@) is Some && parse_usize_seq(value@).unwrap() > 0),
        r matches Err(e) ==> e@ == (if parse_usize_seq(value@) is None {
            ConfigErr::InvalidNumber(name@, value@)
        } else {
            ConfigErr::ZeroNumber(name@)
        }),
{
    match parse_usize(value) {
        None => Err(ConfigError::InvalidNumber { name: to_owned(name), value: to_owned(value) }),
        Some(v) => {
            if v == 0 {
                Err(ConfigError::ZeroNumber { name: to_owned(name) })
            } else {
                Ok(v)
            }
        },
    }
}

/// `true` or `false`, after trimming and ignoring case.
pub open spec fn spec_parse_bool(value: Seq<char>) -> Option<bool> {
    let k = key_of(value);
    if k == "true"@ {
        Some(true)
    } else if k == "false"@ {
        Some(false)
    } else {
        None
    }
}

pub fn parse_bool_arg(name: &str, value: &str) -> (r: Result<bool, ConfigError>)
    ensures
        r matches Ok(v) ==> spec_parse_bool(value@) == Some(v),
        r is Ok <==> spec_parse_bool(value@) is Some,
        r matches Err(e) ==> e@ == ConfigErr::InvalidBool(name@, value@),
{
    let k = normalize_key(value);
    let k = k.as_str();
    if str_eq(k, "true") {
        Ok(true)
    } else if str_eq(k, "false") {
        Ok(false)
    } else {
        Err(ConfigError::InvalidBool { name: to_owned(name), value: to_owned(value) })
    }
}

// ---------------------------------------------------------------------
// Writing the enumerations as text
// ---------------------------------------------------------------------

pub open spec fn spec_mode_str(v: RunMode) -> Seq<char> {
    match v {
        RunMode::Cli => "cli"@,
        RunMode::Tui => "tui"@,
    }
}

pub fn mode_to_str(v: RunMode) -> (r: &'static str)
    ensures
        r@ == spec_mode_str(v),
{
    match v {
        RunMode::Cli => "cli",
        RunMode::Tui => "tui",
    }
}

/// A schema flow is written as the data flow it runs with.
pub open spec fn spec_flow_str(v: FlowMode) -> Seq<char> {
    match v {
        FlowMode::Export | FlowMode::ExportSchema => "export"@,
        FlowMode::Import | FlowMode::ImportSchema => "import"@,
    }
}

pub fn flow_to_str(v: FlowMode) -> (r: &'static str)
    ensures
        r@ == spec_flow_str(v),
{
    match v {
        FlowMode::Export | FlowMode::ExportSchema => "export",
        FlowMode::Import | FlowMode::ImportSchema => "import",
    }
}

pub open spec fn spec_lang_str(v: Lang) -> Seq<char> {
    match v {
        Lang::Tw => "tw"@,
        Lang::En => "en"@,
        Lang::Ja => "ja"@,
    }
}

pub fn lang_to_str(v: Lang) -> (r: &'static str)
    ensures
        r@ == spec_lang_str(v),
{
    match v {
        Lang::Tw => "tw",
        Lang::En => "en",
        Lang::Ja => "ja",
    }
}

pub open spec fn spec_db_type_str(v: DbType) -> Seq<char> {
    match v {
        DbType::Mssql => "mssql"@,
        DbType::Oracle => "oracle"@,
        DbType::Mysql => "mysql"@,
        DbType::Postgresql => "postgresql"@,
        DbType::SqlLite => "sql-lite"@,
    }
}

pub fn db_type_to_str(v: DbType) -> (r: &'static str)
    ensures
        r@ == spec_db_type_str(v),
{
    match v {
        DbType::Mssql => "mssql",
        DbType::Oracle => "oracle",
        DbType::Mysql => "mysql",
        DbType::Postgresql => "postgresql",
        DbType::SqlLite => "sql-lite",
    }
}

pub open spec fn spec_output_format_str(v: OutputFormat) -> Seq<char> {
    match v {
        OutputFormat::Sql => "sql"@,
        OutputFormat::SqlLite => "sql-lite"@,
        OutputFormat::Csv => "csv"@,
        OutputFormat::Excel => "excel"@,
        OutputFormat::Json => "json"@,
        OutputFormat::Xml => "xml"@,
        OutputFormat::Md => "md"@,
    }
}

pub fn output_format_to_str(v: OutputFormat) -> (r: &'static str)
    ensures
        r@ == spec_output_format_str(v),
{
    match v {
        OutputFormat::Sql => "sql",
        OutputFormat::SqlLite => "sql-lite",
        OutputFormat::Csv => "csv",
        OutputFormat::Excel => "excel",
        OutputFormat::Json => "json",
        OutputFormat::Xml => "xml",
        OutputFormat::Md => "md",
    }
}

pub open spec fn spec_compress_str(v: CompressType) -> Seq<char> {
    match v {
        CompressType::Zip => "zip"@,
        CompressType::Bzip => "bzip"@,
        CompressType::Tar => "tar"@,
    }
}

pub fn compress_to_str(v: CompressType) -> (r: &'static str)
    ensures
        r@ == spec_compress_str(v),
{
    match v {
        CompressType::Zip => "zip",
        CompressType::Bzip => "bzip",
        CompressType::Tar => "tar",
    }
}

pub open spec fn spec_bool_str(b: bool) -> Seq<char> {
    if b {
        "true"@
    } else {
        "false"@
    }
}

/// `bool::to_string`.
pub fn bool_to_string(b: bool) -> (r: String)
    ensures
        r@ == spec_bool_str(b),
{
    if b {
        to_owned("true")
    } else {
        to_owned("false")
    }
}

// ---------------------------------------------------------------------
// The defaults
// ---------------------------------------------------------------------

/// The configuration a run starts from before the environment and the
/// command line are read.
pub fn default_tui_cli() -> (r: Cli)
    ensures
        r@ == default_cli_view(),
{
    Cli {
        flow: FlowMode::Export,
        mode: RunMode::Tui,
        lang: Lang::En,
        db_type: DbType::Mssql,
        host: String::new(),
        port: 1433,
        user: String::new(),
        password: String::new(),
        db_name: String::new(),
        objects: to_owned(".*"),
        condition: None,
        order_by: None,
        hide_primary_key: false,
        output_format: OutputFormat::Sql,
        compress: None,
        delete_after_compress: false,
        output_directory: to_owned("./export"),
        recsize: None,
        page_size: 10000,
        page_no: None,
        export_collation: String::new(),
        import_host: String::new(),
        import_port: 1433,
        import_db_type: DbType::Mssql,
        import_user: String::new(),
        import_password: String::new(),
        import_db_name: String::new(),
        import_collation: String::new(),
        import_content_format: ImportContentFormat::SqlLite,
        import_content_src: to_owned("./export/export.sqlite"),
    }
}

// ---------------------------------------------------------------------
// Laws: each name read back gives the value it was written from
// ---------------------------------------------------------------------

proof fn lemma_key_of_plain(s: Seq<char>)
    requires
        s.len() > 0,
        forall|i: int| 0 <= i < s.len() ==> ('a' <= #[trigger] s[i] && s[i] <= 'z') || s[i] == '-',
    ensures
        key_of(s) == s,
        lower_seq(s) == s,
{
    assert(trim_start_seq(s) == s);
    assert(trim_end_seq(s) == s);
    assert(lower_seq(s) =~= s);
}

/// Writing a database type and reading the name back gives the same type.
pub proof fn law_db_type_roundtrip(v: DbType)
    ensures
        spec_parse_db_type(spec_db_type_str(v)) == Some(v),
{
    reveal_strlit("mssql");
    reveal_strlit("oracle");
    reveal_strlit("mysql");
    reveal_strlit("postgresql");
    reveal_strlit("postgres");
    reveal_strlit("sql-lite");
    reveal_strlit("sqlite");
    lemma_key_of_plain(spec_db_type_str(v));
    match v {
        DbType::Mssql => {},
        DbType::Oracle => {
            assert("oracle"@ != "mssql"@);
        },
        DbType::Mysql => {
            assert("mysql"@[1] != "mssql"@[1]);
            assert("mysql"@ != "oracle"@);
        },
        DbType::Postgresql => {
            assert("postgresql"@ != "mssql"@);
            assert("postgresql"@ != "oracle"@);
            assert("postgresql"@ != "mysql"@);
        },
        DbType::SqlLite => {
            assert("sql-lite"@ != "mssql"@);
            assert("sql-lite"@ != "oracle"@);
            assert("sql-lite"@ != "mysql"@);
            assert("sql-lite"@ != "postgresql"@);
            assert("sql-lite"@ != "postgres"@);
        },
    }
}

/// Writing an output format and reading the name back gives the same format.
pub proof fn law_output_format_roundtrip(v: OutputFormat)
    ensures
        spec_parse_output_format(spec_output_format_str(v)) == Some(v),
{
    reveal_strlit("sql");
    reveal_strlit("sql-lite");
    reveal_strlit("sqlite");
    reveal_strlit("csv");
    reveal_strlit("excel");
    reveal_strlit("json");
    reveal_strlit("xml");
    reveal_strlit("md");
    lemma_key_of_plain(spec_output_format_str(v));
}

/// Writing a compression type and reading the name back gives the same type.
pub proof fn law_compress_roundtrip(v: CompressType)
    ensures
        spec_parse_compress_type(spec_compress_str(v)) == Some(v),
{
    reveal_strlit("zip");
    reveal_strlit("bzip");
    reveal_strlit("tar");
    lemma_key_of_plain(spec_compress_str(v));
}

/// Writing a run mode and reading the name back gives the same mode.
pub proof fn law_mode_roundtrip(v: RunMode)
    ensures
        spec_parse_run_mode(spec_mode_str(v)) == Some(v),
{
    reveal_strlit("cli");
    reveal_strlit("tui");
    lemma_key_of_plain(spec_mode_str(v));
}

/// Writing a language and reading the name back gives the same language.
pub proof fn law_lang_roundtrip(v: Lang)
    ensures
        spec_parse_lang(spec_lang_str(v)) == Some(v),
{
    reveal_strlit("tw");
    reveal_strlit("en");
    reveal_strlit("ja");
    lemma_key_of_plain(spec_lang_str(v));
}

/// Writing a data flow and reading the name back gives the same flow; a
/// schema flow reads back as the data flow it is written as.
pub proof fn law_flow_roundtrip(v: FlowMode)
    ensures
        spec_parse_flow_mode(spec_flow_str(v)) == Some(
            match v {
                FlowMode::Export | FlowMode::ExportSchema => FlowMode::Export,
                FlowMode::Import | FlowMode::ImportSchema => FlowMode::Import,
            },
        ),
{
    reveal_strlit("export");
    reveal_strlit("import");
    lemma_key_of_plain(spec_flow_str(v));
}

/// Writing a boolean and reading it back gives the same boolean.
pub proof fn law_bool_roundtrip(b: bool)
    ensures
        spec_parse_bool(spec_bool_str(b)) == Some(b),
{
    reveal_strlit("true");
    reveal_strlit("false");
    lemma_key_of_plain(spec_bool_str(b));
}

} // verus!
