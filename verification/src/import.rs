//! The decisions of an import from a SQLite file (or an archive holding
//! one) into a target database: recognising archives and SQLite files, the
//! target connection, the checks before the run, and the INSERT statements.
use vstd::prelude::*;
use crate::config::{Cli, CliView, CompressType, ConfigErr, DbType, ImportContentFormat};
use crate::export_run::spec_archive_extension;
use crate::sql_text::{quote_ident, quoted_ident};
use crate::text::{
    chars_of, decimal, ends_with, has_suffix, is_blank, join, join_seq, lemma_views_push, lower_seq,
    push_str, str_eq, to_ascii_lower, to_owned, trim_seq, usize_to_string, views,
};

verus! {

/// The kinds of archive an import source can be.
#[derive(Copy, Clone, Debug, PartialEq, Eq, Structural)]
pub enum ArchiveKind {
    Zip,
    Tar,
    Bzip,
}

/// The archive kind a file name (in any case) shows by its extension.
pub open spec fn archive_kind_of(name: Seq<char>) -> Option<ArchiveKind> {
    let l = lower_seq(name);
    if has_suffix(l, ".zip"@) {
        Some(ArchiveKind::Zip)
    } else if has_suffix(l, ".tar"@) {
        Some(ArchiveKind::Tar)
    } else if has_suffix(l, ".tar.bz2"@) || has_suffix(l, ".tbz2"@) || has_suffix(l, ".bz2"@) {
        Some(ArchiveKind::Bzip)
    } else {
        None
    }
}

/// The archive kind that a compression's archives are.
pub open spec fn archive_kind_for(c: CompressType) -> ArchiveKind {
    match c {
        CompressType::Zip => ArchiveKind::Zip,
        CompressType::Tar => ArchiveKind::Tar,
        CompressType::Bzip => ArchiveKind::Bzip,
    }
}

/// The small-letter form of text keeps its length, and its last characters
/// are the small-letter forms of the text's last characters.
proof fn lemma_lower_suffix(name: Seq<char>, ext: Seq<char>)
    requires
        has_suffix(name, ext),
        lower_seq(ext) == ext,
    ensures
        has_suffix(lower_seq(name), ext),
{
    let l = lower_seq(name);
    let k = name.len() - ext.len();
    assert(l.skip(k) =~= lower_seq(name.skip(k)));
}

/// A name that ends in `.zip`, `.tar` or `.bz2`, in any case, is recognised
/// as a zip, tar or bzip archive.
pub proof fn law_archive_extensions(name: Seq<char>)
    ensures
        has_suffix(lower_seq(name), ".zip"@) ==> archive_kind_of(name) == Some(ArchiveKind::Zip),
        has_suffix(lower_seq(name), ".tar"@) ==> archive_kind_of(name) == Some(ArchiveKind::Tar),
        has_suffix(lower_seq(name), ".bz2"@) ==> archive_kind_of(name) == Some(ArchiveKind::Bzip),
{
    reveal_strlit(".zip");
    reveal_strlit(".tar");
    reveal_strlit(".bz2");
    let l = lower_seq(name);
    assert(".zip"@.len() == 4 && ".tar"@.len() == 4 && ".bz2"@.len() == 4);
    assert(".zip"@[3] == 'p' && ".tar"@[3] == 'r' && ".bz2"@[3] == '2');
    if l.len() >= 4 {
        let t = l.skip(l.len() - 4);
        assert(has_suffix(l, ".zip"@) ==> t[3] == 'p');
        assert(has_suffix(l, ".tar"@) ==> t[3] == 'r');
        assert(has_suffix(l, ".bz2"@) ==> t[3] == '2');
    }
}

/// Every archive an export makes is recognised by an import as the kind of
/// archive it is, whatever its timestamp.
pub proof fn law_export_archives_are_recognised(timestamp: Seq<char>, c: CompressType)
    ensures
        archive_kind_of("wh-export-"@ + timestamp + "."@ + spec_archive_extension(c)) == Some(
            archive_kind_for(c),
        ),
{
    let ext = "."@ + spec_archive_extension(c);
    let name = "wh-export-"@ + timestamp + "."@ + spec_archive_extension(c);
    assert(name =~= "wh-export-"@ + timestamp + ext);
    assert(name.len() >= ext.len());
    reveal_strlit(".");
    reveal_strlit("zip");
    reveal_strlit("tar");
    reveal_strlit("bz2");
    reveal_strlit(".zip");
    reveal_strlit(".tar");
    reveal_strlit(".bz2");
    assert(name.skip(name.len() - ext.len()) =~= ext);
    match c {
        CompressType::Zip => {
            assert(ext =~= ".zip"@);
        },
        CompressType::Tar => {
            assert(ext =~= ".tar"@);
        },
        CompressType::Bzip => {
            assert(ext =~= ".bz2"@);
        },
    }
    assert(lower_seq(ext) =~= ext);
    assert(has_suffix(name, ext));
    lemma_lower_suffix(name, ext);
    assert(has_suffix(lower_seq(name), ext));
    law_archive_extensions(name);
}

/// The archive kind of an import source by its file name; a path without a
/// file name is no archive.
pub fn detect_archive_kind(file_name: Option<&str>) -> (r: Option<ArchiveKind>)
    ensures
        r == match file_name {
            Some(n) => archive_kind_of(n@),
            None => None,
        },
{
    let name = match file_name {
        Some(n) => n,
        None => return None,
    };
    let l = chars_of(to_ascii_lower(name).as_str());
    if ends_with(&l, ".zip") {
        Some(ArchiveKind::Zip)
    } else if ends_with(&l, ".tar") {
        Some(ArchiveKind::Tar)
    } else if ends_with(&l, ".tar.bz2") || ends_with(&l, ".tbz2") || ends_with(&l, ".bz2") {
        Some(ArchiveKind::Bzip)
    } else {
        None
    }
}

/// Whether a file found in an extracted archive is taken as the SQLite
/// source: `export.sqlite`, or any `.sqlite` or `.db` file, in any case.
pub open spec fn is_sqlite_name(name: Seq<char>) -> bool {
    let l = lower_seq(name);
    l == "export.sqlite"@ || has_suffix(l, ".sqlite"@) || has_suffix(l, ".db"@)
}

pub fn is_sqlite_source_name(name: &str) -> (r: bool)
    ensures
        r == is_sqlite_name(name@),
{
    let lower = to_ascii_lower(name);
    let l = chars_of(lower.as_str());
    str_eq(lower.as_str(), "export.sqlite") || ends_with(&l, ".sqlite") || ends_with(&l, ".db")
}

/// An entry of a directory being searched.
pub struct DirEntryInfo {
    pub path: String,
    pub is_dir: bool,
    pub name: String,
}

/// What scanning one directory's entries leaves: the directories to search
/// later, pushed in order, and the first SQLite file if there is one before
/// the end.
pub open spec fn scan_result(
    stack: Seq<Seq<char>>,
    entries: Seq<(Seq<char>, bool, Seq<char>)>,
) -> (Seq<Seq<char>>, Option<Seq<char>>)
    decreases entries.len(),
{
    if entries.len() == 0 {
        (stack, None)
    } else {
        let e = entries[0];
        if e.1 {
            scan_result(stack.push(e.0), entries.drop_first())
        } else if is_sqlite_name(e.2) {
            (stack, Some(e.0))
        } else {
            scan_result(stack, entries.drop_first())
        }
    }
}

pub open spec fn entry_view(e: DirEntryInfo) -> (Seq<char>, bool, Seq<char>) {
    (e.path@, e.is_dir, e.name@)
}

/// Scans one directory's entries in order for the SQLite source: a
/// directory is kept for later, the first matching file ends the search.
/// The directories still to search are taken from the end of `stack`.
pub fn scan_dir_entries(stack: &mut Vec<String>, entries: &Vec<DirEntryInfo>) -> (r: Option<String>)
    ensures
        (views(final(stack)@), match r {
            Some(p) => Some(p@),
            None => None,
        }) == scan_result(views(old(stack)@), entries@.map_values(|e: DirEntryInfo| entry_view(e))),
{
    let ghost ev = entries@.map_values(|e: DirEntryInfo| entry_view(e));
    let n = entries.len();
    let mut i: usize = 0;
    assert(ev.skip(0) =~= ev);
    while i < n
        invariant
            n == entries@.len(),
            ev == entries@.map_values(|e: DirEntryInfo| entry_view(e)),
            i <= n,
            scan_result(views(old(stack)@), ev) == scan_result(views(stack@), ev.skip(i as int)),
        decreases n - i,
    {
        let e = &entries[i];
        assert(ev.skip(i as int)[0] == entry_view(entries@[i as int]));
        assert(ev.skip(i as int).drop_first() =~= ev.skip(i + 1));
        if e.is_dir {
            let t = to_owned(e.path.as_str());
            proof {
                lemma_views_push(stack@, t);
            }
            stack.push(t);
        } else if is_sqlite_source_name(e.name.as_str()) {
            return Some(to_owned(e.path.as_str()));
        }
        i = i + 1;
    }
    assert(ev.skip(n as int) =~= Seq::<(Seq<char>, bool, Seq<char>)>::empty());
    None
}

/// The message when no SQLite file is found under the extracted directory.
pub fn no_sqlite_source_message(dir: &str) -> (r: String)
    ensures
        r@ == "no sqlite source found under extracted directory: "@ + dir@,
{
    let mut m = to_owned("no sqlite source found under extracted directory: ");
    push_str(&mut m, dir);
    m
}

/// The program and arguments that extract an archive into a directory.
pub open spec fn extraction(kind: ArchiveKind, src: Seq<char>, dest: Seq<char>) -> (
    Seq<char>,
    Seq<Seq<char>>,
) {
    match kind {
        ArchiveKind::Zip => ("unzip"@, seq!["-q"@, src, "-d"@, dest]),
        ArchiveKind::Tar => ("tar"@, seq!["-xf"@, src, "-C"@, dest]),
        ArchiveKind::Bzip => ("tar"@, seq!["-xjf"@, src, "-C"@, dest]),
    }
}

pub fn extract_command(kind: ArchiveKind, src: &str, dest: &str) -> (r: (String, Vec<String>))
    ensures
        (r.0@, views(r.1@)) == extraction(kind, src@, dest@),
{
    let mut args: Vec<String> = Vec::new();
    let program = match kind {
        ArchiveKind::Zip => {
            args.push(to_owned("-q"));
            args.push(to_owned(src));
            args.push(to_owned("-d"));
            args.push(to_owned(dest));
            to_owned("unzip")
        },
        ArchiveKind::Tar => {
            args.push(to_owned("-xf"));
            args.push(to_owned(src));
            args.push(to_owned("-C"));
            args.push(to_owned(dest));
            to_owned("tar")
        },
        ArchiveKind::Bzip => {
            args.push(to_owned("-xjf"));
            args.push(to_owned(src));
            args.push(to_owned("-C"));
            args.push(to_owned(dest));
            to_owned("tar")
        },
    };
    proof {
        let (p, a) = extraction(kind, src@, dest@);
        assert(views(args@) =~= a);
    }
    (program, args)
}

/// The directory an archive is extracted into:
/// `/tmp/corn-dbio-kit-import-<time stamp>-<process id>`.
pub fn temp_import_dir_path(timestamp: &str, pid: u32) -> (r: String)
    ensures
        r@ == "/tmp/corn-dbio-kit-import-"@ + timestamp@ + "-"@ + decimal(pid as nat),
{
    let mut s = to_owned("/tmp/corn-dbio-kit-import-");
    push_str(&mut s, timestamp);
    push_str(&mut s, "-");
    push_str(&mut s, usize_to_string(pid as usize).as_str());
    s
}

// ---------------------------------------------------------------------
// The target and the checks before a run
// ---------------------------------------------------------------------

/// The configuration the import connects with: the import connection in
/// place of the export one.
pub open spec fn import_target(c: CliView) -> CliView {
    CliView {
        host: c.import_host,
        port: c.import_port,
        db_type: c.import_db_type,
        user: c.import_user,
        password: c.import_password,
        db_name: c.import_db_name,
        export_collation: c.import_collation,
        ..c
    }
}

pub fn import_target_cli(cli: &Cli) -> (r: Cli)
    ensures
        r@ == import_target(cli@),
{
    let mut t = cli.copy();
    t.host = to_owned(cli.import_host.as_str());
    t.port = cli.import_port;
    t.db_type = cli.import_db_type;
    t.user = to_owned(cli.import_user.as_str());
    t.password = to_owned(cli.import_password.as_str());
    t.db_name = to_owned(cli.import_db_name.as_str());
    t.export_collation = to_owned(cli.import_collation.as_str());
    t
}

/// Why an import cannot start.
#[derive(Clone, Debug, PartialEq, Eq, Structural)]
pub enum ImportCheck {
    /// Only SQLite sources can be imported.
    UnsupportedContentFormat,
    /// A server target needs its host, user, password and database name.
    MissingConnectionFields,
}

/// An import reads SQLite content only.
pub fn check_import_format(cli: &Cli) -> (r: Result<(), ImportCheck>)
    ensures
        r is Ok <==> cli.import_content_format == ImportContentFormat::SqlLite,
        r matches Err(e) ==> e == ImportCheck::UnsupportedContentFormat,
{
    if cli.import_content_format != ImportContentFormat::SqlLite {
        Err(ImportCheck::UnsupportedContentFormat)
    } else {
        Ok(())
    }
}

/// A target other than SQLite needs a host, user, password and database
/// name that are not blank.
pub open spec fn target_complete(t: CliView) -> bool {
    t.db_type == DbType::SqlLite || (trim_seq(t.host).len() > 0 && trim_seq(t.user).len() > 0
        && trim_seq(t.password).len() > 0 && trim_seq(t.db_name).len() > 0)
}

pub fn check_import_target(target: &Cli) -> (r: Result<(), ImportCheck>)
    ensures
        r is Ok <==> target_complete(target@),
        r matches Err(e) ==> e == ImportCheck::MissingConnectionFields,
{
    if target.db_type != DbType::SqlLite {
        if is_blank(target.host.as_str()) || is_blank(target.user.as_str()) || is_blank(
            target.password.as_str(),
        ) || is_blank(target.db_name.as_str()) {
            return Err(ImportCheck::MissingConnectionFields);
        }
    }
    Ok(())
}

impl ImportCheck {
    /// The message shown for the refusal.
    pub fn message(&self) -> (r: &'static str)
        ensures
            r@ == match self {
                ImportCheck::UnsupportedContentFormat => "import currently supports import-content-format=sqlite only"@,
                ImportCheck::MissingConnectionFields => "missing import connection fields: import-host/import-user/import-password/import-db-name"@,
            },
    {
        match self {
            ImportCheck::UnsupportedContentFormat => "import currently supports import-content-format=sqlite only",
            ImportCheck::MissingConnectionFields => "missing import connection fields: import-host/import-user/import-password/import-db-name",
        }
    }
}

// ---------------------------------------------------------------------
// Reading the source
// ---------------------------------------------------------------------

/// The query listing the source's tables.
pub fn source_tables_sql() -> (r: &'static str)
    ensures
        r@ == "SELECT name FROM sqlite_master WHERE type='table' AND name NOT LIKE 'sqlite_%' ORDER BY name"@,
{
    "SELECT name FROM sqlite_master WHERE type='table' AND name NOT LIKE 'sqlite_%' ORDER BY name"
}

/// The query that lists a source table's columns.
pub fn source_columns_sql(table: &str) -> (r: String)
    ensures
        r@ == "PRAGMA table_info("@ + quoted_ident(DbType::SqlLite, table@) + ")"@,
{
    let mut s = to_owned("PRAGMA table_info(");
    push_str(&mut s, quote_ident(DbType::SqlLite, table).as_str());
    push_str(&mut s, ")");
    s
}

/// The query that reads a source table.
pub fn source_rows_sql(table: &str) -> (r: String)
    ensures
        r@ == "SELECT * FROM "@ + quoted_ident(DbType::SqlLite, table@),
{
    let mut s = to_owned("SELECT * FROM ");
    push_str(&mut s, quote_ident(DbType::SqlLite, table).as_str());
    s
}

/// The row count of a source table from its count query: the count when it
/// is a number that fits, else 0.
pub fn source_row_count(count: Option<i64>) -> (r: usize)
    ensures
        r as int == match count {
            Some(v) => if 0 <= v && v <= usize::MAX {
                v as int
            } else {
                0
            },
            None => 0,
        },
{
    match count {
        Some(v) => if v >= 0 && (v as u64) <= (usize::MAX as u64) {
            v as usize
        } else {
            0
        },
        None => 0,
    }
}

/// The progress of a table's rows is reported every 200 rows.
pub fn reports_rows(imported_rows: usize) -> (r: bool)
    ensures
        r == (imported_rows % 200 == 0),
{
    imported_rows % 200 == 0
}

// ---------------------------------------------------------------------
// Writing the target
// ---------------------------------------------------------------------

/// `(v1,v2,...)`: one row of values.
pub fn values_tuple(values: &Vec<String>) -> (r: String)
    ensures
        r@ == "("@ + join_seq(views(values@), ","@) + ")"@,
{
    let mut s = to_owned("(");
    push_str(&mut s, join(values, ",").as_str());
    push_str(&mut s, ")");
    s
}

/// The statement inserting rows of values: one multi-row INSERT, or for
/// Oracle one INSERT per row joined by `; `.
pub open spec fn insert_sql(
    db_type: DbType,
    table: Seq<char>,
    quoted_cols: Seq<Seq<char>>,
    rows: Seq<Seq<char>>,
) -> Seq<char> {
    let col_sql = join_seq(quoted_cols, ", "@);
    match db_type {
        DbType::Oracle => join_seq(
            rows.map_values(
                |v: Seq<char>| "INSERT INTO "@ + table + " ("@ + col_sql + ") VALUES "@ + v,
            ),
            "; "@,
        ),
        _ => "INSERT INTO "@ + table + " ("@ + col_sql + ") VALUES "@ + join_seq(rows, ","@),
    }
}

pub fn build_insert_sql(
    db_type: DbType,
    table: &str,
    quoted_cols: &Vec<String>,
    values_rows: &Vec<String>,
) -> (r: String)
    ensures
        r@ == insert_sql(db_type, table@, views(quoted_cols@), views(values_rows@)),
{
    let col_sql = join(quoted_cols, ", ");
    match db_type {
        DbType::Oracle => {
            let ghost f = |v: Seq<char>| "INSERT INTO "@ + table@ + " ("@ + col_sql@ + ") VALUES "@ + v;
            let n = values_rows.len();
            let mut stmts: Vec<String> = Vec::new();
            let mut i: usize = 0;
            while i < n
                invariant
                    n == values_rows@.len(),
                    i <= n,
                    f == (|v: Seq<char>| "INSERT INTO "@ + table@ + " ("@ + col_sql@ + ") VALUES "@
                        + v),
                    views(stmts@) == views(values_rows@).map_values(f).take(i as int),
                decreases n - i,
            {
                let mut s = to_owned("INSERT INTO ");
                push_str(&mut s, table);
                push_str(&mut s, " (");
                push_str(&mut s, col_sql.as_str());
                push_str(&mut s, ") VALUES ");
                push_str(&mut s, values_rows[i].as_str());
                proof {
                    assert(views(values_rows@)[i as int] == values_rows@[i as int]@);
                    lemma_views_push(stmts@, s);
                }
                stmts.push(s);
                assert(views(stmts@) =~= views(values_rows@).map_values(f).take(i + 1));
                i = i + 1;
            }
            assert(views(values_rows@).map_values(f).take(n as int) =~= views(
                values_rows@,
            ).map_values(f));
            join(&stmts, "; ")
        },
        _ => {
            let mut s = to_owned("INSERT INTO ");
            push_str(&mut s, table);
            push_str(&mut s, " (");
            push_str(&mut s, col_sql.as_str());
            push_str(&mut s, ") VALUES ");
            push_str(&mut s, join(values_rows, ",").as_str());
            s
        },
    }
}

/// Rows waiting to be inserted into one target table, a hundred at most.
pub struct InsertBatcher {
    pub db_type: DbType,
    pub table: String,
    pub quoted_cols: Vec<String>,
    pub pending: Vec<String>,
    /// Every row added so far.
    pub added: Ghost<Seq<Seq<char>>>,
    /// The rows handed out in statements so far, in order.
    pub sent: Ghost<Seq<Seq<char>>>,
}

impl InsertBatcher {
    /// No row is lost or repeated: the rows handed out, followed by the rows
    /// waiting, are the rows added.
    pub open spec fn accounts(&self) -> bool {
        self.sent@ + views(self.pending@) == self.added@
    }

    /// The batcher of a target table, with its name and columns quoted for
    /// the target.
    pub fn new(db_type: DbType, table: &str, cols: &Vec<String>) -> (r: InsertBatcher)
        ensures
            r.db_type == db_type,
            r.table@ == quoted_ident(db_type, table@),
            views(r.quoted_cols@) == views(cols@).map_values(
                |c: Seq<char>| quoted_ident(db_type, c),
            ),
            r.pending@.len() == 0,
            r.added@.len() == 0,
            r.accounts(),
    {
        let n = cols.len();
        let mut quoted: Vec<String> = Vec::new();
        let mut k: usize = 0;
        while k < n
            invariant
                n == cols@.len(),
                k <= n,
                views(quoted@) == views(cols@).map_values(|c: Seq<char>| quoted_ident(db_type, c)).take(
                    k as int,
                ),
            decreases n - k,
        {
            let t = quote_ident(db_type, cols[k].as_str());
            proof {
                lemma_views_push(quoted@, t);
            }
            quoted.push(t);
            assert(views(quoted@) =~= views(cols@).map_values(
                |c: Seq<char>| quoted_ident(db_type, c),
            ).take(k + 1));
            k = k + 1;
        }
        assert(views(cols@).map_values(|c: Seq<char>| quoted_ident(db_type, c)).take(n as int)
            =~= views(cols@).map_values(|c: Seq<char>| quoted_ident(db_type, c)));
        InsertBatcher {
            db_type,
            table: quote_ident(db_type, table),
            quoted_cols: quoted,
            pending: Vec::new(),
            added: Ghost(Seq::empty()),
            sent: Ghost(Seq::empty()),
        }
    }

    /// Adds one row of values; when a hundred rows are waiting, hands back
    /// the statement that inserts them and starts over.
    pub fn add_row(&mut self, tuple: String) -> (r: Option<String>)
        requires
            old(self).pending@.len() < 100,
        ensures
            final(self).db_type == old(self).db_type,
            final(self).table == old(self).table,
            final(self).quoted_cols == old(self).quoted_cols,
            final(self).pending@.len() < 100,
            old(self).pending@.len() + 1 == 100 ==> {
                &&& r matches Some(s) && s@ == insert_sql(
                    old(self).db_type,
                    old(self).table@,
                    views(old(self).quoted_cols@),
                    views(old(self).pending@.push(tuple)),
                )
                &&& final(self).pending@.len() == 0
            },
            old(self).pending@.len() + 1 < 100 ==> (r is None && final(self).pending@ == old(
                self,
            ).pending@.push(tuple)),
            final(self).added@ == old(self).added@.push(tuple@),
            old(self).accounts() ==> final(self).accounts(),
    {
        let ghost old_sent = self.sent@;
        let ghost old_pending = views(self.pending@);
        proof {
            lemma_views_push(self.pending@, tuple);
        }
        self.pending.push(tuple);
        self.added = Ghost(self.added@.push(tuple@));
        if self.pending.len() >= 100 {
            let stmt = build_insert_sql(self.db_type, self.table.as_str(), &self.quoted_cols, &self.pending);
            self.sent = Ghost(old_sent + views(self.pending@));
            self.pending = Vec::new();
            assert(views(self.pending@) =~= Seq::<Seq<char>>::empty());
            assert(self.sent@ + views(self.pending@) =~= old_sent + old_pending.push(tuple@));
            Some(stmt)
        } else {
            assert(self.sent@ + views(self.pending@) =~= old_sent + old_pending.push(tuple@));
            None
        }
    }

    /// The statement for the rows still waiting, if any.
    pub fn finish(&mut self) -> (r: Option<String>)
        ensures
            final(self).pending@.len() == 0,
            final(self).db_type == old(self).db_type,
            final(self).table == old(self).table,
            final(self).quoted_cols == old(self).quoted_cols,
            old(self).pending@.len() == 0 ==> r is None,
            old(self).pending@.len() > 0 ==> (r matches Some(s) && s@ == insert_sql(
                old(self).db_type,
                old(self).table@,
                views(old(self).quoted_cols@),
                views(old(self).pending@),
            )),
            final(self).added == old(self).added,
            old(self).accounts() ==> final(self).accounts() && final(self).sent@ == final(self).added@,
    {
        if self.pending.len() == 0 {
            assert(views(self.pending@) =~= Seq::<Seq<char>>::empty());
            assert(self.sent@ + views(self.pending@) =~= self.sent@);
            return None;
        }
        let stmt = build_insert_sql(self.db_type, self.table.as_str(), &self.quoted_cols, &self.pending);
        self.sent = Ghost(self.sent@ + views(self.pending@));
        self.pending = Vec::new();
        assert(views(self.pending@) =~= Seq::<Seq<char>>::empty());
        assert(self.sent@ + views(self.pending@) =~= self.sent@);
        Some(stmt)
    }
}

} // verus!
