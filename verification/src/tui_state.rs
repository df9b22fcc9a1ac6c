//! The decisions of the interactive screen: where the focus moves, which
//! tab and connection the database pane shows, the menu, the command
//! history, moving through lists, and reading the typed commands.
use vstd::prelude::*;
use crate::config::{Cli, CliView, FlowMode, Lang};
use crate::text::{
    ascii_lower_char, chars_of, has_prefix, lemma_views_push, push_char, str_eq, substring,
    to_ascii_lower_char, to_owned, trim, trim_seq, views,
};

verus! {

/// The part of the main screen that takes the keys.
#[derive(Copy, Clone, Debug, PartialEq, Eq, Structural)]
pub enum FocusArea {
    Form,
    Input,
    DbPane,
    CmdPane,
}

/// What the database pane lists.
#[derive(Copy, Clone, Debug, PartialEq, Eq, Structural)]
pub enum DbTab {
    Table,
    View,
    StoredProcedure,
}

/// Which connection the database pane uses.
#[derive(Copy, Clone, Debug, PartialEq, Eq, Structural)]
pub enum DbConnSource {
    Export,
    Import,
}

/// The screen shown.
#[derive(Copy, Clone, Debug, PartialEq, Eq, Structural)]
pub enum ScreenPage {
    Main,
    DbOps,
}

/// The part of the table-edit dialog that takes the keys.
#[derive(Copy, Clone, Debug, PartialEq, Eq, Structural)]
pub enum TableEditFocus {
    SqlEditor,
    Grid,
    CellInput,
    SaveBtn,
    InsertBtn,
    DeleteBtn,
    CancelBtn,
    RowForm,
    RowFormSaveBtn,
    RowFormCancelBtn,
}

// ---------------------------------------------------------------------
// Focus
// ---------------------------------------------------------------------

pub open spec fn focus_after_tab(page: ScreenPage, f: FocusArea) -> FocusArea {
    match page {
        ScreenPage::Main => match f {
            FocusArea::Form => FocusArea::Input,
            FocusArea::Input => FocusArea::CmdPane,
            FocusArea::CmdPane => FocusArea::Form,
            FocusArea::DbPane => FocusArea::Form,
        },
        ScreenPage::DbOps => match f {
            FocusArea::Form => FocusArea::Input,
            FocusArea::Input => FocusArea::DbPane,
            FocusArea::DbPane => FocusArea::CmdPane,
            FocusArea::CmdPane => FocusArea::Form,
        },
    }
}

/// Tab on the main screen: form, input, command pane in turn; the database
/// operations screen puts its pane between the input and the commands.
pub fn next_focus(page: ScreenPage, f: FocusArea) -> (r: FocusArea)
    ensures
        r == focus_after_tab(page, f),
{
    match page {
        ScreenPage::Main => match f {
            FocusArea::Form => FocusArea::Input,
            FocusArea::Input => FocusArea::CmdPane,
            FocusArea::CmdPane => FocusArea::Form,
            FocusArea::DbPane => FocusArea::Form,
        },
        ScreenPage::DbOps => match f {
            FocusArea::Form => FocusArea::Input,
            FocusArea::Input => FocusArea::DbPane,
            FocusArea::DbPane => FocusArea::CmdPane,
            FocusArea::CmdPane => FocusArea::Form,
        },
    }
}

/// Tab in the table-edit dialog: through the editor, grid, cell and
/// buttons, or, with the row form open, through the row form and its
/// buttons.
pub open spec fn edit_focus_after_tab(row_form: bool, f: TableEditFocus) -> TableEditFocus {
    if row_form {
        match f {
            TableEditFocus::RowForm => TableEditFocus::RowFormSaveBtn,
            TableEditFocus::RowFormSaveBtn => TableEditFocus::RowFormCancelBtn,
            TableEditFocus::RowFormCancelBtn => TableEditFocus::RowForm,
            _ => TableEditFocus::RowForm,
        }
    } else {
        match f {
            TableEditFocus::SqlEditor => TableEditFocus::Grid,
            TableEditFocus::Grid => TableEditFocus::CellInput,
            TableEditFocus::CellInput => TableEditFocus::SaveBtn,
            TableEditFocus::SaveBtn => TableEditFocus::InsertBtn,
            TableEditFocus::InsertBtn => TableEditFocus::DeleteBtn,
            TableEditFocus::DeleteBtn => TableEditFocus::CancelBtn,
            TableEditFocus::CancelBtn => TableEditFocus::SqlEditor,
            TableEditFocus::RowForm => TableEditFocus::RowFormSaveBtn,
            TableEditFocus::RowFormSaveBtn => TableEditFocus::RowFormCancelBtn,
            TableEditFocus::RowFormCancelBtn => TableEditFocus::RowForm,
        }
    }
}

/// Shift-Tab in the table-edit dialog: the same rounds backwards.
pub open spec fn edit_focus_after_backtab(row_form: bool, f: TableEditFocus) -> TableEditFocus {
    if row_form {
        match f {
            TableEditFocus::RowForm => TableEditFocus::RowFormCancelBtn,
            TableEditFocus::RowFormSaveBtn => TableEditFocus::RowForm,
            TableEditFocus::RowFormCancelBtn => TableEditFocus::RowFormSaveBtn,
            _ => TableEditFocus::RowForm,
        }
    } else {
        match f {
            TableEditFocus::SqlEditor => TableEditFocus::CancelBtn,
            TableEditFocus::Grid => TableEditFocus::SqlEditor,
            TableEditFocus::CellInput => TableEditFocus::Grid,
            TableEditFocus::SaveBtn => TableEditFocus::CellInput,
            TableEditFocus::InsertBtn => TableEditFocus::SaveBtn,
            TableEditFocus::DeleteBtn => TableEditFocus::InsertBtn,
            TableEditFocus::CancelBtn => TableEditFocus::DeleteBtn,
            TableEditFocus::RowForm => TableEditFocus::RowFormCancelBtn,
            TableEditFocus::RowFormSaveBtn => TableEditFocus::RowForm,
            TableEditFocus::RowFormCancelBtn => TableEditFocus::RowFormSaveBtn,
        }
    }
}

pub fn table_edit_next_focus(row_form: bool, f: TableEditFocus) -> (r: TableEditFocus)
    ensures
        r == edit_focus_after_tab(row_form, f),
{
    if row_form {
        match f {
            TableEditFocus::RowForm => TableEditFocus::RowFormSaveBtn,
            TableEditFocus::RowFormSaveBtn => TableEditFocus::RowFormCancelBtn,
            TableEditFocus::RowFormCancelBtn => TableEditFocus::RowForm,
            _ => TableEditFocus::RowForm,
        }
    } else {
        match f {
            TableEditFocus::SqlEditor => TableEditFocus::Grid,
            TableEditFocus::Grid => TableEditFocus::CellInput,
            TableEditFocus::CellInput => TableEditFocus::SaveBtn,
            TableEditFocus::SaveBtn => TableEditFocus::InsertBtn,
            TableEditFocus::InsertBtn => TableEditFocus::DeleteBtn,
            TableEditFocus::DeleteBtn => TableEditFocus::CancelBtn,
            TableEditFocus::CancelBtn => TableEditFocus::SqlEditor,
            TableEditFocus::RowForm => TableEditFocus::RowFormSaveBtn,
            TableEditFocus::RowFormSaveBtn => TableEditFocus::RowFormCancelBtn,
            TableEditFocus::RowFormCancelBtn => TableEditFocus::RowForm,
        }
    }
}

pub fn table_edit_prev_focus(row_form: bool, f: TableEditFocus) -> (r: TableEditFocus)
    ensures
        r == edit_focus_after_backtab(row_form, f),
{
    if row_form {
        match f {
            TableEditFocus::RowForm => TableEditFocus::RowFormCancelBtn,
            TableEditFocus::RowFormSaveBtn => TableEditFocus::RowForm,
            TableEditFocus::RowFormCancelBtn => TableEditFocus::RowFormSaveBtn,
            _ => TableEditFocus::RowForm,
        }
    } else {
        match f {
            TableEditFocus::SqlEditor => TableEditFocus::CancelBtn,
            TableEditFocus::Grid => TableEditFocus::SqlEditor,
            TableEditFocus::CellInput => TableEditFocus::Grid,
            TableEditFocus::SaveBtn => TableEditFocus::CellInput,
            TableEditFocus::InsertBtn => TableEditFocus::SaveBtn,
            TableEditFocus::DeleteBtn => TableEditFocus::InsertBtn,
            TableEditFocus::CancelBtn => TableEditFocus::DeleteBtn,
            TableEditFocus::RowForm => TableEditFocus::RowFormCancelBtn,
            TableEditFocus::RowFormSaveBtn => TableEditFocus::RowForm,
            TableEditFocus::RowFormCancelBtn => TableEditFocus::RowFormSaveBtn,
        }
    }
}

/// A focus part of the round Tab walks with the row form open or closed.
pub open spec fn in_edit_round(row_form: bool, f: TableEditFocus) -> bool {
    let in_row_form = f == TableEditFocus::RowForm || f == TableEditFocus::RowFormSaveBtn || f
        == TableEditFocus::RowFormCancelBtn;
    row_form == in_row_form
}

/// Shift-Tab undoes Tab, and Tab undoes Shift-Tab, on the focus parts of
/// the dialog's current round.
pub proof fn law_edit_focus_tab_backtab(row_form: bool, f: TableEditFocus)
    requires
        in_edit_round(row_form, f),
    ensures
        edit_focus_after_backtab(row_form, edit_focus_after_tab(row_form, f)) == f,
        edit_focus_after_tab(row_form, edit_focus_after_backtab(row_form, f)) == f,
{
}

/// Shift-Tab on the database screen: table, stored procedures, views, and
/// back to tables.
pub open spec fn tab_before(t: DbTab) -> DbTab {
    match t {
        DbTab::Table => DbTab::StoredProcedure,
        DbTab::View => DbTab::Table,
        DbTab::StoredProcedure => DbTab::View,
    }
}

pub fn prev_db_tab(t: DbTab) -> (r: DbTab)
    ensures
        r == tab_before(t),
{
    match t {
        DbTab::Table => DbTab::StoredProcedure,
        DbTab::View => DbTab::Table,
        DbTab::StoredProcedure => DbTab::View,
    }
}

/// Three presses of Shift-Tab bring the database pane back to its tab,
/// passing through every tab once.
pub proof fn law_db_tab_round(t: DbTab)
    ensures
        tab_before(tab_before(tab_before(t))) == t,
        tab_before(t) != t,
        tab_before(tab_before(t)) != t,
{
}

pub open spec fn other_source(s: DbConnSource) -> DbConnSource {
    match s {
        DbConnSource::Export => DbConnSource::Import,
        DbConnSource::Import => DbConnSource::Export,
    }
}

/// F10 on the database screen switches between the export and the import
/// connection.
pub fn toggle_conn_source(s: DbConnSource) -> (r: DbConnSource)
    ensures
        r == other_source(s),
{
    match s {
        DbConnSource::Export => DbConnSource::Import,
        DbConnSource::Import => DbConnSource::Export,
    }
}

/// Switching the connection twice gives the one started from.
pub proof fn law_conn_source_toggle_twice(s: DbConnSource)
    ensures
        other_source(other_source(s)) == s,
        other_source(s) != s,
{
}

// ---------------------------------------------------------------------
// The menu
// ---------------------------------------------------------------------

/// The entries of the top menu, in order.
#[derive(Copy, Clone, Debug, PartialEq, Eq, Structural)]
pub enum MenuItem {
    ExportData,
    ImportData,
    ExportSchema,
    ImportSchema,
    DbOps,
    Help,
}

pub open spec fn menu_entry(i: nat) -> MenuItem {
    if i == 0 {
        MenuItem::ExportData
    } else if i == 1 {
        MenuItem::ImportData
    } else if i == 2 {
        MenuItem::ExportSchema
    } else if i == 3 {
        MenuItem::ImportSchema
    } else if i == 4 {
        MenuItem::DbOps
    } else {
        MenuItem::Help
    }
}

/// The number of menu entries.
pub open spec fn menu_len() -> nat {
    6
}

/// The menu entry at a position (F9 applies it).
pub fn menu_item(i: usize) -> (r: Option<MenuItem>)
    ensures
        r == if i < 6 {
            Some(menu_entry(i as nat))
        } else {
            None
        },
{
    if i == 0 {
        Some(MenuItem::ExportData)
    } else if i == 1 {
        Some(MenuItem::ImportData)
    } else if i == 2 {
        Some(MenuItem::ExportSchema)
    } else if i == 3 {
        Some(MenuItem::ImportSchema)
    } else if i == 4 {
        Some(MenuItem::DbOps)
    } else if i == 5 {
        Some(MenuItem::Help)
    } else {
        None
    }
}

/// The label of a menu entry.
pub fn menu_label(m: MenuItem) -> (r: &'static str)
    ensures
        r@ == match m {
            MenuItem::ExportData => "匯出資料"@,
            MenuItem::ImportData => "匯入資料"@,
            MenuItem::ExportSchema => "匯出結構"@,
            MenuItem::ImportSchema => "匯入結構"@,
            MenuItem::DbOps => "DB 操作"@,
            MenuItem::Help => "Help"@,
        },
{
    match m {
        MenuItem::ExportData => "匯出資料",
        MenuItem::ImportData => "匯入資料",
        MenuItem::ExportSchema => "匯出結構",
        MenuItem::ImportSchema => "匯入結構",
        MenuItem::DbOps => "DB 操作",
        MenuItem::Help => "Help",
    }
}

/// F8: the next menu entry, wrapping around.
pub fn next_menu_index(i: usize) -> (r: usize)
    requires
        i < 6,
    ensures
        r == (i + 1) % 6,
{
    (i + 1) % 6
}

/// What choosing a run entry sets: the flow and the command put into the
/// input line.
pub open spec fn menu_run(m: MenuItem) -> Option<(FlowMode, Seq<char>)> {
    match m {
        MenuItem::ExportData => Some((FlowMode::Export, "/run-export-data"@)),
        MenuItem::ImportData => Some((FlowMode::Import, "/run-import-data"@)),
        MenuItem::ExportSchema => Some((FlowMode::ExportSchema, "/run-export-schema"@)),
        MenuItem::ImportSchema => Some((FlowMode::ImportSchema, "/run-import-schema"@)),
        _ => None,
    }
}

pub fn menu_run_command(m: MenuItem) -> (r: Option<(FlowMode, &'static str)>)
    ensures
        match r {
            Some((f, c)) => menu_run(m) == Some((f, c@)),
            None => menu_run(m) is None,
        },
{
    match m {
        MenuItem::ExportData => Some((FlowMode::Export, "/run-export-data")),
        MenuItem::ImportData => Some((FlowMode::Import, "/run-import-data")),
        MenuItem::ExportSchema => Some((FlowMode::ExportSchema, "/run-export-schema")),
        MenuItem::ImportSchema => Some((FlowMode::ImportSchema, "/run-import-schema")),
        _ => None,
    }
}

// ---------------------------------------------------------------------
// The command history
// ---------------------------------------------------------------------

/// Up in the input line: one entry further back, staying at the oldest;
/// from outside the history, the newest entry. Nothing with no history.
pub open spec fn history_back(len: nat, at: Option<usize>) -> Option<nat> {
    if len == 0 {
        None
    } else {
        match at {
            Some(i) => if i > 0 {
                Some((i - 1) as nat)
            } else {
                Some(i as nat)
            },
            None => Some((len - 1) as nat),
        }
    }
}

pub fn history_up(len: usize, at: Option<usize>) -> (r: Option<usize>)
    ensures
        match r {
            Some(i) => history_back(len as nat, at) == Some(i as nat),
            None => history_back(len as nat, at) is None,
        },
{
    if len == 0 {
        None
    } else {
        match at {
            Some(i) => if i > 0 {
                Some(i - 1)
            } else {
                Some(i)
            },
            None => Some(len - 1),
        }
    }
}

/// Down in the input line: one entry forward; past the newest, out of the
/// history (and the input is cleared). `None` for `step` means nothing
/// happens, outside the history.
pub open spec fn history_forward(len: nat, at: Option<usize>) -> Option<Option<nat>> {
    match at {
        Some(i) => if i + 1 < len {
            Some(Some((i + 1) as nat))
        } else {
            Some(None)
        },
        None => None,
    }
}

pub fn history_down(len: usize, at: Option<usize>) -> (r: Option<Option<usize>>)
    ensures
        match r {
            Some(Some(i)) => history_forward(len as nat, at) == Some(Some(i as nat)),
            Some(None) => history_forward(len as nat, at) == Some(None::<nat>),
            None => history_forward(len as nat, at) is None,
        },
{
    match at {
        Some(i) => if i < len && i + 1 < len {
            Some(Some(i + 1))
        } else {
            Some(None)
        },
        None => None,
    }
}

/// Going back one entry and forward again returns to the entry, from any
/// entry but the oldest.
pub proof fn law_history_back_forward(len: nat, i: usize)
    requires
        0 < i < len,
    ensures
        history_back(len, Some(i)) == Some((i - 1) as nat),
        history_forward(len, Some((i - 1) as usize)) == Some(Some(i as nat)),
{
}

/// A command is added to the history unless it repeats the newest entry.
pub fn push_history(history: &mut Vec<String>, cmd: &str)
    ensures
        views(final(history)@) == if old(history)@.len() > 0 && views(old(history)@).last()
            == cmd@ {
            views(old(history)@)
        } else {
            views(old(history)@).push(cmd@)
        },
{
    let n = history.len();
    if n > 0 && str_eq(history[n - 1].as_str(), cmd) {
        assert(views(history@).last() == history@[n - 1]@);
        return;
    }
    proof {
        if n > 0 {
            assert(views(history@).last() == history@[n - 1]@);
        }
    }
    let t = to_owned(cmd);
    proof {
        lemma_views_push(history@, t);
    }
    history.push(t);
}

// ---------------------------------------------------------------------
// Moving through lists
// ---------------------------------------------------------------------

/// Up (or Page Up) in a list: `step` positions back, stopping at the first.
pub fn step_back(i: usize, step: usize) -> (r: usize)
    ensures
        r == if i >= step {
            (i - step) as usize
        } else {
            0
        },
{
    if i >= step {
        i - step
    } else {
        0
    }
}

/// Down (or Page Down) in a list of `len` entries: `step` positions on,
/// stopping at the last; an empty list keeps the position.
pub fn step_forward(i: usize, step: usize, len: usize) -> (r: usize)
    ensures
        r == if len == 0 {
            i as int
        } else if i + step <= len - 1 {
            i + step
        } else {
            len - 1
        },
        len > 0 ==> r < len,
{
    if len == 0 {
        i
    } else if i <= len - 1 && step <= len - 1 - i {
        i + step
    } else {
        len - 1
    }
}

/// Left in the grid or Up in the row form: one back, but never onto the
/// key column 0.
pub fn step_back_past_key(i: usize) -> (r: usize)
    ensures
        r == if i >= 2 {
            (i - 1) as usize
        } else {
            1
        },
{
    if i >= 2 {
        i - 1
    } else {
        1
    }
}

/// Right in the grid: one on, stopping at the last column, never onto the
/// key column 0.
pub fn grid_col_right(i: usize, cols: usize) -> (r: usize)
    ensures
        r == if cols == 0 || i + 1 > cols - 1 {
            if cols == 0 || cols - 1 == 0 {
                1
            } else {
                (cols - 1) as int
            }
        } else if i + 1 == 0 {
            1
        } else {
            i + 1
        },
{
    let last = if cols == 0 {
        0
    } else {
        cols - 1
    };
    let next = if i < last {
        i + 1
    } else {
        last
    };
    if next == 0 {
        1
    } else {
        next
    }
}

/// The column a fresh preview selects: the first after the key, when there
/// is one.
pub fn first_value_column(cols: usize) -> (r: usize)
    ensures
        r == if cols > 1 {
            1usize
        } else {
            0usize
        },
{
    if cols > 1 {
        1
    } else {
        0
    }
}

/// The first row the form shows so that the selected one is visible.
pub fn form_window_start(selected: usize, visible: usize) -> (r: usize)
    ensures
        r == if visible == 0 {
            if selected >= 1 {
                selected as int
            } else {
                0
            }
        } else if selected >= visible {
            selected + 1 - visible
        } else {
            0
        },
{
    let v = if visible == 0 {
        1
    } else {
        visible
    };
    if selected >= v {
        selected - v + 1
    } else {
        0
    }
}


// ---------------------------------------------------------------------
// Typed commands
// ---------------------------------------------------------------------

/// A command typed into the input line.
#[derive(Clone, Debug)]
pub enum TuiCommand {
    /// Nothing but white space.
    Empty,
    Quit,
    Help,
    ShowHotKey,
    TestConnect,
    ListTable,
    ListView,
    ListStoredProcedure,
    ExecSql,
    Show,
    PersistToSqlite,
    RefreshDb,
    /// `/set <field> <value>`.
    SetField { field: String, value: String },
    /// `/set` without both a field and a value.
    SetUsage,
    /// `/unset <field>`.
    Unset { field: String },
    RunExportData,
    RunImportData,
    /// Anything else, as typed (trimmed).
    Unknown { cmd: String },
}

pub enum CommandView {
    Empty,
    Quit,
    Help,
    ShowHotKey,
    TestConnect,
    ListTable,
    ListView,
    ListStoredProcedure,
    ExecSql,
    Show,
    PersistToSqlite,
    RefreshDb,
    SetField { field: Seq<char>, value: Seq<char> },
    SetUsage,
    Unset { field: Seq<char> },
    RunExportData,
    RunImportData,
    Unknown { cmd: Seq<char> },
}

impl View for TuiCommand {
    type V = CommandView;

    open spec fn view(&self) -> CommandView {
        match self {
            TuiCommand::Empty => CommandView::Empty,
            TuiCommand::Quit => CommandView::Quit,
            TuiCommand::Help => CommandView::Help,
            TuiCommand::ShowHotKey => CommandView::ShowHotKey,
            TuiCommand::TestConnect => CommandView::TestConnect,
            TuiCommand::ListTable => CommandView::ListTable,
            TuiCommand::ListView => CommandView::ListView,
            TuiCommand::ListStoredProcedure => CommandView::ListStoredProcedure,
            TuiCommand::ExecSql => CommandView::ExecSql,
            TuiCommand::Show => CommandView::Show,
            TuiCommand::PersistToSqlite => CommandView::PersistToSqlite,
            TuiCommand::RefreshDb => CommandView::RefreshDb,
            TuiCommand::SetField { field, value } => CommandView::SetField { field: field@, value: value@ },
            TuiCommand::SetUsage => CommandView::SetUsage,
            TuiCommand::Unset { field } => CommandView::Unset { field: field@ },
            TuiCommand::RunExportData => CommandView::RunExportData,
            TuiCommand::RunImportData => CommandView::RunImportData,
            TuiCommand::Unknown { cmd } => CommandView::Unknown { cmd: cmd@ },
        }
    }
}

/// The part of `s` before its first space, and the rest after that space
/// if there is one (`splitn(2, ' ')`).
pub open spec fn split_first_space(s: Seq<char>) -> (Seq<char>, Option<Seq<char>>) {
    let k = crate::env_file::first_index(s, ' ');
    if k < s.len() {
        (s.take(k as int), Some(s.skip(k + 1int)))
    } else {
        (s, None)
    }
}

/// What a typed line asks for. The line is trimmed first; `/set` takes a
/// field up to the first space and the rest as the value, both trimmed.
pub open spec fn command_of(input: Seq<char>) -> CommandView {
    let cmd = trim_seq(input);
    if cmd.len() == 0 {
        CommandView::Empty
    } else if cmd == "/quit"@ {
        CommandView::Quit
    } else if cmd == "/help"@ {
        CommandView::Help
    } else if cmd == "/show-hot-key"@ {
        CommandView::ShowHotKey
    } else if cmd == "/test-connect"@ {
        CommandView::TestConnect
    } else if cmd == "/list-table"@ {
        CommandView::ListTable
    } else if cmd == "/list-view"@ {
        CommandView::ListView
    } else if cmd == "/list-stored-procedure"@ {
        CommandView::ListStoredProcedure
    } else if cmd == "/exec-sql"@ {
        CommandView::ExecSql
    } else if cmd == "/show"@ {
        CommandView::Show
    } else if cmd == "/persist-to-sqlite"@ {
        CommandView::PersistToSqlite
    } else if cmd == "/refresh-db"@ {
        CommandView::RefreshDb
    } else if has_prefix(cmd, "/set "@) {
        let (f, rest) = split_first_space(cmd.skip(5));
        let field = trim_seq(f);
        let value = match rest {
            Some(v) => trim_seq(v),
            None => Seq::empty(),
        };
        if field.len() == 0 || value.len() == 0 {
            CommandView::SetUsage
        } else {
            CommandView::SetField { field, value }
        }
    } else if has_prefix(cmd, "/unset "@) {
        CommandView::Unset { field: trim_seq(cmd.skip(7)) }
    } else if cmd == "/run-export-data"@ {
        CommandView::RunExportData
    } else if cmd == "/run-import-data"@ {
        CommandView::RunImportData
    } else {
        CommandView::Unknown { cmd }
    }
}

fn split_at_space(v: &Vec<char>, from: usize) -> (r: (String, Option<String>))
    requires
        from <= v@.len(),
    ensures
        r.0@ == split_first_space(v@.skip(from as int)).0,
        match r.1 {
            Some(s) => split_first_space(v@.skip(from as int)).1 == Some(s@),
            None => split_first_space(v@.skip(from as int)).1 is None,
        },
{
    let n = v.len();
    let mut j: usize = from;
    while j < n && v[j] != ' '
        invariant
            n == v@.len(),
            from <= j <= n,
            crate::env_file::first_index(v@.skip(from as int), ' ') == (j - from)
                + crate::env_file::first_index(v@.skip(j as int), ' '),
        decreases n - j,
    {
        assert(v@.skip(j as int).drop_first() =~= v@.skip(j + 1));
        j = j + 1;
    }
    let ghost t = v@.skip(from as int);
    if j < n {
        assert(v@.skip(j as int)[0] == ' ');
        assert(t.take((j - from) as int) =~= v@.subrange(from as int, j as int));
        assert(t.skip((j - from) + 1) =~= v@.subrange(j + 1, n as int));
        (substring(v, from, j), Some(substring(v, j + 1, n)))
    } else {
        assert(v@.skip(n as int).len() == 0);
        assert(t =~= v@.subrange(from as int, n as int));
        (substring(v, from, n), None)
    }
}

/// Reads a typed line (see `command_of`).
pub fn parse_tui_command(input: &str) -> (r: TuiCommand)
    ensures
        r@ == command_of(input@),
{
    let cmd = trim(input);
    let c = cmd.as_str();
    if c.unicode_len() == 0 {
        TuiCommand::Empty
    } else if str_eq(c, "/quit") {
        TuiCommand::Quit
    } else if str_eq(c, "/help") {
        TuiCommand::Help
    } else if str_eq(c, "/show-hot-key") {
        TuiCommand::ShowHotKey
    } else if str_eq(c, "/test-connect") {
        TuiCommand::TestConnect
    } else if str_eq(c, "/list-table") {
        TuiCommand::ListTable
    } else if str_eq(c, "/list-view") {
        TuiCommand::ListView
    } else if str_eq(c, "/list-stored-procedure") {
        TuiCommand::ListStoredProcedure
    } else if str_eq(c, "/exec-sql") {
        TuiCommand::ExecSql
    } else if str_eq(c, "/show") {
        TuiCommand::Show
    } else if str_eq(c, "/persist-to-sqlite") {
        TuiCommand::PersistToSqlite
    } else if str_eq(c, "/refresh-db") {
        TuiCommand::RefreshDb
    } else {
        let v = chars_of(c);
        if crate::text::starts_with(&v, "/set ") {
            proof {
                reveal_strlit("/set ");
            }
            let (f, rest) = split_at_space(&v, 5);
            let field = trim(f.as_str());
            let value = match rest {
                Some(x) => trim(x.as_str()),
                None => String::new(),
            };
            if field.as_str().unicode_len() == 0 || value.as_str().unicode_len() == 0 {
                TuiCommand::SetUsage
            } else {
                TuiCommand::SetField { field, value }
            }
        } else if crate::text::starts_with(&v, "/unset ") {
            proof {
                reveal_strlit("/unset ");
            }
            let rest = substring(&v, 7, v.len());
            assert(v@.subrange(7, v@.len() as int) =~= v@.skip(7));
            TuiCommand::Unset { field: trim(rest.as_str()) }
        } else if str_eq(c, "/run-export-data") {
            TuiCommand::RunExportData
        } else if str_eq(c, "/run-import-data") {
            TuiCommand::RunImportData
        } else {
            TuiCommand::Unknown { cmd: to_owned(c) }
        }
    }
}

// ---------------------------------------------------------------------
// The database pane
// ---------------------------------------------------------------------

/// The configuration the database pane connects with: the import
/// connection in place of the export one when that is chosen.
pub open spec fn db_panel_view(c: CliView, source: DbConnSource) -> CliView {
    match source {
        DbConnSource::Export => c,
        DbConnSource::Import => CliView {
            db_type: c.import_db_type,
            host: c.import_host,
            port: c.import_port,
            user: c.import_user,
            password: c.import_password,
            db_name: c.import_db_name,
            ..c
        },
    }
}

pub fn build_db_panel_cli(cli: &Cli, source: DbConnSource) -> (r: Cli)
    ensures
        r@ == db_panel_view(cli@, source),
{
    let mut x = cli.copy();
    match source {
        DbConnSource::Export => {},
        DbConnSource::Import => {
            x.db_type = cli.import_db_type;
            x.host = to_owned(cli.import_host.as_str());
            x.port = cli.import_port;
            x.user = to_owned(cli.import_user.as_str());
            x.password = to_owned(cli.import_password.as_str());
            x.db_name = to_owned(cli.import_db_name.as_str());
        },
    }
    x
}

/// The pane loads its lists by itself only with every connection field
/// given.
pub open spec fn auto_refreshable(c: CliView) -> bool {
    &&& trim_seq(c.host).len() > 0
    &&& c.port > 0
    &&& trim_seq(c.user).len() > 0
    &&& trim_seq(c.password).len() > 0
    &&& trim_seq(c.db_name).len() > 0
}

pub fn can_auto_refresh(cli: &Cli) -> (r: bool)
    ensures
        r == auto_refreshable(cli@),
{
    !crate::text::is_blank(cli.host.as_str()) && cli.port > 0 && !crate::text::is_blank(
        cli.user.as_str(),
    ) && !crate::text::is_blank(cli.password.as_str()) && !crate::text::is_blank(
        cli.db_name.as_str(),
    )
}

/// The log line when the pane cannot load its lists.
pub fn missing_connection_message(source: DbConnSource) -> (r: &'static str)
    ensures
        r@ == match source {
            DbConnSource::Export => "db panel (export) missing connection fields"@,
            DbConnSource::Import => "db panel (import) missing connection fields"@,
        },
{
    match source {
        DbConnSource::Export => "db panel (export) missing connection fields",
        DbConnSource::Import => "db panel (import) missing connection fields",
    }
}

/// Whether `p` occurs in `s`.
pub open spec fn has_infix(s: Seq<char>, p: Seq<char>) -> bool {
    exists|k: int| 0 <= k && k + p.len() <= s.len() && #[trigger] s.subrange(k, k + p.len()) == p
}

/// The first position whose name (in lower case) satisfies the test.
pub open spec fn first_where(names: Seq<Seq<char>>, needle: Seq<char>, prefix: bool) -> Option<nat>
    decreases names.len(),
{
    if names.len() == 0 {
        None
    } else if (if prefix {
        has_prefix(crate::text::lower_seq(names[0]), needle)
    } else {
        has_infix(crate::text::lower_seq(names[0]), needle)
    }) {
        Some(0)
    } else {
        match first_where(names.drop_first(), needle, prefix) {
            Some(i) => Some(i + 1),
            None => None,
        }
    }
}

/// Typing ahead in the pane: the first name starting with the typed text,
/// else the first containing it; nothing for empty text.
pub open spec fn find_name(names: Seq<Seq<char>>, needle: Seq<char>) -> Option<nat> {
    if needle.len() == 0 {
        None
    } else {
        match first_where(names, needle, true) {
            Some(i) => Some(i),
            None => first_where(names, needle, false),
        }
    }
}

fn infix_at(s: &Vec<char>, p: &Vec<char>) -> (r: bool)
    ensures
        r == has_infix(s@, p@),
{
    if p.len() > s.len() {
        return false;
    }
    if p.len() == 0 {
        assert(s@.subrange(0int, 0int + p@.len()) =~= p@);
        return true;
    }
    let n = s.len() - p.len();
    let m = p.len();
    let mut k: usize = 0;
    while k <= n
        invariant
            n == s@.len() - p@.len(),
            n + m == s@.len(),
            n + m <= usize::MAX,
            m == p@.len(),
            m > 0,
            k <= n + 1,
            forall|j: int| 0 <= j < k ==> #[trigger] s@.subrange(j, j + m) != p@,
        decreases n + 1 - k,
    {
        let mut same = true;
        let mut i: usize = 0;
        while i < m
            invariant
                m == p@.len(),
                k <= n,
                n == s@.len() - p@.len(),
                n + m == s@.len(),
                n + m <= usize::MAX,
                i <= m,
                same <==> (forall|t: int| 0 <= t < i ==> s@[k + t] == p@[t]),
            decreases m - i,
        {
            if s[k + i] != p[i] {
                same = false;
            }
            i = i + 1;
        }
        if same {
            assert(s@.subrange(k as int, k + m) =~= p@);
            return true;
        }
        proof {
            if s@.subrange(k as int, k + m) == p@ {
                assert forall|t: int| 0 <= t < m implies s@[k + t] == p@[t] by {
                    assert(s@.subrange(k as int, k + m)[t] == s@[k + t]);
                }
            }
        }
        k = k + 1;
    }
    proof {
        if has_infix(s@, p@) {
            let j = choose|j: int| 0 <= j && j + p@.len() <= s@.len() && #[trigger] s@.subrange(j, j + p@.len()) == p@;
            assert(s@.subrange(j, j + m) != p@);
        }
    }
    false
}

fn first_where_exec(names: &Vec<String>, needle: &Vec<char>, prefix: bool) -> (r: Option<usize>)
    ensures
        match r {
            Some(i) => first_where(views(names@), needle@, prefix) == Some(i as nat),
            None => first_where(views(names@), needle@, prefix) is None,
        },
{
    let n = names.len();
    let mut i: usize = 0;
    assert(views(names@).skip(0) =~= views(names@));
    while i < n
        invariant
            n == names@.len(),
            i <= n,
            first_where(views(names@), needle@, prefix) == match first_where(
                views(names@).skip(i as int),
                needle@,
                prefix,
            ) {
                Some(j) => Some((j + i) as nat),
                None => None,
            },
        decreases n - i,
    {
        assert(views(names@).skip(i as int)[0] == names@[i as int]@);
        assert(views(names@).skip(i as int).drop_first() =~= views(names@).skip(i + 1));
        let lower = chars_of(crate::text::to_ascii_lower(names[i].as_str()).as_str());
        let hit = if prefix {
            let mut p = true;
            if needle.len() > lower.len() {
                p = false;
            } else {
                let mut k: usize = 0;
                while k < needle.len()
                    invariant
                        needle@.len() <= lower@.len(),
                        k <= needle@.len(),
                        p <==> (forall|t: int| 0 <= t < k ==> lower@[t] == needle@[t]),
                    decreases needle@.len() - k,
                {
                    if lower[k] != needle[k] {
                        p = false;
                    }
                    k = k + 1;
                }
                proof {
                    if p {
                        assert(lower@.take(needle@.len() as int) =~= needle@);
                    } else {
                        if lower@.take(needle@.len() as int) == needle@ {
                            assert forall|t: int| 0 <= t < needle@.len() implies lower@[t] == needle@[t] by {
                                assert(lower@.take(needle@.len() as int)[t] == lower@[t]);
                            }
                        }
                    }
                }
            }
            p
        } else {
            infix_at(&lower, needle)
        };
        if hit {
            return Some(i);
        }
        i = i + 1;
    }
    None
}

/// The position typing ahead selects (see `find_name`).
pub fn find_in_names(names: &Vec<String>, needle: &str) -> (r: Option<usize>)
    ensures
        match r {
            Some(i) => find_name(views(names@), needle@) == Some(i as nat),
            None => find_name(views(names@), needle@) is None,
        },
{
    let v = chars_of(needle);
    if v.len() == 0 {
        return None;
    }
    match first_where_exec(names, &v, true) {
        Some(i) => Some(i),
        None => first_where_exec(names, &v, false),
    }
}

/// Typing `ch` ahead in the database pane: the search text starts over
/// when the previous key came too long ago (`expired`), takes the letter in
/// small case, and selects the first name it finds; when it finds none, the
/// letter alone is tried, and becomes the search text if it finds one.
pub open spec fn type_ahead_spec(
    search: Seq<char>,
    ch: char,
    expired: bool,
    names: Seq<Seq<char>>,
) -> (Seq<char>, Option<nat>) {
    let typed = (if expired {
        Seq::<char>::empty()
    } else {
        search
    }).push(ascii_lower_char(ch));
    let alone = seq![ascii_lower_char(ch)];
    match find_name(names, typed) {
        Some(i) => (typed, Some(i)),
        None => match find_name(names, alone) {
            Some(i) => (alone, Some(i)),
            None => (typed, None),
        },
    }
}

/// The search text after typing `ch` ahead, and the name it selects.
pub fn type_ahead(search: &str, ch: char, expired: bool, names: &Vec<String>) -> (r: (
    String,
    Option<usize>,
))
    ensures
        r.0@ == type_ahead_spec(search@, ch, expired, views(names@)).0,
        match r.1 {
            Some(i) => type_ahead_spec(search@, ch, expired, views(names@)).1 == Some(i as nat),
            None => type_ahead_spec(search@, ch, expired, views(names@)).1 is None,
        },
{
    let lower = to_ascii_lower_char(ch);
    let mut typed = if expired {
        String::new()
    } else {
        to_owned(search)
    };
    push_char(&mut typed, lower);
    match find_in_names(names, typed.as_str()) {
        Some(i) => (typed, Some(i)),
        None => {
            let mut alone = String::new();
            push_char(&mut alone, lower);
            assert(alone@ =~= seq![ascii_lower_char(ch)]);
            match find_in_names(names, alone.as_str()) {
                Some(i) => (alone, Some(i)),
                None => (typed, None),
            }
        },
    }
}

// ---------------------------------------------------------------------
// A new row's key
// ---------------------------------------------------------------------

/// A column type that holds text: its name, in lower case, contains `char`
/// or `text` (`char`, `varchar`, `nchar`, `nvarchar`, `text`, ...).
pub open spec fn is_text_type(column_type: Seq<char>) -> bool {
    has_infix(crate::text::lower_seq(column_type), "char"@) || has_infix(
        crate::text::lower_seq(column_type),
        "text"@,
    )
}

/// A new row gets a generated key when its key column holds text and no key
/// was typed.
pub fn needs_generated_key(column_type: &str, typed: &str) -> (r: bool)
    ensures
        r == (is_text_type(column_type@) && trim_seq(typed@).len() == 0),
{
    let lower = chars_of(crate::text::to_ascii_lower(column_type).as_str());
    let char_word = chars_of("char");
    let text_word = chars_of("text");
    proof {
        reveal_strlit("char");
        reveal_strlit("text");
    }
    let text_type = infix_at(&lower, &char_word) || infix_at(&lower, &text_word);
    text_type && crate::text::is_blank(typed)
}

/// The lowercase hexadecimal digits of a number.
pub open spec fn hex_number(n: nat) -> Seq<char>
    decreases n,
{
    if n < 16 {
        seq![crate::cells::hex_digit(n)]
    } else {
        hex_number(n / 16).push(crate::cells::hex_digit(n % 16))
    }
}

fn hex_number_text(n: u128) -> (r: String)
    ensures
        r@ == hex_number(n as nat),
    decreases n,
{
    let d = (n % 16) as u8;
    let c = if d < 10 {
        ((('0' as u8) + d) as char)
    } else {
        ((('a' as u8) + (d - 10)) as char)
    };
    if n < 16 {
        let mut out = String::new();
        crate::text::push_char(&mut out, c);
        assert(out@ =~= hex_number(n as nat));
        out
    } else {
        let mut out = hex_number_text(n / 16);
        crate::text::push_char(&mut out, c);
        assert(out@ =~= hex_number(n as nat));
        out
    }
}

/// The key generated for a new row from a time stamp: its hexadecimal
/// digits, zero-padded to 32 (`{:032x}`).
pub fn generated_key(stamp: u128) -> (r: String)
    ensures
        r@ == crate::text::zero_pad(hex_number(stamp as nat), 32),
{
    let digits = hex_number_text(stamp);
    let len = digits.unicode_len();
    if len < 32 {
        let mut out = String::new();
        let k = 32 - len;
        let mut i: usize = 0;
        while i < k
            invariant
                i <= k,
                out@ == Seq::new(i as nat, |j: int| '0'),
            decreases k - i,
        {
            crate::text::push_char(&mut out, '0');
            assert(out@ =~= Seq::new((i + 1) as nat, |j: int| '0'));
            i = i + 1;
        }
        crate::text::push_str(&mut out, digits.as_str());
        out
    } else {
        digits
    }
}

// ---------------------------------------------------------------------
// Saving the row form
// ---------------------------------------------------------------------

/// The values a new row is inserted with: the typed values, except that the
/// key (the first column) is left empty when the database fills it in
/// (an auto-increment key), and gets the generated key for `stamp` when it
/// holds text and nothing was typed for it.
pub open spec fn insert_values(
    cols: Seq<Seq<char>>,
    vals: Seq<Seq<char>>,
    auto_keys: Seq<Seq<char>>,
    key_type: Seq<char>,
    stamp: u128,
) -> Seq<Seq<char>> {
    if cols.len() == 0 || vals.len() == 0 {
        vals
    } else if auto_keys.contains(cols[0]) {
        vals.update(0, Seq::empty())
    } else if is_text_type(key_type) && trim_seq(vals[0]).len() == 0 {
        vals.update(0, crate::text::zero_pad(hex_number(stamp as nat), 32))
    } else {
        vals
    }
}

/// The values to insert for a new row from the row form (see
/// `insert_values`); `stamp` is the clock reading a generated key is made of.
pub fn insert_row_values(
    cols: &Vec<String>,
    vals: &Vec<String>,
    auto_keys: &Vec<String>,
    key_type: &str,
    stamp: u128,
) -> (r: Vec<String>)
    ensures
        views(r@) == insert_values(views(cols@), views(vals@), views(auto_keys@), key_type@, stamp),
{
    let first: Option<String> = if cols.len() == 0 || vals.len() == 0 {
        None
    } else if crate::sql_text::contains_string(auto_keys, cols[0].as_str()) {
        Some(String::new())
    } else if needs_generated_key(key_type, vals[0].as_str()) {
        Some(generated_key(stamp))
    } else {
        None
    };
    let n = vals.len();
    let mut out: Vec<String> = Vec::new();
    let mut i: usize = 0;
    while i < n
        invariant
            n == vals@.len(),
            i <= n,
            out@.len() == i,
            forall|k: int|
                0 <= k < i ==> (#[trigger] out@[k])@ == (if k == 0 && first is Some {
                    first->0@
                } else {
                    vals@[k]@
                }),
        decreases n - i,
    {
        let v = if i == 0 && first.is_some() {
            match &first {
                Some(f) => to_owned(f.as_str()),
                None => String::new(),
            }
        } else {
            to_owned(vals[i].as_str())
        };
        out.push(v);
        i = i + 1;
    }
    proof {
        let want = insert_values(views(cols@), views(vals@), views(auto_keys@), key_type@, stamp);
        if first is Some {
            assert(views(cols@)[0] == cols@[0]@);
            assert(views(vals@)[0] == vals@[0]@);
        }
        assert(views(out@) =~= want);
    }
    out
}

/// The text at `i`, or empty text past the end.
pub open spec fn text_at(s: Seq<Seq<char>>, i: int) -> Seq<char> {
    if 0 <= i < s.len() {
        s[i]
    } else {
        Seq::empty()
    }
}

/// The cells of an edited row to write, as (column, new value), in column
/// order: every column after the key (the first) among the first `k`
/// columns whose value differs from the one the row had.
pub open spec fn changed_cells(
    cols: Seq<Seq<char>>,
    original: Seq<Seq<char>>,
    vals: Seq<Seq<char>>,
    k: nat,
) -> Seq<(Seq<char>, Seq<char>)>
    decreases k,
{
    if k <= 1 {
        seq![]
    } else {
        let i = k - 1;
        changed_cells(cols, original, vals, (k - 1) as nat) + if text_at(vals, i) != text_at(
            original,
            i,
        ) {
            seq![(cols[i], text_at(vals, i))]
        } else {
            seq![]
        }
    }
}

pub open spec fn pair_views(v: Seq<(String, String)>) -> Seq<(Seq<char>, Seq<char>)> {
    v.map_values(|p: (String, String)| (p.0@, p.1@))
}

fn text_at_exec(v: &Vec<String>, i: usize) -> (r: String)
    ensures
        r@ == text_at(views(v@), i as int),
{
    if i < v.len() {
        to_owned(v[i].as_str())
    } else {
        String::new()
    }
}

/// What saving an edited row writes: the key column and the row's key
/// value, with the changed cells (see `changed_cells`); nothing when the row
/// or the columns are unknown. The cells are written in this order, and
/// writing stops at the first one the database refuses.
pub fn row_update_plan(cols: &Vec<String>, original: &Vec<String>, vals: &Vec<String>) -> (r:
    Option<(String, String, Vec<(String, String)>)>)
    ensures
        r is None <==> (cols@.len() == 0 || original@.len() == 0),
        r matches Some(p) ==> {
            &&& p.0@ == cols@[0]@
            &&& p.1@ == original@[0]@
            &&& pair_views(p.2@) == changed_cells(
                views(cols@),
                views(original@),
                views(vals@),
                cols@.len() as nat,
            )
        },
{
    if cols.len() == 0 || original.len() == 0 {
        return None;
    }
    let n = cols.len();
    let mut cells: Vec<(String, String)> = Vec::new();
    let mut i: usize = 1;
    while i < n
        invariant
            n == cols@.len(),
            1 <= i <= n,
            pair_views(cells@) == changed_cells(
                views(cols@),
                views(original@),
                views(vals@),
                i as nat,
            ),
        decreases n - i,
    {
        let new_val = text_at_exec(vals, i);
        let old_val = text_at_exec(original, i);
        let ghost before = cells@;
        if !str_eq(new_val.as_str(), old_val.as_str()) {
            assert(views(cols@)[i as int] == cols@[i as int]@);
            cells.push((to_owned(cols[i].as_str()), new_val));
            assert(pair_views(cells@) =~= pair_views(before).push(
                (views(cols@)[i as int], text_at(views(vals@), i as int)),
            ));
        }
        proof {
            assert(changed_cells(views(cols@), views(original@), views(vals@), (i + 1) as nat)
                =~= pair_views(cells@));
        }
        i = i + 1;
    }
    Some((to_owned(cols[0].as_str()), to_owned(original[0].as_str()), cells))
}

// ---------------------------------------------------------------------
// Messages
// ---------------------------------------------------------------------

pub open spec fn translation(lang: Lang, key: Seq<char>) -> Seq<char> {
    if key == "started"@ {
        match lang {
            Lang::Tw => "Ratatui 模式已啟動，輸入 /help 查看指令"@,
            Lang::En => "Ratatui mode started. type /help for commands"@,
            Lang::Ja => "Ratatui モードを開始しました。/help でコマンド一覧を表示"@,
        }
    } else if key == "commands_short"@ {
        match lang {
            Lang::Tw => "指令: /set /unset /show /show-hot-key /persist-to-sqlite /run-export-data /run-import-data /quit"@,
            Lang::En => "commands: /set /unset /show /show-hot-key /persist-to-sqlite /run-export-data /run-import-data /quit"@,
            Lang::Ja => "コマンド: /set /unset /show /show-hot-key /persist-to-sqlite /run-export-data /run-import-data /quit"@,
        }
    } else if key == "cfg_title"@ {
        match lang {
            Lang::Tw => "目前設定 (部分)"@,
            Lang::En => "Current Config (partial)"@,
            Lang::Ja => "現在の設定 (一部)"@,
        }
    } else if key == "cmd_title"@ {
        match lang {
            Lang::Tw => "指令"@,
            Lang::En => "Commands"@,
            Lang::Ja => "コマンド"@,
        }
    } else if key == "top_title"@ {
        match lang {
            Lang::Tw => " Corn DB I/O"@,
            Lang::En => " Corn DB I/O"@,
            Lang::Ja => " Corn DB I/O"@,
        }
    } else if key == "log_title"@ {
        match lang {
            Lang::Tw => "日誌"@,
            Lang::En => "Logs"@,
            Lang::Ja => "ログ"@,
        }
    } else if key == "input_title"@ {
        match lang {
            Lang::Tw => "輸入"@,
            Lang::En => "Input"@,
            Lang::Ja => "入力"@,
        }
    } else if key == "help_line"@ {
        match lang {
            Lang::Tw => "說明: /set <field> <value>, /unset <field>, /show, /persist-to-sqlite, /run-export-data, /run-import-data, /quit"@,
            Lang::En => "help: /set <field> <value>, /unset <field>, /show, /persist-to-sqlite, /run-export-data, /run-import-data, /quit"@,
            Lang::Ja => "ヘルプ: /set <field> <value>, /unset <field>, /show, /persist-to-sqlite, /run-export-data, /run-import-data, /quit"@,
        }
    } else if key == "set_usage"@ {
        match lang {
            Lang::Tw => "錯誤: 用法 /set <field> <value>"@,
            Lang::En => "error: usage /set <field> <value>"@,
            Lang::Ja => "エラー: 使い方 /set <field> <value>"@,
        }
    } else if key == "form_title"@ {
        match lang {
            Lang::Tw => "參數輸入表單 (↑↓:選欄位, Shift-Enter:編輯, ←→:下拉選項)"@,
            Lang::En => "Input Form (↑↓ select, Shift-Enter edit, ←→ dropdown)"@,
            Lang::Ja => "入力フォーム (↑↓選択, Shift-Enter編集, ←→ドロップダウン)"@,
        }
    } else if key == "disk_title"@ {
        match lang {
            Lang::Tw => "磁碟空間圓餅圖 (MB)"@,
            Lang::En => "Disk Space Pie (MB)"@,
            Lang::Ja => "ディスク使用量 円グラフ (MB)"@,
        }
    } else if key == "editing"@ {
        match lang {
            Lang::Tw => "編輯中"@,
            Lang::En => "editing"@,
            Lang::Ja => "編集中"@,
        }
    } else if key == "dropdown"@ {
        match lang {
            Lang::Tw => "下拉"@,
            Lang::En => "dropdown"@,
            Lang::Ja => "ドロップダウン"@,
        }
    } else if key == "run_start"@ {
        match lang {
            Lang::Tw => "[tui] 以目前設定執行匯出..."@,
            Lang::En => "[tui] run export with current config..."@,
            Lang::Ja => "[tui] 現在の設定でエクスポートを実行..."@,
        }
    } else if key == "run_start_import"@ {
        match lang {
            Lang::Tw => "[tui] 以目前設定執行匯入..."@,
            Lang::En => "[tui] run import with current config..."@,
            Lang::Ja => "[tui] 現在の設定でインポートを実行..."@,
        }
    } else if key == "status_default"@ {
        match lang {
            Lang::Tw => "/run-export-data 匯出，/run-import-data 匯入"@,
            Lang::En => "/run-export-data to export, /run-import-data to import"@,
            Lang::Ja => "/run-export-data でエクスポート、/run-import-data でインポート"@,
        }
    } else if key == "status_tab_table"@ {
        match lang {
            Lang::Tw => "TAB=table"@,
            Lang::En => "TAB=table"@,
            Lang::Ja => "TAB=table"@,
        }
    } else if key == "status_tab_view"@ {
        match lang {
            Lang::Tw => "TAB=view"@,
            Lang::En => "TAB=view"@,
            Lang::Ja => "TAB=view"@,
        }
    } else if key == "status_tab_sp"@ {
        match lang {
            Lang::Tw => "TAB=stored procedure"@,
            Lang::En => "TAB=stored procedure"@,
            Lang::Ja => "TAB=stored procedure"@,
        }
    } else if key == "run_progress"@ {
        match lang {
            Lang::Tw => "執行中"@,
            Lang::En => "Running"@,
            Lang::Ja => "実行中"@,
        }
    } else if key == "press_enter"@ {
        match lang {
            Lang::Tw => "[tui] 按 Enter 返回 TUI"@,
            Lang::En => "[tui] press Enter to return TUI"@,
            Lang::Ja => "[tui] Enter キーで TUI に戻る"@,
        }
    } else if key == "run_ok"@ {
        match lang {
            Lang::Tw => "執行完成: 成功"@,
            Lang::En => "run finished: success"@,
            Lang::Ja => "実行完了: 成功"@,
        }
    } else if key == "run_fail"@ {
        match lang {
            Lang::Tw => "執行完成: 失敗"@,
            Lang::En => "run finished: failed"@,
            Lang::Ja => "実行完了: 失敗"@,
        }
    } else if key == "unknown_cmd"@ {
        match lang {
            Lang::Tw => "未知指令"@,
            Lang::En => "unknown command"@,
            Lang::Ja => "不明なコマンド"@,
        }
    } else if key == "ok_set"@ {
        match lang {
            Lang::Tw => "完成: 已設定"@,
            Lang::En => "ok: set"@,
            Lang::Ja => "完了: 設定"@,
        }
    } else if key == "ok_unset"@ {
        match lang {
            Lang::Tw => "完成: 已清除"@,
            Lang::En => "ok: unset"@,
            Lang::Ja => "完了: 解除"@,
        }
    } else if key == "err"@ {
        match lang {
            Lang::Tw => "錯誤"@,
            Lang::En => "error"@,
            Lang::Ja => "エラー"@,
        }
    } else if key == "focus_form"@ {
        match lang {
            Lang::Tw => "焦點: 表單"@,
            Lang::En => "focus: form"@,
            Lang::Ja => "フォーカス: フォーム"@,
        }
    } else if key == "focus_input"@ {
        match lang {
            Lang::Tw => "焦點: 輸入區"@,
            Lang::En => "focus: input"@,
            Lang::Ja => "フォーカス: 入力"@,
        }
    } else if key == "focus_db"@ {
        match lang {
            Lang::Tw => "焦點: DB 區"@,
            Lang::En => "focus: db pane"@,
            Lang::Ja => "フォーカス: DB ペイン"@,
        }
    } else if key == "input_title_focus"@ {
        match lang {
            Lang::Tw => "輸入 (TAB 已切至此區，可用 ↑↓ 歷史)"@,
            Lang::En => "Input (TAB focus, ↑↓ history)"@,
            Lang::Ja => "入力 (TABフォーカス, ↑↓履歴)"@,
        }
    } else if key == "run_cancel_hint"@ {
        match lang {
            Lang::Tw => "[Ctrl+Q] 取消匯出，返回主畫面"@,
            Lang::En => "[Ctrl+Q] cancel export and return"@,
            Lang::Ja => "[Ctrl+Q] エクスポート中止して戻る"@,
        }
    } else {
        key
    }
}

/// The text of a message in the chosen language; an unknown key is shown
/// as it is.
pub fn tr(lang: Lang, key: &str) -> (r: String)
    ensures
        r@ == translation(lang, key@),
{
    if str_eq(key, "started") {
        to_owned(
            match lang {
                Lang::Tw => "Ratatui 模式已啟動，輸入 /help 查看指令",
                Lang::En => "Ratatui mode started. type /help for commands",
                Lang::Ja => "Ratatui モードを開始しました。/help でコマンド一覧を表示",
            },
        )
    } else if str_eq(key, "commands_short") {
        to_owned(
            match lang {
                Lang::Tw => "指令: /set /unset /show /show-hot-key /persist-to-sqlite /run-export-data /run-import-data /quit",
                Lang::En => "commands: /set /unset /show /show-hot-key /persist-to-sqlite /run-export-data /run-import-data /quit",
                Lang::Ja => "コマンド: /set /unset /show /show-hot-key /persist-to-sqlite /run-export-data /run-import-data /quit",
            },
        )
    } else if str_eq(key, "cfg_title") {
        to_owned(
            match lang {
                Lang::Tw => "目前設定 (部分)",
                Lang::En => "Current Config (partial)",
                Lang::Ja => "現在の設定 (一部)",
            },
        )
    } else if str_eq(key, "cmd_title") {
        to_owned(
            match lang {
                Lang::Tw => "指令",
                Lang::En => "Commands",
                Lang::Ja => "コマンド",
            },
        )
    } else if str_eq(key, "top_title") {
        to_owned(
            match lang {
                Lang::Tw => " Corn DB I/O",
                Lang::En => " Corn DB I/O",
                Lang::Ja => " Corn DB I/O",
            },
        )
    } else if str_eq(key, "log_title") {
        to_owned(
            match lang {
                Lang::Tw => "日誌",
                Lang::En => "Logs",
                Lang::Ja => "ログ",
            },
        )
    } else if str_eq(key, "input_title") {
        to_owned(
            match lang {
                Lang::Tw => "輸入",
                Lang::En => "Input",
                Lang::Ja => "入力",
            },
        )
    } else if str_eq(key, "help_line") {
        to_owned(
            match lang {
                Lang::Tw => "說明: /set <field> <value>, /unset <field>, /show, /persist-to-sqlite, /run-export-data, /run-import-data, /quit",
                Lang::En => "help: /set <field> <value>, /unset <field>, /show, /persist-to-sqlite, /run-export-data, /run-import-data, /quit",
                Lang::Ja => "ヘルプ: /set <field> <value>, /unset <field>, /show, /persist-to-sqlite, /run-export-data, /run-import-data, /quit",
            },
        )
    } else if str_eq(key, "set_usage") {
        to_owned(
            match lang {
                Lang::Tw => "錯誤: 用法 /set <field> <value>",
                Lang::En => "error: usage /set <field> <value>",
                Lang::Ja => "エラー: 使い方 /set <field> <value>",
            },
        )
    } else if str_eq(key, "form_title") {
        to_owned(
            match lang {
                Lang::Tw => "參數輸入表單 (↑↓:選欄位, Shift-Enter:編輯, ←→:下拉選項)",
                Lang::En => "Input Form (↑↓ select, Shift-Enter edit, ←→ dropdown)",
                Lang::Ja => "入力フォーム (↑↓選択, Shift-Enter編集, ←→ドロップダウン)",
            },
        )
    } else if str_eq(key, "disk_title") {
        to_owned(
            match lang {
                Lang::Tw => "磁碟空間圓餅圖 (MB)",
                Lang::En => "Disk Space Pie (MB)",
                Lang::Ja => "ディスク使用量 円グラフ (MB)",
            },
        )
    } else if str_eq(key, "editing") {
        to_owned(
            match lang {
                Lang::Tw => "編輯中",
                Lang::En => "editing",
                Lang::Ja => "編集中",
            },
        )
    } else if str_eq(key, "dropdown") {
        to_owned(
            match lang {
                Lang::Tw => "下拉",
                Lang::En => "dropdown",
                Lang::Ja => "ドロップダウン",
            },
        )
    } else if str_eq(key, "run_start") {
        to_owned(
            match lang {
                Lang::Tw => "[tui] 以目前設定執行匯出...",
                Lang::En => "[tui] run export with current config...",
                Lang::Ja => "[tui] 現在の設定でエクスポートを実行...",
            },
        )
    } else if str_eq(key, "run_start_import") {
        to_owned(
            match lang {
                Lang::Tw => "[tui] 以目前設定執行匯入...",
                Lang::En => "[tui] run import with current config...",
                Lang::Ja => "[tui] 現在の設定でインポートを実行...",
            },
        )
    } else if str_eq(key, "status_default") {
        to_owned(
            match lang {
                Lang::Tw => "/run-export-data 匯出，/run-import-data 匯入",
                Lang::En => "/run-export-data to export, /run-import-data to import",
                Lang::Ja => "/run-export-data でエクスポート、/run-import-data でインポート",
            },
        )
    } else if str_eq(key, "status_tab_table") {
        to_owned(
            match lang {
                Lang::Tw => "TAB=table",
                Lang::En => "TAB=table",
                Lang::Ja => "TAB=table",
            },
        )
    } else if str_eq(key, "status_tab_view") {
        to_owned(
            match lang {
                Lang::Tw => "TAB=view",
                Lang::En => "TAB=view",
                Lang::Ja => "TAB=view",
            },
        )
    } else if str_eq(key, "status_tab_sp") {
        to_owned(
            match lang {
                Lang::Tw => "TAB=stored procedure",
                Lang::En => "TAB=stored procedure",
                Lang::Ja => "TAB=stored procedure",
            },
        )
    } else if str_eq(key, "run_progress") {
        to_owned(
            match lang {
                Lang::Tw => "執行中",
                Lang::En => "Running",
                Lang::Ja => "実行中",
            },
        )
    } else if str_eq(key, "press_enter") {
        to_owned(
            match lang {
                Lang::Tw => "[tui] 按 Enter 返回 TUI",
                Lang::En => "[tui] press Enter to return TUI",
                Lang::Ja => "[tui] Enter キーで TUI に戻る",
            },
        )
    } else if str_eq(key, "run_ok") {
        to_owned(
            match lang {
                Lang::Tw => "執行完成: 成功",
                Lang::En => "run finished: success",
                Lang::Ja => "実行完了: 成功",
            },
        )
    } else if str_eq(key, "run_fail") {
        to_owned(
            match lang {
                Lang::Tw => "執行完成: 失敗",
                Lang::En => "run finished: failed",
                Lang::Ja => "実行完了: 失敗",
            },
        )
    } else if str_eq(key, "unknown_cmd") {
        to_owned(
            match lang {
                Lang::Tw => "未知指令",
                Lang::En => "unknown command",
                Lang::Ja => "不明なコマンド",
            },
        )
    } else if str_eq(key, "ok_set") {
        to_owned(
            match lang {
                Lang::Tw => "完成: 已設定",
                Lang::En => "ok: set",
                Lang::Ja => "完了: 設定",
            },
        )
    } else if str_eq(key, "ok_unset") {
        to_owned(
            match lang {
                Lang::Tw => "完成: 已清除",
                Lang::En => "ok: unset",
                Lang::Ja => "完了: 解除",
            },
        )
    } else if str_eq(key, "err") {
        to_owned(
            match lang {
                Lang::Tw => "錯誤",
                Lang::En => "error",
                Lang::Ja => "エラー",
            },
        )
    } else if str_eq(key, "focus_form") {
        to_owned(
            match lang {
                Lang::Tw => "焦點: 表單",
                Lang::En => "focus: form",
                Lang::Ja => "フォーカス: フォーム",
            },
        )
    } else if str_eq(key, "focus_input") {
        to_owned(
            match lang {
                Lang::Tw => "焦點: 輸入區",
                Lang::En => "focus: input",
                Lang::Ja => "フォーカス: 入力",
            },
        )
    } else if str_eq(key, "focus_db") {
        to_owned(
            match lang {
                Lang::Tw => "焦點: DB 區",
                Lang::En => "focus: db pane",
                Lang::Ja => "フォーカス: DB ペイン",
            },
        )
    } else if str_eq(key, "input_title_focus") {
        to_owned(
            match lang {
                Lang::Tw => "輸入 (TAB 已切至此區，可用 ↑↓ 歷史)",
                Lang::En => "Input (TAB focus, ↑↓ history)",
                Lang::Ja => "入力 (TABフォーカス, ↑↓履歴)",
            },
        )
    } else if str_eq(key, "run_cancel_hint") {
        to_owned(
            match lang {
                Lang::Tw => "[Ctrl+Q] 取消匯出，返回主畫面",
                Lang::En => "[Ctrl+Q] cancel export and return",
                Lang::Ja => "[Ctrl+Q] エクスポート中止して戻る",
            },
        )
    } else {
        to_owned(key)
    }
}



// ---------------------------------------------------------------------
// The form's lines
// ---------------------------------------------------------------------

/// One line of the form: `>` on the selected field, the field name padded
/// to 20, its value (the text being typed while it is edited), its options
/// when it has any, and a mark while it is edited.
pub open spec fn form_line(
    lang: Lang,
    field: Seq<char>,
    value: Seq<char>,
    typed: Seq<char>,
    selected: bool,
    editing: bool,
    options: Option<Seq<Seq<char>>>,
) -> Seq<char> {
    let prefix = if selected {
        ">"@
    } else {
        " "@
    };
    let shown = if editing && selected {
        typed
    } else {
        value
    };
    let dd = match options {
        Some(o) => "  ["@ + translation(lang, "dropdown"@) + ":"@ + crate::text::join_seq(o, "|"@)
            + "]"@,
        None => Seq::empty(),
    };
    let mark = if editing && selected {
        "  <"@ + translation(lang, "editing"@) + ">"@
    } else {
        Seq::empty()
    };
    prefix + " "@ + crate::export_run::pad_after(field, 20) + " = "@ + shown + dd + mark
}

pub fn form_line_text(
    lang: Lang,
    field: &str,
    value: &str,
    typed: &str,
    selected: bool,
    editing: bool,
    options: Option<&Vec<&'static str>>,
) -> (r: String)
    ensures
        r@ == form_line(
            lang,
            field@,
            value@,
            typed@,
            selected,
            editing,
            match options {
                Some(o) => Some(crate::form::str_views(o@)),
                None => None,
            },
        ),
{
    let mut out = to_owned(
        if selected {
            ">"
        } else {
            " "
        },
    );
    crate::text::push_str(&mut out, " ");
    crate::text::push_str(&mut out, crate::export_run::pad_text_after(field, 20).as_str());
    crate::text::push_str(&mut out, " = ");
    crate::text::push_str(
        &mut out,
        if editing && selected {
            typed
        } else {
            value
        },
    );
    match options {
        Some(o) => {
            let mut names: Vec<String> = Vec::new();
            let n = o.len();
            let mut k: usize = 0;
            while k < n
                invariant
                    n == o@.len(),
                    k <= n,
                    views(names@) == crate::form::str_views(o@).take(k as int),
                decreases n - k,
            {
                let t = to_owned(o[k]);
                proof {
                    lemma_views_push(names@, t);
                }
                names.push(t);
                assert(views(names@) =~= crate::form::str_views(o@).take(k + 1));
                k = k + 1;
            }
            assert(crate::form::str_views(o@).take(n as int) =~= crate::form::str_views(o@));
            crate::text::push_str(&mut out, "  [");
            crate::text::push_str(&mut out, tr(lang, "dropdown").as_str());
            crate::text::push_str(&mut out, ":");
            crate::text::push_str(&mut out, crate::text::join(&names, "|").as_str());
            crate::text::push_str(&mut out, "]");
        },
        None => {},
    }
    if editing && selected {
        crate::text::push_str(&mut out, "  <");
        crate::text::push_str(&mut out, tr(lang, "editing").as_str());
        crate::text::push_str(&mut out, ">");
    }
    out
}

// ---------------------------------------------------------------------
// Disk usage from `df`
// ---------------------------------------------------------------------

/// Splitting at white space: the words so far and the word being read.
pub open spec fn word_scan(s: Seq<char>) -> (Seq<Seq<char>>, Seq<char>)
    decreases s.len(),
{
    if s.len() == 0 {
        (Seq::empty(), Seq::empty())
    } else {
        let (ws, cur) = word_scan(s.drop_last());
        let c = s.last();
        if crate::text::is_ws(c) {
            if cur.len() > 0 {
                (ws.push(cur), Seq::empty())
            } else {
                (ws, cur)
            }
        } else {
            (ws, cur.push(c))
        }
    }
}

/// The words of `s` (`str::split_whitespace`).
pub open spec fn words(s: Seq<char>) -> Seq<Seq<char>> {
    let (ws, cur) = word_scan(s);
    if cur.len() > 0 {
        ws.push(cur)
    } else {
        ws
    }
}

pub fn split_words(s: &str) -> (r: Vec<String>)
    ensures
        views(r@) == words(s@),
{
    let v = chars_of(s);
    let n = v.len();
    let mut out: Vec<String> = Vec::new();
    let mut cur: Vec<char> = Vec::new();
    let mut i: usize = 0;
    while i < n
        invariant
            n == v@.len(),
            v@ == s@,
            i <= n,
            (views(out@), cur@) == word_scan(v@.take(i as int)),
        decreases n - i,
    {
        let c = v[i];
        assert(v@.take(i + 1).drop_last() =~= v@.take(i as int));
        assert(v@.take(i + 1).last() == c);
        if crate::text::is_white_space(c) {
            if cur.len() > 0 {
                let w = crate::text::string_from_chars(cur.as_slice());
                proof {
                    lemma_views_push(out@, w);
                }
                out.push(w);
                cur = Vec::new();
                assert(cur@ =~= Seq::<char>::empty());
            }
        } else {
            cur.push(c);
        }
        i = i + 1;
    }
    assert(v@.take(n as int) =~= v@);
    if cur.len() > 0 {
        let w = crate::text::string_from_chars(cur.as_slice());
        proof {
            lemma_views_push(out@, w);
        }
        out.push(w);
    }
    out
}

/// What the disk pane shows: total and used megabytes, then the file
/// system, size, used, available, use and mount point as `df -h` prints
/// them.
pub struct DiskUsage {
    pub total_mb: usize,
    pub used_mb: usize,
    pub filesystem: String,
    pub size: String,
    pub used: String,
    pub avail: String,
    pub use_pct: String,
    pub mounted_on: String,
}

/// The words of the second line of a `df` answer, when it has one.
pub open spec fn df_columns(text: Seq<char>) -> Option<Seq<Seq<char>>> {
    let ls = crate::text::lines_seq(text);
    if ls.len() > 1 {
        Some(words(ls[1]))
    } else {
        None
    }
}

/// The disk usage read from `df -B1` and `df -h` answers: both need six
/// columns on their second line, and the byte counts must parse.
pub open spec fn disk_usage_of(bytes_text: Seq<char>, human_text: Seq<char>) -> Option<
    (nat, nat, Seq<Seq<char>>),
> {
    match df_columns(bytes_text) {
        Some(num) => if num.len() < 6 {
            None
        } else {
            match (crate::text::parse_usize_seq(num[1]), crate::text::parse_usize_seq(num[2])) {
                (Some(t), Some(u)) => match df_columns(human_text) {
                    Some(h) => if h.len() < 6 {
                        None
                    } else {
                        Some(((t / 1048576) as nat, (u / 1048576) as nat, h.take(6)))
                    },
                    None => None,
                },
                _ => None,
            }
        },
        None => None,
    }
}

fn second_line_words(text: &str) -> (r: Option<Vec<String>>)
    ensures
        match r {
            Some(v) => df_columns(text@) == Some(views(v@)),
            None => df_columns(text@) is None,
        },
{
    let ls = crate::text::lines(text);
    if ls.len() > 1 {
        assert(views(ls@)[1] == ls@[1]@);
        Some(split_words(ls[1].as_str()))
    } else {
        None
    }
}

pub fn parse_disk_usage(bytes_text: &str, human_text: &str) -> (r: Option<DiskUsage>)
    ensures
        match r {
            Some(d) => disk_usage_of(bytes_text@, human_text@) == Some(
                (
                    d.total_mb as nat,
                    d.used_mb as nat,
                    seq![
                        d.filesystem@,
                        d.size@,
                        d.used@,
                        d.avail@,
                        d.use_pct@,
                        d.mounted_on@,
                    ],
                ),
            ),
            None => disk_usage_of(bytes_text@, human_text@) is None,
        },
{
    let num = match second_line_words(bytes_text) {
        Some(v) => v,
        None => return None,
    };
    if num.len() < 6 {
        return None;
    }
    assert(views(num@)[1] == num@[1]@);
    assert(views(num@)[2] == num@[2]@);
    let t = match crate::text::parse_usize(num[1].as_str()) {
        Some(x) => x,
        None => return None,
    };
    let u = match crate::text::parse_usize(num[2].as_str()) {
        Some(x) => x,
        None => return None,
    };
    let h = match second_line_words(human_text) {
        Some(v) => v,
        None => return None,
    };
    if h.len() < 6 {
        return None;
    }
    let d = DiskUsage {
        total_mb: t / 1048576,
        used_mb: u / 1048576,
        filesystem: to_owned(h[0].as_str()),
        size: to_owned(h[1].as_str()),
        used: to_owned(h[2].as_str()),
        avail: to_owned(h[3].as_str()),
        use_pct: to_owned(h[4].as_str()),
        mounted_on: to_owned(h[5].as_str()),
    };
    assert(views(h@).take(6) =~= seq![
        h@[0]@,
        h@[1]@,
        h@[2]@,
        h@[3]@,
        h@[4]@,
        h@[5]@,
    ]);
    Some(d)
}

} // verus!
