//! What a key does on the interactive screen: from the screen's state and a
//! key to the next state and the one piece of outside work to perform (a
//! query, a save, a command run, ...). The program draws the state and
//! performs the work.
use vstd::prelude::*;
use crate::form::{field_options, form_field, options_of, form_fields};
use crate::text::{
    chars_of, lemma_views_push, push_char, substring, to_owned, trim, trim_seq, views,
};
use crate::tui_state::{
    command_of, edit_focus_after_backtab, edit_focus_after_tab, first_value_column,
    focus_after_tab, grid_col_right, history_back, history_down, history_forward, history_up,
    menu_entry, menu_item, menu_run, menu_run_command, next_focus, next_menu_index,
    other_source, parse_tui_command, prev_db_tab, push_history, step_back, step_back_past_key,
    step_forward, tab_before, table_edit_next_focus, table_edit_prev_focus, toggle_conn_source,
    CommandView, DbConnSource, DbTab, FocusArea, MenuItem, ScreenPage, TableEditFocus,
    TuiCommand,
};

verus! {

// ---------------------------------------------------------------------
// Keys, state, actions
// ---------------------------------------------------------------------

/// A key as the screen reads it, with the modifiers that matter.
#[derive(Copy, Clone, Debug, PartialEq, Eq, Structural)]
pub enum TuiKey {
    Char { c: char, ctrl: bool },
    Enter { shift: bool },
    Esc,
    Backspace,
    Tab,
    BackTab,
    Up,
    Down,
    Left,
    Right,
    PageUp,
    PageDown,
    F { n: u8, ctrl: bool },
    Other,
}

/// The commands of the command pane, with what each does.
pub open spec fn command_names() -> Seq<Seq<char>> {
    seq![
        "/set <field> <value>"@,
        "/unset <field>"@,
        "/show"@,
        "/show-hot-key"@,
        "/persist-to-sqlite"@,
        "/refresh-db"@,
        "/test-connect"@,
        "/list-table"@,
        "/list-view"@,
        "/list-stored-procedure"@,
        "/exec-sql"@,
        "/run-export-data"@,
        "/run-import-data"@,
        "/quit"@,
    ]
}

/// The number of entries of the command pane.
pub fn command_count() -> (r: usize)
    ensures
        r == command_names().len(),
{
    14
}

/// The command pane's entry `i`: the command and its description.
pub fn command_item(i: usize) -> (r: (&'static str, &'static str))
    requires
        i < 14,
    ensures
        r.0@ == command_names()[i as int],
{
    if i == 0 {
        ("/set <field> <value>", "設定欄位值")
    } else if i == 1 {
        ("/unset <field>", "清除可選欄位")
    } else if i == 2 {
        ("/show", "顯示目前設定")
    } else if i == 3 {
        ("/show-hot-key", "顯示快捷鍵")
    } else if i == 4 {
        ("/persist-to-sqlite", "建立 cort-dbio-kit.sqlite 並持久化")
    } else if i == 5 {
        ("/refresh-db", "重新載入 DB 清單")
    } else if i == 6 {
        ("/test-connect", "測試連線")
    } else if i == 7 {
        ("/list-table", "列出資料表")
    } else if i == 8 {
        ("/list-view", "列出檢視")
    } else if i == 9 {
        ("/list-stored-procedure", "列出預存程序")
    } else if i == 10 {
        ("/exec-sql", "開啟 SQL 執行視窗")
    } else if i == 11 {
        ("/run-export-data", "執行匯出")
    } else if i == 12 {
        ("/run-import-data", "執行匯入")
    } else {
        ("/quit", "離開 TUI")
    }
}

/// Where the screen stands: focus, page, the database pane, the menu, the
/// form, the input line with its history, the open dialogs, and the cursor
/// and buffers of the table-edit dialog. The program keeps the data behind
/// it (the lists, the grid's cells) and the counts here.
pub struct TuiScreenState {
    pub focus: FocusArea,
    pub page: ScreenPage,
    pub db_tab: DbTab,
    pub db_source: DbConnSource,
    pub menu_idx: usize,
    pub selected_idx: usize,
    pub editing_form: bool,
    pub form_input: String,
    pub input: String,
    pub history: Vec<String>,
    pub history_idx: Option<usize>,
    pub cmd_idx: usize,
    pub db_idx: usize,
    pub table_count: usize,
    pub view_count: usize,
    pub sp_count: usize,
    pub help_popup: bool,
    pub sql_popup: bool,
    pub sql_input: String,
    pub object_def_open: bool,
    pub edit_open: bool,
    pub edit_focus: TableEditFocus,
    pub edit_sql: String,
    pub edit_cell: String,
    pub row_form_open: bool,
    pub row_form_idx: usize,
    pub row_form_values: Vec<String>,
    pub grid_rows: usize,
    pub grid_cols: usize,
    pub row_idx: usize,
    pub col_idx: usize,
    pub table_page_no: usize,
}

pub struct ScreenView {
    pub focus: FocusArea,
    pub page: ScreenPage,
    pub db_tab: DbTab,
    pub db_source: DbConnSource,
    pub menu_idx: usize,
    pub selected_idx: usize,
    pub editing_form: bool,
    pub form_input: Seq<char>,
    pub input: Seq<char>,
    pub history: Seq<Seq<char>>,
    pub history_idx: Option<usize>,
    pub cmd_idx: usize,
    pub db_idx: usize,
    pub table_count: usize,
    pub view_count: usize,
    pub sp_count: usize,
    pub help_popup: bool,
    pub sql_popup: bool,
    pub sql_input: Seq<char>,
    pub object_def_open: bool,
    pub edit_open: bool,
    pub edit_focus: TableEditFocus,
    pub edit_sql: Seq<char>,
    pub edit_cell: Seq<char>,
    pub row_form_open: bool,
    pub row_form_idx: usize,
    pub row_form_values: Seq<Seq<char>>,
    pub grid_rows: usize,
    pub grid_cols: usize,
    pub row_idx: usize,
    pub col_idx: usize,
    pub table_page_no: usize,
}

impl View for TuiScreenState {
    type V = ScreenView;

    open spec fn view(&self) -> ScreenView {
        ScreenView {
            focus: self.focus,
            page: self.page,
            db_tab: self.db_tab,
            db_source: self.db_source,
            menu_idx: self.menu_idx,
            selected_idx: self.selected_idx,
            editing_form: self.editing_form,
            form_input: self.form_input@,
            input: self.input@,
            history: views(self.history@),
            history_idx: self.history_idx,
            cmd_idx: self.cmd_idx,
            db_idx: self.db_idx,
            table_count: self.table_count,
            view_count: self.view_count,
            sp_count: self.sp_count,
            help_popup: self.help_popup,
            sql_popup: self.sql_popup,
            sql_input: self.sql_input@,
            object_def_open: self.object_def_open,
            edit_open: self.edit_open,
            edit_focus: self.edit_focus,
            edit_sql: self.edit_sql@,
            edit_cell: self.edit_cell@,
            row_form_open: self.row_form_open,
            row_form_idx: self.row_form_idx,
            row_form_values: views(self.row_form_values@),
            grid_rows: self.grid_rows,
            grid_cols: self.grid_cols,
            row_idx: self.row_idx,
            col_idx: self.col_idx,
            table_page_no: self.table_page_no,
        }
    }
}

/// The outside work a key asks for; the state has already moved on.
pub enum TuiAction {
    Nothing,
    Quit,
    /// The focus moved (the program logs where to).
    FocusMoved(FocusArea),
    /// Reload the database pane's lists.
    RefreshDbPanel,
    /// A menu entry was applied (the program sets the flow it runs and logs).
    ApplyMenu(MenuItem),
    /// Save the table-edit cell under the cursor.
    SaveCell,
    /// Insert an empty row into the edited table and reload the page.
    InsertEmptyRow,
    /// Delete the row under the cursor, reloading the page when asked.
    DeleteRow { reload: bool },
    /// Reload the edited table's page `table_page_no`; with `back_on_empty`
    /// an empty page past the first is not shown and the page number goes back.
    LoadPage { back_on_empty: bool },
    /// Show the cell under the cursor in the cell input.
    LoadCursorCell,
    /// Step the selected form field's drop-down option.
    CycleOption { dir: i32 },
    /// Fill the form input with the selected field's value (editing began).
    LoadFormValue,
    /// Store the edited value into the selected form field.
    SetFormValue { value: String },
    /// Run the SQL window's statement.
    ExecSql { sql: String },
    /// Load the grid from the edit dialog's SQL.
    ApplyEditSql { sql: String },
    /// A new-row form was opened (the program reads the key columns).
    OpenRowFormInsert,
    /// Save the row form.
    SaveRowForm,
    /// Open the edit dialog of the selected table.
    OpenTableEdit,
    /// Show the definition of the selected view or stored procedure.
    OpenDefinition { is_sp: bool },
    /// Type-ahead in the database pane.
    TypeAhead { c: char },
    /// Drop the last character of the type-ahead text.
    SearchBack,
    /// A command of the command pane was put into the input line.
    CommandSelected,
    /// Run a typed command.
    RunCommand { cmd: TuiCommand },
}

pub enum ActionView {
    Nothing,
    Quit,
    FocusMoved(FocusArea),
    RefreshDbPanel,
    ApplyMenu(MenuItem),
    SaveCell,
    InsertEmptyRow,
    DeleteRow { reload: bool },
    LoadPage { back_on_empty: bool },
    LoadCursorCell,
    CycleOption { dir: i32 },
    LoadFormValue,
    SetFormValue { value: Seq<char> },
    ExecSql { sql: Seq<char> },
    ApplyEditSql { sql: Seq<char> },
    OpenRowFormInsert,
    SaveRowForm,
    OpenTableEdit,
    OpenDefinition { is_sp: bool },
    TypeAhead { c: char },
    SearchBack,
    CommandSelected,
    RunCommand { cmd: CommandView },
}

impl View for TuiAction {
    type V = ActionView;

    open spec fn view(&self) -> ActionView {
        match self {
            TuiAction::Nothing => ActionView::Nothing,
            TuiAction::Quit => ActionView::Quit,
            TuiAction::FocusMoved(f) => ActionView::FocusMoved(*f),
            TuiAction::RefreshDbPanel => ActionView::RefreshDbPanel,
            TuiAction::ApplyMenu(m) => ActionView::ApplyMenu(*m),
            TuiAction::SaveCell => ActionView::SaveCell,
            TuiAction::InsertEmptyRow => ActionView::InsertEmptyRow,
            TuiAction::DeleteRow { reload } => ActionView::DeleteRow { reload: *reload },
            TuiAction::LoadPage { back_on_empty } => ActionView::LoadPage {
                back_on_empty: *back_on_empty,
            },
            TuiAction::LoadCursorCell => ActionView::LoadCursorCell,
            TuiAction::CycleOption { dir } => ActionView::CycleOption { dir: *dir },
            TuiAction::LoadFormValue => ActionView::LoadFormValue,
            TuiAction::SetFormValue { value } => ActionView::SetFormValue { value: value@ },
            TuiAction::ExecSql { sql } => ActionView::ExecSql { sql: sql@ },
            TuiAction::ApplyEditSql { sql } => ActionView::ApplyEditSql { sql: sql@ },
            TuiAction::OpenRowFormInsert => ActionView::OpenRowFormInsert,
            TuiAction::SaveRowForm => ActionView::SaveRowForm,
            TuiAction::OpenTableEdit => ActionView::OpenTableEdit,
            TuiAction::OpenDefinition { is_sp } => ActionView::OpenDefinition { is_sp: *is_sp },
            TuiAction::TypeAhead { c } => ActionView::TypeAhead { c: *c },
            TuiAction::SearchBack => ActionView::SearchBack,
            TuiAction::CommandSelected => ActionView::CommandSelected,
            TuiAction::RunCommand { cmd } => ActionView::RunCommand { cmd: cmd@ },
        }
    }
}

// ---------------------------------------------------------------------
// The transition
// ---------------------------------------------------------------------

/// The indices the screen keeps stay in range.
pub open spec fn screen_wf(s: ScreenView) -> bool {
    &&& s.selected_idx < form_fields().len()
    &&& s.menu_idx < 6
    &&& s.cmd_idx < command_names().len()
    &&& (s.history_idx matches Some(i) ==> i < s.history.len())
}

pub open spec fn any_popup(s: ScreenView) -> bool {
    s.sql_popup || s.edit_open || s.help_popup
}

pub open spec fn on_db_pane(s: ScreenView) -> bool {
    s.focus == FocusArea::DbPane && s.page == ScreenPage::DbOps
}

/// The length of the list the database pane shows.
pub open spec fn db_len(s: ScreenView) -> usize {
    match s.db_tab {
        DbTab::Table => s.table_count,
        DbTab::View => s.view_count,
        DbTab::StoredProcedure => s.sp_count,
    }
}

/// A text without its last character (unchanged when empty).
pub open spec fn backspaced(t: Seq<char>) -> Seq<char> {
    if t.len() > 0 {
        t.drop_last()
    } else {
        t
    }
}

pub open spec fn cell_ready(s: ScreenView) -> bool {
    s.grid_rows > 0 && s.grid_cols > 0 && s.col_idx < s.grid_cols
}

pub open spec fn in_row_form(s: ScreenView) -> bool {
    s.edit_open && s.row_form_open && s.edit_focus == TableEditFocus::RowForm
}

pub open spec fn tab_step(s: ScreenView) -> (ScreenView, ActionView) {
    if s.edit_open {
        (
            ScreenView { edit_focus: edit_focus_after_tab(s.row_form_open, s.edit_focus), ..s },
            ActionView::Nothing,
        )
    } else if !any_popup(s) {
        let f = focus_after_tab(s.page, s.focus);
        (
            ScreenView {
                editing_form: false,
                form_input: if s.editing_form {
                    Seq::empty()
                } else {
                    s.form_input
                },
                focus: f,
                ..s
            },
            ActionView::FocusMoved(f),
        )
    } else {
        (s, ActionView::Nothing)
    }
}

pub open spec fn backtab_step(s: ScreenView) -> (ScreenView, ActionView) {
    if s.edit_open {
        (
            ScreenView {
                edit_focus: edit_focus_after_backtab(s.row_form_open, s.edit_focus),
                ..s
            },
            ActionView::Nothing,
        )
    } else if !any_popup(s) && s.page == ScreenPage::DbOps {
        (ScreenView { db_tab: tab_before(s.db_tab), db_idx: 0, ..s }, ActionView::Nothing)
    } else {
        (s, ActionView::Nothing)
    }
}

/// What a menu entry does to the screen.
pub open spec fn menu_step(s: ScreenView) -> (ScreenView, ActionView) {
    let item = menu_entry(s.menu_idx as nat);
    match menu_run(item) {
        Some((flow, cmd)) => (
            ScreenView { input: cmd, focus: FocusArea::Input, page: ScreenPage::Main, ..s },
            ActionView::ApplyMenu(item),
        ),
        None => if item == MenuItem::DbOps {
            (
                ScreenView { page: ScreenPage::DbOps, focus: FocusArea::DbPane, ..s },
                ActionView::ApplyMenu(item),
            )
        } else if item == MenuItem::Help {
            (ScreenView { help_popup: true, ..s }, ActionView::ApplyMenu(item))
        } else {
            (s, ActionView::Nothing)
        },
    }
}

pub open spec fn fkey_step(s: ScreenView, n: u8, ctrl: bool) -> (ScreenView, ActionView) {
    if n == 10 {
        if !any_popup(s) && s.page == ScreenPage::DbOps {
            (
                ScreenView { db_source: other_source(s.db_source), db_idx: 0, ..s },
                ActionView::RefreshDbPanel,
            )
        } else {
            (s, ActionView::Nothing)
        }
    } else if n == 8 {
        if !s.sql_popup && !s.edit_open {
            (ScreenView { menu_idx: ((s.menu_idx + 1) % 6) as usize, ..s }, ActionView::Nothing)
        } else {
            (s, ActionView::Nothing)
        }
    } else if n == 9 {
        if !any_popup(s) {
            menu_step(s)
        } else {
            (s, ActionView::Nothing)
        }
    } else if n == 12 {
        if !s.sql_popup && !s.edit_open {
            (ScreenView { help_popup: true, ..s }, ActionView::Nothing)
        } else {
            (s, ActionView::Nothing)
        }
    } else if n == 2 && ctrl {
        if s.edit_open && cell_ready(s) {
            (s, ActionView::SaveCell)
        } else {
            (s, ActionView::Nothing)
        }
    } else if n == 4 && ctrl {
        if s.edit_open && s.grid_cols > 0 {
            (s, ActionView::InsertEmptyRow)
        } else {
            (s, ActionView::Nothing)
        }
    } else if n == 5 && ctrl {
        if s.edit_open && s.grid_cols > 0 && s.grid_rows > 0 {
            (s, ActionView::DeleteRow { reload: true })
        } else {
            (s, ActionView::Nothing)
        }
    } else if n == 3 && ctrl {
        (
            ScreenView { edit_open: false, row_form_open: false, object_def_open: false, ..s },
            ActionView::Nothing,
        )
    } else {
        (s, ActionView::Nothing)
    }
}

pub open spec fn esc_step(s: ScreenView) -> (ScreenView, ActionView) {
    if s.help_popup {
        (ScreenView { help_popup: false, ..s }, ActionView::Nothing)
    } else if s.sql_popup {
        (ScreenView { sql_popup: false, ..s }, ActionView::Nothing)
    } else if s.edit_open {
        if s.row_form_open {
            (
                ScreenView { row_form_open: false, edit_focus: TableEditFocus::Grid, ..s },
                ActionView::Nothing,
            )
        } else {
            (
                ScreenView {
                    edit_open: false,
                    edit_cell: Seq::empty(),
                    edit_focus: TableEditFocus::CellInput,
                    ..s
                },
                ActionView::Nothing,
            )
        }
    } else {
        (s, ActionView::Quit)
    }
}

pub open spec fn backspace_step(s: ScreenView) -> (ScreenView, ActionView) {
    if s.sql_popup {
        (ScreenView { sql_input: backspaced(s.sql_input), ..s }, ActionView::Nothing)
    } else if s.edit_open && s.edit_focus == TableEditFocus::SqlEditor {
        (ScreenView { edit_sql: backspaced(s.edit_sql), ..s }, ActionView::Nothing)
    } else if s.edit_open && s.edit_focus == TableEditFocus::CellInput {
        (ScreenView { edit_cell: backspaced(s.edit_cell), ..s }, ActionView::Nothing)
    } else if in_row_form(s) {
        if s.row_form_idx < s.row_form_values.len() {
            (
                ScreenView {
                    row_form_values: s.row_form_values.update(
                        s.row_form_idx as int,
                        backspaced(s.row_form_values[s.row_form_idx as int]),
                    ),
                    ..s
                },
                ActionView::Nothing,
            )
        } else {
            (s, ActionView::Nothing)
        }
    } else if s.editing_form {
        (ScreenView { form_input: backspaced(s.form_input), ..s }, ActionView::Nothing)
    } else if on_db_pane(s) {
        (s, ActionView::SearchBack)
    } else {
        (ScreenView { input: backspaced(s.input), history_idx: None, ..s }, ActionView::Nothing)
    }
}

pub open spec fn up_step(s: ScreenView) -> (ScreenView, ActionView) {
    if !s.editing_form && s.focus == FocusArea::Form {
        (
            ScreenView {
                selected_idx: if s.selected_idx >= 1 {
                    (s.selected_idx - 1) as usize
                } else {
                    0
                },
                ..s
            },
            ActionView::Nothing,
        )
    } else if in_row_form(s) {
        (
            ScreenView {
                row_form_idx: if s.row_form_idx >= 2 {
                    (s.row_form_idx - 1) as usize
                } else {
                    1
                },
                ..s
            },
            ActionView::Nothing,
        )
    } else if s.edit_open && s.edit_focus == TableEditFocus::Grid && s.grid_rows > 0 {
        (
            ScreenView {
                row_idx: if s.row_idx >= 1 {
                    (s.row_idx - 1) as usize
                } else {
                    0
                },
                ..s
            },
            ActionView::LoadCursorCell,
        )
    } else if !s.editing_form && on_db_pane(s) {
        (
            ScreenView {
                db_idx: if s.db_idx >= 1 {
                    (s.db_idx - 1) as usize
                } else {
                    0
                },
                ..s
            },
            ActionView::Nothing,
        )
    } else if !s.editing_form && s.focus == FocusArea::CmdPane {
        (
            ScreenView {
                cmd_idx: if s.cmd_idx >= 1 {
                    (s.cmd_idx - 1) as usize
                } else {
                    0
                },
                ..s
            },
            ActionView::Nothing,
        )
    } else if s.focus == FocusArea::Input && !s.sql_popup && !s.editing_form {
        match history_back(s.history.len(), s.history_idx) {
            Some(i) => (
                ScreenView { history_idx: Some(i as usize), input: s.history[i as int], ..s },
                ActionView::Nothing,
            ),
            None => (s, ActionView::Nothing),
        }
    } else {
        (s, ActionView::Nothing)
    }
}

/// `step` positions on in a list of `len`, stopping at the last.
pub open spec fn forward(i: usize, step: usize, len: usize) -> usize {
    if len == 0 {
        i
    } else if i + step <= len - 1 {
        (i + step) as usize
    } else {
        (len - 1) as usize
    }
}

/// `step` positions back, stopping at the first.
pub open spec fn back(i: usize, step: usize) -> usize {
    if i >= step {
        (i - step) as usize
    } else {
        0
    }
}

pub open spec fn down_step(s: ScreenView) -> (ScreenView, ActionView) {
    if in_row_form(s) {
        if s.grid_cols > 0 {
            (
                ScreenView { row_form_idx: forward(s.row_form_idx, 1, s.grid_cols), ..s },
                ActionView::Nothing,
            )
        } else {
            (s, ActionView::Nothing)
        }
    } else if s.edit_open && s.edit_focus == TableEditFocus::Grid && s.grid_rows > 0 {
        (
            ScreenView { row_idx: forward(s.row_idx, 1, s.grid_rows), ..s },
            ActionView::LoadCursorCell,
        )
    } else if !s.editing_form && s.focus == FocusArea::Form {
        (
            ScreenView {
                selected_idx: forward(s.selected_idx, 1, form_fields().len() as usize),
                ..s
            },
            ActionView::Nothing,
        )
    } else if !s.editing_form && on_db_pane(s) {
        if db_len(s) > 0 {
            (ScreenView { db_idx: forward(s.db_idx, 1, db_len(s)), ..s }, ActionView::Nothing)
        } else {
            (s, ActionView::Nothing)
        }
    } else if !s.editing_form && s.focus == FocusArea::CmdPane {
        (
            ScreenView { cmd_idx: forward(s.cmd_idx, 1, command_names().len() as usize), ..s },
            ActionView::Nothing,
        )
    } else if s.focus == FocusArea::Input && !s.sql_popup && !s.editing_form {
        match history_forward(s.history.len(), s.history_idx) {
            Some(Some(i)) => (
                ScreenView { history_idx: Some(i as usize), input: s.history[i as int], ..s },
                ActionView::Nothing,
            ),
            Some(None) => (
                ScreenView { history_idx: None, input: Seq::empty(), ..s },
                ActionView::Nothing,
            ),
            None => (s, ActionView::Nothing),
        }
    } else {
        (s, ActionView::Nothing)
    }
}

pub open spec fn on_grid(s: ScreenView) -> bool {
    s.edit_open && s.edit_focus == TableEditFocus::Grid && s.grid_cols > 1
}

pub open spec fn left_step(s: ScreenView) -> (ScreenView, ActionView) {
    if on_grid(s) {
        (
            ScreenView {
                col_idx: if s.col_idx >= 2 {
                    (s.col_idx - 1) as usize
                } else {
                    1
                },
                ..s
            },
            ActionView::LoadCursorCell,
        )
    } else if !s.editing_form && s.focus == FocusArea::Form {
        (s, ActionView::CycleOption { dir: -1i32 })
    } else {
        (s, ActionView::Nothing)
    }
}

pub open spec fn right_step(s: ScreenView) -> (ScreenView, ActionView) {
    if on_grid(s) {
        let last = (s.grid_cols - 1) as usize;
        let next = if s.col_idx < last {
            (s.col_idx + 1) as usize
        } else {
            last
        };
        (
            ScreenView {
                col_idx: if next == 0 {
                    1
                } else {
                    next
                },
                ..s
            },
            ActionView::LoadCursorCell,
        )
    } else if !s.editing_form && s.focus == FocusArea::Form {
        (s, ActionView::CycleOption { dir: 1 })
    } else {
        (s, ActionView::Nothing)
    }
}

pub open spec fn paging_edit(s: ScreenView) -> bool {
    s.edit_open && s.page == ScreenPage::DbOps && s.table_count > 0
}

pub open spec fn page_up_step(s: ScreenView) -> (ScreenView, ActionView) {
    if paging_edit(s) {
        (
            ScreenView {
                table_page_no: if s.table_page_no >= 2 {
                    (s.table_page_no - 1) as usize
                } else {
                    1
                },
                ..s
            },
            ActionView::LoadPage { back_on_empty: false },
        )
    } else if !s.editing_form && on_db_pane(s) {
        (ScreenView { db_idx: back(s.db_idx, 10), ..s }, ActionView::Nothing)
    } else if !s.editing_form && s.focus == FocusArea::CmdPane {
        (ScreenView { cmd_idx: back(s.cmd_idx, 10), ..s }, ActionView::Nothing)
    } else {
        (s, ActionView::Nothing)
    }
}

pub open spec fn page_down_step(s: ScreenView) -> (ScreenView, ActionView) {
    if paging_edit(s) {
        (
            ScreenView {
                table_page_no: if s.table_page_no < usize::MAX {
                    (s.table_page_no + 1) as usize
                } else {
                    s.table_page_no
                },
                ..s
            },
            ActionView::LoadPage { back_on_empty: true },
        )
    } else if !s.editing_form && on_db_pane(s) {
        if db_len(s) > 0 {
            (ScreenView { db_idx: forward(s.db_idx, 10, db_len(s)), ..s }, ActionView::Nothing)
        } else {
            (s, ActionView::Nothing)
        }
    } else if !s.editing_form && s.focus == FocusArea::CmdPane {
        (
            ScreenView { cmd_idx: forward(s.cmd_idx, 10, command_names().len() as usize), ..s },
            ActionView::Nothing,
        )
    } else {
        (s, ActionView::Nothing)
    }
}

/// The history after a command: added unless it repeats the newest entry.
pub open spec fn history_after(h: Seq<Seq<char>>, cmd: Seq<char>) -> Seq<Seq<char>> {
    if h.len() > 0 && h.last() == cmd {
        h
    } else {
        h.push(cmd)
    }
}

/// Enter in the table-edit dialog.
pub open spec fn edit_enter_step(s: ScreenView, shift: bool) -> (ScreenView, ActionView) {
    if s.row_form_open && s.edit_focus == TableEditFocus::RowFormCancelBtn {
        (
            ScreenView { row_form_open: false, edit_focus: TableEditFocus::Grid, ..s },
            ActionView::Nothing,
        )
    } else if s.row_form_open && (s.edit_focus == TableEditFocus::RowFormSaveBtn || s.edit_focus
        == TableEditFocus::RowForm) {
        (
            ScreenView { row_form_open: false, edit_focus: TableEditFocus::Grid, ..s },
            ActionView::SaveRowForm,
        )
    } else if s.edit_focus == TableEditFocus::SqlEditor {
        (s, ActionView::ApplyEditSql { sql: trim_seq(s.edit_sql) })
    } else if s.edit_focus == TableEditFocus::CancelBtn {
        (
            ScreenView { edit_open: false, edit_focus: TableEditFocus::SqlEditor, ..s },
            ActionView::Nothing,
        )
    } else if s.edit_focus == TableEditFocus::InsertBtn {
        if s.grid_cols > 0 {
            (
                ScreenView {
                    row_form_open: true,
                    row_form_values: Seq::new(s.grid_cols as nat, |i: int| Seq::<char>::empty()),
                    row_form_idx: if s.grid_cols > 1 {
                        1
                    } else {
                        0
                    },
                    edit_focus: TableEditFocus::RowForm,
                    ..s
                },
                ActionView::OpenRowFormInsert,
            )
        } else {
            (s, ActionView::Nothing)
        }
    } else if s.edit_focus == TableEditFocus::DeleteBtn {
        if s.grid_cols > 0 && s.grid_rows > 0 {
            (s, ActionView::DeleteRow { reload: false })
        } else {
            (s, ActionView::Nothing)
        }
    } else if s.edit_focus == TableEditFocus::SaveBtn || shift {
        if cell_ready(s) {
            (s, ActionView::SaveCell)
        } else {
            (s, ActionView::Nothing)
        }
    } else {
        (s, ActionView::Nothing)
    }
}

/// Enter on the input line: the typed command runs; a blank line does
/// nothing. The help and SQL windows open here.
pub open spec fn command_step(s: ScreenView) -> (ScreenView, ActionView) {
    let cmd = command_of(s.input);
    let cleared = ScreenView { input: Seq::empty(), history_idx: None, ..s };
    if cmd is Empty {
        (cleared, ActionView::Nothing)
    } else {
        let h = ScreenView { history: history_after(s.history, trim_seq(s.input)), ..cleared };
        if cmd is Help {
            (ScreenView { help_popup: true, ..h }, ActionView::RunCommand { cmd })
        } else if cmd is ExecSql {
            (
                ScreenView { sql_popup: true, sql_input: Seq::empty(), ..h },
                ActionView::RunCommand { cmd },
            )
        } else {
            (h, ActionView::RunCommand { cmd })
        }
    }
}

pub open spec fn enter_step(s: ScreenView, shift: bool) -> (ScreenView, ActionView) {
    if s.edit_open {
        edit_enter_step(s, shift)
    } else if s.sql_popup {
        (ScreenView { sql_popup: false, ..s }, ActionView::ExecSql { sql: trim_seq(s.sql_input) })
    } else if s.editing_form {
        (
            ScreenView { editing_form: false, form_input: Seq::empty(), ..s },
            ActionView::SetFormValue { value: trim_seq(s.form_input) },
        )
    } else if s.focus == FocusArea::Form && options_of(form_fields()[s.selected_idx as int])
        is None {
        (ScreenView { editing_form: true, ..s }, ActionView::LoadFormValue)
    } else if s.focus == FocusArea::Form && trim_seq(s.input).len() == 0 {
        (s, ActionView::CycleOption { dir: 1 })
    } else if on_db_pane(s) {
        (
            s,
            match s.db_tab {
                DbTab::Table => ActionView::OpenTableEdit,
                DbTab::View => ActionView::OpenDefinition { is_sp: false },
                DbTab::StoredProcedure => ActionView::OpenDefinition { is_sp: true },
            },
        )
    } else if s.focus == FocusArea::CmdPane {
        (
            ScreenView { input: command_names()[s.cmd_idx as int], focus: FocusArea::Input, ..s },
            ActionView::CommandSelected,
        )
    } else {
        command_step(s)
    }
}

pub open spec fn is_ascii_letter(c: char) -> bool {
    ('a' <= c && c <= 'z') || ('A' <= c && c <= 'Z')
}

pub open spec fn char_step(s: ScreenView, c: char, ctrl: bool) -> (ScreenView, ActionView) {
    if ctrl && c == 'c' {
        (s, ActionView::Quit)
    } else if ctrl && c == 'q' {
        if s.edit_open {
            (
                ScreenView {
                    edit_open: false,
                    row_form_open: false,
                    edit_cell: Seq::empty(),
                    edit_focus: TableEditFocus::CellInput,
                    ..s
                },
                ActionView::Nothing,
            )
        } else {
            (s, ActionView::Nothing)
        }
    } else if s.sql_popup {
        (ScreenView { sql_input: s.sql_input.push(c), ..s }, ActionView::Nothing)
    } else if s.edit_open && s.edit_focus == TableEditFocus::SqlEditor {
        (ScreenView { edit_sql: s.edit_sql.push(c), ..s }, ActionView::Nothing)
    } else if s.edit_open && s.edit_focus == TableEditFocus::CellInput {
        (ScreenView { edit_cell: s.edit_cell.push(c), ..s }, ActionView::Nothing)
    } else if in_row_form(s) {
        if s.row_form_idx < s.row_form_values.len() {
            (
                ScreenView {
                    row_form_values: s.row_form_values.update(
                        s.row_form_idx as int,
                        s.row_form_values[s.row_form_idx as int].push(c),
                    ),
                    ..s
                },
                ActionView::Nothing,
            )
        } else {
            (s, ActionView::Nothing)
        }
    } else if s.editing_form {
        (ScreenView { form_input: s.form_input.push(c), ..s }, ActionView::Nothing)
    } else if on_db_pane(s) && !s.edit_open && is_ascii_letter(c) {
        (s, ActionView::TypeAhead { c })
    } else {
        (ScreenView { input: s.input.push(c), history_idx: None, ..s }, ActionView::Nothing)
    }
}

/// The whole transition of the screen on a key.
pub open spec fn key_step(s: ScreenView, key: TuiKey) -> (ScreenView, ActionView) {
    match key {
        TuiKey::Tab => tab_step(s),
        TuiKey::BackTab => backtab_step(s),
        TuiKey::F { n, ctrl } => fkey_step(s, n, ctrl),
        TuiKey::Esc => esc_step(s),
        TuiKey::Backspace => backspace_step(s),
        TuiKey::Up => up_step(s),
        TuiKey::Down => down_step(s),
        TuiKey::Left => left_step(s),
        TuiKey::Right => right_step(s),
        TuiKey::PageUp => page_up_step(s),
        TuiKey::PageDown => page_down_step(s),
        TuiKey::Enter { shift } => enter_step(s, shift),
        TuiKey::Char { c, ctrl } => char_step(s, c, ctrl),
        TuiKey::Other => (s, ActionView::Nothing),
    }
}

// ---------------------------------------------------------------------
// The executable transition
// ---------------------------------------------------------------------

fn backspace_text(t: &String) -> (r: String)
    ensures
        r@ == backspaced(t@),
{
    let v = chars_of(t.as_str());
    if v.len() > 0 {
        let r = substring(&v, 0, v.len() - 1);
        assert(v@.subrange(0, v@.len() - 1) =~= v@.drop_last());
        r
    } else {
        to_owned(t.as_str())
    }
}

fn pushed_text(t: &String, c: char) -> (r: String)
    ensures
        r@ == t@.push(c),
{
    let mut r = to_owned(t.as_str());
    push_char(&mut r, c);
    r
}

proof fn lemma_views_update(v: Seq<String>, i: int, x: String)
    requires
        0 <= i < v.len(),
    ensures
        views(v.update(i, x)) == views(v).update(i, x@),
{
    assert(views(v.update(i, x)) =~= views(v).update(i, x@));
}

impl TuiScreenState {
    /// The screen as it opens: the form focused on its first field, the main
    /// page, nothing typed and no dialog open.
    pub fn new() -> (r: TuiScreenState)
        ensures
            screen_wf(r@),
            r@.focus == FocusArea::Form,
            r@.page == ScreenPage::Main,
            r@.input.len() == 0,
            r@.history.len() == 0,
            !any_popup(r@),
            !r@.object_def_open,
    {
        let r = TuiScreenState {
            focus: FocusArea::Form,
            page: ScreenPage::Main,
            db_tab: DbTab::Table,
            db_source: DbConnSource::Export,
            menu_idx: 0,
            selected_idx: 0,
            editing_form: false,
            form_input: String::new(),
            input: String::new(),
            history: Vec::new(),
            history_idx: None,
            cmd_idx: 0,
            db_idx: 0,
            table_count: 0,
            view_count: 0,
            sp_count: 0,
            help_popup: false,
            sql_popup: false,
            sql_input: String::new(),
            object_def_open: false,
            edit_open: false,
            edit_focus: TableEditFocus::SqlEditor,
            edit_sql: String::new(),
            edit_cell: String::new(),
            row_form_open: false,
            row_form_idx: 1,
            row_form_values: Vec::new(),
            grid_rows: 0,
            grid_cols: 0,
            row_idx: 0,
            col_idx: 0,
            table_page_no: 1,
        };
        assert(views(r.history@) =~= Seq::<Seq<char>>::empty());
        r
    }

    /// Opens the edit dialog on a loaded page of `rows` rows and `cols`
    /// columns: the SQL editor focused, the cursor on the first row and the
    /// first column after the key, page 1.
    pub fn show_table_edit(&mut self, rows: usize, cols: usize, sql: String)
        ensures
            final(self)@ == (ScreenView {
                edit_open: true,
                row_form_open: false,
                edit_focus: TableEditFocus::SqlEditor,
                edit_sql: sql@,
                grid_rows: rows,
                grid_cols: cols,
                row_idx: 0,
                col_idx: if cols > 1 {
                    1
                } else {
                    0
                },
                table_page_no: 1,
                ..old(self)@
            }),
    {
        self.edit_open = true;
        self.row_form_open = false;
        self.edit_focus = TableEditFocus::SqlEditor;
        self.edit_sql = sql;
        self.grid_rows = rows;
        self.grid_cols = cols;
        self.row_idx = 0;
        self.col_idx = first_value_column(cols);
        self.table_page_no = 1;
    }

    /// A new grid was loaded into the dialog: the cursor goes to its first
    /// row and the first column after the key.
    pub fn load_grid(&mut self, rows: usize, cols: usize)
        ensures
            final(self)@ == (ScreenView {
                grid_rows: rows,
                grid_cols: cols,
                row_idx: 0,
                col_idx: if cols > 1 {
                    1
                } else {
                    0
                },
                ..old(self)@
            }),
    {
        self.grid_rows = rows;
        self.grid_cols = cols;
        self.row_idx = 0;
        self.col_idx = first_value_column(cols);
    }

    /// A page past the first came back empty: go back to the page before.
    pub fn page_was_empty(&mut self)
        ensures
            final(self)@ == (ScreenView {
                table_page_no: if old(self)@.table_page_no > 1 {
                    (old(self)@.table_page_no - 1) as usize
                } else {
                    old(self)@.table_page_no
                },
                ..old(self)@
            }),
    {
        if self.table_page_no > 1 {
            self.table_page_no = self.table_page_no - 1;
        }
    }

    /// The dialog cancel button: the edit and definition dialogs close.
    pub fn close_dialogs(&mut self)
        ensures
            final(self)@ == (ScreenView {
                edit_open: false,
                row_form_open: false,
                object_def_open: false,
                ..old(self)@
            }),
    {
        self.edit_open = false;
        self.row_form_open = false;
        self.object_def_open = false;
    }

    fn tab(&mut self) -> (r: TuiAction)
        ensures
            (final(self)@, r@) == tab_step(old(self)@),
    {
        if self.edit_open {
            self.edit_focus = table_edit_next_focus(self.row_form_open, self.edit_focus);
            TuiAction::Nothing
        } else if !(self.sql_popup || self.edit_open || self.help_popup) {
            if self.editing_form {
                self.form_input = String::new();
            }
            self.editing_form = false;
            self.focus = next_focus(self.page, self.focus);
            TuiAction::FocusMoved(self.focus)
        } else {
            TuiAction::Nothing
        }
    }

    fn backtab(&mut self) -> (r: TuiAction)
        ensures
            (final(self)@, r@) == backtab_step(old(self)@),
    {
        if self.edit_open {
            self.edit_focus = table_edit_prev_focus(self.row_form_open, self.edit_focus);
        } else if !(self.sql_popup || self.edit_open || self.help_popup) && self.page
            == ScreenPage::DbOps {
            self.db_tab = prev_db_tab(self.db_tab);
            self.db_idx = 0;
        }
        TuiAction::Nothing
    }

    fn apply_menu(&mut self) -> (r: TuiAction)
        requires
            old(self).menu_idx < 6,
        ensures
            (final(self)@, r@) == menu_step(old(self)@),
    {
        let item = match menu_item(self.menu_idx) {
            Some(m) => m,
            None => return TuiAction::Nothing,
        };
        match menu_run_command(item) {
            Some((_flow, cmd)) => {
                self.input = to_owned(cmd);
                self.focus = FocusArea::Input;
                self.page = ScreenPage::Main;
                TuiAction::ApplyMenu(item)
            },
            None => {
                if item == MenuItem::DbOps {
                    self.page = ScreenPage::DbOps;
                    self.focus = FocusArea::DbPane;
                    TuiAction::ApplyMenu(item)
                } else if item == MenuItem::Help {
                    self.help_popup = true;
                    TuiAction::ApplyMenu(item)
                } else {
                    TuiAction::Nothing
                }
            },
        }
    }

    fn fkey(&mut self, n: u8, ctrl: bool) -> (r: TuiAction)
        requires
            screen_wf(old(self)@),
        ensures
            (final(self)@, r@) == fkey_step(old(self)@, n, ctrl),
    {
        let popup = self.sql_popup || self.edit_open || self.help_popup;
        if n == 10 {
            if !popup && self.page == ScreenPage::DbOps {
                self.db_source = toggle_conn_source(self.db_source);
                self.db_idx = 0;
                TuiAction::RefreshDbPanel
            } else {
                TuiAction::Nothing
            }
        } else if n == 8 {
            if !self.sql_popup && !self.edit_open {
                self.menu_idx = next_menu_index(self.menu_idx);
            }
            TuiAction::Nothing
        } else if n == 9 {
            if !popup {
                self.apply_menu()
            } else {
                TuiAction::Nothing
            }
        } else if n == 12 {
            if !self.sql_popup && !self.edit_open {
                self.help_popup = true;
            }
            TuiAction::Nothing
        } else if n == 2 && ctrl {
            if self.edit_open && self.grid_rows > 0 && self.grid_cols > 0 && self.col_idx
                < self.grid_cols {
                TuiAction::SaveCell
            } else {
                TuiAction::Nothing
            }
        } else if n == 4 && ctrl {
            if self.edit_open && self.grid_cols > 0 {
                TuiAction::InsertEmptyRow
            } else {
                TuiAction::Nothing
            }
        } else if n == 5 && ctrl {
            if self.edit_open && self.grid_cols > 0 && self.grid_rows > 0 {
                TuiAction::DeleteRow { reload: true }
            } else {
                TuiAction::Nothing
            }
        } else if n == 3 && ctrl {
            self.edit_open = false;
            self.row_form_open = false;
            self.object_def_open = false;
            TuiAction::Nothing
        } else {
            TuiAction::Nothing
        }
    }

    fn esc(&mut self) -> (r: TuiAction)
        ensures
            (final(self)@, r@) == esc_step(old(self)@),
    {
        if self.help_popup {
            self.help_popup = false;
            TuiAction::Nothing
        } else if self.sql_popup {
            self.sql_popup = false;
            TuiAction::Nothing
        } else if self.edit_open {
            if self.row_form_open {
                self.row_form_open = false;
                self.edit_focus = TableEditFocus::Grid;
            } else {
                self.edit_open = false;
                self.edit_cell = String::new();
                self.edit_focus = TableEditFocus::CellInput;
            }
            TuiAction::Nothing
        } else {
            TuiAction::Quit
        }
    }

    fn backspace(&mut self) -> (r: TuiAction)
        ensures
            (final(self)@, r@) == backspace_step(old(self)@),
    {
        if self.sql_popup {
            self.sql_input = backspace_text(&self.sql_input);
            TuiAction::Nothing
        } else if self.edit_open && self.edit_focus == TableEditFocus::SqlEditor {
            self.edit_sql = backspace_text(&self.edit_sql);
            TuiAction::Nothing
        } else if self.edit_open && self.edit_focus == TableEditFocus::CellInput {
            self.edit_cell = backspace_text(&self.edit_cell);
            TuiAction::Nothing
        } else if self.edit_open && self.row_form_open && self.edit_focus
            == TableEditFocus::RowForm {
            let i = self.row_form_idx;
            if i < self.row_form_values.len() {
                let t = backspace_text(&self.row_form_values[i]);
                proof {
                    assert(views(self.row_form_values@)[i as int] == self.row_form_values@[i as int]@);
                    lemma_views_update(self.row_form_values@, i as int, t);
                }
                self.row_form_values.set(i, t);
            }
            TuiAction::Nothing
        } else if self.editing_form {
            self.form_input = backspace_text(&self.form_input);
            TuiAction::Nothing
        } else if self.focus == FocusArea::DbPane && self.page == ScreenPage::DbOps {
            TuiAction::SearchBack
        } else {
            self.input = backspace_text(&self.input);
            self.history_idx = None;
            TuiAction::Nothing
        }
    }

    fn up(&mut self) -> (r: TuiAction)
        requires
            screen_wf(old(self)@),
        ensures
            (final(self)@, r@) == up_step(old(self)@),
    {
        if !self.editing_form && self.focus == FocusArea::Form {
            self.selected_idx = step_back(self.selected_idx, 1);
            TuiAction::Nothing
        } else if self.edit_open && self.row_form_open && self.edit_focus
            == TableEditFocus::RowForm {
            self.row_form_idx = step_back_past_key(self.row_form_idx);
            TuiAction::Nothing
        } else if self.edit_open && self.edit_focus == TableEditFocus::Grid && self.grid_rows > 0 {
            self.row_idx = step_back(self.row_idx, 1);
            TuiAction::LoadCursorCell
        } else if !self.editing_form && self.focus == FocusArea::DbPane && self.page
            == ScreenPage::DbOps {
            self.db_idx = step_back(self.db_idx, 1);
            TuiAction::Nothing
        } else if !self.editing_form && self.focus == FocusArea::CmdPane {
            self.cmd_idx = step_back(self.cmd_idx, 1);
            TuiAction::Nothing
        } else if self.focus == FocusArea::Input && !self.sql_popup && !self.editing_form {
            match history_up(self.history.len(), self.history_idx) {
                Some(i) => {
                    proof {
                        assert(views(self.history@)[i as int] == self.history@[i as int]@);
                    }
                    self.input = to_owned(self.history[i].as_str());
                    self.history_idx = Some(i);
                },
                None => {},
            }
            TuiAction::Nothing
        } else {
            TuiAction::Nothing
        }
    }

    fn db_list_len(&self) -> (r: usize)
        ensures
            r == db_len(self@),
    {
        match self.db_tab {
            DbTab::Table => self.table_count,
            DbTab::View => self.view_count,
            DbTab::StoredProcedure => self.sp_count,
        }
    }

    fn down(&mut self) -> (r: TuiAction)
        requires
            screen_wf(old(self)@),
        ensures
            (final(self)@, r@) == down_step(old(self)@),
    {
        if self.edit_open && self.row_form_open && self.edit_focus == TableEditFocus::RowForm {
            if self.grid_cols > 0 {
                self.row_form_idx = step_forward(self.row_form_idx, 1, self.grid_cols);
            }
            TuiAction::Nothing
        } else if self.edit_open && self.edit_focus == TableEditFocus::Grid && self.grid_rows > 0 {
            self.row_idx = step_forward(self.row_idx, 1, self.grid_rows);
            TuiAction::LoadCursorCell
        } else if !self.editing_form && self.focus == FocusArea::Form {
            self.selected_idx = step_forward(self.selected_idx, 1, crate::form::form_field_count());
            TuiAction::Nothing
        } else if !self.editing_form && self.focus == FocusArea::DbPane && self.page
            == ScreenPage::DbOps {
            let len = self.db_list_len();
            if len > 0 {
                self.db_idx = step_forward(self.db_idx, 1, len);
            }
            TuiAction::Nothing
        } else if !self.editing_form && self.focus == FocusArea::CmdPane {
            self.cmd_idx = step_forward(self.cmd_idx, 1, command_count());
            TuiAction::Nothing
        } else if self.focus == FocusArea::Input && !self.sql_popup && !self.editing_form {
            match history_down(self.history.len(), self.history_idx) {
                Some(Some(i)) => {
                    proof {
                        assert(views(self.history@)[i as int] == self.history@[i as int]@);
                    }
                    self.input = to_owned(self.history[i].as_str());
                    self.history_idx = Some(i);
                },
                Some(None) => {
                    self.history_idx = None;
                    self.input = String::new();
                },
                None => {},
            }
            TuiAction::Nothing
        } else {
            TuiAction::Nothing
        }
    }

    fn left(&mut self) -> (r: TuiAction)
        ensures
            (final(self)@, r@) == left_step(old(self)@),
    {
        if self.edit_open && self.edit_focus == TableEditFocus::Grid && self.grid_cols > 1 {
            self.col_idx = step_back_past_key(self.col_idx);
            TuiAction::LoadCursorCell
        } else if !self.editing_form && self.focus == FocusArea::Form {
            TuiAction::CycleOption { dir: -1 }
        } else {
            TuiAction::Nothing
        }
    }

    fn right(&mut self) -> (r: TuiAction)
        ensures
            (final(self)@, r@) == right_step(old(self)@),
    {
        if self.edit_open && self.edit_focus == TableEditFocus::Grid && self.grid_cols > 1 {
            self.col_idx = grid_col_right(self.col_idx, self.grid_cols);
            TuiAction::LoadCursorCell
        } else if !self.editing_form && self.focus == FocusArea::Form {
            TuiAction::CycleOption { dir: 1 }
        } else {
            TuiAction::Nothing
        }
    }

    fn page_up(&mut self) -> (r: TuiAction)
        ensures
            (final(self)@, r@) == page_up_step(old(self)@),
    {
        if self.edit_open && self.page == ScreenPage::DbOps && self.table_count > 0 {
            self.table_page_no = step_back_past_key(self.table_page_no);
            TuiAction::LoadPage { back_on_empty: false }
        } else if !self.editing_form && self.focus == FocusArea::DbPane && self.page
            == ScreenPage::DbOps {
            self.db_idx = step_back(self.db_idx, 10);
            TuiAction::Nothing
        } else if !self.editing_form && self.focus == FocusArea::CmdPane {
            self.cmd_idx = step_back(self.cmd_idx, 10);
            TuiAction::Nothing
        } else {
            TuiAction::Nothing
        }
    }

    fn page_down(&mut self) -> (r: TuiAction)
        ensures
            (final(self)@, r@) == page_down_step(old(self)@),
    {
        if self.edit_open && self.page == ScreenPage::DbOps && self.table_count > 0 {
            if self.table_page_no < usize::MAX {
                self.table_page_no = self.table_page_no + 1;
            }
            TuiAction::LoadPage { back_on_empty: true }
        } else if !self.editing_form && self.focus == FocusArea::DbPane && self.page
            == ScreenPage::DbOps {
            let len = self.db_list_len();
            if len > 0 {
                self.db_idx = step_forward(self.db_idx, 10, len);
            }
            TuiAction::Nothing
        } else if !self.editing_form && self.focus == FocusArea::CmdPane {
            self.cmd_idx = step_forward(self.cmd_idx, 10, command_count());
            TuiAction::Nothing
        } else {
            TuiAction::Nothing
        }
    }

    fn empty_values(n: usize) -> (r: Vec<String>)
        ensures
            views(r@) == Seq::new(n as nat, |i: int| Seq::<char>::empty()),
    {
        let mut out: Vec<String> = Vec::new();
        let mut k: usize = 0;
        while k < n
            invariant
                k <= n,
                views(out@) == Seq::new(k as nat, |i: int| Seq::<char>::empty()),
            decreases n - k,
        {
            let t = String::new();
            proof {
                lemma_views_push(out@, t);
            }
            out.push(t);
            assert(views(out@) =~= Seq::new((k + 1) as nat, |i: int| Seq::<char>::empty()));
            k = k + 1;
        }
        out
    }

    fn edit_enter(&mut self, shift: bool) -> (r: TuiAction)
        ensures
            (final(self)@, r@) == edit_enter_step(old(self)@, shift),
    {
        let ready = self.grid_rows > 0 && self.grid_cols > 0 && self.col_idx < self.grid_cols;
        if self.row_form_open && self.edit_focus == TableEditFocus::RowFormCancelBtn {
            self.row_form_open = false;
            self.edit_focus = TableEditFocus::Grid;
            TuiAction::Nothing
        } else if self.row_form_open && (self.edit_focus == TableEditFocus::RowFormSaveBtn
            || self.edit_focus == TableEditFocus::RowForm) {
            self.row_form_open = false;
            self.edit_focus = TableEditFocus::Grid;
            TuiAction::SaveRowForm
        } else if self.edit_focus == TableEditFocus::SqlEditor {
            TuiAction::ApplyEditSql { sql: trim(self.edit_sql.as_str()) }
        } else if self.edit_focus == TableEditFocus::CancelBtn {
            self.edit_open = false;
            self.edit_focus = TableEditFocus::SqlEditor;
            TuiAction::Nothing
        } else if self.edit_focus == TableEditFocus::InsertBtn {
            if self.grid_cols > 0 {
                self.row_form_open = true;
                self.row_form_values = Self::empty_values(self.grid_cols);
                self.row_form_idx = first_value_column(self.grid_cols);
                self.edit_focus = TableEditFocus::RowForm;
                TuiAction::OpenRowFormInsert
            } else {
                TuiAction::Nothing
            }
        } else if self.edit_focus == TableEditFocus::DeleteBtn {
            if self.grid_cols > 0 && self.grid_rows > 0 {
                TuiAction::DeleteRow { reload: false }
            } else {
                TuiAction::Nothing
            }
        } else if self.edit_focus == TableEditFocus::SaveBtn || shift {
            if ready {
                TuiAction::SaveCell
            } else {
                TuiAction::Nothing
            }
        } else {
            TuiAction::Nothing
        }
    }

    fn run_typed(&mut self) -> (r: TuiAction)
        requires
            screen_wf(old(self)@),
        ensures
            (final(self)@, r@) == command_step(old(self)@),
    {
        let typed = to_owned(self.input.as_str());
        self.input = String::new();
        self.history_idx = None;
        let cmd = parse_tui_command(typed.as_str());
        if matches!(cmd, TuiCommand::Empty) {
            return TuiAction::Nothing;
        }
        let t = trim(typed.as_str());
        push_history(&mut self.history, t.as_str());
        if matches!(cmd, TuiCommand::Help) {
            self.help_popup = true;
        } else if matches!(cmd, TuiCommand::ExecSql) {
            self.sql_popup = true;
            self.sql_input = String::new();
        }
        TuiAction::RunCommand { cmd }
    }

    fn enter(&mut self, shift: bool) -> (r: TuiAction)
        requires
            screen_wf(old(self)@),
        ensures
            (final(self)@, r@) == enter_step(old(self)@, shift),
    {
        if self.edit_open {
            return self.edit_enter(shift);
        }
        if self.sql_popup {
            self.sql_popup = false;
            return TuiAction::ExecSql { sql: trim(self.sql_input.as_str()) };
        }
        if self.editing_form {
            let value = trim(self.form_input.as_str());
            self.editing_form = false;
            self.form_input = String::new();
            return TuiAction::SetFormValue { value };
        }
        if self.focus == FocusArea::Form {
            let field = form_field(self.selected_idx);
            if field_options(field).is_none() {
                self.editing_form = true;
                return TuiAction::LoadFormValue;
            }
            if crate::text::is_blank(self.input.as_str()) {
                return TuiAction::CycleOption { dir: 1 };
            }
        }
        if self.focus == FocusArea::DbPane && self.page == ScreenPage::DbOps {
            return match self.db_tab {
                DbTab::Table => TuiAction::OpenTableEdit,
                DbTab::View => TuiAction::OpenDefinition { is_sp: false },
                DbTab::StoredProcedure => TuiAction::OpenDefinition { is_sp: true },
            };
        }
        if self.focus == FocusArea::CmdPane {
            let (cmd, _) = command_item(self.cmd_idx);
            self.input = to_owned(cmd);
            self.focus = FocusArea::Input;
            return TuiAction::CommandSelected;
        }
        self.run_typed()
    }

    fn on_char(&mut self, c: char, ctrl: bool) -> (r: TuiAction)
        ensures
            (final(self)@, r@) == char_step(old(self)@, c, ctrl),
    {
        if ctrl && c == 'c' {
            TuiAction::Quit
        } else if ctrl && c == 'q' {
            if self.edit_open {
                self.edit_open = false;
                self.row_form_open = false;
                self.edit_cell = String::new();
                self.edit_focus = TableEditFocus::CellInput;
            }
            TuiAction::Nothing
        } else if self.sql_popup {
            self.sql_input = pushed_text(&self.sql_input, c);
            TuiAction::Nothing
        } else if self.edit_open && self.edit_focus == TableEditFocus::SqlEditor {
            self.edit_sql = pushed_text(&self.edit_sql, c);
            TuiAction::Nothing
        } else if self.edit_open && self.edit_focus == TableEditFocus::CellInput {
            self.edit_cell = pushed_text(&self.edit_cell, c);
            TuiAction::Nothing
        } else if self.edit_open && self.row_form_open && self.edit_focus
            == TableEditFocus::RowForm {
            let i = self.row_form_idx;
            if i < self.row_form_values.len() {
                let t = pushed_text(&self.row_form_values[i], c);
                proof {
                    assert(views(self.row_form_values@)[i as int] == self.row_form_values@[i as int]@);
                    lemma_views_update(self.row_form_values@, i as int, t);
                }
                self.row_form_values.set(i, t);
            }
            TuiAction::Nothing
        } else if self.editing_form {
            self.form_input = pushed_text(&self.form_input, c);
            TuiAction::Nothing
        } else if self.focus == FocusArea::DbPane && self.page == ScreenPage::DbOps
            && !self.edit_open && (('a' <= c && c <= 'z') || ('A' <= c && c <= 'Z')) {
            TuiAction::TypeAhead { c }
        } else {
            self.input = pushed_text(&self.input, c);
            self.history_idx = None;
            TuiAction::Nothing
        }
    }
}

/// The screen's answer to a key: the next state and the outside work to do.
pub fn tui_key_step(state: &mut TuiScreenState, key: TuiKey) -> (r: TuiAction)
    requires
        screen_wf(old(state)@),
    ensures
        (final(state)@, r@) == key_step(old(state)@, key),
        screen_wf(final(state)@),
{
    match key {
        TuiKey::Tab => state.tab(),
        TuiKey::BackTab => state.backtab(),
        TuiKey::F { n, ctrl } => state.fkey(n, ctrl),
        TuiKey::Esc => state.esc(),
        TuiKey::Backspace => state.backspace(),
        TuiKey::Up => state.up(),
        TuiKey::Down => state.down(),
        TuiKey::Left => state.left(),
        TuiKey::Right => state.right(),
        TuiKey::PageUp => state.page_up(),
        TuiKey::PageDown => state.page_down(),
        TuiKey::Enter { shift } => state.enter(shift),
        TuiKey::Char { c, ctrl } => state.on_char(c, ctrl),
        TuiKey::Other => TuiAction::Nothing,
    }
}

/// In the table edit dialog, PageUp and PageDown page through the table:
/// PageUp goes back one page (staying on the first), PageDown forward one,
/// each reloading the page, and PageUp undoes PageDown. Nothing else about
/// the screen changes.
pub proof fn law_edit_paging(s: ScreenView)
    requires
        paging_edit(s),
        s.table_page_no >= 1,
        s.table_page_no < usize::MAX,
    ensures
        key_step(s, TuiKey::PageUp).0 == (ScreenView {
            table_page_no: key_step(s, TuiKey::PageUp).0.table_page_no,
            ..s
        }),
        key_step(s, TuiKey::PageUp).0.table_page_no == (if s.table_page_no > 1 {
            s.table_page_no - 1
        } else {
            1
        }),
        key_step(s, TuiKey::PageUp).1 == (ActionView::LoadPage { back_on_empty: false }),
        key_step(s, TuiKey::PageDown).0.table_page_no == s.table_page_no + 1,
        key_step(s, TuiKey::PageDown).1 == (ActionView::LoadPage { back_on_empty: true }),
        key_step(key_step(s, TuiKey::PageDown).0, TuiKey::PageUp).0 == s,
        s.table_page_no > 1 ==> key_step(key_step(s, TuiKey::PageUp).0, TuiKey::PageDown).0 == s,
{
}

/// Every key keeps the screen's indices in range.
#[verifier::rlimit(50)]
pub proof fn law_key_step_keeps_wf(s: ScreenView, key: TuiKey)
    requires
        screen_wf(s),
    ensures
        screen_wf(key_step(s, key).0),
{
    match key {
        TuiKey::Tab => {},
        TuiKey::BackTab => {},
        TuiKey::F { n, ctrl } => {},
        TuiKey::Esc => {},
        TuiKey::Backspace => {},
        TuiKey::Up => {},
        TuiKey::Down => {},
        TuiKey::Left => {},
        TuiKey::Right => {},
        TuiKey::PageUp => {},
        TuiKey::PageDown => {},
        TuiKey::Enter { shift } => {
            if !s.edit_open && !s.sql_popup && !s.editing_form && !(s.focus == FocusArea::Form)
                && !on_db_pane(s) && !(s.focus == FocusArea::CmdPane) {
                let cmd = command_of(s.input);
                let h = history_after(s.history, trim_seq(s.input));
                assert(h.len() >= s.history.len());
            }
        },
        TuiKey::Char { c, ctrl } => {},
        TuiKey::Other => {},
    }
}

} // verus!
