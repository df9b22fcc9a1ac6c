use corn_dbio_kit::tui_keys::{command_count, command_item, tui_key_step, TuiAction, TuiKey, TuiScreenState};
use corn_dbio_kit::tui_state::{DbTab, FocusArea, MenuItem, ScreenPage, TableEditFocus, TuiCommand};

fn ch(c: char) -> TuiKey {
    TuiKey::Char { c, ctrl: false }
}

#[test]
fn tab_closes_form_editing_and_moves_the_focus() {
    let mut s = TuiScreenState::new();
    s.editing_form = true;
    s.form_input = "abc".to_string();
    let a = tui_key_step(&mut s, TuiKey::Tab);
    assert!(matches!(a, TuiAction::FocusMoved(FocusArea::Input)));
    assert!(!s.editing_form);
    assert_eq!(s.form_input, "");
    assert_eq!(s.focus, FocusArea::Input);
}

#[test]
fn typed_commands_run_and_enter_the_history() {
    let mut s = TuiScreenState::new();
    s.focus = FocusArea::Input;
    for c in " /show ".chars() {
        tui_key_step(&mut s, ch(c));
    }
    assert_eq!(s.input, " /show ");
    let a = tui_key_step(&mut s, TuiKey::Enter { shift: false });
    assert!(matches!(a, TuiAction::RunCommand { cmd: TuiCommand::Show }));
    assert_eq!(s.input, "");
    assert_eq!(s.history, vec!["/show".to_string()]);
    tui_key_step(&mut s, TuiKey::Up);
    assert_eq!(s.input, "/show");
    tui_key_step(&mut s, TuiKey::Down);
    assert_eq!(s.input, "");
    tui_key_step(&mut s, TuiKey::Backspace);
    let a = tui_key_step(&mut s, TuiKey::Enter { shift: false });
    assert!(matches!(a, TuiAction::Nothing));
    for c in "/exec-sql".chars() {
        tui_key_step(&mut s, ch(c));
    }
    tui_key_step(&mut s, TuiKey::Enter { shift: false });
    assert!(s.sql_popup);
    for c in "select 1 ".chars() {
        tui_key_step(&mut s, ch(c));
    }
    match tui_key_step(&mut s, TuiKey::Enter { shift: false }) {
        TuiAction::ExecSql { sql } => assert_eq!(sql, "select 1"),
        _ => panic!("expected the SQL window to run"),
    }
    assert!(!s.sql_popup);
}

#[test]
fn the_menu_and_the_database_page() {
    let mut s = TuiScreenState::new();
    for _ in 0..4 {
        tui_key_step(&mut s, TuiKey::F { n: 8, ctrl: false });
    }
    assert_eq!(s.menu_idx, 4);
    let a = tui_key_step(&mut s, TuiKey::F { n: 9, ctrl: false });
    assert!(matches!(a, TuiAction::ApplyMenu(MenuItem::DbOps)));
    assert_eq!(s.page, ScreenPage::DbOps);
    assert_eq!(s.focus, FocusArea::DbPane);
    s.table_count = 3;
    tui_key_step(&mut s, TuiKey::Down);
    tui_key_step(&mut s, TuiKey::PageDown);
    assert_eq!(s.db_idx, 2);
    assert!(matches!(tui_key_step(&mut s, ch('o')), TuiAction::TypeAhead { c: 'o' }));
    tui_key_step(&mut s, TuiKey::BackTab);
    assert_eq!(s.db_tab, DbTab::StoredProcedure);
    assert_eq!(s.db_idx, 0);
    assert!(matches!(tui_key_step(&mut s, TuiKey::F { n: 10, ctrl: false }), TuiAction::RefreshDbPanel));
    assert!(matches!(tui_key_step(&mut s, TuiKey::Esc), TuiAction::Quit));
}

#[test]
fn the_edit_dialog_moves_its_cursor_and_buffers() {
    let mut s = TuiScreenState::new();
    s.page = ScreenPage::DbOps;
    s.focus = FocusArea::DbPane;
    s.show_table_edit(5, 3, "select".to_string());
    assert_eq!((s.row_idx, s.col_idx), (0, 1));
    tui_key_step(&mut s, TuiKey::Tab);
    assert_eq!(s.edit_focus, TableEditFocus::Grid);
    assert!(matches!(tui_key_step(&mut s, TuiKey::Right), TuiAction::LoadCursorCell));
    tui_key_step(&mut s, TuiKey::Right);
    assert_eq!(s.col_idx, 2);
    tui_key_step(&mut s, TuiKey::Left);
    tui_key_step(&mut s, TuiKey::Left);
    assert_eq!(s.col_idx, 1);
    tui_key_step(&mut s, TuiKey::Down);
    assert_eq!(s.row_idx, 1);
    assert!(matches!(tui_key_step(&mut s, TuiKey::Enter { shift: true }), TuiAction::SaveCell));
    tui_key_step(&mut s, TuiKey::Tab);
    tui_key_step(&mut s, TuiKey::Tab);
    tui_key_step(&mut s, TuiKey::Tab);
    assert_eq!(s.edit_focus, TableEditFocus::InsertBtn);
    assert!(matches!(tui_key_step(&mut s, TuiKey::Enter { shift: false }), TuiAction::OpenRowFormInsert));
    assert!(s.row_form_open);
    assert_eq!(s.row_form_values, vec![String::new(); 3]);
    tui_key_step(&mut s, ch('x'));
    assert_eq!(s.row_form_values[1], "x");
    tui_key_step(&mut s, TuiKey::Esc);
    assert!(!s.row_form_open);
    assert_eq!(s.edit_focus, TableEditFocus::Grid);
    tui_key_step(&mut s, TuiKey::Esc);
    assert!(!s.edit_open);
    assert_eq!(command_count(), 14);
    assert_eq!(command_item(13).0, "/quit");
}
