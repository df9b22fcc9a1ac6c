use corn_dbio_kit::config::{default_tui_cli, FlowMode, Lang};
use corn_dbio_kit::tui_state::{
    build_db_panel_cli, can_auto_refresh, generated_key, needs_generated_key, find_in_names, type_ahead, insert_row_values, row_update_plan, first_value_column, form_line_text,
    form_window_start, grid_col_right, history_down, history_up, menu_item, menu_label,
    menu_run_command, missing_connection_message, next_focus, next_menu_index,
    parse_disk_usage, parse_tui_command, prev_db_tab, push_history, split_words, step_back,
    step_back_past_key, step_forward, table_edit_next_focus, table_edit_prev_focus,
    toggle_conn_source, tr, DbConnSource, DbTab, FocusArea, MenuItem, ScreenPage,
    TableEditFocus, TuiCommand,
};

fn names(v: &[&str]) -> Vec<String> {
    v.iter().map(|x| x.to_string()).collect()
}

#[test]
fn tab_walks_the_main_screen() {
    assert_eq!(next_focus(ScreenPage::Main, FocusArea::Form), FocusArea::Input);
    assert_eq!(next_focus(ScreenPage::Main, FocusArea::Input), FocusArea::CmdPane);
    assert_eq!(next_focus(ScreenPage::Main, FocusArea::CmdPane), FocusArea::Form);
    assert_eq!(next_focus(ScreenPage::Main, FocusArea::DbPane), FocusArea::Form);
}

#[test]
fn tab_walks_the_database_screen() {
    assert_eq!(next_focus(ScreenPage::DbOps, FocusArea::Form), FocusArea::Input);
    assert_eq!(next_focus(ScreenPage::DbOps, FocusArea::Input), FocusArea::DbPane);
    assert_eq!(next_focus(ScreenPage::DbOps, FocusArea::DbPane), FocusArea::CmdPane);
    assert_eq!(next_focus(ScreenPage::DbOps, FocusArea::CmdPane), FocusArea::Form);
}

#[test]
fn backtab_undoes_tab_in_the_edit_dialog() {
    let closed = [
        TableEditFocus::SqlEditor,
        TableEditFocus::Grid,
        TableEditFocus::CellInput,
        TableEditFocus::SaveBtn,
        TableEditFocus::InsertBtn,
        TableEditFocus::DeleteBtn,
        TableEditFocus::CancelBtn,
    ];
    for f in closed {
        assert_eq!(table_edit_prev_focus(false, table_edit_next_focus(false, f)), f);
        assert_eq!(table_edit_next_focus(false, table_edit_prev_focus(false, f)), f);
    }
    let open = [
        TableEditFocus::RowForm,
        TableEditFocus::RowFormSaveBtn,
        TableEditFocus::RowFormCancelBtn,
    ];
    for f in open {
        assert_eq!(table_edit_prev_focus(true, table_edit_next_focus(true, f)), f);
    }
    assert_eq!(table_edit_next_focus(false, TableEditFocus::CancelBtn), TableEditFocus::SqlEditor);
    assert_eq!(table_edit_next_focus(true, TableEditFocus::Grid), TableEditFocus::RowForm);
}

#[test]
fn database_tabs_and_sources_go_round() {
    assert_eq!(prev_db_tab(DbTab::Table), DbTab::StoredProcedure);
    assert_eq!(prev_db_tab(DbTab::StoredProcedure), DbTab::View);
    assert_eq!(prev_db_tab(DbTab::View), DbTab::Table);
    assert_eq!(prev_db_tab(prev_db_tab(prev_db_tab(DbTab::View))), DbTab::View);
    assert_eq!(toggle_conn_source(DbConnSource::Export), DbConnSource::Import);
    assert_eq!(toggle_conn_source(toggle_conn_source(DbConnSource::Import)), DbConnSource::Import);
}

#[test]
fn the_menu_entries_and_their_commands() {
    assert_eq!(menu_item(0), Some(MenuItem::ExportData));
    assert_eq!(menu_item(4), Some(MenuItem::DbOps));
    assert_eq!(menu_item(5), Some(MenuItem::Help));
    assert_eq!(menu_item(6), None);
    assert_eq!(menu_label(MenuItem::DbOps), "DB 操作");
    assert_eq!(menu_label(MenuItem::ExportData), "匯出資料");
    assert_eq!(next_menu_index(5), 0);
    assert_eq!(next_menu_index(2), 3);
    assert_eq!(
        menu_run_command(MenuItem::ImportSchema),
        Some((FlowMode::ImportSchema, "/run-import-schema"))
    );
    assert_eq!(menu_run_command(MenuItem::Help), None);
}

#[test]
fn history_moves_back_and_forward() {
    assert_eq!(history_up(0, None), None);
    assert_eq!(history_up(3, None), Some(2));
    assert_eq!(history_up(3, Some(2)), Some(1));
    assert_eq!(history_up(3, Some(0)), Some(0));
    assert_eq!(history_down(3, Some(1)), Some(Some(2)));
    assert_eq!(history_down(3, Some(2)), Some(None));
    assert_eq!(history_down(3, None), None);
    // back one entry and forward again returns to it
    let back = history_up(4, Some(2)).unwrap();
    assert_eq!(history_down(4, Some(back)), Some(Some(2)));
}

#[test]
fn history_skips_a_repeated_command() {
    let mut h: Vec<String> = Vec::new();
    push_history(&mut h, "/show");
    push_history(&mut h, "/show");
    push_history(&mut h, "/help");
    push_history(&mut h, "/show");
    assert_eq!(h, names(&["/show", "/help", "/show"]));
}

#[test]
fn list_steps_stop_at_the_ends() {
    assert_eq!(step_back(3, 10), 0);
    assert_eq!(step_back(12, 10), 2);
    assert_eq!(step_forward(3, 10, 5), 4);
    assert_eq!(step_forward(3, 1, 5), 4);
    assert_eq!(step_forward(7, 1, 0), 7);
    assert_eq!(step_back_past_key(1), 1);
    assert_eq!(step_back_past_key(3), 2);
    assert_eq!(grid_col_right(1, 4), 2);
    assert_eq!(grid_col_right(3, 4), 3);
    assert_eq!(grid_col_right(0, 1), 1);
    assert_eq!(first_value_column(3), 1);
    assert_eq!(first_value_column(1), 0);
    assert_eq!(form_window_start(2, 5), 0);
    assert_eq!(form_window_start(7, 5), 3);
    assert_eq!(form_window_start(4, 0), 4);
}

#[test]
fn typed_commands_are_read() {
    assert!(matches!(parse_tui_command("   "), TuiCommand::Empty));
    assert!(matches!(parse_tui_command(" /quit "), TuiCommand::Quit));
    assert!(matches!(parse_tui_command("/list-view"), TuiCommand::ListView));
    assert!(matches!(parse_tui_command("/run-export-data"), TuiCommand::RunExportData));
    match parse_tui_command("/set host  db.example  ") {
        TuiCommand::SetField { field, value } => {
            assert_eq!(field, "host");
            assert_eq!(value, "db.example");
        }
        _ => panic!("expected a field setting"),
    }
    match parse_tui_command("/set condition a = 1 and b = 2") {
        TuiCommand::SetField { field, value } => {
            assert_eq!(field, "condition");
            assert_eq!(value, "a = 1 and b = 2");
        }
        _ => panic!("expected a field setting"),
    }
    assert!(matches!(parse_tui_command("/set host"), TuiCommand::SetUsage));
    match parse_tui_command("/unset  order-by ") {
        TuiCommand::Unset { field } => assert_eq!(field, "order-by"),
        _ => panic!("expected an unset"),
    }
    match parse_tui_command("/run-export-schema") {
        TuiCommand::Unknown { cmd } => assert_eq!(cmd, "/run-export-schema"),
        _ => panic!("expected an unknown command"),
    }
}

#[test]
fn the_database_pane_uses_the_chosen_connection() {
    let mut cli = default_tui_cli();
    cli.host = "src".to_string();
    cli.user = "u".to_string();
    cli.password = "p".to_string();
    cli.db_name = "d".to_string();
    cli.import_host = "dst".to_string();
    cli.import_port = 3306;
    cli.import_db_name = "target".to_string();
    let exp = build_db_panel_cli(&cli, DbConnSource::Export);
    assert_eq!(exp.host, "src");
    assert_eq!(exp.port, 1433);
    let imp = build_db_panel_cli(&cli, DbConnSource::Import);
    assert_eq!(imp.host, "dst");
    assert_eq!(imp.port, 3306);
    assert_eq!(imp.db_name, "target");
    assert_eq!(imp.objects, cli.objects);
    assert!(can_auto_refresh(&exp));
    assert!(!can_auto_refresh(&imp));
    assert_eq!(
        missing_connection_message(DbConnSource::Import),
        "db panel (import) missing connection fields"
    );
}

#[test]
fn typing_ahead_prefers_a_prefix() {
    let n = names(&["Orders", "customer_orders", "Customers"]);
    assert_eq!(find_in_names(&n, "cus"), Some(1));
    assert_eq!(find_in_names(&n, "orders"), Some(0));
    assert_eq!(find_in_names(&n, "mers"), Some(2));
    assert_eq!(find_in_names(&n, "zzz"), None);
    assert_eq!(find_in_names(&n, ""), None);
}

#[test]
fn messages_fall_back_to_their_key() {
    assert_eq!(tr(Lang::En, "log_title"), "Logs");
    assert_eq!(tr(Lang::Tw, "cmd_title"), "指令");
    assert_eq!(tr(Lang::En, "no_such_key"), "no_such_key");
}

#[test]
fn a_form_line_shows_the_value_or_the_typed_text() {
    let plain = form_line_text(Lang::En, "host", "db1", "", false, false, None);
    assert_eq!(plain, format!("  {:<20} = db1", "host"));
    let opts = vec!["csv", "json"];
    let editing = form_line_text(Lang::En, "output-format", "csv", "js", true, true, Some(&opts));
    assert!(editing.starts_with("> output-format"));
    assert!(editing.contains(" = js  ["));
    assert!(editing.contains(":csv|json]"));
    assert!(editing.ends_with(">"));
}

#[test]
fn words_split_at_white_space() {
    assert_eq!(split_words("  a  bc\td \n"), names(&["a", "bc", "d"]));
    assert_eq!(split_words(""), Vec::<String>::new());
}

#[test]
fn disk_usage_is_read_from_df() {
    let bytes = "Filesystem 1B-blocks Used Available Use% Mounted\n/dev/sda1 10485760 2097152 8388608 20% /\n";
    let human = "Filesystem Size Used Avail Use% Mounted on\n/dev/sda1 10M 2.0M 8.0M 20% /\n";
    let d = parse_disk_usage(bytes, human).unwrap();
    assert_eq!(d.total_mb, 10);
    assert_eq!(d.used_mb, 2);
    assert_eq!(d.filesystem, "/dev/sda1");
    assert_eq!(d.size, "10M");
    assert_eq!(d.use_pct, "20%");
    assert_eq!(d.mounted_on, "/");
    assert!(parse_disk_usage("only one line", human).is_none());
    assert!(parse_disk_usage("h\n/dev x y z w v\n", human).is_none());
}

#[test]
fn a_new_text_key_is_generated_only_when_blank() {
    assert!(needs_generated_key("NVARCHAR", "  "));
    assert!(needs_generated_key("text", ""));
    assert!(!needs_generated_key("varchar", "k1"));
    assert!(!needs_generated_key("int", ""));
    assert_eq!(generated_key(0), "0".repeat(32));
    assert_eq!(generated_key(255), format!("{}ff", "0".repeat(30)));
    assert_eq!(generated_key(0x1234_abcd), format!("{:032x}", 0x1234_abcdu128));
    assert_eq!(generated_key(u128::MAX), "f".repeat(32));
}

#[test]
fn typing_ahead_builds_the_search_and_falls_back_to_the_letter() {
    let n = vec!["orders".to_string(), "customers".to_string(), "owners".to_string()];
    assert_eq!(type_ahead("", 'O', false, &n), ("o".to_string(), Some(0)));
    assert_eq!(type_ahead("o", 'w', false, &n), ("ow".to_string(), Some(2)));
    assert_eq!(type_ahead("ow", 'c', false, &n), ("c".to_string(), Some(1)));
    assert_eq!(type_ahead("ord", 'c', true, &n), ("c".to_string(), Some(1)));
    assert_eq!(type_ahead("ord", 'z', false, &n), ("ordz".to_string(), None));
}

#[test]
fn saving_the_row_form() {
    let s = |v: &[&str]| v.iter().map(|x| x.to_string()).collect::<Vec<String>>();
    let cols = s(&["id", "name", "qty"]);
    assert_eq!(insert_row_values(&cols, &s(&["7", "a", "1"]), &s(&["id"]), "int", 5), s(&["", "a", "1"]));
    assert_eq!(
        insert_row_values(&cols, &s(&[" ", "a", "1"]), &s(&[]), "varchar(32)", 255),
        vec![format!("{}ff", "0".repeat(30)), "a".to_string(), "1".to_string()]
    );
    assert_eq!(insert_row_values(&cols, &s(&["k", "a"]), &s(&[]), "varchar", 1), s(&["k", "a"]));
    let plan = row_update_plan(&cols, &s(&["1", "a", "2"]), &s(&["1", "b"])).unwrap();
    assert_eq!(plan.0, "id");
    assert_eq!(plan.1, "1");
    assert_eq!(plan.2, vec![("name".to_string(), "b".to_string()), ("qty".to_string(), String::new())]);
    assert!(row_update_plan(&cols, &s(&[]), &s(&["x"])).is_none());
}
