use sqlite_tui::app::{App, AppMode, Focus};
use sqlite_tui::keys::{handle_key, Clip, Key, Prompts};
use sqlite_tui::protocol::{DBRequest, DBResponse};

fn loaded() -> App {
    let mut app = App::new(10);
    app.handle_db_response(DBResponse::Schema { tables: vec!["t".to_string()] });
    app.handle_db_response(DBResponse::TableData {
        table: "t".to_string(),
        columns: vec!["__rowid__".to_string(), "name".to_string()],
        rows: (1..=5).map(|i: usize| vec![i.to_string(), format!("n{}", i)]).collect(),
        page: 0,
        offset: 0,
        total_rows: Some(5),
    });
    app.take_requests();
    app
}

fn press(app: &mut App, p: &mut Prompts, keys: &[Key]) {
    for k in keys {
        handle_key(app, p, *k, false);
    }
}

#[test]
fn quit_key() {
    let mut app = loaded();
    let mut p = Prompts::new();
    press(&mut app, &mut p, &[Key::Char('q')]);
    assert!(app.should_quit);
}

#[test]
fn filter_prompt_applies_typed_text() {
    let mut app = loaded();
    let mut p = Prompts::new();
    press(&mut app, &mut p, &[Key::Char('/'), Key::Char('a'), Key::Char('b'), Key::Backspace]);
    assert!(p.filter_mode);
    assert_eq!(app.status, "Filter: a_");
    press(&mut app, &mut p, &[Key::Enter]);
    assert!(!p.filter_mode);
    assert_eq!(app.filter.as_deref(), Some("a"));
    assert_eq!(app.status, "Filter applied: a");
    press(&mut app, &mut p, &[Key::Esc]);
    assert!(app.filter.is_none());
    assert_eq!(app.status, "Filter cleared");
}

#[test]
fn export_prompt_queues_export() {
    let mut app = loaded();
    let mut p = Prompts::new();
    app.filter = Some("abc".to_string());
    press(&mut app, &mut p, &[Key::Char('E'), Key::Char('o'), Key::Char('.'), Key::Char('c')]);
    assert_eq!(p.export_path, "o.c");
    press(&mut app, &mut p, &[Key::Enter]);
    assert!(!p.export_mode);
    assert_eq!(app.status, "Exporting CSV to o.c...");
    match &app.take_requests()[0] {
        DBRequest::ExportCSV { table, path, filter, .. } => {
            assert_eq!(table, "t");
            assert_eq!(path, "o.c");
            assert_eq!(filter.as_deref(), Some("abc"));
        }
        other => panic!("unexpected request {:?}", other),
    }
    press(&mut app, &mut p, &[Key::Char('E'), Key::Enter]);
    assert_eq!(app.status, "Export cancelled");
    press(&mut app, &mut p, &[Key::Char('E'), Key::Char('x'), Key::Esc]);
    assert!(app.take_requests().is_empty());
}

#[test]
fn undo_key_queues_undo() {
    let mut app = loaded();
    let mut p = Prompts::new();
    press(&mut app, &mut p, &[Key::Char('u')]);
    assert!(matches!(&app.take_requests()[0], DBRequest::UndoLastChange { table } if table == "t"));
    let mut empty = App::new(10);
    press(&mut empty, &mut p, &[Key::Char('u')]);
    assert_eq!(empty.status, "No table selected to undo");
}

#[test]
fn copy_keys_hand_back_text() {
    let mut app = loaded();
    let mut p = Prompts::new();
    let cell = handle_key(&mut app, &mut p, Key::Char('c'), false);
    assert_eq!(cell, Some((Clip::Cell, "1".to_string())));
    let row = handle_key(&mut app, &mut p, Key::Char('C'), false);
    assert_eq!(row, Some((Clip::Row, "1\tn1".to_string())));
    let page = handle_key(&mut app, &mut p, Key::Char('c'), true);
    assert!(matches!(page, Some((Clip::Page, _))));
}

#[test]
fn arrows_follow_focus() {
    let mut app = loaded();
    let mut p = Prompts::new();
    press(&mut app, &mut p, &[Key::Down]);
    assert_eq!(app.window.sel_row, 0);
    press(&mut app, &mut p, &[Key::Tab, Key::Down, Key::Char('j'), Key::Char('k')]);
    assert_eq!(app.focus, Focus::Data);
    assert_eq!(app.window.sel_row, 1);
}

#[test]
fn editing_keys_reach_the_edit_session() {
    let mut app = loaded();
    let mut p = Prompts::new();
    press(&mut app, &mut p, &[Key::Right, Key::Char('e'), Key::Home, Key::Char('x')]);
    assert_eq!(app.edit_buffer, "xn1");
    handle_key(&mut app, &mut p, Key::Char('d'), true);
    assert!(app.edit_is_null);
    handle_key(&mut app, &mut p, Key::Char('z'), true);
    assert_eq!(app.edit_buffer, "xn1");
    press(&mut app, &mut p, &[Key::Enter]);
    assert!(matches!(app.mode, AppMode::Normal));
    match &app.take_requests()[0] {
        DBRequest::UpdateCell { rowid, new_value, .. } => {
            assert_eq!(*rowid, 1);
            assert_eq!(*new_value, None);
        }
        other => panic!("unexpected request {:?}", other),
    }
}

#[test]
fn width_and_view_keys() {
    let mut app = loaded();
    let mut p = Prompts::new();
    press(&mut app, &mut p, &[Key::Char('+'), Key::Char('a'), Key::Char('v'), Key::Char('?')]);
    assert_eq!(app.col_width_tiers, vec![2, 1]);
    assert_eq!(app.autosize_col_request, Some(0));
    assert!(app.show_cell_viewer);
    assert!(app.show_help);
    press(&mut app, &mut p, &[Key::Char('A'), Key::Char('-'), Key::Char('_')]);
    assert!(app.autosize_all_request);
    assert_eq!(app.col_width_tiers, vec![0, 1]);
}

#[test]
fn export_enter_statuses() {
    let mut empty = App::new(10);
    let mut p = Prompts::new();
    press(&mut empty, &mut p, &[Key::Char('E'), Key::Char('x'), Key::Enter]);
    assert_eq!(empty.status, "No table selected for export");
    assert!(empty.take_requests().is_empty());
    assert!(!p.export_mode);
}

#[test]
fn sort_key_cycles_back_to_unsorted() {
    let mut app = loaded();
    let mut p = Prompts::new();
    press(&mut app, &mut p, &[Key::Char('s'), Key::Char('s'), Key::Char('s')]);
    assert_eq!(app.sort_by, None);
    assert_eq!(app.sort_dir, None);
    assert_eq!(app.status, "Sort: cycled on selected column");
}
