use sqlite_tui::app::{App, AppMode, Focus};
use sqlite_tui::protocol::{DBRequest, DBResponse, SortDir};
use sqlite_tui::window::{RowWindow, Step};

fn row(id: usize) -> Vec<String> {
    vec![id.to_string(), format!("name{}", id)]
}

/// The rows of a table whose identities are `1..=total`, as a fetch at `offset` returns them.
fn fetch(total: usize, offset: usize, page_size: usize) -> Vec<Vec<String>> {
    let end = (offset + page_size).min(total);
    (offset..end).map(|i| row(i + 1)).collect()
}

fn columns() -> Vec<String> {
    vec!["__rowid__".to_string(), "name".to_string()]
}

fn table_data(total: usize, offset: usize, page_size: usize) -> DBResponse {
    DBResponse::TableData {
        table: "t".to_string(),
        columns: columns(),
        rows: fetch(total, offset, page_size),
        page: offset / page_size,
        offset,
        total_rows: Some(total),
    }
}

/// An app showing table `t` of `total` rows from offset 0.
fn opened(total: usize, page_size: usize, visible: usize) -> App {
    let mut app = App::new(page_size);
    app.handle_db_response(DBResponse::Schema { tables: vec!["t".to_string()] });
    app.set_visible_rows(visible);
    app.load_selected_table_page(0);
    app.take_requests();
    app.handle_db_response(table_data(total, 0, page_size));
    app
}

/// Answer every queued page load from a table of `total` rows.
fn serve(app: &mut App, total: usize) -> usize {
    let reqs = app.take_requests();
    let n = reqs.len();
    for r in reqs {
        if let DBRequest::LoadTable { page_size, offset_override, .. } = r {
            let off = offset_override.unwrap();
            app.handle_db_response(table_data(total, off, page_size));
        }
    }
    n
}

fn selected_id(app: &App) -> String {
    app.window.rows[app.window.sel_row][0].clone()
}

#[test]
fn scroll_down_twenty_rows() {
    let mut app = opened(500, 50, 20);
    assert_eq!(app.window.rows.len(), 20);
    for _ in 0..19 {
        assert_eq!(app.move_cell_down(), Step::Local);
        assert!(app.take_requests().is_empty());
    }
    assert_eq!(app.window.sel_row, 19);
    assert_eq!(selected_id(&app), "20");
    app.move_cell_down();
    serve(&mut app, 500);
    assert_eq!(selected_id(&app), "21");
    assert_eq!(app.window.sel_row, 19);
    assert_eq!(app.window.global_row_offset, 1);
}

#[test]
fn single_steps_down_track_a_fresh_fetch() {
    let total = 120;
    let mut app = opened(total, 10, 4);
    let mut pos = 0usize;
    let mut fetches = 0;
    while pos + 1 < total {
        app.move_cell_down();
        fetches += serve(&mut app, total);
        pos += 1;
        let w = &app.window;
        assert_eq!(w.buffer_offset + w.view_start + w.sel_row, pos);
        assert_eq!(selected_id(&app), fetch(total, pos, 1)[0][0]);
    }
    assert!(fetches > 0);
}

#[test]
fn single_steps_up_within_buffer_track_a_fresh_fetch() {
    let total = 60;
    let mut app = opened(total, 10, 4);
    for _ in 0..25 {
        app.move_cell_down();
        serve(&mut app, total);
    }
    let mut pos = 25usize;
    for _ in 0..3 {
        assert_eq!(app.move_cell_up(), Step::Local);
        pos -= 1;
        assert_eq!(selected_id(&app), (pos + 1).to_string());
    }
}

#[test]
fn step_up_with_one_visible_row_fetches_the_previous_row() {
    let total = 30;
    let mut app = opened(total, 5, 1);
    for _ in 0..7 {
        app.move_cell_down();
        serve(&mut app, total);
    }
    assert_eq!(selected_id(&app), "8");
    for expect in (1..8).rev() {
        app.move_cell_up();
        serve(&mut app, total);
        assert_eq!(selected_id(&app), expect.to_string());
    }
}

#[test]
fn step_up_past_buffer_start_lands_on_target_row() {
    let total = 100;
    let mut app = opened(total, 10, 4);
    app.window.global_row_offset = 10;
    app.load_selected_table_page(1);
    serve(&mut app, total);
    assert_eq!(app.window.buffer_offset, 10);
    assert_eq!(selected_id(&app), "11");
    assert_eq!(app.move_cell_up(), Step::Fetch);
    serve(&mut app, total);
    assert_eq!(app.window.buffer_offset, 9);
    assert_eq!(app.window.sel_row, 0);
    assert_eq!(selected_id(&app), "10");
}

#[test]
fn single_steps_up_through_fetches_track_a_fresh_fetch() {
    let total = 60;
    let mut app = opened(total, 10, 4);
    app.window.global_row_offset = 40;
    app.load_selected_table_page(4);
    serve(&mut app, total);
    let mut pos = 40usize;
    let mut fetches = 0;
    while pos > 0 {
        app.move_cell_up();
        fetches += serve(&mut app, total);
        pos -= 1;
        let w = &app.window;
        assert_eq!(w.buffer_offset + w.view_start + w.sel_row, pos);
        assert_eq!(selected_id(&app), (pos + 1).to_string());
    }
    assert!(fetches > 0);
    assert_eq!(app.move_cell_up(), Step::Stay);
}

#[test]
fn window_fits_buffer_for_every_size() {
    for vis in 1..=6 {
        for len in 0..=8 {
            for global in 0..=10 {
                let mut w = RowWindow::new(8);
                w.set_visible_rows(vis);
                w.global_row_offset = global;
                let rows: Vec<Vec<String>> = (0..len).map(|i| row(i + 1)).collect();
                w.reconcile(rows, 0);
                assert!(w.view_start + w.rows.len() <= w.buffer_rows.len());
                assert_eq!(w.rows.len(), vis.min(len));
                if len > 0 {
                    assert!(w.sel_row < w.rows.len());
                }
            }
        }
    }
}

#[test]
fn buffer_smaller_than_viewport() {
    let mut app = opened(3, 50, 20);
    assert_eq!(app.window.rows.len(), 3);
    assert_eq!(app.window.view_start, 0);
    app.move_cell_down();
    app.move_cell_down();
    assert_eq!(app.window.sel_row, 2);
    assert_eq!(app.move_cell_down(), Step::Fetch);
}

#[test]
fn stale_response_is_reconciled_at_its_own_offset() {
    let mut app = opened(100, 10, 5);
    app.window.global_row_offset = 40;
    app.load_selected_table_page(4);
    app.window.global_row_offset = 60;
    app.load_selected_table_page(6);
    let reqs = app.take_requests();
    assert_eq!(reqs.len(), 2);
    app.handle_db_response(table_data(100, 40, 10));
    assert_eq!(app.window.buffer_offset, 40);
    assert_eq!(app.window.view_start, 5);
    assert_eq!(selected_id(&app), "46");
    app.handle_db_response(table_data(100, 60, 10));
    assert_eq!(app.window.buffer_offset, 60);
    assert_eq!(app.window.view_start, 0);
}

#[test]
fn oversized_response_is_cut_to_page_size() {
    let mut app = opened(100, 10, 5);
    app.handle_db_response(DBResponse::TableData {
        table: "t".to_string(),
        columns: columns(),
        rows: fetch(100, 0, 30),
        page: 0,
        offset: 0,
        total_rows: None,
    });
    assert_eq!(app.window.buffer_rows.len(), 10);
}

#[test]
fn filter_change_resets_to_first_page() {
    let mut app = opened(500, 50, 20);
    for _ in 0..30 {
        app.move_cell_down();
        serve(&mut app, 500);
    }
    assert!(app.window.global_row_offset > 0);
    app.set_filter_string(Some("abc".to_string()));
    assert_eq!(app.window.global_row_offset, 0);
    let reqs = app.take_requests();
    assert_eq!(reqs.len(), 1);
    match &reqs[0] {
        DBRequest::LoadTable { table, page, offset_override, filter, .. } => {
            assert_eq!(table, "t");
            assert_eq!(*page, 0);
            assert_eq!(*offset_override, Some(0));
            assert_eq!(filter.as_deref(), Some("abc"));
        }
        other => panic!("unexpected request {:?}", other),
    }
}

#[test]
fn sort_change_resets_to_first_page() {
    let mut app = opened(500, 50, 20);
    app.move_cell_right();
    app.window.global_row_offset = 120;
    app.sort_cycle_on_selection();
    assert_eq!(app.sort_by.as_deref(), Some("name"));
    assert_eq!(app.sort_dir, Some(SortDir::Asc));
    assert_eq!(app.window.global_row_offset, 0);
    app.sort_cycle_on_selection();
    assert_eq!(app.sort_dir, Some(SortDir::Desc));
    app.sort_cycle_on_selection();
    assert_eq!(app.sort_dir, None);
    assert_eq!(app.sort_by, None);
    app.sort_toggle_dir();
    assert_eq!(app.sort_dir, Some(SortDir::Asc));
    app.sort_toggle_dir();
    assert_eq!(app.sort_dir, Some(SortDir::Desc));
    let reqs = app.take_requests();
    assert_eq!(reqs.len(), 5);
    match &reqs[4] {
        DBRequest::LoadTable { sort_by, sort_dir, offset_override, .. } => {
            assert_eq!(sort_by.as_deref(), None);
            assert_eq!(*sort_dir, Some(SortDir::Desc));
            assert_eq!(*offset_override, Some(0));
        }
        other => panic!("unexpected request {:?}", other),
    }
}

#[test]
fn filter_input_round() {
    let mut app = opened(10, 5, 5);
    app.begin_filter_input();
    app.update_filter_input_char('a');
    app.update_filter_input_char('b');
    app.update_filter_input_char('x');
    app.backspace_filter_input();
    assert_eq!(app.filter_input.as_deref(), Some("ab"));
    app.apply_filter_input();
    assert_eq!(app.filter.as_deref(), Some("ab"));
    assert!(app.filter_input.is_none());
    app.begin_filter_input();
    app.apply_filter_input();
    assert!(app.filter.is_none());
    app.begin_filter_input();
    app.cancel_filter_input();
    assert!(app.filter_input.is_none());
    app.set_filter_string(Some("z".to_string()));
    app.clear_filter();
    assert!(app.filter.is_none());
}

#[test]
fn paging_moves_scroll_position() {
    let mut app = opened(500, 50, 20);
    app.next_page();
    assert_eq!(app.window.global_row_offset, 50);
    let reqs = app.take_requests();
    match &reqs[0] {
        DBRequest::LoadTable { page, offset_override, .. } => {
            assert_eq!(*page, 1);
            assert_eq!(*offset_override, Some(50));
        }
        other => panic!("unexpected request {:?}", other),
    }
    app.handle_db_response(table_data(500, 50, 50));
    assert_eq!(app.page, 1);
    app.prev_page();
    assert_eq!(app.window.global_row_offset, 0);
    app.handle_db_response(table_data(500, 0, 50));
    app.prev_page();
    assert!(app.take_requests().len() == 1);
}

#[test]
fn table_selection_wraps() {
    let mut app = App::new(10);
    app.move_table_selection_up();
    assert_eq!(app.selected_table, 0);
    app.handle_db_response(DBResponse::Schema {
        tables: vec!["a".to_string(), "b".to_string(), "c".to_string()],
    });
    assert_eq!(app.status, "Loaded 3 tables");
    app.move_table_selection_up();
    assert_eq!(app.selected_table, 2);
    app.move_table_selection_down();
    assert_eq!(app.selected_table, 0);
    app.move_table_selection_down();
    assert_eq!(app.current_table_name(), Some("b"));
    app.handle_db_response(DBResponse::Schema { tables: vec!["x".to_string()] });
    assert_eq!(app.selected_table, 0);
    assert_eq!(app.status, "Loaded 1 tables");
    let many: Vec<String> = (0..120).map(|i| format!("t{}", i)).collect();
    app.handle_db_response(DBResponse::Schema { tables: many });
    assert_eq!(app.status, "Loaded 120 tables");
}

#[test]
fn no_table_selected_queues_nothing() {
    let mut app = App::new(10);
    app.load_selected_table_page(0);
    app.reload_current_table();
    assert!(app.take_requests().is_empty());
    app.request_schema_refresh();
    assert!(matches!(app.take_requests()[0], DBRequest::LoadSchema));
    assert_eq!(app.status, "Loading schema...");
}

#[test]
fn focus_help_and_viewer_toggle() {
    let mut app = App::new(10);
    assert_eq!(app.focus, Focus::Tables);
    app.toggle_focus();
    assert_eq!(app.focus, Focus::Data);
    app.toggle_focus();
    assert_eq!(app.focus, Focus::Tables);
    app.toggle_help();
    assert!(app.show_help);
    app.toggle_cell_viewer();
    assert!(app.show_cell_viewer);
}

#[test]
fn page_arrival_sets_status_and_layout() {
    let mut app = opened(500, 50, 20);
    assert_eq!(app.status, "Viewing t — page 1 (50 rows/page), total ~500");
    assert_eq!(app.col_width_tiers, vec![1, 1]);
    assert_eq!(app.col_abs_widths, vec![0, 0]);
    assert_eq!(app.total_rows, Some(500));
}

#[test]
fn responses_set_status() {
    let mut app = opened(10, 5, 5);
    app.handle_db_response(DBResponse::CellUpdated { ok: true, message: Some("Undo applied".to_string()) });
    assert_eq!(app.status, "Loading table...");
    assert_eq!(app.take_requests().len(), 1);
    app.selected_table = 5;
    app.handle_db_response(DBResponse::CellUpdated { ok: true, message: Some("Undo applied".to_string()) });
    assert_eq!(app.status, "Undo: applied");
    app.handle_db_response(DBResponse::CellUpdated { ok: true, message: None });
    assert_eq!(app.status, "Cell updated");
    app.handle_db_response(DBResponse::CellUpdated { ok: false, message: Some("locked".to_string()) });
    assert_eq!(app.status, "Update failed: locked");
    app.handle_db_response(DBResponse::CellUpdated { ok: false, message: Some("Undo failed: locked".to_string()) });
    assert_eq!(app.status, "Undo failed: locked");
    app.handle_db_response(DBResponse::ExportedCSV { ok: true, path: "/tmp/x.csv".to_string(), message: None });
    assert_eq!(app.status, "Exported CSV to /tmp/x.csv");
    app.handle_db_response(DBResponse::ExportedCSV { ok: false, path: String::new(), message: Some("denied".to_string()) });
    assert_eq!(app.status, "Export failed: denied");
    app.handle_db_response(DBResponse::ExportedCSV { ok: false, path: String::new(), message: None });
    assert_eq!(app.status, "Export failed: unknown error");
    app.handle_db_response(DBResponse::Error("boom".to_string()));
    assert_eq!(app.status, "Error: boom");
}

#[test]
fn selected_column_is_clamped_on_arrival() {
    let mut app = opened(10, 5, 5);
    app.move_cell_right();
    app.move_cell_right();
    assert_eq!(app.sel_col, 1);
    app.handle_db_response(DBResponse::TableData {
        table: "t".to_string(),
        columns: vec!["__rowid__".to_string()],
        rows: vec![vec!["1".to_string()]],
        page: 0,
        offset: 0,
        total_rows: None,
    });
    assert_eq!(app.sel_col, 0);
    app.move_cell_left();
    assert_eq!(app.sel_col, 0);
}

#[test]
fn edit_null_on_row_seven() {
    let mut app = opened(10, 10, 10);
    for _ in 0..6 {
        app.move_cell_down();
    }
    app.move_cell_right();
    assert_eq!(selected_id(&app), "7");
    app.begin_edit_cell();
    assert!(matches!(app.mode, AppMode::Editing { row: 6, col: 1, cursor: 5 }));
    assert_eq!(app.edit_buffer, "name7");
    app.edit_mark_null();
    assert!(app.edit_is_null);
    app.submit_cell_edit();
    assert!(matches!(app.mode, AppMode::Normal));
    assert_eq!(app.status, "Updating cell...");
    let reqs = app.take_requests();
    match &reqs[0] {
        DBRequest::UpdateCell { table, rowid, column, new_value } => {
            assert_eq!(table, "t");
            assert_eq!(*rowid, 7);
            assert_eq!(column, "name");
            assert_eq!(*new_value, None);
        }
        other => panic!("unexpected request {:?}", other),
    }
}

#[test]
fn edit_keeps_captured_identity_after_reload() {
    let mut app = opened(10, 10, 10);
    app.move_cell_down();
    app.move_cell_right();
    app.begin_edit_cell();
    app.handle_db_response(table_data(10, 5, 10));
    app.edit_input_insert('!');
    app.submit_cell_edit();
    match &app.take_requests()[0] {
        DBRequest::UpdateCell { rowid, new_value, .. } => {
            assert_eq!(*rowid, 2);
            assert_eq!(new_value.as_deref(), Some("name2!"));
        }
        other => panic!("unexpected request {:?}", other),
    }
}

#[test]
fn edit_refusals() {
    let mut app = opened(10, 10, 10);
    app.begin_edit_cell();
    assert_eq!(app.status, "Editing __rowid__ is not supported");
    assert!(matches!(app.mode, AppMode::Normal));
    app.window.rows[0][0] = "x".to_string();
    app.move_cell_right();
    app.begin_edit_cell();
    assert_eq!(app.status, "Invalid rowid; cannot edit this row");
    let mut empty = App::new(10);
    empty.begin_edit_cell();
    assert!(matches!(empty.mode, AppMode::Normal));
    assert_eq!(empty.status, "Nothing to edit (no data)");
}

#[test]
fn edit_on_table_without_identity_column_is_refused() {
    let mut app = opened(10, 10, 10);
    app.move_cell_right();
    app.begin_edit_cell();
    app.columns[0] = "id".to_string();
    app.submit_cell_edit();
    assert_eq!(app.status, "Editing currently requires rowid-backed tables");
    assert!(app.take_requests().is_empty());
}

#[test]
fn reentering_edit_keeps_buffer_and_caret() {
    let mut app = opened(10, 10, 10);
    app.move_cell_right();
    app.begin_edit_cell();
    app.edit_input_home();
    app.edit_input_insert('X');
    app.begin_edit_cell();
    assert_eq!(app.edit_buffer, "Xname1");
    assert!(matches!(app.mode, AppMode::Editing { cursor: 1, .. }));
}

#[test]
fn caret_motions() {
    let mut app = opened(10, 10, 10);
    app.move_cell_right();
    app.begin_edit_cell();
    assert_eq!(app.edit_buffer, "name1");
    app.edit_input_backspace();
    assert_eq!(app.edit_buffer, "name");
    app.edit_input_left();
    app.edit_input_left();
    app.edit_input_delete();
    assert_eq!(app.edit_buffer, "nae");
    app.edit_input_insert('é');
    assert_eq!(app.edit_buffer, "naée");
    app.edit_input_right();
    app.edit_input_right();
    assert!(matches!(app.mode, AppMode::Editing { cursor: 4, .. }));
    app.edit_input_delete();
    assert_eq!(app.edit_buffer, "naée");
    app.edit_input_home();
    app.edit_input_backspace();
    assert_eq!(app.edit_buffer, "naée");
    app.edit_input_end();
    assert!(matches!(app.mode, AppMode::Editing { cursor: 4, .. }));
    app.cancel_edit_cell();
    assert!(matches!(app.mode, AppMode::Normal));
    assert_eq!(app.edit_rowid, None);
    assert_eq!(app.status, "Edit cancelled");
}

#[test]
fn copying_cells_rows_and_pages() {
    let mut empty = App::new(10);
    assert_eq!(empty.copy_current_cell_tsv(), None);
    assert_eq!(empty.status, "Nothing to copy (no data)");
    assert_eq!(empty.copy_current_row_tsv(), None);
    assert_eq!(empty.copy_current_page_tsv(), None);
    assert_eq!(empty.current_cell_text(), None);
    let mut app = opened(3, 10, 2);
    app.move_cell_down();
    app.move_cell_right();
    assert_eq!(app.copy_current_cell_tsv().as_deref(), Some("name2"));
    assert_eq!(app.copy_current_row_tsv().as_deref(), Some("2\tname2"));
    assert_eq!(
        app.copy_current_page_tsv().as_deref(),
        Some("__rowid__\tname\n1\tname1\n2\tname2\n")
    );
    assert_eq!(app.current_cell_text(), Some("name2"));
}

#[test]
fn column_width_tiers_are_bounded() {
    let mut app = opened(3, 10, 2);
    app.resize_current_column_wider();
    app.resize_current_column_wider();
    app.resize_current_column_wider();
    assert_eq!(app.column_width_tiers(), &[2u8, 1][..]);
    for _ in 0..4 {
        app.resize_current_column_narrower();
    }
    assert_eq!(app.column_width_tiers(), &[0u8, 1][..]);
    app.col_width_tiers.clear();
    app.move_cell_right();
    app.resize_current_column_wider();
    assert_eq!(app.column_width_tiers(), &[1u8, 2][..]);
}

#[test]
fn autosize_requests() {
    let mut app = opened(3, 10, 2);
    app.move_cell_right();
    app.request_autosize_current_column();
    assert_eq!(app.autosize_col_request, Some(1));
    app.request_autosize_all_columns();
    assert!(app.autosize_all_request);
    assert_eq!(app.autosize_col_request, None);
    let mut empty = App::new(10);
    empty.request_autosize_current_column();
    assert_eq!(empty.autosize_col_request, None);
}

#[test]
fn visible_rows_are_clamped() {
    let mut app = opened(30, 10, 4);
    app.set_visible_rows(0);
    assert_eq!(app.window.visible_rows_per_page, 1);
    assert_eq!(app.window.rows.len(), 1);
    app.set_visible_rows(99);
    assert_eq!(app.window.visible_rows_per_page, 10);
    assert_eq!(app.window.rows.len(), 10);
}

#[test]
fn growing_viewport_keeps_single_steps_in_step() {
    let total = 200;
    let mut app = opened(total, 50, 10);
    for _ in 0..49 {
        app.move_cell_down();
        serve(&mut app, total);
    }
    assert_eq!(app.window.view_start, 40);
    assert_eq!(app.window.global_row_offset, 40);
    assert_eq!(selected_id(&app), "50");
    app.set_visible_rows(20);
    assert_eq!(app.window.view_start, 30);
    assert_eq!(app.window.global_row_offset, 30);
    assert_eq!(app.window.sel_row, 9);
    let mut pos = 39usize;
    for _ in 0..15 {
        app.move_cell_down();
        serve(&mut app, total);
        pos += 1;
        let w = &app.window;
        assert_eq!(w.buffer_offset + w.view_start + w.sel_row, pos);
        assert_eq!(selected_id(&app), (pos + 1).to_string());
    }
}

#[test]
fn autosize_requests_are_served() {
    let mut app = opened(3, 10, 3);
    app.move_cell_right();
    app.request_autosize_current_column();
    app.fulfil_autosize();
    assert_eq!(app.col_abs_widths, vec![0, 7]);
    assert_eq!(app.autosize_col_request, None);
    app.request_autosize_all_columns();
    app.fulfil_autosize();
    assert_eq!(app.col_abs_widths, vec![11, 7]);
    assert!(!app.autosize_all_request);
    app.col_abs_widths.clear();
    app.fulfil_autosize();
    assert_eq!(app.col_abs_widths, vec![0, 0]);
}
