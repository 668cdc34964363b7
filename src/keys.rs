use vstd::prelude::*;

use crate::app::{copy_opt, App, AppMode, Focus};
use crate::window::Step;
use crate::protocol::DBRequest;
use crate::query::opt_view;
use crate::text::{owned, pop_char, push_char, push_str};

verus! {

/// A key as the input loop sees it.
#[derive(PartialEq, Eq, Structural, Clone, Copy, Debug)]
pub enum Key {
    Char(char),
    Enter,
    Esc,
    Backspace,
    Delete,
    Left,
    Right,
    Up,
    Down,
    Home,
    End,
    Tab,
    PageUp,
    PageDown,
    Other,
}

/// What a copy key asks to put on the clipboard.
#[derive(PartialEq, Eq, Structural, Clone, Copy, Debug)]
pub enum Clip {
    Cell,
    Row,
    Page,
}

/// The one-line prompts that take keys before the table does.
pub struct Prompts {
    pub filter_mode: bool,
    pub export_mode: bool,
    pub export_path: String,
}

/// Whether `r` is an export request with these fields.
pub open spec fn export_request_is(r: DBRequest, table: Seq<char>, path: Seq<char>, app: App) -> bool {
    match r {
        DBRequest::ExportCSV { table: t, path: p, filter: f, sort_by: s, sort_dir: d } => {
            &&& t@ == table
            &&& p@ == path
            &&& opt_view(f) == opt_view(app.filter)
            &&& opt_view(s) == opt_view(app.sort_by)
            &&& d == app.sort_dir
        },
        _ => false,
    }
}

/// Whether `r` asks to undo the last change of `table`.
pub open spec fn undo_request_is(r: DBRequest, table: Seq<char>) -> bool {
    match r {
        DBRequest::UndoLastChange { table: t } => t@ == table,
        _ => false,
    }
}

/// `old`'s queue with `r` appended.
pub open spec fn pushed(old: Seq<DBRequest>, new: Seq<DBRequest>) -> bool {
    new.len() == old.len() + 1 && new.drop_last() == old
}

/// `post` is `mid` with only its status replaced, by `text`.
pub open spec fn then_status(mid: App, post: App, text: Seq<char>) -> bool {
    post == App { status: post.status, ..mid } && post.status@ == text
}

/// Only the status differs between `pre` and `post`.
pub open spec fn only_status(pre: App, post: App) -> bool {
    post == App { status: post.status, ..pre }
}

/// A copy result tagged with what was copied.
pub open spec fn clip_of(c: Clip, t: Option<String>) -> Option<(Clip, String)> {
    match t {
        Some(s) => Some((c, s)),
        None => None,
    }
}

/// The status line while a filter is typed.
pub open spec fn filter_prompt_text(input: Option<String>) -> Seq<char> {
    "Filter: "@ + match input {
        Some(b) => b@,
        None => Seq::empty(),
    } + "_"@
}

/// The status line while an export path is typed.
pub open spec fn export_prompt_text(path: Seq<char>) -> Seq<char> {
    "Export CSV: "@ + path + "_"@
}

impl Prompts {
    /// No prompt is open.
    pub fn new() -> (r: Prompts)
        ensures
            !r.filter_mode,
            !r.export_mode,
            r.export_path@.len() == 0,
    {
        Prompts { filter_mode: false, export_mode: false, export_path: String::new() }
    }
}

/// What a key does in the export path prompt.
pub open spec fn export_key_effect(pre: App, pp: Prompts, post: App, qp: Prompts, key: Key, ctrl: bool) -> bool {
    match key {
        Key::Enter => {
            &&& !qp.export_mode
            &&& qp.export_path@.len() == 0
            &&& qp.filter_mode == pp.filter_mode
            &&& if pp.export_path@.len() == 0 {
                only_status(pre, post) && post.status@ == "Export cancelled"@
            } else {
                match pre.table_name() {
                    Some(t) => {
                        &&& post == App { outbox: post.outbox, status: post.status, ..pre }
                        &&& pushed(pre.outbox@, post.outbox@)
                        &&& export_request_is(post.outbox@.last(), t, pp.export_path@, pre)
                        &&& post.status@ == "Exporting CSV to "@ + pp.export_path@ + "..."@
                    },
                    None => only_status(pre, post) && post.status@ == "No table selected for export"@,
                }
            }
        },
        Key::Esc => {
            &&& !qp.export_mode
            &&& qp.export_path@.len() == 0
            &&& qp.filter_mode == pp.filter_mode
            &&& only_status(pre, post)
            &&& post.status@ == "Export cancelled"@
        },
        Key::Backspace => {
            &&& qp.export_mode == pp.export_mode
            &&& qp.filter_mode == pp.filter_mode
            &&& qp.export_path@ == if pp.export_path@.len() > 0 {
                pp.export_path@.drop_last()
            } else {
                pp.export_path@
            }
            &&& only_status(pre, post)
            &&& post.status@ == export_prompt_text(qp.export_path@)
        },
        Key::Char(c) => if ctrl {
            post == pre && qp == pp
        } else {
            &&& qp.export_mode == pp.export_mode
            &&& qp.filter_mode == pp.filter_mode
            &&& qp.export_path@ == pp.export_path@.push(c)
            &&& only_status(pre, post)
            &&& post.status@ == export_prompt_text(qp.export_path@)
        },
        _ => post == pre && qp == pp,
    }
}

/// A key typed into the export path prompt: Enter queues the export of the selected
/// table under the current filter and sort, Esc cancels, and the rest edit the path.
pub fn handle_key_export(app: &mut App, prompts: &mut Prompts, key: Key, ctrl: bool)
    requires
        old(app).wf(),
    ensures
        final(app).wf(),
        export_key_effect(*old(app), *old(prompts), *final(app), *final(prompts), key, ctrl),
{
    match key {
        Key::Enter => {
            if prompts.export_path.unicode_len() == 0 {
                app.status = owned("Export cancelled");
            } else if app.selected_table < app.tables.len() {
                let table = app.tables[app.selected_table].clone();
                let req = DBRequest::ExportCSV {
                    table,
                    path: prompts.export_path.clone(),
                    filter: copy_opt(&app.filter),
                    sort_by: copy_opt(&app.sort_by),
                    sort_dir: app.sort_dir,
                };
                let ghost before = app.outbox@;
                app.outbox.push(req);
                assert(app.outbox@.drop_last() =~= before);
                let mut st = owned("Exporting CSV to ");
                push_str(&mut st, prompts.export_path.as_str());
                push_str(&mut st, "...");
                app.status = st;
            } else {
                app.status = owned("No table selected for export");
            }
            prompts.export_mode = false;
            prompts.export_path = String::new();
        },
        Key::Esc => {
            prompts.export_mode = false;
            prompts.export_path = String::new();
            app.status = owned("Export cancelled");
        },
        Key::Backspace => {
            pop_char(&mut prompts.export_path);
            app.status = export_status(&prompts.export_path);
        },
        Key::Char(c) => {
            if !ctrl {
                push_char(&mut prompts.export_path, c);
                app.status = export_status(&prompts.export_path);
            }
        },
        _ => {},
    }
}

fn export_status(path: &String) -> (r: String)
    ensures
        r@ == export_prompt_text(path@),
{
    let mut st = owned("Export CSV: ");
    push_str(&mut st, path.as_str());
    push_str(&mut st, "_");
    st
}

/// What a key does in the filter prompt.
pub open spec fn filter_key_effect(pre: App, pp: Prompts, post: App, qp: Prompts, key: Key, ctrl: bool) -> bool {
    match key {
        Key::Enter => {
            &&& qp == Prompts { filter_mode: false, ..pp }
            &&& exists|mid: App|
                App::filter_input_applied(pre, mid) && then_status(
                    mid,
                    post,
                    match mid.filter {
                        Some(s) => "Filter applied: "@ + s@,
                        None => "Filter cleared"@,
                    },
                )
        },
        Key::Esc => {
            &&& qp == Prompts { filter_mode: false, ..pp }
            &&& exists|m1: App, m2: App|
                App::filter_input_cancelled(pre, m1) && App::filter_cleared(m1, m2) && then_status(
                    m2,
                    post,
                    "Filter cleared"@,
                )
        },
        Key::Backspace => {
            &&& qp == pp
            &&& exists|mid: App|
                App::filter_input_erased(pre, mid) && then_status(
                    mid,
                    post,
                    filter_prompt_text(mid.filter_input),
                )
        },
        Key::Char(c) => if ctrl {
            post == pre && qp == pp
        } else {
            &&& qp == pp
            &&& exists|mid: App|
                App::filter_input_typed(pre, mid, c) && then_status(
                    mid,
                    post,
                    filter_prompt_text(mid.filter_input),
                )
        },
        _ => post == pre && qp == pp,
    }
}

/// A key typed into the filter prompt: Enter applies the typed filter, Esc clears
/// it, and the rest edit the typed text.
pub fn handle_key_filter(app: &mut App, prompts: &mut Prompts, key: Key, ctrl: bool)
    requires
        old(app).wf(),
    ensures
        final(app).wf(),
        filter_key_effect(*old(app), *old(prompts), *final(app), *final(prompts), key, ctrl),
{
    let ghost pre = *app;
    match key {
        Key::Enter => {
            app.apply_filter_input();
            let ghost mid = *app;
            prompts.filter_mode = false;
            app.status = match &app.filter {
                Some(s) => {
                    let mut st = owned("Filter applied: ");
                    push_str(&mut st, s.as_str());
                    st
                },
                None => owned("Filter cleared"),
            };
            assert(App::filter_input_applied(pre, mid));
        },
        Key::Esc => {
            app.cancel_filter_input();
            let ghost m1 = *app;
            app.clear_filter();
            let ghost m2 = *app;
            prompts.filter_mode = false;
            app.status = owned("Filter cleared");
            assert(App::filter_input_cancelled(pre, m1) && App::filter_cleared(m1, m2));
        },
        Key::Backspace => {
            app.backspace_filter_input();
            let ghost mid = *app;
            app.status = filter_status(&app.filter_input);
            assert(App::filter_input_erased(pre, mid));
        },
        Key::Char(c) => {
            if !ctrl {
                app.update_filter_input_char(c);
                let ghost mid = *app;
                app.status = filter_status(&app.filter_input);
                assert(App::filter_input_typed(pre, mid, c));
            }
        },
        _ => {},
    }
}

/// The status line while a filter is typed.
fn filter_status(input: &Option<String>) -> (r: String)
    ensures
        r@ == filter_prompt_text(*input),
{
    let mut st = owned("Filter: ");
    match input {
        Some(b) => push_str(&mut st, b.as_str()),
        None => {},
    }
    push_str(&mut st, "_");
    st
}

/// What a key does to the table while no prompt is open and no cell is edited;
/// `r` is the text a copy key hands back.
pub open spec fn normal_key_effect(
    pre: App,
    pp: Prompts,
    post: App,
    qp: Prompts,
    key: Key,
    ctrl: bool,
    r: Option<(Clip, String)>,
) -> bool {
    if key == Key::Char('c') && ctrl {
        qp == pp && exists|t: Option<String>| App::page_copied(pre, post, t) && r == clip_of(Clip::Page, t)
    } else if key == Key::Char('c') {
        qp == pp && exists|t: Option<String>| App::cell_copied(pre, post, t) && r == clip_of(Clip::Cell, t)
    } else if key == Key::Char('C') {
        qp == pp && exists|t: Option<String>| App::row_copied(pre, post, t) && r == clip_of(Clip::Row, t)
    } else {
        &&& r is None
        &&& if key == Key::Char('/') {
            &&& qp == Prompts { filter_mode: true, ..pp }
            &&& exists|mid: App|
                App::filter_input_begun(pre, mid) && then_status(
                    mid,
                    post,
                    "Filter: type and Enter to apply (Esc to clear)"@,
                )
        } else if key == Key::Char('E') {
            &&& qp.export_mode
            &&& qp.export_path@.len() == 0
            &&& qp.filter_mode == pp.filter_mode
            &&& only_status(pre, post)
            &&& post.status@ == "Export CSV path: type and Enter to save (Esc to cancel)"@
        } else {
            &&& qp == pp
            &&& if key == Key::Char('?') {
                exists|mid: App|
                    App::help_toggled(pre, mid) && then_status(
                        mid,
                        post,
                        if mid.show_help {
                            "Showing keybinds (press ? to close)"@
                        } else {
                            "Closed keybinds"@
                        },
                    )
            } else if key == Key::Char('s') {
                exists|mid: App|
                    App::sort_cycled(pre, mid) && then_status(mid, post, "Sort: cycled on selected column"@)
            } else if key == Key::Char('S') {
                exists|mid: App|
                    App::sort_dir_toggled(pre, mid) && then_status(mid, post, "Sort: direction toggled"@)
            } else if key == Key::Esc {
                if pre.filter is Some || pre.filter_input is Some {
                    exists|m1: App, m2: App|
                        App::filter_input_cancelled(pre, m1) && App::filter_cleared(m1, m2) && then_status(
                            m2,
                            post,
                            "Filter cleared"@,
                        )
                } else {
                    post == pre
                }
            } else if key == Key::Char('q') {
                post == App { should_quit: true, ..pre }
            } else if key == Key::Up {
                if pre.focus == Focus::Tables {
                    App::table_selection_raised(pre, post)
                } else {
                    exists|step: Step| App::stepped_up(pre, post, step)
                }
            } else if key == Key::Down {
                if pre.focus == Focus::Tables {
                    App::table_selection_lowered(pre, post)
                } else {
                    exists|step: Step| App::stepped_down(pre, post, step)
                }
            } else if key == Key::Tab {
                App::focus_toggled(pre, post)
            } else if key == Key::Enter {
                App::loaded(pre, post, 0)
            } else if key == Key::PageDown {
                App::paged_forward(pre, post)
            } else if key == Key::PageUp {
                App::paged_back(pre, post)
            } else if key == Key::Left {
                App::moved_left(pre, post)
            } else if key == Key::Right {
                App::moved_right(pre, post)
            } else if key == Key::Char('j') {
                exists|step: Step| App::stepped_down(pre, post, step)
            } else if key == Key::Char('k') {
                exists|step: Step| App::stepped_up(pre, post, step)
            } else if key == Key::Char('e') {
                App::edit_begun(pre, post)
            } else if key == Key::Char('r') {
                App::loaded(pre, post, pre.page)
            } else if key == Key::Char('u') {
                match pre.table_name() {
                    Some(t) => {
                        &&& post == App { outbox: post.outbox, status: post.status, ..pre }
                        &&& pushed(pre.outbox@, post.outbox@)
                        &&& undo_request_is(post.outbox@.last(), t)
                        &&& post.status@ == "Undoing last change..."@
                    },
                    None => only_status(pre, post) && post.status@ == "No table selected to undo"@,
                }
            } else if key == Key::Char('+') || key == Key::Char('=') {
                exists|mid: App| App::column_widened(pre, mid) && then_status(mid, post, "Column width: wider"@)
            } else if key == Key::Char('-') || key == Key::Char('_') {
                exists|mid: App|
                    App::column_narrowed(pre, mid) && then_status(mid, post, "Column width: narrower"@)
            } else if key == Key::Char('a') {
                exists|mid: App|
                    App::autosize_one_requested(pre, mid) && then_status(
                        mid,
                        post,
                        "Autosizing current column…"@,
                    )
            } else if key == Key::Char('A') {
                exists|mid: App|
                    App::autosize_all_requested(pre, mid) && then_status(
                        mid,
                        post,
                        "Autosizing all columns…"@,
                    )
            } else if key == Key::Char('v') {
                exists|mid: App|
                    App::viewer_toggled(pre, mid) && then_status(
                        mid,
                        post,
                        if mid.show_cell_viewer {
                            "Cell viewer: ON"@
                        } else {
                            "Cell viewer: OFF"@
                        },
                    )
            } else {
                post == pre
            }
        }
    }
}

/// A key while no prompt is open and no cell is edited. Copy keys hand back the
/// text for the clipboard.
pub fn handle_key_normal(app: &mut App, prompts: &mut Prompts, key: Key, ctrl: bool) -> (r: Option<(Clip, String)>)
    requires
        old(app).wf(),
    ensures
        final(app).wf(),
        normal_key_effect(*old(app), *old(prompts), *final(app), *final(prompts), key, ctrl, r),
{
    let ghost pre = *app;
    if key == Key::Char('c') && ctrl {
        let t = app.copy_current_page_tsv();
        let ghost tv = t;
        assert(App::page_copied(pre, *app, tv));
        let r = match t {
            Some(t) => Some((Clip::Page, t)),
            None => None,
        };
        assert(r == clip_of(Clip::Page, tv));
        assert(*prompts == *old(prompts));
        return r;
    }
    match key {
        Key::Char('/') => {
            prompts.filter_mode = true;
            app.begin_filter_input();
            let ghost mid = *app;
            app.status = owned("Filter: type and Enter to apply (Esc to clear)");
            assert(App::filter_input_begun(pre, mid));
        },
        Key::Char('?') => {
            app.toggle_help();
            let ghost mid = *app;
            app.status = if app.show_help {
                owned("Showing keybinds (press ? to close)")
            } else {
                owned("Closed keybinds")
            };
            assert(App::help_toggled(pre, mid));
        },
        Key::Char('s') => {
            app.sort_cycle_on_selection();
            let ghost mid = *app;
            app.status = owned("Sort: cycled on selected column");
            assert(App::sort_cycled(pre, mid));
        },
        Key::Char('S') => {
            app.sort_toggle_dir();
            let ghost mid = *app;
            app.status = owned("Sort: direction toggled");
            assert(App::sort_dir_toggled(pre, mid));
        },
        Key::Char('E') => {
            prompts.export_mode = true;
            prompts.export_path = String::new();
            app.status = owned("Export CSV path: type and Enter to save (Esc to cancel)");
        },
        Key::Esc => {
            if app.filter.is_some() || app.filter_input.is_some() {
                app.cancel_filter_input();
                let ghost m1 = *app;
                app.clear_filter();
                let ghost m2 = *app;
                app.status = owned("Filter cleared");
                assert(App::filter_input_cancelled(pre, m1) && App::filter_cleared(m1, m2));
            }
        },
        Key::Char('q') => {
            app.should_quit = true;
        },
        Key::Up => {
            if app.focus == Focus::Tables {
                app.move_table_selection_up();
            } else {
                let step = app.move_cell_up();
                assert(App::stepped_up(pre, *app, step));
            }
        },
        Key::Down => {
            if app.focus == Focus::Tables {
                app.move_table_selection_down();
            } else {
                let step = app.move_cell_down();
                assert(App::stepped_down(pre, *app, step));
            }
        },
        Key::Tab => app.toggle_focus(),
        Key::Enter => app.load_selected_table_page(0),
        Key::PageDown => app.next_page(),
        Key::PageUp => app.prev_page(),
        Key::Left => app.move_cell_left(),
        Key::Right => app.move_cell_right(),
        Key::Char('j') => {
            let step = app.move_cell_down();
            assert(App::stepped_down(pre, *app, step));
        },
        Key::Char('k') => {
            let step = app.move_cell_up();
            assert(App::stepped_up(pre, *app, step));
        },
        Key::Char('e') => app.begin_edit_cell(),
        Key::Char('r') => app.reload_current_table(),
        Key::Char('c') => {
            let t = app.copy_current_cell_tsv();
            let ghost tv = t;
            assert(App::cell_copied(pre, *app, tv));
            let r = match t {
                Some(t) => Some((Clip::Cell, t)),
                None => None,
            };
            assert(r == clip_of(Clip::Cell, tv));
            assert(*prompts == *old(prompts));
            return r;
        },
        Key::Char('C') => {
            let t = app.copy_current_row_tsv();
            let ghost tv = t;
            assert(App::row_copied(pre, *app, tv));
            let r = match t {
                Some(t) => Some((Clip::Row, t)),
                None => None,
            };
            assert(r == clip_of(Clip::Row, tv));
            assert(*prompts == *old(prompts));
            return r;
        },
        Key::Char('u') => {
            if app.selected_table < app.tables.len() {
                let table = app.tables[app.selected_table].clone();
                let ghost before = app.outbox@;
                app.outbox.push(DBRequest::UndoLastChange { table });
                assert(app.outbox@.drop_last() =~= before);
                app.status = owned("Undoing last change...");
            } else {
                app.status = owned("No table selected to undo");
            }
        },
        Key::Char('+') | Key::Char('=') => {
            app.resize_current_column_wider();
            let ghost mid = *app;
            app.status = owned("Column width: wider");
            assert(App::column_widened(pre, mid));
        },
        Key::Char('-') | Key::Char('_') => {
            app.resize_current_column_narrower();
            let ghost mid = *app;
            app.status = owned("Column width: narrower");
            assert(App::column_narrowed(pre, mid));
        },
        Key::Char('a') => {
            app.request_autosize_current_column();
            let ghost mid = *app;
            app.status = owned("Autosizing current column…");
            assert(App::autosize_one_requested(pre, mid));
        },
        Key::Char('A') => {
            app.request_autosize_all_columns();
            let ghost mid = *app;
            app.status = owned("Autosizing all columns…");
            assert(App::autosize_all_requested(pre, mid));
        },
        Key::Char('v') => {
            app.toggle_cell_viewer();
            let ghost mid = *app;
            app.status = if app.show_cell_viewer {
                owned("Cell viewer: ON")
            } else {
                owned("Cell viewer: OFF")
            };
            assert(App::viewer_toggled(pre, mid));
        },
        _ => {},
    }
    None
}

/// What a key does while a cell is edited.
pub open spec fn editing_key_effect(pre: App, post: App, key: Key, ctrl: bool) -> bool {
    if key == Key::Enter || key == Key::Char('\n') || key == Key::Char('\r') {
        App::edit_submitted(pre, post)
    } else {
        match key {
            Key::Esc => App::edit_cancelled(pre, post),
            Key::Backspace => App::char_erased_before(pre, post),
            Key::Delete => App::char_erased_after(pre, post),
            Key::Left => App::caret_left(pre, post),
            Key::Right => App::caret_right(pre, post),
            Key::Home => App::caret_home(pre, post),
            Key::End => App::caret_end(pre, post),
            Key::Char(c) => if ctrl {
                if c == 'd' {
                    App::null_marked(pre, post)
                } else {
                    post == pre
                }
            } else {
                App::char_inserted(pre, post, c)
            },
            _ => post == pre,
        }
    }
}

/// A key while a cell is edited: Enter submits, Esc cancels, Ctrl-d marks NULL,
/// other control keys are ignored, and the rest move the caret or edit the text.
pub fn handle_key_editing(app: &mut App, key: Key, ctrl: bool)
    requires
        old(app).wf(),
    ensures
        final(app).wf(),
        editing_key_effect(*old(app), *final(app), key, ctrl),
{
    match key {
        Key::Enter => app.submit_cell_edit(),
        Key::Char('\n') => app.submit_cell_edit(),
        Key::Char('\r') => app.submit_cell_edit(),
        Key::Esc => app.cancel_edit_cell(),
        Key::Backspace => app.edit_input_backspace(),
        Key::Delete => app.edit_input_delete(),
        Key::Left => app.edit_input_left(),
        Key::Right => app.edit_input_right(),
        Key::Home => app.edit_input_home(),
        Key::End => app.edit_input_end(),
        Key::Char(c) => {
            if ctrl {
                if c == 'd' {
                    app.edit_mark_null();
                }
            } else {
                app.edit_input_insert(c);
            }
        },
        _ => {},
    }
}

/// A key, routed to the open export prompt, else the open filter prompt, else the
/// edit session while a cell is edited, else the table.
pub fn handle_key(app: &mut App, prompts: &mut Prompts, key: Key, ctrl: bool) -> (r: Option<(Clip, String)>)
    requires
        old(app).wf(),
    ensures
        final(app).wf(),
        if old(prompts).export_mode {
            r is None && export_key_effect(*old(app), *old(prompts), *final(app), *final(prompts), key, ctrl)
        } else if old(prompts).filter_mode {
            r is None && filter_key_effect(*old(app), *old(prompts), *final(app), *final(prompts), key, ctrl)
        } else if old(app).mode != AppMode::Normal {
            &&& r is None
            &&& *final(prompts) == *old(prompts)
            &&& editing_key_effect(*old(app), *final(app), key, ctrl)
        } else {
            normal_key_effect(*old(app), *old(prompts), *final(app), *final(prompts), key, ctrl, r)
        },
{
    if prompts.export_mode {
        handle_key_export(app, prompts, key, ctrl);
        None
    } else if prompts.filter_mode {
        handle_key_filter(app, prompts, key, ctrl);
        None
    } else {
        match app.mode {
            AppMode::Normal => handle_key_normal(app, prompts, key, ctrl),
            AppMode::Editing { .. } => {
                handle_key_editing(app, key, ctrl);
                None
            },
        }
    }
}

} // verus!
