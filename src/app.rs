use vstd::prelude::*;
use vstd::string::*;

use crate::protocol::{DBRequest, DBResponse, SortDir};
use crate::query::opt_view;
use crate::text::{decimal, owned, pop_char, push_char, push_decimal, push_str, same_text, starts_with_text};
use crate::window::{last_index, Row, RowWindow, Step};

verus! {

/// Whether a cell is being edited, and where.
#[derive(PartialEq, Eq, Structural, Clone, Copy, Debug)]
pub enum AppMode {
    Normal,
    Editing {
        row: usize,
        col: usize,
        /// Caret in the edit buffer, counted in characters.
        cursor: usize,
    },
}

/// Which pane takes the arrow keys.
#[derive(PartialEq, Eq, Structural, Clone, Copy, Debug)]
pub enum Focus {
    Tables,
    Data,
}

/// The browsing and editing state behind the screen. Requests for the store are
/// queued in `outbox`, in the order they were issued.
pub struct App {
    pub should_quit: bool,
    pub mode: AppMode,
    pub status: String,
    pub tables: Vec<String>,
    pub selected_table: usize,
    pub focus: Focus,
    /// Columns of the loaded table, the row identity first.
    pub columns: Vec<String>,
    /// The fetched buffer, the scroll position and the rendered window.
    pub window: RowWindow,
    pub page: usize,
    pub total_rows: Option<usize>,
    pub sel_col: usize,
    pub edit_buffer: String,
    pub edit_is_null: bool,
    /// Row identity captured when the edit began.
    pub edit_rowid: Option<i64>,
    /// Width tier of each column: 0 narrow, 1 normal, 2 wide.
    pub col_width_tiers: Vec<u8>,
    /// Width of each column; 0 leaves it to the renderer.
    pub col_abs_widths: Vec<u16>,
    pub autosize_col_request: Option<usize>,
    pub autosize_all_request: bool,
    pub show_cell_viewer: bool,
    pub filter: Option<String>,
    pub filter_input: Option<String>,
    pub sort_by: Option<String>,
    pub sort_dir: Option<SortDir>,
    pub show_help: bool,
    /// Requests issued and not yet handed to the store worker.
    pub outbox: Vec<DBRequest>,
}

/// Whether `r` is a page load with these fields.
pub open spec fn load_request_is(
    r: DBRequest,
    table: Seq<char>,
    page: usize,
    page_size: usize,
    offset: usize,
    filter: Option<Seq<char>>,
    sort_by: Option<Seq<char>>,
    sort_dir: Option<SortDir>,
) -> bool {
    match r {
        DBRequest::LoadTable {
            table: t,
            page: p,
            page_size: n,
            offset_override: o,
            filter: f,
            sort_by: s,
            sort_dir: d,
        } => {
            &&& t@ == table
            &&& p == page
            &&& n == page_size
            &&& o == Some(offset)
            &&& opt_view(f) == filter
            &&& opt_view(s) == sort_by
            &&& d == sort_dir
        },
        _ => false,
    }
}

/// Whether `r` is a cell update with these fields.
pub open spec fn update_request_is(
    r: DBRequest,
    table: Seq<char>,
    rowid: i64,
    column: Seq<char>,
    value: Option<Seq<char>>,
) -> bool {
    match r {
        DBRequest::UpdateCell { table: t, rowid: i, column: c, new_value: v } => {
            &&& t@ == table
            &&& i == rowid
            &&& c@ == column
            &&& opt_view(v) == value
        },
        _ => false,
    }
}

/// The next sort direction when cycling: none, ascending, descending, none.
pub open spec fn cycled(d: Option<SortDir>) -> Option<SortDir> {
    match d {
        None => Some(SortDir::Asc),
        Some(SortDir::Asc) => Some(SortDir::Desc),
        Some(SortDir::Desc) => None,
    }
}

/// The direction after a toggle: descending after ascending, else ascending.
pub open spec fn toggled(d: Option<SortDir>) -> Option<SortDir> {
    if d == Some(SortDir::Asc) {
        Some(SortDir::Desc)
    } else {
        Some(SortDir::Asc)
    }
}

/// A copy of an optional string.
pub fn copy_opt(s: &Option<String>) -> (r: Option<String>)
    ensures
        r == *s,
{
    match s {
        Some(v) => Some(v.clone()),
        None => None,
    }
}

impl App {
    /// The state's invariant.
    pub open spec fn wf(&self) -> bool {
        &&& self.window.wf()
        &&& self.tables@.len() == 0 || self.selected_table < self.tables@.len()
        &&& self.sel_col <= last_index(self.columns@.len() as int)
        &&& self.mode matches AppMode::Editing { cursor, .. } ==> cursor <= self.edit_buffer@.len()
    }

    /// The name of the selected table, if there is one.
    pub open spec fn table_name(&self) -> Option<Seq<char>> {
        if self.selected_table < self.tables@.len() {
            Some(self.tables@[self.selected_table as int]@)
        } else {
            None
        }
    }

    /// The panes, the table list and the column layout are unchanged.
    pub open spec fn chrome_same(&self, o: &App) -> bool {
        &&& self.should_quit == o.should_quit
        &&& self.focus == o.focus
        &&& self.tables == o.tables
        &&& self.selected_table == o.selected_table
        &&& self.show_help == o.show_help
        &&& self.show_cell_viewer == o.show_cell_viewer
        &&& self.col_width_tiers == o.col_width_tiers
        &&& self.col_abs_widths == o.col_abs_widths
        &&& self.autosize_col_request == o.autosize_col_request
        &&& self.autosize_all_request == o.autosize_all_request
    }

    /// The edit session is unchanged.
    pub open spec fn edit_same(&self, o: &App) -> bool {
        &&& self.mode == o.mode
        &&& self.edit_buffer == o.edit_buffer
        &&& self.edit_is_null == o.edit_is_null
        &&& self.edit_rowid == o.edit_rowid
    }

    /// The filter and sort settings are unchanged.
    pub open spec fn query_same(&self, o: &App) -> bool {
        &&& self.filter == o.filter
        &&& self.filter_input == o.filter_input
        &&& self.sort_by == o.sort_by
        &&& self.sort_dir == o.sort_dir
    }

    /// The loaded columns, page data and column selection are unchanged.
    pub open spec fn data_same(&self, o: &App) -> bool {
        &&& self.columns == o.columns
        &&& self.page == o.page
        &&& self.total_rows == o.total_rows
        &&& self.sel_col == o.sel_col
    }

    /// Only the window, the status and the outbox may differ.
    pub open spec fn same_but_window(&self, o: &App) -> bool {
        &&& self.chrome_same(o)
        &&& self.edit_same(o)
        &&& self.query_same(o)
        &&& self.data_same(o)
    }

    /// What `load_selected_table_page(page)` makes of `old`: with a table selected,
    /// one page load at the current scroll position under the current filter and sort.
    pub open spec fn loaded(old: App, new: App, page: usize) -> bool {
        &&& new.same_but_window(&old)
        &&& match old.table_name() {
            Some(t) => {
                &&& new.window == RowWindow {
                    last_requested_offset: old.window.global_row_offset,
                    ..old.window
                }
                &&& new.outbox@.len() == old.outbox@.len() + 1
                &&& new.outbox@.drop_last() == old.outbox@
                &&& load_request_is(
                    new.outbox@.last(),
                    t,
                    page,
                    old.window.page_size,
                    old.window.global_row_offset,
                    opt_view(old.filter),
                    opt_view(old.sort_by),
                    old.sort_dir,
                )
                &&& new.status@ == "Loading table..."@
            },
            None => {
                &&& new.window == old.window
                &&& new.outbox == old.outbox
                &&& new.status == old.status
            },
        }
    }

    /// A fresh state with `page_size` rows per fetch and nothing loaded.
    pub fn new(page_size: usize) -> (r: App)
        requires
            page_size >= 1,
        ensures
            r.wf(),
            r.mode == AppMode::Normal,
            r.focus == Focus::Tables,
            r.tables@.len() == 0,
            r.columns@.len() == 0,
            r.window.page_size == page_size,
            r.window.visible_rows_per_page == page_size,
            r.window.global_row_offset == 0,
            r.window.buffer_offset == 0,
            r.window.view_start == 0,
            r.window.sel_row == 0,
            r.window.buffer_rows@.len() == 0,
            r.window.rows@.len() == 0,
            r.page == 0,
            r.sel_col == 0,
            r.total_rows is None,
            r.filter_input is None,
            r.filter is None,
            r.sort_by is None,
            r.sort_dir is None,
            r.outbox@.len() == 0,
    {
        App {
            should_quit: false,
            mode: AppMode::Normal,
            status: owned(
                "Press q to quit. Enter to open table. e to edit cell. PgUp/PgDn to paginate.",
            ),
            tables: Vec::new(),
            selected_table: 0,
            focus: Focus::Tables,
            columns: Vec::new(),
            window: RowWindow::new(page_size),
            page: 0,
            total_rows: None,
            sel_col: 0,
            edit_buffer: String::new(),
            edit_is_null: false,
            edit_rowid: None,
            col_width_tiers: Vec::new(),
            col_abs_widths: Vec::new(),
            autosize_col_request: None,
            autosize_all_request: false,
            show_cell_viewer: false,
            filter: None,
            filter_input: None,
            sort_by: None,
            sort_dir: None,
            show_help: false,
            outbox: Vec::new(),
        }
    }

    /// Hand over the queued requests, oldest first, and empty the queue.
    pub fn take_requests(&mut self) -> (r: Vec<DBRequest>)
        ensures
            r == old(self).outbox,
            final(self).outbox@.len() == 0,
            final(self).wf() == old(self).wf(),
            final(self).same_but_window(old(self)),
            final(self).window == old(self).window,
            final(self).status == old(self).status,
    {
        let mut out: Vec<DBRequest> = Vec::new();
        std::mem::swap(&mut out, &mut self.outbox);
        out
    }

    pub fn request_schema_refresh(&mut self)
        ensures
            final(self).same_but_window(old(self)),
            final(self).window == old(self).window,
            final(self).outbox@ == old(self).outbox@.push(DBRequest::LoadSchema),
            final(self).status@ == "Loading schema..."@,
    {
        self.outbox.push(DBRequest::LoadSchema);
        self.status = owned("Loading schema...");
    }

    /// What `toggle_focus` makes of `pre`.
    pub open spec fn focus_toggled(pre: App, post: App) -> bool {
        &&& (post.focus == if pre.focus == Focus::Tables {
                Focus::Data
            } else {
                Focus::Tables
            })
        &&& (post.tables == pre.tables)
        &&& (post.selected_table == pre.selected_table)
        &&& (post.edit_same(&pre))
        &&& (post.query_same(&pre))
        &&& (post.data_same(&pre))
        &&& (post.window == pre.window)
        &&& (post.outbox == pre.outbox)
    }

    pub fn toggle_focus(&mut self)
        ensures
            Self::focus_toggled(*old(self), *final(self)),
    {
        self.focus = match self.focus {
            Focus::Tables => Focus::Data,
            Focus::Data => Focus::Tables,
        };
    }

    /// The name of the selected table, if there is one.
    pub fn current_table_name(&self) -> (r: Option<&str>)
        ensures
            match r {
                Some(s) => self.table_name() == Some(s@),
                None => self.table_name() is None,
            },
    {
        if self.selected_table < self.tables.len() {
            Some(self.tables[self.selected_table].as_str())
        } else {
            None
        }
    }

    /// Queue a load of the selected table at the current scroll position, labelled
    /// as `page`.
    pub fn load_selected_table_page(&mut self, page: usize)
        ensures
            Self::loaded(*old(self), *final(self), page),
    {
        if self.selected_table < self.tables.len() {
            let table = self.tables[self.selected_table].clone();
            self.window.last_requested_offset = self.window.global_row_offset;
            let req = DBRequest::LoadTable {
                table,
                page,
                page_size: self.window.page_size,
                offset_override: Some(self.window.global_row_offset),
                filter: copy_opt(&self.filter),
                sort_by: copy_opt(&self.sort_by),
                sort_dir: self.sort_dir,
            };
            let ghost before = self.outbox@;
            self.outbox.push(req);
            assert(self.outbox@.drop_last() =~= before);
            self.status = owned("Loading table...");
        }
    }

    /// Load the current page again.
    pub fn reload_current_table(&mut self)
        ensures
            Self::loaded(*old(self), *final(self), old(self).page),
    {
        let p = self.page;
        self.load_selected_table_page(p);
    }
}

/// With a table selected, a page load labelled `page` at `new`'s scroll position and
/// under `new`'s filter and sort was queued and the status says so; without one,
/// nothing was queued and the status reads `fallback`.
pub open spec fn issued(old: App, new: App, page: usize, fallback: Seq<char>) -> bool {
    match old.table_name() {
        Some(t) => {
            &&& new.window.last_requested_offset == new.window.global_row_offset
            &&& new.outbox@.len() == old.outbox@.len() + 1
            &&& new.outbox@.drop_last() == old.outbox@
            &&& load_request_is(
                new.outbox@.last(),
                t,
                page,
                new.window.page_size,
                new.window.global_row_offset,
                opt_view(new.filter),
                opt_view(new.sort_by),
                new.sort_dir,
            )
            &&& new.status@ == "Loading table..."@
        },
        None => {
            &&& new.window.last_requested_offset == old.window.last_requested_offset
            &&& new.outbox == old.outbox
            &&& new.status@ == fallback
        },
    }
}

/// `a * b`, or the largest `usize` where the product does not fit.
pub open spec fn sat_mul(a: int, b: int) -> usize {
    if a * b > usize::MAX {
        usize::MAX
    } else {
        (a * b) as usize
    }
}

/// `w` with another scroll position and last requested offset.
pub open spec fn rescrolled(w: RowWindow, global: usize, requested: usize) -> RowWindow {
    RowWindow { global_row_offset: global, last_requested_offset: requested, ..w }
}

impl App {
    /// What `move_table_selection_up` makes of `pre`.
    pub open spec fn table_selection_raised(pre: App, post: App) -> bool {
        &&& (post.selected_table == if pre.tables@.len() == 0 {
                pre.selected_table as int
            } else if pre.selected_table == 0 {
                pre.tables@.len() - 1
            } else {
                pre.selected_table - 1
            })
        &&& (post.tables == pre.tables)
        &&& (post.focus == pre.focus)
        &&& (post.edit_same(&pre))
        &&& (post.query_same(&pre))
        &&& (post.data_same(&pre))
        &&& (post.window == pre.window)
        &&& (post.outbox == pre.outbox)
    }

    pub fn move_table_selection_up(&mut self)
        requires
            old(self).wf(),
        ensures
            final(self).wf(),
            Self::table_selection_raised(*old(self), *final(self)),
    {
        if self.tables.len() == 0 {
            return;
        }
        if self.selected_table == 0 {
            self.selected_table = self.tables.len() - 1;
        } else {
            self.selected_table = self.selected_table - 1;
        }
    }

    /// What `move_table_selection_down` makes of `pre`.
    pub open spec fn table_selection_lowered(pre: App, post: App) -> bool {
        &&& (post.selected_table == if pre.tables@.len() == 0 {
                pre.selected_table as int
            } else {
                (pre.selected_table + 1) % (pre.tables@.len() as int)
            })
        &&& (post.tables == pre.tables)
        &&& (post.focus == pre.focus)
        &&& (post.edit_same(&pre))
        &&& (post.query_same(&pre))
        &&& (post.data_same(&pre))
        &&& (post.window == pre.window)
        &&& (post.outbox == pre.outbox)
    }

    pub fn move_table_selection_down(&mut self)
        requires
            old(self).wf(),
        ensures
            final(self).wf(),
            Self::table_selection_lowered(*old(self), *final(self)),
    {
        if self.tables.len() == 0 {
            return;
        }
        self.selected_table = (self.selected_table + 1) % self.tables.len();
    }

    /// What `next_page` makes of `pre`.
    pub open spec fn paged_forward(pre: App, post: App) -> bool {
        &&& (post.same_but_window(&pre))
        &&& (post.window == rescrolled(
                pre.window,
                sat_mul(pre.page.saturating_add(1) as int, pre.window.page_size as int),
                post.window.last_requested_offset,
            ))
        &&& (issued(pre, post, pre.page.saturating_add(1), pre.status@))
    }

    /// Jump a whole page forward: scroll to its first row and load it.
    pub fn next_page(&mut self)
        requires
            old(self).wf(),
        ensures
            final(self).wf(),
            Self::paged_forward(*old(self), *final(self)),
    {
        let p = self.page.saturating_add(1);
        self.window.global_row_offset = match p.checked_mul(self.window.page_size) {
            Some(o) => o,
            None => usize::MAX,
        };
        self.load_selected_table_page(p);
    }

    /// What `prev_page` makes of `pre`.
    pub open spec fn paged_back(pre: App, post: App) -> bool {
        &&& (post.same_but_window(&pre))
        &&& (pre.page == 0 ==> post.window == pre.window && post.outbox
                == pre.outbox && post.status == pre.status)
        &&& (pre.page > 0 ==> {
                &&& post.window == rescrolled(
                    pre.window,
                    sat_mul(pre.page - 1, pre.window.page_size as int),
                    post.window.last_requested_offset,
                )
                &&& issued(pre, post, (pre.page - 1) as usize, pre.status@)
            })
    }

    /// Jump a whole page back, unless on the first page.
    pub fn prev_page(&mut self)
        requires
            old(self).wf(),
        ensures
            final(self).wf(),
            Self::paged_back(*old(self), *final(self)),
    {
        if self.page > 0 {
            let p = self.page - 1;
            self.window.global_row_offset = match p.checked_mul(self.window.page_size) {
                Some(o) => o,
                None => usize::MAX,
            };
            self.load_selected_table_page(p);
        }
    }

    /// Set the filter, scroll back to the first row and load the first page.
    pub fn set_filter_string(&mut self, filter: Option<String>)
        requires
            old(self).wf(),
        ensures
            final(self).wf(),
            final(self).filter == filter,
            final(self).filter_input == old(self).filter_input,
            final(self).sort_by == old(self).sort_by,
            final(self).sort_dir == old(self).sort_dir,
            final(self).chrome_same(old(self)),
            final(self).edit_same(old(self)),
            final(self).data_same(old(self)),
            final(self).window == rescrolled(old(self).window, 0, final(self).window.last_requested_offset),
            issued(*old(self), *final(self), 0, old(self).status@),
    {
        self.filter = filter;
        self.window.global_row_offset = 0;
        self.load_selected_table_page(0);
    }

    /// What `clear_filter` makes of `pre`.
    pub open spec fn filter_cleared(pre: App, post: App) -> bool {
        &&& (post.filter is None)
        &&& (post.filter_input == pre.filter_input)
        &&& (post.sort_by == pre.sort_by)
        &&& (post.sort_dir == pre.sort_dir)
        &&& (post.chrome_same(&pre))
        &&& (post.edit_same(&pre))
        &&& (post.data_same(&pre))
        &&& (post.window == rescrolled(pre.window, 0, post.window.last_requested_offset))
        &&& (issued(pre, post, 0, pre.status@))
    }

    pub fn clear_filter(&mut self)
        requires
            old(self).wf(),
        ensures
            final(self).wf(),
            Self::filter_cleared(*old(self), *final(self)),
    {
        self.set_filter_string(None);
    }

    /// What `begin_filter_input` makes of `pre`.
    pub open spec fn filter_input_begun(pre: App, post: App) -> bool {
        &&& (opt_view(post.filter_input) == Some(Seq::<char>::empty()))
        &&& (post.filter == pre.filter)
        &&& (post.sort_by == pre.sort_by)
        &&& (post.sort_dir == pre.sort_dir)
        &&& (post.chrome_same(&pre))
        &&& (post.edit_same(&pre))
        &&& (post.data_same(&pre))
        &&& (post.window == pre.window)
        &&& (post.outbox == pre.outbox)
        &&& (post.status == pre.status)
    }

    pub fn begin_filter_input(&mut self)
        ensures
            Self::filter_input_begun(*old(self), *final(self)),
    {
        self.filter_input = Some(String::new());
    }

    /// What `update_filter_input_char(c)` makes of `pre`.
    pub open spec fn filter_input_typed(pre: App, post: App, c: char) -> bool {
        &&& (opt_view(post.filter_input) == match opt_view(pre.filter_input) {
                Some(b) => Some(b.push(c)),
                None => None,
            })
        &&& (post.filter == pre.filter)
        &&& (post.sort_by == pre.sort_by)
        &&& (post.sort_dir == pre.sort_dir)
        &&& (post.chrome_same(&pre))
        &&& (post.edit_same(&pre))
        &&& (post.data_same(&pre))
        &&& (post.window == pre.window)
        &&& (post.outbox == pre.outbox)
        &&& (post.status == pre.status)
    }

    pub fn update_filter_input_char(&mut self, c: char)
        ensures
            Self::filter_input_typed(*old(self), *final(self), c),
    {
        match &mut self.filter_input {
            Some(buf) => push_char(buf, c),
            None => {},
        }
    }

    /// What `backspace_filter_input` makes of `pre`.
    pub open spec fn filter_input_erased(pre: App, post: App) -> bool {
        &&& (opt_view(post.filter_input) == match opt_view(pre.filter_input) {
                Some(b) => Some(if b.len() > 0 { b.drop_last() } else { b }),
                None => None,
            })
        &&& (post.filter == pre.filter)
        &&& (post.sort_by == pre.sort_by)
        &&& (post.sort_dir == pre.sort_dir)
        &&& (post.chrome_same(&pre))
        &&& (post.edit_same(&pre))
        &&& (post.data_same(&pre))
        &&& (post.window == pre.window)
        &&& (post.outbox == pre.outbox)
        &&& (post.status == pre.status)
    }

    pub fn backspace_filter_input(&mut self)
        ensures
            Self::filter_input_erased(*old(self), *final(self)),
    {
        match &mut self.filter_input {
            Some(buf) => {
                pop_char(buf);
            },
            None => {},
        }
    }

    /// What `apply_filter_input` makes of `pre`.
    pub open spec fn filter_input_applied(pre: App, post: App) -> bool {
        &&& (post.filter_input is None)
        &&& (opt_view(post.filter) == match opt_view(pre.filter_input) {
                Some(b) => if b.len() > 0 { Some(b) } else { None },
                None => None,
            })
        &&& (post.sort_by == pre.sort_by)
        &&& (post.sort_dir == pre.sort_dir)
        &&& (post.chrome_same(&pre))
        &&& (post.edit_same(&pre))
        &&& (post.data_same(&pre))
        &&& (post.window == rescrolled(pre.window, 0, post.window.last_requested_offset))
        &&& (issued(pre, post, 0, pre.status@))
    }

    /// Apply the typed filter; an empty or absent one clears the filter.
    pub fn apply_filter_input(&mut self)
        requires
            old(self).wf(),
        ensures
            final(self).wf(),
            Self::filter_input_applied(*old(self), *final(self)),
    {
        let pending = self.filter_input.take();
        match pending {
            Some(s) => {
                if s.unicode_len() > 0 {
                    self.set_filter_string(Some(s));
                } else {
                    self.clear_filter();
                }
            },
            None => self.clear_filter(),
        }
    }

    /// What `cancel_filter_input` makes of `pre`.
    pub open spec fn filter_input_cancelled(pre: App, post: App) -> bool {
        &&& (post.filter_input is None)
        &&& (post.filter == pre.filter)
        &&& (post.sort_by == pre.sort_by)
        &&& (post.sort_dir == pre.sort_dir)
        &&& (post.chrome_same(&pre))
        &&& (post.edit_same(&pre))
        &&& (post.data_same(&pre))
        &&& (post.window == pre.window)
        &&& (post.outbox == pre.outbox)
        &&& (post.status == pre.status)
    }

    pub fn cancel_filter_input(&mut self)
        ensures
            Self::filter_input_cancelled(*old(self), *final(self)),
    {
        self.filter_input = None;
    }

    /// What `toggle_help` makes of `pre`.
    pub open spec fn help_toggled(pre: App, post: App) -> bool {
        &&& (post.show_help == !pre.show_help)
        &&& (post.selected_table == pre.selected_table)
        &&& (post.tables == pre.tables)
        &&& (post.edit_same(&pre))
        &&& (post.query_same(&pre))
        &&& (post.data_same(&pre))
        &&& (post.window == pre.window)
        &&& (post.outbox == pre.outbox)
    }

    pub fn toggle_help(&mut self)
        ensures
            Self::help_toggled(*old(self), *final(self)),
    {
        self.show_help = !self.show_help;
    }

    /// What `sort_cycle_on_selection` makes of `pre`.
    pub open spec fn sort_cycled(pre: App, post: App) -> bool {
        &&& (pre.columns@.len() == 0 ==> post == pre)
        &&& (pre.columns@.len() > 0 ==> {
                &&& opt_view(post.sort_by) == if pre.sort_dir == Some(SortDir::Desc) {
                    None
                } else {
                    Some(pre.columns@[pre.sel_col as int]@)
                }
                &&& post.sort_dir == cycled(pre.sort_dir)
                &&& post.filter == pre.filter
                &&& post.filter_input == pre.filter_input
                &&& post.chrome_same(&pre)
                &&& post.edit_same(&pre)
                &&& post.data_same(&pre)
                &&& post.window == rescrolled(
                    pre.window,
                    0,
                    post.window.last_requested_offset,
                )
                &&& issued(pre, post, 0, pre.status@)
            })
    }

    /// Cycle the sort on the selected column through ascending, descending and
    /// unsorted (no column, no direction); scroll back to the first row and load the
    /// first page.
    pub fn sort_cycle_on_selection(&mut self)
        requires
            old(self).wf(),
        ensures
            final(self).wf(),
            Self::sort_cycled(*old(self), *final(self)),
    {
        if self.columns.len() == 0 {
            return;
        }
        match self.sort_dir {
            Some(SortDir::Desc) => {
                self.sort_by = None;
                self.sort_dir = None;
            },
            _ => {
                self.sort_by = Some(self.columns[self.sel_col].clone());
                self.sort_dir = match self.sort_dir {
                    None => Some(SortDir::Asc),
                    _ => Some(SortDir::Desc),
                };
            },
        }
        self.window.global_row_offset = 0;
        self.load_selected_table_page(0);
    }

    /// What `sort_toggle_dir` makes of `pre`.
    pub open spec fn sort_dir_toggled(pre: App, post: App) -> bool {
        &&& (post.sort_dir == toggled(pre.sort_dir))
        &&& (post.sort_by == pre.sort_by)
        &&& (post.filter == pre.filter)
        &&& (post.filter_input == pre.filter_input)
        &&& (post.chrome_same(&pre))
        &&& (post.edit_same(&pre))
        &&& (post.data_same(&pre))
        &&& (post.window == rescrolled(pre.window, 0, post.window.last_requested_offset))
        &&& (issued(pre, post, 0, pre.status@))
    }

    /// Flip the sort direction (ascending where none is set); scroll back to the
    /// first row and load the first page.
    pub fn sort_toggle_dir(&mut self)
        requires
            old(self).wf(),
        ensures
            final(self).wf(),
            Self::sort_dir_toggled(*old(self), *final(self)),
    {
        self.sort_dir = match self.sort_dir {
            Some(SortDir::Asc) => Some(SortDir::Desc),
            _ => Some(SortDir::Asc),
        };
        self.window.global_row_offset = 0;
        self.load_selected_table_page(0);
    }

    /// What `move_cell_left` makes of `pre`.
    pub open spec fn moved_left(pre: App, post: App) -> bool {
        &&& (post.sel_col == if pre.columns@.len() == 0 || pre.sel_col == 0 {
                pre.sel_col as int
            } else {
                pre.sel_col - 1
            })
        &&& (post.columns == pre.columns)
        &&& (post.chrome_same(&pre))
        &&& (post.edit_same(&pre))
        &&& (post.query_same(&pre))
        &&& (post.window == pre.window)
        &&& (post.outbox == pre.outbox)
    }

    pub fn move_cell_left(&mut self)
        requires
            old(self).wf(),
        ensures
            final(self).wf(),
            Self::moved_left(*old(self), *final(self)),
    {
        if self.columns.len() == 0 {
            return;
        }
        if self.sel_col > 0 {
            self.sel_col = self.sel_col - 1;
        }
    }

    /// What `move_cell_right` makes of `pre`.
    pub open spec fn moved_right(pre: App, post: App) -> bool {
        &&& (post.sel_col == if pre.sel_col + 1 < pre.columns@.len() {
                pre.sel_col + 1
            } else {
                pre.sel_col as int
            })
        &&& (post.columns == pre.columns)
        &&& (post.chrome_same(&pre))
        &&& (post.edit_same(&pre))
        &&& (post.query_same(&pre))
        &&& (post.window == pre.window)
        &&& (post.outbox == pre.outbox)
    }

    pub fn move_cell_right(&mut self)
        requires
            old(self).wf(),
        ensures
            final(self).wf(),
            Self::moved_right(*old(self), *final(self)),
    {
        if self.columns.len() == 0 {
            return;
        }
        if self.sel_col + 1 < self.columns.len() {
            self.sel_col = self.sel_col + 1;
        }
    }

    /// What `move_cell_down` makes of `pre`, resolving the move as `step`.
    pub open spec fn stepped_down(pre: App, post: App, step: Step) -> bool {
        &&& (post.same_but_window(&pre))
        &&& (RowWindow::moved_down(
                pre.window,
                RowWindow {
                    last_requested_offset: pre.window.last_requested_offset,
                    ..post.window
                },
                step,
            ))
        &&& (step != Step::Fetch ==> post.outbox == pre.outbox && post.status
                == pre.status && post.window.last_requested_offset == pre.window.last_requested_offset)
        &&& (step == Step::Fetch ==> issued(
                pre,
                post,
                (post.window.global_row_offset / post.window.page_size) as usize,
                "Loading next page…"@,
            ))
    }

    /// Move the selection down one row; where the buffer ends, scroll one row on and
    /// load from there.
    pub fn move_cell_down(&mut self) -> (step: Step)
        requires
            old(self).wf(),
        ensures
            final(self).wf(),
            Self::stepped_down(*old(self), *final(self), step),
    {
        let step = self.window.move_down();
        if step == Step::Fetch {
            self.status = owned("Loading next page…");
            let p = self.window.global_row_offset / self.window.page_size;
            self.load_selected_table_page(p);
        }
        step
    }

    /// What `move_cell_up` makes of `pre`, resolving the move as `step`.
    pub open spec fn stepped_up(pre: App, post: App, step: Step) -> bool {
        &&& (post.same_but_window(&pre))
        &&& (RowWindow::moved_up(
                pre.window,
                RowWindow {
                    last_requested_offset: pre.window.last_requested_offset,
                    ..post.window
                },
                step,
            ))
        &&& (step != Step::Fetch ==> post.outbox == pre.outbox && post.status
                == pre.status && post.window.last_requested_offset == pre.window.last_requested_offset)
        &&& (step == Step::Fetch ==> issued(
                pre,
                post,
                (post.window.global_row_offset / post.window.page_size) as usize,
                "Loading previous page…"@,
            ))
    }

    /// Move the selection up one row; where the buffer starts, scroll one row back
    /// and load from there, the target row landing at the top of the window.
    pub fn move_cell_up(&mut self) -> (step: Step)
        requires
            old(self).wf(),
        ensures
            final(self).wf(),
            Self::stepped_up(*old(self), *final(self), step),
    {
        let step = self.window.move_up();
        if step == Step::Fetch {
            self.status = owned("Loading previous page…");
            let p = self.window.global_row_offset / self.window.page_size;
            self.load_selected_table_page(p);
        }
        step
    }

    /// Take the viewport's row count from the renderer, clamped to `1 ..= page_size`.
    pub fn set_visible_rows(&mut self, n: usize)
        requires
            old(self).wf(),
        ensures
            final(self).wf(),
            final(self).same_but_window(old(self)),
            final(self).outbox == old(self).outbox,
            final(self).status == old(self).status,
            RowWindow::resized(old(self).window, final(self).window, n),
            old(self).window.synced() ==> final(self).window.synced(),
    {
        self.window.set_visible_rows(n);
    }
}

/// The rows that a response holds, cut to the page size.
pub open spec fn landed_rows(rows: Seq<Seq<Seq<char>>>, page_size: usize) -> Seq<Seq<Seq<char>>> {
    if rows.len() > page_size {
        rows.take(page_size as int)
    } else {
        rows
    }
}

/// `rows` cut to at most `n` rows.
fn cut_rows(rows: Vec<Row>, n: usize) -> (r: Vec<Row>)
    ensures
        r.deep_view() == landed_rows(rows.deep_view(), n),
        r@.len() <= n,
{
    let mut rows = rows;
    if rows.len() > n {
        let ghost before = rows.deep_view();
        rows.truncate(n);
        assert(rows.deep_view() =~= before.take(n as int));
    }
    rows
}

/// A vector of `n` copies of `v`.
pub(crate) fn filled<T: Copy>(v: T, n: usize) -> (r: Vec<T>)
    ensures
        r@ == Seq::new(n as nat, |i: int| v),
{
    let mut out: Vec<T> = Vec::new();
    let mut i: usize = 0;
    while i < n
        invariant
            i <= n,
            out@ == Seq::new(i as nat, |j: int| v),
        decreases n - i,
    {
        out.push(v);
        i = i + 1;
        assert(out@ =~= Seq::new(i as nat, |j: int| v));
    }
    out
}

/// Status text for an arriving page.
pub open spec fn viewing_text(table: Seq<char>, page: usize, page_size: usize, total: Option<usize>) -> Seq<char> {
    "Viewing "@ + table + " — page "@ + decimal(page.saturating_add(1) as nat) + " ("@
        + decimal(page_size as nat) + " rows/page)"@ + match total {
        Some(t) => ", total ~"@ + decimal(t as nat),
        None => Seq::empty(),
    }
}

fn viewing_status(table: &str, page: usize, page_size: usize, total: Option<usize>) -> (r: String)
    ensures
        r@ == viewing_text(table@, page, page_size, total),
{
    let mut st = owned("Viewing ");
    push_str(&mut st, table);
    push_str(&mut st, " — page ");
    push_decimal(&mut st, page.saturating_add(1));
    push_str(&mut st, " (");
    push_decimal(&mut st, page_size);
    push_str(&mut st, " rows/page)");
    match total {
        Some(t) => {
            push_str(&mut st, ", total ~");
            push_decimal(&mut st, t);
        },
        None => {},
    }
    st
}

/// `prefix` followed by `rest`.
fn prefixed(prefix: &str, rest: &str) -> (r: String)
    ensures
        r@ == prefix@ + rest@,
{
    let mut out = owned(prefix);
    push_str(&mut out, rest);
    out
}

impl App {
    /// Take in one response of the store worker. A page of rows replaces the buffer
    /// and is reconciled with the scroll position it was fetched for; a successful
    /// update reloads the table; every response sets the status.
    pub fn handle_db_response(&mut self, resp: DBResponse)
        requires
            old(self).wf(),
        ensures
            final(self).wf(),
            match resp {
                DBResponse::Schema { tables } => {
                    &&& final(self).tables == tables
                    &&& final(self).selected_table == if old(self).selected_table < tables@.len() {
                        old(self).selected_table
                    } else {
                        0
                    }
                    &&& final(self).edit_same(old(self))
                    &&& final(self).query_same(old(self))
                    &&& final(self).data_same(old(self))
                    &&& final(self).window == old(self).window
                    &&& final(self).outbox == old(self).outbox
                    &&& final(self).status@ == "Loaded "@ + decimal(tables@.len()) + " tables"@
                },
                DBResponse::TableData { table, columns, rows, page, offset, total_rows } => {
                    &&& final(self).columns == columns
                    &&& final(self).page == page
                    &&& final(self).total_rows == total_rows
                    &&& RowWindow::reconciled(
                        old(self).window,
                        landed_rows(rows.deep_view(), old(self).window.page_size),
                        offset,
                        final(self).window,
                    )
                    &&& final(self).window.last_requested_offset == old(self).window.last_requested_offset
                    &&& final(self).sel_col == if (old(self).sel_col as int) < last_index(
                        columns@.len() as int,
                    ) {
                        old(self).sel_col as int
                    } else {
                        last_index(columns@.len() as int)
                    }
                    &&& final(self).col_width_tiers@ == Seq::new(columns@.len(), |i: int| 1u8)
                    &&& final(self).col_abs_widths@ == Seq::new(columns@.len(), |i: int| 0u16)
                    &&& final(self).autosize_col_request is None
                    &&& !final(self).autosize_all_request
                    &&& final(self).edit_same(old(self))
                    &&& final(self).query_same(old(self))
                    &&& final(self).tables == old(self).tables
                    &&& final(self).selected_table == old(self).selected_table
                    &&& final(self).outbox == old(self).outbox
                    &&& final(self).status@ == viewing_text(table@, page, old(self).window.page_size, total_rows)
                },
                DBResponse::CellUpdated { ok, message } => {
                    &&& ok ==> Self::loaded(
                        App { status: final(self).status, ..*old(self) },
                        *final(self),
                        old(self).page,
                    ) && (old(self).table_name() is None ==> final(self).status@ == match message {
                        Some(m) => if m@ == "Undo applied"@ {
                            "Undo: applied"@
                        } else {
                            m@
                        },
                        None => "Cell updated"@,
                    })
                    &&& !ok ==> {
                        &&& final(self).same_but_window(old(self))
                        &&& final(self).window == old(self).window
                        &&& final(self).outbox == old(self).outbox
                        &&& final(self).status@ == {
                            let m = match message {
                                Some(m) => m@,
                                None => Seq::empty(),
                            };
                            if m.len() >= 4 && m.take(4) == "Undo"@ {
                                m
                            } else {
                                "Update failed: "@ + m
                            }
                        }
                    }
                },
                DBResponse::ExportedCSV { ok, path, message } => {
                    &&& final(self).same_but_window(old(self))
                    &&& final(self).window == old(self).window
                    &&& final(self).outbox == old(self).outbox
                    &&& final(self).status@ == if ok {
                        "Exported CSV to "@ + path@
                    } else {
                        "Export failed: "@ + match message {
                            Some(m) => m@,
                            None => "unknown error"@,
                        }
                    }
                },
                DBResponse::Error(msg) => {
                    &&& final(self).same_but_window(old(self))
                    &&& final(self).window == old(self).window
                    &&& final(self).outbox == old(self).outbox
                    &&& final(self).status@ == "Error: "@ + msg@
                },
            },
    {
        match resp {
            DBResponse::Schema { tables } => {
                self.tables = tables;
                if self.selected_table >= self.tables.len() {
                    self.selected_table = 0;
                }
                let mut st = owned("Loaded ");
                push_decimal(&mut st, self.tables.len());
                push_str(&mut st, " tables");
                self.status = st;
            },
            DBResponse::TableData { table, columns, rows, page, offset, total_rows } => {
                let n = columns.len();
                self.columns = columns;
                self.page = page;
                self.total_rows = total_rows;
                let landed = cut_rows(rows, self.window.page_size);
                self.window.reconcile(landed, offset);
                if n == 0 {
                    self.sel_col = 0;
                } else if self.sel_col > n - 1 {
                    self.sel_col = n - 1;
                }
                self.col_width_tiers = filled(1u8, n);
                self.col_abs_widths = filled(0u16, n);
                self.autosize_col_request = None;
                self.autosize_all_request = false;
                self.status = viewing_status(table.as_str(), page, self.window.page_size, total_rows);
            },
            DBResponse::CellUpdated { ok, message } => {
                if ok {
                    self.status = match message {
                        Some(m) => if same_text(m.as_str(), "Undo applied") {
                            owned("Undo: applied")
                        } else {
                            m
                        },
                        None => owned("Cell updated"),
                    };
                    self.reload_current_table();
                } else {
                    let m = match message {
                        Some(m) => m,
                        None => String::new(),
                    };
                    if starts_with_text(m.as_str(), "Undo") {
                        proof {
                            reveal_strlit("Undo");
                        }
                        self.status = m;
                    } else {
                        proof {
                            reveal_strlit("Undo");
                        }
                        self.status = prefixed("Update failed: ", m.as_str());
                    }
                }
            },
            DBResponse::ExportedCSV { ok, path, message } => {
                if ok {
                    self.status = prefixed("Exported CSV to ", path.as_str());
                } else {
                    let m = match message {
                        Some(m) => m,
                        None => owned("unknown error"),
                    };
                    self.status = prefixed("Export failed: ", m.as_str());
                }
            },
            DBResponse::Error(msg) => {
                self.status = prefixed("Error: ", msg.as_str());
            },
        }
    }
}

/// After a change of filter or sort (whose contracts give `rescrolled` to offset 0
/// and `issued` for page 0), the scroll position is the first row, and the queued
/// load, compiled for the table's columns, starts at offset 0 with its count query
/// filtered by the very WHERE clause and bound values of its data query.
pub proof fn lemma_query_change_restarts(
    old: App,
    new: App,
    cols: Seq<Seq<char>>,
    table: Seq<char>,
    plan: crate::query::LoadPlan,
)
    requires
        old.table_name() == Some(table),
        new.window == rescrolled(old.window, 0, new.window.last_requested_offset),
        issued(old, new, 0, old.status@),
        ({
            let w = crate::query::where_text(cols, opt_view(new.filter));
            &&& plan.data_sql@ == crate::query::data_query(
                table,
                cols,
                w,
                crate::query::order_text(cols, opt_view(new.sort_by), new.sort_dir),
            )
            &&& plan.count_sql@ == crate::query::count_query(table, w)
            &&& plan.params.deep_view() == crate::query::where_params(cols, opt_view(new.filter))
            &&& plan.offset == crate::query::load_offset(0, new.window.page_size, Some(0))
        }),
    ensures
        new.window.global_row_offset == 0,
        load_request_is(
            new.outbox@.last(),
            table,
            0,
            new.window.page_size,
            0,
            opt_view(new.filter),
            opt_view(new.sort_by),
            new.sort_dir,
        ),
        plan.offset == 0,
        exists|w: Seq<char>|
            #![auto]
            plan.count_sql@ == crate::query::count_query(table, w) && plan.data_sql@
                == crate::query::select_head(table, cols) + w + crate::query::order_text(
                cols,
                opt_view(new.sort_by),
                new.sort_dir,
            ) + " LIMIT ? OFFSET ?"@,
{
    let w = crate::query::where_text(cols, opt_view(new.filter));
    assert(plan.count_sql@ == crate::query::count_query(table, w));
}

/// The rows a fetch at `offset` of `table` returns to this app's page size.
pub open spec fn fetched(table: Seq<Seq<Seq<char>>>, offset: usize, page_size: usize) -> Seq<Seq<Seq<char>>> {
    crate::window::page_at(table, offset as int, page_size as int)
}

/// Stepping down one row through the app, and answering the load that the step may
/// queue with a direct fetch of `table` at the requested offset, selects the row that
/// a direct fetch of the next absolute position returns.
pub proof fn lemma_app_step_down_matches_fetch(
    table: Seq<Seq<Seq<char>>>,
    a0: App,
    a1: App,
    step: Step,
    a2: App,
)
    requires
        table.len() <= usize::MAX,
        a0.wf(),
        a1.wf(),
        a2.wf(),
        a0.window.synced(),
        a0.window.holds_run_of(table),
        a0.window.capacity() > 0,
        a0.window.selected_position() + 1 < table.len(),
        RowWindow::moved_down(
            a0.window,
            RowWindow { last_requested_offset: a0.window.last_requested_offset, ..a1.window },
            step,
        ),
        step == Step::Local ==> a2.window == a1.window,
        step == Step::Fetch ==> RowWindow::reconciled(
            a1.window,
            landed_rows(
                fetched(table, a1.window.global_row_offset, a1.window.page_size),
                a1.window.page_size,
            ),
            a1.window.global_row_offset,
            a2.window,
        ),
    ensures
        a2.window.selected_position() == a0.window.selected_position() + 1,
        a2.window.selected_row() == table[a2.window.selected_position()],
{
    let mid = RowWindow { last_requested_offset: a0.window.last_requested_offset, ..a1.window };
    let resp = fetched(table, a1.window.global_row_offset, a1.window.page_size);
    assert(landed_rows(resp, a1.window.page_size) == resp);
    let new = if step == Step::Local { mid } else { a2.window };
    crate::window::lemma_move_down_matches_fetch(table, a0.window, mid, step, new);
}

/// Stepping up one row through the app, and answering the load that the step may
/// queue with a direct fetch of `table` at the requested offset, selects the row that
/// a direct fetch of the previous absolute position returns.
pub proof fn lemma_app_step_up_matches_fetch(
    table: Seq<Seq<Seq<char>>>,
    a0: App,
    a1: App,
    step: Step,
    a2: App,
)
    requires
        table.len() <= usize::MAX,
        a0.wf(),
        a1.wf(),
        a2.wf(),
        a0.window.synced(),
        a0.window.holds_run_of(table),
        a0.window.capacity() > 0,
        a0.window.selected_position() >= 1,
        RowWindow::moved_up(
            a0.window,
            RowWindow { last_requested_offset: a0.window.last_requested_offset, ..a1.window },
            step,
        ),
        step == Step::Local ==> a2.window == a1.window,
        step == Step::Fetch ==> RowWindow::reconciled(
            a1.window,
            landed_rows(
                fetched(table, a1.window.global_row_offset, a1.window.page_size),
                a1.window.page_size,
            ),
            a1.window.global_row_offset,
            a2.window,
        ),
    ensures
        a2.window.selected_position() == a0.window.selected_position() - 1,
        a2.window.selected_row() == table[a2.window.selected_position()],
{
    let mid = RowWindow { last_requested_offset: a0.window.last_requested_offset, ..a1.window };
    let resp = fetched(table, a1.window.global_row_offset, a1.window.page_size);
    assert(landed_rows(resp, a1.window.page_size) == resp);
    let new = if step == Step::Local { mid } else { a2.window };
    crate::window::lemma_move_up_matches_fetch(table, a0.window, mid, step, new);
}

} // verus!
