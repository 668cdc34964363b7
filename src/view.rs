use vstd::prelude::*;

use crate::app::{filled, App};
use crate::edit::{cell_at, tsv_lines};
use crate::text::{join, owned, push_str};
use crate::window::Row;

verus! {

/// The rendered page as tab-separated text: a header line, then one line per row.
fn page_tsv(columns: &Vec<String>, rows: &Vec<Row>) -> (r: String)
    ensures
        r@ == crate::text::joined(columns.deep_view(), "\t"@) + "\n"@ + tsv_lines(rows.deep_view()),
{
    let mut out = join(columns, "\t");
    push_str(&mut out, "\n");
    let ghost head = out@;
    let mut i: usize = 0;
    while i < rows.len()
        invariant
            i <= rows@.len(),
            out@ == head + tsv_lines(rows.deep_view().subrange(0, i as int)),
        decreases rows@.len() - i,
    {
        assert(rows.deep_view().subrange(0, i + 1).drop_last() =~= rows.deep_view().subrange(0, i as int));
        let line = join(&rows[i], "\t");
        push_str(&mut out, line.as_str());
        push_str(&mut out, "\n");
        i = i + 1;
    }
    assert(rows.deep_view().subrange(0, i as int) =~= rows.deep_view());
    out
}

impl App {
    /// Whether there is anything to copy or show.
    pub open spec fn has_data(&self) -> bool {
        self.window.rows@.len() > 0 && self.columns@.len() > 0
    }

    /// What `copy_current_cell_tsv` makes of `pre` and returns as `r`.
    pub open spec fn cell_copied(pre: App, post: App, r: Option<String>) -> bool {
        &&& (post.status_only(&pre))
        &&& (!pre.has_data() ==> r is None && post.status@
                == "Nothing to copy (no data)"@)
        &&& (pre.has_data() ==> r is Some && r->0@ == cell_at(
                pre.shown(),
                pre.window.sel_row as int,
                pre.sel_col as int,
            ) && post.status == pre.status)
    }

    /// The selected cell's text for the clipboard; `None`, with a status, where no
    /// data is loaded.
    pub fn copy_current_cell_tsv(&mut self) -> (r: Option<String>)
        requires
            old(self).wf(),
        ensures
            final(self).wf(),
            Self::cell_copied(*old(self), *final(self), r),
    {
        if self.window.rows.len() == 0 || self.columns.len() == 0 {
            self.status = owned("Nothing to copy (no data)");
            return None;
        }
        assert(self.window.rows@.len() == self.shown().len());
        let cells = &self.window.rows[self.window.sel_row];
        assert(cells.deep_view() == self.shown()[self.window.sel_row as int]);
        if self.sel_col < cells.len() {
            Some(cells[self.sel_col].clone())
        } else {
            Some(String::new())
        }
    }

    /// What `copy_current_row_tsv` makes of `pre` and returns as `r`.
    pub open spec fn row_copied(pre: App, post: App, r: Option<String>) -> bool {
        &&& (post.status_only(&pre))
        &&& (!pre.has_data() ==> r is None && post.status@
                == "Nothing to copy (no data)"@)
        &&& (pre.has_data() ==> r is Some && r->0@ == crate::text::joined(
                pre.shown()[pre.window.sel_row as int],
                "\t"@,
            ) && post.status == pre.status)
    }

    /// The selected row as one tab-separated line for the clipboard; `None`, with a
    /// status, where no data is loaded.
    pub fn copy_current_row_tsv(&mut self) -> (r: Option<String>)
        requires
            old(self).wf(),
        ensures
            final(self).wf(),
            Self::row_copied(*old(self), *final(self), r),
    {
        if self.window.rows.len() == 0 || self.columns.len() == 0 {
            self.status = owned("Nothing to copy (no data)");
            return None;
        }
        assert(self.window.rows@.len() == self.shown().len());
        Some(join(&self.window.rows[self.window.sel_row], "\t"))
    }

    /// What `copy_current_page_tsv` makes of `pre` and returns as `r`.
    pub open spec fn page_copied(pre: App, post: App, r: Option<String>) -> bool {
        &&& (post.status_only(&pre))
        &&& (!pre.has_data() ==> r is None && post.status@
                == "Nothing to copy (no data)"@)
        &&& (pre.has_data() ==> r is Some && r->0@ == crate::text::joined(
                pre.columns.deep_view(),
                "\t"@,
            ) + "\n"@ + tsv_lines(pre.shown()) && post.status == pre.status)
    }

    /// The rendered page, header first, as tab-separated lines for the clipboard;
    /// `None`, with a status, where no data is loaded.
    pub fn copy_current_page_tsv(&mut self) -> (r: Option<String>)
        requires
            old(self).wf(),
        ensures
            final(self).wf(),
            Self::page_copied(*old(self), *final(self), r),
    {
        if self.window.rows.len() == 0 || self.columns.len() == 0 {
            self.status = owned("Nothing to copy (no data)");
            return None;
        }
        Some(page_tsv(&self.columns, &self.window.rows))
    }

    /// The column layout alone may differ.
    pub open spec fn layout_only(&self, o: &App) -> bool {
        &&& self.should_quit == o.should_quit
        &&& self.focus == o.focus
        &&& self.tables == o.tables
        &&& self.selected_table == o.selected_table
        &&& self.show_help == o.show_help
        &&& self.show_cell_viewer == o.show_cell_viewer
        &&& self.edit_same(o)
        &&& self.query_same(o)
        &&& self.data_same(o)
        &&& self.window == o.window
        &&& self.outbox == o.outbox
        &&& self.status == o.status
    }

    /// The width tiers, reset to normal where they do not match the columns.
    pub open spec fn tiers_base(&self) -> Seq<u8> {
        if self.col_width_tiers@.len() == self.columns@.len() {
            self.col_width_tiers@
        } else {
            Seq::new(self.columns@.len(), |i: int| 1u8)
        }
    }

    /// What `resize_current_column_narrower` makes of `pre`.
    pub open spec fn column_narrowed(pre: App, post: App) -> bool {
        &&& (post.layout_only(&pre))
        &&& (post.col_abs_widths == pre.col_abs_widths)
        &&& (post.autosize_col_request == pre.autosize_col_request)
        &&& (post.autosize_all_request == pre.autosize_all_request)
        &&& (pre.columns@.len() == 0 ==> post.col_width_tiers == pre.col_width_tiers)
        &&& (pre.columns@.len() > 0 ==> post.col_width_tiers@ == pre.tiers_base().update(
                pre.sel_col as int,
                if pre.tiers_base()[pre.sel_col as int] > 0 {
                    (pre.tiers_base()[pre.sel_col as int] - 1) as u8
                } else {
                    0u8
                },
            ))
    }

    /// Make the selected column narrower by one tier, down to narrow.
    pub fn resize_current_column_narrower(&mut self)
        requires
            old(self).wf(),
        ensures
            final(self).wf(),
            Self::column_narrowed(*old(self), *final(self)),
    {
        if self.columns.len() == 0 {
            return;
        }
        let col = self.sel_col;
        if self.col_width_tiers.len() != self.columns.len() {
            self.col_width_tiers = filled(1u8, self.columns.len());
        }
        let cur = self.col_width_tiers[col];
        self.col_width_tiers[col] = if cur > 0 { cur - 1 } else { 0 };
    }

    /// What `resize_current_column_wider` makes of `pre`.
    pub open spec fn column_widened(pre: App, post: App) -> bool {
        &&& (post.layout_only(&pre))
        &&& (post.col_abs_widths == pre.col_abs_widths)
        &&& (post.autosize_col_request == pre.autosize_col_request)
        &&& (post.autosize_all_request == pre.autosize_all_request)
        &&& (pre.columns@.len() == 0 ==> post.col_width_tiers == pre.col_width_tiers)
        &&& (pre.columns@.len() > 0 ==> post.col_width_tiers@ == pre.tiers_base().update(
                pre.sel_col as int,
                if pre.tiers_base()[pre.sel_col as int] < 2 {
                    (pre.tiers_base()[pre.sel_col as int] + 1) as u8
                } else {
                    2u8
                },
            ))
    }

    /// Make the selected column wider by one tier, up to wide.
    pub fn resize_current_column_wider(&mut self)
        requires
            old(self).wf(),
        ensures
            final(self).wf(),
            Self::column_widened(*old(self), *final(self)),
    {
        if self.columns.len() == 0 {
            return;
        }
        let col = self.sel_col;
        if self.col_width_tiers.len() != self.columns.len() {
            self.col_width_tiers = filled(1u8, self.columns.len());
        }
        let cur = self.col_width_tiers[col];
        self.col_width_tiers[col] = if cur < 2 { cur + 1 } else { 2 };
    }

    /// The width tiers, for the renderer.
    pub fn column_width_tiers(&self) -> (r: &[u8])
        ensures
            r@ == self.col_width_tiers@,
    {
        self.col_width_tiers.as_slice()
    }

    /// What `request_autosize_current_column` makes of `pre`.
    pub open spec fn autosize_one_requested(pre: App, post: App) -> bool {
        &&& (post.layout_only(&pre))
        &&& (post.col_width_tiers == pre.col_width_tiers)
        &&& (post.col_abs_widths == pre.col_abs_widths)
        &&& (post.autosize_all_request == pre.autosize_all_request)
        &&& (post.autosize_col_request == if pre.columns@.len() == 0 {
                pre.autosize_col_request
            } else {
                Some(pre.sel_col)
            })
    }

    /// Ask the renderer to fit the selected column to its content.
    pub fn request_autosize_current_column(&mut self)
        requires
            old(self).wf(),
        ensures
            final(self).wf(),
            Self::autosize_one_requested(*old(self), *final(self)),
    {
        if self.columns.len() == 0 {
            return;
        }
        self.autosize_col_request = Some(self.sel_col);
    }

    /// What `request_autosize_all_columns` makes of `pre`.
    pub open spec fn autosize_all_requested(pre: App, post: App) -> bool {
        &&& (post.layout_only(&pre))
        &&& (post.col_width_tiers == pre.col_width_tiers)
        &&& (post.col_abs_widths == pre.col_abs_widths)
        &&& (post.autosize_all_request)
        &&& (post.autosize_col_request is None)
    }

    /// Ask the renderer to fit every column to its content.
    pub fn request_autosize_all_columns(&mut self)
        requires
            old(self).wf(),
        ensures
            final(self).wf(),
            Self::autosize_all_requested(*old(self), *final(self)),
    {
        self.autosize_all_request = true;
        self.autosize_col_request = None;
    }

    /// What `toggle_cell_viewer` makes of `pre`.
    pub open spec fn viewer_toggled(pre: App, post: App) -> bool {
        &&& (post.show_cell_viewer == !pre.show_cell_viewer)
        &&& (post.selected_table == pre.selected_table)
        &&& (post.show_help == pre.show_help)
        &&& (post.tables == pre.tables)
        &&& (post.edit_same(&pre))
        &&& (post.query_same(&pre))
        &&& (post.data_same(&pre))
        &&& (post.window == pre.window)
        &&& (post.outbox == pre.outbox)
        &&& (post.status == pre.status)
    }

    pub fn toggle_cell_viewer(&mut self)
        ensures
            Self::viewer_toggled(*old(self), *final(self)),
    {
        self.show_cell_viewer = !self.show_cell_viewer;
    }

    /// The selected cell's text, where data is loaded and the row has that cell.
    pub fn current_cell_text(&self) -> (r: Option<&str>)
        requires
            self.wf(),
        ensures
            match r {
                Some(t) => self.has_data() && self.sel_col < self.shown()[self.window.sel_row as int].len()
                    && t@ == cell_at(self.shown(), self.window.sel_row as int, self.sel_col as int),
                None => !self.has_data() || self.sel_col >= self.shown()[self.window.sel_row as int].len(),
            },
    {
        if self.window.rows.len() == 0 || self.columns.len() == 0 {
            return None;
        }
        assert(self.window.rows@.len() == self.shown().len());
        let cells = &self.window.rows[self.window.sel_row];
        assert(cells.deep_view() == self.shown()[self.window.sel_row as int]);
        if self.sel_col < cells.len() {
            Some(cells[self.sel_col].as_str())
        } else {
            None
        }
    }
}

} // verus!
