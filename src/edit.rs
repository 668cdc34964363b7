use vstd::prelude::*;
use vstd::string::*;

use crate::app::{App, AppMode};
use crate::grapheme::{next_grapheme, prev_grapheme};
use crate::protocol::DBRequest;
use crate::query::rowid_column;
use crate::text::{decimal_i64, insert_char, owned, parse_i64, remove_char, same_text};
use crate::app::update_request_is;

verus! {

/// The text of cell `c` of rendered row `r`, or empty where there is none.
pub open spec fn cell_at(rows: Seq<Seq<Seq<char>>>, r: int, c: int) -> Seq<char> {
    if 0 <= r < rows.len() && 0 <= c < rows[r].len() {
        rows[r][c]
    } else {
        Seq::empty()
    }
}

/// The row identity of rendered row `r`: its first cell read as an integer.
pub open spec fn identity_at(rows: Seq<Seq<Seq<char>>>, r: int) -> Option<i64> {
    if 0 <= r < rows.len() && rows[r].len() > 0 {
        decimal_i64(rows[r][0])
    } else {
        None
    }
}

/// Each row's cells joined by tabs, one line per row.
pub open spec fn tsv_lines(rows: Seq<Seq<Seq<char>>>) -> Seq<char>
    decreases rows.len(),
{
    if rows.len() == 0 {
        Seq::empty()
    } else {
        tsv_lines(rows.drop_last()) + crate::text::joined(rows.last(), "\t"@) + "\n"@
    }
}

impl App {
    /// The rendered rows as plain values.
    pub open spec fn shown(&self) -> Seq<Seq<Seq<char>>> {
        self.window.rows.deep_view()
    }

    /// Only the status changed.
    pub open spec fn status_only(&self, o: &App) -> bool {
        &&& self.same_but_window(o)
        &&& self.window == o.window
        &&& self.outbox == o.outbox
    }

    /// Only the edit session and the status changed.
    pub open spec fn edit_only(&self, o: &App) -> bool {
        &&& self.chrome_same(o)
        &&& self.query_same(o)
        &&& self.data_same(o)
        &&& self.window == o.window
        &&& self.outbox == o.outbox
    }

    /// What `begin_edit_cell` makes of `pre`.
    pub open spec fn edit_begun(pre: App, post: App) -> bool {
        &&& (({
                let o = pre;
                let row = o.window.sel_row as int;
                let col = o.sel_col as int;
                if o.window.rows@.len() == 0 || o.columns@.len() == 0 {
                    &&& post.status_only(&o)
                    &&& post.status@ == "Nothing to edit (no data)"@
                } else if o.columns@[col]@ == rowid_column() {
                    &&& post.status_only(&o)
                    &&& post.status@ == "Editing __rowid__ is not supported"@
                } else if o.mode matches AppMode::Editing { row: r, col: c, .. } && r == row && c
                    == col {
                    &&& post.status_only(&o)
                    &&& post.status@ == "Editing: Enter to save, Esc to cancel"@
                } else if !(identity_at(o.shown(), row) matches Some(id) && id >= 0) {
                    &&& post.status_only(&o)
                    &&& post.status@ == "Invalid rowid; cannot edit this row"@
                } else {
                    &&& post.edit_only(&o)
                    &&& post.edit_rowid == identity_at(o.shown(), row)
                    &&& post.edit_buffer@ == cell_at(o.shown(), row, col)
                    &&& !post.edit_is_null
                    &&& post.mode == AppMode::Editing {
                        row: row as usize,
                        col: col as usize,
                        cursor: cell_at(o.shown(), row, col).len() as usize,
                    }
                    &&& post.status@ == "Editing: Enter to save, Esc to cancel"@
                }
            }))
    }

    /// Begin editing the selected cell, capturing its row identity. Refused, with a
    /// status, where no data is loaded, on the row-identity column and on a row whose identity is not a
    /// non-negative integer; the cell already being edited keeps its buffer and caret.
    pub fn begin_edit_cell(&mut self)
        requires
            old(self).wf(),
        ensures
            final(self).wf(),
            Self::edit_begun(*old(self), *final(self)),
    {
        if self.window.rows.len() == 0 || self.columns.len() == 0 {
            self.status = owned("Nothing to edit (no data)");
            return;
        }
        let row = self.window.sel_row;
        let col = self.sel_col;
        assert(self.window.rows@.len() == self.window.rows.deep_view().len());
        if same_text(self.columns[col].as_str(), "__rowid__") {
            self.status = owned("Editing __rowid__ is not supported");
            return;
        }
        match self.mode {
            AppMode::Editing { row: erow, col: ecol, .. } => {
                if erow == row && ecol == col {
                    self.status = owned("Editing: Enter to save, Esc to cancel");
                    return;
                }
            },
            AppMode::Normal => {},
        }
        let cells = &self.window.rows[row];
        assert(cells.deep_view() == self.shown()[row as int]);
        let id = if cells.len() > 0 {
            parse_i64(cells[0].as_str())
        } else {
            None
        };
        let rowid = match id {
            Some(i) => i,
            None => -1,
        };
        if rowid < 0 {
            self.status = owned("Invalid rowid; cannot edit this row");
            return;
        }
        self.edit_rowid = Some(rowid);
        let current = if col < cells.len() {
            cells[col].clone()
        } else {
            String::new()
        };
        let n = current.unicode_len();
        self.edit_buffer = current;
        self.edit_is_null = false;
        self.mode = AppMode::Editing { row, col, cursor: n };
        self.status = owned("Editing: Enter to save, Esc to cancel");
    }

    /// What `cancel_edit_cell` makes of `pre`.
    pub open spec fn edit_cancelled(pre: App, post: App) -> bool {
        &&& (post.edit_only(&pre))
        &&& (post.mode == AppMode::Normal)
        &&& (post.edit_rowid is None)
        &&& (post.edit_buffer == pre.edit_buffer)
        &&& (post.edit_is_null == pre.edit_is_null)
        &&& (post.status@ == "Edit cancelled"@)
    }

    pub fn cancel_edit_cell(&mut self)
        requires
            old(self).wf(),
        ensures
            final(self).wf(),
            Self::edit_cancelled(*old(self), *final(self)),
    {
        self.mode = AppMode::Normal;
        self.edit_rowid = None;
        self.status = owned("Edit cancelled");
    }

    /// What `edit_mark_null` makes of `pre`.
    pub open spec fn null_marked(pre: App, post: App) -> bool {
        &&& (pre.mode == AppMode::Normal ==> post == pre)
        &&& (pre.mode != AppMode::Normal ==> {
                &&& post.edit_only(&pre)
                &&& post.edit_is_null
                &&& post.mode == pre.mode
                &&& post.edit_buffer == pre.edit_buffer
                &&& post.edit_rowid == pre.edit_rowid
                &&& post.status@ == "Will set NULL (Enter to save, Esc to cancel)"@
            })
    }

    /// Mark the edit so that submitting it writes NULL, whatever the buffer holds.
    pub fn edit_mark_null(&mut self)
        requires
            old(self).wf(),
        ensures
            final(self).wf(),
            Self::null_marked(*old(self), *final(self)),
    {
        if let AppMode::Editing { .. } = self.mode {
            self.edit_is_null = true;
            self.status = owned("Will set NULL (Enter to save, Esc to cancel)");
        }
    }

    /// What `submit_cell_edit` makes of `pre`.
    pub open spec fn edit_submitted(pre: App, post: App) -> bool {
        &&& (({
                let o = pre;
                match o.mode {
                    AppMode::Normal => post == o,
                    AppMode::Editing { row, col, .. } => {
                        let rowid = match o.edit_rowid {
                            Some(i) => i,
                            None => match identity_at(o.shown(), row as int) {
                                Some(i) => i,
                                None => -1i64,
                            },
                        };
                        &&& post.mode == AppMode::Normal
                        &&& post.chrome_same(&o)
                        &&& post.query_same(&o)
                        &&& post.data_same(&o)
                        &&& post.window == o.window
                        &&& post.edit_buffer == o.edit_buffer
                        &&& post.edit_is_null == o.edit_is_null
                        &&& if o.table_name() is None || o.window.rows@.len() == 0
                            || o.columns@.len() == 0 {
                            &&& post.outbox == o.outbox
                            &&& post.status == o.status
                            &&& post.edit_rowid == o.edit_rowid
                        } else if o.columns@[0]@ != rowid_column() {
                            &&& post.outbox == o.outbox
                            &&& post.status@ == "Editing currently requires rowid-backed tables"@
                            &&& post.edit_rowid == o.edit_rowid
                        } else if rowid < 0 {
                            &&& post.outbox == o.outbox
                            &&& post.status@ == "Invalid rowid; cannot update"@
                            &&& post.edit_rowid == o.edit_rowid
                        } else if col >= o.columns@.len() || o.columns@[col as int]@
                            == rowid_column() {
                            &&& post.outbox == o.outbox
                            &&& post.status@ == "Editing __rowid__ is not supported"@
                            &&& post.edit_rowid == o.edit_rowid
                        } else {
                            &&& post.outbox@.len() == o.outbox@.len() + 1
                            &&& post.outbox@.drop_last() == o.outbox@
                            &&& update_request_is(
                                post.outbox@.last(),
                                o.table_name()->0,
                                rowid,
                                o.columns@[col as int]@,
                                if o.edit_is_null {
                                    None
                                } else {
                                    Some(o.edit_buffer@)
                                },
                            )
                            &&& post.edit_rowid is None
                            &&& post.status@ == "Updating cell..."@
                        }
                    },
                }
            }))
    }

    /// End the edit and, where the table is keyed by the row identity, queue the
    /// update of the edited cell in the row whose identity was captured when the
    /// edit began: NULL where marked so, else the buffer.
    pub fn submit_cell_edit(&mut self)
        requires
            old(self).wf(),
        ensures
            final(self).wf(),
            Self::edit_submitted(*old(self), *final(self)),
    {
        let (row, col) = match self.mode {
            AppMode::Normal => return,
            AppMode::Editing { row, col, .. } => (row, col),
        };
        self.mode = AppMode::Normal;
        if self.selected_table >= self.tables.len() {
            return;
        }
        let table = self.tables[self.selected_table].clone();
        if self.window.rows.len() == 0 || self.columns.len() == 0 {
            return;
        }
        if !same_text(self.columns[0].as_str(), "__rowid__") {
            self.status = owned("Editing currently requires rowid-backed tables");
            return;
        }
        let rowid: i64 = match self.edit_rowid {
            Some(i) => i,
            None => {
                if row < self.window.rows.len() {
                    let cells = &self.window.rows[row];
                    assert(cells.deep_view() == self.shown()[row as int]);
                    if cells.len() > 0 {
                        match parse_i64(cells[0].as_str()) {
                            Some(i) => i,
                            None => -1,
                        }
                    } else {
                        -1
                    }
                } else {
                    -1
                }
            },
        };
        if rowid < 0 {
            self.status = owned("Invalid rowid; cannot update");
            return;
        }
        if col >= self.columns.len() || same_text(self.columns[col].as_str(), "__rowid__") {
            self.status = owned("Editing __rowid__ is not supported");
            return;
        }
        let new_value = if self.edit_is_null {
            None
        } else {
            Some(self.edit_buffer.clone())
        };
        let req = DBRequest::UpdateCell {
            table,
            rowid,
            column: self.columns[col].clone(),
            new_value,
        };
        let ghost before = self.outbox@;
        self.outbox.push(req);
        assert(self.outbox@.drop_last() =~= before);
        self.edit_rowid = None;
        self.status = owned("Updating cell...");
    }

    /// What `edit_input_insert(ch)` makes of `pre`.
    pub open spec fn char_inserted(pre: App, post: App, ch: char) -> bool {
        &&& (post.edit_only(&pre))
        &&& (post.status == pre.status)
        &&& (post.edit_is_null == pre.edit_is_null)
        &&& (post.edit_rowid == pre.edit_rowid)
        &&& (match pre.mode {
                AppMode::Editing { row, col, cursor } => cursor < usize::MAX ==> {
                    &&& post.edit_buffer@ == pre.edit_buffer@.insert(cursor as int, ch)
                    &&& post.mode == AppMode::Editing { row, col, cursor: (cursor + 1) as usize }
                },
                AppMode::Normal => post.edit_buffer == pre.edit_buffer && post.mode
                    == pre.mode,
            })
    }

    /// Insert `ch` at the caret and move the caret past it.
    pub fn edit_input_insert(&mut self, ch: char)
        requires
            old(self).wf(),
        ensures
            final(self).wf(),
            Self::char_inserted(*old(self), *final(self), ch),
    {
        if let AppMode::Editing { row, col, cursor } = self.mode {
            if cursor < usize::MAX {
                self.edit_buffer = insert_char(self.edit_buffer.as_str(), cursor, ch);
                self.mode = AppMode::Editing { row, col, cursor: cursor + 1 };
            }
        }
    }

    /// What `edit_input_backspace` makes of `pre`.
    pub open spec fn char_erased_before(pre: App, post: App) -> bool {
        &&& (post.edit_only(&pre))
        &&& (post.status == pre.status)
        &&& (post.edit_is_null == pre.edit_is_null)
        &&& (post.edit_rowid == pre.edit_rowid)
        &&& (match pre.mode {
                AppMode::Editing { row, col, cursor } => if cursor > 0 {
                    &&& post.edit_buffer@ == pre.edit_buffer@.remove(cursor - 1)
                    &&& post.mode == AppMode::Editing { row, col, cursor: (cursor - 1) as usize }
                } else {
                    post.edit_buffer == pre.edit_buffer && post.mode == pre.mode
                },
                AppMode::Normal => post.edit_buffer == pre.edit_buffer && post.mode
                    == pre.mode,
            })
    }

    /// Delete the character before the caret.
    pub fn edit_input_backspace(&mut self)
        requires
            old(self).wf(),
        ensures
            final(self).wf(),
            Self::char_erased_before(*old(self), *final(self)),
    {
        if let AppMode::Editing { row, col, cursor } = self.mode {
            if cursor > 0 {
                let new_cursor = prev_grapheme(self.edit_buffer.as_str(), cursor);
                self.edit_buffer = remove_char(self.edit_buffer.as_str(), new_cursor);
                self.mode = AppMode::Editing { row, col, cursor: new_cursor };
            }
        }
    }

    /// What `edit_input_delete` makes of `pre`.
    pub open spec fn char_erased_after(pre: App, post: App) -> bool {
        &&& (post.edit_only(&pre))
        &&& (post.status == pre.status)
        &&& (post.edit_is_null == pre.edit_is_null)
        &&& (post.edit_rowid == pre.edit_rowid)
        &&& (post.mode == pre.mode)
        &&& (match pre.mode {
                AppMode::Editing { cursor, .. } => if cursor < pre.edit_buffer@.len() {
                    post.edit_buffer@ == pre.edit_buffer@.remove(cursor as int)
                } else {
                    post.edit_buffer == pre.edit_buffer
                },
                AppMode::Normal => post.edit_buffer == pre.edit_buffer,
            })
    }

    /// Delete the character after the caret.
    pub fn edit_input_delete(&mut self)
        requires
            old(self).wf(),
        ensures
            final(self).wf(),
            Self::char_erased_after(*old(self), *final(self)),
    {
        if let AppMode::Editing { cursor, .. } = self.mode {
            if cursor < self.edit_buffer.unicode_len() {
                self.edit_buffer = remove_char(self.edit_buffer.as_str(), cursor);
            }
        }
    }

    /// What `edit_input_left` makes of `pre`.
    pub open spec fn caret_left(pre: App, post: App) -> bool {
        &&& (post.edit_only(&pre))
        &&& (post.status == pre.status)
        &&& (post.edit_buffer == pre.edit_buffer)
        &&& (post.edit_is_null == pre.edit_is_null)
        &&& (post.edit_rowid == pre.edit_rowid)
        &&& (post.mode == match pre.mode {
                AppMode::Editing { row, col, cursor } => AppMode::Editing {
                    row,
                    col,
                    cursor: if cursor == 0 { 0 } else { (cursor - 1) as usize },
                },
                AppMode::Normal => AppMode::Normal,
            })
    }

    /// Move the caret one character left.
    pub fn edit_input_left(&mut self)
        requires
            old(self).wf(),
        ensures
            final(self).wf(),
            Self::caret_left(*old(self), *final(self)),
    {
        if let AppMode::Editing { row, col, cursor } = self.mode {
            self.mode = AppMode::Editing {
                row,
                col,
                cursor: prev_grapheme(self.edit_buffer.as_str(), cursor),
            };
        }
    }

    /// What `edit_input_right` makes of `pre`.
    pub open spec fn caret_right(pre: App, post: App) -> bool {
        &&& (post.edit_only(&pre))
        &&& (post.status == pre.status)
        &&& (post.edit_buffer == pre.edit_buffer)
        &&& (post.edit_is_null == pre.edit_is_null)
        &&& (post.edit_rowid == pre.edit_rowid)
        &&& (post.mode == match pre.mode {
                AppMode::Editing { row, col, cursor } => AppMode::Editing {
                    row,
                    col,
                    cursor: if cursor + 1 < pre.edit_buffer@.len() {
                        (cursor + 1) as usize
                    } else {
                        pre.edit_buffer@.len() as usize
                    },
                },
                AppMode::Normal => AppMode::Normal,
            })
    }

    /// Move the caret one character right, not past the end.
    pub fn edit_input_right(&mut self)
        requires
            old(self).wf(),
        ensures
            final(self).wf(),
            Self::caret_right(*old(self), *final(self)),
    {
        if let AppMode::Editing { row, col, cursor } = self.mode {
            self.mode = AppMode::Editing {
                row,
                col,
                cursor: next_grapheme(self.edit_buffer.as_str(), cursor),
            };
        }
    }

    /// What `edit_input_home` makes of `pre`.
    pub open spec fn caret_home(pre: App, post: App) -> bool {
        &&& (post.edit_only(&pre))
        &&& (post.status == pre.status)
        &&& (post.edit_buffer == pre.edit_buffer)
        &&& (post.edit_is_null == pre.edit_is_null)
        &&& (post.edit_rowid == pre.edit_rowid)
        &&& (post.mode == match pre.mode {
                AppMode::Editing { row, col, .. } => AppMode::Editing { row, col, cursor: 0 },
                AppMode::Normal => AppMode::Normal,
            })
    }

    /// Move the caret to the start.
    pub fn edit_input_home(&mut self)
        requires
            old(self).wf(),
        ensures
            final(self).wf(),
            Self::caret_home(*old(self), *final(self)),
    {
        if let AppMode::Editing { row, col, .. } = self.mode {
            self.mode = AppMode::Editing { row, col, cursor: 0 };
        }
    }

    /// What `edit_input_end` makes of `pre`.
    pub open spec fn caret_end(pre: App, post: App) -> bool {
        &&& (post.edit_only(&pre))
        &&& (post.status == pre.status)
        &&& (post.edit_buffer == pre.edit_buffer)
        &&& (post.edit_is_null == pre.edit_is_null)
        &&& (post.edit_rowid == pre.edit_rowid)
        &&& (post.mode == match pre.mode {
                AppMode::Editing { row, col, .. } => AppMode::Editing {
                    row,
                    col,
                    cursor: pre.edit_buffer@.len() as usize,
                },
                AppMode::Normal => AppMode::Normal,
            })
    }

    /// Move the caret to the end.
    pub fn edit_input_end(&mut self)
        requires
            old(self).wf(),
        ensures
            final(self).wf(),
            Self::caret_end(*old(self), *final(self)),
    {
        if let AppMode::Editing { row, col, .. } = self.mode {
            self.mode = AppMode::Editing { row, col, cursor: self.edit_buffer.unicode_len() };
        }
    }
}

} // verus!
