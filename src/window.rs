use vstd::prelude::*;

verus! {

/// One row as shown: the row identity first, then each column's text.
pub type Row = Vec<String>;

/// Where a directional move was resolved.
#[derive(PartialEq, Eq, Structural, Clone, Copy, Debug)]
pub enum Step {
    /// Handled within the buffer: no fetch is needed.
    Local,
    /// The target row lies outside the buffer: a fetch at the global offset is needed.
    Fetch,
    /// Nothing moved.
    Stay,
}

/// The row-window engine: the fetched buffer, the user's intended scroll position,
/// and the rendered sub-window with its selected row.
pub struct RowWindow {
    /// Rows requested per fetch.
    pub page_size: usize,
    /// Rows the viewport can show.
    pub visible_rows_per_page: usize,
    /// Absolute position of the first row the user intends to see.
    pub global_row_offset: usize,
    /// Start of the rendered window, as an index into `buffer_rows`.
    pub view_start: usize,
    /// The rows of the last fetch.
    pub buffer_rows: Vec<Row>,
    /// Absolute position of `buffer_rows[0]`.
    pub buffer_offset: usize,
    /// Offset of the most recent fetch that was issued.
    pub last_requested_offset: usize,
    /// The rendered rows: `buffer_rows[view_start .. view_start + capacity]`.
    pub rows: Vec<Row>,
    /// Selected row, relative to the rendered window.
    pub sel_row: usize,
}

/// Number of rows rendered for a viewport of `vis` rows over a buffer of `len` rows.
pub open spec fn capacity_for(vis: int, len: int) -> int {
    if vis < len { vis } else { len }
}

/// Largest valid window start over a buffer of `len` rows with capacity `cap`.
pub open spec fn clamp_start(global: int, offset: int, len: int, cap: int) -> int {
    let want = if global > offset { global - offset } else { 0 };
    if want > len - cap { len - cap } else { want }
}

/// The last index of a window of `cap` rows, or 0 for an empty window.
pub open spec fn last_index(cap: int) -> int {
    if cap > 0 { cap - 1 } else { 0 }
}

impl RowWindow {
    pub open spec fn capacity(&self) -> int {
        capacity_for(self.visible_rows_per_page as int, self.buffer_rows@.len() as int)
    }

    /// The window's internal invariant.
    pub open spec fn wf(&self) -> bool {
        &&& self.page_size >= 1
        &&& 1 <= self.visible_rows_per_page <= self.page_size
        &&& self.view_start + self.capacity() <= self.buffer_rows@.len()
        &&& self.rows.deep_view() == self.buffer_rows.deep_view().subrange(
            self.view_start as int,
            self.view_start + self.capacity(),
        )
        &&& self.sel_row <= last_index(self.capacity())
    }

    /// Absolute position of the selected row.
    pub open spec fn selected_position(&self) -> int {
        self.buffer_offset + self.view_start + self.sel_row
    }

    /// The intended scroll position is the first rendered row.
    pub open spec fn synced(&self) -> bool {
        self.global_row_offset == self.buffer_offset + self.view_start
    }

    /// The buffer is the run of `table` that starts at `buffer_offset`.
    pub open spec fn holds_run_of(&self, table: Seq<Seq<Seq<char>>>) -> bool {
        &&& self.buffer_offset + self.buffer_rows@.len() <= table.len()
        &&& self.buffer_rows.deep_view() == table.subrange(
            self.buffer_offset as int,
            self.buffer_offset + self.buffer_rows@.len(),
        )
    }

    /// Everything but the rendered window and the selection is unchanged.
    pub open spec fn same_settings(&self, other: &RowWindow) -> bool {
        &&& self.page_size == other.page_size
        &&& self.visible_rows_per_page == other.visible_rows_per_page
        &&& self.buffer_rows.deep_view() == other.buffer_rows.deep_view()
        &&& self.buffer_rows@.len() == other.buffer_rows@.len()
        &&& self.buffer_offset == other.buffer_offset
    }

    /// What `reconcile` makes of `old` when `rows`, fetched at `offset`, land.
    pub open spec fn reconciled(
        old: RowWindow,
        rows: Seq<Seq<Seq<char>>>,
        offset: usize,
        new: RowWindow,
    ) -> bool {
        let len = rows.len() as int;
        let cap = capacity_for(old.visible_rows_per_page as int, len);
        let start = clamp_start(old.global_row_offset as int, offset as int, len, cap);
        &&& new.page_size == old.page_size
        &&& new.visible_rows_per_page == old.visible_rows_per_page
        &&& new.global_row_offset == old.global_row_offset
        &&& new.buffer_rows.deep_view() == rows
        &&& new.buffer_offset == offset
        &&& new.view_start == start
        &&& new.rows.deep_view() == rows.subrange(start, start + cap)
        &&& new.sel_row == if (old.sel_row as int) < last_index(cap) {
            old.sel_row as int
        } else {
            last_index(cap)
        }
    }

    /// How `move_down` resolves a step from `w`.
    pub open spec fn step_down_of(w: RowWindow) -> Step {
        let cap = w.capacity();
        let room = w.global_row_offset.saturating_add(w.sel_row).saturating_add(1)
            < w.buffer_offset.saturating_add(w.buffer_rows@.len() as usize);
        if (w.sel_row as int) < last_index(cap) {
            Step::Local
        } else if room && cap > 0 && w.view_start + cap < w.buffer_rows@.len() {
            Step::Local
        } else {
            Step::Fetch
        }
    }

    /// How `move_up` resolves a step from `w`.
    pub open spec fn step_up_of(w: RowWindow) -> Step {
        if w.sel_row > 0 {
            Step::Local
        } else if w.global_row_offset > w.buffer_offset && w.view_start > 0 {
            Step::Local
        } else if w.global_row_offset > 0 {
            Step::Fetch
        } else {
            Step::Stay
        }
    }

    /// What `move_down` makes of `old`.
    pub open spec fn moved_down(old: RowWindow, new: RowWindow, step: Step) -> bool {
        let cap = old.capacity();
        let len = old.buffer_rows@.len() as int;
        let room = old.global_row_offset.saturating_add(old.sel_row).saturating_add(1)
            < old.buffer_offset.saturating_add(old.buffer_rows@.len() as usize);
        &&& new.same_settings(&old)
        &&& new.last_requested_offset == old.last_requested_offset
        &&& if (old.sel_row as int) < last_index(cap) {
            &&& step == Step::Local
            &&& new.sel_row == old.sel_row + 1
            &&& new.view_start == old.view_start
            &&& new.global_row_offset == old.global_row_offset
            &&& new.rows.deep_view() == old.rows.deep_view()
        } else if room && cap > 0 && old.view_start + cap < len {
            &&& step == Step::Local
            &&& new.sel_row == old.sel_row
            &&& new.view_start == old.view_start + 1
            &&& new.global_row_offset == old.global_row_offset + 1
            &&& new.rows.deep_view() == old.buffer_rows.deep_view().subrange(old.view_start + 1, old.view_start + 1 + cap)
        } else {
            &&& step == Step::Fetch
            &&& new.sel_row == old.sel_row
            &&& new.view_start == old.view_start
            &&& new.global_row_offset == old.global_row_offset.saturating_add(1)
            &&& new.rows.deep_view() == old.rows.deep_view()
        }
    }

    /// What `move_up` makes of `old`.
    pub open spec fn moved_up(old: RowWindow, new: RowWindow, step: Step) -> bool {
        let cap = old.capacity();
        &&& new.same_settings(&old)
        &&& new.last_requested_offset == old.last_requested_offset
        &&& if old.sel_row > 0 {
            &&& step == Step::Local
            &&& new.sel_row == old.sel_row - 1
            &&& new.view_start == old.view_start
            &&& new.global_row_offset == old.global_row_offset
            &&& new.rows.deep_view() == old.rows.deep_view()
        } else if old.global_row_offset > old.buffer_offset && old.view_start > 0 {
            &&& step == Step::Local
            &&& new.sel_row == 0
            &&& new.view_start == old.view_start - 1
            &&& new.global_row_offset == old.global_row_offset - 1
            &&& new.rows.deep_view() == old.buffer_rows.deep_view().subrange(old.view_start - 1, old.view_start - 1 + cap)
        } else if old.global_row_offset > 0 {
            &&& step == Step::Fetch
            &&& new.sel_row == old.sel_row
            &&& new.view_start == old.view_start
            &&& new.global_row_offset == old.global_row_offset - 1
            &&& new.rows.deep_view() == old.rows.deep_view()
        } else {
            &&& step == Step::Stay
            &&& new == old
        }
    }

    /// An empty window over `page_size` rows per fetch.
    pub fn new(page_size: usize) -> (r: RowWindow)
        requires
            page_size >= 1,
        ensures
            r.wf(),
            r.page_size == page_size,
            r.visible_rows_per_page == page_size,
            r.global_row_offset == 0,
            r.buffer_offset == 0,
            r.view_start == 0,
            r.sel_row == 0,
            r.buffer_rows@.len() == 0,
            r.rows@.len() == 0,
    {
        let r = RowWindow {
            page_size,
            visible_rows_per_page: page_size,
            global_row_offset: 0,
            view_start: 0,
            buffer_rows: Vec::new(),
            buffer_offset: 0,
            last_requested_offset: 0,
            rows: Vec::new(),
            sel_row: 0,
        };
        assert(r.rows.deep_view() =~= r.buffer_rows.deep_view().subrange(0, 0));
        r
    }

    pub fn visible_capacity(&self) -> (r: usize)
        ensures
            r == self.capacity(),
    {
        if self.visible_rows_per_page < self.buffer_rows.len() {
            self.visible_rows_per_page
        } else {
            self.buffer_rows.len()
        }
    }

    /// Replace the buffer with `rows`, fetched at absolute position `offset`, and
    /// rebuild the rendered window and the selection over it.
    pub fn reconcile(&mut self, rows: Vec<Row>, offset: usize)
        requires
            old(self).wf(),
            rows@.len() <= old(self).page_size,
        ensures
            final(self).wf(),
            Self::reconciled(*old(self), rows.deep_view(), offset, *final(self)),
            final(self).last_requested_offset == old(self).last_requested_offset,
    {
        let ghost old_self = *self;
        self.buffer_rows = rows;
        self.buffer_offset = offset;
        let len = self.buffer_rows.len();
        let cap = self.visible_capacity();
        let want = self.global_row_offset.saturating_sub(offset);
        let max_start = len - cap;
        self.view_start = if want > max_start { max_start } else { want };
        self.rows = slice_rows(&self.buffer_rows, self.view_start, cap);
        let last = if cap > 0 { cap - 1 } else { 0 };
        if self.sel_row > last {
            self.sel_row = last;
        }
        assert(Self::reconciled(old_self, rows.deep_view(), offset, *self));
    }

    /// What `set_visible_rows(n)` makes of `old`: the viewport takes `n` rows,
    /// clamped to `1 ..= page_size`; the window start and the selection are clamped
    /// into the new capacity, and where the window start moves, the scroll position
    /// follows it.
    pub open spec fn resized(old: RowWindow, new: RowWindow, n: usize) -> bool {
        let vis: int = if n < 1 {
            1
        } else if n > old.page_size {
            old.page_size as int
        } else {
            n as int
        };
        let len = old.buffer_rows@.len() as int;
        let cap = capacity_for(vis, len);
        let start = if old.view_start > len - cap { len - cap } else { old.view_start as int };
        &&& new.page_size == old.page_size
        &&& new.visible_rows_per_page == vis
        &&& new.buffer_rows == old.buffer_rows
        &&& new.buffer_offset == old.buffer_offset
        &&& new.last_requested_offset == old.last_requested_offset
        &&& new.view_start == start
        &&& new.sel_row == if (old.sel_row as int) < last_index(cap) {
            old.sel_row as int
        } else {
            last_index(cap)
        }
        &&& new.global_row_offset == if old.view_start > len - cap {
            old.buffer_offset.saturating_add(start as usize) as int
        } else {
            old.global_row_offset as int
        }
    }

    /// Set the viewport's row count, clamped to `1 ..= page_size`, and rebuild the
    /// rendered window over the current buffer.
    pub fn set_visible_rows(&mut self, n: usize)
        requires
            old(self).wf(),
        ensures
            final(self).wf(),
            Self::resized(*old(self), *final(self), n),
            old(self).synced() ==> final(self).synced(),
    {
        let v = if n < 1 {
            1
        } else if n > self.page_size {
            self.page_size
        } else {
            n
        };
        self.visible_rows_per_page = v;
        let len = self.buffer_rows.len();
        let cap = self.visible_capacity();
        let max_start = len - cap;
        if self.view_start > max_start {
            self.view_start = max_start;
            self.global_row_offset = self.buffer_offset.saturating_add(max_start);
        }
        self.rows = slice_rows(&self.buffer_rows, self.view_start, cap);
        let last = if cap > 0 { cap - 1 } else { 0 };
        if self.sel_row > last {
            self.sel_row = last;
        }
    }

    /// Move the selection down one row: within the window, by shifting the window
    /// over the buffer, or by asking for a fetch one row further on.
    pub fn move_down(&mut self) -> (step: Step)
        requires
            old(self).wf(),
        ensures
            final(self).wf(),
            Self::moved_down(*old(self), *final(self), step),
    {
        let cap = self.visible_capacity();
        let last = if cap > 0 { cap - 1 } else { 0 };
        if self.sel_row < last {
            self.sel_row = self.sel_row + 1;
            return Step::Local;
        }
        let buffer_end = self.buffer_offset.saturating_add(self.buffer_rows.len());
        let room = self.global_row_offset.saturating_add(self.sel_row).saturating_add(1)
            < buffer_end;
        if room && cap > 0 && self.view_start + cap < self.buffer_rows.len() {
            let ghost before = self.rows@;
            let ghost old_deep = self.rows.deep_view();
            assert(before.len() == self.rows.deep_view().len());
            self.global_row_offset = self.global_row_offset + 1;
            self.view_start = self.view_start + 1;
            let new_row = self.buffer_rows[self.view_start + cap - 1].clone();
            assert(new_row.deep_view() =~= self.buffer_rows@[self.view_start + cap - 1].deep_view());
            self.rows.remove(0);
            self.rows.push(new_row);
            assert(self.rows@ == before.subrange(1, before.len() as int).push(new_row));
            assert forall|j: int| 0 <= j < cap implies #[trigger] self.rows@[j].deep_view()
                == self.buffer_rows@[self.view_start + j].deep_view() by {
                if j < cap - 1 {
                    assert(self.rows@[j] == before[j + 1]);
                    assert(old_deep[j + 1] == before[j + 1].deep_view());
                }
            }
            assert(self.rows.deep_view() =~= self.buffer_rows.deep_view().subrange(
                self.view_start as int,
                self.view_start + cap,
            ));
            return Step::Local;
        }
        self.global_row_offset = self.global_row_offset.saturating_add(1);
        Step::Fetch
    }

    /// Move the selection up one row: within the window, by shifting the window
    /// over the buffer, or by asking for a fetch that starts at the target row, which
    /// lands at the top of the window.
    pub fn move_up(&mut self) -> (step: Step)
        requires
            old(self).wf(),
        ensures
            final(self).wf(),
            Self::moved_up(*old(self), *final(self), step),
    {
        if self.sel_row > 0 {
            self.sel_row = self.sel_row - 1;
            return Step::Local;
        }
        if self.global_row_offset > self.buffer_offset && self.view_start > 0 {
            let cap = self.visible_capacity();
            let ghost before = self.rows@;
            let ghost old_deep = self.rows.deep_view();
            assert(before.len() == self.rows.deep_view().len());
            self.global_row_offset = self.global_row_offset - 1;
            self.view_start = self.view_start - 1;
            let new_row = self.buffer_rows[self.view_start].clone();
            assert(new_row.deep_view() =~= self.buffer_rows@[self.view_start as int].deep_view());
            if cap > 0 {
                self.rows.pop();
            }
            self.rows.insert(0, new_row);
            assert(cap > 0 ==> self.rows@ =~= seq![new_row] + before.subrange(0, cap - 1));
            assert forall|j: int| 0 <= j < cap implies #[trigger] self.rows@[j].deep_view()
                == self.buffer_rows@[self.view_start + j].deep_view() by {
                if j > 0 {
                    assert(self.rows@[j] == before[j - 1]);
                    assert(old_deep[j - 1] == before[j - 1].deep_view());
                }
            }
            assert(self.rows.deep_view() =~= self.buffer_rows.deep_view().subrange(
                self.view_start as int,
                self.view_start + cap,
            ));
            return Step::Local;
        }
        if self.global_row_offset > 0 {
            self.global_row_offset = self.global_row_offset - 1;
            return Step::Fetch;
        }
        Step::Stay
    }
}

/// A copy of `buf[start .. start + count]`.
pub fn slice_rows(buf: &Vec<Row>, start: usize, count: usize) -> (r: Vec<Row>)
    requires
        start + count <= buf@.len(),
    ensures
        r.deep_view() == buf.deep_view().subrange(start as int, start + count),
{
    let mut out: Vec<Row> = Vec::new();
    let mut i: usize = 0;
    let n = buf.len();
    while i < count
        invariant
            n == buf@.len(),
            start + count <= buf@.len(),
            i <= count,
            out@.len() == i,
            forall|j: int| 0 <= j < i ==> #[trigger] out@[j].deep_view() == buf@[start + j].deep_view(),
        decreases count - i,
    {
        let row = buf[start + i].clone();
        assert(row.deep_view() =~= buf@[start + i].deep_view());
        out.push(row);
        i = i + 1;
    }
    assert(out.deep_view() =~= buf.deep_view().subrange(start as int, start + count));
    out
}


/// The rows a fresh fetch at `offset` returns from `table`, `page_size` at most.
pub open spec fn page_at(table: Seq<Seq<Seq<char>>>, offset: int, page_size: int) -> Seq<Seq<Seq<char>>> {
    let end = if offset + page_size < table.len() { offset + page_size } else { table.len() as int };
    table.subrange(offset, end)
}

impl RowWindow {
    /// The row under the selection.
    pub open spec fn selected_row(&self) -> Seq<Seq<char>> {
        self.rows.deep_view()[self.sel_row as int]
    }
}

/// Whatever the viewport capacity and whatever the size of the buffer that lands,
/// the rendered window lies inside the buffer once it is reconciled.
pub proof fn lemma_window_inside_buffer(
    old: RowWindow,
    rows: Seq<Seq<Seq<char>>>,
    offset: usize,
    new: RowWindow,
)
    requires
        old.wf(),
        RowWindow::reconciled(old, rows, offset, new),
    ensures
        new.view_start + new.capacity() <= new.buffer_rows@.len(),
        new.capacity() == capacity_for(old.visible_rows_per_page as int, rows.len() as int),
{
    assert(new.buffer_rows@.len() == new.buffer_rows.deep_view().len());
}

/// A single step down, whether the buffer served it or a fetch at the new scroll
/// position did, selects the row that a direct fetch of the next absolute position
/// returns.
pub proof fn lemma_move_down_matches_fetch(
    table: Seq<Seq<Seq<char>>>,
    old: RowWindow,
    mid: RowWindow,
    step: Step,
    new: RowWindow,
)
    requires
        table.len() <= usize::MAX,
        old.wf(),
        old.synced(),
        old.holds_run_of(table),
        old.capacity() > 0,
        old.selected_position() + 1 < table.len(),
        RowWindow::moved_down(old, mid, step),
        mid.wf(),
        step == Step::Local ==> new == mid,
        step == Step::Fetch ==> RowWindow::reconciled(
            mid,
            page_at(table, mid.global_row_offset as int, mid.page_size as int),
            mid.global_row_offset,
            new,
        ),
        new.wf(),
    ensures
        new.selected_position() == old.selected_position() + 1,
        new.synced(),
        new.holds_run_of(table),
        new.selected_row() == table[new.selected_position()],
{
    let cap = old.capacity();
    let len = old.buffer_rows@.len() as int;
    assert(old.buffer_rows.deep_view().len() == len);
    assert(old.rows.deep_view()[old.sel_row as int] == table[old.selected_position()]);
    if step == Step::Fetch {
        let o = mid.global_row_offset as int;
        let resp = page_at(table, o, mid.page_size as int);
        assert(o == old.buffer_offset + old.view_start + 1);
        assert(old.view_start + cap == len);
        assert(new.buffer_rows@.len() == new.buffer_rows.deep_view().len());
        assert(new.buffer_rows.deep_view() =~= table.subrange(o, o + resp.len()));
    } else {
        assert(new.buffer_rows.deep_view() == old.buffer_rows.deep_view());
    }
}

/// A single step up, whether the buffer served it or a fetch at the new scroll
/// position did, selects the row that a direct fetch of the previous absolute
/// position returns.
pub proof fn lemma_move_up_matches_fetch(
    table: Seq<Seq<Seq<char>>>,
    old: RowWindow,
    mid: RowWindow,
    step: Step,
    new: RowWindow,
)
    requires
        table.len() <= usize::MAX,
        old.wf(),
        old.synced(),
        old.holds_run_of(table),
        old.capacity() > 0,
        old.selected_position() >= 1,
        RowWindow::moved_up(old, mid, step),
        mid.wf(),
        step == Step::Local ==> new == mid,
        step == Step::Fetch ==> RowWindow::reconciled(
            mid,
            page_at(table, mid.global_row_offset as int, mid.page_size as int),
            mid.global_row_offset,
            new,
        ),
        new.wf(),
    ensures
        step != Step::Stay,
        new.selected_position() == old.selected_position() - 1,
        new.synced(),
        new.holds_run_of(table),
        new.selected_row() == table[new.selected_position()],
{
    let len = old.buffer_rows@.len() as int;
    assert(old.buffer_rows.deep_view().len() == len);
    if step == Step::Fetch {
        let o = mid.global_row_offset as int;
        let resp = page_at(table, o, mid.page_size as int);
        assert(new.buffer_rows@.len() == new.buffer_rows.deep_view().len());
        assert(new.buffer_rows.deep_view() =~= table.subrange(o, o + resp.len()));
    } else {
        assert(new.buffer_rows.deep_view() == old.buffer_rows.deep_view());
    }
}

/// A page fetched from `table` at the scroll position and reconciled leaves the
/// window settled: its first rendered row is the scroll position and its buffer is
/// the run of `table` that starts there. A fresh window is settled over any table.
pub proof fn lemma_fresh_page_settles(table: Seq<Seq<Seq<char>>>, old: RowWindow, new: RowWindow)
    requires
        old.wf(),
        old.global_row_offset <= table.len(),
        RowWindow::reconciled(
            old,
            page_at(table, old.global_row_offset as int, old.page_size as int),
            old.global_row_offset,
            new,
        ),
    ensures
        new.synced(),
        new.holds_run_of(table),
        new.view_start == 0,
{
    let o = old.global_row_offset as int;
    let resp = page_at(table, o, old.page_size as int);
    assert(new.buffer_rows@.len() == new.buffer_rows.deep_view().len());
    assert(new.buffer_rows.deep_view() =~= table.subrange(o, o + resp.len()));
}

/// A window with an empty buffer at scroll position 0, as `new` makes it, is settled
/// over any table.
pub proof fn lemma_empty_window_settles(table: Seq<Seq<Seq<char>>>, w: RowWindow)
    requires
        w.buffer_rows@.len() == 0,
        w.buffer_offset == 0,
        w.view_start == 0,
        w.global_row_offset == 0,
    ensures
        w.synced(),
        w.holds_run_of(table),
{
    assert(w.buffer_rows.deep_view() =~= table.subrange(0, 0));
}

/// A change of viewport size keeps a settled window settled: still synced, and its
/// buffer still the run of `table` at its offset.
pub proof fn lemma_resize_keeps_settled(table: Seq<Seq<Seq<char>>>, old: RowWindow, new: RowWindow, n: usize)
    requires
        old.wf(),
        old.synced(),
        old.holds_run_of(table),
        RowWindow::resized(old, new, n),
    ensures
        new.synced(),
        new.holds_run_of(table),
{
}

} // verus!
