use vstd::prelude::*;

use crate::protocol::DBResponse;
use crate::query::opt_view;
use crate::text::{owned, same_text};

verus! {

/// One applied cell change, as needed to reverse it.
#[derive(Debug)]
pub struct Change {
    pub table: String,
    pub rowid: i64,
    pub column: String,
    pub prev_value: Option<String>,
    pub new_value: Option<String>,
}

/// The applied changes of every table, oldest first.
pub struct UndoHistory {
    pub changes: Vec<Change>,
}

/// The undo stack of `table`: its changes in `h`, oldest first.
pub open spec fn stack_of(h: Seq<Change>, table: Seq<char>) -> Seq<Change>
    decreases h.len(),
{
    if h.len() == 0 {
        Seq::empty()
    } else if h.last().table@ == table {
        stack_of(h.drop_last(), table).push(h.last())
    } else {
        stack_of(h.drop_last(), table)
    }
}

/// Removing the last change of `table` from `h` pops that table's stack and leaves
/// every other table's stack as it was.
proof fn lemma_remove_last_of(h: Seq<Change>, table: Seq<char>, k: int, other: Seq<char>)
    requires
        0 <= k < h.len(),
        h[k].table@ == table,
        forall|j: int| k < j < h.len() ==> h[j].table@ != table,
    ensures
        stack_of(h, table).len() > 0,
        stack_of(h, table).last() == h[k],
        stack_of(h.remove(k), table) == stack_of(h, table).drop_last(),
        other != table ==> stack_of(h.remove(k), other) == stack_of(h, other),
    decreases h.len(),
{
    if k == h.len() - 1 {
        assert(h.remove(k) =~= h.drop_last());
    } else {
        let t = h.drop_last();
        lemma_remove_last_of(t, table, k, other);
        assert(h.remove(k).drop_last() =~= t.remove(k));
        assert(h.remove(k).last() == h.last());
    }
}

/// Whether the newest change in `h` for `table` lies at `k`.
pub open spec fn newest_at(h: Seq<Change>, table: Seq<char>, k: int) -> bool {
    &&& 0 <= k < h.len()
    &&& h[k].table@ == table
    &&& forall|j: int| k < j < h.len() ==> h[j].table@ != table
}

proof fn lemma_no_entry_empty_stack(h: Seq<Change>, table: Seq<char>)
    requires
        forall|j: int| 0 <= j < h.len() ==> h[j].table@ != table,
    ensures
        stack_of(h, table).len() == 0,
    decreases h.len(),
{
    if h.len() > 0 {
        lemma_no_entry_empty_stack(h.drop_last(), table);
    }
}

/// The fields of a change as plain values.
pub open spec fn change_is(
    c: Change,
    table: Seq<char>,
    rowid: i64,
    column: Seq<char>,
    prev: Option<Seq<char>>,
    new: Option<Seq<char>>,
) -> bool {
    &&& c.table@ == table
    &&& c.rowid == rowid
    &&& c.column@ == column
    &&& opt_view(c.prev_value) == prev
    &&& opt_view(c.new_value) == new
}

impl UndoHistory {
    /// An empty history.
    pub fn new() -> (r: UndoHistory)
        ensures
            r.changes@.len() == 0,
    {
        UndoHistory { changes: Vec::new() }
    }

    /// Push `c` on its table's stack.
    pub fn record(&mut self, c: Change)
        ensures
            final(self).changes@ == old(self).changes@.push(c),
            stack_of(final(self).changes@, c.table@) == stack_of(old(self).changes@, c.table@).push(c),
            forall|t: Seq<char>| t != c.table@ ==> stack_of(final(self).changes@, t) == stack_of(
                old(self).changes@,
                t,
            ),
    {
        let ghost h = self.changes@;
        self.changes.push(c);
        assert(self.changes@.drop_last() =~= h);
    }

    /// Pop the newest change of `table`, if it has one.
    pub fn pop_last(&mut self, table: &str) -> (r: Option<Change>)
        ensures
            stack_of(old(self).changes@, table@).len() == 0 ==> r is None && final(self).changes@
                == old(self).changes@,
            stack_of(old(self).changes@, table@).len() > 0 ==> r == Some(
                stack_of(old(self).changes@, table@).last(),
            ),
            stack_of(final(self).changes@, table@) == if stack_of(old(self).changes@, table@).len()
                == 0 {
                stack_of(old(self).changes@, table@)
            } else {
                stack_of(old(self).changes@, table@).drop_last()
            },
            forall|t: Seq<char>| t != table@ ==> stack_of(final(self).changes@, t) == stack_of(
                old(self).changes@,
                t,
            ),
    {
        let ghost h = self.changes@;
        let mut i: usize = self.changes.len();
        while i > 0
            invariant
                i <= h.len(),
                h == old(self).changes@,
                self.changes@ == h,
                forall|j: int| i <= j < h.len() ==> h[j].table@ != table@,
            decreases i,
        {
            if same_text(self.changes[i - 1].table.as_str(), table) {
                let k = i - 1;
                proof {
                    assert(newest_at(h, table@, k as int));
                    lemma_remove_last_of(h, table@, k as int, table@);
                    assert forall|t: Seq<char>| t != table@ implies stack_of(h.remove(k as int), t)
                        == stack_of(h, t) by {
                        lemma_remove_last_of(h, table@, k as int, t);
                    }
                }
                let c = self.changes.remove(k);
                return Some(c);
            }
            i = i - 1;
        }
        proof {
            lemma_no_entry_empty_stack(h, table@);
        }
        None
    }
}

/// The response to a cell update, given the store's answer to the write; a write
/// that succeeded is pushed on its table's undo stack, with the value read before it.
pub fn update_cell(
    history: &mut UndoHistory,
    table: &str,
    rowid: i64,
    column: &str,
    prev_value: Option<String>,
    new_value: Option<String>,
    write: Result<(), String>,
) -> (r: DBResponse)
    ensures
        match write {
            Ok(_) => {
                &&& updated(
                    old(history).changes@,
                    final(history).changes@,
                    table@,
                    rowid,
                    column@,
                    opt_view(prev_value),
                    opt_view(new_value),
                )
                &&& final(history).changes@.len() == old(history).changes@.len() + 1
                &&& final(history).changes@.drop_last() == old(history).changes@
                &&& change_is(
                    final(history).changes@.last(),
                    table@,
                    rowid,
                    column@,
                    opt_view(prev_value),
                    opt_view(new_value),
                )
                &&& stack_of(final(history).changes@, table@) == stack_of(
                    old(history).changes@,
                    table@,
                ).push(final(history).changes@.last())
                &&& forall|t: Seq<char>| t != table@ ==> stack_of(final(history).changes@, t)
                    == stack_of(old(history).changes@, t)
                &&& r matches DBResponse::CellUpdated { ok: true, message: Some(m) }
                &&& m@ == "OK"@
            },
            Err(e) => {
                &&& final(history).changes@ == old(history).changes@
                &&& r matches DBResponse::CellUpdated { ok: false, message: Some(m) }
                &&& m@ == e@
            },
        },
{
    match write {
        Ok(()) => {
            let c = Change {
                table: owned(table),
                rowid,
                column: owned(column),
                prev_value,
                new_value,
            };
            let ghost h0 = history.changes@;
            history.record(c);
            assert(history.changes@.drop_last() =~= h0);
            DBResponse::CellUpdated { ok: true, message: Some(owned("OK")) }
        },
        Err(e) => DBResponse::CellUpdated { ok: false, message: Some(e) },
    }
}

/// Pop the newest change of `table` for undoing: the caller writes its
/// `prev_value` back. Undo is not itself recorded.
pub fn undo_last_change(history: &mut UndoHistory, table: &str) -> (r: Option<Change>)
    ensures
        undone(old(history).changes@, final(history).changes@, table@, r),
        stack_of(old(history).changes@, table@).len() == 0 ==> r is None
            && final(history).changes@ == old(history).changes@,
        stack_of(old(history).changes@, table@).len() > 0 ==> r == Some(
            stack_of(old(history).changes@, table@).last(),
        ) && stack_of(final(history).changes@, table@) == stack_of(
            old(history).changes@,
            table@,
        ).drop_last(),
        forall|t: Seq<char>| t != table@ ==> stack_of(final(history).changes@, t) == stack_of(
            old(history).changes@,
            t,
        ),
{
    history.pop_last(table)
}

/// The response to an undo: `None` where there was nothing to undo, else the
/// store's answer to writing the previous value back.
pub fn undo_outcome(write: Option<Result<(), String>>) -> (r: DBResponse)
    ensures
        match write {
            None => r matches DBResponse::CellUpdated { ok: true, message: Some(m) } && m@
                == "Nothing to undo"@,
            Some(Ok(_)) => r matches DBResponse::CellUpdated { ok: true, message: Some(m) } && m@
                == "Undo applied"@,
            Some(Err(e)) => r matches DBResponse::CellUpdated { ok: false, message: Some(m) } && m@
                == "Undo failed: "@ + e@,
        },
{
    match write {
        None => DBResponse::CellUpdated { ok: true, message: Some(owned("Nothing to undo")) },
        Some(Ok(())) => DBResponse::CellUpdated { ok: true, message: Some(owned("Undo applied")) },
        Some(Err(e)) => {
            let mut m = owned("Undo failed: ");
            crate::text::push_str(&mut m, e.as_str());
            DBResponse::CellUpdated { ok: false, message: Some(m) }
        },
    }
}

/// What `update_cell` does to the history when the write succeeds.
pub open spec fn updated(
    h0: Seq<Change>,
    h1: Seq<Change>,
    table: Seq<char>,
    rowid: i64,
    column: Seq<char>,
    prev: Option<Seq<char>>,
    new: Option<Seq<char>>,
) -> bool {
    &&& h1.len() == h0.len() + 1
    &&& h1.drop_last() == h0
    &&& change_is(h1.last(), table, rowid, column, prev, new)
}

/// What `undo_last_change` does to the history of `table` and returns.
pub open spec fn undone(h1: Seq<Change>, h2: Seq<Change>, table: Seq<char>, r: Option<Change>) -> bool {
    &&& stack_of(h1, table).len() == 0 ==> r is None && h2 == h1
    &&& stack_of(h1, table).len() > 0 ==> r == Some(stack_of(h1, table).last()) && stack_of(
        h2,
        table,
    ) == stack_of(h1, table).drop_last()
    &&& forall|t: Seq<char>| t != table ==> stack_of(h2, t) == stack_of(h1, t)
}

/// An update followed by an undo of the same table hands back the updated cell with
/// its previous value, null or not, for writing back, and leaves every table's undo
/// stack as it was before the update.
pub proof fn lemma_undo_reverses_update(
    h0: Seq<Change>,
    h1: Seq<Change>,
    h2: Seq<Change>,
    table: Seq<char>,
    rowid: i64,
    column: Seq<char>,
    prev: Option<Seq<char>>,
    new: Option<Seq<char>>,
    r: Option<Change>,
)
    requires
        updated(h0, h1, table, rowid, column, prev, new),
        undone(h1, h2, table, r),
    ensures
        r is Some,
        change_is(r->0, table, rowid, column, prev, new),
        forall|t: Seq<char>| stack_of(h2, t) == stack_of(h0, t),
{
    assert(h1 =~= h0.push(h1.last()));
    assert forall|t: Seq<char>| stack_of(h2, t) == stack_of(h0, t) by {
        assert(stack_of(h1, t) == if h1.last().table@ == t {
            stack_of(h0, t).push(h1.last())
        } else {
            stack_of(h0, t)
        });
        if t == table {
            assert(stack_of(h0, t).push(h1.last()).drop_last() =~= stack_of(h0, t));
        }
    }
}

/// Undo on a table with no recorded change takes nothing from the history and gives
/// nothing to write back.
pub proof fn lemma_nothing_to_undo(h1: Seq<Change>, h2: Seq<Change>, table: Seq<char>, r: Option<Change>)
    requires
        stack_of(h1, table).len() == 0,
        undone(h1, h2, table, r),
    ensures
        r is None,
        h2 == h1,
{
}

} // verus!
