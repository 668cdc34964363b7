use vstd::prelude::*;
use vstd::string::*;

use crate::app::App;

verus! {

/// How wide a column is drawn.
#[derive(PartialEq, Eq, Structural, Clone, Copy, Debug)]
pub enum Width {
    /// A fixed number of cells.
    Length(u16),
    /// A share of the width: numerator, denominator.
    Ratio(u32, u32),
}

/// The fixed width asked for column `i`; 0 where none is.
pub open spec fn abs_at(abs: Seq<u16>, i: int) -> u16 {
    if 0 <= i < abs.len() { abs[i] } else { 0 }
}

/// The tier of column `i`; normal where none is set.
pub open spec fn tier_at(tiers: Seq<u8>, i: int) -> u8 {
    if 0 <= i < tiers.len() { tiers[i] } else { 1 }
}

/// The share weight of a tier: narrow 1, normal 2, wide 3.
pub open spec fn tier_weight(t: u8) -> int {
    if t == 0 { 1 } else if t == 2 { 3 } else { 2 }
}

/// The sum of the weights of the first `n` columns.
pub open spec fn weight_sum(tiers: Seq<u8>, n: int) -> int
    decreases n,
{
    if n <= 0 { 0 } else { weight_sum(tiers, n - 1) + tier_weight(tier_at(tiers, n - 1)) }
}

/// Whether any of the first `cols` columns has a fixed width.
pub open spec fn any_abs(abs: Seq<u16>, cols: int) -> bool {
    exists|i: int| 0 <= i < cols && abs_at(abs, i) > 0
}

/// The width of column `i`: fixed widths, where any is set, are at least 3 and less
/// than the total, the other columns sharing the rest evenly; else shares by tier.
pub open spec fn width_at(total: u16, cols: usize, tiers: Seq<u8>, abs: Seq<u16>, i: int) -> Width {
    if any_abs(abs, cols as int) {
        let w = abs_at(abs, i);
        if w > 0 {
            let lo: u16 = if w < 3 { 3 } else { w };
            let cap: u16 = if total > 0 { (total - 1) as u16 } else { 0 };
            Width::Length(if lo < cap { lo } else { cap })
        } else {
            let n = #[verifier::truncate] (cols as u32);
            Width::Ratio(1, if n < 1 { 1 } else { n })
        }
    } else {
        let sum = #[verifier::truncate] (weight_sum(tiers, cols as int) as u32);
        if sum == 0 {
            Width::Ratio(1, #[verifier::truncate] (cols as u32))
        } else {
            Width::Ratio(#[verifier::truncate] (tier_weight(tier_at(tiers, i)) as u32), sum)
        }
    }
}

/// The widths of `cols` columns drawn in `total` cells.
pub fn column_widths(total_width: u16, cols: usize, tiers: &[u8], abs: &[u16]) -> (r: Vec<Width>)
    ensures
        r@.len() == cols,
        forall|i: int| 0 <= i < cols ==> #[trigger] r@[i] == width_at(total_width, cols, tiers@, abs@, i),
{
    let mut fixed = false;
    let mut i: usize = 0;
    while i < cols
        invariant
            i <= cols,
            fixed == exists|j: int| 0 <= j < i && abs_at(abs@, j) > 0,
        decreases cols - i,
    {
        let w = if i < abs.len() { abs[i] } else { 0 };
        assert(w == abs_at(abs@, i as int));
        if w > 0 {
            fixed = true;
        } else {
            assert(forall|j: int| 0 <= j < i + 1 && #[trigger] abs_at(abs@, j) > 0 ==> j < i);
        }
        i = i + 1;
    }
    let mut sum: u128 = 0;
    let mut k: usize = 0;
    while k < cols
        invariant
            k <= cols,
            sum == weight_sum(tiers@, k as int),
            sum <= 3 * k,
        decreases cols - k,
    {
        let t = if k < tiers.len() { tiers[k] } else { 1 };
        let wt: u128 = if t == 0 { 1 } else if t == 2 { 3 } else { 2 };
        sum = sum + wt;
        k = k + 1;
    }
    let n32: u32 = #[verifier::truncate] (cols as u32);
    let sum32: u32 = #[verifier::truncate] (sum as u32);
    let mut out: Vec<Width> = Vec::new();
    let mut c: usize = 0;
    while c < cols
        invariant
            c <= cols,
            out@.len() == c,
            fixed == any_abs(abs@, cols as int),
            sum32 == #[verifier::truncate] (weight_sum(tiers@, cols as int) as u32),
            n32 == #[verifier::truncate] (cols as u32),
            forall|j: int| 0 <= j < c ==> #[trigger] out@[j] == width_at(total_width, cols, tiers@, abs@, j),
        decreases cols - c,
    {
        let wd = if fixed {
            let w = if c < abs.len() { abs[c] } else { 0 };
            if w > 0 {
                let lo: u16 = if w < 3 { 3 } else { w };
                let cap: u16 = if total_width > 0 { total_width - 1 } else { 0 };
                Width::Length(if lo < cap { lo } else { cap })
            } else {
                Width::Ratio(1, if n32 < 1 { 1 } else { n32 })
            }
        } else if sum32 == 0 {
            Width::Ratio(1, n32)
        } else {
            let t = if c < tiers.len() { tiers[c] } else { 1 };
            let wt: u32 = if t == 0 { 1 } else if t == 2 { 3 } else { 2 };
            Width::Ratio(wt, sum32)
        };
        out.push(wd);
        c = c + 1;
    }
    out
}

/// The widest text of column `col` over the header and the first `n` rows.
pub open spec fn widest(header: Seq<Seq<char>>, rows: Seq<Seq<Seq<char>>>, col: int, n: int) -> int
    decreases n,
{
    if n <= 0 {
        if 0 <= col < header.len() { header[col].len() as int } else { 0 }
    } else {
        let prev = widest(header, rows, col, n - 1);
        let here = if 0 <= col < rows[n - 1].len() { rows[n - 1][col].len() as int } else { 0 };
        if here > prev { here } else { prev }
    }
}

/// The cells needed to show column `col` in full, header and rendered rows alike,
/// with two cells of padding; no columns need none.
pub fn measure_column_width(app: &App, col: usize) -> (r: u16)
    ensures
        app.columns@.len() == 0 ==> r == 0,
        app.columns@.len() > 0 ==> r == #[verifier::truncate] ((widest(
            app.columns.deep_view(),
            app.window.rows.deep_view(),
            col as int,
            app.window.rows@.len() as int,
        ) + 2) as u16),
{
    if app.columns.len() == 0 {
        return 0;
    }
    let mut best: usize = if col < app.columns.len() {
        app.columns[col].as_str().unicode_len()
    } else {
        0
    };
    let rows = &app.window.rows;
    let mut i: usize = 0;
    while i < rows.len()
        invariant
            i <= rows@.len(),
            rows == app.window.rows,
            app.columns@.len() > 0,
            best == widest(app.columns.deep_view(), rows.deep_view(), col as int, i as int),
        decreases rows@.len() - i,
    {
        let cells = &rows[i];
        assert(cells.deep_view() == rows.deep_view()[i as int]);
        if col < cells.len() {
            let l = cells[col].as_str().unicode_len();
            if l > best {
                best = l;
            }
        }
        i = i + 1;
    }
    let padded: u128 = best as u128 + 2;
    #[verifier::truncate]
    (padded as u16)
}

/// The cells column `col` needs in full, as `measure_column_width` gives them.
pub open spec fn measured(app: App, col: int) -> u16 {
    if app.columns@.len() == 0 {
        0
    } else {
        #[verifier::truncate] ((widest(
            app.columns.deep_view(),
            app.window.rows.deep_view(),
            col,
            app.window.rows@.len() as int,
        ) + 2) as u16)
    }
}

impl App {
    /// The fixed widths before a request is served: reset to none where they do not
    /// match the columns.
    pub open spec fn widths_base(&self) -> Seq<u16> {
        if self.col_abs_widths@.len() == self.columns@.len() {
            self.col_abs_widths@
        } else {
            Seq::new(self.columns@.len(), |i: int| 0u16)
        }
    }

    /// Serve the pending autosize requests: every column fitted to its content where
    /// all were asked for, else the one column asked for, if it exists.
    pub fn fulfil_autosize(&mut self)
        requires
            old(self).wf(),
        ensures
            final(self).wf(),
            final(self).layout_only(old(self)),
            final(self).col_width_tiers == old(self).col_width_tiers,
            final(self).autosize_col_request is None,
            !final(self).autosize_all_request,
            final(self).col_abs_widths@ == if old(self).autosize_all_request {
                Seq::new(old(self).columns@.len(), |i: int| measured(*old(self), i))
            } else {
                match old(self).autosize_col_request {
                    Some(c) => if c < old(self).columns@.len() {
                        old(self).widths_base().update(c as int, measured(*old(self), c as int))
                    } else {
                        old(self).widths_base()
                    },
                    None => old(self).widths_base(),
                }
            },
    {
        let cols = self.columns.len();
        let mut widths: Vec<u16> = if self.col_abs_widths.len() == cols {
            self.col_abs_widths.clone()
        } else {
            crate::app::filled(0u16, cols)
        };
        assert(widths@ == self.widths_base());
        if self.autosize_all_request {
            let mut all: Vec<u16> = Vec::new();
            let mut i: usize = 0;
            while i < cols
                invariant
                    cols == self.columns@.len(),
                    i <= cols,
                    all@.len() == i,
                    forall|j: int| 0 <= j < i ==> #[trigger] all@[j] == measured(*self, j),
                decreases cols - i,
            {
                all.push(measure_column_width(self, i));
                i = i + 1;
            }
            assert(all@ =~= Seq::new(cols as nat, |j: int| measured(*self, j)));
            widths = all;
        } else {
            match self.autosize_col_request {
                Some(c) => {
                    if c < cols {
                        let w = measure_column_width(self, c);
                        widths.set(c, w);
                    }
                },
                None => {},
            }
        }
        self.col_abs_widths = widths;
        self.autosize_all_request = false;
        self.autosize_col_request = None;
    }
}

} // verus!
