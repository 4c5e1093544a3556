use vstd::prelude::*;
use crate::columns::{Columns, ColumnsView};

verus! {

/// Horizontal space between the block's left edge and the text of a row.
pub const INSET: i64 = 2;

/// Extra width of the highlight and of the border beyond the widest row.
pub const PADDING: u64 = 4;

/// An axis-aligned rectangle in window pixels.
#[derive(Clone, Copy, Debug, PartialEq, Eq, Structural)]
pub struct Rect {
    pub x: i64,
    pub y: i64,
    pub width: u64,
    pub height: u64,
}

/// Where one row of the list is drawn.
#[derive(Clone, Copy, Debug, PartialEq, Eq, Structural)]
pub struct Placement {
    /// Index of the row in the whole list.
    pub index: usize,
    pub rect: Rect,
}

/// Everything drawn for a list in one frame.
pub struct BlockLayout {
    /// The background behind the selected row, when that row is drawn.
    pub highlight: Option<Rect>,
    /// The rows drawn, top to bottom.
    pub rows: Vec<Placement>,
    /// The frame around the block.
    pub border: Rect,
}

pub open spec fn rect_is(r: Rect, x: int, y: int, width: int, height: int) -> bool {
    r.x == x && r.y == y && r.width == width && r.height == height
}

/// Number of row slots that lie at least partly inside the viewport: the
/// slots `k` with `k * line_height < viewport_height`.
pub open spec fn touching_rows(v: ColumnsView) -> nat
    recommends
        v.line_height > 0,
{
    let q = v.viewport_height / v.line_height;
    if v.viewport_height % v.line_height == 0 {
        q
    } else {
        q + 1
    }
}

/// Number of rows drawn: those from the first visible one on that lie at
/// least partly inside the viewport.
pub open spec fn drawn_count(v: ColumnsView) -> nat {
    let top = v.top_visible();
    let n = v.widths.len();
    if top >= n {
        0
    } else if (n - top) < touching_rows(v) {
        (n - top) as nat
    } else {
        touching_rows(v)
    }
}

/// A row slot is counted by `touching_rows` exactly when it starts inside
/// the viewport.
proof fn lemma_touching(v: ColumnsView, k: nat)
    requires
        v.line_height > 0,
    ensures
        k < touching_rows(v) <==> k * v.line_height < v.viewport_height,
        touching_rows(v) <= v.viewport_height,
        v.visible_rows() <= touching_rows(v),
        v.viewport_height > 0 ==> touching_rows(v) > 0,
{
    let lh = v.line_height as int;
    let vh = v.viewport_height as int;
    let q = vh / lh;
    let r = vh % lh;
    let ki = k as int;
    vstd::arithmetic::div_mod::lemma_fundamental_div_mod(vh, lh);
    vstd::arithmetic::div_mod::lemma_mod_pos_bound(vh, lh);
    assert(q >= 0) by {
        vstd::arithmetic::div_mod::lemma_div_pos_is_pos(vh, lh);
    }
    vstd::arithmetic::mul::lemma_mul_is_commutative(lh, q);
    if ki < q {
        assert(ki * lh + lh <= q * lh) by (nonlinear_arith)
            requires
                ki < q,
                lh > 0,
        ;
    } else {
        assert(ki * lh >= q * lh) by (nonlinear_arith)
            requires
                ki >= q,
                lh > 0,
        ;
        if ki > q {
            assert(ki * lh >= q * lh + lh) by (nonlinear_arith)
                requires
                    ki > q,
                    lh > 0,
            ;
        }
    }
    if q == 0 {
        assert(lh * q == 0) by (nonlinear_arith)
            requires
                q == 0,
        ;
    }
    assert(q <= q * lh) by (nonlinear_arith)
        requires
            q >= 0,
            lh > 0,
    ;
}

impl<T> Columns<T> {
    /// Lays out the block with its top-left corner at (`x_pos`, `y_pos`):
    /// the rows from the first visible one on that lie at least partly
    /// inside the viewport, one below the other; the highlight behind the
    /// selected row; and a border as wide as the widest row plus padding and
    /// as high as all rows together.
    pub fn layout(&self, x_pos: u32, y_pos: u32) -> (r: BlockLayout)
        requires
            self@.line_height > 0,
        ensures
            r.rows@.len() == drawn_count(self@),
            forall|k: int|
                0 <= k < r.rows@.len() ==> {
                    let p = #[trigger] r.rows@[k];
                    &&& p.index == self@.top_visible() + k
                    &&& k * self@.line_height < self@.viewport_height
                    &&& rect_is(
                        p.rect,
                        x_pos + INSET,
                        y_pos + k * self@.line_height,
                        self@.widths[self@.top_visible() + k] as int,
                        self@.line_height as int,
                    )
                },
            r.highlight.is_some() <==> self@.selected_visible() < drawn_count(self@),
            self@.wf() && self@.viewport_height > 0 ==> (r.highlight.is_some() <==> self@.selected
                < self@.widths.len()),
            r.highlight.is_some() ==> rect_is(
                r.highlight.unwrap(),
                x_pos as int,
                y_pos + self@.selected_visible() * self@.line_height,
                self@.max_width + PADDING,
                self@.line_height as int,
            ),
            rect_is(r.border, x_pos as int, y_pos as int, self@.max_width + PADDING, self@.total_height as int),
    {
        let top = self.top_visible();
        let n = self.len();
        let lh = self.line_height();
        let vh = self.viewport_height();
        proof {
            lemma_touching(self@, 0);
        }
        let q: u32 = vh / lh;
        let touching: u64 = if vh % lh == 0 {
            q as u64
        } else {
            q as u64 + 1
        };
        let count: usize = if top >= n {
            0
        } else if ((n - top) as u64) < touching {
            n - top
        } else {
            touching as usize
        };
        let x: i64 = x_pos as i64 + INSET;
        let mut rows: Vec<Placement> = Vec::new();
        let mut y: i64 = y_pos as i64;
        let mut k: usize = 0;
        while k < count
            invariant
                count == drawn_count(self@),
                count <= touching_rows(self@),
                top == self@.top_visible(),
                count == 0 || top + count <= n,
                n == self@.widths.len(),
                lh == self@.line_height,
                vh == self@.viewport_height,
                lh > 0,
                x == x_pos + INSET,
                k <= count,
                y == y_pos + k * lh,
                rows@.len() == k,
                forall|j: int|
                    0 <= j < k ==> {
                        let p = #[trigger] rows@[j];
                        &&& p.index == top + j
                        &&& j * lh < vh
                        &&& rect_is(p.rect, x as int, y_pos + j * lh, self@.widths[top + j] as int, lh as int)
                    },
            decreases count - k,
        {
            proof {
                lemma_touching(self@, k as nat);
                assert((k + 1) * lh == k * lh + lh) by (nonlinear_arith);
            }
            let w = self.width(top + k);
            rows.push(Placement { index: top + k, rect: Rect { x, y, width: w as u64, height: lh as u64 } });
            y = y + lh as i64;
            k = k + 1;
        }
        let sel = self.selected_visible();
        proof {
            lemma_touching(self@, sel as nat);
        }
        let highlight = if sel < count {
            Some(Rect {
                x: x_pos as i64,
                y: y_pos as i64 + (sel as i64) * (lh as i64),
                width: self.max_width() as u64 + PADDING,
                height: lh as u64,
            })
        } else {
            None
        };
        let border = Rect {
            x: x_pos as i64,
            y: y_pos as i64,
            width: self.max_width() as u64 + PADDING,
            height: self.total_height() as u64,
        };
        BlockLayout { highlight, rows, border }
    }
}

} // verus!
