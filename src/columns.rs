use vstd::prelude::*;

verus! {

/// Height in pixels of the window the list is drawn in.
pub const SCREEN_HEIGHT: u32 = 480;

/// What the event loop is told by one input event.
#[derive(Clone, Copy, Debug, PartialEq, Eq, Structural)]
pub enum Input {
    /// The window was closed or the quit key pressed.
    Quit,
    /// The key that moves the selection down one row.
    Next,
    /// The key that moves the selection up one row.
    Previous,
    /// Any other event.
    Other,
}

/// Whether the event loop goes on after an event.
#[derive(Clone, Copy, Debug, PartialEq, Eq, Structural)]
pub enum LoopState {
    Running,
    Terminated,
}

/// The state of the event loop after `input`.
pub open spec fn next_state(input: Input) -> LoopState {
    if input == Input::Quit {
        LoopState::Terminated
    } else {
        LoopState::Running
    }
}

/// Sum of a sequence of naturals.
pub open spec fn sum(s: Seq<nat>) -> nat
    decreases s.len(),
{
    if s.len() == 0 {
        0
    } else {
        sum(s.drop_last()) + s.last()
    }
}

/// Largest element of a sequence of naturals, zero when it is empty.
pub open spec fn max_of(s: Seq<nat>) -> nat
    decreases s.len(),
{
    if s.len() == 0 {
        0
    } else {
        let m = max_of(s.drop_last());
        if m < s.last() {
            s.last()
        } else {
            m
        }
    }
}

/// The mathematical model of a list viewport.
pub struct ColumnsView {
    /// Index of the highlighted row in the whole list.
    pub selected: nat,
    /// Pixel width of each row, in the order the rows were added.
    pub widths: Seq<nat>,
    /// Height of the most recently added row (zero while the list is empty).
    pub line_height: nat,
    /// Widest row so far.
    pub max_width: nat,
    /// Sum of the heights of all rows.
    pub total_height: nat,
    /// Height in pixels of the area the list is shown in.
    pub viewport_height: nat,
}

impl ColumnsView {
    /// An empty list shown in a viewport of the given height.
    pub open spec fn empty(viewport_height: nat) -> ColumnsView {
        ColumnsView {
            selected: 0,
            widths: Seq::empty(),
            line_height: 0,
            max_width: 0,
            total_height: 0,
            viewport_height,
        }
    }

    /// The list after one more row of the given size is appended.
    pub open spec fn added(self, width: nat, height: nat) -> ColumnsView {
        ColumnsView {
            widths: self.widths.push(width),
            line_height: height,
            max_width: if self.max_width < width { width } else { self.max_width },
            total_height: self.total_height + height,
            ..self
        }
    }

    /// The list after rows with the given widths and heights are appended,
    /// in order.
    pub open spec fn added_all(self, widths: Seq<nat>, heights: Seq<nat>) -> ColumnsView
        recommends
            widths.len() == heights.len(),
        decreases widths.len(),
    {
        if widths.len() == 0 || heights.len() == 0 {
            self
        } else {
            self.added_all(widths.drop_last(), heights.drop_last()).added(widths.last(), heights.last())
        }
    }

    /// The selection after `input`: it moves one row down or up, and stays
    /// where it is at either end of the list.
    pub open spec fn selected_after(self, input: Input) -> nat {
        match input {
            Input::Next => if self.selected + 1 < self.widths.len() {
                self.selected + 1
            } else {
                self.selected
            },
            Input::Previous => if self.selected > 0 {
                (self.selected - 1) as nat
            } else {
                0
            },
            _ => self.selected,
        }
    }

    /// The selection stays on a row, or at zero while there are none.
    pub open spec fn wf(self) -> bool {
        self.selected == 0 || self.selected < self.widths.len()
    }

    pub open spec fn visible_rows(self) -> nat
        recommends
            self.line_height > 0,
    {
        self.viewport_height / self.line_height
    }

    /// Index of the first row drawn: the selection is kept in the middle of
    /// the viewport once it is past the first half-screen of rows.
    pub open spec fn top_visible(self) -> nat {
        let half = self.visible_rows() / 2;
        if self.selected > half {
            (self.selected - half) as nat
        } else {
            0
        }
    }

    /// Position of the selected row among the rows drawn.
    pub open spec fn selected_visible(self) -> nat {
        (self.selected - self.top_visible()) as nat
    }
}

/// Rows of widths `w1..wn` and heights `h1..hn` added one by one to an empty
/// list leave it with those widths, a total height that is the sum of the
/// heights, a widest width that is the largest of the widths, and a row
/// height that is the last height added.
pub proof fn lemma_added_rows(viewport_height: nat, widths: Seq<nat>, heights: Seq<nat>)
    requires
        widths.len() == heights.len(),
    ensures
        ColumnsView::empty(viewport_height).added_all(widths, heights).widths == widths,
        ColumnsView::empty(viewport_height).added_all(widths, heights).total_height == sum(heights),
        ColumnsView::empty(viewport_height).added_all(widths, heights).max_width == max_of(widths),
        heights.len() > 0 ==> ColumnsView::empty(viewport_height).added_all(widths, heights).line_height
            == heights.last(),
    decreases widths.len(),
{
    if widths.len() > 0 {
        lemma_added_rows(viewport_height, widths.drop_last(), heights.drop_last());
        assert(widths.drop_last().push(widths.last()) =~= widths);
    } else {
        assert(widths =~= Seq::empty());
    }
}

/// Widths of rows given as `(item, width, height)`.
pub open spec fn widths_of<T>(rows: Seq<(T, u32, u32)>) -> Seq<nat> {
    rows.map_values(|r: (T, u32, u32)| r.1 as nat)
}

/// Heights of rows given as `(item, width, height)`.
pub open spec fn heights_of<T>(rows: Seq<(T, u32, u32)>) -> Seq<nat> {
    rows.map_values(|r: (T, u32, u32)| r.2 as nat)
}

/// Items of rows given as `(item, width, height)`.
pub open spec fn items_of<T>(rows: Seq<(T, u32, u32)>) -> Seq<T> {
    rows.map_values(|r: (T, u32, u32)| r.0)
}

/// The sum of a prefix is at most the sum of the whole sequence.
proof fn lemma_sum_prefix(s: Seq<nat>, i: int)
    requires
        0 <= i <= s.len(),
    ensures
        sum(s.take(i)) <= sum(s),
    decreases s.len(),
{
    if i < s.len() {
        lemma_sum_prefix(s.drop_last(), i);
        assert(s.drop_last().take(i) =~= s.take(i));
    } else {
        assert(s.take(i) =~= s);
    }
}

/// A list of rows, each an item of type `T` with its pixel width, shown in a
/// viewport of fixed height with one row selected.
pub struct Columns<T> {
    selected: usize,
    rows: Vec<(T, u32)>,
    line_height: u32,
    max_width: u32,
    total_height: u32,
    viewport_height: u32,
}

impl<T> View for Columns<T> {
    type V = ColumnsView;

    closed spec fn view(&self) -> ColumnsView {
        ColumnsView {
            selected: self.selected as nat,
            widths: self.rows@.map_values(|r: (T, u32)| r.1 as nat),
            line_height: self.line_height as nat,
            max_width: self.max_width as nat,
            total_height: self.total_height as nat,
            viewport_height: self.viewport_height as nat,
        }
    }
}

impl<T> Columns<T> {
    /// The row items, in the order they were added.
    pub closed spec fn items(&self) -> Seq<T> {
        self.rows@.map_values(|r: (T, u32)| r.0)
    }

    /// An empty list in a window of `SCREEN_HEIGHT` pixels.
    pub fn init() -> (r: Self)
        ensures
            r@ == ColumnsView::empty(SCREEN_HEIGHT as nat),
            r@.wf(),
    {
        Self::with_viewport_height(SCREEN_HEIGHT)
    }

    /// An empty list in a viewport of `viewport_height` pixels.
    pub fn with_viewport_height(viewport_height: u32) -> (r: Self)
        ensures
            r@ == ColumnsView::empty(viewport_height as nat),
            r@.wf(),
    {
        let r = Columns {
            selected: 0,
            rows: Vec::new(),
            line_height: 0,
            max_width: 0,
            total_height: 0,
            viewport_height,
        };
        assert(r@.widths =~= Seq::empty());
        r
    }

    /// Number of whole rows that fit in the viewport.
    pub fn visible_rows(&self) -> (r: u32)
        requires
            self@.line_height > 0,
        ensures
            r == self@.visible_rows(),
    {
        self.viewport_height / self.line_height
    }

    /// Index of the first row drawn.
    pub fn top_visible(&self) -> (r: usize)
        requires
            self@.line_height > 0,
        ensures
            r == self@.top_visible(),
            self@.selected <= self@.visible_rows() / 2 ==> r == 0,
            self@.selected > self@.visible_rows() / 2 ==> r == self@.selected - self@.visible_rows() / 2,
    {
        let half = (self.visible_rows() / 2) as usize;
        if self.selected > half {
            self.selected - half
        } else {
            0
        }
    }

    /// Position of the selected row among the rows drawn.
    pub fn selected_visible(&self) -> (r: usize)
        requires
            self@.line_height > 0,
        ensures
            r == self@.selected_visible(),
            r == self@.selected - self@.top_visible(),
    {
        self.selected - self.top_visible()
    }

    /// A list in a window of `SCREEN_HEIGHT` pixels holding the given
    /// `(item, width, height)` rows, added in order.
    pub fn from_rows(rows: Vec<(T, u32, u32)>) -> (r: Self)
        requires
            sum(heights_of(rows@)) <= u32::MAX,
        ensures
            r@ == ColumnsView::empty(SCREEN_HEIGHT as nat).added_all(widths_of(rows@), heights_of(rows@)),
            r.items() == items_of(rows@),
            r@.wf(),
    {
        let ghost all = rows@;
        let n = rows.len();
        let mut rows = rows;
        let mut reversed: Vec<(T, u32, u32)> = Vec::new();
        while rows.len() > 0
            invariant
                n == all.len(),
                rows@ == all.take(rows@.len() as int),
                reversed@.len() == n - rows@.len(),
                forall|j: int| 0 <= j < reversed@.len() ==> #[trigger] reversed@[j] == all[n - 1 - j],
            decreases rows@.len(),
        {
            let row = rows.pop().unwrap();
            reversed.push(row);
            assert(rows@ =~= all.take(rows@.len() as int));
        }
        let mut c = Self::init();
        let ghost ws = widths_of(all);
        let ghost hs = heights_of(all);
        proof {
            assert(ws.take(0) =~= Seq::<nat>::empty());
            assert(hs.take(0) =~= Seq::<nat>::empty());
            assert(c.items() =~= items_of(all).take(0));
        }
        while reversed.len() > 0
            invariant
                n == all.len(),
                ws == widths_of(all),
                hs == heights_of(all),
                sum(hs) <= u32::MAX,
                reversed@.len() <= n,
                forall|j: int| 0 <= j < reversed@.len() ==> #[trigger] reversed@[j] == all[n - 1 - j],
                c@ == ColumnsView::empty(SCREEN_HEIGHT as nat).added_all(
                    ws.take(n - reversed@.len()),
                    hs.take(n - reversed@.len()),
                ),
                c.items() == items_of(all).take(n - reversed@.len()),
                c@.wf(),
            decreases reversed@.len(),
        {
            let ghost i = n - reversed@.len();
            let (item, width, height) = reversed.pop().unwrap();
            proof {
                assert(ws.take(i + 1).drop_last() =~= ws.take(i));
                assert(hs.take(i + 1).drop_last() =~= hs.take(i));
                lemma_added_rows(SCREEN_HEIGHT as nat, ws.take(i), hs.take(i));
                lemma_sum_prefix(hs, i + 1);
            }
            c.add(item, width, height);
            proof {
                assert(c.items() =~= items_of(all).take(i + 1));
            }
        }
        proof {
            assert(ws.take(n as int) =~= ws);
            assert(hs.take(n as int) =~= hs);
            assert(items_of(all).take(n as int) =~= items_of(all));
        }
        c
    }

    /// Appends a row of the given size. The row height becomes `height`,
    /// the total height grows by it, and the widest width is kept.
    pub fn add(&mut self, item: T, width: u32, height: u32)
        requires
            old(self)@.total_height + height <= u32::MAX,
        ensures
            final(self)@ == old(self)@.added(width as nat, height as nat),
            final(self).items() == old(self).items().push(item),
            old(self)@.wf() ==> final(self)@.wf(),
    {
        self.rows.push((item, width));
        self.total_height = self.total_height + height;
        self.line_height = height;
        if self.max_width < width {
            self.max_width = width;
        }
        assert(self@.widths =~= old(self)@.widths.push(width as nat));
        assert(self.items() =~= old(self).items().push(item));
    }

    /// Reacts to one input event: moves the selection, without leaving the
    /// list, and says whether the loop goes on.
    pub fn handle(&mut self, input: Input) -> (r: LoopState)
        requires
            old(self)@.wf(),
        ensures
            r == next_state(input),
            final(self)@ == (ColumnsView { selected: old(self)@.selected_after(input), ..old(self)@ }),
            final(self).items() == old(self).items(),
            final(self)@.wf(),
    {
        match input {
            Input::Quit => LoopState::Terminated,
            Input::Next => {
                if self.rows.len() > 0 && self.selected < self.rows.len() - 1 {
                    self.selected = self.selected + 1;
                }
                LoopState::Running
            },
            Input::Previous => {
                if self.selected > 0 {
                    self.selected = self.selected - 1;
                }
                LoopState::Running
            },
            Input::Other => LoopState::Running,
        }
    }

    /// Index of the selected row.
    pub fn selected(&self) -> (r: usize)
        ensures
            r == self@.selected,
    {
        self.selected
    }

    /// Number of rows.
    pub fn len(&self) -> (r: usize)
        ensures
            r == self@.widths.len(),
    {
        self.rows.len()
    }

    /// Height of the most recently added row.
    pub fn line_height(&self) -> (r: u32)
        ensures
            r == self@.line_height,
    {
        self.line_height
    }

    /// Widest row width.
    pub fn max_width(&self) -> (r: u32)
        ensures
            r == self@.max_width,
    {
        self.max_width
    }

    /// Sum of all row heights.
    pub fn total_height(&self) -> (r: u32)
        ensures
            r == self@.total_height,
    {
        self.total_height
    }

    /// Height of the viewport.
    pub fn viewport_height(&self) -> (r: u32)
        ensures
            r == self@.viewport_height,
    {
        self.viewport_height
    }

    /// The item of row `i`.
    pub fn item(&self, i: usize) -> (r: &T)
        requires
            i < self@.widths.len(),
        ensures
            *r == self.items()[i as int],
    {
        &self.rows[i].0
    }

    /// The width of row `i`.
    pub fn width(&self, i: usize) -> (r: u32)
        requires
            i < self@.widths.len(),
        ensures
            r == self@.widths[i as int],
    {
        self.rows[i].1
    }
}

} // verus!
