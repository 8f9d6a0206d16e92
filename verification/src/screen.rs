//! The screen-buffer model: a fixed width-by-height grid of cells in
//! row-major order, each cell optionally holding one displayable grapheme
//! and a display attribute.

use vstd::prelude::*;

verus! {

/// A display attribute for one cell. Only the plain (unstyled) variant
/// exists today; the enum is the extension point for future styles.
#[derive(Clone, Copy, PartialEq, Eq, Structural, Debug)]
pub enum Attr {
    Plain,
}

/// One user-perceived unit of displayable text, created once from a source
/// string and immutable afterwards.
#[derive(Clone, Debug)]
pub struct Grapheme {
    character: String,
}

impl View for Grapheme {
    type V = Seq<char>;

    closed spec fn view(&self) -> Seq<char> {
        self.character@
    }
}

impl Grapheme {
    /// Build a grapheme holding the characters of `ch`.
    pub fn new(ch: &str) -> (g: Grapheme)
        ensures
            g@ == ch@,
    {
        Grapheme { character: ch.to_owned() }
    }

    /// The textual content of the grapheme.
    pub fn character(&self) -> (s: &str)
        ensures
            s@ == self@,
    {
        self.character.as_str()
    }
}

/// One grid position: a display attribute and, optionally, a grapheme.
#[derive(Clone, Debug)]
pub struct Cell {
    pub attr: Attr,
    pub grapheme: Option<Grapheme>,
}

impl Cell {
    /// An empty cell: plain attribute, no content.
    pub fn new() -> (c: Cell)
        ensures
            c.attr == Attr::Plain,
            c.grapheme is None,
    {
        Cell { attr: Attr::Plain, grapheme: None }
    }
}

/// A fixed-size grid of cells, stored row-major: coordinate `(x, y)` lives
/// at index `y * width + x`.
pub struct Screen {
    w: u16,
    h: u16,
    cells: Vec<Cell>,
}

impl Screen {
    pub closed spec fn spec_width(self) -> u16 {
        self.w
    }

    pub closed spec fn spec_height(self) -> u16 {
        self.h
    }

    pub closed spec fn cell_seq(self) -> Seq<Cell> {
        self.cells@
    }

    /// Well-formedness: the cell store covers the whole grid, exactly.
    pub open spec fn wf(self) -> bool {
        self.cell_seq().len() == self.spec_width() * self.spec_height()
    }

    pub open spec fn in_bounds(self, x: u16, y: u16) -> bool {
        x < self.spec_width() && y < self.spec_height()
    }

    /// The row-major index of coordinate `(x, y)`.
    pub open spec fn cell_index(self, x: u16, y: u16) -> int {
        y * self.spec_width() + x
    }

    /// The cell at `(x, y)`, or absent when the coordinate is out of range.
    pub open spec fn spec_cell_at(self, x: u16, y: u16) -> Option<Cell> {
        if self.in_bounds(x, y) {
            Some(self.cell_seq()[self.cell_index(x, y)])
        } else {
            None
        }
    }

    /// A row-major index stays inside the cell store.
    proof fn lemma_index_in_range(self, x: u16, y: u16)
        requires
            self.wf(),
            self.in_bounds(x, y),
        ensures
            0 <= self.cell_index(x, y) < self.cell_seq().len(),
    {
        lemma_coord_index_bound(
            self.spec_width() as int,
            self.spec_height() as int,
            x as int,
            y as int,
        );
    }

    /// Allocate a `w` by `h` grid of empty cells.
    pub fn new(w: u16, h: u16) -> (s: Screen)
        ensures
            s.wf(),
            s.spec_width() == w,
            s.spec_height() == h,
            forall|i: int|
                0 <= i < s.cell_seq().len() ==> (#[trigger] s.cell_seq()[i]).attr == Attr::Plain
                    && s.cell_seq()[i].grapheme is None,
    {
        proof {
            lemma_grid_size_bound(w as int, h as int);
        }
        let n: usize = (w as usize) * (h as usize);
        let mut cells: Vec<Cell> = Vec::new();
        let mut i: usize = 0;
        while i < n
            invariant
                i <= n,
                cells.len() == i,
                forall|j: int|
                    0 <= j < i ==> (#[trigger] cells@[j]).attr == Attr::Plain
                        && cells@[j].grapheme is None,
            decreases n - i,
        {
            cells.push(Cell::new());
            i = i + 1;
        }
        Screen { w, h, cells }
    }

    pub fn width(&self) -> (w: u16)
        ensures
            w == self.spec_width(),
    {
        self.w
    }

    pub fn height(&self) -> (h: u16)
        ensures
            h == self.spec_height(),
    {
        self.h
    }

    /// Read access to the cell at `(x, y)`; absent when out of range.
    pub fn cell_at(&self, x: u16, y: u16) -> (r: Option<&Cell>)
        requires
            self.wf(),
        ensures
            match r {
                Some(c) => self.in_bounds(x, y) && *c == self.cell_seq()[self.cell_index(
                    x,
                    y,
                )] && self.spec_cell_at(x, y) == Some(*c),
                None => !self.in_bounds(x, y),
            },
    {
        if x < self.w && y < self.h {
            proof {
                self.lemma_index_in_range(x, y);
                lemma_flat_index_bound(self.w as int, x as int, y as int);
            }
            let idx: usize = (y as usize) * (self.w as usize) + (x as usize);
            Some(&self.cells[idx])
        } else {
            None
        }
    }

    /// Write access to the cell at `(x, y)`; absent when out of range, in
    /// which case the screen is unchanged.
    pub fn cell_at_mut(&mut self, x: u16, y: u16) -> (r: Option<&mut Cell>)
        requires
            old(self).wf(),
        ensures
            match r {
                Some(c) => old(self).in_bounds(x, y) && *c == old(self).cell_seq()[old(
                    self,
                ).cell_index(x, y)] && final(self).cell_seq() == old(self).cell_seq().update(
                    old(self).cell_index(x, y),
                    *final(c),
                ),
                None => !old(self).in_bounds(x, y) && *final(self) == *old(self),
            },
            final(self).spec_width() == old(self).spec_width(),
            final(self).spec_height() == old(self).spec_height(),
            final(self).wf(),
    {
        if x < self.w && y < self.h {
            proof {
                self.lemma_index_in_range(x, y);
                lemma_flat_index_bound(self.w as int, x as int, y as int);
            }
            let idx: usize = (y as usize) * (self.w as usize) + (x as usize);
            Some(&mut self.cells[idx])
        } else {
            None
        }
    }

    /// A fresh row-major traversal of every cell.
    pub fn cells(&self) -> (it: CellIter<'_>)
        requires
            self.wf(),
        ensures
            it.screen_of() == *self,
            it.spec_index() == 0,
    {
        CellIter { screen: self, index: 0 }
    }
}

/// After an in-bounds write through `cell_at_mut`, reading the same
/// coordinate back observes exactly the written cell, and every other
/// coordinate is untouched.
pub proof fn lemma_cell_write_then_read(pre: Screen, post: Screen, x: u16, y: u16, c: Cell)
    requires
        pre.wf(),
        pre.in_bounds(x, y),
        post.spec_width() == pre.spec_width(),
        post.spec_height() == pre.spec_height(),
        post.cell_seq() == pre.cell_seq().update(pre.cell_index(x, y), c),
    ensures
        post.spec_cell_at(x, y) == Some(c),
        forall|x2: u16, y2: u16|
            pre.in_bounds(x2, y2) && (x2 != x || y2 != y) ==> #[trigger] post.spec_cell_at(x2, y2)
                == pre.spec_cell_at(x2, y2),
{
    pre.lemma_index_in_range(x, y);
    assert forall|x2: u16, y2: u16|
        pre.in_bounds(x2, y2) && (x2 != x || y2 != y) implies #[trigger] post.spec_cell_at(x2, y2)
        == pre.spec_cell_at(x2, y2) by {
        pre.lemma_index_in_range(x2, y2);
        lemma_row_major_injective(pre.spec_width(), x, y, x2, y2);
    }
}

/// A flattened index built from coordinate-sized values fits in 32 bits.
proof fn lemma_flat_index_bound(w: int, x: int, y: int)
    requires
        0 <= x <= u16::MAX,
        0 <= y <= u16::MAX,
        0 <= w <= u16::MAX,
    ensures
        0 <= y * w + x <= u16::MAX * u16::MAX + u16::MAX,
{
    assert(0 <= y * w + x <= u16::MAX * u16::MAX + u16::MAX) by (nonlinear_arith)
        requires
            0 <= x <= u16::MAX,
            0 <= y <= u16::MAX,
            0 <= w <= u16::MAX,
    ;
}

/// The row-major index of an in-range coordinate lies inside the store.
proof fn lemma_coord_index_bound(w: int, h: int, x: int, y: int)
    requires
        0 <= x < w,
        0 <= y < h,
    ensures
        0 <= y * w + x < w * h,
{
    assert(0 <= y * w + x < w * h) by (nonlinear_arith)
        requires
            0 <= x < w,
            0 <= y < h,
    ;
}

/// A grid of coordinates bounded by the coordinate type fits in 32 bits.
proof fn lemma_grid_size_bound(w: int, h: int)
    requires
        0 <= w <= u16::MAX,
        0 <= h <= u16::MAX,
    ensures
        w * h <= u16::MAX * u16::MAX,
{
    assert(w * h <= u16::MAX * u16::MAX) by (nonlinear_arith)
        requires
            0 <= w <= u16::MAX,
            0 <= h <= u16::MAX,
    ;
}

/// A store whose size is a product of nonnegative factors is nonempty only
/// when both factors are positive.
proof fn lemma_pos_width(w: int, h: int, len: int)
    requires
        len == w * h,
        len > 0,
        0 <= w,
        0 <= h,
    ensures
        w > 0,
        h > 0,
{
    assert(w > 0 && h > 0) by (nonlinear_arith)
        requires
            len == w * h,
            len > 0,
            0 <= w,
            0 <= h,
    ;
}

/// Distinct in-range coordinates have distinct row-major indices.
proof fn lemma_row_major_injective(w: u16, x1: u16, y1: u16, x2: u16, y2: u16)
    requires
        x1 < w,
        x2 < w,
        x1 != x2 || y1 != y2,
    ensures
        y1 * w + x1 != y2 * w + x2,
{
    assert(y1 * w + x1 != y2 * w + x2) by (nonlinear_arith)
        requires
            x1 < w,
            x2 < w,
            x1 != x2 || y1 != y2,
    ;
}

/// A row-major traversal of a screen's cells, yielding `(x, y, cell)`
/// triples in order of increasing index.
pub struct CellIter<'a> {
    screen: &'a Screen,
    index: usize,
}

impl<'a> CellIter<'a> {
    pub closed spec fn screen_of(self) -> Screen {
        *self.screen
    }

    pub closed spec fn spec_index(self) -> int {
        self.index as int
    }

    /// The coordinate the traversal yields for cell-store index `i`.
    pub open spec fn coord_of(s: Screen, i: int) -> (u16, u16) {
        (((i % (s.spec_width() as int)) as u16), ((i / (s.spec_width() as int)) as u16))
    }

    /// Yield the next `(x, y, cell)` triple, or absent when the traversal
    /// is complete.
    pub fn next(&mut self) -> (r: Option<(u16, u16, &'a Cell)>)
        requires
            old(self).screen_of().wf(),
        ensures
            final(self).screen_of() == old(self).screen_of(),
            match r {
                Some(t) => {
                    &&& old(self).spec_index() < old(self).screen_of().cell_seq().len()
                    &&& final(self).spec_index() == old(self).spec_index() + 1
                    &&& (t.0, t.1) == Self::coord_of(old(self).screen_of(), old(self).spec_index())
                    &&& *t.2 == old(self).screen_of().cell_seq()[old(self).spec_index()]
                    &&& old(self).screen_of().cell_index(t.0, t.1) == old(self).spec_index()
                    &&& old(self).screen_of().in_bounds(t.0, t.1)
                },
                None => {
                    &&& old(self).spec_index() >= old(self).screen_of().cell_seq().len()
                    &&& final(self).spec_index() == old(self).spec_index()
                },
            },
    {
        let s = self.screen;
        if self.index < s.cells.len() {
            let ghost i = self.index as int;
            proof {
                lemma_pos_width(
                    s.spec_width() as int,
                    s.spec_height() as int,
                    s.cell_seq().len() as int,
                );
                lemma_row_major_decompose(s.spec_width() as int, s.spec_height() as int, i);
            }
            let x: u16 = (self.index % (s.w as usize)) as u16;
            let y: u16 = (self.index / (s.w as usize)) as u16;
            let cell = &s.cells[self.index];
            self.index = self.index + 1;
            Some((x, y, cell))
        } else {
            None
        }
    }
}

/// Decomposing a row-major index: for `i` inside a `w` by `h` store, the
/// quotient and remainder by `w` are a valid coordinate that maps back to
/// `i`, and both fit in the coordinate type.
proof fn lemma_row_major_decompose(w: int, h: int, i: int)
    requires
        0 < w <= u16::MAX,
        0 <= h <= u16::MAX,
        0 <= i < w * h,
    ensures
        0 <= i % w < w,
        0 <= i / w < h,
        (i / w) * w + (i % w) == i,
{
    assert(0 <= i % w < w && 0 <= i / w < h && (i / w) * w + (i % w) == i) by (nonlinear_arith)
        requires
            0 < w,
            0 <= h,
            0 <= i < w * h,
    ;
}

/// Row-major enumeration visits every coordinate of the grid exactly once,
/// in row-major order: the triple yielded at step `i` carries coordinate
/// `(i % w, i / w)`, distinct steps carry distinct coordinates, every
/// in-bounds coordinate is carried by some step, and later steps never
/// precede earlier ones in (y, x) order.
pub proof fn lemma_row_major_enumeration(s: Screen)
    requires
        s.wf(),
    ensures
        forall|i: int|
            0 <= i < s.cell_seq().len() ==> {
                let (x, y) = #[trigger] CellIter::coord_of(s, i);
                s.in_bounds(x, y) && s.cell_index(x, y) == i
            },
        forall|i: int, j: int|
            0 <= i < j < s.cell_seq().len() ==> #[trigger] CellIter::coord_of(s, i)
                != #[trigger] CellIter::coord_of(s, j),
        forall|x: u16, y: u16|
            s.in_bounds(x, y) ==> {
                let i = #[trigger] s.cell_index(x, y);
                0 <= i < s.cell_seq().len() && CellIter::coord_of(s, i) == (x, y)
            },
        forall|i: int, j: int|
            0 <= i < j < s.cell_seq().len() ==> {
                let (xi, yi) = #[trigger] CellIter::coord_of(s, i);
                let (xj, yj) = #[trigger] CellIter::coord_of(s, j);
                yi < yj || (yi == yj && xi < xj)
            },
{
    let w = s.spec_width() as int;
    let h = s.spec_height() as int;
    assert forall|i: int| 0 <= i < s.cell_seq().len() implies {
        let (x, y) = #[trigger] CellIter::coord_of(s, i);
        s.in_bounds(x, y) && s.cell_index(x, y) == i
    } by {
        lemma_pos_width(w, h, s.cell_seq().len() as int);
        lemma_row_major_decompose(w, h, i);
    }
    assert forall|i: int, j: int|
        0 <= i < j < s.cell_seq().len() implies #[trigger] CellIter::coord_of(s, i)
        != #[trigger] CellIter::coord_of(s, j) by {
        lemma_pos_width(w, h, s.cell_seq().len() as int);
        lemma_row_major_decompose(w, h, i);
        lemma_row_major_decompose(w, h, j);
    }
    assert forall|x: u16, y: u16| s.in_bounds(x, y) implies {
        let i = #[trigger] s.cell_index(x, y);
        0 <= i < s.cell_seq().len() && CellIter::coord_of(s, i) == (x, y)
    } by {
        s.lemma_index_in_range(x, y);
        let i = s.cell_index(x, y);
        assert(i % w == x && i / w == y) by (nonlinear_arith)
            requires
                w > 0,
                0 <= x < w,
                0 <= y,
                i == y * w + x,
        ;
    }
    assert forall|i: int, j: int| 0 <= i < j < s.cell_seq().len() implies {
        let (xi, yi) = #[trigger] CellIter::coord_of(s, i);
        let (xj, yj) = #[trigger] CellIter::coord_of(s, j);
        yi < yj || (yi == yj && xi < xj)
    } by {
        lemma_pos_width(w, h, s.cell_seq().len() as int);
        lemma_row_major_decompose(w, h, i);
        lemma_row_major_decompose(w, h, j);
        assert(i / w < j / w || (i / w == j / w && i % w < j % w)) by (nonlinear_arith)
            requires
                w > 0,
                0 <= i < j,
                (i / w) * w + (i % w) == i,
                (j / w) * w + (j % w) == j,
                0 <= i % w < w,
                0 <= j % w < w,
        ;
    }
}

} // verus!
