//! The tile grid that levels are made of.
use vstd::prelude::*;
use crate::vecmath::{Rectangle, V2};

verus! {

/// Every coordinate that a level stores or that the editor and the runner move to
/// stays within this distance of the origin, so that sums of a few of them fit in `i32`.
pub const COORD_LIMIT: i32 = 0x1000_0000;

/// Whether both coordinates of `p` are within `COORD_LIMIT` of the origin.
pub open spec fn coord_ok(p: V2) -> bool {
    -COORD_LIMIT <= p.x <= COORD_LIMIT && -COORD_LIMIT <= p.y <= COORD_LIMIT
}

#[derive(Debug, PartialEq, Eq, Structural, Copy, Clone)]
pub enum CellColor {
    White,
    Black,
    LightGray,
    DarkGray,
}

/// Black and white take part in the rules of movement and pushing; the grays are
/// only decoration.
pub open spec fn is_base(c: CellColor) -> bool {
    c == CellColor::Black || c == CellColor::White
}

#[derive(Debug, PartialEq, Eq, Structural, Copy, Clone)]
pub struct Cell {
    pub letter: char,
    pub background: CellColor,
    pub foreground: CellColor,
}

/// The cell that every position outside a grid reads as.
pub open spec fn empty_cell() -> Cell {
    Cell { letter: '\0', background: CellColor::Black, foreground: CellColor::White }
}

impl Cell {
    /// A cell holds no glyph when its letter is the null character or a space.
    pub open spec fn is_blank(self) -> bool {
        self.letter == '\0' || self.letter == ' '
    }

    pub fn empty(&self) -> (r: bool)
        ensures
            r == self.is_blank(),
    {
        self.letter == '\0' || self.letter == ' '
    }

    pub fn make_empty() -> (r: Cell)
        ensures
            r == empty_cell(),
    {
        Cell { letter: '\0', background: CellColor::Black, foreground: CellColor::White }
    }
}

/// A named point of interest on a level.
pub struct Trigger {
    pub pos: V2,
    pub id: String,
}

/// The paths of the levels that are played one after another.
pub struct LevelList {
    pub files: Vec<String>,
}

/// A rectangular grid of cells, `data[y][x]`, with the actor's start point and the
/// level's triggers.
pub struct Level {
    pub width: i32,
    pub height: i32,
    pub p0: V2,
    pub triggers: Vec<Trigger>,
    pub data: Vec<Vec<Cell>>,
}

impl Level {
    /// The rows of `data` match the stated size, which is within `COORD_LIMIT`, and the
    /// start point is within `COORD_LIMIT` of the origin.
    pub open spec fn wf(&self) -> bool {
        &&& 0 <= self.width <= COORD_LIMIT
        &&& 0 <= self.height <= COORD_LIMIT
        &&& coord_ok(self.p0)
        &&& self.data@.len() == self.height
        &&& forall|y: int| 0 <= y < self.height ==> #[trigger] self.data@[y]@.len() == self.width
    }

    pub open spec fn spec_contains(&self, p: V2) -> bool {
        0 <= p.x < self.width && 0 <= p.y < self.height
    }

    /// The cell at `p`; outside the grid, the empty cell.
    pub open spec fn cell_at(&self, p: V2) -> Cell {
        if self.spec_contains(p) {
            self.data@[p.y as int]@[p.x as int]
        } else {
            empty_cell()
        }
    }

    pub open spec fn spec_bounds(&self) -> Rectangle {
        Rectangle { pos: V2 { x: 0, y: 0 }, size: V2 { x: self.width, y: self.height } }
    }

    /// A level of the given size filled with empty cells, starting at (2, 2), without
    /// triggers.
    pub fn new(width: i32, height: i32) -> (r: Level)
        requires
            0 <= width <= COORD_LIMIT,
            0 <= height <= COORD_LIMIT,
        ensures
            r.wf(),
            r.width == width,
            r.height == height,
            r.p0 == (V2 { x: 2, y: 2 }),
            r.triggers@.len() == 0,
            forall|p: V2| #[trigger] r.cell_at(p) == empty_cell(),
    {
        let mut data: Vec<Vec<Cell>> = Vec::new();
        let mut y: i32 = 0;
        while y < height
            invariant
                0 <= y <= height,
                0 <= width,
                data@.len() == y,
                forall|j: int| 0 <= j < y ==> #[trigger] data@[j]@.len() == width,
                forall|j: int, i: int|
                    0 <= j < y && 0 <= i < width ==> #[trigger] data@[j]@[i] == empty_cell(),
            decreases height - y,
        {
            let mut row: Vec<Cell> = Vec::new();
            let mut x: i32 = 0;
            while x < width
                invariant
                    0 <= x <= width,
                    row@.len() == x,
                    forall|i: int| 0 <= i < x ==> #[trigger] row@[i] == empty_cell(),
                decreases width - x,
            {
                row.push(Cell::make_empty());
                x = x + 1;
            }
            data.push(row);
            y = y + 1;
        }
        Level { data, width, height, p0: V2::make(2, 2), triggers: Vec::new() }
    }

    pub fn size(&self) -> (r: V2)
        ensures
            r.x == self.width,
            r.y == self.height,
    {
        V2::make(self.width, self.height)
    }

    pub fn contains(&self, pos: V2) -> (r: bool)
        ensures
            r == self.spec_contains(pos),
    {
        pos.x >= 0 && pos.x < self.width && pos.y >= 0 && pos.y < self.height
    }

    pub fn bounds(&self) -> (r: Rectangle)
        ensures
            r == self.spec_bounds(),
    {
        Rectangle { pos: V2::make(0, 0), size: self.size() }
    }

    /// The cell at `pos`, or the empty cell where `pos` is outside the grid.
    pub fn get(&self, pos: V2) -> (r: Cell)
        requires
            self.wf(),
        ensures
            r == self.cell_at(pos),
    {
        if self.contains(pos) {
            self.data[pos.y as usize][pos.x as usize]
        } else {
            Cell::make_empty()
        }
    }

    /// `after` is `self` with `value` written at `pos`; outside the grid it is `self`.
    pub open spec fn set_result(&self, after: &Level, pos: V2, value: Cell) -> bool {
        &&& after.wf()
        &&& after.width == self.width
        &&& after.height == self.height
        &&& after.p0 == self.p0
        &&& after.triggers == self.triggers
        &&& forall|q: V2|
            #[trigger] after.cell_at(q) == if self.spec_contains(pos) && q == pos {
                value
            } else {
                self.cell_at(q)
            }
        &&& !self.spec_contains(pos) ==> *after == *self
    }

    /// Writes `value` at `pos`; outside the grid nothing changes.
    pub fn set(&mut self, pos: V2, value: Cell)
        requires
            old(self).wf(),
        ensures
            old(self).set_result(final(self), pos, value),
    {
        if self.contains(pos) {
            self.data[pos.y as usize][pos.x as usize] = value;
        }
    }

    /// Whether the level is well formed: every row as wide as `width`, as many rows as
    /// `height`, the size and start point within `COORD_LIMIT`.
    pub fn is_valid(&self) -> (r: bool)
        ensures
            r == self.wf(),
    {
        if self.width < 0 || self.width > COORD_LIMIT || self.height < 0 || self.height
            > COORD_LIMIT {
            return false;
        }
        if self.p0.x < -COORD_LIMIT || self.p0.x > COORD_LIMIT || self.p0.y < -COORD_LIMIT
            || self.p0.y > COORD_LIMIT {
            return false;
        }
        if self.data.len() != self.height as usize {
            return false;
        }
        let mut y: usize = 0;
        while y < self.data.len()
            invariant
                y <= self.data@.len(),
                0 <= self.width <= COORD_LIMIT,
                forall|j: int| 0 <= j < y ==> #[trigger] self.data@[j]@.len() == self.width,
            decreases self.data@.len() - y,
        {
            if self.data[y].len() != self.width as usize {
                return false;
            }
            y = y + 1;
        }
        true
    }

    /// `self` holds the same size, start point, triggers and cells as `other`.
    pub open spec fn same_as(&self, other: &Level) -> bool {
        &&& self.width == other.width
        &&& self.height == other.height
        &&& self.p0 == other.p0
        &&& self.triggers@ == other.triggers@
        &&& self.data@.len() == other.data@.len()
        &&& forall|y: int| 0 <= y < other.data@.len() ==> #[trigger] self.data@[y]@ == other.data@[y]@
    }

    /// A copy of the level that shares nothing with it.
    pub fn duplicate(&self) -> (r: Level)
        ensures
            r.same_as(self),
            self.wf() ==> r.wf(),
            self.wf() ==> forall|p: V2| #[trigger] r.cell_at(p) == self.cell_at(p),
    {
        let mut data: Vec<Vec<Cell>> = Vec::new();
        let mut y: usize = 0;
        while y < self.data.len()
            invariant
                y <= self.data@.len(),
                data@.len() == y,
                forall|j: int| 0 <= j < y ==> #[trigger] data@[j]@ == self.data@[j]@,
            decreases self.data@.len() - y,
        {
            let src = &self.data[y];
            let mut row: Vec<Cell> = Vec::new();
            let mut x: usize = 0;
            while x < src.len()
                invariant
                    x <= src@.len(),
                    row@ == src@.subrange(0, x as int),
                decreases src@.len() - x,
            {
                row.push(src[x]);
                x = x + 1;
            }
            assert(row@ == src@.subrange(0, src@.len() as int));
            data.push(row);
            y = y + 1;
        }
        let mut triggers: Vec<Trigger> = Vec::new();
        let mut i: usize = 0;
        while i < self.triggers.len()
            invariant
                i <= self.triggers@.len(),
                triggers@ == self.triggers@.subrange(0, i as int),
            decreases self.triggers@.len() - i,
        {
            let t = &self.triggers[i];
            triggers.push(Trigger { pos: t.pos, id: t.id.clone() });
            i = i + 1;
        }
        assert(triggers@ == self.triggers@.subrange(0, self.triggers@.len() as int));
        let r = Level { width: self.width, height: self.height, p0: self.p0, triggers, data };
        assert(r.triggers@ == self.triggers@);
        assert(r.data@.len() == self.data@.len());
        assert(forall|y: int| 0 <= y < self.data@.len() ==> #[trigger] r.data@[y]@ == self.data@[y]@);
        assert(r.same_as(self));
        proof {
            if self.wf() {
                lemma_same_cells(&r, self);
            }
        }
        r
    }
}

/// Levels that hold the same things read the same everywhere.
pub proof fn lemma_same_cells(a: &Level, b: &Level)
    requires
        b.wf(),
        a.same_as(b),
    ensures
        a.wf(),
        forall|p: V2| #[trigger] a.cell_at(p) == b.cell_at(p),
{
    assert forall|y: int| 0 <= y < a.height implies #[trigger] a.data@[y]@.len() == a.width by {
        assert(a.data@[y]@ == b.data@[y]@);
    }
    assert forall|p: V2| #[trigger] a.cell_at(p) == b.cell_at(p) by {
        if a.spec_contains(p) {
            assert(a.data@[p.y as int]@ == b.data@[p.y as int]@);
        }
    }
}

/// Writing a cell inside the grid and reading it back gives that cell; writing outside
/// the grid changes nothing, and reading there gives the empty cell.
pub proof fn lemma_set_get(before: Level, after: Level, p: V2, c: Cell)
    requires
        before.wf(),
        before.set_result(&after, p, c),
    ensures
        before.spec_contains(p) ==> after.cell_at(p) == c,
        !before.spec_contains(p) ==> after == before && after.cell_at(p) == empty_cell(),
{
    assert(after.cell_at(p) == (if before.spec_contains(p) && p == p { c } else { before.cell_at(p) }));
}

} // verus!
