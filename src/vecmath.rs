//! Integer vectors and axis-aligned rectangles in grid coordinates.
use vstd::prelude::*;

verus! {

/// A point or a displacement on the grid.
#[derive(Debug, PartialEq, Eq, Structural, Copy, Clone)]
pub struct V2 {
    pub x: i32,
    pub y: i32,
}

/// Whether `a + b` fits in `i32` on both axes.
pub open spec fn add_fits(a: V2, b: V2) -> bool {
    i32::MIN <= a.x + b.x <= i32::MAX && i32::MIN <= a.y + b.y <= i32::MAX
}

/// Whether `a - b` fits in `i32` on both axes.
pub open spec fn sub_fits(a: V2, b: V2) -> bool {
    i32::MIN <= a.x - b.x <= i32::MAX && i32::MIN <= a.y - b.y <= i32::MAX
}

/// The point `(x, y)`.
pub open spec fn v2(x: int, y: int) -> V2 {
    V2 { x: x as i32, y: y as i32 }
}

/// Component-wise sum, for arguments whose sum fits.
pub open spec fn v2_add(a: V2, b: V2) -> V2 {
    v2(a.x + b.x, a.y + b.y)
}

/// Component-wise difference, for arguments whose difference fits.
pub open spec fn v2_sub(a: V2, b: V2) -> V2 {
    v2(a.x - b.x, a.y - b.y)
}

impl V2 {
    /// The origin.
    pub fn new() -> (r: V2)
        ensures
            r == v2(0, 0),
    {
        V2 { x: 0, y: 0 }
    }

    pub open spec fn from_spec(size: (u16, u16)) -> V2 {
        V2 { x: size.0 as i32, y: size.1 as i32 }
    }

    /// A point made of a pair of unsigned sizes, such as a terminal's columns and rows.
    pub fn from(size: (u16, u16)) -> (r: V2)
        ensures
            r == V2::from_spec(size),
    {
        V2 { x: size.0 as i32, y: size.1 as i32 }
    }

    pub fn make(x: i32, y: i32) -> (r: V2)
        ensures
            r.x == x,
            r.y == y,
    {
        V2 { x, y }
    }
}

impl core::ops::Add for V2 {
    type Output = V2;

    fn add(self, other: V2) -> (r: V2) {
        V2 { x: self.x + other.x, y: self.y + other.y }
    }
}

impl vstd::std_specs::ops::AddSpecImpl for V2 {
    open spec fn obeys_add_spec() -> bool {
        true
    }

    open spec fn add_req(self, rhs: V2) -> bool {
        add_fits(self, rhs)
    }

    open spec fn add_spec(self, rhs: V2) -> V2 {
        v2_add(self, rhs)
    }
}

impl core::ops::Sub for V2 {
    type Output = V2;

    fn sub(self, other: V2) -> (r: V2) {
        V2 { x: self.x - other.x, y: self.y - other.y }
    }
}

impl vstd::std_specs::ops::SubSpecImpl for V2 {
    open spec fn obeys_sub_spec() -> bool {
        true
    }

    open spec fn sub_req(self, rhs: V2) -> bool {
        sub_fits(self, rhs)
    }

    open spec fn sub_spec(self, rhs: V2) -> V2 {
        v2_sub(self, rhs)
    }
}

/// An axis-aligned rectangle: its corner and its size. While a selection is being
/// dragged the size may be zero or negative on an axis; `normalized` turns it around.
#[derive(Debug, Copy, Clone)]
pub struct Rectangle {
    pub pos: V2,
    pub size: V2,
}

/// Whether `v` fits in `i32`.
pub open spec fn fits(v: int) -> bool {
    i32::MIN <= v <= i32::MAX
}

impl Rectangle {
    pub open spec fn spec_left(self) -> int {
        self.pos.x as int
    }

    pub open spec fn spec_top(self) -> int {
        self.pos.y as int
    }

    pub open spec fn spec_right(self) -> int {
        self.pos.x + self.size.x - 1
    }

    pub open spec fn spec_bottom(self) -> int {
        self.pos.y + self.size.y - 1
    }

    /// Whether the last column and row of the rectangle fit in `i32`.
    pub open spec fn edges_fit(self) -> bool {
        fits(self.spec_right()) && fits(self.spec_bottom())
    }

    /// Whether `p` lies in the rectangle, edges included.
    pub open spec fn spec_contains(self, p: V2) -> bool {
        self.spec_left() <= p.x <= self.spec_right() && self.spec_top() <= p.y <= self.spec_bottom()
    }

    pub fn left(&self) -> (r: i32)
        ensures
            r == self.spec_left(),
    {
        self.pos.x
    }

    pub fn top(&self) -> (r: i32)
        ensures
            r == self.spec_top(),
    {
        self.pos.y
    }

    pub fn right(&self) -> (r: i32)
        requires
            fits(self.spec_right()),
        ensures
            r == self.spec_right(),
    {
        (self.pos.x as i64 + self.size.x as i64 - 1) as i32
    }

    pub fn bottom(&self) -> (r: i32)
        requires
            fits(self.spec_bottom()),
        ensures
            r == self.spec_bottom(),
    {
        (self.pos.y as i64 + self.size.y as i64 - 1) as i32
    }

    pub fn width(&self) -> (r: i32)
        ensures
            r == self.size.x,
    {
        self.size.x
    }

    pub fn height(&self) -> (r: i32)
        ensures
            r == self.size.y,
    {
        self.size.y
    }

    pub fn bottom_right(&self) -> (r: V2)
        requires
            self.edges_fit(),
        ensures
            r.x == self.spec_right(),
            r.y == self.spec_bottom(),
    {
        V2 { x: self.right(), y: self.bottom() }
    }

    pub fn bottom_left(&self) -> (r: V2)
        requires
            fits(self.spec_bottom()),
        ensures
            r.x == self.spec_left(),
            r.y == self.spec_bottom(),
    {
        V2::make(self.left(), self.bottom())
    }

    pub fn top_right(&self) -> (r: V2)
        requires
            fits(self.spec_right()),
        ensures
            r.x == self.spec_right(),
            r.y == self.spec_top(),
    {
        V2::make(self.right(), self.top())
    }

    /// The rectangle with `size` more cells on each side (fewer, for a negative `size`).
    pub open spec fn spec_grow(self, size: int) -> Rectangle {
        Rectangle {
            pos: v2(self.pos.x - size, self.pos.y - size),
            size: v2(self.size.x + 2 * size, self.size.y + 2 * size),
        }
    }

    pub open spec fn grow_fits(self, size: int) -> bool {
        fits(self.pos.x - size) && fits(self.pos.y - size) && fits(self.size.x + 2 * size)
            && fits(self.size.y + 2 * size)
    }

    pub fn grow(&self, size: i32) -> (r: Rectangle)
        requires
            self.grow_fits(size as int),
        ensures
            r == self.spec_grow(size as int),
    {
        Rectangle {
            pos: V2 { x: self.pos.x - size, y: self.pos.y - size },
            size: V2 {
                x: (self.size.x as i64 + 2 * size as i64) as i32,
                y: (self.size.y as i64 + 2 * size as i64) as i32,
            },
        }
    }

    pub fn contains(&self, pos: V2) -> (r: bool)
        requires
            self.edges_fit(),
        ensures
            r == self.spec_contains(pos),
    {
        pos.x >= self.left() && pos.x <= self.right() && pos.y >= self.top() && pos.y
            <= self.bottom()
    }

    /// Whether normalizing the rectangle stays within `i32`.
    pub open spec fn normalizable(self) -> bool {
        self.edges_fit() && fits(2 - self.size.x) && fits(2 - self.size.y)
    }

    /// The rectangle covering the same columns and rows as `self`, flipped on each axis
    /// whose size is not positive so that it is anchored at its minimum corner.
    pub open spec fn spec_normalized(self) -> Rectangle {
        if self.size.x > 0 && self.size.y > 0 {
            self
        } else {
            Rectangle {
                pos: v2(
                    if self.size.x <= 0 { self.spec_right() } else { self.pos.x as int },
                    if self.size.y <= 0 { self.spec_bottom() } else { self.pos.y as int },
                ),
                size: v2(
                    if self.size.x <= 0 { 2 - self.size.x } else { self.size.x as int },
                    if self.size.y <= 0 { 2 - self.size.y } else { self.size.y as int },
                ),
            }
        }
    }

    pub fn normalized(&self) -> (r: Rectangle)
        requires
            self.normalizable(),
        ensures
            r == self.spec_normalized(),
    {
        if self.size.x > 0 && self.size.y > 0 {
            return *self;
        }
        let mut r2 = *self;
        if r2.size.x <= 0 {
            let l = self.right();
            let r = self.left();
            r2.pos.x = l;
            r2.size.x = r - l + 1;
        }
        if r2.size.y <= 0 {
            let t = r2.bottom();
            let b = r2.top();
            r2.pos.y = t;
            r2.size.y = b - t + 1;
        }
        r2
    }
}

/// Normalizing twice is normalizing once, and a normalized rectangle has a strictly
/// positive width and height.
pub proof fn lemma_normalize_idempotent(r: Rectangle)
    requires
        r.normalizable(),
    ensures
        r.spec_normalized().spec_normalized() == r.spec_normalized(),
        r.spec_normalized().size.x > 0,
        r.spec_normalized().size.y > 0,
{
}

} // verus!
