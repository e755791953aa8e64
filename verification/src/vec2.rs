use vstd::prelude::*;

verus! {

/// A position or size on the grid of a text buffer: `x` is the column, `y` the line.
#[derive(Clone, Copy, Debug, PartialEq, Eq, Structural, Hash)]
pub struct UVec2 {
    pub x: usize,
    pub y: usize,
}

/// A signed offset on the grid of a text buffer.
#[derive(Clone, Copy, Debug, PartialEq, Eq, Structural, Hash)]
pub struct IVec2 {
    pub x: isize,
    pub y: isize,
}

/// A position or size on the terminal, in cells.
#[derive(Clone, Copy, Debug, PartialEq, Eq, Structural, Hash)]
pub struct U16Vec2 {
    pub x: u16,
    pub y: u16,
}

impl U16Vec2 {
    pub fn new(x: u16, y: u16) -> (r: Self)
        ensures
            r.x == x,
            r.y == y,
    {
        U16Vec2 { x, y }
    }

    pub fn zero() -> (r: Self)
        ensures
            r.x == 0,
            r.y == 0,
    {
        U16Vec2 { x: 0, y: 0 }
    }
}

/// A rectangle of the screen: its top-left corner and its size.
#[derive(Clone, Copy, Debug, PartialEq, Eq, Structural, Hash)]
pub struct Rect {
    pub pos: UVec2,
    pub size: UVec2,
}

impl Rect {
    pub fn new(pos: UVec2, size: UVec2) -> (r: Self)
        ensures
            r.pos == pos,
            r.size == size,
    {
        Rect { pos, size }
    }
}

/// Text order of two positions: first by line, then by column.
pub open spec fn pos_lt(a: UVec2, b: UVec2) -> bool {
    a.y < b.y || (a.y == b.y && a.x < b.x)
}

impl UVec2 {
    pub fn new(x: usize, y: usize) -> (r: Self)
        ensures
            r.x == x,
            r.y == y,
    {
        UVec2 { x, y }
    }

    pub fn zero() -> (r: Self)
        ensures
            r.x == 0,
            r.y == 0,
    {
        UVec2 { x: 0, y: 0 }
    }

    /// Whether `self` comes strictly before `other` in text order.
    pub fn lt(&self, other: &UVec2) -> (r: bool)
        ensures
            r == pos_lt(*self, *other),
    {
        self.y < other.y || (self.y == other.y && self.x < other.x)
    }

    /// The earlier of two positions in text order.
    pub fn min(self, other: UVec2) -> (r: UVec2)
        ensures
            r == (if pos_lt(other, self) { other } else { self }),
    {
        if other.lt(&self) { other } else { self }
    }

    /// The later of two positions in text order.
    pub fn max(self, other: UVec2) -> (r: UVec2)
        ensures
            r == (if pos_lt(self, other) { other } else { self }),
    {
        if self.lt(&other) { other } else { self }
    }

    /// Adds a signed offset; `None` where a coordinate would leave the range of `usize`.
    pub fn checked_add(self, offset: IVec2) -> (r: Option<UVec2>)
        ensures
            (0 <= self.x + offset.x <= usize::MAX && 0 <= self.y + offset.y <= usize::MAX) <==> r is Some,
            r matches Some(v) ==> v.x == self.x + offset.x && v.y == self.y + offset.y,
    {
        let x = if offset.x >= 0 {
            self.x.checked_add(offset.x as usize)
        } else if offset.x == isize::MIN {
            self.x.checked_sub(isize::MAX as usize + 1)
        } else {
            self.x.checked_sub((-offset.x) as usize)
        };
        let y = if offset.y >= 0 {
            self.y.checked_add(offset.y as usize)
        } else if offset.y == isize::MIN {
            self.y.checked_sub(isize::MAX as usize + 1)
        } else {
            self.y.checked_sub((-offset.y) as usize)
        };
        match (x, y) {
            (Some(x), Some(y)) => Some(UVec2 { x, y }),
            _ => None,
        }
    }
}

impl IVec2 {
    pub fn new(x: isize, y: isize) -> (r: Self)
        ensures
            r.x == x,
            r.y == y,
    {
        IVec2 { x, y }
    }

    pub fn left() -> (r: Self)
        ensures
            r.x == -1,
            r.y == 0,
    {
        IVec2 { x: -1, y: 0 }
    }

    pub fn right() -> (r: Self)
        ensures
            r.x == 1,
            r.y == 0,
    {
        IVec2 { x: 1, y: 0 }
    }
}

} // verus!
