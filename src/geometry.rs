use vstd::prelude::*;

verus! {

/// Number of position steps in one world unit.
pub const UNIT: i64 = 1000;

/// Largest coordinate magnitude the simulation is asked to handle.
pub const COORD_LIMIT: i64 = 0x100_0000_0000;

/// A point (or a displacement) in the plane, in thousandths of a world unit.
#[derive(Clone, Copy, Debug, PartialEq, Eq, Structural)]
pub struct Position {
    pub x: i64,
    pub y: i64,
}

/// Both coordinates lie within `COORD_LIMIT`.
pub open spec fn in_bounds(p: Position) -> bool {
    -COORD_LIMIT <= p.x <= COORD_LIMIT && -COORD_LIMIT <= p.y <= COORD_LIMIT
}

pub open spec fn abs(v: int) -> int {
    if v < 0 { -v } else { v }
}

/// Two boxes centred on `a` and `b`, each of half-extents `half_w` and `half_h`,
/// share interior area.
pub open spec fn boxes_overlap(a: Position, b: Position, half_w: int, half_h: int) -> bool {
    abs(a.x - b.x) < 2 * half_w && abs(a.y - b.y) < 2 * half_h
}

impl Position {
    pub fn new(x: i64, y: i64) -> (r: Position)
        ensures
            r.x == x && r.y == y,
    {
        Position { x, y }
    }

    pub fn is_in_bounds(&self) -> (r: bool)
        ensures
            r == in_bounds(*self),
    {
        -COORD_LIMIT <= self.x && self.x <= COORD_LIMIT && -COORD_LIMIT <= self.y && self.y <= COORD_LIMIT
    }
}

/// Axis-aligned overlap test of two equal boxes centred on `a` and `b`.
pub fn overlaps(a: Position, b: Position, half_w: i64, half_h: i64) -> (r: bool)
    ensures
        r == boxes_overlap(a, b, half_w as int, half_h as int),
{
    let dx: i128 = if a.x < b.x { b.x as i128 - a.x as i128 } else { a.x as i128 - b.x as i128 };
    let dy: i128 = if a.y < b.y { b.y as i128 - a.y as i128 } else { a.y as i128 - b.y as i128 };
    dx < 2 * (half_w as i128) && dy < 2 * (half_h as i128)
}

} // verus!
