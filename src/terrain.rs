use vstd::prelude::*;

use crate::geometry::Position;
use crate::orientation::Orientation;

verus! {

/// Side of a tile, in position steps (46 world units).
pub const TILE_SIZE: i64 = 46_000;

/// Vertical spacing of tile rows: four fifths of `TILE_SIZE`.
pub const TILE_ROW_HEIGHT: i64 = 36_800;

/// A static shape placed on the terrain.
#[derive(Clone, Copy, Debug, PartialEq, Eq, Structural)]
pub struct TerrainShape {
    pub position: Position,
    pub orientation: Orientation,
}

/// World position of the tile in column `x` and row `y`.
pub open spec fn tile_position(x: int, y: int) -> Position {
    Position { x: (x * TILE_SIZE) as i64, y: (y * TILE_ROW_HEIGHT) as i64 }
}

/// The tile's world position is representable.
pub open spec fn tile_in_range(x: int, y: int) -> bool {
    i64::MIN <= x * TILE_SIZE <= i64::MAX && i64::MIN <= y * TILE_ROW_HEIGHT <= i64::MAX
}

pub fn set_position(x: isize, y: isize) -> (r: Position)
    requires
        tile_in_range(x as int, y as int),
    ensures
        r == tile_position(x as int, y as int),
        r.x == x * TILE_SIZE,
        r.y == y * TILE_ROW_HEIGHT,
{
    Position::new(x as i64 * TILE_SIZE, y as i64 * TILE_ROW_HEIGHT)
}

/// The shapes that a level places on its terrain.
pub struct TerrainShapeObjects {
    pub objects: Vec<TerrainShape>,
}

impl TerrainShapeObjects {
    /// The level's single shape: on tile (0, 4), facing down-left.
    pub fn new() -> (r: TerrainShapeObjects)
        ensures
            r.objects@ == seq![
                TerrainShape { position: tile_position(0, 4), orientation: Orientation::DownLeft },
            ],
    {
        let objects = vec![TerrainShape { position: set_position(0, 4), orientation: Orientation::DownLeft }];
        TerrainShapeObjects { objects }
    }
}

} // verus!
