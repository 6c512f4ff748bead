//! A screen laid out in columns of tiles.

use vstd::prelude::*;

verus! {

/// Edge of a tile, in thousandths of a unit.
pub const TILE_SIZE: i64 = 20_000;

/// Half the edge of a tile.
pub const HALF_TILE: i64 = 10_000;

/// Width of a column: three tiles.
pub const COLUMN_SIZE: i64 = 60_000;

/// Tiles of padding before the first column.
pub const PADDING: usize = 2;

/// Left edge of the screen: the arena's left edge, moved in by the arena
/// padding.
pub const SCREEN_X: i64 = -620_000;

/// Lower edge of the screen: the arena's lower edge, moved in by the arena
/// padding.
pub const SCREEN_Y: i64 = -380_000;

#[derive(Default)]
pub struct TileScreen {}

impl TileScreen {
    /// Horizontal centre of a column: the screen's left edge, the padding
    /// tiles, the columns before it, and half of its own three tiles.
    pub open spec fn spec_column_to_coord(column: usize) -> int {
        SCREEN_X + column * COLUMN_SIZE + HALF_TILE * 3 + TILE_SIZE * PADDING
    }

    /// Horizontal centre of a column, in thousandths of a unit.
    pub fn column_to_coord(column: usize) -> (x: i64)
        requires
            Self::spec_column_to_coord(column) <= i64::MAX,
        ensures
            x == Self::spec_column_to_coord(column),
    {
        let wide: i128 = SCREEN_X as i128 + column as i128 * COLUMN_SIZE as i128 + HALF_TILE as i128
            * 3 + TILE_SIZE as i128 * PADDING as i128;
        wide as i64
    }

    /// Scale of a tile on each axis, in thousandths: tiles leave a gap
    /// between them and have no depth.
    pub fn tile_scale() -> (scale: (i64, i64, i64))
        ensures
            scale == (850i64, 850i64, 0i64),
    {
        (850, 850, 0)
    }
}

} // verus!
