use vstd::prelude::*;

use vstd::arithmetic::div_mod::{
    lemma_div_pos_is_pos, lemma_fundamental_div_mod, lemma_fundamental_div_mod_converse,
    lemma_mod_pos_bound,
};
use vstd::arithmetic::mul::{lemma_mul_inequality, lemma_mul_is_commutative};

use crate::canvas::in_frame;

verus! {

/// Side of the square tiles that a frame is cut into for the workers.
pub const TILE_SIZE: u32 = 32;

/// A rectangle of pixels: columns `x..x_end` of rows `y..y_end`.
#[derive(Clone, Copy, Debug, PartialEq, Eq, Structural)]
pub struct Tile {
    pub x: u32,
    pub y: u32,
    pub x_end: u32,
    pub y_end: u32,
}

impl Tile {
    /// Whether pixel `(x, y)` lies in the tile.
    pub open spec fn contains(&self, x: u32, y: u32) -> bool {
        self.x <= x < self.x_end && self.y <= y < self.y_end
    }
}

/// Number of tiles needed to cover `extent` pixels in one direction.
pub open spec fn tiles_across(extent: u32) -> int {
    (extent + TILE_SIZE - 1) / (TILE_SIZE as int)
}

/// Number of tiles of a frame.
pub open spec fn tile_total(width: u32, height: u32) -> int {
    tiles_across(width) * tiles_across(height)
}

/// The tile with the given index. Tiles are numbered row by row, and those at
/// the right and lower edge are cut off at the frame's edge.
pub open spec fn tile_at(width: u32, height: u32, index: int) -> Tile {
    let x = (index % tiles_across(width)) * TILE_SIZE;
    let y = (index / tiles_across(width)) * TILE_SIZE;
    Tile {
        x: x as u32,
        y: y as u32,
        x_end: if x + TILE_SIZE < width {
            (x + TILE_SIZE) as u32
        } else {
            width
        },
        y_end: if y + TILE_SIZE < height {
            (y + TILE_SIZE) as u32
        } else {
            height
        },
    }
}

/// Index of the tile that holds pixel `(x, y)`.
pub open spec fn tile_index_of(width: u32, x: u32, y: u32) -> int {
    (y / TILE_SIZE) * tiles_across(width) + x / TILE_SIZE
}

/// Where a tile with a valid index lies: its column and row of tiles exist,
/// and it is a rectangle inside the frame that holds at least one pixel.
pub proof fn lemma_tile_in_frame(width: u32, height: u32, index: int)
    requires
        0 <= index < tile_total(width, height),
    ensures
        0 <= index % tiles_across(width) < tiles_across(width),
        0 <= index / tiles_across(width) < tiles_across(height),
        index == (index / tiles_across(width)) * tiles_across(width) + index % tiles_across(
            width,
        ),
        tile_at(width, height, index).x == (index % tiles_across(width)) * TILE_SIZE,
        tile_at(width, height, index).y == (index / tiles_across(width)) * TILE_SIZE,
        tile_at(width, height, index).x < tile_at(width, height, index).x_end <= width,
        tile_at(width, height, index).y < tile_at(width, height, index).y_end <= height,
{
    let across = tiles_across(width);
    let down = tiles_across(height);
    assert(across > 0 && down > 0) by (nonlinear_arith)
        requires
            across >= 0,
            down >= 0,
            across * down > 0,
    ;
    let col = index % across;
    let row = index / across;
    lemma_mod_pos_bound(index, across);
    lemma_div_pos_is_pos(index, across);
    lemma_fundamental_div_mod(index, across);
    lemma_mul_is_commutative(across, row);
    if row >= down {
        lemma_mul_inequality(down, row, across);
        lemma_mul_is_commutative(across, down);
    }
}

/// The tiles part the frame: every pixel of the frame lies in exactly one
/// tile, the one that `tile_index_of` names.
pub proof fn lemma_tiles_partition(width: u32, height: u32, x: u32, y: u32, index: int)
    requires
        in_frame(width, height, x, y),
        0 <= index < tile_total(width, height),
    ensures
        0 <= tile_index_of(width, x, y) < tile_total(width, height),
        tile_at(width, height, index).contains(x, y) <==> index == tile_index_of(width, x, y),
{
    let across = tiles_across(width);
    let down = tiles_across(height);
    lemma_tile_in_frame(width, height, index);
    let col = index % across;
    let row = index / across;
    let px = (x / TILE_SIZE) as int;
    let py = (y / TILE_SIZE) as int;
    assert(0 <= px < across && 0 <= py < down);
    assert(0 <= py * across + px < across * down) by (nonlinear_arith)
        requires
            0 <= px < across,
            0 <= py < down,
    ;
    if index == tile_index_of(width, x, y) {
        lemma_fundamental_div_mod_converse(index, across, py, px);
    }
}

/// Number of tiles of a frame.
pub fn tile_count(width: u32, height: u32) -> (count: u64)
    ensures
        count == tile_total(width, height),
{
    let across: u64 = (width as u64 + TILE_SIZE as u64 - 1) / TILE_SIZE as u64;
    let down: u64 = (height as u64 + TILE_SIZE as u64 - 1) / TILE_SIZE as u64;
    assert(across * down <= 0x0800_0000 * 0x0800_0000) by (nonlinear_arith)
        requires
            across <= 0x0800_0000,
            down <= 0x0800_0000,
    ;
    across * down
}

/// The tile with the given index, or `None` where the frame has no such tile.
pub fn tile(width: u32, height: u32, index: u64) -> (tile: Option<Tile>)
    ensures
        tile == if index < tile_total(width, height) {
            Some(tile_at(width, height, index as int))
        } else {
            None
        },
{
    if index >= tile_count(width, height) {
        return None;
    }
    proof {
        lemma_tile_in_frame(width, height, index as int);
    }
    let side: u64 = TILE_SIZE as u64;
    let across: u64 = (width as u64 + side - 1) / side;
    let x: u64 = (index % across) * side;
    let y: u64 = (index / across) * side;
    let x_end: u64 = if x + side < width as u64 {
        x + side
    } else {
        width as u64
    };
    let y_end: u64 = if y + side < height as u64 {
        y + side
    } else {
        height as u64
    };
    Some(Tile { x: x as u32, y: y as u32, x_end: x_end as u32, y_end: y_end as u32 })
}

} // verus!
