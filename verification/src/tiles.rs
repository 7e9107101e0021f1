//! What each map tile is drawn as: a flat colour, or one of the grass
//! sprites chosen by a deterministic hash of the tile's position.

use vstd::prelude::*;
use crate::colour::Colour;

verus! {

/// The kinds of map tile.
#[derive(Clone, Copy, Debug, PartialEq, Eq, Structural)]
pub enum TileType {
    Wall,
    SpawnPoint,
    Empty,
    Grass,
}

/// Seed of the grass pattern.
pub const GRASS_SEED: u32 = 1337;

/// Number of grass variants the pattern chooses among.
pub const GRASS_VARIANTS: u32 = 17;

/// The position hash: a multiply-xorshift mix of the two coordinates with
/// 32-bit wrapping arithmetic (arithmetic right shifts), offset by the seed.
pub open spec fn spec_pseudo_random(x: i32, y: i32, seed: u32) -> u32 {
    let n0 = x.wrapping_mul(374761393i32).wrapping_add(y.wrapping_mul(668265263i32));
    let n1 = (n0 ^ (n0 >> 13u32)).wrapping_mul(1274126177i32);
    (n1 ^ (n1 >> 16u32)).wrapping_add(seed as i32) as u32
}

/// A deterministic noise-like hash of a tile position.
pub fn pseudo_random(x: i32, y: i32, seed: u32) -> (h: u32)
    ensures
        h == spec_pseudo_random(x, y, seed),
{
    let mut n: i32 = x.wrapping_mul(374761393).wrapping_add(y.wrapping_mul(668265263));
    n = (n ^ (n >> 13u32)).wrapping_mul(1274126177);
    (n ^ (n >> 16u32)).wrapping_add(seed as i32) as u32
}

/// Which grass variant covers the tile at (`x`, `y`).
pub open spec fn spec_grass_index(x: i32, y: i32) -> usize {
    (spec_pseudo_random(x, y, GRASS_SEED) % GRASS_VARIANTS) as usize
}

/// The grass variant of the tile at (`x`, `y`): one of the first
/// `GRASS_VARIANTS` frames of the grass sprite sheet (patches are one tile).
pub fn grass_index(x: i32, y: i32) -> (i: usize)
    ensures
        i == spec_grass_index(x, y),
        i < GRASS_VARIANTS,
{
    let patch_size: i32 = 1;
    let patch_x = x / patch_size;
    let patch_y = y / patch_size;
    (pseudo_random(patch_x, patch_y, GRASS_SEED) % GRASS_VARIANTS) as usize
}

/// How a tile is filled.
#[derive(Clone, Copy, Debug, PartialEq, Eq, Structural)]
pub enum TileFill {
    /// A flat rectangle of this colour.
    Solid(Colour),
    /// The grass sprite sheet's frame with this index.
    GrassSprite(usize),
}

/// What the drawing of a tile is made of: its world position (fixed point)
/// and its fill.
#[derive(Clone, Copy, Debug, PartialEq, Eq, Structural)]
pub struct TilePlan {
    pub world_x: i32,
    pub world_y: i32,
    pub fill: TileFill,
}

/// The fill of a tile: walls grey, spawn points dark blue, empty tiles
/// black; grass a hashed grass sprite, or dark green when the grass sheet
/// is not loaded.
pub open spec fn spec_tile_fill(tile_type: TileType, x: i32, y: i32, grass_loaded: bool) -> TileFill {
    match tile_type {
        TileType::Wall => TileFill::Solid(Colour { r: 100, g: 100, b: 100, a: 255 }),
        TileType::SpawnPoint => TileFill::Solid(Colour { r: 0, g: 0, b: 90, a: 255 }),
        TileType::Empty => TileFill::Solid(Colour { r: 0, g: 0, b: 0, a: 255 }),
        TileType::Grass => if grass_loaded {
            TileFill::GrassSprite(spec_grass_index(x, y))
        } else {
            TileFill::Solid(Colour { r: 10, g: 80, b: 10, a: 255 })
        },
    }
}

/// The plan for drawing the tile at column `x`, row `y` of a map whose
/// tiles are `tile_size` fixed-point units wide.
pub fn plan_tile(tile_type: TileType, x: i32, y: i32, tile_size: i32, grass_loaded: bool) -> (p:
    TilePlan)
    requires
        i32::MIN <= x * tile_size <= i32::MAX,
        i32::MIN <= y * tile_size <= i32::MAX,
    ensures
        p.world_x == x * tile_size,
        p.world_y == y * tile_size,
        p.fill == spec_tile_fill(tile_type, x, y, grass_loaded),
{
    let fill = match tile_type {
        TileType::Wall => TileFill::Solid(Colour::from_rgb(100, 100, 100)),
        TileType::SpawnPoint => TileFill::Solid(Colour::from_rgb(0, 0, 90)),
        TileType::Empty => TileFill::Solid(Colour::from_rgb(0, 0, 0)),
        TileType::Grass => {
            if grass_loaded {
                TileFill::GrassSprite(grass_index(x, y))
            } else {
                TileFill::Solid(Colour::from_rgb(10, 80, 10))
            }
        },
    };
    TilePlan { world_x: x * tile_size, world_y: y * tile_size, fill }
}

/// The grass pattern is a function of position alone: the same tile always
/// gets the same variant, and every variant index is a valid frame of a
/// grass sheet of `GRASS_VARIANTS` frames.
pub proof fn lemma_grass_pattern_stable(x: i32, y: i32)
    ensures
        spec_tile_fill(TileType::Grass, x, y, true) == TileFill::GrassSprite(spec_grass_index(x, y)),
        spec_grass_index(x, y) < GRASS_VARIANTS,
{
}

} // verus!
