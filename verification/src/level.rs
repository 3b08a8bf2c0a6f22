//! Level data as the simulation reads it: the tile-code layer with its
//! bounds-checked lookup, the sidewalk and impassability predicates, and
//! conversions between world positions and tile positions. Parsing the
//! binary level format happens outside this crate; the simulation only
//! consumes the plain values below.
use vstd::prelude::*;
use crate::types::{
    ClassId, Fixed, IScalar, LevelTileData, RouteId, SpriteId, Vec3, Vec3fx, Vec3i, MAX_COORD,
};
use crate::util::tdiv;
use crate::route::Route;

verus! {

/// Tile edge length in world units.
pub const TILESIZE: IScalar = 24;

/// Tile edge length in fixed-point milli-units.
pub const TILESIZE_FX: Fixed = 24_000;

#[derive(Debug, Clone, PartialEq)]
pub struct LevelLayer {
    pub start: Vec3i,
    pub tilesize: Vec3i,
    pub size: Vec3i,
    pub tiles: Vec<i16>,
}

#[derive(Debug, Clone, Copy, PartialEq, Eq, Structural)]
pub struct LevelObject {
    pub pos: Vec3i,
    pub sprite: SpriteId,
}

#[derive(Debug, Clone, Copy, PartialEq, Eq, Structural)]
pub struct LevelEntity {
    pub class: ClassId,
    pub pos: Vec3i,
    pub unk1: i16,
    pub route: RouteId,
}

#[derive(Debug, Clone, PartialEq)]
pub struct Level {
    pub layer1: LevelLayer,
    pub layer2: LevelLayer,
    pub objects: Vec<LevelObject>,
    pub tilesize: Vec3fx,
    pub tiledata_size: Vec3i,
    pub tiledata: Vec<i8>,
    pub tile_gangdata: Vec<i8>,
    pub entities: Vec<LevelEntity>,
    pub routes: Vec<Route>,
}

impl Level {
    /// The tile-data layer is consistent: a rectangle of the stated
    /// size, small enough that every index computation stays exact.
    pub open spec fn wf(self) -> bool {
        &&& 0 <= self.tiledata_size.x <= 30_000
        &&& 0 <= self.tiledata_size.y <= 30_000
        &&& self.tiledata@.len() == self.tiledata_size.x * self.tiledata_size.y
    }

    /// Tile code at a tile position; everything outside the rectangle
    /// reads as the impassable sentinel 1.
    pub open spec fn tile_at(self, x: int, y: int) -> int {
        if x < 0 || y < 0 || x >= self.tiledata_size.x || y >= self.tiledata_size.y {
            1
        } else {
            self.tiledata@[y * self.tiledata_size.x + x] as int
        }
    }
}

/// Center-less corner position of a tile in world coordinates.
pub fn tilepos_to_pos(tilepos: Vec3i) -> (r: Vec3fx)
    ensures
        r.x == tilepos.x * TILESIZE_FX,
        r.y == tilepos.y * TILESIZE_FX,
        r.z == 0,
{
    Vec3 { x: (tilepos.x as Fixed) * TILESIZE_FX, y: (tilepos.y as Fixed) * TILESIZE_FX, z: 0 }
}

/// Tile position holding a world position, truncating componentwise
/// toward zero.
pub fn pos_to_tilepos(pos: Vec3fx) -> (r: Vec3i)
    requires
        -MAX_COORD <= pos.x <= MAX_COORD,
        -MAX_COORD <= pos.y <= MAX_COORD,
    ensures
        r.x == tdiv(pos.x as int, TILESIZE_FX as int),
        r.y == tdiv(pos.y as int, TILESIZE_FX as int),
        r.z == 0,
{
    proof {
        crate::util::lemma_tdiv_abs_bound(pos.x as int, TILESIZE_FX as int);
        crate::util::lemma_tdiv_abs_bound(pos.y as int, TILESIZE_FX as int);
    }
    let x = crate::util::div_trunc(pos.x, TILESIZE_FX);
    let y = crate::util::div_trunc(pos.y, TILESIZE_FX);
    Vec3 { x: x as IScalar, y: y as IScalar, z: 0 }
}

/// Tile code of the level at a tile position, with the out-of-bounds
/// sentinel.
pub fn get_tiledata_for_tilepos(level: &Level, tilepos: Vec3i) -> (r: LevelTileData)
    requires
        level.wf(),
    ensures
        r == level.tile_at(tilepos.x as int, tilepos.y as int),
{
    if tilepos.x < 0 || tilepos.y < 0 || tilepos.x >= level.tiledata_size.x || tilepos.y
        >= level.tiledata_size.y {
        return 1;
    }
    proof {
        let w = level.tiledata_size.x as int;
        let h = level.tiledata_size.y as int;
        let xi = tilepos.x as int;
        let yi = tilepos.y as int;
        vstd::arithmetic::mul::lemma_mul_nonnegative(yi, w);
        vstd::arithmetic::mul::lemma_mul_upper_bound(yi, h - 1, w, 30_000);
        vstd::arithmetic::mul::lemma_mul_inequality(yi, h - 1, w);
        vstd::arithmetic::mul::lemma_mul_is_commutative(yi, w);
        vstd::arithmetic::mul::lemma_mul_is_commutative(h - 1, w);
        vstd::arithmetic::mul::lemma_mul_is_distributive_sub_other_way(w, h, 1);
    }
    let idx = (tilepos.y * level.tiledata_size.x + tilepos.x) as usize;
    level.tiledata[idx]
}

/// Tile code of the level at a world position.
pub fn get_tiledata_for_pos(level: &Level, pos: Vec3fx) -> (r: LevelTileData)
    requires
        level.wf(),
        -MAX_COORD <= pos.x <= MAX_COORD,
        -MAX_COORD <= pos.y <= MAX_COORD,
    ensures
        r == level.tile_at(
            tdiv(pos.x as int, TILESIZE_FX as int),
            tdiv(pos.y as int, TILESIZE_FX as int),
        ),
{
    get_tiledata_for_tilepos(level, pos_to_tilepos(pos))
}

/// A world position lies on a sidewalk tile.
pub open spec fn spec_pos_is_sidewalk(level: Level, pos: Vec3fx) -> bool {
    let t = level.tile_at(
        tdiv(pos.x as int, TILESIZE_FX as int),
        tdiv(pos.y as int, TILESIZE_FX as int),
    );
    t == 9 || t == 36
}

pub fn pos_is_sidewalk(level: &Level, pos: Vec3fx) -> (r: bool)
    requires
        level.wf(),
        -MAX_COORD <= pos.x <= MAX_COORD,
        -MAX_COORD <= pos.y <= MAX_COORD,
    ensures
        r == spec_pos_is_sidewalk(*level, pos),
{
    let tiledata = get_tiledata_for_pos(level, pos);
    tiledata == 9 || tiledata == 36
}

/// A tile position holds one of the solid tile codes 1 through 4.
pub open spec fn spec_tilepos_is_impassable(level: Level, tilepos: Vec3i) -> bool {
    let t = level.tile_at(tilepos.x as int, tilepos.y as int);
    t == 1 || t == 2 || t == 3 || t == 4
}

pub fn tilepos_is_impassable(level: &Level, tilepos: Vec3i) -> (r: bool)
    requires
        level.wf(),
    ensures
        r == spec_tilepos_is_impassable(*level, tilepos),
{
    let tiledata = get_tiledata_for_tilepos(level, tilepos);
    tiledata == 1 || tiledata == 2 || tiledata == 3 || tiledata == 4
}

} // verus!
