//! Scalar type aliases, the `Vec3` vector record, colors, and the id
//! cache used by the platform layer.
use vstd::prelude::*;

verus! {

/// Milliseconds of game time.
pub type Time = u64;

/// Generic integer id into one of the static catalogs.
pub type Id = i32;
pub type SpriteId = i16;
pub type TextId = Id;
pub type ClipId = Id;
pub type EffectId = Id;
pub type ClassId = Id;
pub type RouteId = Id;
pub type ItemId = Id;
pub type SoundId = Id;
pub type ImageId = Id;
pub type PaletteId = Id;
pub type LevelId = Id;
pub type FontId = Id;
pub type EntityId = Id;
pub type PlatformId = usize;

/// Tile code taken from a level's tile-data layer.
pub type LevelTileData = i8;

/// Plain (untranslated) integer scalar: tile indices, pixel sizes.
pub type IScalar = i32;

/// Fixed-point world scalar in milli-units: one game unit is 1000.
pub type Fixed = i64;

/// Fixed-point angle in microradians.
pub type Angle = i64;

/// Largest world coordinate magnitude the engine works with, in
/// milli-units. Keeping coordinates inside this range keeps every
/// squared-distance computation inside `i64`.
pub const MAX_COORD: Fixed = 2_000_000_000;

#[derive(Debug, Clone, Copy, PartialEq, Eq, Structural)]
pub struct Vec3<T> {
    pub x: T,
    pub y: T,
    pub z: T,
}

pub type Vec3i = Vec3<IScalar>;
pub type Vec3fx = Vec3<Fixed>;

pub trait VecTrait<T> {
    fn min2(&self) -> T;
    fn max2(&self) -> T;
    fn max3(&self) -> T;
    fn min3(&self) -> T;
}

impl VecTrait<Fixed> for Vec3<Fixed> {
    fn min2(&self) -> Fixed {
        if self.x < self.y {
            self.x
        } else {
            self.y
        }
    }

    fn max2(&self) -> Fixed {
        if self.x > self.y {
            self.x
        } else {
            self.y
        }
    }

    fn max3(&self) -> Fixed {
        let t = if self.x > self.y {
            self.x
        } else {
            self.y
        };
        if t > self.z {
            t
        } else {
            self.z
        }
    }

    fn min3(&self) -> Fixed {
        let t = if self.x < self.y {
            self.x
        } else {
            self.y
        };
        if t < self.z {
            t
        } else {
            self.z
        }
    }
}

impl VecTrait<IScalar> for Vec3<IScalar> {
    fn min2(&self) -> IScalar {
        if self.x < self.y {
            self.x
        } else {
            self.y
        }
    }

    fn max2(&self) -> IScalar {
        if self.x > self.y {
            self.x
        } else {
            self.y
        }
    }

    fn max3(&self) -> IScalar {
        let t = if self.x > self.y {
            self.x
        } else {
            self.y
        };
        if t > self.z {
            t
        } else {
            self.z
        }
    }

    fn min3(&self) -> IScalar {
        let t = if self.x < self.y {
            self.x
        } else {
            self.y
        };
        if t < self.z {
            t
        } else {
            self.z
        }
    }
}

impl Vec3<IScalar> {
    pub fn new2(x: IScalar, y: IScalar) -> (r: Vec3i)
        ensures
            r == (Vec3i { x, y, z: 0 }),
    {
        Vec3 { x, y, z: 0 }
    }

    pub fn new3(x: IScalar, y: IScalar, z: IScalar) -> (r: Vec3i)
        ensures
            r == (Vec3i { x, y, z }),
    {
        Vec3 { x, y, z }
    }
}

impl Vec3<Fixed> {
    pub fn new2(x: Fixed, y: Fixed) -> (r: Vec3fx)
        ensures
            r == (Vec3fx { x, y, z: 0 }),
    {
        Vec3 { x, y, z: 0 }
    }

    pub fn new3(x: Fixed, y: Fixed, z: Fixed) -> (r: Vec3fx)
        ensures
            r == (Vec3fx { x, y, z }),
    {
        Vec3 { x, y, z }
    }
}

/// Squares of range-bounded values are nonnegative and bounded.
pub proof fn lemma_square_bound(x: int, b: int)
    requires
        -b <= x <= b,
        0 <= b,
    ensures
        0 <= x * x <= b * b,
{
    if x >= 0 {
        vstd::arithmetic::mul::lemma_mul_nonnegative(x, x);
        vstd::arithmetic::mul::lemma_mul_upper_bound(x, b, x, b);
    } else {
        vstd::arithmetic::mul::lemma_mul_unary_negation(x, x);
        vstd::arithmetic::mul::lemma_mul_unary_negation(-x, x);
        assert(x * x == (-x) * (-x));
        vstd::arithmetic::mul::lemma_mul_nonnegative(-x, -x);
        vstd::arithmetic::mul::lemma_mul_upper_bound(-x, b, -x, b);
    }
}

/// Length of the `(x, y)` projection of a vector, as a mathematical
/// function.
pub open spec fn spec_len2(v: Vec3fx) -> int {
    crate::util::spec_isqrt(v.x * v.x + v.y * v.y)
}

/// All three components within `[-b, b]`.
pub open spec fn vec_in_range(v: Vec3fx, b: int) -> bool {
    &&& -b <= v.x <= b
    &&& -b <= v.y <= b
    &&& -b <= v.z <= b
}

impl Vec3<Fixed> {
    /// Componentwise sum.
    pub fn add_v(self, other: Vec3fx) -> (r: Vec3fx)
        requires
            vec_in_range(self, 0x3000_0000_0000_0000),
            vec_in_range(other, 0x3000_0000_0000_0000),
        ensures
            r.x == self.x + other.x,
            r.y == self.y + other.y,
            r.z == self.z + other.z,
    {
        Vec3 { x: self.x + other.x, y: self.y + other.y, z: self.z + other.z }
    }

    /// Componentwise difference.
    pub fn sub_v(self, other: Vec3fx) -> (r: Vec3fx)
        requires
            vec_in_range(self, 0x3000_0000_0000_0000),
            vec_in_range(other, 0x3000_0000_0000_0000),
        ensures
            r.x == self.x - other.x,
            r.y == self.y - other.y,
            r.z == self.z - other.z,
    {
        Vec3 { x: self.x - other.x, y: self.y - other.y, z: self.z - other.z }
    }

    /// Componentwise absolute value.
    pub fn abs_v(self) -> (r: Vec3fx)
        requires
            vec_in_range(self, 0x7000_0000_0000_0000),
        ensures
            r.x == crate::util::spec_abs(self.x as int),
            r.y == crate::util::spec_abs(self.y as int),
            r.z == crate::util::spec_abs(self.z as int),
    {
        Vec3 {
            x: if self.x < 0 {
                -self.x
            } else {
                self.x
            },
            y: if self.y < 0 {
                -self.y
            } else {
                self.y
            },
            z: if self.z < 0 {
                -self.z
            } else {
                self.z
            },
        }
    }

    /// The larger of `x` and `y`.
    pub fn max2(self) -> (r: Fixed)
        ensures
            r == if self.x > self.y {
                self.x
            } else {
                self.y
            },
    {
        if self.x > self.y {
            self.x
        } else {
            self.y
        }
    }

    /// The smaller of `x` and `y`.
    pub fn min2(self) -> (r: Fixed)
        ensures
            r == if self.x < self.y {
                self.x
            } else {
                self.y
            },
    {
        if self.x < self.y {
            self.x
        } else {
            self.y
        }
    }

    /// Length of the `(x, y)` projection: the floor of the Euclidean
    /// norm.
    pub fn len2(self) -> (r: Fixed)
        requires
            -2_100_000_000 <= self.x <= 2_100_000_000,
            -2_100_000_000 <= self.y <= 2_100_000_000,
        ensures
            crate::util::is_isqrt(self.x * self.x + self.y * self.y, r as int),
            r == spec_len2(self),
            0 <= r <= 3_000_000_000,
    {
        proof {
            lemma_square_bound(self.x as int, 2_100_000_000);
            lemma_square_bound(self.y as int, 2_100_000_000);
        }
        let xx = self.x * self.x;
        let yy = self.y * self.y;
        let r = crate::util::isqrt((xx + yy) as u64);
        proof {
            crate::util::lemma_isqrt_unique((xx + yy) as int, r as int);
            assert(r as int * r as int <= xx + yy);
            if r > 3_000_000_000 {
                vstd::arithmetic::mul::lemma_mul_strict_inequality(
                    3_000_000_000,
                    r as int,
                    r as int,
                );
                vstd::arithmetic::mul::lemma_mul_upper_bound(
                    3_000_000_000,
                    3_000_000_000,
                    3_000_000_000,
                    3_000_000_000,
                );
            }
        }
        r as i64
    }
}

#[derive(Debug, Clone, Copy, PartialEq, Eq, Structural)]
pub struct Color {
    pub r: u8,
    pub g: u8,
    pub b: u8,
    pub a: u8,
}

impl Color {
    pub fn to_rgba(&self) -> (r: u32)
        ensures
            r == ((self.a as u32) << 24 | (self.b as u32) << 16 | (self.g as u32) << 8
                | self.r as u32),
    {
        ((self.a as u32) << 24) | ((self.b as u32) << 16) | ((self.g as u32) << 8)
            | (self.r as u32)
    }

    pub fn from_rgba(rgba: u32) -> (c: Color)
        ensures
            c.r == (rgba & 0xff) as u8,
            c.g == ((rgba >> 8) & 0xff) as u8,
            c.b == ((rgba >> 16) & 0xff) as u8,
            c.a == ((rgba >> 24) & 0xff) as u8,
    {
        Color {
            r: (rgba & 0xff) as u8,
            g: ((rgba >> 8) & 0xff) as u8,
            b: ((rgba >> 16) & 0xff) as u8,
            a: ((rgba >> 24) & 0xff) as u8,
        }
    }

    pub fn from_bgr(bgr: u32) -> (c: Color)
        ensures
            c.b == (bgr & 0xff) as u8,
            c.g == ((bgr >> 8) & 0xff) as u8,
            c.r == ((bgr >> 16) & 0xff) as u8,
            c.a == 255,
    {
        Color {
            b: (bgr & 0xff) as u8,
            g: ((bgr >> 8) & 0xff) as u8,
            r: ((bgr >> 16) & 0xff) as u8,
            a: 255,
        }
    }
}

/// Colors survive a round trip through their packed `u32` form.
pub proof fn lemma_color_rgba_round_trip(c: Color)
    ensures
        Color::from_rgba_spec(c.to_rgba_spec()) == c,
{
    let packed = c.to_rgba_spec();
    let cr = c.r;
    let cg = c.g;
    let cb = c.b;
    let ca = c.a;
    assert((packed & 0xff) as u8 == cr && ((packed >> 8) & 0xff) as u8 == cg
        && ((packed >> 16) & 0xff) as u8 == cb && ((packed >> 24) & 0xff) as u8 == ca)
        by (bit_vector)
        requires
            packed == ((ca as u32) << 24 | (cb as u32) << 16 | (cg as u32) << 8
                | cr as u32),
    ;
}

impl Color {
    /// Packed form of `to_rgba`, as a mathematical function.
    pub open spec fn to_rgba_spec(self) -> u32 {
        ((self.a as u32) << 24 | (self.b as u32) << 16 | (self.g as u32) << 8
            | self.r as u32)
    }

    /// Unpacked form of `from_rgba`, as a mathematical function.
    pub open spec fn from_rgba_spec(rgba: u32) -> Color {
        Color {
            r: (rgba & 0xff) as u8,
            g: ((rgba >> 8) & 0xff) as u8,
            b: ((rgba >> 16) & 0xff) as u8,
            a: ((rgba >> 24) & 0xff) as u8,
        }
    }
}

/// A decoded raster image: raw RGBA bytes and the pixel size.
#[derive(Debug, Clone, PartialEq)]
pub struct Image {
    pub data: Vec<u8>,
    pub size: Vec3i,
}

/// Hands out platform-layer ids, starting from 1 and never reusing one.
#[derive(Debug, Clone, Copy, PartialEq, Eq, Structural)]
pub struct IdCache {
    current_id: PlatformId,
}

impl IdCache {
    /// The id the next call of `get_id` hands out.
    pub closed spec fn next_id(self) -> PlatformId {
        self.current_id
    }

    pub fn new() -> (r: IdCache)
        ensures
            r.next_id() == 1,
    {
        IdCache { current_id: 1 }
    }

    pub fn get_id(&mut self) -> (id: PlatformId)
        requires
            old(self).next_id() < usize::MAX,
        ensures
            id == old(self).next_id(),
            final(self).next_id() == old(self).next_id() + 1,
    {
        let id = self.current_id;
        self.current_id = self.current_id + 1;
        id
    }

    pub fn free_id(&mut self, _id: PlatformId)
        ensures
            *final(self) == *old(self),
    {
    }
}

} // verus!
