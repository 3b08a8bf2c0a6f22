//! The collision engine: transient physical objects derived from
//! entities each tick, pairwise overlap tests yielding a response vector
//! (contact direction scaled by penetration depth), and the weighted
//! split of a response between two bodies.
//!
//! Circles collide exactly; rectangles take part with their axis-aligned
//! extents (an entity's heading steers its movement but does not rotate
//! its collision footprint).
use vstd::prelude::*;
use crate::types::{Fixed, Vec3, Vec3fx, vec_in_range};
use crate::util::{tdiv, spec_abs, spec_isqrt, div_trunc, lemma_isqrt_unique, lemma_tdiv_abs_bound};
use crate::types::Angle;

verus! {

/// Bound on entity positions that take part in collision, in
/// milli-units.
pub const WORLD_MAX: Fixed = 1_000_000_000;

/// Bound on shape radii and half-extents, in milli-units.
pub const SHAPE_MAX: Fixed = 100_000_000;

/// Bound on body weights.
pub const WEIGHT_MAX: i64 = 1_000_000_000;

/// Collision footprint of an entity: half-extents of a rectangle, or
/// the radius of a circle, in milli-units.
#[derive(Debug, Clone, Copy, PartialEq, Eq, Structural)]
pub enum Shape {
    Rect(Vec3fx),
    Circle(Fixed),
}

impl Shape {
    /// Extents are nonnegative and small enough for exact arithmetic.
    pub open spec fn wf(self) -> bool {
        match self {
            Shape::Rect(e) => 0 <= e.x <= SHAPE_MAX && 0 <= e.y <= SHAPE_MAX && e.z == 0,
            Shape::Circle(r) => 0 <= r <= SHAPE_MAX,
        }
    }

    /// Radius of the circle that encloses the shape's bounding box,
    /// rounded up by one where the exact value is irrational.
    pub fn bounding_radius(self) -> (r: Fixed)
        requires
            self.wf(),
        ensures
            match self {
                Shape::Circle(radius) => r == radius,
                Shape::Rect(e) => r == spec_isqrt(e.x * e.x + e.y * e.y) + 1,
            },
            0 <= r <= SHAPE_MAX + SHAPE_MAX,
    {
        match self {
            Shape::Circle(radius) => radius,
            Shape::Rect(e) => {
                let d = e.len2();
                proof {
                    crate::types::lemma_square_bound(e.x as int, SHAPE_MAX as int);
                    crate::types::lemma_square_bound(e.y as int, SHAPE_MAX as int);
                    if d as int + 1 > 2 * SHAPE_MAX {
                        vstd::arithmetic::mul::lemma_mul_inequality(
                            2 * SHAPE_MAX,
                            d as int,
                            2 * SHAPE_MAX,
                        );
                        vstd::arithmetic::mul::lemma_mul_left_inequality(
                            d as int,
                            2 * SHAPE_MAX,
                            d as int,
                        );
                    }
                }
                d + 1
            },
        }
    }
}

/// Shape plus weight, as the per-class catalog hands it to an entity.
#[derive(Debug, Clone, Copy, PartialEq, Eq, Structural)]
pub struct ShapeInfo {
    pub shape: Shape,
    pub weight: i64,
}

impl ShapeInfo {
    pub open spec fn wf(self) -> bool {
        self.shape.wf() && 0 <= self.weight <= WEIGHT_MAX
    }
}

/// Transient collision body: a shape at a pose. Rebuilt from its entity
/// every tick it takes part in collision, never persisted across ticks.
#[derive(Debug, Clone, Copy, PartialEq, Eq, Structural)]
pub struct PhysicalObject {
    pub shape: Shape,
    pub pos: Vec3fx,
    pub angle: Angle,
    pub weight: i64,
}

impl PhysicalObject {
    pub open spec fn wf(self) -> bool {
        &&& self.shape.wf()
        &&& 0 <= self.weight <= WEIGHT_MAX
        &&& vec_in_range(self.pos, WORLD_MAX as int)
    }

    pub fn new_from_info(info: ShapeInfo) -> (r: PhysicalObject)
        requires
            info.wf(),
        ensures
            r.shape == info.shape,
            r.weight == info.weight,
            r.pos == (Vec3fx { x: 0, y: 0, z: 0 }),
            r.angle == 0,
            r.wf(),
    {
        PhysicalObject { shape: info.shape, pos: Vec3 { x: 0, y: 0, z: 0 }, angle: 0, weight: info.weight }
    }

    /// The same body at another pose.
    pub fn clone_with_pa(&self, pos: Vec3fx, angle: Angle) -> (r: PhysicalObject)
        ensures
            r.shape == self.shape,
            r.weight == self.weight,
            r.pos == pos,
            r.angle == angle,
    {
        PhysicalObject { shape: self.shape, pos, angle, weight: self.weight }
    }

    /// Moves the body to an entity's pose.
    pub fn update_pose(&mut self, pos: Vec3fx, angle: Angle)
        ensures
            final(self).shape == old(self).shape,
            final(self).weight == old(self).weight,
            final(self).pos == pos,
            final(self).angle == angle,
    {
        self.pos = pos;
        self.angle = angle;
    }

    /// Overlap response of this body against another: the contact
    /// direction from this body toward the other, scaled by the
    /// penetration depth; none when they do not penetrate.
    pub fn get_response_vector(&self, other: &PhysicalObject) -> (r: Option<Vec3fx>)
        requires
            self.wf(),
            other.wf(),
        ensures
            r == spec_response(*self, *other),
            r is Some ==> vec_in_range(r->Some_0, 8 * SHAPE_MAX as int),
    {
        match (self.shape, other.shape) {
            (Shape::Circle(r1), Shape::Circle(r2)) => circle_circle(self.pos, r1, other.pos, r2),
            (Shape::Rect(e1), Shape::Rect(e2)) => rect_rect(self.pos, e1, other.pos, e2),
            (Shape::Circle(r1), Shape::Rect(e2)) => circle_rect(self.pos, r1, other.pos, e2),
            (Shape::Rect(e1), Shape::Circle(r2)) => {
                let inner = circle_rect(other.pos, r2, self.pos, e1);
                match inner {
                    Some(v) => Some(Vec3 { x: -v.x, y: -v.y, z: 0 }),
                    None => None,
                }
            },
        }
    }

    /// Whether this body penetrates another.
    pub fn collides_with(&self, other: &PhysicalObject) -> (r: bool)
        requires
            self.wf(),
            other.wf(),
        ensures
            r == spec_response(*self, *other).is_some(),
    {
        self.get_response_vector(other).is_some()
    }
}

/// Sign used for contact directions: positive for nonnegative offsets.
pub open spec fn spec_dir_sign(d: int) -> int {
    if d >= 0 {
        1
    } else {
        -1
    }
}

/// Clamp onto an interval.
pub open spec fn spec_clamp(v: int, lo: int, hi: int) -> int {
    if v < lo {
        lo
    } else if v > hi {
        hi
    } else {
        v
    }
}

/// Response of a circle at `c1` against a circle at `c2`: along the
/// center line, depth `r1 + r2 - dist`; straight along x when the
/// centers coincide.
pub open spec fn spec_circle_circle(c1: Vec3fx, r1: int, c2: Vec3fx, r2: int) -> Option<Vec3fx> {
    let dx = c2.x - c1.x;
    let dy = c2.y - c1.y;
    let dist = spec_isqrt(dx * dx + dy * dy);
    if dist >= r1 + r2 {
        None
    } else {
        let depth = r1 + r2 - dist;
        if dist == 0 {
            Some(Vec3fx { x: depth as Fixed, y: 0, z: 0 })
        } else {
            Some(
                Vec3fx {
                    x: tdiv(dx * depth, dist) as Fixed,
                    y: tdiv(dy * depth, dist) as Fixed,
                    z: 0,
                },
            )
        }
    }
}

/// Response of an axis-aligned rectangle against another: along the
/// axis of least penetration, toward the second rectangle.
pub open spec fn spec_rect_rect(c1: Vec3fx, e1: Vec3fx, c2: Vec3fx, e2: Vec3fx) -> Option<
    Vec3fx,
> {
    let dx = c2.x - c1.x;
    let dy = c2.y - c1.y;
    let px = e1.x + e2.x - spec_abs(dx);
    let py = e1.y + e2.y - spec_abs(dy);
    if px <= 0 || py <= 0 {
        None
    } else if px <= py {
        Some(Vec3fx { x: (spec_dir_sign(dx) * px) as Fixed, y: 0, z: 0 })
    } else {
        Some(Vec3fx { x: 0, y: (spec_dir_sign(dy) * py) as Fixed, z: 0 })
    }
}

/// Response of a circle at `c` against an axis-aligned rectangle at
/// `t`: toward the rectangle's closest boundary point; when the center
/// lies inside the rectangle, like a rectangle of half-extents `r`.
pub open spec fn spec_circle_rect(c: Vec3fx, r: int, t: Vec3fx, e: Vec3fx) -> Option<Vec3fx> {
    let qx = spec_clamp(c.x as int, t.x - e.x, t.x + e.x);
    let qy = spec_clamp(c.y as int, t.y - e.y, t.y + e.y);
    if qx == c.x && qy == c.y {
        spec_rect_rect(c, Vec3fx { x: r as Fixed, y: r as Fixed, z: 0 }, t, e)
    } else {
        let dx = qx - c.x;
        let dy = qy - c.y;
        let dist = spec_isqrt(dx * dx + dy * dy);
        if dist >= r {
            None
        } else {
            let depth = r - dist;
            Some(
                Vec3fx {
                    x: tdiv(dx * depth, dist) as Fixed,
                    y: tdiv(dy * depth, dist) as Fixed,
                    z: 0,
                },
            )
        }
    }
}

/// Overlap response between two bodies, by shape pair.
pub open spec fn spec_response(a: PhysicalObject, b: PhysicalObject) -> Option<Vec3fx> {
    match (a.shape, b.shape) {
        (Shape::Circle(r1), Shape::Circle(r2)) => spec_circle_circle(
            a.pos,
            r1 as int,
            b.pos,
            r2 as int,
        ),
        (Shape::Rect(e1), Shape::Rect(e2)) => spec_rect_rect(a.pos, e1, b.pos, e2),
        (Shape::Circle(r1), Shape::Rect(e2)) => spec_circle_rect(a.pos, r1 as int, b.pos, e2),
        (Shape::Rect(e1), Shape::Circle(r2)) => match spec_circle_rect(
            b.pos,
            r2 as int,
            a.pos,
            e1,
        ) {
            Some(v) => Some(Vec3fx { x: -v.x as Fixed, y: -v.y as Fixed, z: 0 }),
            None => None,
        },
    }
}

/// The response components never exceed the combined shape sizes.
pub proof fn lemma_scaled_component_bound(d: int, depth: int, dist: int)
    requires
        0 < dist,
        0 <= depth,
        spec_abs(d) <= dist + dist,
        depth <= 4 * SHAPE_MAX,
    ensures
        spec_abs(tdiv(d * depth, dist)) <= 8 * SHAPE_MAX,
{
    let ad = spec_abs(d);
    assert(spec_abs(d * depth) == ad * depth) by {
        if d < 0 {
            vstd::arithmetic::mul::lemma_mul_unary_negation(d, depth);
            vstd::arithmetic::mul::lemma_mul_nonnegative(-d, depth);
        } else {
            vstd::arithmetic::mul::lemma_mul_nonnegative(d, depth);
        }
    }
    lemma_tdiv_abs_bound(d * depth, dist);
    vstd::arithmetic::mul::lemma_mul_inequality(ad, dist + dist, depth);
    vstd::arithmetic::mul::lemma_mul_is_commutative(ad, depth);
    vstd::arithmetic::mul::lemma_mul_is_commutative(dist + dist, depth);
    vstd::arithmetic::div_mod::lemma_div_is_ordered(ad * depth, (dist + dist) * depth, dist);
    assert((dist + dist) * depth == 2 * depth * dist) by (nonlinear_arith);
    vstd::arithmetic::div_mod::lemma_div_by_multiple(2 * depth, dist);
}

fn circle_circle(c1: Vec3fx, r1: Fixed, c2: Vec3fx, r2: Fixed) -> (r: Option<Vec3fx>)
    requires
        vec_in_range(c1, WORLD_MAX as int),
        vec_in_range(c2, WORLD_MAX as int),
        0 <= r1 <= SHAPE_MAX,
        0 <= r2 <= SHAPE_MAX,
    ensures
        r == spec_circle_circle(c1, r1 as int, c2, r2 as int),
        r is Some ==> vec_in_range(r->Some_0, 8 * SHAPE_MAX as int),
{
    let d = c2.sub_v(c1);
    let dist = d.len2();
    if dist >= r1 + r2 {
        return None;
    }
    let depth = r1 + r2 - dist;
    if dist == 0 {
        return Some(Vec3 { x: depth, y: 0, z: 0 });
    }
    proof {
        lemma_isqrt_unique((d.x * d.x + d.y * d.y) as int, dist as int);
        lemma_dist_dominates_component(d.x as int, d.y as int, dist as int);
        lemma_scaled_component_bound(d.x as int, depth as int, dist as int);
        lemma_scaled_component_bound(d.y as int, depth as int, dist as int);
        vstd::arithmetic::mul::lemma_mul_upper_bound(
            spec_abs(d.x as int),
            2 * WORLD_MAX as int,
            depth as int,
            2 * SHAPE_MAX as int,
        );
        lemma_abs_mul(d.x as int, depth as int);
        vstd::arithmetic::mul::lemma_mul_upper_bound(
            spec_abs(d.y as int),
            2 * WORLD_MAX as int,
            depth as int,
            2 * SHAPE_MAX as int,
        );
        lemma_abs_mul(d.y as int, depth as int);
    }
    let rx = div_trunc(d.x * depth, dist);
    let ry = div_trunc(d.y * depth, dist);
    Some(Vec3 { x: rx, y: ry, z: 0 })
}

/// |a * b| == |a| * b for nonnegative b.
proof fn lemma_abs_mul(a: int, b: int)
    requires
        0 <= b,
    ensures
        spec_abs(a * b) == spec_abs(a) * b,
{
    if a < 0 {
        vstd::arithmetic::mul::lemma_mul_unary_negation(a, b);
        vstd::arithmetic::mul::lemma_mul_nonnegative(-a, b);
    } else {
        vstd::arithmetic::mul::lemma_mul_nonnegative(a, b);
    }
}

/// The Euclidean length bounds each component: `|x| <= dist + 1 <= 2 *
/// dist` when the component is nonzero.
proof fn lemma_dist_dominates_component(x: int, y: int, dist: int)
    requires
        crate::util::is_isqrt(x * x + y * y, dist),
        0 < dist,
    ensures
        spec_abs(x) <= dist + dist,
        spec_abs(y) <= dist + dist,
{
    let ax = spec_abs(x);
    let ay = spec_abs(y);
    assert(x * x == ax * ax && y * y == ay * ay) by {
        if x < 0 {
            vstd::arithmetic::mul::lemma_mul_unary_negation(x, x);
            vstd::arithmetic::mul::lemma_mul_unary_negation(-x, x);
        }
        if y < 0 {
            vstd::arithmetic::mul::lemma_mul_unary_negation(y, y);
            vstd::arithmetic::mul::lemma_mul_unary_negation(-y, y);
        }
    }
    vstd::arithmetic::mul::lemma_mul_nonnegative(ay, ay);
    vstd::arithmetic::mul::lemma_mul_nonnegative(ax, ax);
    if ax > dist + dist {
        vstd::arithmetic::mul::lemma_mul_inequality(dist + dist + 1, ax, dist + dist + 1);
        vstd::arithmetic::mul::lemma_mul_left_inequality(ax, dist + dist + 1, ax);
        assert((dist + dist + 1) * (dist + dist + 1) > (dist + 1) * (dist + 1)) by (nonlinear_arith)
            requires
                0 < dist,
        ;
    }
    if ay > dist + dist {
        vstd::arithmetic::mul::lemma_mul_inequality(dist + dist + 1, ay, dist + dist + 1);
        vstd::arithmetic::mul::lemma_mul_left_inequality(ay, dist + dist + 1, ay);
        assert((dist + dist + 1) * (dist + dist + 1) > (dist + 1) * (dist + 1)) by (nonlinear_arith)
            requires
                0 < dist,
        ;
    }
}

fn rect_rect(c1: Vec3fx, e1: Vec3fx, c2: Vec3fx, e2: Vec3fx) -> (r: Option<Vec3fx>)
    requires
        vec_in_range(c1, WORLD_MAX as int),
        vec_in_range(c2, WORLD_MAX as int),
        0 <= e1.x <= 2 * SHAPE_MAX,
        0 <= e1.y <= 2 * SHAPE_MAX,
        0 <= e2.x <= 2 * SHAPE_MAX,
        0 <= e2.y <= 2 * SHAPE_MAX,
    ensures
        r == spec_rect_rect(c1, e1, c2, e2),
        r is Some ==> vec_in_range(r->Some_0, 8 * SHAPE_MAX as int),
{
    let dx = c2.x - c1.x;
    let dy = c2.y - c1.y;
    let adx: i64 = if dx < 0 {
        -dx
    } else {
        dx
    };
    let ady: i64 = if dy < 0 {
        -dy
    } else {
        dy
    };
    let px = e1.x + e2.x - adx;
    let py = e1.y + e2.y - ady;
    if px <= 0 || py <= 0 {
        return None;
    }
    proof {
        vstd::arithmetic::mul::lemma_mul_basics(px as int);
        vstd::arithmetic::mul::lemma_mul_basics(py as int);
        assert((-1) * (px as int) == -(px as int)) by (nonlinear_arith);
        assert((-1) * (py as int) == -(py as int)) by (nonlinear_arith);
    }
    if px <= py {
        Some(Vec3 { x: if dx >= 0 { px } else { -px }, y: 0, z: 0 })
    } else {
        Some(Vec3 { x: 0, y: if dy >= 0 { py } else { -py }, z: 0 })
    }
}

fn clamp_fixed(v: Fixed, lo: Fixed, hi: Fixed) -> (r: Fixed)
    requires
        lo <= hi,
    ensures
        r == spec_clamp(v as int, lo as int, hi as int),
{
    if v < lo {
        lo
    } else if v > hi {
        hi
    } else {
        v
    }
}

fn circle_rect(c: Vec3fx, radius: Fixed, t: Vec3fx, e: Vec3fx) -> (r: Option<Vec3fx>)
    requires
        vec_in_range(c, WORLD_MAX as int),
        vec_in_range(t, WORLD_MAX as int),
        0 <= radius <= SHAPE_MAX,
        0 <= e.x <= SHAPE_MAX,
        0 <= e.y <= SHAPE_MAX,
    ensures
        r == spec_circle_rect(c, radius as int, t, e),
        r is Some ==> vec_in_range(r->Some_0, 8 * SHAPE_MAX as int),
{
    let qx = clamp_fixed(c.x, t.x - e.x, t.x + e.x);
    let qy = clamp_fixed(c.y, t.y - e.y, t.y + e.y);
    if qx == c.x && qy == c.y {
        return rect_rect(c, Vec3 { x: radius, y: radius, z: 0 }, t, e);
    }
    let dx = qx - c.x;
    let dy = qy - c.y;
    let q = Vec3 { x: dx, y: dy, z: 0 };
    let dist = q.len2();
    proof {
        lemma_isqrt_unique((dx * dx + dy * dy) as int, dist as int);
        crate::types::lemma_square_bound(dx as int, 3_000_000_000);
        crate::types::lemma_square_bound(dy as int, 3_000_000_000);
        if dx != 0 {
            vstd::arithmetic::mul::lemma_mul_nonzero(dx as int, dx as int);
        }
        if dy != 0 {
            vstd::arithmetic::mul::lemma_mul_nonzero(dy as int, dy as int);
        }
        assert(dx * dx + dy * dy >= 1);
        if dist == 0 {
            assert((dist as int + 1) * (dist as int + 1) == 1) by (nonlinear_arith)
                requires
                    dist == 0,
            ;
        }
        assert(dist > 0);
    }
    if dist >= radius {
        return None;
    }
    let depth = radius - dist;
    proof {
        lemma_dist_dominates_component(dx as int, dy as int, dist as int);
        lemma_scaled_component_bound(dx as int, depth as int, dist as int);
        lemma_scaled_component_bound(dy as int, depth as int, dist as int);
        vstd::arithmetic::mul::lemma_mul_upper_bound(
            spec_abs(dx as int),
            2 * WORLD_MAX as int,
            depth as int,
            2 * SHAPE_MAX as int,
        );
        lemma_abs_mul(dx as int, depth as int);
        vstd::arithmetic::mul::lemma_mul_upper_bound(
            spec_abs(dy as int),
            2 * WORLD_MAX as int,
            depth as int,
            2 * SHAPE_MAX as int,
        );
        lemma_abs_mul(dy as int, depth as int);
    }
    let rx = div_trunc(dx * depth, dist);
    let ry = div_trunc(dy * depth, dist);
    Some(Vec3 { x: rx, y: ry, z: 0 })
}

/// Splits a response component between two weighted bodies: the first
/// share is `r * w2 / (w1 + w2)` (the heavier the first body, the less
/// it moves), and the two shares always sum to the whole response.
/// A zero combined weight splits into no displacement at all.
pub fn split_weighted(r: Fixed, w1: i64, w2: i64) -> (pair: (Fixed, Fixed))
    requires
        0 <= w1 <= WEIGHT_MAX,
        0 <= w2 <= WEIGHT_MAX,
        -1_000_000_000 <= r <= 1_000_000_000,
    ensures
        w1 + w2 > 0 ==> pair.0 == tdiv(r * w2, w1 + w2) && pair.0 + pair.1 == r,
        w1 + w2 == 0 ==> pair.0 == 0 && pair.1 == 0,
        r >= 0 ==> 0 <= pair.0 <= r && 0 <= pair.1 <= r,
        r <= 0 ==> r <= pair.0 <= 0 && r <= pair.1 <= 0,
{
    let total = w1 + w2;
    if total == 0 {
        return (0, 0);
    }
    proof {
        lemma_abs_mul(r as int, w2 as int);
        vstd::arithmetic::mul::lemma_mul_upper_bound(
            spec_abs(r as int),
            1_000_000_000,
            w2 as int,
            WEIGHT_MAX as int,
        );
        lemma_tdiv_abs_bound(r * w2, total as int);
    }
    let first = div_trunc(r * w2, total);
    proof {
        lemma_tdiv_share_bound(r as int, w2 as int, total as int);
        crate::util::lemma_tdiv_scale_bracket(r as int, w2 as int, total as int);
    }
    (first, r - first)
}

/// The truncated share `r * w / total` never exceeds `|r|` when the
/// weight is at most the total.
proof fn lemma_tdiv_share_bound(r: int, w: int, total: int)
    requires
        0 <= w <= total,
        0 < total,
    ensures
        spec_abs(tdiv(r * w, total)) <= spec_abs(r),
{
    let ar = spec_abs(r);
    lemma_abs_mul(r, w);
    lemma_tdiv_abs_bound(r * w, total);
    vstd::arithmetic::mul::lemma_mul_inequality(w, total, ar);
    vstd::arithmetic::mul::lemma_mul_is_commutative(ar, w);
    vstd::arithmetic::mul::lemma_mul_is_commutative(ar, total);
    vstd::arithmetic::div_mod::lemma_div_is_ordered(ar * w, ar * total, total);
    vstd::arithmetic::div_mod::lemma_div_multiples_vanish(ar, total);
    vstd::arithmetic::mul::lemma_mul_is_commutative(total, ar);
}

/// An exact multiple divides back out under truncating division.
pub proof fn lemma_tdiv_cancel(a: int, b: int)
    requires
        0 < b,
    ensures
        tdiv(a * b, b) == a,
{
    lemma_abs_mul(a, b);
    crate::util::lemma_mul_sign(a, b);
    vstd::arithmetic::mul::lemma_mul_is_commutative(spec_abs(a), b);
    vstd::arithmetic::div_mod::lemma_div_multiples_vanish(spec_abs(a), b);
    if a == 0 {
        vstd::arithmetic::div_mod::lemma_div_of0(b);
    }
}

/// The weighted-split law: the two displacement shares always sum to
/// the whole response; the first share is the response scaled by the
/// other body's weight fraction, rounded toward zero; and with equal
/// weights the first share is exactly half the response (to the
/// integer).
pub proof fn lemma_weighted_split(r: int, w1: int, w2: int)
    requires
        0 <= w1,
        0 <= w2,
        0 < w1 + w2,
    ensures
        tdiv(r * w2, w1 + w2) + (r - tdiv(r * w2, w1 + w2)) == r,
        w1 == w2 ==> tdiv(r * w2, w1 + w2) == tdiv(r, 2),
{
    if w1 == w2 {
        let w = w2;
        let ar = spec_abs(r);
        lemma_abs_mul(r, w);
        crate::util::lemma_mul_sign(r, w);
        assert((ar * w) / (w * 2) == ar / 2) by {
            vstd::arithmetic::div_mod::lemma_div_denominator(ar * w, w, 2);
            vstd::arithmetic::mul::lemma_mul_is_commutative(ar, w);
            vstd::arithmetic::div_mod::lemma_div_multiples_vanish(ar, w);
        }
        assert(spec_abs(w1 + w2) == w * 2);
    }
}

/// Collision symmetry for two equal-weight circles overlapping along
/// the x axis: the response is the penetration depth straight along
/// the axis, each body's share is half of it, and applying the two
/// shares restores a center distance of exactly twice the radius.
pub proof fn lemma_circle_collision_symmetry(x1: int, x2: int, y: int, rad: int, w: int)
    requires
        0 < w <= WEIGHT_MAX,
        0 < rad <= SHAPE_MAX,
        -WORLD_MAX <= x1 < x2 <= WORLD_MAX,
        -WORLD_MAX <= y <= WORLD_MAX,
        x2 - x1 < 2 * rad,
    ensures
        ({
            let c1 = Vec3fx { x: x1 as Fixed, y: y as Fixed, z: 0 };
            let c2 = Vec3fx { x: x2 as Fixed, y: y as Fixed, z: 0 };
            let resp = spec_circle_circle(c1, rad, c2, rad);
            let depth = 2 * rad - (x2 - x1);
            &&& resp == Some(Vec3fx { x: depth as Fixed, y: 0, z: 0 })
            &&& {
                let s1 = tdiv(depth * w, w + w);
                let s2 = depth - s1;
                &&& s1 == tdiv(depth, 2)
                &&& (x2 + s2) - (x1 - s1) == 2 * rad
            }
        }),
{
    let dx = x2 - x1;
    let depth = 2 * rad - dx;
    assert(crate::util::is_isqrt(dx * dx + 0 * 0, dx)) by (nonlinear_arith)
        requires
            0 < dx,
    ;
    crate::util::lemma_isqrt_unique(dx * dx + 0 * 0, dx);
    lemma_tdiv_cancel(depth, dx);
    vstd::arithmetic::mul::lemma_mul_is_commutative(depth, dx);
    assert(tdiv(0 * depth, dx) == 0) by {
        vstd::arithmetic::mul::lemma_mul_basics(depth);
        vstd::arithmetic::div_mod::lemma_div_of0(dx);
    }
    lemma_weighted_split(depth, w, w);
}

} // verus!
