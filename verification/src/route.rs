//! Arclength-parametrized waypoint polylines. A route is an ordered list
//! of waypoints whose `distance` fields carry the cumulative arclength
//! from the start; path-following entities query a point and a heading
//! for any arclength value up to the total length.
use vstd::prelude::*;
use crate::types::{Fixed, RouteId, Time, Vec3, Vec3fx};
use crate::util::{tdiv, spec_interpolate};
use crate::angle::{spec_atan2, PI};
use crate::types::Angle;

verus! {

/// Bound on waypoint coordinates, in milli-units.
pub const ROUTE_COORD_MAX: Fixed = 300_000_000;

/// Bound on the arclength gap between two consecutive waypoints.
pub const ROUTE_GAP_MAX: Fixed = 1_000_000_000;

/// Bound on the total arclength of a route.
pub const ROUTE_DIST_MAX: Fixed = 1_000_000_000_000_000;

#[derive(Debug, Clone, Copy, PartialEq, Eq, Structural)]
pub struct RoutePart {
    pub pos: Vec3fx,
    pub distance: Fixed,
    pub unk1: u8,
}

#[derive(Debug, Clone, PartialEq)]
pub struct Route {
    pub parts: Vec<RoutePart>,
}

impl Route {
    /// Distances are a nonnegative, nondecreasing arclength
    /// parametrization starting at zero, with bounded gaps, and
    /// coordinates small enough that interpolation stays exact.
    pub open spec fn wf(self) -> bool {
        &&& 1 <= self.parts@.len() <= 1_000_000
        &&& self.parts@[0].distance == 0
        &&& forall|i: int|
            #![trigger self.parts@[i]]
            0 <= i < self.parts@.len() ==> {
                &&& -ROUTE_COORD_MAX <= self.parts@[i].pos.x <= ROUTE_COORD_MAX
                &&& -ROUTE_COORD_MAX <= self.parts@[i].pos.y <= ROUTE_COORD_MAX
                &&& self.parts@[i].pos.z == 0
                &&& 0 <= self.parts@[i].distance <= ROUTE_DIST_MAX
            }
        &&& forall|i: int|
            #![trigger self.parts@[i]]
            1 <= i < self.parts@.len() ==> {
                &&& self.parts@[i - 1].distance <= self.parts@[i].distance
                    <= self.parts@[i - 1].distance + ROUTE_GAP_MAX
                &&& (self.parts@[i].distance == self.parts@[i - 1].distance ==> self.parts@[i].pos
                    == self.parts@[i - 1].pos)
            }
    }

    /// First waypoint index `>= i` whose cumulative distance reaches
    /// `position`.
    pub open spec fn part_id_from(parts: Seq<RoutePart>, position: int, i: int) -> Option<int>
        decreases parts.len() - i,
    {
        if i < 1 || i >= parts.len() {
            None
        } else if position <= parts[i].distance {
            Some(i)
        } else {
            Route::part_id_from(parts, position, i + 1)
        }
    }

    /// Waypoint index whose segment contains arclength `position`.
    pub open spec fn spec_part_id(self, position: int) -> Option<int> {
        Route::part_id_from(self.parts@, position, 1)
    }

    /// The point at arclength `position`, by linear interpolation within
    /// the containing segment; none beyond the total length.
    pub open spec fn spec_point(self, position: int) -> Option<Vec3fx> {
        match self.spec_part_id(position) {
            Some(i) => Some(
                Vec3fx {
                    x: spec_interpolate(
                        self.parts@[i - 1].pos.x as int,
                        self.parts@[i].pos.x as int,
                        self.parts@[i - 1].distance as int,
                        self.parts@[i].distance as int,
                        position,
                    ) as Fixed,
                    y: spec_interpolate(
                        self.parts@[i - 1].pos.y as int,
                        self.parts@[i].pos.y as int,
                        self.parts@[i - 1].distance as int,
                        self.parts@[i].distance as int,
                        position,
                    ) as Fixed,
                    z: 0,
                },
            ),
            None => None,
        }
    }

    /// The heading of the segment containing arclength `position`.
    pub open spec fn spec_angle_at(self, position: int) -> Option<int> {
        match self.spec_part_id(position) {
            Some(i) => Some(
                spec_atan2(
                    self.parts@[i].pos.y - self.parts@[i - 1].pos.y,
                    self.parts@[i].pos.x - self.parts@[i - 1].pos.x,
                ),
            ),
            None => None,
        }
    }

    /// Rewrites every waypoint's cumulative distance from the waypoint
    /// positions, leaving the positions themselves alone.
    pub fn set_distances(&mut self)
        requires
            1 <= old(self).parts@.len() <= 1_000_000,
            old(self).parts@[0].distance == 0,
            forall|i: int|
                0 <= i < old(self).parts@.len() ==> {
                    &&& -ROUTE_COORD_MAX <= #[trigger] old(self).parts@[i].pos.x
                        <= ROUTE_COORD_MAX
                    &&& -ROUTE_COORD_MAX <= old(self).parts@[i].pos.y <= ROUTE_COORD_MAX
                    &&& old(self).parts@[i].pos.z == 0
                },
        ensures
            final(self).wf(),
            final(self).parts@.len() == old(self).parts@.len(),
            forall|i: int|
                0 <= i < old(self).parts@.len() ==> #[trigger] final(self).parts@[i].pos == old(self).parts@[i].pos,
            final(self).parts@[0].distance == 0,
            forall|i: int|
                1 <= i < final(self).parts@.len() ==> #[trigger] final(self).parts@[i].distance
                    == final(self).parts@[i - 1].distance + crate::util::spec_isqrt(
                    (final(self).parts@[i].pos.x - final(self).parts@[i - 1].pos.x) * (final(self).parts@[i].pos.x - final(self).parts@[i - 1].pos.x) + (final(self).parts@[i].pos.y - final(self).parts@[i - 1].pos.y) * (final(self).parts@[i].pos.y - final(self).parts@[i - 1].pos.y),
                ),
    {
        let n = self.parts.len();
        let mut current_distance: Fixed = 0;
        let mut i: usize = 1;
        while i < n
            invariant
                1 <= i <= n == self.parts@.len() <= 1_000_000,
                self.parts@[0].distance == 0,
                forall|j: int|
                    0 <= j < n ==> {
                        &&& -ROUTE_COORD_MAX <= #[trigger] self.parts@[j].pos.x <= ROUTE_COORD_MAX
                        &&& -ROUTE_COORD_MAX <= self.parts@[j].pos.y <= ROUTE_COORD_MAX
                        &&& self.parts@[j].pos.z == 0
                    },
                forall|j: int|
                    0 <= j < n ==> #[trigger] self.parts@[j].pos == old(self).parts@[j].pos,
                current_distance == self.parts@[i - 1 as int].distance,
                0 <= current_distance <= (i - 1) * ROUTE_GAP_MAX,
                forall|j: int|
                    0 <= j < i ==> 0 <= #[trigger] self.parts@[j].distance <= j * ROUTE_GAP_MAX,
                forall|j: int|
                    1 <= j < i ==> {
                        &&& self.parts@[j - 1].distance <= #[trigger] self.parts@[j].distance
                            <= self.parts@[j - 1].distance + ROUTE_GAP_MAX
                        &&& (self.parts@[j].distance == self.parts@[j - 1].distance
                            ==> self.parts@[j].pos == self.parts@[j - 1].pos)
                    },
                forall|j: int|
                    1 <= j < i ==> #[trigger] self.parts@[j].distance == self.parts@[j
                        - 1].distance + crate::util::spec_isqrt(
                        (self.parts@[j].pos.x - self.parts@[j - 1].pos.x) * (self.parts@[j].pos.x
                            - self.parts@[j - 1].pos.x) + (self.parts@[j].pos.y - self.parts@[j
                            - 1].pos.y) * (self.parts@[j].pos.y - self.parts@[j - 1].pos.y),
                    ),
            decreases n - i,
        {
            let prev = self.parts[i - 1];
            let cur = self.parts[i];
            let seg = cur.pos.sub_v(prev.pos).len2();
            proof {
                let dx = cur.pos.x - prev.pos.x;
                let dy = cur.pos.y - prev.pos.y;
                crate::types::lemma_square_bound(dx, 600_000_000);
                crate::types::lemma_square_bound(dy, 600_000_000);
                if seg > 849_000_000 {
                    vstd::arithmetic::mul::lemma_mul_left_inequality(
                        849_000_000,
                        849_000_001,
                        seg as int,
                    );
                    vstd::arithmetic::mul::lemma_mul_strict_inequality(
                        849_000_000,
                        seg as int,
                        seg as int,
                    );
                }
                if seg == 0 {
                    assert((seg as int + 1) * (seg as int + 1) == 1) by (nonlinear_arith)
                        requires
                            seg == 0,
                    ;
                    if dx != 0 {
                        vstd::arithmetic::mul::lemma_mul_nonzero(dx, dx);
                    }
                    if dy != 0 {
                        vstd::arithmetic::mul::lemma_mul_nonzero(dy, dy);
                    }
                    assert(dx == 0 && dy == 0);
                    assert(cur.pos == prev.pos);
                }
                vstd::arithmetic::mul::lemma_mul_inequality(i - 1, 1_000_000 - 1, ROUTE_GAP_MAX
                    as int);
            }
            proof {
                crate::util::lemma_isqrt_unique(
                    ((cur.pos.x - prev.pos.x) * (cur.pos.x - prev.pos.x) + (cur.pos.y
                        - prev.pos.y) * (cur.pos.y - prev.pos.y)) as int,
                    seg as int,
                );
            }
            current_distance = current_distance + seg;
            let idx = i;
            self.parts[idx].distance = current_distance;
            proof {
                vstd::arithmetic::mul::lemma_mul_is_distributive_add_other_way(
                    ROUTE_GAP_MAX as int,
                    i - 1,
                    1,
                );
            }
            i = i + 1;
        }
        proof {
            vstd::arithmetic::mul::lemma_mul_inequality(n as int, 1_000_000, ROUTE_GAP_MAX as int);
            vstd::arithmetic::mul::lemma_mul_nonnegative(n as int - 1, ROUTE_GAP_MAX as int);
        }
    }

    /// Total arclength of the route.
    pub fn get_total_distance(&self) -> (r: Fixed)
        requires
            self.parts@.len() >= 1,
        ensures
            r == self.parts@[self.parts@.len() - 1].distance,
    {
        self.parts[self.parts.len() - 1].distance
    }

    /// Index of the segment containing arclength `position`, scanning
    /// from the front.
    fn get_part_id_for_position(&self, position: Fixed) -> (r: Option<usize>)
        ensures
            match r {
                Some(i) => 1 <= i < self.parts@.len() && self.spec_part_id(position as int)
                    == Some(i as int),
                None => self.spec_part_id(position as int).is_none(),
            },
    {
        let n = self.parts.len();
        let mut i: usize = 1;
        while i < n
            invariant
                1 <= i,
                n == self.parts@.len(),
                Route::part_id_from(self.parts@, position as int, 1) == Route::part_id_from(
                    self.parts@,
                    position as int,
                    i as int,
                ),
            decreases n - i,
        {
            if position <= self.parts[i].distance {
                return Some(i);
            }
            i = i + 1;
        }
        None
    }

    /// The point at arclength `position` along the route, if the route
    /// reaches that far.
    pub fn get_point(&self, position: Fixed) -> (r: Option<Vec3fx>)
        requires
            self.wf(),
            0 <= position <= ROUTE_DIST_MAX,
        ensures
            r == self.spec_point(position as int),
            r is Some ==> crate::types::vec_in_range(r->Some_0, ROUTE_COORD_MAX as int),
    {
        let part_id = self.get_part_id_for_position(position);
        match part_id {
            Some(i) => {
                proof {
                    lemma_part_id_position_lower(self.parts@, position as int, 1, i as int);
                    assert(self.parts@[i - 1].distance <= self.parts@[i as int].distance
                        <= self.parts@[i - 1].distance + ROUTE_GAP_MAX);
                    if i >= 2 {
                        assert(position > self.parts@[i - 1].distance);
                    } else {
                        assert(self.parts@[0].distance == 0);
                    }
                }
                let p0 = self.parts[i - 1];
                let p1 = self.parts[i];
                proof {
                    let ox = p1.pos.x - p0.pos.x;
                    let oy = p1.pos.y - p0.pos.y;
                    let t = position - p0.distance;
                    assert(-0x2000_0000_0000_0000 < ox * t < 0x2000_0000_0000_0000
                        && -0x2000_0000_0000_0000 < oy * t < 0x2000_0000_0000_0000)
                        by (nonlinear_arith)
                        requires
                            -600_000_000 <= ox <= 600_000_000,
                            -600_000_000 <= oy <= 600_000_000,
                            0 <= t <= ROUTE_GAP_MAX,
                    ;
                }
                let x = crate::util::interpolate(
                    p0.pos.x,
                    p1.pos.x,
                    p0.distance,
                    p1.distance,
                    position,
                );
                let y = crate::util::interpolate(
                    p0.pos.y,
                    p1.pos.y,
                    p0.distance,
                    p1.distance,
                    position,
                );
                Some(Vec3 { x, y, z: 0 })
            },
            None => None,
        }
    }

    /// The heading of the segment that contains arclength `position`.
    pub fn get_angle_at_point(&self, position: Fixed) -> (r: Option<Angle>)
        requires
            self.wf(),
            0 <= position <= ROUTE_DIST_MAX,
        ensures
            match r {
                Some(a) => self.spec_angle_at(position as int) == Some(a as int) && -PI <= a <= PI,
                None => self.spec_angle_at(position as int).is_none(),
            },
    {
        let part_id = self.get_part_id_for_position(position);
        match part_id {
            Some(i) => {
                let p0 = self.parts[i - 1];
                let p1 = self.parts[i];
                Some(crate::angle::vec_angle(p1.pos.sub_v(p0.pos)))
            },
            None => None,
        }
    }
}

/// A nonzero integer has a positive square.
proof fn lemma_nonzero_square_pos(x: int)
    requires
        x != 0,
    ensures
        x * x >= 1,
{
    if x > 0 {
        vstd::arithmetic::mul::lemma_mul_strictly_positive(x, x);
    } else {
        vstd::arithmetic::mul::lemma_mul_unary_negation(x, x);
        vstd::arithmetic::mul::lemma_mul_unary_negation(-x, x);
        assert(x * x == (-x) * (-x));
        vstd::arithmetic::mul::lemma_mul_strictly_positive(-x, -x);
    }
}

/// A found segment index means every earlier segment ends before
/// `position`; in particular the previous waypoint's distance is below
/// it (or the index is the first segment and `position` is at least 0).
proof fn lemma_part_id_position_lower(parts: Seq<RoutePart>, position: int, start: int, i: int)
    requires
        1 <= start,
        Route::part_id_from(parts, position, start) == Some(i),
    ensures
        start <= i < parts.len(),
        position <= parts[i].distance,
        forall|j: int| start <= j < i ==> position > #[trigger] parts[j].distance,
    decreases parts.len() - start,
{
    if start < parts.len() && position > parts[start].distance {
        lemma_part_id_position_lower(parts, position, start + 1, i);
    }
}

/// Within a well-formed route the cumulative distances never decrease.
proof fn lemma_route_distances_monotone(route: Route, i: int, j: int)
    requires
        route.wf(),
        0 <= i <= j < route.parts@.len(),
    ensures
        route.parts@[i].distance <= route.parts@[j].distance,
    decreases j - i,
{
    if i < j {
        lemma_route_distances_monotone(route, i, j - 1);
    }
}

/// A run of waypoints sharing one cumulative distance shares one
/// position.
proof fn lemma_route_equal_run(route: Route, i: int, j: int)
    requires
        route.wf(),
        0 <= i <= j < route.parts@.len(),
        route.parts@[i].distance == route.parts@[j].distance,
    ensures
        route.parts@[i].pos == route.parts@[j].pos,
    decreases j - i,
{
    if i < j {
        lemma_route_distances_monotone(route, i, j - 1);
        lemma_route_equal_run(route, i, j - 1);
    }
}

/// The scan for `position` from `start` finds the first index at or
/// after `start` whose distance reaches it; when some index `i >=
/// start` reaches it, the scan cannot fail.
proof fn lemma_part_id_finds(parts: Seq<RoutePart>, position: int, start: int, i: int)
    requires
        1 <= start <= i < parts.len(),
        position <= parts[i].distance,
    ensures
        Route::part_id_from(parts, position, start) is Some,
        Route::part_id_from(parts, position, start)->Some_0 <= i,
    decreases i - start,
{
    if position > parts[start].distance {
        lemma_part_id_finds(parts, position, start + 1, i);
    }
}

/// Querying a route at a waypoint's own cumulative distance yields that
/// waypoint's position exactly.
pub proof fn lemma_route_point_at_waypoint(route: Route, i: int)
    requires
        route.wf(),
        route.parts@.len() >= 2,
        0 <= i < route.parts@.len(),
    ensures
        route.spec_point(route.parts@[i].distance as int) == Some(route.parts@[i].pos),
{
    let parts = route.parts@;
    let d = parts[i].distance as int;
    if i == 0 {
        lemma_route_distances_monotone(route, 0, 1);
        lemma_part_id_finds(parts, d, 1, 1);
    } else {
        lemma_part_id_finds(parts, d, 1, i);
    }
    let k = Route::part_id_from(parts, d, 1)->Some_0;
    lemma_part_id_position_lower(parts, d, 1, k);
    assert(k <= i || (i == 0 && k == 1));
    if k <= i {
        lemma_route_distances_monotone(route, k, i);
        assert(parts[k].distance == d);
        lemma_route_equal_run(route, k, i);
    } else {
        assert(i == 0 && k == 1);
        assert(parts[0].distance == 0 && d == 0);
        assert(0 <= parts[k].distance);
    }
    let p0 = parts[k - 1];
    let p1 = parts[k];
    let rx = crate::util::spec_interpolate(
        p0.pos.x as int,
        p1.pos.x as int,
        p0.distance as int,
        p1.distance as int,
        d,
    );
    let ry = crate::util::spec_interpolate(
        p0.pos.y as int,
        p1.pos.y as int,
        p0.distance as int,
        p1.distance as int,
        d,
    );
    if p0.distance == p1.distance {
        lemma_route_equal_run(route, k - 1, k);
        assert(rx == p0.pos.x && ry == p0.pos.y);
    } else {
        if d == p1.distance {
            assert(rx == p1.pos.x && ry == p1.pos.y) by {
                lemma_interpolate_at_end(
                    p0.pos.x as int,
                    p1.pos.x as int,
                    p0.distance as int,
                    p1.distance as int,
                );
                lemma_interpolate_at_end(
                    p0.pos.y as int,
                    p1.pos.y as int,
                    p0.distance as int,
                    p1.distance as int,
                );
            }
        } else {
            assert(d == p0.distance) by {
                lemma_route_distances_monotone(route, k - 1, k);
            }
            assert(rx == p0.pos.x && ry == p0.pos.y) by {
                lemma_interpolate_at_start(
                    p0.pos.x as int,
                    p1.pos.x as int,
                    p0.distance as int,
                    p1.distance as int,
                );
                lemma_interpolate_at_start(
                    p0.pos.y as int,
                    p1.pos.y as int,
                    p0.distance as int,
                    p1.distance as int,
                );
            }
            if k <= i {
                assert(parts[k - 1].distance == parts[k].distance || d == parts[k].distance);
            }
        }
    }
    assert(route.parts@[i].pos.z == 0);
}

/// Interpolation is exact at the right end of the input range.
proof fn lemma_interpolate_at_end(out_min: int, out_max: int, in_min: int, in_max: int)
    requires
        in_min < in_max,
    ensures
        crate::util::spec_interpolate(out_min, out_max, in_min, in_max, in_max) == out_max,
{
    if out_min != out_max {
        crate::collision::lemma_tdiv_cancel(out_max - out_min, in_max - in_min);
    }
}

/// Interpolation is exact at the left end of the input range.
proof fn lemma_interpolate_at_start(out_min: int, out_max: int, in_min: int, in_max: int)
    requires
        in_min < in_max,
    ensures
        crate::util::spec_interpolate(out_min, out_max, in_min, in_max, in_min) == out_min,
{
    if out_min != out_max {
        vstd::arithmetic::mul::lemma_mul_by_zero_is_zero(out_max - out_min);
        vstd::arithmetic::div_mod::lemma_div_of0(in_max - in_min);
    }
}

/// Querying a route beyond its total arclength yields nothing.
pub proof fn lemma_route_point_beyond_total(route: Route, d: int)
    requires
        route.wf(),
        d > route.parts@[route.parts@.len() - 1].distance,
    ensures
        route.spec_point(d).is_none(),
{
    lemma_part_id_none_beyond(route, d, 1);
}

/// The scan fails for any distance beyond every scanned waypoint.
proof fn lemma_part_id_none_beyond(route: Route, d: int, start: int)
    requires
        route.wf(),
        1 <= start,
        d > route.parts@[route.parts@.len() - 1].distance,
    ensures
        Route::part_id_from(route.parts@, d, start).is_none(),
    decreases route.parts@.len() - start,
{
    let parts = route.parts@;
    if start < parts.len() {
        lemma_route_distances_monotone(route, start, parts.len() - 1);
        lemma_part_id_none_beyond(route, d, start + 1);
    }
}

/// Per-entity route-following state: the route being walked, how far
/// along it the entity is, and the stop threshold before the end.
#[derive(Debug, Clone, PartialEq)]
pub struct RouteData {
    pub route: Option<Route>,
    pub routeid: Option<RouteId>,
    pub threshold: Fixed,
    pub progress: Fixed,
}

impl RouteData {
    /// The held route, if any, is well-formed and the progress cursor
    /// sits within reach of it.
    pub open spec fn wf(self) -> bool {
        &&& 0 <= self.threshold <= ROUTE_DIST_MAX
        &&& match self.route {
            Some(r) => r.wf() && 0 <= self.progress <= ROUTE_DIST_MAX,
            None => true,
        }
    }

    pub fn default() -> (r: RouteData)
        ensures
            r.route.is_none(),
            r.routeid.is_none(),
            r.threshold == 0,
            r.progress == 0,
            r.wf(),
    {
        RouteData { route: None, routeid: None, threshold: 0, progress: 0 }
    }

    /// Starts following `route`, with the cursor back at the start.
    pub fn set_route(&mut self, route: Route, threshold: Fixed)
        requires
            route.wf(),
            0 <= threshold <= ROUTE_DIST_MAX,
        ensures
            final(self).route == Some(route),
            final(self).threshold == threshold,
            final(self).progress == 0,
            final(self).routeid == old(self).routeid,
            final(self).wf(),
    {
        self.route = Some(route);
        self.threshold = threshold;
        self.progress = 0;
    }

    /// Looks the stored route id up in the level's route list and
    /// starts following that route; false when no id is set.
    pub fn set_route_to_routeid(&mut self, routes: &Vec<Route>) -> (r: bool)
        requires
            match old(self).routeid {
                Some(id) => 0 <= id < routes@.len() && routes@[id as int].wf(),
                None => true,
            },
        ensures
            r == old(self).routeid.is_some(),
            match old(self).routeid {
                Some(id) => final(self).route is Some
                    && final(self).route->Some_0.parts@ == routes@[id as int].parts@
                    && final(self).progress == 0 && final(self).threshold == 0
                    && final(self).wf(),
                None => *final(self) == *old(self),
            },
    {
        match self.routeid {
            Some(routeid) => {
                let route = clone_route(&routes[routeid as usize]);
                self.set_route(route, 0);
                true
            },
            None => false,
        }
    }

    /// Stops following the current route.
    pub fn reset_route(&mut self, _do_events: bool)
        ensures
            final(self).route.is_none(),
            final(self).routeid == old(self).routeid,
            final(self).threshold == old(self).threshold,
            final(self).progress == old(self).progress,
    {
        self.route = None;
    }

    /// Advances the cursor by `speed` during `delta` milliseconds and
    /// reports the new point and heading; at the route's end (within
    /// the threshold, or past the last waypoint) the route is dropped
    /// and nothing is reported.
    pub fn step(&mut self, speed: Fixed, delta: Time) -> (r: Option<(Vec3fx, Angle)>)
        requires
            old(self).wf(),
            0 <= speed <= 1_000_000,
            delta <= 1_000_000,
        ensures
            final(self).wf(),
            final(self).routeid == old(self).routeid,
            final(self).threshold == old(self).threshold,
            r matches Some(pa) ==> crate::types::vec_in_range(pa.0, ROUTE_COORD_MAX as int)
                && -PI <= pa.1 <= PI,
            old(self).route.is_none() ==> r.is_none() && *final(self) == *old(self),
            old(self).route is Some ==> {
                let route = old(self).route->Some_0;
                let total = route.parts@[route.parts@.len() - 1].distance;
                if total - old(self).progress > old(self).threshold {
                    let p2 = old(self).progress + tdiv(speed * delta, 1000);
                    let capped = if p2 > ROUTE_DIST_MAX {
                        ROUTE_DIST_MAX as int
                    } else {
                        p2
                    };
                    &&& final(self).progress == capped
                    &&& match route.spec_angle_at(capped) {
                        Some(a) => {
                            &&& r is Some
                            &&& r->Some_0.0 == route.spec_point(capped)->Some_0
                            &&& r->Some_0.1 as int == a
                            &&& final(self).route == old(self).route
                        },
                        None => r.is_none() && final(self).route.is_none(),
                    }
                } else {
                    r.is_none() && final(self).route.is_none() && final(self).progress == old(self).progress
                }
            },
    {
        let has_route = self.route.is_some();
        if !has_route {
            return None;
        }
        let total = match &self.route {
            Some(route) => route.get_total_distance(),
            None => 0,
        };
        proof {
            let r = old(self).route->Some_0;
            assert(0 <= r.parts@[r.parts@.len() - 1].distance <= ROUTE_DIST_MAX);
        }
        if total - self.progress > self.threshold {
            proof {
                vstd::arithmetic::mul::lemma_mul_nonnegative(speed as int, delta as int);
                vstd::arithmetic::mul::lemma_mul_upper_bound(
                    speed as int,
                    1_000_000,
                    delta as int,
                    1_000_000,
                );
            }
            let advance = crate::util::mul_div_trunc(speed, delta as i64, 1000);
            proof {
                crate::util::lemma_tdiv_abs_bound(speed * delta, 1000);
            }
            self.progress = self.progress + advance;
            if self.progress > ROUTE_DIST_MAX {
                self.progress = ROUTE_DIST_MAX;
            }
            let point_angle = match &self.route {
                Some(route) => {
                    let angle = route.get_angle_at_point(self.progress);
                    match angle {
                        Some(angle) => {
                            let point = route.get_point(self.progress);
                            match point {
                                Some(point) => Some((point, angle)),
                                None => None,
                            }
                        },
                        None => None,
                    }
                },
                None => None,
            };
            if let Some(pa) = point_angle {
                return Some(pa);
            }
        }
        self.reset_route(true);
        None
    }
}

/// An exact copy of a route, waypoint by waypoint.
pub fn clone_route(r: &Route) -> (c: Route)
    ensures
        c.parts@ == r.parts@,
{
    let mut parts: Vec<RoutePart> = Vec::new();
    let n = r.parts.len();
    let mut i: usize = 0;
    while i < n
        invariant
            i <= n == r.parts@.len(),
            parts@ == r.parts@.subrange(0, i as int),
        decreases n - i,
    {
        parts.push(r.parts[i]);
        proof {
            assert(parts@ =~= r.parts@.subrange(0, i + 1));
        }
        i = i + 1;
    }
    proof {
        assert(parts@ =~= r.parts@);
    }
    Route { parts }
}

} // verus!
