//! Vehicle road navigation: the traffic-light phase, the tile-topology
//! direction and right-of-way tables, lane centering, and the driving
//! behavior that consumes them.
use vstd::prelude::*;
use crate::types::{
    Angle, EntityId, Fixed, IScalar, LevelTileData, Time, Vec3, Vec3fx, Vec3i,
};
use crate::util::{tdiv, spec_abs, spec_isqrt};
use crate::angle::{
    norm_pi_spec, norm_spec, spec_atan2, spec_cos, spec_sin, ANGLE_E, ANGLE_N, ANGLE_NE, ANGLE_NW,
    ANGLE_S, ANGLE_SE, ANGLE_SW, ANGLE_W, PI, TAU,
};
use crate::entity::{EntityBase, EntityClass, EntityStance, EntityType, DELTA_MAX, SPEED_MAX};
use crate::level::{Level, TILESIZE_FX};

verus! {

/// Traffic lights cycle through four phases of three seconds each:
/// green and yellow for horizontal roads, then green and yellow for
/// vertical roads.
#[derive(Debug, Clone, Copy, PartialEq, Eq, Structural)]
pub enum TrafficLight {
    HGreen,
    HYellow,
    VGreen,
    VYellow,
}

impl TrafficLight {
    /// Direction-table column: yellow collapses onto its paired green.
    pub open spec fn spec_index(self) -> int {
        match self {
            TrafficLight::HGreen => 0,
            TrafficLight::HYellow => 0,
            TrafficLight::VGreen => 1,
            TrafficLight::VYellow => 1,
        }
    }

    pub fn index(&self) -> (r: usize)
        ensures
            r == self.spec_index(),
    {
        match *self {
            TrafficLight::HGreen => 0,
            TrafficLight::HYellow => 0,
            TrafficLight::VGreen => 1,
            TrafficLight::VYellow => 1,
        }
    }

    /// Only the two green phases grant right of way.
    pub open spec fn spec_is_green(self) -> bool {
        self == TrafficLight::HGreen || self == TrafficLight::VGreen
    }

    pub fn is_green(&self) -> (r: bool)
        ensures
            r == self.spec_is_green(),
    {
        match *self {
            TrafficLight::HGreen => true,
            TrafficLight::HYellow => false,
            TrafficLight::VGreen => true,
            TrafficLight::VYellow => false,
        }
    }
}

/// The traffic-light phase at a time: `floor(time / 3000) mod 4`, with
/// phase 0 green for horizontal roads and phase 2 green for vertical
/// roads; phases 1 and 3 are the yellows.
pub open spec fn spec_phase(time: int) -> TrafficLight {
    let n = time / 3000 % 4;
    if n == 0 {
        TrafficLight::HGreen
    } else if n == 1 {
        TrafficLight::HYellow
    } else if n == 2 {
        TrafficLight::VGreen
    } else {
        TrafficLight::VYellow
    }
}

/// Phases 0 and 2 are green for the horizontal and vertical roads
/// respectively; phases 1 and 3 are not green.
pub proof fn lemma_traffic_phase(time: int)
    requires
        time >= 0,
    ensures
        time / 3000 % 4 == 0 ==> spec_phase(time) == TrafficLight::HGreen
            && spec_phase(time).spec_is_green() && spec_phase(time).spec_index() == 0,
        time / 3000 % 4 == 2 ==> spec_phase(time) == TrafficLight::VGreen
            && spec_phase(time).spec_is_green() && spec_phase(time).spec_index() == 1,
        time / 3000 % 4 == 1 || time / 3000 % 4 == 3 ==> !spec_phase(time).spec_is_green(),
{
}

/// The global vehicle coordination state: the current traffic light.
#[derive(Debug, Clone, Copy, PartialEq, Eq, Structural)]
pub struct VehicleState {
    pub trafficlight: TrafficLight,
}

impl VehicleState {
    pub fn new() -> (r: VehicleState)
        ensures
            r.trafficlight == TrafficLight::HGreen,
    {
        VehicleState { trafficlight: TrafficLight::HGreen }
    }

    /// Advances the light to the phase belonging to the current game
    /// time.
    pub fn step(&mut self, time: Time)
        ensures
            final(self).trafficlight == spec_phase(time as int),
    {
        let state_number = time / 3000 % 4;
        proof {
            vstd::arithmetic::div_mod::lemma_mod_division_less_than_divisor(
                time as int / 3000,
                4,
            );
            vstd::arithmetic::div_mod::lemma_div_pos_is_pos(time as int, 3000);
        }
        self.trafficlight = if state_number == 0 {
            TrafficLight::HGreen
        } else if state_number == 1 {
            TrafficLight::HYellow
        } else if state_number == 2 {
            TrafficLight::VGreen
        } else {
            TrafficLight::VYellow
        };
    }
}

/// Road tile codes are 10 through 29.
pub fn is_road(tiledata: LevelTileData) -> (r: bool)
    ensures
        r == (10 <= tiledata <= 29),
{
    tiledata >= 10 && tiledata <= 29
}

/// A road tile code, or the neutral code 0.
pub fn is_road_or_0(tiledata: LevelTileData) -> (r: bool)
    ensures
        r == (10 <= tiledata <= 29 || tiledata == 0),
{
    (tiledata >= 10 && tiledata <= 29) || tiledata == 0
}

/// One-way road segments are codes 10 through 17.
pub fn is_one_way_road(tiledata: LevelTileData) -> (r: bool)
    ensures
        r == (10 <= tiledata <= 17),
{
    tiledata >= 10 && tiledata <= 17
}

/// Intersections are codes 18 through 29.
pub fn is_intersection(tiledata: LevelTileData) -> (r: bool)
    ensures
        r == (18 <= tiledata <= 29),
{
    tiledata >= 18 && tiledata <= 29
}

/// The travel angle a road tile prescribes, by tile code and
/// direction-table column (0 while horizontal traffic flows, 1 while
/// vertical traffic flows). One-way segments prescribe their fixed
/// direction; intersections prescribe the outgoing direction for the
/// flowing axis.
pub open spec fn spec_road_direction(tiledata: int, idx: int) -> Option<int> {
    if tiledata == 10 {
        Some(ANGLE_E as int)
    } else if tiledata == 11 {
        Some(ANGLE_W as int)
    } else if tiledata == 12 {
        Some(ANGLE_S as int)
    } else if tiledata == 13 {
        Some(ANGLE_N as int)
    } else if tiledata == 14 {
        Some(ANGLE_SE as int)
    } else if tiledata == 15 {
        Some(ANGLE_SW as int)
    } else if tiledata == 16 {
        Some(ANGLE_NE as int)
    } else if tiledata == 17 {
        Some(ANGLE_NW as int)
    } else if tiledata == 18 {
        Some(if idx == 0 { ANGLE_E as int } else { ANGLE_N as int })
    } else if tiledata == 19 {
        Some(if idx == 0 { ANGLE_W as int } else { ANGLE_N as int })
    } else if tiledata == 20 {
        Some(if idx == 0 { ANGLE_E as int } else { ANGLE_S as int })
    } else if tiledata == 21 {
        Some(if idx == 0 { ANGLE_W as int } else { ANGLE_S as int })
    } else if tiledata == 22 {
        Some(if idx == 0 { ANGLE_E as int } else { ANGLE_SE as int })
    } else if tiledata == 23 {
        Some(if idx == 0 { ANGLE_E as int } else { ANGLE_NE as int })
    } else if tiledata == 24 {
        Some(if idx == 0 { ANGLE_W as int } else { ANGLE_SW as int })
    } else if tiledata == 25 {
        Some(if idx == 0 { ANGLE_W as int } else { ANGLE_NW as int })
    } else if tiledata == 26 {
        Some(if idx == 0 { ANGLE_SE as int } else { ANGLE_S as int })
    } else if tiledata == 27 {
        Some(if idx == 0 { ANGLE_SW as int } else { ANGLE_S as int })
    } else if tiledata == 28 {
        Some(if idx == 0 { ANGLE_NE as int } else { ANGLE_N as int })
    } else if tiledata == 29 {
        Some(if idx == 0 { ANGLE_NW as int } else { ANGLE_N as int })
    } else {
        None
    }
}

pub fn get_road_direction(tiledata: LevelTileData, trafficlight: TrafficLight) -> (r: Option<
    Angle,
>)
    ensures
        r.is_some() == spec_road_direction(tiledata as int, trafficlight.spec_index()).is_some(),
        r matches Some(a) ==> Some(a as int) == spec_road_direction(
            tiledata as int,
            trafficlight.spec_index(),
        ) && 0 <= a < TAU,
{
    let idx = trafficlight.index();
    match tiledata {
        10 => Some(ANGLE_E),
        11 => Some(ANGLE_W),
        12 => Some(ANGLE_S),
        13 => Some(ANGLE_N),
        14 => Some(ANGLE_SE),
        15 => Some(ANGLE_SW),
        16 => Some(ANGLE_NE),
        17 => Some(ANGLE_NW),
        18 => Some(if idx == 0 { ANGLE_E } else { ANGLE_N }),
        19 => Some(if idx == 0 { ANGLE_W } else { ANGLE_N }),
        20 => Some(if idx == 0 { ANGLE_E } else { ANGLE_S }),
        21 => Some(if idx == 0 { ANGLE_W } else { ANGLE_S }),
        22 => Some(if idx == 0 { ANGLE_E } else { ANGLE_SE }),
        23 => Some(if idx == 0 { ANGLE_E } else { ANGLE_NE }),
        24 => Some(if idx == 0 { ANGLE_W } else { ANGLE_SW }),
        25 => Some(if idx == 0 { ANGLE_W } else { ANGLE_NW }),
        26 => Some(if idx == 0 { ANGLE_SE } else { ANGLE_S }),
        27 => Some(if idx == 0 { ANGLE_SW } else { ANGLE_S }),
        28 => Some(if idx == 0 { ANGLE_NE } else { ANGLE_N }),
        29 => Some(if idx == 0 { ANGLE_NW } else { ANGLE_N }),
        _ => None,
    }
}

/// Right-of-way for traffic that leaves toward the east: granted to
/// sources heading east, south-east or north-east.
pub open spec fn spec_e_rule(src: int) -> bool {
    src == 0 || src == 4 || src == 6
}

/// Right-of-way for traffic that leaves toward the west.
pub open spec fn spec_w_rule(src: int) -> bool {
    src == 1 || src == 5 || src == 7
}

/// Right-of-way for traffic that leaves toward the north.
pub open spec fn spec_n_rule(src: int) -> bool {
    src == 3 || src == 6 || src == 7
}

/// Right-of-way for traffic that leaves toward the south.
pub open spec fn spec_s_rule(src: int) -> bool {
    src == 2 || src == 4 || src == 5
}

/// Right-of-way table for entering intersection `dest` (codes 18
/// through 29) from a one-way source direction `src` (source tile code
/// minus 10) during direction-table column `idx`.
pub open spec fn spec_road_rule(dest: int, idx: int, src: int) -> bool {
    if dest == 18 {
        if idx == 0 { spec_e_rule(src) } else { spec_n_rule(src) }
    } else if dest == 19 {
        if idx == 0 { spec_w_rule(src) } else { spec_n_rule(src) }
    } else if dest == 20 {
        if idx == 0 { spec_e_rule(src) } else { spec_s_rule(src) }
    } else if dest == 21 {
        if idx == 0 { spec_w_rule(src) } else { spec_s_rule(src) }
    } else if dest == 22 {
        if idx == 0 { spec_e_rule(src) } else { spec_s_rule(src) }
    } else if dest == 23 {
        if idx == 0 { spec_e_rule(src) } else { spec_n_rule(src) }
    } else if dest == 24 {
        if idx == 0 { spec_w_rule(src) } else { spec_s_rule(src) }
    } else if dest == 25 {
        if idx == 0 { spec_w_rule(src) } else { spec_n_rule(src) }
    } else if dest == 26 {
        if idx == 0 { spec_e_rule(src) } else { spec_s_rule(src) }
    } else if dest == 27 {
        if idx == 0 { spec_w_rule(src) } else { spec_s_rule(src) }
    } else if dest == 28 {
        if idx == 0 { spec_e_rule(src) } else { spec_n_rule(src) }
    } else {
        if idx == 0 { spec_w_rule(src) } else { spec_n_rule(src) }
    }
}

fn e_rule(src: i32) -> (r: bool)
    ensures
        r == spec_e_rule(src as int),
{
    src == 0 || src == 4 || src == 6
}

fn w_rule(src: i32) -> (r: bool)
    ensures
        r == spec_w_rule(src as int),
{
    src == 1 || src == 5 || src == 7
}

fn n_rule(src: i32) -> (r: bool)
    ensures
        r == spec_n_rule(src as int),
{
    src == 3 || src == 6 || src == 7
}

fn s_rule(src: i32) -> (r: bool)
    ensures
        r == spec_s_rule(src as int),
{
    src == 2 || src == 4 || src == 5
}

fn road_rule(dest: i32, idx: usize, src: i32) -> (r: bool)
    requires
        18 <= dest <= 29,
    ensures
        r == spec_road_rule(dest as int, idx as int, src as int),
{
    if dest == 18 {
        if idx == 0 { e_rule(src) } else { n_rule(src) }
    } else if dest == 19 {
        if idx == 0 { w_rule(src) } else { n_rule(src) }
    } else if dest == 20 {
        if idx == 0 { e_rule(src) } else { s_rule(src) }
    } else if dest == 21 {
        if idx == 0 { w_rule(src) } else { s_rule(src) }
    } else if dest == 22 {
        if idx == 0 { e_rule(src) } else { s_rule(src) }
    } else if dest == 23 {
        if idx == 0 { e_rule(src) } else { n_rule(src) }
    } else if dest == 24 {
        if idx == 0 { w_rule(src) } else { s_rule(src) }
    } else if dest == 25 {
        if idx == 0 { w_rule(src) } else { n_rule(src) }
    } else if dest == 26 {
        if idx == 0 { e_rule(src) } else { s_rule(src) }
    } else if dest == 27 {
        if idx == 0 { w_rule(src) } else { s_rule(src) }
    } else if dest == 28 {
        if idx == 0 { e_rule(src) } else { n_rule(src) }
    } else {
        if idx == 0 { w_rule(src) } else { n_rule(src) }
    }
}

/// What the clearance scan reads of another entity: its identity and
/// kind, where it is, its class width, and whether it is hidden.
#[derive(Debug, Clone, Copy, PartialEq, Eq, Structural)]
pub struct EntityView {
    pub id: EntityId,
    pub entity_type: EntityType,
    pub pos: Vec3fx,
    pub width: Fixed,
    pub hidden: bool,
}

impl EntityView {
    pub open spec fn wf(self) -> bool {
        &&& crate::types::vec_in_range(self.pos, crate::collision::WORLD_MAX as int)
        &&& 0 <= self.width <= crate::collision::SHAPE_MAX
    }
}

/// Whether `view` blocks `point` for the scanning entity: visible
/// vehicles block within their own class width (Chebyshev distance),
/// the player blocks within the scanning entity's class height.
pub open spec fn spec_view_blocks(view: EntityView, self_id: int, self_height: int,
    point: Vec3fx) -> bool {
    &&& view.id != self_id
    &&& !view.hidden
    &&& {
        ||| {
            &&& (view.entity_type == EntityType::Type8 || view.entity_type
                == EntityType::PlayerVehicle || view.entity_type == EntityType::MovingVehicle
                || view.entity_type == EntityType::EnemyVehicle || view.entity_type
                == EntityType::PoliceCar || view.entity_type == EntityType::Type20)
            &&& chebyshev(point, view.pos) < view.width
        }
        ||| {
            &&& view.entity_type == EntityType::Player
            &&& chebyshev(point, view.pos) < self_height
        }
    }
}

/// The Chebyshev (per-axis maximum) distance between two points.
pub open spec fn chebyshev(a: Vec3fx, b: Vec3fx) -> int {
    let dx = spec_abs(a.x - b.x);
    let dy = spec_abs(a.y - b.y);
    if dx > dy {
        dx
    } else {
        dy
    }
}

/// No visible vehicle (nor the player) sits within clearance distance
/// of `point`.
pub open spec fn spec_point_free(others: Seq<EntityView>, self_id: int, self_height: int,
    point: Vec3fx) -> bool {
    forall|i: int|
        0 <= i < others.len() ==> !spec_view_blocks(#[trigger] others[i], self_id, self_height,
            point)
}

/// Scans all other entities for one that blocks `point`.
pub fn is_point_free(others: &Vec<EntityView>, self_id: EntityId, self_height: Fixed,
    point: Vec3fx) -> (r: bool)
    requires
        crate::types::vec_in_range(point, 2_000_000_000),
        forall|i: int| 0 <= i < others@.len() ==> (#[trigger] others@[i]).wf(),
    ensures
        r == spec_point_free(others@, self_id as int, self_height as int, point),
{
    let n = others.len();
    let mut i: usize = 0;
    while i < n
        invariant
            i <= n == others@.len(),
            crate::types::vec_in_range(point, 2_000_000_000),
            forall|j: int| 0 <= j < n ==> (#[trigger] others@[j]).wf(),
            forall|j: int|
                0 <= j < i ==> !spec_view_blocks(#[trigger] others@[j], self_id as int,
                    self_height as int, point),
        decreases n - i,
    {
        let view = others[i];
        if view.id != self_id && !view.hidden {
            let is_vehicle_kind = view.entity_type == EntityType::Type8 || view.entity_type
                == EntityType::PlayerVehicle || view.entity_type == EntityType::MovingVehicle
                || view.entity_type == EntityType::EnemyVehicle || view.entity_type
                == EntityType::PoliceCar || view.entity_type == EntityType::Type20;
            let is_player = view.entity_type == EntityType::Player;
            if is_vehicle_kind || is_player {
                let dxr: i64 = point.x - view.pos.x;
                let dyr: i64 = point.y - view.pos.y;
                let dx: i64 = if dxr < 0 {
                    -dxr
                } else {
                    dxr
                };
                let dy: i64 = if dyr < 0 {
                    -dyr
                } else {
                    dyr
                };
                let cheb = if dx > dy {
                    dx
                } else {
                    dy
                };
                if is_vehicle_kind && cheb < view.width {
                    return false;
                }
                if is_player && cheb < self_height {
                    return false;
                }
            }
        }
        i = i + 1;
    }
    true
}

/// Lane adjustment directions for a straight one-way tile (codes 10
/// through 13): whether the same road code repeats on the perpendicular
/// neighbors decides which side holds the far lane edge.
pub open spec fn spec_lane(level: Level, tx: int, ty: int) -> Option<Vec3i> {
    let t = level.tile_at(tx, ty);
    if t < 10 || t > 13 {
        None
    } else {
        let xd: int = if t == 12 || t == 13 {
            if level.tile_at(tx + 1, ty) == t {
                1
            } else if level.tile_at(tx - 1, ty) == t {
                -1
            } else {
                0
            }
        } else {
            0
        };
        let yd: int = if t == 10 || t == 11 {
            if level.tile_at(tx, ty + 1) == t {
                1
            } else if level.tile_at(tx, ty - 1) == t {
                -1
            } else {
                0
            }
        } else {
            0
        };
        Some(Vec3i { x: xd as IScalar, y: yd as IScalar, z: 0 })
    }
}

/// Lane adjustment for the straight one-way tile at `tilepos`; none for
/// any other tile code.
pub fn get_lane(level: &Level, tilepos: Vec3i) -> (r: Option<Vec3i>)
    requires
        level.wf(),
        -1_000_000 <= tilepos.x <= 1_000_000,
        -1_000_000 <= tilepos.y <= 1_000_000,
    ensures
        r == spec_lane(*level, tilepos.x as int, tilepos.y as int),
{
    let tiledata = crate::level::get_tiledata_for_tilepos(level, tilepos);
    if tiledata < 10 || tiledata > 13 {
        return None;
    }
    let mut x_direction: IScalar = 0;
    let mut y_direction: IScalar = 0;
    if tiledata == 10 || tiledata == 11 {
        if tiledata == crate::level::get_tiledata_for_tilepos(
            level,
            Vec3i::new2(tilepos.x, tilepos.y - 1),
        ) {
            y_direction = -1;
        }
        if tiledata == crate::level::get_tiledata_for_tilepos(
            level,
            Vec3i::new2(tilepos.x, tilepos.y + 1),
        ) {
            y_direction = 1;
        }
    } else {
        if tiledata == crate::level::get_tiledata_for_tilepos(
            level,
            Vec3i::new2(tilepos.x - 1, tilepos.y),
        ) {
            x_direction = -1;
        }
        if tiledata == crate::level::get_tiledata_for_tilepos(
            level,
            Vec3i::new2(tilepos.x + 1, tilepos.y),
        ) {
            x_direction = 1;
        }
    }
    Some(Vec3i::new2(x_direction, y_direction))
}

/// The lane-centered position belonging to a world position: the near
/// or far tile edge on each axis the lane adjustment points along.
pub open spec fn spec_road_middle(level: Level, pos: Vec3fx) -> Option<Vec3fx> {
    let tx = tdiv(pos.x as int, TILESIZE_FX as int);
    let ty = tdiv(pos.y as int, TILESIZE_FX as int);
    match spec_lane(level, tx, ty) {
        None => None,
        Some(lane) => {
            let bx = tx * (TILESIZE_FX as int);
            let by = ty * (TILESIZE_FX as int);
            let nx: int = if lane.x > 0 {
                bx + TILESIZE_FX
            } else if lane.x < 0 {
                bx
            } else {
                pos.x as int
            };
            let ny: int = if lane.y > 0 {
                pos.y + TILESIZE_FX
            } else if lane.y < 0 {
                by
            } else {
                pos.y as int
            };
            Some(Vec3fx { x: nx as Fixed, y: ny as Fixed, z: pos.z })
        },
    }
}

/// Lane center for the one-way tile holding `pos`; none off such
/// tiles.
pub fn get_road_middle(level: &Level, pos: Vec3fx) -> (r: Option<Vec3fx>)
    requires
        level.wf(),
        crate::types::vec_in_range(pos, 1_500_000_000),
    ensures
        r == spec_road_middle(*level, pos),
        r matches Some(m) ==> crate::types::vec_in_range(m, 1_500_030_000) && m.z == pos.z
            && spec_abs(m.x - pos.x) <= 2 * TILESIZE_FX && spec_abs(m.y - pos.y) <= 2
            * TILESIZE_FX,
{
    let tilepos = crate::level::pos_to_tilepos(pos);
    let pos_tilepos = crate::level::tilepos_to_pos(tilepos);
    proof {
        crate::util::lemma_tdiv_abs_bound(pos.x as int, TILESIZE_FX as int);
        crate::util::lemma_tdiv_abs_bound(pos.y as int, TILESIZE_FX as int);
        vstd::arithmetic::div_mod::lemma_div_is_ordered(
            spec_abs(pos.x as int),
            1_500_000_000,
            TILESIZE_FX as int,
        );
        vstd::arithmetic::div_mod::lemma_div_is_ordered(
            spec_abs(pos.y as int),
            1_500_000_000,
            TILESIZE_FX as int,
        );
        lemma_trunc_base_near(pos.x as int);
        lemma_trunc_base_near(pos.y as int);
    }
    let lane = get_lane(level, tilepos);
    match lane {
        Some(lane) => {
            let mut newpos = pos;
            if lane.x > 0 {
                newpos.x = pos_tilepos.x + TILESIZE_FX;
            } else if lane.x < 0 {
                newpos.x = pos_tilepos.x;
            }
            if lane.y > 0 {
                newpos.y = newpos.y + TILESIZE_FX;
            } else if lane.y < 0 {
                newpos.y = pos_tilepos.y;
            }
            Some(newpos)
        },
        None => None,
    }
}

/// The truncated tile base of a coordinate lies within one tile of it.
proof fn lemma_trunc_base_near(v: int)
    ensures
        spec_abs(tdiv(v, TILESIZE_FX as int) * (TILESIZE_FX as int) - v) < TILESIZE_FX,
{
    let t = TILESIZE_FX as int;
    let av = spec_abs(v);
    let q = av / t;
    vstd::arithmetic::div_mod::lemma_fundamental_div_mod(av, t);
    vstd::arithmetic::div_mod::lemma_remainder_lower(av, t);
    vstd::arithmetic::div_mod::lemma_remainder_upper(av, t);
    if v >= 0 {
        assert(tdiv(v, t) * t == q * t);
    } else {
        assert(tdiv(v, t) == -q);
        assert((-q) * t == -(q * t)) by {
            vstd::arithmetic::mul::lemma_mul_unary_negation(q, t);
        }
    }
}

/// Where the per-tick lane nudge puts a vehicle: toward the lane
/// center by at most 10 milli-units per millisecond, snapping onto the
/// center within one unit; unchanged off one-way tiles.
#[verifier::opaque]
pub open spec fn spec_nudged_pos(level: Level, pos: Vec3fx, delta: int) -> Vec3fx {
    match spec_road_middle(level, pos) {
        None => pos,
        Some(middle) => {
            let dlen = spec_isqrt(
                (middle.x - pos.x) * (middle.x - pos.x) + (middle.y - pos.y) * (middle.y
                    - pos.y),
            );
            let m: int = if dlen < 10 * delta {
                dlen
            } else {
                10 * delta
            };
            let rx = crate::util::spec_interpolate(pos.x as int, middle.x as int, 0, dlen, m);
            let ry = crate::util::spec_interpolate(pos.y as int, middle.y as int, 0, dlen, m);
            let snap = spec_isqrt((rx - middle.x) * (rx - middle.x) + (ry - middle.y) * (ry
                - middle.y)) < 1000;
            if snap {
                middle
            } else {
                Vec3fx { x: rx as Fixed, y: ry as Fixed, z: pos.z }
            }
        },
    }
}

/// Nudges a position toward its lane center.
pub fn move_to_middle_of_road(level: &Level, pos: Vec3fx, delta: Time) -> (r: Vec3fx)
    requires
        level.wf(),
        crate::types::vec_in_range(pos, 1_500_000_000),
        delta <= DELTA_MAX,
    ensures
        r == spec_nudged_pos(*level, pos, delta as int),
        crate::types::vec_in_range(r, 1_500_030_000),
        r.z == pos.z,
{
    proof {
        reveal(spec_nudged_pos);
    }
    let road_middle = get_road_middle(level, pos);
    match road_middle {
        Some(middle) => {
            let diff = middle.sub_v(pos);
            let diff_len = diff.len2();
            proof {
                crate::util::lemma_isqrt_unique(
                    (diff.x * diff.x + diff.y * diff.y) as int,
                    diff_len as int,
                );
            }
            let m = crate::util::imin(diff_len, 10 * (delta as i64));
            proof {
                crate::util::lemma_abs_mul_bound(
                    middle.x - pos.x,
                    m as int,
                    2 * TILESIZE_FX as int,
                    6_000_000,
                );
                crate::util::lemma_abs_mul_bound(
                    middle.y - pos.y,
                    m as int,
                    2 * TILESIZE_FX as int,
                    6_000_000,
                );
            }
            let rx = crate::util::interpolate(pos.x, middle.x, 0, diff_len, m);
            let ry = crate::util::interpolate(pos.y, middle.y, 0, diff_len, m);
            let back = Vec3 { x: rx - middle.x, y: ry - middle.y, z: 0 };
            let back_len = back.len2();
            proof {
                crate::util::lemma_isqrt_unique(
                    (back.x * back.x + back.y * back.y) as int,
                    back_len as int,
                );
            }
            if back_len < 1000 {
                middle
            } else {
                Vec3 { x: rx, y: ry, z: pos.z }
            }
        },
        None => pos,
    }
}

/// The capped turn toward `wanted`: zero within the 10-microradian
/// dead band, otherwise the signed shortest difference capped at 4
/// milliradians per millisecond (4 radians per second).
pub open spec fn spec_turn_amount(angle: int, wanted: int, delta: int) -> int {
    let diff = norm_pi_spec(angle - wanted);
    if -10 < diff < 10 {
        0
    } else if diff < 0 {
        if -diff < 4000 * delta {
            -diff
        } else {
            4000 * delta
        }
    } else {
        if diff < 4000 * delta {
            -diff
        } else {
            -(4000 * delta)
        }
    }
}

pub fn get_turn_amount(entity_angle: Angle, delta: Time, wanted_angle: Angle) -> (r: Angle)
    requires
        -TAU <= entity_angle <= TAU,
        -TAU <= wanted_angle <= TAU,
        delta <= DELTA_MAX,
    ensures
        r == spec_turn_amount(entity_angle as int, wanted_angle as int, delta as int),
        -PI <= r <= PI,
{
    let diff = crate::angle::normalized_angle_diff(entity_angle, wanted_angle);
    if -10 < diff && diff < 10 {
        0
    } else if diff < 0 {
        crate::util::imin(-diff, 4000 * (delta as i64))
    } else {
        -crate::util::imin(diff, 4000 * (delta as i64))
    }
}

/// Offsets scanned when no direction is prescribed: two distances and
/// two signs on each axis, sign-major on x then y.
pub open spec fn spec_search_dx(k: int) -> int {
    let mag = (k / 4) % 2 + 1;
    if k / 8 == 0 {
        -mag
    } else {
        mag
    }
}

pub open spec fn spec_search_dy(k: int) -> int {
    let mag = k % 2 + 1;
    if (k / 2) % 2 == 0 {
        -mag
    } else {
        mag
    }
}

/// First scanned offset whose tile is a road, scanning from `k`.
pub open spec fn spec_first_road(level: Level, tx: int, ty: int, k: int) -> Option<int>
    decreases 16 - k,
{
    if k < 0 || k >= 16 {
        None
    } else if 10 <= level.tile_at(tx + spec_search_dx(k), ty + spec_search_dy(k)) <= 29 {
        Some(k)
    } else {
        spec_first_road(level, tx, ty, k + 1)
    }
}

fn search_offset(k: usize) -> (r: (IScalar, IScalar))
    requires
        k < 16,
    ensures
        r.0 == spec_search_dx(k as int),
        r.1 == spec_search_dy(k as int),
{
    let magx = ((k / 4) % 2 + 1) as IScalar;
    let dx: IScalar = if k / 8 == 0 {
        -magx
    } else {
        magx
    };
    let magy = (k % 2 + 1) as IScalar;
    let dy: IScalar = if (k / 2) % 2 == 0 {
        -magy
    } else {
        magy
    };
    (dx, dy)
}

/// Steering fallback: the heading toward the first nearby road tile in
/// the scan order, or none when no scanned neighbor is a road.
pub fn find_angle_to_road(level: &Level, tilepos: Vec3i) -> (r: Option<Angle>)
    requires
        level.wf(),
        -1_000_000 <= tilepos.x <= 1_000_000,
        -1_000_000 <= tilepos.y <= 1_000_000,
    ensures
        match spec_first_road(*level, tilepos.x as int, tilepos.y as int, 0) {
            None => r.is_none(),
            Some(k) => r matches Some(a) && a as int == spec_atan2(
                spec_search_dy(k),
                spec_search_dx(k),
            ),
        },
        r matches Some(a) ==> -PI <= a <= PI,
{
    let mut k: usize = 0;
    while k < 16
        invariant
            k <= 16,
            level.wf(),
            -1_000_000 <= tilepos.x <= 1_000_000,
            -1_000_000 <= tilepos.y <= 1_000_000,
            spec_first_road(*level, tilepos.x as int, tilepos.y as int, 0) == spec_first_road(
                *level,
                tilepos.x as int,
                tilepos.y as int,
                k as int,
            ),
        decreases 16 - k,
    {
        let (dx, dy) = search_offset(k);
        let pos = Vec3i::new2(tilepos.x + dx, tilepos.y + dy);
        let tiledata = crate::level::get_tiledata_for_tilepos(level, pos);
        if is_road(tiledata) {
            let a = crate::angle::vec_angle(Vec3 { x: dx as i64, y: dy as i64, z: 0 });
            return Some(a);
        }
        k = k + 1;
    }
    None
}

/// The probe point a vehicle checks before moving: one and a half
/// widths ahead along the heading.
pub open spec fn spec_wanted_pos(pos: Vec3fx, angle: int, width: int) -> Vec3fx {
    let amount = tdiv(3 * width, 2);
    Vec3fx {
        x: (pos.x + tdiv(amount * spec_cos(angle), 1000)) as Fixed,
        y: (pos.y + tdiv(amount * spec_sin(angle), 1000)) as Fixed,
        z: pos.z,
    }
}

/// The tile code at the probe point.
pub open spec fn spec_wanted_tile(level: Level, pos: Vec3fx, angle: int, width: int) -> int {
    let wp = spec_wanted_pos(pos, angle, width);
    level.tile_at(
        tdiv(wp.x as int, TILESIZE_FX as int),
        tdiv(wp.y as int, TILESIZE_FX as int),
    )
}

/// Movement legality onto the next tile, tested in order: the probe
/// point must be clear of vehicles and the player; off-road sources
/// may always move; entering a one-way segment and leaving an
/// intersection are always allowed; otherwise the light must be green;
/// a non-road destination is then allowed, and a road destination is
/// gated by the right-of-way table.
#[verifier::opaque]
pub open spec fn spec_can_move(level: Level, others: Seq<EntityView>, id: int, width: int,
    height: int, pos: Vec3fx, angle: int, last: int, light: TrafficLight) -> bool {
    let wp = spec_wanted_pos(pos, angle, width);
    let wt = spec_wanted_tile(level, pos, angle, width);
    if !spec_point_free(others, id, height, wp) {
        false
    } else if !(10 <= last <= 29) {
        true
    } else if 10 <= wt <= 17 {
        true
    } else if 18 <= last <= 29 {
        true
    } else if !light.spec_is_green() {
        false
    } else if !(10 <= wt <= 29) {
        true
    } else {
        spec_road_rule(wt, light.spec_index(), last - 10)
    }
}

/// Tests whether the entity may move along `angle`, and reports the
/// tile code at the probe point.
pub fn can_move_on_road(entity: &EntityBase, class: &EntityClass, others: &Vec<EntityView>,
    angle: Angle, last_tiledata: LevelTileData, trafficlight: TrafficLight, level: &Level) -> (r:
    (bool, LevelTileData))
    requires
        entity.wf(),
        class.wf(),
        level.wf(),
        -TAU <= angle <= TAU,
        forall|i: int| 0 <= i < others@.len() ==> (#[trigger] others@[i]).wf(),
    ensures
        r.0 == spec_can_move(
            *level,
            others@,
            entity.id as int,
            class.width as int,
            class.height as int,
            entity.pos,
            angle as int,
            last_tiledata as int,
            trafficlight,
        ),
        r.1 == spec_wanted_tile(*level, entity.pos, angle as int, class.width as int),
{
    proof {
        reveal(spec_can_move);
        crate::angle::lemma_cos_bounds(angle as int);
        crate::angle::lemma_sin_bounds(angle as int);
        crate::util::lemma_tdiv_abs_bound(3 * class.width, 2);
        vstd::arithmetic::div_mod::lemma_div_is_ordered(
            spec_abs(3 * class.width as int),
            300_000_000,
            2,
        );
        crate::util::lemma_abs_mul_bound(
            tdiv(3 * class.width as int, 2),
            spec_cos(angle as int),
            150_000_000,
            1000,
        );
        crate::util::lemma_abs_mul_bound(
            tdiv(3 * class.width as int, 2),
            spec_sin(angle as int),
            150_000_000,
            1000,
        );
    }
    let amount = crate::util::div_trunc(3 * class.width, 2);
    let dir = crate::angle::cossin(angle);
    proof {
        crate::util::lemma_tdiv_abs_bound(amount * dir.x, 1000);
        crate::util::lemma_tdiv_abs_bound(amount * dir.y, 1000);
        vstd::arithmetic::div_mod::lemma_div_is_ordered(
            spec_abs(amount * dir.x),
            150_000_000_000,
            1000,
        );
        vstd::arithmetic::div_mod::lemma_div_is_ordered(
            spec_abs(amount * dir.y),
            150_000_000_000,
            1000,
        );
    }
    let wx = entity.pos.x + crate::util::mul_div_trunc(amount, dir.x, 1000);
    let wy = entity.pos.y + crate::util::mul_div_trunc(amount, dir.y, 1000);
    let wanted_pos = Vec3 { x: wx, y: wy, z: entity.pos.z };
    let wanted_tiledata = crate::level::get_tiledata_for_pos(level, wanted_pos);
    if !is_point_free(others, entity.id, class.height, wanted_pos) {
        return (false, wanted_tiledata);
    }
    if !is_road(last_tiledata) {
        return (true, wanted_tiledata);
    }
    if is_one_way_road(wanted_tiledata) {
        return (true, wanted_tiledata);
    }
    if is_intersection(last_tiledata) {
        return (true, wanted_tiledata);
    }
    if !trafficlight.is_green() {
        return (false, wanted_tiledata);
    }
    if !is_road(wanted_tiledata) {
        return (true, wanted_tiledata);
    }
    let ok = road_rule(
        wanted_tiledata as i32,
        trafficlight.index(),
        last_tiledata as i32 - 10,
    );
    (ok, wanted_tiledata)
}

/// The speed after one tick of easing toward `wanted`: decelerate at
/// 200 milli-units per millisecond-second, accelerate at 100, never
/// overshooting the wanted speed.
pub open spec fn spec_accelerated(speed: int, wanted: int, delta: int) -> int {
    if speed > wanted {
        if speed - 200 * delta > wanted {
            speed - 200 * delta
        } else {
            wanted
        }
    } else {
        if speed + 100 * delta < wanted {
            speed + 100 * delta
        } else {
            wanted
        }
    }
}

/// What one drive step decides: the wanted speed, the new heading, and
/// the tile code remembered as the last road tile.
#[verifier::opaque]
pub open spec fn spec_drive_plan(level: Level, others: Seq<EntityView>, ent: EntityBase,
    width: int, height: int, light: TrafficLight, last: int, delta: int) -> (int, int, int) {
    if ent.stance != EntityStance::Running {
        (0int, ent.angle as int, last)
    } else {
        let t = level.tile_at(
            tdiv(ent.pos.x as int, TILESIZE_FX as int),
            tdiv(ent.pos.y as int, TILESIZE_FX as int),
        );
        match spec_road_direction(t, light.spec_index()) {
            Some(d) => {
                if spec_can_move(level, others, ent.id as int, width, height, ent.pos, d, last,
                    light) {
                    let wt = spec_wanted_tile(level, ent.pos, d, width);
                    let turn = spec_turn_amount(ent.angle as int, d, delta);
                    if turn == 0 {
                        (50_000int, d, wt)
                    } else {
                        (25_000int, norm_spec(ent.angle + turn), wt)
                    }
                } else {
                    (0int, ent.angle as int, last)
                }
            },
            None => {
                let tx = tdiv(ent.pos.x as int, TILESIZE_FX as int);
                let ty = tdiv(ent.pos.y as int, TILESIZE_FX as int);
                match spec_first_road(level, tx, ty, 0) {
                    Some(k) => {
                        let a = spec_atan2(spec_search_dy(k), spec_search_dx(k));
                        let turn = spec_turn_amount(ent.angle as int, a, delta);
                        if turn != 0 {
                            (25_000int, norm_spec(ent.angle + turn), last)
                        } else {
                            (50_000int, ent.angle as int, last)
                        }
                    },
                    None => (0int, ent.angle as int, last),
                }
            },
        }
    }
}

/// The lane nudge clamped onto the world.
pub open spec fn spec_clamped_nudge(level: Level, pos: Vec3fx, delta: int) -> Vec3fx {
    let n = spec_nudged_pos(level, pos, delta);
    Vec3fx {
        x: crate::collision::spec_clamp(
            n.x as int,
            -crate::collision::WORLD_MAX as int,
            crate::collision::WORLD_MAX as int,
        ) as Fixed,
        y: crate::collision::spec_clamp(
            n.y as int,
            -crate::collision::WORLD_MAX as int,
            crate::collision::WORLD_MAX as int,
        ) as Fixed,
        z: n.z,
    }
}

/// Vehicle behavior state: the last road tile the vehicle committed to
/// and the speed the driver currently wants.
#[derive(Debug, Clone, Copy, PartialEq, Eq, Structural)]
pub struct VehicleData {
    pub last_tiledata: LevelTileData,
    pub wanted_speed: Fixed,
}

impl VehicleData {
    pub open spec fn wf(self) -> bool {
        0 <= self.wanted_speed <= SPEED_MAX
    }

    pub fn new() -> (r: VehicleData)
        ensures
            r.last_tiledata == -1,
            r.wanted_speed == 0,
            r.wf(),
    {
        VehicleData { last_tiledata: -1, wanted_speed: 0 }
    }

    /// Eases the entity's speed toward the wanted speed. A snap to
    /// zero below a hundredth of a milli-unit would be the identity
    /// here: integer speeds reach zero exactly.
    fn accelerate_to_wanted_speed(&self, entity: &mut EntityBase, delta: Time)
        requires
            old(entity).wf(),
            self.wf(),
            delta <= DELTA_MAX,
        ensures
            final(entity).wf(),
            *final(entity) == (EntityBase {
                speed: final(entity).speed,
                ..*old(entity)
            }),
            final(entity).speed == spec_accelerated(
                old(entity).speed as int,
                self.wanted_speed as int,
                delta as int,
            ),
            0 <= final(entity).speed <= SPEED_MAX,
    {
        if entity.speed > self.wanted_speed {
            entity.speed = crate::util::imax(
                self.wanted_speed,
                entity.speed - 200 * (delta as i64),
            );
        } else {
            entity.speed = crate::util::imin(
                self.wanted_speed,
                entity.speed + 100 * (delta as i64),
            );
        }
    }

    /// Accelerates, then moves the entity forward along its heading;
    /// a vehicle at speed zero stays put.
    fn move_vehicle(&mut self, entity: &mut EntityBase, delta: Time)
        requires
            old(entity).wf(),
            old(self).wf(),
            delta <= DELTA_MAX,
        ensures
            *final(self) == *old(self),
            final(entity).wf(),
            final(entity).speed == spec_accelerated(
                old(entity).speed as int,
                old(self).wanted_speed as int,
                delta as int,
            ),
            ({
                let sp = spec_accelerated(
                    old(entity).speed as int,
                    old(self).wanted_speed as int,
                    delta as int,
                );
                if sp == 0 {
                    *final(entity) == (EntityBase { speed: 0, ..*old(entity) })
                } else {
                    *final(entity) == (EntityBase {
                        speed: sp as Fixed,
                        pos: crate::entity::spec_strafe(
                            old(entity).pos,
                            old(entity).angle as int,
                            sp,
                            0,
                            delta as int,
                        ),
                        sort_order: final(entity).sort_order,
                        ..*old(entity)
                    })
                }
            }),
    {
        self.accelerate_to_wanted_speed(entity, delta);
        if entity.speed == 0 {
            return;
        }
        entity.move_forward(delta);
    }

    /// One drive tick: snapshot the transform, decide wanted speed and
    /// heading from the road tables (steering toward the nearest road
    /// when the current tile prescribes nothing), nudge toward the
    /// lane center, and ease toward the wanted speed while moving.
    pub fn step_drive_along_road(&mut self, entity: &mut EntityBase, class: &EntityClass,
        level: &Level, others: &Vec<EntityView>, trafficlight: TrafficLight, delta: Time)
        requires
            old(entity).wf(),
            old(self).wf(),
            class.wf(),
            level.wf(),
            delta <= DELTA_MAX,
            forall|i: int| 0 <= i < others@.len() ==> (#[trigger] others@[i]).wf(),
        ensures
            final(entity).wf(),
            final(self).wf(),
            final(entity).prev_pos == old(entity).pos,
            final(entity).prev_angle == old(entity).angle,
            final(entity).id == old(entity).id,
            final(entity).class == old(entity).class,
            final(entity).entity_type == old(entity).entity_type,
            final(entity).stance == old(entity).stance,
            final(entity).stance_millis == old(entity).stance_millis,
            final(entity).palette == old(entity).palette,
            final(entity).gender == old(entity).gender,
            final(entity).hidden == old(entity).hidden,
            final(entity).route == old(entity).route,
            final(entity).following_route == old(entity).following_route,
            final(entity).can_update_sort == old(entity).can_update_sort,
            ({
                let plan = spec_drive_plan(
                    *level,
                    others@,
                    *old(entity),
                    class.width as int,
                    class.height as int,
                    trafficlight,
                    old(self).last_tiledata as int,
                    delta as int,
                );
                let mid = if old(entity).stance == EntityStance::Running {
                    spec_clamped_nudge(*level, old(entity).pos, delta as int)
                } else {
                    old(entity).pos
                };
                let sp = spec_accelerated(old(entity).speed as int, plan.0, delta as int);
                &&& final(self).wanted_speed == plan.0
                &&& final(entity).angle == plan.1
                &&& final(self).last_tiledata == plan.2
                &&& final(entity).speed == sp
                &&& final(entity).pos == if sp == 0 {
                    mid
                } else {
                    crate::entity::spec_strafe(mid, plan.1, sp, 0, delta as int)
                }
            }),
    {
        proof {
            reveal(spec_drive_plan);
        }
        entity.update_prev();
        self.wanted_speed = 0;
        if entity.stance == EntityStance::Running {
            let tiledata = crate::level::get_tiledata_for_pos(level, entity.pos);
            let road_direction = get_road_direction(tiledata, trafficlight);
            match road_direction {
                Some(rd) => {
                    let moved = can_move_on_road(
                        entity,
                        class,
                        others,
                        rd,
                        self.last_tiledata,
                        trafficlight,
                        level,
                    );
                    if moved.0 {
                        self.wanted_speed = 25_000;
                        let turn = get_turn_amount(entity.angle, delta, rd);
                        if turn == 0 {
                            entity.angle = rd;
                            self.wanted_speed = 50_000;
                        } else {
                            entity.angle = crate::angle::normalize_angle(entity.angle + turn);
                        }
                        self.last_tiledata = moved.1;
                    }
                },
                None => {
                    let tilepos = crate::level::pos_to_tilepos(entity.pos);
                    proof {
                        crate::util::lemma_tdiv_abs_bound(entity.pos.x as int, TILESIZE_FX as int);
                        crate::util::lemma_tdiv_abs_bound(entity.pos.y as int, TILESIZE_FX as int);
                        vstd::arithmetic::div_mod::lemma_div_is_ordered(
                            spec_abs(entity.pos.x as int),
                            1_000_000_000,
                            TILESIZE_FX as int,
                        );
                        vstd::arithmetic::div_mod::lemma_div_is_ordered(
                            spec_abs(entity.pos.y as int),
                            1_000_000_000,
                            TILESIZE_FX as int,
                        );
                    }
                    let found = find_angle_to_road(level, tilepos);
                    match found {
                        Some(a) => {
                            let turn = get_turn_amount(entity.angle, delta, a);
                            if turn != 0 {
                                self.wanted_speed = 25_000;
                                entity.angle = crate::angle::normalize_angle(entity.angle + turn);
                            } else {
                                self.wanted_speed = 50_000;
                            }
                        },
                        None => {},
                    }
                },
            }
            let nudged = move_to_middle_of_road(level, entity.pos, delta);
            entity.pos = Vec3 {
                x: crate::entity::clamp_world(nudged.x),
                y: crate::entity::clamp_world(nudged.y),
                z: nudged.z,
            };
        }
        self.move_vehicle(entity, delta);
    }
}

/// A vehicle spawn point: the lane center of `pos`, offered only when
/// `pos` sits on a straight one-way tile whose direction slot matches
/// the rotating spawn counter.
pub open spec fn spec_road_spawn(level: Level, pos: Vec3fx, counter: int) -> Option<Vec3fx> {
    let t = level.tile_at(
        tdiv(pos.x as int, TILESIZE_FX as int),
        tdiv(pos.y as int, TILESIZE_FX as int),
    );
    if 10 <= t <= 13 && counter % 4 == t - 10 {
        spec_road_middle(level, pos)
    } else {
        None
    }
}

pub fn get_road_spawn(level: &Level, pos: Vec3fx, entity_spawn_counter: usize) -> (r: Option<
    Vec3fx,
>)
    requires
        level.wf(),
        crate::types::vec_in_range(pos, 1_000_000_000),
    ensures
        r == spec_road_spawn(*level, pos, entity_spawn_counter as int),
        r matches Some(m) ==> crate::types::vec_in_range(m, 1_000_048_000),
{
    let tiledata = crate::level::get_tiledata_for_pos(level, pos);
    if tiledata >= 10 && tiledata <= 13 {
        if entity_spawn_counter % 4 == (tiledata - 10) as usize {
            return get_road_middle(level, pos);
        }
    }
    None
}

impl VehicleData {
    /// The collision footprint of a vehicle entity: its class extents
    /// as an axis-aligned rectangle; non-vehicle types have none.
    pub fn get_collision_info(&self, entity: &EntityBase, class: &EntityClass) -> (r: Option<
        crate::collision::ShapeInfo,
    >)
        requires
            class.wf(),
        ensures
            (entity.entity_type == EntityType::Type8 || entity.entity_type
                == EntityType::PlayerVehicle || entity.entity_type == EntityType::MovingVehicle
                || entity.entity_type == EntityType::EnemyVehicle || entity.entity_type
                == EntityType::PoliceCar) ==> r == Some(
                crate::collision::ShapeInfo {
                    shape: crate::collision::Shape::Rect(
                        Vec3fx { x: class.width, y: class.height, z: 0 },
                    ),
                    weight: class.weight,
                },
            ),
            !(entity.entity_type == EntityType::Type8 || entity.entity_type
                == EntityType::PlayerVehicle || entity.entity_type == EntityType::MovingVehicle
                || entity.entity_type == EntityType::EnemyVehicle || entity.entity_type
                == EntityType::PoliceCar) ==> r.is_none(),
            r matches Some(i) ==> i.wf(),
    {
        if entity.entity_type == EntityType::Type8 || entity.entity_type
            == EntityType::PlayerVehicle || entity.entity_type == EntityType::MovingVehicle
            || entity.entity_type == EntityType::EnemyVehicle || entity.entity_type
            == EntityType::PoliceCar {
            Some(
                crate::collision::ShapeInfo {
                    shape: crate::collision::Shape::Rect(
                        Vec3 { x: class.width, y: class.height, z: 0 },
                    ),
                    weight: class.weight,
                },
            )
        } else {
            None
        }
    }

    /// Palettes and genders for freshly placed simple vehicles: the
    /// two motorcycle classes carry a rider with a random gender and
    /// the pedestrian palette, other vehicles one of the two car
    /// palettes.
    pub fn init_simple_vehicle(&mut self, entity: &mut EntityBase)
        ensures
            *final(self) == *old(self),
            *final(entity) == (EntityBase {
                gender: final(entity).gender,
                palette: final(entity).palette,
                ..*old(entity)
            }),
            (old(entity).class == 38 || old(entity).class == 39) ==> final(entity).palette == 12,
            !(old(entity).class == 38 || old(entity).class == 39) ==> (1 <= final(entity).palette
                <= 2 && final(entity).gender == old(entity).gender),
    {
        if entity.class == 38 || entity.class == 39 {
            entity.gender = EntityBase::pick_gender();
            entity.palette = EntityBase::pick_npc_person_palette();
        } else {
            entity.palette = crate::util::pick_int(2) + 1;
        }
    }

    /// Tries to place a vehicle near `pos`: the point must be clear,
    /// the tile must offer a spawn slot, and after snapping to the
    /// lane center and taking the road's direction the vehicle must be
    /// allowed to move; then it becomes visible and starts running.
    pub fn spawn(&mut self, entity: &mut EntityBase, class: &EntityClass, level: &Level,
        others: &Vec<EntityView>, trafficlight: TrafficLight, entity_spawn_counter: usize,
        pos: Vec3fx) -> (r: Option<Vec3fx>)
        requires
            old(entity).wf(),
            old(self).wf(),
            class.wf(),
            level.wf(),
            crate::types::vec_in_range(pos, 1_000_000_000),
            forall|i: int| 0 <= i < others@.len() ==> (#[trigger] others@[i]).wf(),
        ensures
            final(entity).wf(),
            final(self).wf(),
            final(entity).id == old(entity).id,
            final(entity).class == old(entity).class,
            final(entity).entity_type == old(entity).entity_type,
            final(entity).speed == old(entity).speed,
            final(entity).stance_millis == old(entity).stance_millis,
            final(entity).prev_pos == old(entity).prev_pos,
            final(entity).prev_angle == old(entity).prev_angle,
            final(entity).sort_order == old(entity).sort_order,
            final(entity).palette == old(entity).palette,
            final(entity).gender == old(entity).gender,
            final(entity).route == old(entity).route,
            final(entity).following_route == old(entity).following_route,
            final(entity).can_update_sort == old(entity).can_update_sort,
            r matches Some(p) ==> p == final(entity).pos && !final(entity).hidden && final(entity).stance == EntityStance::Running,
            !spec_point_free(
                others@,
                old(entity).id as int,
                class.height as int,
                pos,
            ) ==> r.is_none() && *final(entity) == *old(entity) && *final(self) == *old(self),
            spec_point_free(others@, old(entity).id as int, class.height as int, pos)
                && spec_road_spawn(*level, pos, entity_spawn_counter as int).is_none()
                ==> r.is_none() && *final(entity) == *old(entity) && *final(self) == *old(self),
            ({
                let rs = spec_road_spawn(*level, pos, entity_spawn_counter as int);
                spec_point_free(others@, old(entity).id as int, class.height as int, pos)
                    && rs is Some ==> {
                    let p0 = rs->Some_0;
                    let t = level.tile_at(
                        tdiv(p0.x as int, TILESIZE_FX as int),
                        tdiv(p0.y as int, TILESIZE_FX as int),
                    );
                    let p1 = spec_clamped_nudge(*level, p0, 1000);
                    let ang: int = match spec_road_direction(t, trafficlight.spec_index()) {
                        Some(d) => d,
                        None => old(entity).angle as int,
                    };
                    &&& final(self).last_tiledata == t
                    &&& final(entity).pos == p1
                    &&& final(entity).angle == ang
                    &&& if spec_can_move(
                        *level,
                        others@,
                        old(entity).id as int,
                        class.width as int,
                        class.height as int,
                        p1,
                        ang,
                        t,
                        trafficlight,
                    ) {
                        r == Some(p1) && !final(entity).hidden && final(entity).stance
                            == EntityStance::Running
                    } else {
                        r.is_none() && final(entity).hidden == old(entity).hidden && final(entity).stance == old(entity).stance
                    }
                }
            }),
    {
        if !is_point_free(others, entity.id, class.height, pos) {
            return None;
        }
        let road_spawn = get_road_spawn(level, pos, entity_spawn_counter);
        match road_spawn {
            Some(spawn_pos) => {
                entity.pos = spawn_pos;
            },
            None => {
                return None;
            },
        }
        let tiledata = crate::level::get_tiledata_for_pos(level, entity.pos);
        let nudged = move_to_middle_of_road(level, entity.pos, 1000);
        entity.pos = Vec3 {
            x: crate::entity::clamp_world(nudged.x),
            y: crate::entity::clamp_world(nudged.y),
            z: nudged.z,
        };
        match get_road_direction(tiledata, trafficlight) {
            Some(direction) => {
                entity.angle = direction;
            },
            None => {},
        }
        self.last_tiledata = tiledata;
        let moved = can_move_on_road(
            entity,
            class,
            others,
            entity.angle,
            tiledata,
            trafficlight,
            level,
        );
        if !moved.0 {
            return None;
        }
        entity.hidden = false;
        entity.stance = EntityStance::Running;
        Some(entity.pos)
    }
}

} // verus!
