//! Entities: the per-entity transform/state record shared by all entity
//! kinds, the closed set of entity types and stances, and the entity
//! wrapper that dispatches to its behavior variant.
use vstd::prelude::*;
use crate::types::{
    Angle, ClassId, ClipId, EntityId, Fixed, IScalar, PaletteId, Time, Vec3, Vec3fx, Vec3i,
};
use crate::util::tdiv;
use crate::angle::{spec_cos, spec_sin, TAU};
use crate::route::RouteData;
use crate::level::Level;
use crate::collision::{PhysicalObject, Shape, ShapeInfo, SHAPE_MAX, WEIGHT_MAX, WORLD_MAX};

verus! {

/// Bound on entity speeds, in milli-units per second.
pub const SPEED_MAX: Fixed = 1_000_000;

/// Bound on a single step's time delta, in milliseconds.
pub const DELTA_MAX: Time = 600_000;

/// Bound on accumulated stance time, far below overflow.
pub const STANCE_MILLIS_MAX: Time = 0x10_0000_0000_0000;

#[derive(Debug, Clone, Copy, PartialEq, Eq, Structural)]
pub enum EntityType {
    Unknown,
    /// A pedestrian that can follow a path.
    Type1,
    Player,
    Pedestrian,
    /// A pedestrian that spawned out of a vehicle.
    VehiclePedestrian,
    Gangster,
    Police,
    /// Related to a gangster.
    Type7,
    /// A vehicle.
    Type8,
    PlayerVehicle,
    MovingVehicle,
    EnemyVehicle,
    PoliceCar,
    Pickup,
    Type14,
    Type15,
    GarageDoor,
    Type17,
    Type18,
    Type19,
    Type20,
}

impl EntityType {
    /// The numeric code the class catalog stores for this type.
    pub open spec fn code(self) -> int {
        match self {
            EntityType::Unknown => 0,
            EntityType::Type1 => 1,
            EntityType::Player => 2,
            EntityType::Pedestrian => 3,
            EntityType::VehiclePedestrian => 4,
            EntityType::Gangster => 5,
            EntityType::Police => 6,
            EntityType::Type7 => 7,
            EntityType::Type8 => 8,
            EntityType::PlayerVehicle => 9,
            EntityType::MovingVehicle => 10,
            EntityType::EnemyVehicle => 11,
            EntityType::PoliceCar => 12,
            EntityType::Pickup => 13,
            EntityType::Type14 => 14,
            EntityType::Type15 => 15,
            EntityType::GarageDoor => 16,
            EntityType::Type17 => 17,
            EntityType::Type18 => 18,
            EntityType::Type19 => 19,
            EntityType::Type20 => 20,
        }
    }

    /// Person-like entity types: codes 0 through 7.
    pub fn is_person(&self) -> (r: bool)
        ensures
            r == (0 <= self.code() <= 7),
    {
        match *self {
            EntityType::Unknown | EntityType::Type1 | EntityType::Player
            | EntityType::Pedestrian | EntityType::VehiclePedestrian | EntityType::Gangster
            | EntityType::Police | EntityType::Type7 => true,
            _ => false,
        }
    }

    /// Vehicle entity types: codes 8 through 12, and 20.
    pub fn is_vehicle(&self) -> (r: bool)
        ensures
            r == (8 <= self.code() <= 12 || self.code() == 20),
    {
        match *self {
            EntityType::Type8 | EntityType::PlayerVehicle | EntityType::MovingVehicle
            | EntityType::EnemyVehicle | EntityType::PoliceCar | EntityType::Type20 => true,
            _ => false,
        }
    }

    /// The types the despawn/respawn cycling drives.
    pub open spec fn spec_is_npc(self) -> bool {
        self == EntityType::Pedestrian || self == EntityType::VehiclePedestrian || self
            == EntityType::Gangster || self == EntityType::Police || self
            == EntityType::MovingVehicle || self == EntityType::EnemyVehicle || self
            == EntityType::PoliceCar
    }

    pub fn is_npc(&self) -> (r: bool)
        ensures
            r == self.spec_is_npc(),
    {
        match *self {
            EntityType::Pedestrian | EntityType::VehiclePedestrian | EntityType::Gangster
            | EntityType::Police | EntityType::MovingVehicle | EntityType::EnemyVehicle
            | EntityType::PoliceCar => true,
            _ => false,
        }
    }
}

/// Entity type for a numeric class-catalog code; everything unknown
/// maps onto `Unknown`.
pub open spec fn spec_get_entitytype(number: int) -> EntityType {
    if number == 1 {
        EntityType::Type1
    } else if number == 2 {
        EntityType::Player
    } else if number == 3 {
        EntityType::Pedestrian
    } else if number == 4 {
        EntityType::VehiclePedestrian
    } else if number == 5 {
        EntityType::Gangster
    } else if number == 6 {
        EntityType::Police
    } else if number == 7 {
        EntityType::Type7
    } else if number == 8 {
        EntityType::Type8
    } else if number == 9 {
        EntityType::PlayerVehicle
    } else if number == 10 {
        EntityType::MovingVehicle
    } else if number == 11 {
        EntityType::EnemyVehicle
    } else if number == 12 {
        EntityType::PoliceCar
    } else if number == 13 {
        EntityType::Pickup
    } else if number == 14 {
        EntityType::Type14
    } else if number == 15 {
        EntityType::Type15
    } else if number == 16 {
        EntityType::GarageDoor
    } else if number == 17 {
        EntityType::Type17
    } else if number == 18 {
        EntityType::Type18
    } else if number == 19 {
        EntityType::Type19
    } else if number == 20 {
        EntityType::Type20
    } else {
        EntityType::Unknown
    }
}

pub fn get_entitytype(number: i32) -> (r: EntityType)
    ensures
        r == spec_get_entitytype(number as int),
{
    match number {
        1 => EntityType::Type1,
        2 => EntityType::Player,
        3 => EntityType::Pedestrian,
        4 => EntityType::VehiclePedestrian,
        5 => EntityType::Gangster,
        6 => EntityType::Police,
        7 => EntityType::Type7,
        8 => EntityType::Type8,
        9 => EntityType::PlayerVehicle,
        10 => EntityType::MovingVehicle,
        11 => EntityType::EnemyVehicle,
        12 => EntityType::PoliceCar,
        13 => EntityType::Pickup,
        14 => EntityType::Type14,
        15 => EntityType::Type15,
        16 => EntityType::GarageDoor,
        17 => EntityType::Type17,
        18 => EntityType::Type18,
        19 => EntityType::Type19,
        20 => EntityType::Type20,
        _ => EntityType::Unknown,
    }
}

#[derive(Debug, Clone, Copy, PartialEq, Eq, Structural)]
pub enum EntityStance {
    Standing,
    Walking,
    Running,
    Dead,
    LyingDown,
    Aiming,
    Shooting,
    Punching,
    Riding,
    Sliding,
    Unknown,
}

impl EntityStance {
    /// Stances in which the entity moves under its own control, and
    /// which an outside halt may therefore interrupt.
    pub open spec fn spec_is_self_moving(self) -> bool {
        self == EntityStance::Walking || self == EntityStance::Running
    }

    pub fn is_self_moving(&self) -> (r: bool)
        ensures
            r == self.spec_is_self_moving(),
    {
        match *self {
            EntityStance::Walking | EntityStance::Running => true,
            _ => false,
        }
    }
}

#[derive(Debug, Clone, Copy, PartialEq, Eq, Structural)]
pub enum EntityGender {
    Female,
    Male,
}

impl EntityGender {
    pub fn get_clip_id(&self) -> (r: ClipId)
        ensures
            *self == EntityGender::Female ==> r == 18,
            *self == EntityGender::Male ==> r == 8,
    {
        match *self {
            EntityGender::Female => 18,
            EntityGender::Male => 8,
        }
    }
}

/// Static, asset-derived per-class attributes, looked up by class id.
#[derive(Debug, Clone, Copy, PartialEq, Eq, Structural)]
pub struct EntityClass {
    pub entity_type: i32,
    pub clip: ClipId,
    pub health: i16,
    pub width: Fixed,
    pub height: Fixed,
    pub weight: i64,
}

impl EntityClass {
    pub open spec fn wf(self) -> bool {
        &&& 0 <= self.width <= SHAPE_MAX
        &&& 0 <= self.height <= SHAPE_MAX
        &&& 0 <= self.weight <= WEIGHT_MAX
    }
}

/// Per-entity transform/state record shared by all entity kinds.
#[derive(Debug, Clone, PartialEq)]
pub struct EntityBase {
    pub id: EntityId,
    pub class: ClassId,
    pub entity_type: EntityType,
    pub pos: Vec3fx,
    pub angle: Angle,
    pub prev_pos: Vec3fx,
    pub prev_angle: Angle,
    pub speed: Fixed,
    pub sort_order: IScalar,
    pub stance: EntityStance,
    pub stance_millis: Time,
    pub palette: PaletteId,
    pub gender: EntityGender,
    pub route: RouteData,
    pub hidden: bool,
    pub following_route: bool,
    pub can_update_sort: bool,
}

impl EntityBase {
    /// Geometric state stays inside the world and the speed and timers
    /// inside their ranges.
    pub open spec fn wf(self) -> bool {
        &&& crate::types::vec_in_range(self.pos, WORLD_MAX as int)
        &&& crate::types::vec_in_range(self.prev_pos, WORLD_MAX as int)
        &&& -TAU <= self.angle <= TAU
        &&& -TAU <= self.prev_angle <= TAU
        &&& 0 <= self.speed <= SPEED_MAX
        &&& self.stance_millis <= STANCE_MILLIS_MAX
        &&& self.route.wf()
    }

    /// A fresh entity record: at the origin, standing, visible.
    pub fn new(id: EntityId, class: ClassId, entity_type: EntityType) -> (r: EntityBase)
        ensures
            r.id == id,
            r.class == class,
            r.entity_type == entity_type,
            r.pos == (Vec3fx { x: 0, y: 0, z: 0 }),
            r.prev_pos == (Vec3fx { x: 0, y: 0, z: 0 }),
            r.angle == 0,
            r.prev_angle == 0,
            r.speed == 0,
            r.sort_order == 0,
            r.stance == EntityStance::Standing,
            r.stance_millis == 0,
            r.palette == 0,
            r.gender == EntityGender::Female,
            r.route.route.is_none(),
            r.route.routeid.is_none(),
            !r.hidden,
            !r.following_route,
            r.can_update_sort,
            r.wf(),
    {
        EntityBase {
            id,
            class,
            entity_type,
            pos: Vec3 { x: 0, y: 0, z: 0 },
            angle: 0,
            prev_pos: Vec3 { x: 0, y: 0, z: 0 },
            prev_angle: 0,
            speed: 0,
            sort_order: 0,
            stance: EntityStance::Standing,
            stance_millis: 0,
            palette: 0,
            gender: EntityGender::Female,
            route: RouteData::default(),
            hidden: false,
            following_route: false,
            can_update_sort: true,
        }
    }

    /// A random gender for a freshly spawned pedestrian.
    pub fn pick_gender() -> (r: EntityGender)
        ensures
            r == EntityGender::Male || r == EntityGender::Female,
    {
        let k = crate::util::pick_int(2);
        if k == 0 {
            EntityGender::Male
        } else {
            EntityGender::Female
        }
    }

    /// The palette shared by non-player pedestrians.
    pub fn pick_npc_person_palette() -> (r: PaletteId)
        ensures
            r == 12,
    {
        12 + crate::util::pick_int(1)
    }

    /// Snapshots the transform before any movement this tick, enabling
    /// exact rollback of an illegal move.
    pub fn update_prev(&mut self)
        ensures
            *final(self) == (EntityBase {
                prev_pos: old(self).pos,
                prev_angle: old(self).angle,
                ..*old(self)
            }),
    {
        self.prev_pos = self.pos;
        self.prev_angle = self.angle;
    }

    /// Draw order mirrors the y-coordinate (in whole units) while
    /// sort updates are enabled.
    pub fn update_pos(&mut self)
        requires
            crate::types::vec_in_range(old(self).pos, WORLD_MAX as int),
        ensures
            *final(self) == (EntityBase {
                sort_order: final(self).sort_order,
                ..*old(self)
            }),
            old(self).can_update_sort ==> final(self).sort_order == tdiv(
                old(self).pos.y as int,
                1000,
            ),
            !old(self).can_update_sort ==> final(self).sort_order == old(self).sort_order,
    {
        if self.can_update_sort {
            proof {
                crate::util::lemma_tdiv_abs_bound(self.pos.y as int, 1000);
            }
            self.sort_order = crate::util::div_trunc(self.pos.y, 1000) as IScalar;
        }
    }

    /// Switches stance; a repeated stance is a no-op, a new one resets
    /// the stance timer. This is the sole mechanism that times
    /// stance-gated transitions.
    pub fn set_new_stance(&mut self, newstance: EntityStance)
        ensures
            old(self).stance == newstance ==> *final(self) == *old(self),
            old(self).stance != newstance ==> *final(self) == (EntityBase {
                stance: newstance,
                stance_millis: 0,
                ..*old(self)
            }),
    {
        if self.stance == newstance {
            return;
        }
        self.stance = newstance;
        self.stance_millis = 0;
    }

    /// Displacement along `heading` over `delta` milliseconds at
    /// `speed`, one axis: `speed*delta/1000` scaled by the cosine.
    pub open spec fn spec_move_x(speed: int, delta: int, heading: int) -> int {
        tdiv(tdiv(delta * speed, 1000) * spec_cos(heading), 1000)
    }

    pub open spec fn spec_move_y(speed: int, delta: int, heading: int) -> int {
        tdiv(tdiv(delta * speed, 1000) * spec_sin(heading), 1000)
    }

    /// Position after a strafe step, clamped onto the world.
    pub open spec fn spec_strafe_pos(self, angle: int, delta: int) -> Vec3fx {
        spec_strafe(self.pos, self.angle as int, self.speed as int, angle, delta)
    }

    /// Moves at the current speed along the entity's angle offset by
    /// `angle`, for `delta` milliseconds; at speed 0 nothing moves.
    /// Movement clamps at the world edge.
    #[verifier::rlimit(60)]
    pub fn strafe(&mut self, angle: Angle, delta: Time)
        requires
            old(self).wf(),
            -TAU <= angle <= TAU,
            delta <= DELTA_MAX,
        ensures
            final(self).wf(),
            old(self).speed == 0 ==> *final(self) == *old(self),
            old(self).speed != 0 ==> *final(self) == (EntityBase {
                pos: old(self).spec_strafe_pos(angle as int, delta as int),
                sort_order: final(self).sort_order,
                ..*old(self)
            }),
            final(self).sort_order == if old(self).speed != 0 && old(self).can_update_sort {
                tdiv(old(self).spec_strafe_pos(angle as int, delta as int).y as int, 1000)
            } else {
                old(self).sort_order as int
            },
            final(self).pos.z == old(self).pos.z,
    {
        if self.speed == 0 {
            return;
        }
        proof {
            reveal(spec_strafe);
            vstd::arithmetic::mul::lemma_mul_nonnegative(delta as int, self.speed as int);
            vstd::arithmetic::mul::lemma_mul_upper_bound(
                delta as int,
                DELTA_MAX as int,
                self.speed as int,
                SPEED_MAX as int,
            );
        }
        let amount = crate::util::mul_div_trunc(delta as i64, self.speed, 1000);
        proof {
            crate::util::lemma_tdiv_abs_bound(delta * self.speed, 1000);
            vstd::arithmetic::div_mod::lemma_div_is_ordered(
                delta * self.speed,
                600_000_000_000,
                1000,
            );
            crate::angle::lemma_cos_bounds(self.angle + angle);
            crate::angle::lemma_sin_bounds(self.angle + angle);
        }
        let c = crate::angle::cos_fp(self.angle + angle);
        let s = crate::angle::sin_fp(self.angle + angle);
        proof {
            crate::util::lemma_abs_mul_bound(amount as int, c as int, 600_000_000, 1000);
            crate::util::lemma_abs_mul_bound(amount as int, s as int, 600_000_000, 1000);
            crate::util::lemma_tdiv_abs_bound(amount * c, 1000);
            crate::util::lemma_tdiv_abs_bound(amount * s, 1000);
        }
        let dx = crate::util::mul_div_trunc(amount, c, 1000);
        let dy = crate::util::mul_div_trunc(amount, s, 1000);
        let nx = clamp_world(self.pos.x + dx);
        let ny = clamp_world(self.pos.y + dy);
        self.pos = Vec3 { x: nx, y: ny, z: self.pos.z };
        self.update_pos();
    }

    /// Moves straight ahead along the entity's own angle.
    pub fn move_forward(&mut self, delta: Time)
        requires
            old(self).wf(),
            delta <= DELTA_MAX,
        ensures
            final(self).wf(),
            old(self).speed == 0 ==> *final(self) == *old(self),
            old(self).speed != 0 ==> *final(self) == (EntityBase {
                pos: old(self).spec_strafe_pos(0, delta as int),
                sort_order: final(self).sort_order,
                ..*old(self)
            }),
            final(self).sort_order == if old(self).speed != 0 && old(self).can_update_sort {
                tdiv(old(self).spec_strafe_pos(0, delta as int).y as int, 1000)
            } else {
                old(self).sort_order as int
            },
            final(self).pos.z == old(self).pos.z,
    {
        self.strafe(0, delta)
    }

    /// Follows the attached route for `delta` milliseconds: on a
    /// reported point the transform adopts it; when the route ends the
    /// route-following flag drops.
    pub fn step_route(&mut self, delta: Time)
        requires
            old(self).wf(),
            delta <= DELTA_MAX,
        ensures
            final(self).wf(),
            final(self).id == old(self).id,
            final(self).class == old(self).class,
            final(self).entity_type == old(self).entity_type,
            final(self).stance == old(self).stance,
            final(self).stance_millis == old(self).stance_millis,
            final(self).speed == old(self).speed,
            final(self).prev_pos == old(self).prev_pos,
            final(self).prev_angle == old(self).prev_angle,
            final(self).hidden == old(self).hidden,
            final(self).palette == old(self).palette,
            final(self).gender == old(self).gender,
            final(self).can_update_sort == old(self).can_update_sort,
            old(self).route.route.is_none() ==> *final(self) == *old(self),
            old(self).route.route is Some ==> ({
                let route = old(self).route.route->Some_0;
                let total = route.parts@[route.parts@.len() - 1].distance;
                if total - old(self).route.progress > old(self).route.threshold {
                    let p2 = old(self).route.progress + tdiv(
                        old(self).speed * delta,
                        1000,
                    );
                    let capped: int = if p2 > crate::route::ROUTE_DIST_MAX {
                        crate::route::ROUTE_DIST_MAX as int
                    } else {
                        p2
                    };
                    &&& final(self).route.progress == capped
                    &&& match route.spec_angle_at(capped) {
                        Some(a) => {
                            &&& final(self).pos == route.spec_point(capped)->Some_0
                            &&& final(self).angle == a
                            &&& final(self).route.route == old(self).route.route
                            &&& final(self).following_route == old(self).following_route
                            &&& final(self).sort_order == if old(self).can_update_sort {
                                tdiv(route.spec_point(capped)->Some_0.y as int, 1000)
                            } else {
                                old(self).sort_order as int
                            }
                        },
                        None => {
                            &&& final(self).route.route is None
                            &&& !final(self).following_route
                            &&& final(self).pos == old(self).pos
                            &&& final(self).angle == old(self).angle
                            &&& final(self).sort_order == old(self).sort_order
                        },
                    }
                } else {
                    &&& final(self).route.route is None
                    &&& !final(self).following_route
                    &&& final(self).pos == old(self).pos
                    &&& final(self).angle == old(self).angle
                    &&& final(self).route.progress == old(self).route.progress
                    &&& final(self).sort_order == old(self).sort_order
                }
            }),
    {
        let has_route = self.route.route.is_some();
        if !has_route {
            return;
        }
        let speed = self.speed;
        let stepped = self.route.step(speed, delta);
        match stepped {
            Some((pos, angle)) => {
                self.angle = angle;
                self.pos = pos;
                self.update_pos();
            },
            None => {
                self.following_route = false;
            },
        }
    }
}

/// The closed set of behavior variants an entity dispatches to.
#[derive(Debug, Clone, PartialEq)]
pub enum EntityData {
    Null,
    Person(crate::person::PersonData),
    Vehicle(crate::vehicle::VehicleData),
}

/// Behavior data for an entity type: person types get a person
/// variant, vehicle types a vehicle variant, everything else none.
pub fn create_entity_data(entity_type: EntityType) -> (r: EntityData)
    ensures
        entity_type.code() <= 7 ==> r is Person,
        r matches EntityData::Person(p) ==> (p matches crate::person::PersonData::Sidewalk(s)
            ==> s == (crate::person::SidewalkData {
            walking_direction: Vec3fx { x: 0, y: 0, z: 0 },
            walking_angle: 0,
        })),
        (8 <= entity_type.code() <= 12 || entity_type.code() == 20) ==> r == EntityData::Vehicle(
            crate::vehicle::VehicleData { last_tiledata: -1i8, wanted_speed: 0i64 },
        ),
        r is Vehicle ==> r->Vehicle_0.wf(),
{
    if entity_type.is_person() {
        EntityData::Person(crate::person::PersonData::new(entity_type))
    } else if entity_type.is_vehicle() {
        EntityData::Vehicle(crate::vehicle::VehicleData::new())
    } else {
        EntityData::Null
    }
}

/// An entity: its shared base record, its transient collision body,
/// and its behavior variant.
#[derive(Debug, Clone, PartialEq)]
pub struct Entity {
    pub base: EntityBase,
    pub collision: Option<PhysicalObject>,
    pub data: EntityData,
}

impl Entity {
    /// The base is well-formed, the collision body (if any) is too,
    /// and the behavior state is within its ranges.
    pub open spec fn wf(self) -> bool {
        &&& self.base.wf()
        &&& match self.collision {
            Some(c) => c.wf(),
            None => true,
        }
        &&& match self.data {
            EntityData::Vehicle(v) => v.wf(),
            EntityData::Person(crate::person::PersonData::Sidewalk(s)) => {
                &&& crate::types::vec_in_range(s.walking_direction, 100_000_000)
                &&& -TAU <= s.walking_angle <= TAU
            },
            _ => true,
        }
    }

    /// A fresh entity of the class at `class` in the catalog, with its
    /// behavior data created and initialized.
    pub fn new(id: EntityId, class: ClassId, classes: &Vec<EntityClass>) -> (r: Entity)
        requires
            0 <= class < classes@.len(),
            forall|i: int| 0 <= i < classes@.len() ==> (#[trigger] classes@[i]).wf(),
        ensures
            r.wf(),
            r.base.id == id,
            r.base.class == class,
            r.base.entity_type == spec_get_entitytype(
                classes@[class as int].entity_type as int,
            ),
            r.collision.is_none(),
            spec_get_entitytype(classes@[class as int].entity_type as int).code() <= 7
                ==> r.data is Person,
            (8 <= spec_get_entitytype(classes@[class as int].entity_type as int).code() <= 12
                || spec_get_entitytype(classes@[class as int].entity_type as int).code() == 20)
                ==> r.data is Vehicle,
    {
        let entity_type = get_entitytype(classes[class as usize].entity_type);
        let base = EntityBase::new(id, class, entity_type);
        let data = create_entity_data(base.entity_type);
        let mut entity = Entity { base, collision: None, data };
        entity.init_data();
        entity
    }

    /// Runs the behavior-specific part of initialization: palettes,
    /// genders, and initial visibility.
    fn init_data(&mut self)
        requires
            old(self).wf(),
        ensures
            final(self).wf(),
            final(self).base.id == old(self).base.id,
            final(self).base.class == old(self).base.class,
            final(self).base.entity_type == old(self).base.entity_type,
            final(self).base.pos == old(self).base.pos,
            final(self).collision == old(self).collision,
            final(self).data == old(self).data,
    {
        let entity_type = self.base.entity_type;
        match &mut self.data {
            EntityData::Person(_) => {
                self.base.palette = crate::person::get_palette_id(entity_type);
                if entity_type == EntityType::Player {
                    self.base.hidden = false;
                }
            },
            EntityData::Vehicle(vehicle) => {
                if entity_type == EntityType::Type8 || entity_type == EntityType::MovingVehicle {
                    vehicle.init_simple_vehicle(&mut self.base);
                }
                if entity_type == EntityType::MovingVehicle {
                    self.base.hidden = true;
                }
            },
            EntityData::Null => {},
        }
    }

    /// Resets the entity to a fresh record of the same id and class.
    pub fn init(&mut self, classes: &Vec<EntityClass>)
        requires
            old(self).wf(),
            0 <= old(self).base.class < classes@.len(),
            forall|i: int| 0 <= i < classes@.len() ==> (#[trigger] classes@[i]).wf(),
        ensures
            final(self).wf(),
            final(self).base.id == old(self).base.id,
            final(self).base.class == old(self).base.class,
            final(self).base.entity_type == spec_get_entitytype(
                classes@[old(self).base.class as int].entity_type as int,
            ),
            spec_get_entitytype(classes@[old(self).base.class as int].entity_type as int).code()
                <= 7 ==> final(self).data is Person,
            (8 <= spec_get_entitytype(
                classes@[old(self).base.class as int].entity_type as int,
            ).code() <= 12 || spec_get_entitytype(
                classes@[old(self).base.class as int].entity_type as int,
            ).code() == 20) ==> final(self).data is Vehicle,
    {
        let fresh = Entity::new(self.base.id, self.base.class, classes);
        self.base = fresh.base;
        self.data = fresh.data;
    }

    /// The entity's collision footprint, from its behavior variant:
    /// the player is a circle of its class width, vehicles are
    /// rectangles of their class extents.
    pub fn get_collision_info(&self, classes: &Vec<EntityClass>) -> (r: Option<ShapeInfo>)
        requires
            self.wf(),
            0 <= self.base.class < classes@.len(),
            forall|i: int| 0 <= i < classes@.len() ==> (#[trigger] classes@[i]).wf(),
        ensures
            r matches Some(i) ==> i.wf(),
            self.data is Person && self.base.entity_type == EntityType::Player ==> r == Some(
                ShapeInfo {
                    shape: Shape::Circle(classes@[self.base.class as int].width),
                    weight: classes@[self.base.class as int].weight,
                },
            ),
            self.data is Person && self.base.entity_type != EntityType::Player ==> r.is_none(),
            self.data is Null ==> r.is_none(),
    {
        let class = &classes[self.base.class as usize];
        match &self.data {
            EntityData::Person(_) => {
                if self.base.entity_type == EntityType::Player {
                    Some(ShapeInfo { shape: Shape::Circle(class.width), weight: class.weight })
                } else {
                    None
                }
            },
            EntityData::Vehicle(vehicle) => vehicle.get_collision_info(&self.base, class),
            EntityData::Null => None,
        }
    }

    /// Builds the transient collision body once the base is placed.
    pub fn after_init(&mut self, classes: &Vec<EntityClass>)
        requires
            old(self).wf(),
            0 <= old(self).base.class < classes@.len(),
            forall|i: int| 0 <= i < classes@.len() ==> (#[trigger] classes@[i]).wf(),
        ensures
            final(self).wf(),
            final(self).base == old(self).base,
            final(self).data == old(self).data,
    {
        let info = self.get_collision_info(classes);
        match info {
            Some(info) => {
                let mut body = PhysicalObject::new_from_info(info);
                body.update_pose(self.base.pos, self.base.angle);
                self.collision = Some(body);
            },
            None => {},
        }
    }

    /// An entity takes part in collision while visible and shaped.
    pub fn is_physical(&self) -> (r: bool)
        ensures
            r == (self.collision.is_some() && !self.base.hidden),
    {
        self.collision.is_some() && !self.base.hidden
    }

    /// Moves the entity, refreshing draw order and the collision
    /// body's pose.
    pub fn set_pos(&mut self, pos: Vec3fx)
        requires
            old(self).wf(),
            crate::types::vec_in_range(pos, WORLD_MAX as int),
        ensures
            final(self).wf(),
            final(self).base == (EntityBase {
                pos,
                sort_order: final(self).base.sort_order,
                ..old(self).base
            }),
            final(self).base.sort_order == if old(self).base.can_update_sort {
                tdiv(pos.y as int, 1000)
            } else {
                old(self).base.sort_order as int
            },
            final(self).data == old(self).data,
            final(self).collision.is_some() == old(self).collision.is_some(),
            final(self).collision matches Some(c) ==> c.pos == pos && c.angle == old(self).base.angle && c.shape == old(self).collision->Some_0.shape && c.weight == old(self).collision->Some_0.weight,
    {
        self.base.pos = pos;
        self.base.update_pos();
        match &mut self.collision {
            Some(collision) => {
                collision.update_pose(pos, self.base.angle);
            },
            None => {},
        }
    }

    /// One behavior tick: a hidden entity is left alone; otherwise the
    /// stance timer accumulates the delta (saturating far below
    /// overflow) and the behavior variant steps the base record, after
    /// which the collision body adopts the new pose.
    #[verifier::rlimit(100)]
    pub fn step(&mut self, class: &EntityClass, level: &Level,
        others: &Vec<crate::vehicle::EntityView>, trafficlight: crate::vehicle::TrafficLight,
        delta: Time)
        requires
            old(self).wf(),
            class.wf(),
            level.wf(),
            delta <= DELTA_MAX,
            forall|i: int| 0 <= i < others@.len() ==> (#[trigger] others@[i]).wf(),
        ensures
            final(self).wf(),
            final(self).base.id == old(self).base.id,
            final(self).base.class == old(self).base.class,
            final(self).base.entity_type == old(self).base.entity_type,
            final(self).base.hidden == old(self).base.hidden,
            old(self).base.hidden ==> *final(self) == *old(self),
            final(self).collision.is_some() == old(self).collision.is_some(),
            !old(self).base.hidden ==> (final(self).collision matches Some(c) ==> c.pos
                == final(self).base.pos && c.angle == final(self).base.angle),
            old(self).collision is None ==> final(self).collision is None,
            // the stance timer drives aiming back to standing after a
            // second of accumulated time (for the variants that do not
            // immediately pick a new stance themselves)
            ({
                let millis = old(self).base.stance_millis + delta;
                &&& (!old(self).base.hidden && old(self).base.stance == EntityStance::Aiming
                    && old(self).base.stance_millis <= 1_000_000 && (old(self).data matches EntityData::Person(crate::person::PersonData::Base) || old(self).data matches EntityData::Person(crate::person::PersonData::Player(_))))
                    ==> {
                    &&& millis >= 1000 ==> final(self).base.stance == EntityStance::Standing
                        && final(self).base.stance_millis == 0
                    &&& millis < 1000 ==> final(self).base.stance == EntityStance::Aiming
                        && final(self).base.stance_millis == millis
                }
            }),
            // a stepped vehicle snapshots its transform for rollback
            !old(self).base.hidden && old(self).data is Vehicle ==> final(self).base.prev_pos
                == old(self).base.pos && final(self).base.prev_angle == old(self).base.angle,
            // a stepped vehicle follows the drive plan exactly
            !old(self).base.hidden ==> (old(self).data matches EntityData::Vehicle(v0) ==> ({
                let bumped = EntityBase {
                    stance_millis: if old(self).base.stance_millis < STANCE_MILLIS_MAX
                        - DELTA_MAX {
                        (old(self).base.stance_millis + delta) as Time
                    } else {
                        old(self).base.stance_millis
                    },
                    ..old(self).base
                };
                let plan = crate::vehicle::spec_drive_plan(
                    *level,
                    others@,
                    bumped,
                    class.width as int,
                    class.height as int,
                    trafficlight,
                    v0.last_tiledata as int,
                    delta as int,
                );
                let mid = if bumped.stance == EntityStance::Running {
                    crate::vehicle::spec_clamped_nudge(*level, bumped.pos, delta as int)
                } else {
                    bumped.pos
                };
                let sp = crate::vehicle::spec_accelerated(
                    bumped.speed as int,
                    plan.0,
                    delta as int,
                );
                &&& (final(self).data matches EntityData::Vehicle(v1) && v1.last_tiledata as int
                    == plan.2 && v1.wanted_speed == plan.0)
                &&& final(self).base.angle == plan.1
                &&& final(self).base.speed == sp
                &&& final(self).base.pos == if sp == 0 {
                    mid
                } else {
                    spec_strafe(mid, plan.1, sp, 0, delta as int)
                }
            })),
            // a stepped sidewalk walker rolls an illegal move back
            // exactly and advances a legal one along its heading
            !old(self).base.hidden ==> (old(self).data matches EntityData::Person(
                crate::person::PersonData::Sidewalk(sd0),
            ) ==> ({
                let bumped = EntityBase {
                    stance_millis: if old(self).base.stance_millis < STANCE_MILLIS_MAX
                        - DELTA_MAX {
                        (old(self).base.stance_millis + delta) as Time
                    } else {
                        old(self).base.stance_millis
                    },
                    ..old(self).base
                };
                &&& (bumped.stance == EntityStance::Walking && bumped.route.route.is_none()
                    && !crate::level::spec_pos_is_sidewalk(
                    *level,
                    crate::person::walk_target(bumped, sd0, delta as int),
                )) ==> {
                    &&& final(self).base.pos.x == final(self).base.prev_pos.x
                    &&& final(self).base.pos.y == final(self).base.prev_pos.y
                    &&& final(self).base.prev_pos == bumped.pos
                    &&& final(self).base.angle == final(self).base.prev_angle
                    &&& final(self).base.prev_angle == bumped.angle
                    &&& final(self).base.stance == EntityStance::Standing
                    &&& final(self).base.stance_millis == 0
                }
                &&& (bumped.stance == EntityStance::Walking && bumped.route.route.is_none()
                    && crate::level::spec_pos_is_sidewalk(
                    *level,
                    crate::person::walk_target(bumped, sd0, delta as int),
                )) ==> {
                    &&& final(self).base.stance == EntityStance::Walking
                    &&& final(self).base.angle == sd0.walking_angle
                    &&& final(self).base.pos == crate::person::walked_pos(
                        bumped,
                        sd0,
                        delta as int,
                    )
                    &&& final(self).base.prev_pos == bumped.pos
                    &&& final(self).base.prev_angle == bumped.angle
                }
            })),
    {
        if self.base.hidden {
            return;
        }
        if self.base.stance_millis < STANCE_MILLIS_MAX - DELTA_MAX {
            self.base.stance_millis = self.base.stance_millis + delta;
        }
        match &mut self.data {
            EntityData::Null => {},
            EntityData::Person(person) => {
                match person {
                    crate::person::PersonData::Base => {
                        crate::person::step_base_person(&mut self.base, delta);
                    },
                    crate::person::PersonData::Sidewalk(sidewalk) => {
                        sidewalk.step(&mut self.base, class, level, delta);
                    },
                    crate::person::PersonData::Player(_) => {
                        crate::person::step_base_person(&mut self.base, delta);
                    },
                }
            },
            EntityData::Vehicle(vehicle) => {
                vehicle.step_drive_along_road(
                    &mut self.base,
                    class,
                    level,
                    others,
                    trafficlight,
                    delta,
                );
            },
        }
        let pos = self.base.pos;
        let angle = self.base.angle;
        match &mut self.collision {
            Some(collision) => {
                collision.update_pose(pos, angle);
            },
            None => {},
        }
    }

    /// Tries to (re)activate the entity at `pos`: the record is reset,
    /// the behavior decides whether the point works (a sidewalk tile
    /// for pedestrians, a clear road slot for vehicles) and where the
    /// entity finally stands; on success the entity is placed there
    /// with a fresh collision body.
    pub fn spawn(&mut self, pos: Vec3fx, classes: &Vec<EntityClass>, level: &Level,
        others: &Vec<crate::vehicle::EntityView>, trafficlight: crate::vehicle::TrafficLight,
        entity_spawn_counter: usize) -> (r: Option<Vec3fx>)
        requires
            old(self).wf(),
            level.wf(),
            0 <= old(self).base.class < classes@.len(),
            forall|i: int| 0 <= i < classes@.len() ==> (#[trigger] classes@[i]).wf(),
            crate::types::vec_in_range(pos, 1_000_000_000),
            forall|i: int| 0 <= i < others@.len() ==> (#[trigger] others@[i]).wf(),
        ensures
            final(self).wf(),
            final(self).base.id == old(self).base.id,
            final(self).base.class == old(self).base.class,
            r matches Some(p) ==> final(self).base.pos == p && crate::types::vec_in_range(
                p,
                1_000_000_000,
            ),
            // person placements succeed exactly on sidewalk tiles, and
            // keep the offered point
            spec_get_entitytype(classes@[old(self).base.class as int].entity_type as int).code()
                <= 7 ==> r == if crate::level::spec_pos_is_sidewalk(*level, pos) {
                Some(pos)
            } else {
                None::<Vec3fx>
            },
            // a placed vehicle is visible and running at the accepted
            // road point
            (8 <= spec_get_entitytype(
                classes@[old(self).base.class as int].entity_type as int,
            ).code() <= 12 || spec_get_entitytype(
                classes@[old(self).base.class as int].entity_type as int,
            ).code() == 20) ==> (r matches Some(p) ==> !final(self).base.hidden && final(self).base.stance == EntityStance::Running && final(self).base.pos == p),
    {
        self.init(classes);
        let class = &classes[self.base.class as usize];
        let spawned: Option<Vec3fx> = match &mut self.data {
            EntityData::Person(_) => {
                if crate::level::pos_is_sidewalk(level, pos) {
                    Some(pos)
                } else {
                    None
                }
            },
            EntityData::Vehicle(vehicle) => {
                let got = vehicle.spawn(
                    &mut self.base,
                    class,
                    level,
                    others,
                    trafficlight,
                    entity_spawn_counter,
                    pos,
                );
                got
            },
            EntityData::Null => None,
        };
        match spawned {
            Some(p) => {
                self.set_pos(p);
                self.after_init(classes);
                Some(p)
            },
            None => None,
        }
    }

    /// Hides or relocates the entity when it leaves the view:
    /// pedestrians that came out of a vehicle merely hide (and report
    /// an unfinished despawn); everything else reports done.
    pub fn despawn(&mut self) -> (r: bool)
        ensures
            final(self).data == old(self).data,
            final(self).collision == old(self).collision,
            old(self).data is Person && old(self).base.entity_type
                == EntityType::VehiclePedestrian ==> !r && final(self).base == (EntityBase {
                hidden: true,
                ..old(self).base
            }),
            !(old(self).data is Person && old(self).base.entity_type
                == EntityType::VehiclePedestrian) ==> r && *final(self) == *old(self),
    {
        match &self.data {
            EntityData::Person(_) => {
                if self.base.entity_type == EntityType::VehiclePedestrian {
                    self.base.hidden = true;
                    false
                } else {
                    true
                }
            },
            _ => true,
        }
    }
}

/// Position after a strafe step from `pos` at `speed` along
/// `heading_base + off`, clamped onto the world.
#[verifier::opaque]
pub open spec fn spec_strafe(pos: Vec3fx, heading_base: int, speed: int, off: int,
    delta: int) -> Vec3fx {
    let heading = heading_base + off;
    Vec3fx {
        x: crate::collision::spec_clamp(
            pos.x + EntityBase::spec_move_x(speed, delta, heading),
            -WORLD_MAX as int,
            WORLD_MAX as int,
        ) as Fixed,
        y: crate::collision::spec_clamp(
            pos.y + EntityBase::spec_move_y(speed, delta, heading),
            -WORLD_MAX as int,
            WORLD_MAX as int,
        ) as Fixed,
        z: pos.z,
    }
}

/// Clamp a coordinate onto the world range.
pub fn clamp_world(v: Fixed) -> (r: Fixed)
    requires
        -0x7000_0000_0000_0000 < v < 0x7000_0000_0000_0000,
    ensures
        r == crate::collision::spec_clamp(v as int, -WORLD_MAX as int, WORLD_MAX as int),
{
    if v < -WORLD_MAX {
        -WORLD_MAX
    } else if v > WORLD_MAX {
        WORLD_MAX
    } else {
        v
    }
}

} // verus!
