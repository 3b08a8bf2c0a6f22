//! The simulation loop: the game screen owns the level and the entity
//! arena and drives the per-tick order — input, traffic-light phase,
//! one despawn/respawn slot, every entity's behavior step, then
//! pairwise collision resolution in ascending index order.
use vstd::prelude::*;
use crate::types::{
    ClassId, EntityId, Fixed, IScalar, LevelId, Time, Vec3, Vec3fx, Vec3i,
};
use crate::util::{tdiv, spec_abs};
use crate::level::{Level, TILESIZE_FX};
use crate::entity::{clamp_world, Entity, EntityBase, EntityClass, EntityStance, EntityType,
    DELTA_MAX};
use crate::vehicle::{EntityView, TrafficLight, VehicleState};
use crate::collision::{
    spec_clamp, spec_response, split_weighted, PhysicalObject, Shape, ShapeInfo, WORLD_MAX,
};
use crate::util::spec_isqrt;
use crate::controller::ModernPlayerControls;
use crate::input::InputState;

verus! {

/// A screen of the game: something the outer loop initializes, steps
/// and resizes. Drawing happens outside this crate against the
/// screen's public state.
pub trait Screen {
    fn init(&mut self) {
    }

    fn step(&mut self, _delta: Time) {
    }

    fn set_size(&mut self, _size: Vec3i) {
    }
}

/// The camera rectangle driving despawn decisions and drawing.
#[derive(Debug, Clone, Copy, PartialEq, Eq, Structural)]
pub struct Camera {
    pub pos: Vec3i,
    pub size: Vec3i,
    pub shake: Vec3i,
}

impl Camera {
    pub open spec fn wf(self) -> bool {
        &&& -1_000_000_000 <= self.pos.x <= 1_000_000_000
        &&& -1_000_000_000 <= self.pos.y <= 1_000_000_000
        &&& 0 <= self.size.x <= 1_000_000_000
        &&& 0 <= self.size.y <= 1_000_000_000
    }

    pub fn middle(&self) -> (r: Vec3i)
        requires
            self.wf(),
        ensures
            r.x == self.pos.x + self.size.x / 2,
            r.y == self.pos.y + self.size.y / 2,
    {
        Vec3 { x: self.pos.x + self.size.x / 2, y: self.pos.y + self.size.y / 2, z: 0 }
    }

    /// Whether a point (in world units) lies outside the camera
    /// rectangle.
    pub open spec fn spec_out_of_screen(self, p: Vec3i) -> bool {
        p.x < self.pos.x || p.x >= self.pos.x + self.size.x || p.y < self.pos.y || p.y
            >= self.pos.y + self.size.y
    }

    pub fn out_of_screen(&self, p: Vec3i) -> (r: bool)
        requires
            self.wf(),
        ensures
            r == self.spec_out_of_screen(p),
    {
        p.x < self.pos.x || p.x >= self.pos.x + self.size.x || p.y < self.pos.y || p.y
            >= self.pos.y + self.size.y
    }
}

/// An entity takes part in collision while visible and shaped.
pub open spec fn spec_is_physical(e: Entity) -> bool {
    e.collision is Some && !e.base.hidden
}

/// The entity after a displacement by `d`: the position moves (clamped
/// onto the world), the draw order follows the new y, and the attached
/// collision body adopts the new pose; nothing else changes.
pub open spec fn spec_displaced(e: Entity, d: Vec3fx) -> Entity {
    let np = Vec3fx {
        x: spec_clamp(e.base.pos.x + d.x, -WORLD_MAX as int, WORLD_MAX as int) as Fixed,
        y: spec_clamp(e.base.pos.y + d.y, -WORLD_MAX as int, WORLD_MAX as int) as Fixed,
        z: e.base.pos.z,
    };
    Entity {
        base: EntityBase {
            pos: np,
            sort_order: if e.base.can_update_sort {
                crate::util::tdiv(np.y as int, 1000) as IScalar
            } else {
                e.base.sort_order
            },
            ..e.base
        },
        collision: match e.collision {
            Some(c) => Some(PhysicalObject { pos: np, angle: e.base.angle, ..c }),
            None => None,
        },
        data: e.data,
    }
}

/// The first body's displacement share of a response component.
pub open spec fn spec_share1(r: int, w1: int, w2: int) -> int {
    if w1 + w2 > 0 {
        crate::util::tdiv(r * w2, w1 + w2)
    } else {
        0
    }
}

/// Resolving one overlapping pair: the first entity moves against the
/// response by its weighted share, the second along it by the rest.
pub open spec fn spec_apply_pair(s: Seq<Entity>, i: int, j: int, cr: CollisionResponse) -> Seq<
    Entity,
> {
    let s1x = spec_share1(cr.response.x as int, cr.w1 as int, cr.w2 as int);
    let s1y = spec_share1(cr.response.y as int, cr.w1 as int, cr.w2 as int);
    let s2x: int = if cr.w1 + cr.w2 > 0 {
        cr.response.x - s1x
    } else {
        0
    };
    let s2y: int = if cr.w1 + cr.w2 > 0 {
        cr.response.y - s1y
    } else {
        0
    };
    let s1 = s.update(
        i,
        spec_displaced(s[i], Vec3fx { x: (-s1x) as Fixed, y: (-s1y) as Fixed, z: 0 }),
    );
    s1.update(j, spec_displaced(s1[j], Vec3fx { x: s2x as Fixed, y: s2y as Fixed, z: 0 }))
}

/// The response the resolution step takes between entities `i` and `j`
/// of `s`: present when `j` is physical and the bodies penetrate.
pub open spec fn spec_pair_response(s: Seq<Entity>, i: int, j: int) -> Option<CollisionResponse> {
    if spec_is_physical(s[j]) {
        match spec_response(s[i].collision->Some_0, s[j].collision->Some_0) {
            Some(v) => Some(
                CollisionResponse {
                    response: v,
                    w1: s[i].collision->Some_0.weight,
                    w2: s[j].collision->Some_0.weight,
                },
            ),
            None => None,
        }
    } else {
        None
    }
}

/// Marker wrapping a quantified slot index, so that slot facts are
/// instantiated only where a witness is produced.
pub open spec fn slot_witness(sidx: int) -> bool {
    true
}

/// At most one entity differs between two arenas of equal size.
pub open spec fn changed_at_most_one(a: Seq<Entity>, b: Seq<Entity>) -> bool {
    &&& a.len() == b.len()
    &&& (a == b || exists|sidx: int|
        #![trigger slot_witness(sidx)]
        slot_witness(sidx) && forall|j: int|
            0 <= j < a.len() && j != sidx ==> b[j] == #[trigger] a[j])
}

/// What one behavior tick may do to one entity slot: well-formedness
/// and identity are kept, and a hidden entity is left alone.
pub open spec fn entity_stepped_rel(pre: Entity, post: Entity) -> bool {
    &&& post.wf()
    &&& post.base.id == pre.base.id
    &&& post.base.class == pre.base.class
    &&& post.base.entity_type == pre.base.entity_type
    &&& (pre.base.hidden ==> post == pre)
}

/// Collision resolution only moves entities: afterwards every entity
/// differs from its pre-resolution self at most in its position, its
/// draw order and its collision body's pose.
pub open spec fn only_displaced(pre: Seq<Entity>, post: Seq<Entity>) -> bool {
    &&& post.len() == pre.len()
    &&& forall|i: int|
        0 <= i < pre.len() ==> {
            &&& (#[trigger] post[i]).base == (crate::entity::EntityBase {
                pos: post[i].base.pos,
                sort_order: post[i].base.sort_order,
                ..pre[i].base
            })
            &&& post[i].data == pre[i].data
            &&& post[i].collision.is_some() == pre[i].collision.is_some()
        }
}

/// `only_displaced` composes across successive resolution steps.
pub proof fn lemma_only_displaced_trans(a: Seq<Entity>, b: Seq<Entity>, c: Seq<Entity>)
    requires
        only_displaced(a, b),
        only_displaced(b, c),
    ensures
        only_displaced(a, c),
{
    assert forall|i: int| 0 <= i < a.len() implies {
        &&& (#[trigger] c[i]).base == (crate::entity::EntityBase {
            pos: c[i].base.pos,
            sort_order: c[i].base.sort_order,
            ..a[i].base
        })
        &&& c[i].data == a[i].data
        &&& c[i].collision.is_some() == a[i].collision.is_some()
    } by {
        assert(b[i].base == (crate::entity::EntityBase {
            pos: b[i].base.pos,
            sort_order: b[i].base.sort_order,
            ..a[i].base
        }));
        assert(c[i].base == (crate::entity::EntityBase {
            pos: c[i].base.pos,
            sort_order: c[i].base.sort_order,
            ..b[i].base
        }));
    }
}

/// A response vector between two entities with their weights, as the
/// resolution step consumes it.
#[derive(Debug, Clone, Copy, PartialEq, Eq, Structural)]
pub struct CollisionResponse {
    pub response: Vec3fx,
    pub w1: i64,
    pub w2: i64,
}

/// The simulation screen: level data, the entity arena, the camera,
/// the traffic-light state and the despawn rotation counter.
pub struct GameScreen {
    pub level: Level,
    pub levelid: LevelId,
    pub playercontroller: ModernPlayerControls,
    pub entities: Vec<Entity>,
    pub entity_ids: Vec<EntityId>,
    pub main_camera_pos: Vec3fx,
    pub camera: Camera,
    pub scale: Fixed,
    pub vehicle_state: VehicleState,
    pub entity_spawn_counter: usize,
    pub classes: Vec<EntityClass>,
    pub time: Time,
}

impl GameScreen {
    /// The arena is consistent: every entity is well-formed, sits at
    /// its own index, and refers to a valid class; the level's tile
    /// geometry stays within the world.
    pub open spec fn wf(self) -> bool {
        &&& self.level.wf()
        &&& 1000 <= self.level.tilesize.x <= 100_000
        &&& 1000 <= self.level.tilesize.y <= 100_000
        &&& self.level.tiledata_size.x * self.level.tilesize.x <= 1_000_000_000
        &&& self.level.tiledata_size.y * self.level.tilesize.y <= 1_000_000_000
        &&& self.entities@.len() <= 100_000
        &&& forall|i: int|
            0 <= i < self.entities@.len() ==> {
                &&& (#[trigger] self.entities@[i]).wf()
                &&& self.entities@[i].base.id == i
                &&& 0 <= self.entities@[i].base.class < self.classes@.len()
            }
        &&& forall|i: int| 0 <= i < self.classes@.len() ==> (#[trigger] self.classes@[i]).wf()
        &&& self.camera.wf()
        &&& 100 <= self.scale <= 1_000_000
        &&& crate::types::vec_in_range(self.main_camera_pos, 1_000_000_000)
        &&& self.time <= 0x1000_0000_0000_0000
    }

    /// A fresh screen over a loaded level and class catalog.
    pub fn new(levelid: LevelId, level: Level, classes: Vec<EntityClass>) -> (r: GameScreen)
        requires
            level.wf(),
            1000 <= level.tilesize.x <= 100_000,
            1000 <= level.tilesize.y <= 100_000,
            level.tiledata_size.x * level.tilesize.x <= 1_000_000_000,
            level.tiledata_size.y * level.tilesize.y <= 1_000_000_000,
            forall|i: int| 0 <= i < classes@.len() ==> (#[trigger] classes@[i]).wf(),
        ensures
            r.wf(),
            r.entities@.len() == 0,
            r.levelid == levelid,
            r.time == 1,
            r.vehicle_state.trafficlight == TrafficLight::HGreen,
            r.entity_spawn_counter == 0,
    {
        GameScreen {
            level,
            levelid,
            playercontroller: ModernPlayerControls::new(),
            entities: Vec::new(),
            entity_ids: Vec::new(),
            main_camera_pos: Vec3 { x: 0, y: 0, z: 0 },
            camera: Camera {
                pos: Vec3 { x: 0, y: 0, z: 0 },
                size: Vec3 { x: 240, y: 320, z: 0 },
                shake: Vec3 { x: 0, y: 0, z: 0 },
            },
            scale: 1000,
            vehicle_state: VehicleState::new(),
            entity_spawn_counter: 0,
            classes,
            time: 1,
        }
    }

    /// Fills the arena from the level's static entity placements.
    pub fn load_entities(&mut self)
        requires
            old(self).wf(),
            old(self).entities@.len() == 0,
            old(self).level.entities@.len() <= 100_000,
            forall|i: int|
                0 <= i < old(self).level.entities@.len() ==> {
                    &&& 0 <= (#[trigger] old(self).level.entities@[i]).class < old(self).classes@.len()
                    &&& -32_767 <= old(self).level.entities@[i].pos.x <= 32_767
                    &&& -32_767 <= old(self).level.entities@[i].pos.y <= 32_767
                },
        ensures
            final(self).wf(),
            final(self).entities@.len() == old(self).level.entities@.len(),
    {
        let n = self.level.entities.len();
        let mut id: usize = 0;
        while id < n
            invariant
                self.wf(),
                id == self.entities@.len() <= n == self.level.entities@.len() <= 100_000,
                self.level == old(self).level,
                self.classes == old(self).classes,
                self.camera == old(self).camera,
                self.scale == old(self).scale,
                self.main_camera_pos == old(self).main_camera_pos,
                self.time == old(self).time,
                forall|i: int|
                    0 <= i < n ==> {
                        &&& 0 <= (#[trigger] self.level.entities@[i]).class
                            < self.classes@.len()
                        &&& -32_767 <= self.level.entities@[i].pos.x <= 32_767
                        &&& -32_767 <= self.level.entities@[i].pos.y <= 32_767
                    },
            decreases n - id,
        {
            let level_entity = self.level.entities[id];
            let mut entity = Entity::new(id as EntityId, level_entity.class, &self.classes);
            let pos = Vec3 {
                x: (level_entity.pos.x as Fixed) * 1000,
                y: (level_entity.pos.y as Fixed) * 1000,
                z: 0,
            };
            entity.set_pos(pos);
            if level_entity.route != -1 {
                entity.base.route.routeid = Some(level_entity.route);
            }
            self.entities.push(entity);
            id = id + 1;
        }
    }

    /// Builds the transient collision bodies once all entities stand
    /// at their initial positions.
    pub fn after_init(&mut self)
        requires
            old(self).wf(),
        ensures
            final(self).wf(),
            final(self).entities@.len() == old(self).entities@.len(),
    {
        let n = self.entities.len();
        let mut i: usize = 0;
        while i < n
            invariant
                self.wf(),
                n == self.entities@.len(),
                self.classes == old(self).classes,
                self.level == old(self).level,
            decreases n - i,
        {
            let ghost pre = *self;
            let classes = &self.classes;
            let entity = &mut self.entities[i];
            proof {
                assert(pre.entities@[i as int].wf());
            }
            entity.after_init(classes);
            proof {
                assert forall|j: int| 0 <= j < n implies {
                    &&& (#[trigger] self.entities@[j]).wf()
                    &&& self.entities@[j].base.id == j
                    &&& 0 <= self.entities@[j].base.class < self.classes@.len()
                } by {
                    if j != i {
                        assert(self.entities@[j] == pre.entities@[j]);
                    }
                }
            }
            i = i + 1;
        }
    }

    /// The per-entity snapshots the vehicle clearance scan reads.
    pub fn entity_views(&self) -> (r: Vec<EntityView>)
        requires
            self.wf(),
        ensures
            r@.len() == self.entities@.len(),
            forall|i: int| 0 <= i < r@.len() ==> (#[trigger] r@[i]).wf(),
    {
        let n = self.entities.len();
        let mut views: Vec<EntityView> = Vec::new();
        let mut i: usize = 0;
        while i < n
            invariant
                self.wf(),
                i == views@.len(),
                i <= n == self.entities@.len(),
                forall|j: int| 0 <= j < i ==> (#[trigger] views@[j]).wf(),
            decreases n - i,
        {
            let e = &self.entities[i];
            let width = self.classes[e.base.class as usize].width;
            views.push(
                EntityView {
                    id: e.base.id,
                    entity_type: e.base.entity_type,
                    pos: e.base.pos,
                    width,
                    hidden: e.base.hidden,
                },
            );
            i = i + 1;
        }
        views
    }

    /// The overlap response between two entities, when both carry a
    /// collision body and penetrate: the contact vector together with
    /// the two class weights.
    pub fn get_entity_response(entity1: &Entity, entity2: &Entity) -> (r: Option<
        CollisionResponse,
    >)
        requires
            entity1.wf(),
            entity2.wf(),
        ensures
            r matches Some(cr) ==> {
                &&& entity1.collision is Some
                &&& entity2.collision is Some
                &&& Some(cr.response) == crate::collision::spec_response(
                    entity1.collision->Some_0,
                    entity2.collision->Some_0,
                )
                &&& cr.w1 == entity1.collision->Some_0.weight
                &&& cr.w2 == entity2.collision->Some_0.weight
                &&& crate::types::vec_in_range(cr.response, 800_000_000)
                &&& 0 <= cr.w1 <= crate::collision::WEIGHT_MAX
                &&& 0 <= cr.w2 <= crate::collision::WEIGHT_MAX
            },
            r.is_none() ==> (entity1.collision is Some && entity2.collision is Some
                ==> crate::collision::spec_response(
                entity1.collision->Some_0,
                entity2.collision->Some_0,
            ).is_none()),
    {
        match (&entity1.collision, &entity2.collision) {
            (Some(collision1), Some(collision2)) => {
                let response = collision1.get_response_vector(collision2);
                match response {
                    Some(response) => Some(
                        CollisionResponse {
                            response,
                            w1: collision1.weight,
                            w2: collision2.weight,
                        },
                    ),
                    None => None,
                }
            },
            _ => None,
        }
    }

    /// Displaces one entity by a vector, clamping onto the world.
    #[verifier::rlimit(60)]
    fn displace_entity(&mut self, idx: usize, d: Vec3fx)
        requires
            old(self).wf(),
            idx < old(self).entities@.len(),
            crate::types::vec_in_range(d, 1_700_000_000),
            d.z == 0,
        ensures
            final(self).wf(),
            final(self).entities@.len() == old(self).entities@.len(),
            final(self).level == old(self).level,
            final(self).classes == old(self).classes,
            forall|j: int|
                0 <= j < old(self).entities@.len() && j != idx ==> final(self).entities@[j]
                    == #[trigger] old(self).entities@[j],
            final(self).entities@[idx as int].base.pos == (Vec3fx {
                x: crate::collision::spec_clamp(
                    old(self).entities@[idx as int].base.pos.x + d.x,
                    -WORLD_MAX as int,
                    WORLD_MAX as int,
                ) as Fixed,
                y: crate::collision::spec_clamp(
                    old(self).entities@[idx as int].base.pos.y + d.y,
                    -WORLD_MAX as int,
                    WORLD_MAX as int,
                ) as Fixed,
                z: old(self).entities@[idx as int].base.pos.z,
            }),
            final(self).entities@[idx as int].base.stance == old(self).entities@[idx as int].base.stance,
            final(self).entities@[idx as int].data == old(self).entities@[idx as int].data,
            only_displaced(old(self).entities@, final(self).entities@),
            final(self).entities@ == old(self).entities@.update(
                idx as int,
                spec_displaced(old(self).entities@[idx as int], d),
            ),
            final(self).camera == old(self).camera,
            final(self).vehicle_state == old(self).vehicle_state,
            final(self).entity_spawn_counter == old(self).entity_spawn_counter,
            final(self).time == old(self).time,
    {
        let ghost pre = *self;
        let entity = &mut self.entities[idx];
        let np = Vec3 {
            x: clamp_world(entity.base.pos.x + d.x),
            y: clamp_world(entity.base.pos.y + d.y),
            z: entity.base.pos.z,
        };
        entity.set_pos(np);
        proof {
            assert forall|j: int| 0 <= j < pre.entities@.len() implies {
                &&& (#[trigger] self.entities@[j]).wf()
                &&& self.entities@[j].base.id == j
                &&& 0 <= self.entities@[j].base.class < self.classes@.len()
            } by {
                if j != idx {
                    assert(self.entities@[j] == pre.entities@[j]);
                }
            }
        }
    }

    /// Resolves one overlapping pair: the response splits between the
    /// two bodies by relative weight (the heavier moves less), the
    /// first entity moving against the contact direction and the
    /// second along it, the two displacements summing to the whole
    /// response.
    fn handle_collision_pair(&mut self, idx1: usize, idx2: usize, response: CollisionResponse)
        requires
            old(self).wf(),
            idx1 < old(self).entities@.len(),
            idx2 < old(self).entities@.len(),
            idx1 != idx2,
            crate::types::vec_in_range(response.response, 1_000_000_000),
            0 <= response.w1 <= crate::collision::WEIGHT_MAX,
            0 <= response.w2 <= crate::collision::WEIGHT_MAX,
        ensures
            final(self).wf(),
            final(self).entities@.len() == old(self).entities@.len(),
            final(self).level == old(self).level,
            final(self).classes == old(self).classes,
            final(self).camera == old(self).camera,
            final(self).vehicle_state == old(self).vehicle_state,
            final(self).entity_spawn_counter == old(self).entity_spawn_counter,
            final(self).time == old(self).time,
            forall|j: int|
                0 <= j < old(self).entities@.len() && j != idx1 && j != idx2 ==> final(self).entities@[j] == #[trigger] old(self).entities@[j],
            only_displaced(old(self).entities@, final(self).entities@),
            final(self).entities@ == spec_apply_pair(
                old(self).entities@,
                idx1 as int,
                idx2 as int,
                response,
            ),
            ({
                let total = response.w1 + response.w2;
                let s1x: int = if total > 0 {
                    tdiv(response.response.x * response.w2, total)
                } else {
                    0
                };
                let s1y: int = if total > 0 {
                    tdiv(response.response.y * response.w2, total)
                } else {
                    0
                };
                let wm = crate::collision::WORLD_MAX as int;
                let p1 = old(self).entities@[idx1 as int].base.pos;
                let p2 = old(self).entities@[idx2 as int].base.pos;
                &&& final(self).entities@[idx1 as int].base.pos == (Vec3fx {
                    x: crate::collision::spec_clamp(p1.x - s1x, -wm, wm) as Fixed,
                    y: crate::collision::spec_clamp(p1.y - s1y, -wm, wm) as Fixed,
                    z: p1.z,
                })
                &&& ({
                    let s2x: int = if total > 0 {
                        response.response.x - s1x
                    } else {
                        0
                    };
                    let s2y: int = if total > 0 {
                        response.response.y - s1y
                    } else {
                        0
                    };
                    final(self).entities@[idx2 as int].base.pos == (Vec3fx {
                        x: crate::collision::spec_clamp(p2.x + s2x, -wm, wm) as Fixed,
                        y: crate::collision::spec_clamp(p2.y + s2y, -wm, wm) as Fixed,
                        z: p2.z,
                    })
                })
            }),
    {
        let (s1x, s2x) = split_weighted(response.response.x, response.w1, response.w2);
        let (s1y, s2y) = split_weighted(response.response.y, response.w1, response.w2);
        let ghost before = self.entities@;
        self.displace_entity(idx1, Vec3 { x: -s1x, y: -s1y, z: 0 });
        let ghost middle = self.entities@;
        self.displace_entity(idx2, Vec3 { x: s2x, y: s2y, z: 0 });
        proof {
            lemma_only_displaced_trans(before, middle, self.entities@);
        }
    }
}

/// Bounding radius of a collision footprint, in milli-units.
pub open spec fn spec_bounding_radius(shape: Shape) -> int {
    match shape {
        Shape::Circle(r) => r as int,
        Shape::Rect(e) => spec_isqrt(e.x * e.x + e.y * e.y) + 1,
    }
}

/// The response of `coll` against the immovable half-tile body of tile
/// `(x, y)`: present when the tile is impassable, its center lies on
/// the world, and the shapes penetrate.
pub open spec fn spec_tile_response(level: Level, coll: PhysicalObject, x: int, y: int) -> Option<
    Vec3fx,
> {
    let t = level.tile_at(x, y);
    let cx = x * (TILESIZE_FX as int) + 12_000;
    let cy = y * (TILESIZE_FX as int) + 12_000;
    if (t == 1 || t == 2 || t == 3 || t == 4) && -1_000_000_000 <= cx <= 1_000_000_000
        && -1_000_000_000 <= cy <= 1_000_000_000 {
        spec_response(
            coll,
            PhysicalObject {
                shape: Shape::Rect(Vec3fx { x: 12_000, y: 12_000, z: 0 }),
                pos: Vec3fx { x: cx as Fixed, y: cy as Fixed, z: 0 },
                angle: 0,
                weight: 1,
            },
        )
    } else {
        None
    }
}

/// One tile's worth of the scan: a responding tile displaces the
/// entity by the full negated response (the 100/0 weight split against
/// the immovable tile).
pub open spec fn spec_tile_step(level: Level, coll: PhysicalObject, e: Entity, x: int,
    y: int) -> (Entity, bool) {
    match spec_tile_response(level, coll, x, y) {
        Some(v) => (
            spec_displaced(
                e,
                Vec3fx { x: (-(v.x as int)) as Fixed, y: (-(v.y as int)) as Fixed, z: 0 },
            ),
            true,
        ),
        None => (e, false),
    }
}

/// The scan of one tile column `y..=ey` at column `x`, top to bottom.
pub open spec fn spec_tile_row(level: Level, coll: PhysicalObject, e: Entity, x: int, y: int,
    ey: int) -> (Entity, bool)
    decreases ey + 1 - y,
{
    if y > ey {
        (e, false)
    } else {
        let step = spec_tile_step(level, coll, e, x, y);
        let rest = spec_tile_row(level, coll, step.0, x, y + 1, ey);
        (rest.0, step.1 || rest.1)
    }
}

/// The scan of the tile rectangle `x..=ex` by `sy..=ey`, column-major
/// in ascending x then y, as the tile pass walks it.
pub open spec fn spec_tile_cols(level: Level, coll: PhysicalObject, e: Entity, x: int, sy: int,
    ex: int, ey: int) -> (Entity, bool)
    decreases ex + 1 - x,
{
    if x > ex {
        (e, false)
    } else {
        let row = spec_tile_row(level, coll, e, x, sy, ey);
        let rest = spec_tile_cols(level, coll, row.0, x + 1, sy, ex, ey);
        (rest.0, row.1 || rest.1)
    }
}

/// The remainder of a scan that stands at column `x`, position `y`
/// within it.
pub open spec fn spec_tile_from(level: Level, coll: PhysicalObject, e: Entity, x: int, y: int,
    sy: int, ex: int, ey: int) -> (Entity, bool) {
    let row = spec_tile_row(level, coll, e, x, y, ey);
    let rest = spec_tile_cols(level, coll, row.0, x + 1, sy, ex, ey);
    (rest.0, row.1 || rest.1)
}

/// One full tile pass of a posed body: the scan over every tile within
/// the body's bounding radius.
pub open spec fn spec_tile_pass(level: Level, coll: PhysicalObject, e: Entity) -> (Entity, bool) {
    let radius = spec_bounding_radius(coll.shape);
    let sx = crate::util::tdiv(coll.pos.x - radius, TILESIZE_FX as int);
    let sy = crate::util::tdiv(coll.pos.y - radius, TILESIZE_FX as int);
    let ex = crate::util::tdiv(coll.pos.x + radius, TILESIZE_FX as int);
    let ey = crate::util::tdiv(coll.pos.y + radius, TILESIZE_FX as int);
    spec_tile_cols(level, coll, e, sx, sy, ex, ey)
}

/// The tunneling guard: poses interpolated along the path from the
/// pre-tick snapshot are tile-checked in order; the first colliding
/// pose ends the pass, and the final pose is checked after all of
/// them.
pub open spec fn spec_tile_guard(level: Level, coll0: PhysicalObject, e: Entity,
    prevpos: Vec3fx, dx: int, dy: int, angle: crate::types::Angle, amount: int, i: int) -> (
    Entity,
    bool,
)
    decreases amount - i,
{
    if i >= amount {
        spec_tile_pass(level, coll0, e)
    } else {
        let px = prevpos.x + crate::util::tdiv(dx * i, amount);
        let py = prevpos.y + crate::util::tdiv(dy * i, amount);
        let posed = PhysicalObject {
            pos: Vec3fx { x: px as Fixed, y: py as Fixed, z: 0 },
            angle,
            ..coll0
        };
        let pass = spec_tile_pass(level, posed, e);
        if pass.1 {
            (pass.0, true)
        } else {
            spec_tile_guard(level, coll0, pass.0, prevpos, dx, dy, angle, amount, i + 1)
        }
    }
}

/// Entity-versus-tile resolution of one entity: nothing for a shapeless
/// entity; otherwise the guard poses (when the tick's movement exceeds
/// a quarter tile) and then the final pose are scanned.
pub open spec fn spec_check_tile(level: Level, e: Entity) -> (Entity, bool) {
    match e.collision {
        None => (e, false),
        Some(coll) => {
            let dx = e.base.pos.x - e.base.prev_pos.x;
            let dy = e.base.pos.y - e.base.prev_pos.y;
            let adx = crate::util::spec_abs(dx);
            let ady = crate::util::spec_abs(dy);
            let maxd: int = if adx > ady {
                adx
            } else {
                ady
            };
            let amount = maxd / 6000;
            if amount > 1 {
                spec_tile_guard(
                    level,
                    coll,
                    e,
                    e.base.prev_pos,
                    dx,
                    dy,
                    e.base.angle,
                    amount,
                    0,
                )
            } else {
                spec_tile_pass(level, coll, e)
            }
        },
    }
}

impl GameScreen {
    /// Builds the immovable half-tile body the tile collision uses.
    fn create_tile_object() -> (r: PhysicalObject)
        ensures
            r.shape == Shape::Rect(Vec3fx { x: 12_000, y: 12_000, z: 0 }),
            r.weight == 1,
            r.wf(),
    {
        PhysicalObject::new_from_info(
            ShapeInfo {
                shape: Shape::Rect(Vec3 { x: 12_000, y: 12_000, z: 0 }),
                weight: 1,
            },
        )
    }

    /// Applies the full response of every impassable tile within the
    /// body's bounding radius to the entity (a 100/0 weight split
    /// against the immovable tile); reports whether any tile
    /// responded.
    fn check_tile_collision_inner(&mut self, idx: usize, collision: PhysicalObject) -> (r: bool)
        requires
            old(self).wf(),
            idx < old(self).entities@.len(),
            collision.wf(),
        ensures
            final(self).wf(),
            final(self).entities@.len() == old(self).entities@.len(),
            final(self).level == old(self).level,
            final(self).classes == old(self).classes,
            final(self).camera == old(self).camera,
            final(self).vehicle_state == old(self).vehicle_state,
            final(self).entity_spawn_counter == old(self).entity_spawn_counter,
            final(self).time == old(self).time,
            forall|j: int|
                0 <= j < old(self).entities@.len() && j != idx ==> final(self).entities@[j]
                    == #[trigger] old(self).entities@[j],
            only_displaced(old(self).entities@, final(self).entities@),
            ({
                let scan = spec_tile_pass(
                    old(self).level,
                    collision,
                    old(self).entities@[idx as int],
                );
                &&& final(self).entities@ == old(self).entities@.update(idx as int, scan.0)
                &&& r == scan.1
            }),
    {
        let tile = GameScreen::create_tile_object();
        let radius = collision.shape.bounding_radius();
        let pos = collision.pos;
        let start = crate::level::pos_to_tilepos(
            Vec3 { x: pos.x - radius, y: pos.y - radius, z: 0 },
        );
        let end = crate::level::pos_to_tilepos(
            Vec3 { x: pos.x + radius, y: pos.y + radius, z: 0 },
        );
        proof {
            crate::util::lemma_tdiv_abs_bound((pos.x - radius) as int, TILESIZE_FX as int);
            crate::util::lemma_tdiv_abs_bound((pos.y - radius) as int, TILESIZE_FX as int);
            crate::util::lemma_tdiv_abs_bound((pos.x + radius) as int, TILESIZE_FX as int);
            crate::util::lemma_tdiv_abs_bound((pos.y + radius) as int, TILESIZE_FX as int);
            vstd::arithmetic::div_mod::lemma_div_is_ordered(
                spec_abs((pos.x - radius) as int),
                1_300_000_000,
                TILESIZE_FX as int,
            );
            vstd::arithmetic::div_mod::lemma_div_is_ordered(
                spec_abs((pos.y - radius) as int),
                1_300_000_000,
                TILESIZE_FX as int,
            );
            vstd::arithmetic::div_mod::lemma_div_is_ordered(
                spec_abs((pos.x + radius) as int),
                1_300_000_000,
                TILESIZE_FX as int,
            );
            vstd::arithmetic::div_mod::lemma_div_is_ordered(
                spec_abs((pos.y + radius) as int),
                1_300_000_000,
                TILESIZE_FX as int,
            );
        }
        let ghost e0 = old(self).entities@[idx as int];
        let ghost lv = old(self).level;
        let ghost sxg = start.x as int;
        let ghost syg = start.y as int;
        let ghost exg = end.x as int;
        let ghost eyg = end.y as int;
        proof {
            assert(spec_tile_pass(lv, collision, e0) == spec_tile_cols(
                lv,
                collision,
                e0,
                sxg,
                syg,
                exg,
                eyg,
            ));
        }
        let mut ret = false;
        let mut x = start.x;
        while x <= end.x
            invariant
                self.wf(),
                self.entities@.len() == old(self).entities@.len(),
                self.level == old(self).level,
                self.classes == old(self).classes,
                self.camera == old(self).camera,
                self.vehicle_state == old(self).vehicle_state,
                self.entity_spawn_counter == old(self).entity_spawn_counter,
                self.time == old(self).time,
                idx < self.entities@.len(),
                tile.shape == Shape::Rect(
                    Vec3fx { x: 12_000, y: 12_000, z: 0 },
                ),
                tile.weight == 1,
                tile.wf(),
                collision.wf(),
                lv == old(self).level,
                e0 == old(self).entities@[idx as int],
                sxg == start.x && syg == start.y && exg == end.x && eyg == end.y,
                -200_000 <= start.x <= 200_000 && -200_000 <= end.x <= 200_000,
                -200_000 <= start.y <= 200_000 && -200_000 <= end.y <= 200_000,
                -200_000 <= x <= 200_001,
                forall|j: int|
                    0 <= j < old(self).entities@.len() && j != idx ==> self.entities@[j]
                        == #[trigger] old(self).entities@[j],
                only_displaced(old(self).entities@, self.entities@),
                ({
                    let c = spec_tile_cols(
                        lv,
                        collision,
                        self.entities@[idx as int],
                        x as int,
                        syg,
                        exg,
                        eyg,
                    );
                    spec_tile_cols(lv, collision, e0, sxg, syg, exg, eyg) == (c.0, ret || c.1)
                }),
            decreases end.x - x + 1,
        {
            let mut y = start.y;
            proof {
                let cur = self.entities@[idx as int];
                assert(spec_tile_cols(lv, collision, cur, x as int, syg, exg, eyg)
                    == spec_tile_from(lv, collision, cur, x as int, syg, syg, exg, eyg));
            }
            while y <= end.y
                invariant
                    self.wf(),
                    self.entities@.len() == old(self).entities@.len(),
                    self.level == old(self).level,
                    self.classes == old(self).classes,
                    self.camera == old(self).camera,
                    self.vehicle_state == old(self).vehicle_state,
                    self.entity_spawn_counter == old(self).entity_spawn_counter,
                    self.time == old(self).time,
                    idx < self.entities@.len(),
                    tile.shape == Shape::Rect(
                        Vec3fx { x: 12_000, y: 12_000, z: 0 },
                    ),
                    tile.weight == 1,
                    tile.wf(),
                    collision.wf(),
                    lv == old(self).level,
                    e0 == old(self).entities@[idx as int],
                    sxg == start.x && syg == start.y && exg == end.x && eyg == end.y,
                    -200_000 <= start.x <= 200_000 && -200_000 <= end.x <= 200_000,
                    -200_000 <= x <= 200_001,
                    -200_000 <= start.y <= 200_000 && -200_000 <= end.y <= 200_000,
                    -200_000 <= y <= 200_001,
                    forall|j: int|
                        0 <= j < old(self).entities@.len() && j != idx ==> self.entities@[j]
                            == #[trigger] old(self).entities@[j],
                    only_displaced(old(self).entities@, self.entities@),
                    ({
                        let c = spec_tile_from(
                            lv,
                            collision,
                            self.entities@[idx as int],
                            x as int,
                            y as int,
                            syg,
                            exg,
                            eyg,
                        );
                        spec_tile_cols(lv, collision, e0, sxg, syg, exg, eyg) == (
                            c.0,
                            ret || c.1,
                        )
                    }),
                decreases end.y - y + 1,
            {
                let ghost cur0 = self.entities@[idx as int];
                let ghost step = spec_tile_step(lv, collision, cur0, x as int, y as int);
                let newpos = Vec3 { x, y, z: 0 };
                if crate::level::tilepos_is_impassable(&self.level, newpos) {
                    let base = crate::level::tilepos_to_pos(newpos);
                    let cx = base.x + TILESIZE_FX / 2;
                    let cy = base.y + TILESIZE_FX / 2;
                    if -1_000_000_000 <= cx && cx <= 1_000_000_000 && -1_000_000_000 <= cy && cy
                        <= 1_000_000_000 {
                        let newtile = tile.clone_with_pa(Vec3 { x: cx, y: cy, z: 0 }, 0);
                        let response = collision.get_response_vector(&newtile);
                        match response {
                            Some(resp) => {
                                let ghost mid = self.entities@;
                                self.displace_entity(
                                    idx,
                                    Vec3 { x: -resp.x, y: -resp.y, z: 0 },
                                );
                                proof {
                                    lemma_only_displaced_trans(
                                        old(self).entities@,
                                        mid,
                                        self.entities@,
                                    );
                                    assert(step == (self.entities@[idx as int], true));
                                }
                                ret = true;
                            },
                            None => {
                                proof {
                                    assert(step == (cur0, false));
                                }
                            },
                        }
                    } else {
                        proof {
                            assert(step == (cur0, false));
                        }
                    }
                } else {
                    proof {
                        assert(step == (cur0, false));
                    }
                }
                proof {
                    assert(spec_tile_from(lv, collision, cur0, x as int, y as int, syg, exg, eyg)
                        == {
                        let c2 = spec_tile_from(
                            lv,
                            collision,
                            step.0,
                            x as int,
                            y as int + 1,
                            syg,
                            exg,
                            eyg,
                        );
                        (c2.0, step.1 || c2.1)
                    });
                }
                y = y + 1;
            }
            proof {
                let cur = self.entities@[idx as int];
                assert(spec_tile_from(lv, collision, cur, x as int, y as int, syg, exg, eyg)
                    == spec_tile_cols(lv, collision, cur, x as int + 1, syg, exg, eyg));
            }
            x = x + 1;
        }
        proof {
            let cur = self.entities@[idx as int];
            assert(spec_tile_cols(lv, collision, cur, x as int, syg, exg, eyg) == (cur, false));
            assert(self.entities@ =~= old(self).entities@.update(idx as int, cur));
        }
        ret
    }

    /// Entity-versus-tile resolution with the tunneling guard: when
    /// the tick's movement exceeds a quarter tile, poses interpolated
    /// along the path from the pre-tick snapshot are checked first,
    /// then the final pose.
    fn check_tile_collision(&mut self, idx: usize) -> (r: bool)
        requires
            old(self).wf(),
            idx < old(self).entities@.len(),
        ensures
            final(self).wf(),
            final(self).entities@.len() == old(self).entities@.len(),
            final(self).level == old(self).level,
            final(self).classes == old(self).classes,
            final(self).camera == old(self).camera,
            final(self).vehicle_state == old(self).vehicle_state,
            final(self).entity_spawn_counter == old(self).entity_spawn_counter,
            final(self).time == old(self).time,
            forall|j: int|
                0 <= j < old(self).entities@.len() && j != idx ==> final(self).entities@[j]
                    == #[trigger] old(self).entities@[j],
            only_displaced(old(self).entities@, final(self).entities@),
            ({
                let t = spec_check_tile(old(self).level, old(self).entities@[idx as int]);
                &&& final(self).entities@ == old(self).entities@.update(idx as int, t.0)
                &&& r == t.1
            }),
    {
        let collision = match &self.entities[idx].collision {
            Some(c) => *c,
            None => {
                proof {
                    assert(self.entities@ =~= old(self).entities@.update(
                        idx as int,
                        old(self).entities@[idx as int],
                    ));
                }
                return false;
            },
        };
        let prevpos = self.entities[idx].base.prev_pos;
        let pos = self.entities[idx].base.pos;
        let angle = self.entities[idx].base.angle;
        let dx = pos.x - prevpos.x;
        let dy = pos.y - prevpos.y;
        let adx: i64 = if dx < 0 {
            -dx
        } else {
            dx
        };
        let ady: i64 = if dy < 0 {
            -dy
        } else {
            dy
        };
        let maxd = if adx > ady {
            adx
        } else {
            ady
        };
        let amount = maxd / (TILESIZE_FX / 4);
        let ghost lv = old(self).level;
        let ghost e0 = old(self).entities@[idx as int];
        proof {
            assert(e0.collision == Some(collision));
            assert(e0.base.pos == pos && e0.base.prev_pos == prevpos && e0.base.angle == angle);
        }
        if amount > 1 {
            let mut i: i64 = 0;
            while i < amount
                invariant
                    self.wf(),
                    self.entities@.len() == old(self).entities@.len(),
                    self.level == old(self).level,
                    self.classes == old(self).classes,
                    self.camera == old(self).camera,
                    self.vehicle_state == old(self).vehicle_state,
                    self.entity_spawn_counter == old(self).entity_spawn_counter,
                    self.time == old(self).time,
                    idx < self.entities@.len(),
                    collision.wf(),
                    0 <= i <= amount <= 400_000,
                    -2_000_000_000 <= dx <= 2_000_000_000,
                    -2_000_000_000 <= dy <= 2_000_000_000,
                    crate::types::vec_in_range(prevpos, WORLD_MAX as int),
                    crate::types::vec_in_range(pos, WORLD_MAX as int),
                    dx == pos.x - prevpos.x,
                    dy == pos.y - prevpos.y,
                    lv == old(self).level,
                    e0 == old(self).entities@[idx as int],
                    e0.collision == Some(collision),
                    e0.base.pos == pos && e0.base.prev_pos == prevpos && e0.base.angle == angle,
                    amount as int == (if crate::util::spec_abs(dx as int) > crate::util::spec_abs(
                        dy as int,
                    ) {
                        crate::util::spec_abs(dx as int)
                    } else {
                        crate::util::spec_abs(dy as int)
                    }) / 6000,
                    1 < amount,
                    forall|j: int|
                        0 <= j < old(self).entities@.len() && j != idx ==> self.entities@[j]
                            == #[trigger] old(self).entities@[j],
                    only_displaced(old(self).entities@, self.entities@),
                    spec_tile_guard(lv, collision, e0, prevpos, dx as int, dy as int, angle,
                        amount as int, 0) == spec_tile_guard(
                        lv,
                        collision,
                        self.entities@[idx as int],
                        prevpos,
                        dx as int,
                        dy as int,
                        angle,
                        amount as int,
                        i as int,
                    ),
                decreases amount - i,
            {
                proof {
                    crate::util::lemma_abs_mul_bound(dx as int, i as int, 2_000_000_000, 400_000);
                    crate::util::lemma_abs_mul_bound(dy as int, i as int, 2_000_000_000, 400_000);
                    crate::util::lemma_tdiv_scale_bracket(dx as int, i as int, amount as int);
                    crate::util::lemma_tdiv_scale_bracket(dy as int, i as int, amount as int);
                }
                let px = prevpos.x + crate::util::mul_div_trunc(dx, i, amount);
                let py = prevpos.y + crate::util::mul_div_trunc(dy, i, amount);
                let newcollision = collision.clone_with_pa(Vec3 { x: px, y: py, z: 0 }, angle);
                let ghost cur0 = self.entities@[idx as int];
                let ghost mid = self.entities@;
                let hit = self.check_tile_collision_inner(idx, newcollision);
                proof {
                    lemma_only_displaced_trans(old(self).entities@, mid, self.entities@);
                    assert(newcollision == (PhysicalObject {
                        pos: Vec3fx {
                            x: (prevpos.x + crate::util::tdiv(dx as int * i as int, amount as int)) as Fixed,
                            y: (prevpos.y + crate::util::tdiv(dy as int * i as int, amount as int)) as Fixed,
                            z: 0,
                        },
                        angle,
                        ..collision
                    }));
                    assert(spec_tile_pass(lv, newcollision, cur0) == (
                        self.entities@[idx as int],
                        hit,
                    ));
                    if hit {
                        assert(spec_tile_guard(lv, collision, cur0, prevpos, dx as int,
                            dy as int, angle, amount as int, i as int) == (
                            self.entities@[idx as int],
                            true,
                        ));
                    } else {
                        assert(spec_tile_guard(lv, collision, cur0, prevpos, dx as int,
                            dy as int, angle, amount as int, i as int) == spec_tile_guard(
                            lv,
                            collision,
                            self.entities@[idx as int],
                            prevpos,
                            dx as int,
                            dy as int,
                            angle,
                            amount as int,
                            i as int + 1,
                        ));
                    }
                }
                if hit {
                    proof {
                        assert(self.entities@ =~= old(self).entities@.update(
                            idx as int,
                            self.entities@[idx as int],
                        ));
                    }
                    return true;
                }
                i = i + 1;
            }
        }
        let ghost lvl2 = old(self).level;
        let ghost cur0 = self.entities@[idx as int];
        let ghost mid = self.entities@;
        let hit = self.check_tile_collision_inner(idx, collision);
        proof {
            lemma_only_displaced_trans(old(self).entities@, mid, self.entities@);
            assert(spec_tile_pass(lvl2, collision, cur0) == (self.entities@[idx as int], hit));
            assert(self.entities@ =~= old(self).entities@.update(
                idx as int,
                self.entities@[idx as int],
            ));
        }
        hit
    }

    /// The whole resolution pass as a mathematical fold: standing at
    /// entity `i` with partner `j`, a physical pair's overlap response
    /// is split by weight, then entity `i` is resolved against the
    /// tiles, then the pass moves on; already-resolved pairs are not
    /// re-validated.
    pub open spec fn spec_resolve_from(level: Level, s: Seq<Entity>, i: int, j: int) -> Seq<
        Entity,
    >
        decreases s.len() - i, s.len() + 1 - j,
        via GameScreen::resolve_from_decreases
    {
        if i < 0 || i >= s.len() {
            s
        } else if !spec_is_physical(s[i]) {
            GameScreen::spec_resolve_from(level, s, i + 1, i + 2)
        } else if j < 0 || j >= s.len() {
            let t = spec_check_tile(level, s[i]);
            GameScreen::spec_resolve_from(level, s.update(i, t.0), i + 1, i + 2)
        } else {
            let s2 = if spec_is_physical(s[j]) {
                match spec_pair_response(s, i, j) {
                    Some(cr) => spec_apply_pair(s, i, j, cr),
                    None => s,
                }
            } else {
                s
            };
            GameScreen::spec_resolve_from(level, s2, i, j + 1)
        }
    }

    #[via_fn]
    proof fn resolve_from_decreases(level: Level, s: Seq<Entity>, i: int, j: int) {
        if 0 <= i < s.len() && spec_is_physical(s[i]) {
            if j < 0 || j >= s.len() {
                let t = spec_check_tile(level, s[i]);
                assert(s.update(i, t.0).len() == s.len());
            } else if spec_is_physical(s[j]) {
                match spec_pair_response(s, i, j) {
                    Some(cr) => {
                        assert(spec_apply_pair(s, i, j, cr).len() == s.len());
                    },
                    None => {},
                }
            }
        }
    }

    /// Pairwise collision resolution in ascending index order: for
    /// every physical entity, each later physical entity's overlap is
    /// split by weight, then the entity is resolved against the
    /// impassable tiles around it. Already-resolved pairs are not
    /// re-validated within the tick.
    #[verifier::rlimit(100)]
    pub fn step_collision(&mut self, _delta: Time)
        requires
            old(self).wf(),
        ensures
            final(self).wf(),
            final(self).entities@.len() == old(self).entities@.len(),
            final(self).level == old(self).level,
            final(self).classes == old(self).classes,
            final(self).camera == old(self).camera,
            final(self).vehicle_state == old(self).vehicle_state,
            final(self).entity_spawn_counter == old(self).entity_spawn_counter,
            final(self).time == old(self).time,
            only_displaced(old(self).entities@, final(self).entities@),
            final(self).entities@ == GameScreen::spec_resolve_from(
                old(self).level,
                old(self).entities@,
                0,
                1,
            ),
    {
        let ghost lv = old(self).level;
        let entities_len = self.entities.len();
        let mut entity1_id: usize = 0;
        while entity1_id < entities_len
            invariant
                self.wf(),
                entities_len == self.entities@.len() == old(self).entities@.len(),
                self.level == old(self).level,
                self.classes == old(self).classes,
                self.camera == old(self).camera,
                self.vehicle_state == old(self).vehicle_state,
                self.entity_spawn_counter == old(self).entity_spawn_counter,
                self.time == old(self).time,
                lv == old(self).level,
                only_displaced(old(self).entities@, self.entities@),
                GameScreen::spec_resolve_from(lv, old(self).entities@, 0, 1)
                    == GameScreen::spec_resolve_from(
                    lv,
                    self.entities@,
                    entity1_id as int,
                    entity1_id as int + 1,
                ),
            decreases entities_len - entity1_id,
        {
            if self.entities[entity1_id].is_physical() {
                let mut entity2_id: usize = entity1_id + 1;
                while entity2_id < entities_len
                    invariant
                        self.wf(),
                        entities_len == self.entities@.len() == old(self).entities@.len(),
                        self.level == old(self).level,
                        self.classes == old(self).classes,
                        self.camera == old(self).camera,
                        self.vehicle_state == old(self).vehicle_state,
                        self.entity_spawn_counter == old(self).entity_spawn_counter,
                        self.time == old(self).time,
                        entity1_id < entity2_id,
                        lv == old(self).level,
                        spec_is_physical(self.entities@[entity1_id as int]),
                        only_displaced(old(self).entities@, self.entities@),
                        GameScreen::spec_resolve_from(lv, old(self).entities@, 0, 1)
                            == GameScreen::spec_resolve_from(
                            lv,
                            self.entities@,
                            entity1_id as int,
                            entity2_id as int,
                        ),
                    decreases entities_len - entity2_id,
                {
                    let ghost pre = self.entities@;
                    if self.entities[entity2_id].is_physical() {
                        let response = GameScreen::get_entity_response(
                            &self.entities[entity1_id],
                            &self.entities[entity2_id],
                        );
                        match response {
                            Some(response) => {
                                proof {
                                    assert(spec_pair_response(
                                        pre,
                                        entity1_id as int,
                                        entity2_id as int,
                                    ) == Some(response));
                                }
                                let ghost mid = self.entities@;
                                self.handle_collision_pair(entity1_id, entity2_id, response);
                                proof {
                                    lemma_only_displaced_trans(
                                        old(self).entities@,
                                        mid,
                                        self.entities@,
                                    );
                                }
                            },
                            None => {
                                proof {
                                    assert(spec_pair_response(
                                        pre,
                                        entity1_id as int,
                                        entity2_id as int,
                                    ) is None);
                                }
                            },
                        }
                    }
                    entity2_id = entity2_id + 1;
                }
                let ghost pre = self.entities@;
                let ghost mid = self.entities@;
                self.check_tile_collision(entity1_id);
                proof {
                    lemma_only_displaced_trans(old(self).entities@, mid, self.entities@);
                    assert(self.entities@ == pre.update(
                        entity1_id as int,
                        spec_check_tile(lv, pre[entity1_id as int]).0,
                    ));
                }
            }
            entity1_id = entity1_id + 1;
        }
    }
}

/// The ring-search offset for search step `current` with ring radius
/// scale `max`: eight candidates per ring, the rings growing with
/// `current / 4`.
pub open spec fn spec_spawn_xy(current: int, max: int) -> Option<Vec3i> {
    if current >= max * 8 {
        None
    } else {
        let id = current % 4;
        let vx: int = if id == 1 {
            1
        } else if id == 3 {
            -1
        } else {
            0
        };
        let vy: int = if id == 0 {
            -1
        } else if id == 2 {
            1
        } else {
            0
        };
        let temp = current / 4 + 1;
        let m0 = temp / 2;
        let mult: int = if temp % 2 != 0 {
            -m0
        } else {
            m0
        };
        Some(Vec3i { x: (max * vx + mult * vy) as IScalar, y: (max * vy + mult * vx) as IScalar, z: 0 })
    }
}

impl GameScreen {
    /// One candidate of the outward ring search around a center.
    pub fn get_spawn_xy(current: IScalar, max: IScalar) -> (r: Option<Vec3i>)
        requires
            0 <= current <= 100_000_000,
            0 <= max <= 1_000_000,
        ensures
            r == spec_spawn_xy(current as int, max as int),
            r matches Some(v) ==> -27_000_000 <= v.x <= 27_000_000 && -27_000_000 <= v.y
                <= 27_000_000,
    {
        if current >= max * 8 {
            return None;
        }
        let id = current % 4;
        let vx: IScalar = if id == 1 {
            1
        } else if id == 3 {
            -1
        } else {
            0
        };
        let vy: IScalar = if id == 0 {
            -1
        } else if id == 2 {
            1
        } else {
            0
        };
        let temp = current / 4 + 1;
        let mut mult = temp / 2;
        if temp % 2 != 0 {
            mult = -mult;
        }
        proof {
            vstd::arithmetic::div_mod::lemma_mod_division_less_than_divisor(current as int, 4);
            vstd::arithmetic::div_mod::lemma_div_pos_is_pos(current as int, 4);
            vstd::arithmetic::div_mod::lemma_div_is_ordered(current as int, 100_000_000, 4);
            vstd::arithmetic::div_mod::lemma_div_pos_is_pos(current as int / 4 + 1, 2);
            vstd::arithmetic::div_mod::lemma_div_is_ordered(
                current as int / 4 + 1,
                25_000_001,
                2,
            );
        }
        let ring_x: IScalar = if id == 1 {
            max
        } else if id == 3 {
            -max
        } else {
            0
        };
        let ring_y: IScalar = if id == 0 {
            -max
        } else if id == 2 {
            max
        } else {
            0
        };
        let off_x: IScalar = if id == 0 {
            -mult
        } else if id == 2 {
            mult
        } else {
            0
        };
        let off_y: IScalar = if id == 1 {
            mult
        } else if id == 3 {
            -mult
        } else {
            0
        };
        let x = ring_x + off_x;
        let y = ring_y + off_y;
        proof {
            let vxg: int = if id == 1 { 1int } else if id == 3 { -1int } else { 0int };
            let vyg: int = if id == 0 { -1int } else if id == 2 { 1int } else { 0int };
            assert(x == max * vxg + mult * vyg && y == max * vyg + mult * vxg)
                by (nonlinear_arith)
                requires
                    vxg == (if id == 1 { 1int } else if id == 3 { -1int } else { 0int }),
                    vyg == (if id == 0 { -1int } else if id == 2 { 1int } else { 0int }),
                    x == (if id == 1 { max as int } else if id == 3 { -(max as int) } else { 0int })
                        + (if id == 0 { -(mult as int) } else if id == 2 { mult as int } else { 0int }),
                    y == (if id == 0 { -(max as int) } else if id == 2 { max as int } else { 0int })
                        + (if id == 1 { mult as int } else if id == 3 { -(mult as int) } else { 0int }),
            ;
        }
        Some(Vec3 { x, y, z: 0 })
    }

    /// The world point at the center of ring-candidate tile
    /// `(cx, cy)`.
    pub open spec fn spec_ring_candidate(level: Level, cx: int, cy: int) -> Vec3fx {
        Vec3fx {
            x: (cx * level.tilesize.x + tdiv(level.tilesize.x as int, 2)) as Fixed,
            y: (cy * level.tilesize.y + tdiv(level.tilesize.y as int, 2)) as Fixed,
            z: 0,
        }
    }

    /// Outward ring search for a point where the entity's own spawn
    /// predicate succeeds, starting at a random step; none when the
    /// rings are exhausted for this cycle.
    fn find_entity_spawn_point(&mut self, idx: usize, x: IScalar, y: IScalar, border: IScalar)
        -> (r: Option<Vec3fx>)
        requires
            old(self).wf(),
            idx < old(self).entities@.len(),
            -1_500_000_000 <= x <= 1_500_000_000,
            -1_500_000_000 <= y <= 1_500_000_000,
            0 <= border <= 1_000_000_000,
        ensures
            final(self).wf(),
            final(self).entities@.len() == old(self).entities@.len(),
            final(self).level == old(self).level,
            final(self).classes == old(self).classes,
            final(self).camera == old(self).camera,
            final(self).vehicle_state == old(self).vehicle_state,
            final(self).entity_spawn_counter == old(self).entity_spawn_counter,
            final(self).time == old(self).time,
            forall|j: int|
                0 <= j < old(self).entities@.len() && j != idx ==> final(self).entities@[j]
                    == #[trigger] old(self).entities@[j],
            // a found point was accepted by the entity's own spawn
            // predicate at an in-bounds ring candidate: pedestrians
            // stand on a sidewalk tile, vehicles run visibly
            r matches Some(p) ==> ({
                let lv = old(self).level;
                let code = crate::entity::spec_get_entitytype(
                    old(self).classes@[old(self).entities@[idx as int].base.class as int]
                        .entity_type as int,
                ).code();
                &&& final(self).entities@[idx as int].base.pos == p
                &&& crate::types::vec_in_range(p, 1_000_000_000)
                &&& exists|cx: int, cy: int|
                    0 <= cx < lv.tiledata_size.x && 0 <= cy < lv.tiledata_size.y && (code <= 7
                        ==> p == #[trigger] GameScreen::spec_ring_candidate(lv, cx, cy))
                &&& code <= 7 ==> crate::level::spec_pos_is_sidewalk(lv, p)
                &&& (8 <= code <= 12 || code == 20) ==> (!final(self).entities@[idx as int].base.hidden && final(self).entities@[idx as int].base.stance
                    == EntityStance::Running)
            }),
    {
        proof {
            crate::util::lemma_tdiv_abs_bound(self.level.tilesize.x as int, 1000);
            vstd::arithmetic::div_mod::lemma_div_is_ordered(
                1000,
                self.level.tilesize.x as int,
                1000,
            );
            crate::util::lemma_tdiv_abs_bound(x as int, tdiv(self.level.tilesize.x as int, 1000));
            crate::util::lemma_tdiv_abs_bound(y as int, tdiv(self.level.tilesize.x as int, 1000));
            crate::util::lemma_tdiv_abs_bound(
                border as int,
                tdiv(self.level.tilesize.x as int, 1000),
            );
        }
        let ts_units = crate::util::div_trunc(self.level.tilesize.x, 1000);
        let xt = crate::util::div_trunc(x as i64, ts_units) as IScalar;
        let yt = crate::util::div_trunc(y as i64, ts_units) as IScalar;
        let mut border_t = crate::util::div_trunc(border as i64, ts_units) as IScalar;
        if border_t > 1_000_000 {
            border_t = 1_000_000;
        }
        let max = border_t * 8;
        let mut current = crate::util::pick_int(max);
        while current < max
            invariant
                self.wf(),
                self.entities@.len() == old(self).entities@.len(),
                self.level == old(self).level,
                self.classes == old(self).classes,
                self.camera == old(self).camera,
                self.vehicle_state == old(self).vehicle_state,
                self.entity_spawn_counter == old(self).entity_spawn_counter,
                self.time == old(self).time,
                idx < self.entities@.len(),
                0 <= current,
                0 <= border_t <= 1_000_000,
                max == border_t * 8,
                -1_500_000_000 <= xt <= 1_500_000_000,
                -1_500_000_000 <= yt <= 1_500_000_000,
                0 <= old(self).entities@[idx as int].base.class < self.classes@.len(),
                self.entities@[idx as int].base.class == old(self).entities@[idx as int].base.class,
                forall|j: int|
                    0 <= j < old(self).entities@.len() && j != idx ==> self.entities@[j]
                        == #[trigger] old(self).entities@[j],
            decreases max - current,
        {
            let spawn_xy = GameScreen::get_spawn_xy(current, border_t);
            match spawn_xy {
                Some(spawn_xy) => {
                    let cx = spawn_xy.x + xt;
                    let cy = spawn_xy.y + yt;
                    if cx >= 0 && cy >= 0 && cx < self.level.tiledata_size.x && cy
                        < self.level.tiledata_size.y {
                        proof {
                            vstd::arithmetic::mul::lemma_mul_nonnegative(
                                cx as int,
                                self.level.tilesize.x as int,
                            );
                            vstd::arithmetic::mul::lemma_mul_inequality(
                                cx as int + 1,
                                self.level.tiledata_size.x as int,
                                self.level.tilesize.x as int,
                            );
                            vstd::arithmetic::mul::lemma_mul_is_distributive_add_other_way(
                                self.level.tilesize.x as int,
                                cx as int,
                                1,
                            );
                            vstd::arithmetic::mul::lemma_mul_nonnegative(
                                cy as int,
                                self.level.tilesize.y as int,
                            );
                            vstd::arithmetic::mul::lemma_mul_inequality(
                                cy as int + 1,
                                self.level.tiledata_size.y as int,
                                self.level.tilesize.y as int,
                            );
                            vstd::arithmetic::mul::lemma_mul_is_distributive_add_other_way(
                                self.level.tilesize.y as int,
                                cy as int,
                                1,
                            );
                        }
                        let pos = Vec3 {
                            x: (cx as Fixed) * self.level.tilesize.x + self.level.tilesize.x / 2,
                            y: (cy as Fixed) * self.level.tilesize.y + self.level.tilesize.y / 2,
                            z: 0,
                        };
                        let views = self.entity_views();
                        let ghost pre = *self;
                        let counter = self.entity_spawn_counter;
                        let classes = &self.classes;
                        let level = &self.level;
                        let light = self.vehicle_state.trafficlight;
                        let entity = &mut self.entities[idx];
                        let spawned = entity.spawn(pos, classes, level, &views, light, counter);
                        proof {
                            assert forall|j: int| 0 <= j < pre.entities@.len() implies {
                                &&& (#[trigger] self.entities@[j]).wf()
                                &&& self.entities@[j].base.id == j
                                &&& 0 <= self.entities@[j].base.class < self.classes@.len()
                            } by {
                                if j != idx {
                                    assert(self.entities@[j] == pre.entities@[j]);
                                }
                            }
                        }
                        match spawned {
                            Some(p) => {
                                proof {
                                    let lv = old(self).level;
                                    let cxi = cx as int;
                                    let cyi = cy as int;
                                    assert(pos == GameScreen::spec_ring_candidate(lv, cxi, cyi));
                                    assert(0 <= cxi < lv.tiledata_size.x && 0 <= cyi
                                        < lv.tiledata_size.y);
                                }
                                return Some(p);
                            },
                            None => {},
                        }
                    }
                    current = current + 1;
                },
                None => {
                    break;
                },
            }
        }
        None
    }

    /// Runs the ring search and reports whether a point was found.
    fn apply_entity_spawn_point(&mut self, idx: usize, pos: Vec3i, border: IScalar) -> (r: bool)
        requires
            old(self).wf(),
            idx < old(self).entities@.len(),
            -1_500_000_000 <= pos.x <= 1_500_000_000,
            -1_500_000_000 <= pos.y <= 1_500_000_000,
            0 <= border <= 1_000_000_000,
        ensures
            final(self).wf(),
            final(self).entities@.len() == old(self).entities@.len(),
            final(self).level == old(self).level,
            final(self).classes == old(self).classes,
            final(self).camera == old(self).camera,
            final(self).vehicle_state == old(self).vehicle_state,
            final(self).entity_spawn_counter == old(self).entity_spawn_counter,
            final(self).time == old(self).time,
            forall|j: int|
                0 <= j < old(self).entities@.len() && j != idx ==> final(self).entities@[j]
                    == #[trigger] old(self).entities@[j],
    {
        let found = self.find_entity_spawn_point(idx, pos.x, pos.y, border);
        found.is_some()
    }

    /// The round-robin counter after one advance: one up, wrapping at
    /// the integer limit.
    pub open spec fn spec_counter_bump(c: int) -> int {
        if c < usize::MAX {
            c + 1
        } else {
            0
        }
    }

    /// The counter after `k` advances.
    pub open spec fn spec_counter_after(c: int, k: int) -> int
        decreases k,
    {
        if k <= 0 {
            c
        } else {
            GameScreen::spec_counter_after(GameScreen::spec_counter_bump(c), k - 1)
        }
    }

    /// Advancing `k + 1` times is one more advance after `k`.
    proof fn lemma_counter_after_snoc(c: int, k: int)
        requires
            0 <= k,
        ensures
            GameScreen::spec_counter_after(c, k + 1) == GameScreen::spec_counter_bump(
                GameScreen::spec_counter_after(c, k),
            ),
        decreases k,
    {
        if k == 0 {
            assert(GameScreen::spec_counter_after(c, 1) == GameScreen::spec_counter_after(
                GameScreen::spec_counter_bump(c),
                0,
            ));
        } else {
            GameScreen::lemma_counter_after_snoc(GameScreen::spec_counter_bump(c), k - 1);
            assert(GameScreen::spec_counter_after(c, k + 1) == GameScreen::spec_counter_after(
                GameScreen::spec_counter_bump(c),
                k,
            ));
            assert(GameScreen::spec_counter_after(c, k) == GameScreen::spec_counter_after(
                GameScreen::spec_counter_bump(c),
                k - 1,
            ));
        }
    }

    /// Advances one despawn-eligible slot of the round-robin counter:
    /// an NPC outside the camera is despawn-attempted and, when fully
    /// despawned, relocated through the ring search; non-NPC slots
    /// other than the player are skipped within the same tick.
    #[verifier::spinoff_prover]
    pub fn step_entity_despawn(&mut self)
        requires
            old(self).wf(),
        ensures
            final(self).wf(),
            final(self).entities@.len() == old(self).entities@.len(),
            final(self).level == old(self).level,
            final(self).classes == old(self).classes,
            final(self).camera == old(self).camera,
            final(self).vehicle_state == old(self).vehicle_state,
            final(self).time == old(self).time,
            old(self).entities@.len() == 0 ==> *final(self) == *old(self),
            // at most one slot's entity is touched
            changed_at_most_one(old(self).entities@, final(self).entities@),
            // the counter advances between one and one-round-of-slots
            // many times
            old(self).entities@.len() > 0 ==> exists|k: int|
                #![trigger slot_witness(k)]
                slot_witness(k) && 1 <= k <= old(self).entities@.len() && final(self).entity_spawn_counter == GameScreen::spec_counter_after(
                    old(self).entity_spawn_counter as int,
                    k,
                ),
            // an NPC at the first slot ends the scan there: the
            // counter advances once, no other entity is touched, and
            // an on-screen NPC is left entirely alone
            ({
                let n = old(self).entities@.len() as int;
                n > 0 ==> ({
                    let idx0 = old(self).entity_spawn_counter as int % n;
                    old(self).entities@[idx0].base.entity_type.spec_is_npc() ==> {
                        &&& final(self).entity_spawn_counter == GameScreen::spec_counter_bump(
                            old(self).entity_spawn_counter as int,
                        )
                        &&& forall|j: int|
                            0 <= j < n && j != idx0 ==> final(self).entities@[j] == #[trigger] old(self).entities@[j]
                        &&& !old(self).camera.spec_out_of_screen(
                            Vec3i {
                                x: tdiv(old(self).entities@[idx0].base.pos.x as int, 1000) as IScalar,
                                y: tdiv(old(self).entities@[idx0].base.pos.y as int, 1000) as IScalar,
                                z: 0,
                            },
                        ) ==> final(self).entities@ == old(self).entities@
                    }
                })
            }),
    {
        let entities_len = self.entities.len();
        if entities_len == 0 {
            return;
        }
        let ghost mut advances: int = 0;
        let ghost mut changed_idx: int = 0;
        let mut attempts: usize = 0;
        while attempts < entities_len
            invariant_except_break
                self.entities@ == old(self).entities@,
                advances == attempts,
            invariant
                forall|j: int|
                    0 <= j < old(self).entities@.len() && j != changed_idx
                        ==> self.entities@[j] == #[trigger] old(self).entities@[j],
                self.wf(),
                entities_len == self.entities@.len() == old(self).entities@.len(),
                self.level == old(self).level,
                self.classes == old(self).classes,
                self.camera == old(self).camera,
                self.vehicle_state == old(self).vehicle_state,
                self.time == old(self).time,
                entities_len > 0,
                0 <= advances <= attempts + 1 <= entities_len + 1,
                self.entity_spawn_counter == GameScreen::spec_counter_after(
                    old(self).entity_spawn_counter as int,
                    advances,
                ),
                attempts > 0 ==> !old(self).entities@[old(self).entity_spawn_counter as int
                    % entities_len as int].base.entity_type.spec_is_npc(),
            ensures
                self.wf(),
                entities_len == self.entities@.len() == old(self).entities@.len(),
                self.level == old(self).level,
                self.classes == old(self).classes,
                self.camera == old(self).camera,
                self.vehicle_state == old(self).vehicle_state,
                self.time == old(self).time,
                forall|j: int|
                    0 <= j < old(self).entities@.len() && j != changed_idx
                        ==> self.entities@[j] == #[trigger] old(self).entities@[j],
                1 <= advances <= old(self).entities@.len(),
                self.entity_spawn_counter == GameScreen::spec_counter_after(
                    old(self).entity_spawn_counter as int,
                    advances,
                ),
                ({
                    let n = old(self).entities@.len() as int;
                    let idx0 = old(self).entity_spawn_counter as int % n;
                    old(self).entities@[idx0].base.entity_type.spec_is_npc() ==> {
                        &&& self.entity_spawn_counter == GameScreen::spec_counter_bump(
                            old(self).entity_spawn_counter as int,
                        )
                        &&& forall|j: int|
                            0 <= j < n && j != idx0 ==> self.entities@[j] == #[trigger] old(self).entities@[j]
                        &&& !old(self).camera.spec_out_of_screen(
                            Vec3i {
                                x: tdiv(old(self).entities@[idx0].base.pos.x as int, 1000) as IScalar,
                                y: tdiv(old(self).entities@[idx0].base.pos.y as int, 1000) as IScalar,
                                z: 0,
                            },
                        ) ==> self.entities@ == old(self).entities@
                    }
                }),
            decreases entities_len - attempts,
        {
            let idx = self.entity_spawn_counter % entities_len;
            let ghost first_iter = attempts == 0;
            let entity_type = self.entities[idx].base.entity_type;
            let mut entity_found = true;
            if entity_type.is_npc() {
                let pos = self.entities[idx].base.pos;
                proof {
                    crate::util::lemma_tdiv_abs_bound(pos.x as int, 1000);
                    crate::util::lemma_tdiv_abs_bound(pos.y as int, 1000);
                }
                let pos_units = Vec3 {
                    x: crate::util::div_trunc(pos.x, 1000) as IScalar,
                    y: crate::util::div_trunc(pos.y, 1000) as IScalar,
                    z: 0,
                };
                if self.camera.out_of_screen(pos_units) {
                    proof {
                        changed_idx = idx as int;
                    }
                    let ghost pre = *self;
                    let done = {
                        let entity = &mut self.entities[idx];
                        entity.despawn()
                    };
                    proof {
                        assert forall|j: int| 0 <= j < pre.entities@.len() implies {
                            &&& (#[trigger] self.entities@[j]).wf()
                            &&& self.entities@[j].base.id == j
                            &&& 0 <= self.entities@[j].base.class < self.classes@.len()
                        } by {
                            if j != idx {
                                assert(self.entities@[j] == pre.entities@[j]);
                            }
                        }
                    }
                    let ghost afterd = self.entities@;
                    if done {
                        let mid = self.camera.middle();
                        let border = if self.camera.size.x < self.camera.size.y {
                            self.camera.size.x
                        } else {
                            self.camera.size.y
                        };
                        self.apply_entity_spawn_point(idx, mid, border);
                    }
                    proof {
                        assert forall|j: int|
                            0 <= j < old(self).entities@.len() && j != idx implies
                            self.entities@[j] == #[trigger] old(self).entities@[j] by {
                            assert(self.entities@[j] == afterd[j]);
                            assert(afterd[j] == pre.entities@[j]);
                        }
                    }
                }
            } else if entity_type != EntityType::Player {
                entity_found = false;
            }
            proof {
                GameScreen::lemma_counter_after_snoc(
                    old(self).entity_spawn_counter as int,
                    advances,
                );
            }
            if self.entity_spawn_counter < usize::MAX {
                self.entity_spawn_counter = self.entity_spawn_counter + 1;
            } else {
                self.entity_spawn_counter = 0;
            }
            proof {
                advances = advances + 1;
            }
            if entity_found {
                break;
            }
            attempts = attempts + 1;
        }
        proof {
            assert(slot_witness(changed_idx));
            assert(slot_witness(advances));
        }
    }

    /// A screen position mapped into the world: unscaled by the zoom
    /// and shifted by the camera, clamped onto the world.
    /// Where a screen position lands in the world under zoom `scale`
    /// and camera shift `cam`.
    pub open spec fn spec_screen_to_game(scale: int, cam: Vec3fx, screenpos: Vec3i) -> Vec3fx {
        Vec3fx {
            x: spec_clamp(
                tdiv(screenpos.x * 1_000_000, scale) - cam.x,
                -WORLD_MAX as int,
                WORLD_MAX as int,
            ) as Fixed,
            y: spec_clamp(
                tdiv(screenpos.y * 1_000_000, scale) - cam.y,
                -WORLD_MAX as int,
                WORLD_MAX as int,
            ) as Fixed,
            z: 0,
        }
    }

    pub fn screen_pos_to_game_pos(&self, screenpos: Vec3i) -> (r: Vec3fx)
        requires
            self.wf(),
        ensures
            crate::types::vec_in_range(r, WORLD_MAX as int),
            r.z == 0,
            r == GameScreen::spec_screen_to_game(
                self.scale as int,
                self.main_camera_pos,
                screenpos,
            ),
    {
        proof {
            crate::util::lemma_tdiv_abs_bound(screenpos.x * 1_000_000, self.scale as int);
            crate::util::lemma_tdiv_abs_bound(screenpos.y * 1_000_000, self.scale as int);
        }
        let wx = crate::util::mul_div_trunc(screenpos.x as i64, 1_000_000, self.scale);
        let wy = crate::util::mul_div_trunc(screenpos.y as i64, 1_000_000, self.scale);
        Vec3 {
            x: clamp_world(wx - self.main_camera_pos.x),
            y: clamp_world(wy - self.main_camera_pos.y),
            z: 0,
        }
    }

    /// The camera shift after a left-button pan by the pointer
    /// delta, unscaled by the zoom.
    pub open spec fn spec_pan(campos: Vec3fx, scale: int, input: InputState) -> Vec3fx {
        if input.left_button {
            Vec3fx {
                x: spec_clamp(
                    campos.x + tdiv(input.mouse_delta.x * 1_000_000, scale),
                    -WORLD_MAX as int,
                    WORLD_MAX as int,
                ) as Fixed,
                y: spec_clamp(
                    campos.y + tdiv(input.mouse_delta.y * 1_000_000, scale),
                    -WORLD_MAX as int,
                    WORLD_MAX as int,
                ) as Fixed,
                z: 0,
            }
        } else {
            Vec3fx { x: campos.x, y: campos.y, z: 0 }
        }
    }

    /// The zoom after a scroll, clamped.
    pub open spec fn spec_zoom_scale(scale: int, input: InputState) -> int {
        if input.mouse_scroll != 0 {
            spec_clamp(scale - input.mouse_scroll * 100, 100, 1_000_000)
        } else {
            scale
        }
    }

    /// The camera shift after a zoom change: adjusted so the world
    /// point under the pointer stays fixed.
    pub open spec fn spec_zoom_campos(campos: Vec3fx, scale: int, input: InputState) -> Vec3fx {
        if input.mouse_scroll != 0 {
            let scale2 = GameScreen::spec_zoom_scale(scale, input);
            let rx = tdiv(input.mouse.x * 1000, scale2) - tdiv(input.mouse.x * 1000, scale);
            let ry = tdiv(input.mouse.y * 1000, scale2) - tdiv(input.mouse.y * 1000, scale);
            Vec3fx {
                x: spec_clamp(campos.x + rx * 1000, -WORLD_MAX as int, WORLD_MAX as int) as Fixed,
                y: spec_clamp(campos.y + ry * 1000, -WORLD_MAX as int, WORLD_MAX as int) as Fixed,
                z: 0,
            }
        } else {
            campos
        }
    }

    /// The camera rectangle after a right-button recenter onto the
    /// pointer's world position.
    pub open spec fn spec_recenter(camera: Camera, campos: Vec3fx, scale: int,
        input: InputState) -> Camera {
        if input.right_button {
            Camera {
                pos: Vec3i {
                    x: (tdiv(
                        GameScreen::spec_screen_to_game(scale, campos, input.mouse).x as int,
                        1000,
                    ) - tdiv(camera.size.x as int, 2)) as IScalar,
                    y: (tdiv(
                        GameScreen::spec_screen_to_game(scale, campos, input.mouse).y as int,
                        1000,
                    ) - tdiv(camera.size.y as int, 2)) as IScalar,
                    z: 0,
                },
                ..camera
            }
        } else {
            camera
        }
    }

    /// Applies the left-button pan.
    #[verifier::spinoff_prover]
    fn fold_pan(&mut self, input: &InputState)
        requires
            old(self).wf(),
            -1_000_000_000 <= input.mouse_delta.x <= 1_000_000_000,
            -1_000_000_000 <= input.mouse_delta.y <= 1_000_000_000,
        ensures
            final(self).wf(),
            *final(self) == (GameScreen {
                main_camera_pos: GameScreen::spec_pan(
                    old(self).main_camera_pos,
                    old(self).scale as int,
                    *input,
                ),
                ..*old(self)
            }),
    {
        if input.left_button {
            proof {
                crate::util::lemma_tdiv_abs_bound(
                    input.mouse_delta.x * 1_000_000,
                    self.scale as int,
                );
                crate::util::lemma_tdiv_abs_bound(
                    input.mouse_delta.y * 1_000_000,
                    self.scale as int,
                );
            }
            let dx = crate::util::mul_div_trunc(
                input.mouse_delta.x as i64,
                1_000_000,
                self.scale,
            );
            let dy = crate::util::mul_div_trunc(
                input.mouse_delta.y as i64,
                1_000_000,
                self.scale,
            );
            self.main_camera_pos = Vec3 {
                x: clamp_world(self.main_camera_pos.x + dx),
                y: clamp_world(self.main_camera_pos.y + dy),
                z: 0,
            };
        } else {
            let z0 = self.main_camera_pos;
            self.main_camera_pos = Vec3 { x: z0.x, y: z0.y, z: 0 };
        }
        proof {
            assert forall|i: int| 0 <= i < self.entities@.len() implies {
                &&& (#[trigger] self.entities@[i]).wf()
                &&& self.entities@[i].base.id == i
                &&& 0 <= self.entities@[i].base.class < self.classes@.len()
            } by {
                assert(self.entities@[i] == old(self).entities@[i]);
            }
        }
    }

    /// Applies the right-button recenter.
    #[verifier::spinoff_prover]
    fn fold_recenter(&mut self, input: &InputState)
        requires
            old(self).wf(),
        ensures
            final(self).wf(),
            *final(self) == (GameScreen {
                camera: GameScreen::spec_recenter(
                    old(self).camera,
                    old(self).main_camera_pos,
                    old(self).scale as int,
                    *input,
                ),
                ..*old(self)
            }),
    {
        if input.right_button {
            let world = self.screen_pos_to_game_pos(input.mouse);
            proof {
                crate::util::lemma_tdiv_abs_bound(world.x as int, 1000);
                crate::util::lemma_tdiv_abs_bound(world.y as int, 1000);
                vstd::arithmetic::div_mod::lemma_div_is_ordered(
                    crate::util::spec_abs(world.x as int),
                    1_000_000_000,
                    1000,
                );
                vstd::arithmetic::div_mod::lemma_div_is_ordered(
                    crate::util::spec_abs(world.y as int),
                    1_000_000_000,
                    1000,
                );
                vstd::arithmetic::div_mod::lemma_div_pos_is_pos(self.camera.size.x as int, 2);
                vstd::arithmetic::div_mod::lemma_div_is_ordered(
                    self.camera.size.x as int,
                    1_000_000_000,
                    2,
                );
                vstd::arithmetic::div_mod::lemma_div_pos_is_pos(self.camera.size.y as int, 2);
                vstd::arithmetic::div_mod::lemma_div_is_ordered(
                    self.camera.size.y as int,
                    1_000_000_000,
                    2,
                );
            }
            let ux = crate::util::div_trunc(world.x, 1000) as IScalar;
            let uy = crate::util::div_trunc(world.y, 1000) as IScalar;
            self.camera.pos = Vec3 {
                x: ux - self.camera.size.x / 2,
                y: uy - self.camera.size.y / 2,
                z: 0,
            };
        }
        proof {
            assert forall|i: int| 0 <= i < self.entities@.len() implies {
                &&& (#[trigger] self.entities@[i]).wf()
                &&& self.entities@[i].base.id == i
                &&& 0 <= self.entities@[i].base.class < self.classes@.len()
            } by {
                assert(self.entities@[i] == old(self).entities@[i]);
            }
        }
    }

    /// Applies the scroll-wheel zoom, keeping the world point under
    /// the pointer fixed.
    #[verifier::spinoff_prover]
    fn fold_zoom(&mut self, input: &InputState)
        requires
            old(self).wf(),
            -1_000_000 <= input.mouse_scroll <= 1_000_000,
        ensures
            final(self).wf(),
            *final(self) == (GameScreen {
                scale: GameScreen::spec_zoom_scale(old(self).scale as int, *input) as Fixed,
                main_camera_pos: GameScreen::spec_zoom_campos(
                    old(self).main_camera_pos,
                    old(self).scale as int,
                    *input,
                ),
                ..*old(self)
            }),
    {
        if input.mouse_scroll != 0 {
            let old_scale = self.scale;
            let mut new_scale = self.scale - (input.mouse_scroll as i64) * 100;
            if new_scale < 100 {
                new_scale = 100;
            }
            if new_scale > 1_000_000 {
                new_scale = 1_000_000;
            }
            self.scale = new_scale;
            proof {
                crate::util::lemma_tdiv_abs_bound(input.mouse.x * 1000, new_scale as int);
                crate::util::lemma_tdiv_abs_bound(input.mouse.x * 1000, old_scale as int);
                crate::util::lemma_tdiv_abs_bound(input.mouse.y * 1000, new_scale as int);
                crate::util::lemma_tdiv_abs_bound(input.mouse.y * 1000, old_scale as int);
            }
            let ox = crate::util::mul_div_trunc(input.mouse.x as i64, 1000, old_scale);
            let nx = crate::util::mul_div_trunc(input.mouse.x as i64, 1000, new_scale);
            let oy = crate::util::mul_div_trunc(input.mouse.y as i64, 1000, old_scale);
            let ny = crate::util::mul_div_trunc(input.mouse.y as i64, 1000, new_scale);
            self.main_camera_pos = Vec3 {
                x: clamp_world(self.main_camera_pos.x + (nx - ox) * 1000),
                y: clamp_world(self.main_camera_pos.y + (ny - oy) * 1000),
                z: 0,
            };
        }
        proof {
            assert forall|i: int| 0 <= i < self.entities@.len() implies {
                &&& (#[trigger] self.entities@[i]).wf()
                &&& self.entities@[i].base.id == i
                &&& 0 <= self.entities@[i].base.class < self.classes@.len()
            } by {
                assert(self.entities@[i] == old(self).entities@[i]);
            }
        }
    }

    /// Folds the tick's pointer input into the camera: the left
    /// button pans by the pointer delta unscaled by the zoom, the
    /// right button recenters the camera rectangle on the pointer,
    /// and the scroll wheel changes the clamped zoom while keeping
    /// the world point under the pointer fixed. Reports whether an
    /// exit was requested, and on exit touches nothing.
    #[verifier::spinoff_prover]
    pub fn process_input(&mut self, input: &InputState) -> (quit: bool)
        requires
            old(self).wf(),
            -1_000_000_000 <= input.mouse_delta.x <= 1_000_000_000,
            -1_000_000_000 <= input.mouse_delta.y <= 1_000_000_000,
            -1_000_000 <= input.mouse_scroll <= 1_000_000,
        ensures
            final(self).wf(),
            quit == input.exit_pressed,
            final(self).entities@ == old(self).entities@,
            final(self).level == old(self).level,
            final(self).classes == old(self).classes,
            final(self).vehicle_state == old(self).vehicle_state,
            final(self).time == old(self).time,
            final(self).entity_spawn_counter == old(self).entity_spawn_counter,
            quit ==> final(self).main_camera_pos == old(self).main_camera_pos && final(self).camera == old(self).camera && final(self).scale == old(self).scale,
            !quit ==> ({
                let cam1 = GameScreen::spec_pan(
                    old(self).main_camera_pos,
                    old(self).scale as int,
                    *input,
                );
                &&& final(self).scale == GameScreen::spec_zoom_scale(
                    old(self).scale as int,
                    *input,
                )
                &&& final(self).main_camera_pos == GameScreen::spec_zoom_campos(
                    cam1,
                    old(self).scale as int,
                    *input,
                )
                &&& final(self).camera == GameScreen::spec_recenter(
                    old(self).camera,
                    cam1,
                    old(self).scale as int,
                    *input,
                )
            }),
    {
        if input.exit_pressed {
            return true;
        }
        self.fold_pan(input);
        self.fold_recenter(input);
        self.fold_zoom(input);
        false
    }

    /// One simulation tick in the fixed order: input, traffic-light
    /// phase, one despawn slot, every entity's behavior step (the
    /// player additionally driven by the controller), then collision
    /// resolution. Returns false when the input asked to quit.
    #[verifier::spinoff_prover]
    pub fn step(&mut self, delta: Time, input: &InputState) -> (running: bool)
        requires
            old(self).wf(),
            delta <= DELTA_MAX,
            -1_000_000_000 <= input.mouse_delta.x <= 1_000_000_000,
            -1_000_000_000 <= input.mouse_delta.y <= 1_000_000_000,
            -1_000_000 <= input.mouse_scroll <= 1_000_000,
        ensures
            final(self).wf(),
            final(self).entities@.len() == old(self).entities@.len(),
            final(self).level == old(self).level,
            final(self).classes == old(self).classes,
            running == !input.exit_pressed,
            final(self).time == if old(self).time < 0x1000_0000_0000_0000 - 600_000 {
                old(self).time + delta
            } else {
                old(self).time as int
            },
            running ==> final(self).vehicle_state.trafficlight == crate::vehicle::spec_phase(
                final(self).time as int,
            ),
            // the tick runs the fixed order: one despawn slot touches
            // at most one entity, every entity then takes one behavior
            // step, and the collision pass resolves the stepped arena
            running ==> exists|mid1: Seq<Entity>, mid2: Seq<Entity>|
                #![trigger changed_at_most_one(old(self).entities@, mid1), GameScreen::spec_resolve_from(old(self).level, mid2, 0, 1)]
                {
                    &&& changed_at_most_one(old(self).entities@, mid1)
                    &&& mid2.len() == mid1.len() == old(self).entities@.len()
                    &&& forall|i: int|
                        0 <= i < mid1.len() ==> entity_stepped_rel(#[trigger] mid1[i], mid2[i])
                    &&& final(self).entities@ == GameScreen::spec_resolve_from(
                        old(self).level,
                        mid2,
                        0,
                        1,
                    )
                },
    {
        if self.time < 0x1000_0000_0000_0000 - DELTA_MAX {
            self.time = self.time + delta;
        }
        let quit = self.process_input(input);
        if quit {
            return false;
        }
        self.vehicle_state.step(self.time);
        self.step_entity_despawn();
        let ghost mid1 = self.entities@;
        proof {
            assert(changed_at_most_one(old(self).entities@, mid1));
        }
        let mouse_world = self.screen_pos_to_game_pos(input.mouse);
        let entities_len = self.entities.len();
        let ghost vs0 = self.vehicle_state;
        let ghost t0 = self.time;
        let mut i: usize = 0;
        while i < entities_len
            invariant
                self.wf(),
                entities_len == self.entities@.len() == old(self).entities@.len(),
                self.level == old(self).level,
                self.classes == old(self).classes,
                crate::types::vec_in_range(mouse_world, 1_000_000_000),
                self.vehicle_state == vs0,
                self.time == t0,
                delta <= DELTA_MAX,
                mid1.len() == entities_len,
                forall|ii: int|
                    0 <= ii < i ==> entity_stepped_rel(#[trigger] mid1[ii], self.entities@[ii]),
                forall|ii: int|
                    i <= ii < entities_len ==> self.entities@[ii] == #[trigger] mid1[ii],
            decreases entities_len - i,
        {
            let views = self.entity_views();
            let class = self.classes[self.entities[i].base.class as usize];
            let pre_stance = self.entities[i].base.stance;
            let entity_type = self.entities[i].base.entity_type;
            let light = self.vehicle_state.trafficlight;
            let ghost pre = *self;
            {
                let level = &self.level;
                let entity = &mut self.entities[i];
                entity.step(&class, level, &views, light, delta);
            }
            proof {
                assert forall|j: int| 0 <= j < pre.entities@.len() implies {
                    &&& (#[trigger] self.entities@[j]).wf()
                    &&& self.entities@[j].base.id == j
                    &&& 0 <= self.entities@[j].base.class < self.classes@.len()
                } by {
                    if j != i {
                        assert(self.entities@[j] == pre.entities@[j]);
                    }
                }
            }
            let was_halted = pre_stance == EntityStance::Dead || pre_stance
                == EntityStance::LyingDown;
            if entity_type == EntityType::Player && !was_halted && !self.entities[i].base.hidden {
                let ghost pre2 = *self;
                {
                    let pc = &mut self.playercontroller;
                    let entity = &mut self.entities[i];
                    pc.process_player(delta, &mut entity.base, &class, mouse_world, input);
                }
                proof {
                    assert forall|j: int| 0 <= j < pre2.entities@.len() implies {
                        &&& (#[trigger] self.entities@[j]).wf()
                        &&& self.entities@[j].base.id == j
                        &&& 0 <= self.entities@[j].base.class < self.classes@.len()
                    } by {
                        if j != i {
                            assert(self.entities@[j] == pre2.entities@[j]);
                        }
                    }
                }
            }
            proof {
                assert(entity_stepped_rel(mid1[i as int], self.entities@[i as int]));
            }
            i = i + 1;
        }
        let ghost mid2 = self.entities@;
        let ghost lv = self.level;
        self.step_collision(delta);
        proof {
            assert(lv == old(self).level);
            assert(self.entities@ == GameScreen::spec_resolve_from(lv, mid2, 0, 1));
            assert(changed_at_most_one(old(self).entities@, mid1) && mid2.len() == mid1.len()
                && forall|i: int|
                0 <= i < mid1.len() ==> entity_stepped_rel(#[trigger] mid1[i], mid2[i]));
        }
        true
    }

    /// The initial draw-order list: one id per entity, in index order.
    pub fn create_entity_ids(&mut self)
        requires
            old(self).wf(),
        ensures
            final(self).wf(),
            final(self).entity_ids@.len() == final(self).entities@.len(),
            *final(self) == (GameScreen { entity_ids: final(self).entity_ids, ..*old(self) }),
            forall|i: int|
                0 <= i < final(self).entity_ids@.len() ==> final(self).entity_ids@[i] == i,
    {
        let n = self.entities.len();
        let mut ids: Vec<EntityId> = Vec::new();
        let mut i: usize = 0;
        while i < n
            invariant
                i == ids@.len() <= n <= 100_000,
                forall|j: int| 0 <= j < i ==> ids@[j] == j,
            decreases n - i,
        {
            ids.push(i as EntityId);
            i = i + 1;
        }
        self.entity_ids = ids;
    }
}

} // verus!
