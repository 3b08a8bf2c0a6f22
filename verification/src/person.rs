//! Person behaviors: the shared stance state machine, the
//! sidewalk-walking pedestrian variant, and the pointer/keys-driven
//! player variant.
use vstd::prelude::*;
use crate::types::{Angle, Fixed, PaletteId, Time, Vec3, Vec3fx};
use crate::util::{tdiv, spec_abs};
use crate::angle::{spec_cos, spec_sin, HALF_PI, TAU};
use crate::entity::{
    EntityBase, EntityClass, EntityStance, EntityType, DELTA_MAX, SPEED_MAX, STANCE_MILLIS_MAX,
};
use crate::level::Level;

verus! {

/// Fixed run speed of the player, in milli-units per second.
pub const PLAYER_SPEED: Fixed = 60_000;

/// Sidewalk-walking state: the picked direction vector (scaled by the
/// class extents) and its heading.
#[derive(Debug, Clone, PartialEq)]
pub struct SidewalkData {
    pub walking_direction: Vec3fx,
    pub walking_angle: Angle,
}

#[derive(Debug, Clone, PartialEq)]
pub struct PlayerData {}

/// The person behavior variants.
#[derive(Debug, Clone, PartialEq)]
pub enum PersonData {
    Base,
    Sidewalk(SidewalkData),
    Player(PlayerData),
}

impl PersonData {
    /// Pedestrian-like types walk sidewalks; the player type is driven
    /// by input; everything else only runs the base stance machine.
    pub fn new(entity_type: EntityType) -> (r: PersonData)
        ensures
            (entity_type == EntityType::Pedestrian || entity_type == EntityType::VehiclePedestrian
                || entity_type == EntityType::Gangster || entity_type == EntityType::Type7
                || entity_type == EntityType::Police) ==> r == PersonData::Sidewalk(
                SidewalkData { walking_direction: Vec3fx { x: 0, y: 0, z: 0 }, walking_angle: 0 },
            ),
            entity_type == EntityType::Player ==> r == PersonData::Player(PlayerData {}),
            r matches PersonData::Sidewalk(s) ==> s == (SidewalkData {
                walking_direction: Vec3fx { x: 0, y: 0, z: 0 },
                walking_angle: 0,
            }),
    {
        if entity_type == EntityType::Pedestrian || entity_type == EntityType::VehiclePedestrian
            || entity_type == EntityType::Gangster || entity_type == EntityType::Type7
            || entity_type == EntityType::Police {
            PersonData::Sidewalk(SidewalkData::new())
        } else if entity_type == EntityType::Player {
            PersonData::Player(PlayerData::new())
        } else {
            PersonData::Base
        }
    }
}

/// The fields of the base record that the stance machine never touches.
pub open spec fn person_statics_unchanged(pre: EntityBase, post: EntityBase) -> bool {
    &&& post.id == pre.id
    &&& post.class == pre.class
    &&& post.entity_type == pre.entity_type
    &&& post.palette == pre.palette
    &&& post.gender == pre.gender
    &&& post.hidden == pre.hidden
    &&& post.can_update_sort == pre.can_update_sort
}

/// One step of the stance machine every person shares. Death halts the
/// entity entirely; lying down halts it for the tick and stands it up
/// after three seconds; aiming stands it up after one second. A
/// non-halted entity snapshots its transform and follows its route.
///
/// Stepping an Aiming entity whose accumulated stance time has reached
/// 1000 ms transitions it to Standing exactly once, with the stance
/// timer reset at the transition.
pub fn step_base_person(entity: &mut EntityBase, delta: Time) -> (halted: bool)
    requires
        old(entity).wf(),
        delta <= DELTA_MAX,
    ensures
        final(entity).wf(),
        person_statics_unchanged(*old(entity), *final(entity)),
        halted == (old(entity).stance == EntityStance::Dead || old(entity).stance
            == EntityStance::LyingDown),
        old(entity).stance == EntityStance::Dead ==> *final(entity) == *old(entity),
        old(entity).stance != EntityStance::Dead ==> {
            &&& final(entity).prev_pos == old(entity).pos
            &&& final(entity).prev_angle == old(entity).angle
        },
        old(entity).stance == EntityStance::Aiming ==> {
            &&& old(entity).stance_millis >= 1000 ==> final(entity).stance
                == EntityStance::Standing && final(entity).stance_millis == 0
            &&& old(entity).stance_millis < 1000 ==> final(entity).stance == EntityStance::Aiming
                && final(entity).stance_millis == old(entity).stance_millis
        },
        old(entity).stance == EntityStance::LyingDown ==> {
            &&& final(entity).pos == old(entity).pos
            &&& final(entity).angle == old(entity).angle
            &&& old(entity).stance_millis >= 3000 ==> final(entity).stance
                == EntityStance::Standing && final(entity).stance_millis == 0
            &&& old(entity).stance_millis < 3000 ==> final(entity).stance
                == EntityStance::LyingDown && final(entity).stance_millis == old(entity).stance_millis
        },
        !halted && old(entity).route.route.is_none() ==> {
            &&& final(entity).pos == old(entity).pos
            &&& final(entity).angle == old(entity).angle
            &&& final(entity).speed == old(entity).speed
            &&& final(entity).stance == if old(entity).stance == EntityStance::Aiming && old(entity).stance_millis >= 1000 {
                EntityStance::Standing
            } else {
                old(entity).stance
            }
        },
{
    if entity.stance == EntityStance::Dead {
        return true;
    }
    entity.update_prev();
    match entity.stance {
        EntityStance::Aiming => {
            if entity.stance_millis >= 1000 {
                entity.set_new_stance(EntityStance::Standing);
            }
        },
        EntityStance::LyingDown => {
            if entity.stance_millis >= 3000 {
                entity.set_new_stance(EntityStance::Standing);
            }
            return true;
        },
        _ => {},
    }
    entity.step_route(delta);
    false
}

impl SidewalkData {
    pub fn new() -> (r: SidewalkData)
        ensures
            r.walking_direction == (Vec3fx { x: 0, y: 0, z: 0 }),
            r.walking_angle == 0,
    {
        SidewalkData { walking_direction: Vec3 { x: 0, y: 0, z: 0 }, walking_angle: 0 }
    }

    /// The direction vector belonging to a picked axis heading: the
    /// class extents scaled by the heading's cosine and sine.
    pub open spec fn spec_direction_for(class: EntityClass, angle: int) -> Vec3fx {
        Vec3fx {
            x: tdiv(class.width * spec_cos(angle), 1000) as Fixed,
            y: tdiv(class.height * spec_sin(angle), 1000) as Fixed,
            z: 0,
        }
    }

    /// Picks one of the four axis-aligned headings at random and
    /// stores it with its direction vector.
    fn pick_sidewalk_direction(&mut self, class: &EntityClass)
        requires
            class.wf(),
        ensures
            exists|k: int|
                0 <= k < 4 && final(self).walking_angle == k * HALF_PI
                    && final(self).walking_direction == #[trigger] SidewalkData::spec_direction_for(
                    *class,
                    k * (HALF_PI as int),
                ),
            0 <= final(self).walking_angle <= TAU,
            crate::types::vec_in_range(final(self).walking_direction, 100_000_000),
    {
        let k = crate::util::pick_int(4);
        let angle: Angle = (k as i64) * HALF_PI;
        proof {
            crate::angle::lemma_cos_bounds(angle as int);
            crate::angle::lemma_sin_bounds(angle as int);
            crate::util::lemma_abs_mul_bound(
                class.width as int,
                spec_cos(angle as int),
                100_000_000,
                1000,
            );
            crate::util::lemma_abs_mul_bound(
                class.height as int,
                spec_sin(angle as int),
                100_000_000,
                1000,
            );
            crate::util::lemma_tdiv_abs_bound(class.width * spec_cos(angle as int), 1000);
            crate::util::lemma_tdiv_abs_bound(class.height * spec_sin(angle as int), 1000);
            vstd::arithmetic::div_mod::lemma_div_is_ordered(
                spec_abs(class.width * spec_cos(angle as int)),
                100_000_000_000,
                1000,
            );
            vstd::arithmetic::div_mod::lemma_div_is_ordered(
                spec_abs(class.height * spec_sin(angle as int)),
                100_000_000_000,
                1000,
            );
        }
        let c = crate::angle::cos_fp(angle);
        let s = crate::angle::sin_fp(angle);
        let dx = crate::util::mul_div_trunc(class.width, c, 1000);
        let dy = crate::util::mul_div_trunc(class.height, s, 1000);
        self.walking_direction = Vec3 { x: dx, y: dy, z: 0 };
        self.walking_angle = angle;
        proof {
            let ki = k as int;
            assert(self.walking_angle == ki * HALF_PI);
            assert(self.walking_direction == SidewalkData::spec_direction_for(
                *class,
                ki * (HALF_PI as int),
            ));
        }
    }

    /// One step of the sidewalk walker.
    ///
    /// While Standing it tries up to four random directions and starts
    /// Walking along the first whose destination tile is a sidewalk,
    /// at a random speed in `[15, 30)` units per second. While Walking
    /// it advances along the stored heading; if the destination tile
    /// stops being a sidewalk the move is rolled back exactly to the
    /// pre-tick transform and the walker stands still again.
    pub fn step(&mut self, entity: &mut EntityBase, class: &EntityClass, level: &Level,
        delta: Time) -> (halted: bool)
        requires
            old(entity).wf(),
            class.wf(),
            level.wf(),
            delta <= DELTA_MAX,
            crate::types::vec_in_range(old(self).walking_direction, 100_000_000),
            -TAU <= old(self).walking_angle <= TAU,
        ensures
            final(entity).wf(),
            person_statics_unchanged(*old(entity), *final(entity)),
            halted == (old(entity).stance == EntityStance::Dead || old(entity).stance
                == EntityStance::LyingDown),
            crate::types::vec_in_range(final(self).walking_direction, 100_000_000),
            -TAU <= final(self).walking_angle <= TAU,
            // rollback: a walking step whose destination fails the
            // sidewalk test restores the pre-tick transform exactly
            old(entity).stance == EntityStance::Walking && old(entity).route.route.is_none()
                && !crate::level::spec_pos_is_sidewalk(
                *level,
                walk_target(*old(entity), *old(self), delta as int),
            ) ==> {
                &&& final(entity).pos.x == final(entity).prev_pos.x
                &&& final(entity).pos.y == final(entity).prev_pos.y
                &&& final(entity).pos.z == old(entity).pos.z
                &&& final(entity).angle == final(entity).prev_angle
                &&& final(entity).prev_pos == old(entity).pos
                &&& final(entity).prev_angle == old(entity).angle
                &&& final(entity).stance == EntityStance::Standing
                &&& final(entity).stance_millis == 0
            },
            // a legal walking step advances along the stored heading
            old(entity).stance == EntityStance::Walking && old(entity).route.route.is_none()
                && crate::level::spec_pos_is_sidewalk(
                *level,
                walk_target(*old(entity), *old(self), delta as int),
            ) ==> {
                &&& final(entity).stance == EntityStance::Walking
                &&& final(entity).angle == old(self).walking_angle
                &&& final(entity).pos == walked_pos(*old(entity), *old(self), delta as int)
                &&& final(entity).prev_pos == old(entity).pos
                &&& final(entity).prev_angle == old(entity).angle
            },
            // when every one of the four candidate directions lands on
            // a sidewalk, a standing walker always starts walking
            (old(entity).stance == EntityStance::Standing && old(entity).route.route.is_none()
                && (forall|k: int|
                0 <= k < 4 ==> crate::level::spec_pos_is_sidewalk(
                    *level,
                    Vec3fx {
                        x: (old(entity).pos.x + #[trigger] SidewalkData::spec_direction_for(
                            *class,
                            k * (HALF_PI as int),
                        ).x) as Fixed,
                        y: (old(entity).pos.y + SidewalkData::spec_direction_for(
                            *class,
                            k * (HALF_PI as int),
                        ).y) as Fixed,
                        z: old(entity).pos.z,
                    },
                ))) ==> final(entity).stance == EntityStance::Walking && 15_000 <= final(entity).speed < 30_000,
            // a standing walker either starts walking onto a sidewalk
            // tile or stays standing
            old(entity).stance == EntityStance::Standing && old(entity).route.route.is_none()
                ==> {
                ||| {
                    &&& final(entity).stance == EntityStance::Walking
                    &&& 15_000 <= final(entity).speed < 30_000
                    &&& crate::level::spec_pos_is_sidewalk(
                        *level,
                        Vec3fx {
                            x: (old(entity).pos.x + final(self).walking_direction.x) as Fixed,
                            y: (old(entity).pos.y + final(self).walking_direction.y) as Fixed,
                            z: old(entity).pos.z,
                        },
                    )
                }
                ||| {
                    &&& final(entity).stance == EntityStance::Standing
                    &&& final(entity).pos == old(entity).pos
                    &&& final(entity).speed == old(entity).speed
                }
            },
    {
        let halted = step_base_person(entity, delta);
        if halted {
            return true;
        }
        if entity.stance == EntityStance::Standing {
            let ghost base0 = *entity;
            let mut tries: usize = 0;
            let mut started = false;
            while tries < 4 && !started
                invariant
                    entity.wf(),
                    class.wf(),
                    level.wf(),
                    crate::types::vec_in_range(self.walking_direction, 100_000_000),
                    -TAU <= self.walking_angle <= TAU,
                    person_statics_unchanged(base0, *entity),
                    entity.prev_pos == base0.prev_pos,
                    entity.prev_angle == base0.prev_angle,
                    entity.pos == base0.pos,
                    entity.angle == base0.angle,
                    entity.route == base0.route,
                    old(entity).route.route.is_none() ==> base0.pos == old(entity).pos,
                    (old(entity).stance == EntityStance::Standing && old(entity).route.route.is_none()
                        && (forall|k: int|
                        0 <= k < 4 ==> crate::level::spec_pos_is_sidewalk(
                            *level,
                            Vec3fx {
                                x: (old(entity).pos.x + #[trigger] SidewalkData::spec_direction_for(
                                    *class,
                                    k * (HALF_PI as int),
                                ).x) as Fixed,
                                y: (old(entity).pos.y + SidewalkData::spec_direction_for(
                                    *class,
                                    k * (HALF_PI as int),
                                ).y) as Fixed,
                                z: old(entity).pos.z,
                            },
                        )) && tries > 0) ==> started,
                    !started ==> entity.stance == EntityStance::Standing && entity.speed
                        == base0.speed,
                    started ==> entity.stance == EntityStance::Walking && 15_000 <= entity.speed
                        < 30_000 && crate::level::spec_pos_is_sidewalk(
                        *level,
                        Vec3fx {
                            x: (base0.pos.x + self.walking_direction.x) as Fixed,
                            y: (base0.pos.y + self.walking_direction.y) as Fixed,
                            z: base0.pos.z,
                        },
                    ),
                decreases 4 - tries + (if started { 0int } else { 1int }),
            {
                self.pick_sidewalk_direction(class);
                let target = Vec3 {
                    x: entity.pos.x + self.walking_direction.x,
                    y: entity.pos.y + self.walking_direction.y,
                    z: entity.pos.z,
                };
                if crate::level::pos_is_sidewalk(level, target) {
                    entity.set_new_stance(EntityStance::Walking);
                    entity.speed = 15_000 + crate::util::pick_fixed(15_000);
                    started = true;
                } else {
                    proof {
                        if old(entity).stance == EntityStance::Standing && old(entity).route.route.is_none()
                            && (forall|k: int|
                            0 <= k < 4 ==> crate::level::spec_pos_is_sidewalk(
                                *level,
                                Vec3fx {
                                    x: (old(entity).pos.x
                                        + #[trigger] SidewalkData::spec_direction_for(
                                        *class,
                                        k * (HALF_PI as int),
                                    ).x) as Fixed,
                                    y: (old(entity).pos.y + SidewalkData::spec_direction_for(
                                        *class,
                                        k * (HALF_PI as int),
                                    ).y) as Fixed,
                                    z: old(entity).pos.z,
                                },
                            )) {
                            let k = choose|k: int|
                                0 <= k < 4 && self.walking_angle == k * HALF_PI
                                    && self.walking_direction
                                    == #[trigger] SidewalkData::spec_direction_for(
                                    *class,
                                    k * (HALF_PI as int),
                                );
                            assert(crate::level::spec_pos_is_sidewalk(
                                *level,
                                Vec3fx {
                                    x: (old(entity).pos.x + SidewalkData::spec_direction_for(
                                        *class,
                                        k * (HALF_PI as int),
                                    ).x) as Fixed,
                                    y: (old(entity).pos.y + SidewalkData::spec_direction_for(
                                        *class,
                                        k * (HALF_PI as int),
                                    ).y) as Fixed,
                                    z: old(entity).pos.z,
                                },
                            ));
                            assert(false);
                        }
                    }
                    tries = tries + 1;
                }
            }
        } else if entity.stance == EntityStance::Walking {
            let old_angle = entity.angle;
            entity.angle = self.walking_angle;
            entity.move_forward(delta);
            let target = Vec3 {
                x: entity.pos.x + self.walking_direction.x,
                y: entity.pos.y + self.walking_direction.y,
                z: entity.pos.z,
            };
            if !crate::level::pos_is_sidewalk(level, target) {
                let px = entity.prev_pos.x;
                let py = entity.prev_pos.y;
                entity.pos = Vec3 { x: px, y: py, z: entity.pos.z };
                entity.angle = old_angle;
                entity.set_new_stance(EntityStance::Standing);
            }
        }
        false
    }
}

/// Where a walking step under `data`'s heading lands, plus the walking
/// direction: the tile this point falls on decides whether the step is
/// legal.
pub open spec fn walk_target(pre: EntityBase, data: SidewalkData, delta: int) -> Vec3fx {
    let moved = walked_pos(pre, data, delta);
    Vec3fx {
        x: (moved.x + data.walking_direction.x) as Fixed,
        y: (moved.y + data.walking_direction.y) as Fixed,
        z: moved.z,
    }
}

/// The position a walking step moves to: a straight move along the
/// stored walking heading.
pub open spec fn walked_pos(pre: EntityBase, data: SidewalkData, delta: int) -> Vec3fx {
    if pre.speed == 0 {
        pre.pos
    } else {
        crate::entity::spec_strafe(pre.pos, data.walking_angle as int, pre.speed as int, 0, delta)
    }
}

impl PlayerData {
    pub fn new() -> (r: PlayerData)
        ensures
            r == (PlayerData {}),
    {
        PlayerData {}
    }
}

/// Palette for a person entity type: fixed for the player and police,
/// the shared pedestrian palette for civilian types.
pub fn get_palette_id(entity_type: EntityType) -> (r: PaletteId)
    ensures
        entity_type == EntityType::Player ==> r == 13,
        entity_type == EntityType::Police ==> r == 0,
        (entity_type == EntityType::Type1 || entity_type == EntityType::Pedestrian || entity_type
            == EntityType::VehiclePedestrian || entity_type == EntityType::Type7) ==> r == 12,
{
    if entity_type == EntityType::Player {
        13
    } else if entity_type == EntityType::Police {
        0
    } else if entity_type == EntityType::Type1 || entity_type == EntityType::Pedestrian
        || entity_type == EntityType::VehiclePedestrian || entity_type == EntityType::Type7 {
        EntityBase::pick_npc_person_palette()
    } else {
        0
    }
}

} // verus!
