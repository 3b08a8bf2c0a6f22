//! The player controller: 8-way keyboard movement with the heading
//! taken from the pointer, suppressed near the entity's center.
use vstd::prelude::*;
use crate::types::{Angle, Time, Vec3fx};
use crate::util::tdiv;
use crate::angle::{
    spec_atan2, ANGLE_E, ANGLE_N, ANGLE_NE, ANGLE_NW, ANGLE_S, ANGLE_SE, ANGLE_SW, ANGLE_W, PI,
    TAU,
};
use crate::entity::{EntityBase, EntityClass, EntityStance, DELTA_MAX};
use crate::input::InputState;
use crate::person::PLAYER_SPEED;

verus! {

/// Something that drives the player entity each tick from the current
/// input.
pub trait PlayerController {
    fn process(&mut self, delta: Time, entity: &mut EntityBase, class: &EntityClass,
        mouse_world: Vec3fx, input: &InputState)
        requires
            old(entity).wf(),
            class.wf(),
            delta <= DELTA_MAX,
            crate::types::vec_in_range(mouse_world, 1_000_000_000),
        ensures
            final(entity).wf(),
    ;
}

#[derive(Debug, Clone, Copy, PartialEq, Eq, Structural)]
pub struct ModernPlayerControls {}

/// The 8-way heading held directional keys select; up and down (and
/// left and right) cancel with up (and left) winning.
pub open spec fn spec_movement_direction(input: InputState) -> Option<int> {
    let up = input.up;
    let down = !input.up && input.down;
    let left = input.left;
    let right = !input.left && input.right;
    if up {
        if left {
            Some(ANGLE_NW as int)
        } else if right {
            Some(ANGLE_NE as int)
        } else {
            Some(ANGLE_N as int)
        }
    } else if down {
        if left {
            Some(ANGLE_SW as int)
        } else if right {
            Some(ANGLE_SE as int)
        } else {
            Some(ANGLE_S as int)
        }
    } else if left {
        Some(ANGLE_W as int)
    } else if right {
        Some(ANGLE_E as int)
    } else {
        None
    }
}

pub fn get_movement_direction(input: &InputState) -> (r: Option<Angle>)
    ensures
        r.is_some() == spec_movement_direction(*input).is_some(),
        r matches Some(a) ==> Some(a as int) == spec_movement_direction(*input) && 0 <= a < TAU,
{
    let mut up = false;
    let mut down = false;
    if input.up {
        up = true;
        down = false;
    } else if input.down {
        up = false;
        down = true;
    }
    let mut left = false;
    let mut right = false;
    if input.left {
        left = true;
        right = false;
    } else if input.right {
        left = false;
        right = true;
    }
    if up {
        if left {
            Some(ANGLE_NW)
        } else if right {
            Some(ANGLE_NE)
        } else {
            Some(ANGLE_N)
        }
    } else if down {
        if left {
            Some(ANGLE_SW)
        } else if right {
            Some(ANGLE_SE)
        } else {
            Some(ANGLE_S)
        }
    } else if left {
        Some(ANGLE_W)
    } else if right {
        Some(ANGLE_E)
    } else {
        None
    }
}

/// The pointer-derived heading: none while the pointer sits within
/// half the class width of the entity's center (no turn), otherwise
/// the direction from the entity toward the pointer.
pub open spec fn spec_mouse_angle(entity_pos: Vec3fx, width: int, mouse_world: Vec3fx) -> Option<
    int,
> {
    let dx = mouse_world.x - entity_pos.x;
    let dy = mouse_world.y - entity_pos.y;
    let dist = crate::util::spec_isqrt(dx * dx + dy * dy);
    if dist < width / 2 {
        None
    } else {
        Some(spec_atan2(tdiv(dy, 2), tdiv(dx, 2)))
    }
}

impl ModernPlayerControls {
    pub fn new() -> (r: ModernPlayerControls)
        ensures
            r == (ModernPlayerControls {}),
    {
        ModernPlayerControls {}
    }

    pub fn get_angle_from_mouse(entity_pos: Vec3fx, class: &EntityClass, mouse_world: Vec3fx)
        -> (r: Option<Angle>)
        requires
            class.wf(),
            crate::types::vec_in_range(entity_pos, 1_000_000_000),
            crate::types::vec_in_range(mouse_world, 1_000_000_000),
        ensures
            r.is_some() == spec_mouse_angle(entity_pos, class.width as int, mouse_world)
                .is_some(),
            r matches Some(a) ==> Some(a as int) == spec_mouse_angle(
                entity_pos,
                class.width as int,
                mouse_world,
            ) && -PI <= a <= PI,
    {
        let middle_delta = mouse_world.sub_v(entity_pos);
        let dist = middle_delta.len2();
        proof {
            crate::util::lemma_isqrt_unique(
                (middle_delta.x * middle_delta.x + middle_delta.y * middle_delta.y) as int,
                dist as int,
            );
            crate::util::lemma_tdiv_abs_bound(middle_delta.x as int, 2);
            crate::util::lemma_tdiv_abs_bound(middle_delta.y as int, 2);
        }
        if dist < class.width / 2 {
            None
        } else {
            let half = Vec3fx {
                x: crate::util::div_trunc(middle_delta.x, 2),
                y: crate::util::div_trunc(middle_delta.y, 2),
                z: 0,
            };
            Some(crate::angle::vec_angle(half))
        }
    }

    /// Drives the player for one tick: the heading follows the
    /// pointer; while a directional key is held (and the pointer sets
    /// a heading) the player runs at the fixed run speed along the
    /// key direction; otherwise the speed drops to zero and a
    /// self-moving stance settles back to Standing, while
    /// uninterruptible stances are left alone.
    pub fn process_player(&mut self, delta: Time, entity: &mut EntityBase, class: &EntityClass,
        mouse_world: Vec3fx, input: &InputState)
        requires
            old(entity).wf(),
            class.wf(),
            delta <= DELTA_MAX,
            crate::types::vec_in_range(mouse_world, 1_000_000_000),
        ensures
            final(entity).wf(),
            *final(self) == *old(self),
            final(entity).id == old(entity).id,
            final(entity).class == old(entity).class,
            final(entity).entity_type == old(entity).entity_type,
            final(entity).hidden == old(entity).hidden,
            ({
                let ma = spec_mouse_angle(old(entity).pos, class.width as int, mouse_world);
                let base_angle: int = match ma {
                    Some(a) => a,
                    None => old(entity).angle as int,
                };
                let md = spec_movement_direction(*input);
                let moving = old(entity).stance == EntityStance::Standing || old(entity).stance
                    == EntityStance::Aiming || old(entity).stance == EntityStance::Walking || old(entity).stance == EntityStance::Running;
                &&& final(entity).angle == base_angle
                &&& (moving && ma is Some && md is Some) ==> {
                    &&& final(entity).speed == PLAYER_SPEED
                    &&& final(entity).stance == EntityStance::Running
                    &&& final(entity).pos == crate::entity::spec_strafe(
                        old(entity).pos,
                        base_angle,
                        PLAYER_SPEED as int,
                        md->Some_0,
                        delta as int,
                    )
                }
                &&& (moving && !(ma is Some && md is Some)) ==> {
                    &&& final(entity).speed == 0
                    &&& final(entity).pos == old(entity).pos
                    &&& final(entity).stance == if old(entity).stance.spec_is_self_moving() {
                        EntityStance::Standing
                    } else {
                        old(entity).stance
                    }
                }
                &&& !moving ==> final(entity).speed == old(entity).speed && final(entity).pos
                    == old(entity).pos && final(entity).stance == old(entity).stance
            }),
    {
        let angle = ModernPlayerControls::get_angle_from_mouse(entity.pos, class, mouse_world);
        let has_angle = angle.is_some();
        match angle {
            Some(a) => {
                entity.angle = a;
            },
            None => {},
        }
        if entity.stance == EntityStance::Standing || entity.stance == EntityStance::Aiming
            || entity.stance == EntityStance::Walking || entity.stance
            == EntityStance::Running {
            let mut movement_direction: Option<Angle> = None;
            if has_angle {
                movement_direction = get_movement_direction(input);
            }
            match movement_direction {
                Some(md) => {
                    entity.speed = PLAYER_SPEED;
                    entity.set_new_stance(EntityStance::Running);
                    entity.strafe(md, delta);
                },
                None => {
                    entity.speed = 0;
                    if entity.stance.is_self_moving() {
                        entity.set_new_stance(EntityStance::Standing);
                    }
                },
            }
        }
    }
}

impl PlayerController for ModernPlayerControls {
    fn process(&mut self, delta: Time, entity: &mut EntityBase, class: &EntityClass,
        mouse_world: Vec3fx, input: &InputState) {
        self.process_player(delta, entity, class, mouse_world, input);
    }
}

} // verus!
