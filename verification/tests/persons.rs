use opensrme::angle::{ANGLE_E, HALF_PI};
use opensrme::entity::{EntityBase, EntityClass, EntityStance, EntityType};
use opensrme::level::{Level, LevelLayer};
use opensrme::person::{step_base_person, PersonData, SidewalkData};
use opensrme::types::{Vec3, Vec3fx, Vec3i};

fn layer() -> LevelLayer {
    LevelLayer {
        start: Vec3i::new2(0, 0),
        tilesize: Vec3i::new2(24, 24),
        size: Vec3i::new2(0, 0),
        tiles: vec![],
    }
}

fn make_level(w: i32, h: i32, code: i8) -> Level {
    Level {
        layer1: layer(),
        layer2: layer(),
        objects: vec![],
        tilesize: Vec3fx::new2(24_000, 24_000),
        tiledata_size: Vec3i::new2(w, h),
        tiledata: vec![code; (w * h) as usize],
        tile_gangdata: vec![],
        entities: vec![],
        routes: vec![],
    }
}

fn person_class() -> EntityClass {
    EntityClass {
        entity_type: 3,
        clip: 0,
        health: 10,
        width: 10_000,
        height: 10_000,
        weight: 100,
    }
}

#[test]
fn aiming_reverts_to_standing_after_one_second() {
    let mut e = EntityBase::new(0, 0, EntityType::Pedestrian);
    e.stance = EntityStance::Aiming;
    e.stance_millis = 1000;
    let halted = step_base_person(&mut e, 16);
    assert!(!halted);
    assert_eq!(e.stance, EntityStance::Standing);
    assert_eq!(e.stance_millis, 0);
}

#[test]
fn the_aiming_transition_happens_exactly_once() {
    let mut e = EntityBase::new(0, 0, EntityType::Pedestrian);
    e.stance = EntityStance::Aiming;
    e.stance_millis = 1500;
    step_base_person(&mut e, 16);
    assert_eq!(e.stance, EntityStance::Standing);
    assert_eq!(e.stance_millis, 0);
    // later ticks leave the standing state and its timer alone
    e.stance_millis = 5000;
    step_base_person(&mut e, 16);
    assert_eq!(e.stance, EntityStance::Standing);
    assert_eq!(e.stance_millis, 5000);
}

#[test]
fn aiming_holds_before_one_second() {
    let mut e = EntityBase::new(0, 0, EntityType::Pedestrian);
    e.stance = EntityStance::Aiming;
    e.stance_millis = 999;
    step_base_person(&mut e, 16);
    assert_eq!(e.stance, EntityStance::Aiming);
    assert_eq!(e.stance_millis, 999);
}

#[test]
fn lying_down_halts_and_reverts_after_three_seconds() {
    let mut e = EntityBase::new(0, 0, EntityType::Pedestrian);
    e.stance = EntityStance::LyingDown;
    e.stance_millis = 3000;
    let halted = step_base_person(&mut e, 16);
    assert!(halted);
    assert_eq!(e.stance, EntityStance::Standing);
    assert_eq!(e.stance_millis, 0);

    let mut f = EntityBase::new(0, 0, EntityType::Pedestrian);
    f.stance = EntityStance::LyingDown;
    f.stance_millis = 2999;
    assert!(step_base_person(&mut f, 16));
    assert_eq!(f.stance, EntityStance::LyingDown);
}

#[test]
fn dead_entities_never_step() {
    let mut e = EntityBase::new(0, 0, EntityType::Pedestrian);
    e.stance = EntityStance::Dead;
    e.pos = Vec3fx::new2(5000, 6000);
    e.speed = 20_000;
    let before = e.clone();
    let halted = step_base_person(&mut e, 500);
    assert!(halted);
    assert_eq!(e, before);
}

#[test]
fn stepping_snapshots_the_transform() {
    let mut e = EntityBase::new(0, 0, EntityType::Pedestrian);
    e.pos = Vec3fx::new2(7000, 8000);
    e.angle = HALF_PI;
    step_base_person(&mut e, 16);
    assert_eq!(e.prev_pos, Vec3fx::new2(7000, 8000));
    assert_eq!(e.prev_angle, HALF_PI);
}

#[test]
fn walking_off_the_sidewalk_rolls_back_exactly() {
    // no tile of the level passes the sidewalk test
    let level = make_level(8, 8, 0);
    let class = person_class();
    let mut e = EntityBase::new(0, 0, EntityType::Pedestrian);
    e.pos = Vec3fx::new2(60_000, 60_000);
    e.angle = ANGLE_E;
    e.stance = EntityStance::Walking;
    e.speed = 20_000;
    let mut data = SidewalkData::new();
    data.walking_direction = Vec3 { x: 10_000, y: 0, z: 0 };
    data.walking_angle = ANGLE_E;
    let halted = data.step(&mut e, &class, &level, 250);
    assert!(!halted);
    assert_eq!(e.stance, EntityStance::Standing);
    // exact rollback onto the pre-tick snapshot
    assert_eq!(e.pos.x, e.prev_pos.x);
    assert_eq!(e.pos.y, e.prev_pos.y);
    assert_eq!(e.angle, e.prev_angle);
    assert_eq!(e.prev_pos, Vec3fx::new2(60_000, 60_000));
}

#[test]
fn walking_on_sidewalk_advances_along_the_heading() {
    // every tile is a sidewalk tile
    let level = make_level(8, 8, 9);
    let class = person_class();
    let mut e = EntityBase::new(0, 0, EntityType::Pedestrian);
    e.pos = Vec3fx::new2(60_000, 60_000);
    e.angle = ANGLE_E;
    e.stance = EntityStance::Walking;
    e.speed = 24_000;
    let mut data = SidewalkData::new();
    data.walking_direction = Vec3 { x: 10_000, y: 0, z: 0 };
    data.walking_angle = ANGLE_E;
    data.step(&mut e, &class, &level, 500);
    assert_eq!(e.stance, EntityStance::Walking);
    // 24 units/s for half a second, straight east
    assert_eq!(e.pos, Vec3 { x: 72_000, y: 60_000, z: 0 });
}

#[test]
fn standing_on_sidewalk_starts_walking() {
    let level = make_level(8, 8, 9);
    let class = person_class();
    let mut e = EntityBase::new(0, 0, EntityType::Pedestrian);
    e.pos = Vec3fx::new2(60_000, 60_000);
    let mut data = SidewalkData::new();
    data.step(&mut e, &class, &level, 16);
    // every direction lands on a sidewalk, so the first try succeeds
    assert_eq!(e.stance, EntityStance::Walking);
    assert!(15_000 <= e.speed && e.speed < 30_000);
}

#[test]
fn person_variants_follow_entity_type() {
    assert!(matches!(
        PersonData::new(EntityType::Pedestrian),
        PersonData::Sidewalk(_)
    ));
    assert!(matches!(PersonData::new(EntityType::Player), PersonData::Player(_)));
    assert!(matches!(PersonData::new(EntityType::Unknown), PersonData::Base));
}
