use opensrme::angle::{ANGLE_E, ANGLE_N, ANGLE_NW, ANGLE_S, ANGLE_W};
use opensrme::entity::{EntityBase, EntityClass, EntityStance, EntityType};
use opensrme::level::{Level, LevelLayer};
use opensrme::types::{Vec3, Vec3fx, Vec3i};
use opensrme::vehicle::{
    can_move_on_road, find_angle_to_road, get_lane, get_road_direction, get_road_middle,
    is_intersection, is_one_way_road, is_road, is_road_or_0, EntityView, TrafficLight,
    VehicleData, VehicleState,
};

fn layer() -> LevelLayer {
    LevelLayer {
        start: Vec3i::new2(0, 0),
        tilesize: Vec3i::new2(24, 24),
        size: Vec3i::new2(0, 0),
        tiles: vec![],
    }
}

fn make_level(w: i32, h: i32, codes: Vec<i8>) -> Level {
    assert_eq!(codes.len(), (w * h) as usize);
    Level {
        layer1: layer(),
        layer2: layer(),
        objects: vec![],
        tilesize: Vec3fx::new2(24_000, 24_000),
        tiledata_size: Vec3i::new2(w, h),
        tiledata: codes,
        tile_gangdata: vec![],
        entities: vec![],
        routes: vec![],
    }
}

fn vehicle_class() -> EntityClass {
    EntityClass {
        entity_type: 10,
        clip: 0,
        health: 10,
        width: 10_000,
        height: 10_000,
        weight: 100,
    }
}

#[test]
fn traffic_phase_cycles_every_three_seconds() {
    let mut state = VehicleState::new();
    assert_eq!(state.trafficlight, TrafficLight::HGreen);
    state.step(0);
    assert_eq!(state.trafficlight, TrafficLight::HGreen);
    state.step(2999);
    assert_eq!(state.trafficlight, TrafficLight::HGreen);
    state.step(3000);
    assert_eq!(state.trafficlight, TrafficLight::HYellow);
    state.step(6000);
    assert_eq!(state.trafficlight, TrafficLight::VGreen);
    state.step(9000);
    assert_eq!(state.trafficlight, TrafficLight::VYellow);
    state.step(12_000);
    assert_eq!(state.trafficlight, TrafficLight::HGreen);
}

#[test]
fn only_the_green_phases_grant_right_of_way() {
    assert!(TrafficLight::HGreen.is_green());
    assert!(!TrafficLight::HYellow.is_green());
    assert!(TrafficLight::VGreen.is_green());
    assert!(!TrafficLight::VYellow.is_green());
    assert_eq!(TrafficLight::HGreen.index(), 0);
    assert_eq!(TrafficLight::HYellow.index(), 0);
    assert_eq!(TrafficLight::VGreen.index(), 1);
    assert_eq!(TrafficLight::VYellow.index(), 1);
}

#[test]
fn road_code_ranges() {
    assert!(!is_road(9));
    assert!(is_road(10) && is_road(29));
    assert!(!is_road(30));
    assert!(is_road_or_0(0) && !is_road_or_0(5));
    assert!(is_one_way_road(10) && is_one_way_road(17) && !is_one_way_road(18));
    assert!(is_intersection(18) && is_intersection(29) && !is_intersection(17));
}

#[test]
fn direction_table_follows_the_flowing_axis() {
    assert_eq!(get_road_direction(10, TrafficLight::HGreen), Some(ANGLE_E));
    assert_eq!(get_road_direction(10, TrafficLight::VGreen), Some(ANGLE_E));
    assert_eq!(get_road_direction(13, TrafficLight::HGreen), Some(ANGLE_N));
    assert_eq!(get_road_direction(18, TrafficLight::HGreen), Some(ANGLE_E));
    assert_eq!(get_road_direction(18, TrafficLight::VGreen), Some(ANGLE_N));
    assert_eq!(get_road_direction(29, TrafficLight::HYellow), Some(ANGLE_NW));
    assert_eq!(get_road_direction(29, TrafficLight::VYellow), Some(ANGLE_N));
    assert_eq!(get_road_direction(9, TrafficLight::HGreen), None);
    assert_eq!(get_road_direction(30, TrafficLight::HGreen), None);
}

#[test]
fn lane_adjustment_reads_perpendicular_neighbors() {
    // a 3-wide horizontal road: the middle row sees the same code on
    // both sides, and the repeat below wins
    let level = make_level(
        3,
        3,
        vec![
            10, 10, 10, //
            10, 10, 10, //
            0, 0, 0,
        ],
    );
    assert_eq!(get_lane(&level, Vec3i::new2(1, 0)), Some(Vec3i::new2(0, 1)));
    assert_eq!(get_lane(&level, Vec3i::new2(1, 1)), Some(Vec3i::new2(0, -1)));
    assert_eq!(get_lane(&level, Vec3i::new2(1, 2)), None);
}

#[test]
fn road_middle_snaps_to_the_far_lane_edge() {
    let level = make_level(
        3,
        3,
        vec![
            10, 10, 10, //
            10, 10, 10, //
            0, 0, 0,
        ],
    );
    // on the top row the lane points down: the middle is one tile on
    let m = get_road_middle(&level, Vec3fx::new2(30_000, 10_000)).unwrap();
    assert_eq!(m, Vec3 { x: 30_000, y: 34_000, z: 0 });
    // off the road there is no middle
    assert_eq!(get_road_middle(&level, Vec3fx::new2(30_000, 60_000)), None);
}

#[test]
fn vehicle_yields_until_green() {
    // heading east on a one-way (code 10) into a crossing (code 18)
    let level = make_level(
        3,
        1,
        vec![10, 10, 18],
    );
    let class = vehicle_class();
    let others: Vec<EntityView> = vec![];
    let mut e = EntityBase::new(0, 0, EntityType::MovingVehicle);
    e.pos = Vec3fx::new2(36_000, 12_000); // tile (1, 0)
    // probe lands one and a half widths east: tile (2, 0), the crossing
    let (ok_green, tile_green) =
        can_move_on_road(&e, &class, &others, ANGLE_E, 10, TrafficLight::HGreen, &level);
    assert!(ok_green);
    assert_eq!(tile_green, 18);
    let (ok_yellow, _) =
        can_move_on_road(&e, &class, &others, ANGLE_E, 10, TrafficLight::HYellow, &level);
    assert!(!ok_yellow);
    // during the vertical green an eastbound source has no right of way
    let (ok_vgreen, _) =
        can_move_on_road(&e, &class, &others, ANGLE_E, 10, TrafficLight::VGreen, &level);
    assert!(!ok_vgreen);
}

#[test]
fn northbound_traffic_crosses_on_the_vertical_green() {
    // a northbound one-way (code 13) feeding a crossing (code 18)
    let level = make_level(1, 3, vec![18, 13, 13]);
    let class = vehicle_class();
    let others: Vec<EntityView> = vec![];
    let mut e = EntityBase::new(0, 0, EntityType::MovingVehicle);
    e.pos = Vec3fx::new2(12_000, 36_000); // tile (0, 1)
    let (ok_vgreen, tile) =
        can_move_on_road(&e, &class, &others, ANGLE_N, 13, TrafficLight::VGreen, &level);
    assert!(ok_vgreen);
    assert_eq!(tile, 18);
    // the horizontal green gives an eastbound table row instead
    let (ok_hgreen, _) =
        can_move_on_road(&e, &class, &others, ANGLE_N, 13, TrafficLight::HGreen, &level);
    assert!(!ok_hgreen);
}

#[test]
fn a_parked_vehicle_blocks_the_probe_point() {
    let level = make_level(3, 1, vec![10, 10, 10]);
    let class = vehicle_class();
    let mut e = EntityBase::new(0, 0, EntityType::MovingVehicle);
    e.pos = Vec3fx::new2(36_000, 12_000);
    let blocker = EntityView {
        id: 1,
        entity_type: EntityType::PoliceCar,
        pos: Vec3fx::new2(52_000, 12_000),
        width: 10_000,
        hidden: false,
    };
    let (ok, _) = can_move_on_road(
        &e,
        &class,
        &vec![blocker],
        ANGLE_E,
        10,
        TrafficLight::HGreen,
        &level,
    );
    assert!(!ok);
    // every vehicle kind blocks, enemy vehicles and sports cars too
    let enemy = EntityView { entity_type: EntityType::EnemyVehicle, ..blocker };
    let (ok_enemy, _) = can_move_on_road(
        &e,
        &class,
        &vec![enemy],
        ANGLE_E,
        10,
        TrafficLight::HGreen,
        &level,
    );
    assert!(!ok_enemy);
    let sports = EntityView { entity_type: EntityType::Type20, ..blocker };
    let (ok_sports, _) = can_move_on_road(
        &e,
        &class,
        &vec![sports],
        ANGLE_E,
        10,
        TrafficLight::HGreen,
        &level,
    );
    assert!(!ok_sports);
    // a hidden blocker does not count
    let hidden_blocker = EntityView { hidden: true, ..blocker };
    let (ok2, _) = can_move_on_road(
        &e,
        &class,
        &vec![hidden_blocker],
        ANGLE_E,
        10,
        TrafficLight::HGreen,
        &level,
    );
    assert!(ok2);
}

#[test]
fn dead_end_steers_toward_the_nearest_road() {
    // no direction on tile (2,2); a road tile sits up-left of it
    let mut codes = vec![0i8; 25];
    codes[1 * 5 + 1] = 10; // tile (1, 1)
    let level = make_level(5, 5, codes);
    let a = find_angle_to_road(&level, Vec3i::new2(2, 2)).unwrap();
    // offset (-1, -1) is the first road hit: up-left, three quarter
    // turns short of east
    assert_eq!(a, opensrme::angle::QUARTER_PI - opensrme::angle::PI);
}

#[test]
fn vehicle_accelerates_toward_wanted_speed_on_open_road() {
    // a 4x4 field of eastbound one-way tiles during the horizontal green
    let level = make_level(4, 4, vec![10; 16]);
    let class = vehicle_class();
    let others: Vec<EntityView> = vec![];
    let mut e = EntityBase::new(0, 0, EntityType::MovingVehicle);
    e.pos = Vec3fx::new2(36_000, 36_000);
    e.angle = ANGLE_E;
    e.stance = EntityStance::Running;
    e.speed = 0;
    let mut data = VehicleData::new();
    data.step_drive_along_road(&mut e, &class, &level, &others, TrafficLight::HGreen, 100);
    // already aligned east: wanted speed jumps to 50 units/s and the
    // speed eases up by 100 units/s^2 for 100 ms
    assert_eq!(data.wanted_speed, 50_000);
    assert_eq!(e.speed, 10_000);
    assert_eq!(data.last_tiledata, 10);
    // a second identical tick gains the same amount again
    data.step_drive_along_road(&mut e, &class, &level, &others, TrafficLight::HGreen, 100);
    assert_eq!(e.speed, 20_000);
}

#[test]
fn vehicle_brakes_faster_than_it_accelerates() {
    let level = make_level(4, 4, vec![0; 16]);
    let class = vehicle_class();
    let others: Vec<EntityView> = vec![];
    let mut e = EntityBase::new(0, 0, EntityType::MovingVehicle);
    e.pos = Vec3fx::new2(36_000, 36_000);
    e.stance = EntityStance::Standing; // not running: wanted speed 0
    e.speed = 50_000;
    let mut data = VehicleData::new();
    data.step_drive_along_road(&mut e, &class, &level, &others, TrafficLight::HGreen, 100);
    // decelerating at 200 units/s^2 for 100 ms sheds 20 units/s
    assert_eq!(e.speed, 30_000);
}
