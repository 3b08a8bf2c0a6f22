use opensrme::angle::{ANGLE_E, ANGLE_NW, ANGLE_S, ANGLE_W};
use opensrme::controller::{get_movement_direction, ModernPlayerControls};
use opensrme::entity::{
    get_entitytype, Entity, EntityBase, EntityClass, EntityData, EntityGender, EntityStance,
    EntityType,
};
use opensrme::input::{Event, InputKey, InputState, Key, MouseButton, MouseScroll,
    platform_key_to_inputkey};
use opensrme::level::{
    get_tiledata_for_pos, get_tiledata_for_tilepos, pos_is_sidewalk, pos_to_tilepos,
    tilepos_is_impassable, tilepos_to_pos, Level, LevelLayer,
};
use opensrme::person::PLAYER_SPEED;
use opensrme::screen::{Camera, GameScreen};
use opensrme::text::{text_size, word_wrap, Font};
use opensrme::types::{Vec3, Vec3fx, Vec3i};

fn layer() -> LevelLayer {
    LevelLayer {
        start: Vec3i::new2(0, 0),
        tilesize: Vec3i::new2(24, 24),
        size: Vec3i::new2(0, 0),
        tiles: vec![],
    }
}

fn make_level(w: i32, h: i32, codes: Vec<i8>) -> Level {
    assert_eq!(codes.len(), (w * h) as usize);
    Level {
        layer1: layer(),
        layer2: layer(),
        objects: vec![],
        tilesize: Vec3fx::new2(24_000, 24_000),
        tiledata_size: Vec3i::new2(w, h),
        tiledata: codes,
        tile_gangdata: vec![],
        entities: vec![],
        routes: vec![],
    }
}

fn person_class() -> EntityClass {
    EntityClass { entity_type: 2, clip: 0, health: 10, width: 10_000, height: 10_000, weight: 80 }
}

#[test]
fn tile_lookup_uses_the_impassable_sentinel_outside() {
    let level = make_level(2, 2, vec![5, 6, 7, 8]);
    assert_eq!(get_tiledata_for_tilepos(&level, Vec3i::new2(0, 0)), 5);
    assert_eq!(get_tiledata_for_tilepos(&level, Vec3i::new2(1, 1)), 8);
    assert_eq!(get_tiledata_for_tilepos(&level, Vec3i::new2(-1, 0)), 1);
    assert_eq!(get_tiledata_for_tilepos(&level, Vec3i::new2(0, 2)), 1);
    assert_eq!(get_tiledata_for_pos(&level, Vec3fx::new2(30_000, 10_000)), 6);
}

#[test]
fn sidewalk_and_impassable_predicates_read_codes() {
    let level = make_level(2, 1, vec![9, 36]);
    assert!(pos_is_sidewalk(&level, Vec3fx::new2(1_000, 1_000)));
    assert!(pos_is_sidewalk(&level, Vec3fx::new2(30_000, 1_000)));
    let solid = make_level(2, 2, vec![1, 2, 3, 4]);
    for x in 0..2 {
        for y in 0..2 {
            assert!(tilepos_is_impassable(&solid, Vec3i::new2(x, y)));
        }
    }
    assert!(!tilepos_is_impassable(&level, Vec3i::new2(0, 0)));
}

#[test]
fn tile_coordinates_convert_both_ways() {
    assert_eq!(tilepos_to_pos(Vec3i::new2(2, 3)), Vec3 { x: 48_000, y: 72_000, z: 0 });
    assert_eq!(pos_to_tilepos(Vec3fx::new2(48_000, 72_000)), Vec3i::new2(2, 3));
    assert_eq!(pos_to_tilepos(Vec3fx::new2(47_999, 71_999)), Vec3i::new2(1, 2));
}

#[test]
fn entity_types_classify_like_the_catalog_codes() {
    assert_eq!(get_entitytype(3), EntityType::Pedestrian);
    assert_eq!(get_entitytype(10), EntityType::MovingVehicle);
    assert_eq!(get_entitytype(99), EntityType::Unknown);
    assert!(EntityType::Player.is_person());
    assert!(!EntityType::Player.is_vehicle());
    assert!(EntityType::PoliceCar.is_vehicle());
    assert!(EntityType::Type20.is_vehicle());
    assert!(EntityType::Pedestrian.is_npc());
    assert!(!EntityType::Player.is_npc());
    assert!(EntityStance::Walking.is_self_moving());
    assert!(!EntityStance::Aiming.is_self_moving());
    assert_eq!(EntityGender::Female.get_clip_id(), 18);
    assert_eq!(EntityGender::Male.get_clip_id(), 8);
}

#[test]
fn entities_build_their_collision_footprint_by_kind() {
    let classes = vec![
        EntityClass { entity_type: 2, ..person_class() },
        EntityClass { entity_type: 10, ..person_class() },
        EntityClass { entity_type: 13, ..person_class() },
    ];
    let player = Entity::new(0, 0, &classes);
    assert!(matches!(player.data, EntityData::Person(_)));
    let vehicle = Entity::new(1, 1, &classes);
    assert!(matches!(vehicle.data, EntityData::Vehicle(_)));
    let pickup = Entity::new(2, 2, &classes);
    assert!(matches!(pickup.data, EntityData::Null));
    assert!(player.get_collision_info(&classes).is_some());
    assert!(vehicle.get_collision_info(&classes).is_some());
    assert!(pickup.get_collision_info(&classes).is_none());
}

#[test]
fn vehicle_pedestrians_hide_instead_of_despawning() {
    let classes = vec![EntityClass { entity_type: 4, ..person_class() }];
    let mut e = Entity::new(0, 0, &classes);
    assert!(!e.base.hidden);
    let done = e.despawn();
    assert!(!done);
    assert!(e.base.hidden);

    let classes2 = vec![EntityClass { entity_type: 3, ..person_class() }];
    let mut p = Entity::new(0, 0, &classes2);
    assert!(p.despawn());
    assert!(!p.base.hidden);
}

#[test]
fn movement_direction_covers_the_eight_ways() {
    let mut input = InputState::new();
    assert_eq!(get_movement_direction(&input), None);
    input.up = true;
    assert_eq!(get_movement_direction(&input), Some(opensrme::angle::ANGLE_N));
    input.left = true;
    assert_eq!(get_movement_direction(&input), Some(ANGLE_NW));
    input.up = false;
    input.left = true;
    assert_eq!(get_movement_direction(&input), Some(ANGLE_W));
    input.left = false;
    input.down = true;
    assert_eq!(get_movement_direction(&input), Some(ANGLE_S));
    input.down = false;
    input.right = true;
    assert_eq!(get_movement_direction(&input), Some(ANGLE_E));
}

#[test]
fn player_runs_while_keys_are_held_and_stops_after() {
    let class = person_class();
    let mut controls = ModernPlayerControls::new();
    let mut e = EntityBase::new(0, 0, EntityType::Player);
    e.pos = Vec3fx::new2(48_000, 48_000);
    let mut input = InputState::new();
    input.right = true;
    // pointer far to the east of the player: heading east, running east
    let mouse_world = Vec3fx::new2(148_000, 48_000);
    controls.process_player(16, &mut e, &class, mouse_world, &input);
    assert_eq!(e.stance, EntityStance::Running);
    assert_eq!(e.speed, PLAYER_SPEED);
    assert_eq!(e.angle, ANGLE_E);
    // 60 units/s for 16 ms: 0.96 units east
    assert_eq!(e.pos, Vec3 { x: 48_960, y: 48_000, z: 0 });
    // keys released: the run settles back into standing
    let idle = InputState::new();
    controls.process_player(16, &mut e, &class, mouse_world, &idle);
    assert_eq!(e.stance, EntityStance::Standing);
    assert_eq!(e.speed, 0);
    assert_eq!(e.pos, Vec3 { x: 48_960, y: 48_000, z: 0 });
}

#[test]
fn pointer_near_the_center_does_not_turn_the_player() {
    let class = person_class();
    let mut controls = ModernPlayerControls::new();
    let mut e = EntityBase::new(0, 0, EntityType::Player);
    e.pos = Vec3fx::new2(48_000, 48_000);
    e.angle = ANGLE_S;
    let mut input = InputState::new();
    input.right = true;
    // pointer within half the class width: no turn, no movement
    let mouse_world = Vec3fx::new2(50_000, 48_000);
    controls.process_player(16, &mut e, &class, mouse_world, &input);
    assert_eq!(e.angle, ANGLE_S);
    assert_eq!(e.speed, 0);
}

#[test]
fn uninterruptible_stances_ignore_released_keys() {
    let class = person_class();
    let mut controls = ModernPlayerControls::new();
    let mut e = EntityBase::new(0, 0, EntityType::Player);
    e.pos = Vec3fx::new2(48_000, 48_000);
    e.stance = EntityStance::Sliding;
    e.speed = 12_345;
    let input = InputState::new();
    controls.process_player(16, &mut e, &class, Vec3fx::new2(148_000, 48_000), &input);
    // sliding is not self-moving: stance and speed stay
    assert_eq!(e.stance, EntityStance::Sliding);
    assert_eq!(e.speed, 12_345);
}

#[test]
fn input_state_tracks_platform_events() {
    let mut input = InputState::new();
    input.process_platform_event(Event::Key {
        pressed: true,
        key: Key { value: 119, scancode: 0 },
    });
    assert!(input.up);
    input.process_platform_event(Event::Key {
        pressed: false,
        key: Key { value: 119, scancode: 0 },
    });
    assert!(!input.up);
    input.process_platform_event(Event::MousePos {
        pos: Vec3i::new2(10, 20),
        delta: Vec3i::new2(1, 2),
    });
    assert_eq!(input.mouse, Vec3i::new2(10, 20));
    assert_eq!(input.mouse_delta, Vec3i::new2(1, 2));
    input.process_platform_event(Event::MouseScroll(MouseScroll::Up));
    assert_eq!(input.mouse_scroll, 1);
    input.process_platform_event(Event::MouseButton {
        pressed: true,
        button: MouseButton::Left,
    });
    assert!(input.left_button);
    input.process_platform_event(Event::Key {
        pressed: true,
        key: Key { value: 0, scancode: 41 },
    });
    assert!(input.exit_pressed);
    input.step();
    assert_eq!(input.mouse_scroll, 0);
    assert!(!input.exit_pressed);
    assert_eq!(platform_key_to_inputkey(Key { value: 97, scancode: 0 }), InputKey::Left);
    assert_eq!(platform_key_to_inputkey(Key { value: 0, scancode: 41 }), InputKey::Exit);
}

#[test]
fn camera_rectangle_decides_despawn_eligibility() {
    let cam = Camera {
        pos: Vec3i::new2(0, 0),
        size: Vec3i::new2(240, 320),
        shake: Vec3i::new2(0, 0),
    };
    assert_eq!(cam.middle(), Vec3i::new2(120, 160));
    assert!(!cam.out_of_screen(Vec3i::new2(0, 0)));
    assert!(!cam.out_of_screen(Vec3i::new2(239, 319)));
    assert!(cam.out_of_screen(Vec3i::new2(240, 100)));
    assert!(cam.out_of_screen(Vec3i::new2(-1, 100)));
}

#[test]
fn spawn_ring_candidates_follow_the_ring_order() {
    assert_eq!(GameScreen::get_spawn_xy(0, 5), Some(Vec3i::new2(0, -5)));
    assert_eq!(GameScreen::get_spawn_xy(1, 5), Some(Vec3i::new2(5, 0)));
    assert_eq!(GameScreen::get_spawn_xy(2, 5), Some(Vec3i::new2(0, 5)));
    assert_eq!(GameScreen::get_spawn_xy(3, 5), Some(Vec3i::new2(-5, 0)));
    // the next ring step shifts sideways
    assert_eq!(GameScreen::get_spawn_xy(4, 5), Some(Vec3i::new2(-1, -5)));
    assert_eq!(GameScreen::get_spawn_xy(40, 5), None);
}

#[test]
fn one_full_tick_runs_the_fixed_order() {
    let level = make_level(4, 4, vec![0; 16]);
    let classes = vec![person_class()];
    let mut screen = GameScreen::new(7, level, classes);
    screen.load_entities();
    screen.create_entity_ids();
    let input = InputState::new();
    let running = screen.step(16, &input);
    assert!(running);
    assert_eq!(screen.time, 17);
    assert_eq!(
        screen.vehicle_state.trafficlight,
        opensrme::vehicle::TrafficLight::HGreen
    );
    // a quit request stops the loop before anything else runs
    let mut quit_input = InputState::new();
    quit_input.exit_pressed = true;
    assert!(!screen.step(16, &quit_input));
}

#[test]
fn offscreen_npcs_are_despawn_attempted() {
    let level = make_level(4, 4, vec![0; 16]);
    // a vehicle-spawned pedestrian far outside the camera rectangle
    let classes = vec![EntityClass { entity_type: 4, ..person_class() }];
    let mut screen = GameScreen::new(0, level, classes);
    let mut e = Entity::new(0, 0, &screen.classes);
    e.base.pos = Vec3 { x: 400_000_000, y: 400_000_000, z: 0 };
    e.base.prev_pos = e.base.pos;
    screen.entities.push(e);
    assert_eq!(screen.entity_spawn_counter, 0);
    screen.step_entity_despawn();
    // it merely hides (an unfinished despawn) and the rotation moves on
    assert!(screen.entities[0].base.hidden);
    assert_eq!(screen.entity_spawn_counter, 1);

    // an on-screen NPC is left entirely alone
    let level2 = make_level(4, 4, vec![0; 16]);
    let classes2 = vec![EntityClass { entity_type: 4, ..person_class() }];
    let mut screen2 = GameScreen::new(0, level2, classes2);
    let mut e2 = Entity::new(0, 0, &screen2.classes);
    e2.base.pos = Vec3 { x: 50_000, y: 50_000, z: 0 };
    e2.base.prev_pos = e2.base.pos;
    screen2.entities.push(e2);
    screen2.step_entity_despawn();
    assert!(!screen2.entities[0].base.hidden);
    assert_eq!(screen2.entity_spawn_counter, 1);
}

#[test]
fn zooming_keeps_the_pointer_world_point_fixed() {
    let level = make_level(4, 4, vec![0; 16]);
    let mut screen = GameScreen::new(0, level, vec![person_class()]);
    let mut input = InputState::new();
    input.mouse = Vec3i::new2(120, 160);
    input.mouse_scroll = -1; // zoom out: scale 1000 -> 1100
    let before = screen.screen_pos_to_game_pos(input.mouse);
    let quit = screen.process_input(&input);
    assert!(!quit);
    assert_eq!(screen.scale, 1100);
    // the camera shifted by the whole-unit pointer drift
    assert_eq!(screen.main_camera_pos, Vec3 { x: -11_000, y: -15_000, z: 0 });
    let after = screen.screen_pos_to_game_pos(input.mouse);
    // the point under the pointer stays fixed to within one unit
    assert!((after.x - before.x).abs() < 1000);
    assert!((after.y - before.y).abs() < 1000);
}

#[test]
fn level_placements_become_entities() {
    let mut level = make_level(4, 4, vec![9; 16]);
    level.entities.push(opensrme::level::LevelEntity {
        class: 0,
        pos: Vec3i::new2(50, 60),
        unk1: 0,
        route: -1,
    });
    let classes = vec![EntityClass { entity_type: 3, ..person_class() }];
    let mut screen = GameScreen::new(0, level, classes);
    screen.load_entities();
    assert_eq!(screen.entities.len(), 1);
    assert_eq!(screen.entities[0].base.id, 0);
    assert_eq!(screen.entities[0].base.pos, Vec3 { x: 50_000, y: 60_000, z: 0 });
    screen.create_entity_ids();
    assert_eq!(screen.entity_ids, vec![0]);
}

#[test]
fn text_measures_against_the_advance_table() {
    let font = Font {
        name: String::from("metrics"),
        palette: 0,
        height: 12,
        widths: vec![vec![10i16; 128]],
        offsets: vec![vec![0i16; 128]],
        size_addition: 0,
    };
    let size = text_size(&font, "abc");
    assert_eq!(size.x, 30);
    assert_eq!(size.y, 12);
    assert_eq!(text_size(&font, "").x, 0);
}

#[test]
fn word_wrap_breaks_at_spaces_and_newlines() {
    let font = Font {
        name: String::from("metrics"),
        palette: 0,
        height: 12,
        widths: vec![vec![10i16; 128]],
        offsets: vec![vec![0i16; 128]],
        size_addition: 0,
    };
    let lines = word_wrap(&font, "ab cd ef", 25);
    assert_eq!(lines, vec![String::from("ab"), String::from("cd"), String::from("ef")]);
    let newline_lines = word_wrap(&font, "ab\ncd", 200);
    assert_eq!(newline_lines, vec![String::from("ab"), String::from("cd")]);
    let single = word_wrap(&font, "abc", 200);
    assert_eq!(single, vec![String::from("abc")]);
}
