use opensrme::collision::{
    split_weighted, PhysicalObject, Shape, ShapeInfo, WEIGHT_MAX,
};
use opensrme::entity::{Entity, EntityBase, EntityClass, EntityData, EntityType};
use opensrme::level::{Level, LevelLayer};
use opensrme::screen::{Camera, GameScreen};
use opensrme::types::{Vec3, Vec3fx, Vec3i};

fn layer() -> LevelLayer {
    LevelLayer {
        start: Vec3i::new2(0, 0),
        tilesize: Vec3i::new2(24, 24),
        size: Vec3i::new2(0, 0),
        tiles: vec![],
    }
}

fn make_level(w: i32, h: i32, codes: Vec<i8>) -> Level {
    assert_eq!(codes.len(), (w * h) as usize);
    Level {
        layer1: layer(),
        layer2: layer(),
        objects: vec![],
        tilesize: Vec3fx::new2(24_000, 24_000),
        tiledata_size: Vec3i::new2(w, h),
        tiledata: codes,
        tile_gangdata: vec![],
        entities: vec![],
        routes: vec![],
    }
}

fn circle_at(x: i64, y: i64, radius: i64, weight: i64) -> PhysicalObject {
    PhysicalObject { shape: Shape::Circle(radius), pos: Vec3 { x, y, z: 0 }, angle: 0, weight }
}

fn circle_entity(id: i32, x: i64, y: i64, radius: i64, weight: i64) -> Entity {
    let mut base = EntityBase::new(id, 0, EntityType::MovingVehicle);
    base.pos = Vec3 { x, y, z: 0 };
    base.prev_pos = base.pos;
    Entity {
        base,
        collision: Some(circle_at(x, y, radius, weight)),
        data: EntityData::Null,
    }
}

fn simple_class() -> EntityClass {
    EntityClass { entity_type: 10, clip: 0, health: 1, width: 10_000, height: 10_000, weight: 100 }
}

#[test]
fn circles_respond_along_the_center_line() {
    let a = circle_at(0, 0, 10_000, 100);
    let b = circle_at(15_000, 0, 10_000, 100);
    // overlapping by 5 units: the response is 5 units toward b
    assert_eq!(a.get_response_vector(&b), Some(Vec3 { x: 5_000, y: 0, z: 0 }));
    // touching or separated circles do not respond
    let c = circle_at(20_000, 0, 10_000, 100);
    assert_eq!(a.get_response_vector(&c), None);
    assert!(a.collides_with(&b));
    assert!(!a.collides_with(&c));
}

#[test]
fn rectangles_respond_along_the_least_penetration_axis() {
    let a = PhysicalObject {
        shape: Shape::Rect(Vec3 { x: 10_000, y: 10_000, z: 0 }),
        pos: Vec3 { x: 0, y: 0, z: 0 },
        angle: 0,
        weight: 100,
    };
    let b = PhysicalObject {
        shape: Shape::Rect(Vec3 { x: 10_000, y: 10_000, z: 0 }),
        pos: Vec3 { x: 15_000, y: 1_000, z: 0 },
        angle: 0,
        weight: 100,
    };
    assert_eq!(a.get_response_vector(&b), Some(Vec3 { x: 5_000, y: 0, z: 0 }));
}

#[test]
fn circle_against_rectangle_pushes_toward_the_closest_face() {
    let c = circle_at(0, 0, 10_000, 100);
    let r = PhysicalObject {
        shape: Shape::Rect(Vec3 { x: 5_000, y: 5_000, z: 0 }),
        pos: Vec3 { x: 12_000, y: 0, z: 0 },
        angle: 0,
        weight: 100,
    };
    // closest rectangle point is (7, 0): 7 < 10, depth 3 toward the rectangle
    assert_eq!(c.get_response_vector(&r), Some(Vec3 { x: 3_000, y: 0, z: 0 }));
    // the reverse order negates the response
    assert_eq!(r.get_response_vector(&c), Some(Vec3 { x: -3_000, y: 0, z: 0 }));
}

#[test]
fn weighted_split_shares_sum_to_the_response() {
    // weights 100 and 200, response 900: the lighter first
    // body takes the 200/300 share
    let (s1, s2) = split_weighted(900, 100, 200);
    assert_eq!(s1, 600);
    assert_eq!(s2, 300);
    assert_eq!(s1 + s2, 900);
    // swapped weights swap the shares
    let (t1, t2) = split_weighted(900, 200, 100);
    assert_eq!(t1, 300);
    assert_eq!(t2, 600);
    // odd responses still sum exactly
    let (u1, u2) = split_weighted(5, 1, 1);
    assert_eq!(u1 + u2, 5);
    assert_eq!(u1, 2);
    // degenerate zero combined weight moves nothing
    assert_eq!(split_weighted(500, 0, 0), (0, 0));
    assert!(WEIGHT_MAX >= 1_000_000_000);
}

#[test]
fn equal_weight_circles_separate_to_twice_the_radius() {
    // radius 10 circles, 15 units apart, equal weight
    let level = make_level(4, 4, vec![0; 16]);
    let mut screen = GameScreen::new(0, level, vec![simple_class()]);
    screen.entities.push(circle_entity(0, 30_000, 36_000, 10_000, 100));
    screen.entities.push(circle_entity(1, 45_000, 36_000, 10_000, 100));
    screen.step_collision(16);
    // each moved 2.5 units, now exactly 20 units apart
    assert_eq!(screen.entities[0].base.pos, Vec3 { x: 27_500, y: 36_000, z: 0 });
    assert_eq!(screen.entities[1].base.pos, Vec3 { x: 47_500, y: 36_000, z: 0 });
}

#[test]
fn heavier_bodies_move_less() {
    let level = make_level(4, 4, vec![0; 16]);
    let mut screen = GameScreen::new(0, level, vec![simple_class()]);
    screen.entities.push(circle_entity(0, 30_000, 36_000, 10_000, 100));
    screen.entities.push(circle_entity(1, 45_000, 36_000, 10_000, 400));
    screen.step_collision(16);
    // response 5 units, split 400/500 and 100/500
    assert_eq!(screen.entities[0].base.pos.x, 30_000 - 4_000);
    assert_eq!(screen.entities[1].base.pos.x, 45_000 + 1_000);
}

#[test]
fn impassable_tiles_push_the_entity_out() {
    // center tile (1,1) of a 3x3 level is solid
    let mut codes = vec![0i8; 9];
    codes[1 * 3 + 1] = 1;
    let level = make_level(3, 3, codes);
    let mut screen = GameScreen::new(0, level, vec![simple_class()]);
    screen.entities.push(circle_entity(0, 30_000, 36_000, 10_000, 100));
    screen.step_collision(16);
    // the circle's center sits inside the tile rectangle: the least
    // penetration axis is x, depth 22 - 6 = 16 units, applied fully
    assert_eq!(screen.entities[0].base.pos, Vec3 { x: 14_000, y: 36_000, z: 0 });
}

#[test]
fn hidden_entities_do_not_collide() {
    let level = make_level(4, 4, vec![0; 16]);
    let mut screen = GameScreen::new(0, level, vec![simple_class()]);
    screen.entities.push(circle_entity(0, 30_000, 36_000, 10_000, 100));
    let mut ghost = circle_entity(1, 45_000, 36_000, 10_000, 100);
    ghost.base.hidden = true;
    screen.entities.push(ghost);
    screen.step_collision(16);
    assert_eq!(screen.entities[0].base.pos, Vec3 { x: 30_000, y: 36_000, z: 0 });
    assert_eq!(screen.entities[1].base.pos, Vec3 { x: 45_000, y: 36_000, z: 0 });
}

#[test]
fn bodies_rebuild_from_shape_info() {
    let info = ShapeInfo { shape: Shape::Circle(7_000), weight: 42 };
    let body = PhysicalObject::new_from_info(info);
    assert_eq!(body.shape, Shape::Circle(7_000));
    assert_eq!(body.weight, 42);
    assert_eq!(body.pos, Vec3 { x: 0, y: 0, z: 0 });
    let moved = body.clone_with_pa(Vec3 { x: 5, y: 6, z: 0 }, 9);
    assert_eq!(moved.pos, Vec3 { x: 5, y: 6, z: 0 });
    assert_eq!(moved.angle, 9);
    let _cam = Camera {
        pos: Vec3i::new2(0, 0),
        size: Vec3i::new2(240, 320),
        shake: Vec3i::new2(0, 0),
    };
}
