use opensrme::types::{Color, IdCache, Vec3, Vec3fx, Vec3i};
use opensrme::util::{interpolate, isqrt, pick_fixed, pick_int};
use opensrme::angle::{
    cos_fp, get_angle_in_clip, get_frame_in_clip, normalize_angle, normalize_angle_pi,
    normalized_angle_diff, sin_fp, vec_angle, ANGLE_E, ANGLE_N, ANGLE_NE, ANGLE_S, ANGLE_SE,
    ANGLE_W, HALF_PI, PI, QUARTER_PI, TAU,
};

#[test]
fn color_packs_exactly() {
    let c = Color { r: 0x11, g: 0x22, b: 0x33, a: 0x44 };
    assert_eq!(c.to_rgba(), 0x4433_2211);
    let back = Color::from_rgba(0x4433_2211);
    assert_eq!(back, c);
}

#[test]
fn color_round_trip() {
    for (r, g, b, a) in [(0u8, 0u8, 0u8, 0u8), (255, 0, 127, 3), (9, 8, 7, 255)] {
        let c = Color { r, g, b, a };
        assert_eq!(Color::from_rgba(c.to_rgba()), c);
    }
}

#[test]
fn color_from_bgr_sets_opaque_alpha() {
    let c = Color::from_bgr(0x0011_2233);
    assert_eq!(c.b, 0x33);
    assert_eq!(c.g, 0x22);
    assert_eq!(c.r, 0x11);
    assert_eq!(c.a, 255);
}

#[test]
fn id_cache_counts_up_from_one() {
    let mut cache = IdCache::new();
    assert_eq!(cache.get_id(), 1);
    assert_eq!(cache.get_id(), 2);
    cache.free_id(1);
    assert_eq!(cache.get_id(), 3);
}

#[test]
fn vec3_constructors() {
    let v = Vec3i::new2(3, -4);
    assert_eq!(v, Vec3 { x: 3, y: -4, z: 0 });
    let w = Vec3i::new3(1, 2, 3);
    assert_eq!(w, Vec3 { x: 1, y: 2, z: 3 });
    let f = Vec3fx::new2(5, 6);
    assert_eq!(f, Vec3 { x: 5, y: 6, z: 0 });
}

#[test]
fn len2_is_euclidean_floor() {
    let v = Vec3fx::new2(3000, 4000);
    assert_eq!(v.len2(), 5000);
    let w = Vec3fx::new2(1, 1);
    assert_eq!(w.len2(), 1); // floor of sqrt(2)
    assert_eq!(Vec3fx::new2(0, 0).len2(), 0);
}

#[test]
fn isqrt_is_floor_of_square_root() {
    assert_eq!(isqrt(0), 0);
    assert_eq!(isqrt(1), 1);
    assert_eq!(isqrt(3), 1);
    assert_eq!(isqrt(4), 2);
    assert_eq!(isqrt(99), 9);
    assert_eq!(isqrt(100), 10);
    assert_eq!(isqrt(u64::MAX), 4_294_967_295);
}

#[test]
fn interpolate_maps_ranges_exactly() {
    // midpoint and endpoints of a 0..100 -> 0..1000 mapping
    assert_eq!(interpolate(0, 1000, 0, 100, 0), 0);
    assert_eq!(interpolate(0, 1000, 0, 100, 50), 500);
    assert_eq!(interpolate(0, 1000, 0, 100, 100), 1000);
    // degenerate input range collapses onto the low output
    assert_eq!(interpolate(7, 9, 5, 5, 5), 7);
}

#[test]
fn random_picks_stay_in_range() {
    assert_eq!(pick_int(0), 0);
    assert_eq!(pick_int(-3), 0);
    assert_eq!(pick_int(1), 0);
    for _ in 0..32 {
        let v = pick_int(5);
        assert!(0 <= v && v < 5);
        let f = pick_fixed(15_000);
        assert!(0 <= f && f < 15_000);
    }
}

#[test]
fn angles_normalize_into_canonical_ranges() {
    assert_eq!(normalize_angle(0), 0);
    assert_eq!(normalize_angle(TAU), 0);
    assert_eq!(normalize_angle(-QUARTER_PI), TAU - QUARTER_PI);
    assert_eq!(normalize_angle_pi(TAU - QUARTER_PI), -QUARTER_PI);
    assert_eq!(normalize_angle_pi(PI), PI);
}

#[test]
fn angle_diff_takes_shortest_way() {
    // from E round to NE is a quarter-pi step backwards
    assert_eq!(normalized_angle_diff(ANGLE_NE, ANGLE_E), -QUARTER_PI);
    assert_eq!(normalized_angle_diff(ANGLE_E, ANGLE_NE), QUARTER_PI);
    assert_eq!(normalized_angle_diff(ANGLE_S, ANGLE_S), 0);
}

#[test]
fn trig_is_exact_on_the_compass() {
    assert_eq!(cos_fp(ANGLE_E), 1000);
    assert_eq!(sin_fp(ANGLE_E), 0);
    assert_eq!(cos_fp(ANGLE_S), 0);
    assert_eq!(sin_fp(ANGLE_S), 1000);
    assert_eq!(cos_fp(ANGLE_W), -1000);
    assert_eq!(sin_fp(ANGLE_W), 0);
    assert_eq!(cos_fp(ANGLE_N), 0);
    assert_eq!(sin_fp(ANGLE_N), -1000);
    assert_eq!(cos_fp(ANGLE_SE), 707);
    assert_eq!(sin_fp(ANGLE_SE), 707);
}

#[test]
fn vec_angle_matches_compass_directions() {
    assert_eq!(vec_angle(Vec3fx::new2(5, 0)), ANGLE_E);
    assert_eq!(vec_angle(Vec3fx::new2(0, 7)), ANGLE_S);
    assert_eq!(vec_angle(Vec3fx::new2(-3, 0)), ANGLE_W);
    assert_eq!(vec_angle(Vec3fx::new2(0, -9)), -HALF_PI);
    assert_eq!(vec_angle(Vec3fx::new2(4, 4)), ANGLE_SE);
    assert_eq!(vec_angle(Vec3fx::new2(0, 0)), 0);
}

#[test]
fn clip_indexing_wraps_by_angle_and_time() {
    // 8 orientations over the full turn: east is slot 0, south slot 2
    assert_eq!(get_angle_in_clip(ANGLE_E, 8), 0);
    assert_eq!(get_angle_in_clip(ANGLE_S, 8), 2);
    assert_eq!(get_angle_in_clip(ANGLE_W, 8), 4);
    // 4 frames over 700 ms, repeating
    assert_eq!(get_frame_in_clip(0, 700, 4), 0);
    assert_eq!(get_frame_in_clip(350, 700, 4), 2);
    assert_eq!(get_frame_in_clip(700, 700, 4), 0);
}
