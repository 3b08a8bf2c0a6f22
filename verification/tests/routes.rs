use opensrme::angle::{ANGLE_E, ANGLE_S};
use opensrme::route::{clone_route, Route, RouteData, RoutePart};
use opensrme::types::Vec3;

fn part(x: i64, y: i64) -> RoutePart {
    RoutePart { pos: Vec3 { x, y, z: 0 }, distance: 0, unk1: 0 }
}

fn l_route() -> Route {
    // east 30 units, then south 40 units
    let mut route = Route { parts: vec![part(0, 0), part(30_000, 0), part(30_000, 40_000)] };
    route.set_distances();
    route
}

#[test]
fn set_distances_accumulates_arclength() {
    let route = l_route();
    assert_eq!(route.parts[0].distance, 0);
    assert_eq!(route.parts[1].distance, 30_000);
    assert_eq!(route.parts[2].distance, 70_000);
    assert_eq!(route.get_total_distance(), 70_000);
}

#[test]
fn point_at_waypoint_distance_is_the_waypoint() {
    let route = l_route();
    assert_eq!(route.get_point(0), Some(Vec3 { x: 0, y: 0, z: 0 }));
    assert_eq!(route.get_point(30_000), Some(Vec3 { x: 30_000, y: 0, z: 0 }));
    assert_eq!(route.get_point(70_000), Some(Vec3 { x: 30_000, y: 40_000, z: 0 }));
}

#[test]
fn point_beyond_total_length_is_none() {
    let route = l_route();
    assert_eq!(route.get_point(70_001), None);
    assert_eq!(route.get_point(1_000_000), None);
}

#[test]
fn point_interpolates_within_a_segment() {
    let route = l_route();
    assert_eq!(route.get_point(15_000), Some(Vec3 { x: 15_000, y: 0, z: 0 }));
    assert_eq!(route.get_point(50_000), Some(Vec3 { x: 30_000, y: 20_000, z: 0 }));
}

#[test]
fn angle_follows_the_segment_heading() {
    let route = l_route();
    assert_eq!(route.get_angle_at_point(10_000), Some(ANGLE_E));
    assert_eq!(route.get_angle_at_point(50_000), Some(ANGLE_S));
    assert_eq!(route.get_angle_at_point(80_000), None);
}

#[test]
fn cloned_routes_are_equal() {
    let route = l_route();
    let copy = clone_route(&route);
    assert_eq!(copy, route);
}

#[test]
fn route_stepping_advances_and_reports_the_pose() {
    let mut data = RouteData { route: Some(l_route()), routeid: None, threshold: 0, progress: 0 };
    let stepped = data.step(10_000, 1000);
    assert_eq!(data.progress, 10_000);
    let (pos, angle) = stepped.unwrap();
    assert_eq!(pos, Vec3 { x: 10_000, y: 0, z: 0 });
    assert_eq!(angle, ANGLE_E);
}

#[test]
fn route_within_threshold_of_the_end_is_dropped() {
    let mut data = RouteData {
        route: Some(l_route()),
        routeid: None,
        threshold: 65_000,
        progress: 10_000,
    };
    // 60 units remain, within the 65-unit threshold: the route ends
    let stepped = data.step(10_000, 1000);
    assert!(stepped.is_none());
    assert!(data.route.is_none());
    assert_eq!(data.progress, 10_000);
}

#[test]
fn route_running_past_the_end_is_dropped() {
    let mut data = RouteData { route: Some(l_route()), routeid: None, threshold: 0, progress: 0 };
    // a huge step runs past the last waypoint
    let stepped = data.step(100_000, 1000);
    assert!(stepped.is_none());
    assert!(data.route.is_none());
}

#[test]
fn route_id_lookup_installs_the_level_route() {
    let routes = vec![l_route()];
    let mut data: RouteData = RouteData {
        route: None,
        routeid: Some(0),
        threshold: 5,
        progress: 7,
    };
    assert!(data.set_route_to_routeid(&routes));
    assert_eq!(data.progress, 0);
    assert_eq!(data.threshold, 0);
    assert_eq!(data.route.as_ref().unwrap().parts, routes[0].parts);

    let mut no_id: RouteData = RouteData { route: None, routeid: None, threshold: 0, progress: 0 };
    assert!(!no_id.set_route_to_routeid(&routes));
}

#[test]
fn degenerate_duplicate_waypoints_share_a_position() {
    let mut route = Route {
        parts: vec![part(5_000, 5_000), part(5_000, 5_000), part(10_000, 5_000)],
    };
    route.set_distances();
    assert_eq!(route.parts[1].distance, 0);
    assert_eq!(route.parts[2].distance, 5_000);
    assert_eq!(route.get_point(0), Some(Vec3 { x: 5_000, y: 5_000, z: 0 }));
}

#[test]
fn a_fresh_route_record_is_empty() {
    let data = RouteData::default();
    assert!(data.route.is_none());
    assert!(data.routeid.is_none());
    assert_eq!(data.threshold, 0);
    assert_eq!(data.progress, 0);
}
