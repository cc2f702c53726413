use vehicle_sim::collision::{collect_edges, vehicle_corners, vehicle_edges};
use vehicle_sim::config::{CAR_HEIGHT, CAR_WIDTH};
use vehicle_sim::fixed::SCALE;
use vehicle_sim::geometry::{rect_corners, rect_edges, Point, Segment};
use vehicle_sim::vehicle::Vehicle;

#[test]
fn test_detect_collisions() {
    let car1 = Vehicle::default();
    let car2 =
        Vehicle::new(String::new(), Point { x: CAR_WIDTH / 3, y: 0 }, 20 * SCALE, 0, 0, false);
    let _ = (car1, car2);
}

#[test]
fn the_body_is_a_quarter_of_a_hundred_wide_and_half_a_hundred_high() {
    assert_eq!(CAR_WIDTH, 25 * SCALE);
    assert_eq!(CAR_HEIGHT, 50 * SCALE);
}

#[test]
fn the_footprint_of_a_vehicle_at_rest_at_the_origin() {
    let corners = vehicle_corners(&Vehicle::default());
    assert_eq!(
        corners,
        [
            Point { x: 12_500_000, y: 25_000_000 },
            Point { x: 12_500_000, y: -25_000_000 },
            Point { x: -12_500_000, y: -25_000_000 },
            Point { x: -12_500_000, y: 25_000_000 },
        ]
    );
}

#[test]
fn the_footprint_of_a_turned_vehicle() {
    let car =
        Vehicle::new(String::new(), Point { x: CAR_WIDTH / 3, y: 0 }, 20 * SCALE, 0, 0, false);
    assert_eq!(
        vehicle_corners(&car),
        [
            Point { x: 28_629_996, y: 19_217_075 },
            Point { x: 28_629_996, y: -19_217_075 },
            Point { x: -11_963_330, y: -19_217_075 },
            Point { x: 5_137_670, y: 27_767_575 },
        ]
    );
}

#[test]
fn the_footprint_is_the_rectangle_of_the_body_at_the_pose_of_the_vehicle() {
    let center = Point { x: -5 * SCALE, y: 9 * SCALE };
    let car = Vehicle::new(String::new(), center, 222 * SCALE, 0, 0, false);
    let corners =
        rect_corners(car.position(), CAR_WIDTH / 2, CAR_HEIGHT / 2, car.heading()).unwrap();
    assert_eq!(vehicle_corners(&car), corners);
    assert_eq!(vehicle_edges(&car), rect_edges(&corners));
}

#[test]
fn the_edges_of_a_vehicle_at_rest_at_the_origin() {
    let edges = vehicle_edges(&Vehicle::default());
    let right_front = Point { x: 12_500_000, y: 25_000_000 };
    let right_rear = Point { x: 12_500_000, y: -25_000_000 };
    let left_rear = Point { x: -12_500_000, y: -25_000_000 };
    let left_front = Point { x: -12_500_000, y: 25_000_000 };
    assert_eq!(
        edges,
        [
            Segment { start: right_front, end: right_rear },
            Segment { start: right_rear, end: left_rear },
            Segment { start: left_rear, end: left_front },
            Segment { start: left_front, end: right_front },
        ]
    );
}

#[test]
fn the_edges_of_every_vehicle_are_collected_in_order() {
    let vehicles = vec![
        Vehicle::default(),
        Vehicle::new(String::new(), Point { x: CAR_WIDTH / 3, y: 0 }, 20 * SCALE, 0, 0, false),
        Vehicle::new(
            String::from("C3"),
            Point { x: 400 * SCALE, y: 100 * SCALE },
            359 * SCALE,
            0,
            0,
            false,
        ),
    ];
    let edges = collect_edges(&vehicles);
    assert_eq!(edges.len(), 3);
    for i in 0..3 {
        assert_eq!(edges[i], vehicle_edges(&vehicles[i]));
    }
}

#[test]
fn no_vehicles_have_no_edges() {
    assert!(collect_edges(&Vec::new()).is_empty());
}

#[test]
fn collecting_edges_leaves_the_vehicles_as_they_are() {
    let vehicles = vec![Vehicle::new(
        String::from("C1"),
        Point { x: 1, y: 2 },
        45 * SCALE,
        2 * SCALE,
        10 * SCALE,
        true,
    )];
    let _ = collect_edges(&vehicles);
    assert_eq!(vehicles[0].position(), Point { x: 1, y: 2 });
    assert_eq!(vehicles[0].heading(), 45 * SCALE);
    assert_eq!(vehicles[0].speed(), 2 * SCALE);
    assert_eq!(vehicles[0].wheel_angle(), 10 * SCALE);
}
