use vehicle_sim::config::{
    ANGLE_INCREMENT, MAX_ANGLE, MAX_SPEED, MIN_ANGLE, MIN_SPEED, SPEED_INCREMENT,
};
use vehicle_sim::controls::{Control, ControlSet};
use vehicle_sim::fixed::SCALE;
use vehicle_sim::geometry::Point;
use vehicle_sim::vehicle::Vehicle;

fn controlled(speed: i64, wheel_angle: i64) -> Vehicle {
    Vehicle::new(String::from("C1"), Point { x: 3, y: 4 }, 45 * SCALE, speed, wheel_angle, true)
}

fn only(control: Control) -> ControlSet {
    ControlSet::empty().with(control)
}

#[test]
fn the_empty_set_holds_nothing() {
    let set = ControlSet::empty();
    assert!(!set.contains(Control::Accelerate));
    assert!(!set.contains(Control::Brake));
    assert!(!set.contains(Control::SteerLeft));
    assert!(!set.contains(Control::SteerRight));
    assert_eq!(
        set,
        ControlSet { accelerate: false, brake: false, steer_left: false, steer_right: false }
    );
}

#[test]
fn adding_an_input_adds_only_that_input() {
    let set = ControlSet::empty().with(Control::Brake).with(Control::SteerRight);
    assert!(!set.contains(Control::Accelerate));
    assert!(set.contains(Control::Brake));
    assert!(!set.contains(Control::SteerLeft));
    assert!(set.contains(Control::SteerRight));
    assert_eq!(set.with(Control::Brake), set);
}

#[test]
fn accelerating_saturates_at_the_highest_speed() {
    let mut vehicle = controlled(0, 0);
    let inputs = only(Control::Accelerate);
    let times = (MAX_SPEED - 0) / SPEED_INCREMENT + 5;
    assert_eq!(times, 55);
    for _ in 0..times {
        vehicle.apply_controls(&inputs);
    }
    assert_eq!(vehicle.speed(), MAX_SPEED);
}

#[test]
fn accelerating_adds_one_increment_a_tick() {
    let mut vehicle = controlled(0, 0);
    for tick in 1..=50 {
        vehicle.apply_controls(&only(Control::Accelerate));
        assert_eq!(vehicle.speed(), tick * SPEED_INCREMENT);
    }
    assert_eq!(vehicle.speed(), MAX_SPEED);
}

#[test]
fn braking_saturates_at_the_lowest_speed() {
    let mut vehicle = controlled(250_000, 0);
    vehicle.apply_controls(&only(Control::Brake));
    assert_eq!(vehicle.speed(), 150_000);
    vehicle.apply_controls(&only(Control::Brake));
    assert_eq!(vehicle.speed(), 50_000);
    vehicle.apply_controls(&only(Control::Brake));
    assert_eq!(vehicle.speed(), MIN_SPEED);
    vehicle.apply_controls(&only(Control::Brake));
    assert_eq!(vehicle.speed(), MIN_SPEED);
}

#[test]
fn steering_moves_the_wheels_by_one_increment() {
    let mut vehicle = controlled(0, 0);
    vehicle.apply_controls(&only(Control::SteerRight));
    assert_eq!(vehicle.wheel_angle(), ANGLE_INCREMENT);
    vehicle.apply_controls(&only(Control::SteerLeft));
    vehicle.apply_controls(&only(Control::SteerLeft));
    assert_eq!(vehicle.wheel_angle(), -ANGLE_INCREMENT);
    assert_eq!(ANGLE_INCREMENT, 800_000);
}

#[test]
fn steering_saturates_at_full_lock() {
    let mut vehicle = controlled(0, 0);
    for _ in 0..43 {
        vehicle.apply_controls(&only(Control::SteerRight));
    }
    assert_eq!(vehicle.wheel_angle(), 34_400_000);
    vehicle.apply_controls(&only(Control::SteerRight));
    assert_eq!(vehicle.wheel_angle(), MAX_ANGLE);
    vehicle.apply_controls(&only(Control::SteerRight));
    assert_eq!(vehicle.wheel_angle(), MAX_ANGLE);
    for _ in 0..100 {
        vehicle.apply_controls(&only(Control::SteerLeft));
    }
    assert_eq!(vehicle.wheel_angle(), MIN_ANGLE);
}

#[test]
fn opposite_inputs_cancel() {
    let mut vehicle = controlled(2 * SCALE, 10 * SCALE);
    let all = ControlSet { accelerate: true, brake: true, steer_left: true, steer_right: true };
    vehicle.apply_controls(&all);
    assert_eq!(vehicle.speed(), 2 * SCALE);
    assert_eq!(vehicle.wheel_angle(), 10 * SCALE);
}

#[test]
fn opposite_inputs_cancel_before_the_clamp() {
    let mut vehicle = controlled(MAX_SPEED, MAX_ANGLE);
    let all = ControlSet { accelerate: true, brake: true, steer_left: true, steer_right: true };
    vehicle.apply_controls(&all);
    assert_eq!(vehicle.speed(), MAX_SPEED);
    assert_eq!(vehicle.wheel_angle(), MAX_ANGLE);
    let mut low = controlled(MIN_SPEED, MIN_ANGLE);
    low.apply_controls(&all);
    assert_eq!(low.speed(), MIN_SPEED);
    assert_eq!(low.wheel_angle(), MIN_ANGLE);
}

#[test]
fn several_inputs_act_in_the_same_tick() {
    let mut vehicle = controlled(2 * SCALE, 10 * SCALE);
    let inputs = ControlSet::empty().with(Control::Accelerate).with(Control::SteerLeft);
    vehicle.apply_controls(&inputs);
    assert_eq!(vehicle.speed(), 2_100_000);
    assert_eq!(vehicle.wheel_angle(), 9_200_000);
}

#[test]
fn no_input_changes_nothing() {
    let mut vehicle = controlled(2 * SCALE, 10 * SCALE);
    vehicle.apply_controls(&ControlSet::empty());
    vehicle.apply_controls(&ControlSet::empty());
    assert_eq!(vehicle.speed(), 2 * SCALE);
    assert_eq!(vehicle.wheel_angle(), 10 * SCALE);
    assert_eq!(vehicle.position(), Point { x: 3, y: 4 });
    assert_eq!(vehicle.heading(), 45 * SCALE);
    assert!(vehicle.controlled());
    assert_eq!(vehicle.name(), "C1");
}

#[test]
fn inputs_change_neither_position_nor_heading() {
    let mut vehicle = controlled(2 * SCALE, 10 * SCALE);
    let all = ControlSet::empty().with(Control::Accelerate).with(Control::SteerRight);
    vehicle.apply_controls(&all);
    assert_eq!(vehicle.position(), Point { x: 3, y: 4 });
    assert_eq!(vehicle.heading(), 45 * SCALE);
}

#[test]
fn an_uncontrolled_vehicle_ignores_the_inputs() {
    let mut vehicle =
        Vehicle::new(String::from("C2"), Point { x: 0, y: 0 }, 0, 2 * SCALE, 10 * SCALE, false);
    let inputs = ControlSet::empty().with(Control::Accelerate).with(Control::SteerRight);
    vehicle.apply_controls(&inputs);
    assert_eq!(vehicle.speed(), 2 * SCALE);
    assert_eq!(vehicle.wheel_angle(), 10 * SCALE);
}

#[test]
fn the_limits_hold_after_any_mix_of_ticks() {
    let mut vehicle = controlled(0, 0);
    let mut seed: u32 = 12345;
    for _ in 0..5000 {
        seed = seed.wrapping_mul(1_103_515_245).wrapping_add(12345);
        let bits = seed >> 16;
        let inputs = ControlSet {
            accelerate: bits & 1 != 0,
            brake: bits & 2 != 0,
            steer_left: bits & 4 != 0,
            steer_right: bits & 8 != 0,
        };
        if bits & 16 != 0 {
            vehicle.apply_controls(&inputs);
        } else {
            vehicle.advance();
        }
        assert!(MIN_SPEED <= vehicle.speed() && vehicle.speed() <= MAX_SPEED);
        assert!(MIN_ANGLE <= vehicle.wheel_angle() && vehicle.wheel_angle() <= MAX_ANGLE);
    }
}
