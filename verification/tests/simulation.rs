use vehicle_sim::collision::vehicle_edges;
use vehicle_sim::config::{COLLISION_PERIOD_NANOS, MAX_SPEED, TICK_PERIOD_NANOS};
use vehicle_sim::controls::{Control, ControlSet};
use vehicle_sim::fixed::SCALE;
use vehicle_sim::geometry::Point;
use vehicle_sim::projection::project;
use vehicle_sim::simulation::{Periods, Simulation, Stages};
use vehicle_sim::vehicle::Vehicle;

fn starting_vehicle(controlled: bool) -> Vehicle {
    let origin = Point { x: 0, y: 0 };
    Vehicle::new(String::from("C1"), origin, 45 * SCALE, 2 * SCALE, 10 * SCALE, controlled)
}

fn every(nanos: u64) -> Periods {
    Periods { control_sampling: nanos, kinematics: nanos, collisions: nanos, projection: nanos }
}

#[test]
fn a_stage_without_a_period_is_refused() {
    assert!(Simulation::with_periods(every(1)).is_some());
    assert!(Simulation::with_periods(Periods { control_sampling: 0, ..every(1) }).is_none());
    assert!(Simulation::with_periods(Periods { kinematics: 0, ..every(1) }).is_none());
    assert!(Simulation::with_periods(Periods { collisions: 0, ..every(1) }).is_none());
    assert!(Simulation::with_periods(Periods { projection: 0, ..every(1) }).is_none());
    assert!(Simulation::with_periods(every(0)).is_none());
}

#[test]
fn a_new_simulation_has_no_vehicles() {
    let simulation = Simulation::new();
    assert_eq!(simulation.len(), 0);
    assert!(simulation.vehicle(0).is_none());
}

#[test]
fn vehicles_are_found_under_the_index_they_were_given() {
    let mut simulation = Simulation::new();
    assert_eq!(simulation.add_vehicle(starting_vehicle(true)), 0);
    assert_eq!(simulation.add_vehicle(Vehicle::default()), 1);
    assert_eq!(simulation.len(), 2);
    assert_eq!(simulation.vehicle(0).unwrap().name(), "C1");
    assert_eq!(simulation.vehicle(0).unwrap().heading(), 45 * SCALE);
    assert_eq!(simulation.vehicle(1).unwrap().name(), "");
    assert!(simulation.vehicle(2).is_none());
    assert!(simulation.vehicle(usize::MAX).is_none());
}

#[test]
fn nothing_runs_before_a_period_has_run_out() {
    let mut simulation = Simulation::new();
    simulation.add_vehicle(starting_vehicle(true));
    let inputs = ControlSet::empty().with(Control::Accelerate);
    let outcome = simulation.step(TICK_PERIOD_NANOS - 1, &inputs);
    assert_eq!(
        outcome.stages,
        Stages { sample: false, advance: false, detect: false, project: false }
    );
    assert!(outcome.edges.is_none());
    assert!(outcome.projections.is_none());
    let vehicle = simulation.vehicle(0).unwrap();
    assert_eq!(vehicle.position(), Point { x: 0, y: 0 });
    assert_eq!(vehicle.heading(), 45 * SCALE);
    assert_eq!(vehicle.speed(), 2 * SCALE);
}

#[test]
fn a_tick_moves_the_vehicles() {
    let mut simulation = Simulation::new();
    simulation.add_vehicle(starting_vehicle(true));
    let outcome = simulation.step(TICK_PERIOD_NANOS, &ControlSet::empty());
    assert_eq!(
        outcome.stages,
        Stages { sample: true, advance: true, detect: false, project: true }
    );
    let vehicle = simulation.vehicle(0).unwrap();
    assert_eq!(vehicle.position(), Point { x: 424_264, y: 424_264 });
    assert_eq!(vehicle.heading(), 45_347_296);
    assert!(outcome.edges.is_none());
    assert_eq!(outcome.projections.unwrap(), vec![project(vehicle)]);
}

#[test]
fn the_inputs_of_a_tick_act_on_the_movement_of_the_same_tick() {
    let mut simulation = Simulation::with_periods(every(10)).unwrap();
    simulation.add_vehicle(Vehicle::new(String::new(), Point { x: 0, y: 0 }, 0, 0, 0, true));
    simulation.step(10, &ControlSet::empty().with(Control::Accelerate));
    let vehicle = simulation.vehicle(0).unwrap();
    assert_eq!(vehicle.speed(), 100_000);
    // a tenth of a unit of speed, three tenths of it travelled
    assert_eq!(vehicle.position(), Point { x: 0, y: 30_000 });
}

#[test]
fn the_inputs_reach_only_the_controlled_vehicles() {
    let mut simulation = Simulation::with_periods(every(10)).unwrap();
    simulation.add_vehicle(starting_vehicle(true));
    simulation.add_vehicle(starting_vehicle(false));
    let inputs = ControlSet::empty().with(Control::Accelerate).with(Control::SteerLeft);
    simulation.step(10, &inputs);
    assert_eq!(simulation.vehicle(0).unwrap().speed(), 2_100_000);
    assert_eq!(simulation.vehicle(0).unwrap().wheel_angle(), 9_200_000);
    assert_eq!(simulation.vehicle(1).unwrap().speed(), 2 * SCALE);
    assert_eq!(simulation.vehicle(1).unwrap().wheel_angle(), 10 * SCALE);
    assert_eq!(simulation.vehicle(1).unwrap().position(), Point { x: 424_264, y: 424_264 });
}

#[test]
fn each_stage_keeps_its_own_cadence() {
    let periods = Periods { control_sampling: 2, kinematics: 3, collisions: 5, projection: 7 };
    let mut simulation = Simulation::with_periods(periods).unwrap();
    simulation.add_vehicle(starting_vehicle(true));
    let mut ran = [0, 0, 0, 0];
    for _ in 0..210 {
        let outcome = simulation.step(1, &ControlSet::empty());
        assert_eq!(outcome.stages.detect, outcome.edges.is_some());
        assert_eq!(outcome.stages.project, outcome.projections.is_some());
        ran[0] += outcome.stages.sample as u32;
        ran[1] += outcome.stages.advance as u32;
        ran[2] += outcome.stages.detect as u32;
        ran[3] += outcome.stages.project as u32;
    }
    assert_eq!(ran, [105, 70, 42, 30]);
}

#[test]
fn a_stage_runs_once_however_long_the_frame() {
    let mut simulation = Simulation::with_periods(every(10)).unwrap();
    simulation.add_vehicle(starting_vehicle(true));
    let outcome = simulation.step(35, &ControlSet::empty());
    assert!(outcome.stages.advance);
    assert_eq!(simulation.vehicle(0).unwrap().position(), Point { x: 424_264, y: 424_264 });
    let next = simulation.step(4, &ControlSet::empty());
    assert!(!next.stages.advance);
    let after = simulation.step(1, &ControlSet::empty());
    assert!(after.stages.advance);
}

#[test]
fn the_detector_sees_the_vehicles_where_they_have_arrived() {
    let mut simulation = Simulation::with_periods(every(10)).unwrap();
    simulation.add_vehicle(starting_vehicle(true));
    simulation.add_vehicle(Vehicle::default());
    let outcome = simulation.step(10, &ControlSet::empty());
    let edges = outcome.edges.unwrap();
    assert_eq!(edges.len(), 2);
    assert_eq!(edges[0], vehicle_edges(simulation.vehicle(0).unwrap()));
    assert_eq!(edges[1], vehicle_edges(simulation.vehicle(1).unwrap()));
    assert_eq!(edges[0], vehicle_edges(&Vehicle::new(
        String::new(),
        Point { x: 424_264, y: 424_264 },
        45_347_296,
        0,
        0,
        false,
    )));
}

#[test]
fn the_detector_runs_once_a_second() {
    let mut simulation = Simulation::new();
    simulation.add_vehicle(starting_vehicle(true));
    let mut detections = 0;
    let mut ticks = 0;
    for _ in 0..120 {
        let outcome = simulation.step(TICK_PERIOD_NANOS, &ControlSet::empty());
        detections += outcome.edges.is_some() as u32;
        ticks += outcome.stages.advance as u32;
    }
    assert_eq!(ticks, 120);
    assert_eq!(detections, 2);
    assert_eq!(COLLISION_PERIOD_NANOS, 1_000_000_000);
}

#[test]
fn a_second_of_full_throttle() {
    let mut simulation = Simulation::new();
    simulation.add_vehicle(Vehicle::new(String::new(), Point { x: 0, y: 0 }, 0, 0, 0, true));
    let inputs = ControlSet::empty().with(Control::Accelerate);
    for _ in 0..60 {
        simulation.step(TICK_PERIOD_NANOS, &inputs);
    }
    let vehicle = simulation.vehicle(0).unwrap();
    assert_eq!(vehicle.speed(), MAX_SPEED);
    assert_eq!(vehicle.position().x, 0);
    // three tenths of 0.1 + 0.2 + ... + 5.0, then ten more ticks at 5.0
    assert_eq!(vehicle.position().y, 38_250_000 + 15_000_000);
    assert_eq!(vehicle.heading(), 0);
}

#[test]
fn a_simulation_without_vehicles_still_keeps_time() {
    let mut simulation = Simulation::with_periods(every(10)).unwrap();
    let outcome = simulation.step(10, &ControlSet::empty());
    assert_eq!(outcome.stages, Stages { sample: true, advance: true, detect: true, project: true });
    assert!(outcome.edges.unwrap().is_empty());
    assert!(outcome.projections.unwrap().is_empty());
}

#[test]
fn stages_run_as_they_are_asked() {
    let mut simulation = Simulation::new();
    simulation.add_vehicle(starting_vehicle(true));
    let inputs = ControlSet::empty().with(Control::Brake);

    let none = Stages { sample: false, advance: false, detect: false, project: false };
    let outcome = simulation.run_stages(none, &inputs);
    assert_eq!(outcome.stages, none);
    assert!(outcome.edges.is_none());
    assert!(outcome.projections.is_none());
    assert_eq!(simulation.vehicle(0).unwrap().speed(), 2 * SCALE);
    assert_eq!(simulation.vehicle(0).unwrap().position(), Point { x: 0, y: 0 });

    let sample = Stages { sample: true, ..none };
    simulation.run_stages(sample, &inputs);
    assert_eq!(simulation.vehicle(0).unwrap().speed(), 1_900_000);
    assert_eq!(simulation.vehicle(0).unwrap().position(), Point { x: 0, y: 0 });

    let advance = Stages { advance: true, ..none };
    simulation.run_stages(advance, &inputs);
    assert_eq!(simulation.vehicle(0).unwrap().speed(), 1_900_000);
    assert_eq!(simulation.vehicle(0).unwrap().position(), Point { x: 403_051, y: 403_051 });

    let look = Stages { detect: true, project: true, ..none };
    let outcome = simulation.run_stages(look, &inputs);
    assert_eq!(outcome.edges.unwrap(), vec![vehicle_edges(simulation.vehicle(0).unwrap())]);
    assert_eq!(outcome.projections.unwrap(), vec![project(simulation.vehicle(0).unwrap())]);
    assert_eq!(simulation.vehicle(0).unwrap().position(), Point { x: 403_051, y: 403_051 });
}

#[test]
fn running_stages_lets_no_time_pass() {
    let mut simulation = Simulation::with_periods(every(10)).unwrap();
    simulation.add_vehicle(starting_vehicle(true));
    assert!(!simulation.step(9, &ControlSet::empty()).stages.advance);
    let all = Stages { sample: true, advance: true, detect: true, project: true };
    simulation.run_stages(all, &ControlSet::empty());
    simulation.run_stages(all, &ControlSet::empty());
    assert!(simulation.step(1, &ControlSet::empty()).stages.advance);
    assert!(!simulation.step(9, &ControlSet::empty()).stages.advance);
}
