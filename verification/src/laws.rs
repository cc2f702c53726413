//! What holds of the model whatever the inputs: the limits of a vehicle's
//! state, the fixed points of its transitions, and the symmetries of its
//! footprint.

use vstd::arithmetic::div_mod::lemma_mod_bound;
use vstd::prelude::*;

use crate::cadence::CadenceState;
use crate::config::{MAX_ARROW_LENGTH, MAX_SPEED, MOVE_SPEED_SCALE, ROTATION_SPEED_SCALE};
use crate::controls::Control;
use crate::fixed::{lemma_round_div_exact, lemma_round_div_odd, SCALE};
use crate::geometry::{
    corner_offsets, corners_of, diagonal_offset, edges_of, offset_point, Point,
};
use crate::projection::{
    indicator_length, lemma_indicator_length_bounds, lemma_indicator_length_ends,
};
use crate::simulation::{step_vehicle, SimulationState, Stages};
use crate::trig::{
    cosine, lemma_axis_values, lemma_cosine_bounds, lemma_half_turn, lemma_mirror,
    lemma_quarter_turn, lemma_sine_bounds, lemma_supplement, lemma_whole_turns, lemma_wrap_keeps,
    sine, wrap_angle, FULL_TURN, HALF_TURN, QUARTER_TURN,
};
use crate::vehicle::{travel, turn, VehicleState};

verus! {

/// One transition of a vehicle.
pub enum Transition {
    /// One tick of the kinematic model.
    Advance,
    /// One tick of the given held inputs.
    Controls(Set<Control>),
}

/// The state of a vehicle after one transition.
pub open spec fn after(vehicle: VehicleState, transition: Transition) -> VehicleState {
    match transition {
        Transition::Advance => vehicle.advance(),
        Transition::Controls(inputs) => vehicle.apply_controls(inputs),
    }
}

/// The state of a vehicle after a sequence of transitions, the first one
/// first.
pub open spec fn after_all(vehicle: VehicleState, transitions: Seq<Transition>) -> VehicleState
    decreases transitions.len(),
{
    if transitions.len() == 0 {
        vehicle
    } else {
        after(after_all(vehicle, transitions.drop_last()), transitions.last())
    }
}

/// Nothing is travelled at no speed, and nothing is turned at no speed or
/// with straight wheels.
proof fn lemma_nothing_moves(speed: int, direction: int, wheel_angle: int)
    ensures
        travel(0, direction) == 0,
        turn(0, wheel_angle) == 0,
        turn(speed, 0) == 0,
{
    lemma_axis_values();
    assert(0 * direction * MOVE_SPEED_SCALE == 0) by (nonlinear_arith);
    assert(0 * sine(wheel_angle) * ROTATION_SPEED_SCALE == 0) by (nonlinear_arith);
    assert(speed * 0 * ROTATION_SPEED_SCALE == 0) by (nonlinear_arith);
    lemma_round_div_exact(0, SCALE * SCALE);
}

/// Each transition keeps speed and wheel angle within their limits.
pub proof fn law_limits_kept_by_each(vehicle: VehicleState, inputs: Set<Control>)
    requires
        vehicle.wf(),
    ensures
        vehicle.advance().wf(),
        vehicle.apply_controls(inputs).wf(),
{
}

/// After any number of transitions, in any order and with any inputs, speed
/// and wheel angle lie within their limits.
pub proof fn law_limits_kept(vehicle: VehicleState, transitions: Seq<Transition>)
    requires
        vehicle.wf(),
    ensures
        after_all(vehicle, transitions).wf(),
    decreases transitions.len(),
{
    if transitions.len() > 0 {
        law_limits_kept(vehicle, transitions.drop_last());
        let before = after_all(vehicle, transitions.drop_last());
        match transitions.last() {
            Transition::Advance => law_limits_kept_by_each(before, Set::empty()),
            Transition::Controls(inputs) => law_limits_kept_by_each(before, inputs),
        }
    }
}

/// Whatever the heading was, after a tick of the kinematic model it is a
/// point of the full turn.
pub proof fn law_heading_wrapped(vehicle: VehicleState)
    ensures
        0 <= vehicle.advance().heading < FULL_TURN,
{
}

/// Without any input held, a tick of the inputs changes nothing.
pub proof fn law_no_input_no_change(vehicle: VehicleState)
    requires
        vehicle.wf(),
    ensures
        vehicle.apply_controls(Set::empty()) == vehicle,
{
}

/// Inputs change nothing of a vehicle that is not controlled.
pub proof fn law_uncontrolled_unchanged(vehicle: VehicleState, inputs: Set<Control>)
    requires
        !vehicle.controlled,
    ensures
        vehicle.apply_controls(inputs) == vehicle,
{
}

/// With straight wheels a tick of the kinematic model does not turn the
/// vehicle, whatever the speed: it only wraps the heading, and so keeps a
/// heading that is a point of the full turn.
pub proof fn law_straight_wheels_keep_heading(vehicle: VehicleState)
    requires
        vehicle.wheel_angle == 0,
    ensures
        vehicle.advance().heading == wrap_angle(vehicle.heading),
        0 <= vehicle.heading < FULL_TURN ==> vehicle.advance().heading == vehicle.heading,
{
    lemma_nothing_moves(vehicle.speed, 0, 0);
}

/// At rest a tick of the kinematic model keeps the position and does not
/// turn the vehicle: it only wraps the heading, and so changes nothing of a
/// vehicle whose heading is a point of the full turn.
pub proof fn law_rest_keeps_position(vehicle: VehicleState)
    requires
        vehicle.speed == 0,
    ensures
        vehicle.advance().position == vehicle.position,
        vehicle.advance().heading == wrap_angle(vehicle.heading),
        0 <= vehicle.heading < FULL_TURN ==> vehicle.advance() == vehicle,
{
    lemma_nothing_moves(0, sine(vehicle.heading), vehicle.wheel_angle);
    lemma_nothing_moves(0, cosine(vehicle.heading), vehicle.wheel_angle);
}

/// With the heading along +Y the corners are those of the axis-aligned
/// rectangle, in the order right front, right rear, left rear, left front.
pub proof fn law_axis_aligned_corners(center: Point, half_width: int, half_height: int)
    ensures
        corner_offsets(half_width, half_height, 0) == seq![
            (half_width, half_height),
            (half_width, -half_height),
            (-half_width, -half_height),
            (-half_width, half_height),
        ],
        corners_of(center, half_width, half_height, 0) == seq![
            offset_point(center, (half_width, half_height)),
            offset_point(center, (half_width, -half_height)),
            offset_point(center, (-half_width, -half_height)),
            offset_point(center, (-half_width, half_height)),
        ],
{
    lemma_axis_values();
    lemma_upright_diagonal(half_width, half_height);
    lemma_upright_diagonal(-half_width, half_height);
    assert(corner_offsets(half_width, half_height, 0) =~= seq![
        (half_width, half_height),
        (half_width, -half_height),
        (-half_width, -half_height),
        (-half_width, half_height),
    ]);
}

proof fn lemma_upright_diagonal(half_width: int, half_height: int)
    ensures
        diagonal_offset(half_width, half_height, 0) == (half_width, half_height),
{
    lemma_axis_values();
    assert(half_height * 0 + half_width * SCALE == half_width * SCALE) by (nonlinear_arith);
    assert(half_height * SCALE - half_width * 0 == half_height * SCALE) by (nonlinear_arith);
    lemma_round_div_exact(half_width, SCALE as int);
    lemma_round_div_exact(half_height, SCALE as int);
}

/// Each edge starts at the corner of its own index and ends at the next
/// corner, the last edge at the first corner: the edges close the outline.
pub proof fn law_edges_close_the_outline(corners: Seq<Point>, i: int)
    requires
        corners.len() == 4,
        0 <= i < 4,
    ensures
        edges_of(corners).len() == 4,
        edges_of(corners)[i].start == corners[i],
        edges_of(corners)[i].end == corners[(i + 1) % 4],
        edges_of(corners)[i].end == edges_of(corners)[(i + 1) % 4].start,
{
}

/// The offset `(x, y)` turned a quarter turn clockwise about the origin.
pub open spec fn quarter_turned(offset: (int, int)) -> (int, int) {
    (offset.1, -offset.0)
}

/// The offset `(x, y)` turned a quarter turn counter-clockwise about the
/// origin.
pub open spec fn quarter_turned_back(offset: (int, int)) -> (int, int) {
    (-offset.1, offset.0)
}

/// The offset `(x, y)` turned half a turn about the origin.
pub open spec fn half_turned(offset: (int, int)) -> (int, int) {
    (-offset.0, -offset.1)
}

proof fn lemma_diagonal_quarter_turn(half_width: int, half_height: int, heading: int)
    ensures
        diagonal_offset(half_width, half_height, heading + QUARTER_TURN) == quarter_turned(
            diagonal_offset(half_width, half_height, heading),
        ),
{
    lemma_quarter_turn(heading);
    let s = sine(heading);
    let c = cosine(heading);
    assert(half_height * (-s) - half_width * c == -(half_height * s + half_width * c))
        by (nonlinear_arith);
    assert(half_height * c + half_width * (-s) == half_height * c - half_width * s)
        by (nonlinear_arith);
    lemma_round_div_odd(half_height * s + half_width * c, SCALE as int);
}

/// A heading a quarter turn further turns the first, the third and the
/// fourth corner a quarter turn clockwise about the center. The second
/// corner, which lies in the direction `180 - heading - beta`, turns a
/// quarter turn the other way.
pub proof fn law_quarter_turn_of_corners(half_width: int, half_height: int, heading: int)
    ensures
        ({
            let before = corner_offsets(half_width, half_height, heading);
            let after = corner_offsets(half_width, half_height, heading + QUARTER_TURN);
            &&& after[0] == quarter_turned(before[0])
            &&& after[1] == quarter_turned_back(before[1])
            &&& after[2] == quarter_turned(before[2])
            &&& after[3] == quarter_turned(before[3])
        }),
{
    lemma_diagonal_quarter_turn(half_width, half_height, heading);
    lemma_diagonal_quarter_turn(-half_width, half_height, heading);
}

/// A heading half a turn further turns every corner half a turn about the
/// center.
pub proof fn law_half_turn_of_corners(half_width: int, half_height: int, heading: int)
    ensures
        ({
            let before = corner_offsets(half_width, half_height, heading);
            let after = corner_offsets(half_width, half_height, heading + HALF_TURN);
            forall|i: int| 0 <= i < 4 ==> after[i] == half_turned(#[trigger] before[i])
        }),
{
    lemma_diagonal_quarter_turn(half_width, half_height, heading);
    lemma_diagonal_quarter_turn(half_width, half_height, heading + QUARTER_TURN);
    lemma_diagonal_quarter_turn(-half_width, half_height, heading);
    lemma_diagonal_quarter_turn(-half_width, half_height, heading + QUARTER_TURN);
    assert(heading + QUARTER_TURN + QUARTER_TURN == heading + HALF_TURN);
}

/// The sine and the cosine of the table have the symmetries of the true
/// ones, exactly: they lie within one whole, the sine is odd and the cosine
/// even, a quarter turn swaps them, half a turn changes their signs, the
/// supplement keeps the sine, and whole turns and wrapping change nothing.
pub proof fn law_symmetries_of_sine(angle: int, turns: int)
    ensures
        -SCALE <= sine(angle) <= SCALE,
        -SCALE <= cosine(angle) <= SCALE,
        sine(-angle) == -sine(angle),
        cosine(-angle) == cosine(angle),
        sine(angle + QUARTER_TURN) == cosine(angle),
        cosine(angle + QUARTER_TURN) == -sine(angle),
        sine(angle + HALF_TURN) == -sine(angle),
        cosine(angle + HALF_TURN) == -cosine(angle),
        sine(HALF_TURN - angle) == sine(angle),
        cosine(HALF_TURN - angle) == -cosine(angle),
        sine(angle + turns * FULL_TURN) == sine(angle),
        cosine(angle + turns * FULL_TURN) == cosine(angle),
        sine(wrap_angle(angle)) == sine(angle),
        cosine(wrap_angle(angle)) == cosine(angle),
{
    lemma_sine_bounds(angle);
    lemma_cosine_bounds(angle);
    lemma_mirror(angle);
    lemma_quarter_turn(angle);
    lemma_half_turn(angle);
    lemma_supplement(angle);
    lemma_whole_turns(angle, turns);
    lemma_wrap_keeps(angle);
}

/// The indicator has no length at rest and its full length at the highest
/// speed; in between it is never longer.
pub proof fn law_indicator_length(speed: int)
    requires
        0 <= speed <= MAX_SPEED,
    ensures
        indicator_length(0) == 0,
        indicator_length(MAX_SPEED as int) == MAX_ARROW_LENGTH,
        0 <= indicator_length(speed) <= MAX_ARROW_LENGTH,
{
    lemma_indicator_length_ends();
    lemma_indicator_length_bounds(speed);
}

/// After any time a cadence has less than its period to go.
pub proof fn law_cadence_keeps_running(cadence: CadenceState, delta: nat)
    requires
        cadence.wf(),
    ensures
        cadence.tick(delta).wf(),
{
    lemma_mod_bound((cadence.elapsed + delta) as int, cadence.period as int);
}

/// A step of the simulation leaves every vehicle within its limits and
/// every cadence running.
pub proof fn law_step_keeps_limits(simulation: SimulationState, delta: nat, inputs: Set<Control>)
    requires
        simulation.wf(),
    ensures
        simulation.step(delta, inputs).wf(),
{
    let next = simulation.step(delta, inputs);
    assert(next.vehicles == simulation.run(simulation.due(delta), inputs).vehicles);
    assert forall|i: int| 0 <= i < next.vehicles.len() implies (#[trigger] next.vehicles[i]).wf(
    ) by {
        let vehicle = simulation.vehicles[i];
        assert(vehicle.wf());
        law_limits_kept_by_each(vehicle, inputs);
        law_limits_kept_by_each(vehicle.apply_controls(inputs), inputs);
    }
    law_cadence_keeps_running(simulation.control_sampling, delta);
    law_cadence_keeps_running(simulation.kinematics, delta);
    law_cadence_keeps_running(simulation.collisions, delta);
    law_cadence_keeps_running(simulation.projection, delta);
}

/// In a step in which the inputs are applied and the vehicles move, a
/// vehicle is steered before it moves: the inputs of a frame act on the
/// movement of the same frame.
pub proof fn law_steered_before_moved(vehicle: VehicleState, stages: Stages, inputs: Set<Control>)
    requires
        stages.sample,
        stages.advance,
    ensures
        step_vehicle(vehicle, stages, inputs) == vehicle.apply_controls(inputs).advance(),
{
}

} // verus!
