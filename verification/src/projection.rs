//! What a renderer needs of a vehicle: the pose of its body, and the pose
//! and length of its direction indicator.
//!
//! The indicator is an arrow attached to the vehicle. Its length shows the
//! speed, its rotation the wheel angle. Its pose is given in the vehicle's
//! own frame: whoever draws it composes it with the pose of the body.

use vstd::prelude::*;

use crate::config::{MAX_ARROW_LENGTH, MAX_SPEED};
use crate::fixed::{
    div_round, lemma_round_div_bound, lemma_round_div_exact, round_div, saturate, saturate_i128,
    SCALE,
};
use crate::geometry::Point;
use crate::trig::{cos, cosine, sin, sine};
use crate::vehicle::{states, Vehicle, VehicleState};

verus! {

/// Where the body of a vehicle is drawn.
#[derive(Clone, Copy, Debug, PartialEq, Eq, Structural)]
pub struct Pose {
    /// The position on the plane.
    pub position: Point,
    /// The rotation, in millionths of a degree, counter-clockwise.
    pub rotation: i64,
}

/// Where the indicator of a vehicle is drawn, relative to the vehicle.
#[derive(Clone, Copy, Debug, PartialEq, Eq, Structural)]
pub struct IndicatorPose {
    /// The middle of the arrow, in the vehicle's own frame.
    pub offset: Point,
    /// The rotation, in millionths of a degree, counter-clockwise.
    pub rotation: i64,
    /// The length of the arrow.
    pub length: i64,
}

/// What a renderer needs of one vehicle.
#[derive(Clone, Copy, Debug, PartialEq, Eq, Structural)]
pub struct Projection {
    /// The pose of the body.
    pub body: Pose,
    /// The pose of the indicator, relative to the body.
    pub indicator: IndicatorPose,
}

/// The length of the indicator: the share of the full length that the speed
/// is of the highest speed.
pub open spec fn indicator_length(speed: int) -> int {
    round_div(speed * MAX_ARROW_LENGTH, MAX_SPEED as int)
}

/// The middle of an arrow of the given length and rotation that starts at
/// the origin: half the length along the rotated +Y axis.
pub open spec fn indicator_offset(length: int, rotation: int) -> (int, int) {
    (
        round_div(-length * sine(rotation), 2 * SCALE),
        round_div(length * cosine(rotation), 2 * SCALE),
    )
}

/// The pose of the body of a vehicle: its position, and its heading with the
/// sign changed, since the heading turns clockwise and the rotation
/// counter-clockwise.
pub open spec fn pose_of(vehicle: VehicleState) -> Pose {
    Pose { position: vehicle.position, rotation: saturate(-vehicle.heading) as i64 }
}

/// The pose of the indicator of a vehicle: as long as the speed asks, turned
/// against the wheel angle, and placed so that it starts at the vehicle's
/// position.
pub open spec fn indicator_of(vehicle: VehicleState) -> IndicatorPose {
    let length = indicator_length(vehicle.speed);
    let rotation = -vehicle.wheel_angle;
    let offset = indicator_offset(length, rotation);
    IndicatorPose {
        offset: Point { x: offset.0 as i64, y: offset.1 as i64 },
        rotation: rotation as i64,
        length: length as i64,
    }
}

/// What a renderer needs of a vehicle.
pub open spec fn projection_of(vehicle: VehicleState) -> Projection {
    Projection { body: pose_of(vehicle), indicator: indicator_of(vehicle) }
}

/// `projections` holds the projection of each of `vehicles`, in their order.
pub open spec fn all_projected(projections: Seq<Projection>, vehicles: Seq<VehicleState>) -> bool {
    &&& projections.len() == vehicles.len()
    &&& forall|i: int|
        0 <= i < projections.len() ==> #[trigger] projections[i] == projection_of(vehicles[i])
}

/// The indicator is as long as the full length at the highest speed, and has
/// no length at rest.
pub proof fn lemma_indicator_length_ends()
    ensures
        indicator_length(0) == 0,
        indicator_length(MAX_SPEED as int) == MAX_ARROW_LENGTH,
{
    lemma_round_div_exact(0, MAX_SPEED as int);
    lemma_round_div_exact(MAX_ARROW_LENGTH as int, MAX_SPEED as int);
}

/// For a speed within its limits the indicator is at most as long as the
/// full length.
pub proof fn lemma_indicator_length_bounds(speed: int)
    requires
        0 <= speed <= MAX_SPEED,
    ensures
        0 <= indicator_length(speed) <= MAX_ARROW_LENGTH,
{
    assert(0 <= speed * MAX_ARROW_LENGTH <= MAX_ARROW_LENGTH * MAX_SPEED) by (nonlinear_arith)
        requires
            0 <= speed <= MAX_SPEED,
            0 <= MAX_ARROW_LENGTH,
    ;
    lemma_round_div_bound(speed * MAX_ARROW_LENGTH, MAX_SPEED as int, MAX_ARROW_LENGTH as int);
}

/// The pose of the body of `vehicle`.
pub fn project_pose(vehicle: &Vehicle) -> (pose: Pose)
    ensures
        pose == pose_of(vehicle@),
        pose.position == vehicle@.position,
        pose.rotation == saturate(-vehicle@.heading),
        vehicle@.heading > i64::MIN ==> pose.rotation == -vehicle@.heading,
{
    Pose { position: vehicle.position(), rotation: saturate_i128(-(vehicle.heading() as i128)) }
}

/// The pose of the indicator of `vehicle`, in the vehicle's own frame.
pub fn project_indicator(vehicle: &Vehicle) -> (indicator: IndicatorPose)
    ensures
        indicator == indicator_of(vehicle@),
        indicator.length == indicator_length(vehicle@.speed),
        0 <= indicator.length <= MAX_ARROW_LENGTH,
        indicator.rotation == -vehicle@.wheel_angle,
        indicator.offset.x == indicator_offset(
            indicator.length as int,
            indicator.rotation as int,
        ).0,
        indicator.offset.y == indicator_offset(
            indicator.length as int,
            indicator.rotation as int,
        ).1,
{
    let speed: i64 = vehicle.speed();
    proof {
        lemma_indicator_length_bounds(speed as int);
        assert(0 <= speed * MAX_ARROW_LENGTH <= 200_000_000_000_000) by (nonlinear_arith)
            requires
                0 <= speed <= 5_000_000,
                MAX_ARROW_LENGTH == 40_000_000,
        ;
    }
    let length: i64 = div_round(speed as i128 * MAX_ARROW_LENGTH as i128, MAX_SPEED) as i64;
    let rotation: i64 = -vehicle.wheel_angle();
    let s: i128 = sin(rotation) as i128;
    let c: i128 = cos(rotation) as i128;
    proof {
        assert(-40_000_000_000_000 <= -length * s <= 40_000_000_000_000) by (nonlinear_arith)
            requires
                0 <= length <= 40_000_000,
                -1_000_000 <= s <= 1_000_000,
        ;
        assert(-40_000_000_000_000 <= length * c <= 40_000_000_000_000) by (nonlinear_arith)
            requires
                0 <= length <= 40_000_000,
                -1_000_000 <= c <= 1_000_000,
        ;
        assert(MAX_ARROW_LENGTH * (2 * SCALE) == 80_000_000_000_000);
        lemma_round_div_bound(-length * s, 2 * SCALE, MAX_ARROW_LENGTH as int);
        lemma_round_div_bound(length * c, 2 * SCALE, MAX_ARROW_LENGTH as int);
    }
    let x: i64 = div_round(-(length as i128) * s, 2 * SCALE) as i64;
    let y: i64 = div_round(length as i128 * c, 2 * SCALE) as i64;
    IndicatorPose { offset: Point { x, y }, rotation, length }
}

/// What a renderer needs of `vehicle`.
pub fn project(vehicle: &Vehicle) -> (projection: Projection)
    ensures
        projection == projection_of(vehicle@),
{
    Projection { body: project_pose(vehicle), indicator: project_indicator(vehicle) }
}

/// What a renderer needs of every vehicle, in the order of the vehicles.
pub fn project_all(vehicles: &Vec<Vehicle>) -> (projections: Vec<Projection>)
    ensures
        all_projected(projections@, states(vehicles@)),
{
    let mut projections: Vec<Projection> = Vec::new();
    let mut i: usize = 0;
    while i < vehicles.len()
        invariant
            i <= vehicles.len(),
            projections.len() == i,
            forall|j: int|
                0 <= j < i ==> #[trigger] projections@[j] == projection_of(vehicles@[j]@),
        decreases vehicles.len() - i,
    {
        projections.push(project(&vehicles[i]));
        i = i + 1;
    }
    projections
}

} // verus!
