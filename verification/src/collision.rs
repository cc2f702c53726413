//! The collision candidate detector: the outline of every vehicle, as the
//! four edges of its oriented footprint.
//!
//! The detector stops here. Testing the edges of two vehicles against each
//! other, and deciding what a collision does, is the work of whoever takes
//! the edges.

use vstd::prelude::*;

use crate::config::{CAR_HEIGHT, CAR_WIDTH};
use crate::geometry::{corners_at, corners_of, edges_of, rect_edges, Point, Segment};
use crate::vehicle::{states, Vehicle, VehicleState};

verus! {

/// The four corners of the body of a vehicle: the rectangle of the body's
/// size, centered at the vehicle's position and turned by its heading.
pub open spec fn footprint(vehicle: VehicleState) -> Seq<Point> {
    corners_of(vehicle.position, CAR_WIDTH / 2, CAR_HEIGHT / 2, vehicle.heading)
}

/// The four edges of the body of a vehicle.
pub open spec fn outline(vehicle: VehicleState) -> Seq<Segment> {
    edges_of(footprint(vehicle))
}

/// `edges` holds the outline of each of `vehicles`, in their order.
pub open spec fn all_outlined(edges: Seq<[Segment; 4]>, vehicles: Seq<VehicleState>) -> bool {
    &&& edges.len() == vehicles.len()
    &&& forall|i: int| 0 <= i < edges.len() ==> (#[trigger] edges[i])@ == outline(vehicles[i])
}

/// The four corners of the body of `vehicle`.
pub fn vehicle_corners(vehicle: &Vehicle) -> (corners: [Point; 4])
    ensures
        corners@ == footprint(vehicle@),
{
    corners_at(vehicle.position(), CAR_WIDTH / 2, CAR_HEIGHT / 2, vehicle.heading())
}

/// The four edges of the body of `vehicle`.
pub fn vehicle_edges(vehicle: &Vehicle) -> (edges: [Segment; 4])
    ensures
        edges@ == outline(vehicle@),
{
    let corners = vehicle_corners(vehicle);
    rect_edges(&corners)
}

/// The edges of every vehicle, in the order of the vehicles.
pub fn collect_edges(vehicles: &Vec<Vehicle>) -> (edges: Vec<[Segment; 4]>)
    ensures
        all_outlined(edges@, states(vehicles@)),
{
    let mut edges: Vec<[Segment; 4]> = Vec::new();
    let mut i: usize = 0;
    while i < vehicles.len()
        invariant
            i <= vehicles.len(),
            edges.len() == i,
            forall|j: int| 0 <= j < i ==> (#[trigger] edges@[j])@ == outline(vehicles@[j]@),
        decreases vehicles.len() - i,
    {
        edges.push(vehicle_edges(&vehicles[i]));
        i = i + 1;
    }
    edges
}

} // verus!
