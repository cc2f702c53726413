//! Oriented rectangles: the four corners and the four edges of a rectangle
//! given by its center, its half extents and its heading.
//!
//! A heading is measured clockwise from the +Y axis, so the unit vector of a
//! heading `h` is `(sin h, cos h)`. With `d` the half diagonal and `beta` the
//! angle between the heading axis and the diagonal, `tan beta = half_width /
//! half_height`, the corners lie at distance `d` from the center in the
//! directions `h + beta`, `180 - h - beta`, `180 + h + beta` and `h - beta`.
//! Since `d sin beta = half_width` and `d cos beta = half_height`, the
//! angle-sum identities give the first of them as
//! `d sin(h + beta) = half_height sin h + half_width cos h` and
//! `d cos(h + beta) = half_height cos h - half_width sin h`;
//! the others follow by changing signs. That is how the corners are
//! stated and computed here: neither `d` nor `beta` is ever formed.

use vstd::prelude::*;

use crate::fixed::{
    div_round, lemma_round_div_bound, round_div, saturate, saturate_i128, SCALE,
};
use crate::trig::{cos, cosine, sin, sine};

verus! {

/// A point of the plane, in millionths of a unit.
#[derive(Clone, Copy, Debug, PartialEq, Eq, Structural)]
pub struct Point {
    pub x: i64,
    pub y: i64,
}

/// A straight segment between two points.
#[derive(Clone, Copy, Debug, PartialEq, Eq, Structural)]
pub struct Segment {
    pub start: Point,
    pub end: Point,
}

/// Why a rectangle has no corners.
#[derive(Clone, Copy, Debug, PartialEq, Eq, Structural)]
pub enum GeometryError {
    /// The half width is zero or negative.
    NonPositiveHalfWidth,
    /// The half height is zero or negative.
    NonPositiveHalfHeight,
}

/// The offset from the center to the corner in the direction
/// `heading + beta`: the half diagonal turned by the heading.
pub open spec fn diagonal_offset(half_width: int, half_height: int, heading: int) -> (int, int) {
    (
        round_div(half_height * sine(heading) + half_width * cosine(heading), SCALE as int),
        round_div(half_height * cosine(heading) - half_width * sine(heading), SCALE as int),
    )
}

/// The offsets from the center to the four corners, in the directions
/// `heading + beta`, `180 - heading - beta`, `180 + heading + beta` and
/// `heading - beta`.
pub open spec fn corner_offsets(half_width: int, half_height: int, heading: int) -> Seq<
    (int, int),
> {
    let (dx, dy) = diagonal_offset(half_width, half_height, heading);
    seq![(dx, dy), (dx, -dy), (-dx, -dy), diagonal_offset(-half_width, half_height, heading)]
}

/// The point at `offset` from `center`; a coordinate that leaves the range
/// of `i64` sticks at its end.
pub open spec fn offset_point(center: Point, offset: (int, int)) -> Point {
    Point {
        x: saturate(center.x + offset.0) as i64,
        y: saturate(center.y + offset.1) as i64,
    }
}

/// The four corners of the rectangle.
pub open spec fn corners_of(center: Point, half_width: int, half_height: int, heading: int) -> Seq<
    Point,
> {
    let offsets = corner_offsets(half_width, half_height, heading);
    seq![
        offset_point(center, offsets[0]),
        offset_point(center, offsets[1]),
        offset_point(center, offsets[2]),
        offset_point(center, offsets[3]),
    ]
}

/// The four edges between consecutive corners, the last one closing the
/// outline.
pub open spec fn edges_of(corners: Seq<Point>) -> Seq<Segment> {
    seq![
        Segment { start: corners[0], end: corners[1] },
        Segment { start: corners[1], end: corners[2] },
        Segment { start: corners[2], end: corners[3] },
        Segment { start: corners[3], end: corners[0] },
    ]
}

/// The half diagonal turned by `heading`, for half extents of any sign.
fn turned_diagonal(half_width: i128, half_height: i128, heading: i64) -> (r: (i128, i128))
    requires
        -0x8000_0000_0000_0000 <= half_width <= 0x8000_0000_0000_0000,
        -0x8000_0000_0000_0000 <= half_height <= 0x8000_0000_0000_0000,
    ensures
        r.0 == diagonal_offset(half_width as int, half_height as int, heading as int).0,
        r.1 == diagonal_offset(half_width as int, half_height as int, heading as int).1,
        -0x1_0000_0000_0000_0000 <= r.0 <= 0x1_0000_0000_0000_0000,
        -0x1_0000_0000_0000_0000 <= r.1 <= 0x1_0000_0000_0000_0000,
{
    let s: i128 = sin(heading) as i128;
    let c: i128 = cos(heading) as i128;
    let w: i128 = half_width;
    let h: i128 = half_height;
    proof {
        let limit: int = 0x8000_0000_0000_0000;
        assert(-(limit * SCALE) <= h * s <= limit * SCALE) by (nonlinear_arith)
            requires
                -limit <= h <= limit,
                -SCALE <= s <= SCALE,
        ;
        assert(-(limit * SCALE) <= w * c <= limit * SCALE) by (nonlinear_arith)
            requires
                -limit <= w <= limit,
                -SCALE <= c <= SCALE,
        ;
        assert(-(limit * SCALE) <= h * c <= limit * SCALE) by (nonlinear_arith)
            requires
                -limit <= h <= limit,
                -SCALE <= c <= SCALE,
        ;
        assert(-(limit * SCALE) <= w * s <= limit * SCALE) by (nonlinear_arith)
            requires
                -limit <= w <= limit,
                -SCALE <= s <= SCALE,
        ;
        assert((2 * limit) * SCALE == 0x1_0000_0000_0000_0000 * SCALE);
        lemma_round_div_bound(h * s + w * c, SCALE as int, 2 * limit);
        lemma_round_div_bound(h * c - w * s, SCALE as int, 2 * limit);
    }
    let dx: i128 = div_round(h * s + w * c, SCALE);
    let dy: i128 = div_round(h * c - w * s, SCALE);
    (dx, dy)
}

/// The point at the offset `(dx, dy)` from `center`.
fn point_at(center: Point, dx: i128, dy: i128) -> (point: Point)
    requires
        -0x1_0000_0000_0000_0000 <= dx <= 0x1_0000_0000_0000_0000,
        -0x1_0000_0000_0000_0000 <= dy <= 0x1_0000_0000_0000_0000,
    ensures
        point == offset_point(center, (dx as int, dy as int)),
{
    Point { x: saturate_i128(center.x as i128 + dx), y: saturate_i128(center.y as i128 + dy) }
}

/// The four corners for half extents of any sign.
pub(crate) fn corners_at(
    center: Point,
    half_width: i64,
    half_height: i64,
    heading: i64,
) -> (corners: [Point; 4])
    ensures
        corners@ == corners_of(center, half_width as int, half_height as int, heading as int),
{
    let (dx, dy) = turned_diagonal(half_width as i128, half_height as i128, heading);
    let (ex, ey) = turned_diagonal(-(half_width as i128), half_height as i128, heading);
    let corners: [Point; 4] = [
        point_at(center, dx, dy),
        point_at(center, dx, -dy),
        point_at(center, -dx, -dy),
        point_at(center, ex, ey),
    ];
    assert(corners@ =~= corners_of(center, half_width as int, half_height as int, heading as int));
    corners
}

/// The four corners of the rectangle with the given center, half extents and
/// heading, in the order of the directions `heading + beta`,
/// `180 - heading - beta`, `180 + heading + beta`, `heading - beta`.
///
/// A rectangle without extent is refused.
pub fn rect_corners(center: Point, half_width: i64, half_height: i64, heading: i64) -> (r: Result<
    [Point; 4],
    GeometryError,
>)
    ensures
        half_width <= 0 ==> r == Err::<[Point; 4], GeometryError>(
            GeometryError::NonPositiveHalfWidth,
        ),
        half_width > 0 && half_height <= 0 ==> r == Err::<[Point; 4], GeometryError>(
            GeometryError::NonPositiveHalfHeight,
        ),
        half_width > 0 && half_height > 0 ==> r.is_ok() && r.unwrap()@ == corners_of(
            center,
            half_width as int,
            half_height as int,
            heading as int,
        ),
{
    if half_width <= 0 {
        Err(GeometryError::NonPositiveHalfWidth)
    } else if half_height <= 0 {
        Err(GeometryError::NonPositiveHalfHeight)
    } else {
        Ok(corners_at(center, half_width, half_height, heading))
    }
}

/// The four edges of a rectangle from its four corners: each corner joined
/// to the next, and the last to the first.
pub fn rect_edges(corners: &[Point; 4]) -> (edges: [Segment; 4])
    ensures
        edges@ == edges_of(corners@),
{
    let edges: [Segment; 4] = [
        Segment { start: corners[0], end: corners[1] },
        Segment { start: corners[1], end: corners[2] },
        Segment { start: corners[2], end: corners[3] },
        Segment { start: corners[3], end: corners[0] },
    ];
    assert(edges@ =~= edges_of(corners@));
    edges
}

} // verus!
