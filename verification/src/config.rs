//! The constants of the simulation. Lengths and speeds are in millionths of
//! a unit, angles in millionths of a degree, factors in millionths.

use vstd::prelude::*;

verus! {

/// The width of a vehicle's body.
pub const CAR_WIDTH: i64 = 25_000_000;

/// The height (length along the heading) of a vehicle's body.
pub const CAR_HEIGHT: i64 = 50_000_000;

/// The length of the direction indicator at full speed: four fifths of the
/// body's height.
pub const MAX_ARROW_LENGTH: i64 = 40_000_000;

/// The depth at which the indicator is drawn; handed through to whoever
/// renders it.
pub const ARROW_LAYER: i64 = 10_000_000;

/// The lowest speed of a vehicle.
pub const MIN_SPEED: i64 = 0;

/// The highest speed of a vehicle.
pub const MAX_SPEED: i64 = 5_000_000;

/// What one tick of accelerating or braking adds to or takes from the speed.
pub const SPEED_INCREMENT: i64 = 100_000;

/// The wheel angle at full lock to the left.
pub const MIN_ANGLE: i64 = -35_000_000;

/// The wheel angle at full lock to the right.
pub const MAX_ANGLE: i64 = 35_000_000;

/// What one tick of steering adds to or takes from the wheel angle.
pub const ANGLE_INCREMENT: i64 = 800_000;

/// The distance travelled in one tick per unit of speed.
pub const MOVE_SPEED_SCALE: i64 = 300_000;

/// The degrees turned in one tick per unit of speed at a wheel angle of a
/// quarter turn.
pub const ROTATION_SPEED_SCALE: i64 = 1_000_000;

/// The time between two ticks of the kinematics, of the control sampling and
/// of the projections: a sixtieth of a second, in nanoseconds.
pub const TICK_PERIOD_NANOS: u64 = 16_666_667;

/// The time between two passes of the collision candidate detector: one
/// second, in nanoseconds.
pub const COLLISION_PERIOD_NANOS: u64 = 1_000_000_000;

} // verus!
