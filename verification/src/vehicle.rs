//! A vehicle and its two state transitions: one tick of the kinematic model
//! and one tick of control input.

use vstd::prelude::*;

use crate::config::{
    ANGLE_INCREMENT, MAX_ANGLE, MAX_SPEED, MIN_ANGLE, MIN_SPEED, MOVE_SPEED_SCALE,
    ROTATION_SPEED_SCALE, SPEED_INCREMENT,
};
use crate::controls::{Control, ControlSet};
use crate::fixed::{
    clamp, clamp_i64, div_round, lemma_round_div_bound, round_div, saturate_i128, SCALE,
};
use crate::geometry::{offset_point, Point};
use crate::trig::{cos, cosine, sin, sine, wrap_angle, wrap_wide, FULL_TURN};

verus! {

/// What a vehicle is, as plain mathematical values.
pub struct VehicleState {
    /// The label of the vehicle; it takes no part in any computation.
    pub name: Seq<char>,
    /// The position, in millionths of a unit.
    pub position: Point,
    /// The speed along the heading, in millionths of a unit.
    pub speed: int,
    /// The heading, in millionths of a degree, clockwise from the +Y axis.
    pub heading: int,
    /// The steering deflection, in millionths of a degree.
    pub wheel_angle: int,
    /// Whether control input is applied to this vehicle.
    pub controlled: bool,
}

/// The distance travelled along one axis in one tick, for the component
/// `direction` (in millionths) of the heading's unit vector along that axis.
pub open spec fn travel(speed: int, direction: int) -> int {
    round_div(speed * direction * MOVE_SPEED_SCALE, SCALE * SCALE)
}

/// The change of heading in one tick.
pub open spec fn turn(speed: int, wheel_angle: int) -> int {
    round_div(speed * sine(wheel_angle) * ROTATION_SPEED_SCALE, SCALE * SCALE)
}

/// `amount` if `control` is held, else nothing.
pub open spec fn held(inputs: Set<Control>, control: Control, amount: int) -> int {
    if inputs.contains(control) {
        amount
    } else {
        0
    }
}

impl VehicleState {
    /// The bounds that every vehicle keeps: speed and wheel angle lie within
    /// their limits.
    pub open spec fn wf(self) -> bool {
        &&& MIN_SPEED <= self.speed <= MAX_SPEED
        &&& MIN_ANGLE <= self.wheel_angle <= MAX_ANGLE
    }

    /// The state one tick later: the vehicle has moved along its heading by
    /// its speed, and has turned by its speed times the sine of its wheel
    /// angle; the heading is wrapped into the full turn.
    pub open spec fn advance(self) -> VehicleState {
        VehicleState {
            position: offset_point(
                self.position,
                (travel(self.speed, sine(self.heading)), travel(self.speed, cosine(self.heading))),
            ),
            heading: wrap_angle(self.heading + turn(self.speed, self.wheel_angle)),
            ..self
        }
    }

    /// The state `ticks` ticks later.
    pub open spec fn advance_by(self, ticks: nat) -> VehicleState
        decreases ticks,
    {
        if ticks == 0 {
            self
        } else {
            self.advance_by((ticks - 1) as nat).advance()
        }
    }

    /// The state after one tick of the inputs: each held input adds its
    /// increment, then speed and wheel angle are clamped to their limits. A
    /// vehicle that is not controlled stays as it is.
    pub open spec fn apply_controls(self, inputs: Set<Control>) -> VehicleState {
        if self.controlled {
            VehicleState {
                speed: clamp(
                    self.speed + held(inputs, Control::Accelerate, SPEED_INCREMENT as int) - held(
                        inputs,
                        Control::Brake,
                        SPEED_INCREMENT as int,
                    ),
                    MIN_SPEED as int,
                    MAX_SPEED as int,
                ),
                wheel_angle: clamp(
                    self.wheel_angle - held(inputs, Control::SteerLeft, ANGLE_INCREMENT as int)
                        + held(inputs, Control::SteerRight, ANGLE_INCREMENT as int),
                    MIN_ANGLE as int,
                    MAX_ANGLE as int,
                ),
                ..self
            }
        } else {
            self
        }
    }
}

/// A steerable vehicle.
#[derive(Debug)]
pub struct Vehicle {
    name: String,
    position: Point,
    speed: i64,
    heading: i64,
    wheel_angle: i64,
    controlled: bool,
}

impl View for Vehicle {
    type V = VehicleState;

    closed spec fn view(&self) -> VehicleState {
        VehicleState {
            name: self.name@,
            position: self.position,
            speed: self.speed as int,
            heading: self.heading as int,
            wheel_angle: self.wheel_angle as int,
            controlled: self.controlled,
        }
    }
}

/// The product of a speed within its limits, a sine or cosine and a factor
/// of at most one whole stays far within the range of the arithmetic.
proof fn lemma_product_within(speed: int, direction: int, factor: int)
    requires
        MIN_SPEED <= speed <= MAX_SPEED,
        -SCALE <= direction <= SCALE,
        0 <= factor <= SCALE,
    ensures
        -5_000_000_000_000 <= speed * direction <= 5_000_000_000_000,
        -5_000_000_000_000_000_000 <= speed * direction * factor <= 5_000_000_000_000_000_000,
{
    let product = speed * direction;
    assert(-5_000_000_000_000 <= product <= 5_000_000_000_000) by (nonlinear_arith)
        requires
            product == speed * direction,
            0 <= speed <= 5_000_000,
            -1_000_000 <= direction <= 1_000_000,
    ;
    assert(-5_000_000_000_000_000_000 <= product * factor <= 5_000_000_000_000_000_000)
        by (nonlinear_arith)
        requires
            -5_000_000_000_000 <= product <= 5_000_000_000_000,
            0 <= factor <= 1_000_000,
    ;
}

/// The states of the vehicles of a sequence, in their order.
pub open spec fn states(vehicles: Seq<Vehicle>) -> Seq<VehicleState> {
    Seq::new(vehicles.len(), |i: int| vehicles[i]@)
}

impl Vehicle {
    #[verifier::type_invariant]
    spec fn within_bounds(self) -> bool {
        self@.wf()
    }

    /// A vehicle in the given state. A speed or wheel angle beyond its limits
    /// is clamped to them; the heading is taken as it is.
    pub fn new(
        name: String,
        position: Point,
        heading: i64,
        speed: i64,
        wheel_angle: i64,
        controlled: bool,
    ) -> (vehicle: Vehicle)
        ensures
            vehicle@ == (VehicleState {
                name: name@,
                position,
                speed: clamp(speed as int, MIN_SPEED as int, MAX_SPEED as int),
                heading: heading as int,
                wheel_angle: clamp(wheel_angle as int, MIN_ANGLE as int, MAX_ANGLE as int),
                controlled,
            }),
            vehicle@.wf(),
    {
        Vehicle {
            name,
            position,
            speed: clamp_i64(speed, MIN_SPEED, MAX_SPEED),
            heading,
            wheel_angle: clamp_i64(wheel_angle, MIN_ANGLE, MAX_ANGLE),
            controlled,
        }
    }

    /// The label of the vehicle.
    pub fn name(&self) -> (name: &str)
        ensures
            name@ == self@.name,
    {
        self.name.as_str()
    }

    /// The position of the vehicle.
    pub fn position(&self) -> (position: Point)
        ensures
            position == self@.position,
    {
        self.position
    }

    /// The speed of the vehicle, within its limits.
    pub fn speed(&self) -> (speed: i64)
        ensures
            speed == self@.speed,
            MIN_SPEED <= speed <= MAX_SPEED,
    {
        proof {
            use_type_invariant(self);
        }
        self.speed
    }

    /// The heading of the vehicle. Once the vehicle has moved it is a point
    /// of the full turn.
    pub fn heading(&self) -> (heading: i64)
        ensures
            heading == self@.heading,
    {
        self.heading
    }

    /// The wheel angle of the vehicle, within its limits.
    pub fn wheel_angle(&self) -> (wheel_angle: i64)
        ensures
            wheel_angle == self@.wheel_angle,
            MIN_ANGLE <= wheel_angle <= MAX_ANGLE,
    {
        proof {
            use_type_invariant(self);
        }
        self.wheel_angle
    }

    /// Whether control input is applied to the vehicle.
    pub fn controlled(&self) -> (controlled: bool)
        ensures
            controlled == self@.controlled,
    {
        self.controlled
    }

    /// Moves the vehicle by one tick of the kinematic model.
    pub fn advance(&mut self)
        ensures
            final(self)@ == old(self)@.advance(),
            final(self)@.wf(),
            0 <= final(self)@.heading < FULL_TURN,
    {
        proof {
            use_type_invariant(&*self);
        }
        let speed: i128 = self.speed as i128;
        let s: i128 = sin(self.heading) as i128;
        let c: i128 = cos(self.heading) as i128;
        let w: i128 = sin(self.wheel_angle) as i128;
        proof {
            lemma_product_within(speed as int, s as int, MOVE_SPEED_SCALE as int);
            lemma_product_within(speed as int, c as int, MOVE_SPEED_SCALE as int);
            lemma_product_within(speed as int, w as int, ROTATION_SPEED_SCALE as int);
            assert(SCALE * SCALE == 1_000_000_000_000);
            assert(MAX_SPEED * 1_000_000_000_000 == 5_000_000_000_000_000_000);
            lemma_round_div_bound(
                speed * w * ROTATION_SPEED_SCALE,
                1_000_000_000_000,
                MAX_SPEED as int,
            );
        }
        let east: i128 = speed * s;
        let north: i128 = speed * c;
        let round: i128 = speed * w;
        let dx: i128 = div_round(east * (MOVE_SPEED_SCALE as i128), SCALE * SCALE);
        let dy: i128 = div_round(north * (MOVE_SPEED_SCALE as i128), SCALE * SCALE);
        let dh: i128 = div_round(round * (ROTATION_SPEED_SCALE as i128), SCALE * SCALE);
        self.position = Point {
            x: saturate_i128(self.position.x as i128 + dx),
            y: saturate_i128(self.position.y as i128 + dy),
        };
        self.heading = wrap_wide(self.heading as i128 + dh);
    }

    /// Moves the vehicle by `ticks` ticks of the kinematic model.
    pub fn advance_by(&mut self, ticks: u32)
        ensures
            final(self)@ == old(self)@.advance_by(ticks as nat),
            final(self)@.wf(),
    {
        proof {
            use_type_invariant(&*self);
        }
        let mut done: u32 = 0;
        while done < ticks
            invariant
                done <= ticks,
                self@ == old(self)@.advance_by(done as nat),
                self@.wf(),
            decreases ticks - done,
        {
            self.advance();
            done = done + 1;
        }
    }

    /// Applies one tick of the held inputs, if the vehicle is controlled.
    pub fn apply_controls(&mut self, inputs: &ControlSet)
        ensures
            final(self)@ == old(self)@.apply_controls(inputs@),
            final(self)@.wf(),
    {
        proof {
            use_type_invariant(&*self);
        }
        if self.controlled {
            let mut speed: i64 = self.speed;
            if inputs.accelerate {
                speed = speed + SPEED_INCREMENT;
            }
            if inputs.brake {
                speed = speed - SPEED_INCREMENT;
            }
            let mut wheel_angle: i64 = self.wheel_angle;
            if inputs.steer_left {
                wheel_angle = wheel_angle - ANGLE_INCREMENT;
            }
            if inputs.steer_right {
                wheel_angle = wheel_angle + ANGLE_INCREMENT;
            }
            self.speed = clamp_i64(speed, MIN_SPEED, MAX_SPEED);
            self.wheel_angle = clamp_i64(wheel_angle, MIN_ANGLE, MAX_ANGLE);
        }
    }
}

impl Default for Vehicle {
    /// A vehicle without a name, at rest at the origin, heading along +Y,
    /// wheels straight, not controlled.
    fn default() -> (vehicle: Vehicle)
        ensures
            vehicle@ == (VehicleState {
                name: Seq::<char>::empty(),
                position: Point { x: 0, y: 0 },
                speed: 0,
                heading: 0,
                wheel_angle: 0,
                controlled: false,
            }),
            vehicle@.wf(),
    {
        Vehicle {
            name: String::new(),
            position: Point { x: 0, y: 0 },
            speed: 0,
            heading: 0,
            wheel_angle: 0,
            controlled: false,
        }
    }
}

} // verus!
