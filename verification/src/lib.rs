//! Kinematics of steerable vehicles on a plane, in fixed-point arithmetic.
//!
//! A vehicle has a position, a heading, a speed and a wheel angle. Every
//! tick it moves along its heading by its speed and turns by its speed times
//! the sine of its wheel angle; held inputs change its speed and its wheel
//! angle within their limits. From the state of a vehicle follow the four
//! corners and edges of its body, for a search for collisions, and the poses
//! of its body and of its direction indicator, for a renderer.
//!
//! All quantities are integers that count millionths: of a unit of length,
//! of a degree, of a factor. Headings are measured clockwise from the +Y
//! axis. Sine and cosine come from a table, so every result is an exact
//! function of its inputs, the same on every machine.
//!
//! The library neither draws nor reads a clock or a keyboard. A host hands
//! it the time that has passed and the inputs that are held, and takes back
//! what to draw.

pub mod cadence;
pub mod collision;
pub mod config;
pub mod controls;
pub mod fixed;
pub mod geometry;
pub mod laws;
pub mod projection;
pub mod simulation;
pub mod trig;
pub mod vehicle;
