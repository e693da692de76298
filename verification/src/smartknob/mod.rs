//! A haptic rotary input on a single motor: virtual detents, endstops,
//! return-to-center, value dials.
//!
//! The host streams a torque to the motor at a fixed rate. The torque law itself
//! is floating point and lives with the loop that runs it; here is everything the
//! loop decides: which preset is active, where the knob stands among its detents,
//! when it is at an endstop or idle, what goes onto the bus, and how a motor is
//! brought up for it.

pub mod bringup;
pub mod haptic;
pub mod knob;
pub mod laws;
pub mod presets;
