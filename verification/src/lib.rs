//! Control core for a small network-triggered actuation node: an RGB light on
//! three PWM channels, a hobby servo on a fourth, and a four-coil stepper
//! motor on four digital output lines.
//!
//! The core is pure state and arithmetic. Each physical actuator is modelled
//! by a value that records exactly what has been driven onto the hardware: a
//! [`actuator::PwmChannel`] holds the duty most recently applied to its timer
//! channel, and a [`stepper::Stepper`] holds the levels of its four output
//! lines. The embedding program owns the real peripherals, keeps one of these
//! models per actuator behind its own exclusive lock, and mirrors every model
//! update to the hardware; locking one actuator never blocks the others, and
//! a stepper motion run holds its lock from the first phase write to the
//! final stop.

pub mod actuator;
pub mod decode;
pub mod duty;
pub mod stepper;
