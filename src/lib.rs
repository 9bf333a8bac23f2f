//! Turns gamepad input events into the key transitions of an immediate-mode
//! GUI's input layer.
pub mod analogue;
pub mod handler;
pub mod keys;
pub mod sink;

pub use handler::GamepadHandler;
