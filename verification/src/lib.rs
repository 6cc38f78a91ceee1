//! Remaps the input events of a handheld gamepad to keyboard events.
//!
//! Button events are looked up in a fixed table. D-pad axis events are read
//! under one of two signaling conventions, inferred from the values seen so
//! far, and become presses and releases of the arrow keys.

pub mod button_map;
pub mod event;
pub mod mode;
pub mod remap;
pub mod stream;
