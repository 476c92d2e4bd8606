//! Keyboard-to-gamepad overlay: configuration parsing, the overlay of
//! synthetic input onto a controller state, and the decisions that drive the
//! interception of the controller-state query.
pub mod keys;
pub mod gamepad;
pub mod overlay;
pub mod config;
pub mod resolver;
pub mod hook;
pub mod processes;
