//! Window lifecycle and tray presence for a desktop application.
//!
//! The crate holds the decisions of the application shell and none of its
//! side effects. Every handler maps the current state and one input event to
//! the next state and to the list of [`visibility::Action`]s that the host
//! has to carry out, in order, on the real window, the tray menu and the
//! process.

pub mod display;
pub mod events;
pub mod focus;
pub mod platform;
pub mod setup;
pub mod tray;
pub mod visibility;
