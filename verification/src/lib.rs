//! Verified core of a single-window GPU clear-color skeleton.
//!
//! The crate models the frame/surface lifecycle that a windowed renderer
//! runs: a surface configuration whose dimensions are always positive, a
//! frame presenter that reconfigures on resize and clears each acquired
//! frame to a fixed color, and a driver state machine that turns platform
//! events and presentation outcomes into the next action. The platform
//! window and the GPU queue themselves live outside this crate; they hand
//! the driver plain events and take plain directives back.

pub mod config;
pub mod driver;
pub mod pacing;
pub mod presenter;
pub mod trace;
