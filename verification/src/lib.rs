//! Reactive core of a battery-powered wearable: interrupt coalescing,
//! event translation, tile (screen) state machine, framebuffer compositor
//! with partial commits and slide transitions, and the power controller.
//!
//! Everything that touches hardware is expressed as data: the verified
//! functions compute the next state together with the list of actions
//! that a thin driver layer must perform on the device.

pub mod bridge;
pub mod display;
pub mod errors;
pub mod events;
pub mod gesture;
pub mod pmu;
pub mod tiles;
pub mod twatch;
