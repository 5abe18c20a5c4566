//! The verified core of the TeamLens agent.
//!
//! The library decides which programs to run, which requests to send, what to
//! keep and what to show, and reads what comes back. It does no I/O of its own:
//! whoever uses it does what it says, and tells it what came of it.
pub mod activity;
pub mod agent;
pub mod base64;
pub mod buffer;
pub mod config;
pub mod delivery;
pub mod flat_json;
pub mod json;
pub mod menu;
pub mod number;
pub mod platform;
pub mod program;
pub mod request;
pub mod screenshot;
pub mod text;
pub mod tracking;
