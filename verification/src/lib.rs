//! A Wayland desktop backend: screen capture, window listing and input
//! delivery for compositors that offer no programmatic window activation.
//!
//! The crate holds the decisions. Whoever embeds it talks to the compositor,
//! the portal, the accessibility bus and the helper tools, hands the outcomes
//! in as plain values, and does what comes back.

pub mod backend;
pub mod capture;
pub mod error;
pub mod json;
pub mod keys;
pub mod laws;
pub mod niri;
pub mod raster;
pub mod text;
pub mod tools;
pub mod types;
pub mod windows;
