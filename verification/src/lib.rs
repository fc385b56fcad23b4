//! Verified core of a timelapse capture engine.

pub mod error;
pub mod screenshot;
pub mod settings;
pub mod timelapse;
