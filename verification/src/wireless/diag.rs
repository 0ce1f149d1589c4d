//! Diagnostics of the wireless interfaces.

pub mod thread;
pub mod wifi;
