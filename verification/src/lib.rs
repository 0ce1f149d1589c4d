//! The decisions of a Matter stack: which networks a device knows and connects to, how it is
//! commissioned, on which interface it runs, and what it keeps in its storage.
//!
//! Everything here is a function from state and events to new state and actions; the actions are
//! carried out by the program around the library.

pub mod bytes;
pub mod digits;
pub mod error;
pub mod eth;
pub mod flow;
pub mod laws;
pub mod mdns;
pub mod netif;
pub mod oper;
pub mod persist;
pub mod private;
pub mod stack;
pub mod text;
pub mod udp;
pub mod wifi;
pub mod wireless;
