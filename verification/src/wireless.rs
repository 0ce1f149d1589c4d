//! Wireless networks: Wifi and Thread.

use vstd::prelude::*;

pub mod comm;
pub mod diag;
pub mod mgmt;
pub mod proxy;
pub mod store;
pub mod svc;
pub mod traits;

verus! {

/// The number of wireless networks that a device keeps.
pub const MAX_WIRELESS_NETWORKS: usize = 2;

} // verus!
