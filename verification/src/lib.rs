//! A simulated network: hosts with Ethernet and IPv4 interface cards, switches
//! and a core that wires endpoints together. The decisions each part takes are
//! stated and proved here; the actors that carry them out run around them.
use vstd::prelude::*;

pub mod actor;
pub mod arp;
pub mod com;
pub mod core_actor;
pub mod endpoint;
pub mod format;
pub mod l2;
pub mod l3;
pub mod nic;
pub mod router;
pub mod util;

verus! {

/// Sum of two counters; the caller keeps the sum within `u64`.
pub fn add(left: u64, right: u64) -> (sum: u64)
    requires
        left + right <= u64::MAX,
    ensures
        sum == left + right,
{
    left + right
}

} // verus!
