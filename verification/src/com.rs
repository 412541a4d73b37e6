//! The messages a device's communication port takes.
use vstd::prelude::*;

verus! {

/// A request to send `payload` through a device's communication port.
#[derive(Debug, Clone)]
pub struct Send {
    pub payload: String,
}

} // verus!
