//! The handler slot of a bare network card.
use vstd::prelude::*;

verus! {

/// Handles what a bare network card receives; it holds nothing.
#[derive(Debug, Clone, Copy)]
pub struct NicHandler {}

} // verus!
