//! Messages of the home-grown actor framework: each message names the type of
//! the answer its handler returns.
use vstd::prelude::*;

verus! {

/// A message an actor can handle; `Return` is what handling it answers.
pub trait Message {
    type Return: std::marker::Send + std::fmt::Debug;
}

} // verus!
