//! Client-side protocol logic for Stardust XR panel items: the wire
//! identifiers of the panel item protocol, the dispatch of received signals
//! to events, and the encoding of the signals that nodes send.
use vstd::prelude::*;

pub mod error;
pub mod types;
pub mod wire;
pub mod ids;
pub mod message;
pub mod aspect;
pub mod item;
pub mod provider;
pub mod acceptor;
pub mod owned;
pub mod node;
pub mod keymap;
pub mod dbus;

verus! {

/// Adds two numbers; the sum must fit in a `u64`.
pub fn add(left: u64, right: u64) -> (sum: u64)
    requires
        left + right <= u64::MAX,
    ensures
        sum == left + right,
{
    left + right
}

} // verus!
