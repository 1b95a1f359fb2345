//! What a subscriber of a broadcast channel is handed.

use vstd::prelude::*;

verus! {

/// What a subscriber receives from a channel: the next message, or the notice
/// that it fell behind and that some messages were dropped.
#[derive(Copy, Clone, PartialEq, Eq, Debug)]
pub enum Delivery<T> {
    /// The subscriber fell behind; this many messages were dropped.
    Lagged(u64),
    /// The next message.
    Message(T),
}

} // verus!
