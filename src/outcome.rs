use vstd::prelude::*;

verus! {

/// What one poll of a message producer gave.
pub enum StreamPoll<E> {
    /// The next item, whose payload is these bytes.
    Item(Vec<u8>),
    /// The producer has no more items.
    Exhausted,
    /// No item is ready yet.
    NotReady,
    /// The producer failed.
    Failed(E),
}

/// What offering one item to a message consumer gave.
pub enum SendPoll<E> {
    /// The consumer took the item.
    Accepted,
    /// The consumer cannot take an item now; it kept nothing.
    NotReady,
    /// The consumer failed.
    Failed(E),
}

/// What one attempt to complete a consumer's outstanding work gave.
pub enum CompletePoll<E> {
    /// All outstanding work is done.
    Done,
    /// Work is still outstanding.
    Pending,
    /// The consumer failed.
    Failed(E),
}

/// Whether a non-blocking operation finished.
#[derive(Debug, PartialEq, Eq, Clone, Copy)]
pub enum Readiness {
    Ready,
    NotReady,
}

/// Why a byte-oriented operation did not complete.
#[derive(Debug, PartialEq, Eq)]
pub enum IoFailure<E> {
    /// The transport is not ready: nothing was taken or lost, retry later.
    WouldBlock,
    /// The transport failed with this error.
    Transport(E),
}

} // verus!
