use vstd::prelude::*;

use crate::outcome::{CompletePoll, IoFailure, Readiness, SendPoll};

verus! {

/// A byte writer over a consumer of byte-buffer items.
///
/// Each successful `write` hands the whole buffer to the consumer as one
/// item; the adapter itself never holds unsent bytes.
pub struct SinkWrite<S> {
    sink: S,
    /// The payloads of the items the consumer took through this adapter, in order.
    accepted: Ghost<Seq<Seq<u8>>>,
}

/// The items taken after offering `buf` as one item and getting `offer` back.
pub open spec fn accept_step<E>(accepted: Seq<Seq<u8>>, buf: Seq<u8>, offer: SendPoll<E>) -> Seq<
    Seq<u8>,
> {
    match offer {
        SendPoll::Accepted => accepted.push(buf),
        _ => accepted,
    }
}

/// What `write` returns for a buffer of `len` bytes when the offer gave `offer`.
pub open spec fn write_result<E>(len: usize, offer: SendPoll<E>) -> Result<usize, IoFailure<E>> {
    match offer {
        SendPoll::Accepted => Ok(len),
        SendPoll::NotReady => Err(IoFailure::WouldBlock),
        SendPoll::Failed(e) => Err(IoFailure::Transport(e)),
    }
}

/// What `flush` returns when the completion step gave `done`.
pub open spec fn flush_result<E>(done: CompletePoll<E>) -> Result<(), IoFailure<E>> {
    match done {
        CompletePoll::Done => Ok(()),
        CompletePoll::Pending => Err(IoFailure::WouldBlock),
        CompletePoll::Failed(e) => Err(IoFailure::Transport(e)),
    }
}

/// What `shutdown` returns when the completion step gave `done`.
pub open spec fn shutdown_result<E>(done: CompletePoll<E>) -> Result<Readiness, E> {
    match done {
        CompletePoll::Done => Ok(Readiness::Ready),
        CompletePoll::Pending => Ok(Readiness::NotReady),
        CompletePoll::Failed(e) => Err(e),
    }
}

impl<S> SinkWrite<S> {
    /// The wrapped consumer.
    pub closed spec fn inner(&self) -> S {
        self.sink
    }

    /// The payloads of the items the consumer took through this adapter.
    pub closed spec fn accepted(&self) -> Seq<Seq<u8>> {
        self.accepted@
    }

    /// Creates a writer over `sink`.
    pub fn new(sink: S) -> (r: Self)
        ensures
            r.inner() == sink,
            r.accepted() == Seq::<Seq<u8>>::empty(),
    {
        SinkWrite { sink, accepted: Ghost(Seq::empty()) }
    }

    /// Unwraps the consumer, as it stands after every item it took.
    pub fn into_inner(self) -> (r: S)
        ensures
            r == self.inner(),
    {
        self.sink
    }

    /// The consumer, for the caller to offer it an item or complete its work.
    pub fn get_mut(&mut self) -> (r: &mut S)
        ensures
            *r == old(self).inner(),
            final(self).inner() == *final(r),
            final(self).accepted() == old(self).accepted(),
    {
        &mut self.sink
    }

    /// Finishes a write of `buf`, whose bytes the caller offered to the
    /// consumer as exactly one item, getting `offer` back.
    ///
    /// The whole length is reported when the item was taken; otherwise the
    /// write fails and no byte of `buf` counts as written.
    pub fn write<E>(&mut self, buf: &[u8], offer: SendPoll<E>) -> (r: Result<usize, IoFailure<E>>)
        ensures
            r == write_result(buf@.len() as usize, offer),
            final(self).inner() == old(self).inner(),
            final(self).accepted() == accept_step(old(self).accepted(), buf@, offer),
    {
        match offer {
            SendPoll::Accepted => {
                self.accepted = Ghost(self.accepted@.push(buf@));
                Ok(buf.len())
            },
            SendPoll::NotReady => Err(IoFailure::WouldBlock),
            SendPoll::Failed(e) => Err(IoFailure::Transport(e)),
        }
    }

    /// Finishes a flush whose completion step gave `done`: a pending
    /// completion is reported as `WouldBlock`.
    pub fn flush<E>(&self, done: CompletePoll<E>) -> (r: Result<(), IoFailure<E>>)
        ensures
            r == flush_result(done),
    {
        match done {
            CompletePoll::Done => Ok(()),
            CompletePoll::Pending => Err(IoFailure::WouldBlock),
            CompletePoll::Failed(e) => Err(IoFailure::Transport(e)),
        }
    }

    /// Finishes a shutdown whose completion step gave `done`: a pending
    /// completion is reported as not ready.
    pub fn shutdown<E>(&self, done: CompletePoll<E>) -> (r: Result<Readiness, E>)
        ensures
            r == shutdown_result(done),
    {
        match done {
            CompletePoll::Done => Ok(Readiness::Ready),
            CompletePoll::Pending => Ok(Readiness::NotReady),
            CompletePoll::Failed(e) => Err(e),
        }
    }
}

/// A write that got `WouldBlock` took nothing, so writing the same buffer
/// again with success leaves exactly one more item, holding exactly its bytes.
pub proof fn lemma_retry_after_would_block<E>(accepted: Seq<Seq<u8>>, buf: Seq<u8>)
    requires
        buf.len() <= usize::MAX,
    ensures
        write_result(buf.len() as usize, SendPoll::<E>::NotReady) == Err::<usize, IoFailure<E>>(
            IoFailure::WouldBlock,
        ),
        accept_step(accept_step(accepted, buf, SendPoll::<E>::NotReady), buf, SendPoll::<E>::Accepted)
            == accepted.push(buf),
        write_result(buf.len() as usize, SendPoll::<E>::Accepted) == Ok::<usize, IoFailure<E>>(
            buf.len() as usize,
        ),
{
}

/// A write either reports the whole length of the buffer, which then is one
/// more item, or fails having taken nothing: there is no partial count.
pub proof fn lemma_write_all_or_nothing<E>(
    accepted: Seq<Seq<u8>>,
    buf: Seq<u8>,
    offer: SendPoll<E>,
)
    requires
        buf.len() <= usize::MAX,
    ensures
        match write_result(buf.len() as usize, offer) {
            Ok(n) => n == buf.len() && accept_step(accepted, buf, offer) == accepted.push(buf),
            Err(_) => accept_step(accepted, buf, offer) == accepted,
        },
{
}

} // verus!
