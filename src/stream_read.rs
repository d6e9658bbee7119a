use vstd::prelude::*;

use crate::outcome::{IoFailure, StreamPoll};

verus! {

/// The bytes of `items`, concatenated in order.
pub open spec fn concat(items: Seq<Seq<u8>>) -> Seq<u8>
    decreases items.len(),
{
    if items.len() == 0 {
        Seq::empty()
    } else {
        concat(items.drop_last()) + items.last()
    }
}

/// Concatenating one more item appends its bytes.
pub proof fn lemma_concat_push(items: Seq<Seq<u8>>, v: Seq<u8>)
    ensures
        concat(items.push(v)) == concat(items) + v,
{
    assert(items.push(v).drop_last() =~= items);
}

/// The state of a `StreamRead`, apart from the producer it wraps.
pub struct ReadModel {
    /// Whether the producer has reported that it is exhausted.
    pub done: bool,
    /// Bytes pulled from the producer and not yet handed to the caller.
    pub buf: Seq<u8>,
    /// The payloads of the items pulled from the producer, in order.
    pub items: Seq<Seq<u8>>,
    /// The bytes handed to the caller, in order.
    pub delivered: Seq<u8>,
}

/// The failure a byte-oriented call reports for a poll outcome, if any.
pub open spec fn poll_failure<E>(polled: Option<StreamPoll<E>>) -> Option<IoFailure<E>> {
    match polled {
        Some(StreamPoll::NotReady) => Some(IoFailure::WouldBlock),
        Some(StreamPoll::Failed(e)) => Some(IoFailure::Transport(e)),
        _ => None,
    }
}

impl ReadModel {
    /// What every reachable state satisfies: what was handed out, followed by
    /// what is buffered, is all that was pulled, and nothing is buffered once
    /// the producer is exhausted.
    pub open spec fn wf(self) -> bool {
        &&& self.delivered + self.buf == concat(self.items)
        &&& self.done ==> self.buf.len() == 0
    }

    /// Whether the next fill must poll the producer.
    pub open spec fn needs_poll(self) -> bool {
        !self.done && self.buf.len() == 0
    }

    /// The state after a fill that got `polled` (`None`: no poll was made).
    pub open spec fn filled<E>(self, polled: Option<StreamPoll<E>>) -> ReadModel {
        match polled {
            Some(StreamPoll::Item(v)) => ReadModel {
                buf: self.buf + v@,
                items: self.items.push(v@),
                ..self
            },
            Some(StreamPoll::Exhausted) => ReadModel { done: true, ..self },
            _ => self,
        }
    }

    /// The state after the caller took the first `n` buffered bytes.
    pub open spec fn consumed(self, n: nat) -> ReadModel {
        ReadModel {
            buf: self.buf.skip(n as int),
            delivered: self.delivered + self.buf.take(n as int),
            ..self
        }
    }

    /// How many bytes a read into a destination of `len` bytes copies out of
    /// the filled state.
    pub open spec fn read_count(self, len: nat) -> nat {
        if len < self.buf.len() {
            len
        } else {
            self.buf.len()
        }
    }
}

/// A byte reader over a producer of byte-buffer items.
///
/// Bytes pulled from the producer that the caller has not taken yet stay in
/// an internal buffer, which is refilled only once it is empty. Once the
/// producer reports that it is exhausted, it is never polled again.
pub struct StreamRead<S> {
    stream: S,
    done: bool,
    buf: Vec<u8>,
    items: Ghost<Seq<Seq<u8>>>,
    delivered: Ghost<Seq<u8>>,
}

impl<S> View for StreamRead<S> {
    type V = ReadModel;

    closed spec fn view(&self) -> ReadModel {
        ReadModel { done: self.done, buf: self.buf@, items: self.items@, delivered: self.delivered@ }
    }
}

impl<S> StreamRead<S> {
    /// The wrapped producer.
    pub closed spec fn inner(&self) -> S {
        self.stream
    }

    /// Creates a reader over `stream`, with nothing buffered.
    pub fn new(stream: S) -> (r: Self)
        ensures
            r.inner() == stream,
            r@ == (ReadModel {
                done: false,
                buf: Seq::empty(),
                items: Seq::empty(),
                delivered: Seq::empty(),
            }),
            r@.wf(),
    {
        let r = StreamRead {
            stream,
            done: false,
            buf: Vec::new(),
            items: Ghost(Seq::empty()),
            delivered: Ghost(Seq::empty()),
        };
        assert(r@.delivered + r@.buf =~= concat(r@.items));
        r
    }

    /// Unwraps the producer, as it stands after every poll made through this
    /// reader; buffered bytes are discarded.
    pub fn into_inner(self) -> (r: S)
        ensures
            r == self.inner(),
    {
        self.stream
    }

    /// The producer, for the caller to poll it when `needs_poll` says so.
    pub fn get_mut(&mut self) -> (r: &mut S)
        ensures
            *r == old(self).inner(),
            final(self).inner() == *final(r),
            final(self)@ == old(self)@,
    {
        &mut self.stream
    }

    /// Whether the next fill must poll the producer: nothing is buffered and
    /// the producer has not reported that it is exhausted.
    pub fn needs_poll(&self) -> (r: bool)
        ensures
            r == self@.needs_poll(),
    {
        !self.done && self.buf.len() == 0
    }

    /// The buffered bytes, not yet taken by the caller.
    pub fn buffer(&self) -> (r: &[u8])
        ensures
            r@ == self@.buf,
    {
        self.buf.as_slice()
    }

    /// Takes in the outcome of the poll that `needs_poll` asked for, if any.
    ///
    /// An item's bytes are buffered; exhaustion is latched. A producer that
    /// is not ready gives `WouldBlock` and a failing one its error, and
    /// neither changes the state.
    pub fn fill<E>(&mut self, polled: Option<StreamPoll<E>>) -> (r: Result<(), IoFailure<E>>)
        requires
            old(self)@.wf(),
            polled is Some <==> old(self)@.needs_poll(),
        ensures
            final(self)@.wf(),
            final(self).inner() == old(self).inner(),
            final(self)@ == old(self)@.filled(polled),
            match poll_failure(polled) {
                Some(f) => r == Err::<(), IoFailure<E>>(f),
                None => r is Ok,
            },
    {
        match polled {
            Some(StreamPoll::Item(v)) => {
                proof {
                    lemma_concat_push(self.items@, v@);
                }
                self.items = Ghost(self.items@.push(v@));
                self.buf.extend_from_slice(v.as_slice());
                assert(self.buf@ =~= old(self)@.buf + v@);
                Ok(())
            },
            Some(StreamPoll::Exhausted) => {
                self.done = true;
                Ok(())
            },
            Some(StreamPoll::NotReady) => Err(IoFailure::WouldBlock),
            Some(StreamPoll::Failed(e)) => Err(IoFailure::Transport(e)),
            None => Ok(()),
        }
    }

    /// Fills the buffer from `polled` as `fill` does and returns what is
    /// buffered; it is empty only once the producer is exhausted, or after
    /// an empty item.
    pub fn fill_buf<E>(&mut self, polled: Option<StreamPoll<E>>) -> (r: Result<
        &[u8],
        IoFailure<E>,
    >)
        requires
            old(self)@.wf(),
            polled is Some <==> old(self)@.needs_poll(),
        ensures
            final(self)@.wf(),
            final(self).inner() == old(self).inner(),
            final(self)@ == old(self)@.filled(polled),
            match poll_failure(polled) {
                Some(f) => r == Err::<&[u8], IoFailure<E>>(f),
                None => r matches Ok(s) && s@ == final(self)@.buf,
            },
    {
        match self.fill(polled) {
            Ok(()) => Ok(self.buf.as_slice()),
            Err(f) => Err(f),
        }
    }

    /// Hands the first `amt` buffered bytes to the caller.
    pub fn consume(&mut self, amt: usize)
        requires
            old(self)@.wf(),
            amt <= old(self)@.buf.len(),
        ensures
            final(self)@.wf(),
            final(self).inner() == old(self).inner(),
            final(self)@ == old(self)@.consumed(amt as nat),
    {
        self.delivered = Ghost(self.delivered@ + self.buf@.take(amt as int));
        let rest = self.buf.split_off(amt);
        self.buf = rest;
        assert(old(self)@.buf =~= old(self)@.buf.take(amt as int) + old(self)@.buf.skip(
            amt as int,
        ));
        assert(self.delivered@ + self.buf@ =~= old(self)@.delivered + old(self)@.buf);
    }

    /// Reads into `dest`: fills from `polled` as `fill` does, then copies as
    /// many buffered bytes as fit to the front of `dest` and takes them.
    ///
    /// `Ok(0)` with a non-empty `dest` means the producer is exhausted.
    pub fn read<E>(&mut self, polled: Option<StreamPoll<E>>, dest: &mut [u8]) -> (r: Result<
        usize,
        IoFailure<E>,
    >)
        requires
            old(self)@.wf(),
            polled is Some <==> old(self)@.needs_poll(),
        ensures
            final(self)@.wf(),
            final(self).inner() == old(self).inner(),
            match poll_failure(polled) {
                Some(f) => {
                    &&& r == Err::<usize, IoFailure<E>>(f)
                    &&& final(self)@ == old(self)@
                    &&& final(dest)@ == old(dest)@
                },
                None => {
                    let m = old(self)@.filled(polled);
                    let n = m.read_count(old(dest)@.len());
                    &&& r == Ok::<usize, IoFailure<E>>(n as usize)
                    &&& final(self)@ == m.consumed(n)
                    &&& final(dest)@ == m.buf.take(n as int) + old(dest)@.skip(n as int)
                },
            },
    {
        match self.fill(polled) {
            Ok(()) => {},
            Err(f) => {
                return Err(f);
            },
        }
        let n: usize = if dest.len() < self.buf.len() {
            dest.len()
        } else {
            self.buf.len()
        };
        let mut i: usize = 0;
        while i < n
            invariant
                n <= dest.len(),
                n <= self.buf.len(),
                i <= n,
                dest@.len() == old(dest)@.len(),
                forall|j: int| 0 <= j < i ==> dest@[j] == self.buf@[j],
                forall|j: int| n <= j < dest@.len() ==> dest@[j] == old(dest)@[j],
            decreases n - i,
        {
            dest[i] = self.buf[i];
            i = i + 1;
        }
        assert(dest@ =~= self.buf@.take(n as int) + old(dest)@.skip(n as int));
        self.consume(n);
        Ok(n)
    }
}

/// However the reads are sized, each read extends the bytes handed out by
/// exactly the front of what is buffered, and the bytes handed out followed by
/// those still buffered stay the items' payloads concatenated in production
/// order; once the producer is exhausted, the bytes handed out are exactly
/// that concatenation.
pub proof fn lemma_order_preserved<E>(m: ReadModel, polled: Option<StreamPoll<E>>, n: nat)
    requires
        m.wf(),
        polled is Some <==> m.needs_poll(),
        n <= m.filled(polled).buf.len(),
    ensures
        ({
            let f = m.filled(polled);
            let m2 = f.consumed(n);
            &&& m2.wf()
            &&& m2.delivered == m.delivered + f.buf.take(n as int)
            &&& m2.delivered + m2.buf == concat(m2.items)
            &&& m2.done ==> m2.delivered == concat(m2.items)
        }),
{
    let f = m.filled(polled);
    if let Some(StreamPoll::Item(v)) = polled {
        lemma_concat_push(m.items, v@);
    }
    assert(f.delivered + f.buf =~= concat(f.items));
    assert(f.buf =~= f.buf.take(n as int) + f.buf.skip(n as int));
    assert(f.consumed(n).delivered + f.consumed(n).buf =~= f.delivered + f.buf);
}

/// Once the producer has reported that it is exhausted, no read asks for a
/// poll again, and a read copies no byte and leaves the state as it was, so
/// any number of further reads each give zero bytes.
pub proof fn lemma_fuse_latched<E>(m: ReadModel, len: nat)
    requires
        m.wf(),
        m.done,
    ensures
        !m.needs_poll(),
        m.filled(None::<StreamPoll<E>>) == m,
        m.read_count(len) == 0,
        m.consumed(0) == m,
{
    assert(m.buf.skip(0) =~= m.buf);
    assert(m.delivered + m.buf.take(0) =~= m.delivered);
}

} // verus!
