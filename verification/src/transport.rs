use crate::error::TransportError;
use vstd::prelude::*;

verus! {

/// The outcome of a cooperative, non-blocking operation: either a completed
/// result, or a suspension signal meaning "not ready yet, ask again later".
#[derive(Debug)]
pub enum Poll<T> {
    Ready(T),
    Pending,
}

/// A duplex channel of discrete byte buffers, one buffer per frame.
///
/// The read half is modelled by `to_read`, the buffers (or transport errors)
/// still to be yielded, in order. The write half is modelled by
/// `pending_writes`, buffers accepted but not yet flushed out, and
/// `delivered`, buffers flushed out, plus the `is_closed` flag. The two
/// halves are disjoint: no operation on one half moves the other.
///
/// Closing does not flush: a buffer still in `pending_writes` when the
/// transport is closed is never delivered. A caller that must not drop
/// frames flushes first — the adapter does exactly that.
pub trait Transport: Sized {
    /// The buffers (or errors) the read half has yet to yield, in order.
    spec fn to_read(&self) -> Seq<Result<Seq<u8>, TransportError>>;

    /// Buffers accepted for writing but not yet flushed out, in order.
    spec fn pending_writes(&self) -> Seq<Seq<u8>>;

    /// Buffers flushed out, in delivery order.
    spec fn delivered(&self) -> Seq<Seq<u8>>;

    /// Whether the write half has been closed.
    spec fn is_closed(&self) -> bool;

    /// Pulls the next buffer: `Ready(Some(..))` yields the head of
    /// `to_read`, `Ready(None)` signals exhaustion (and stays exhausted),
    /// `Pending` suspends without consuming anything.
    fn poll_next(&mut self) -> (r: Poll<Option<Result<Vec<u8>, TransportError>>>)
        ensures
            final(self).pending_writes() == old(self).pending_writes(),
            final(self).delivered() == old(self).delivered(),
            final(self).is_closed() == old(self).is_closed(),
            (match r {
                Poll::Pending => final(self).to_read() == old(self).to_read(),
                Poll::Ready(None) => old(self).to_read().len() == 0
                    && final(self).to_read() == old(self).to_read(),
                Poll::Ready(Some(item)) => old(self).to_read().len() > 0
                    && final(self).to_read() == old(self).to_read().skip(1)
                    && (match item {
                        Ok(buf) => old(self).to_read()[0] == Ok::<Seq<u8>, TransportError>(buf@),
                        Err(e) => old(self).to_read()[0] == Err::<Seq<u8>, TransportError>(e),
                    }),
            }),
    ;

    /// Asks whether the write half can accept a buffer; changes nothing
    /// in the model either way.
    fn poll_ready(&mut self) -> (r: Poll<Result<(), TransportError>>)
        ensures
            final(self).to_read() == old(self).to_read(),
            final(self).pending_writes() == old(self).pending_writes(),
            final(self).delivered() == old(self).delivered(),
            final(self).is_closed() == old(self).is_closed(),
    ;

    /// Submits one buffer to the write half: on success it is appended to
    /// `pending_writes`; on failure nothing is accepted.
    fn start_send(&mut self, buf: Vec<u8>) -> (r: Result<(), TransportError>)
        ensures
            final(self).to_read() == old(self).to_read(),
            final(self).delivered() == old(self).delivered(),
            final(self).is_closed() == old(self).is_closed(),
            (match r {
                Ok(()) => final(self).pending_writes()
                    == old(self).pending_writes().push(buf@),
                Err(_) => final(self).pending_writes() == old(self).pending_writes(),
            }),
    ;

    /// Drives pending buffers out. `Ready(Ok(()))` means everything pending
    /// on entry has been delivered, in order; a suspension or an error may
    /// leave part of the work done, but never reorders, drops or invents
    /// a buffer.
    fn poll_flush(&mut self) -> (r: Poll<Result<(), TransportError>>)
        ensures
            final(self).to_read() == old(self).to_read(),
            final(self).is_closed() == old(self).is_closed(),
            final(self).delivered() + final(self).pending_writes()
                == old(self).delivered() + old(self).pending_writes(),
            old(self).delivered().is_prefix_of(final(self).delivered()),
            (match r {
                Poll::Ready(Ok(())) => final(self).pending_writes().len() == 0,
                _ => true,
            }),
    ;

    /// Closes the write half. Closing never delivers: whatever still sits in
    /// `pending_writes` stays undelivered.
    fn poll_close(&mut self) -> (r: Poll<Result<(), TransportError>>)
        ensures
            final(self).to_read() == old(self).to_read(),
            final(self).pending_writes() == old(self).pending_writes(),
            final(self).delivered() == old(self).delivered(),
            (match r {
                Poll::Ready(Ok(())) => final(self).is_closed(),
                _ => final(self).is_closed() == old(self).is_closed(),
            }),
    ;
}

/// The byte-buffer view of a sequence of owned buffers.
pub open spec fn frames_view(frames: Seq<Vec<u8>>) -> Seq<Seq<u8>> {
    frames.map(|i: int, b: Vec<u8>| b@)
}

/// The read-event view of a sequence of buffers that all arrive intact.
pub open spec fn ok_events_view(frames: Seq<Vec<u8>>) -> Seq<Result<Seq<u8>, TransportError>> {
    frames.map(|i: int, b: Vec<u8>| Ok(b@))
}

/// The read-event view of a sequence of owned read events.
pub open spec fn events_view(
    events: Seq<Result<Vec<u8>, TransportError>>,
) -> Seq<Result<Seq<u8>, TransportError>> {
    events.map(|i: int, e: Result<Vec<u8>, TransportError>| match e {
        Ok(b) => Ok(b@),
        Err(t) => Err(t),
    })
}

/// An in-memory transport: a queue of read events in, a queue of written
/// buffers out. It serves the tests and any single-process use, and shows
/// that the `Transport` contract is satisfiable.
pub struct QueueTransport {
    /// Read events still to be yielded, front first.
    pub incoming: Vec<Result<Vec<u8>, TransportError>>,
    /// How many times `poll_next` still answers `Pending` before yielding.
    pub stall_reads: u64,
    /// Buffers accepted but not yet flushed.
    pub staged: Vec<Vec<u8>>,
    /// Buffers flushed out.
    pub flushed: Vec<Vec<u8>>,
    /// Whether the write half is closed.
    pub write_closed: bool,
}

impl QueueTransport {
    /// A transport whose read half yields exactly `frames`, in order,
    /// then exhausts, and whose write half is open and empty.
    pub fn new(frames: Vec<Vec<u8>>) -> (t: QueueTransport)
        ensures
            t.to_read() == ok_events_view(frames@),
            t.pending_writes() == Seq::<Seq<u8>>::empty(),
            t.delivered() == Seq::<Seq<u8>>::empty(),
            !t.is_closed(),
            t.stall_reads == 0,
    {
        let mut incoming: Vec<Result<Vec<u8>, TransportError>> = Vec::new();
        let mut frames = frames;
        let ghost all = frames@;
        while frames.len() > 0
            invariant
                incoming@.len() + frames@.len() == all.len(),
                frames@ == all.skip(incoming@.len() as int),
                events_view(incoming@) == ok_events_view(all.take(incoming@.len() as int)),
            decreases frames@.len(),
        {
            let ghost pre = incoming@;
            let ghost k = pre.len() as int;
            let b = frames.remove(0);
            incoming.push(Ok(b));
            proof {
                assert(all.skip(k)[0] == all[k]);
                assert(b == all[k]);
                assert forall|j: int| 0 <= j < k + 1 implies events_view(incoming@)[j]
                    == ok_events_view(all.take(k + 1))[j] by {
                    assert(all.take(k + 1)[j] == all[j]);
                    if j < k {
                        assert(incoming@[j] == pre[j]);
                        assert(events_view(pre)[j] == ok_events_view(all.take(k))[j]);
                        assert(all.take(k)[j] == all[j]);
                    } else {
                        assert(incoming@[j] == Ok::<Vec<u8>, TransportError>(b));
                    }
                }
                assert(events_view(incoming@) =~= ok_events_view(all.take(k + 1)));
                assert(frames@ =~= all.skip(k + 1));
            }
        }
        proof {
            assert(all.take(all.len() as int) =~= all);
        }
        QueueTransport {
            incoming,
            stall_reads: 0,
            staged: Vec::new(),
            flushed: Vec::new(),
            write_closed: false,
        }
    }

    /// A transport whose read half yields exactly `events`, in order.
    pub fn with_events(events: Vec<Result<Vec<u8>, TransportError>>) -> (t: QueueTransport)
        ensures
            t.to_read() == events_view(events@),
            t.pending_writes() == Seq::<Seq<u8>>::empty(),
            t.delivered() == Seq::<Seq<u8>>::empty(),
            !t.is_closed(),
            t.stall_reads == 0,
    {
        QueueTransport {
            incoming: events,
            stall_reads: 0,
            staged: Vec::new(),
            flushed: Vec::new(),
            write_closed: false,
        }
    }

    /// Makes the next `n` calls of `poll_next` answer `Pending`.
    pub fn set_stall(&mut self, n: u64)
        ensures
            final(self).to_read() == old(self).to_read(),
            final(self).pending_writes() == old(self).pending_writes(),
            final(self).delivered() == old(self).delivered(),
            final(self).is_closed() == old(self).is_closed(),
            final(self).stall_reads == n,
    {
        self.stall_reads = n;
    }
}

impl Transport for QueueTransport {
    open spec fn to_read(&self) -> Seq<Result<Seq<u8>, TransportError>> {
        events_view(self.incoming@)
    }

    open spec fn pending_writes(&self) -> Seq<Seq<u8>> {
        frames_view(self.staged@)
    }

    open spec fn delivered(&self) -> Seq<Seq<u8>> {
        frames_view(self.flushed@)
    }

    open spec fn is_closed(&self) -> bool {
        self.write_closed
    }

    fn poll_next(&mut self) -> (r: Poll<Option<Result<Vec<u8>, TransportError>>>) {
        if self.stall_reads > 0 {
            self.stall_reads = self.stall_reads - 1;
            Poll::Pending
        } else if self.incoming.len() > 0 {
            let ev = self.incoming.remove(0);
            proof {
                assert(events_view(final(self).incoming@)
                    =~= events_view(old(self).incoming@).skip(1));
            }
            Poll::Ready(Some(ev))
        } else {
            Poll::Ready(None)
        }
    }

    fn poll_ready(&mut self) -> (r: Poll<Result<(), TransportError>>) {
        Poll::Ready(Ok(()))
    }

    fn start_send(&mut self, buf: Vec<u8>) -> (r: Result<(), TransportError>) {
        if self.write_closed {
            Err(TransportError::Closed)
        } else {
            self.staged.push(buf);
            proof {
                assert(frames_view(final(self).staged@)
                    =~= frames_view(old(self).staged@).push(buf@));
            }
            Ok(())
        }
    }

    fn poll_flush(&mut self) -> (r: Poll<Result<(), TransportError>>) {
        let ghost staged0 = self.staged@;
        let ghost flushed0 = self.flushed@;
        self.flushed.append(&mut self.staged);
        proof {
            assert(frames_view(flushed0 + staged0)
                =~= frames_view(flushed0) + frames_view(staged0));
            assert(frames_view(self.staged@) =~= Seq::<Seq<u8>>::empty());
            assert(frames_view(flushed0)
                .is_prefix_of(frames_view(flushed0) + frames_view(staged0)));
        }
        Poll::Ready(Ok(()))
    }

    fn poll_close(&mut self) -> (r: Poll<Result<(), TransportError>>) {
        self.write_closed = true;
        Poll::Ready(Ok(()))
    }
}

} // verus!
