use crate::codec::Deserializer;
use crate::codec::Serializer;
use crate::error::FramedError;
use crate::transport::Poll;
use crate::transport::Transport;
use core::marker::PhantomData;
use vstd::prelude::*;

verus! {

/// Adapts a buffer-level transport to a value-level transport by driving
/// every frame through a codec.
///
/// The adapter buffers nothing of its own: each pulled buffer is decoded at
/// once, each submitted value is encoded at once, and every flow-control
/// signal of the transport — suspension, exhaustion, errors — is passed
/// through unchanged. Each buffer must hold exactly one encoded value;
/// the adapter hands a buffer to the codec as it stands and never splits
/// or joins frames.
pub struct Framed<Tr, Item, SinkItem, Codec> {
    /// The underlying buffer transport.
    pub inner: Tr,
    /// The codec that turns values into buffers and back.
    pub codec: Codec,
    /// Carries the value types, which only the impls mention.
    pub item: PhantomData<(Item, SinkItem)>,
}

/// An adapter that reads and writes values of one and the same type.
pub type SymmetricallyFramed<Tr, Value, Codec> = Framed<Tr, Value, Value, Codec>;

impl<Tr, Item, SinkItem, Codec> Framed<Tr, Item, SinkItem, Codec> {
    /// Creates a new `Framed` with the given transport and codec.
    pub fn new(inner: Tr, codec: Codec) -> (r: Self)
        ensures
            r.inner == inner,
            r.codec == codec,
    {
        Self { inner, codec, item: PhantomData }
    }

    /// Returns a reference to the underlying transport.
    ///
    /// Care should be taken not to tamper with the underlying transport, as
    /// that may corrupt the sequence of frames being worked with.
    pub fn get_ref(&self) -> (r: &Tr)
        ensures
            *r == self.inner,
    {
        &self.inner
    }

    /// Returns a mutable reference to the underlying transport.
    ///
    /// Care should be taken not to tamper with the underlying transport, as
    /// that may corrupt the sequence of frames being worked with.
    pub fn get_mut(&mut self) -> (r: &mut Tr)
        ensures
            *r == old(self).inner,
            final(self).inner == *final(r),
            final(self).codec == old(self).codec,
    {
        &mut self.inner
    }

    /// Consumes the `Framed`, returning its underlying transport.
    pub fn into_inner(self) -> (r: Tr)
        ensures
            r == self.inner,
    {
        self.inner
    }
}

impl<Tr: Transport, Item, SinkItem, Codec: Deserializer<Item>> Framed<Tr, Item, SinkItem, Codec> {
    /// Pulls the next value: the head buffer of the transport, decoded.
    ///
    /// Suspension is propagated without consuming a buffer or touching the
    /// codec; exhaustion is terminal and re-pulling stays exhausted; a
    /// transport error is passed through verbatim without decoding; a decode
    /// failure is surfaced as an error item and the adapter stays pollable.
    pub fn poll_next(&mut self) -> (r: Poll<Option<Result<Item, FramedError>>>)
        ensures
            final(self).codec == old(self).codec,
            final(self).inner.pending_writes() == old(self).inner.pending_writes(),
            final(self).inner.delivered() == old(self).inner.delivered(),
            final(self).inner.is_closed() == old(self).inner.is_closed(),
            (match r {
                Poll::Pending => final(self).inner.to_read() == old(self).inner.to_read(),
                Poll::Ready(None) => old(self).inner.to_read().len() == 0
                    && final(self).inner.to_read() == old(self).inner.to_read(),
                Poll::Ready(Some(item)) => old(self).inner.to_read().len() > 0
                    && final(self).inner.to_read() == old(self).inner.to_read().skip(1)
                    && (match (item, old(self).inner.to_read()[0]) {
                        (Ok(v), Ok(b)) => old(self).codec.dec_spec(b) == Some(v),
                        (Err(FramedError::Codec(e)), Ok(b)) => old(self).codec.dec_spec(b) is None
                            && e == old(self).codec.dec_err_spec(b),
                        (Err(FramedError::Transport(e)), Err(t)) => e == t,
                        _ => false,
                    }),
            }),
    {
        match self.inner.poll_next() {
            Poll::Pending => Poll::Pending,
            Poll::Ready(None) => Poll::Ready(None),
            Poll::Ready(Some(Err(e))) => Poll::Ready(Some(Err(FramedError::Transport(e)))),
            Poll::Ready(Some(Ok(buf))) => match self.codec.deserialize(&buf) {
                Ok(v) => Poll::Ready(Some(Ok(v))),
                Err(e) => Poll::Ready(Some(Err(FramedError::Codec(e)))),
            },
        }
    }
}

impl<Tr: Transport, Item, SinkItem, Codec: Serializer<SinkItem>> Framed<
    Tr,
    Item,
    SinkItem,
    Codec,
> {
    /// Delegates the readiness check to the underlying transport; the
    /// adapter adds no backpressure of its own.
    pub fn poll_ready(&mut self) -> (r: Poll<Result<(), FramedError>>)
        ensures
            final(self).codec == old(self).codec,
            final(self).inner.to_read() == old(self).inner.to_read(),
            final(self).inner.pending_writes() == old(self).inner.pending_writes(),
            final(self).inner.delivered() == old(self).inner.delivered(),
            final(self).inner.is_closed() == old(self).inner.is_closed(),
    {
        match self.inner.poll_ready() {
            Poll::Pending => Poll::Pending,
            Poll::Ready(Ok(())) => Poll::Ready(Ok(())),
            Poll::Ready(Err(e)) => Poll::Ready(Err(FramedError::Transport(e))),
        }
    }

    /// Encodes `item` and submits the buffer to the underlying transport.
    ///
    /// On an encode failure the mapped error is returned at once and nothing
    /// is submitted; on success the transport's own verdict is returned
    /// as it stands. The submitted buffer decodes back to `item`.
    pub fn start_send(&mut self, item: SinkItem) -> (r: Result<(), FramedError>)
        ensures
            final(self).codec == old(self).codec,
            final(self).inner.to_read() == old(self).inner.to_read(),
            final(self).inner.delivered() == old(self).inner.delivered(),
            final(self).inner.is_closed() == old(self).inner.is_closed(),
            (match r {
                Ok(()) => {
                    &&& final(self).inner.pending_writes().len()
                        == old(self).inner.pending_writes().len() + 1
                    &&& final(self).inner.pending_writes()
                        .take(old(self).inner.pending_writes().len() as int)
                        == old(self).inner.pending_writes()
                    &&& old(self).codec.dec_spec(final(self).inner.pending_writes().last())
                        == Some(item)
                },
                Err(FramedError::Codec(_)) => !old(self).codec.ser_ok(item)
                    && final(self).inner.pending_writes() == old(self).inner.pending_writes(),
                Err(FramedError::Transport(_)) => final(self).inner.pending_writes()
                    == old(self).inner.pending_writes(),
            }),
    {
        let buf = match self.codec.serialize(&item) {
            Ok(buf) => buf,
            Err(e) => {
                return Err(FramedError::Codec(e));
            },
        };
        let ghost pw = self.inner.pending_writes();
        match self.inner.start_send(buf) {
            Ok(()) => {
                proof {
                    assert(self.inner.pending_writes().take(pw.len() as int) =~= pw);
                }
                Ok(())
            },
            Err(e) => Err(FramedError::Transport(e)),
        }
    }

    /// Delegates the flush to the underlying transport.
    pub fn poll_flush(&mut self) -> (r: Poll<Result<(), FramedError>>)
        ensures
            final(self).codec == old(self).codec,
            final(self).inner.to_read() == old(self).inner.to_read(),
            final(self).inner.is_closed() == old(self).inner.is_closed(),
            final(self).inner.delivered() + final(self).inner.pending_writes()
                == old(self).inner.delivered() + old(self).inner.pending_writes(),
            old(self).inner.delivered().is_prefix_of(final(self).inner.delivered()),
            (match r {
                Poll::Ready(Ok(())) => final(self).inner.pending_writes().len() == 0,
                _ => true,
            }),
    {
        match self.inner.poll_flush() {
            Poll::Pending => Poll::Pending,
            Poll::Ready(Ok(())) => Poll::Ready(Ok(())),
            Poll::Ready(Err(e)) => Poll::Ready(Err(FramedError::Transport(e))),
        }
    }

    /// Flushes fully, then closes the underlying transport, in that order.
    ///
    /// The transport's own close never delivers pending buffers, so the
    /// completed close guarantees here — everything that was pending on entry
    /// delivered, and the transport closed — hold only because the flush
    /// finishes first. No buffered frame is dropped by closing the adapter.
    pub fn poll_close(&mut self) -> (r: Poll<Result<(), FramedError>>)
        ensures
            final(self).codec == old(self).codec,
            final(self).inner.to_read() == old(self).inner.to_read(),
            final(self).inner.delivered() + final(self).inner.pending_writes()
                == old(self).inner.delivered() + old(self).inner.pending_writes(),
            old(self).inner.delivered().is_prefix_of(final(self).inner.delivered()),
            (match r {
                Poll::Ready(Ok(())) => {
                    &&& final(self).inner.is_closed()
                    &&& final(self).inner.pending_writes().len() == 0
                    &&& final(self).inner.delivered()
                        == old(self).inner.delivered() + old(self).inner.pending_writes()
                },
                _ => final(self).inner.is_closed() == old(self).inner.is_closed(),
            }),
    {
        match self.inner.poll_flush() {
            Poll::Pending => Poll::Pending,
            Poll::Ready(Err(e)) => Poll::Ready(Err(FramedError::Transport(e))),
            Poll::Ready(Ok(())) => {
                proof {
                    assert(self.inner.delivered() =~= self.inner.delivered()
                        + self.inner.pending_writes());
                }
                match self.inner.poll_close() {
                    Poll::Pending => Poll::Pending,
                    Poll::Ready(Ok(())) => Poll::Ready(Ok(())),
                    Poll::Ready(Err(e)) => Poll::Ready(Err(FramedError::Transport(e))),
                }
            },
        }
    }
}

} // verus!
