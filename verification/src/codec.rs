use crate::error::CodecError;
use vstd::prelude::*;

verus! {

/// Decodes one value of type `T` out of a byte buffer.
///
/// A decoder is a pure function of the buffer: which value (if any) a buffer
/// holds is given by `dec_spec`, and `deserialize` returns exactly that value
/// or exactly the error `dec_err_spec` names. The buffer must hold exactly
/// one encoded value; a buffer with missing or surplus bytes decodes to
/// nothing and is reported as an error, never silently accepted.
pub trait Deserializer<T>: Sized {
    /// The value, if any, that this codec recovers from `buf`.
    spec fn dec_spec(&self, buf: Seq<u8>) -> Option<T>;

    /// The error reported for a buffer that decodes to nothing.
    spec fn dec_err_spec(&self, buf: Seq<u8>) -> CodecError;

    /// Decodes the one value held by `src`.
    ///
    /// Takes `&mut self` so that implementations may draw on internal state,
    /// but must leave that state as it found it: every call is self-contained.
    fn deserialize(&mut self, src: &Vec<u8>) -> (r: Result<T, CodecError>)
        ensures
            *final(self) == *old(self),
            (match old(self).dec_spec(src@) {
                Some(v) => r == Ok::<T, CodecError>(v),
                None => r == Err::<T, CodecError>(old(self).dec_err_spec(src@)),
            }),
    ;
}

/// Encodes values of type `T` into byte buffers that the same codec decodes.
///
/// The round-trip law is the contract: whenever `serialize` returns a buffer,
/// that buffer decodes (under `dec_spec`) to the very item that was encoded.
/// Encoding may be randomized — two calls on one item may return different
/// buffers — so no spec function names "the" encoding; the law holds of
/// every buffer the encoder can return.
pub trait Serializer<T>: Deserializer<T> + Sized {
    /// The items on which encoding is owed to succeed.
    spec fn ser_ok(&self, item: T) -> bool;

    /// Encodes `item` into a fresh buffer holding exactly that one value.
    ///
    /// Takes `&mut self` so that implementations may draw on internal state
    /// (a fresh nonce, for one), but must leave that state as it found it.
    fn serialize(&mut self, item: &T) -> (r: Result<Vec<u8>, CodecError>)
        ensures
            *final(self) == *old(self),
            (r matches Ok(buf) ==> old(self).dec_spec(buf@) == Some(*item)),
            (old(self).ser_ok(*item) ==> r is Ok),
    ;
}

} // verus!
