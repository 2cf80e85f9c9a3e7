use vstd::prelude::*;

verus! {

/// Why a codec rejected an encode or a decode call.
#[derive(Clone, Copy, Debug, PartialEq, Eq, Structural)]
pub enum CodecError {
    /// The inner format rejected the value on encode.
    Serialization,
    /// The buffer ended before one whole value could be read.
    Truncated,
    /// The buffer does not hold exactly one well-formed value: a syntax
    /// error, a semantic error, or trailing bytes after the value.
    Malformed,
    /// The authenticated cipher could not encrypt.
    Encryption,
    /// The authenticated cipher rejected the record. Tampering, a truncated
    /// ciphertext and a wrong key are deliberately left indistinguishable.
    Decryption,
}

/// An error of the underlying buffer transport, passed through unchanged
/// by the adapter.
#[derive(Clone, Copy, Debug, PartialEq, Eq, Structural)]
pub enum TransportError {
    /// The transport failed; no further buffers will arrive.
    ConnectionLost,
    /// A buffer was submitted after the write half was closed.
    Closed,
}

/// What the adapter hands its caller: the transport's own error, verbatim,
/// or the codec's error for the frame in question.
#[derive(Clone, Copy, Debug, PartialEq, Eq, Structural)]
pub enum FramedError {
    Transport(TransportError),
    Codec(CodecError),
}

} // verus!
