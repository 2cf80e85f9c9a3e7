//! Typed framing over a buffer-level transport.
//!
//! The library lifts a duplex channel that delivers discrete byte buffers —
//! one buffer per frame, framing done upstream — to a duplex channel of typed
//! values, by driving the buffers through a pluggable codec. [`Framed`] is the
//! generic adapter; the [`Serializer`] and [`Deserializer`] traits are the
//! codec contract; the `formats` module holds the plain codecs and the
//! `encrypted_bincode` module the authenticated-encryption codec, which adds
//! confidentiality and integrity on top of the plain binary format.

pub mod codec;
pub mod encrypted_bincode;
pub mod error;
pub mod formats;
pub mod framed;
pub mod transport;

pub use codec::Deserializer;
pub use codec::Serializer;
pub use encrypted_bincode::EncryptedBincode;
pub use error::CodecError;
pub use error::FramedError;
pub use error::TransportError;
pub use formats::Bincode;
pub use formats::Cbor;
pub use formats::CborIssue;
pub use formats::Json;
pub use formats::MessagePack;
pub use framed::Framed;
pub use framed::SymmetricallyFramed;
pub use transport::Poll;
pub use transport::QueueTransport;
pub use transport::Transport;
