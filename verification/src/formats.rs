use crate::codec::Deserializer;
use crate::codec::Serializer;
use crate::error::CodecError;
use vstd::prelude::*;

verus! {

/// Whether a decode verdict is acceptance of exactly `v`.
pub open spec fn decodes_to(r: Result<u64, CodecError>, v: u64) -> bool {
    r == Ok::<u64, CodecError>(v)
}

/// Whether a CBOR decode verdict is acceptance of exactly `v`.
pub open spec fn cbor_decodes_to(r: Result<u64, CborIssue>, v: u64) -> bool {
    r == Ok::<u64, CborIssue>(v)
}

// ---------------------------------------------------------------------------
// JSON
// ---------------------------------------------------------------------------

/// The byte sequence `serde_json::to_vec` produces for a `u64`.
pub uninterp spec fn json_enc_u64(v: u64) -> Seq<u8>;

/// The verdict of `serde_json::from_slice::<u64>` on a buffer, with the
/// error classified: a buffer that ends inside the value is `Truncated`,
/// any other rejection is `Malformed`.
pub uninterp spec fn json_dec_u64(buf: Seq<u8>) -> Result<u64, CodecError>;

/// Relies on `serde_json::to_vec`: encoding an unsigned integer cannot fail,
/// and `serde_json::from_slice` recovers the integer from the exact buffer.
#[verifier::external_body]
fn json_to_vec_u64(item: &u64) -> (r: Vec<u8>)
    ensures
        r@ == json_enc_u64(*item),
        decodes_to(json_dec_u64(r@), *item),
        r@.len() > 0,
{
    serde_json::to_vec(item).expect("serializing an integer to JSON cannot fail")
}

/// Relies on `serde_json::from_slice::<u64>`: a deterministic function of the
/// buffer, here named `json_dec_u64`; its error is classified through
/// `serde_json::Error::classify`.
#[verifier::external_body]
fn json_from_slice_u64(src: &[u8]) -> (r: Result<u64, CodecError>)
    ensures
        r == json_dec_u64(src@),
{
    serde_json::from_slice::<u64>(src).map_err(|e| match e.classify() {
        serde_json::error::Category::Eof => CodecError::Truncated,
        serde_json::error::Category::Io => CodecError::Malformed,
        serde_json::error::Category::Syntax => CodecError::Malformed,
        serde_json::error::Category::Data => CodecError::Malformed,
    })
}

/// JSON codec: a pass-through to the `serde_json` crate.
#[derive(Debug)]
pub struct Json {}

impl Default for Json {
    fn default() -> (r: Self)
        ensures
            r == (Json {  }),
    {
        Json {  }
    }
}

impl Deserializer<u64> for Json {
    open spec fn dec_spec(&self, buf: Seq<u8>) -> Option<u64> {
        match json_dec_u64(buf) {
            Ok(v) => Some(v),
            Err(_) => None,
        }
    }

    open spec fn dec_err_spec(&self, buf: Seq<u8>) -> CodecError {
        match json_dec_u64(buf) {
            Ok(_) => CodecError::Malformed,
            Err(e) => e,
        }
    }

    fn deserialize(&mut self, src: &Vec<u8>) -> (r: Result<u64, CodecError>) {
        json_from_slice_u64(src.as_slice())
    }
}

impl Serializer<u64> for Json {
    open spec fn ser_ok(&self, item: u64) -> bool {
        true
    }

    fn serialize(&mut self, item: &u64) -> (r: Result<Vec<u8>, CodecError>) {
        Ok(json_to_vec_u64(item))
    }
}

// ---------------------------------------------------------------------------
// Bincode
// ---------------------------------------------------------------------------

/// The byte sequence bincode's `DefaultOptions` (varint, little endian,
/// trailing bytes rejected) produces for a `u64`.
pub uninterp spec fn bincode_enc_u64(v: u64) -> Seq<u8>;

/// The verdict of bincode's `DefaultOptions` decoding a `u64` from a buffer;
/// every rejection — truncation, surplus bytes, a bad tag byte — surfaces
/// as `Malformed`.
pub uninterp spec fn bincode_dec_u64(buf: Seq<u8>) -> Result<u64, CodecError>;

/// Relies on `bincode::Options::serialize` with `DefaultOptions`: encoding an
/// integer into a fresh vector cannot fail; the varint form of a `u64` takes
/// one to nine bytes; `deserialize` recovers the integer from the exact
/// buffer.
#[verifier::external_body]
pub(crate) fn bincode_to_vec_u64(item: &u64) -> (r: Vec<u8>)
    ensures
        r@ == bincode_enc_u64(*item),
        decodes_to(bincode_dec_u64(r@), *item),
        1 <= r@.len() <= 9,
{
    bincode::Options::serialize(bincode::DefaultOptions::new(), item).expect(
        "serializing an integer to a vector cannot fail",
    )
}

/// Relies on `bincode::Options::deserialize` with `DefaultOptions`: a
/// deterministic function of the buffer, here named `bincode_dec_u64`.
#[verifier::external_body]
pub(crate) fn bincode_from_slice_u64(src: &[u8]) -> (r: Result<u64, CodecError>)
    ensures
        r == bincode_dec_u64(src@),
{
    bincode::Options::deserialize::<u64>(bincode::DefaultOptions::new(), src).map_err(
        |_| CodecError::Malformed,
    )
}

/// Binary codec: a pass-through to the `bincode` crate with its default
/// options (varint integers, little endian, trailing bytes rejected).
#[derive(Debug)]
pub struct Bincode {}

impl Default for Bincode {
    fn default() -> (r: Self)
        ensures
            r == (Bincode {  }),
    {
        Bincode {  }
    }
}

impl Deserializer<u64> for Bincode {
    open spec fn dec_spec(&self, buf: Seq<u8>) -> Option<u64> {
        match bincode_dec_u64(buf) {
            Ok(v) => Some(v),
            Err(_) => None,
        }
    }

    open spec fn dec_err_spec(&self, buf: Seq<u8>) -> CodecError {
        match bincode_dec_u64(buf) {
            Ok(_) => CodecError::Malformed,
            Err(e) => e,
        }
    }

    fn deserialize(&mut self, src: &Vec<u8>) -> (r: Result<u64, CodecError>) {
        bincode_from_slice_u64(src.as_slice())
    }
}

impl Serializer<u64> for Bincode {
    open spec fn ser_ok(&self, item: u64) -> bool {
        true
    }

    fn serialize(&mut self, item: &u64) -> (r: Result<Vec<u8>, CodecError>) {
        Ok(bincode_to_vec_u64(item))
    }
}

// ---------------------------------------------------------------------------
// MessagePack
// ---------------------------------------------------------------------------

/// The byte sequence `rmp_serde::to_vec` produces for a `u64`.
pub uninterp spec fn msgpack_enc_u64(v: u64) -> Seq<u8>;

/// The verdict of `rmp_serde::from_slice::<u64>` on a buffer. Note that
/// `rmp_serde` reads one value and ignores what follows it, so a buffer with
/// surplus bytes after a valid value still decodes.
pub uninterp spec fn msgpack_dec_u64(buf: Seq<u8>) -> Result<u64, CodecError>;

/// Relies on `rmp_serde::to_vec`: encoding an integer into a fresh vector
/// cannot fail, and `rmp_serde::from_slice` recovers the integer from the
/// exact buffer.
#[verifier::external_body]
fn msgpack_to_vec_u64(item: &u64) -> (r: Vec<u8>)
    ensures
        r@ == msgpack_enc_u64(*item),
        decodes_to(msgpack_dec_u64(r@), *item),
        r@.len() > 0,
{
    rmp_serde::to_vec(item).expect("serializing an integer to a vector cannot fail")
}

/// Relies on `rmp_serde::from_slice::<u64>`: a deterministic function of the
/// buffer, here named `msgpack_dec_u64`.
#[verifier::external_body]
fn msgpack_from_slice_u64(src: &[u8]) -> (r: Result<u64, CodecError>)
    ensures
        r == msgpack_dec_u64(src@),
{
    rmp_serde::from_slice::<u64>(src).map_err(|_| CodecError::Malformed)
}

/// MessagePack codec: a pass-through to the `rmp-serde` crate.
#[derive(Debug)]
pub struct MessagePack {}

impl Default for MessagePack {
    fn default() -> (r: Self)
        ensures
            r == (MessagePack {  }),
    {
        MessagePack {  }
    }
}

impl Deserializer<u64> for MessagePack {
    open spec fn dec_spec(&self, buf: Seq<u8>) -> Option<u64> {
        match msgpack_dec_u64(buf) {
            Ok(v) => Some(v),
            Err(_) => None,
        }
    }

    open spec fn dec_err_spec(&self, buf: Seq<u8>) -> CodecError {
        match msgpack_dec_u64(buf) {
            Ok(_) => CodecError::Malformed,
            Err(e) => e,
        }
    }

    fn deserialize(&mut self, src: &Vec<u8>) -> (r: Result<u64, CodecError>) {
        msgpack_from_slice_u64(src.as_slice())
    }
}

impl Serializer<u64> for MessagePack {
    open spec fn ser_ok(&self, item: u64) -> bool {
        true
    }

    fn serialize(&mut self, item: &u64) -> (r: Result<Vec<u8>, CodecError>) {
        Ok(msgpack_to_vec_u64(item))
    }
}

// ---------------------------------------------------------------------------
// CBOR
// ---------------------------------------------------------------------------

/// How `serde_cbor` categorizes a decode failure, mirrored as plain values.
#[derive(Clone, Copy, Debug, PartialEq, Eq, Structural)]
pub enum CborIssue {
    /// The input ended before one whole value was read.
    Eof,
    /// The input is not syntactically valid CBOR, or bytes trail the value.
    Syntax,
    /// The value is well-formed CBOR but not the requested type.
    Data,
    /// Reading the input itself failed.
    Io,
}

/// The error the CBOR codec reports for each category of decode failure.
pub open spec fn cbor_issue_error(issue: CborIssue) -> CodecError {
    match issue {
        CborIssue::Eof => CodecError::Truncated,
        CborIssue::Syntax => CodecError::Malformed,
        CborIssue::Data => CodecError::Malformed,
        CborIssue::Io => CodecError::Malformed,
    }
}

/// Maps a CBOR failure category to the codec's error taxonomy: premature
/// end of input is a truncation, everything else a malformed buffer.
pub fn into_codec_error(issue: CborIssue) -> (r: CodecError)
    ensures
        r == cbor_issue_error(issue),
{
    match issue {
        CborIssue::Eof => CodecError::Truncated,
        CborIssue::Syntax => CodecError::Malformed,
        CborIssue::Data => CodecError::Malformed,
        CborIssue::Io => CodecError::Malformed,
    }
}

/// The byte sequence `serde_cbor::to_vec` produces for a `u64`.
pub uninterp spec fn cbor_enc_u64(v: u64) -> Seq<u8>;

/// The verdict of `serde_cbor::from_slice::<u64>` on a buffer, with a
/// failure reported as its `serde_cbor::error::Category`.
pub uninterp spec fn cbor_dec_u64(buf: Seq<u8>) -> Result<u64, CborIssue>;

/// Relies on `serde_cbor::to_vec`: encoding an integer into a fresh vector
/// cannot fail, and `serde_cbor::from_slice` recovers the integer from the
/// exact buffer.
#[verifier::external_body]
fn cbor_to_vec_u64(item: &u64) -> (r: Vec<u8>)
    ensures
        r@ == cbor_enc_u64(*item),
        cbor_decodes_to(cbor_dec_u64(r@), *item),
        r@.len() > 0,
{
    serde_cbor::to_vec(item).expect("serializing an integer to a vector cannot fail")
}

/// Relies on `serde_cbor::from_slice::<u64>`: a deterministic function of
/// the buffer, here named `cbor_dec_u64`; a failure is reported as what
/// `serde_cbor::Error::classify` says of it, one variant for one category.
#[verifier::external_body]
fn cbor_from_slice_u64(src: &[u8]) -> (r: Result<u64, CborIssue>)
    ensures
        r == cbor_dec_u64(src@),
{
    serde_cbor::from_slice::<u64>(src).map_err(|e| match e.classify() {
        serde_cbor::error::Category::Eof => CborIssue::Eof,
        serde_cbor::error::Category::Syntax => CborIssue::Syntax,
        serde_cbor::error::Category::Data => CborIssue::Data,
        serde_cbor::error::Category::Io => CborIssue::Io,
    })
}

/// CBOR codec: a pass-through to the `serde_cbor` crate.
#[derive(Debug)]
pub struct Cbor {}

impl Default for Cbor {
    fn default() -> (r: Self)
        ensures
            r == (Cbor {  }),
    {
        Cbor {  }
    }
}

impl Deserializer<u64> for Cbor {
    open spec fn dec_spec(&self, buf: Seq<u8>) -> Option<u64> {
        match cbor_dec_u64(buf) {
            Ok(v) => Some(v),
            Err(_) => None,
        }
    }

    open spec fn dec_err_spec(&self, buf: Seq<u8>) -> CodecError {
        match cbor_dec_u64(buf) {
            Ok(_) => CodecError::Malformed,
            Err(issue) => cbor_issue_error(issue),
        }
    }

    fn deserialize(&mut self, src: &Vec<u8>) -> (r: Result<u64, CodecError>) {
        match cbor_from_slice_u64(src.as_slice()) {
            Ok(v) => Ok(v),
            Err(issue) => Err(into_codec_error(issue)),
        }
    }
}

impl Serializer<u64> for Cbor {
    open spec fn ser_ok(&self, item: u64) -> bool {
        true
    }

    fn serialize(&mut self, item: &u64) -> (r: Result<Vec<u8>, CodecError>) {
        Ok(cbor_to_vec_u64(item))
    }
}

} // verus!
