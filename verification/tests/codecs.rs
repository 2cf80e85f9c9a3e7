use framed_codecs::Bincode;
use framed_codecs::Cbor;
use framed_codecs::CodecError;
use framed_codecs::Deserializer;
use framed_codecs::Json;
use framed_codecs::MessagePack;
use framed_codecs::Serializer;

fn roundtrip<C: Serializer<u64>>(codec: &mut C, v: u64) {
    let buf = codec.serialize(&v).expect("encoding an integer succeeds");
    assert_eq!(codec.deserialize(&buf), Ok(v));
}

#[test]
fn json_impls() {
    let j: Json = Default::default();
    assert!(format!("{:?}", j).len() > 0);
    let j2 = Json::default();
    assert!(format!("{:?}", j2).len() > 0);
}

#[test]
fn bincode_impls() {
    let b: Bincode = Default::default();
    assert!(format!("{:?}", b).len() > 0);
    let b2 = Bincode::default();
    assert!(format!("{:?}", b2).len() > 0);
}

#[test]
fn messagepack_impls() {
    let m: MessagePack = Default::default();
    assert!(format!("{:?}", m).len() > 0);
    let m2 = MessagePack::default();
    assert!(format!("{:?}", m2).len() > 0);
}

#[test]
fn cbor_impls() {
    let c: Cbor = Default::default();
    assert!(format!("{:?}", c).len() > 0);
    let c2 = Cbor::default();
    assert!(format!("{:?}", c2).len() > 0);
}

#[test]
fn json_roundtrip() {
    let mut j = Json::default();
    for v in [0u64, 1, 7, 250, 251, 300, 65536, u64::MAX] {
        roundtrip(&mut j, v);
    }
}

#[test]
fn bincode_roundtrip() {
    let mut b = Bincode::default();
    for v in [0u64, 1, 7, 250, 251, 300, 65536, u64::MAX] {
        roundtrip(&mut b, v);
    }
}

#[test]
fn messagepack_roundtrip() {
    let mut m = MessagePack::default();
    for v in [0u64, 1, 7, 250, 251, 300, 65536, u64::MAX] {
        roundtrip(&mut m, v);
    }
}

#[test]
fn cbor_roundtrip() {
    let mut c = Cbor::default();
    for v in [0u64, 1, 7, 250, 251, 300, 65536, u64::MAX] {
        roundtrip(&mut c, v);
    }
}

#[test]
fn json_exact_encoding() {
    let mut j = Json::default();
    assert_eq!(j.serialize(&7u64).unwrap(), b"7".to_vec());
    assert_eq!(j.serialize(&1234u64).unwrap(), b"1234".to_vec());
}

#[test]
fn bincode_exact_encoding() {
    // Default options: varint, little endian. Values up to 250 take one
    // byte; a 251 marker byte introduces a two-byte little-endian value.
    let mut b = Bincode::default();
    assert_eq!(b.serialize(&5u64).unwrap(), vec![5u8]);
    assert_eq!(b.serialize(&300u64).unwrap(), vec![251u8, 0x2C, 0x01]);
}

#[test]
fn messagepack_exact_encoding() {
    let mut m = MessagePack::default();
    assert_eq!(m.serialize(&1u64).unwrap(), vec![0x01u8]);
    assert_eq!(m.serialize(&300u64).unwrap(), vec![0xCDu8, 0x01, 0x2C]);
}

#[test]
fn cbor_exact_encoding() {
    let mut c = Cbor::default();
    assert_eq!(c.serialize(&1u64).unwrap(), vec![0x01u8]);
    assert_eq!(c.serialize(&300u64).unwrap(), vec![0x19u8, 0x01, 0x2C]);
}

#[test]
fn json_trailing_data_rejected() {
    let mut j = Json::default();
    let mut buf = j.serialize(&7u64).unwrap();
    buf.push(b'x');
    assert_eq!(j.deserialize(&buf), Err(CodecError::Malformed));
}

#[test]
fn bincode_trailing_data_rejected() {
    let mut b = Bincode::default();
    let mut buf = b.serialize(&5u64).unwrap();
    buf.push(0u8);
    assert_eq!(b.deserialize(&buf), Err(CodecError::Malformed));
}

#[test]
fn cbor_trailing_data_rejected() {
    let mut c = Cbor::default();
    let mut buf = c.serialize(&1u64).unwrap();
    buf.push(1u8);
    assert_eq!(c.deserialize(&buf), Err(CodecError::Malformed));
}

#[test]
fn json_truncated_input() {
    let mut j = Json::default();
    let empty: Vec<u8> = Vec::new();
    assert_eq!(j.deserialize(&empty), Err(CodecError::Truncated));
}

#[test]
fn cbor_truncated_input() {
    let mut c = Cbor::default();
    // A two-byte-value header with only one byte following.
    let buf: Vec<u8> = vec![0x19, 0x01];
    assert_eq!(c.deserialize(&buf), Err(CodecError::Truncated));
}

#[test]
fn json_malformed_input() {
    let mut j = Json::default();
    // Valid JSON, but not an unsigned integer.
    let buf = b"true".to_vec();
    assert_eq!(j.deserialize(&buf), Err(CodecError::Malformed));
    let garbage = b"{".to_vec();
    assert!(j.deserialize(&garbage).is_err());
}

#[test]
fn bincode_truncated_is_rejected() {
    let mut b = Bincode::default();
    // A two-byte-value marker with only one byte following.
    let buf: Vec<u8> = vec![251, 0x2C];
    assert_eq!(b.deserialize(&buf), Err(CodecError::Malformed));
}

#[test]
fn messagepack_malformed_input() {
    let mut m = MessagePack::default();
    // A string header is not an unsigned integer.
    let buf: Vec<u8> = vec![0xA1, b'x'];
    assert_eq!(m.deserialize(&buf), Err(CodecError::Malformed));
}
