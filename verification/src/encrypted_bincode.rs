use crate::codec::Deserializer;
use crate::codec::Serializer;
use crate::error::CodecError;
use crate::formats::bincode_dec_u64;
use crate::formats::bincode_enc_u64;
use crate::formats::bincode_from_slice_u64;
use crate::formats::bincode_to_vec_u64;
use vstd::prelude::*;
use vstd::slice::slice_subrange;

verus! {

/// The symmetric key, held inside `secrecy::Secret`, the container that
/// keeps it out of debug output and zeroes it on drop. The verifier refuses
/// `Secret`'s own declaration (its `Zeroize` bound), so the container sits
/// in a struct it treats as opaque; what it holds is reached only through
/// the trusted accessors below.
#[verifier::external_body]
#[derive(Debug)]
pub struct SecretKey {
    inner: secrecy::Secret<[u8; 32]>,
}

/// The 32 key bytes a secret container holds.
pub uninterp spec fn secret_key(s: SecretKey) -> Seq<u8>;

/// Relies on `secrecy::Secret::new`: the container holds exactly the bytes
/// it was given.
#[verifier::external_body]
fn secret_from_bytes(bytes: &[u8]) -> (s: SecretKey)
    requires
        bytes@.len() == 32,
    ensures
        secret_key(s) == bytes@,
{
    let mut key = [0u8; 32];
    key.copy_from_slice(bytes);
    SecretKey { inner: secrecy::Secret::new(key) }
}

/// Relies on `secrecy::ExposeSecret::expose_secret`: hands back exactly the
/// held bytes, which are 32 by the container's type.
#[verifier::external_body]
fn secret_expose(s: &SecretKey) -> (r: &[u8])
    ensures
        r@ == secret_key(*s),
        r@.len() == 32,
{
    secrecy::ExposeSecret::expose_secret(&s.inner).as_slice()
}

/// Relies on `rand_core::OsRng` (a cryptographically secure source) filling
/// 32 bytes, wrapped by `secrecy::Secret::new`. The key is random: nothing
/// is said of its value, only that the container holds 32 bytes.
#[verifier::external_body]
fn gen_key() -> (s: SecretKey)
    ensures
        secret_key(s).len() == 32,
{
    let mut key = [0u8; 32];
    rand_core::RngCore::fill_bytes(&mut rand_core::OsRng, &mut key);
    SecretKey { inner: secrecy::Secret::new(key) }
}

/// Relies on `rand_core::OsRng`, a cryptographically secure source: 24 fresh
/// random bytes for a nonce. Random, so only the length is stated.
#[verifier::external_body]
fn gen_nonce() -> (r: Vec<u8>)
    ensures
        r@.len() == 24,
{
    let mut nonce = [0u8; 24];
    rand_core::RngCore::fill_bytes(&mut rand_core::OsRng, &mut nonce);
    nonce.to_vec()
}

/// The ciphertext-plus-tag that XChaCha20-Poly1305 produces from a key, a
/// nonce and a plaintext — a deterministic function of the three.
pub uninterp spec fn xchacha_seal(key: Seq<u8>, nonce: Seq<u8>, plaintext: Seq<u8>) -> Seq<u8>;

/// Whether a decrypt verdict is acceptance with exactly the plaintext `p`.
pub open spec fn opens_to(r: Result<Vec<u8>, CodecError>, p: Seq<u8>) -> bool {
    r matches Ok(q) && q@ == p
}

/// Relies on `XChaCha20Poly1305::encrypt` of the chacha20poly1305 crate:
/// deterministic in key, nonce and plaintext, here named `xchacha_seal`;
/// the output is the ciphertext, as long as the plaintext, followed by the
/// 16-byte tag; the cipher refuses only a plaintext of at least 2^32
/// 64-byte blocks, so anything under 2^32 bytes is accepted; and the seal
/// determines the plaintext, since decryption recovers it.
#[verifier::external_body]
fn xchacha_encrypt(key: &[u8], nonce: &[u8], plaintext: &[u8]) -> (r: Result<
    Vec<u8>,
    CodecError,
>)
    requires
        key@.len() == 32,
        nonce@.len() == 24,
    ensures
        (r matches Ok(c) ==> c@ == xchacha_seal(key@, nonce@, plaintext@)),
        (r matches Ok(c) ==> c@.len() == plaintext@.len() + 16),
        (plaintext@.len() < 0x100000000 ==> r is Ok),
        (r matches Ok(c) ==> forall|p: Seq<u8>|
            c@ == #[trigger] xchacha_seal(key@, nonce@, p) ==> p == plaintext@),
{
    let key = chacha20poly1305::Key::try_from(key).expect("the contract fixes the key length");
    let nonce = chacha20poly1305::XNonce::try_from(nonce).expect(
        "the contract fixes the nonce length",
    );
    let cipher = <chacha20poly1305::XChaCha20Poly1305 as chacha20poly1305::KeyInit>::new(&key);
    chacha20poly1305::aead::Aead::encrypt(&cipher, &nonce, plaintext).map_err(
        |_| CodecError::Encryption,
    )
}

/// Relies on `XChaCha20Poly1305::decrypt` of the chacha20poly1305 crate: an
/// AEAD open. It accepts exactly the buffers `xchacha_seal` produces under
/// the same key and nonce, returns the plaintext sealed there, and answers
/// every rejection — tampering, a truncated ciphertext, a wrong key — with
/// one uniform error, on purpose indistinguishable.
#[verifier::external_body]
fn xchacha_decrypt(key: &[u8], nonce: &[u8], ciphertext: &[u8]) -> (r: Result<
    Vec<u8>,
    CodecError,
>)
    requires
        key@.len() == 32,
        nonce@.len() == 24,
    ensures
        (r matches Ok(p) ==> ciphertext@ == xchacha_seal(key@, nonce@, p@)),
        (forall|p: Seq<u8>|
            ciphertext@ == #[trigger] xchacha_seal(key@, nonce@, p) ==> opens_to(r, p)),
        (r matches Err(e) ==> e == CodecError::Decryption),
{
    let key = chacha20poly1305::Key::try_from(key).expect("the contract fixes the key length");
    let nonce = chacha20poly1305::XNonce::try_from(nonce).expect(
        "the contract fixes the nonce length",
    );
    let cipher = <chacha20poly1305::XChaCha20Poly1305 as chacha20poly1305::KeyInit>::new(&key);
    chacha20poly1305::aead::Aead::decrypt(&cipher, &nonce, ciphertext).map_err(
        |_| CodecError::Decryption,
    )
}

/// Authenticated codec: the binary format of the `Bincode` codec, wrapped
/// in XChaCha20-Poly1305 for confidentiality and integrity.
///
/// Each encode draws a fresh random 24-byte nonce and produces the wire
/// record `nonce (24 bytes) || ciphertext+tag` — the layout other
/// implementations of this codec must reproduce bit for bit. Nonce
/// uniqueness under one key is what keeps the cipher safe; it rests on the
/// randomness source alone (no counter is kept), whose collision chance
/// over a codec's practical lifetime is negligible, not zero. The key lives
/// in a `secrecy::Secret`: debug output redacts it and drop zeroes it.
#[derive(Debug)]
pub struct EncryptedBincode {
    key: SecretKey,
}

impl EncryptedBincode {
    /// The codec's symmetric key bytes, visible to specifications only.
    pub closed spec fn key_view(&self) -> Seq<u8> {
        secret_key(self.key)
    }

    /// A codec that encrypts and decrypts under the given 32-byte key.
    pub fn new(key: Vec<u8>) -> (r: Self)
        requires
            key@.len() == 32,
        ensures
            r.key_view() == key@,
    {
        EncryptedBincode { key: secret_from_bytes(key.as_slice()) }
    }

    /// Every buffer this codec accepts is authentic: its tail is, byte for
    /// byte, a seal under the codec's own key and the buffer's 24-byte nonce
    /// prefix, of a plaintext that decodes to the returned value. A buffer
    /// that is not such a seal — a flipped bit, a foreign key, an invented
    /// record — is never decoded to a value.
    pub proof fn lemma_accepted_is_authentic(&self, buf: Seq<u8>, v: u64)
        requires
            self.dec_spec(buf) == Some(v),
        ensures
            buf.len() >= 24,
            exists|pt: Seq<u8>|
                buf.skip(24) == #[trigger] xchacha_seal(self.key_view(), buf.take(24), pt)
                    && bincode_dec_u64(pt) == Ok::<u64, CodecError>(v),
    {
        let pt = choose|pt: Seq<u8>|
            buf.skip(24) == #[trigger] xchacha_seal(self.key_view(), buf.take(24), pt);
        assert(buf.skip(24) == xchacha_seal(self.key_view(), buf.take(24), pt)
            && bincode_dec_u64(pt) == Ok::<u64, CodecError>(v));
    }
}

impl Default for EncryptedBincode {
    /// A codec under a fresh random 32-byte key.
    fn default() -> (r: Self)
        ensures
            r.key_view().len() == 32,
    {
        EncryptedBincode { key: gen_key() }
    }
}

impl Deserializer<u64> for EncryptedBincode {
    open spec fn dec_spec(&self, buf: Seq<u8>) -> Option<u64> {
        if buf.len() < 24 {
            None
        } else if exists|pt: Seq<u8>|
            buf.skip(24) == #[trigger] xchacha_seal(self.key_view(), buf.take(24), pt) {
            let pt = choose|pt: Seq<u8>|
                buf.skip(24) == #[trigger] xchacha_seal(self.key_view(), buf.take(24), pt);
            match bincode_dec_u64(pt) {
                Ok(v) => Some(v),
                Err(_) => None,
            }
        } else {
            None
        }
    }

    open spec fn dec_err_spec(&self, buf: Seq<u8>) -> CodecError {
        if buf.len() < 24 {
            CodecError::Truncated
        } else if exists|pt: Seq<u8>|
            buf.skip(24) == #[trigger] xchacha_seal(self.key_view(), buf.take(24), pt) {
            let pt = choose|pt: Seq<u8>|
                buf.skip(24) == #[trigger] xchacha_seal(self.key_view(), buf.take(24), pt);
            match bincode_dec_u64(pt) {
                Ok(_) => CodecError::Malformed,
                Err(e) => e,
            }
        } else {
            CodecError::Decryption
        }
    }

    /// Splits the record into its 24-byte nonce prefix and the ciphertext,
    /// opens the ciphertext under (key, nonce), and decodes the recovered
    /// plaintext with the inner binary format.
    fn deserialize(&mut self, src: &Vec<u8>) -> (r: Result<u64, CodecError>)
        ensures
            src@.len() < 24 ==> r == Err::<u64, CodecError>(CodecError::Truncated),
    {
        if src.len() < 24 {
            return Err(CodecError::Truncated);
        }
        let key = secret_expose(&self.key);
        let nonce = slice_subrange(src.as_slice(), 0, 24);
        let ciphertext = slice_subrange(src.as_slice(), 24, src.len());
        proof {
            assert(nonce@ == src@.take(24));
            assert(ciphertext@ == src@.skip(24));
        }
        match xchacha_decrypt(key, nonce, ciphertext) {
            Err(e) => {
                proof {
                    assert(forall|pt: Seq<u8>|
                        src@.skip(24) != #[trigger] xchacha_seal(self.key_view(), src@.take(24), pt));
                }
                Err(e)
            },
            Ok(plaintext) => {
                proof {
                    let pt2 = choose|pt: Seq<u8>|
                        src@.skip(24) == #[trigger] xchacha_seal(
                            self.key_view(),
                            src@.take(24),
                            pt,
                        );
                    assert(opens_to(Ok(plaintext), pt2));
                    assert(pt2 == plaintext@);
                }
                bincode_from_slice_u64(plaintext.as_slice())
            },
        }
    }
}

impl Serializer<u64> for EncryptedBincode {
    open spec fn ser_ok(&self, item: u64) -> bool {
        true
    }

    /// Encodes `item` with the inner binary format, draws a fresh random
    /// 24-byte nonce, seals the plaintext under (key, nonce), and returns
    /// `nonce || ciphertext+tag`.
    fn serialize(&mut self, item: &u64) -> (r: Result<Vec<u8>, CodecError>)
        ensures
            (r matches Ok(b) ==> b@.len() == 24 + bincode_enc_u64(*item).len() + 16),
            (r matches Ok(b) ==> b@.skip(24) == xchacha_seal(
                old(self).key_view(),
                b@.take(24),
                bincode_enc_u64(*item),
            )),
    {
        let plaintext = bincode_to_vec_u64(item);
        let mut out = gen_nonce();
        let key = secret_expose(&self.key);
        match xchacha_encrypt(key, out.as_slice(), plaintext.as_slice()) {
            Err(_) => {
                // A plaintext of at most nine bytes is far below the
                // cipher's length bound, so this arm cannot be reached.
                proof {
                    assert(false);
                }
                Err(CodecError::Encryption)
            },
            Ok(mut sealed) => {
                let ghost nonce_view = out@;
                let ghost sealed_view = sealed@;
                out.append(&mut sealed);
                proof {
                    assert(out@.take(24) =~= nonce_view);
                    assert(out@.skip(24) =~= sealed_view);
                    let pt2 = choose|pt: Seq<u8>|
                        out@.skip(24) == #[trigger] xchacha_seal(
                            self.key_view(),
                            out@.take(24),
                            pt,
                        );
                    assert(pt2 == plaintext@);
                }
                Ok(out)
            },
        }
    }
}

} // verus!
