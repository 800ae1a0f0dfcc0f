//! Authenticated envelope encryption of opaque byte payloads.
//!
//! An envelope is `base64( 12-byte nonce ‖ ciphertext ‖ 16-byte tag )`,
//! stored and transmitted as text. The AES-256-GCM sealing and the base64
//! codec are the outside crates' work, named here by the uninterpreted
//! functions [`gcm_seal`] and [`b64_encoding`]; everything around them —
//! envelope layout, key validation, error classification — is verified.

use vstd::prelude::*;

use crate::errors::CryptoError;

use aes_gcm::aead::{Aead, AeadCore, KeyInit, OsRng};
use aes_gcm::{Aes256Gcm, Key, Nonce};
use base64::Engine;

verus! {

/// The base64 text (standard alphabet, padded) of a byte sequence.
/// Stated only through the trusted items below.
pub uninterp spec fn b64_encoding(bytes: Seq<u8>) -> Seq<char>;

/// The AES-256-GCM sealing of a plaintext under a key and nonce: the
/// ciphertext with its 16-byte authentication tag appended. Stated only
/// through the trusted items below.
pub uninterp spec fn gcm_seal(key: Seq<u8>, nonce: Seq<u8>, plaintext: Seq<u8>) -> Seq<u8>;

/// The whole envelope for a given key, nonce and plaintext.
pub open spec fn spec_envelope(key: Seq<u8>, nonce: Seq<u8>, plaintext: Seq<u8>) -> Seq<char> {
    b64_encoding(nonce + gcm_seal(key, nonce, plaintext))
}

/// Relies on base64's `general_purpose::STANDARD` engine: encoding is a
/// function of the input bytes alone.
#[verifier::external_body]
fn b64_encode(bytes: &Vec<u8>) -> (r: String)
    ensures
        r@ == b64_encoding(bytes@),
{
    base64::engine::general_purpose::STANDARD.encode(bytes)
}

/// Relies on base64's `general_purpose::STANDARD` engine: decoding
/// rejects every string that is not the canonical padded encoding of some
/// byte sequence, and inverts the encoding on those that are.
#[verifier::external_body]
fn b64_decode(s: &str) -> (r: Option<Vec<u8>>)
    ensures
        r matches Some(b) ==> s@ == b64_encoding(b@),
        r is None ==> forall|bs: Seq<u8>| s@ != b64_encoding(bs),
        r matches Some(b) ==> forall|bs: Seq<u8>| s@ == b64_encoding(bs) ==> bs == b@,
{
    base64::engine::general_purpose::STANDARD.decode(s).ok()
}

/// Relies on `aes_gcm::Aes256Gcm` through `aead::Aead::encrypt`: sealing
/// is a function of (key, nonce, plaintext), appends a 16-byte tag, and
/// succeeds for every payload no longer than the cipher's limit of
/// 2^36 bytes.
#[verifier::external_body]
fn gcm_encrypt(key: &Vec<u8>, nonce: &Vec<u8>, plaintext: &[u8]) -> (r: Vec<u8>)
    requires
        key@.len() == 32,
        nonce@.len() == 12,
        plaintext@.len() <= 0x10_0000_0000,
    ensures
        r@ == gcm_seal(key@, nonce@, plaintext@),
        r@.len() == plaintext@.len() + 16,
{
    let cipher = Aes256Gcm::new(Key::<Aes256Gcm>::from_slice(key.as_slice()));
    let nonce = Nonce::from_slice(nonce.as_slice());
    cipher.encrypt(nonce, plaintext).expect("payload within AES-GCM bounds")
}

/// Relies on `aes_gcm::Aes256Gcm` through `aead::Aead::decrypt`:
/// decryption accepts a byte sequence exactly when it is the sealing of
/// some plaintext under the given key and nonce, and then returns that
/// plaintext. The cipher bounds the body it will open by 2^36 + 16
/// bytes, 16 more than it will ever seal.
#[verifier::external_body]
fn gcm_open(key: &Vec<u8>, nonce: &Vec<u8>, sealed: &[u8]) -> (r: Option<Vec<u8>>)
    requires
        key@.len() == 32,
        nonce@.len() == 12,
    ensures
        r matches Some(pt) ==> sealed@ == gcm_seal(key@, nonce@, pt@) && pt@.len() + 16
            == sealed@.len() && pt@.len() <= 0x10_0000_0010,
        r is None ==> forall|pt: Seq<u8>|
            pt.len() <= 0x10_0000_0010 ==> sealed@ != gcm_seal(key@, nonce@, pt),
        r matches Some(p) ==> forall|pt: Seq<u8>|
            pt.len() <= 0x10_0000_0010 && sealed@ == gcm_seal(key@, nonce@, pt) ==> pt == p@,
{
    let cipher = Aes256Gcm::new(Key::<Aes256Gcm>::from_slice(key.as_slice()));
    let nonce = Nonce::from_slice(nonce.as_slice());
    cipher.decrypt(nonce, sealed).ok()
}

/// Relies on `Aes256Gcm::generate_nonce` with the operating system's
/// randomness: a 96-bit value; nothing is assumed of its content.
#[verifier::external_body]
fn fresh_nonce() -> (r: Vec<u8>)
    ensures
        r@.len() == 12,
{
    Aes256Gcm::generate_nonce(&mut OsRng).to_vec()
}

/// Relies on `Aes256Gcm::generate_key` with the operating system's
/// randomness: a 256-bit value; nothing is assumed of its content.
#[verifier::external_body]
fn fresh_key_bytes() -> (r: Vec<u8>)
    ensures
        r@.len() == 32,
{
    Aes256Gcm::generate_key(OsRng).to_vec()
}

/// Stateless-per-call authenticated encryption under a process-wide
/// 256-bit key. The key is supplied once at construction, never mutated,
/// and never exposed; each `encrypt` call draws a fresh random nonce.
pub struct CryptoManager {
    key: Vec<u8>,
}

impl CryptoManager {
    #[verifier::type_invariant]
    spec fn wf(&self) -> bool {
        self.key@.len() == 32
    }

    /// The key bytes, visible to contracts only as an abstract sequence.
    pub closed spec fn key_bytes(&self) -> Seq<u8> {
        self.key@
    }

    /// Builds an engine from the base64-encoded key: fails with
    /// `InvalidKey` unless the text canonically decodes to exactly
    /// 32 bytes.
    pub fn new(key_b64: &str) -> (r: Result<CryptoManager, CryptoError>)
        ensures
            r matches Ok(cm) ==> key_b64@ == b64_encoding(cm.key_bytes())
                && cm.key_bytes().len() == 32,
            forall|kb: Seq<u8>|
                key_b64@ == b64_encoding(kb) && kb.len() == 32
                    ==> (r matches Ok(cm) && cm.key_bytes() == kb),
            (forall|kb: Seq<u8>| key_b64@ != b64_encoding(kb)) ==> (r matches Err(e) && e
                == CryptoError::InvalidKey),
            forall|kb: Seq<u8>|
                key_b64@ == b64_encoding(kb) && kb.len() != 32
                    ==> (r matches Err(e) && e == CryptoError::InvalidKey),
    {
        let key = match b64_decode(key_b64) {
            Some(k) => k,
            None => {
                return Err(CryptoError::InvalidKey);
            },
        };
        if key.len() != 32 {
            return Err(CryptoError::InvalidKey);
        }
        Ok(CryptoManager { key })
    }

    /// A fresh random key in the textual form that `new` accepts.
    pub fn generate_key() -> (r: String)
        ensures
            exists|kb: Seq<u8>| kb.len() == 32 && r@ == b64_encoding(kb),
    {
        let kb = fresh_key_bytes();
        let r = b64_encode(&kb);
        proof {
            assert(kb@.len() == 32 && r@ == b64_encoding(kb@));
        }
        r
    }

    /// Seals a payload under a fresh random nonce and returns the
    /// envelope text. Succeeds on every payload within the cipher's
    /// length limit, and the envelope encodes exactly the 12-byte nonce,
    /// the ciphertext, and the 16-byte tag.
    pub fn encrypt(&self, plaintext: &[u8]) -> (r: Result<String, CryptoError>)
        requires
            plaintext@.len() <= 0x10_0000_0000,
        ensures
            r matches Ok(env) && exists|n: Seq<u8>|
                n.len() == 12 && env@ == spec_envelope(self.key_bytes(), n, plaintext@)
                    && gcm_seal(self.key_bytes(), n, plaintext@).len() == plaintext@.len() + 16,
    {
        proof {
            use_type_invariant(&*self);
        }
        let nonce = fresh_nonce();
        let mut sealed = gcm_encrypt(&self.key, &nonce, plaintext);
        let ghost n = nonce@;
        let mut payload = nonce;
        payload.append(&mut sealed);
        let env = b64_encode(&payload);
        proof {
            assert(payload@ == n + gcm_seal(self.key_bytes(), n, plaintext@));
            assert(env@ == spec_envelope(self.key_bytes(), n, plaintext@));
        }
        Ok(env)
    }

    /// Opens an envelope: splits the first 12 bytes as nonce, decrypts
    /// and authenticates the rest. Every well-formed envelope yields
    /// exactly the payload it was made from; everything else is rejected,
    /// as `Malformed` when the text is not canonical base64 of at least a
    /// nonce, as `AuthenticationFailed` when the tag does not verify.
    pub fn decrypt(&self, envelope: &str) -> (r: Result<Vec<u8>, CryptoError>)
        ensures
            r matches Ok(pt) ==> pt@.len() <= 0x10_0000_0010 && exists|n: Seq<u8>|
                n.len() == 12 && envelope@ == spec_envelope(self.key_bytes(), n, pt@)
                    && gcm_seal(self.key_bytes(), n, pt@).len() == pt@.len() + 16,
            forall|n: Seq<u8>, pt: Seq<u8>|
                n.len() == 12 && pt.len() <= 0x10_0000_0010 && envelope@ == spec_envelope(
                    self.key_bytes(),
                    n,
                    pt,
                ) ==> (r matches Ok(p) && p@ == pt),
            (forall|bs: Seq<u8>| envelope@ != b64_encoding(bs)) ==> (r matches Err(e) && e
                == CryptoError::Malformed),
            forall|bs: Seq<u8>|
                envelope@ == b64_encoding(bs) && bs.len() < 12
                    ==> (r matches Err(e) && e == CryptoError::Malformed),
            forall|bs: Seq<u8>|
                envelope@ == b64_encoding(bs) && bs.len() >= 12 && (forall|pt: Seq<u8>|
                    pt.len() <= 0x10_0000_0010 ==> bs.skip(12) != gcm_seal(
                        self.key_bytes(),
                        bs.take(12),
                        pt,
                    )) ==> (r matches Err(e) && e == CryptoError::AuthenticationFailed),
    {
        proof {
            use_type_invariant(&*self);
        }
        let data = match b64_decode(envelope) {
            Some(d) => d,
            None => {
                return Err(CryptoError::Malformed);
            },
        };
        if data.len() < 12 {
            return Err(CryptoError::Malformed);
        }
        let mut nonce: Vec<u8> = Vec::new();
        let mut i: usize = 0;
        while i < 12
            invariant
                i <= 12,
                12 <= data@.len(),
                nonce@ == data@.take(i as int),
            decreases 12 - i,
        {
            nonce.push(data[i]);
            i = i + 1;
        }
        let mut sealed: Vec<u8> = Vec::new();
        let mut j: usize = 12;
        while j < data.len()
            invariant
                12 <= j <= data@.len(),
                nonce@ == data@.take(12),
                sealed@ == data@.subrange(12, j as int),
            decreases data@.len() - j,
        {
            sealed.push(data[j]);
            j = j + 1;
        }
        proof {
            assert(data@ == nonce@ + sealed@) by {
                assert(data@ =~= data@.take(12) + data@.subrange(12, data@.len() as int));
            }
        }
        match gcm_open(&self.key, &nonce, sealed.as_slice()) {
            Some(pt) => {
                proof {
                    assert(envelope@ == spec_envelope(self.key_bytes(), nonce@, pt@));
                    assert(forall|n: Seq<u8>, q: Seq<u8>|
                        n.len() == 12 && q.len() <= 0x10_0000_0010 && envelope@ == spec_envelope(
                            self.key_bytes(),
                            n,
                            q,
                        ) ==> n + gcm_seal(self.key_bytes(), n, q) == data@ && n == data@.take(12)
                            && gcm_seal(self.key_bytes(), n, q) == data@.skip(12)) by {
                        lemma_concat_split(data@);
                    }
                }
                Ok(pt)
            },
            None => {
                proof {
                    lemma_concat_split(data@);
                }
                Err(CryptoError::AuthenticationFailed)
            },
        }
    }
}

/// Any decomposition of `d` into a 12-byte piece and a remainder is the
/// canonical one: the piece is `d.take(12)` and the remainder `d.skip(12)`.
proof fn lemma_concat_split(d: Seq<u8>)
    requires
        d.len() >= 12,
    ensures
        forall|n: Seq<u8>, s: Seq<u8>|
            n.len() == 12 && d == n + s ==> n == d.take(12) && s == d.skip(12),
{
    assert forall|n: Seq<u8>, s: Seq<u8>| n.len() == 12 && d == n + s implies n == d.take(12) && s
        == d.skip(12) by {
        assert(n =~= d.take(12));
        assert(s =~= d.skip(12));
    }
}

} // verus!
