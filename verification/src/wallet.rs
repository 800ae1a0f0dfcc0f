//! The encrypted field store: the document-vault logic for one
//! (subject, field) slot.
//!
//! A write serializes to the document's canonical UTF-8 bytes, encrypts,
//! and only then may the envelope text travel to the external store —
//! plaintext never does. The store itself is an external collaborator:
//! the verified logic here produces the plan of what to persist
//! ([`WalletCards::insert`], [`WalletCards::write_for`]) and recovers a
//! document from what was fetched ([`WalletCards::get`]); the caller
//! carries the plan to the store with every value bound as a parameter.

use vstd::prelude::*;

use vstd::string::StrSliceExecFns;
use vstd::utf8::{decode_utf8, encode_utf8, valid_utf8};

use crate::crypto::{gcm_seal, spec_envelope, CryptoManager};
use crate::errors::{CryptoError, FieldError};
use crate::fields::{spec_field_of, FieldName};

verus! {

broadcast use vstd::utf8::group_utf8_lib;

/// What a successful write prepares: the resolved field and the envelope
/// text that may be persisted in its column.
pub struct PutPlan {
    pub field: FieldName,
    pub envelope: String,
}

/// The persistence operation an upsert resolves to once the store has
/// said whether the subject already has a record.
pub enum StoreWrite {
    /// Update the field's column on the subject's existing record.
    Update { field: FieldName, envelope: String },
    /// Insert a fresh record for the subject with the field populated.
    Insert { field: FieldName, envelope: String },
}

/// Relies on `String::from_utf8`, held to vstd's UTF-8 model: it accepts
/// exactly the valid encodings and decodes them.
#[verifier::external_body]
fn utf8_to_string(bytes: Vec<u8>) -> (r: Option<String>)
    ensures
        r matches Some(s) ==> valid_utf8(bytes@) && s@ == decode_utf8(bytes@),
        r is None ==> !valid_utf8(bytes@),
{
    String::from_utf8(bytes).ok()
}

/// The operations of one encrypted wallet slot.
pub struct WalletCards {}

impl WalletCards {
    /// First half of an upsert: resolves the field name against the
    /// closed enumeration — an unknown name fails here, before anything
    /// could reach the store — and encrypts the document's canonical
    /// bytes into an envelope.
    pub fn insert(crypto: &CryptoManager, field_name: &str, document: &str) -> (r: Result<
        PutPlan,
        FieldError,
    >)
        requires
            spec_field_of(field_name@) is Some ==> encode_utf8(document@).len()
                <= 0x10_0000_0000,
        ensures
            r matches Ok(plan) ==> spec_field_of(field_name@) == Some(plan.field) && (exists|
                n: Seq<u8>,
            |
                n.len() == 12 && plan.envelope@ == spec_envelope(
                    crypto.key_bytes(),
                    n,
                    encode_utf8(document@),
                )),
            r matches Err(e) ==> e matches FieldError::UnknownField && spec_field_of(field_name@)
                is None,
            spec_field_of(field_name@) is Some ==> r is Ok,
    {
        let field = match FieldName::parse(field_name) {
            Some(f) => f,
            None => {
                return Err(FieldError::UnknownField);
            },
        };
        let bytes = document.as_bytes_vec();
        let envelope = match crypto.encrypt(bytes.as_slice()) {
            Ok(e) => e,
            Err(ce) => {
                return Err(FieldError::Crypto(ce));
            },
        };
        Ok(PutPlan { field, envelope })
    }

    /// Second half of an upsert: the store has answered whether a record
    /// for the subject exists; an existing record gets its column
    /// updated, otherwise a fresh record is inserted.
    pub fn write_for(plan: PutPlan, record_exists: bool) -> (r: StoreWrite)
        ensures
            record_exists ==> r == (StoreWrite::Update {
                field: plan.field,
                envelope: plan.envelope,
            }),
            !record_exists ==> r == (StoreWrite::Insert {
                field: plan.field,
                envelope: plan.envelope,
            }),
    {
        if record_exists {
            StoreWrite::Update { field: plan.field, envelope: plan.envelope }
        } else {
            StoreWrite::Insert { field: plan.field, envelope: plan.envelope }
        }
    }

    /// The read side: turns what the store fetched for a (subject,
    /// field) slot back into the document, with each failure kept
    /// distinguishable. An empty slot, and only an empty slot, is
    /// `NotFound`; an envelope that is not canonical base64 of at least
    /// a nonce is `Crypto(Malformed)`; one that decodes but seals no
    /// payload is `Crypto(AuthenticationFailed)`; one sealing bytes that
    /// are no document text is `ParseFailure`. Every envelope this
    /// library made for a document hands back exactly that document.
    pub fn get(crypto: &CryptoManager, stored: Option<&String>) -> (r: Result<String, FieldError>)
        ensures
            stored is None ==> (r matches Err(e) && e == FieldError::NotFound),
            (r matches Err(e) && e == FieldError::NotFound) ==> stored is None,
            r matches Ok(doc) ==> (stored matches Some(env) && exists|n: Seq<u8>|
                n.len() == 12 && env@ == spec_envelope(
                    crypto.key_bytes(),
                    n,
                    encode_utf8(doc@),
                )),
            forall|n: Seq<u8>, d: Seq<char>|
                #![trigger spec_envelope(crypto.key_bytes(), n, encode_utf8(d))]
                (stored matches Some(env) && n.len() == 12 && encode_utf8(d).len()
                    <= 0x10_0000_0010 && env@ == spec_envelope(
                    crypto.key_bytes(),
                    n,
                    encode_utf8(d),
                )) ==> (r matches Ok(doc) && doc@ == d),
            (stored matches Some(env) && (forall|bs: Seq<u8>|
                env@ != crate::crypto::b64_encoding(bs))) ==> (r matches Err(e) && e
                == FieldError::Crypto(CryptoError::Malformed)),
            forall|bs: Seq<u8>|
                #![trigger crate::crypto::b64_encoding(bs)]
                (stored matches Some(env) && env@ == crate::crypto::b64_encoding(bs) && bs.len()
                    < 12) ==> (r matches Err(e) && e == FieldError::Crypto(CryptoError::Malformed)),
            forall|bs: Seq<u8>|
                #![trigger crate::crypto::b64_encoding(bs)]
                (stored matches Some(env) && env@ == crate::crypto::b64_encoding(bs) && bs.len()
                    >= 12 && (forall|pt: Seq<u8>|
                    pt.len() <= 0x10_0000_0010 ==> bs.skip(12) != gcm_seal(
                        crypto.key_bytes(),
                        bs.take(12),
                        pt,
                    ))) ==> (r matches Err(e) && e == FieldError::Crypto(
                    CryptoError::AuthenticationFailed,
                )),
            forall|n: Seq<u8>, pt: Seq<u8>|
                #![trigger spec_envelope(crypto.key_bytes(), n, pt)]
                (stored matches Some(env) && n.len() == 12 && pt.len() <= 0x10_0000_0010 && env@
                    == spec_envelope(crypto.key_bytes(), n, pt) && !valid_utf8(pt)) ==> (
                r matches Err(e) && e == FieldError::ParseFailure),
            r matches Err(e) ==> (e == FieldError::ParseFailure ==> exists|
                n: Seq<u8>,
                pt: Seq<u8>,
            |
                #![trigger spec_envelope(crypto.key_bytes(), n, pt)]
                stored matches Some(env) && n.len() == 12 && !valid_utf8(pt) && env@
                    == spec_envelope(crypto.key_bytes(), n, pt)),
    {
        let envelope = match stored {
            Some(e) => e,
            None => {
                return Err(FieldError::NotFound);
            },
        };
        let bytes = match crypto.decrypt(envelope.as_str()) {
            Ok(b) => b,
            Err(ce) => {
                return Err(FieldError::Crypto(ce));
            },
        };
        let ghost pt = bytes@;
        match utf8_to_string(bytes) {
            Some(doc) => {
                proof {
                    assert(encode_utf8(doc@) == pt);
                }
                Ok(doc)
            },
            None => Err(FieldError::ParseFailure),
        }
    }
}

} // verus!
