//! The signature verifier: rebuilds the signed message and checks the
//! request's Ed25519 signature before anything reads the body.
use vstd::prelude::*;

use crate::body::header_view;
use crate::error::IngressError;
use crate::hex::{decode_hex, fixed_bytes, hex_decoded, is_hex};
use crate::key::VerificationKey;

verus! {

/// Whether `signature` is a valid Ed25519 signature of `message` under the
/// 32-byte public key `key`.
pub uninterp spec fn ed25519_signature_valid(
    key: Seq<u8>,
    message: Seq<u8>,
    signature: Seq<u8>,
) -> bool;

/// Relies on `ed25519_compact::PublicKey::verify`: whether the 64-byte signature
/// verifies `message` under the key. The answer depends on the three byte
/// strings alone.
#[verifier::external_body]
fn ed25519_verify(key: &[u8; 32], message: &[u8], signature: &[u8; 64]) -> (r: bool)
    ensures
        r == ed25519_signature_valid(key@, message@, signature@),
{
    let public_key = ed25519_compact::PublicKey::new(*key);
    public_key.verify(message, &ed25519_compact::Signature::new(*signature)).is_ok()
}

/// The message that the sender signs: the timestamp header's bytes followed at
/// once by the raw body, with no separator.
pub open spec fn signed_message(timestamp: Seq<u8>, body: Seq<u8>) -> Seq<u8> {
    timestamp + body
}

/// Whether a signature header holds a hex-encoded signature that verifies the
/// timestamp and body under the key.
pub open spec fn signature_accepted(
    key: Seq<u8>,
    signature: Seq<u8>,
    timestamp: Seq<u8>,
    body: Seq<u8>,
) -> bool {
    &&& is_hex(signature)
    &&& signature.len() == 128
    &&& ed25519_signature_valid(key, signed_message(timestamp, body), hex_decoded(signature))
}

/// The verdict on a request's headers and body: both headers must be present,
/// and the signature must verify.
pub open spec fn verdict(
    key: Seq<u8>,
    signature: Option<Seq<u8>>,
    timestamp: Option<Seq<u8>>,
    body: Seq<u8>,
) -> Result<(), IngressError> {
    match (signature, timestamp) {
        (Some(s), Some(t)) => if signature_accepted(key, s, t, body) {
            Ok(())
        } else {
            Err(IngressError::InvalidHeader)
        },
        _ => Err(IngressError::MissingHeader),
    }
}

/// Builds the signed message from the timestamp header and the raw body.
pub fn build_signed_message(timestamp: &[u8], body: &[u8]) -> (r: Vec<u8>)
    ensures
        r@ == signed_message(timestamp@, body@),
{
    let mut message: Vec<u8> = Vec::new();
    message.extend_from_slice(timestamp);
    message.extend_from_slice(body);
    message
}

fn owned_bytes(s: &[u8]) -> (r: Vec<u8>)
    ensures
        r@ == s@,
{
    let mut v: Vec<u8> = Vec::new();
    v.extend_from_slice(s);
    v
}

/// The contents of a request whose signature has been verified.
pub struct VerifiedRequestView {
    pub signature: Seq<u8>,
    pub timestamp: Seq<u8>,
    pub body: Seq<u8>,
}

/// A request whose signature has been verified. Only `verify_request` makes one,
/// so whatever takes it runs after verification.
pub struct VerifiedRequest {
    signature: Vec<u8>,
    timestamp: Vec<u8>,
    body: Vec<u8>,
}

impl View for VerifiedRequest {
    type V = VerifiedRequestView;

    closed spec fn view(&self) -> VerifiedRequestView {
        VerifiedRequestView {
            signature: self.signature@,
            timestamp: self.timestamp@,
            body: self.body@,
        }
    }
}

impl VerifiedRequest {
    /// The signature header, as received.
    pub fn signature(&self) -> (r: &[u8])
        ensures
            r@ == self@.signature,
    {
        self.signature.as_slice()
    }

    /// The timestamp header, as received.
    pub fn timestamp(&self) -> (r: &[u8])
        ensures
            r@ == self@.timestamp,
    {
        self.timestamp.as_slice()
    }

    /// The raw body, unaltered.
    pub fn body(&self) -> (r: &[u8])
        ensures
            r@ == self@.body,
    {
        self.body.as_slice()
    }
}

/// Verifies a request's signature over its timestamp and collected body; on
/// success the request is handed back, unaltered, as verified.
pub fn verify_request(
    key: &VerificationKey,
    signature: Option<&[u8]>,
    timestamp: Option<&[u8]>,
    body: Vec<u8>,
) -> (r: Result<VerifiedRequest, IngressError>)
    ensures
        match r {
            Ok(v) => {
                &&& verdict(key@, header_view(signature), header_view(timestamp), body@) == Ok::<
                    (),
                    IngressError,
                >(())
                &&& header_view(signature) == Some(v@.signature)
                &&& header_view(timestamp) == Some(v@.timestamp)
                &&& v@.body == body@
            },
            Err(e) => verdict(key@, header_view(signature), header_view(timestamp), body@)
                == Err::<(), IngressError>(e),
        },
{
    if signature.is_none() || timestamp.is_none() {
        return Err(IngressError::MissingHeader);
    }
    let signature = signature.unwrap();
    let timestamp = timestamp.unwrap();
    if signature.len() != 128 {
        return Err(IngressError::InvalidHeader);
    }
    let decoded = decode_hex(signature);
    if decoded.is_none() {
        return Err(IngressError::InvalidHeader);
    }
    let raw = decoded.unwrap();
    let signature_bytes: [u8; 64] = fixed_bytes(&raw);
    let message = build_signed_message(timestamp, body.as_slice());
    let key_bytes = key.to_bytes();
    if !ed25519_verify(&key_bytes, message.as_slice(), &signature_bytes) {
        return Err(IngressError::InvalidHeader);
    }
    Ok(
        VerifiedRequest {
            signature: owned_bytes(signature),
            timestamp: owned_bytes(timestamp),
            body,
        },
    )
}

} // verus!
