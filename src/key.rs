//! The key store: the process-wide Ed25519 public key, loaded once.
use vstd::prelude::*;

use crate::hex::{decode_hex, fixed_bytes, hex_decoded, is_hex};

verus! {

/// Whether 32 bytes encode a curve point usable as an Ed25519 public key.
pub uninterp spec fn ed25519_point_valid(key: Seq<u8>) -> bool;

/// Relies on `ed25519_compact::PublicKey::validate`: whether the bytes are the
/// canonical encoding of a curve point that has no small order. The answer
/// depends on the bytes alone.
#[verifier::external_body]
fn public_key_is_valid(key: &[u8; 32]) -> (r: bool)
    ensures
        r == ed25519_point_valid(key@),
{
    ed25519_compact::PublicKey::new(*key).validate().is_ok()
}

/// Why a configured key was not accepted.
#[derive(Debug, Clone, Copy, PartialEq, Eq, Structural)]
pub enum KeyError {
    /// No key is configured.
    Absent,
    /// The configured key is not 64 hexadecimal digits.
    Malformed,
    /// The configured bytes are not a usable Ed25519 public key.
    InvalidPoint,
}

/// A configured key text that spells 32 bytes.
pub open spec fn is_key_text(text: Seq<u8>) -> bool {
    is_hex(text) && text.len() == 64
}

/// What loading a key from its hexadecimal text yields.
pub open spec fn key_from_text(text: Seq<u8>) -> Result<Seq<u8>, KeyError> {
    if !is_key_text(text) {
        Err(KeyError::Malformed)
    } else if !ed25519_point_valid(hex_decoded(text)) {
        Err(KeyError::InvalidPoint)
    } else {
        Ok(hex_decoded(text))
    }
}

/// An Ed25519 public key; immutable once made.
#[derive(Debug, Clone, Copy)]
pub struct VerificationKey {
    bytes: [u8; 32],
}

impl View for VerificationKey {
    type V = Seq<u8>;

    closed spec fn view(&self) -> Seq<u8> {
        self.bytes@
    }
}

impl VerificationKey {
    /// Reads a key from 64 hexadecimal digits, checking that it is a usable point.
    pub fn from_hex(text: &[u8]) -> (r: Result<VerificationKey, KeyError>)
        ensures
            match r {
                Ok(k) => key_from_text(text@) == Ok::<Seq<u8>, KeyError>(k@),
                Err(e) => key_from_text(text@) == Err::<Seq<u8>, KeyError>(e),
            },
    {
        if text.len() != 64 {
            return Err(KeyError::Malformed);
        }
        let decoded = decode_hex(text);
        if decoded.is_none() {
            return Err(KeyError::Malformed);
        }
        let v = decoded.unwrap();
        let bytes: [u8; 32] = fixed_bytes(&v);
        if !public_key_is_valid(&bytes) {
            return Err(KeyError::InvalidPoint);
        }
        Ok(VerificationKey { bytes })
    }

    /// The key's 32 bytes.
    pub fn to_bytes(&self) -> (r: [u8; 32])
        ensures
            r@ == self@,
    {
        self.bytes
    }
}

/// Holds the key that every request is verified against.
pub struct KeyStore {
    current: VerificationKey,
}

impl View for KeyStore {
    type V = Seq<u8>;

    closed spec fn view(&self) -> Seq<u8> {
        self.current@
    }
}

impl KeyStore {
    /// Loads the store from the configured key text, if any; fails on an absent
    /// or malformed key, so that a bad configuration is found at startup.
    pub fn load(config: Option<&[u8]>) -> (r: Result<KeyStore, KeyError>)
        ensures
            match config {
                None => r == Err::<KeyStore, KeyError>(KeyError::Absent),
                Some(text) => match r {
                    Ok(s) => key_from_text(text@) == Ok::<Seq<u8>, KeyError>(s@),
                    Err(e) => key_from_text(text@) == Err::<Seq<u8>, KeyError>(e),
                },
            },
    {
        match config {
            None => Err(KeyError::Absent),
            Some(text) => match VerificationKey::from_hex(text) {
                Ok(k) => Ok(KeyStore { current: k }),
                Err(e) => Err(e),
            },
        }
    }

    /// The key in force.
    pub fn current_key(&self) -> (r: VerificationKey)
        ensures
            r@ == self@,
    {
        self.current
    }
}

} // verus!
