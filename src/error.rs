//! The ways in which handling one request can fail.
use vstd::prelude::*;

verus! {

/// A request-scoped failure. None of these is fatal to the process.
#[derive(Debug, Clone, Copy, PartialEq, Eq, Structural)]
pub enum IngressError {
    /// The signature or the timestamp header is absent.
    MissingHeader,
    /// The declared body length is absent, unparsable, zero or above the cap.
    MissingBody,
    /// The body stream failed, or ended short of or beyond its declared length.
    TransportError,
    /// The signature header is not a hex-encoded signature, or it does not verify.
    InvalidHeader,
    /// The verified body is not an interaction payload.
    InvalidBody,
    /// The interaction kind is recognised but not handled.
    Unsupported,
}

impl IngressError {
    /// Whether the failure is the caller's fault (a rejected request) rather than
    /// an unhandled, well-formed interaction.
    pub fn is_bad_request(&self) -> (r: bool)
        ensures
            r == !(*self is Unsupported),
    {
        !matches!(self, IngressError::Unsupported)
    }

    /// A short description of the failure, for internal logs.
    pub fn message(&self) -> (r: &'static str) {
        match self {
            IngressError::MissingHeader => "missing one of the two required signature headers",
            IngressError::MissingBody => "missing body",
            IngressError::TransportError => "the body could not be read in full",
            IngressError::InvalidHeader => "invalid Ed25519 signature",
            IngressError::InvalidBody => "invalid JSON body",
            IngressError::Unsupported => "interaction type not supported",
        }
    }
}

} // verus!
