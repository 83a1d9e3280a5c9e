//! The structured decoder and the interaction dispatcher.
use vstd::prelude::*;

use crate::error::IngressError;
use crate::signature::VerifiedRequest;

verus! {

/// The numeric kind of a ping interaction.
pub const PING_TYPE: u8 = 1;

/// The numeric kind of a pong response.
pub const PONG_TYPE: u8 = 1;

/// An authenticated interaction, tagged by kind.
#[derive(Debug, Clone, Copy, PartialEq, Eq, Structural)]
pub enum Interaction {
    /// The handshake: no payload.
    Ping,
    /// Any kind that the dispatcher does not handle, with its numeric kind.
    Other(u8),
}

/// The response to an interaction.
#[derive(Debug, Clone, Copy, PartialEq, Eq, Structural)]
pub enum InteractionResponse {
    /// The acknowledgement of a ping: no payload.
    Pong,
}

impl InteractionResponse {
    /// The numeric kind under which the response is sent.
    pub fn kind_code(&self) -> (r: u8)
        ensures
            *self is Pong ==> r == PONG_TYPE,
    {
        match self {
            InteractionResponse::Pong => PONG_TYPE,
        }
    }
}

/// The `type` member of a JSON object, where the bytes are a JSON object
/// with such a member and it is an unsigned integer.
pub uninterp spec fn json_type_member(body: Seq<u8>) -> Option<u64>;

/// Relies on `serde_json::from_slice`, parsing the body as a JSON value, and on
/// `Value::get` and `Value::as_u64` to read its `type` member. The answer
/// depends on the bytes alone.
#[verifier::external_body]
fn read_type_member(body: &[u8]) -> (r: Option<u64>)
    ensures
        r == json_type_member(body@),
{
    let value = serde_json::from_slice::<serde_json::Value>(body).ok()?;
    value.get("type").and_then(serde_json::Value::as_u64)
}

/// The interaction that a payload's `type` member names: a kind must fit in a
/// byte, and kind 1 is a ping.
pub open spec fn interaction_of_type(kind: Option<u64>) -> Result<Interaction, IngressError> {
    match kind {
        Some(n) => if n == PING_TYPE {
            Ok(Interaction::Ping)
        } else if n <= 255 {
            Ok(Interaction::Other(n as u8))
        } else {
            Err(IngressError::InvalidBody)
        },
        None => Err(IngressError::InvalidBody),
    }
}

/// What decoding a verified body yields.
pub open spec fn decoded(body: Seq<u8>) -> Result<Interaction, IngressError> {
    interaction_of_type(json_type_member(body))
}

/// What dispatching an interaction yields: a ping gets a pong, and every other
/// kind is reported as unsupported.
pub open spec fn dispatched(interaction: Interaction) -> Result<InteractionResponse, IngressError> {
    match interaction {
        Interaction::Ping => Ok(InteractionResponse::Pong),
        Interaction::Other(_) => Err(IngressError::Unsupported),
    }
}

/// Maps a payload's `type` member, if it has one, to the interaction it names.
pub fn interaction_from_type(kind: Option<u64>) -> (r: Result<Interaction, IngressError>)
    ensures
        r == interaction_of_type(kind),
{
    match kind {
        Some(n) => if n == PING_TYPE as u64 {
            Ok(Interaction::Ping)
        } else if n <= 255 {
            Ok(Interaction::Other(n as u8))
        } else {
            Err(IngressError::InvalidBody)
        },
        None => Err(IngressError::InvalidBody),
    }
}

/// Decodes the body of a verified request as an interaction.
pub fn decode_interaction(request: &VerifiedRequest) -> (r: Result<Interaction, IngressError>)
    ensures
        r == decoded(request@.body),
{
    interaction_from_type(read_type_member(request.body()))
}

/// Answers an interaction.
pub fn dispatch(interaction: &Interaction) -> (r: Result<InteractionResponse, IngressError>)
    ensures
        r == dispatched(*interaction),
{
    match interaction {
        Interaction::Ping => Ok(InteractionResponse::Pong),
        Interaction::Other(_) => Err(IngressError::Unsupported),
    }
}

} // verus!
