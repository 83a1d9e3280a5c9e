//! The whole request pipeline, in its fixed order: collect the body, verify
//! the signature, decode, dispatch. No stage runs unless the one before it
//! succeeded.
use vstd::prelude::*;

use crate::body::{
    accepted_length, collect_body, collected, concat_chunks, decimal_value, has_fault,
    header_view, is_decimal,
    TransportFault,
};
use crate::error::IngressError;
use crate::hex::{hex_decoded, is_hex};
use crate::interaction::{
    decode_interaction, decoded, dispatch, dispatched, Interaction, InteractionResponse,
};
use crate::key::VerificationKey;
use crate::signature::{
    ed25519_signature_valid, signature_accepted, signed_message, verdict, verify_request,
};

verus! {

/// The outcome of one request: the first stage that fails decides the error.
pub open spec fn outcome(
    key: Seq<u8>,
    content_length: Option<Seq<u8>>,
    chunks: Seq<Result<Vec<u8>, TransportFault>>,
    signature: Option<Seq<u8>>,
    timestamp: Option<Seq<u8>>,
) -> Result<InteractionResponse, IngressError> {
    match collected(content_length, chunks) {
        Err(e) => Err(e),
        Ok(body) => match verdict(key, signature, timestamp, body) {
            Err(e) => Err(e),
            Ok(_) => match decoded(body) {
                Err(e) => Err(e),
                Ok(interaction) => dispatched(interaction),
            },
        },
    }
}

/// Handles one request: the declared body length, the body stream as the
/// transport delivered it, and the two signature headers.
pub fn handle_request(
    key: &VerificationKey,
    content_length: Option<&[u8]>,
    chunks: &Vec<Result<Vec<u8>, TransportFault>>,
    signature: Option<&[u8]>,
    timestamp: Option<&[u8]>,
) -> (r: Result<InteractionResponse, IngressError>)
    ensures
        r == outcome(
            key@,
            header_view(content_length),
            chunks@,
            header_view(signature),
            header_view(timestamp),
        ),
{
    let body = match collect_body(content_length, chunks) {
        Ok(b) => b,
        Err(e) => {
            return Err(e);
        },
    };
    let request = match verify_request(key, signature, timestamp, body) {
        Ok(v) => v,
        Err(e) => {
            return Err(e);
        },
    };
    let interaction = match decode_interaction(&request) {
        Ok(i) => i,
        Err(e) => {
            return Err(e);
        },
    };
    dispatch(&interaction)
}

/// A request whose body is collected, whose signature header is the hex
/// encoding of a valid signature of `timestamp || body`, and whose body decodes
/// as a ping, is answered with a pong.
pub proof fn lemma_signed_ping_gets_pong(
    key: Seq<u8>,
    content_length: Option<Seq<u8>>,
    chunks: Seq<Result<Vec<u8>, TransportFault>>,
    signature: Seq<u8>,
    timestamp: Seq<u8>,
    body: Seq<u8>,
)
    requires
        collected(content_length, chunks) == Ok::<Seq<u8>, IngressError>(body),
        is_hex(signature),
        signature.len() == 128,
        ed25519_signature_valid(key, signed_message(timestamp, body), hex_decoded(signature)),
        decoded(body) == Ok::<Interaction, IngressError>(Interaction::Ping),
    ensures
        outcome(key, content_length, chunks, Some(signature), Some(timestamp)) == Ok::<
            InteractionResponse,
            IngressError,
        >(InteractionResponse::Pong),
{
}

/// Once the body is collected, a request that lacks either signature header is
/// rejected as `MissingHeader`, and one whose signature does not verify as
/// `InvalidHeader`, whatever the body holds: the body is never decoded.
pub proof fn lemma_bad_signature_never_decoded(
    key: Seq<u8>,
    content_length: Option<Seq<u8>>,
    chunks: Seq<Result<Vec<u8>, TransportFault>>,
    signature: Option<Seq<u8>>,
    timestamp: Option<Seq<u8>>,
)
    requires
        collected(content_length, chunks) is Ok,
    ensures
        (signature is None || timestamp is None) ==> outcome(key, content_length, chunks, signature, timestamp)
            == Err::<InteractionResponse, IngressError>(IngressError::MissingHeader),
        (signature is Some && timestamp is Some && !signature_accepted(
            key,
            signature->0,
            timestamp->0,
            collected(content_length, chunks)->Ok_0,
        )) ==> outcome(key, content_length, chunks, signature, timestamp) == Err::<
            InteractionResponse,
            IngressError,
        >(IngressError::InvalidHeader),
{
}

/// A request with no `Content-Length`, or one that declares zero bytes, fails
/// with `MissingBody`, whatever its headers and stream hold.
pub proof fn lemma_no_length_is_missing_body(
    key: Seq<u8>,
    content_length: Option<Seq<u8>>,
    chunks: Seq<Result<Vec<u8>, TransportFault>>,
    signature: Option<Seq<u8>>,
    timestamp: Option<Seq<u8>>,
)
    requires
        content_length is None || (is_decimal(content_length->0) && decimal_value(
            content_length->0,
        ) == 0),
    ensures
        outcome(key, content_length, chunks, signature, timestamp) == Err::<
            InteractionResponse,
            IngressError,
        >(IngressError::MissingBody),
{
    assert(accepted_length(content_length) is None);
}

/// Two requests with the same key, headers and body stream have the same
/// outcome: handling a request consumes nothing that a second one needs.
pub proof fn lemma_same_request_same_outcome(
    key: Seq<u8>,
    content_length: Option<Seq<u8>>,
    chunks: Seq<Result<Vec<u8>, TransportFault>>,
    signature: Option<Seq<u8>>,
    timestamp: Option<Seq<u8>>,
    chunks_again: Seq<Result<Vec<u8>, TransportFault>>,
)
    requires
        chunks_again.len() == chunks.len(),
        forall|i: int|
            0 <= i < chunks.len() ==> match (#[trigger] chunks[i], chunks_again[i]) {
                (Ok(a), Ok(b)) => a@ == b@,
                (Err(_), Err(_)) => true,
                _ => false,
            },
    ensures
        outcome(key, content_length, chunks, signature, timestamp) == outcome(
            key,
            content_length,
            chunks_again,
            signature,
            timestamp,
        ),
{
    lemma_same_stream_same_body(chunks, chunks_again);
    assert(has_fault(chunks) == has_fault(chunks_again)) by {
        if has_fault(chunks) {
            let i = choose|i: int| 0 <= i < chunks.len() && (#[trigger] chunks[i]) is Err;
            assert(chunks_again[i] is Err);
        }
        if has_fault(chunks_again) {
            let i = choose|i: int| 0 <= i < chunks_again.len() && (#[trigger] chunks_again[i]) is Err;
            assert(chunks[i] is Err);
        }
    }
}

proof fn lemma_same_stream_same_body(
    chunks: Seq<Result<Vec<u8>, TransportFault>>,
    chunks_again: Seq<Result<Vec<u8>, TransportFault>>,
)
    requires
        chunks_again.len() == chunks.len(),
        forall|i: int|
            0 <= i < chunks.len() ==> match (#[trigger] chunks[i], chunks_again[i]) {
                (Ok(a), Ok(b)) => a@ == b@,
                (Err(_), Err(_)) => true,
                _ => false,
            },
    ensures
        concat_chunks(chunks) == concat_chunks(chunks_again),
    decreases chunks.len(),
{
    if chunks.len() > 0 {
        let n = chunks.len() - 1;
        assert(chunks[n] == chunks[n as int]);
        lemma_same_stream_same_body(chunks.drop_last(), chunks_again.drop_last());
    }
}

} // verus!
