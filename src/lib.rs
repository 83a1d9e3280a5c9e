//! Authenticated ingress for signed interaction webhooks: collects the raw
//! body once, checks its Ed25519 signature over `timestamp || body`, and only
//! then decodes and dispatches the interaction.
pub mod body;
pub mod cookie;
pub mod error;
pub mod hex;
pub mod interaction;
pub mod key;
pub mod pipeline;
pub mod signature;

pub use body::{collect_body, content_length, TransportFault, MAX_BODY_LEN};
pub use cookie::Cookie;
pub use error::IngressError;
pub use interaction::{
    decode_interaction, dispatch, interaction_from_type, Interaction, InteractionResponse,
};
pub use key::{KeyError, KeyStore, VerificationKey};
pub use pipeline::handle_request;
pub use signature::{build_signed_message, verify_request, VerifiedRequest};
