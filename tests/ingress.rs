use ed25519_compact::{KeyPair, Seed};
use interaction_ingress::hex::decode_hex;
use interaction_ingress::{
    build_signed_message, collect_body, content_length, decode_interaction, dispatch,
    handle_request, interaction_from_type, verify_request, Cookie, IngressError, Interaction,
    InteractionResponse, KeyError, KeyStore, TransportFault, VerificationKey, MAX_BODY_LEN,
};

const TIMESTAMP: &[u8] = b"1700000000";
const PING_BODY: &[u8] = b"{\"type\":1}";
const COMMAND_BODY: &[u8] = b"{\"type\":2,\"data\":{\"id\":\"1\",\"name\":\"roll\",\"type\":1}}";

fn to_hex(bytes: &[u8]) -> Vec<u8> {
    let digits = b"0123456789abcdef";
    let mut out = Vec::new();
    for b in bytes {
        out.push(digits[(b >> 4) as usize]);
        out.push(digits[(b & 15) as usize]);
    }
    out
}

fn key_pair() -> KeyPair {
    KeyPair::from_seed(Seed::new([7u8; 32]))
}

fn verification_key(kp: &KeyPair) -> VerificationKey {
    VerificationKey::from_hex(&to_hex(&kp.pk[..])).unwrap()
}

fn sign_hex(kp: &KeyPair, message: &[u8]) -> Vec<u8> {
    to_hex(&kp.sk.sign(message, None)[..])
}

fn signed_over(kp: &KeyPair, timestamp: &[u8], body: &[u8]) -> Vec<u8> {
    let mut message = timestamp.to_vec();
    message.extend_from_slice(body);
    sign_hex(kp, &message)
}

fn length_of(body: &[u8]) -> Vec<u8> {
    body.len().to_string().into_bytes()
}

fn one_chunk(body: &[u8]) -> Vec<Result<Vec<u8>, TransportFault>> {
    vec![Ok(body.to_vec())]
}

fn run(
    key: &VerificationKey,
    body: &[u8],
    signature: Option<&[u8]>,
    timestamp: Option<&[u8]>,
) -> Result<InteractionResponse, IngressError> {
    let length = length_of(body);
    handle_request(key, Some(&length), &one_chunk(body), signature, timestamp)
}

#[test]
fn signed_ping_is_answered_with_pong() {
    let kp = key_pair();
    let key = verification_key(&kp);
    let sig = signed_over(&kp, TIMESTAMP, PING_BODY);
    let verified = verify_request(&key, Some(&sig), Some(TIMESTAMP), PING_BODY.to_vec()).unwrap();
    assert_eq!(verified.body(), PING_BODY);
    assert_eq!(verified.timestamp(), TIMESTAMP);
    assert_eq!(verified.signature(), &sig[..]);
    let interaction = decode_interaction(&verified).unwrap();
    assert_eq!(interaction, Interaction::Ping);
    let response = dispatch(&interaction).unwrap();
    assert_eq!(response, InteractionResponse::Pong);
    assert_eq!(response.kind_code(), 1);
    assert_eq!(run(&key, PING_BODY, Some(&sig), Some(TIMESTAMP)), Ok(InteractionResponse::Pong));
}

#[test]
fn uppercase_signature_hex_is_accepted() {
    let kp = key_pair();
    let key = verification_key(&kp);
    let sig = signed_over(&kp, TIMESTAMP, PING_BODY).to_ascii_uppercase();
    assert_eq!(run(&key, PING_BODY, Some(&sig), Some(TIMESTAMP)), Ok(InteractionResponse::Pong));
}

#[test]
fn signature_over_body_alone_is_rejected() {
    let kp = key_pair();
    let key = verification_key(&kp);
    let sig = sign_hex(&kp, PING_BODY);
    assert_eq!(run(&key, PING_BODY, Some(&sig), Some(TIMESTAMP)), Err(IngressError::InvalidHeader));
}

#[test]
fn command_interaction_is_unsupported() {
    let kp = key_pair();
    let key = verification_key(&kp);
    let sig = signed_over(&kp, TIMESTAMP, COMMAND_BODY);
    let verified = verify_request(&key, Some(&sig), Some(TIMESTAMP), COMMAND_BODY.to_vec()).unwrap();
    let interaction = decode_interaction(&verified).unwrap();
    assert_eq!(interaction, Interaction::Other(2));
    assert_eq!(dispatch(&interaction), Err(IngressError::Unsupported));
    assert_eq!(run(&key, COMMAND_BODY, Some(&sig), Some(TIMESTAMP)), Err(IngressError::Unsupported));
    assert!(!IngressError::Unsupported.is_bad_request());
}

#[test]
fn flipped_signature_bit_is_rejected() {
    let kp = key_pair();
    let key = verification_key(&kp);
    let raw = kp.sk.sign([TIMESTAMP, PING_BODY].concat(), None);
    for byte in [0usize, 31, 32, 63] {
        for bit in [0u8, 7] {
            let mut flipped = raw.to_vec();
            flipped[byte] ^= 1 << bit;
            let sig = to_hex(&flipped);
            assert_eq!(
                run(&key, PING_BODY, Some(&sig), Some(TIMESTAMP)),
                Err(IngressError::InvalidHeader)
            );
        }
    }
    let mut header = to_hex(&raw[..]);
    header[0] ^= 0x40;
    assert_eq!(run(&key, PING_BODY, Some(&header), Some(TIMESTAMP)), Err(IngressError::InvalidHeader));
}

#[test]
fn garbage_body_with_bad_signature_is_never_decoded() {
    let kp = key_pair();
    let key = verification_key(&kp);
    let body: &[u8] = b"not json at all";
    let sig = sign_hex(&kp, b"something else");
    assert_eq!(run(&key, body, Some(&sig), Some(TIMESTAMP)), Err(IngressError::InvalidHeader));
    assert_eq!(run(&key, body, Some(b"zz"), Some(TIMESTAMP)), Err(IngressError::InvalidHeader));
    assert_eq!(run(&key, body, None, Some(TIMESTAMP)), Err(IngressError::MissingHeader));
}

#[test]
fn missing_headers_are_reported() {
    let kp = key_pair();
    let key = verification_key(&kp);
    let sig = signed_over(&kp, TIMESTAMP, PING_BODY);
    assert_eq!(run(&key, PING_BODY, None, Some(TIMESTAMP)), Err(IngressError::MissingHeader));
    assert_eq!(run(&key, PING_BODY, Some(&sig), None), Err(IngressError::MissingHeader));
    assert_eq!(run(&key, PING_BODY, None, None), Err(IngressError::MissingHeader));
}

#[test]
fn signature_of_wrong_length_is_rejected() {
    let kp = key_pair();
    let key = verification_key(&kp);
    let sig = signed_over(&kp, TIMESTAMP, PING_BODY);
    assert_eq!(run(&key, PING_BODY, Some(&sig[..126]), Some(TIMESTAMP)), Err(IngressError::InvalidHeader));
    let mut longer = sig.clone();
    longer.extend_from_slice(b"00");
    assert_eq!(run(&key, PING_BODY, Some(&longer), Some(TIMESTAMP)), Err(IngressError::InvalidHeader));
}

#[test]
fn zero_or_missing_length_is_missing_body() {
    let kp = key_pair();
    let key = verification_key(&kp);
    let sig = signed_over(&kp, TIMESTAMP, PING_BODY);
    let chunks = one_chunk(PING_BODY);
    assert_eq!(
        handle_request(&key, Some(b"0"), &chunks, Some(&sig), Some(TIMESTAMP)),
        Err(IngressError::MissingBody)
    );
    assert_eq!(
        handle_request(&key, None, &chunks, Some(&sig), Some(TIMESTAMP)),
        Err(IngressError::MissingBody)
    );
    assert_eq!(handle_request(&key, None, &chunks, None, None), Err(IngressError::MissingBody));
    assert_eq!(
        handle_request(&key, Some(b"ten"), &chunks, Some(&sig), Some(TIMESTAMP)),
        Err(IngressError::MissingBody)
    );
}

#[test]
fn content_length_values() {
    assert_eq!(content_length(Some(b"10")), Some(10));
    assert_eq!(content_length(Some(b"007")), Some(7));
    assert_eq!(content_length(Some(b"8388608")), Some(MAX_BODY_LEN));
    assert_eq!(content_length(Some(b"8388609")), None);
    assert_eq!(content_length(Some(b"99999999999999999999999")), None);
    assert_eq!(content_length(Some(b"0")), None);
    assert_eq!(content_length(Some(b"")), None);
    assert_eq!(content_length(Some(b"+5")), None);
    assert_eq!(content_length(Some(b"1 ")), None);
    assert_eq!(content_length(None), None);
}

#[test]
fn body_is_gathered_from_chunks() {
    let chunks = vec![Ok(b"{\"ty".to_vec()), Ok(Vec::new()), Ok(b"pe\":1}".to_vec())];
    assert_eq!(collect_body(Some(b"10"), &chunks), Ok(PING_BODY.to_vec()));
}

#[test]
fn broken_or_wrong_sized_stream_is_transport_error() {
    let faulty = vec![Ok(b"{\"ty".to_vec()), Err(TransportFault), Ok(b"pe\":1}".to_vec())];
    assert_eq!(collect_body(Some(b"10"), &faulty), Err(IngressError::TransportError));
    let short = vec![Ok(b"{\"ty".to_vec())];
    assert_eq!(collect_body(Some(b"10"), &short), Err(IngressError::TransportError));
    let long = one_chunk(PING_BODY);
    assert_eq!(collect_body(Some(b"9"), &long), Err(IngressError::TransportError));
    assert_eq!(collect_body(Some(b"0"), &faulty), Err(IngressError::MissingBody));
}

#[test]
fn identical_requests_give_identical_results() {
    let kp = key_pair();
    let key = verification_key(&kp);
    let sig = signed_over(&kp, TIMESTAMP, PING_BODY);
    let first = run(&key, PING_BODY, Some(&sig), Some(TIMESTAMP));
    let second = run(&key, PING_BODY, Some(&sig), Some(TIMESTAMP));
    assert_eq!(first, second);
    assert_eq!(first, Ok(InteractionResponse::Pong));
    let bad = sign_hex(&kp, PING_BODY);
    assert_eq!(
        run(&key, PING_BODY, Some(&bad), Some(TIMESTAMP)),
        run(&key, PING_BODY, Some(&bad), Some(TIMESTAMP))
    );
}

#[test]
fn verified_body_that_is_not_an_interaction_is_invalid() {
    let kp = key_pair();
    let key = verification_key(&kp);
    for body in [&b"not json"[..], b"{\"type\":\"1\"}", b"[1]", b"{\"kind\":1}", b"{\"type\":300}"] {
        let sig = signed_over(&kp, TIMESTAMP, body);
        assert_eq!(run(&key, body, Some(&sig), Some(TIMESTAMP)), Err(IngressError::InvalidBody));
    }
}

#[test]
fn type_member_maps_to_interaction() {
    assert_eq!(interaction_from_type(Some(1)), Ok(Interaction::Ping));
    assert_eq!(interaction_from_type(Some(0)), Ok(Interaction::Other(0)));
    assert_eq!(interaction_from_type(Some(5)), Ok(Interaction::Other(5)));
    assert_eq!(interaction_from_type(Some(255)), Ok(Interaction::Other(255)));
    assert_eq!(interaction_from_type(Some(256)), Err(IngressError::InvalidBody));
    assert_eq!(interaction_from_type(None), Err(IngressError::InvalidBody));
}

#[test]
fn signed_message_is_timestamp_then_body() {
    assert_eq!(build_signed_message(b"123", b"{}"), b"123{}".to_vec());
    assert_eq!(build_signed_message(b"", b""), Vec::<u8>::new());
}

#[test]
fn hex_decoding() {
    assert_eq!(decode_hex(b"0aFf10"), Some(vec![10, 255, 16]));
    assert_eq!(decode_hex(b""), Some(Vec::new()));
    assert_eq!(decode_hex(b"abc"), None);
    assert_eq!(decode_hex(b"0g"), None);
}

#[test]
fn keys_are_checked_when_loaded() {
    let kp = key_pair();
    let text = to_hex(&kp.pk[..]);
    let key = VerificationKey::from_hex(&text).unwrap();
    assert_eq!(key.to_bytes(), *kp.pk);
    assert_eq!(VerificationKey::from_hex(&text[..62]).err(), Some(KeyError::Malformed));
    let mut bad_digit = text.clone();
    bad_digit[5] = b'x';
    assert_eq!(VerificationKey::from_hex(&bad_digit).err(), Some(KeyError::Malformed));
    assert_eq!(VerificationKey::from_hex(&[b'0'; 64]).err(), Some(KeyError::InvalidPoint));
    assert_eq!(VerificationKey::from_hex(&[b'f'; 64]).err(), Some(KeyError::InvalidPoint));
    assert_eq!(KeyStore::load(None).err(), Some(KeyError::Absent));
    let store = KeyStore::load(Some(&text)).unwrap();
    assert_eq!(store.current_key().to_bytes(), *kp.pk);
}

#[test]
fn error_kinds() {
    assert!(IngressError::MissingHeader.is_bad_request());
    assert!(IngressError::InvalidBody.is_bad_request());
    assert_eq!(IngressError::MissingBody.message(), "missing body");
}

#[test]
fn new_cookie_has_no_clicks() {
    let a = Cookie::new();
    let b = Cookie::new();
    assert_eq!(a.clicks, 0);
    assert_ne!(a.id, b.id);
}
