//! The raw body collector: reads the declared length and gathers the body's
//! chunks, exactly once, into one owned buffer.
use vstd::prelude::*;

use crate::error::IngressError;

verus! {

/// The largest body accepted, in bytes (8 MiB).
pub const MAX_BODY_LEN: usize = 8388608;

/// A read error reported by the transport while the body was streamed.
#[derive(Debug, Clone, Copy, PartialEq, Eq, Structural)]
pub struct TransportFault;

/// One or more ASCII decimal digits.
pub open spec fn is_decimal(s: Seq<u8>) -> bool {
    &&& s.len() > 0
    &&& forall|i: int| 0 <= i < s.len() ==> 0x30 <= #[trigger] s[i] && s[i] <= 0x39
}

/// The number that a string of decimal digits spells.
pub open spec fn decimal_value(s: Seq<u8>) -> nat
    decreases s.len(),
{
    if s.len() == 0 {
        0
    } else {
        decimal_value(s.drop_last()) * 10 + (s.last() - 0x30) as nat
    }
}

/// The bytes of a header value, where the header is present.
pub open spec fn header_view(h: Option<&[u8]>) -> Option<Seq<u8>> {
    match h {
        Some(v) => Some(v@),
        None => None,
    }
}

/// The body length that a `Content-Length` value declares, where it is one
/// that is accepted: present, decimal, above zero and at most the cap.
pub open spec fn accepted_length(h: Option<Seq<u8>>) -> Option<nat> {
    match h {
        Some(s) => if is_decimal(s) && 0 < decimal_value(s) <= MAX_BODY_LEN {
            Some(decimal_value(s))
        } else {
            None
        },
        None => None,
    }
}

/// Whether any chunk of the stream is a read error.
pub open spec fn has_fault(chunks: Seq<Result<Vec<u8>, TransportFault>>) -> bool {
    exists|i: int| 0 <= i < chunks.len() && (#[trigger] chunks[i]) is Err
}

/// The bytes of the stream's chunks, in order; read errors contribute nothing.
pub open spec fn concat_chunks(chunks: Seq<Result<Vec<u8>, TransportFault>>) -> Seq<u8>
    decreases chunks.len(),
{
    if chunks.len() == 0 {
        Seq::empty()
    } else {
        concat_chunks(chunks.drop_last()) + match chunks.last() {
            Ok(c) => c@,
            Err(_) => Seq::empty(),
        }
    }
}

/// What collecting a body yields: the whole stream, provided the declared length
/// is accepted, no chunk failed and the stream is exactly as long as declared.
pub open spec fn collected(
    content_length: Option<Seq<u8>>,
    chunks: Seq<Result<Vec<u8>, TransportFault>>,
) -> Result<Seq<u8>, IngressError> {
    match accepted_length(content_length) {
        None => Err(IngressError::MissingBody),
        Some(n) => if has_fault(chunks) || concat_chunks(chunks).len() != n {
            Err(IngressError::TransportError)
        } else {
            Ok(concat_chunks(chunks))
        },
    }
}

/// Reads a `Content-Length` value; `None` unless it is accepted as a body length.
pub fn content_length(header: Option<&[u8]>) -> (r: Option<usize>)
    ensures
        match r {
            Some(n) => accepted_length(header_view(header)) == Some(n as nat),
            None => accepted_length(header_view(header)) is None,
        },
{
    match header {
        Some(s) => parse_length(s),
        None => None,
    }
}

fn parse_length(s: &[u8]) -> (r: Option<usize>)
    ensures
        match r {
            Some(n) => accepted_length(Some(s@)) == Some(n as nat),
            None => accepted_length(Some(s@)) is None,
        },
{
    if s.len() == 0 {
        return None;
    }
    // `v` is the value read so far, saturated at one above the cap.
    let mut v: usize = 0;
    let mut i: usize = 0;
    while i < s.len()
        invariant
            i <= s@.len(),
            v <= MAX_BODY_LEN + 1,
            forall|k: int| 0 <= k < i ==> 0x30 <= #[trigger] s@[k] && s@[k] <= 0x39,
            decimal_value(s@.take(i as int)) <= MAX_BODY_LEN ==> v == decimal_value(
                s@.take(i as int),
            ),
            decimal_value(s@.take(i as int)) > MAX_BODY_LEN ==> v == MAX_BODY_LEN + 1,
        decreases s@.len() - i,
    {
        let c = s[i];
        if c < 0x30 || c > 0x39 {
            assert(!(0x30 <= s@[i as int] && s@[i as int] <= 0x39));
            return None;
        }
        assert(s@.take(i + 1).drop_last() =~= s@.take(i as int));
        let d: usize = (c - 0x30) as usize;
        if v <= MAX_BODY_LEN {
            v = v * 10 + d;
            if v > MAX_BODY_LEN {
                v = MAX_BODY_LEN + 1;
            }
        }
        i = i + 1;
    }
    assert(s@.take(s@.len() as int) =~= s@);
    if v == 0 || v > MAX_BODY_LEN {
        None
    } else {
        Some(v)
    }
}

proof fn lemma_concat_prefix(chunks: Seq<Result<Vec<u8>, TransportFault>>, k: int)
    requires
        0 <= k <= chunks.len(),
    ensures
        concat_chunks(chunks.take(k)).len() <= concat_chunks(chunks).len(),
    decreases chunks.len(),
{
    if k == chunks.len() {
        assert(chunks.take(k) =~= chunks);
    } else {
        assert(chunks.take(k) =~= chunks.drop_last().take(k));
        lemma_concat_prefix(chunks.drop_last(), k);
    }
}

/// Gathers the body stream into one buffer, checked against the declared length.
pub fn collect_body(
    content_length_header: Option<&[u8]>,
    chunks: &Vec<Result<Vec<u8>, TransportFault>>,
) -> (r: Result<Vec<u8>, IngressError>)
    ensures
        match r {
            Ok(b) => collected(header_view(content_length_header), chunks@) == Ok::<
                Seq<u8>,
                IngressError,
            >(b@),
            Err(e) => collected(header_view(content_length_header), chunks@) == Err::<
                Seq<u8>,
                IngressError,
            >(e),
        },
{
    let accepted = content_length(content_length_header);
    if accepted.is_none() {
        return Err(IngressError::MissingBody);
    }
    let declared = accepted.unwrap();
    let mut out: Vec<u8> = Vec::new();
    let mut i: usize = 0;
    while i < chunks.len()
        invariant
            i <= chunks@.len(),
            declared <= MAX_BODY_LEN,
            accepted_length(header_view(content_length_header)) == Some(declared as nat),
            out@ == concat_chunks(chunks@.take(i as int)),
            out@.len() <= declared,
            forall|k: int| 0 <= k < i ==> (#[trigger] chunks@[k]) is Ok,
        decreases chunks@.len() - i,
    {
        assert(chunks@.take(i + 1).drop_last() =~= chunks@.take(i as int));
        match &chunks[i] {
            Err(_) => {
                assert(chunks@[i as int] is Err);
                assert(has_fault(chunks@));
                return Err(IngressError::TransportError);
            },
            Ok(c) => {
                if c.len() > declared - out.len() {
                    proof {
                        if !has_fault(chunks@) {
                            lemma_concat_prefix(chunks@, i + 1);
                        }
                    }
                        return Err(IngressError::TransportError);
                }
                out.extend_from_slice(c.as_slice());
            },
        }
        i = i + 1;
    }
    assert(chunks@.take(chunks@.len() as int) =~= chunks@);
    if out.len() != declared {
        return Err(IngressError::TransportError);
    }
    Ok(out)
}

} // verus!
