//! A click counter identified by a ULID.
use vstd::prelude::*;

verus! {

/// A ULID, carried through as an opaque value.
#[verifier::external_type_specification]
#[verifier::external_body]
pub struct ExUlid(ulid::Ulid);

/// Relies on `ulid::Ulid::new`: a fresh identifier from the clock and a random
/// source, of which nothing can be promised.
pub assume_specification[ ulid::Ulid::new ]() -> ulid::Ulid;

/// A cookie: a unique identifier and a click count.
#[derive(Clone, Copy, Debug, Default, Hash)]
pub struct Cookie {
    pub id: ulid::Ulid,
    pub clicks: u128,
}

impl Cookie {
    /// A cookie with a fresh identifier and no clicks.
    pub fn new() -> (r: Self)
        ensures
            r.clicks == 0,
    {
        Self { id: ulid::Ulid::new(), clicks: 0 }
    }
}

} // verus!
