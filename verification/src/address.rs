//! Account and contract identifiers.

use vstd::prelude::*;

verus! {

/// A blockchain account or contract identifier.
///
/// No validation happens here: the upstream API itself rejects
/// malformed addresses, which then surface as HTTP 4xx failures.
#[derive(Debug, Clone)]
pub struct Address {
    raw: String,
}

impl View for Address {
    type V = Seq<char>;

    closed spec fn view(&self) -> Seq<char> {
        self.raw@
    }
}

impl Address {
    /// Wraps a caller-supplied identifier string.
    pub fn new(address: &str) -> (r: Address)
        ensures
            r@ == address@,
    {
        Address { raw: address.to_owned() }
    }

    /// The underlying string, for interpolation into URLs.
    pub fn as_ref(&self) -> (r: &str)
        ensures
            r@ == self@,
    {
        self.raw.as_str()
    }
}

} // verus!
