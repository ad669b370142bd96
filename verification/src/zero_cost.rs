//! The zero-cost structured error: a single, data-free failure marker used
//! when the failure carries no payload and must not allocate. Constructing
//! and propagating it involves no heap allocation and no dynamic dispatch;
//! the type has size zero. Converting it into an
//! [`crate::opaque::OpaqueError`] is an explicit, visible step (through
//! [`crate::opaque::OpaqueError::from_failure`]), never implicit, because
//! that conversion defeats the zero-cost property.

use vstd::prelude::*;

use crate::opaque::Failure;

verus! {

/// The one failure condition this marker can signal: a key lookup failed.
/// All instances are indistinguishable and the display text is fixed.
#[derive(Clone, Copy, Debug, PartialEq, Eq, Structural)]
pub struct LookupFailure;

impl LookupFailure {
    /// The fixed display text, at the specification level.
    pub open spec fn spec_message() -> Seq<char> {
        "key lookup failure"@
    }

    /// The fixed display text. Returns a borrowed literal: no allocation.
    pub fn message(&self) -> (r: &'static str)
        ensures
            r@ == LookupFailure::spec_message(),
    {
        "key lookup failure"
    }
}

/// Every value of the marker equals every other: it is a stateless singleton
/// tag, so equality carries no information.
pub proof fn lemma_lookup_failure_singleton(a: LookupFailure, b: LookupFailure)
    ensures
        a == b,
{
}

impl Failure for LookupFailure {
    open spec fn spec_text(&self) -> Seq<char> {
        LookupFailure::spec_message()
    }

    fn text(&self) -> (r: String) {
        String::from_str(self.message())
    }
}

} // verus!
