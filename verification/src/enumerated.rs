//! The extensible enumerated error: a closed-at-compile-time but
//! growth-tolerant set of named failure variants, each optionally carrying
//! data, for callers that need to pattern-match on the failure kind.

use vstd::prelude::*;

use crate::opaque::Failure;
use crate::text::dec_digits;
use crate::text::u32_dec_string;

verus! {

/// The failure kinds of the id-number lookup demo. The type is marked
/// non-exhaustive: it is declared open for extension, so downstream matches
/// should acknowledge an explicit fallback arm, and a future revision may
/// add variants without that being an incompatible change. This is a
/// documented convention, not an enforced mechanism.
#[derive(Clone, Copy, Debug, PartialEq, Eq, Structural)]
#[non_exhaustive]
pub enum IdNumberError {
    /// The requested key was absent from the table. No payload.
    LookupFailure,
    /// The key was present but its value failed domain validation; carries
    /// the offending value.
    InvalidNumber(u32),
}

impl IdNumberError {
    /// The fixed-format display text of each variant, at the specification
    /// level; `InvalidNumber` interpolates the offending value in decimal.
    pub open spec fn spec_message(&self) -> Seq<char> {
        match self {
            IdNumberError::LookupFailure => "id lookup failure"@,
            IdNumberError::InvalidNumber(v) => "invalid id number ("@ + dec_digits(*v as nat)
                + ")"@,
        }
    }

    /// Renders the variant's display text.
    pub fn message(&self) -> (r: String)
        ensures
            r@ == self.spec_message(),
    {
        match self {
            IdNumberError::LookupFailure => String::from_str("id lookup failure"),
            IdNumberError::InvalidNumber(v) => {
                let mut s = String::from_str("invalid id number (");
                s.append(u32_dec_string(*v).as_str());
                s.append(")");
                s
            },
        }
    }
}

impl Failure for IdNumberError {
    open spec fn spec_text(&self) -> Seq<char> {
        self.spec_message()
    }

    fn text(&self) -> (r: String) {
        self.message()
    }
}

} // verus!
