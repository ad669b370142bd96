//! A small error-reporting model offering three error representations with
//! different cost/flexibility tradeoffs:
//!
//! - an opaque aggregating container with human-readable context chains
//!   ([`opaque::OpaqueError`]),
//! - a zero-cost, data-free failure marker ([`zero_cost::LookupFailure`]),
//! - an extensible enumerated error for callers that branch on failure kind
//!   ([`enumerated::IdNumberError`]),
//!
//! together with the propagation convention that converts an absent-value
//! signal into each of the three at the observation site ([`lookup`]), and
//! verified decimal text helpers ([`text`]) used when rendering messages.

pub mod enumerated;
pub mod lookup;
pub mod opaque;
pub mod text;
pub mod zero_cost;
