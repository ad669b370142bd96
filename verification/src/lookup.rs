//! The propagation convention, exercised by the three call-site strategies.
//!
//! Each strategy runs the same three-outcome algorithm — look a key up in a
//! table; if absent, fail with an absence error; if present, validate (a
//! valid id number is a multiple of seven); if invalid, fail with an
//! invalid-value error; otherwise succeed with the value — once per error
//! representation. Converting the absent-value signal into a representation
//! is a single explicit step at the observation site, and the first failure
//! short-circuits the remaining steps.
//!
//! The zero-cost representation has no invalid-value variant, so its
//! strategy performs no validation: it is suitable only where validation is
//! not required, and that asymmetry is deliberate and stated in its
//! contract.

use std::collections::HashMap;
use vstd::prelude::*;

use crate::enumerated::IdNumberError;
use crate::opaque::OpaqueError;
use crate::zero_cost::LookupFailure;

verus! {

/// The validation policy: a value is a valid id number when it is a
/// multiple of seven.
pub open spec fn is_valid_id(v: u32) -> bool {
    v % 7 == 0
}

/// The absence message used by the opaque strategy.
pub open spec fn absence_text() -> Seq<char> {
    "key lookup failure"@
}

/// The invalid-value message used by the opaque strategy.
pub open spec fn invalid_text() -> Seq<char> {
    "not divisible by 7"@
}

/// The outcome of the enumerated strategy on a given table and key.
pub open spec fn enumerated_outcome(m: Map<u32, u32>, key: u32) -> Result<u32, IdNumberError> {
    if !m.contains_key(key) {
        Err(IdNumberError::LookupFailure)
    } else if is_valid_id(m[key]) {
        Ok(m[key])
    } else {
        Err(IdNumberError::InvalidNumber(m[key]))
    }
}

/// The outcome of the zero-cost strategy on a given table and key. There is
/// no invalid-value variant, so a present value succeeds unvalidated.
pub open spec fn zero_cost_outcome(m: Map<u32, u32>, key: u32) -> Result<u32, LookupFailure> {
    if !m.contains_key(key) {
        Err(LookupFailure)
    } else {
        Ok(m[key])
    }
}

/// Whether the opaque strategy succeeds on a given table and key.
pub open spec fn opaque_succeeds(m: Map<u32, u32>, key: u32) -> bool {
    m.contains_key(key) && is_valid_id(m[key])
}

/// The message chain of the opaque strategy's error when it fails.
pub open spec fn opaque_error_chain(m: Map<u32, u32>, key: u32) -> Seq<Seq<char>>
    recommends
        !opaque_succeeds(m, key),
{
    if !m.contains_key(key) {
        seq![absence_text()]
    } else {
        seq![invalid_text()]
    }
}

/// The three-outcome algorithm under the opaque representation: absence and
/// an invalid value each become a fresh single-message container at the
/// point of detection.
pub fn lookup_opaque(table: &HashMap<u32, u32>, key: u32) -> (r: Result<u32, OpaqueError>)
    ensures
        opaque_succeeds(table@, key) ==> (r matches Ok(v) && v == table@[key]),
        !opaque_succeeds(table@, key) ==> (r matches Err(e) && e@ == opaque_error_chain(
            table@,
            key,
        ) && e.wf()),
{
    proof {
        broadcast use vstd::std_specs::hash::group_hash_axioms;

    }
    let n: u32 = match table.get(&key) {
        Some(v) => *v,
        None => {
            return Err(OpaqueError::from_message(String::from_str("key lookup failure")));
        },
    };
    if n % 7 != 0 {
        return Err(OpaqueError::from_message(String::from_str("not divisible by 7")));
    }
    Ok(n)
}

/// The three-outcome algorithm under the zero-cost representation: absence
/// becomes the data-free marker; no validation is performed, since the
/// marker cannot represent an invalid value.
pub fn lookup_zero_cost(table: &HashMap<u32, u32>, key: u32) -> (r: Result<u32, LookupFailure>)
    ensures
        r == zero_cost_outcome(table@, key),
{
    proof {
        broadcast use vstd::std_specs::hash::group_hash_axioms;

    }
    match table.get(&key) {
        Some(v) => Ok(*v),
        None => Err(LookupFailure),
    }
}

/// The three-outcome algorithm under the enumerated representation: absence
/// and an invalid value each become their named variant at the point of
/// detection, the invalid one carrying the offending value.
pub fn lookup_enumerated(table: &HashMap<u32, u32>, key: u32) -> (r: Result<u32, IdNumberError>)
    ensures
        r == enumerated_outcome(table@, key),
{
    proof {
        broadcast use vstd::std_specs::hash::group_hash_axioms;

    }
    let n: u32 = match table.get(&key) {
        Some(v) => *v,
        None => {
            return Err(IdNumberError::LookupFailure);
        },
    };
    if n % 7 == 0 {
        Ok(n)
    } else {
        Err(IdNumberError::InvalidNumber(n))
    }
}

/// The table the demo call sites query: `{41 ↦ 76, 42 ↦ 77}`.
pub open spec fn demo_table() -> Map<u32, u32> {
    Map::<u32, u32>::empty().insert(41, 76).insert(42, 77)
}

/// Demo call site for the opaque strategy. Its table is empty, so every
/// lookup fails with the absence message.
pub fn access_map_1(key: u32) -> (r: Result<u32, OpaqueError>)
    ensures
        r matches Err(e) && e@ == seq![absence_text()] && e.wf(),
{
    let map = HashMap::<u32, u32>::new();
    lookup_opaque(&map, key)
}

/// Demo call site for the zero-cost strategy. Its table is empty, so every
/// lookup fails with the data-free marker.
pub fn access_map_2(key: u32) -> (r: Result<u32, LookupFailure>)
    ensures
        r == Err::<u32, LookupFailure>(LookupFailure),
{
    let map = HashMap::<u32, u32>::new();
    lookup_zero_cost(&map, key)
}

/// Demo call site for the enumerated strategy, querying
/// `{41 ↦ 76, 42 ↦ 77}`: `42` succeeds with `77`, `41` fails with
/// `InvalidNumber(76)`, and any other key fails with `LookupFailure`.
pub fn access_map_3(key: u32) -> (r: Result<u32, IdNumberError>)
    ensures
        r == enumerated_outcome(demo_table(), key),
        key == 42 ==> r == Ok::<u32, IdNumberError>(77),
        key == 41 ==> r == Err::<u32, IdNumberError>(IdNumberError::InvalidNumber(76)),
        key != 41 && key != 42 ==> r == Err::<u32, IdNumberError>(IdNumberError::LookupFailure),
{
    proof {
        broadcast use vstd::std_specs::hash::group_hash_axioms;

    }
    let mut map = HashMap::<u32, u32>::new();
    map.insert(41, 76);
    map.insert(42, 77);
    proof {
        assert(map@ =~= demo_table());
    }
    lookup_enumerated(&map, key)
}

/// For every key absent from a table, each of the three call-site
/// strategies yields its absence failure, and never a success value.
pub proof fn lemma_absent_key_fails(m: Map<u32, u32>, key: u32)
    requires
        !m.contains_key(key),
    ensures
        zero_cost_outcome(m, key) == Err::<u32, LookupFailure>(LookupFailure),
        enumerated_outcome(m, key) == Err::<u32, IdNumberError>(IdNumberError::LookupFailure),
        !opaque_succeeds(m, key),
        opaque_error_chain(m, key) == seq![absence_text()],
{
}

/// For every present value that is not a multiple of seven, the opaque and
/// enumerated strategies yield an invalid-value failure, the enumerated one
/// carrying exactly that value — while the zero-cost strategy, which has no
/// invalid-value variant, still succeeds. The asymmetry is part of the
/// design, stated here rather than hidden.
pub proof fn lemma_invalid_value_fails(m: Map<u32, u32>, key: u32)
    requires
        m.contains_key(key),
        !is_valid_id(m[key]),
    ensures
        enumerated_outcome(m, key) == Err::<u32, IdNumberError>(
            IdNumberError::InvalidNumber(m[key]),
        ),
        !opaque_succeeds(m, key),
        opaque_error_chain(m, key) == seq![invalid_text()],
        zero_cost_outcome(m, key) == Ok::<u32, LookupFailure>(m[key]),
{
}

/// For every present value that is a multiple of seven, all three
/// strategies succeed with exactly that value.
pub proof fn lemma_valid_value_succeeds(m: Map<u32, u32>, key: u32)
    requires
        m.contains_key(key),
        is_valid_id(m[key]),
    ensures
        zero_cost_outcome(m, key) == Ok::<u32, LookupFailure>(m[key]),
        enumerated_outcome(m, key) == Ok::<u32, IdNumberError>(m[key]),
        opaque_succeeds(m, key),
{
}

} // verus!
