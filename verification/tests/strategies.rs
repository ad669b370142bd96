use std::collections::HashMap;

use errmodel::enumerated::IdNumberError;
use errmodel::lookup::access_map_1;
use errmodel::lookup::access_map_2;
use errmodel::lookup::access_map_3;
use errmodel::lookup::lookup_enumerated;
use errmodel::lookup::lookup_opaque;
use errmodel::lookup::lookup_zero_cost;
use errmodel::zero_cost::LookupFailure;

fn demo_table() -> HashMap<u32, u32> {
    let mut map = HashMap::new();
    map.insert(41, 76);
    map.insert(42, 77);
    map
}

#[test]
fn absent_key_fails_in_each_strategy() {
    let table = demo_table();

    let r = lookup_opaque(&table, 99);
    assert!(r.is_err());
    assert_eq!(r.unwrap_err().render(), "key lookup failure");

    let r = lookup_zero_cost(&table, 99);
    assert!(matches!(r, Err(LookupFailure)));

    let r = lookup_enumerated(&table, 99);
    assert!(matches!(r, Err(IdNumberError::LookupFailure)));
}

#[test]
fn invalid_value_fails_opaque_and_enumerated() {
    let table = demo_table();

    let r = lookup_opaque(&table, 41);
    assert!(r.is_err());
    assert_eq!(r.unwrap_err().render(), "not divisible by 7");

    let r = lookup_enumerated(&table, 41);
    assert!(matches!(r, Err(IdNumberError::InvalidNumber(76))));
}

// The zero-cost representation has no invalid-value variant, so its
// strategy cannot represent a validation failure at all: a present value
// succeeds unvalidated, even one that the other two strategies reject.
// This asymmetry is a deliberate limit of the zero-cost path and is
// documented here rather than hidden.
#[test]
fn zero_cost_path_has_no_invalid_value_variant() {
    let table = demo_table();
    let r = lookup_zero_cost(&table, 41);
    assert_eq!(r, Ok(76));
}

#[test]
fn valid_value_succeeds_in_each_strategy() {
    let table = demo_table();

    let r = lookup_opaque(&table, 42);
    assert_eq!(r.ok(), Some(77));

    let r = lookup_zero_cost(&table, 42);
    assert_eq!(r, Ok(77));

    let r = lookup_enumerated(&table, 42);
    assert!(matches!(r, Ok(77)));
}

#[test]
fn demo_scenario_three_outcomes() {
    // Table {41: 76, 42: 77}: looking up 42 succeeds with 77 (a multiple
    // of 7), 41 fails with the invalid value 76, 99 fails with absence.
    let r = access_map_3(42);
    assert!(matches!(r, Ok(77)));

    let r = access_map_3(41);
    assert!(matches!(r, Err(IdNumberError::InvalidNumber(76))));

    let r = access_map_3(99);
    assert!(matches!(r, Err(IdNumberError::LookupFailure)));
}

#[test]
fn empty_table_call_sites_always_fail() {
    let r = access_map_1(42);
    assert!(r.is_err());
    assert_eq!(r.unwrap_err().render(), "key lookup failure");

    let r = access_map_2(42);
    assert!(matches!(r, Err(LookupFailure)));
}

#[test]
fn enumerated_messages_are_fixed_format() {
    assert_eq!(IdNumberError::LookupFailure.message(), "id lookup failure");
    assert_eq!(IdNumberError::InvalidNumber(76).message(), "invalid id number (76)");
    assert_eq!(IdNumberError::InvalidNumber(0).message(), "invalid id number (0)");
}

#[test]
fn zero_cost_marker_is_data_free() {
    // Size zero and trivial equality: all instances are indistinguishable.
    assert_eq!(std::mem::size_of::<LookupFailure>(), 0);
    assert_eq!(LookupFailure, LookupFailure);
    assert_eq!(LookupFailure.message(), "key lookup failure");
}
