use circuit_eq::boolean::Boolean;
use circuit_eq::circuit::Circuit;
use circuit_eq::equal::Equal;
use circuit_eq::plaintext::Plaintext;
use circuit_eq::record::Record;
use circuit_eq::value::Value;

#[test]
fn mismatched_variants_are_constant_false() {
    let mut cs = Circuit::new();
    let a = Value::Plaintext(Plaintext::new(vec![1, 2, 3]));
    let b = Value::Record(Record::new(7, vec![1, 2, 3]));
    let before = cs.num_constraints();
    let eq = a.is_equal(&b, &mut cs);
    assert!(!eq.eject_value());
    assert!(eq.eject_is_constant());
    let ne = a.is_not_equal(&b, &mut cs);
    assert!(ne.eject_value());
    assert!(ne.eject_is_constant());
    assert_eq!(cs.num_constraints(), before);
}

#[test]
fn mismatched_variants_swapped_same_constants() {
    let mut cs = Circuit::new();
    let a = Value::Record(Record::new(7, vec![4, 5]));
    let b = Value::Plaintext(Plaintext::new(vec![4, 5]));
    let before = cs.num_constraints();
    let eq = a.is_equal(&b, &mut cs);
    assert!(!eq.eject_value());
    assert!(eq.eject_is_constant());
    let ne = a.is_not_equal(&b, &mut cs);
    assert!(ne.eject_value());
    assert!(ne.eject_is_constant());
    assert_eq!(cs.num_constraints(), before);
}

#[test]
fn mismatched_variants_ignore_identical_payload_bits() {
    // The record's owner and entries encode the very same numbers the
    // plaintext holds; the pair is still decided unequal by tag alone.
    let mut cs = Circuit::new();
    let a = Value::Plaintext(Plaintext::new(vec![9, 9, 9]));
    let b = Value::Record(Record::new(9, vec![9, 9]));
    let eq = a.is_equal(&b, &mut cs);
    assert!(!eq.eject_value());
    assert!(eq.eject_is_constant());
    assert_eq!(cs.num_constraints(), 0);
}

#[test]
fn matched_plaintexts_identical_content() {
    let mut cs = Circuit::new();
    let a = Value::Plaintext(Plaintext::new(vec![1, 2]));
    let b = Value::Plaintext(Plaintext::new(vec![1, 2]));
    let eq = a.is_equal(&b, &mut cs);
    assert!(eq.eject_value());
    assert!(!eq.eject_is_constant());
    let ne = a.is_not_equal(&b, &mut cs);
    assert!(!ne.eject_value());
}

#[test]
fn matched_plaintexts_different_content() {
    let mut cs = Circuit::new();
    let a = Value::Plaintext(Plaintext::new(vec![1, 2]));
    let b = Value::Plaintext(Plaintext::new(vec![1, 5]));
    let eq = a.is_equal(&b, &mut cs);
    assert!(!eq.eject_value());
    let ne = a.is_not_equal(&b, &mut cs);
    assert!(ne.eject_value());
}

#[test]
fn matched_records_identical_content() {
    let mut cs = Circuit::new();
    let a = Value::Record(Record::new(7, vec![5, 6]));
    let b = Value::Record(Record::new(7, vec![5, 6]));
    let eq = a.is_equal(&b, &mut cs);
    assert!(eq.eject_value());
    assert!(!eq.eject_is_constant());
}

#[test]
fn matched_records_different_owner() {
    let mut cs = Circuit::new();
    let a = Value::Record(Record::new(7, vec![5, 6]));
    let b = Value::Record(Record::new(8, vec![5, 6]));
    let eq = a.is_equal(&b, &mut cs);
    assert!(!eq.eject_value());
    let ne = a.is_not_equal(&b, &mut cs);
    assert!(ne.eject_value());
}

#[test]
fn matched_records_different_entries() {
    let mut cs = Circuit::new();
    let a = Value::Record(Record::new(7, vec![5, 6]));
    let b = Value::Record(Record::new(7, vec![5, 9]));
    let eq = a.is_equal(&b, &mut cs);
    assert!(!eq.eject_value());
}

#[test]
fn complementarity_on_every_pairing() {
    let make = || {
        vec![
            Value::Plaintext(Plaintext::new(vec![1, 2])),
            Value::Plaintext(Plaintext::new(vec![1, 3])),
            Value::Plaintext(Plaintext::new(vec![1])),
            Value::Record(Record::new(7, vec![1, 2])),
            Value::Record(Record::new(8, vec![1, 2])),
            Value::Record(Record::new(7, vec![])),
        ]
    };
    let values_a = make();
    let values_b = make();
    for a in &values_a {
        for b in &values_b {
            let mut cs = Circuit::new();
            let eq = a.is_equal(b, &mut cs);
            let ne = a.is_not_equal(b, &mut cs);
            assert_eq!(ne.eject_value(), !eq.eject_value());
            assert_eq!(ne.eject_is_constant(), eq.eject_is_constant());
        }
    }
}

#[test]
fn delegation_matches_plaintext_provider() {
    let x = Plaintext::new(vec![4, 4, 4]);
    let y = Plaintext::new(vec![4, 4, 5]);
    let mut cs_value = Circuit::new();
    let via_value = Value::Plaintext(x.clone()).is_equal(&Value::Plaintext(y.clone()), &mut cs_value);
    let mut cs_provider = Circuit::new();
    let via_provider = x.is_equal(&y, &mut cs_provider);
    assert_eq!(via_value.eject_value(), via_provider.eject_value());
    assert_eq!(via_value.eject_is_constant(), via_provider.eject_is_constant());
    assert_eq!(cs_value.num_constraints(), cs_provider.num_constraints());
}

#[test]
fn delegation_matches_record_provider() {
    let x = Record::new(3, vec![10, 20]);
    let y = Record::new(3, vec![10, 20]);
    let mut cs_value = Circuit::new();
    let via_value = Value::Record(x.clone()).is_equal(&Value::Record(y.clone()), &mut cs_value);
    let mut cs_provider = Circuit::new();
    let via_provider = x.is_equal(&y, &mut cs_provider);
    assert_eq!(via_value.eject_value(), via_provider.eject_value());
    assert_eq!(via_value.eject_is_constant(), via_provider.eject_is_constant());
    assert_eq!(cs_value.num_constraints(), cs_provider.num_constraints());
}

#[test]
fn matched_plaintext_costs_one_constraint_per_element() {
    let mut cs = Circuit::new();
    let a = Plaintext::new(vec![1, 2, 3, 4]);
    let b = Plaintext::new(vec![1, 2, 0, 4]);
    let eq = a.is_equal(&b, &mut cs);
    assert!(!eq.eject_value());
    assert_eq!(cs.num_constraints(), 4);
}

#[test]
fn matched_record_costs_one_constraint_per_entry_plus_owner() {
    let mut cs = Circuit::new();
    let a = Record::new(1, vec![2, 3]);
    let b = Record::new(1, vec![2, 3]);
    let eq = a.is_equal(&b, &mut cs);
    assert!(eq.eject_value());
    assert_eq!(cs.num_constraints(), 3);
}

#[test]
fn plaintexts_of_different_length_are_constant_false() {
    let mut cs = Circuit::new();
    let a = Plaintext::new(vec![1, 2, 3]);
    let b = Plaintext::new(vec![1, 2]);
    let eq = a.is_equal(&b, &mut cs);
    assert!(!eq.eject_value());
    assert!(eq.eject_is_constant());
    let ne = a.is_not_equal(&b, &mut cs);
    assert!(ne.eject_value());
    assert!(ne.eject_is_constant());
    assert_eq!(cs.num_constraints(), 0);
}

#[test]
fn records_of_different_entry_count_are_constant_false() {
    let mut cs = Circuit::new();
    let a = Record::new(7, vec![1]);
    let b = Record::new(7, vec![1, 1]);
    let eq = a.is_equal(&b, &mut cs);
    assert!(!eq.eject_value());
    assert!(eq.eject_is_constant());
    assert_eq!(cs.num_constraints(), 0);
}

#[test]
fn empty_plaintexts_are_equal_at_zero_cost() {
    let mut cs = Circuit::new();
    let a = Plaintext::new(vec![]);
    let b = Plaintext::new(vec![]);
    let eq = a.is_equal(&b, &mut cs);
    assert!(eq.eject_value());
    assert!(!eq.eject_is_constant());
    assert_eq!(cs.num_constraints(), 0);
}

#[test]
fn boolean_constants_and_negation() {
    let t = Boolean::constant(true);
    assert!(t.eject_value());
    assert!(t.eject_is_constant());
    let f = t.not();
    assert!(!f.eject_value());
    assert!(f.eject_is_constant());
}

#[test]
fn fresh_circuit_has_no_constraints() {
    let cs = Circuit::new();
    assert_eq!(cs.num_constraints(), 0);
}

#[test]
fn payload_accessors_report_shape() {
    let p = Plaintext::new(vec![1, 2, 3]);
    assert_eq!(p.num_elements(), 3);
    let r = Record::new(9, vec![4]);
    assert_eq!(r.num_entries(), 1);
}
