use constructors_return_value::codec::{decode, encode};
use constructors_return_value::contract::ConstructorsReturnValue;
use constructors_return_value::dispatch::{instantiate, instantiation_succeeded};
use constructors_return_value::outcome::{
    BusinessOutcome, ConstructorError, DecodedResult, DispatchError, DispatchOutcome,
    ProtocolError,
};
use constructors_return_value::registry::{ConstructorDescriptor, Registry, TypeSchema};
use constructors_return_value::selector::selector_of;

fn infallible_descriptor() -> ConstructorDescriptor {
    ConstructorDescriptor {
        id: 0,
        is_fallible: false,
        error_schema: TypeSchema::NoBusinessLayer,
    }
}

fn fallible_unit_descriptor() -> ConstructorDescriptor {
    ConstructorDescriptor {
        id: 0,
        is_fallible: true,
        error_schema: TypeSchema::UnitError,
    }
}

#[test]
fn infallible_constructor_reflection() {
    let reg = Registry::new();
    let id = selector_of(&b"new".to_vec());
    assert!(!reg.lookup(id).expect("declared constructor").is_fallible);
    assert_eq!(reg.error_schema_of(id), Some(TypeSchema::NoBusinessLayer));
}

#[test]
fn fallible_constructor_reflection() {
    let reg = Registry::new();
    let id = selector_of(&b"try_new".to_vec());
    assert!(reg.lookup(id).expect("declared constructor").is_fallible);
    assert_eq!(reg.error_schema_of(id), Some(TypeSchema::UnitError));
}

#[test]
fn selector_derivation_stability() {
    // Recompute the selector of the name "new" independently of the
    // registry: hash directly and take the first four bytes big-endian.
    let mut digest = [0u8; 32];
    ink::env::hash_bytes::<ink::env::hash::Blake2x256>(b"new", &mut digest);
    let expected = u32::from_be_bytes([digest[0], digest[1], digest[2], digest[3]]);
    assert_eq!(selector_of(&b"new".to_vec()), expected);
    let reg = Registry::new();
    let d = reg.lookup(expected).expect("id recorded at registry build time");
    assert_eq!(d.id, expected);
    assert!(!d.is_fallible);
}

#[test]
fn registry_ids_distinct() {
    let reg = Registry::new();
    assert!(reg.check_ids_distinct());
}

#[test]
fn registry_consistency_of_all_declared() {
    let reg = Registry::new();
    let declared: [(&[u8], bool, TypeSchema); 4] = [
        (b"new", false, TypeSchema::NoBusinessLayer),
        (b"try_new", true, TypeSchema::UnitError),
        (b"revert_new", false, TypeSchema::NoBusinessLayer),
        (b"try_revert_new", true, TypeSchema::UnitError),
    ];
    for (name, fallible, schema) in declared {
        let id = selector_of(&name.to_vec());
        let d = reg.lookup(id).expect("declared constructor");
        assert_eq!(d.is_fallible, fallible);
        assert_eq!(d.error_schema, schema);
        assert_eq!(reg.is_fallible_of(id), Some(fallible));
        assert_eq!(reg.error_schema_of(id), Some(schema));
        assert_eq!(
            reg.error_schema_of(id) == Some(TypeSchema::NoBusinessLayer),
            !fallible
        );
    }
}

#[test]
fn unknown_selector_not_found() {
    let reg = Registry::new();
    let names: [&[u8]; 4] = [b"new", b"try_new", b"revert_new", b"try_revert_new"];
    let ids: Vec<u32> = names.iter().map(|n| selector_of(&n.to_vec())).collect();
    let mut probe: u32 = 0xdead_beef;
    while ids.contains(&probe) {
        probe = probe.wrapping_add(1);
    }
    assert!(reg.lookup(probe).is_none());
    assert_eq!(reg.error_schema_of(probe), None);
    assert_eq!(reg.is_fallible_of(probe), None);
}

#[test]
fn encode_tag_bytes() {
    assert_eq!(
        encode(&DispatchOutcome::Dispatched(BusinessOutcome::Value(vec![]))),
        vec![0u8]
    );
    assert_eq!(
        encode(&DispatchOutcome::Dispatched(BusinessOutcome::Success(vec![]))),
        vec![0u8, 0]
    );
    assert_eq!(
        encode(&DispatchOutcome::Dispatched(BusinessOutcome::Failure(vec![]))),
        vec![0u8, 1]
    );
    assert_eq!(
        encode(&DispatchOutcome::Failed(DispatchError::CouldNotReadInput)),
        vec![1u8, 1]
    );
    assert_eq!(
        encode(&DispatchOutcome::Failed(DispatchError::UnknownSelector)),
        vec![1u8, 2]
    );
    assert_eq!(
        encode(&DispatchOutcome::Dispatched(BusinessOutcome::Failure(vec![7, 8]))),
        vec![0u8, 1, 7, 8]
    );
}

#[test]
fn infallible_round_trip() {
    let bytes = encode(&DispatchOutcome::Dispatched(BusinessOutcome::Value(vec![])));
    let r = decode(&bytes, &infallible_descriptor());
    assert!(matches!(r, Ok(DecodedResult::Succeeded)));
}

#[test]
fn fallible_success_round_trip() {
    let bytes = encode(&DispatchOutcome::Dispatched(BusinessOutcome::Success(vec![])));
    let r = decode(&bytes, &fallible_unit_descriptor());
    assert!(matches!(r, Ok(DecodedResult::BusinessSucceeded)));
}

#[test]
fn fallible_failure_round_trip() {
    let bytes = encode(&DispatchOutcome::Dispatched(BusinessOutcome::Failure(vec![])));
    let r = decode(&bytes, &fallible_unit_descriptor());
    assert!(matches!(r, Ok(DecodedResult::BusinessFailed(ref p)) if p.is_empty()));
    // A committing caller treats a business failure as a failed
    // instantiation, whatever the reverted flag says.
    assert!(!instantiation_succeeded(&r, true));
    assert!(!instantiation_succeeded(&r, false));
}

#[test]
fn fallible_failure_round_trip_with_payload() {
    let d = ConstructorDescriptor {
        id: 1,
        is_fallible: true,
        error_schema: TypeSchema::FixedBytes(3),
    };
    let bytes = encode(&DispatchOutcome::Dispatched(BusinessOutcome::Failure(vec![9, 8, 7])));
    let r = decode(&bytes, &d);
    assert!(matches!(r, Ok(DecodedResult::BusinessFailed(ref p)) if *p == vec![9, 8, 7]));
}

#[test]
fn dispatch_error_decodes_under_any_descriptor() {
    let bytes = encode(&DispatchOutcome::Failed(DispatchError::UnknownSelector));
    assert!(matches!(
        decode(&bytes, &infallible_descriptor()),
        Ok(DecodedResult::DispatchFailed(DispatchError::UnknownSelector))
    ));
    assert!(matches!(
        decode(&bytes, &fallible_unit_descriptor()),
        Ok(DecodedResult::DispatchFailed(DispatchError::UnknownSelector))
    ));
    let bytes = encode(&DispatchOutcome::Failed(DispatchError::CouldNotReadInput));
    assert!(matches!(
        decode(&bytes, &fallible_unit_descriptor()),
        Ok(DecodedResult::DispatchFailed(DispatchError::CouldNotReadInput))
    ));
}

#[test]
fn schema_mismatch_detected() {
    // An error payload of three bytes read under a unit-error schema.
    let bytes = encode(&DispatchOutcome::Dispatched(BusinessOutcome::Failure(vec![9, 8, 7])));
    assert!(matches!(
        decode(&bytes, &fallible_unit_descriptor()),
        Err(ProtocolError::SchemaMismatch)
    ));
    // Trailing bytes after an infallible success.
    let bytes = encode(&DispatchOutcome::Dispatched(BusinessOutcome::Value(vec![0u8; 32])));
    assert!(matches!(
        decode(&bytes, &infallible_descriptor()),
        Err(ProtocolError::SchemaMismatch)
    ));
    // Unknown tag bytes at either layer.
    assert!(matches!(
        decode(&vec![3], &infallible_descriptor()),
        Err(ProtocolError::SchemaMismatch)
    ));
    assert!(matches!(
        decode(&vec![0, 5], &fallible_unit_descriptor()),
        Err(ProtocolError::SchemaMismatch)
    ));
    assert!(matches!(
        decode(&vec![1, 9], &infallible_descriptor()),
        Err(ProtocolError::SchemaMismatch)
    ));
}

#[test]
fn truncated_input_detected() {
    assert!(matches!(
        decode(&vec![], &infallible_descriptor()),
        Err(ProtocolError::TruncatedInput)
    ));
    assert!(matches!(
        decode(&vec![], &fallible_unit_descriptor()),
        Err(ProtocolError::TruncatedInput)
    ));
    assert!(matches!(
        decode(&vec![1], &infallible_descriptor()),
        Err(ProtocolError::TruncatedInput)
    ));
    assert!(matches!(
        decode(&vec![0], &fallible_unit_descriptor()),
        Err(ProtocolError::TruncatedInput)
    ));
}

#[test]
fn reverted_overrides_apparent_success() {
    // Adversarial envelope: the well-formed bytes of a business success for
    // a known fallible constructor, paired with the reverted flag.
    let reg = Registry::new();
    let id = selector_of(&b"try_new".to_vec());
    let d = reg.lookup(id).expect("known constructor");
    let bytes = encode(&DispatchOutcome::Dispatched(BusinessOutcome::Success(vec![])));
    let decoded = decode(&bytes, &d);
    // A naive decode alone reports success.
    assert!(matches!(decoded, Ok(DecodedResult::BusinessSucceeded)));
    // A committing caller does not: the reverted flag overrides it.
    assert!(!instantiation_succeeded(&decoded, true));
    assert!(instantiation_succeeded(&decoded, false));
}

#[test]
fn new_stores_value() {
    assert!(ConstructorsReturnValue::new(true).get_value());
    assert!(!ConstructorsReturnValue::new(false).get_value());
}

#[test]
fn try_new_succeeds_and_fails() {
    assert!(ConstructorsReturnValue::try_new(true).expect("should succeed").get_value());
    assert!(matches!(
        ConstructorsReturnValue::try_new(false),
        Err(ConstructorError)
    ));
}

#[test]
fn revert_new_transmits_reverted_mismatched_envelope() {
    let t = ConstructorsReturnValue::revert_new(true);
    assert!(t.reverted);
    let mut expected = vec![0u8];
    expected.extend(vec![0u8; 32]);
    assert_eq!(t.envelope, expected);
    // Under its own (infallible) descriptor the envelope does not decode.
    let reg = Registry::new();
    let d = reg.lookup(selector_of(&b"revert_new".to_vec())).expect("declared");
    assert!(matches!(
        decode(&t.envelope, &d),
        Err(ProtocolError::SchemaMismatch)
    ));
}

#[test]
fn try_revert_new_transmits_reverted_envelopes() {
    let t = ConstructorsReturnValue::try_revert_new(true);
    assert!(t.reverted);
    let mut expected = vec![0u8, 0u8];
    expected.extend(vec![0u8; 32]);
    assert_eq!(t.envelope, expected);
    let t = ConstructorsReturnValue::try_revert_new(false);
    assert!(t.reverted);
    assert_eq!(t.envelope, vec![1u8, 1u8]);
}

#[test]
fn infallible_constructor_instantiate_flow() {
    let reg = Registry::new();
    let id = selector_of(&b"new".to_vec());
    let (t, state) = instantiate(&reg, id, &vec![1]);
    let d = reg.lookup(id).expect("declared");
    let decoded = decode(&t.envelope, &d);
    assert!(matches!(decoded, Ok(DecodedResult::Succeeded)));
    assert!(!t.reverted);
    assert!(instantiation_succeeded(&decoded, t.reverted));
    assert!(state.expect("contract created").get_value());
}

#[test]
fn fallible_constructor_instantiate_succeeds() {
    let reg = Registry::new();
    let id = selector_of(&b"try_new".to_vec());
    let (t, state) = instantiate(&reg, id, &vec![1]);
    let d = reg.lookup(id).expect("declared");
    let decoded = decode(&t.envelope, &d);
    assert!(matches!(decoded, Ok(DecodedResult::BusinessSucceeded)));
    assert!(instantiation_succeeded(&decoded, t.reverted));
    // A success writes to contract storage.
    assert!(state.expect("contract created").get_value());
}

#[test]
fn fallible_constructor_instantiate_fails() {
    let reg = Registry::new();
    let id = selector_of(&b"try_new".to_vec());
    let (t, state) = instantiate(&reg, id, &vec![0]);
    let d = reg.lookup(id).expect("declared");
    let decoded = decode(&t.envelope, &d);
    assert!(matches!(decoded, Ok(DecodedResult::BusinessFailed(ref p)) if p.is_empty()));
    assert!(t.reverted);
    assert!(!instantiation_succeeded(&decoded, t.reverted));
    assert!(state.is_none());
}

#[test]
fn instantiate_unknown_selector() {
    let reg = Registry::new();
    let names: [&[u8]; 4] = [b"new", b"try_new", b"revert_new", b"try_revert_new"];
    let ids: Vec<u32> = names.iter().map(|n| selector_of(&n.to_vec())).collect();
    let mut probe: u32 = 0xdead_beef;
    while ids.contains(&probe) {
        probe = probe.wrapping_add(1);
    }
    let (t, state) = instantiate(&reg, probe, &vec![1]);
    assert_eq!(t.envelope, vec![1u8, 2u8]);
    assert!(t.reverted);
    assert!(state.is_none());
}

#[test]
fn instantiate_rejects_malformed_args() {
    let reg = Registry::new();
    let id = selector_of(&b"new".to_vec());
    for args in [vec![], vec![2u8], vec![0u8, 1u8]] {
        let (t, state) = instantiate(&reg, id, &args);
        assert_eq!(t.envelope, vec![1u8, 1u8]);
        assert!(t.reverted);
        assert!(state.is_none());
    }
}

#[test]
fn instantiate_revert_new_discards_state() {
    let reg = Registry::new();
    let id = selector_of(&b"revert_new".to_vec());
    let (t, state) = instantiate(&reg, id, &vec![1]);
    assert!(t.reverted);
    assert!(state.is_none());
    let d = reg.lookup(id).expect("declared");
    let decoded = decode(&t.envelope, &d);
    assert!(matches!(decoded, Err(ProtocolError::SchemaMismatch)));
    assert!(!instantiation_succeeded(&decoded, t.reverted));
}

#[test]
fn instantiate_try_revert_new_flows() {
    let reg = Registry::new();
    let id = selector_of(&b"try_revert_new".to_vec());
    let (t, state) = instantiate(&reg, id, &vec![1]);
    assert!(t.reverted);
    assert!(state.is_none());
    let mut expected = vec![0u8, 0u8];
    expected.extend(vec![0u8; 32]);
    assert_eq!(t.envelope, expected);
    let (t, state) = instantiate(&reg, id, &vec![0]);
    assert!(t.reverted);
    assert!(state.is_none());
    assert_eq!(t.envelope, vec![1u8, 1u8]);
}
