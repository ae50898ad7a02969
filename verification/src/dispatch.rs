use vstd::prelude::*;
use vstd::pervasive::unreached;

use crate::channel::{transmit, Transmission};
use crate::codec::{decode_view, encode, encoding_of, spec_decode};
use crate::contract::{account_payload, ConstructorsReturnValue};
use crate::outcome::{
    BusinessOutcome, BusinessView, DecodeView, DecodedResult, DispatchError, DispatchOutcome,
    OutcomeView, ProtocolError,
};
use crate::registry::{
    declared_table, lemma_lookup_spec4, lookup_spec, name_new, name_new_bytes, name_revert_new,
    name_revert_new_bytes, name_try_new, name_try_new_bytes, name_try_revert_new,
    name_try_revert_new_bytes, schema_len, Registry,
};
use crate::selector::{selector_of, selector_spec};

verus! {

/// Mathematical model of one instantiation: the envelope it transmits, the
/// reverted flag, and the contract state the host retains (the stored flag),
/// already rolled back when the call reverted.
pub struct InstantiationView {
    pub envelope: Seq<u8>,
    pub reverted: bool,
    pub state: Option<bool>,
}

/// Whether a selector id belongs to a declared constructor.
pub open spec fn declared_selector(id: u32) -> bool {
    ||| id == selector_spec(name_new())
    ||| id == selector_spec(name_try_new())
    ||| id == selector_spec(name_revert_new())
    ||| id == selector_spec(name_try_revert_new())
}

/// The boolean constructor argument carried by the input buffer: exactly one
/// byte, zero or one. Anything else is unreadable input.
pub open spec fn spec_bool_arg(args: Seq<u8>) -> Option<bool> {
    if args.len() == 1 && args[0] == 0 {
        Some(false)
    } else if args.len() == 1 && args[0] == 1 {
        Some(true)
    } else {
        None
    }
}

/// Reads the boolean constructor argument.
fn read_bool_arg(args: &Vec<u8>) -> (r: Option<bool>)
    ensures
        r == spec_bool_arg(args@),
{
    if args.len() == 1 && args[0] == 0 {
        Some(false)
    } else if args.len() == 1 && args[0] == 1 {
        Some(true)
    } else {
        None
    }
}

/// What one instantiation call transmits and retains, selector by selector,
/// in declaration order. An unknown selector and unreadable input fail at
/// layer 1 before any constructor logic runs; every reverted outcome retains
/// no state.
pub open spec fn spec_instantiate(selector_id: u32, args: Seq<u8>) -> InstantiationView {
    if !declared_selector(selector_id) {
        InstantiationView {
            envelope: encoding_of(OutcomeView::Failed(DispatchError::UnknownSelector)),
            reverted: true,
            state: None,
        }
    } else if spec_bool_arg(args) is None {
        InstantiationView {
            envelope: encoding_of(OutcomeView::Failed(DispatchError::CouldNotReadInput)),
            reverted: true,
            state: None,
        }
    } else {
        let b = spec_bool_arg(args)->Some_0;
        if selector_id == selector_spec(name_new()) {
            InstantiationView {
                envelope: encoding_of(OutcomeView::Dispatched(BusinessView::Value(Seq::empty()))),
                reverted: false,
                state: Some(b),
            }
        } else if selector_id == selector_spec(name_try_new()) {
            if b {
                InstantiationView {
                    envelope: encoding_of(
                        OutcomeView::Dispatched(BusinessView::Success(Seq::empty())),
                    ),
                    reverted: false,
                    state: Some(true),
                }
            } else {
                InstantiationView {
                    envelope: encoding_of(
                        OutcomeView::Dispatched(BusinessView::Failure(Seq::empty())),
                    ),
                    reverted: true,
                    state: None,
                }
            }
        } else if selector_id == selector_spec(name_revert_new()) {
            InstantiationView {
                envelope: encoding_of(
                    OutcomeView::Dispatched(BusinessView::Value(account_payload())),
                ),
                reverted: true,
                state: None,
            }
        } else {
            if b {
                InstantiationView {
                    envelope: encoding_of(
                        OutcomeView::Dispatched(BusinessView::Success(account_payload())),
                    ),
                    reverted: true,
                    state: None,
                }
            } else {
                InstantiationView {
                    envelope: encoding_of(OutcomeView::Failed(DispatchError::CouldNotReadInput)),
                    reverted: true,
                    state: None,
                }
            }
        }
    }
}

/// The stored flag of a retained contract state.
pub open spec fn state_view(s: Option<ConstructorsReturnValue>) -> Option<bool> {
    match s {
        Some(c) => Some(c.spec_value()),
        None => None,
    }
}

/// The instantiate entry point: routes the call by selector, consulting the
/// registry to validate that the selector exists, runs the constructor, and
/// hands its envelope and reverted flag to the return channel. The second
/// component is the contract state the host retains, already discarded when
/// the call reverted.
pub fn instantiate(registry: &Registry, selector_id: u32, encoded_args: &Vec<u8>) -> (r: (
    Transmission,
    Option<ConstructorsReturnValue>,
))
    requires
        registry@ == declared_table(),
    ensures
        r.0.envelope@ == spec_instantiate(selector_id, encoded_args@).envelope,
        r.0.reverted == spec_instantiate(selector_id, encoded_args@).reverted,
        state_view(r.1) == spec_instantiate(selector_id, encoded_args@).state,
{
    proof {
        lemma_lookup_spec4(declared_table(), selector_id);
    }
    match registry.lookup(selector_id) {
        None => {
            let t = transmit(
                encode(&DispatchOutcome::Failed(DispatchError::UnknownSelector)),
                true,
            );
            (t, None)
        },
        Some(_) => {
            match read_bool_arg(encoded_args) {
                None => {
                    let t = transmit(
                        encode(&DispatchOutcome::Failed(DispatchError::CouldNotReadInput)),
                        true,
                    );
                    (t, None)
                },
                Some(b) => {
                    if selector_id == selector_of(&name_new_bytes()) {
                        let c = ConstructorsReturnValue::new(b);
                        let t = transmit(
                            encode(&DispatchOutcome::Dispatched(BusinessOutcome::Value(Vec::new()))),
                            false,
                        );
                        (t, Some(c))
                    } else if selector_id == selector_of(&name_try_new_bytes()) {
                        match ConstructorsReturnValue::try_new(b) {
                            Ok(c) => {
                                let t = transmit(
                                    encode(
                                        &DispatchOutcome::Dispatched(
                                            BusinessOutcome::Success(Vec::new()),
                                        ),
                                    ),
                                    false,
                                );
                                (t, Some(c))
                            },
                            Err(_) => {
                                let t = transmit(
                                    encode(
                                        &DispatchOutcome::Dispatched(
                                            BusinessOutcome::Failure(Vec::new()),
                                        ),
                                    ),
                                    true,
                                );
                                (t, None)
                            },
                        }
                    } else if selector_id == selector_of(&name_revert_new_bytes()) {
                        (ConstructorsReturnValue::revert_new(b), None)
                    } else if selector_id == selector_of(&name_try_revert_new_bytes()) {
                        (ConstructorsReturnValue::try_revert_new(b), None)
                    } else {
                        unreached()
                    }
                },
            }
        },
    }
}

/// How a committing caller interprets a decode attempt together with the
/// out-of-band reverted flag: an apparent success counts only when the call
/// did not revert; a protocol error never counts.
pub open spec fn committed_success(v: DecodeView, reverted: bool) -> bool {
    !reverted && (v is Succeeded || v is BusinessSucceeded)
}

/// Committing-caller verdict on one instantiation: whether the decoded
/// envelope, cross-checked against the reverted flag, reports a successful
/// instantiation.
pub fn instantiation_succeeded(decoded: &Result<DecodedResult, ProtocolError>, reverted: bool) -> (b:
    bool)
    ensures
        b == committed_success(decode_view(*decoded), reverted),
{
    if reverted {
        false
    } else {
        match decoded {
            Ok(d) => match d {
                DecodedResult::Succeeded => true,
                DecodedResult::BusinessSucceeded => true,
                _ => false,
            },
            Err(_) => false,
        }
    }
}

/// A decoded business failure is never reported as a successful
/// instantiation by a committing caller, whatever the reverted flag says.
pub proof fn lemma_business_failure_never_success(p: Seq<u8>, reverted: bool)
    ensures
        !committed_success(DecodeView::BusinessFailed(p), reverted),
{
}

/// The reverted flag overrides apparent success: no decode outcome, however
/// successful-looking its bytes, counts as a successful instantiation when
/// the call reverted.
pub proof fn lemma_reverted_overrides_success(v: DecodeView)
    ensures
        !committed_success(v, true),
{
}

/// Reverting discards state: an instantiation whose transmission carries the
/// reverted flag retains no contract state.
pub proof fn lemma_reverted_discards_state(selector_id: u32, args: Seq<u8>)
    ensures
        spec_instantiate(selector_id, args).reverted ==> spec_instantiate(
            selector_id,
            args,
        ).state is None,
{
}

/// End to end: the state an instantiation retains is exactly what a
/// committing caller concludes from decoding its envelope under the invoked
/// selector's own descriptor, cross-checked against the reverted flag.
pub proof fn lemma_instantiate_end_to_end(selector_id: u32, args: Seq<u8>)
    ensures
        ({
            let v = spec_instantiate(selector_id, args);
            let fallible = match lookup_spec(declared_table(), selector_id) {
                Some(d) => d.is_fallible,
                None => false,
            };
            let err_len = match lookup_spec(declared_table(), selector_id) {
                Some(d) => schema_len(d.error_schema),
                None => 0,
            };
            v.state is Some <==> committed_success(spec_decode(v.envelope, fallible, err_len), v.reverted)
        }),
{
    lemma_lookup_spec4(declared_table(), selector_id);
    let v = spec_instantiate(selector_id, args);
    if declared_selector(selector_id) && spec_bool_arg(args) is Some {
        let b = spec_bool_arg(args)->Some_0;
        if selector_id == selector_spec(name_new()) {
            assert(v.envelope =~= seq![crate::codec::TAG_OK]);
        } else if selector_id == selector_spec(name_try_new()) {
            if b {
                assert(v.envelope =~= seq![crate::codec::TAG_OK, crate::codec::TAG_OK]);
            } else {
                assert(v.envelope =~= seq![crate::codec::TAG_OK, crate::codec::TAG_ERR]);
            }
        } else if selector_id == selector_spec(name_revert_new()) {
            assert(v.envelope.len() == 33);
            assert(v.envelope[0] == crate::codec::TAG_OK);
        } else {
            if b {
                assert(v.envelope.len() == 34);
                assert(v.envelope[0] == crate::codec::TAG_OK);
                assert(v.envelope[1] == crate::codec::TAG_OK);
            }
        }
    }
}

} // verus!
