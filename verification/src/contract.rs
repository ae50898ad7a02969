use vstd::prelude::*;

use crate::channel::{transmit, Transmission};
use crate::codec::{encode, encoding_of};
use crate::outcome::{
    BusinessOutcome, BusinessView, ConstructorError, DispatchError, DispatchOutcome, OutcomeView,
};

verus! {

/// The payload that the adversarial constructors embed: the 32-byte
/// encoding of a zeroed account identifier, a well-formed value of a schema
/// that none of the declared constructors returns.
pub open spec fn account_payload() -> Seq<u8> {
    Seq::new(32, |i: int| 0u8)
}

/// Builds the adversarial 32-byte payload.
pub fn account_payload_bytes() -> (v: Vec<u8>)
    ensures
        v@ == account_payload(),
{
    let mut v: Vec<u8> = Vec::new();
    let mut i: usize = 0;
    while i < 32
        invariant
            0 <= i <= 32,
            v@ == account_payload().subrange(0, i as int),
        decreases 32 - i,
    {
        v.push(0u8);
        proof {
            assert(account_payload().subrange(0, i + 1) =~= account_payload().subrange(
                0,
                i as int,
            ).push(0u8));
        }
        i = i + 1;
    }
    proof {
        assert(account_payload().subrange(0, 32) =~= account_payload());
    }
    v
}

/// The contract whose constructors this protocol reports on: it stores one
/// boolean flag.
pub struct ConstructorsReturnValue {
    value: bool,
}

impl ConstructorsReturnValue {
    /// The stored flag.
    pub closed spec fn spec_value(&self) -> bool {
        self.value
    }

    /// Infallible constructor: stores the given flag.
    pub fn new(init_value: bool) -> (r: Self)
        ensures
            r.spec_value() == init_value,
    {
        Self { value: init_value }
    }

    /// Fallible constructor: succeeds exactly when asked to, and a success
    /// always stores `true`.
    pub fn try_new(succeed: bool) -> (r: Result<Self, ConstructorError>)
        ensures
            r is Ok <==> succeed,
            r matches Ok(c) ==> c.spec_value() == true,
    {
        if succeed {
            Ok(Self::new(true))
        } else {
            Err(ConstructorError)
        }
    }

    /// Adversarial constructor: transmits, with the reverted flag set, an
    /// envelope that encodes an apparent success whose payload does not
    /// match the declared (infallible) schema. The transmission is terminal:
    /// no contract value is ever produced.
    pub fn revert_new(_init_value: bool) -> (t: Transmission)
        ensures
            t.reverted == true,
            t.envelope@ == encoding_of(
                OutcomeView::Dispatched(BusinessView::Value(account_payload())),
            ),
    {
        let outcome = DispatchOutcome::Dispatched(BusinessOutcome::Value(account_payload_bytes()));
        transmit(encode(&outcome), true)
    }

    /// Adversarial fallible constructor: transmits, always with the reverted
    /// flag set, either an apparent business success carrying a payload of
    /// the wrong schema, or a layer-1 dispatch error. Terminal as well.
    pub fn try_revert_new(init_value: bool) -> (t: Transmission)
        ensures
            t.reverted == true,
            init_value ==> t.envelope@ == encoding_of(
                OutcomeView::Dispatched(BusinessView::Success(account_payload())),
            ),
            !init_value ==> t.envelope@ == encoding_of(
                OutcomeView::Failed(DispatchError::CouldNotReadInput),
            ),
    {
        let outcome = if init_value {
            DispatchOutcome::Dispatched(BusinessOutcome::Success(account_payload_bytes()))
        } else {
            DispatchOutcome::Failed(DispatchError::CouldNotReadInput)
        };
        transmit(encode(&outcome), true)
    }

    /// Returns the current value of the contract storage.
    pub fn get_value(&self) -> (r: bool)
        ensures
            r == self.spec_value(),
    {
        self.value
    }
}

} // verus!
