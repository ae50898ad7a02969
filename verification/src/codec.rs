use vstd::prelude::*;

use crate::outcome::{
    BusinessOutcome, BusinessView, DecodeView, DecodedResult, DispatchError, DispatchOutcome,
    OutcomeView, ProtocolError,
};
use crate::registry::{schema_byte_len, schema_len, ConstructorDescriptor};

verus! {

/// Discriminant of the Ok side of either layer.
pub const TAG_OK: u8 = 0;

/// Discriminant of the Err side of either layer.
pub const TAG_ERR: u8 = 1;

/// Kind byte of `DispatchError::CouldNotReadInput`.
pub const KIND_COULD_NOT_READ_INPUT: u8 = 1;

/// Kind byte of `DispatchError::UnknownSelector`.
pub const KIND_UNKNOWN_SELECTOR: u8 = 2;

/// The kind byte that follows the layer-1 Err tag.
pub open spec fn dispatch_error_kind(e: DispatchError) -> u8 {
    match e {
        DispatchError::CouldNotReadInput => KIND_COULD_NOT_READ_INPUT,
        DispatchError::UnknownSelector => KIND_UNKNOWN_SELECTOR,
    }
}

/// The envelope bytes of an outcome: a layer-1 tag; for dispatched outcomes
/// the payload follows, preceded for the fallible shapes by a layer-2 tag.
pub open spec fn encoding_of(o: OutcomeView) -> Seq<u8> {
    match o {
        OutcomeView::Failed(e) => seq![TAG_ERR, dispatch_error_kind(e)],
        OutcomeView::Dispatched(b) => match b {
            BusinessView::Value(p) => seq![TAG_OK] + p,
            BusinessView::Success(p) => seq![TAG_OK, TAG_OK] + p,
            BusinessView::Failure(p) => seq![TAG_OK, TAG_ERR] + p,
        },
    }
}

/// Executable counterpart of `dispatch_error_kind`.
pub fn dispatch_error_kind_byte(e: &DispatchError) -> (b: u8)
    ensures
        b == dispatch_error_kind(*e),
{
    match e {
        DispatchError::CouldNotReadInput => KIND_COULD_NOT_READ_INPUT,
        DispatchError::UnknownSelector => KIND_UNKNOWN_SELECTOR,
    }
}

/// Appends all bytes of `src` to `dst`.
fn push_bytes(dst: &mut Vec<u8>, src: &Vec<u8>)
    ensures
        final(dst)@ == old(dst)@ + src@,
{
    let mut i: usize = 0;
    while i < src.len()
        invariant
            0 <= i <= src.len(),
            dst@ == old(dst)@ + src@.subrange(0, i as int),
        decreases src.len() - i,
    {
        dst.push(src[i]);
        proof {
            assert(src@.subrange(0, i + 1) =~= src@.subrange(0, i as int).push(src@[i as int]));
        }
        i = i + 1;
    }
    proof {
        assert(src@.subrange(0, src@.len() as int) =~= src@);
    }
}

/// Serializes a two-layer outcome. The encoder validates nothing: it
/// faithfully serializes whatever outcome it is given, schema-matching or
/// not, and is total: it never fails on a well-formed outcome value.
pub fn encode(outcome: &DispatchOutcome) -> (r: Vec<u8>)
    ensures
        r@ == encoding_of(outcome@),
{
    let mut out: Vec<u8> = Vec::new();
    match outcome {
        DispatchOutcome::Failed(e) => {
            out.push(TAG_ERR);
            out.push(dispatch_error_kind_byte(e));
            proof {
                assert(out@ =~= encoding_of(outcome@));
            }
        },
        DispatchOutcome::Dispatched(b) => {
            out.push(TAG_OK);
            match b {
                BusinessOutcome::Value(p) => {
                    push_bytes(&mut out, p);
                    proof {
                        assert(out@ =~= seq![TAG_OK] + p@);
                    }
                },
                BusinessOutcome::Success(p) => {
                    out.push(TAG_OK);
                    push_bytes(&mut out, p);
                    proof {
                        assert(out@ =~= seq![TAG_OK, TAG_OK] + p@);
                    }
                },
                BusinessOutcome::Failure(p) => {
                    out.push(TAG_ERR);
                    push_bytes(&mut out, p);
                    proof {
                        assert(out@ =~= seq![TAG_OK, TAG_ERR] + p@);
                    }
                },
            }
        },
    }
    out
}

/// What decoding a byte buffer yields under a descriptor that declares the
/// given fallibility and error-payload length. Truncation and schema
/// mismatches are explicit outcomes, never a silent default.
pub open spec fn spec_decode(b: Seq<u8>, fallible: bool, err_len: nat) -> DecodeView {
    if b.len() == 0 {
        DecodeView::Truncated
    } else if b[0] == TAG_ERR {
        if b.len() < 2 {
            DecodeView::Truncated
        } else if b[1] == KIND_COULD_NOT_READ_INPUT {
            DecodeView::DispatchFailed(DispatchError::CouldNotReadInput)
        } else if b[1] == KIND_UNKNOWN_SELECTOR {
            DecodeView::DispatchFailed(DispatchError::UnknownSelector)
        } else {
            DecodeView::Mismatch
        }
    } else if b[0] != TAG_OK {
        DecodeView::Mismatch
    } else if !fallible {
        if b.len() == 1 {
            DecodeView::Succeeded
        } else {
            DecodeView::Mismatch
        }
    } else if b.len() < 2 {
        DecodeView::Truncated
    } else if b[1] == TAG_OK {
        if b.len() == 2 {
            DecodeView::BusinessSucceeded
        } else {
            DecodeView::Mismatch
        }
    } else if b[1] == TAG_ERR {
        if b.len() == 2 + err_len {
            DecodeView::BusinessFailed(b.subrange(2, b.len() as int))
        } else {
            DecodeView::Mismatch
        }
    } else {
        DecodeView::Mismatch
    }
}

/// The model of a decode attempt's result, protocol errors included.
pub open spec fn decode_view(r: Result<DecodedResult, ProtocolError>) -> DecodeView {
    match r {
        Result::Ok(d) => d@,
        Result::Err(ProtocolError::SchemaMismatch) => DecodeView::Mismatch,
        Result::Err(ProtocolError::TruncatedInput) => DecodeView::Truncated,
    }
}

/// Decodes an envelope against the descriptor of the invoked constructor.
/// Layer 1 is read first; a dispatch error ends the decode whatever the
/// descriptor declares. A layer-1 Ok is then validated against the
/// descriptor: no trailing bytes for an infallible constructor, and for a
/// fallible one a layer-2 tag followed by a payload of exactly the length
/// the schema predicts.
pub fn decode(bytes: &Vec<u8>, descriptor: &ConstructorDescriptor) -> (r: Result<
    DecodedResult,
    ProtocolError,
>)
    ensures
        decode_view(r) == spec_decode(
            bytes@,
            descriptor.is_fallible,
            schema_len(descriptor.error_schema),
        ),
{
    if bytes.len() == 0 {
        return Err(ProtocolError::TruncatedInput);
    }
    let tag1 = bytes[0];
    if tag1 == TAG_ERR {
        if bytes.len() < 2 {
            return Err(ProtocolError::TruncatedInput);
        }
        let kind = bytes[1];
        if kind == KIND_COULD_NOT_READ_INPUT {
            Ok(DecodedResult::DispatchFailed(DispatchError::CouldNotReadInput))
        } else if kind == KIND_UNKNOWN_SELECTOR {
            Ok(DecodedResult::DispatchFailed(DispatchError::UnknownSelector))
        } else {
            Err(ProtocolError::SchemaMismatch)
        }
    } else if tag1 != TAG_OK {
        Err(ProtocolError::SchemaMismatch)
    } else if !descriptor.is_fallible {
        if bytes.len() == 1 {
            Ok(DecodedResult::Succeeded)
        } else {
            Err(ProtocolError::SchemaMismatch)
        }
    } else {
        if bytes.len() < 2 {
            return Err(ProtocolError::TruncatedInput);
        }
        let tag2 = bytes[1];
        if tag2 == TAG_OK {
            if bytes.len() == 2 {
                Ok(DecodedResult::BusinessSucceeded)
            } else {
                Err(ProtocolError::SchemaMismatch)
            }
        } else if tag2 == TAG_ERR {
            let err_len = schema_byte_len(&descriptor.error_schema);
            if bytes.len() - 2 == err_len {
                let mut payload: Vec<u8> = Vec::new();
                let mut i: usize = 2;
                while i < bytes.len()
                    invariant
                        2 <= i <= bytes@.len(),
                        payload@ == bytes@.subrange(2, i as int),
                    decreases bytes@.len() - i,
                {
                    payload.push(bytes[i]);
                    proof {
                        assert(bytes@.subrange(2, i + 1) =~= bytes@.subrange(2, i as int).push(
                            bytes@[i as int],
                        ));
                    }
                    i = i + 1;
                }
                Ok(DecodedResult::BusinessFailed(payload))
            } else {
                Err(ProtocolError::SchemaMismatch)
            }
        } else {
            Err(ProtocolError::SchemaMismatch)
        }
    }
}

/// Infallible round trip: the envelope of a dispatched unit value decodes,
/// under any infallible descriptor, to a success with no business layer and
/// no trailing bytes.
pub proof fn lemma_infallible_round_trip(err_len: nat)
    ensures
        spec_decode(
            encoding_of(OutcomeView::Dispatched(BusinessView::Value(Seq::empty()))),
            false,
            err_len,
        ) == DecodeView::Succeeded,
{
    let e = encoding_of(OutcomeView::Dispatched(BusinessView::Value(Seq::empty())));
    assert(e =~= seq![TAG_OK]);
}

/// Fallible success round trip: the envelope of a business success with a
/// unit payload decodes, under any fallible descriptor, to a layer-1 Ok and
/// a layer-2 Ok.
pub proof fn lemma_fallible_success_round_trip(err_len: nat)
    ensures
        spec_decode(
            encoding_of(OutcomeView::Dispatched(BusinessView::Success(Seq::empty()))),
            true,
            err_len,
        ) == DecodeView::BusinessSucceeded,
{
    let e = encoding_of(OutcomeView::Dispatched(BusinessView::Success(Seq::empty())));
    assert(e =~= seq![TAG_OK, TAG_OK]);
}

/// Fallible failure round trip: the envelope of a business failure decodes,
/// under a fallible descriptor whose schema has the payload's length, to a
/// layer-1 Ok and a layer-2 Err carrying that very payload.
pub proof fn lemma_fallible_failure_round_trip(p: Seq<u8>)
    ensures
        spec_decode(encoding_of(OutcomeView::Dispatched(BusinessView::Failure(p))), true, p.len())
            == DecodeView::BusinessFailed(p),
{
    let e = encoding_of(OutcomeView::Dispatched(BusinessView::Failure(p)));
    assert(e.len() == 2 + p.len());
    assert(e[0] == TAG_OK && e[1] == TAG_ERR);
    assert(e.subrange(2, e.len() as int) =~= p);
}

/// Schema mismatch detection: a business failure decoded under a descriptor
/// that predicts a different error-payload length is a mismatch, never a
/// silent default value.
pub proof fn lemma_schema_mismatch_detected(p: Seq<u8>, err_len: nat)
    requires
        err_len != p.len(),
    ensures
        spec_decode(encoding_of(OutcomeView::Dispatched(BusinessView::Failure(p))), true, err_len)
            == DecodeView::Mismatch,
{
    let e = encoding_of(OutcomeView::Dispatched(BusinessView::Failure(p)));
    assert(e.len() == 2 + p.len());
    assert(e[0] == TAG_OK && e[1] == TAG_ERR);
}

/// Truncation detection: a buffer shorter than the discriminants require is
/// reported as truncated, never a silent default value.
pub proof fn lemma_truncation_detected(b: Seq<u8>, fallible: bool, err_len: nat)
    requires
        b.len() == 0 || (b.len() == 1 && (b[0] == TAG_ERR || (fallible && b[0] == TAG_OK))),
    ensures
        spec_decode(b, fallible, err_len) == DecodeView::Truncated,
{
}

} // verus!
