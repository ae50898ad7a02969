use vstd::prelude::*;

verus! {

/// Layer-1 routing failures: the call never reached constructor logic.
#[derive(Clone, Copy, Debug, PartialEq, Eq, Structural)]
pub enum DispatchError {
    /// No declared constructor carries the requested selector.
    UnknownSelector,
    /// The input buffer did not hold well-formed constructor arguments.
    CouldNotReadInput,
}

/// Layer 2 of an outcome, with its payload already in serialized form, so
/// that the encoder can faithfully serialize outcomes that do not match the
/// declared schema of the invoked constructor (a deliberately representable
/// protocol-abuse state).
#[derive(Debug)]
pub enum BusinessOutcome {
    /// An infallible constructor's value: the payload follows the layer-1
    /// tag directly, with no layer-2 tag. A unit value has an empty payload.
    Value(Vec<u8>),
    /// A fallible constructor's success: a layer-2 tag, then the payload.
    Success(Vec<u8>),
    /// A fallible constructor's business failure: a layer-2 tag, then the
    /// encoded business error.
    Failure(Vec<u8>),
}

/// Layer 1 of an outcome: either the constructor ran and produced a business
/// outcome, or dispatch itself failed.
#[derive(Debug)]
pub enum DispatchOutcome {
    Dispatched(BusinessOutcome),
    Failed(DispatchError),
}

/// Mathematical model of a `BusinessOutcome`.
pub enum BusinessView {
    Value(Seq<u8>),
    Success(Seq<u8>),
    Failure(Seq<u8>),
}

/// Mathematical model of a `DispatchOutcome`.
pub enum OutcomeView {
    Dispatched(BusinessView),
    Failed(DispatchError),
}

impl View for BusinessOutcome {
    type V = BusinessView;

    open spec fn view(&self) -> BusinessView {
        match self {
            BusinessOutcome::Value(p) => BusinessView::Value(p@),
            BusinessOutcome::Success(p) => BusinessView::Success(p@),
            BusinessOutcome::Failure(p) => BusinessView::Failure(p@),
        }
    }
}

impl View for DispatchOutcome {
    type V = OutcomeView;

    open spec fn view(&self) -> OutcomeView {
        match self {
            DispatchOutcome::Dispatched(b) => OutcomeView::Dispatched(b@),
            DispatchOutcome::Failed(e) => OutcomeView::Failed(*e),
        }
    }
}

/// The business error type of the declared fallible constructors. It has no
/// fields, so its encoding is empty.
#[derive(Clone, Copy, Debug, PartialEq, Eq, Structural)]
pub struct ConstructorError;

/// Decoder-side hard failures: the bytes do not conform to what the
/// descriptor predicts. Reported, never silently coerced.
#[derive(Clone, Copy, Debug, PartialEq, Eq, Structural)]
pub enum ProtocolError {
    /// The bytes do not match the schema the descriptor predicts.
    SchemaMismatch,
    /// The buffer is shorter than the discriminants require.
    TruncatedInput,
}

/// A fully validated decoding of an envelope.
#[derive(Debug)]
pub enum DecodedResult {
    /// Layer 1 signalled a dispatch error; no business layer follows.
    DispatchFailed(DispatchError),
    /// Layer 1 Ok for an infallible constructor: no business layer exists.
    Succeeded,
    /// Layer 1 Ok and layer 2 Ok for a fallible constructor.
    BusinessSucceeded,
    /// Layer 1 Ok and layer 2 Err: carries the encoded business error.
    BusinessFailed(Vec<u8>),
}

/// Mathematical model of a decode attempt, protocol errors included.
pub enum DecodeView {
    Truncated,
    Mismatch,
    DispatchFailed(DispatchError),
    Succeeded,
    BusinessSucceeded,
    BusinessFailed(Seq<u8>),
}

impl View for DecodedResult {
    type V = DecodeView;

    open spec fn view(&self) -> DecodeView {
        match self {
            DecodedResult::DispatchFailed(e) => DecodeView::DispatchFailed(*e),
            DecodedResult::Succeeded => DecodeView::Succeeded,
            DecodedResult::BusinessSucceeded => DecodeView::BusinessSucceeded,
            DecodedResult::BusinessFailed(p) => DecodeView::BusinessFailed(p@),
        }
    }
}

} // verus!
