//! Constructor dispatch and result-encoding protocol of a contract-execution
//! host: a registry of constructor descriptors, an encoder and a decoder for
//! the two-layer result envelope, the one-shot return channel that carries
//! the envelope together with the out-of-band reverted flag, and the host's
//! instantiate entry point.

pub mod channel;
pub mod codec;
pub mod contract;
pub mod dispatch;
pub mod outcome;
pub mod registry;
pub mod selector;
