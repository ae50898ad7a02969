use vstd::prelude::*;

verus! {

/// One transmission over the return channel: the envelope bytes and the
/// out-of-band reverted flag, which arrive at the host together or not at
/// all. Transmitting is the terminal act of a constructor's execution:
/// control passes back to the host, which discards every state mutation of
/// the call when `reverted` is set, and no constructor code runs afterwards.
pub struct Transmission {
    pub envelope: Vec<u8>,
    pub reverted: bool,
}

/// Hands an envelope and the reverted flag back to the host. One-shot and
/// terminal: a constructor performs this exactly once, as its last
/// operation.
pub fn transmit(envelope: Vec<u8>, reverted: bool) -> (t: Transmission)
    ensures
        t.envelope@ == envelope@,
        t.reverted == reverted,
{
    Transmission { envelope, reverted }
}

} // verus!
