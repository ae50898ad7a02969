use vstd::prelude::*;

verus! {

/// The BLAKE2b-256 digest of a byte sequence. The digest depends on the
/// input bytes alone, so the result of the hashing call below can be named.
pub uninterp spec fn blake2_256_of(input: Seq<u8>) -> Seq<u8>;

/// Relies on `ink::env::hash_bytes` with `ink::env::hash::Blake2x256`: the
/// BLAKE2b-256 digest of the input, 32 bytes, a function of the input alone.
#[verifier::external_body]
fn blake2x256(input: &Vec<u8>) -> (r: Vec<u8>)
    ensures
        r@ == blake2_256_of(input@),
        r@.len() == 32,
{
    let mut output = [0u8; 32];
    ink::env::hash_bytes::<ink::env::hash::Blake2x256>(input.as_slice(), &mut output);
    output.to_vec()
}

/// The selector derived from a constructor's declared name: the first four
/// bytes of the BLAKE2b-256 digest of the name's bytes, read big-endian.
/// Stable across builds: the same name always yields the same id.
pub open spec fn selector_spec(name: Seq<u8>) -> u32 {
    let h = blake2_256_of(name);
    ((h[0] as int) * 0x1000000 + (h[1] as int) * 0x10000 + (h[2] as int) * 0x100 + (h[3] as int)) as u32
}

/// Computes the selector id of a constructor name.
pub fn selector_of(name: &Vec<u8>) -> (id: u32)
    ensures
        id == selector_spec(name@),
{
    let h = blake2x256(name);
    (h[0] as u32) * 0x1000000 + (h[1] as u32) * 0x10000 + (h[2] as u32) * 0x100 + (h[3] as u32)
}

} // verus!
