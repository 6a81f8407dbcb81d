use vstd::prelude::*;

verus! {

/// The digest that Keccak-256 assigns to a byte sequence.
pub uninterp spec fn keccak256_of(input: Seq<u8>) -> Seq<u8>;

/// Relies on tiny_keccak's `Keccak::v256`, `Hasher::update` and
/// `Hasher::finalize`: the digest is a function of the input bytes alone,
/// and finalize fills exactly the 32-byte buffer it is given.
#[verifier::external_body]
fn keccak256(input: &[u8]) -> (r: Vec<u8>)
    ensures
        r@ == keccak256_of(input@),
        r@.len() == 32,
{
    let mut hasher = tiny_keccak::Keccak::v256();
    tiny_keccak::Hasher::update(&mut hasher, input);
    let mut out = [0u8; 32];
    tiny_keccak::Hasher::finalize(hasher, &mut out);
    out.to_vec()
}

/// The reference backend: a pure, stateless Keccak-256 of the input, 32
/// bytes long. No state survives the call.
pub fn reference_hash(input: &Vec<u8>) -> (r: Vec<u8>)
    ensures
        r@ == keccak256_of(input@),
        r@.len() == 32,
{
    keccak256(input.as_slice())
}

} // verus!
