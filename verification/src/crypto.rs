//! Poseidon2 hashing over the Goldilocks field, as transactions are hashed
//! for signing.

use vstd::prelude::*;

verus! {

/// The Goldilocks prime `2^64 - 2^32 + 1`.
pub const GOLDILOCKS_MODULUS: u64 = 0xffff_ffff_0000_0001;

/// Every element is already reduced modulo the Goldilocks prime.
pub open spec fn canonical_elements(elements: Seq<u64>) -> bool {
    forall|i: int| 0 <= i < elements.len() ==> #[trigger] elements[i] < GOLDILOCKS_MODULUS
}

/// The 40 little-endian bytes of the Poseidon2 hash, to the quintic
/// extension field, of a sequence of Goldilocks elements.
pub uninterp spec fn poseidon2_quintic_bytes(elements: Seq<u64>) -> Seq<u8>;

/// Hashes field elements with `poseidon_hash::hash_to_quintic_extension`
/// and returns the bytes of `Fp5Element::to_bytes_le`.
///
/// Trusted: the result is `poseidon2_quintic_bytes` of the elements and is
/// 40 bytes long (`to_bytes_le` returns `[u8; 40]`). `Goldilocks::from`
/// asserts in debug builds that its argument is canonical, so the elements
/// are required to be below the modulus.
#[verifier::external_body]
pub(crate) fn poseidon2_hash(elements: &Vec<u64>) -> (r: Vec<u8>)
    requires
        canonical_elements(elements@),
    ensures
        r@ == poseidon2_quintic_bytes(elements@),
        r@.len() == 40,
{
    let field: Vec<poseidon_hash::Goldilocks> =
        elements.iter().map(|v| poseidon_hash::Goldilocks::from(*v)).collect();
    poseidon_hash::hash_to_quintic_extension(&field).to_bytes_le().to_vec()
}

} // verus!

verus! {

/// Whether every element is already reduced modulo the Goldilocks prime,
/// as hashing requires.
pub fn elements_canonical(elements: &Vec<u64>) -> (r: bool)
    ensures
        r == canonical_elements(elements@),
{
    let n = elements.len();
    let mut i: usize = 0;
    while i < n
        invariant
            n == elements@.len(),
            i <= n,
            forall|j: int| 0 <= j < i ==> elements@[j] < GOLDILOCKS_MODULUS,
        decreases n - i,
    {
        if elements[i] >= GOLDILOCKS_MODULUS {
            return false;
        }
        i = i + 1;
    }
    true
}

} // verus!
