//! BLAKE3 hashing (through the `blake3` crate) and byte-slice helpers.
use vstd::prelude::*;

verus! {

/// The 32-byte BLAKE3 hash of `data`, as computed by `blake3::hash`.
pub uninterp spec fn spec_blake3(data: Seq<u8>) -> Seq<u8>;

/// BLAKE3 hash of `data`, by `blake3::hash`. The contract claims only
/// that the result is the (deterministic) BLAKE3 hash of the bytes; the
/// hash function itself is not modelled.
#[verifier::external_body]
pub(crate) fn blake3_hash(data: &[u8]) -> (h: [u8; 32])
    ensures
        h@ == spec_blake3(data@),
{
    blake3::hash(data).into()
}

/// Byte-wise equality of two slices.
pub fn slices_equal(a: &[u8], b: &[u8]) -> (r: bool)
    ensures
        r == (a@ == b@),
{
    if a.len() != b.len() {
        return false;
    }
    let mut i: usize = 0;
    while i < a.len()
        invariant
            0 <= i <= a@.len(),
            a@.len() == b@.len(),
            forall|j: int| 0 <= j < i ==> a@[j] == b@[j],
        decreases a.len() - i,
    {
        if a[i] != b[i] {
            return false;
        }
        i = i + 1;
    }
    assert(a@ =~= b@);
    true
}

/// Equality of two 32-byte arrays.
pub fn bytes32_equal(a: &[u8; 32], b: &[u8; 32]) -> (r: bool)
    ensures
        r == (a@ == b@),
{
    slices_equal(a.as_slice(), b.as_slice())
}

} // verus!
