//! Small helpers on byte strings.
//!
//! Identifiers, type tags, free text, keys and hashes are all carried as
//! byte strings; these helpers compare and copy them with exact contracts.

use vstd::prelude::*;

use crate::HASH_LENGTH;

verus! {

/// Whether two byte strings hold the same bytes.
pub fn bytes_eq(a: &Vec<u8>, b: &Vec<u8>) -> (r: bool)
    ensures
        r == (a@ == b@),
{
    let n = a.len();
    if n != b.len() {
        proof {
            assert(a@.len() != b@.len());
        }
        return false;
    }
    let mut i: usize = 0;
    while i < n
        invariant
            n == a@.len(),
            n == b@.len(),
            i <= n,
            forall|j: int| 0 <= j < i ==> a@[j] == b@[j],
        decreases n - i,
    {
        if a[i] != b[i] {
            return false;
        }
        i = i + 1;
    }
    proof {
        assert(a@ =~= b@);
    }
    true
}

/// A fresh copy of a byte string.
pub fn copy_bytes(a: &Vec<u8>) -> (r: Vec<u8>)
    ensures
        r@ == a@,
{
    let n = a.len();
    let mut out: Vec<u8> = Vec::new();
    let mut i: usize = 0;
    while i < n
        invariant
            n == a@.len(),
            i <= n,
            out@ =~= a@.subrange(0, i as int),
        decreases n - i,
    {
        out.push(a[i]);
        i = i + 1;
        proof {
            assert(out@ =~= a@.subrange(0, i as int));
        }
    }
    proof {
        assert(out@ =~= a@);
    }
    out
}

/// The all-zero hash a fresh sync state starts from.
pub open spec fn spec_zero_hash() -> Seq<u8> {
    Seq::new(HASH_LENGTH as nat, |i: int| 0u8)
}

/// Build the all-zero hash.
pub fn zero_hash() -> (r: Vec<u8>)
    ensures
        r@ == spec_zero_hash(),
{
    let mut out: Vec<u8> = Vec::new();
    let mut i: usize = 0;
    while i < HASH_LENGTH
        invariant
            i <= HASH_LENGTH,
            out@ =~= spec_zero_hash().subrange(0, i as int),
        decreases HASH_LENGTH - i,
    {
        out.push(0u8);
        i = i + 1;
        proof {
            assert(out@ =~= spec_zero_hash().subrange(0, i as int));
        }
    }
    proof {
        assert(out@ =~= spec_zero_hash());
    }
    out
}

} // verus!
