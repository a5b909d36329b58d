use vstd::prelude::*;

verus! {

/// A 32-byte account key: the admin of a market, a participant, a mint or
/// the address of a market.
pub type Key = [u8; 32];

/// The all-zero key, which no real account holds.
pub open spec fn is_zero_key(k: Seq<u8>) -> bool {
    forall|i: int| 0 <= i < k.len() ==> k[i] == 0u8
}

/// Compares two keys byte by byte.
pub fn same_key(a: &Key, b: &Key) -> (r: bool)
    ensures
        r == (a@ == b@),
{
    let mut i: usize = 0;
    while i < 32
        invariant
            0 <= i <= 32,
            a@.len() == 32,
            b@.len() == 32,
            forall|j: int| 0 <= j < i ==> a@[j] == b@[j],
        decreases 32 - i,
    {
        if a[i] != b[i] {
            return false;
        }
        i = i + 1;
    }
    proof {
        assert(a@ =~= b@);
    }
    true
}

/// The all-zero key.
pub fn zero_key() -> (r: Key)
    ensures
        is_zero_key(r@),
{
    [0u8; 32]
}

/// Whether a key is all zero bytes.
pub fn is_zero(k: &Key) -> (r: bool)
    ensures
        r == is_zero_key(k@),
{
    let mut i: usize = 0;
    while i < 32
        invariant
            0 <= i <= 32,
            k@.len() == 32,
            forall|j: int| 0 <= j < i ==> k@[j] == 0u8,
        decreases 32 - i,
    {
        if k[i] != 0 {
            return false;
        }
        i = i + 1;
    }
    true
}

} // verus!
