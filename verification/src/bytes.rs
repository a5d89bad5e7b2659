//! Small operations on byte strings.

use vstd::prelude::*;

verus! {

/// Whether two byte strings are the same.
pub fn same_bytes(a: &[u8], b: &[u8]) -> (r: bool)
    ensures
        r == (a@ == b@),
{
    if a.len() != b.len() {
        return false;
    }
    let mut i: usize = 0;
    while i < a.len()
        invariant
            a@.len() == b@.len(),
            0 <= i <= a@.len(),
            forall|k: int| 0 <= k < i ==> a@[k] == b@[k],
        decreases a@.len() - i,
    {
        if a[i] != b[i] {
            return false;
        }
        i += 1;
    }
    assert(a@ =~= b@);
    true
}

/// Where `byte` first occurs in `bytes`.
pub open spec fn first_index_of(bytes: Seq<u8>, byte: u8) -> Option<int>
    decreases bytes.len(),
{
    if bytes.len() == 0 {
        None
    } else if bytes[0] == byte {
        Some(0)
    } else {
        match first_index_of(bytes.drop_first(), byte) {
            Some(i) => Some(i + 1),
            None => None,
        }
    }
}

/// `first_index_of` is the least index at which the byte stands, and is
/// `None` exactly where the byte stands nowhere.
pub proof fn lemma_first_index_of(bytes: Seq<u8>, byte: u8)
    ensures
        match first_index_of(bytes, byte) {
            Some(i) => 0 <= i < bytes.len() && bytes[i] == byte && forall|k: int|
                0 <= k < i ==> bytes[k] != byte,
            None => forall|k: int| 0 <= k < bytes.len() ==> bytes[k] != byte,
        },
    decreases bytes.len(),
{
    if bytes.len() > 0 && bytes[0] != byte {
        let rest = bytes.drop_first();
        lemma_first_index_of(rest, byte);
        match first_index_of(rest, byte) {
            Some(i) => {
                assert forall|k: int| 0 <= k < i + 1 implies bytes[k] != byte by {
                    if k > 0 {
                        assert(bytes[k] == rest[k - 1]);
                    }
                }
            },
            None => {
                assert forall|k: int| 0 <= k < bytes.len() implies bytes[k] != byte by {
                    if k > 0 {
                        assert(bytes[k] == rest[k - 1]);
                    }
                }
            },
        }
    }
}

/// An index at which the byte stands, with none before it, is the first.
pub proof fn lemma_first_index_is(bytes: Seq<u8>, byte: u8, at: int)
    requires
        0 <= at < bytes.len(),
        bytes[at] == byte,
        forall|k: int| 0 <= k < at ==> bytes[k] != byte,
    ensures
        first_index_of(bytes, byte) == Some(at),
{
    lemma_first_index_of(bytes, byte);
}

/// A byte string in which the byte stands nowhere has no first index.
pub proof fn lemma_first_index_none(bytes: Seq<u8>, byte: u8)
    requires
        forall|k: int| 0 <= k < bytes.len() ==> bytes[k] != byte,
    ensures
        first_index_of(bytes, byte) is None,
{
    lemma_first_index_of(bytes, byte);
}

/// Finds the first occurrence of `byte`.
pub fn find_byte(bytes: &[u8], byte: u8) -> (r: Option<usize>)
    ensures
        match r {
            Some(i) => first_index_of(bytes@, byte) == Some(i as int) && i < bytes@.len()
                && bytes@[i as int] == byte,
            None => first_index_of(bytes@, byte) is None,
        },
{
    let mut i: usize = 0;
    while i < bytes.len()
        invariant
            0 <= i <= bytes@.len(),
            forall|k: int| 0 <= k < i ==> bytes@[k] != byte,
        decreases bytes@.len() - i,
    {
        if bytes[i] == byte {
            proof {
                lemma_first_index_is(bytes@, byte, i as int);
            }
            return Some(i);
        }
        i += 1;
    }
    proof {
        lemma_first_index_none(bytes@, byte);
    }
    None
}

/// Copies a byte string of length `N` into an array.
pub fn to_array<const N: usize>(bytes: &[u8]) -> (r: [u8; N])
    requires
        bytes@.len() == N,
    ensures
        r@ == bytes@,
{
    let mut out = [0u8; N];
    let mut i: usize = 0;
    while i < N
        invariant
            bytes@.len() == N,
            0 <= i <= N,
            forall|k: int| 0 <= k < i ==> out@[k] == bytes@[k],
        decreases N - i,
    {
        out[i] = bytes[i];
        i += 1;
    }
    assert(out@ =~= bytes@);
    out
}

} // verus!
