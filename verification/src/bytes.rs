//! Byte strings: equality, membership by an ordered scan, and fixed-width
//! copies.

use vstd::prelude::*;
use crate::types::byte_strings;

verus! {

/// Whether two byte strings are equal.
pub fn bytes_equal(left: &[u8], right: &[u8]) -> (out: bool)
    ensures
        out == (left@ == right@),
{
    if left.len() != right.len() {
        return false;
    }
    let mut i: usize = 0;
    while i < left.len()
        invariant
            i <= left@.len(),
            left@.len() == right@.len(),
            forall|j: int| 0 <= j < i ==> left@[j] == right@[j],
        decreases left@.len() - i,
    {
        if left[i] != right[i] {
            return false;
        }
        i += 1;
    }
    assert(left@ =~= right@);
    true
}

/// Whether `list` holds `item`, found by a scan from the front.
pub fn contains_bytes(list: &Vec<Vec<u8>>, item: &[u8]) -> (out: bool)
    ensures
        out == byte_strings(list@).contains(item@),
{
    let mut i: usize = 0;
    while i < list.len()
        invariant
            i <= list@.len(),
            forall|j: int| 0 <= j < i ==> byte_strings(list@)[j] != item@,
        decreases list@.len() - i,
    {
        if bytes_equal(list[i].as_slice(), item) {
            assert(byte_strings(list@)[i as int] == item@);
            return true;
        }
        i += 1;
    }
    false
}

/// Copies a byte string of exactly `N` bytes into an array. A byte string
/// of another length has no such copy.
pub fn to_array<const N: usize>(bytes: &[u8]) -> (out: Option<[u8; N]>)
    ensures
        out is Some <==> bytes@.len() == N,
        out matches Some(array) ==> array@ == bytes@,
{
    if bytes.len() != N {
        return None;
    }
    let mut array: [u8; N] = [0u8; N];
    let mut i: usize = 0;
    while i < N
        invariant
            i <= N,
            bytes@.len() == N,
            forall|j: int| 0 <= j < i ==> array@[j] == bytes@[j],
        decreases N - i,
    {
        array[i] = bytes[i];
        i += 1;
    }
    assert(array@ =~= bytes@);
    Some(array)
}

} // verus!
