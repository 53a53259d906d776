//! Comparison and copying of byte strings.

use vstd::prelude::*;

verus! {

/// Whether two byte strings are equal.
pub fn same_bytes(left: &Vec<u8>, right: &Vec<u8>) -> (r: bool)
    ensures
        r == (left@ == right@),
{
    if left.len() != right.len() {
        return false;
    }
    let mut i: usize = 0;
    while i < left.len()
        invariant
            i <= left@.len(),
            left@.len() == right@.len(),
            forall|j: int| 0 <= j < i ==> left@[j] == right@[j],
        decreases left@.len() - i,
    {
        if left[i] != right[i] {
            return false;
        }
        i = i + 1;
    }
    assert(left@ =~= right@);
    true
}

/// A byte string with the same bytes.
pub fn copy_bytes(bytes: &Vec<u8>) -> (r: Vec<u8>)
    ensures
        r@ == bytes@,
{
    let mut copy: Vec<u8> = Vec::new();
    let mut i: usize = 0;
    while i < bytes.len()
        invariant
            i <= bytes@.len(),
            copy@ =~= bytes@.subrange(0, i as int),
        decreases bytes@.len() - i,
    {
        copy.push(bytes[i]);
        i = i + 1;
    }
    assert(copy@ =~= bytes@);
    copy
}

/// Two byte strings are the same exactly where they agree at every place, and a copy
/// agrees with what it was made of.
pub proof fn same_bytes_agree_everywhere(
    left: Vec<u8>,
    right: Vec<u8>,
    r: bool,
    copy: Vec<u8>,
)
    requires
        call_ensures(same_bytes, (&left, &right), r),
        call_ensures(copy_bytes, (&left,), copy),
    ensures
        r <==> left@.len() == right@.len() && forall|i: int|
            0 <= i < left@.len() ==> #[trigger] left@[i] == right@[i],
        copy@.len() == left@.len(),
        forall|i: int| 0 <= i < left@.len() ==> #[trigger] copy@[i] == left@[i],
{
    if left@.len() == right@.len() && forall|i: int|
        0 <= i < left@.len() ==> #[trigger] left@[i] == right@[i] {
        assert(left@ =~= right@);
    }
}

} // verus!
