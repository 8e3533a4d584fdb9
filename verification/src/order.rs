//! The order of names: that of their UTF-8 bytes.

use std::cmp::Ordering;
use vstd::prelude::*;
use vstd::string::*;

verus! {

/// How two byte strings compare: `-1`, `0` or `1` as the first is before, equal to or after
/// the second. The first differing byte decides; a proper prefix is before what it begins.
pub open spec fn byte_order(a: Seq<u8>, b: Seq<u8>) -> int
    decreases a.len(),
{
    if a.len() == 0 && b.len() == 0 {
        0
    } else if a.len() == 0 {
        -1
    } else if b.len() == 0 {
        1
    } else if a[0] < b[0] {
        -1
    } else if a[0] > b[0] {
        1
    } else {
        byte_order(a.drop_first(), b.drop_first())
    }
}

/// How two names compare, by the bytes of their UTF-8 encoding.
pub open spec fn name_order(a: Seq<char>, b: Seq<char>) -> int {
    byte_order(vstd::utf8::encode_utf8(a), vstd::utf8::encode_utf8(b))
}

/// The order of byte strings has three outcomes, and turning the two strings around turns
/// the outcome around.
pub proof fn byte_order_is_antisymmetric(a: Seq<u8>, b: Seq<u8>)
    ensures
        -1 <= byte_order(a, b) <= 1,
        byte_order(b, a) == -byte_order(a, b),
    decreases a.len(),
{
    if a.len() > 0 && b.len() > 0 && a[0] == b[0] {
        byte_order_is_antisymmetric(a.drop_first(), b.drop_first());
    }
}

/// Only equal byte strings compare as equal.
pub proof fn byte_order_tells_equal_strings(a: Seq<u8>, b: Seq<u8>)
    ensures
        byte_order(a, b) == 0 <==> a == b,
    decreases a.len(),
{
    if a.len() > 0 && b.len() > 0 && a[0] == b[0] {
        byte_order_tells_equal_strings(a.drop_first(), b.drop_first());
        if a.drop_first() == b.drop_first() {
            assert(a =~= seq![a[0]] + a.drop_first());
            assert(b =~= seq![b[0]] + b.drop_first());
        }
    } else if a.len() == 0 && b.len() == 0 {
        assert(a =~= b);
    }
}

/// What is not after a second string that is not after a third is not after the third.
pub proof fn byte_order_is_transitive(a: Seq<u8>, b: Seq<u8>, c: Seq<u8>)
    requires
        byte_order(a, b) <= 0,
        byte_order(b, c) <= 0,
    ensures
        byte_order(a, c) <= 0,
        byte_order(a, b) < 0 || byte_order(b, c) < 0 ==> byte_order(a, c) < 0,
    decreases a.len(),
{
    if a.len() > 0 && b.len() > 0 && c.len() > 0 && a[0] == b[0] && b[0] == c[0] {
        byte_order_is_transitive(a.drop_first(), b.drop_first(), c.drop_first());
    }
}

/// Compares two names by their bytes: `-1`, `0` or `1`.
pub fn compare_names(a: &str, b: &str) -> (order: i8)
    ensures
        order == name_order(a@, b@),
        -1 <= order <= 1,
{
    let left = a.as_bytes();
    let right = b.as_bytes();
    let mut i: usize = 0;
    assert(left@.skip(0) =~= left@);
    assert(right@.skip(0) =~= right@);
    while i < left.len() && i < right.len()
        invariant
            i <= left.len(),
            i <= right.len(),
            left@ == vstd::utf8::encode_utf8(a@),
            right@ == vstd::utf8::encode_utf8(b@),
            byte_order(left@, right@) == byte_order(left@.skip(i as int), right@.skip(i as int)),
        decreases left.len() - i,
    {
        let x = left[i];
        let y = right[i];
        proof {
            let l = left@.skip(i as int);
            let r = right@.skip(i as int);
            assert(l[0] == x && r[0] == y);
            assert(l.drop_first() =~= left@.skip(i + 1));
            assert(r.drop_first() =~= right@.skip(i + 1));
        }
        if x < y {
            return -1;
        }
        if x > y {
            return 1;
        }
        i += 1;
    }
    if i < right.len() {
        -1
    } else if i < left.len() {
        1
    } else {
        0
    }
}

/// Compares two names by their bytes, for a sort.
pub fn order_of_names(a: &str, b: &str) -> (order: Ordering)
    ensures
        (order == Ordering::Less) == (name_order(a@, b@) == -1),
        (order == Ordering::Equal) == (name_order(a@, b@) == 0),
        (order == Ordering::Greater) == (name_order(a@, b@) == 1),
{
    let order = compare_names(a, b);
    if order < 0 {
        Ordering::Less
    } else if order > 0 {
        Ordering::Greater
    } else {
        Ordering::Equal
    }
}

} // verus!
