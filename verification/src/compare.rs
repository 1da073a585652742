//! How the result of comparing two keys is handed to C code.
use vstd::prelude::*;
use std::cmp::Ordering;

verus! {

/// The integer that C code receives for an ordering: negative, zero or
/// positive, as `memcmp` would answer.
pub open spec fn ordering_code_of(o: Ordering) -> i32 {
    match o {
        Ordering::Less => -1i32,
        Ordering::Equal => 0i32,
        Ordering::Greater => 1i32,
    }
}

/// The integer written for the result of comparing two public keys.
pub fn ordering_code(o: Ordering) -> (code: i32)
    ensures
        code == ordering_code_of(o),
        code < 0 <==> o == Ordering::Less,
        code == 0 <==> o == Ordering::Equal,
        code > 0 <==> o == Ordering::Greater,
{
    match o {
        Ordering::Less => -1,
        Ordering::Equal => 0,
        Ordering::Greater => 1,
    }
}

} // verus!
