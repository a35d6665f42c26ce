//! Numbers taken with and without a sign.

use vstd::prelude::*;

verus! {

/// The number whose 32 bits are those of `n`, taken with a sign.
pub open spec fn signed_32(n: u32) -> int {
    if n <= 0x7fff_ffff {
        n as int
    } else {
        n - 0x1_0000_0000
    }
}

/// The number whose 64 bits are those of `n`, taken with a sign.
pub open spec fn signed_64(n: u64) -> int {
    if n <= 0x7fff_ffff_ffff_ffff {
        n as int
    } else {
        n - 0x1_0000_0000_0000_0000
    }
}

/// The number whose 64 bits are those of `n`, taken without a sign.
pub open spec fn unsigned_64(n: i64) -> int {
    if n >= 0 {
        n as int
    } else {
        n + 0x1_0000_0000_0000_0000
    }
}

pub(crate) fn to_signed_32(n: u32) -> (signed: i32)
    ensures
        signed == signed_32(n),
{
    assert(n <= 0x7fff_ffff ==> (n as i32) == n) by (bit_vector);
    assert(n > 0x7fff_ffff ==> (n as i32) == n - 0x1_0000_0000) by (bit_vector);
    #[verifier::truncate]
    let signed: i32 = n as i32;
    signed
}

pub(crate) fn to_signed_64(n: u64) -> (signed: i64)
    ensures
        signed == signed_64(n),
{
    assert(n <= 0x7fff_ffff_ffff_ffff ==> (n as i64) == n) by (bit_vector);
    assert(n > 0x7fff_ffff_ffff_ffff ==> (n as i64) == n - 0x1_0000_0000_0000_0000) by (bit_vector);
    #[verifier::truncate]
    let signed: i64 = n as i64;
    signed
}

pub(crate) fn to_unsigned_64(n: i64) -> (unsigned: u64)
    ensures
        unsigned == unsigned_64(n),
{
    assert(n >= 0 ==> (n as u64) == n) by (bit_vector);
    assert(n < 0 ==> (n as u64) == n + 0x1_0000_0000_0000_0000) by (bit_vector);
    #[verifier::truncate]
    let unsigned: u64 = n as u64;
    unsigned
}

} // verus!
