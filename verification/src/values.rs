//! Numbers as the backend takes them.
//!
//! The backend works on IEEE-754 numbers and on C's `int`. This library never
//! computes with the former: it carries each one as its bit pattern, a `u32`
//! for single and a `u64` for double precision, from the caller to the call.
//! Counts and sizes are converted to `int` the way a C cast does it, by
//! keeping the low 32 bits.
use vstd::prelude::*;

verus! {

/// Two single-precision numbers, each carried as its bit pattern.
#[derive(Clone, Copy, Debug, PartialEq, Eq, Hash, Structural)]
pub struct ImVec2 {
    pub x: u32,
    pub y: u32,
}

/// Four single-precision numbers, each carried as its bit pattern.
#[derive(Clone, Copy, Debug, PartialEq, Eq, Hash, Structural)]
pub struct ImVec4 {
    pub x: u32,
    pub y: u32,
    pub z: u32,
    pub w: u32,
}

/// A point in plot coordinates: two double-precision numbers, each carried
/// as its bit pattern.
#[derive(Clone, Copy, Debug, PartialEq, Eq, Hash, Structural)]
pub struct ImPlotPoint {
    pub x: u64,
    pub y: u64,
}

/// The two ends of an axis: double-precision numbers, each carried as its
/// bit pattern.
#[derive(Clone, Copy, Debug, PartialEq, Eq, Hash, Structural)]
pub struct ImPlotRange {
    pub min: u64,
    pub max: u64,
}

/// The number of bytes between two neighbouring double-precision numbers of
/// a series.
pub const STRIDE_OF_DOUBLE: i32 = 8;

/// The value that a 32-bit signed integer takes when `n` is stored in it and
/// only the low 32 bits are kept.
pub open spec fn wrap_to_c_int(n: int) -> int {
    let low = n % 0x1_0000_0000;
    if low < 0x8000_0000 {
        low
    } else {
        low - 0x1_0000_0000
    }
}

/// A number that fits a 32-bit signed integer is stored unchanged.
pub proof fn lemma_wrap_keeps_what_fits(n: int)
    requires
        -0x8000_0000 <= n < 0x8000_0000,
    ensures
        wrap_to_c_int(n) == n,
{
}

/// Whatever is stored, the result is a 32-bit signed integer that differs
/// from the number by a multiple of 2^32.
pub proof fn lemma_wrap_is_congruent(n: int)
    ensures
        -0x8000_0000 <= wrap_to_c_int(n) < 0x8000_0000,
        (n - wrap_to_c_int(n)) % 0x1_0000_0000 == 0,
{
}

/// Converts a `u32` to C's `int`, keeping its 32 bits.
pub fn u32_to_c_int(n: u32) -> (stored: i32)
    ensures
        stored == wrap_to_c_int(n as int),
        n <= i32::MAX ==> stored == n,
{
    if n < 0x8000_0000 {
        n as i32
    } else {
        let above: u32 = n - 0x8000_0000;
        (above as i32) + i32::MIN
    }
}

/// Converts a length to C's `int`, keeping its low 32 bits.
pub fn len_to_c_int(n: usize) -> (stored: i32)
    ensures
        stored == wrap_to_c_int(n as int),
        n <= i32::MAX ==> stored == n,
{
    let low: u64 = (n as u64) % 0x1_0000_0000;
    u32_to_c_int(low as u32)
}

} // verus!
