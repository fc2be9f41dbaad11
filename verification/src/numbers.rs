//! Integer widths and literal notations.

use vstd::prelude::*;

verus! {

/// One value per unsigned width, each written in a different notation —
/// decimal, binary, octal, hexadecimal and plain — proved equal to the
/// decimal values zero through four.
pub fn integer_widths() -> (r: (u8, u16, u32, u64, u128))
    ensures
        r == (0u8, 1u16, 2u32, 3u64, 4u128),
{
    let a: u8 = 0;
    let b: u16 = 0b1;
    let c: u32 = 0o2;
    let d: u64 = 0x3;
    let e: u128 = 4;
    (a, b, c, d, e)
}

/// The same digits written in four bases, plus a byte literal: each is
/// proved equal to its decimal value — binary `1111_1111` is 255, octal is
/// 2_396_745, decimal is 11_111_111, hexadecimal is 286_331_153, and the
/// byte `b'A'` is 65.
pub fn integer_literals() -> (r: (u64, u64, u64, u64, u8))
    ensures
        r == (255u64, 2396745u64, 11111111u64, 286331153u64, 65u8),
{
    let binary: u64 = 0b1111_1111;
    let octal: u64 = 0o1111_1111;
    let decimal: u64 = 1111_1111;
    let hexadecimal: u64 = 0x1111_1111;
    let byte: u8 = 'A' as u8;
    (binary, octal, decimal, hexadecimal, byte)
}

/// The two notation demonstrations together, as the integers
/// demonstration reports them.
pub fn integers() -> (r: ((u8, u16, u32, u64, u128), (u64, u64, u64, u64, u8)))
    ensures
        r.0 == (0u8, 1u16, 2u32, 3u64, 4u128),
        r.1 == (255u64, 2396745u64, 11111111u64, 286331153u64, 65u8),
{
    (integer_widths(), integer_literals())
}

} // verus!
