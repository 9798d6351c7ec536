//! Segment encoder: maps digit values to seven-segment bit patterns.
//!
//! A segment pattern is one byte; each bit lights one LED segment of a
//! digit position, bit 7 being the decimal point.

use vstd::prelude::*;

verus! {

/// Pattern for the unit glyph "C" shown in the rightmost position.
pub const GLYPH_C: u8 = 0b01001110;

/// Pattern with no segment lit.
pub const BLANK: u8 = 0b00000000;

/// Pattern for the sign marker shown above the digits of a negative value.
pub const SIGN_MARKER: u8 = 0b00000001;

/// Fallback pattern for a residue outside 0..=9 (only the decimal point lit).
pub const FALLBACK: u8 = 0b10000000;

/// Bit that lights the decimal point of a digit position.
pub const DOT_BIT: u8 = 0b10000000;

/// Quotient of `a / b` truncated toward zero, as Rust's `/` computes it
/// for signed integers (`b > 0` expected).
pub open spec fn tdiv(a: int, b: int) -> int {
    if a >= 0 {
        a / b
    } else {
        -((-a) / b)
    }
}

/// Remainder of `a` by `b` with the sign of `a`, as Rust's `%` computes
/// it for signed integers (`b > 0` expected).
pub open spec fn trem(a: int, b: int) -> int {
    if a >= 0 {
        a % b
    } else {
        -((-a) % b)
    }
}

/// Seven-segment pattern of a decimal digit; any residue outside 0..=9
/// maps to the fallback pattern.
pub open spec fn dec_pattern(d: int) -> u8 {
    if d == 0 {
        0b01111110
    } else if d == 1 {
        0b00110000
    } else if d == 2 {
        0b01101101
    } else if d == 3 {
        0b01111001
    } else if d == 4 {
        0b00110011
    } else if d == 5 {
        0b01011011
    } else if d == 6 {
        0b01011111
    } else if d == 7 {
        0b01110000
    } else if d == 8 {
        0b01111111
    } else if d == 9 {
        0b01111011
    } else {
        FALLBACK
    }
}

/// Seven-segment pattern of a hexadecimal digit 0..=15; anything else
/// maps to the fallback pattern.
pub open spec fn hex_pattern(d: int) -> u8 {
    if d < 10 {
        dec_pattern(d)
    } else if d == 10 {
        0b01110111
    } else if d == 11 {
        0b00011111
    } else if d == 12 {
        0b01001110
    } else if d == 13 {
        0b00111101
    } else if d == 14 {
        0b01001111
    } else if d == 15 {
        0b01000111
    } else {
        FALLBACK
    }
}

/// Each decimal digit 0..=9 has a pattern of its own: no two digits
/// share one, and none of them equals the fallback pattern that every
/// residue outside 0..=9 maps to.
pub proof fn lemma_dec_patterns_distinct(d1: int, d2: int)
    requires
        0 <= d1 <= 9,
        0 <= d2 <= 9,
        d1 != d2,
    ensures
        dec_pattern(d1) != dec_pattern(d2),
        dec_pattern(d1) != FALLBACK,
        forall|d: int| !(0 <= d <= 9) ==> dec_pattern(d) == FALLBACK,
{
}

/// Segment pattern of the least significant decimal digit of `n`.
///
/// For negative `n` the residue `n % 10` is negative or zero; a negative
/// residue yields the fallback pattern, as does any residue outside 0..=9.
pub fn dec_digit(n: i16) -> (r: u8)
    ensures
        r == dec_pattern(trem(n as int, 10)),
{
    let m: i16 = n.checked_rem(10).unwrap();
    match m {
        0 => 0b01111110,
        1 => 0b00110000,
        2 => 0b01101101,
        3 => 0b01111001,
        4 => 0b00110011,
        5 => 0b01011011,
        6 => 0b01011111,
        7 => 0b01110000,
        8 => 0b01111111,
        9 => 0b01111011,
        _ => 0b10000000,
    }
}

/// Segment patterns of the two hexadecimal digits of a byte, high
/// nibble first.
pub fn hex(n: u8) -> (r: [u8; 2])
    ensures
        r@.len() == 2,
        r@[0] == hex_pattern(n as int / 16),
        r@[1] == hex_pattern(n as int % 16),
{
    let lo: u8 = n % 16;
    let hi: u8 = n / 16;
    [hex_nibble(hi), hex_nibble(lo)]
}

/// Segment pattern of a single nibble value.
fn hex_nibble(d: u8) -> (r: u8)
    ensures
        r == hex_pattern(d as int),
{
    match d {
        0 => 0b01111110,
        1 => 0b00110000,
        2 => 0b01101101,
        3 => 0b01111001,
        4 => 0b00110011,
        5 => 0b01011011,
        6 => 0b01011111,
        7 => 0b01110000,
        8 => 0b01111111,
        9 => 0b01111011,
        10 => 0b01110111,
        11 => 0b00011111,
        12 => 0b01001110,
        13 => 0b00111101,
        14 => 0b01001111,
        15 => 0b01000111,
        _ => 0b10000000,
    }
}

} // verus!
