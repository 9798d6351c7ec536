//! Temperature formatter: renders a signed temperature in tenths of a
//! degree as an 8-position display frame, and builds the auxiliary
//! hex-dump frame.
//!
//! Frame layout, position 0 rightmost: unit glyph "C", a blank spacer,
//! the tenths digit, the units digit with the decimal point lit, then
//! higher-order digits while the remaining quotient is non-zero.  Above
//! the digits, a negative value gets exactly one sign marker, in the
//! first position where the quotient reaches zero; every remaining
//! position is blank.  A value needing more than the available digits
//! is silently truncated at the leftmost position.

use vstd::prelude::*;
use crate::segments::{
    dec_pattern, hex_pattern, tdiv, trem, dec_digit, hex, GLYPH_C, BLANK, SIGN_MARKER, DOT_BIT,
};

verus! {

/// Glyph of one of the four high-order positions: the next digit while
/// the quotient `v` is non-zero; otherwise the sign marker in the first
/// such position of a negative value, and blank above it.
pub open spec fn upper_glyph(v: int, first_zero: bool, negative: bool) -> u8 {
    if v != 0 {
        dec_pattern(trem(v, 10))
    } else if negative && first_zero {
        SIGN_MARKER
    } else {
        BLANK
    }
}

/// The full 8-position frame for a temperature in tenths of a degree.
pub open spec fn spec_format(temp: i16) -> Seq<u8> {
    let t = temp as int;
    let v1 = tdiv(t, 10);
    let v2 = tdiv(v1, 10);
    let v3 = tdiv(v2, 10);
    let v4 = tdiv(v3, 10);
    let v5 = tdiv(v4, 10);
    let neg = t < 0;
    seq![
        GLYPH_C,
        BLANK,
        dec_pattern(trem(t, 10)),
        (dec_pattern(trem(v1, 10)) | DOT_BIT) as u8,
        upper_glyph(v2, true, neg),
        upper_glyph(v3, v2 != 0, neg),
        upper_glyph(v4, v3 != 0, neg),
        upper_glyph(v5, v4 != 0, neg),
    ]
}

/// Formats `temp` (signed tenths of a degree) as a display frame.
pub fn format_temperature(temp: i16) -> (frame: [u8; 8])
    ensures
        frame@ == spec_format(temp),
{
    let neg = temp < 0;
    let b2 = dec_digit(temp);
    let v1: i16 = temp.checked_div(10).unwrap();
    let b3 = dec_digit(v1) | DOT_BIT;
    let v2: i16 = v1.checked_div(10).unwrap();
    let v3: i16 = v2.checked_div(10).unwrap();
    let v4: i16 = v3.checked_div(10).unwrap();
    let v5: i16 = v4.checked_div(10).unwrap();
    let b4 = upper_digit(v2, true, neg);
    let b5 = upper_digit(v3, v2 != 0, neg);
    let b6 = upper_digit(v4, v3 != 0, neg);
    let b7 = upper_digit(v5, v4 != 0, neg);
    let frame: [u8; 8] = [GLYPH_C, BLANK, b2, b3, b4, b5, b6, b7];
    proof {
        assert(frame@ =~= spec_format(temp));
    }
    frame
}

/// Glyph of one high-order position, as `upper_glyph` specifies it.
fn upper_digit(v: i16, first_zero: bool, negative: bool) -> (r: u8)
    ensures
        r == upper_glyph(v as int, first_zero, negative),
{
    if v != 0 {
        dec_digit(v)
    } else if negative && first_zero {
        SIGN_MARKER
    } else {
        BLANK
    }
}

/// Position of the sign marker of a negative temperature: the first of
/// the four high-order positions whose quotient is zero.
pub open spec fn sign_pos(temp: i16) -> int {
    let t = temp as int;
    let v1 = tdiv(t, 10);
    let v2 = tdiv(v1, 10);
    let v3 = tdiv(v2, 10);
    let v4 = tdiv(v3, 10);
    if v2 == 0 {
        4
    } else if v3 == 0 {
        5
    } else if v4 == 0 {
        6
    } else {
        7
    }
}

/// A negative temperature's frame holds exactly one sign marker: it
/// stands in the first high-order position whose quotient is zero, and
/// no other position of the frame holds the sign marker.
pub proof fn lemma_one_sign_marker(temp: i16)
    requires
        temp < 0,
    ensures
        4 <= sign_pos(temp) < 8,
        spec_format(temp)[sign_pos(temp)] == SIGN_MARKER,
        forall|j: int|
            0 <= j < 8 && j != sign_pos(temp) ==> spec_format(temp)[j] != SIGN_MARKER,
{
    let t = temp as int;
    let v1 = tdiv(t, 10);
    let v2 = tdiv(v1, 10);
    let v3 = tdiv(v2, 10);
    let v4 = tdiv(v3, 10);
    let v5 = tdiv(v4, 10);
    assert(v5 == 0);
    assert(forall|d: int| dec_pattern(d) != SIGN_MARKER);
    let p3 = dec_pattern(trem(v1, 10));
    assert(p3 | 0x80 != 0x01) by (bit_vector);
}

/// A non-negative temperature's frame holds no sign marker at all:
/// every position above the digits is blank.
pub proof fn lemma_no_sign_marker_when_nonnegative(temp: i16)
    requires
        temp >= 0,
    ensures
        forall|j: int| 0 <= j < 8 ==> spec_format(temp)[j] != SIGN_MARKER,
{
    assert(forall|d: int| dec_pattern(d) != SIGN_MARKER);
    let p3 = dec_pattern(trem(tdiv(temp as int, 10), 10));
    assert(p3 | 0x80 != 0x01) by (bit_vector);
}

/// The 8-position frame that shows four bytes as hexadecimal digits,
/// first byte in the leftmost pair.
pub open spec fn spec_hex_frame(b: Seq<u8>) -> Seq<u8>
    recommends
        b.len() == 4,
{
    seq![
        hex_pattern(b[3] as int % 16),
        hex_pattern(b[3] as int / 16),
        hex_pattern(b[2] as int % 16),
        hex_pattern(b[2] as int / 16),
        hex_pattern(b[1] as int % 16),
        hex_pattern(b[1] as int / 16),
        hex_pattern(b[0] as int % 16),
        hex_pattern(b[0] as int / 16),
    ]
}

/// Builds the hex-dump frame for four bytes.
pub fn hex_frame(bytes: [u8; 4]) -> (frame: [u8; 8])
    ensures
        frame@ == spec_hex_frame(bytes@),
{
    let p0 = hex(bytes[0]);
    let p1 = hex(bytes[1]);
    let p2 = hex(bytes[2]);
    let p3 = hex(bytes[3]);
    let frame: [u8; 8] = [p3[1], p3[0], p2[1], p2[0], p1[1], p1[0], p0[1], p0[0]];
    proof {
        assert(frame@ =~= spec_hex_frame(bytes@));
    }
    frame
}

} // verus!
