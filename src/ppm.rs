//! Plain-text PPM encoding of rendered pixels.

use vstd::prelude::*;

verus! {

/// ASCII code of the digit `0`.
pub const DIGIT_ZERO: u8 = 48;

/// ASCII code of the minus sign.
pub const MINUS: u8 = 45;

/// ASCII code of a space.
pub const SPACE: u8 = 32;

/// ASCII code of a line feed.
pub const NEWLINE: u8 = 10;

/// The largest channel value that the header announces.
pub const MAX_CHANNEL: u32 = 255;

/// Decimal digits of `n`, most significant first, without leading zeros
/// (zero itself is the single digit `0`).
pub open spec fn decimal(n: nat) -> Seq<u8>
    decreases n,
{
    if n < 10 {
        seq![(DIGIT_ZERO + n) as u8]
    } else {
        decimal(n / 10).push((DIGIT_ZERO + n % 10) as u8)
    }
}

/// Decimal text of a signed integer: a leading minus sign for negative values.
pub open spec fn signed_decimal(v: int) -> Seq<u8> {
    if v < 0 {
        seq![MINUS] + decimal((-v) as nat)
    } else {
        decimal(v as nat)
    }
}

/// The header of a plain-text PPM image of the given size:
/// the plain-format magic number, then `width height`, then the largest channel value, one per line.
pub open spec fn header_text(width: nat, height: nat) -> Seq<u8> {
    seq![80u8, 51u8, NEWLINE] + decimal(width) + seq![SPACE] + decimal(height) + seq![NEWLINE]
        + decimal(MAX_CHANNEL as nat) + seq![NEWLINE]
}

/// One pixel of a plain-text PPM image: three channel values separated by
/// spaces, ended by a line feed.
pub open spec fn pixel_text(r: int, g: int, b: int) -> Seq<u8> {
    signed_decimal(r) + seq![SPACE] + signed_decimal(g) + seq![SPACE] + signed_decimal(b) + seq![
        NEWLINE,
    ]
}

/// Appends the decimal digits of `n` to `out`.
pub fn push_decimal(out: &mut Vec<u8>, n: u32)
    ensures
        final(out)@ == old(out)@ + decimal(n as nat),
    decreases n,
{
    if n >= 10 {
        push_decimal(out, n / 10);
    }
    out.push(DIGIT_ZERO + (n % 10) as u8);
    proof {
        if n < 10 {
            assert(n % 10 == n);
        }
    }
    assert(final(out)@ =~= old(out)@ + decimal(n as nat));
}

/// Appends the decimal text of `v` to `out`, with a minus sign when it is negative.
pub fn push_signed(out: &mut Vec<u8>, v: i32)
    ensures
        final(out)@ == old(out)@ + signed_decimal(v as int),
{
    if v < 0 {
        out.push(MINUS);
        let magnitude: u32 = (-(v as i64)) as u32;
        push_decimal(out, magnitude);
    } else {
        push_decimal(out, v as u32);
    }
    assert(final(out)@ =~= old(out)@ + signed_decimal(v as int));
}

/// The header of a plain-text PPM image that is `width` pixels wide and
/// `height` pixels high, with channel values up to 255.
pub fn header(width: u32, height: u32) -> (r: Vec<u8>)
    ensures
        r@ == header_text(width as nat, height as nat),
{
    let mut out: Vec<u8> = Vec::new();
    out.push(80u8);
    out.push(51u8);
    out.push(NEWLINE);
    push_decimal(&mut out, width);
    out.push(SPACE);
    push_decimal(&mut out, height);
    out.push(NEWLINE);
    push_decimal(&mut out, MAX_CHANNEL);
    out.push(NEWLINE);
    assert(out@ =~= header_text(width as nat, height as nat));
    out
}

/// The line that encodes one pixel with the given channel values.
pub fn pixel_line(r: i32, g: i32, b: i32) -> (line: Vec<u8>)
    ensures
        line@ == pixel_text(r as int, g as int, b as int),
{
    let mut out: Vec<u8> = Vec::new();
    push_signed(&mut out, r);
    out.push(SPACE);
    push_signed(&mut out, g);
    out.push(SPACE);
    push_signed(&mut out, b);
    out.push(NEWLINE);
    assert(out@ =~= pixel_text(r as int, g as int, b as int));
    out
}

} // verus!
