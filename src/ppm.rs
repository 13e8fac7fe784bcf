use vstd::prelude::*;
use crate::color::Color;

verus! {

/// ASCII code of the digit `0`; the other digits follow it.
pub const DIGIT_ZERO: u8 = 48;

/// ASCII code of a space.
pub const SPACE: u8 = 32;

/// ASCII code of a line feed.
pub const NEWLINE: u8 = 10;

/// ASCII code of the letter `P`, which opens the magic number of a PPM file.
pub const LETTER_P: u8 = 80;

/// The magic number of a plain (textual) PPM file is `P3`.
pub const PLAIN_PPM_KIND: usize = 3;

/// The largest channel value written to the header.
pub const MAX_CHANNEL: usize = 255;

/// The ASCII decimal digits of `n`, most significant first, without leading zeros.
pub open spec fn decimal(n: nat) -> Seq<u8>
    decreases n,
{
    if n < 10 {
        seq![(DIGIT_ZERO + n) as u8]
    } else {
        decimal(n / 10).push((DIGIT_ZERO + n % 10) as u8)
    }
}

/// The plain PPM header: `P3`, then `<width> <height>`, then the maximal channel value `255`,
/// each on a line of its own.
pub open spec fn header_text(width: nat, height: nat) -> Seq<u8> {
    seq![LETTER_P] + decimal(PLAIN_PPM_KIND as nat) + seq![NEWLINE] + decimal(width) + seq![SPACE]
        + decimal(height) + seq![NEWLINE] + decimal(MAX_CHANNEL as nat) + seq![NEWLINE]
}

/// One pixel of a plain PPM body: `R G B` and a line break.
pub open spec fn pixel_text(c: Color) -> Seq<u8> {
    decimal(c.r as nat) + seq![SPACE] + decimal(c.g as nat) + seq![SPACE] + decimal(c.b as nat)
        + seq![NEWLINE]
}

/// Appends the decimal digits of `n` to `out`.
pub fn push_decimal(out: &mut Vec<u8>, n: usize)
    ensures
        final(out)@ == old(out)@ + decimal(n as nat),
    decreases n,
{
    let ghost start = out@;
    if n >= 10 {
        push_decimal(out, n / 10);
    }
    let digit: u8 = (n % 10) as u8;
    out.push(DIGIT_ZERO + digit);
    assert(out@ =~= start + decimal(n as nat));
}

/// The header of a plain PPM image of `width` by `height` pixels.
pub fn header(width: usize, height: usize) -> (r: Vec<u8>)
    ensures
        r@ == header_text(width as nat, height as nat),
{
    let mut out: Vec<u8> = Vec::new();
    out.push(LETTER_P);
    push_decimal(&mut out, PLAIN_PPM_KIND);
    out.push(NEWLINE);
    push_decimal(&mut out, width);
    out.push(SPACE);
    push_decimal(&mut out, height);
    out.push(NEWLINE);
    push_decimal(&mut out, MAX_CHANNEL);
    out.push(NEWLINE);
    assert(out@ =~= header_text(width as nat, height as nat));
    out
}

/// The line of a plain PPM body that holds the pixel `c`.
pub fn pixel_line(c: &Color) -> (r: Vec<u8>)
    ensures
        r@ == pixel_text(*c),
{
    let mut out: Vec<u8> = Vec::new();
    push_decimal(&mut out, c.r);
    out.push(SPACE);
    push_decimal(&mut out, c.g);
    out.push(SPACE);
    push_decimal(&mut out, c.b);
    out.push(NEWLINE);
    assert(out@ =~= pixel_text(*c));
    out
}

} // verus!
