//! The plain-text pixel map format: a magic token, the width and the height,
//! the largest channel value, then one `r g b` line per pixel.
use vstd::prelude::*;

verus! {

/// A tone-mapped pixel: one integer per channel.
#[derive(Clone, Copy, Debug, PartialEq, Eq, Structural)]
pub struct Rgb {
    pub r: u8,
    pub g: u8,
    pub b: u8,
}

/// The ASCII decimal digits of `n`, most significant first, no leading zero.
pub open spec fn decimal(n: nat) -> Seq<u8>
    decreases n,
{
    if n < 10 {
        seq![(48 + n) as u8]
    } else {
        decimal(n / 10).push((48 + n % 10) as u8)
    }
}

/// The header for an image of `width` by `height` pixels.
pub open spec fn header_text(width: nat, height: nat) -> Seq<u8> {
    seq![80u8, 51u8, 10u8] + decimal(width) + seq![32u8] + decimal(height) + seq![
        10u8,
        50u8,
        53u8,
        53u8,
        10u8,
    ]
}

/// The line for one pixel: the three channels in decimal, space separated.
pub open spec fn pixel_text(c: Rgb) -> Seq<u8> {
    decimal(c.r as nat) + seq![32u8] + decimal(c.g as nat) + seq![32u8] + decimal(c.b as nat)
        + seq![10u8]
}

/// Appends the decimal digits of `n` to `out`.
pub fn push_decimal(out: &mut Vec<u8>, n: u64)
    ensures
        final(out)@ == old(out)@ + decimal(n as nat),
    decreases n,
{
    if n >= 10 {
        push_decimal(out, n / 10);
    }
    out.push(48u8 + (n % 10) as u8);
    proof {
        if n < 10 {
            assert(decimal(n as nat) == seq![(48 + n) as u8]);
        }
    }
    assert(final(out)@ =~= old(out)@ + decimal(n as nat));
}

/// Appends the line of pixel `c` to `out`.
pub fn push_pixel(out: &mut Vec<u8>, c: Rgb)
    ensures
        final(out)@ == old(out)@ + pixel_text(c),
{
    push_decimal(out, c.r as u64);
    out.push(32u8);
    push_decimal(out, c.g as u64);
    out.push(32u8);
    push_decimal(out, c.b as u64);
    out.push(10u8);
    assert(final(out)@ =~= old(out)@ + pixel_text(c));
}

/// The line of pixel `c`.
pub fn pixel_line(c: Rgb) -> (r: Vec<u8>)
    ensures
        r@ == pixel_text(c),
{
    let mut out: Vec<u8> = Vec::new();
    push_pixel(&mut out, c);
    assert(out@ =~= pixel_text(c));
    out
}

/// The header of an image of `width` by `height` pixels.
pub fn ppm_header(width: usize, height: usize) -> (r: Vec<u8>)
    ensures
        r@ == header_text(width as nat, height as nat),
{
    let mut out: Vec<u8> = Vec::new();
    out.push(80u8);
    out.push(51u8);
    out.push(10u8);
    push_decimal(&mut out, width as u64);
    out.push(32u8);
    push_decimal(&mut out, height as u64);
    out.push(10u8);
    out.push(50u8);
    out.push(53u8);
    out.push(53u8);
    out.push(10u8);
    assert(out@ =~= header_text(width as nat, height as nat));
    out
}

} // verus!
