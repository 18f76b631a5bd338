//! Plain-text pixel-map ("P3") encoding of an 8-bit RGB image.

use vstd::prelude::*;

verus! {

/// One pixel: red, green and blue channels, each 0..=255.
pub type Rgb8 = (u8, u8, u8);

pub open spec fn ascii_digit(d: nat) -> u8 {
    (48 + d) as u8
}

/// The decimal digits of `n`, most significant first, without leading zeros.
pub open spec fn decimal(n: nat) -> Seq<u8>
    decreases n,
{
    if n < 10 {
        seq![ascii_digit(n)]
    } else {
        decimal(n / 10).push(ascii_digit(n % 10))
    }
}

pub open spec fn space() -> u8 {
    32u8
}

pub open spec fn newline() -> u8 {
    10u8
}

/// `P3`, a newline, `width height`, a newline, `255`, a newline.
pub open spec fn header_text(width: nat, height: nat) -> Seq<u8> {
    seq![80u8, 51u8, newline()] + decimal(width) + seq![space()] + decimal(height)
        + seq![newline()] + decimal(255) + seq![newline()]
}

/// `r g b` and a newline.
pub open spec fn pixel_text(p: Rgb8) -> Seq<u8> {
    decimal(p.0 as nat) + seq![space()] + decimal(p.1 as nat) + seq![space()] + decimal(
        p.2 as nat,
    ) + seq![newline()]
}

/// The lines of all pixels, in the order given.
pub open spec fn pixels_text(ps: Seq<Rgb8>) -> Seq<u8>
    decreases ps.len(),
{
    if ps.len() == 0 {
        Seq::empty()
    } else {
        pixels_text(ps.drop_last()) + pixel_text(ps.last())
    }
}

/// The whole file: the header, then one line per pixel.
pub open spec fn image_text(width: nat, height: nat, ps: Seq<Rgb8>) -> Seq<u8> {
    header_text(width, height) + pixels_text(ps)
}

/// Appends the decimal digits of `n` to `out`.
pub fn push_decimal(out: &mut Vec<u8>, n: u64)
    ensures
        final(out)@ == old(out)@ + decimal(n as nat),
    decreases n,
{
    if n >= 10 {
        push_decimal(out, n / 10);
    }
    let d: u8 = (n % 10) as u8;
    out.push(48 + d);
    assert(final(out)@ =~= old(out)@ + decimal(n as nat));
}

fn push_byte(out: &mut Vec<u8>, b: u8)
    ensures
        final(out)@ == old(out)@ + seq![b],
{
    out.push(b);
    assert(final(out)@ =~= old(out)@ + seq![b]);
}

/// Appends the header line block of an image of `width` by `height` pixels.
pub fn push_header(out: &mut Vec<u8>, width: u64, height: u64)
    ensures
        final(out)@ == old(out)@ + header_text(width as nat, height as nat),
{
    push_byte(out, 80);
    push_byte(out, 51);
    push_byte(out, 10);
    push_decimal(out, width);
    push_byte(out, 32);
    push_decimal(out, height);
    push_byte(out, 10);
    push_decimal(out, 255);
    push_byte(out, 10);
    assert(final(out)@ =~= old(out)@ + header_text(width as nat, height as nat));
}

/// Appends the line of one pixel.
pub fn push_pixel(out: &mut Vec<u8>, p: Rgb8)
    ensures
        final(out)@ == old(out)@ + pixel_text(p),
{
    push_decimal(out, p.0 as u64);
    push_byte(out, 32);
    push_decimal(out, p.1 as u64);
    push_byte(out, 32);
    push_decimal(out, p.2 as u64);
    push_byte(out, 10);
    assert(final(out)@ =~= old(out)@ + pixel_text(p));
}

/// Encodes an image given as its pixels in raster order. Fails exactly when
/// the number of pixels is not `width * height`.
pub fn encode_ppm(width: usize, height: usize, pixels: &Vec<Rgb8>) -> (r: Option<Vec<u8>>)
    ensures
        r.is_some() <==> pixels@.len() == width as int * height as int,
        r matches Some(bytes) ==> bytes@ == image_text(width as nat, height as nat, pixels@),
{
    let count: usize = pixels.len();
    match width.checked_mul(height) {
        None => {
            return None;
        },
        Some(n) => {
            if count != n {
                return None;
            }
        },
    }
    let mut out: Vec<u8> = Vec::new();
    push_header(&mut out, width as u64, height as u64);
    let mut i: usize = 0;
    while i < pixels.len()
        invariant
            i <= pixels@.len(),
            out@ == header_text(width as nat, height as nat) + pixels_text(pixels@.take(i as int)),
        decreases pixels@.len() - i,
    {
        push_pixel(&mut out, pixels[i]);
        assert(pixels@.take(i + 1).drop_last() =~= pixels@.take(i as int));
        i = i + 1;
    }
    assert(pixels@.take(i as int) =~= pixels@);
    Some(out)
}

} // verus!
