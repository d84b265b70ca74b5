//! The image as text in the plain PPM format: a header with the size of
//! the image and the largest channel value, then one line for every pixel,
//! row by row.

use vstd::prelude::*;

verus! {

/// One pixel in eight bits a channel.
#[derive(Clone, Copy, Debug, PartialEq, Eq, Structural)]
pub struct Pixel {
    pub red: u8,
    pub green: u8,
    pub blue: u8,
}

/// The number of pixels of an image: none unless width and height are positive.
pub open spec fn pixel_count(width: int, height: int) -> nat {
    if width > 0 && height > 0 {
        (width * height) as nat
    } else {
        0
    }
}

/// `n` in decimal digits, as ASCII, without leading zeros.
pub open spec fn decimal(n: nat) -> Seq<u8>
    decreases n,
{
    if n < 10 {
        seq![(48 + n) as u8]
    } else {
        decimal(n / 10).push((48 + n % 10) as u8)
    }
}

/// The number that a run of ASCII digits stands for.
pub open spec fn decimal_value(digits: Seq<u8>) -> nat
    decreases digits.len(),
{
    if digits.len() == 0 {
        0
    } else {
        (decimal_value(digits.drop_last()) * 10 + (digits.last() - 48)) as nat
    }
}

/// `n` in decimal, with a minus sign before it where it is negative.
pub open spec fn signed_decimal(n: int) -> Seq<u8> {
    if n < 0 {
        seq![45u8] + decimal((-n) as nat)
    } else {
        decimal(n as nat)
    }
}

/// The header: the magic number, the width and the height with a space
/// between them, and 255 as the largest channel value, each on a line.
pub open spec fn header(width: int, height: int) -> Seq<u8> {
    seq![80u8, 51, 10] + signed_decimal(width) + seq![32u8] + signed_decimal(height) + seq![
        10u8,
        50,
        53,
        53,
        10,
    ]
}

/// The line of one pixel: red, green and blue with a space between them.
pub open spec fn line(pixel: Pixel) -> Seq<u8> {
    decimal(pixel.red as nat) + seq![32u8] + decimal(pixel.green as nat) + seq![32u8] + decimal(
        pixel.blue as nat,
    ) + seq![10u8]
}

/// The lines of the pixels, one after the other.
pub open spec fn lines(pixels: Seq<Pixel>) -> Seq<u8>
    decreases pixels.len(),
{
    if pixels.len() == 0 {
        Seq::empty()
    } else {
        lines(pixels.drop_last()) + line(pixels.last())
    }
}

/// The whole file.
pub open spec fn ppm(width: int, height: int, pixels: Seq<Pixel>) -> Seq<u8> {
    header(width, height) + lines(pixels)
}

/// The decimal digits of a number are ASCII digits, begin with a zero only
/// for the number zero, and read back as that number.
pub proof fn lemma_decimal_reads_back(n: nat)
    ensures
        decimal(n).len() >= 1,
        forall|i: int| 0 <= i < decimal(n).len() ==> 48 <= #[trigger] decimal(n)[i] <= 57,
        decimal(n)[0] == 48 <==> n == 0,
        decimal_value(decimal(n)) == n,
    decreases n,
{
    if n < 10 {
        let d = decimal(n);
        assert(decimal_value(d.drop_last()) == 0);
    } else {
        lemma_decimal_reads_back(n / 10);
        let d = decimal(n);
        assert(d.drop_last() == decimal(n / 10));
    }
}

/// Appends `n` in decimal to `out`.
pub fn push_decimal(out: &mut Vec<u8>, n: u32)
    ensures
        final(out)@ == old(out)@ + decimal(n as nat),
    decreases n,
{
    if n >= 10 {
        push_decimal(out, n / 10);
    }
    out.push(48 + (n % 10) as u8);
}

/// Appends `n` in decimal to `out`, with a minus sign before it where it is negative.
pub fn push_signed_decimal(out: &mut Vec<u8>, n: i32)
    ensures
        final(out)@ == old(out)@ + signed_decimal(n as int),
{
    if n < 0 {
        out.push(45);
        // The magnitude of the least `i32` does not fit an `i32`.
        let magnitude: u32 = if n == i32::MIN {
            0x8000_0000
        } else {
            (-n) as u32
        };
        push_decimal(out, magnitude);
    } else {
        push_decimal(out, n as u32);
    }
}

/// Appends the line of `pixel` to `out`.
pub fn push_line(out: &mut Vec<u8>, pixel: Pixel)
    ensures
        final(out)@ == old(out)@ + line(pixel),
{
    push_decimal(out, pixel.red as u32);
    out.push(32);
    push_decimal(out, pixel.green as u32);
    out.push(32);
    push_decimal(out, pixel.blue as u32);
    out.push(10);
}

/// The text of the image of `width` by `height` pixels whose pixels are
/// `pixels`, row by row: `None` unless there is exactly one pixel for every
/// place in the image.
pub fn encode_ppm(width: i32, height: i32, pixels: &Vec<Pixel>) -> (r: Option<Vec<u8>>)
    ensures
        r is Some <==> pixels.len() == pixel_count(width as int, height as int),
        r matches Some(text) ==> text@ == ppm(width as int, height as int, pixels@),
{
    let count: u64 = if width > 0 && height > 0 {
        assert(0 < width * height <= 0x7fff_ffff * 0x7fff_ffff) by (nonlinear_arith)
            requires
                0 < width <= 0x7fff_ffff,
                0 < height <= 0x7fff_ffff,
        ;
        (width as u64) * (height as u64)
    } else {
        0
    };
    if pixels.len() as u64 != count {
        return None;
    }
    let mut out: Vec<u8> = Vec::new();
    out.push(80);
    out.push(51);
    out.push(10);
    push_signed_decimal(&mut out, width);
    out.push(32);
    push_signed_decimal(&mut out, height);
    out.push(10);
    out.push(50);
    out.push(53);
    out.push(53);
    out.push(10);
    let mut k: usize = 0;
    while k < pixels.len()
        invariant
            k <= pixels.len(),
            out@ == header(width as int, height as int) + lines(pixels@.take(k as int)),
        decreases pixels.len() - k,
    {
        push_line(&mut out, pixels[k]);
        proof {
            let done = pixels@.take(k + 1);
            assert(done.drop_last() == pixels@.take(k as int));
        }
        k = k + 1;
    }
    assert(pixels@.take(k as int) == pixels@);
    Some(out)
}

} // verus!
