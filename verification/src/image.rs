//! Images as PNG.

use crate::outside;
use crate::outside::{png_decode, png_encode, png_size, Frame};
use vstd::prelude::*;

verus! {

/// True if the bytes start with the PNG signature.
pub fn looks_like_png(b: &[u8]) -> (looks: bool)
    ensures
        looks == outside::png_signature().is_prefix_of(b@),
{
    let signature: [u8; 8] = [0x89, 0x50, 0x4e, 0x47, 0x0d, 0x0a, 0x1a, 0x0a];
    assert(signature@ =~= outside::png_signature());
    if b.len() < 8 {
        return false;
    }
    let mut i: usize = 0;
    while i < 8
        invariant
            i <= 8 <= b.len(),
            signature@ == outside::png_signature(),
            forall|j: int| 0 <= j < i ==> signature@[j] == b@[j],
        decreases 8 - i,
    {
        if signature[i] != b[i] {
            assert(signature@[i as int] != b@.subrange(0, 8)[i as int]);
            return false;
        }
        i += 1;
    }
    assert(signature@ =~= b@.subrange(0, 8));
    true
}

/// True if the machine can count the bytes of an image of 8 bit RGBA.
pub open spec fn is_countable(width: u32, height: u32) -> bool {
    4 * width + 1 <= usize::MAX && outside::rgba_len(width, height) <= usize::MAX
}

/// Tells whether the machine can count the bytes of an image. The sides of an image
/// are taken as PNG takes them, in 32 bits.
pub fn countable(width: usize, height: usize) -> (countable: bool)
    ensures
        countable == is_countable(width as u32, height as u32),
{
    let (w, h): (u64, u64) = (width as u32 as u64, height as u32 as u64);
    assert(4 * w * h <= 0x4_0000_0000 * 0x1_0000_0000) by (nonlinear_arith)
        requires
            w <= 0xffff_ffff,
            h <= 0xffff_ffff,
    ;
    assert(4 * w * h == (4 * w) * h);
    let row: u64 = 4 * w;
    let all: u128 = row as u128 * h as u128;
    row + 1 <= usize::MAX as u64 && all <= usize::MAX as u128
}

/// Encodes 8 bit RGBA pixels as a PNG.
///
/// The sides are taken in 32 bits. The size of the image has to be countable. The
/// pixels read back from the PNG, unless a row of them is larger than 64 MiB.
pub fn encode_png(width: usize, height: usize, rgba: &[u8]) -> (png: Result<Vec<u8>, String>)
    requires
        is_countable(width as u32, height as u32),
    ensures
        match png {
            Ok(bytes) => outside::png_encoded(width as u32, height as u32, rgba@) == Ok::<
                Seq<u8>,
                Seq<char>,
            >(bytes@),
            Err(e) => outside::png_encoded(width as u32, height as u32, rgba@) == Err::<
                Seq<u8>,
                Seq<char>,
            >(e@),
        },
        png is Ok <==> width as u32 > 0 && height as u32 > 0 && rgba@.len() == outside::rgba_len(
            width as u32,
            height as u32,
        ),
        png matches Ok(bytes) ==> outside::png_signature().is_prefix_of(bytes@),
        png matches Ok(bytes) ==> 4 * (width as u32) <= 0x400_0000 ==> png_pixels(bytes@) == Ok::<
            (usize, usize, Seq<u8>),
            Seq<char>,
        >((width as u32 as usize, height as u32 as usize, rgba@)),
{
    let png = png_encode(width as u32, height as u32, rgba);
    proof {
        let n = rgba@.len();
        assert(zeros(n).len() == n);
        assert(rgba@.take(n as int) =~= rgba@);
    }
    png
}

/// `n` bytes of zero.
pub open spec fn zeros(n: nat) -> Seq<u8> {
    Seq::new(n, |i: int| 0u8)
}

/// The name of a PNG colour type.
pub open spec fn color_name(color: u8) -> Seq<char> {
    if color == 0 {
        "Grayscale"@
    } else if color == 2 {
        "Rgb"@
    } else if color == 3 {
        "Indexed"@
    } else if color == 4 {
        "GrayscaleAlpha"@
    } else {
        "Rgba"@
    }
}

/// The name of a PNG sample depth.
pub open spec fn depth_name(depth: u8) -> Seq<char> {
    if depth == 1 {
        "One"@
    } else if depth == 2 {
        "Two"@
    } else if depth == 4 {
        "Four"@
    } else if depth == 8 {
        "Eight"@
    } else {
        "Sixteen"@
    }
}

/// The width, the height and the pixels of a frame of 8 bit RGBA. A frame of
/// another kind is unsupported.
pub open spec fn rgba_of(frame: outside::FrameView) -> Result<
    (usize, usize, Seq<u8>),
    Seq<char>,
> {
    if frame.color == 6 && frame.depth == 8 {
        Ok(
            (
                frame.width as usize,
                frame.height as usize,
                if frame.size <= frame.pixels.len() {
                    frame.pixels.take(frame.size as int)
                } else {
                    frame.pixels
                },
            ),
        )
    } else {
        Err("unsupported PNG: "@ + color_name(frame.color) + " "@ + depth_name(frame.depth))
    }
}

/// The width, the height and the 8 bit RGBA pixels of a PNG, or the error.
pub open spec fn png_pixels(bytes: Seq<u8>) -> Result<(usize, usize, Seq<u8>), Seq<char>> {
    match outside::png_frame_size(bytes) {
        Err(e) => Err(e),
        Ok(None) => Err("the PNG is too large"@),
        Ok(Some(n)) => match outside::png_frame(bytes, zeros(n as nat)) {
            Err(e) => Err(e),
            Ok(frame) => rgba_of(frame),
        },
    }
}

fn color_text(color: u8) -> (name: &'static str)
    ensures
        name@ == color_name(color),
{
    match color {
        0 => "Grayscale",
        2 => "Rgb",
        3 => "Indexed",
        4 => "GrayscaleAlpha",
        _ => "Rgba",
    }
}

fn depth_text(depth: u8) -> (name: &'static str)
    ensures
        name@ == depth_name(depth),
{
    match depth {
        1 => "One",
        2 => "Two",
        4 => "Four",
        8 => "Eight",
        _ => "Sixteen",
    }
}

/// The pixels of a decoded frame, if they are 8 bit RGBA.
pub fn frame_rgba(frame: Frame) -> (pixels: Result<(usize, usize, Vec<u8>), String>)
    ensures
        match pixels {
            Ok(p) => rgba_of(frame@) == Ok::<(usize, usize, Seq<u8>), Seq<char>>((p.0, p.1, p.2@)),
            Err(e) => rgba_of(frame@) == Err::<(usize, usize, Seq<u8>), Seq<char>>(e@),
        },
{
    if frame.color != 6 || frame.depth != 8 {
        let mut text = "unsupported PNG: ".to_string();
        text.append(color_text(frame.color));
        text.append(" ");
        text.append(depth_text(frame.depth));
        return Err(text);
    }
    let mut rgba = frame.pixels;
    rgba.truncate(frame.size);
    Ok((frame.width as usize, frame.height as usize, rgba))
}

/// An empty buffer for a frame of `size` bytes.
fn blank(size: usize) -> (buffer: Vec<u8>)
    ensures
        buffer@ == zeros(size as nat),
{
    let buffer: Vec<u8> = vec![0u8; size];
    assert(buffer@ =~= zeros(size as nat));
    buffer
}

/// Decodes a PNG into width, height, and 8 bit RGBA pixels. Bytes that do not begin
/// like a PNG are refused.
pub fn decode_png(bytes: &[u8]) -> (pixels: Result<(usize, usize, Vec<u8>), String>)
    ensures
        match pixels {
            Ok(p) => png_pixels(bytes@) == Ok::<(usize, usize, Seq<u8>), Seq<char>>(
                (p.0, p.1, p.2@),
            ),
            Err(e) => png_pixels(bytes@) == Err::<(usize, usize, Seq<u8>), Seq<char>>(e@),
        },
        !outside::png_signature().is_prefix_of(bytes@) ==> pixels is Err,
        pixels matches Ok(p) ==> p.2@.len() == 4 * p.0 * p.1,
{
    let size = match png_size(bytes) {
        Ok(size) => size,
        Err(e) => return Err(e),
    };
    let size: usize = match size {
        Some(n) => n,
        None => return Err("the PNG is too large".to_string()),
    };
    match png_decode(bytes, blank(size)) {
        Ok(frame) => frame_rgba(frame),
        Err(e) => Err(e),
    }
}

} // verus!
