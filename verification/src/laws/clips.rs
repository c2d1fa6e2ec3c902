//! What holds of a clip as text or as an image.

use crate::image;
use crate::outside;
use crate::payload;
use std::collections::hash_map::DefaultHasher;
use vstd::bytes::*;
use vstd::prelude::*;
use vstd::std_specs::hash::*;
use vstd::utf8::*;

verus! {

// -------------------------------------------------------------------- the wire

/// Text travels as all of its UTF-8, an image as all of its bytes, each under its own mime
/// type.
pub proof fn law_clip_travels_whole(text: Seq<char>, bytes: Seq<u8>)
    ensures
        payload::PayloadView::Text(text).bytes() == encode_utf8(text),
        payload::PayloadView::Text(text).mime() == "text/plain; charset=utf-8"@,
        payload::PayloadView::Png(bytes).bytes() == bytes,
        payload::PayloadView::Png(bytes).mime() == "image/png"@,
{
}

/// A body whose mime type begins with `image/png` arrives as an image of just these bytes.
/// Any other arrives as text, and where it is UTF-8, that text is written as just these
/// bytes.
pub proof fn law_clip_arrives_whole(mime: Seq<char>, body: Seq<u8>)
    ensures
        mime.len() >= 9 && mime.take(9) == "image/png"@ ==> payload::wire_payload(mime, body)
            == payload::PayloadView::Png(body),
        !(mime.len() >= 9 && mime.take(9) == "image/png"@) ==> {
            &&& payload::wire_payload(mime, body) is Text
            &&& valid_utf8(body) ==> encode_utf8(payload::wire_payload(mime, body)->Text_0) == body
            &&& !valid_utf8(body) ==> payload::wire_payload(mime, body)->Text_0
                == outside::repaired_utf8(body)
        },
{
    reveal_strlit("image/png");
    if mime.len() >= 9 {
        assert(mime.take(9) =~= mime.subrange(0, 9));
    }
    if valid_utf8(body) {
        decode_utf8_encode_utf8(body);
    }
}

// -------------------------------------------------------------------- the hash

/// What the hasher is given of a clip.
pub open spec fn hashed(p: payload::PayloadView) -> Seq<Seq<u8>> {
    let mime = match p {
        payload::PayloadView::Text(_) => encode_utf8("text/plain; charset=utf-8"@),
        payload::PayloadView::Png(_) => encode_utf8("image/png"@),
    };
    let bytes = match p {
        payload::PayloadView::Text(t) => encode_utf8(t),
        payload::PayloadView::Png(b) => b,
    };
    seq![mime, seq![0xffu8], spec_u64_to_le_bytes(bytes.len() as u64), bytes]
}

/// The hash stands for the whole clip: two clips have the same hash only if they are the
/// same clip, or if the hasher gives one number for two inputs. What the hasher is given
/// determines the clip.
pub proof fn law_hash_stands_for_the_whole_clip(a: payload::PayloadView, b: payload::PayloadView)
    ensures
        a.hash64() == DefaultHasher::spec_finish(hashed(a)),
        b.hash64() == DefaultHasher::spec_finish(hashed(b)),
        hashed(a) == hashed(b) ==> a == b,
        a != b ==> hashed(a) != hashed(b),
{
    assert(a.hash64() == DefaultHasher::spec_finish(hashed(a)));
    assert(b.hash64() == DefaultHasher::spec_finish(hashed(b)));
    if hashed(a) == hashed(b) {
        assert(hashed(a)[0] == hashed(b)[0]);
        assert(hashed(a)[3] == hashed(b)[3]);
        reveal_strlit("text/plain; charset=utf-8");
        reveal_strlit("image/png");
        is_ascii_chars_encode_utf8("text/plain; charset=utf-8"@);
        is_ascii_chars_encode_utf8("image/png"@);
        match (a, b) {
            (payload::PayloadView::Text(s), payload::PayloadView::Text(t)) => {
                encode_utf8_decode_utf8(s);
                encode_utf8_decode_utf8(t);
            },
            _ => {},
        }
    }
}

// ------------------------------------------------------------------- the image

/// A frame of 8 bit RGBA gives its width, its height, and its pixels up to its size, byte
/// by byte.
pub proof fn law_rgba_frame_gives_its_pixels(frame: outside::FrameView)
    requires
        frame.color == 6,
        frame.depth == 8,
        frame.size <= frame.pixels.len(),
    ensures
        image::rgba_of(frame) matches Ok(p) && {
            &&& p.0 == frame.width
            &&& p.1 == frame.height
            &&& p.2.len() == frame.size
            &&& forall|i: int| 0 <= i < frame.size ==> #[trigger] p.2[i] == frame.pixels[i]
        },
{
}

/// A frame of another colour type or depth is refused, by the names of the two.
pub proof fn law_other_frame_is_refused(frame: outside::FrameView)
    requires
        frame.color != 6 || frame.depth != 8,
    ensures
        ({
            let color = match frame.color {
                0 => "Grayscale"@,
                2 => "Rgb"@,
                3 => "Indexed"@,
                4 => "GrayscaleAlpha"@,
                _ => "Rgba"@,
            };
            let depth = match frame.depth {
                1 => "One"@,
                2 => "Two"@,
                4 => "Four"@,
                8 => "Eight"@,
                _ => "Sixteen"@,
            };
            image::rgba_of(frame) == Err::<(usize, usize, Seq<u8>), Seq<char>>(
                "unsupported PNG: "@ + color + " "@ + depth,
            )
        }),
{
}

/// What is decoded of a PNG is what its first frame leaves in a blank buffer of the size
/// that the decoder asks for. Where the decoder fails, its error is the error.
pub proof fn law_decoding_is_that_of_the_frame(bytes: Seq<u8>, blank: Seq<u8>)
    requires
        forall|i: int| 0 <= i < blank.len() ==> #[trigger] blank[i] == 0,
    ensures
        outside::png_frame_size(bytes) matches Ok(Some(n)) ==> blank.len() == n ==> (
        image::png_pixels(bytes) == match outside::png_frame(bytes, blank) {
            Ok(frame) => image::rgba_of(frame),
            Err(e) => Err(e),
        }),
        outside::png_frame_size(bytes) matches Ok(None) ==> image::png_pixels(bytes) == Err::<
            (usize, usize, Seq<u8>),
            Seq<char>,
        >("the PNG is too large"@),
        outside::png_frame_size(bytes) matches Err(e) ==> image::png_pixels(bytes) == Err::<
            (usize, usize, Seq<u8>),
            Seq<char>,
        >(e),
{
    if let Ok(Some(n)) = outside::png_frame_size(bytes) {
        if blank.len() == n {
            assert(blank =~= image::zeros(n as nat));
        }
    }
}

/// The bytes of an image can be counted if and only if a row with one byte more, and all
/// of its rows, fit into `usize`.
pub proof fn law_countable_images_fit(width: u32, height: u32)
    ensures
        image::is_countable(width, height) == (4 * width + 1 <= usize::MAX && (4 * width) * height
            <= usize::MAX),
        outside::rgba_len(width, height) == 4 * width * height,
{
}

// ------------------------------------------------------------------- the views

/// What contracts say of a payload and a frame, they say of all that it holds.
pub proof fn law_clip_views_leave_nothing_out(
    text: String,
    bytes: Vec<u8>,
    frame: outside::Frame,
)
    ensures
        payload::Payload::Text(text)@ == payload::PayloadView::Text(text@),
        payload::Payload::Png(bytes)@ == payload::PayloadView::Png(bytes@),
        frame@.width == frame.width,
        frame@.height == frame.height,
        frame@.color == frame.color,
        frame@.depth == frame.depth,
        frame@.size == frame.size,
        frame@.pixels == frame.pixels@,
{
}

} // verus!
