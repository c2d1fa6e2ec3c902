//! The calls into other crates, and into the one part of std that has no
//! specification. Verus believes what the contracts here claim of them.

use vstd::prelude::*;
use vstd::utf8::*;

verus! {

// ------------------------------------------------------------------- text

/// The text that `String::from_utf8_lossy` makes of bytes that are not UTF-8.
pub uninterp spec fn repaired_utf8(bytes: Seq<u8>) -> Seq<char>;

/// `String::from_utf8_lossy`: UTF-8 is decoded as it stands. Other bytes are
/// repaired in one fixed way, which this contract names and does not describe.
#[verifier::external_body]
pub(crate) fn utf8_lossy(bytes: &[u8]) -> (text: String)
    ensures
        valid_utf8(bytes@) ==> text@ == decode_utf8(bytes@),
        !valid_utf8(bytes@) ==> text@ == repaired_utf8(bytes@),
{
    String::from_utf8_lossy(bytes).into_owned()
}

// ---------------------------------------------------------------- headers

/// One HTTP header line.
#[derive(Debug, PartialEq, Eq)]
pub struct Field {
    pub name: String,
    pub value: String,
}

/// What a header line holds.
pub struct FieldView {
    pub name: Seq<char>,
    pub value: Seq<char>,
}

impl View for Field {
    type V = FieldView;

    open spec fn view(&self) -> FieldView {
        FieldView { name: self.name@, value: self.value@ }
    }
}

/// `c` in lower case, where it is an ASCII letter.
pub open spec fn lower(c: char) -> char {
    if 'A' <= c && c <= 'Z' {
        (c as u32 + 32) as char
    } else {
        c
    }
}

/// True if the two differ in the case of ASCII letters at most.
pub open spec fn same_but_case(a: Seq<char>, b: Seq<char>) -> bool {
    &&& a.len() == b.len()
    &&& forall|i: int| 0 <= i < a.len() ==> #[trigger] lower(a[i]) == lower(b[i])
}

/// `tiny_http::Header::from_bytes`: a name and a value make a header line if
/// and only if both are ASCII, and the line holds them unchanged.
#[verifier::external_body]
pub(crate) fn header_line(name: &str, value: &str) -> (line: Option<Field>)
    ensures
        match line {
            Some(f) => {
                &&& is_ascii_chars(name@) && is_ascii_chars(value@)
                &&& f.name@ == name@
                &&& f.value@ == value@
            },
            None => !is_ascii_chars(name@) || !is_ascii_chars(value@),
        },
{
    match tiny_http::Header::from_bytes(name.as_bytes(), value.as_bytes()) {
        Ok(h) => Some(
            Field { name: h.field.as_str().to_string(), value: h.value.as_str().to_string() },
        ),
        Err(()) => None,
    }
}

/// `tiny_http::HeaderField::equiv`: the comparison of header names ignores the
/// case of ASCII letters. Text that is not ASCII is no header name, and equal to
/// nothing.
#[verifier::external_body]
pub(crate) fn names_equal(name: &str, other: &'static str) -> (equal: bool)
    ensures
        equal == (is_ascii_chars(name@) && same_but_case(name@, other@)),
{
    match tiny_http::HeaderField::from_bytes(name.as_bytes()) {
        Ok(field) => field.equiv(other),
        Err(_) => false,
    }
}

/// A byte that a header value may show: a tab, or a printable ASCII character.
pub open spec fn is_visible(b: u8) -> bool {
    b == 9 || 32 <= b < 127
}

/// The text of a header value, where all of it is visible.
pub open spec fn header_text_of(value: Seq<u8>) -> Option<Seq<char>> {
    if forall|i: int| 0 <= i < value.len() ==> is_visible(#[trigger] value[i]) {
        Some(Seq::new(value.len(), |i: int| value[i] as char))
    } else {
        None
    }
}

/// `http::HeaderValue::to_str`, in the `http` crate that `ureq` hands on: the
/// value is text if and only if every byte of it is visible, and the text is
/// those bytes as characters.
#[verifier::external_body]
pub(crate) fn header_text(value: &[u8]) -> (text: Option<String>)
    ensures
        match text {
            Some(t) => header_text_of(value@) == Some(t@),
            None => header_text_of(value@) is None,
        },
{
    let value = ureq::http::HeaderValue::from_bytes(value).ok()?;
    value.to_str().ok().map(|s| s.to_string())
}

// ----------------------------------------------------------------- images

/// One image as the PNG decoder hands it out.
pub struct Frame {
    pub width: u32,
    pub height: u32,
    /// The PNG code of the colour type: 0, 2, 3, 4 or 6.
    pub color: u8,
    /// The bits of one sample: 1, 2, 4, 8 or 16.
    pub depth: u8,
    /// How much of `pixels` the image takes.
    pub size: usize,
    pub pixels: Vec<u8>,
}

/// What a frame holds.
pub struct FrameView {
    pub width: u32,
    pub height: u32,
    pub color: u8,
    pub depth: u8,
    pub size: usize,
    pub pixels: Seq<u8>,
}

impl View for Frame {
    type V = FrameView;

    open spec fn view(&self) -> FrameView {
        FrameView {
            width: self.width,
            height: self.height,
            color: self.color,
            depth: self.depth,
            size: self.size,
            pixels: self.pixels@,
        }
    }
}

/// The first eight bytes of a PNG.
pub open spec fn png_signature() -> Seq<u8> {
    seq![0x89u8, 0x50u8, 0x4eu8, 0x47u8, 0x0du8, 0x0au8, 0x1au8, 0x0au8]
}

/// The bytes that fill an image of 8 bit RGBA pixels.
pub open spec fn rgba_len(width: u32, height: u32) -> nat {
    4 * width as nat * height as nat
}

/// The PNG that the `png` encoder makes of 8 bit RGBA pixels, or its error.
pub uninterp spec fn png_encoded(width: u32, height: u32, rgba: Seq<u8>) -> Result<
    Seq<u8>,
    Seq<char>,
>;

/// The bytes that the `png` decoder asks for to decode `bytes`, `None` where no
/// buffer can be as large, or its error.
pub uninterp spec fn png_frame_size(bytes: Seq<u8>) -> Result<Option<usize>, Seq<char>>;

/// The first frame of `bytes` as the `png` decoder leaves it in `buffer`, or its
/// error.
pub uninterp spec fn png_frame(bytes: Seq<u8>, buffer: Seq<u8>) -> Result<FrameView, Seq<char>>;

/// True if the decoder reads these 8 bit RGBA pixels from `bytes`.
pub open spec fn decodes_to(bytes: Seq<u8>, width: u32, height: u32, rgba: Seq<u8>) -> bool {
    let frame = FrameView {
        width,
        height,
        color: 6,
        depth: 8,
        size: rgba.len() as usize,
        pixels: rgba,
    };
    &&& png_frame_size(bytes) == Ok::<Option<usize>, Seq<char>>(Some(rgba.len() as usize))
    &&& forall|buffer: Seq<u8>|
        buffer.len() == rgba.len() ==> #[trigger] png_frame(bytes, buffer) == Ok::<
            FrameView,
            Seq<char>,
        >(frame)
}

/// `png::Encoder`, for 8 bit RGBA: `write_header`, `write_image_data` and
/// `finish` into a buffer in memory.
///
/// The PNG is a function of the pixels and begins with the PNG signature. There
/// is one if and only if the image is not empty and the pixels fill it. PNG is
/// lossless: the decoder reads the same pixels back, unless a row of them is
/// larger than the 64 MiB that the decoder allows itself. An image whose size
/// overflows `usize` makes the encoder panic, so it is left out.
#[verifier::external_body]
pub(crate) fn png_encode(width: u32, height: u32, rgba: &[u8]) -> (png: Result<Vec<u8>, String>)
    requires
        4 * width + 1 <= usize::MAX,
        rgba_len(width, height) <= usize::MAX,
    ensures
        match png {
            Ok(bytes) => png_encoded(width, height, rgba@) == Ok::<Seq<u8>, Seq<char>>(bytes@),
            Err(e) => png_encoded(width, height, rgba@) == Err::<Seq<u8>, Seq<char>>(e@),
        },
        (png is Ok) == (width != 0 && height != 0 && rgba@.len() == rgba_len(width, height)),
        png matches Ok(bytes) ==> png_signature().is_prefix_of(bytes@),
        png matches Ok(bytes) ==> 4 * width <= 0x400_0000 ==> decodes_to(
            bytes@,
            width,
            height,
            rgba@,
        ),
{
    let mut out = Vec::new();
    let mut enc = png::Encoder::new(&mut out, width, height);
    enc.set_color(png::ColorType::Rgba);
    enc.set_depth(png::BitDepth::Eight);
    let mut w = enc.write_header().map_err(|e| e.to_string())?;
    w.write_image_data(rgba).map_err(|e| e.to_string())?;
    w.finish().map_err(|e| e.to_string())?;
    Ok(out)
}

/// `png::Reader::output_buffer_size`, with colours expanded and alpha added: the
/// size is a function of the bytes. Bytes without the PNG signature are refused.
#[verifier::external_body]
pub(crate) fn png_size(bytes: &[u8]) -> (size: Result<Option<usize>, String>)
    ensures
        match size {
            Ok(n) => png_frame_size(bytes@) == Ok::<Option<usize>, Seq<char>>(n),
            Err(e) => png_frame_size(bytes@) == Err::<Option<usize>, Seq<char>>(e@),
        },
        !png_signature().is_prefix_of(bytes@) ==> size is Err,
{
    let mut dec = png::Decoder::new(std::io::Cursor::new(bytes));
    dec.set_transformations(png::Transformations::EXPAND | png::Transformations::ALPHA);
    let reader = dec.read_info().map_err(|e| e.to_string())?;
    Ok(reader.output_buffer_size())
}

/// `png::Reader::next_frame`, with colours expanded and alpha added: the frame is
/// a function of the bytes and the buffer.
///
/// The buffer keeps its length and holds the whole image. An image of 8 bit RGBA
/// takes four bytes for each pixel.
#[verifier::external_body]
pub(crate) fn png_decode(bytes: &[u8], buffer: Vec<u8>) -> (frame: Result<Frame, String>)
    ensures
        match frame {
            Ok(f) => png_frame(bytes@, buffer@) == Ok::<FrameView, Seq<char>>(f@),
            Err(e) => png_frame(bytes@, buffer@) == Err::<FrameView, Seq<char>>(e@),
        },
        frame matches Ok(f) ==> f.size <= f.pixels@.len() == buffer@.len(),
        frame matches Ok(f) ==> f.color == 6 && f.depth == 8 ==> f.size == rgba_len(
            f.width,
            f.height,
        ),
{
    let mut dec = png::Decoder::new(std::io::Cursor::new(bytes));
    dec.set_transformations(png::Transformations::EXPAND | png::Transformations::ALPHA);
    let mut reader = dec.read_info().map_err(|e| e.to_string())?;
    let mut pixels = buffer;
    let info = reader.next_frame(&mut pixels).map_err(|e| e.to_string())?;
    let (color, depth) = (info.color_type as u8, info.bit_depth as u8);
    let size = info.buffer_size();
    Ok(Frame { width: info.width, height: info.height, color, depth, size, pixels })
}

} // verus!
