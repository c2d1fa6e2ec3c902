//! What a clip is on the pasteboard: text or an image.

use crate::outside;
use crate::outside::utf8_lossy;
use crate::text::{chars_of, has_prefix};
use std::collections::hash_map::DefaultHasher;
use std::hash::Hasher;
use vstd::bytes::*;
use vstd::prelude::*;
use vstd::std_specs::hash::*;
use vstd::utf8::*;

verus! {

/// The mime type of text.
pub const TEXT_MIME: &'static str = "text/plain; charset=utf-8";

/// The mime type of an image.
pub const PNG_MIME: &'static str = "image/png";

/// A clip of one of the two kinds that a pasteboard holds.
#[derive(Clone, PartialEq, Eq, Debug)]
pub enum Payload {
    Text(String),
    Png(Vec<u8>),
}

/// What a payload holds: characters, or the bytes of a PNG.
pub enum PayloadView {
    Text(Seq<char>),
    Png(Seq<u8>),
}

impl View for Payload {
    type V = PayloadView;

    open spec fn view(&self) -> PayloadView {
        match self {
            Payload::Text(t) => PayloadView::Text(t@),
            Payload::Png(b) => PayloadView::Png(b@),
        }
    }
}

impl PayloadView {
    /// The mime type under which the payload travels.
    pub open spec fn mime(self) -> Seq<char> {
        match self {
            PayloadView::Text(_) => TEXT_MIME@,
            PayloadView::Png(_) => PNG_MIME@,
        }
    }

    /// The bytes in which the payload travels.
    pub open spec fn bytes(self) -> Seq<u8> {
        match self {
            PayloadView::Text(t) => encode_utf8(t),
            PayloadView::Png(b) => b,
        }
    }

    /// The hash that stands for the payload: of its mime type, a byte that ends
    /// it, the length of the bytes, and the bytes.
    pub open spec fn hash64(self) -> u64 {
        DefaultHasher::spec_finish(
            seq![
                encode_utf8(self.mime()),
                seq![0xffu8],
                spec_u64_to_le_bytes(self.bytes().len() as u64),
                self.bytes(),
            ],
        )
    }
}

/// The text that bytes are taken for: their UTF-8, repaired where it is broken.
pub open spec fn text_of(bytes: Seq<u8>) -> Seq<char> {
    if valid_utf8(bytes) {
        decode_utf8(bytes)
    } else {
        outside::repaired_utf8(bytes)
    }
}

/// The payload that a body of the given mime type carries.
pub open spec fn wire_payload(mime: Seq<char>, body: Seq<u8>) -> PayloadView {
    if PNG_MIME@.is_prefix_of(mime) {
        PayloadView::Png(body)
    } else {
        PayloadView::Text(text_of(body))
    }
}

impl Payload {
    pub fn mime(&self) -> (mime: &'static str)
        ensures
            mime@ == self@.mime(),
    {
        match self {
            Payload::Text(_) => TEXT_MIME,
            Payload::Png(_) => PNG_MIME,
        }
    }

    pub fn bytes(&self) -> (bytes: &[u8])
        ensures
            bytes@ == self@.bytes(),
    {
        match self {
            Payload::Text(t) => t.as_str().as_bytes(),
            Payload::Png(b) => b.as_slice(),
        }
    }

    /// Builds a payload from a body and its mime type.
    pub fn from_wire(mime: &str, body: Vec<u8>) -> (payload: Payload)
        ensures
            payload@ == wire_payload(mime@, body@),
    {
        if has_prefix(chars_of(mime).as_slice(), PNG_MIME) {
            Payload::Png(body)
        } else {
            Payload::Text(utf8_lossy(body.as_slice()))
        }
    }

    pub fn is_empty(&self) -> (empty: bool)
        ensures
            empty == (self@.bytes().len() == 0),
    {
        self.bytes().len() == 0
    }

    /// The hash by which a change of the pasteboard is found, where the platform
    /// counts no changes.
    pub fn hash64(&self) -> (hash: u64)
        ensures
            hash == self@.hash64(),
    {
        let bytes = self.bytes();
        let end: [u8; 1] = [0xff];
        let length: Vec<u8> = u64_to_le_bytes(bytes.len() as u64);
        let mut h = DefaultHasher::new();
        h.write(self.mime().as_bytes());
        h.write(end.as_slice());
        h.write(length.as_slice());
        h.write(bytes);
        assert(end@ =~= seq![0xffu8]);
        assert(h@ =~= seq![
            encode_utf8(self@.mime()),
            seq![0xffu8],
            spec_u64_to_le_bytes(bytes@.len() as u64),
            bytes@,
        ]);
        h.finish()
    }
}

/// A payload survives the wire: the body and the mime type that it is sent as
/// carry the same payload.
pub proof fn lemma_wire_round_trip(p: PayloadView)
    ensures
        wire_payload(p.mime(), p.bytes()) == p,
{
    match p {
        PayloadView::Text(t) => {
            encode_utf8_valid_utf8(t);
            encode_utf8_decode_utf8(t);
            reveal_strlit("text/plain; charset=utf-8");
            reveal_strlit("image/png");
            assert(TEXT_MIME@.subrange(0, PNG_MIME@.len() as int)[0] == 't');
        },
        PayloadView::Png(b) => {
            assert(PNG_MIME@ =~= PNG_MIME@.subrange(0, PNG_MIME@.len() as int));
        },
    }
}

} // verus!
