//! The client: URLs, requests, replies, payloads and images.

use std::collections::hash_map::DefaultHasher;
use std::hash::{Hash, Hasher};
use tailclip::client::{
    clip_url, fetch, get, push, read_resp, set_result, Source, FETCH_LIMIT, FETCH_TIMEOUT_MS,
    PUSH_TIMEOUT_MS,
};
use tailclip::image::{countable, decode_png, encode_png, frame_rgba, looks_like_png};
use tailclip::outside::Frame;
use tailclip::payload::{Payload, PNG_MIME, TEXT_MIME};
use tailclip::selftest::tiny_png;
use tailclip::server::{Method, MAX_BODY};

#[test]
fn url_gets_the_default_port() {
    assert_eq!(clip_url("100.64.0.10"), "http://100.64.0.10:8757/clip");
}

#[test]
fn url_keeps_an_explicit_port() {
    assert_eq!(clip_url("mini.local:9000"), "http://mini.local:9000/clip");
}

#[test]
fn png_signature_check() {
    assert!(looks_like_png(&[
        0x89, b'P', b'N', b'G', 0x0d, 0x0a, 0x1a, 0x0a, 0
    ]));
    assert!(!looks_like_png(b"hello"));
}

#[test]
fn wire_mime_picks_the_payload_kind() {
    assert_eq!(
        Payload::from_wire(TEXT_MIME, b"hi".to_vec()),
        Payload::Text("hi".into())
    );
    match Payload::from_wire(PNG_MIME, vec![1, 2, 3]) {
        Payload::Png(b) => assert_eq!(b, vec![1, 2, 3]),
        other => panic!("expected a PNG, got {other:?}"),
    }
}

#[test]
fn hash_separates_text_from_an_image() {
    let a = Payload::Text("x".into());
    let b = Payload::Png(b"x".to_vec());
    assert_ne!(a.hash64(), b.hash64());
}

#[test]
fn png_round_trip_keeps_the_pixels() {
    let rgba: Vec<u8> = vec![
        255, 0, 0, 255, 0, 255, 0, 255, 0, 0, 255, 255, 255, 255, 255, 128,
    ];
    let png = encode_png(2, 2, &rgba).expect("encode");
    assert!(looks_like_png(&png));
    let (w, h, back) = decode_png(&png).expect("decode");
    assert_eq!((w, h), (2, 2));
    assert_eq!(back, rgba);
}

#[test]
fn decode_rejects_bytes_that_are_not_a_png() {
    assert!(decode_png(b"not a png at all").is_err());
}

#[test]
fn url_takes_only_a_number_for_a_port() {
    assert_eq!(clip_url("mini.local:"), "http://mini.local::8757/clip");
    assert_eq!(clip_url("mini.local:65536"), "http://mini.local:65536:8757/clip");
    assert_eq!(clip_url("mini.local:65535"), "http://mini.local:65535/clip");
    assert_eq!(clip_url("mini.local:http"), "http://mini.local:http:8757/clip");
    assert_eq!(clip_url("a:b:80"), "http://a:b:80/clip");
    assert_eq!(clip_url(""), "http://:8757/clip");
}

#[test]
fn a_host_is_the_host_with_the_default_port() {
    assert_eq!(clip_url("mini.local"), clip_url("mini.local:8757"));
}

#[test]
fn fetch_asks_for_the_end_of_a_version() {
    let r = fetch("http://h/clip", Some(42), 7);
    assert_eq!(r.method, Method::Get);
    assert_eq!(r.url, "http://h/clip?since=42");
    assert_eq!(r.mime, None);
    assert!(r.body.is_empty());
    assert_eq!(r.timeout_ms, 7);
    assert_eq!(fetch("http://h/clip", None, 7).url, "http://h/clip");
    assert_eq!(
        fetch("u", Some(u64::MAX), 7).url,
        "u?since=18446744073709551615"
    );
    assert_eq!(fetch("u", Some(0), 7).url, "u?since=0");
}

#[test]
fn push_carries_the_clip() {
    let r = push("http://h/clip", "image/png", &[1, 2], 9);
    assert_eq!(r.method, Method::Post);
    assert_eq!(r.url, "http://h/clip");
    assert_eq!(r.mime, Some("image/png".to_string()));
    assert_eq!(r.body, vec![1, 2]);
    assert_eq!(r.timeout_ms, 9);
}

#[test]
fn get_asks_for_the_current_clip() {
    let r = get("mini");
    assert_eq!(r.method, Method::Get);
    assert_eq!(r.url, "http://mini:8757/clip");
    assert_eq!(r.timeout_ms, FETCH_TIMEOUT_MS);
    assert_eq!(FETCH_TIMEOUT_MS, 10_000);
}

#[test]
fn set_sends_the_argument_as_text() {
    let r = tailclip::client::set("mini", Source::Text("h\u{e9}".to_string())).ok().expect("within the cap");
    assert_eq!(r.url, "http://mini:8757/clip");
    assert_eq!(r.mime, Some(TEXT_MIME.to_string()));
    assert_eq!(r.body, "h\u{e9}".as_bytes());
    assert_eq!(r.timeout_ms, PUSH_TIMEOUT_MS);
    assert_eq!(PUSH_TIMEOUT_MS, 30_000);
}

#[test]
fn set_tells_an_image_on_stdin_by_its_signature() {
    let png = encode_png(1, 1, &[255, 0, 0, 255]).expect("encode");
    let r = tailclip::client::set("mini", Source::Stdin(png.clone())).ok().expect("within the cap");
    assert_eq!(r.mime, Some(PNG_MIME.to_string()));
    assert_eq!(r.body, png);
    let r = tailclip::client::set("mini", Source::Stdin(vec![0xff, 0])).ok().expect("within the cap");
    assert_eq!(r.mime, Some(TEXT_MIME.to_string()));
    assert_eq!(r.body, vec![0xff, 0]);
}

#[test]
fn set_refuses_a_clip_over_the_cap() {
    assert!(tailclip::client::set("mini", Source::Stdin(vec![b'z'; MAX_BODY])).is_ok());
    let e = tailclip::client::set("mini", Source::Stdin(vec![b'z'; MAX_BODY + 1])).err();
    assert_eq!(
        e.as_deref(),
        Some("clip is 33554433 bytes. The cap is 33554432 bytes.")
    );
}

#[test]
fn set_reports_only_a_refusal_for_size() {
    assert_eq!(
        set_result(413),
        Err("the server rejected the clip: too large".to_string())
    );
    for status in [200, 204, 400, 404, 500] {
        assert_eq!(set_result(status), Ok(()));
    }
}

#[test]
fn a_reply_without_headers_is_text_of_version_zero() {
    let r = read_resp(404, None, None, Ok(vec![])).ok().expect("the body was read");
    assert_eq!(r.status, 404);
    assert_eq!(r.version, 0);
    assert_eq!(r.mime, TEXT_MIME);
}

#[test]
fn a_reply_tells_its_version_and_mime_type() {
    let r = read_resp(
        200,
        Some(b"17".to_vec()),
        Some(b"image/png".to_vec()),
        Ok(vec![7]),
    )
    .ok()
    .expect("the body was read");
    assert_eq!((r.status, r.version), (200, 17));
    assert_eq!(r.mime, "image/png");
    assert_eq!(r.body, vec![7]);
}

#[test]
fn a_header_that_cannot_be_shown_counts_for_none() {
    let r = read_resp(
        200,
        Some(vec![b'1', 0x80]),
        Some(vec![b'a', 0x0a]),
        Ok(vec![]),
    )
    .ok()
    .expect("the body was read");
    assert_eq!(r.version, 0);
    assert_eq!(r.mime, TEXT_MIME);
    let r = read_resp(200, Some(b"seven".to_vec()), Some(b"a\tb~".to_vec()), Ok(vec![]))
        .ok()
        .expect("the body was read");
    assert_eq!(r.version, 0);
    assert_eq!(r.mime, "a\tb~");
}

#[test]
fn a_body_that_was_not_read_is_an_error() {
    let e = read_resp(200, None, None, Err("broken pipe".to_string())).err();
    assert_eq!(e.as_deref(), Some("broken pipe"));
}

#[test]
fn the_largest_clip_can_be_fetched() {
    assert_eq!(FETCH_LIMIT, MAX_BODY as u64 + 1);
    let r = read_resp(200, None, None, Ok(vec![7; MAX_BODY])).ok().expect("within the cap");
    assert_eq!(r.body.len(), MAX_BODY);
}

#[test]
fn a_body_over_the_cap_is_an_error() {
    let e = read_resp(200, Some(b"1".to_vec()), None, Ok(vec![7; MAX_BODY + 1])).err();
    assert_eq!(
        e.as_deref(),
        Some("the response body is larger than request limit: 33554432")
    );
}

#[test]
fn a_payload_tells_its_mime_type_and_bytes() {
    let t = Payload::Text("h\u{e9}".to_string());
    assert_eq!(t.mime(), "text/plain; charset=utf-8");
    assert_eq!(t.bytes(), "h\u{e9}".as_bytes());
    assert!(!t.is_empty());
    let p = Payload::Png(vec![]);
    assert_eq!(p.mime(), "image/png");
    assert!(p.bytes().is_empty());
    assert!(p.is_empty());
}

#[test]
fn a_payload_survives_the_wire() {
    for p in [
        Payload::Text("gr\u{fc}\u{df} dich \u{1f600}".to_string()),
        Payload::Text(String::new()),
        Payload::Png(vec![0, 255, 128]),
    ] {
        assert_eq!(Payload::from_wire(p.mime(), p.bytes().to_vec()), p);
    }
}

#[test]
fn text_that_is_not_utf8_is_repaired() {
    assert_eq!(
        Payload::from_wire("text/plain", vec![b'a', 0xff, b'b']),
        Payload::Text("a\u{fffd}b".to_string())
    );
    assert_eq!(
        Payload::from_wire("image/png; x", vec![0xff]),
        Payload::Png(vec![0xff])
    );
    assert_eq!(
        Payload::from_wire("image/pn", vec![b'x']),
        Payload::Text("x".to_string())
    );
}

#[test]
fn the_hash_is_that_of_the_mime_type_and_the_bytes() {
    if u64::from_ne_bytes([1, 0, 0, 0, 0, 0, 0, 0]) != 1 || usize::BITS != 64 {
        return;
    }
    for p in [
        Payload::Text("x".to_string()),
        Payload::Text(String::new()),
        Payload::Png(vec![1, 2, 3]),
    ] {
        let mut h = DefaultHasher::new();
        p.mime().hash(&mut h);
        p.bytes().hash(&mut h);
        assert_eq!(p.hash64(), h.finish());
    }
}

#[test]
fn encode_refuses_pixels_that_do_not_fill_the_image() {
    assert!(encode_png(2, 2, &[0; 15]).is_err());
    assert!(encode_png(2, 2, &[0; 17]).is_err());
    assert!(encode_png(0, 2, &[]).is_err());
    assert!(encode_png(2, 0, &[]).is_err());
    assert!(encode_png(2, 2, &[0; 16]).is_ok());
}

#[test]
fn the_bytes_of_an_image_have_to_be_countable() {
    assert!(countable(2, 2));
    assert!(countable(0, 0));
    assert!(!countable(0xffff_ffff, 0xffff_ffff));
}

#[test]
fn the_tiny_image_is_one_red_pixel() {
    assert_eq!(decode_png(&tiny_png()), Ok((1, 1, vec![255, 0, 0, 255])));
}

#[test]
fn a_large_image_round_trips() {
    let rgba: Vec<u8> = (0..3000 * 3000 * 4).map(|i| (i / 12_000) as u8).collect();
    let png = encode_png(3000, 3000, &rgba).expect("encode");
    assert!(decode_png(&png) == Ok((3000, 3000, rgba.clone())));
    let wide = &rgba[..2_000_000];
    let png = encode_png(250_000, 2, wide).expect("encode");
    assert!(decode_png(&png) == Ok((250_000, 2, wide.to_vec())));
}

#[test]
fn a_row_beyond_the_decoder_does_not_come_back() {
    let width = 0x400_0000 / 4 + 1;
    let png = encode_png(width, 1, &vec![7; 4 * width]).expect("encode");
    assert!(decode_png(&png).is_err());
}

#[test]
fn decode_reports_what_the_decoder_reports() {
    let png = encode_png(1, 1, &[1, 2, 3, 4]).expect("encode");
    assert!(decode_png(&png[..20]).is_err());
    assert!(decode_png(&[]).is_err());
    assert!(decode_png(&png[..8]).is_err());
    assert!(decode_png(&png[1..]).is_err());
    assert!(!decode_png(b"not a png at all").unwrap_err().is_empty());
}

#[test]
fn a_grayscale_png_is_unsupported() {
    let mut out = Vec::new();
    {
        let mut enc = png::Encoder::new(&mut out, 1, 1);
        enc.set_color(png::ColorType::Grayscale);
        enc.set_depth(png::BitDepth::Eight);
        let mut w = enc.write_header().expect("png header");
        w.write_image_data(&[7]).expect("png data");
        w.finish().expect("png finish");
    }
    assert_eq!(
        decode_png(&out),
        Err("unsupported PNG: GrayscaleAlpha Eight".to_string())
    );
}

#[test]
fn an_opaque_png_gains_its_alpha() {
    let mut out = Vec::new();
    {
        let mut enc = png::Encoder::new(&mut out, 1, 1);
        enc.set_color(png::ColorType::Rgb);
        enc.set_depth(png::BitDepth::Eight);
        let mut w = enc.write_header().expect("png header");
        w.write_image_data(&[7, 8, 9]).expect("png data");
        w.finish().expect("png finish");
    }
    assert_eq!(decode_png(&out), Ok((1, 1, vec![7, 8, 9, 255])));
}

fn frame(color: u8, depth: u8, size: usize) -> Frame {
    Frame {
        width: 1,
        height: 1,
        color,
        depth,
        size,
        pixels: vec![1, 2, 3, 4, 5],
    }
}

#[test]
fn a_frame_is_cut_to_its_size() {
    assert_eq!(frame_rgba(frame(6, 8, 4)), Ok((1, 1, vec![1, 2, 3, 4])));
    assert_eq!(frame_rgba(frame(6, 8, 9)), Ok((1, 1, vec![1, 2, 3, 4, 5])));
}

#[test]
fn a_frame_of_another_kind_is_named() {
    for (color, depth, text) in [
        (0, 1, "unsupported PNG: Grayscale One"),
        (2, 8, "unsupported PNG: Rgb Eight"),
        (3, 2, "unsupported PNG: Indexed Two"),
        (4, 4, "unsupported PNG: GrayscaleAlpha Four"),
        (6, 16, "unsupported PNG: Rgba Sixteen"),
    ] {
        assert_eq!(frame_rgba(frame(color, depth, 4)), Err(text.to_string()));
    }
}
