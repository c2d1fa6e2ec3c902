//! The decisions of the sync, one by one.

use tailclip::client::{Resp, PUSH_TIMEOUT_MS};
use tailclip::image::{decode_png, encode_png};
use tailclip::payload::{Payload, PNG_MIME, TEXT_MIME};
use tailclip::server::MAX_BODY;
use tailclip::sync::{
    needs_image, outgoing, read_clipboard, read_image, watch_tick, write_clipboard, Paste, Poller,
    Pull, Watcher, LONG_POLL_TIMEOUT_MS, RETRY_WAIT_MS, WATCH_TICK_MS,
};

const URL: &str = "http://mini:8757/clip";

fn text(s: &str) -> Option<Payload> {
    Some(Payload::Text(s.to_string()))
}

fn resp(status: u16, version: u64, mime: &str, body: &[u8]) -> Result<Resp, String> {
    Ok(Resp {
        status,
        version,
        mime: mime.to_string(),
        body: body.to_vec(),
    })
}

#[test]
fn the_intervals() {
    assert_eq!(WATCH_TICK_MS, 500);
    assert_eq!(RETRY_WAIT_MS, 2000);
    assert_eq!(LONG_POLL_TIMEOUT_MS, 315_000);
}

#[test]
fn text_goes_before_an_image() {
    assert!(!needs_image(&Some("x".to_string())));
    assert!(needs_image(&Some(String::new())));
    assert!(needs_image(&None));
    assert_eq!(read_clipboard(Some("x".to_string()), Some(vec![1])), text("x"));
    assert_eq!(
        read_clipboard(Some(String::new()), Some(vec![1])),
        Some(Payload::Png(vec![1]))
    );
    assert_eq!(read_clipboard(None, Some(vec![])), Some(Payload::Png(vec![])));
    assert_eq!(read_clipboard(Some(String::new()), None), None);
    assert_eq!(read_clipboard(None, None), None);
}

#[test]
fn pixels_are_read_as_a_png() {
    let png = read_image(1, 1, &[1, 2, 3, 4]).expect("the pixels fill the image");
    assert_eq!(Ok(png.clone()), encode_png(1, 1, &[1, 2, 3, 4]));
    assert_eq!(decode_png(&png), Ok((1, 1, vec![1, 2, 3, 4])));
    assert_eq!(read_image(1, 1, &[1, 2, 3]), None);
    assert_eq!(read_image(0, 1, &[]), None);
    assert_eq!(read_image(0xffff_ffff, 0xffff_ffff, &[1, 2, 3, 4]), None);
}

#[test]
fn a_png_is_pasted_as_pixels() {
    let png = encode_png(1, 2, &[1, 2, 3, 4, 5, 6, 7, 8]).expect("encode");
    match write_clipboard(&Payload::Png(png)) {
        Ok(Paste::Image {
            width,
            height,
            rgba,
        }) => {
            assert_eq!((width, height), (1, 2));
            assert_eq!(rgba, vec![1, 2, 3, 4, 5, 6, 7, 8]);
        }
        _ => panic!("an image is pasted as pixels"),
    }
    match write_clipboard(&Payload::Text("x".to_string())) {
        Ok(Paste::Text(t)) => assert_eq!(t, "x"),
        _ => panic!("text is pasted as text"),
    }
    assert!(write_clipboard(&Payload::Png(vec![1])).is_err());
}

#[test]
fn applied_pixels_are_not_pushed_back() {
    let clip = Payload::Png(encode_png(1, 1, &[1, 2, 3, 4]).expect("encode"));
    let mut watcher = Watcher::new(&None);
    let pasted = match write_clipboard(&clip) {
        Ok(Paste::Image {
            width,
            height,
            rgba,
        }) => read_image(width, height, &rgba),
        _ => panic!("an image is pasted as pixels"),
    };
    watcher.mark_written(&clip);
    let read = read_clipboard(None, pasted);
    assert_eq!(read, Some(clip));
    assert!(watch_tick(&mut watcher, URL, read, false).is_none());
}

#[test]
fn an_applied_image_of_another_encoder_is_not_pushed_back() {
    let mut rgb = Vec::new();
    {
        let mut enc = png::Encoder::new(&mut rgb, 1, 1);
        enc.set_color(png::ColorType::Rgb);
        enc.set_depth(png::BitDepth::Eight);
        let mut w = enc.write_header().expect("png header");
        w.write_image_data(&[7, 8, 9]).expect("png data");
        w.finish().expect("png finish");
    }
    let clip = Payload::Png(rgb);
    let mut watcher = Watcher::new(&None);
    watcher.mark_written(&clip);
    let read = || read_clipboard(None, read_image(1, 1, &[7, 8, 9, 255]));
    assert_ne!(read(), Some(clip));
    assert_eq!(watcher.poll(read()), None);
    assert!(watch_tick(&mut watcher, URL, read(), false).is_none());
    assert_eq!(watcher.poll(text("copied here")), text("copied here"));
}

#[test]
fn a_clip_that_cannot_be_pasted_is_marked_as_it_is() {
    let clip = || Payload::Png(vec![1, 2, 3]);
    let mut watcher = Watcher::new(&None);
    watcher.mark_written(&clip());
    assert_eq!(watcher.poll(None), None);
    assert_eq!(watcher.poll(Some(clip())), None);
}

#[test]
fn the_watcher_returns_a_clip_once() {
    let mut w = Watcher::new(&text("a"));
    assert_eq!(w.poll(text("a")), None);
    assert_eq!(w.poll(text("b")), text("b"));
    assert_eq!(w.poll(text("b")), None);
    assert_eq!(w.poll(None), None);
    assert_eq!(w.poll(text("b")), None);
    assert_eq!(w.poll(Some(Payload::Png(b"b".to_vec()))), Some(Payload::Png(b"b".to_vec())));
    w.mark_written(&Payload::Text("c".to_string()));
    assert_eq!(w.poll(text("c")), None);
    assert_eq!(w.poll(text("a")), text("a"));
}

#[test]
fn the_watcher_counts_where_the_platform_does() {
    let mut w = Watcher::at_count(5);
    assert!(!w.poll_count(5));
    assert!(w.poll_count(6));
    assert!(!w.poll_count(6));
    w.mark_count(8);
    assert!(!w.poll_count(8));
    assert!(w.poll_count(7));
}

#[test]
fn a_local_change_is_pushed() {
    let mut w = Watcher::new(&None);
    let r = watch_tick(&mut w, URL, text("h\u{e9}"), false).expect("a local change");
    assert_eq!(r.url, URL);
    assert_eq!(r.mime, Some(TEXT_MIME.to_string()));
    assert_eq!(r.body, "h\u{e9}".as_bytes());
    assert_eq!(r.timeout_ms, PUSH_TIMEOUT_MS);
    assert!(watch_tick(&mut w, URL, text("h\u{e9}"), false).is_none());
    let r = watch_tick(&mut w, URL, Some(Payload::Png(vec![1])), false).expect("a local change");
    assert_eq!(r.mime, Some(PNG_MIME.to_string()));
    assert!(watch_tick(&mut w, URL, None, false).is_none());
}

#[test]
fn a_clip_copied_in_a_pause_is_never_pushed() {
    let mut w = Watcher::new(&None);
    assert!(watch_tick(&mut w, URL, text("secret"), true).is_none());
    assert!(watch_tick(&mut w, URL, text("secret"), false).is_none());
    assert!(watch_tick(&mut w, URL, text("new"), false).is_some());
}

#[test]
fn empty_and_oversize_clips_stay_here() {
    assert!(outgoing(URL, &text(""), false).is_none());
    assert!(outgoing(URL, &Some(Payload::Png(vec![0; MAX_BODY + 1])), false).is_none());
    assert!(outgoing(URL, &Some(Payload::Png(vec![0; MAX_BODY])), false).is_some());
    assert!(outgoing(URL, &text("x"), true).is_none());
    assert!(outgoing(URL, &None, false).is_none());
}

#[test]
fn the_poller_asks_for_the_version_first() {
    let mut p = Poller::new();
    let r = p.request(URL);
    assert_eq!(r.url, URL);
    assert_eq!(r.timeout_ms, 10_000);
    assert!(matches!(p.take(resp(200, 7, TEXT_MIME, b"old"), false), Pull::Skip));
    let r = p.request(URL);
    assert_eq!(r.url, "http://mini:8757/clip?since=7");
    assert_eq!(r.timeout_ms, 315_000);
}

#[test]
fn the_poller_retries() {
    let mut p = Poller::new();
    match p.take(Err("refused".to_string()), false) {
        Pull::Retry(report) => {
            assert_eq!(report, Some("server not reachable: refused".to_string()))
        }
        _ => panic!("an error is retried"),
    }
    assert_eq!(p.request(URL).url, URL);
    p.take(resp(200, 3, TEXT_MIME, b""), false);
    match p.take(Err("refused".to_string()), false) {
        Pull::Retry(report) => assert_eq!(report, None),
        _ => panic!("an error is retried"),
    }
    assert_eq!(p.request(URL).url, "http://mini:8757/clip?since=3");
}

#[test]
fn a_clip_of_an_outage_in_a_pause_is_never_applied() {
    let refused = || Err("refused".to_string());
    let mut p = Poller::new();
    p.take(resp(200, 3, TEXT_MIME, b"x"), false);
    assert!(matches!(p.take(refused(), true), Pull::Retry(None)));
    assert!(matches!(p.take(refused(), false), Pull::Retry(None)));
    let r = p.request(URL);
    assert_eq!((r.url.as_str(), r.timeout_ms), (URL, 10_000));
    assert!(matches!(p.take(resp(200, 4, TEXT_MIME, b"sent in the pause"), false), Pull::Skip));
    assert_eq!(p.request(URL).url, "http://mini:8757/clip?since=4");
    match p.take(resp(200, 5, TEXT_MIME, b"new"), false) {
        Pull::Apply(c) => assert_eq!(c, Payload::Text("new".to_string())),
        _ => panic!("a new clip is applied"),
    }
    p.forget();
    assert_eq!(p.request(URL).url, URL);
    assert!(matches!(p.take(resp(200, 6, TEXT_MIME, b"y"), false), Pull::Skip));
}

#[test]
fn an_outage_without_a_pause_loses_no_clip() {
    let mut p = Poller::new();
    p.take(resp(200, 3, TEXT_MIME, b"x"), false);
    p.take(Err("refused".to_string()), false);
    match p.take(resp(200, 4, TEXT_MIME, b"new"), false) {
        Pull::Apply(c) => assert_eq!(c, Payload::Text("new".to_string())),
        _ => panic!("a new clip is applied"),
    }
}

#[test]
fn the_poller_applies_only_clips() {
    let mut p = Poller::new();
    p.take(resp(200, 1, TEXT_MIME, b""), false);
    assert!(matches!(p.take(resp(204, 1, TEXT_MIME, b""), false), Pull::Skip));
    assert!(matches!(p.take(resp(404, 0, TEXT_MIME, b"x"), false), Pull::Skip));
    assert_eq!(p.request(URL).url, "http://mini:8757/clip?since=0");
    assert!(matches!(p.take(resp(200, 2, TEXT_MIME, b""), false), Pull::Skip));
    assert!(matches!(p.take(resp(200, 3, TEXT_MIME, b"x"), true), Pull::Skip));
    assert_eq!(p.request(URL).url, "http://mini:8757/clip?since=3");
    match p.take(resp(200, 4, PNG_MIME, &[1, 2]), false) {
        Pull::Apply(c) => assert_eq!(c, Payload::Png(vec![1, 2])),
        _ => panic!("a clip is applied"),
    }
}
