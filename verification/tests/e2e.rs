//! The client and the server together, with the network left out: what one asks is
//! handed to the other.

use tailclip::bind::{Ip, Ipv4, Ipv6};
use tailclip::cli::{host_of, listen_on};
use tailclip::client::{
    clip_url, fetch, get, push, read_resp, set_result, Request, Resp, Source,
};
use tailclip::image::encode_png;
use tailclip::outside::Field;
use tailclip::payload::{Payload, TEXT_MIME};
use tailclip::selftest::{
    rule_checks, rule_text, startup, startup_request, Action, Script, Startup, RULES,
    SELFTEST_POLL_MS, SELFTEST_PORT,
};
use tailclip::server::{handle, set_poll_timeout, Reply, Route, State, Step};
use tailclip::sync::{watch_tick, Poller, Pull, Watcher};

// ------------------------------------------------------------------ harness

/// The path and the query of a URL.
fn path_of(url: &str) -> &str {
    let rest = url.strip_prefix("http://").expect("a URL of the client");
    &rest[rest.find('/').expect("the URL has a path")..]
}

/// Hands a request to the server. A GET has waited this long.
fn ask_after(state: &mut State, request: &Request, waited_ns: u128) -> Step {
    let fields: Vec<Field> = request
        .mime
        .iter()
        .map(|m| Field {
            name: "content-type".to_string(),
            value: m.clone(),
        })
        .collect();
    match handle(request.method, path_of(&request.url)) {
        Route::Get { since } => state.get_clip(&state.begin_get(since), waited_ns),
        Route::Post => Step::Answer(state.post_clip(&fields, Some(request.body.clone())).0),
        Route::Refuse(reply) => Step::Answer(reply),
    }
}

/// What the client makes of a reply.
fn receive(reply: Reply) -> Resp {
    let header = |name: &str| {
        reply
            .headers
            .iter()
            .find(|h| h.name.eq_ignore_ascii_case(name))
            .map(|h| h.value.clone().into_bytes())
    };
    let version = header("X-Clip-Version");
    let mime = header("Content-Type");
    read_resp(
        reply.status,
        version,
        mime,
        Ok(reply.body.unwrap_or_default()),
    )
    .ok()
    .expect("the body was read")
}

/// Sends a request that is answered at once.
fn ask(state: &mut State, request: &Request) -> Resp {
    match ask_after(state, request, 0) {
        Step::Answer(reply) => receive(reply),
        Step::Wait { .. } => panic!("the server does not answer at once"),
    }
}

fn post(state: &mut State, mime: &str, body: &[u8]) -> Resp {
    ask(state, &push(&clip_url("mini"), mime, body, 1000))
}

fn run_set(state: &mut State, source: Source) {
    let request = tailclip::client::set("mini", source).ok().expect("within the cap");
    assert_eq!(set_result(ask(state, &request).status), Ok(()));
}

fn red_dot_png() -> Vec<u8> {
    let mut out = Vec::new();
    {
        let mut enc = png::Encoder::new(&mut out, 1, 1);
        enc.set_color(png::ColorType::Rgba);
        enc.set_depth(png::BitDepth::Eight);
        let mut w = enc.write_header().expect("png header");
        w.write_image_data(&[255, 0, 0, 255]).expect("png data");
        w.finish().expect("png finish");
    }
    out
}

fn v4(octets: [u8; 4]) -> Option<Ip> {
    Some(Ip::V4(Ipv4 { octets }))
}

fn v6(segments: [u16; 8]) -> Option<Ip> {
    Some(Ip::V6(Ipv6 { segments }))
}

/// What `serve` says with these arguments and this address behind `--bind`.
fn serve(args: &[&str], address: Option<Ip>) -> Result<Ip, String> {
    let args: Vec<String> = args.iter().map(|a| a.to_string()).collect();
    listen_on(&args, address, &Vec::new()).map(|place| place.0)
}

// -------------------------------------------------------------------- tests

#[test]
fn text_round_trips_through_the_binaries() {
    let mut s = State::new();
    run_set(&mut s, Source::Text("hello from the test".to_string()));
    let r = ask(&mut s, &get("mini"));
    assert_eq!(String::from_utf8_lossy(&r.body), "hello from the test");
}

#[test]
fn stdin_sets_the_clip() {
    let mut s = State::new();
    run_set(&mut s, Source::Stdin(b"clip from stdin".to_vec()));
    let r = ask(&mut s, &get("mini"));
    assert_eq!(String::from_utf8_lossy(&r.body), "clip from stdin");
}

#[test]
fn a_png_round_trips_and_keeps_its_content_type() {
    let mut s = State::new();
    let png = red_dot_png();
    run_set(&mut s, Source::Stdin(png.clone()));
    let r = ask(&mut s, &get("mini"));
    assert_eq!(r.body, png, "the bytes must survive the round trip");
    assert!(r.mime.starts_with("image/png"), "content type was {}", r.mime);
    assert_eq!(encode_png(1, 1, &[255, 0, 0, 255]), Ok(png));
}

#[test]
fn an_identical_clip_does_not_bump_the_version() {
    let mut s = State::new();
    assert_eq!(post(&mut s, TEXT_MIME, b"same").version, 1);
    assert_eq!(
        post(&mut s, TEXT_MIME, b"same").version,
        1,
        "an identical body must not bump the version"
    );
    assert_eq!(
        post(&mut s, TEXT_MIME, b"other").version,
        2,
        "a changed body must bump the version"
    );
}

#[test]
fn the_same_bytes_with_a_new_mime_type_bump_the_version() {
    let mut s = State::new();
    let body = red_dot_png();
    assert_eq!(post(&mut s, "image/png", &body).version, 1);
    assert_eq!(
        post(&mut s, TEXT_MIME, &body).version,
        2,
        "a new mime type must bump the version"
    );
}

#[test]
fn the_long_poll_delivers_a_clip_from_another_process() {
    let mut s = State::new();
    let url = clip_url("mini");
    let start = ask(&mut s, &get("mini")).version;
    let poll = fetch(&url, Some(start), 120_000);
    match ask_after(&mut s, &poll, 300_000_000) {
        Step::Wait { secs, nanos } => assert_eq!((secs, nanos), (299, 700_000_000)),
        Step::Answer(_) => panic!("the poll must wait"),
    }
    run_set(&mut s, Source::Text("delivered by the long poll".to_string()));
    let r = match ask_after(&mut s, &poll, 400_000_000) {
        Step::Answer(reply) => receive(reply),
        Step::Wait { .. } => panic!("the poll must end"),
    };
    assert_eq!(r.status, 200);
    assert_eq!(r.version, start + 1);
    assert_eq!(
        String::from_utf8_lossy(&r.body),
        "delivered by the long poll"
    );
}

#[test]
fn a_clip_larger_than_the_cap_is_rejected() {
    let mut s = State::new();
    let too_big = vec![b'z'; 32 * 1024 * 1024 + 1];
    assert_eq!(post(&mut s, TEXT_MIME, &too_big).status, 413);
    let r = ask(&mut s, &get("mini"));
    assert_eq!(r.version, 0, "the oversize clip must not be stored");
    assert!(r.body.is_empty());
}

#[test]
fn a_since_above_the_version_returns_at_once() {
    let mut s = State::new();
    post(&mut s, TEXT_MIME, b"one");
    let r = ask(&mut s, &fetch(&clip_url("mini"), Some(9999), 1000));
    assert_eq!(r.status, 200);
    assert_eq!(r.version, 1, "the reply carries the real version");
    assert_eq!(String::from_utf8_lossy(&r.body), "one");
}

#[test]
fn a_since_below_the_version_returns_at_once() {
    let mut s = State::new();
    post(&mut s, TEXT_MIME, b"one");
    post(&mut s, TEXT_MIME, b"two");
    let r = ask(&mut s, &fetch(&clip_url("mini"), Some(1), 1000));
    assert_eq!(r.version, 2);
}

#[test]
fn an_unknown_path_is_not_found() {
    let mut s = State::new();
    let r = ask(&mut s, &fetch("http://mini:8757/nope", None, 1000));
    assert_eq!(r.status, 404);
}

#[test]
fn serve_refuses_a_public_bind() {
    let e = serve(&["--bind", "8.8.8.8"], v4([8, 8, 8, 8])).unwrap_err();
    assert!(e.contains("--allow-public-bind"), "it said: {e}");
}

#[test]
fn serve_refuses_to_bind_every_interface() {
    for (a, ip) in [("0.0.0.0", v4([0; 4])), ("::", v6([0; 8]))] {
        let e = serve(&["--bind", a], ip).unwrap_err();
        assert!(e.contains("--allow-public-bind"), "it said: {e}");
        assert!(serve(&["--bind", a, "--allow-public-bind"], ip).is_ok());
    }
}

#[test]
fn serve_rejects_a_bind_that_is_not_an_address() {
    let e = serve(&["--bind", "mini.local"], None).unwrap_err();
    assert!(e.contains("not an IP address"), "it said: {e}");
}

#[test]
fn get_and_set_need_a_host() {
    let e = host_of(&[]).unwrap_err();
    assert!(e.contains("HOST"), "it said: {e}");
    assert_eq!(host_of(&["mini".to_string()]), Ok("mini".to_string()));
}

/// The addresses that the texts of the rules read as.
fn rule_addresses() -> Vec<Option<Ip>> {
    (0..RULES)
        .map(|i| match rule_text(i) {
            "100.110.80.23" => v4([100, 110, 80, 23]),
            "8.8.8.8" => v4([8, 8, 8, 8]),
            "192.168.1.10" => v4([192, 168, 1, 10]),
            "127.0.0.1" => v4([127, 0, 0, 1]),
            "0.0.0.0" => v4([0; 4]),
            "::" => v6([0; 8]),
            _ => None,
        })
        .collect()
}

#[test]
fn the_selftest_passes() {
    let mut s = State::new();
    set_poll_timeout(&mut s, SELFTEST_POLL_MS);
    let url = clip_url(&format!("127.0.0.1:{SELFTEST_PORT}"));
    let mut script = Script::new();
    let mut passed = Vec::new();
    for _ in 0..100 {
        let checks = match script.action(&url) {
            Action::Finish => break,
            Action::Rules => {
                script.rules_checked();
                rule_checks(&rule_addresses())
            }
            Action::Ask(request) => match ask_after(&mut s, &request, 0) {
                Step::Answer(reply) => script.take(&receive(reply), 0),
                Step::Wait { secs, nanos } => {
                    let waited_ns = secs as u128 * 1_000_000_000 + nanos as u128;
                    match ask_after(&mut s, &request, waited_ns) {
                        Step::Answer(reply) => {
                            script.take(&receive(reply), (waited_ns / 1_000_000) as u64)
                        }
                        Step::Wait { .. } => panic!("the long poll must end"),
                    }
                }
            },
            Action::AskWhile(request, meanwhile) => {
                assert!(matches!(ask_after(&mut s, &request, 0), Step::Wait { .. }));
                ask(&mut s, &meanwhile);
                let r = ask(&mut s, &request);
                script.take(&r, 300)
            }
        };
        for c in checks {
            assert_eq!(c.result(), Ok(()));
            passed.push(c.line());
        }
    }
    assert!(matches!(script.action(&url), Action::Finish));
    assert_eq!(passed.len(), 28);
    assert_eq!(passed[0], "  ok   1  empty start reports version 0");
    assert_eq!(
        passed[27],
        "  ok   12b it carries the real version, so the client resets"
    );
    assert!(passed.contains(&"  ok   8c the long poll blocked, it waited 300ms".to_string()));
    assert!(passed.contains(&"  ok   9c the timeout waited 2000ms".to_string()));
}

#[test]
fn the_selftest_waits_for_its_server() {
    let r = startup_request("http://127.0.0.1:8759/clip");
    assert_eq!((r.url.as_str(), r.timeout_ms), ("http://127.0.0.1:8759/clip", 1000));
    assert!(matches!(startup(true, 9_000_000_000), Startup::Ready));
    assert!(matches!(startup(false, 0), Startup::Wait(50)));
    assert!(matches!(startup(false, 5_000_000_000), Startup::Wait(50)));
    match startup(false, 5_000_000_001) {
        Startup::GiveUp(e) => assert_eq!(e, "the selftest server did not start"),
        _ => panic!("the selftest must give up"),
    }
}

#[test]
fn the_selftest_fails_on_a_wrong_reply() {
    let mut script = Script::new();
    let wrong = Resp {
        status: 200,
        version: 1,
        mime: TEXT_MIME.to_string(),
        body: vec![],
    };
    let checks = script.take(&wrong, 0);
    assert_eq!(checks.len(), 1);
    assert_eq!(checks[0].line(), "  FAIL 1  empty start reports version 0");
    assert_eq!(
        checks[0].result(),
        Err("selftest failed: 1  empty start reports version 0".to_string())
    );
    let rules = rule_checks(&vec![None; RULES]);
    assert!(!rules[0].ok && !rules[1].ok && rules[2].ok && !rules[3].ok);
}

/// One round of a client that waits for clips.
fn pull(state: &mut State, poller: &mut Poller, paused: bool) -> Pull {
    let request = poller.request(&clip_url("mini"));
    let reply = match ask_after(state, &request, 300_000_000_000) {
        Step::Answer(reply) => receive(reply),
        Step::Wait { .. } => panic!("the long poll must end"),
    };
    poller.take(Ok(reply), paused)
}

#[test]
fn the_sync_loop_moves_a_clip_to_the_pasteboard() {
    let mut s = State::new();
    let mut poller = Poller::new();
    run_set(&mut s, Source::Text("before the start".to_string()));
    assert!(
        matches!(pull(&mut s, &mut poller, false), Pull::Skip),
        "a start must not overwrite the local clip"
    );

    // The pull direction: a remote clip reaches the pasteboard.
    run_set(&mut s, Source::Text("sync test".to_string()));
    match pull(&mut s, &mut poller, false) {
        Pull::Apply(p) => assert_eq!(p, Payload::Text("sync test".to_string())),
        _ => panic!("the sync loop must apply the remote clip"),
    }
    assert!(matches!(pull(&mut s, &mut poller, false), Pull::Skip));

    // A pause stops the pull. The clip sent during the pause never arrives.
    run_set(&mut s, Source::Text("sent while paused".to_string()));
    assert!(
        matches!(pull(&mut s, &mut poller, true), Pull::Skip),
        "a paused client must not apply a remote clip"
    );

    // A resume starts the pull again, and it does not replay the paused clip.
    assert!(matches!(pull(&mut s, &mut poller, false), Pull::Skip));
    run_set(&mut s, Source::Text("sent after resume".to_string()));
    match pull(&mut s, &mut poller, false) {
        Pull::Apply(p) => assert_eq!(p, Payload::Text("sent after resume".to_string())),
        _ => panic!("a resumed client must apply a new clip"),
    }
}

#[test]
fn a_copy_on_one_machine_is_a_paste_on_another() {
    let mut s = State::new();
    let url = clip_url("mini");
    let mut poller = Poller::new();
    pull(&mut s, &mut poller, false);
    let mut here = Watcher::new(&None);
    let mut there = Watcher::new(&None);
    for p in [
        Payload::Text("gr\u{fc}\u{df} dich".to_string()),
        Payload::Png(red_dot_png()),
    ] {
        let request = watch_tick(&mut here, &url, Some(p.clone()), false).expect("a local change");
        ask(&mut s, &request);
        match pull(&mut s, &mut poller, false) {
            Pull::Apply(applied) => {
                assert_eq!(applied, p);
                there.mark_written(&applied);
                assert!(
                    watch_tick(&mut there, &url, Some(applied), false).is_none(),
                    "an applied clip is not pushed back"
                );
            }
            _ => panic!("the clip must arrive"),
        }
    }
}

#[test]
fn a_restart_of_the_server_resets_the_client() {
    let mut s = State::new();
    let mut poller = Poller::new();
    pull(&mut s, &mut poller, false);
    post(&mut s, TEXT_MIME, b"one");
    post(&mut s, TEXT_MIME, b"two");
    assert!(matches!(pull(&mut s, &mut poller, false), Pull::Apply(_)));
    let mut s = State::new();
    assert!(matches!(pull(&mut s, &mut poller, false), Pull::Skip));
    assert_eq!(
        poller.request(&clip_url("mini")).url,
        "http://mini:8757/clip?since=0"
    );
    post(&mut s, TEXT_MIME, b"three");
    assert!(matches!(pull(&mut s, &mut poller, false), Pull::Apply(_)));
}
