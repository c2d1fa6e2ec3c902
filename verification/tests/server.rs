//! The server: the bind rules, the state, and the answers.

use std::time::Duration;
use tailclip::bind::{is_cgnat, is_private, pick_bind, tailscale_ip, Ip, Ipv4, Ipv6};
use tailclip::outside::Field;
use tailclip::payload::TEXT_MIME;
use tailclip::server::{
    handle, poll_timeout, set_poll_timeout, since_of, Method, Reply, Route, State, Step,
    MAX_BODY, POLL_TIMEOUT, READ_LIMIT,
};

fn v4(s: &str) -> Ipv4 {
    let parts: Vec<u8> = s.split('.').map(|p| p.parse().unwrap()).collect();
    Ipv4 {
        octets: [parts[0], parts[1], parts[2], parts[3]],
    }
}

fn v6(segments: [u16; 8]) -> Ip {
    Ip::V6(Ipv6 { segments })
}

fn pick(text: &str, address: Option<Ip>, allow_public: bool) -> Result<Ip, String> {
    pick_bind(Some(text), address, allow_public, &Vec::new())
}

#[test]
fn cgnat_range_edges() {
    let cg = |s: &str| is_cgnat(v4(s));
    assert!(!cg("100.63.255.255"), "just below the range");
    assert!(cg("100.64.0.0"), "the first address of the range");
    assert!(cg("100.110.80.23"), "a real Tailscale address");
    assert!(cg("100.127.255.255"), "the last address of the range");
    assert!(!cg("100.128.0.0"), "just above the range");
    assert!(!cg("99.64.0.1"), "the wrong first octet");
    assert!(!cg("101.64.0.1"), "the wrong first octet");
}

#[test]
fn private_accepts_the_safe_ranges() {
    for a in [
        "127.0.0.1",
        "10.0.0.5",
        "172.16.9.9",
        "192.168.1.10",
        "100.110.80.23",
    ] {
        assert!(is_private(Ip::V4(v4(a))), "{a} must count as private");
    }
    for (a, ip) in [
        ("::1", v6([0, 0, 0, 0, 0, 0, 0, 1])),
        ("fd00::1", v6([0xfd00, 0, 0, 0, 0, 0, 0, 1])),
    ] {
        assert!(is_private(ip), "{a} must count as private");
    }
}

#[test]
fn private_rejects_public_addresses() {
    for a in ["8.8.8.8", "1.1.1.1", "203.0.113.7"] {
        assert!(!is_private(Ip::V4(v4(a))), "{a} must count as public");
    }
    for (a, ip) in [("2606:4700::1111", v6([0x2606, 0x4700, 0, 0, 0, 0, 0, 0x1111]))] {
        assert!(!is_private(ip), "{a} must count as public");
    }
}

#[test]
fn private_edges() {
    for (a, private) in [
        ("9.255.255.255", false),
        ("10.0.0.0", true),
        ("10.255.255.255", true),
        ("11.0.0.0", false),
        ("126.255.255.255", false),
        ("127.255.255.255", true),
        ("128.0.0.0", false),
        ("172.15.255.255", false),
        ("172.16.0.0", true),
        ("172.31.255.255", true),
        ("172.32.0.0", false),
        ("192.167.255.255", false),
        ("192.168.0.0", true),
        ("192.168.255.255", true),
        ("192.169.0.0", false),
        ("169.254.0.1", false),
        ("0.0.0.0", false),
    ] {
        assert_eq!(is_private(Ip::V4(v4(a))), private, "{a}");
    }
    assert!(!is_private(v6([0; 8])));
    assert!(!is_private(v6([0, 0, 0, 0, 0, 0, 0, 2])));
    assert!(!is_private(v6([1, 0, 0, 0, 0, 0, 0, 1])));
    assert!(!is_private(v6([0xfbff, 0, 0, 0, 0, 0, 0, 1])));
    assert!(is_private(v6([0xfc00, 0, 0, 0, 0, 0, 0, 0])));
    assert!(is_private(v6([0xfdff, 1, 1, 1, 1, 1, 1, 1])));
    assert!(!is_private(v6([0xfe00, 0, 0, 0, 0, 0, 0, 1])));
}

#[test]
fn pick_bind_follows_the_rules() {
    let public = Some(Ip::V4(v4("8.8.8.8")));
    assert!(pick("100.110.80.23", Some(Ip::V4(v4("100.110.80.23"))), false).is_ok());
    assert!(pick("127.0.0.1", Some(Ip::V4(v4("127.0.0.1"))), false).is_ok());
    assert!(pick("8.8.8.8", public, false).is_err());
    assert!(pick("8.8.8.8", public, true).is_ok());
    assert!(
        pick("mini.local", None, false).is_err(),
        "a name is not an address"
    );
}

#[test]
fn pick_bind_names_tailscale_in_the_error() {
    let msg = pick("8.8.8.8", Some(Ip::V4(v4("8.8.8.8"))), false).unwrap_err();
    assert!(
        msg.contains("--allow-public-bind"),
        "the error must name the override"
    );
}

#[test]
fn pick_bind_says_why() {
    assert_eq!(
        pick("8.8.8.8", Some(Ip::V4(v4("8.8.8.8"))), false),
        Err("refusing to bind the public address 8.8.8.8.\n\
             tailclip has no authentication. The tailnet is the authentication.\n\
             To override this, add --allow-public-bind."
            .to_string())
    );
    assert_eq!(
        pick("mini.local", None, true),
        Err("--bind mini.local: not an IP address".to_string())
    );
    assert_eq!(
        pick_bind(None, None, true, &Vec::new()),
        Err("no address inside 100.64.0.0/10 on this host.\n\
             tailclip binds the Tailscale address. Start Tailscale, then try again.\n\
             To use a different address, add --bind <ip>."
            .to_string())
    );
}

#[test]
fn without_a_bind_the_first_tailscale_address_is_taken() {
    let hosts = vec![
        Ip::V4(v4("127.0.0.1")),
        v6([0xfd7a, 0, 0, 0, 0, 0, 0, 1]),
        Ip::V4(v4("100.64.0.9")),
        Ip::V4(v4("100.64.0.10")),
    ];
    assert_eq!(tailscale_ip(&hosts), Some(Ip::V4(v4("100.64.0.9"))));
    assert_eq!(
        pick_bind(None, None, false, &hosts),
        Ok(Ip::V4(v4("100.64.0.9")))
    );
    assert_eq!(tailscale_ip(&vec![Ip::V4(v4("10.0.0.1"))]), None);
}

#[test]
fn since_parses_from_the_query() {
    assert_eq!(since_of("/clip"), None);
    assert_eq!(since_of("/clip?since=0"), Some(0));
    assert_eq!(since_of("/clip?since=42"), Some(42));
    assert_eq!(since_of("/clip?a=1&since=7"), Some(7));
    assert_eq!(since_of("/clip?since=nine"), None);
}

#[test]
fn since_takes_the_first_pair_and_nothing_but_a_number() {
    assert_eq!(since_of("/clip?since=1&since=2"), Some(1));
    assert_eq!(since_of("/clip?since=x&since=2"), None);
    assert_eq!(since_of("/clip?since="), None);
    assert_eq!(since_of("/clip?since=+5"), Some(5));
    assert_eq!(since_of("/clip?since=+"), None);
    assert_eq!(since_of("/clip?since=-5"), None);
    assert_eq!(since_of("/clip?since=007"), Some(7));
    assert_eq!(since_of("/clip?since=18446744073709551615"), Some(u64::MAX));
    assert_eq!(since_of("/clip?since=18446744073709551616"), None);
    assert_eq!(since_of("/clip?asince=3"), None);
    assert_eq!(since_of("/clip?since=3?since=4"), None);
    assert_eq!(since_of("/clip?&&since=3&"), Some(3));
    assert_eq!(since_of("?"), None);
    assert_eq!(since_of(""), None);
}

#[test]
fn a_new_state_starts_empty_at_version_zero() {
    let s = State::new();
    let c = s.clip();
    assert_eq!(c.version, 0);
    assert!(c.body.is_empty());
    assert_eq!(c.mime, TEXT_MIME);
    assert_eq!(State::default().clip().version, 0);
}

#[test]
fn the_poll_timeout_is_five_minutes_by_default() {
    assert_eq!(Duration::from_secs(POLL_TIMEOUT), Duration::from_secs(300));
    assert_eq!(poll_timeout(&State::new()), 300_000);
}

#[test]
fn the_poll_timeout_can_be_set() {
    let mut s = State::new();
    set_poll_timeout(&mut s, 2000);
    assert_eq!(poll_timeout(&s), 2000);
    assert_eq!(s.begin_get(Some(3)).timeout_ms, 2000);
    assert_eq!(s.begin_get(Some(3)).since, Some(3));
}

#[test]
fn the_cap_is_thirty_two_megabytes() {
    assert_eq!(MAX_BODY, 32 * 1024 * 1024);
    assert_eq!(READ_LIMIT, 64 * 1024 * 1024);
}

// ---------------------------------------------------------------- the answers

fn header(name: &str, value: &str) -> Field {
    Field {
        name: name.to_string(),
        value: value.to_string(),
    }
}

fn post(s: &mut State, mime: &str, body: &[u8]) -> (Reply, bool) {
    s.post_clip(&vec![header("Content-Type", mime)], Some(body.to_vec()))
}

fn answer(step: Step) -> Reply {
    match step {
        Step::Answer(r) => r,
        Step::Wait { secs, nanos } => panic!("it waits {secs} s and {nanos} ns"),
    }
}

fn wait(step: Step) -> (u64, u32) {
    match step {
        Step::Wait { secs, nanos } => (secs, nanos),
        Step::Answer(r) => panic!("it answers {}", r.status),
    }
}

#[test]
fn the_reply_carries_version_type_and_body() {
    let mut s = State::new();
    post(&mut s, "image/png", &[1, 2, 3]);
    let r = answer(s.get_clip(&s.begin_get(None), 0));
    assert_eq!(r.status, 200);
    assert_eq!(
        r.headers,
        vec![header("X-Clip-Version", "1"), header("Content-Type", "image/png")]
    );
    assert_eq!(r.body, Some(vec![1, 2, 3]));
}

#[test]
fn a_mime_type_that_no_header_can_carry_is_sent_as_bytes() {
    let mut s = State::new();
    post(&mut s, "t\u{e9}xt", b"x");
    assert_eq!(s.clip().mime, "t\u{e9}xt");
    let r = answer(s.get_clip(&s.begin_get(None), 0));
    assert_eq!(r.headers[1], header("Content-Type", "application/octet-stream"));
}

#[test]
fn the_first_content_type_counts_in_any_case() {
    let mut s = State::new();
    s.post_clip(
        &vec![
            header("Host", "h"),
            header("cOnTeNt-tYpE", "a/b"),
            header("Content-Type", "c/d"),
        ],
        Some(vec![1]),
    );
    assert_eq!(s.clip().mime, "a/b");
    s.post_clip(&vec![header("Content-Typ", "a/b")], Some(vec![1]));
    assert_eq!(s.clip().mime, TEXT_MIME);
    s.post_clip(&vec![], Some(vec![2]));
    assert_eq!(s.clip().mime, TEXT_MIME);
    assert_eq!(s.clip().version, 3);
}

#[test]
fn a_post_tells_whether_the_clip_changed() {
    let mut s = State::new();
    let (r, changed) = post(&mut s, TEXT_MIME, b"a");
    assert!(changed);
    assert_eq!(r.status, 200);
    assert_eq!(r.headers, vec![header("X-Clip-Version", "1")]);
    assert_eq!(r.body, None);
    let (r, changed) = post(&mut s, TEXT_MIME, b"a");
    assert!(!changed);
    assert_eq!(r.headers, vec![header("X-Clip-Version", "1")]);
    let (r, changed) = post(&mut s, "text/plain", b"a");
    assert!(changed);
    assert_eq!(r.headers, vec![header("X-Clip-Version", "2")]);
}

#[test]
fn an_empty_post_of_text_changes_nothing_at_the_start() {
    let mut s = State::new();
    let (r, changed) = post(&mut s, TEXT_MIME, b"");
    assert!(!changed);
    assert_eq!(r.headers, vec![header("X-Clip-Version", "0")]);
}

#[test]
fn a_body_that_was_not_read_is_refused() {
    let mut s = State::new();
    let (r, changed) = s.post_clip(&vec![], None);
    assert_eq!(r.status, 400);
    assert!(r.headers.is_empty());
    assert_eq!(r.body, None);
    assert!(!changed);
    assert_eq!(s.clip().version, 0);
}

#[test]
fn a_version_stands_for_one_clip() {
    let mut s = State::new();
    let mut last = (s.clip().version, s.clip().body.clone(), s.clip().mime.clone());
    for (mime, body) in [
        (TEXT_MIME, "a"),
        (TEXT_MIME, "a"),
        ("image/png", "a"),
        ("image/png", "b"),
        ("image/png", "b"),
        (TEXT_MIME, "a"),
    ] {
        post(&mut s, mime, body.as_bytes());
        let now = (s.clip().version, s.clip().body.clone(), s.clip().mime.clone());
        assert!(now.0 >= last.0);
        assert_eq!(now.0 == last.0, now == last);
        last = now;
    }
    assert_eq!(last.0, 4);
}

#[test]
fn stores_foretells_the_post() {
    let mut s = State::new();
    let text = vec![header("Content-Type", TEXT_MIME)];
    assert!(s.stores(&text, &Some(vec![1])));
    post(&mut s, TEXT_MIME, &[1]);
    assert!(!s.stores(&text, &Some(vec![1])));
    assert!(s.stores(&vec![header("Content-Type", "x")], &Some(vec![1])));
    assert!(!s.stores(&text, &None));
    assert!(!s.stores(&text, &Some(vec![0; MAX_BODY + 1])));
}

#[test]
fn a_clip_of_exactly_the_cap_is_taken() {
    let mut s = State::new();
    let (r, changed) = post(&mut s, TEXT_MIME, &vec![b'z'; MAX_BODY]);
    assert_eq!(r.status, 200);
    assert!(changed);
}

#[test]
fn a_long_poll_waits_for_what_is_left() {
    let mut s = State::new();
    set_poll_timeout(&mut s, 1500);
    let poll = s.begin_get(Some(0));
    assert_eq!(wait(s.get_clip(&poll, 0)), (1, 500_000_000));
    assert_eq!(wait(s.get_clip(&poll, 1_000_000_000)), (0, 500_000_000));
    assert_eq!(wait(s.get_clip(&poll, 1_499_999_999)), (0, 1));
    for waited in [1_500_000_000, 1_500_000_001, u128::MAX] {
        let r = answer(s.get_clip(&poll, waited));
        assert_eq!(r.status, 204);
        assert_eq!(r.headers, vec![header("X-Clip-Version", "0")]);
        assert_eq!(r.body, None);
    }
    post(&mut s, TEXT_MIME, b"new");
    let r = answer(s.get_clip(&poll, u128::MAX));
    assert_eq!(r.status, 200);
    assert_eq!(r.body, Some(b"new".to_vec()));
}

#[test]
fn a_long_poll_keeps_the_timeout_that_it_began_with() {
    let mut s = State::new();
    let poll = s.begin_get(Some(0));
    set_poll_timeout(&mut s, 1);
    assert_eq!(wait(s.get_clip(&poll, 0)), (300, 0));
}

#[test]
fn requests_are_routed_by_path_and_method() {
    match handle(Method::Get, "/clip?since=7") {
        Route::Get { since } => assert_eq!(since, Some(7)),
        _ => panic!("a GET of the clip is served"),
    }
    match handle(Method::Get, "/clip?") {
        Route::Get { since } => assert_eq!(since, None),
        _ => panic!("a GET of the clip is served"),
    }
    assert!(matches!(handle(Method::Post, "/clip"), Route::Post));
    match handle(Method::Other, "/clip") {
        Route::Refuse(r) => {
            assert_eq!(r.status, 405);
            assert!(r.headers.is_empty());
            assert_eq!(r.body, None);
        }
        _ => panic!("other methods are refused"),
    }
    for path in ["/", "", "/clip/", "/cli", "/clipx", "clip", "?since=1"] {
        for method in [Method::Get, Method::Post, Method::Other] {
            match handle(method, path) {
                Route::Refuse(r) => assert_eq!(r.status, 404, "{path}"),
                _ => panic!("{path} is not served"),
            }
        }
    }
}
