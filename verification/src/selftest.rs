//! The selftest: a script of requests to a fresh server, and what has to come back.
//!
//! The script says what to ask next. Who runs it asks, and hands back the reply and
//! how long it took. The script then says which checks that settles.

use crate::bind::{is_private, pick_bind, Ip};
use crate::client;
use crate::client::{fetch, push, Request, Resp};
use crate::image;
use crate::image::encode_png;
use crate::outside;
use crate::payload;
use crate::payload::{Payload, PNG_MIME, TEXT_MIME};
use crate::server::{same_bytes, MAX_BODY};
use crate::text;
use crate::text::{chars_of, has_prefix, unsigned_text};
use vstd::prelude::*;
use vstd::utf8::*;

verus! {

/// The port of the server that the selftest starts on loopback.
pub const SELFTEST_PORT: u16 = 8759;

/// How long a long poll of that server waits, in milliseconds.
pub const SELFTEST_POLL_MS: u64 = 2000;

/// How long that server has to start, in milliseconds.
pub const STARTUP_MS: u64 = 5000;

/// How long a reply of a server that is starting may take, in milliseconds.
pub const STARTUP_ASK_MS: u64 = 1000;

/// How long to wait for it between two requests, in milliseconds.
pub const STARTUP_WAIT_MS: u64 = 50;

/// How long a reply may take, in milliseconds.
pub const SHORT_MS: u64 = 30_000;

/// How long the reply to a body over the cap may take, in milliseconds.
pub const OVERSIZE_MS: u64 = 120_000;

/// How long the other thread waits before it pushes, in milliseconds.
pub const OTHER_DELAY_MS: u64 = 300;

/// One check: what it is about, and whether it passed.
pub struct Check {
    pub ok: bool,
    pub label: String,
}

/// What a check holds.
pub struct CheckView {
    pub ok: bool,
    pub label: Seq<char>,
}

impl View for Check {
    type V = CheckView;

    open spec fn view(&self) -> CheckView {
        CheckView { ok: self.ok, label: self.label@ }
    }
}

/// What a list of checks holds.
pub open spec fn checks_view(checks: Seq<Check>) -> Seq<CheckView> {
    Seq::new(checks.len(), |i: int| checks[i]@)
}

impl Check {
    /// The line that tells how the check went.
    pub fn line(&self) -> (line: String)
        ensures
            line@ == if self.ok {
                "  ok   "@ + self.label@
            } else {
                "  FAIL "@ + self.label@
            },
    {
        let mut line = if self.ok {
            "  ok   ".to_string()
        } else {
            "  FAIL ".to_string()
        };
        line.append(self.label.as_str());
        line
    }

    /// How the selftest goes on: a check that failed ends it.
    pub fn result(&self) -> (result: Result<(), String>)
        ensures
            self.ok ==> result is Ok,
            !self.ok ==> (result matches Err(e) && e@ == "selftest failed: "@ + self.label@),
    {
        if self.ok {
            return Ok(());
        }
        let mut message = "selftest failed: ".to_string();
        message.append(self.label.as_str());
        Err(message)
    }
}

fn check(ok: bool, label: &str) -> (c: Check)
    ensures
        c@ == (CheckView { ok, label: label@ }),
{
    Check { ok, label: label.to_string() }
}

// ------------------------------------------------------------------- the bodies

/// One red pixel.
pub open spec fn red() -> Seq<u8> {
    seq![255u8, 0u8, 0u8, 255u8]
}

/// A 1x1 red PNG.
pub open spec fn red_dot() -> Seq<u8> {
    outside::png_encoded(1, 1, red())->Ok_0
}

/// A 1x1 red PNG, so that the selftest needs no file.
pub fn tiny_png() -> (png: Vec<u8>)
    ensures
        outside::png_encoded(1, 1, red()) == Ok::<Seq<u8>, Seq<char>>(png@),
        outside::png_signature().is_prefix_of(png@),
        image::png_pixels(png@) == Ok::<(usize, usize, Seq<u8>), Seq<char>>((1, 1, red())),
{
    let pixel: [u8; 4] = [255, 0, 0, 255];
    assert(pixel@ =~= red());
    assert(1usize as u32 == 1u32);
    match encode_png(1, 1, pixel.as_slice()) {
        Ok(png) => png,
        Err(_) => {
            assert(false);
            Vec::new()
        },
    }
}

/// `n` times the same byte.
pub open spec fn filled(byte: u8, n: nat) -> Seq<u8> {
    Seq::new(n, |i: int| byte)
}

fn fill(byte: u8, n: usize) -> (bytes: Vec<u8>)
    ensures
        bytes@ == filled(byte, n as nat),
{
    let bytes: Vec<u8> = vec![byte; n];
    assert(bytes@ =~= filled(byte, n as nat));
    bytes
}

/// The text that the other thread pushes.
pub const OTHER_TEXT: &'static str = "pushed by the other thread";

// ------------------------------------------------------------------ the startup

/// What is to be done with a server that is starting.
pub enum Startup {
    /// Begin: it answers.
    Ready,
    /// Wait this many milliseconds, and ask again.
    Wait(u64),
    /// Give up, for this reason.
    GiveUp(String),
}

/// The request that finds out whether the server answers.
pub fn startup_request(url: &str) -> (request: Request)
    ensures
        request@ == client::fetch_request(url@, None, STARTUP_ASK_MS),
{
    fetch(url, None, STARTUP_ASK_MS)
}

/// Tells what is to be done with a server that is starting, by whether it answered and
/// how many nanoseconds ago it was started.
pub fn startup(answered: bool, elapsed_ns: u128) -> (next: Startup)
    ensures
        answered ==> next is Ready,
        !answered && elapsed_ns > STARTUP_MS * 1_000_000 ==> (next matches Startup::GiveUp(e) && e@
            == "the selftest server did not start"@),
        !answered && elapsed_ns <= STARTUP_MS * 1_000_000 ==> next == Startup::Wait(
            STARTUP_WAIT_MS,
        ),
{
    if answered {
        Startup::Ready
    } else if elapsed_ns > STARTUP_MS as u128 * 1_000_000 {
        Startup::GiveUp("the selftest server did not start".to_string())
    } else {
        Startup::Wait(STARTUP_WAIT_MS)
    }
}

// ------------------------------------------------------------------- the script

/// The script of the selftest: the step that it is at, and the version that it has
/// noted.
pub struct Script {
    step: u8,
    noted: u64,
}

/// What a script holds.
pub struct ScriptView {
    pub step: u8,
    pub noted: u64,
}

impl View for Script {
    type V = ScriptView;

    closed spec fn view(&self) -> ScriptView {
        ScriptView { step: self.step, noted: self.noted }
    }
}

/// What is to be done next.
pub enum Action {
    /// Send this.
    Ask(Request),
    /// Send the first. Meanwhile wait, and then send the second.
    AskWhile(Request, Request),
    /// Check the bind rules.
    Rules,
    /// There is no more to be done.
    Finish,
}

/// What an action holds.
pub enum ActionView {
    Ask(client::RequestView),
    AskWhile(client::RequestView, client::RequestView),
    Rules,
    Finish,
}

impl View for Action {
    type V = ActionView;

    open spec fn view(&self) -> ActionView {
        match self {
            Action::Ask(r) => ActionView::Ask(r@),
            Action::AskWhile(r, s) => ActionView::AskWhile(r@, s@),
            Action::Rules => ActionView::Rules,
            Action::Finish => ActionView::Finish,
        }
    }
}

/// The script at its beginning.
pub open spec fn new_script() -> ScriptView {
    ScriptView { step: 0, noted: 0 }
}

/// A push of text.
pub open spec fn text_push(url: Seq<char>, body: Seq<u8>) -> client::RequestView {
    client::push_request(url, TEXT_MIME@, body, SHORT_MS)
}

impl ScriptView {
    /// What is to be done at each step.
    pub open spec fn action(self, url: Seq<char>) -> ActionView {
        let current = ActionView::Ask(client::fetch_request(url, None, SHORT_MS));
        if self.step == 1 || self.step == 3 {
            ActionView::Ask(text_push(url, encode_utf8("hello"@)))
        } else if self.step == 4 {
            ActionView::Ask(text_push(url, encode_utf8("world"@)))
        } else if self.step == 6 {
            ActionView::Ask(text_push(url, filled(120, 1000)))
        } else if self.step == 8 {
            ActionView::Ask(client::push_request(url, PNG_MIME@, red_dot(), SHORT_MS))
        } else if self.step == 10 {
            ActionView::AskWhile(
                client::fetch_request(url, Some(self.noted), SHORT_MS),
                text_push(url, encode_utf8(OTHER_TEXT@)),
            )
        } else if self.step == 12 {
            ActionView::Ask(client::fetch_request(url, Some(self.noted), SHORT_MS))
        } else if self.step == 13 {
            ActionView::Ask(
                client::push_request(
                    url,
                    TEXT_MIME@,
                    filled(122, (MAX_BODY + 1) as nat),
                    OVERSIZE_MS,
                ),
            )
        } else if self.step == 15 {
            ActionView::Rules
        } else if self.step == 17 {
            ActionView::Ask(
                client::fetch_request(url, Some(self.noted.wrapping_add(500)), SHORT_MS),
            )
        } else if self.step < 17 {
            current
        } else {
            ActionView::Finish
        }
    }

    /// The script after a reply. The version is noted where a later step needs it.
    pub open spec fn next(self, r: client::RespView) -> ScriptView {
        ScriptView {
            step: if self.step < 18 {
                (self.step + 1) as u8
            } else {
                self.step
            },
            noted: if self.step == 8 || self.step == 11 || self.step == 16 {
                r.version
            } else {
                self.noted
            },
        }
    }

    /// The script after the bind rules were checked.
    pub open spec fn after_rules(self) -> ScriptView {
        if self.step == 15 {
            ScriptView { step: 16, ..self }
        } else {
            self
        }
    }

    /// The checks that a reply settles, by how many milliseconds it took.
    pub open spec fn checks(self, r: client::RespView, waited_ms: u64) -> Seq<CheckView> {
        if self.step == 0 {
            seq![
                CheckView {
                    ok: r.status == 200 && r.version == 0 && r.body.len() == 0,
                    label: "1  empty start reports version 0"@,
                },
            ]
        } else if self.step == 1 {
            seq![
                CheckView {
                    ok: r.status == 200 && r.version == 1,
                    label: "2  first post bumps the version to 1"@,
                },
            ]
        } else if self.step == 2 {
            seq![
                CheckView {
                    ok: r.body == encode_utf8("hello"@),
                    label: "3  get returns the same text"@,
                },
            ]
        } else if self.step == 3 {
            seq![
                CheckView {
                    ok: r.version == 1,
                    label: "4  an identical post does not bump the version"@,
                },
            ]
        } else if self.step == 4 {
            seq![
                CheckView {
                    ok: r.version == 2,
                    label: "5  a changed post bumps the version to 2"@,
                },
            ]
        } else if self.step == 5 {
            seq![
                CheckView { ok: r.body == encode_utf8("world"@), label: "5b second round trip"@ },
            ]
        } else if self.step == 7 {
            seq![
                CheckView { ok: r.body == filled(120, 1000), label: "6  a 1 KB clip round trips"@ },
            ]
        } else if self.step == 9 {
            seq![
                CheckView {
                    ok: r.body == red_dot() && PNG_MIME@.is_prefix_of(r.mime),
                    label: "7  a PNG round trips and keeps its content type"@,
                },
                CheckView {
                    ok: payload::wire_payload(r.mime, r.body) is Png,
                    label: "7b the client reads it back as an image"@,
                },
            ]
        } else if self.step == 10 {
            seq![
                CheckView {
                    ok: r.status == 200 && r.version == self.noted.wrapping_add(1),
                    label: "8  a long poll returns 200 after a new post"@,
                },
                CheckView {
                    ok: r.body == encode_utf8(OTHER_TEXT@),
                    label: "8b the long poll carries the new clip"@,
                },
                CheckView {
                    ok: waited_ms >= 200,
                    label: "8c the long poll blocked, it waited "@ + text::decimal(
                        waited_ms as nat,
                    ) + "ms"@,
                },
            ]
        } else if self.step == 12 {
            seq![
                CheckView {
                    ok: r.status == 204 && r.body.len() == 0,
                    label: "9  a long poll timeout returns 204"@,
                },
                CheckView {
                    ok: r.version == self.noted,
                    label: "9b the 204 carries the current version"@,
                },
                CheckView {
                    ok: waited_ms >= 1500,
                    label: "9c the timeout waited "@ + text::decimal(waited_ms as nat) + "ms"@,
                },
            ]
        } else if self.step == 13 {
            seq![
                CheckView {
                    ok: r.status == 413,
                    label: "10 a body larger than 32 MB returns 413, got "@ + text::decimal(
                        r.status as nat,
                    ),
                },
            ]
        } else if self.step == 14 {
            seq![
                CheckView {
                    ok: r.body != filled(122, (MAX_BODY + 1) as nat),
                    label: "10b the oversize clip was not stored"@,
                },
            ]
        } else if self.step == 17 {
            seq![
                CheckView {
                    ok: r.status == 200 && waited_ms < 1000,
                    label: "12 a since above the version returns at once, after a server restart"@,
                },
                CheckView {
                    ok: r.version == self.noted,
                    label: "12b it carries the real version, so the client resets"@,
                },
            ]
        } else {
            Seq::empty()
        }
    }
}

fn numbered(before: &str, n: u64, behind: &str) -> (label: String)
    ensures
        label@ == before@ + text::decimal(n as nat) + behind@,
{
    let mut label = before.to_string();
    label.append(unsigned_text(n).as_str());
    label.append(behind);
    label
}

impl Script {
    pub fn new() -> (script: Script)
        ensures
            script@ == new_script(),
    {
        Script { step: 0, noted: 0 }
    }

    /// What is to be done next.
    pub fn action(&self, url: &str) -> (action: Action)
        ensures
            action@ == self@.action(url@),
    {
        match self.step {
            1 | 3 => Action::Ask(push(url, TEXT_MIME, "hello".as_bytes(), SHORT_MS)),
            4 => Action::Ask(push(url, TEXT_MIME, "world".as_bytes(), SHORT_MS)),
            6 => Action::Ask(push(url, TEXT_MIME, fill(120, 1000).as_slice(), SHORT_MS)),
            8 => Action::Ask(push(url, PNG_MIME, tiny_png().as_slice(), SHORT_MS)),
            10 => Action::AskWhile(
                fetch(url, Some(self.noted), SHORT_MS),
                push(url, TEXT_MIME, OTHER_TEXT.as_bytes(), SHORT_MS),
            ),
            12 => Action::Ask(fetch(url, Some(self.noted), SHORT_MS)),
            13 => Action::Ask(
                push(url, TEXT_MIME, fill(122, MAX_BODY + 1).as_slice(), OVERSIZE_MS),
            ),
            15 => Action::Rules,
            17 => Action::Ask(fetch(url, Some(self.noted.wrapping_add(500)), SHORT_MS)),
            0 | 2 | 5 | 7 | 9 | 11 | 14 | 16 => Action::Ask(fetch(url, None, SHORT_MS)),
            _ => Action::Finish,
        }
    }

    /// Takes the reply to that, and how many milliseconds it took. Returns the
    /// checks that this settles.
    pub fn take(&mut self, r: &Resp, waited_ms: u64) -> (checks: Vec<Check>)
        ensures
            final(self)@ == old(self)@.next(r@),
            checks_view(checks@) == old(self)@.checks(r@, waited_ms),
    {
        let mut checks: Vec<Check> = Vec::new();
        match self.step {
            0 => {
                checks.push(
                    check(
                        r.status == 200 && r.version == 0 && r.body.len() == 0,
                        "1  empty start reports version 0",
                    ),
                );
            },
            1 => {
                checks.push(
                    check(
                        r.status == 200 && r.version == 1,
                        "2  first post bumps the version to 1",
                    ),
                );
            },
            2 => {
                checks.push(
                    check(
                        same_bytes(&r.body, &"hello".as_bytes_vec()),
                        "3  get returns the same text",
                    ),
                );
            },
            3 => {
                checks.push(
                    check(r.version == 1, "4  an identical post does not bump the version"),
                );
            },
            4 => {
                checks.push(check(r.version == 2, "5  a changed post bumps the version to 2"));
            },
            5 => {
                checks.push(
                    check(same_bytes(&r.body, &"world".as_bytes_vec()), "5b second round trip"),
                );
            },
            7 => {
                checks.push(
                    check(same_bytes(&r.body, &fill(120, 1000)), "6  a 1 KB clip round trips"),
                );
            },
            9 => {
                let image = has_prefix(chars_of(r.mime.as_str()).as_slice(), PNG_MIME);
                checks.push(
                    check(
                        same_bytes(&r.body, &tiny_png()) && image,
                        "7  a PNG round trips and keeps its content type",
                    ),
                );
                let read = Payload::from_wire(r.mime.as_str(), r.body.clone());
                let is_image = match read {
                    Payload::Png(_) => true,
                    Payload::Text(_) => false,
                };
                checks.push(check(is_image, "7b the client reads it back as an image"));
            },
            10 => {
                checks.push(
                    check(
                        r.status == 200 && r.version == self.noted.wrapping_add(1),
                        "8  a long poll returns 200 after a new post",
                    ),
                );
                checks.push(
                    check(
                        same_bytes(&r.body, &OTHER_TEXT.as_bytes_vec()),
                        "8b the long poll carries the new clip",
                    ),
                );
                let label = numbered("8c the long poll blocked, it waited ", waited_ms, "ms");
                checks.push(check(waited_ms >= 200, label.as_str()));
            },
            12 => {
                checks.push(
                    check(
                        r.status == 204 && r.body.len() == 0,
                        "9  a long poll timeout returns 204",
                    ),
                );
                checks.push(
                    check(r.version == self.noted, "9b the 204 carries the current version"),
                );
                let label = numbered("9c the timeout waited ", waited_ms, "ms");
                checks.push(check(waited_ms >= 1500, label.as_str()));
            },
            13 => {
                let mut label = "10 a body larger than 32 MB returns 413, got ".to_string();
                label.append(unsigned_text(r.status as u64).as_str());
                checks.push(check(r.status == 413, label.as_str()));
            },
            14 => {
                checks.push(
                    check(
                        !same_bytes(&r.body, &fill(122, MAX_BODY + 1)),
                        "10b the oversize clip was not stored",
                    ),
                );
            },
            17 => {
                checks.push(
                    check(
                        r.status == 200 && waited_ms < 1000,
                        "12 a since above the version returns at once, after a server restart",
                    ),
                );
                checks.push(
                    check(
                        r.version == self.noted,
                        "12b it carries the real version, so the client resets",
                    ),
                );
            },
            _ => {},
        }
        assert(checks_view(checks@) =~= old(self)@.checks(r@, waited_ms));
        if self.step == 8 || self.step == 11 || self.step == 16 {
            self.noted = r.version;
        }
        if self.step < 18 {
            self.step += 1;
        }
        checks
    }
}

// -------------------------------------------------------------- the bind rules

/// True if an address that was read may be listened on.
pub open spec fn accepted(read: Option<Ip>, allow_public: bool) -> bool {
    read matches Some(ip) && (allow_public || ip.is_private())
}

/// The checks of the bind rules, by the addresses that the texts read as.
pub open spec fn rules(read: Seq<Option<Ip>>) -> Seq<CheckView> {
    seq![
        CheckView {
            ok: accepted(read[0], false),
            label: "11 the rules accept the Tailscale address 100.110.80.23"@,
        },
        CheckView {
            ok: accepted(read[1], false),
            label: "11b --bind accepts a tailnet address"@,
        },
        CheckView {
            ok: !accepted(read[2], false),
            label: "11c --bind rejects a public address"@,
        },
        CheckView {
            ok: accepted(read[3], true),
            label: "11d --allow-public-bind overrides the rejection"@,
        },
        CheckView {
            ok: accepted(read[4], false),
            label: "11e --bind accepts an RFC1918 address"@,
        },
        CheckView {
            ok: accepted(read[5], false),
            label: "11f --bind accepts loopback"@,
        },
        CheckView {
            ok: !accepted(read[6], false),
            label: "11g --bind rejects a name"@,
        },
        CheckView {
            ok: !accepted(read[7], false),
            label: "11h --bind rejects every interface"@,
        },
        CheckView {
            ok: !accepted(read[8], false),
            label: "11i --bind rejects every interface, IPv6"@,
        },
    ]
}

/// How many checks of the bind rules there are.
pub const RULES: usize = 9;

/// The text of the address that the check of this number is about.
pub fn rule_text(number: usize) -> (text: &'static str)
    ensures
        number < 2 ==> text@ == "100.110.80.23"@,
        number == 2 || number == 3 ==> text@ == "8.8.8.8"@,
        number == 4 ==> text@ == "192.168.1.10"@,
        number == 5 ==> text@ == "127.0.0.1"@,
        number == 6 ==> text@ == "not-an-ip"@,
        number == 7 ==> text@ == "0.0.0.0"@,
        number >= 8 ==> text@ == "::"@,
{
    match number {
        0 => "100.110.80.23",
        1 => "100.110.80.23",
        2 => "8.8.8.8",
        3 => "8.8.8.8",
        4 => "192.168.1.10",
        5 => "127.0.0.1",
        6 => "not-an-ip",
        7 => "0.0.0.0",
        _ => "::",
    }
}

/// Checks the bind rules, by the addresses that the texts read as.
pub fn rule_checks(read: &Vec<Option<Ip>>) -> (checks: Vec<Check>)
    requires
        read@.len() == RULES,
    ensures
        checks_view(checks@) == rules(read@),
{
    let none: Vec<Ip> = Vec::new();
    let mut checks: Vec<Check> = Vec::new();
    let private = match read[0] {
        Some(ip) => is_private(ip),
        None => false,
    };
    checks.push(check(private, "11 the rules accept the Tailscale address 100.110.80.23"));
    let bound = pick_bind(Some(rule_text(1)), read[1], false, &none);
    checks.push(check(bound.is_ok(), "11b --bind accepts a tailnet address"));
    let bound = pick_bind(Some(rule_text(2)), read[2], false, &none);
    checks.push(check(bound.is_err(), "11c --bind rejects a public address"));
    let bound = pick_bind(Some(rule_text(3)), read[3], true, &none);
    checks.push(check(bound.is_ok(), "11d --allow-public-bind overrides the rejection"));
    let bound = pick_bind(Some(rule_text(4)), read[4], false, &none);
    checks.push(check(bound.is_ok(), "11e --bind accepts an RFC1918 address"));
    let bound = pick_bind(Some(rule_text(5)), read[5], false, &none);
    checks.push(check(bound.is_ok(), "11f --bind accepts loopback"));
    let bound = pick_bind(Some(rule_text(6)), read[6], false, &none);
    checks.push(check(bound.is_err(), "11g --bind rejects a name"));
    let bound = pick_bind(Some(rule_text(7)), read[7], false, &none);
    checks.push(check(bound.is_err(), "11h --bind rejects every interface"));
    let bound = pick_bind(Some(rule_text(8)), read[8], false, &none);
    checks.push(check(bound.is_err(), "11i --bind rejects every interface, IPv6"));
    assert(checks_view(checks@) =~= rules(read@));
    checks
}

impl Script {
    /// Goes on after the bind rules were checked.
    pub fn rules_checked(&mut self)
        ensures
            final(self)@ == old(self)@.after_rules(),
    {
        if self.step == 15 {
            self.step = 16;
        }
    }
}

} // verus!
