//! What holds of the selftest: what it asks, and which answers it fails.

use crate::bind;
use crate::cli;
use crate::client;
use crate::outside;
use crate::payload;
use crate::selftest;
use crate::server;
use crate::text;
use vstd::prelude::*;
use vstd::utf8::*;

verus! {

/// True if every check passed.
pub open spec fn all_ok(checks: Seq<selftest::CheckView>) -> bool {
    forall|k: int| 0 <= k < checks.len() ==> (#[trigger] checks[k]).ok
}

/// True of `n` bytes that are all the same.
pub open spec fn is_filled(bytes: Seq<u8>, byte: u8, n: nat) -> bool {
    bytes.len() == n && forall|i: int| 0 <= i < n ==> #[trigger] bytes[i] == byte
}

/// The PNG of one red pixel.
pub open spec fn red_pixel() -> Seq<u8> {
    outside::png_encoded(1, 1, seq![255u8, 0u8, 0u8, 255u8])->Ok_0
}

/// The selftest fails every answer but the right one, at every step that checks one.
pub proof fn law_selftest_fails_a_wrong_answer(
    script: selftest::ScriptView,
    r: client::RespView,
    waited_ms: u64,
)
    ensures
        ({
            let ok = all_ok(script.checks(r, waited_ms));
            &&& script.step == 0 ==> ok == (r.status == 200 && r.version == 0 && r.body.len() == 0)
            &&& script.step == 1 ==> ok == (r.status == 200 && r.version == 1)
            &&& script.step == 2 ==> ok == (r.body == encode_utf8("hello"@))
            &&& script.step == 3 ==> ok == (r.version == 1)
            &&& script.step == 4 ==> ok == (r.version == 2)
            &&& script.step == 5 ==> ok == (r.body == encode_utf8("world"@))
            &&& script.step == 7 ==> ok == is_filled(r.body, 120, 1000)
            &&& script.step == 9 ==> ok == (r.body == red_pixel() && r.mime.len() >= 9
                && r.mime.take(9) == "image/png"@)
            &&& script.step == 10 ==> script.noted < u64::MAX ==> ok == (r.status == 200
                && r.version == script.noted + 1 && r.body == encode_utf8(
                "pushed by the other thread"@,
            ) && waited_ms >= 200)
            &&& script.step == 12 ==> ok == (r.status == 204 && r.body.len() == 0 && r.version
                == script.noted && waited_ms >= 1500)
            &&& script.step == 13 ==> ok == (r.status == 413)
            &&& script.step == 14 ==> ok == !is_filled(r.body, 122, 33_554_433)
            &&& script.step == 17 ==> ok == (r.status == 200 && waited_ms < 1000 && r.version
                == script.noted)
        }),
{
    let checks = script.checks(r, waited_ms);
    reveal_strlit("image/png");
    if r.mime.len() >= 9 {
        assert(r.mime.take(9) =~= r.mime.subrange(0, 9));
    }
    assert(is_filled(r.body, 120, 1000) ==> r.body =~= selftest::filled(120, 1000));
    assert(is_filled(r.body, 122, 33_554_433) ==> r.body =~= selftest::filled(122, 33_554_433));
    assert(is_filled(selftest::filled(120, 1000), 120, 1000));
    assert(is_filled(selftest::filled(122, 33_554_433), 122, 33_554_433));
    if checks.len() == 1 {
        assert(all_ok(checks) == checks[0].ok);
    } else if checks.len() == 2 {
        assert(all_ok(checks) == (checks[0].ok && checks[1].ok));
    } else if checks.len() == 3 {
        assert(all_ok(checks) == (checks[0].ok && checks[1].ok && checks[2].ok));
    }
}

/// Each check says what it is about, with the time or the status that came where it turns
/// on one, and fails by that alone.
pub proof fn law_selftest_says_what_failed(
    script: selftest::ScriptView,
    r: client::RespView,
    waited_ms: u64,
)
    ensures
        ({
            let checks = script.checks(r, waited_ms);
            let label = |k: int| checks[k].label;
            let ok = |k: int| checks[k].ok;
            let waited = text::decimal(waited_ms as nat);
            &&& script.step == 0 ==> checks.len() == 1 && label(0)
                == "1  empty start reports version 0"@
            &&& script.step == 1 ==> checks.len() == 1 && label(0)
                == "2  first post bumps the version to 1"@
            &&& script.step == 2 ==> checks.len() == 1 && label(0)
                == "3  get returns the same text"@
            &&& script.step == 3 ==> checks.len() == 1 && label(0)
                == "4  an identical post does not bump the version"@
            &&& script.step == 4 ==> checks.len() == 1 && label(0)
                == "5  a changed post bumps the version to 2"@
            &&& script.step == 5 ==> checks.len() == 1 && label(0) == "5b second round trip"@
            &&& script.step == 7 ==> checks.len() == 1 && label(0) == "6  a 1 KB clip round trips"@
            &&& script.step == 9 ==> {
                &&& checks.len() == 2
                &&& label(0) == "7  a PNG round trips and keeps its content type"@
                &&& label(1) == "7b the client reads it back as an image"@
                &&& ok(1) == (payload::wire_payload(r.mime, r.body) is Png)
            }
            &&& script.step == 10 && script.noted < u64::MAX ==> {
                &&& checks.len() == 3
                &&& label(0) == "8  a long poll returns 200 after a new post"@
                &&& label(1) == "8b the long poll carries the new clip"@
                &&& label(2) == "8c the long poll blocked, it waited "@ + waited + "ms"@
                &&& ok(0) == (r.status == 200 && r.version == script.noted + 1)
                &&& ok(1) == (r.body == encode_utf8("pushed by the other thread"@))
                &&& ok(2) == (waited_ms >= 200)
            }
            &&& script.step == 12 ==> {
                &&& checks.len() == 3
                &&& label(0) == "9  a long poll timeout returns 204"@
                &&& label(1) == "9b the 204 carries the current version"@
                &&& label(2) == "9c the timeout waited "@ + waited + "ms"@
                &&& ok(0) == (r.status == 204 && r.body.len() == 0)
                &&& ok(1) == (r.version == script.noted)
                &&& ok(2) == (waited_ms >= 1500)
            }
            &&& script.step == 13 ==> checks.len() == 1 && label(0)
                == "10 a body larger than 32 MB returns 413, got "@ + text::decimal(
                r.status as nat,
            )
            &&& script.step == 14 ==> checks.len() == 1 && label(0)
                == "10b the oversize clip was not stored"@
            &&& script.step == 17 ==> {
                &&& checks.len() == 2
                &&& label(0)
                    == "12 a since above the version returns at once, after a server restart"@
                &&& label(1) == "12b it carries the real version, so the client resets"@
                &&& ok(0) == (r.status == 200 && waited_ms < 1000)
                &&& ok(1) == (r.version == script.noted)
            }
            &&& script.step == 6 || script.step == 8 || script.step == 11 || script.step == 15
                || script.step == 16 || script.step > 17 ==> checks.len() == 0
        }),
{
}

/// What the selftest posts, at each step that posts.
pub proof fn law_selftest_posts_its_bodies(script: selftest::ScriptView, url: Seq<char>)
    ensures
        script.step == 1 || script.step == 3 || script.step == 4 || script.step == 6
            || script.step == 8 || script.step == 13 ==> (script.action(url)
            matches selftest::ActionView::Ask(request) && {
            &&& request.method == server::Method::Post
            &&& request.url == url
            &&& request.mime == Some(
                if script.step == 8 {
                    "image/png"@
                } else {
                    "text/plain; charset=utf-8"@
                },
            )
            &&& script.step == 1 || script.step == 3 ==> request.body == encode_utf8("hello"@)
            &&& script.step == 4 ==> request.body == encode_utf8("world"@)
            &&& script.step == 6 ==> is_filled(request.body, 120, 1000)
            &&& script.step == 8 ==> request.body == red_pixel()
            &&& script.step == 13 ==> is_filled(request.body, 122, 33_554_433)
        }),
        script.step == 10 ==> (script.action(url) matches selftest::ActionView::AskWhile(_, other)
            && other.method == server::Method::Post && other.url == url && other.body
            == encode_utf8("pushed by the other thread"@)),
{
}

/// What the selftest gets, at each step that gets: the clip, or what becomes of the version
/// that it noted, or of one far above it.
pub proof fn law_selftest_gets(script: selftest::ScriptView, url: Seq<char>)
    ensures
        script.step == 0 || script.step == 2 || script.step == 5 || script.step == 7 || script.step
            == 9 || script.step == 11 || script.step == 14 || script.step == 16 ==> script.action(
            url,
        ) == selftest::ActionView::Ask(client::fetch_request(url, None, 30_000)),
        script.step == 10 ==> (script.action(url) matches selftest::ActionView::AskWhile(get, _)
            && get == client::fetch_request(url, Some(script.noted), 30_000)),
        script.step == 12 ==> script.action(url) == selftest::ActionView::Ask(
            client::fetch_request(url, Some(script.noted), 30_000),
        ),
        script.step == 17 && script.noted < 0xffff_ffff ==> script.action(url)
            == selftest::ActionView::Ask(
            client::fetch_request(url, Some((script.noted + 500) as u64), 30_000),
        ),
        script.step == 15 <==> script.action(url) is Rules,
        script.step >= 18 <==> script.action(url) is Finish,
{
}

/// The script goes on by one step with each answer, and notes the versions of the answers
/// behind which it waits for the end of one.
pub proof fn law_selftest_goes_on(script: selftest::ScriptView, r: client::RespView)
    requires
        script.step < 18,
    ensures
        script.next(r).step == script.step + 1,
        script.step == 8 || script.step == 11 || script.step == 16 ==> script.next(r).noted
            == r.version,
        script.step != 8 && script.step != 11 && script.step != 16 ==> script.next(r).noted
            == script.noted,
        script.step == 15 ==> script.after_rules().step == 16,
        script.after_rules().noted == script.noted,
        selftest::new_script().step == 0,
{
}

/// The checks of the bind rules pass if and only if the private addresses are accepted, the
/// others and what is none are refused, and a public one is accepted where it is allowed.
pub proof fn law_selftest_fails_wrong_rules(read: Seq<Option<bind::Ip>>)
    requires
        read.len() == 9,
    ensures
        ({
            let private = |k: int| read[k] is Some && read[k]->0.is_private();
            all_ok(selftest::rules(read)) == {
                &&& private(0) && private(1)
                &&& !private(2)
                &&& read[3] is Some
                &&& private(4) && private(5)
                &&& !private(6) && !private(7) && !private(8)
            }
        }),
        selftest::rules(read).len() == 9,
{
    let checks = selftest::rules(read);
    assert(all_ok(checks) == (checks[0].ok && checks[1].ok && checks[2].ok && checks[3].ok
        && checks[4].ok && checks[5].ok && checks[6].ok && checks[7].ok && checks[8].ok));
}

/// Each check of the bind rules says what it is about, and fails by that alone.
pub proof fn law_selftest_says_which_rule_failed(read: Seq<Option<bind::Ip>>)
    requires
        read.len() == 9,
    ensures
        ({
            let checks = selftest::rules(read);
            let private = |k: int| read[k] is Some && read[k]->0.is_private();
            &&& checks[0].label == "11 the rules accept the Tailscale address 100.110.80.23"@
            &&& checks[1].label == "11b --bind accepts a tailnet address"@
            &&& checks[2].label == "11c --bind rejects a public address"@
            &&& checks[3].label == "11d --allow-public-bind overrides the rejection"@
            &&& checks[4].label == "11e --bind accepts an RFC1918 address"@
            &&& checks[5].label == "11f --bind accepts loopback"@
            &&& checks[6].label == "11g --bind rejects a name"@
            &&& checks[7].label == "11h --bind rejects every interface"@
            &&& checks[8].label == "11i --bind rejects every interface, IPv6"@
            &&& checks[0].ok == private(0) && checks[1].ok == private(1)
            &&& checks[2].ok == !private(2) && checks[3].ok == (read[3] is Some)
            &&& checks[4].ok == private(4) && checks[5].ok == private(5)
            &&& checks[6].ok == !private(6) && checks[7].ok == !private(7)
            &&& checks[8].ok == !private(8)
        }),
{
}

// ------------------------------------------------------------------- the views

/// What contracts say of checks, actions, steps and arguments, they say of all that these
/// hold.
pub proof fn law_other_views_leave_nothing_out(
    checks: Seq<selftest::Check>,
    args: Seq<String>,
    i: int,
    asked: client::Request,
    other: client::Request,
    reply: server::Reply,
    secs: u64,
    nanos: u32,
)
    requires
        0 <= i < checks.len(),
        i < args.len(),
    ensures
        selftest::checks_view(checks).len() == checks.len(),
        selftest::checks_view(checks)[i].ok == checks[i].ok,
        selftest::checks_view(checks)[i].label == checks[i].label@,
        cli::args_view(args).len() == args.len(),
        cli::args_view(args)[i] == args[i]@,
        selftest::Action::Ask(asked)@ == selftest::ActionView::Ask(asked@),
        selftest::Action::AskWhile(asked, other)@ == selftest::ActionView::AskWhile(asked@, other@),
        selftest::Action::Rules@ == selftest::ActionView::Rules,
        selftest::Action::Finish@ == selftest::ActionView::Finish,
        server::Step::Answer(reply)@ == server::StepView::Answer(reply@),
        (server::Step::Wait { secs, nanos })@ == server::StepView::Wait(
            secs as nat * 1_000_000_000 + nanos as nat,
        ),
{
}

} // verus!
