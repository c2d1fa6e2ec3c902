//! What holds of the calls of the library: how what comes out of them relates to what goes
//! in, and to what comes out of other calls.

use crate::bind;
use crate::cli;
use crate::client;
use crate::image;
use crate::laws::asking;
use crate::laws::checking;
use crate::laws::clips;
use crate::laws::listening;
use crate::laws::numbers;
use crate::laws::serving;
use crate::outside;
use crate::payload;
use crate::selftest;
use crate::server;
use crate::sync;
use crate::text;
use std::collections::hash_map::DefaultHasher;
use vstd::prelude::*;
use vstd::std_specs::hash::*;
use vstd::utf8::*;

verus! {

// -------------------------------------------------------------------- the clips

/// A payload tells its mime type, all of its bytes, whether there are any, and the hash of
/// all of it.
pub proof fn law_payload_tells_all(p: payload::Payload)
    ensures
        ({
            let whole = match p {
                payload::Payload::Text(t) => encode_utf8(t@),
                payload::Payload::Png(b) => b@,
            };
            &&& forall|out: &'static str|
                #[trigger] call_ensures(payload::Payload::mime, (&p,), out) ==> out@ == match p {
                    payload::Payload::Text(_) => "text/plain; charset=utf-8"@,
                    payload::Payload::Png(_) => "image/png"@,
                }
            &&& forall|out: &[u8]|
                #[trigger] call_ensures(payload::Payload::bytes, (&p,), out) ==> out@ == whole
            &&& forall|out: bool|
                #[trigger] call_ensures(payload::Payload::is_empty, (&p,), out) ==> out == (
                whole.len() == 0)
            &&& forall|out: u64|
                #[trigger] call_ensures(payload::Payload::hash64, (&p,), out) ==> out
                    == DefaultHasher::spec_finish(clips::hashed(p@))
        }),
{
    clips::law_hash_stands_for_the_whole_clip(p@, p@);
}

/// A body of an image arrives as an image, and any other as text. Either way all of it
/// arrives.
pub proof fn law_from_wire_keeps_all(mime: &str, body: Vec<u8>)
    ensures
        forall|out: payload::Payload|
            #[trigger] call_ensures(payload::Payload::from_wire, (mime, body), out) ==> {
                let png = mime@.len() >= 9 && mime@.take(9) == "image/png"@;
                &&& png ==> (out matches payload::Payload::Png(b) && b@ == body@)
                &&& !png ==> (out matches payload::Payload::Text(t) && (valid_utf8(body@)
                    ==> encode_utf8(t@) == body@))
            },
{
    clips::law_clip_arrives_whole(mime@, body@);
}

/// Bytes look like a PNG if and only if they begin with its signature.
pub proof fn law_looks_like_png(b: &[u8])
    ensures
        forall|out: bool|
            #[trigger] call_ensures(image::looks_like_png, (b,), out) ==> out
                == asking::begins_like_png(b@),
{
    asking::law_image_is_told_by_its_signature(b@);
}

/// The pixels that are encoded are decoded again: the same width, the same height, and the
/// same bytes, unless a row is more than the decoder takes.
pub proof fn law_decode_undoes_encode(width: usize, height: usize, rgba: &[u8], png: Vec<u8>)
    requires
        call_ensures(image::encode_png, (width, height, rgba), Ok(png)),
        width <= 0x100_0000,
        height <= 0xffff_ffff,
    ensures
        forall|bytes: &[u8], out: Result<(usize, usize, Vec<u8>), String>|
            bytes@ == png@ && #[trigger] call_ensures(image::decode_png, (bytes,), out) ==> (out
                matches Ok(p) && p.0 == width && p.1 == height && p.2@ == rgba@),
        asking::begins_like_png(png@),
        rgba@.len() == 4 * width * height,
{
    asking::law_image_is_told_by_its_signature(png@);
}

/// Pixels are encoded if and only if there are some and they fill the image. What is no PNG
/// is not decoded, and what is decoded fills its image.
pub proof fn law_images_are_full(width: usize, height: usize, bytes: &[u8])
    ensures
        forall|out: Result<Vec<u8>, String>|
            #[trigger] call_ensures(image::encode_png, (width, height, bytes), out) && width
                <= 0xffff_ffff && height <= 0xffff_ffff ==> (out is Ok) == (width > 0 && height > 0
                && bytes@.len() == 4 * width * height),
        forall|out: Result<(usize, usize, Vec<u8>), String>|
            #[trigger] call_ensures(image::decode_png, (bytes,), out) ==> {
                &&& !asking::begins_like_png(bytes@) ==> out is Err
                &&& out matches Ok(p) ==> p.2@.len() == 4 * p.0 * p.1
                &&& out matches Ok(p) ==> image::png_pixels(bytes@) == Ok::<
                    (usize, usize, Seq<u8>),
                    Seq<char>,
                >((p.0, p.1, p.2@))
                &&& out matches Err(e) ==> image::png_pixels(bytes@) == Err::<
                    (usize, usize, Seq<u8>),
                    Seq<char>,
                >(e@)
            },
        forall|out: bool|
            #[trigger] call_ensures(image::countable, (width, height), out) && width <= 0xffff_ffff
                && height <= 0xffff_ffff ==> out == (4 * width + 1 <= usize::MAX && (4 * width)
                * height <= usize::MAX),
{
    asking::law_image_is_told_by_its_signature(bytes@);
    clips::law_countable_images_fit(width as u32, height as u32);
}

/// A frame of 8 bit RGBA gives its pixels, cut to its size. Another frame is refused.
pub proof fn law_frame_gives_its_pixels(frame: outside::Frame)
    ensures
        forall|out: Result<(usize, usize, Vec<u8>), String>|
            #[trigger] call_ensures(image::frame_rgba, (frame,), out) ==> {
                &&& (out is Ok) == (frame.color == 6 && frame.depth == 8)
                &&& out matches Ok(p) ==> p.0 == frame.width && p.1 == frame.height
                &&& out matches Ok(p) ==> frame.size <= frame.pixels@.len() ==> p.2@
                    == frame.pixels@.take(frame.size as int)
            },
{
}

// -------------------------------------------------------------------- the server

/// The clip that a server shows is the one that it holds. A new server holds an empty one of
/// version 0, and lets a long poll wait for five minutes. The time that it is given is the
/// time that its long polls wait.
pub proof fn law_state_shows_what_it_holds(state: server::State, ms: u64, since: Option<u64>)
    ensures
        forall|out: server::State|
            #[trigger] call_ensures(server::State::new, (), out) ==> out@.clip.version == 0
                && out@.clip.body.len() == 0 && out@.clip.mime == "text/plain; charset=utf-8"@
                && out@.poll_ms == 300_000,
        forall|out: server::State|
            #[trigger] call_ensures(<server::State as Default>::default, (), out)
                ==> out@.clip.version == 0 && out@.clip.body.len() == 0 && out@.clip.mime
                == "text/plain; charset=utf-8"@ && out@.poll_ms == 300_000,
        forall|out: &server::Clip|
            #[trigger] call_ensures(server::State::clip, (&state,), out) ==> out.version
                == state@.clip.version && out.body@ == state@.clip.body && out.mime@
                == state@.clip.mime,
        forall|out: u64|
            #[trigger] call_ensures(server::poll_timeout, (&state,), out) ==> out == state@.poll_ms,
        forall|s: &mut server::State, out: ()|
            #[trigger] call_ensures(server::set_poll_timeout, (s, ms), out) ==> final(s)@.poll_ms
                == ms && final(s)@.clip == s@.clip,
        forall|out: server::LongPoll|
            #[trigger] call_ensures(server::State::begin_get, (&state, since), out) ==> out.since
                == since && out.timeout_ms == state@.poll_ms,
{
}

/// Only `GET` and `POST` of `/clip` are served, with any query. Another path is not found,
/// and another method is not allowed, both with a bare reply.
pub proof fn law_requests_are_routed(method: server::Method, url: &str, path: Seq<char>)
    requires
        serving::lacks(path, '?'),
        url@ == path || (url@.len() > path.len() && url@ == path + seq!['?'] + url@.skip(
            path.len() as int + 1,
        )),
    ensures
        forall|out: server::Route|
            #[trigger] call_ensures(server::handle, (method, url), out) ==> {
                let bare = |status: u16|
                    out matches server::Route::Refuse(r) && r.status == status && r.headers@.len()
                        == 0 && r.body is None;
                &&& path != "/clip"@ ==> bare(404)
                &&& path == "/clip"@ ==> match method {
                    server::Method::Get => out matches server::Route::Get { since } && match since {
                        Some(v) => server::since_in(url@) == Some(v as nat),
                        None => server::since_in(url@) is None,
                    },
                    server::Method::Post => out is Post,
                    server::Method::Other => bare(405),
                }
            },
        forall|out: Option<u64>|
            #[trigger] call_ensures(server::since_of, (url,), out) ==> match out {
                Some(v) => server::since_in(url@) == Some(v as nat),
                None => server::since_in(url@) is None,
            },
{
    if url@ == path {
        numbers::law_nothing_to_cut(path, '?');
    } else {
        numbers::law_cut_at_the_first(path, '?', url@.skip(path.len() as int + 1));
    }
    assert forall|out: server::Route| #[trigger]
        call_ensures(server::handle, (method, url), out) implies {
        out matches server::Route::Refuse(r) ==> r@.headers.len() == r.headers@.len()
    } by {}
}

/// True of the right thing to do with a `GET` by a server that holds this clip. A client that
/// has the version of it waits for what is left of the timeout, and is then told that nothing
/// changed. Any other gets all of the clip.
pub open spec fn is_right_step(
    clip: server::ClipView,
    poll: server::LongPoll,
    waited_ns: u128,
    step: server::Step,
) -> bool {
    let version = text::decimal(clip.version as nat);
    let whole = poll.timeout_ms * 1_000_000;
    if poll.since != Some(clip.version) {
        step matches server::Step::Answer(r) && {
            &&& r.status == 200
            &&& r.body matches Some(b) && b@ == clip.body
            &&& r.headers@.len() == 2
            &&& r.headers@[0].name@ == "X-Clip-Version"@
            &&& r.headers@[0].value@ == version
            &&& r.headers@[1].name@ == "Content-Type"@
            &&& r.headers@[1].value@ == if is_ascii_chars(clip.mime) {
                clip.mime
            } else {
                "application/octet-stream"@
            }
        }
    } else if waited_ns < whole {
        step matches server::Step::Wait { secs, nanos } && nanos < 1_000_000_000 && secs
            * 1_000_000_000 + nanos == whole - waited_ns
    } else {
        step matches server::Step::Answer(r) && {
            &&& r.status == 204
            &&& r.body is None
            &&& r.headers@.len() == 1
            &&& r.headers@[0].name@ == "X-Clip-Version"@
            &&& r.headers@[0].value@ == version
        }
    }
}

/// A `GET` is answered with all of the clip, or told to wait, or told that nothing changed.
pub proof fn law_get_answers_with_the_clip(
    state: server::State,
    poll: server::LongPoll,
    waited_ns: u128,
)
    ensures
        forall|out: server::Step|
            #[trigger] call_ensures(server::State::get_clip, (&state, &poll, waited_ns), out)
                ==> is_right_step(state@.clip, poll, waited_ns, out),
{
    assert forall|out: server::Step| #[trigger]
        call_ensures(server::State::get_clip, (&state, &poll, waited_ns), out) implies is_right_step(
        state@.clip,
        poll,
        waited_ns,
        out,
    ) by {
        if let server::Step::Answer(r) = out {
            assert(r@.headers.len() == r.headers@.len());
            if r.headers@.len() > 0 {
                assert(r@.headers[0] == r.headers@[0]@);
            }
            if r.headers@.len() > 1 {
                assert(r@.headers[1] == r.headers@[1]@);
            }
        }
    }
}

/// A post of at most 32 MB is held afterwards, all of it, under the value of the first line
/// that names its type, and as text where none does. The version moves by one if and only if
/// it is another clip, which the flag tells. The reply tells the version.
pub proof fn law_post_is_held(fields: Vec<outside::Field>, body: Vec<u8>, i: int)
    requires
        body@.len() <= 33_554_432,
        0 <= i <= fields@.len(),
        i < fields@.len() ==> serving::names_the_type(fields@[i]@),
        forall|j: int| 0 <= j < i ==> !serving::names_the_type((#[trigger] fields@[j])@),
    ensures
        forall|s: &mut server::State, out: (server::Reply, bool)|
            #[trigger] call_ensures(server::State::post_clip, (s, &fields, Some(body)), out)
                && s@.clip.version < u64::MAX ==> {
                let mime = if i < fields@.len() {
                    fields@[i].value@
                } else {
                    "text/plain; charset=utf-8"@
                };
                let new = s@.clip.body != body@ || s@.clip.mime != mime;
                &&& final(s)@.clip.body == body@
                &&& final(s)@.clip.mime == mime
                &&& final(s)@.clip.version == s@.clip.version + if new {
                    1int
                } else {
                    0
                }
                &&& final(s)@.poll_ms == s@.poll_ms
                &&& out.1 == new
                &&& out.0.status == 200
                &&& out.0.body is None
                &&& out.0.headers@.len() == 1
                &&& out.0.headers@[0].name@ == "X-Clip-Version"@
                &&& out.0.headers@[0].value@ == text::decimal(final(s)@.clip.version as nat)
            },
        forall|s: server::State, out: bool|
            #[trigger] call_ensures(server::State::stores, (&s, &fields, &Some(body)), out)
                ==> out == (s@.clip.body != body@ || s@.clip.mime != if i < fields@.len() {
                fields@[i].value@
            } else {
                "text/plain; charset=utf-8"@
            }),
{
    let all = server::fields_view(fields@);
    assert forall|j: int| 0 <= j < i implies !serving::names_the_type(#[trigger] all[j]) by {
        assert(all[j] == fields@[j]@);
    }
    if i < fields@.len() {
        assert(all[i] == fields@[i]@);
        serving::law_first_content_type_counts(all, i);
    } else {
        serving::law_no_content_type_is_text(all);
    }
    assert forall|r: server::Reply| #![trigger r@]
        r@.headers.len() == r.headers@.len() && (r.headers@.len() > 0 ==> r@.headers[0]
            == r.headers@[0]@) by {}
}

/// A post of more than 32 MB, and one that could not be read, leave the server as it was.
pub proof fn law_refused_post_is_not_held(fields: Vec<outside::Field>, body: Option<Vec<u8>>)
    requires
        body matches Some(b) ==> b@.len() > 33_554_432,
    ensures
        forall|s: &mut server::State, out: (server::Reply, bool)|
            #[trigger] call_ensures(server::State::post_clip, (s, &fields, body), out) ==> {
                &&& final(s)@ == s@
                &&& !out.1
                &&& out.0.status == if body is Some {
                    413u16
                } else {
                    400
                }
                &&& out.0.headers@.len() == 0
                &&& out.0.body is None
            },
        forall|s: server::State, out: bool|
            #[trigger] call_ensures(server::State::stores, (&s, &fields, &body), out) ==> !out,
{
    assert forall|r: server::Reply| #![trigger r@] r@.headers.len() == r.headers@.len() by {}
}

/// A read gives back the write: who asks a server behind a post gets all of what was posted,
/// whoever else has asked before.
pub proof fn law_get_gives_back_the_post(
    fields: Vec<outside::Field>,
    body: Vec<u8>,
    state: server::State,
    poll: server::LongPoll,
    waited_ns: u128,
    step: server::Step,
)
    requires
        body@.len() <= 33_554_432,
        poll.since is None,
        call_ensures(server::State::get_clip, (&state, &poll, waited_ns), step),
    ensures
        forall|s: &mut server::State, out: (server::Reply, bool)|
            #[trigger] call_ensures(server::State::post_clip, (s, &fields, Some(body)), out)
                && final(s)@ == state@ && s@.clip.version < u64::MAX ==> (step
                matches server::Step::Answer(r) && r.status == 200 && r.body is Some && r.body->0@
                == body@),
{
    law_get_answers_with_the_clip(state, poll, waited_ns);
}

// ---------------------------------------------------------------- the command line

/// The addresses that a call takes for private, and for ones of Tailscale's.
pub proof fn law_private_addresses(a: bind::Ipv4, b: bind::Ipv6)
    ensures
        forall|out: bool|
            #[trigger] call_ensures(bind::is_cgnat, (a,), out) ==> out == (a.octets@[0] == 100 && 64
                <= a.octets@[1] <= 127),
        forall|out: bool|
            #[trigger] call_ensures(bind::is_private, (bind::Ip::V4(a),), out) ==> out == {
                ||| a.octets@[0] == 127
                ||| a.octets@[0] == 10
                ||| a.octets@[0] == 172 && 16 <= a.octets@[1] <= 31
                ||| a.octets@[0] == 192 && a.octets@[1] == 168
                ||| a.octets@[0] == 100 && 64 <= a.octets@[1] <= 127
            },
        forall|out: bool|
            #[trigger] call_ensures(bind::is_private, (bind::Ip::V6(b),), out) ==> out == {
                ||| b.segments@ == seq![0u16, 0, 0, 0, 0, 0, 0, 1]
                ||| b.segments@[0] / 0x200 == 0x7e
            },
{
    listening::law_private_ipv4(a);
    listening::law_private_ipv6(b);
}

/// The address that is asked for is the one that is bound, or none is: a public one and what
/// is no address are refused. What the host has counts only where none is asked for.
pub proof fn law_bind_goes_by_what_is_asked(
    asked: &str,
    ip: bind::Ip,
    allow_public: bool,
    addresses: Vec<bind::Ip>,
)
    ensures
        forall|out: Result<bind::Ip, String>|
            #[trigger] call_ensures(
                bind::pick_bind,
                (Some(asked), Some(ip), allow_public, &addresses),
                out,
            ) ==> {
                &&& (out is Ok) == (allow_public || ip.is_private())
                &&& out matches Ok(bound) ==> bound == ip
                &&& out matches Err(e) ==> e@ == "refusing to bind the public address "@ + asked@
                    + ".\ntailclip has no authentication. The tailnet is the authentication.\nTo override this, add --allow-public-bind."@
            },
        forall|out: Result<bind::Ip, String>|
            #[trigger] call_ensures(
                bind::pick_bind,
                (Some(asked), None, allow_public, &addresses),
                out,
            ) ==> (out matches Err(e) && e@ == "--bind "@ + asked@ + ": not an IP address"@),
{
}

/// Where no address is asked for, the first of the host's in the Tailscale range is bound,
/// and none where it has none.
pub proof fn law_bind_takes_the_first_of_tailscale(
    address: Option<bind::Ip>,
    allow_public: bool,
    addresses: Vec<bind::Ip>,
    i: int,
)
    requires
        0 <= i <= addresses@.len(),
        i < addresses@.len() ==> addresses@[i].is_tailscale(),
        forall|j: int| 0 <= j < i ==> !(#[trigger] addresses@[j]).is_tailscale(),
    ensures
        forall|out: Result<bind::Ip, String>|
            #[trigger] call_ensures(
                bind::pick_bind,
                (None::<&str>, address, allow_public, &addresses),
                out,
            ) ==> {
                &&& i < addresses@.len() ==> out == Ok::<bind::Ip, String>(addresses@[i])
                &&& i == addresses@.len() ==> (out matches Err(e) && e@
                    == "no address inside 100.64.0.0/10 on this host.\ntailclip binds the Tailscale address. Start Tailscale, then try again.\nTo use a different address, add --bind <ip>."@)
            },
        forall|out: Option<bind::Ip>|
            #[trigger] call_ensures(bind::tailscale_ip, (&addresses,), out) ==> out == if i
                < addresses@.len() {
                Some(addresses@[i])
            } else {
                None
            },
{
    if i < addresses@.len() {
        listening::law_first_tailscale_address_is_taken(address, allow_public, addresses@, i);
    } else {
        listening::law_no_tailscale_no_address(address, allow_public, addresses@);
        lemma_no_tailscale(addresses@);
    }
}

proof fn lemma_no_tailscale(addresses: Seq<bind::Ip>)
    requires
        forall|j: int| 0 <= j < addresses.len() ==> !(#[trigger] addresses[j]).is_tailscale(),
    ensures
        bind::first_tailscale(addresses) is None,
    decreases addresses.len(),
{
    if addresses.len() > 0 {
        let rest = addresses.skip(1);
        assert forall|j: int| 0 <= j < rest.len() implies !(#[trigger] rest[j]).is_tailscale() by {
            assert(rest[j] == addresses[j + 1]);
        }
        assert(!addresses[0].is_tailscale());
        lemma_no_tailscale(rest);
    }
}

/// The value of a flag is the argument behind its first occurrence.
pub proof fn law_flag_value_stands_behind_it(args: &[String], name: &str, i: int)
    requires
        0 <= i <= args@.len(),
        i < args@.len() ==> args@[i]@ == name@,
        forall|j: int| 0 <= j < i ==> (#[trigger] args@[j])@ != name@,
    ensures
        forall|out: Option<String>|
            #[trigger] call_ensures(cli::flag_value, (args, name), out) ==> {
                &&& (out is Some) == (i + 1 < args@.len())
                &&& out matches Some(v) ==> v@ == args@[i + 1]@
            },
{
    let all = cli::args_view(args@);
    assert forall|j: int| 0 <= j < i implies #[trigger] all[j] != name@ by {
        assert(all[j] == args@[j]@);
    }
    if i < args@.len() {
        listening::law_flag_takes_the_argument_behind_it(all, name@, i);
    } else {
        listening::law_missing_flag_has_no_value(all, name@);
    }
}

/// `serve` reads its flags: the address, the port, and whether public addresses are allowed.
pub proof fn law_serve_reads_its_flags(args: &[String])
    ensures
        forall|out: Result<cli::ServeOptions, String>|
            #[trigger] call_ensures(cli::serve_cmd, (args,), out) ==> {
                let all = cli::args_view(args@);
                let allow = exists|i: int|
                    0 <= i < args@.len() && (#[trigger] args@[i])@ == "--allow-public-bind"@;
                &&& out matches Ok(o) ==> o.allow_public == allow
                &&& out matches Ok(o) ==> match o.bind {
                    Some(b) => cli::value_behind(all, "--bind"@) == Some(b@),
                    None => cli::value_behind(all, "--bind"@) is None,
                }
                &&& match cli::value_behind(all, "--port"@) {
                    None => out matches Ok(o) && o.port == 8757,
                    Some(p) => match text::unsigned_of(p, 65535) {
                        Some(n) => out matches Ok(o) && o.port == n,
                        None => out matches Err(e) && e@ == "--port "@ + p
                            + ": not a port number"@,
                    },
                }
            },
{
    let all = cli::args_view(args@);
    if exists|i: int| 0 <= i < args@.len() && (#[trigger] args@[i])@ == "--allow-public-bind"@ {
        let i = choose|i: int|
            0 <= i < args@.len() && (#[trigger] args@[i])@ == "--allow-public-bind"@;
        assert(all[i] == "--allow-public-bind"@);
    } else if all.contains("--allow-public-bind"@) {
        let i = choose|i: int| 0 <= i < all.len() && all[i] == "--allow-public-bind"@;
        assert(args@[i]@ == "--allow-public-bind"@);
    }
}

/// `serve` listens on the address and the port that its flags and the bind rules give, and
/// says what is wrong with the port before it says what is wrong with the address.
pub proof fn law_serve_listens(
    args: &[String],
    address: Option<bind::Ip>,
    addresses: Vec<bind::Ip>,
    read: Result<cli::ServeOptions, String>,
)
    requires
        call_ensures(cli::serve_cmd, (args,), read),
    ensures
        forall|out: Result<(bind::Ip, u16), String>|
            #[trigger] call_ensures(cli::listen_on, (args, address, &addresses), out) ==> match read {
                Err(e) => out matches Err(f) && f@ == e@,
                Ok(o) => match bind::bind_choice(
                    match o.bind {
                        Some(b) => Some(b@),
                        None => None,
                    },
                    address,
                    o.allow_public,
                    addresses@,
                ) {
                    Ok(ip) => out == Ok::<(bind::Ip, u16), String>((ip, o.port)),
                    Err(e) => out matches Err(f) && f@ == e,
                },
            },
{
}

/// A command is the one that its first argument names. No argument asks for help. What no
/// command is named is unknown, by that name.
pub proof fn law_command_is_the_one_named(args: &[String])
    ensures
        forall|out: cli::Command|
            #[trigger] call_ensures(cli::command_of, (args,), out) ==> {
                let name = if args@.len() > 0 {
                    args@[0]@
                } else {
                    Seq::empty()
                };
                &&& out is Serve <==> name == "serve"@
                &&& out is Sync <==> name == "sync"@
                &&& out is GetClip <==> name == "get"@
                &&& out is SetClip <==> name == "set"@
                &&& out is Pause <==> name == "pause"@
                &&& out is Resume <==> name == "resume"@
                &&& out is Selftest <==> name == "selftest"@
                &&& out is Version <==> (name == "-V"@ || name == "--version"@ || name
                    == "version"@)
                &&& out is Help <==> (name == "-h"@ || name == "--help"@ || name == "help"@
                    || name.len() == 0)
                &&& out matches cli::Command::Unknown(other) ==> other@ == name
            },
{
    reveal_strlit("");
    assert(""@ =~= Seq::<char>::empty());
    assert forall|c: cli::Command, n: Seq<char>| #[trigger] cli::is_named(c, n) implies {
        &&& c is Serve <==> n == "serve"@
        &&& c is Sync <==> n == "sync"@
        &&& c is GetClip <==> n == "get"@
        &&& c is SetClip <==> n == "set"@
        &&& c is Pause <==> n == "pause"@
        &&& c is Resume <==> n == "resume"@
        &&& c is Selftest <==> n == "selftest"@
        &&& c is Version <==> (n == "-V"@ || n == "--version"@ || n == "version"@)
        &&& c is Help <==> (n == "-h"@ || n == "--help"@ || n == "help"@ || n.len() == 0)
        &&& c matches cli::Command::Unknown(other) ==> other@ == n
    } by {
        listening::law_command_goes_by_its_name(c, n);
    }
}

/// The exit code tells an unknown command from one that failed, and that from one that did
/// not. A host has to be given. A file that is not there is no failure of `resume`.
pub proof fn law_commands_tell_how_they_ended(
    command: cli::Command,
    failed: bool,
    rest: &[String],
    error: String,
    home: Option<String>,
)
    ensures
        forall|out: i32|
            #[trigger] call_ensures(cli::exit_code, (&command, failed), out) ==> {
                &&& out == 2 <==> command is Unknown
                &&& out == 1 <==> command !is Unknown && failed
                &&& out == 0 <==> command !is Unknown && !failed
            },
        forall|out: Result<String, String>|
            #[trigger] call_ensures(cli::host_of, (rest,), out) ==> {
                &&& rest@.len() > 0 ==> (out matches Ok(h) && h@ == rest@[0]@)
                &&& rest@.len() == 0 ==> (out matches Err(e) && e@
                    == "this command needs a HOST[:PORT] argument"@)
            },
        forall|out: Result<(), String>|
            #[trigger] call_ensures(cli::resume, (cli::Removal::Failed(error),), out) ==> (out
                matches Err(e) && e@ == error@),
        forall|out: Result<(), String>|
            #[trigger] call_ensures(cli::resume, (cli::Removal::Removed,), out) ==> out is Ok,
        forall|out: Result<(), String>|
            #[trigger] call_ensures(cli::resume, (cli::Removal::Missing,), out) ==> out is Ok,
        forall|out: String|
            #[trigger] call_ensures(cli::pause_file, (home,), out) ==> out@ == match home {
                None => "./.cache/tailclip/paused"@,
                Some(h) => if h@.len() > 0 && h@.last() != '/' {
                    h@ + "/.cache/tailclip/paused"@
                } else {
                    h@ + ".cache/tailclip/paused"@
                },
            },
{
    match home {
        Some(h) => {
            listening::law_pause_file_lies_below_home(h@);
            if h@.len() == 0 {
                assert(h@ + ".cache/tailclip/paused"@ =~= ".cache/tailclip/paused"@);
            }
        },
        None => listening::law_pause_file_lies_below_home(Seq::empty()),
    }
}

// -------------------------------------------------------------------- the client

/// A host is asked at the port that it names, and else at port 8757.
pub proof fn law_url_names_a_port(host: &str, before: Seq<char>, last: Seq<char>)
    requires
        serving::lacks(last, ':'),
        host@ == last || host@ == before + seq![':'] + last,
    ensures
        forall|out: String|
            #[trigger] call_ensures(client::clip_url, (host,), out) ==> out@ == "http://"@ + host@
                + if text::unsigned_of(last, 65535) is Some {
                "/clip"@
            } else {
                ":8757/clip"@
            },
{
    if text::unsigned_of(last, 65535) is Some {
        asking::law_url_keeps_the_port(before, last);
    } else {
        asking::law_url_adds_the_port(before, last);
    }
}

/// A request carries what it is made of: the URL, the version behind it, the mime type, all
/// of the body, the time.
pub proof fn law_requests_carry_everything(
    url: &str,
    since: Option<u64>,
    mime: &str,
    body: &[u8],
    timeout_ms: u64,
)
    ensures
        forall|out: client::Request|
            #[trigger] call_ensures(client::fetch, (url, since, timeout_ms), out) ==> {
                &&& out.method == server::Method::Get
                &&& out.url@ == match since {
                    Some(v) => url@ + "?since="@ + text::decimal(v as nat),
                    None => url@,
                }
                &&& out.mime is None && out.body@.len() == 0
                &&& out.timeout_ms == timeout_ms
            },
        forall|out: client::Request|
            #[trigger] call_ensures(client::push, (url, mime, body, timeout_ms), out) ==> {
                &&& out.method == server::Method::Post
                &&& out.url@ == url@
                &&& out.mime matches Some(m) && m@ == mime@
                &&& out.body@ == body@
                &&& out.timeout_ms == timeout_ms
            },
{
    assert forall|r: client::Request| #![trigger r@] r@.body == r.body@ && r@.url == r.url@ && r@.mime
        == match r.mime {
        Some(m) => Some(m@),
        None => None,
    } by {}
}

/// `get` asks the server of the host for the clip, at once. `set` posts to it every byte that
/// it is given, up to 32 MB, and says how large a larger clip is.
pub proof fn law_get_and_set_ask_the_host(
    host: &str,
    url: String,
    bytes: Vec<u8>,
    argument: String,
)
    requires
        call_ensures(client::clip_url, (host,), url),
    ensures
        forall|out: client::Request|
            #[trigger] call_ensures(client::get, (host,), out) ==> {
                &&& out.method == server::Method::Get
                &&& out.url@ == url@
                &&& out.body@.len() == 0
                &&& out.timeout_ms == 10_000
            },
        forall|out: Result<client::Request, String>|
            #[trigger] call_ensures(client::set, (host, client::Source::Stdin(bytes)), out) ==> {
                &&& bytes@.len() <= 33_554_432 ==> (out matches Ok(r) && {
                    &&& r.method == server::Method::Post
                    &&& r.url@ == url@
                    &&& r.body@ == bytes@
                    &&& r.mime matches Some(m) && m@ == if asking::begins_like_png(bytes@) {
                        "image/png"@
                    } else {
                        "text/plain; charset=utf-8"@
                    }
                    &&& r.timeout_ms == 30_000
                })
                &&& bytes@.len() > 33_554_432 ==> (out matches Err(e) && e@ == "clip is "@
                    + text::decimal(bytes@.len()) + " bytes. The cap is "@ + text::decimal(
                    33_554_432,
                ) + " bytes."@)
            },
        forall|out: Result<client::Request, String>|
            #[trigger] call_ensures(client::set, (host, client::Source::Text(argument)), out) ==> {
                let body = encode_utf8(argument@);
                &&& body.len() <= 33_554_432 ==> (out matches Ok(r) && {
                    &&& r.method == server::Method::Post
                    &&& r.url@ == url@
                    &&& r.body@ == body
                    &&& r.mime matches Some(m) && m@ == "text/plain; charset=utf-8"@
                    &&& r.timeout_ms == 30_000
                })
                &&& body.len() > 33_554_432 ==> (out matches Err(e) && e@ == "clip is "@
                    + text::decimal(body.len()) + " bytes. The cap is "@ + text::decimal(
                    33_554_432,
                ) + " bytes."@)
            },
        forall|status: u16, out: Result<(), String>|
            #[trigger] call_ensures(client::set_result, (status,), out) ==> {
                &&& (out is Err) == (status == 413)
                &&& out matches Err(e) ==> e@ == "the server rejected the clip: too large"@
            },
{
    asking::law_image_is_told_by_its_signature(bytes@);
    asking::law_set_sends_everything(bytes@, argument@);
    assert forall|r: client::Request| #![trigger r@] r@.body == r.body@ && r@.url == r.url@ && r@.mime
        == match r.mime {
        Some(m) => Some(m@),
        None => None,
    } by {}
}

/// A reply is read as it came: its status, the number in its version header, the text in its
/// type header, all of its body. One with more than 32 MB is an error, and so is one whose
/// body was not read, for that reason.
pub proof fn law_reply_is_read_whole(
    status: u16,
    version: Option<Vec<u8>>,
    mime: Option<Vec<u8>>,
    body: Vec<u8>,
    error: String,
)
    ensures
        forall|out: Result<client::Resp, String>|
            #[trigger] call_ensures(
                client::read_resp,
                (status, version, mime, Ok::<Vec<u8>, String>(body)),
                out,
            ) ==> {
                &&& body@.len() <= 33_554_432 ==> (out matches Ok(r) && {
                    &&& r.status == status
                    &&& r.version == match version {
                        Some(v) => client::told_version(Some(v@)),
                        None => 0,
                    }
                    &&& r.mime@ == match mime {
                        Some(m) => client::told_mime(Some(m@)),
                        None => "text/plain; charset=utf-8"@,
                    }
                    &&& r.body@ == body@
                })
                &&& body@.len() > 33_554_432 ==> (out matches Err(e) && e@
                    == "the response body is larger than request limit: "@ + text::decimal(
                    33_554_432,
                ))
            },
        forall|out: Result<client::Resp, String>|
            #[trigger] call_ensures(
                client::read_resp,
                (status, version, mime, Err::<Vec<u8>, String>(error)),
                out,
            ) ==> (out matches Err(e) && e@ == error@),
{
}

// ------------------------------------------------------------------------ the pull

/// Whatever reply a client takes, its next request waits for the end of that version: what
/// was applied is not asked for again.
pub proof fn law_taken_reply_is_not_asked_for_again(
    r: client::Resp,
    paused: bool,
    poller: sync::Poller,
    url: &str,
    next: client::Request,
)
    requires
        call_ensures(sync::Poller::request, (&poller, url), next),
    ensures
        forall|p: &mut sync::Poller, out: sync::Pull|
            #[trigger] call_ensures(sync::Poller::take, (p, Ok(r), paused), out) && final(p)@
                == poller@ ==> {
                &&& poller@.seen == Some(r.version)
                &&& next.method == server::Method::Get
                &&& next.url@ == url@ + "?since="@ + text::decimal(r.version as nat)
                &&& next.timeout_ms == 315_000
            },
{
    assert(next@.url == next.url@);
}

/// A reply leads to just what it carries: a clip is applied whole if it comes with status
/// 200, with a body, without a pause, and not as the first one.
pub proof fn law_reply_leads_to_what_it_carries(r: client::Resp, paused: bool)
    ensures
        forall|p: &mut sync::Poller, out: sync::Pull|
            #[trigger] call_ensures(sync::Poller::take, (p, Ok(r), paused), out) ==> {
                let applied = p@.seen is Some && !paused && r.status == 200 && r.body@.len() > 0;
                let png = r.mime@.len() >= 9 && r.mime@.take(9) == "image/png"@;
                &&& !applied ==> out is Skip
                &&& applied && png ==> (out matches sync::Pull::Apply(clip) && clip
                    matches payload::Payload::Png(b) && b@ == r.body@)
                &&& applied && !png ==> (out matches sync::Pull::Apply(clip) && clip
                    matches payload::Payload::Text(t) && (valid_utf8(r.body@) ==> encode_utf8(t@)
                    == r.body@))
            },
{
    clips::law_clip_arrives_whole(r.mime@, r.body@);
}

/// A failure leads to another try. In a pause it makes the client forget the version that it
/// has seen, as `forget` does, and else it changes nothing. A client that has forgotten its
/// version, or has just started, asks for the clip at once.
pub proof fn law_failure_leads_to_another_try(
    error: String,
    paused: bool,
    poller: sync::Poller,
    url: &str,
    next: client::Request,
)
    requires
        call_ensures(sync::Poller::request, (&poller, url), next),
    ensures
        forall|p: &mut sync::Poller, out: sync::Pull|
            #[trigger] call_ensures(
                sync::Poller::take,
                (p, Err::<client::Resp, String>(error), paused),
                out,
            ) ==> {
                &&& final(p)@.met == p@.met
                &&& final(p)@.seen == if paused {
                    None
                } else {
                    p@.seen
                }
                &&& out matches sync::Pull::Retry(report) && match report {
                    None => p@.met,
                    Some(t) => !p@.met && t@ == "server not reachable: "@ + error@,
                }
            },
        forall|p: &mut sync::Poller, out: ()|
            #[trigger] call_ensures(sync::Poller::forget, (p,), out) ==> final(p)@.seen is None
                && final(p)@.met == p@.met,
        forall|out: sync::Poller|
            #[trigger] call_ensures(sync::Poller::new, (), out) ==> out@.seen is None && !out@.met,
        poller@.seen is None ==> next.method == server::Method::Get && next.url@ == url@
            && next.timeout_ms == 10_000,
{
    assert(next@.url == next.url@);
}

// ------------------------------------------------------------------------ the push

/// Each new copy is found and pushed: when the watcher has looked at one clip and then at
/// another, that one is posted, all of it, unless the hasher gives one number for both. A
/// second look at the same clip leads to nothing.
pub proof fn law_each_new_copy_is_pushed(
    a: payload::Payload,
    b: payload::Payload,
    url: &str,
    first: sync::Watcher,
)
    requires
        DefaultHasher::spec_finish(clips::hashed(a@)) != DefaultHasher::spec_finish(
            clips::hashed(b@),
        ),
        0 < b@.bytes().len() <= 33_554_432,
    ensures
        forall|w: &mut sync::Watcher, out: Option<client::Request>, paused: bool|
            #[trigger] call_ensures(sync::watch_tick, (w, url, Some(a), paused), out) && final(w)@
                == first@ ==> first@ == DefaultHasher::spec_finish(clips::hashed(a@)),
        forall|w: &mut sync::Watcher, out: Option<client::Request>|
            #[trigger] call_ensures(sync::watch_tick, (w, url, Some(b), false), out) && w@
                == DefaultHasher::spec_finish(clips::hashed(a@)) ==> (out matches Some(r) && {
                &&& r.method == server::Method::Post
                &&& r.url@ == url@
                &&& match b {
                    payload::Payload::Text(t) => r.body@ == encode_utf8(t@),
                    payload::Payload::Png(png) => r.body@ == png@,
                }
                &&& r.mime matches Some(m) && m@ == match b {
                    payload::Payload::Text(_) => "text/plain; charset=utf-8"@,
                    payload::Payload::Png(_) => "image/png"@,
                }
                &&& r.timeout_ms == 30_000
            }),
        forall|w: &mut sync::Watcher, out: Option<client::Request>, paused: bool|
            #[trigger] call_ensures(sync::watch_tick, (w, url, Some(b), paused), out) && (paused
                || w@ == DefaultHasher::spec_finish(clips::hashed(b@))) ==> out is None,
        forall|w: &mut sync::Watcher, out: Option<client::Request>, paused: bool|
            #[trigger] call_ensures(sync::watch_tick, (w, url, None::<payload::Payload>, paused), out)
                ==> out is None && final(w)@ == w@,
{
    clips::law_hash_stands_for_the_whole_clip(a@, b@);
    assert forall|r: client::Request| #![trigger r@] r@.body == r.body@ && r@.url == r.url@ && r@.mime
        == match r.mime {
        Some(m) => Some(m@),
        None => None,
    } by {}
}

/// A watcher finds what it does not know: by its hash, or by the count of changes where the
/// platform has one. It knows what it was made with, what it was told, and what it has seen.
pub proof fn law_watcher_finds_what_it_does_not_know(p: payload::Payload, count: u64)
    ensures
        ({
            let hash = DefaultHasher::spec_finish(clips::hashed(p@));
            &&& forall|out: sync::Watcher|
                #[trigger] call_ensures(sync::Watcher::new, (&Some(p),), out) ==> out@ == hash
            &&& forall|out: sync::Watcher|
                #[trigger] call_ensures(sync::Watcher::new, (&None::<payload::Payload>,), out)
                    ==> out@ == 0
            &&& forall|w: &mut sync::Watcher, out: Option<payload::Payload>|
                #[trigger] call_ensures(sync::Watcher::poll, (w, Some(p)), out) ==> {
                    &&& final(w)@ == hash
                    &&& w@ == hash ==> out is None
                    &&& w@ != hash ==> (out matches Some(q) && q@ == p@)
                }
            &&& forall|w: &mut sync::Watcher, out: Option<payload::Payload>|
                #[trigger] call_ensures(sync::Watcher::poll, (w, None::<payload::Payload>), out)
                    ==> out is None && final(w)@ == w@
        }),
        forall|out: sync::Watcher|
            #[trigger] call_ensures(sync::Watcher::at_count, (count,), out) ==> out@ == count,
        forall|w: &mut sync::Watcher, out: bool|
            #[trigger] call_ensures(sync::Watcher::poll_count, (w, count), out) ==> final(w)@
                == count && out == (count != w@),
        forall|w: &mut sync::Watcher, out: ()|
            #[trigger] call_ensures(sync::Watcher::mark_count, (w, count), out) ==> final(w)@
                == count,
{
    clips::law_hash_stands_for_the_whole_clip(p@, p@);
}

/// What a client wrote to the pasteboard is no local change to it, when it reads it as the
/// pasteboard gives it back: text as it is, an image by its pixels, whatever PNG it came as.
pub proof fn law_written_clip_is_no_local_change(
    p: payload::Payload,
    paste: sync::Paste,
    png: Option<Vec<u8>>,
    read: Option<payload::Payload>,
    watcher: sync::Watcher,
)
    requires
        call_ensures(sync::write_clipboard, (&p,), Ok(paste)),
        match paste {
            sync::Paste::Text(t) => call_ensures(
                sync::read_clipboard,
                (Some(t), None::<Vec<u8>>),
                read,
            ),
            sync::Paste::Image { width, height, rgba } => {
                &&& exists|pixels: &[u8]|
                    pixels@ == rgba@ && #[trigger] call_ensures(
                        sync::read_image,
                        (width, height, pixels),
                        png,
                    )
                &&& call_ensures(sync::read_clipboard, (None::<String>, png), read)
            },
        },
    ensures
        forall|w: &mut sync::Watcher, out: ()|
            #[trigger] call_ensures(sync::Watcher::mark_written, (w, &p), out) && final(w)@
                == watcher@ ==> forall|v: &mut sync::Watcher, found: Option<payload::Payload>|
                v@ == watcher@ && #[trigger] call_ensures(sync::Watcher::poll, (v, read), found)
                    ==> found is None,
{
    assert(sync::clip_view(read) == sync::read_back(p@));
}

/// A local change leads to a push of all of it, unless there is a pause, or it is empty or
/// more than 32 MB.
pub proof fn law_change_leads_to_a_push(url: &str, p: payload::Payload, paused: bool)
    ensures
        forall|out: Option<client::Request>|
            #[trigger] call_ensures(sync::outgoing, (url, &Some(p), paused), out) ==> {
                let whole = match p {
                    payload::Payload::Text(t) => encode_utf8(t@),
                    payload::Payload::Png(b) => b@,
                };
                &&& (out is Some) == (!paused && 0 < whole.len() <= 33_554_432)
                &&& out matches Some(r) ==> r.method == server::Method::Post && r.url@ == url@
                    && r.body@ == whole && r.timeout_ms == 30_000 && r.mime is Some && r.mime->0@
                    == match p {
                    payload::Payload::Text(_) => "text/plain; charset=utf-8"@,
                    payload::Payload::Png(_) => "image/png"@,
                }
            },
        forall|out: Option<client::Request>|
            #[trigger] call_ensures(sync::outgoing, (url, &None::<payload::Payload>, paused), out)
                ==> out is None,
{
    assert forall|r: client::Request| #![trigger r@] r@.body == r.body@ && r@.url == r.url@ && r@.mime
        == match r.mime {
        Some(m) => Some(m@),
        None => None,
    } by {}
}

/// The clip of a pasteboard is all of its text, if that is not empty, and else all of its
/// image. Only then does the image have to be read.
pub proof fn law_pasteboard_is_read_whole(t: String, png: Option<Vec<u8>>)
    ensures
        forall|out: Option<payload::Payload>|
            #[trigger] call_ensures(sync::read_clipboard, (Some(t), png), out) ==> {
                &&& t@.len() > 0 ==> (out matches Some(payload::Payload::Text(u)) && u@ == t@)
                &&& t@.len() == 0 && png is None ==> out is None
                &&& t@.len() == 0 && png is Some ==> (out matches Some(payload::Payload::Png(b))
                    && b@ == png->0@)
            },
        forall|out: Option<payload::Payload>|
            #[trigger] call_ensures(sync::read_clipboard, (None::<String>, png), out) ==> {
                &&& png is None ==> out is None
                &&& png is Some ==> (out matches Some(payload::Payload::Png(b)) && b@ == png->0@)
            },
        forall|out: bool|
            #[trigger] call_ensures(sync::needs_image, (&Some(t),), out) ==> out == (t@.len() == 0),
        forall|out: bool|
            #[trigger] call_ensures(sync::needs_image, (&None::<String>,), out) ==> out,
{
}

/// Pixels are read as a PNG if and only if there are some, they fill the image, and they can
/// be counted. A clip is pasted as all of its text, or as all the pixels of its PNG.
pub proof fn law_images_are_read_and_pasted_whole(
    width: usize,
    height: usize,
    rgba: &[u8],
    t: String,
    png: Vec<u8>,
)
    ensures
        forall|out: Option<Vec<u8>>|
            #[trigger] call_ensures(sync::read_image, (width, height, rgba), out) && width
                <= 0xffff_ffff && height <= 0xffff_ffff ==> {
                &&& (out is Some) == (width > 0 && height > 0 && rgba@.len() == 4 * width * height
                    && 4 * width + 1 <= usize::MAX && (4 * width) * height <= usize::MAX)
                &&& out matches Some(b) ==> outside::png_encoded(width as u32, height as u32, rgba@)
                    == Ok::<Seq<u8>, Seq<char>>(b@)
            },
        forall|out: Result<sync::Paste, String>|
            #[trigger] call_ensures(sync::write_clipboard, (&payload::Payload::Text(t),), out)
                ==> (out matches Ok(sync::Paste::Text(u)) && u@ == t@),
        forall|out: Result<sync::Paste, String>|
            #[trigger] call_ensures(sync::write_clipboard, (&payload::Payload::Png(png),), out)
                ==> match image::png_pixels(png@) {
                Ok((w, h, pixels)) => out matches Ok(
                    sync::Paste::Image { width: x, height: y, rgba: z },
                ) && x == w && y == h && z@ == pixels,
                Err(e) => out matches Err(f) && f@ == e,
            },
{
    clips::law_countable_images_fit(width as u32, height as u32);
}

// -------------------------------------------------------------------- the selftest

/// A check says whether it passed, and ends the selftest if it did not. The server has five
/// seconds to start, and is asked every 50 milliseconds.
pub proof fn law_selftest_tells_how_it_goes(
    check: selftest::Check,
    answered: bool,
    elapsed_ns: u128,
    url: &str,
)
    ensures
        forall|out: String|
            #[trigger] call_ensures(selftest::Check::line, (&check,), out) ==> out@ == if check.ok {
                "  ok   "@ + check.label@
            } else {
                "  FAIL "@ + check.label@
            },
        forall|out: Result<(), String>|
            #[trigger] call_ensures(selftest::Check::result, (&check,), out) ==> {
                &&& (out is Ok) == check.ok
                &&& out matches Err(e) ==> e@ == "selftest failed: "@ + check.label@
            },
        forall|out: selftest::Startup|
            #[trigger] call_ensures(selftest::startup, (answered, elapsed_ns), out) ==> {
                &&& out is Ready <==> answered
                &&& out is GiveUp <==> !answered && elapsed_ns > 5_000_000_000
                &&& out matches selftest::Startup::Wait(ms) ==> ms == 50
                &&& out matches selftest::Startup::GiveUp(e) ==> e@
                    == "the selftest server did not start"@
            },
        forall|out: client::Request|
            #[trigger] call_ensures(selftest::startup_request, (url,), out) ==> out.url@ == url@
                && out.method == server::Method::Get && out.timeout_ms == 1000,
        forall|out: Vec<u8>|
            #[trigger] call_ensures(selftest::tiny_png, (), out) ==> asking::begins_like_png(out@)
                && image::png_pixels(out@) == Ok::<(usize, usize, Seq<u8>), Seq<char>>(
                (1, 1, seq![255u8, 0u8, 0u8, 255u8]),
            ) && out@ == checking::red_pixel(),
{
    assert forall|r: client::Request| #![trigger r@] r@.url == r.url@ by {}
    assert forall|out: Vec<u8>| #[trigger] call_ensures(selftest::tiny_png, (), out) implies
        asking::begins_like_png(out@) by {
        asking::law_image_is_told_by_its_signature(out@);
    }
}

/// The selftest begins at its first step, goes on by one with each answer or with the rules,
/// and fails an answer that its checks do not pass.
pub proof fn law_selftest_runs_its_script(
    r: client::Resp,
    waited_ms: u64,
    script: selftest::Script,
    url: &str,
    read: Vec<Option<bind::Ip>>,
)
    ensures
        forall|out: selftest::Script|
            #[trigger] call_ensures(selftest::Script::new, (), out) ==> out@.step == 0,
        forall|out: selftest::Action|
            #[trigger] call_ensures(selftest::Script::action, (&script, url), out) ==> out@
                == script@.action(url@),
        forall|s: &mut selftest::Script, out: Vec<selftest::Check>|
            #[trigger] call_ensures(selftest::Script::take, (s, &r, waited_ms), out) ==> {
                let expected = s@.checks(r@, waited_ms);
                &&& s@.step < 18 ==> final(s)@.step == s@.step + 1
                &&& out@.len() == expected.len()
                &&& forall|k: int|
                    0 <= k < out@.len() ==> (#[trigger] out@[k]).ok == expected[k].ok
                        && out@[k].label@ == expected[k].label
            },
        forall|s: &mut selftest::Script, out: ()|
            #[trigger] call_ensures(selftest::Script::rules_checked, (s,), out) ==> final(s)@.noted
                == s@.noted && (s@.step == 15 ==> final(s)@.step == 16),
        forall|out: Vec<selftest::Check>|
            #[trigger] call_ensures(selftest::rule_checks, (&read,), out) ==> {
                let expected = selftest::rules(read@);
                &&& out@.len() == 9
                &&& forall|k: int|
                    0 <= k < 9 ==> (#[trigger] out@[k]).ok == expected[k].ok && out@[k].label@
                        == expected[k].label
            },
        forall|k: usize, out: &'static str|
            #[trigger] call_ensures(selftest::rule_text, (k,), out) ==> {
                &&& k == 0 || k == 1 ==> out@ == "100.110.80.23"@
                &&& k == 2 || k == 3 ==> out@ == "8.8.8.8"@
                &&& k == 4 ==> out@ == "192.168.1.10"@
                &&& k == 5 ==> out@ == "127.0.0.1"@
                &&& k == 6 ==> out@ == "not-an-ip"@
                &&& k == 7 ==> out@ == "0.0.0.0"@
                &&& k == 8 ==> out@ == "::"@
            },
{
    assert forall|v: Seq<selftest::Check>| #![trigger selftest::checks_view(v)]
        selftest::checks_view(v).len() == v.len() && forall|k: int|
            0 <= k < v.len() ==> selftest::checks_view(v)[k] == (#[trigger] v[k])@ by {}
}

} // verus!
