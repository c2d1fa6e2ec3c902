//! What holds of the requests of a client, and of what it makes of the replies.

use crate::client;
use crate::laws::numbers;
use crate::laws::serving;
use crate::outside;
use crate::server;
use crate::text;
use vstd::prelude::*;
use vstd::utf8::*;

verus! {

// --------------------------------------------------------------------- the URL

/// A host whose last part, or the whole of which, is the number of a port is asked as it
/// stands.
pub proof fn law_url_keeps_the_port(before: Seq<char>, last: Seq<char>)
    requires
        serving::lacks(last, ':'),
        text::unsigned_of(last, 65535) is Some,
    ensures
        client::url_of(last) == "http://"@ + last + "/clip"@,
        client::url_of(before + seq![':'] + last) == "http://"@ + (before + seq![':'] + last)
            + "/clip"@,
{
    numbers::law_nothing_to_cut(last, ':');
    numbers::law_cut_at_the_last(before, ':', last);
}

/// A host with a port that is written in decimal is asked at that port.
pub proof fn law_url_keeps_a_decimal_port(host: Seq<char>, port: nat)
    requires
        port <= 65535,
    ensures
        client::url_of(host + seq![':'] + text::decimal(port)) == "http://"@ + (host + seq![':']
            + text::decimal(port)) + "/clip"@,
{
    numbers::law_decimal_is_plain(port, port);
    text::lemma_decimal_reads_back(port);
    law_url_keeps_the_port(host, text::decimal(port));
}

/// A host whose last part is no number of a port is asked at port 8757.
pub proof fn law_url_adds_the_port(before: Seq<char>, last: Seq<char>)
    requires
        serving::lacks(last, ':'),
        text::unsigned_of(last, 65535) is None,
    ensures
        client::url_of(last) == "http://"@ + last + ":8757/clip"@,
        client::url_of(before + seq![':'] + last) == "http://"@ + (before + seq![':'] + last)
            + ":8757/clip"@,
{
    numbers::law_nothing_to_cut(last, ':');
    numbers::law_cut_at_the_last(before, ':', last);
    numbers::law_decimal_appends_a_digit(0, 8);
    numbers::law_decimal_appends_a_digit(8, 7);
    numbers::law_decimal_appends_a_digit(87, 5);
    numbers::law_decimal_appends_a_digit(875, 7);
    reveal_strlit(":8757/clip");
    reveal_strlit(":");
    reveal_strlit("/clip");
    assert(text::decimal(8757) =~= seq!['8', '7', '5', '7']);
    assert(":"@ + text::decimal(8757) + "/clip"@ =~= ":8757/clip"@);
    assert forall|host: Seq<char>| "http://"@ + host + ":"@ + text::decimal(8757) + "/clip"@
        == #[trigger] ("http://"@ + host) + ":8757/clip"@ by {
        assert("http://"@ + host + ":"@ + text::decimal(8757) + "/clip"@ =~= ("http://"@ + host) + (
        ":"@ + text::decimal(8757) + "/clip"@));
    }
}

// ---------------------------------------------------------------- the requests

/// A request for the clip is a `GET` without a body. It carries the version that it is
/// given as a `since` behind the URL, and leaves the URL alone where it is given none.
pub proof fn law_fetch_carries_the_version(url: Seq<char>, version: u64, timeout_ms: u64)
    ensures
        ({
            let plain = client::fetch_request(url, None, timeout_ms);
            let since = client::fetch_request(url, Some(version), timeout_ms);
            &&& plain.method == server::Method::Get && since.method == server::Method::Get
            &&& plain.url == url
            &&& since.url == url + "?since="@ + text::decimal(version as nat)
            &&& plain.mime is None && since.mime is None
            &&& plain.body.len() == 0 && since.body.len() == 0
            &&& plain.timeout_ms == timeout_ms && since.timeout_ms == timeout_ms
        }),
{
}

/// A push is a `POST` of all of the body, under its mime type.
pub proof fn law_push_carries_the_body(
    url: Seq<char>,
    mime: Seq<char>,
    body: Seq<u8>,
    timeout_ms: u64,
)
    ensures
        ({
            let request = client::push_request(url, mime, body, timeout_ms);
            &&& request.method == server::Method::Post
            &&& request.url == url
            &&& request.mime == Some(mime)
            &&& request.body == body
            &&& request.timeout_ms == timeout_ms
        }),
{
}

// --------------------------------------------------------------------- the set

/// True if bytes begin like a PNG.
pub open spec fn begins_like_png(b: Seq<u8>) -> bool {
    &&& b.len() >= 8
    &&& b[0] == 137 && b[1] == 80 && b[2] == 78 && b[3] == 71
    &&& b[4] == 13 && b[5] == 10 && b[6] == 26 && b[7] == 10
}

/// The signature that an image is told by is that of PNG.
pub proof fn law_image_is_told_by_its_signature(b: Seq<u8>)
    ensures
        outside::png_signature().is_prefix_of(b) == begins_like_png(b),
{
    if begins_like_png(b) {
        assert(outside::png_signature() =~= b.subrange(0, 8));
    } else if b.len() >= 8 && outside::png_signature() == b.subrange(0, 8) {
        let p = b.subrange(0, 8);
        assert(p[0] == b[0] && p[1] == b[1] && p[2] == b[2] && p[3] == b[3]);
        assert(p[4] == b[4] && p[5] == b[5] && p[6] == b[6] && p[7] == b[7]);
    }
}

/// What `set` sends of standard input is every byte of it, in order, as an image if it
/// begins like one and else as text. What it sends of an argument is the UTF-8 of all of
/// it, as text.
pub proof fn law_set_sends_everything(bytes: Seq<u8>, text: Seq<char>)
    ensures
        client::SourceView::Stdin(bytes).body() == bytes,
        client::SourceView::Stdin(bytes).mime() == if begins_like_png(bytes) {
            "image/png"@
        } else {
            "text/plain; charset=utf-8"@
        },
        client::SourceView::Text(text).body() == encode_utf8(text),
        client::SourceView::Text(text).mime() == "text/plain; charset=utf-8"@,
{
    law_image_is_told_by_its_signature(bytes);
}

/// A `get` behind a `set` gives back every byte that was set, be it from standard input or
/// the UTF-8 of the argument.
pub proof fn law_get_gives_back_what_was_set(
    bytes: Seq<u8>,
    text: Seq<char>,
    state: server::StateView,
    waited_ns: nat,
)
    requires
        state.clip.version < u64::MAX,
    ensures
        ({
            let poll = server::LongPoll { since: None, timeout_ms: state.poll_ms };
            let source = client::SourceView::Stdin(bytes);
            bytes.len() <= 33_554_432 ==> (state.after_post(
                source.mime(),
                Some(source.body()),
            ).get(poll, waited_ns) matches server::StepView::Answer(reply) && reply.body == Some(
                bytes,
            ))
        }),
        ({
            let poll = server::LongPoll { since: None, timeout_ms: state.poll_ms };
            let source = client::SourceView::Text(text);
            encode_utf8(text).len() <= 33_554_432 ==> (state.after_post(
                source.mime(),
                Some(source.body()),
            ).get(poll, waited_ns) matches server::StepView::Answer(reply) && reply.body is Some
                && valid_utf8(reply.body->0) && decode_utf8(reply.body->0) == text)
        }),
{
    encode_utf8_valid_utf8(text);
    encode_utf8_decode_utf8(text);
}

/// A clip that is too large for `set` is told by its size and by the cap.
pub proof fn law_cap_is_told(length: nat)
    ensures
        client::over_the_cap(length) == "clip is "@ + text::decimal(length)
            + " bytes. The cap is "@ + text::decimal(33_554_432) + " bytes."@,
        client::body_too_large() == "the response body is larger than request limit: "@
            + text::decimal(33_554_432),
{
}

// ------------------------------------------------------------------- the reply

/// The version of a reply is the number that its header shows, for every number.
pub proof fn law_version_is_read(version: u64)
    ensures
        client::told_version(Some(encode_utf8(text::decimal(version as nat)))) == version,
{
    let digits = text::decimal(version as nat);
    text::lemma_decimal_reads_back(version as nat);
    numbers::law_decimal_is_plain(version as nat, 0);
    is_ascii_chars_encode_utf8(digits);
    let bytes = encode_utf8(digits);
    assert forall|i: int| 0 <= i < bytes.len() implies outside::is_visible(#[trigger] bytes[i])
        && bytes[i] as char == digits[i] by {
        assert(digits[i] as u8 == bytes[i]);
    }
    assert(Seq::new(bytes.len(), |i: int| bytes[i] as char) =~= digits);
}

/// The mime type of a reply is all of what its header shows, character by character, where
/// every byte of it is printable ASCII or a tab. A header with another byte counts for none.
pub proof fn law_mime_is_read(value: Seq<u8>)
    ensures
        ({
            let shown = forall|i: int|
                0 <= i < value.len() ==> #[trigger] value[i] == 9 || 32 <= value[i] <= 126;
            let mime = client::told_mime(Some(value));
            &&& shown ==> mime.len() == value.len() && forall|i: int|
                0 <= i < value.len() ==> #[trigger] mime[i] as u32 == value[i] as u32
            &&& !shown ==> mime == "text/plain; charset=utf-8"@ && client::told_version(Some(value))
                == 0
        }),
        client::told_mime(None) == "text/plain; charset=utf-8"@,
        client::told_version(None) == 0,
{
    if forall|i: int| 0 <= i < value.len() ==> #[trigger] value[i] == 9 || 32 <= value[i] <= 126 {
        assert forall|i: int| 0 <= i < value.len() implies outside::is_visible(
            #[trigger] value[i],
        ) by {}
    } else {
        let i = choose|i: int|
            0 <= i < value.len() && !(#[trigger] value[i] == 9 || 32 <= value[i] <= 126);
        assert(!outside::is_visible(value[i]));
    }
}

/// The version of a reply is what the text of its header reads as, up to the largest `u64`.
/// Text that is no such number counts as 0.
pub proof fn law_version_is_the_number_shown(value: Seq<u8>)
    requires
        forall|i: int|
            0 <= i < value.len() ==> #[trigger] value[i] == 9 || 32 <= value[i] <= 126,
    ensures
        client::told_version(Some(value)) == match text::unsigned_of(
            Seq::new(value.len(), |i: int| value[i] as char),
            u64::MAX as nat,
        ) {
            Some(v) => v,
            None => 0,
        },
{
    assert forall|i: int| 0 <= i < value.len() implies outside::is_visible(#[trigger] value[i]) by {}
}

// ------------------------------------------------------------------- the views

/// What contracts say of a request, a reply and a source, they say of all that it holds.
pub proof fn law_client_views_leave_nothing_out(
    request: client::Request,
    resp: client::Resp,
    text: String,
    bytes: Vec<u8>,
)
    ensures
        request@.method == request.method,
        request@.url == request.url@,
        request.mime matches Some(m) ==> request@.mime == Some(m@),
        request.mime is None ==> request@.mime is None,
        request@.body == request.body@,
        request@.timeout_ms == request.timeout_ms,
        resp@.status == resp.status,
        resp@.version == resp.version,
        resp@.mime == resp.mime@,
        resp@.body == resp.body@,
        client::Source::Text(text)@ == client::SourceView::Text(text@),
        client::Source::Stdin(bytes)@ == client::SourceView::Stdin(bytes@),
{
}

} // verus!
