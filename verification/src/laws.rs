//! What holds of the library as a whole.

use crate::client;
use crate::image;
use crate::outside;
use crate::payload;
use crate::selftest;
use crate::server;
use crate::sync;
use crate::text;
use vstd::prelude::*;
use vstd::utf8::*;

pub mod asking;
pub mod calls;
pub mod checking;
pub mod clips;
pub mod listening;
pub mod numbers;
pub mod serving;
pub mod syncing;

verus! {

// ------------------------------------------------------------ the server alone

/// A post: the mime type, and the body if it was read.
pub struct Posted {
    pub mime: Seq<char>,
    pub body: Option<Seq<u8>>,
}

/// The state after some posts, one after the other.
pub open spec fn after_posts(state: server::StateView, posts: Seq<Posted>) -> server::StateView
    decreases posts.len(),
{
    if posts.len() == 0 {
        state
    } else {
        after_posts(state, posts.drop_last()).after_post(posts.last().mime, posts.last().body)
    }
}

/// How many of these posts change the clip.
pub open spec fn changes(state: server::StateView, posts: Seq<Posted>) -> nat
    decreases posts.len(),
{
    if posts.len() == 0 {
        0
    } else {
        changes(state, posts.drop_last()) + if after_posts(state, posts.drop_last()).stores(
            posts.last().mime,
            posts.last().body,
        ) {
            1nat
        } else {
            0
        }
    }
}

/// The version counts the changes since the start, from 0. The clip never exceeds
/// the cap, and the length of a long poll is not for a post to change.
pub proof fn law_version_counts_changes(posts: Seq<Posted>)
    requires
        posts.len() <= u64::MAX,
    ensures
        after_posts(server::new_state(), posts).clip.version == changes(
            server::new_state(),
            posts,
        ),
        changes(server::new_state(), posts) <= posts.len(),
        after_posts(server::new_state(), posts).clip.body.len() <= server::MAX_BODY,
        after_posts(server::new_state(), posts).poll_ms == server::new_state().poll_ms,
    decreases posts.len(),
{
    if posts.len() > 0 {
        law_version_counts_changes(posts.drop_last());
    }
}

/// A version stands for one clip: no post lowers it, and as long as it is the same, so
/// are the body and the mime type.
pub proof fn law_version_stands_for_one_clip(posts: Seq<Posted>, i: int)
    requires
        posts.len() <= u64::MAX,
        0 <= i <= posts.len(),
    ensures
        ({
            let before = after_posts(server::new_state(), posts.take(i)).clip;
            let after = after_posts(server::new_state(), posts).clip;
            &&& before.version <= after.version
            &&& before.version == after.version ==> before == after
        }),
    decreases posts.len(),
{
    if i < posts.len() {
        law_version_stands_for_one_clip(posts.drop_last(), i);
        law_version_counts_changes(posts.drop_last());
        assert(posts.drop_last().take(i) =~= posts.take(i));
    } else {
        assert(posts.take(i) =~= posts);
    }
}

/// An identical body with an identical mime type does not bump the version: a post
/// that is repeated changes nothing more, and is answered alike.
pub proof fn law_identical_post_changes_nothing(
    state: server::StateView,
    mime: Seq<char>,
    body: Option<Seq<u8>>,
)
    requires
        state.stores(mime, body) ==> state.clip.version < u64::MAX,
    ensures
        state.after_post(mime, body).after_post(mime, body) == state.after_post(mime, body),
        state.after_post(mime, body).post_reply(mime, body) == state.post_reply(mime, body),
{
}

/// A changed body, or the same body with another mime type, bumps the version by
/// one.
pub proof fn law_another_clip_bumps_the_version(
    state: server::StateView,
    mime: Seq<char>,
    body: Seq<u8>,
)
    requires
        body.len() <= server::MAX_BODY,
        body != state.clip.body || mime != state.clip.mime,
        state.clip.version < u64::MAX,
    ensures
        state.after_post(mime, Some(body)).clip.version == state.clip.version + 1,
        state.post_reply(mime, Some(body)) == server::version_reply(
            200,
            (state.clip.version + 1) as u64,
        ),
{
}

/// A body over the cap, or one that could not be read, is not stored.
pub proof fn law_refused_post_changes_nothing(
    state: server::StateView,
    mime: Seq<char>,
    body: Option<Seq<u8>>,
)
    requires
        body matches Some(b) ==> b.len() > server::MAX_BODY,
    ensures
        state.after_post(mime, body) == state,
        body is Some ==> state.post_reply(mime, body) == server::bare_reply(413),
        body is None ==> state.post_reply(mime, body) == server::bare_reply(400),
{
}

/// A read gives back what a write wrote: a clip within the cap is answered to who
/// asks next, and to who waits for the end of another version.
pub proof fn law_read_gives_back_the_write(
    state: server::StateView,
    mime: Seq<char>,
    body: Seq<u8>,
    poll: server::LongPoll,
    waited_ns: nat,
)
    requires
        body.len() <= server::MAX_BODY,
        state.stores(mime, Some(body)) ==> state.clip.version < u64::MAX,
        poll.since != Some(state.after_post(mime, Some(body)).clip.version),
    ensures
        state.after_post(mime, Some(body)).get(poll, waited_ns) == server::StepView::Answer(
            server::clip_reply(
                server::ClipView {
                    version: state.after_post(mime, Some(body)).clip.version,
                    body,
                    mime,
                },
            ),
        ),
{
}

/// A client that waits for the end of the version that the server holds is woken
/// by the next change, however long it has waited, with the next version.
pub proof fn law_waiter_is_woken_by_a_change(
    state: server::StateView,
    mime: Seq<char>,
    body: Option<Seq<u8>>,
    timeout_ms: u64,
    waited_ns: nat,
)
    requires
        state.stores(mime, body),
        state.clip.version < u64::MAX,
    ensures
        ({
            let poll = server::LongPoll { since: Some(state.clip.version), timeout_ms };
            state.after_post(mime, body).get(poll, waited_ns) == server::StepView::Answer(
                server::clip_reply(
                    server::ClipView {
                        version: (state.clip.version + 1) as u64,
                        body: body->0,
                        mime,
                    },
                ),
            )
        }),
{
}

/// A client that has another version than the server, be it lower or higher, is
/// answered at once, with the clip. So is one that names none.
pub proof fn law_other_version_is_answered_at_once(
    state: server::StateView,
    poll: server::LongPoll,
)
    requires
        poll.since != Some(state.clip.version),
    ensures
        state.get(poll, 0) == server::StepView::Answer(server::clip_reply(state.clip)),
{
}

/// A client that has the version of the server waits for the whole timeout, and
/// no longer. Then it is told that nothing changed.
pub proof fn law_same_version_waits(
    state: server::StateView,
    poll: server::LongPoll,
    waited_ns: nat,
)
    requires
        poll.since == Some(state.clip.version),
    ensures
        waited_ns < poll.timeout_ms * 1_000_000 ==> (state.get(poll, waited_ns)
            matches server::StepView::Wait(left) && left > 0 && waited_ns + left
            == poll.timeout_ms * 1_000_000),
        waited_ns >= poll.timeout_ms * 1_000_000 ==> state.get(poll, waited_ns)
            == server::StepView::Answer(server::version_reply(204, state.clip.version)),
{
}

// ----------------------------------------------------- the client and the server

/// Where `c` does not stand in `a`, and stands first in `b`, it first stands in
/// `a + b` where `b` begins.
proof fn lemma_first_of_join(a: Seq<char>, b: Seq<char>, c: char)
    requires
        !a.contains(c),
        b.len() > 0,
        b[0] == c,
    ensures
        (a + b).index_of_first(c) == Some(a.len() as int),
{
    (a + b).index_of_first_ensures(c);
    assert((a + b)[a.len() as int] == c);
    assert((a + b).contains(c));
    let i = (a + b).index_of_first(c)->0;
    if i < a.len() {
        assert(a[i] == c);
    }
}

/// The server reads from the URL of a request the version that the client put
/// there, and the path that was there without it.
pub proof fn law_since_round_trip(url: Seq<char>, since: Option<u64>, timeout_ms: u64)
    requires
        !url.contains('?'),
    ensures
        text::before_first(client::fetch_request(url, since, timeout_ms).url, '?') == url,
        server::since_in(client::fetch_request(url, since, timeout_ms).url) == match since {
            Some(v) => Some(v as nat),
            None => None,
        },
{
    url.index_of_first_ensures('?');
    if let Some(v) = since {
        reveal_strlit("?since=");
        reveal_strlit("since=");
        let digits = text::decimal(v as nat);
        let full = url + "?since="@ + digits;
        let tail = "?since="@ + digits;
        let query = "since="@ + digits;
        text::lemma_decimal_reads_back(v as nat);
        assert(full =~= url + tail);
        lemma_first_of_join(url, tail, '?');
        assert(full.take(url.len() as int) =~= url);
        assert(full.skip(url.len() as int + 1) =~= query);
        query.index_of_first_ensures('&');
        if query.contains('&') {
            let i = query.index_of_first('&')->0;
            if i >= 6 {
                assert(text::is_digit(digits[i - 6]));
            }
        }
        assert(query.subrange(0, 6) =~= "since="@);
        assert(query.skip(6) =~= digits);
    }
}

/// A host that names no port is the host with the default port.
pub proof fn law_default_port(host: Seq<char>)
    requires
        !client::names_port(host),
    ensures
        client::url_of(host) == client::url_of(
            host + ":"@ + text::decimal(server::DEFAULT_PORT as nat),
        ),
{
    reveal_strlit(":");
    let port = text::decimal(server::DEFAULT_PORT as nat);
    let full = host + ":"@ + port;
    text::lemma_decimal_reads_back(server::DEFAULT_PORT as nat);
    full.index_of_last_ensures(':');
    assert(full[host.len() as int] == ':');
    assert(full.contains(':'));
    let i = full.index_of_last(':')->0;
    if i > host.len() {
        assert(text::is_digit(port[i - host.len() - 1]));
    }
    assert(full.skip(host.len() as int + 1) =~= port);
    assert("http://"@ + full + "/clip"@ =~= "http://"@ + host + ":"@ + port + "/clip"@);
}

/// The value of the first header line of this name, as it travels.
pub open spec fn value_in(headers: Seq<outside::FieldView>, name: Seq<char>) -> Option<Seq<u8>>
    decreases headers.len(),
{
    if headers.len() == 0 {
        None
    } else if outside::same_but_case(headers[0].name, name) {
        Some(encode_utf8(headers[0].value))
    } else {
        value_in(headers.skip(1), name)
    }
}

/// What a body holds. No body is an empty one.
pub open spec fn body_in(body: Option<Seq<u8>>) -> Seq<u8> {
    match body {
        Some(b) => b,
        None => Seq::empty(),
    }
}

/// What the client takes a reply for.
pub open spec fn received(reply: server::ReplyView) -> Result<client::RespView, Seq<char>> {
    if body_in(reply.body).len() > server::MAX_BODY {
        Err(client::body_too_large())
    } else {
        Ok(
            client::RespView {
                status: reply.status,
                version: client::told_version(value_in(reply.headers, "X-Clip-Version"@)) as u64,
                mime: client::told_mime(value_in(reply.headers, "Content-Type"@)),
                body: body_in(reply.body),
            },
        )
    }
}

/// True of a character that a header shows: a tab, or a printable ASCII character.
pub open spec fn is_shown_char(c: char) -> bool {
    c == '\t' || (' ' <= c && c <= '~')
}

/// True of text that a header shows.
pub open spec fn is_shown(s: Seq<char>) -> bool {
    forall|i: int| 0 <= i < s.len() ==> is_shown_char(#[trigger] s[i])
}

/// ASCII text is shown as it is, or not at all.
proof fn lemma_shown(s: Seq<char>)
    requires
        is_ascii_chars(s),
    ensures
        client::shown(Some(encode_utf8(s))) == if is_shown(s) {
            Some(s)
        } else {
            None
        },
{
    is_ascii_chars_encode_utf8(s);
    let bytes = encode_utf8(s);
    assert(bytes.len() == s.len());
    assert forall|i: int| 0 <= i < s.len() implies #[trigger] bytes[i] as nat == s[i] as nat
        && bytes[i] as char == s[i] by {}
    if is_shown(s) {
        assert forall|i: int| 0 <= i < bytes.len() implies outside::is_visible(
            #[trigger] bytes[i],
        ) by {
            assert(is_shown_char(s[i]));
        }
        assert(Seq::new(bytes.len(), |i: int| bytes[i] as char) =~= s);
    } else {
        let i = choose|i: int| 0 <= i < s.len() && !is_shown_char(#[trigger] s[i]);
        assert(!outside::is_visible(bytes[i]));
    }
}

proof fn lemma_header_names()
    ensures
        outside::same_but_case("X-Clip-Version"@, "X-Clip-Version"@),
        outside::same_but_case("Content-Type"@, "Content-Type"@),
        !outside::same_but_case("X-Clip-Version"@, "Content-Type"@),
{
    reveal_strlit("X-Clip-Version");
    reveal_strlit("Content-Type");
}

/// The client reads from a version header the version that the server wrote.
proof fn lemma_version_told(version: u64)
    ensures
        client::told_version(Some(encode_utf8(server::version_field(version).value))) == version,
{
    let digits = text::decimal(version as nat);
    text::lemma_decimal_reads_back(version as nat);
    assert forall|i: int| 0 <= i < digits.len() implies (#[trigger] digits[i] as nat) < 128
        && is_shown_char(digits[i]) by {
        assert(text::is_digit(digits[i]));
    }
    lemma_shown(digits);
}

/// The client reads from the reply that carries a clip its version, its body, and
/// its mime type if that is one that a header shows.
pub proof fn law_client_reads_the_clip(clip: server::ClipView)
    requires
        clip.body.len() <= server::MAX_BODY,
    ensures
        received(server::clip_reply(clip)) matches Ok(r) && {
            &&& r.status == 200
            &&& r.version == clip.version
            &&& r.body == clip.body
            &&& is_shown(clip.mime) ==> r.mime == clip.mime
        },
{
    let headers = server::clip_reply(clip).headers;
    lemma_header_names();
    lemma_version_told(clip.version);
    assert(headers[0] == server::version_field(clip.version));
    assert(headers.skip(1)[0] == server::type_field(clip.mime));
    reveal_with_fuel(value_in, 3);
    if is_shown(clip.mime) {
        assert(is_ascii_chars(clip.mime)) by {
            assert forall|i: int| 0 <= i < clip.mime.len() implies (#[trigger] clip.mime[i] as nat)
                < 128 by {
                assert(is_shown_char(clip.mime[i]));
            }
        }
        lemma_shown(clip.mime);
    }
}

/// The client reads from a reply without a body the version that it tells.
pub proof fn law_client_reads_the_version(status: u16, version: u64)
    ensures
        received(server::version_reply(status, version)) matches Ok(r) && {
            &&& r.status == status
            &&& r.version == version
            &&& r.body.len() == 0
        },
{
    lemma_header_names();
    lemma_version_told(version);
    reveal_with_fuel(value_in, 2);
}

// ---------------------------------------------------------------------- the sync

proof fn lemma_mime_is_shown(p: payload::PayloadView)
    ensures
        is_shown(p.mime()),
{
    reveal_strlit("text/plain; charset=utf-8");
    reveal_strlit("image/png");
}

/// What is copied on one machine is pasted on another. A clip that the watcher of
/// one client pushes, and that the server takes, is what the other client applies:
/// the request carries the clip, and the reply to any client that has seen another
/// version leads to the same clip.
pub proof fn law_copy_on_one_paste_on_another(
    p: payload::PayloadView,
    url: Seq<char>,
    state: server::StateView,
    poll: server::LongPoll,
    waited_ns: nat,
    seen: u64,
)
    requires
        p.bytes().len() > 0,
        p.bytes().len() <= server::MAX_BODY,
        state.stores(p.mime(), Some(p.bytes())) ==> state.clip.version < u64::MAX,
        poll.since != Some(state.after_post(p.mime(), Some(p.bytes())).clip.version),
    ensures
        sync::outgoing_request(url, Some(p), false) == Some(
            client::push_request(url, p.mime(), p.bytes(), client::PUSH_TIMEOUT_MS),
        ),
        state.after_post(p.mime(), Some(p.bytes())).get(poll, waited_ns)
            matches server::StepView::Answer(reply) && sync::pulled(
            sync::has_seen(seen),
            received(reply),
            false,
        ) == sync::PullView::Apply(p),
{
    let after = state.after_post(p.mime(), Some(p.bytes()));
    law_read_gives_back_the_write(state, p.mime(), p.bytes(), poll, waited_ns);
    law_client_reads_the_clip(after.clip);
    lemma_mime_is_shown(p);
    payload::lemma_wire_round_trip(p);
}

/// Two hosts never push to each other forever: a clip that a client applied and
/// marked is no local change to it when it reads it back, be it text or any image. That
/// stays so as long as the pasteboard holds it.
pub proof fn law_applied_clip_is_not_pushed_back(
    p: payload::PayloadView,
    url: Seq<char>,
    paused: bool,
)
    ensures
        ({
            let read = sync::read_back(p);
            let last = sync::mark_of(p);
            &&& sync::polled(last, read) is None
            &&& sync::after_poll(last, read) == last
            &&& sync::outgoing_request(url, sync::polled(last, read), paused) is None
        }),
{
}

/// Text that is put on a pasteboard is read back as it is.
pub proof fn law_text_reads_back(text: Seq<char>)
    requires
        text.len() > 0,
    ensures
        sync::read_back(payload::PayloadView::Text(text)) == Some(payload::PayloadView::Text(text)),
{
}

/// A PNG that the encoder made of some pixels, and that the decoder reads them from,
/// is read back as it is from a pasteboard that keeps pixels.
pub proof fn law_own_image_reads_back(width: u32, height: u32, rgba: Seq<u8>, png: Seq<u8>)
    requires
        image::is_countable(width, height),
        outside::png_encoded(width, height, rgba) == Ok::<Seq<u8>, Seq<char>>(png),
        image::png_pixels(png) == Ok::<(usize, usize, Seq<u8>), Seq<char>>(
            (width as usize, height as usize, rgba),
        ),
    ensures
        sync::read_back(payload::PayloadView::Png(png)) == Some(payload::PayloadView::Png(png)),
{
    assert(width as usize as u32 == width && height as usize as u32 == height);
}

/// A clip that lies on the pasteboard when it is looked at in a pause never leaves the
/// machine: not in the pause, and not after the resume, as long as it lies there and
/// no other clip takes its place.
pub proof fn law_paused_copy_is_never_pushed(
    last: u64,
    clip: Option<payload::PayloadView>,
    url: Seq<char>,
    paused: bool,
)
    ensures
        sync::outgoing_request(url, sync::polled(last, clip), true) is None,
        ({
            let after = sync::after_poll(last, clip);
            &&& sync::outgoing_request(url, sync::polled(after, clip), paused) is None
            &&& sync::after_poll(after, clip) == after
            &&& sync::polled(after, None) is None
            &&& sync::after_poll(after, None) == after
        }),
{
}

/// A start never overwrites the local clip: the first reply is not applied, and no
/// failure before it changes that.
pub proof fn law_start_never_applies(
    reply: Result<client::RespView, Seq<char>>,
    error: Seq<char>,
    paused: bool,
)
    ensures
        sync::pulled(sync::new_poller(), reply, paused) !is Apply,
        sync::after_reply(sync::new_poller(), Err(error), paused) == sync::new_poller(),
{
}

/// A clip whose reply comes in a pause never reaches the pasteboard: the reply is not
/// applied, and after the resume the server does not send that clip again. The client
/// asks for the end of its version, and as long as the server holds it, what it
/// answers is not applied either.
pub proof fn law_paused_clip_is_never_applied(
    poller: sync::PollerView,
    clip: server::ClipView,
    state: server::StateView,
    timeout_ms: u64,
    waited_ns: nat,
)
    requires
        state.clip == clip,
        clip.body.len() <= server::MAX_BODY,
    ensures
        sync::pulled(poller, received(server::clip_reply(clip)), true) !is Apply,
        ({
            let now = sync::after_reply(poller, received(server::clip_reply(clip)), true);
            let poll = server::LongPoll { since: now.seen, timeout_ms };
            &&& now == sync::has_seen(clip.version)
            &&& state.get(poll, waited_ns) matches server::StepView::Answer(reply)
                ==> sync::pulled(now, received(reply), false) == sync::PullView::Skip
        }),
{
    law_client_reads_the_clip(clip);
    law_client_reads_the_version(204, clip.version);
}

/// A clip that is sent in a pause while the server cannot be reached never reaches the
/// pasteboard. A request that fails in a pause makes the client forget its version, and
/// more failures do not bring it back. So the client asks for the current version, and
/// does not apply what comes first, be it in the pause or after it. Then it waits for
/// the end of that version.
pub proof fn law_outage_in_a_pause_applies_nothing(
    poller: sync::PollerView,
    error: Seq<char>,
    again: Seq<char>,
    reply: client::RespView,
    url: Seq<char>,
    paused: bool,
)
    ensures
        ({
            let lost = sync::forgotten(poller);
            &&& sync::after_reply(poller, Err(error), true) == lost
            &&& sync::after_reply(lost, Err(again), paused) == lost
            &&& sync::next_request(lost, url) == client::fetch_request(
                url,
                None,
                client::FETCH_TIMEOUT_MS,
            )
            &&& sync::pulled(lost, Ok(reply), paused) == sync::PullView::Skip
            &&& sync::after_reply(lost, Ok(reply), paused) == sync::has_seen(reply.version)
        }),
{
}

/// An outage without a pause loses nothing: the client goes on with the version that it
/// has seen.
pub proof fn law_outage_keeps_the_version(poller: sync::PollerView, error: Seq<char>)
    ensures
        sync::after_reply(poller, Err(error), false) == poller,
{
}

/// A long poll that ends without a change leaves the client where it was.
pub proof fn law_timeout_changes_nothing(version: u64, paused: bool)
    ensures
        ({
            let reply = received(server::version_reply(204, version));
            let poller = sync::has_seen(version);
            &&& sync::pulled(poller, reply, paused) == sync::PullView::Skip
            &&& sync::after_reply(poller, reply, paused) == poller
        }),
{
    law_client_reads_the_version(204, version);
}

/// A client survives a restart of the server. What it has seen is above the version
/// of the new server, so it is answered at once. It applies nothing, and from then
/// on waits for the first clip of the new server.
pub proof fn law_restart_resets_the_client(
    seen: u64,
    timeout_ms: u64,
    waited_ns: nat,
    paused: bool,
)
    requires
        seen > 0,
    ensures
        ({
            let poll = server::LongPoll { since: Some(seen), timeout_ms };
            let poller = sync::has_seen(seen);
            &&& server::new_state().get(poll, waited_ns) matches server::StepView::Answer(reply)
            &&& sync::pulled(poller, received(reply), paused) == sync::PullView::Skip
            &&& sync::after_reply(poller, received(reply), paused) == sync::has_seen(0)
        }),
{
    law_client_reads_the_clip(server::new_state().clip);
}

// ------------------------------------------------------------------ the selftest

/// The server after a request.
pub open spec fn served(state: server::StateView, request: client::RequestView) -> server::StateView {
    if request.method == server::Method::Post {
        state.after_post(request.mime->0, Some(request.body))
    } else {
        state
    }
}

/// What the server does with a request that has waited this long.
pub open spec fn serves(
    state: server::StateView,
    request: client::RequestView,
    waited_ns: nat,
) -> server::StepView {
    if request.method == server::Method::Post {
        server::StepView::Answer(state.post_reply(request.mime->0, Some(request.body)))
    } else {
        let since = match server::since_in(request.url) {
            Some(v) => Some(v as u64),
            None => None,
        };
        state.get(server::LongPoll { since, timeout_ms: state.poll_ms }, waited_ns)
    }
}

/// The selftest and the server that it talks to.
pub struct Run {
    pub script: selftest::ScriptView,
    pub server: server::StateView,
}

impl Run {
    /// The request that the selftest waits for the answer of.
    pub open spec fn asked(self, url: Seq<char>) -> client::RequestView {
        match self.script.action(url) {
            selftest::ActionView::Ask(r) => r,
            selftest::ActionView::AskWhile(r, _) => r,
            _ => arbitrary(),
        }
    }

    /// The server when it answers: what is sent meanwhile has come.
    pub open spec fn meanwhile(self, url: Seq<char>) -> server::StateView {
        match self.script.action(url) {
            selftest::ActionView::AskWhile(_, s) => served(self.server, s),
            _ => self.server,
        }
    }

    /// What the server does with that request after this many milliseconds.
    pub open spec fn step(self, url: Seq<char>, waited_ms: u64) -> server::StepView {
        serves(self.meanwhile(url), self.asked(url), waited_ms as nat * 1_000_000)
    }

    /// What the selftest takes the answer for.
    pub open spec fn answer(self, url: Seq<char>, waited_ms: u64) -> client::RespView {
        received(self.step(url, waited_ms)->Answer_0)->Ok_0
    }

    /// The run after the next action of the script.
    pub open spec fn next(self, url: Seq<char>, waited_ms: u64) -> Run {
        match self.script.action(url) {
            selftest::ActionView::Rules => Run { script: self.script.after_rules(), ..self },
            selftest::ActionView::Finish => self,
            _ => Run {
                script: self.script.next(self.answer(url, waited_ms)),
                server: served(self.meanwhile(url), self.asked(url)),
            },
        }
    }

    /// True if the server answers after this many milliseconds, the client reads the
    /// answer, and every check of it passes.
    pub open spec fn passes(self, url: Seq<char>, waited_ms: u64) -> bool {
        &&& self.step(url, waited_ms) matches server::StepView::Answer(reply)
        &&& received(reply) is Ok
        &&& forall|k: int|
            #![trigger self.script.checks(self.answer(url, waited_ms), waited_ms)[k]]
            0 <= k < self.script.checks(self.answer(url, waited_ms), waited_ms).len()
                ==> self.script.checks(self.answer(url, waited_ms), waited_ms)[k].ok
    }
}

/// The run after `n` actions, whose answers took these many milliseconds.
pub open spec fn run_after(url: Seq<char>, waited: Seq<u64>, n: nat) -> Run
    decreases n,
{
    if n == 0 {
        Run {
            script: selftest::new_script(),
            server: server::StateView {
                poll_ms: selftest::SELFTEST_POLL_MS,
                ..server::new_state()
            },
        }
    } else {
        run_after(url, waited, (n - 1) as nat).next(url, waited[n - 1])
    }
}

/// True of times that the answers can take: the other thread pushes after its delay,
/// the long poll that nothing ends lasts for its timeout, and an answer that is given
/// at once does not take a second.
pub open spec fn plausible(waited: Seq<u64>) -> bool {
    &&& waited.len() == 18
    &&& waited[10] >= selftest::OTHER_DELAY_MS
    &&& waited[12] >= selftest::SELFTEST_POLL_MS
    &&& waited[17] < 1000
}

/// The clip that the server holds after `n` actions of the selftest.
spec fn clip_after(n: nat) -> server::ClipView {
    if n <= 1 {
        server::new_state().clip
    } else if n <= 4 {
        server::ClipView { version: 1, body: encode_utf8("hello"@), mime: payload::TEXT_MIME@ }
    } else if n <= 6 {
        server::ClipView { version: 2, body: encode_utf8("world"@), mime: payload::TEXT_MIME@ }
    } else if n <= 8 {
        server::ClipView {
            version: 3,
            body: selftest::filled(120, 1000),
            mime: payload::TEXT_MIME@,
        }
    } else if n <= 10 {
        server::ClipView { version: 4, body: selftest::red_dot(), mime: payload::PNG_MIME@ }
    } else {
        server::ClipView {
            version: 5,
            body: encode_utf8(selftest::OTHER_TEXT@),
            mime: payload::TEXT_MIME@,
        }
    }
}

/// The run after `n` actions of the selftest.
spec fn expected(n: nat) -> Run {
    Run {
        script: selftest::ScriptView {
            step: n as u8,
            noted: if n <= 8 {
                0
            } else if n <= 11 {
                4
            } else {
                5
            },
        },
        server: server::StateView { clip: clip_after(n), poll_ms: selftest::SELFTEST_POLL_MS },
    }
}

proof fn lemma_bodies()
    ensures
        encode_utf8("hello"@).len() == 5,
        encode_utf8("world"@).len() == 5,
        encode_utf8(selftest::OTHER_TEXT@).len() == 26,
        encode_utf8("hello"@)[0] != encode_utf8("world"@)[0],
        payload::TEXT_MIME@.len() != payload::PNG_MIME@.len(),
        is_shown(payload::TEXT_MIME@),
        is_shown(payload::PNG_MIME@),
        payload::PNG_MIME@.is_prefix_of(payload::PNG_MIME@),
{
    reveal_strlit("hello");
    reveal_strlit("world");
    reveal_strlit("pushed by the other thread");
    reveal_strlit("text/plain; charset=utf-8");
    reveal_strlit("image/png");
    is_ascii_chars_encode_utf8("hello"@);
    is_ascii_chars_encode_utf8("world"@);
    is_ascii_chars_encode_utf8(selftest::OTHER_TEXT@);
    assert("hello"@[0] as u8 == encode_utf8("hello"@)[0]);
    assert("world"@[0] as u8 == encode_utf8("world"@)[0]);
    assert(payload::PNG_MIME@ =~= payload::PNG_MIME@.subrange(0, payload::PNG_MIME@.len() as int));
}

/// One action of the selftest, from where the actions before it have led.
proof fn lemma_selftest_step(url: Seq<char>, waited: Seq<u64>, n: nat)
    requires
        !url.contains('?'),
        selftest::red_dot().len() <= server::MAX_BODY,
        plausible(waited),
        n < 18,
    ensures
        n != 15 ==> expected(n).passes(url, waited[n as int]),
        expected(n).next(url, waited[n as int]) == expected(n + 1),
{
    let run = expected(n);
    lemma_bodies();
    law_since_round_trip(url, None, selftest::SHORT_MS);
    law_since_round_trip(url, Some(run.script.noted), selftest::SHORT_MS);
    law_since_round_trip(url, Some(505), selftest::SHORT_MS);
    law_client_reads_the_clip(clip_after(n));
    law_client_reads_the_clip(clip_after(n + 1));
    law_client_reads_the_version(204, 5);
    law_client_reads_the_version(200, clip_after(n + 1).version);
    assert(payload::TEXT_MIME@ != payload::PNG_MIME@);
    assert(encode_utf8("hello"@) != encode_utf8("world"@));
    assert(selftest::filled(120, 1000).len() == 1000);
    assert(selftest::filled(122, (server::MAX_BODY + 1) as nat).len() == server::MAX_BODY + 1);
}

/// The run of the selftest is as expected, action by action.
proof fn lemma_selftest_run(url: Seq<char>, waited: Seq<u64>, n: nat)
    requires
        !url.contains('?'),
        selftest::red_dot().len() <= server::MAX_BODY,
        plausible(waited),
        n <= 18,
    ensures
        run_after(url, waited, n) == expected(n),
    decreases n,
{
    if n > 0 {
        lemma_selftest_run(url, waited, (n - 1) as nat);
        lemma_selftest_step(url, waited, (n - 1) as nat);
    }
}

/// The server passes the selftest: every check of every answer holds, and the script
/// comes to its end. Before the push of the other thread, and before the timeout of the
/// long poll that nothing ends, the server lets the client wait.
pub proof fn law_server_passes_the_selftest(url: Seq<char>, waited: Seq<u64>, early_ms: u64)
    requires
        !url.contains('?'),
        selftest::red_dot().len() <= server::MAX_BODY,
        plausible(waited),
        early_ms < selftest::SELFTEST_POLL_MS,
    ensures
        forall|n: nat|
            n < 18 && n != 15 ==> (#[trigger] run_after(url, waited, n)).passes(
                url,
                waited[n as int],
            ),
        run_after(url, waited, 15).script.action(url) is Rules,
        run_after(url, waited, 18).script.action(url) is Finish,
        ({
            let run = run_after(url, waited, 10);
            serves(run.server, run.asked(url), early_ms as nat * 1_000_000) is Wait
        }),
        run_after(url, waited, 12).step(url, early_ms) is Wait,
{
    assert forall|n: nat| n < 18 && n != 15 implies (#[trigger] run_after(
        url,
        waited,
        n,
    )).passes(url, waited[n as int]) by {
        lemma_selftest_run(url, waited, n);
        lemma_selftest_step(url, waited, n);
    }
    lemma_selftest_run(url, waited, 10);
    lemma_selftest_run(url, waited, 12);
    lemma_selftest_run(url, waited, 15);
    lemma_selftest_run(url, waited, 18);
    law_since_round_trip(url, Some(4), selftest::SHORT_MS);
    law_since_round_trip(url, Some(5), selftest::SHORT_MS);
}

} // verus!
