//! What holds of the sync, clip by clip.

use crate::client;
use crate::image;
use crate::laws;
use crate::laws::clips;
use crate::outside;
use crate::payload;
use crate::server;
use crate::sync;
use crate::text;
use std::collections::hash_map::DefaultHasher;
use vstd::prelude::*;
use vstd::std_specs::hash::*;
use vstd::utf8::*;

verus! {

// --------------------------------------------------------------------- the pull

/// Whatever reply a client gets, and in whatever state it is, it has then seen the version
/// of that reply, and its next request waits for the end of it.
pub proof fn law_every_reply_moves_the_version(
    poller: sync::PollerView,
    r: client::RespView,
    paused: bool,
    url: Seq<char>,
)
    ensures
        ({
            let after = sync::after_reply(poller, Ok(r), paused);
            let next = sync::next_request(after, url);
            &&& after.seen == Some(r.version)
            &&& after.met
            &&& next.method == server::Method::Get
            &&& next.url == url + "?since="@ + text::decimal(r.version as nat)
            &&& next.timeout_ms == 315_000
        }),
{
}

/// A client that has seen no version asks for the clip at once, and for no longer than ten
/// seconds.
pub proof fn law_first_request_does_not_wait(poller: sync::PollerView, url: Seq<char>)
    requires
        poller.seen is None,
    ensures
        ({
            let next = sync::next_request(poller, url);
            &&& next.method == server::Method::Get
            &&& next.url == url
            &&& next.timeout_ms == 10_000
        }),
        sync::new_poller().seen is None,
        !sync::new_poller().met,
{
}

/// A clip is applied once. After a client took the answer that carried it, the same server
/// lets its next request wait, or tells it that nothing changed. What it then tells is not
/// applied, and leaves the client where it was.
pub proof fn law_clip_is_applied_once(
    poller: sync::PollerView,
    state: server::StateView,
    first: server::LongPoll,
    first_ns: nat,
    paused: bool,
    url: Seq<char>,
    waited_ns: nat,
    paused_then: bool,
)
    requires
        state.clip.body.len() <= server::MAX_BODY,
        first.since != Some(state.clip.version),
        !url.contains('?'),
    ensures
        state.get(first, first_ns) matches server::StepView::Answer(reply) && ({
            let now = sync::after_reply(poller, laws::received(reply), paused);
            let asked = server::since_in(sync::next_request(now, url).url);
            let again = server::LongPoll {
                since: Some(state.clip.version),
                timeout_ms: state.poll_ms,
            };
            &&& asked == Some(state.clip.version as nat)
            &&& match state.get(again, waited_ns) {
                server::StepView::Wait(_) => true,
                server::StepView::Answer(told) => {
                    &&& told.status == 204
                    &&& sync::pulled(now, laws::received(told), paused_then)
                        == sync::PullView::Skip
                    &&& sync::after_reply(now, laws::received(told), paused_then).seen == Some(
                        state.clip.version,
                    )
                },
            }
        }),
{
    laws::law_client_reads_the_clip(state.clip);
    laws::law_client_reads_the_version(204, state.clip.version);
    laws::law_since_round_trip(url, Some(state.clip.version), sync::LONG_POLL_TIMEOUT_MS);
    law_every_reply_moves_the_version(
        poller,
        laws::received(server::clip_reply(state.clip))->Ok_0,
        paused,
        url,
    );
}

/// A client that has seen a version, and is not paused, applies every clip that it is sent
/// with status 200, whole and as what its mime type says: an image as these bytes, and text
/// that is written as these bytes.
pub proof fn law_sent_clip_is_applied_whole(poller: sync::PollerView, r: client::RespView)
    requires
        poller.seen is Some,
        r.status == 200,
        r.body.len() > 0,
    ensures
        sync::pulled(poller, Ok(r), false) matches sync::PullView::Apply(clip) && {
            &&& r.mime.len() >= 9 && r.mime.take(9) == "image/png"@ ==> clip
                == payload::PayloadView::Png(r.body)
            &&& !(r.mime.len() >= 9 && r.mime.take(9) == "image/png"@) && valid_utf8(r.body)
                ==> clip is Text && encode_utf8(clip->Text_0) == r.body
        },
{
    clips::law_clip_arrives_whole(r.mime, r.body);
}

/// Nothing else is applied: not in a pause, not at first, not without status 200 or without
/// a body.
pub proof fn law_nothing_else_is_applied(
    poller: sync::PollerView,
    r: client::RespView,
    paused: bool,
)
    requires
        paused || poller.seen is None || r.status != 200 || r.body.len() == 0,
    ensures
        sync::pulled(poller, Ok(r), paused) == sync::PullView::Skip,
{
}

/// A failure is tried again, and reported only as long as there was no reply. It leaves
/// what the client has seen, except that a pause makes it forget that.
pub proof fn law_failure_is_tried_again(poller: sync::PollerView, error: Seq<char>, paused: bool)
    ensures
        poller.met ==> sync::pulled(poller, Err(error), paused) == sync::PullView::Retry(None),
        !poller.met ==> sync::pulled(poller, Err(error), paused) == sync::PullView::Retry(
            Some("server not reachable: "@ + error),
        ),
        sync::after_reply(poller, Err(error), paused).seen == if paused {
            None
        } else {
            poller.seen
        },
        sync::after_reply(poller, Err(error), paused).met == poller.met,
        sync::forgotten(poller).seen is None,
        sync::forgotten(poller).met == poller.met,
{
}

// --------------------------------------------------------------------- the push

/// Each new copy is pushed: when a look has found one clip, and the next look, with none
/// between them or some that found nothing, finds another, then that one is posted, all of
/// it and under its mime type. The one exception is that the hasher gives the same number
/// for what it is given of both, which is never the same.
pub proof fn law_new_copy_is_pushed(
    last: u64,
    a: payload::PayloadView,
    b: payload::PayloadView,
    url: Seq<char>,
)
    requires
        DefaultHasher::spec_finish(clips::hashed(a)) != DefaultHasher::spec_finish(
            clips::hashed(b),
        ),
        0 < b.bytes().len() <= 33_554_432,
    ensures
        a != b ==> clips::hashed(a) != clips::hashed(b),
        ({
            let after = sync::after_poll(last, Some(a));
            let later = sync::after_poll(after, None);
            let found = sync::polled(later, Some(b));
            &&& found == Some(b)
            &&& sync::polled(after, Some(b)) == Some(b)
            &&& sync::outgoing_request(url, found, false) matches Some(request) && {
                &&& request.method == server::Method::Post
                &&& request.url == url
                &&& request.timeout_ms == 30_000
                &&& match b {
                    payload::PayloadView::Text(t) => {
                        &&& request.mime == Some("text/plain; charset=utf-8"@)
                        &&& request.body == encode_utf8(t)
                    },
                    payload::PayloadView::Png(png) => {
                        &&& request.mime == Some("image/png"@)
                        &&& request.body == png
                    },
                }
            }
        }),
{
    clips::law_hash_stands_for_the_whole_clip(a, b);
}

/// What lay on the pasteboard when a client started is not pushed, and what is copied then
/// is.
pub proof fn law_start_pushes_only_what_is_copied_then(
    a: payload::PayloadView,
    b: payload::PayloadView,
)
    requires
        DefaultHasher::spec_finish(clips::hashed(a)) != DefaultHasher::spec_finish(
            clips::hashed(b),
        ),
    ensures
        sync::polled(sync::token(Some(a)), Some(a)) is None,
        sync::polled(sync::token(Some(a)), Some(b)) == Some(b),
        DefaultHasher::spec_finish(clips::hashed(b)) != 0 ==> sync::polled(
            sync::token(None),
            Some(b),
        ) == Some(b),
{
    clips::law_hash_stands_for_the_whole_clip(a, b);
}

/// A copy is found once: the next look at the same clip finds nothing new. A look that
/// finds nothing leaves what the watcher knows.
pub proof fn law_copy_is_found_once(last: u64, p: payload::PayloadView)
    ensures
        sync::polled(sync::after_poll(last, Some(p)), Some(p)) is None,
        sync::after_poll(last, Some(p)) == DefaultHasher::spec_finish(clips::hashed(p)),
        sync::polled(last, None) is None,
        sync::after_poll(last, None) == last,
{
    clips::law_hash_stands_for_the_whole_clip(p, p);
}

/// A pause, an empty clip and one over the cap are the only reasons not to push.
pub proof fn law_what_is_not_pushed(
    url: Seq<char>,
    clip: Option<payload::PayloadView>,
    paused: bool,
)
    ensures
        sync::outgoing_request(url, clip, paused) is None <==> {
            ||| clip is None
            ||| paused
            ||| clip->0.bytes().len() == 0
            ||| clip->0.bytes().len() > 33_554_432
        },
{
}

// --------------------------------------------------------------- the pasteboard

/// Text that is not empty is the clip of a pasteboard, all of it and whatever image there
/// is. Without such text the image is, all of it, where there is one.
pub proof fn law_text_goes_before_an_image(
    text: Seq<char>,
    image: Option<Seq<u8>>,
    png: Seq<u8>,
)
    ensures
        text.len() > 0 ==> sync::pasteboard_clip(Some(text), image) == Some(
            payload::PayloadView::Text(text),
        ),
        text.len() == 0 ==> sync::pasteboard_clip(Some(text), Some(png)) == Some(
            payload::PayloadView::Png(png),
        ),
        text.len() == 0 ==> sync::pasteboard_clip(Some(text), None) is None,
        sync::pasteboard_clip(None, Some(png)) == Some(payload::PayloadView::Png(png)),
        sync::pasteboard_clip(None, None) is None,
{
}

/// A clip is pasted whole: text as this text, an image as all the pixels that its PNG
/// decodes to. An image that cannot be decoded is not pasted.
pub proof fn law_clip_is_pasted_whole(text: Seq<char>, png: Seq<u8>)
    ensures
        sync::paste_of(payload::PayloadView::Text(text)) == Ok::<sync::PasteView, Seq<char>>(
            sync::PasteView::Text(text),
        ),
        match image::png_pixels(png) {
            Ok((width, height, rgba)) => sync::paste_of(payload::PayloadView::Png(png)) == Ok::<
                sync::PasteView,
                Seq<char>,
            >(sync::PasteView::Image { width, height, rgba }),
            Err(e) => sync::paste_of(payload::PayloadView::Png(png)) == Err::<
                sync::PasteView,
                Seq<char>,
            >(e),
        },
{
}

/// The pixels of a pasteboard are read as the PNG that the encoder makes of all of them.
pub proof fn law_pixels_are_read_whole(width: u32, height: u32, rgba: Seq<u8>, png: Seq<u8>)
    ensures
        image::is_countable(width, height) && outside::png_encoded(width, height, rgba) == Ok::<
            Seq<u8>,
            Seq<char>,
        >(png) ==> sync::png_of(width, height, rgba) == Some(png),
        outside::png_encoded(width, height, rgba) is Err ==> sync::png_of(width, height, rgba)
            is None,
        !image::is_countable(width, height) ==> sync::png_of(width, height, rgba) is None,
{
}

/// What a client applied is no local change, by what the pasteboard then gives: the text
/// that was pasted, or the PNG of the pixels that were pasted, whatever PNG they came from.
pub proof fn law_applied_clip_is_no_local_change(
    text: Seq<char>,
    png: Seq<u8>,
    width: usize,
    height: usize,
    rgba: Seq<u8>,
)
    requires
        text.len() > 0,
        image::png_pixels(png) == Ok::<(usize, usize, Seq<u8>), Seq<char>>((width, height, rgba)),
    ensures
        sync::polled(
            sync::mark_of(payload::PayloadView::Text(text)),
            sync::pasteboard_clip(Some(text), None),
        ) is None,
        sync::polled(
            sync::mark_of(payload::PayloadView::Png(png)),
            sync::pasteboard_clip(None, sync::png_of(width as u32, height as u32, rgba)),
        ) is None,
{
}

/// The mark of an applied clip hides that clip alone: a copy of anything else is a local
/// change.
pub proof fn law_mark_hides_one_clip(
    p: payload::PayloadView,
    read: payload::PayloadView,
    b: payload::PayloadView,
)
    requires
        sync::read_back(p) == Some(read),
        DefaultHasher::spec_finish(clips::hashed(read)) != DefaultHasher::spec_finish(
            clips::hashed(b),
        ),
    ensures
        sync::polled(sync::mark_of(p), Some(b)) == Some(b),
{
    clips::law_hash_stands_for_the_whole_clip(read, b);
}

/// Where nothing comes back of an applied clip, its own hash is the mark: where it is empty
/// text, or an image that cannot be pasted or read again.
pub proof fn law_clip_that_does_not_come_back_is_marked_itself(
    text: Seq<char>,
    png: Seq<u8>,
    width: usize,
    height: usize,
    rgba: Seq<u8>,
)
    ensures
        ({
            let p = payload::PayloadView::Text(text);
            text.len() == 0 ==> sync::read_back(p) is None && sync::mark_of(p)
                == DefaultHasher::spec_finish(clips::hashed(p))
        }),
        text.len() > 0 ==> sync::read_back(payload::PayloadView::Text(text)) == Some(
            payload::PayloadView::Text(text),
        ),
        ({
            let p = payload::PayloadView::Png(png);
            let pasted = image::png_pixels(png) == Ok::<(usize, usize, Seq<u8>), Seq<char>>(
                (width, height, rgba),
            );
            image::png_pixels(png) is Err || (pasted && sync::png_of(
                width as u32,
                height as u32,
                rgba,
            ) is None) ==> sync::read_back(p) is None && sync::mark_of(p)
                == DefaultHasher::spec_finish(clips::hashed(p))
        }),
{
    let p = payload::PayloadView::Text(text);
    let q = payload::PayloadView::Png(png);
    clips::law_hash_stands_for_the_whole_clip(p, q);
}

/// What comes back of an applied image is the PNG of the pixels that it decodes to.
pub proof fn law_image_comes_back_by_its_pixels(
    png: Seq<u8>,
    width: usize,
    height: usize,
    rgba: Seq<u8>,
    back: Seq<u8>,
)
    requires
        image::png_pixels(png) == Ok::<(usize, usize, Seq<u8>), Seq<char>>((width, height, rgba)),
        image::is_countable(width as u32, height as u32),
        outside::png_encoded(width as u32, height as u32, rgba) == Ok::<Seq<u8>, Seq<char>>(back),
    ensures
        sync::read_back(payload::PayloadView::Png(png)) == Some(payload::PayloadView::Png(back)),
{
}

// ------------------------------------------------------------------- the views

/// What contracts say of clips, requests, replies and pulls, they say of all that these
/// hold.
pub proof fn law_sync_views_leave_nothing_out(
    clip: payload::Payload,
    text: String,
    rgba: Vec<u8>,
    width: usize,
    height: usize,
    request: client::Request,
    resp: client::Resp,
    report: Option<String>,
)
    ensures
        sync::clip_view(Some(clip)) == Some(clip@),
        sync::clip_view(None) is None,
        sync::text_view(Some(text)) == Some(text@),
        sync::text_view(None) is None,
        sync::request_view(Some(request)) == Some(request@),
        sync::request_view(None) is None,
        sync::reply_view(Ok(resp)) == Ok::<client::RespView, Seq<char>>(resp@),
        sync::reply_view(Err(text)) == Err::<client::RespView, Seq<char>>(text@),
        sync::Paste::Text(text)@ == sync::PasteView::Text(text@),
        (sync::Paste::Image { width, height, rgba })@ == (sync::PasteView::Image {
            width,
            height,
            rgba: rgba@,
        }),
        sync::Pull::Apply(clip)@ == sync::PullView::Apply(clip@),
        sync::Pull::Skip@ == sync::PullView::Skip,
        sync::Pull::Retry(report)@ == sync::PullView::Retry(sync::text_view(report)),
{
}

} // verus!
