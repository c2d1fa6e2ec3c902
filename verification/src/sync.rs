//! The two way sync: the pasteboard on one side, the server on the other.
//!
//! The pasteboard, the network and the clock are not here. What is here decides
//! what to do with what came from them.

use crate::client;
use crate::client::{fetch, push, Request, Resp, FETCH_TIMEOUT_MS, PUSH_TIMEOUT_MS};
use crate::image;
use crate::image::{countable, decode_png, encode_png};
use crate::outside;
use crate::payload;
use crate::payload::Payload;
use crate::server::{MAX_BODY, POLL_TIMEOUT};
use vstd::prelude::*;

verus! {

/// How often the pasteboard is looked at, in milliseconds.
pub const WATCH_TICK_MS: u64 = 500;

/// How long the client waits after a failed call before it tries again, in
/// milliseconds.
pub const RETRY_WAIT_MS: u64 = 2000;

/// How long the client waits for the end of a long poll, in milliseconds: longer
/// than the server lets it last.
pub const LONG_POLL_TIMEOUT_MS: u64 = (POLL_TIMEOUT + 15) * 1000;

/// What a clip holds, where there is one.
pub open spec fn clip_view(clip: Option<Payload>) -> Option<payload::PayloadView> {
    match clip {
        Some(p) => Some(p@),
        None => None,
    }
}

// ------------------------------------------------------------- the pasteboard

/// The clip of a pasteboard, by the text and the image it gave. Text goes first,
/// because it is cheap. Empty text is no text.
pub open spec fn pasteboard_clip(
    text: Option<Seq<char>>,
    image: Option<Seq<u8>>,
) -> Option<payload::PayloadView> {
    match text {
        Some(t) => if t.len() > 0 {
            Some(payload::PayloadView::Text(t))
        } else {
            image_clip(image)
        },
        None => image_clip(image),
    }
}

/// The clip of an image, where there is one.
pub open spec fn image_clip(image: Option<Seq<u8>>) -> Option<payload::PayloadView> {
    match image {
        Some(b) => Some(payload::PayloadView::Png(b)),
        None => None,
    }
}

/// What text holds, where there is text.
pub open spec fn text_view(text: Option<String>) -> Option<Seq<char>> {
    match text {
        Some(t) => Some(t@),
        None => None,
    }
}

/// True if the text that the pasteboard gave is no clip, so that its image has to
/// be read.
pub fn needs_image(text: &Option<String>) -> (needs: bool)
    ensures
        needs == (pasteboard_clip(text_view(*text), None) is None),
{
    match text {
        Some(t) => t.as_str().is_empty(),
        None => true,
    }
}

/// The PNG of the pixels of a pasteboard, where there is one. Pixels that are more than
/// the machine can count have none.
pub open spec fn png_of(width: u32, height: u32, rgba: Seq<u8>) -> Option<Seq<u8>> {
    if image::is_countable(width, height) {
        match outside::png_encoded(width, height, rgba) {
            Ok(b) => Some(b),
            Err(_) => None,
        }
    } else {
        None
    }
}

/// Turns the pixels of the pasteboard into a PNG, where that can be done.
pub fn read_image(width: usize, height: usize, rgba: &[u8]) -> (png: Option<Vec<u8>>)
    ensures
        client::value_view(png) == png_of(width as u32, height as u32, rgba@),
        png is Some <==> image::is_countable(width as u32, height as u32) && width as u32 > 0
            && height as u32 > 0 && rgba@.len() == outside::rgba_len(width as u32, height as u32),
{
    if !countable(width, height) {
        return None;
    }
    match encode_png(width, height, rgba) {
        Ok(b) => Some(b),
        Err(_) => None,
    }
}

/// The clip of a pasteboard, by the text and the image it gave.
pub fn read_clipboard(text: Option<String>, image: Option<Vec<u8>>) -> (clip: Option<Payload>)
    ensures
        clip_view(clip) == pasteboard_clip(text_view(text), client::value_view(image)),
{
    match text {
        Some(t) => if !t.as_str().is_empty() {
            return Some(Payload::Text(t));
        },
        None => {},
    }
    match image {
        Some(b) => Some(Payload::Png(b)),
        None => None,
    }
}

/// What is to be put on a pasteboard.
pub enum Paste {
    Text(String),
    Image { width: usize, height: usize, rgba: Vec<u8> },
}

/// What a paste holds.
pub enum PasteView {
    Text(Seq<char>),
    Image { width: usize, height: usize, rgba: Seq<u8> },
}

impl View for Paste {
    type V = PasteView;

    open spec fn view(&self) -> PasteView {
        match self {
            Paste::Text(t) => PasteView::Text(t@),
            Paste::Image { width, height, rgba } => PasteView::Image {
                width: *width,
                height: *height,
                rgba: rgba@,
            },
        }
    }
}

/// What is to be put on a pasteboard that takes pixels, or why it cannot be.
pub open spec fn paste_of(p: payload::PayloadView) -> Result<PasteView, Seq<char>> {
    match p {
        payload::PayloadView::Text(t) => Ok(PasteView::Text(t)),
        payload::PayloadView::Png(b) => match image::png_pixels(b) {
            Ok((width, height, rgba)) => Ok(PasteView::Image { width, height, rgba }),
            Err(e) => Err(e),
        },
    }
}

/// Makes a clip ready for a pasteboard that takes text and pixels.
pub fn write_clipboard(p: &Payload) -> (paste: Result<Paste, String>)
    ensures
        match paste {
            Ok(w) => paste_of(p@) == Ok::<PasteView, Seq<char>>(w@),
            Err(e) => paste_of(p@) == Err::<PasteView, Seq<char>>(e@),
        },
{
    match p {
        Payload::Text(t) => Ok(Paste::Text(t.clone())),
        Payload::Png(b) => match decode_png(b.as_slice()) {
            Ok((width, height, rgba)) => Ok(Paste::Image { width, height, rgba }),
            Err(e) => Err(e),
        },
    }
}

/// What a pasteboard that takes text and pixels gives back of a clip that was put on
/// it. An image is encoded anew, so its PNG may be another one than was pasted.
pub open spec fn read_back(p: payload::PayloadView) -> Option<payload::PayloadView> {
    match paste_of(p) {
        Ok(PasteView::Text(t)) => pasteboard_clip(Some(t), None),
        Ok(PasteView::Image { width, height, rgba }) => pasteboard_clip(
            None,
            png_of(width as u32, height as u32, rgba),
        ),
        Err(_) => None,
    }
}

fn clip_read_back(p: &Payload) -> (clip: Option<Payload>)
    ensures
        clip_view(clip) == read_back(p@),
{
    match write_clipboard(p) {
        Ok(Paste::Text(t)) => read_clipboard(Some(t), None),
        Ok(Paste::Image { width, height, rgba }) => read_clipboard(
            None,
            read_image(width, height, rgba.as_slice()),
        ),
        Err(_) => None,
    }
}

// --------------------------------------------------------- change detection

/// Tracks the last state of the pasteboard that this process knows of.
///
/// A remote clip is marked the moment it is applied, as the pasteboard gives it
/// back. The watcher then does not take it for a local change, so two hosts never
/// push to each other forever.
///
/// The state is a number. On a platform that counts the changes of its
/// pasteboard, it is that count. Elsewhere it is the hash of the clip.
pub struct Watcher {
    last: u64,
}

impl View for Watcher {
    type V = u64;

    closed spec fn view(&self) -> u64 {
        self.last
    }
}

/// The number that stands for what a pasteboard holds.
pub open spec fn token(clip: Option<payload::PayloadView>) -> u64 {
    match clip {
        Some(p) => p.hash64(),
        None => 0,
    }
}

/// The number that stands for a clip that was put on a pasteboard: that of what the
/// pasteboard gives back of it, where it gives anything back.
pub open spec fn mark_of(p: payload::PayloadView) -> u64 {
    match read_back(p) {
        Some(q) => token(Some(q)),
        None => token(Some(p)),
    }
}

/// The clip that a watcher takes for a local change.
pub open spec fn polled(last: u64, clip: Option<payload::PayloadView>) -> Option<
    payload::PayloadView,
> {
    match clip {
        Some(p) => if p.hash64() == last {
            None
        } else {
            Some(p)
        },
        None => None,
    }
}

/// What a watcher knows after it has seen this clip. A pasteboard without a clip
/// tells it nothing.
pub open spec fn after_poll(last: u64, clip: Option<payload::PayloadView>) -> u64 {
    match clip {
        Some(p) => p.hash64(),
        None => last,
    }
}

impl Watcher {
    /// A watcher that knows this clip.
    pub fn new(clip: &Option<Payload>) -> (watcher: Watcher)
        ensures
            watcher@ == token(clip_view(*clip)),
    {
        match clip {
            Some(p) => Watcher { last: p.hash64() },
            None => Watcher { last: 0 },
        }
    }

    /// Returns the clip of the pasteboard if it changed since the last call.
    pub fn poll(&mut self, clip: Option<Payload>) -> (changed: Option<Payload>)
        ensures
            final(self)@ == after_poll(old(self)@, clip_view(clip)),
            clip_view(changed) == polled(old(self)@, clip_view(clip)),
    {
        match clip {
            Some(p) => {
                let h: u64 = p.hash64();
                if h == self.last {
                    return None;
                }
                self.last = h;
                Some(p)
            },
            None => None,
        }
    }

    /// Records a clip that this process wrote, so that the watcher ignores it when it
    /// reads it back.
    pub fn mark_written(&mut self, p: &Payload)
        ensures
            final(self)@ == mark_of(p@),
    {
        self.last = match clip_read_back(p) {
            Some(q) => q.hash64(),
            None => p.hash64(),
        };
    }

    /// A watcher that knows this count of changes.
    pub fn at_count(count: u64) -> (watcher: Watcher)
        ensures
            watcher@ == count,
    {
        Watcher { last: count }
    }

    /// True if the count of changes moved since the last call. Only then does the
    /// pasteboard have to be read.
    pub fn poll_count(&mut self, count: u64) -> (moved: bool)
        ensures
            final(self)@ == count,
            moved == (count != old(self)@),
    {
        if count == self.last {
            return false;
        }
        self.last = count;
        true
    }

    /// Records the count of changes after a write of this process, so that the
    /// watcher ignores it.
    pub fn mark_count(&mut self, count: u64)
        ensures
            final(self)@ == count,
    {
        self.last = count;
    }
}

// --------------------------------------------------------------------- the push

/// The request that a local change leads to. A pause, an empty clip and one over
/// the cap lead to none.
pub open spec fn outgoing_request(
    url: Seq<char>,
    clip: Option<payload::PayloadView>,
    paused: bool,
) -> Option<client::RequestView> {
    match clip {
        Some(p) => if paused || p.bytes().len() == 0 || p.bytes().len() > MAX_BODY {
            None
        } else {
            Some(client::push_request(url, p.mime(), p.bytes(), PUSH_TIMEOUT_MS))
        },
        None => None,
    }
}

/// What a request holds, where there is one.
pub open spec fn request_view(request: Option<Request>) -> Option<client::RequestView> {
    match request {
        Some(r) => Some(r@),
        None => None,
    }
}

/// The request that a local change leads to.
pub fn outgoing(url: &str, clip: &Option<Payload>, paused: bool) -> (request: Option<Request>)
    ensures
        request_view(request) == outgoing_request(url@, clip_view(*clip), paused),
{
    match clip {
        Some(p) => if paused || p.is_empty() || p.bytes().len() > MAX_BODY {
            None
        } else {
            Some(push(url, p.mime(), p.bytes(), PUSH_TIMEOUT_MS))
        },
        None => None,
    }
}

/// One look at the pasteboard: the request that it leads to.
///
/// The watcher sees the clip even in a pause. So a clip that was copied in a pause
/// is not pushed after it.
pub fn watch_tick(
    watcher: &mut Watcher,
    url: &str,
    clip: Option<Payload>,
    paused: bool,
) -> (request: Option<Request>)
    ensures
        final(watcher)@ == after_poll(old(watcher)@, clip_view(clip)),
        request_view(request) == outgoing_request(
            url@,
            polled(old(watcher)@, clip_view(clip)),
            paused,
        ),
{
    let changed = watcher.poll(clip);
    outgoing(url, &changed, paused)
}

// --------------------------------------------------------------------- the pull

/// The side of the client that waits for the clips of others: the version that it has
/// seen, unless it has seen none or has forgotten it, and whether it ever had a reply.
pub struct Poller {
    seen: Option<u64>,
    met: bool,
}

/// What a poller holds.
pub struct PollerView {
    pub seen: Option<u64>,
    pub met: bool,
}

impl View for Poller {
    type V = PollerView;

    closed spec fn view(&self) -> PollerView {
        PollerView { seen: self.seen, met: self.met }
    }
}

/// What a reply leads to.
pub enum Pull {
    /// Wait a moment and ask again. There may be something to report first.
    Retry(Option<String>),
    /// Ask again.
    Skip,
    /// Put this clip on the pasteboard, and ask again.
    Apply(Payload),
}

/// What a pull holds.
pub enum PullView {
    Retry(Option<Seq<char>>),
    Skip,
    Apply(payload::PayloadView),
}

impl View for Pull {
    type V = PullView;

    open spec fn view(&self) -> PullView {
        match self {
            Pull::Retry(report) => PullView::Retry(text_view(*report)),
            Pull::Skip => PullView::Skip,
            Pull::Apply(p) => PullView::Apply(p@),
        }
    }
}

/// What a reply holds, or why there is none.
pub open spec fn reply_view(reply: Result<Resp, String>) -> Result<client::RespView, Seq<char>> {
    match reply {
        Ok(r) => Ok(r@),
        Err(e) => Err(e@),
    }
}

/// A client that has just started.
pub open spec fn new_poller() -> PollerView {
    PollerView { seen: None, met: false }
}

/// A client that has seen this version.
pub open spec fn has_seen(version: u64) -> PollerView {
    PollerView { seen: Some(version), met: true }
}

/// A client that has forgotten the version that it had seen.
pub open spec fn forgotten(poller: PollerView) -> PollerView {
    PollerView { seen: None, ..poller }
}

/// The next request of the client: for the current version where it has seen none,
/// else for the end of the version that it has seen.
pub open spec fn next_request(poller: PollerView, url: Seq<char>) -> client::RequestView {
    match poller.seen {
        None => client::fetch_request(url, None, FETCH_TIMEOUT_MS),
        Some(v) => client::fetch_request(url, Some(v), LONG_POLL_TIMEOUT_MS),
    }
}

/// The client after a reply. It has seen the version of the reply, whatever else the
/// reply is. Where a request failed in a pause, it forgets the version: what it cannot
/// see now may be a clip of the pause.
pub open spec fn after_reply(
    poller: PollerView,
    reply: Result<client::RespView, Seq<char>>,
    paused: bool,
) -> PollerView {
    match reply {
        Ok(r) => has_seen(r.version),
        Err(_) => if paused {
            forgotten(poller)
        } else {
            poller
        },
    }
}

/// What a reply leads to.
///
/// The first reply to a client that has seen no version only tells the version, so a
/// start never overwrites the local clip. Afterwards a reply is applied if it carries a
/// clip and there is no pause. A failure is reported until the first reply.
pub open spec fn pulled(
    poller: PollerView,
    reply: Result<client::RespView, Seq<char>>,
    paused: bool,
) -> PullView {
    match reply {
        Err(e) => if poller.met {
            PullView::Retry(None)
        } else {
            PullView::Retry(Some("server not reachable: "@ + e))
        },
        Ok(r) => if poller.seen is None || paused || r.status != 200 || r.body.len() == 0 {
            PullView::Skip
        } else {
            PullView::Apply(payload::wire_payload(r.mime, r.body))
        },
    }
}

impl Poller {
    pub fn new() -> (poller: Poller)
        ensures
            poller@ == new_poller(),
    {
        Poller { seen: None, met: false }
    }

    /// The next request.
    pub fn request(&self, url: &str) -> (request: Request)
        ensures
            request@ == next_request(self@, url@),
    {
        match self.seen {
            None => fetch(url, None, FETCH_TIMEOUT_MS),
            Some(v) => fetch(url, Some(v), LONG_POLL_TIMEOUT_MS),
        }
    }

    /// Forgets the version that the client has seen. This is for a pause that was there
    /// while the server could not be reached: a clip that was sent in it must not be
    /// applied when the server is back.
    pub fn forget(&mut self)
        ensures
            final(self)@ == forgotten(old(self)@),
    {
        self.seen = None;
    }

    /// Takes the reply to that request. The pause is the one at the time of the
    /// reply: a long poll lasts, and a pause can begin while it does.
    pub fn take(&mut self, reply: Result<Resp, String>, paused: bool) -> (pull: Pull)
        ensures
            final(self)@ == after_reply(old(self)@, reply_view(reply), paused),
            reply matches Ok(r) ==> final(self)@.seen == Some(r.version),
            pull@ == pulled(old(self)@, reply_view(reply), paused),
    {
        match reply {
            Err(e) => {
                if paused {
                    self.forget();
                }
                if self.met {
                    return Pull::Retry(None);
                }
                let mut report = "server not reachable: ".to_string();
                report.append(e.as_str());
                Pull::Retry(Some(report))
            },
            Ok(r) => {
                let first = self.seen.is_none();
                self.seen = Some(r.version);
                self.met = true;
                if first || paused || r.status != 200 || r.body.len() == 0 {
                    return Pull::Skip;
                }
                Pull::Apply(Payload::from_wire(r.mime.as_str(), r.body))
            },
        }
    }
}

} // verus!
