//! The server: one clip in memory, the long poll, and the answers to requests.
//!
//! The server never touches a pasteboard. It only holds bytes.

use crate::outside;
use crate::outside::{header_line, names_equal, Field};
use crate::payload::TEXT_MIME;
use crate::text;
use crate::text::{chars_of, find_first, has_prefix, unsigned, unsigned_text};
use vstd::prelude::*;
use vstd::slice::slice_subrange;
use vstd::utf8::*;

verus! {

/// A clip larger than this is refused. The clip is held in memory only, so this
/// bounds the memory.
pub const MAX_BODY: usize = 32 * 1024 * 1024;

/// How much of a body is read. Reading beyond the cap keeps the refusal on the
/// same connection, so a client reads a status and not a broken pipe.
pub const READ_LIMIT: u64 = MAX_BODY as u64 * 2;

/// How long a long poll waits before it answers that nothing changed, in seconds.
pub const POLL_TIMEOUT: u64 = 300;

/// The port of a server that is given none.
pub const DEFAULT_PORT: u16 = 8757;

// ------------------------------------------------------------------ the state

/// The clip that the server holds.
pub struct Clip {
    pub version: u64,
    pub body: Vec<u8>,
    pub mime: String,
}

/// What a clip holds.
pub struct ClipView {
    pub version: u64,
    pub body: Seq<u8>,
    pub mime: Seq<char>,
}

impl View for Clip {
    type V = ClipView;

    open spec fn view(&self) -> ClipView {
        ClipView { version: self.version, body: self.body@, mime: self.mime@ }
    }
}

/// The state of a server: the clip, and how long a long poll waits.
pub struct State {
    clip: Clip,
    poll_ms: u64,
}

/// What a state holds.
pub struct StateView {
    pub clip: ClipView,
    pub poll_ms: u64,
}

impl View for State {
    type V = StateView;

    closed spec fn view(&self) -> StateView {
        StateView { clip: self.clip@, poll_ms: self.poll_ms }
    }
}

/// The state of a server that has just started: version 0, and an empty clip of
/// text.
pub open spec fn new_state() -> StateView {
    StateView {
        clip: ClipView { version: 0, body: Seq::empty(), mime: TEXT_MIME@ },
        poll_ms: (POLL_TIMEOUT * 1000) as u64,
    }
}

impl State {
    pub fn new() -> (state: State)
        ensures
            state@ == new_state(),
    {
        let state = State {
            clip: Clip { version: 0, body: Vec::new(), mime: TEXT_MIME.to_string() },
            poll_ms: POLL_TIMEOUT * 1000,
        };
        assert(state@.clip.body =~= Seq::empty());
        state
    }

    /// The clip that the server holds.
    pub fn clip(&self) -> (clip: &Clip)
        ensures
            clip@ == self@.clip,
    {
        &self.clip
    }
}

impl Default for State {
    fn default() -> (state: State)
        ensures
            state@ == new_state(),
    {
        State::new()
    }
}

/// How long a long poll of this server waits, in milliseconds.
pub fn poll_timeout(state: &State) -> (ms: u64)
    ensures
        ms == state@.poll_ms,
{
    state.poll_ms
}

/// Sets how long the long polls that begin from now on wait, in milliseconds.
pub fn set_poll_timeout(state: &mut State, ms: u64)
    ensures
        final(state)@ == (StateView { poll_ms: ms, ..old(state)@ }),
{
    state.poll_ms = ms;
}

// ------------------------------------------------------------------- replies

/// An answer to a request. `None` is no body.
pub struct Reply {
    pub status: u16,
    pub headers: Vec<Field>,
    pub body: Option<Vec<u8>>,
}

/// What a reply holds.
pub struct ReplyView {
    pub status: u16,
    pub headers: Seq<outside::FieldView>,
    pub body: Option<Seq<u8>>,
}

/// What a list of header lines holds.
pub open spec fn fields_view(fields: Seq<Field>) -> Seq<outside::FieldView> {
    Seq::new(fields.len(), |i: int| fields[i]@)
}

/// What a body holds, where there is one.
pub open spec fn body_view(body: Option<Vec<u8>>) -> Option<Seq<u8>> {
    match body {
        Some(b) => Some(b@),
        None => None,
    }
}

impl View for Reply {
    type V = ReplyView;

    open spec fn view(&self) -> ReplyView {
        ReplyView {
            status: self.status,
            headers: fields_view(self.headers@),
            body: body_view(self.body),
        }
    }
}

/// A reply of a status and nothing else.
pub open spec fn bare_reply(status: u16) -> ReplyView {
    ReplyView { status, headers: Seq::empty(), body: None }
}

/// The header line that carries a version.
pub open spec fn version_field(version: u64) -> outside::FieldView {
    outside::FieldView { name: "X-Clip-Version"@, value: text::decimal(version as nat) }
}

/// The header line that carries a mime type. Text that is not ASCII cannot stand
/// in a header, so such a type is sent as that of plain bytes.
pub open spec fn type_field(mime: Seq<char>) -> outside::FieldView {
    outside::FieldView {
        name: "Content-Type"@,
        value: if is_ascii_chars(mime) {
            mime
        } else {
            "application/octet-stream"@
        },
    }
}

/// A reply that tells the version of the clip and nothing else.
pub open spec fn version_reply(status: u16, version: u64) -> ReplyView {
    ReplyView { status, headers: seq![version_field(version)], body: None }
}

/// The reply that carries the clip.
pub open spec fn clip_reply(clip: ClipView) -> ReplyView {
    ReplyView {
        status: 200,
        headers: seq![version_field(clip.version), type_field(clip.mime)],
        body: Some(clip.body),
    }
}

fn version_header(version: u64) -> (field: Field)
    ensures
        field@ == version_field(version),
{
    let value = unsigned_text(version);
    proof {
        reveal_strlit("X-Clip-Version");
        text::lemma_decimal_reads_back(version as nat);
        assert forall|i: int| 0 <= i < value@.len() implies (#[trigger] value@[i] as nat) < 128 by {
            assert(text::is_digit(text::decimal(version as nat)[i]));
        }
    }
    header_line("X-Clip-Version", value.as_str()).unwrap()
}

fn type_header(mime: &str) -> (field: Field)
    ensures
        field@ == type_field(mime@),
{
    proof {
        reveal_strlit("Content-Type");
        reveal_strlit("application/octet-stream");
    }
    match header_line("Content-Type", mime) {
        Some(field) => field,
        None => header_line("Content-Type", "application/octet-stream").unwrap(),
    }
}

fn bare(status: u16) -> (reply: Reply)
    ensures
        reply@ == bare_reply(status),
{
    let reply = Reply { status, headers: Vec::new(), body: None };
    assert(reply@.headers =~= Seq::empty());
    reply
}

fn with_version(status: u16, version: u64) -> (reply: Reply)
    ensures
        reply@ == version_reply(status, version),
{
    let mut headers: Vec<Field> = Vec::new();
    headers.push(version_header(version));
    let reply = Reply { status, headers, body: None };
    assert(reply@.headers =~= seq![version_field(version)]);
    reply
}

// ------------------------------------------------------------------- requests

/// The methods that the server tells apart.
#[derive(Clone, Copy, PartialEq, Eq, Debug, Structural)]
pub enum Method {
    Get,
    Post,
    Other,
}

/// What the value of the first `since=` pair of a query is.
pub open spec fn since_pair(query: Seq<char>) -> Option<Seq<char>>
    decreases query.len(),
{
    proof {
        query.index_of_first_ensures('&');
    }
    let pair = text::before_first(query, '&');
    if "since="@.is_prefix_of(pair) {
        Some(pair.skip("since="@.len() as int))
    } else {
        match text::after_first(query, '&') {
            Some(rest) => since_pair(rest),
            None => None,
        }
    }
}

/// The version that a URL asks the server to wait for the end of.
pub open spec fn since_in(url: Seq<char>) -> Option<nat> {
    match text::after_first(url, '?') {
        Some(query) => match since_pair(query) {
            Some(value) => text::unsigned_of(value, u64::MAX as nat),
            None => None,
        },
        None => None,
    }
}

/// Reads the version that a URL asks the server to wait for the end of.
pub fn since_of(url: &str) -> (since: Option<u64>)
    ensures
        match since {
            Some(v) => since_in(url@) == Some(v as nat),
            None => since_in(url@) is None,
        },
{
    let chars = chars_of(url);
    let whole = chars.as_slice();
    proof {
        reveal_strlit("since=");
        whole@.index_of_first_ensures('?');
    }
    let mut rest = match find_first(whole, '?') {
        Some(i) => slice_subrange(whole, i + 1, whole.len()),
        None => return None,
    };
    assert(text::after_first(url@, '?') == Some(rest@)) by {
        assert(rest@ =~= whole@.skip(whole@.index_of_first('?')->0 + 1));
    }
    loop
        invariant
            text::after_first(url@, '?') is Some,
            since_pair(text::after_first(url@, '?')->0) == since_pair(rest@),
            "since="@.len() == 6,
        decreases rest.len(),
    {
        proof {
            rest@.index_of_first_ensures('&');
        }
        let at = find_first(rest, '&');
        let pair = match at {
            Some(i) => slice_subrange(rest, 0, i),
            None => rest,
        };
        assert(pair@ =~= text::before_first(rest@, '&'));
        if has_prefix(pair, "since=") {
            let value = slice_subrange(pair, 6, pair.len());
            assert(value@ =~= pair@.skip(6));
            return unsigned(value, u64::MAX);
        }
        match at {
            Some(i) => {
                let next = slice_subrange(rest, i + 1, rest.len());
                assert(next@ =~= rest@.skip(i + 1));
                rest = next;
            },
            None => return None,
        }
    }
}

/// What is to be done with a request.
pub enum Route {
    /// Answer with the clip, as soon as it is not of this version.
    Get { since: Option<u64> },
    /// Take the body as the new clip.
    Post,
    /// Answer so at once.
    Refuse(Reply),
}

/// Tells what a request asks for. Only `GET` and `POST` of `/clip` are served.
pub fn handle(method: Method, url: &str) -> (route: Route)
    ensures
        text::before_first(url@, '?') != "/clip"@ ==> (route matches Route::Refuse(r) && r@
            == bare_reply(404)),
        text::before_first(url@, '?') == "/clip"@ ==> match method {
            Method::Get => route matches Route::Get { since } && match since {
                Some(v) => since_in(url@) == Some(v as nat),
                None => since_in(url@) is None,
            },
            Method::Post => route is Post,
            Method::Other => route matches Route::Refuse(r) && r@ == bare_reply(405),
        },
{
    let chars = chars_of(url);
    let whole = chars.as_slice();
    proof {
        whole@.index_of_first_ensures('?');
    }
    let path = match find_first(whole, '?') {
        Some(i) => slice_subrange(whole, 0, i),
        None => whole,
    };
    assert(path@ =~= text::before_first(url@, '?'));
    if path.len() != chars_of("/clip").len() || !has_prefix(path, "/clip") {
        assert("/clip"@ == path@ ==> path@.subrange(0, path@.len() as int) =~= path@);
        return Route::Refuse(bare(404));
    }
    assert(path@.subrange(0, path@.len() as int) =~= path@);
    match method {
        Method::Get => Route::Get { since: since_of(url) },
        Method::Post => Route::Post,
        Method::Other => Route::Refuse(bare(405)),
    }
}

// -------------------------------------------------------------- the long poll

/// A `GET` that is being answered: the version that the client has, and how long
/// to wait for another.
#[derive(Clone, Copy)]
pub struct LongPoll {
    pub since: Option<u64>,
    pub timeout_ms: u64,
}

/// What is to be done with a `GET` now.
pub enum Step {
    /// Answer so.
    Answer(Reply),
    /// Wait until the clip changes, this long at most. Then ask again.
    Wait { secs: u64, nanos: u32 },
}

/// What a step holds. The wait is in nanoseconds.
pub enum StepView {
    Answer(ReplyView),
    Wait(nat),
}

impl View for Step {
    type V = StepView;

    open spec fn view(&self) -> StepView {
        match self {
            Step::Answer(r) => StepView::Answer(r@),
            Step::Wait { secs, nanos } => StepView::Wait(
                (*secs as nat) * 1_000_000_000 + *nanos as nat,
            ),
        }
    }
}

impl LongPoll {
    /// How many nanoseconds there are left to wait.
    pub open spec fn left(self, waited_ns: nat) -> nat {
        let whole = self.timeout_ms as nat * 1_000_000;
        if waited_ns < whole {
            (whole - waited_ns) as nat
        } else {
            0
        }
    }
}

impl StateView {
    /// What is to be done with a `GET` that has waited this long.
    ///
    /// Only a client that has the version that the server holds has to wait. One
    /// that has another version, be it lower or higher, gets the clip at once.
    pub open spec fn get(self, poll: LongPoll, waited_ns: nat) -> StepView {
        if poll.since != Some(self.clip.version) {
            StepView::Answer(clip_reply(self.clip))
        } else if poll.left(waited_ns) == 0 {
            StepView::Answer(version_reply(204, self.clip.version))
        } else {
            StepView::Wait(poll.left(waited_ns))
        }
    }
}

impl State {
    /// Begins to answer a `GET`.
    pub fn begin_get(&self, since: Option<u64>) -> (poll: LongPoll)
        ensures
            poll == (LongPoll { since, timeout_ms: self@.poll_ms }),
    {
        LongPoll { since, timeout_ms: self.poll_ms }
    }

    /// Answers a `GET` that has waited this many nanoseconds, or tells how much
    /// longer it waits.
    pub fn get_clip(&self, poll: &LongPoll, waited_ns: u128) -> (step: Step)
        ensures
            step@ == self@.get(*poll, waited_ns as nat),
            step matches Step::Wait { nanos, .. } ==> nanos < 1_000_000_000,
    {
        let stale = match poll.since {
            Some(s) => s != self.clip.version,
            None => true,
        };
        if stale {
            let mut headers: Vec<Field> = Vec::new();
            headers.push(version_header(self.clip.version));
            headers.push(type_header(self.clip.mime.as_str()));
            let reply = Reply { status: 200, headers, body: Some(self.clip.body.clone()) };
            assert(reply@.headers =~= clip_reply(self@.clip).headers);
            assert(reply@.body->0 =~= self@.clip.body);
            return Step::Answer(reply);
        }
        let whole: u128 = poll.timeout_ms as u128 * 1_000_000;
        let left: u128 = if waited_ns < whole {
            whole - waited_ns
        } else {
            0
        };
        if left == 0 {
            return Step::Answer(with_version(204, self.clip.version));
        }
        assert(left / 1_000_000_000 <= u64::MAX);
        Step::Wait { secs: (left / 1_000_000_000) as u64, nanos: (left % 1_000_000_000) as u32 }
    }
}

// -------------------------------------------------------------------- the post

/// True of the header name `Content-Type`, in any case.
pub open spec fn is_content_type(name: Seq<char>) -> bool {
    is_ascii_chars(name) && outside::same_but_case(name, "Content-Type"@)
}

/// The value of the first `Content-Type` line.
pub open spec fn content_type_in(fields: Seq<outside::FieldView>) -> Option<Seq<char>>
    decreases fields.len(),
{
    if fields.len() == 0 {
        None
    } else if is_content_type(fields[0].name) {
        Some(fields[0].value)
    } else {
        content_type_in(fields.skip(1))
    }
}

/// The mime type of a posted clip. One that names none is text.
pub open spec fn posted_mime(fields: Seq<outside::FieldView>) -> Seq<char> {
    match content_type_in(fields) {
        Some(mime) => mime,
        None => TEXT_MIME@,
    }
}

fn mime_of(fields: &Vec<Field>) -> (mime: String)
    ensures
        mime@ == posted_mime(fields_view(fields@)),
{
    let ghost all = fields_view(fields@);
    let mut i: usize = 0;
    assert(all.skip(0) =~= all);
    while i < fields.len()
        invariant
            i <= fields.len(),
            all == fields_view(fields@),
            content_type_in(all) == content_type_in(all.skip(i as int)),
        decreases fields.len() - i,
    {
        assert(all.skip(i as int)[0] == fields[i as int]@);
        assert(all.skip(i as int).skip(1) =~= all.skip(i + 1));
        if names_equal(fields[i].name.as_str(), "Content-Type") {
            return fields[i].value.clone();
        }
        i += 1;
    }
    TEXT_MIME.to_string()
}

pub(crate) fn same_bytes(a: &Vec<u8>, b: &Vec<u8>) -> (same: bool)
    ensures
        same == (a@ == b@),
{
    let same = *a == *b;
    assert(same ==> a@ =~= b@);
    same
}

impl StateView {
    /// True if a posted clip takes the place of the one that the server holds: it
    /// was read, it is not too large, and it is another one.
    pub open spec fn stores(self, mime: Seq<char>, body: Option<Seq<u8>>) -> bool {
        match body {
            Some(b) => b.len() <= MAX_BODY && (b != self.clip.body || mime != self.clip.mime),
            None => false,
        }
    }

    /// The state after a posted clip, whose body may not have been read.
    pub open spec fn after_post(self, mime: Seq<char>, body: Option<Seq<u8>>) -> StateView {
        if self.stores(mime, body) {
            StateView {
                clip: ClipView { version: (self.clip.version + 1) as u64, body: body->0, mime },
                ..self
            }
        } else {
            self
        }
    }

    /// The answer to a posted clip.
    pub open spec fn post_reply(self, mime: Seq<char>, body: Option<Seq<u8>>) -> ReplyView {
        match body {
            None => bare_reply(400),
            Some(b) => if b.len() > MAX_BODY {
                bare_reply(413)
            } else {
                version_reply(200, self.after_post(mime, body).clip.version)
            },
        }
    }
}

impl State {
    /// True if this clip would take the place of the one that the server holds.
    pub fn stores(&self, fields: &Vec<Field>, body: &Option<Vec<u8>>) -> (stores: bool)
        ensures
            stores == self@.stores(posted_mime(fields_view(fields@)), body_view(*body)),
    {
        match body {
            Some(b) => b.len() <= MAX_BODY && !(same_bytes(b, &self.clip.body) && mime_of(fields)
                == self.clip.mime),
            None => false,
        }
    }

    /// Takes a posted clip. `None` is a body that could not be read. The flag is
    /// true if the clip changed, so that those who wait for it have to be woken.
    ///
    /// There is no version behind the last `u64`.
    pub fn post_clip(&mut self, fields: &Vec<Field>, body: Option<Vec<u8>>) -> (answer: (Reply, bool))
        requires
            old(self)@.stores(posted_mime(fields_view(fields@)), body_view(body)) ==> old(
                self,
            )@.clip.version < u64::MAX,
        ensures
            final(self)@ == old(self)@.after_post(
                posted_mime(fields_view(fields@)),
                body_view(body),
            ),
            answer.0@ == old(self)@.post_reply(
                posted_mime(fields_view(fields@)),
                body_view(body),
            ),
            answer.1 == old(self)@.stores(posted_mime(fields_view(fields@)), body_view(body)),
            body matches Some(b) ==> b@.len() <= MAX_BODY ==> final(self)@.clip.body == b@,
    {
        let body: Vec<u8> = match body {
            Some(b) => b,
            None => return (bare(400), false),
        };
        if body.len() > MAX_BODY {
            return (bare(413), false);
        }
        let mime = mime_of(fields);
        let changed = !(same_bytes(&body, &self.clip.body) && mime == self.clip.mime);
        if changed {
            self.clip.version += 1;
            self.clip.body = body;
            self.clip.mime = mime;
        }
        (with_version(200, self.clip.version), changed)
    }
}

} // verus!
