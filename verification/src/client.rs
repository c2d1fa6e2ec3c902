//! The client: the requests that it sends, and what it makes of the replies.

use crate::image::looks_like_png;
use crate::outside;
use crate::outside::header_text;
use crate::payload::{PNG_MIME, TEXT_MIME};
use crate::server::{Method, DEFAULT_PORT, MAX_BODY};
use crate::text;
use crate::text::{chars_of, find_last, unsigned, unsigned_text};
use vstd::prelude::*;
use vstd::slice::{slice_subrange, slice_to_vec};
use vstd::utf8::*;

verus! {

/// How much of the body of a reply the client reads: one byte more than the largest
/// clip, so that a larger one is known by its length.
pub const FETCH_LIMIT: u64 = MAX_BODY as u64 + 1;

// -------------------------------------------------------------------- the URL

/// True if `HOST[:PORT]` names a port: what stands behind its last colon is one.
pub open spec fn names_port(host: Seq<char>) -> bool {
    text::unsigned_of(text::after_last(host, ':'), u16::MAX as nat) is Some
}

/// The clip URL of `HOST` or `HOST:PORT`.
pub open spec fn url_of(host: Seq<char>) -> Seq<char> {
    if names_port(host) {
        "http://"@ + host + "/clip"@
    } else {
        "http://"@ + host + ":"@ + text::decimal(DEFAULT_PORT as nat) + "/clip"@
    }
}

/// Turns `HOST` or `HOST:PORT` into the clip URL.
pub fn clip_url(host: &str) -> (url: String)
    ensures
        url@ == url_of(host@),
{
    let chars = chars_of(host);
    let whole = chars.as_slice();
    proof {
        whole@.index_of_last_ensures(':');
    }
    let last = match find_last(whole, ':') {
        Some(i) => slice_subrange(whole, i + 1, whole.len()),
        None => whole,
    };
    assert(last@ =~= text::after_last(host@, ':'));
    let mut url = "http://".to_string();
    url.append(host);
    if unsigned(last, u16::MAX as u64).is_none() {
        url.append(":");
        url.append(unsigned_text(DEFAULT_PORT as u64).as_str());
    }
    url.append("/clip");
    url
}

// --------------------------------------------------------------- the requests

/// A request to be sent. The mime type is that of the body, and `None` where
/// there is no body.
pub struct Request {
    pub method: Method,
    pub url: String,
    pub mime: Option<String>,
    pub body: Vec<u8>,
    pub timeout_ms: u64,
}

/// What a request holds.
pub struct RequestView {
    pub method: Method,
    pub url: Seq<char>,
    pub mime: Option<Seq<char>>,
    pub body: Seq<u8>,
    pub timeout_ms: u64,
}

impl View for Request {
    type V = RequestView;

    open spec fn view(&self) -> RequestView {
        RequestView {
            method: self.method,
            url: self.url@,
            mime: match self.mime {
                Some(m) => Some(m@),
                None => None,
            },
            body: self.body@,
            timeout_ms: self.timeout_ms,
        }
    }
}

/// The request for the clip. With `since`, the server waits as long as that is
/// the version it holds.
pub open spec fn fetch_request(
    url: Seq<char>,
    since: Option<u64>,
    timeout_ms: u64,
) -> RequestView {
    RequestView {
        method: Method::Get,
        url: match since {
            Some(v) => url + "?since="@ + text::decimal(v as nat),
            None => url,
        },
        mime: None,
        body: Seq::empty(),
        timeout_ms,
    }
}

/// The request that makes a body the clip.
pub open spec fn push_request(
    url: Seq<char>,
    mime: Seq<char>,
    body: Seq<u8>,
    timeout_ms: u64,
) -> RequestView {
    RequestView { method: Method::Post, url, mime: Some(mime), body, timeout_ms }
}

/// `GET /clip`. If `since` is present, the server waits as long as that is the
/// version it holds.
pub fn fetch(url: &str, since: Option<u64>, timeout_ms: u64) -> (request: Request)
    ensures
        request@ == fetch_request(url@, since, timeout_ms),
{
    let mut full = url.to_string();
    match since {
        Some(v) => {
            full.append("?since=");
            full.append(unsigned_text(v).as_str());
        },
        None => {},
    }
    let request = Request {
        method: Method::Get,
        url: full,
        mime: None,
        body: Vec::new(),
        timeout_ms,
    };
    assert(request@.body =~= Seq::empty());
    request
}

/// `POST /clip`.
pub fn push(url: &str, mime: &str, body: &[u8], timeout_ms: u64) -> (request: Request)
    ensures
        request@ == push_request(url@, mime@, body@, timeout_ms),
{
    Request {
        method: Method::Post,
        url: url.to_string(),
        mime: Some(mime.to_string()),
        body: slice_to_vec(body),
        timeout_ms,
    }
}

// ---------------------------------------------------------------- the replies

/// A reply as the client takes it.
pub struct Resp {
    pub status: u16,
    pub version: u64,
    pub mime: String,
    pub body: Vec<u8>,
}

/// What a reply holds.
pub struct RespView {
    pub status: u16,
    pub version: u64,
    pub mime: Seq<char>,
    pub body: Seq<u8>,
}

impl View for Resp {
    type V = RespView;

    open spec fn view(&self) -> RespView {
        RespView {
            status: self.status,
            version: self.version,
            mime: self.mime@,
            body: self.body@,
        }
    }
}

/// The text of a header, where it is there and visible.
pub open spec fn shown(value: Option<Seq<u8>>) -> Option<Seq<char>> {
    match value {
        Some(v) => outside::header_text_of(v),
        None => None,
    }
}

/// The version that a header tells. One that tells none stands for version 0.
pub open spec fn told_version(value: Option<Seq<u8>>) -> nat {
    match shown(value) {
        Some(t) => match text::unsigned_of(t, u64::MAX as nat) {
            Some(v) => v,
            None => 0,
        },
        None => 0,
    }
}

/// The mime type that a header tells. One that tells none stands for text.
pub open spec fn told_mime(value: Option<Seq<u8>>) -> Seq<char> {
    match shown(value) {
        Some(t) => t,
        None => TEXT_MIME@,
    }
}

/// What a header value holds, where there is one.
pub open spec fn value_view(value: Option<Vec<u8>>) -> Option<Seq<u8>> {
    match value {
        Some(v) => Some(v@),
        None => None,
    }
}

fn shown_text(value: &Option<Vec<u8>>) -> (t: Option<String>)
    ensures
        match t {
            Some(t) => shown(value_view(*value)) == Some(t@),
            None => shown(value_view(*value)) is None,
        },
{
    match value {
        Some(v) => header_text(v.as_slice()),
        None => None,
    }
}

/// What is said of a reply whose body is larger than the cap.
pub open spec fn body_too_large() -> Seq<char> {
    "the response body is larger than request limit: "@ + text::decimal(MAX_BODY as nat)
}

/// Makes a reply of its status, of the values of its `X-Clip-Version` and
/// `Content-Type` headers, and of its body or the reason why that was not read. A body
/// over the cap is an error.
pub fn read_resp(
    status: u16,
    version: Option<Vec<u8>>,
    mime: Option<Vec<u8>>,
    body: Result<Vec<u8>, String>,
) -> (resp: Result<Resp, String>)
    ensures
        body matches Ok(b) ==> b@.len() <= MAX_BODY ==> (resp matches Ok(r) && {
            &&& r.status == status
            &&& r.version == told_version(value_view(version))
            &&& r.mime@ == told_mime(value_view(mime))
            &&& r.body@ == b@
        }),
        body matches Ok(b) ==> b@.len() > MAX_BODY ==> (resp matches Err(f) && f@
            == body_too_large()),
        body matches Err(e) ==> (resp matches Err(f) && f@ == e@),
{
    let told: u64 = match shown_text(&version) {
        Some(t) => match unsigned(chars_of(t.as_str()).as_slice(), u64::MAX) {
            Some(v) => v,
            None => 0,
        },
        None => 0,
    };
    let mime = match shown_text(&mime) {
        Some(t) => t,
        None => TEXT_MIME.to_string(),
    };
    match body {
        Ok(body) => {
            if body.len() > MAX_BODY {
                let mut message = "the response body is larger than request limit: ".to_string();
                message.append(unsigned_text(MAX_BODY as u64).as_str());
                return Err(message);
            }
            Ok(Resp { status, version: told, mime, body })
        },
        Err(e) => Err(e),
    }
}

// ------------------------------------------------------------- one shot verbs

/// How long the client waits for an answer that comes at once.
pub const FETCH_TIMEOUT_MS: u64 = 10_000;

/// How long the client takes to send a clip.
pub const PUSH_TIMEOUT_MS: u64 = 30_000;

/// The request of `get`: for the current clip, at once.
pub fn get(host: &str) -> (request: Request)
    ensures
        request@ == fetch_request(url_of(host@), None, FETCH_TIMEOUT_MS),
{
    fetch(clip_url(host).as_str(), None, FETCH_TIMEOUT_MS)
}

/// Where the clip of `set` comes from: the argument, or standard input.
pub enum Source {
    Text(String),
    Stdin(Vec<u8>),
}

/// What a source holds.
pub enum SourceView {
    Text(Seq<char>),
    Stdin(Seq<u8>),
}

impl View for Source {
    type V = SourceView;

    open spec fn view(&self) -> SourceView {
        match self {
            Source::Text(t) => SourceView::Text(t@),
            Source::Stdin(b) => SourceView::Stdin(b@),
        }
    }
}

impl SourceView {
    /// The bytes to send.
    pub open spec fn body(self) -> Seq<u8> {
        match self {
            SourceView::Text(t) => encode_utf8(t),
            SourceView::Stdin(b) => b,
        }
    }

    /// Their mime type. Standard input is an image if it begins like one.
    pub open spec fn mime(self) -> Seq<char> {
        match self {
            SourceView::Text(_) => TEXT_MIME@,
            SourceView::Stdin(b) => if outside::png_signature().is_prefix_of(b) {
                PNG_MIME@
            } else {
                TEXT_MIME@
            },
        }
    }
}

/// What is said of a clip that is larger than the cap.
pub open spec fn over_the_cap(length: nat) -> Seq<char> {
    "clip is "@ + text::decimal(length) + " bytes. The cap is "@ + text::decimal(MAX_BODY as nat)
        + " bytes."@
}

/// The request of `set`, unless the clip is larger than the cap.
pub fn set(host: &str, source: Source) -> (request: Result<Request, String>)
    ensures
        source matches Source::Stdin(b) ==> b@.len() <= MAX_BODY ==> (request matches Ok(r)
            && r.body@ == b@),
        source matches Source::Text(t) ==> encode_utf8(t@).len() <= MAX_BODY ==> (request
            matches Ok(r) && r.body@ == encode_utf8(t@)),
        source@.body().len() <= MAX_BODY ==> (request matches Ok(r) && r@ == push_request(
            url_of(host@),
            source@.mime(),
            source@.body(),
            PUSH_TIMEOUT_MS,
        )),
        source@.body().len() > MAX_BODY ==> (request matches Err(e) && e@ == over_the_cap(
            source@.body().len(),
        )),
{
    let ghost view = source@;
    let (mime, body): (&str, Vec<u8>) = match source {
        Source::Text(t) => (TEXT_MIME, t.as_str().as_bytes_vec()),
        Source::Stdin(b) => if looks_like_png(b.as_slice()) {
            (PNG_MIME, b)
        } else {
            (TEXT_MIME, b)
        },
    };
    assert(mime@ == view.mime() && body@ == view.body());
    if body.len() > MAX_BODY {
        let mut message = "clip is ".to_string();
        message.append(unsigned_text(body.len() as u64).as_str());
        message.append(" bytes. The cap is ");
        message.append(unsigned_text(MAX_BODY as u64).as_str());
        message.append(" bytes.");
        return Err(message);
    }
    Ok(push(clip_url(host).as_str(), mime, body.as_slice(), PUSH_TIMEOUT_MS))
}

/// How `set` ended, by the status of the reply.
pub fn set_result(status: u16) -> (result: Result<(), String>)
    ensures
        status == 413 ==> (result matches Err(e) && e@
            == "the server rejected the clip: too large"@),
        status != 413 ==> result is Ok,
{
    if status == 413 {
        return Err("the server rejected the clip: too large".to_string());
    }
    Ok(())
}

} // verus!
