//! What holds of the server, request by request.

use crate::client;
use crate::laws::numbers;
use crate::outside;
use crate::server;
use crate::text;
use vstd::prelude::*;
use vstd::utf8::*;

verus! {

/// True of the header name `Content-Type`, however it is written.
pub open spec fn names_the_type(field: outside::FieldView) -> bool {
    is_ascii_chars(field.name) && outside::same_but_case(field.name, "Content-Type"@)
}

/// The case of ASCII letters is all that two spellings of a header name may differ in.
pub proof fn law_names_differ_in_case_at_most(a: Seq<char>, b: Seq<char>)
    ensures
        outside::same_but_case(a, b) <==> a.len() == b.len() && forall|i: int|
            0 <= i < a.len() ==> {
                ||| #[trigger] a[i] == b[i]
                ||| 'A' <= a[i] && a[i] <= 'Z' && b[i] as u32 == a[i] as u32 + 32
                ||| 'A' <= b[i] && b[i] <= 'Z' && a[i] as u32 == b[i] as u32 + 32
            },
{
    if outside::same_but_case(a, b) {
        assert forall|i: int| 0 <= i < a.len() implies {
            ||| #[trigger] a[i] == b[i]
            ||| 'A' <= a[i] && a[i] <= 'Z' && b[i] as u32 == a[i] as u32 + 32
            ||| 'A' <= b[i] && b[i] <= 'Z' && a[i] as u32 == b[i] as u32 + 32
        } by {
            assert(outside::lower(a[i]) == outside::lower(b[i]));
        }
    } else if a.len() == b.len() {
        let i = choose|i: int|
            0 <= i < a.len() && #[trigger] outside::lower(a[i]) != outside::lower(b[i]);
        assert(a[i] != b[i]);
    }
}

/// A server starts with an empty clip of text and version 0, and lets a long poll wait
/// for five minutes.
pub proof fn law_server_starts_empty()
    ensures
        server::new_state().clip.version == 0,
        server::new_state().clip.body.len() == 0,
        server::new_state().clip.mime == "text/plain; charset=utf-8"@,
        server::new_state().poll_ms == 300_000,
{
}

// -------------------------------------------------------------------- the post

/// The type of a posted clip is the value of the first line that names it, wherever that
/// line stands.
pub proof fn law_first_content_type_counts(fields: Seq<outside::FieldView>, i: int)
    requires
        0 <= i < fields.len(),
        names_the_type(fields[i]),
        forall|j: int| 0 <= j < i ==> !names_the_type(#[trigger] fields[j]),
    ensures
        server::posted_mime(fields) == fields[i].value,
{
    lemma_first_content_type(fields, i);
}

proof fn lemma_first_content_type(fields: Seq<outside::FieldView>, i: int)
    requires
        0 <= i < fields.len(),
        names_the_type(fields[i]),
        forall|j: int| 0 <= j < i ==> !names_the_type(#[trigger] fields[j]),
    ensures
        server::content_type_in(fields) == Some(fields[i].value),
    decreases fields.len(),
{
    if i > 0 {
        let rest = fields.skip(1);
        assert forall|j: int| 0 <= j < i - 1 implies !names_the_type(#[trigger] rest[j]) by {
            assert(rest[j] == fields[j + 1]);
        }
        lemma_first_content_type(rest, i - 1);
        assert(!names_the_type(fields[0]));
    }
}

/// A posted clip whose type no line names is text.
pub proof fn law_no_content_type_is_text(fields: Seq<outside::FieldView>)
    requires
        forall|j: int| 0 <= j < fields.len() ==> !names_the_type(#[trigger] fields[j]),
    ensures
        server::posted_mime(fields) == "text/plain; charset=utf-8"@,
{
    lemma_no_content_type(fields);
}

proof fn lemma_no_content_type(fields: Seq<outside::FieldView>)
    requires
        forall|j: int| 0 <= j < fields.len() ==> !names_the_type(#[trigger] fields[j]),
    ensures
        server::content_type_in(fields) is None,
    decreases fields.len(),
{
    if fields.len() > 0 {
        let rest = fields.skip(1);
        assert forall|j: int| 0 <= j < rest.len() implies !names_the_type(#[trigger] rest[j]) by {
            assert(rest[j] == fields[j + 1]);
        }
        lemma_no_content_type(rest);
        assert(!names_the_type(fields[0]));
    }
}

/// A line of another name has no say in the type of a posted clip, wherever it stands.
pub proof fn law_other_lines_have_no_say(
    before: Seq<outside::FieldView>,
    other: outside::FieldView,
    behind: Seq<outside::FieldView>,
)
    requires
        !names_the_type(other),
    ensures
        server::posted_mime(before + seq![other] + behind) == server::posted_mime(before + behind),
{
    lemma_other_line(before, other, behind);
}

proof fn lemma_other_line(
    before: Seq<outside::FieldView>,
    other: outside::FieldView,
    behind: Seq<outside::FieldView>,
)
    requires
        !names_the_type(other),
    ensures
        server::content_type_in(before + seq![other] + behind) == server::content_type_in(
            before + behind,
        ),
    decreases before.len(),
{
    let all = before + seq![other] + behind;
    if before.len() == 0 {
        assert(all.skip(1) =~= before + behind);
        assert(all[0] == other);
    } else {
        lemma_other_line(before.skip(1), other, behind);
        assert(all.skip(1) =~= before.skip(1) + seq![other] + behind);
        assert((before + behind).skip(1) =~= before.skip(1) + behind);
        assert(all[0] == before[0] && (before + behind)[0] == before[0]);
    }
}

/// A post of at most 32 MB is what the server holds afterwards: all of the body, and the
/// type. The version moves by one if and only if the two are not what it held before. The
/// answer tells the version, and nothing else changes.
pub proof fn law_post_is_what_the_server_holds(
    state: server::StateView,
    mime: Seq<char>,
    body: Seq<u8>,
)
    requires
        body.len() <= 33_554_432,
        state.clip.version < u64::MAX,
    ensures
        ({
            let after = state.after_post(mime, Some(body));
            let reply = state.post_reply(mime, Some(body));
            let new = state.clip.body != body || state.clip.mime != mime;
            &&& after.clip.body == body
            &&& after.clip.mime == mime
            &&& after.clip.version == if new {
                state.clip.version + 1
            } else {
                state.clip.version as int
            }
            &&& after.poll_ms == state.poll_ms
            &&& state.stores(mime, Some(body)) == new
            &&& reply.status == 200
            &&& reply.headers.len() == 1
            &&& reply.headers[0].name == "X-Clip-Version"@
            &&& reply.headers[0].value == text::decimal(after.clip.version as nat)
            &&& reply.body is None
        }),
{
}

/// A post of more than 32 MB, and one that could not be read, are refused with a bare
/// status and leave the server as it was.
pub proof fn law_refusal_is_bare(state: server::StateView, mime: Seq<char>, body: Seq<u8>)
    ensures
        body.len() > 33_554_432 ==> {
            &&& state.after_post(mime, Some(body)) == state
            &&& !state.stores(mime, Some(body))
            &&& state.post_reply(mime, Some(body)).status == 413
            &&& state.post_reply(mime, Some(body)).headers.len() == 0
            &&& state.post_reply(mime, Some(body)).body is None
        },
        state.after_post(mime, None) == state,
        !state.stores(mime, None),
        state.post_reply(mime, None).status == 400,
        state.post_reply(mime, None).headers.len() == 0,
        state.post_reply(mime, None).body is None,
{
}

/// A posted clip is answered under the type of the first line that named it: what goes in
/// with the header lines of a post comes out with those of a `GET`.
pub proof fn law_posted_type_is_answered(
    state: server::StateView,
    fields: Seq<outside::FieldView>,
    i: int,
    body: Seq<u8>,
    poll: server::LongPoll,
    waited_ns: nat,
)
    requires
        0 <= i < fields.len(),
        names_the_type(fields[i]),
        forall|j: int| 0 <= j < i ==> !names_the_type(#[trigger] fields[j]),
        is_ascii_chars(fields[i].value),
        body.len() <= 33_554_432,
        state.clip.version < u64::MAX,
        poll.since is None,
    ensures
        state.after_post(server::posted_mime(fields), Some(body)).get(poll, waited_ns)
            matches server::StepView::Answer(reply) && {
            &&& reply.body == Some(body)
            &&& reply.headers.len() == 2
            &&& reply.headers[1].name == "Content-Type"@
            &&& reply.headers[1].value == fields[i].value
        },
{
    law_first_content_type_counts(fields, i);
}

// --------------------------------------------------------------------- the get

/// Who names no version, or another one than the server holds, gets all of the clip at
/// once: status 200, the version, the type, the body. A type that is not ASCII is sent as
/// that of plain bytes.
pub proof fn law_other_version_gets_the_clip(
    state: server::StateView,
    poll: server::LongPoll,
    waited_ns: nat,
)
    requires
        poll.since != Some(state.clip.version),
    ensures
        state.get(poll, waited_ns) matches server::StepView::Answer(reply) && {
            &&& reply.status == 200
            &&& reply.body == Some(state.clip.body)
            &&& reply.headers.len() == 2
            &&& reply.headers[0].name == "X-Clip-Version"@
            &&& reply.headers[0].value == text::decimal(state.clip.version as nat)
            &&& reply.headers[1].name == "Content-Type"@
            &&& is_ascii_chars(state.clip.mime) ==> reply.headers[1].value == state.clip.mime
            &&& !is_ascii_chars(state.clip.mime) ==> reply.headers[1].value
                == "application/octet-stream"@
        },
{
}

/// Who names the version that the server holds waits for what is left of the timeout,
/// then gets status 204 with the version and without a body.
pub proof fn law_same_version_gets_nothing(
    state: server::StateView,
    timeout_ms: u64,
    waited_ns: nat,
)
    ensures
        ({
            let poll = server::LongPoll { since: Some(state.clip.version), timeout_ms };
            let whole = timeout_ms as nat * 1_000_000;
            if waited_ns < whole {
                state.get(poll, waited_ns) == server::StepView::Wait((whole - waited_ns) as nat)
            } else {
                state.get(poll, waited_ns) matches server::StepView::Answer(reply) && {
                    &&& reply.status == 204
                    &&& reply.body is None
                    &&& reply.headers.len() == 1
                    &&& reply.headers[0].name == "X-Clip-Version"@
                    &&& reply.headers[0].value == text::decimal(state.clip.version as nat)
                }
            }
        }),
{
}

// ------------------------------------------------------------------- the query

/// The pairs of a query, with `&` between them.
pub open spec fn joined(pairs: Seq<Seq<char>>) -> Seq<char>
    decreases pairs.len(),
{
    if pairs.len() == 0 {
        Seq::empty()
    } else if pairs.len() == 1 {
        pairs[0]
    } else {
        pairs[0] + seq!['&'] + joined(pairs.skip(1))
    }
}

/// True of a pair that begins with `since=`.
pub open spec fn tells_since(pair: Seq<char>) -> bool {
    pair.len() >= 6 && pair.take(6) == "since="@
}

/// True of characters without a separator among them.
pub open spec fn lacks(s: Seq<char>, c: char) -> bool {
    forall|i: int| 0 <= i < s.len() ==> s[i] != c
}

proof fn lemma_cut_pairs(pairs: Seq<Seq<char>>)
    requires
        pairs.len() > 0,
        forall|j: int| 0 <= j < pairs.len() ==> lacks(#[trigger] pairs[j], '&'),
    ensures
        text::before_first(joined(pairs), '&') == pairs[0],
        pairs.len() == 1 ==> text::after_first(joined(pairs), '&') is None,
        pairs.len() > 1 ==> text::after_first(joined(pairs), '&') == Some(joined(pairs.skip(1))),
{
    assert(lacks(pairs[0], '&'));
    if pairs.len() == 1 {
        numbers::law_nothing_to_cut(pairs[0], '&');
    } else {
        numbers::law_cut_at_the_first(pairs[0], '&', joined(pairs.skip(1)));
    }
}

proof fn lemma_is_since(pair: Seq<char>)
    ensures
        "since="@.len() == 6,
        "since="@.is_prefix_of(pair) == tells_since(pair),
{
    reveal_strlit("since=");
    if pair.len() >= 6 {
        assert(pair.take(6) =~= pair.subrange(0, 6));
    }
}

proof fn lemma_since_pair(pairs: Seq<Seq<char>>, i: int)
    requires
        0 <= i < pairs.len(),
        forall|j: int| 0 <= j < pairs.len() ==> lacks(#[trigger] pairs[j], '&'),
        tells_since(pairs[i]),
        forall|j: int| 0 <= j < i ==> !tells_since(#[trigger] pairs[j]),
    ensures
        server::since_pair(joined(pairs)) == Some(pairs[i].skip(6)),
    decreases pairs.len(),
{
    lemma_cut_pairs(pairs);
    lemma_is_since(pairs[0]);
    if i > 0 {
        let rest = pairs.skip(1);
        assert(!tells_since(pairs[0]));
        assert forall|j: int| 0 <= j < rest.len() implies lacks(#[trigger] rest[j], '&') by {
            assert(rest[j] == pairs[j + 1]);
        }
        assert forall|j: int| 0 <= j < i - 1 implies !tells_since(#[trigger] rest[j]) by {
            assert(rest[j] == pairs[j + 1]);
        }
        lemma_since_pair(rest, i - 1);
    }
}

proof fn lemma_no_since_pair(pairs: Seq<Seq<char>>)
    requires
        pairs.len() > 0,
        forall|j: int| 0 <= j < pairs.len() ==> lacks(#[trigger] pairs[j], '&'),
        forall|j: int| 0 <= j < pairs.len() ==> !tells_since(#[trigger] pairs[j]),
    ensures
        server::since_pair(joined(pairs)) is None,
    decreases pairs.len(),
{
    lemma_cut_pairs(pairs);
    lemma_is_since(pairs[0]);
    assert(!tells_since(pairs[0]));
    if pairs.len() > 1 {
        let rest = pairs.skip(1);
        assert forall|j: int| 0 <= j < rest.len() implies lacks(#[trigger] rest[j], '&') by {
            assert(rest[j] == pairs[j + 1]);
        }
        assert forall|j: int| 0 <= j < rest.len() implies !tells_since(#[trigger] rest[j]) by {
            assert(rest[j] == pairs[j + 1]);
        }
        lemma_no_since_pair(rest);
    }
}

/// The version that a URL asks about is the number behind the first `since=` among the
/// pairs of its query, whatever the path and the other pairs are. If that is no number,
/// the URL asks about none.
pub proof fn law_first_since_counts(path: Seq<char>, pairs: Seq<Seq<char>>, i: int)
    requires
        lacks(path, '?'),
        0 <= i < pairs.len(),
        forall|j: int| 0 <= j < pairs.len() ==> lacks(#[trigger] pairs[j], '&'),
        tells_since(pairs[i]),
        forall|j: int| 0 <= j < i ==> !tells_since(#[trigger] pairs[j]),
    ensures
        server::since_in(path + seq!['?'] + joined(pairs)) == text::unsigned_of(
            pairs[i].skip(6),
            u64::MAX as nat,
        ),
{
    numbers::law_cut_at_the_first(path, '?', joined(pairs));
    lemma_since_pair(pairs, i);
}

/// A URL without a query, or whose query has no `since=`, asks about no version.
pub proof fn law_no_since_asks_about_none(path: Seq<char>, pairs: Seq<Seq<char>>)
    requires
        lacks(path, '?'),
        pairs.len() > 0,
        forall|j: int| 0 <= j < pairs.len() ==> lacks(#[trigger] pairs[j], '&'),
        forall|j: int| 0 <= j < pairs.len() ==> !tells_since(#[trigger] pairs[j]),
    ensures
        server::since_in(path) is None,
        server::since_in(path + seq!['?'] + joined(pairs)) is None,
{
    numbers::law_nothing_to_cut(path, '?');
    numbers::law_cut_at_the_first(path, '?', joined(pairs));
    lemma_no_since_pair(pairs);
}

// ------------------------------------------------------------------- the views

/// What contracts say of a clip, a reply and a list of header lines, they say of all that
/// it holds.
pub proof fn law_server_views_leave_nothing_out(
    clip: server::Clip,
    reply: server::Reply,
    fields: Seq<outside::Field>,
    body: Option<Vec<u8>>,
    i: int,
)
    requires
        0 <= i < fields.len(),
    ensures
        clip@.version == clip.version,
        clip@.body == clip.body@,
        clip@.mime == clip.mime@,
        reply@.status == reply.status,
        reply@.headers == server::fields_view(reply.headers@),
        reply@.body == server::body_view(reply.body),
        server::fields_view(fields).len() == fields.len(),
        server::fields_view(fields)[i].name == fields[i].name@,
        server::fields_view(fields)[i].value == fields[i].value@,
        server::body_view(body) == match body {
            Some(b) => Some(b@),
            None => None,
        },
        client::value_view(body) == match body {
            Some(b) => Some(b@),
            None => None,
        },
{
}

} // verus!
