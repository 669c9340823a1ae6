//! What writing, updating and logging come to, call by call.
//!
//! Each law takes the arguments and the result of a call, and says what the
//! result and the memory after it have to be, field by field.

use crate::basic::BasicMemoryProvider;
use crate::chunk::{ChunkView, MemoryChunk, MemoryTier, NewMemoryChunk};
use crate::error::{ErrorView, MemoryResult};
use crate::importance::Importance;
use crate::json::JsonView;
use crate::model::{batch_runs, write_error, write_result, MemoryView};
use crate::session::{MemorySession, NewMemorySession, SessionOutcome};
use crate::text::blank;
use crate::time::Timestamp;
use crate::write_hook::{HookReply, PendingWrite, WriteAction, WriteDecision};
use vstd::prelude::*;

verus! {

/// The chunk that a write stores has every field that was handed in; the rest
/// is what a chunk starts with.
pub proof fn law_written_chunk_has_every_field(
    m: &mut BasicMemoryProvider,
    new: NewMemoryChunk,
    reply: HookReply,
    id: String,
    at: Timestamp,
    c: MemoryChunk,
)
    requires
        call_ensures(BasicMemoryProvider::write_at, (m, new, reply, id, at), Ok(c)),
        !(reply is Decided && reply->Decided_0 is Redact),
    ensures
        c.id@ == id@,
        c.created_at == at,
        c.kind == new.kind,
        c.source == new.source,
        c.session_id is Some <==> new.session_id is Some,
        new.session_id is Some ==> c.session_id->Some_0@ == new.session_id->Some_0@,
        c.project_root is Some <==> new.project_root is Some,
        new.project_root is Some ==> c.project_root->Some_0@ == new.project_root->Some_0@,
        c.caller_id@ == new.caller_id@,
        c.content@ == new.content@,
        c.metadata@ == new.metadata@,
        c.importance == match new.importance {
            Some(i) => i,
            None => Importance { bits: 0x3f00_0000 },
        },
        c.pinned == new.pinned,
        c.shareable == new.shareable,
        c.tier == MemoryTier::Session,
        c.superseded_by is None,
        c.embedding_model@ == "none"@,
        c.embedding_dim == 0,
{
}

/// The same of a write under a fresh id at the present instant.
pub proof fn law_fresh_written_chunk_has_every_field(
    m: &mut BasicMemoryProvider,
    new: NewMemoryChunk,
    reply: HookReply,
    c: MemoryChunk,
)
    requires
        call_ensures(BasicMemoryProvider::write, (m, new, reply), Ok(c)),
        !(reply is Decided && reply->Decided_0 is Redact),
    ensures
        c.id@.len() == 36,
        c.id@[14] == '7',
        c.created_at.secs() >= 0,
        0 <= c.created_at.nanos() < 1_000_000_000,
        c.kind == new.kind,
        c.source == new.source,
        c.session_id is Some <==> new.session_id is Some,
        new.session_id is Some ==> c.session_id->Some_0@ == new.session_id->Some_0@,
        c.project_root is Some <==> new.project_root is Some,
        new.project_root is Some ==> c.project_root->Some_0@ == new.project_root->Some_0@,
        c.caller_id@ == new.caller_id@,
        c.content@ == new.content@,
        c.metadata@ == new.metadata@,
        c.importance == match new.importance {
            Some(i) => i,
            None => Importance { bits: 0x3f00_0000 },
        },
        c.pinned == new.pinned,
        c.shareable == new.shareable,
        c.tier == MemoryTier::Session,
        c.superseded_by is None,
        c.embedding_model@ == "none"@,
        c.embedding_dim == 0,
{
}

/// What a write stores is what `get` then gives back, and every other chunk is
/// given back as before.
pub proof fn law_get_gives_back_the_write(
    m: &mut BasicMemoryProvider,
    new: NewMemoryChunk,
    reply: HookReply,
    id: String,
    at: Timestamp,
    c: MemoryChunk,
    key: &str,
    was: MemoryResult<Option<MemoryChunk>>,
    now: MemoryResult<Option<MemoryChunk>>,
)
    requires
        call_ensures(BasicMemoryProvider::write_at, (m, new, reply, id, at), Ok(c)),
        call_ensures(BasicMemoryProvider::get, (&*old(m), key), was),
        call_ensures(BasicMemoryProvider::get, (&*final(m), key), now),
    ensures
        was is Ok,
        now is Ok,
        !(reply is Decided && reply->Decided_0 is Redact) && key@ == id@ ==> now->Ok_0 is Some
            && now->Ok_0->Some_0@ == c@,
        (reply is Decided && reply->Decided_0 is Redact) || key@ != id@ ==> (now->Ok_0 is Some
            <==> was->Ok_0 is Some) && (was->Ok_0 is Some ==> now->Ok_0->Some_0@
            == was->Ok_0->Some_0@),
{
}

/// A write touches nothing but the chunks, and of those only the one it
/// answers with.
pub proof fn law_write_touches_one_chunk(
    m: &mut BasicMemoryProvider,
    new: NewMemoryChunk,
    reply: HookReply,
    r: MemoryResult<MemoryChunk>,
    other: Seq<char>,
)
    requires
        call_ensures(BasicMemoryProvider::write, (m, new, reply), r),
    ensures
        r is Ok && !(reply is Decided && reply->Decided_0 is Redact)
            ==> final(m)@.chunks.contains_key(r->Ok_0.id@) && final(m)@.chunks[r->Ok_0.id@]
            == r->Ok_0@,
        (r is Ok ==> r->Ok_0.id@ != other) ==> (final(m)@.chunks.contains_key(other)
            <==> old(m)@.chunks.contains_key(other)) && final(m)@.chunks[other]
            == old(m)@.chunks[other],
        r is Err || (reply is Decided && reply->Decided_0 is Redact) ==> final(m)@.chunks
            == old(m)@.chunks,
        final(m)@.sessions == old(m)@.sessions,
        final(m)@.evictions == old(m)@.evictions,
        final(m)@.accesses == old(m)@.accesses,
        final(m)@.members == old(m)@.members,
        final(m)@.write_hook == old(m)@.write_hook,
        final(m)@.summarizer == old(m)@.summarizer,
{
}

/// A write succeeds exactly when its text has something besides white space and
/// the hook has not failed; a blank text is refused before the hook counts.
pub proof fn law_write_succeeds_or_says_why(
    m: &mut BasicMemoryProvider,
    new: NewMemoryChunk,
    reply: HookReply,
    r: MemoryResult<MemoryChunk>,
)
    requires
        call_ensures(BasicMemoryProvider::write, (m, new, reply), r),
    ensures
        ({
            let visible = exists|i: int|
                0 <= i < new.content@.len() && {
                    let u = #[trigger] new.content@[i] as u32;
                    !(0x9 <= u <= 0xd || u == 0x20 || u == 0x85 || u == 0xa0 || u == 0x1680
                        || 0x2000 <= u <= 0x200a || u == 0x2028 || u == 0x2029 || u == 0x202f
                        || u == 0x205f || u == 0x3000)
                };
            &&& r is Ok <==> visible && !(reply is Failed)
            &&& r is Err && visible ==> r->Err_0@ == reply->Failed_0@
            &&& !visible ==> r is Err && r->Err_0@ == ErrorView::InvalidArgument(
                "content must not be empty"@,
            )
        }),
{
}

/// A redacted write is answered with a stand-in that says why, and that keeps
/// only where the chunk would have belonged.
pub proof fn law_redacted_answer_is_a_stand_in(
    m: &mut BasicMemoryProvider,
    new: NewMemoryChunk,
    reason: String,
    id: String,
    at: Timestamp,
    c: MemoryChunk,
)
    requires
        call_ensures(
            BasicMemoryProvider::write_at,
            (m, new, HookReply::Decided(WriteDecision::Redact { reason }), id, at),
            Ok(c),
        ),
    ensures
        final(m)@ == old(m)@,
        c.id@ == id@,
        c.created_at == at,
        c.kind == new.kind,
        c.source == new.source,
        c.session_id is Some <==> new.session_id is Some,
        new.session_id is Some ==> c.session_id->Some_0@ == new.session_id->Some_0@,
        c.project_root is Some <==> new.project_root is Some,
        new.project_root is Some ==> c.project_root->Some_0@ == new.project_root->Some_0@,
        c.caller_id@ == new.caller_id@,
        c.content@ == "<redacted: "@ + reason@ + ">"@,
        c.metadata@ == JsonView::Object(
            seq![("reason"@, JsonView::Text(reason@)), ("redacted"@, JsonView::Bool(true))],
        ),
        c.importance.bits == 0,
        !c.pinned,
        !c.shareable,
        c.tier == MemoryTier::Session,
        c.superseded_by is None,
        c.embedding_model@ == "none"@,
        c.embedding_dim == 0,
{
}

/// The hook is to be asked exactly where there is one, and about nothing that is
/// blank.
pub proof fn law_hook_is_asked_where_there_is_one(
    m: BasicMemoryProvider,
    new: NewMemoryChunk,
    r: MemoryResult<WriteAction>,
)
    requires
        call_ensures(BasicMemoryProvider::admit_write, (&m, &new), r),
    ensures
        ({
            let visible = exists|i: int|
                0 <= i < new.content@.len() && {
                    let u = #[trigger] new.content@[i] as u32;
                    !(0x9 <= u <= 0xd || u == 0x20 || u == 0x85 || u == 0xa0 || u == 0x1680
                        || 0x2000 <= u <= 0x200a || u == 0x2028 || u == 0x2029 || u == 0x202f
                        || u == 0x205f || u == 0x3000)
                };
            &&& r is Ok <==> visible
            &&& visible ==> (r->Ok_0 is AskHook <==> m@.write_hook)
            &&& !visible ==> r->Err_0@ == ErrorView::InvalidArgument("content must not be empty"@)
        }),
{
}

/// A batch answers each write in its place with a chunk that has the fields of
/// that write, or with its stand-in.
pub proof fn law_batch_answers_each_write(
    m: &mut BasicMemoryProvider,
    writes: Vec<PendingWrite>,
    out: Vec<MemoryChunk>,
    i: int,
)
    requires
        call_ensures(BasicMemoryProvider::write_batch, (m, writes), Ok(out)),
        0 <= i < writes@.len(),
    ensures
        out@.len() == writes@.len(),
        ({
            let new = writes@[i].chunk;
            let reply = writes@[i].reply;
            let c = out@[i];
            &&& c@.kind == new@.kind
            &&& c@.source == new@.source
            &&& c@.session_id == new@.session_id
            &&& c@.project_root == new@.project_root
            &&& c@.caller_id == new@.caller_id
            &&& !(reply is Failed)
            &&& !(reply is Decided && reply->Decided_0 is Redact) ==> {
                &&& c@.content == new@.content
                &&& c@.metadata == new@.metadata
                &&& c@.pinned == new@.pinned
                &&& c@.shareable == new@.shareable
                &&& c@.importance == match new@.importance {
                    Some(x) => x,
                    None => Importance { bits: 0x3f00_0000 },
                }
            }
            &&& reply is Decided && reply->Decided_0 is Redact ==> c@.content == "<redacted: "@
                + reply->Decided_0->reason@ + ">"@
        }),
{
    let states = choose|states: Seq<MemoryView>|
        {
            &&& #[trigger] batch_runs(states, out@, writes@)
            &&& out@.len() == writes@.len()
            &&& states[0] == old(m)@
            &&& states[out@.len() as int] == final(m)@
        };
    assert(write_result(
        states[i],
        states[i + 1],
        writes@[i].chunk@,
        writes@[i].reply,
        Ok(out@[i]),
    ));
}

/// After a batch the memory holds every answer that the hook did not redact and
/// that no later answer with the same id replaced, and every chunk from before
/// whose id no answer has.
pub proof fn law_batch_keeps_its_answers(
    m: &mut BasicMemoryProvider,
    writes: Vec<PendingWrite>,
    out: Vec<MemoryChunk>,
)
    requires
        call_ensures(BasicMemoryProvider::write_batch, (m, writes), Ok(out)),
    ensures
        forall|i: int|
            0 <= i < out@.len() && !(writes@[i].reply is Decided
                && writes@[i].reply->Decided_0 is Redact) && (forall|j: int|
                i < j < out@.len() ==> #[trigger] out@[j].id@ != out@[i].id@)
                ==> final(m)@.chunks.contains_key((#[trigger] out@[i]).id@)
                && final(m)@.chunks[out@[i].id@] == out@[i]@,
        forall|id: Seq<char>| #[trigger]
            old(m)@.chunks.contains_key(id) && (forall|j: int|
                0 <= j < out@.len() ==> #[trigger] out@[j].id@ != id)
                ==> final(m)@.chunks.contains_key(id) && final(m)@.chunks[id]
                == old(m)@.chunks[id],
{
    let states = choose|states: Seq<MemoryView>|
        {
            &&& #[trigger] batch_runs(states, out@, writes@)
            &&& out@.len() == writes@.len()
            &&& states[0] == old(m)@
            &&& states[out@.len() as int] == final(m)@
        };
    assert forall|i: int|
        0 <= i < out@.len() && !(writes@[i].reply is Decided
            && writes@[i].reply->Decided_0 is Redact) && (forall|j: int|
            i < j < out@.len() ==> #[trigger] out@[j].id@ != out@[i].id@)
        implies final(m)@.chunks.contains_key((#[trigger] out@[i]).id@)
        && final(m)@.chunks[out@[i].id@] == out@[i]@ by {
        assert(write_result(
            states[i],
            states[i + 1],
            writes@[i].chunk@,
            writes@[i].reply,
            Ok(out@[i]),
        ));
        lemma_kept_through(states, writes@, out@, i + 1, out@.len() as int, out@[i].id@);
    }
    assert forall|id: Seq<char>| #[trigger]
        old(m)@.chunks.contains_key(id) && (forall|j: int|
            0 <= j < out@.len() ==> #[trigger] out@[j].id@ != id)
        implies final(m)@.chunks.contains_key(id) && final(m)@.chunks[id]
        == old(m)@.chunks[id] by {
        lemma_kept_through(states, writes@, out@, 0, out@.len() as int, id);
    }
}

proof fn lemma_kept_through(
    states: Seq<MemoryView>,
    writes: Seq<PendingWrite>,
    out: Seq<MemoryChunk>,
    from: int,
    to: int,
    id: Seq<char>,
)
    requires
        batch_runs(states, out, writes),
        0 <= from <= to <= out.len(),
        states[from].chunks.contains_key(id),
        forall|j: int| from <= j < to ==> #[trigger] out[j].id@ != id,
    ensures
        states[to].chunks.contains_key(id),
        states[to].chunks[id] == states[from].chunks[id],
    decreases to - from,
{
    if from < to {
        lemma_kept_through(states, writes, out, from, to - 1, id);
        assert(out[to - 1].id@ != id);
        assert(write_result(
            states[to - 1],
            states[to - 1 + 1],
            writes[to - 1].chunk@,
            writes[to - 1].reply,
            Ok(out[to - 1]),
        ));
    }
}

/// A batch succeeds exactly when each of its writes would: no text is blank and
/// the hook failed on none. If it fails, it is with the failure of the first
/// write that fails.
pub proof fn law_batch_fails_with_the_first_failure(
    m: &mut BasicMemoryProvider,
    writes: Vec<PendingWrite>,
    r: MemoryResult<Vec<MemoryChunk>>,
)
    requires
        call_ensures(BasicMemoryProvider::write_batch, (m, writes), r),
    ensures
        r is Ok ==> forall|i: int|
            0 <= i < writes@.len() ==> !((#[trigger] writes@[i]).reply is Failed) && exists|j: int|
                0 <= j < writes@[i].chunk.content@.len() && {
                    let u = #[trigger] writes@[i].chunk.content@[j] as u32;
                    !(0x9 <= u <= 0xd || u == 0x20 || u == 0x85 || u == 0xa0 || u == 0x1680
                        || 0x2000 <= u <= 0x200a || u == 0x2028 || u == 0x2029 || u == 0x202f
                        || u == 0x205f || u == 0x3000)
                },
        r is Err ==> exists|k: int|
            {
                &&& 0 <= k < writes@.len()
                &&& forall|i: int| 0 <= i < k ==> !((#[trigger] writes@[i]).reply is Failed)
                &&& if forall|j: int|
                    0 <= j < (#[trigger] writes@[k]).chunk.content@.len() ==> {
                        let u = #[trigger] writes@[k].chunk.content@[j] as u32;
                        0x9 <= u <= 0xd || u == 0x20 || u == 0x85 || u == 0xa0 || u == 0x1680
                            || 0x2000 <= u <= 0x200a || u == 0x2028 || u == 0x2029 || u == 0x202f
                            || u == 0x205f || u == 0x3000
                    } {
                    r->Err_0@ == ErrorView::InvalidArgument("content must not be empty"@)
                } else {
                    writes@[k].reply is Failed && r->Err_0@ == writes@[k].reply->Failed_0@
                }
            },
{
    match r {
        Ok(out) => {
            let states = choose|states: Seq<MemoryView>|
                {
                    &&& #[trigger] batch_runs(states, out@, writes@)
                    &&& out@.len() == writes@.len()
                    &&& states[0] == old(m)@
                    &&& states[out@.len() as int] == final(m)@
                };
            assert forall|i: int| 0 <= i
                < writes@.len() implies !((#[trigger] writes@[i]).reply is Failed)
                && !blank(writes@[i].chunk.content@) by {
                assert(write_result(
                    states[i],
                    states[i + 1],
                    writes@[i].chunk@,
                    writes@[i].reply,
                    Ok(out@[i]),
                ));
            }
        },
        Err(e) => {
            let (states, done) = choose|states: Seq<MemoryView>, done: Seq<MemoryChunk>|
                {
                    &&& #[trigger] batch_runs(states, done, writes@)
                    &&& done.len() < writes@.len()
                    &&& states[0] == old(m)@
                    &&& states[done.len() as int] == final(m)@
                    &&& write_error(
                        writes@[done.len() as int].chunk@.content,
                        writes@[done.len() as int].reply,
                    ) == Some(e@)
                };
            let k = done.len() as int;
            assert forall|i: int| 0 <= i < k implies !((#[trigger] writes@[i]).reply is Failed) by {
                assert(write_result(
                    states[i],
                    states[i + 1],
                    writes@[i].chunk@,
                    writes@[i].reply,
                    Ok(done[i]),
                ));
            }
            assert(0 <= k < writes@.len() && writes@[k] == writes@[k]);
        },
    }
}

// Sessions

/// An opened session has what was handed in, and is running, without summary
/// and without end; it is filed under its id, and nothing else changes.
pub proof fn law_opened_session_has_every_field(
    m: &mut BasicMemoryProvider,
    init: NewMemorySession,
    id: String,
    at: Timestamp,
    r: MemoryResult<MemorySession>,
)
    requires
        call_ensures(BasicMemoryProvider::open_session_at, (m, init, id, at), r),
    ensures
        r is Ok,
        ({
            let s = r->Ok_0;
            &&& s.id@ == id@
            &&& s.started_at == at
            &&& s.ended_at is None
            &&& s.caller_id@ == init.caller_id@
            &&& s.title is Some <==> init.title is Some
            &&& init.title is Some ==> s.title->Some_0@ == init.title->Some_0@
            &&& s.summary is None
            &&& s.outcome == SessionOutcome::Open
            &&& s.metadata@ == init.metadata@
            &&& final(m)@.sessions == old(m)@.sessions.insert(id@, s@)
        }),
        final(m)@.chunks == old(m)@.chunks,
        final(m)@.evictions == old(m)@.evictions,
        final(m)@.accesses == old(m)@.accesses,
        final(m)@.members == old(m)@.members,
{
}

/// The same of a session opened under a fresh id at the present instant.
pub proof fn law_fresh_session_has_every_field(
    m: &mut BasicMemoryProvider,
    init: NewMemorySession,
    r: MemoryResult<MemorySession>,
)
    requires
        call_ensures(BasicMemoryProvider::open_session, (m, init), r),
    ensures
        r is Ok,
        ({
            let s = r->Ok_0;
            &&& s.id@.len() == 36
            &&& s.id@[14] == '7'
            &&& s.started_at.secs() >= 0
            &&& s.ended_at is None
            &&& s.caller_id@ == init.caller_id@
            &&& s.title is Some <==> init.title is Some
            &&& init.title is Some ==> s.title->Some_0@ == init.title->Some_0@
            &&& s.summary is None
            &&& s.outcome == SessionOutcome::Open
            &&& s.metadata@ == init.metadata@
            &&& final(m)@.sessions == old(m)@.sessions.insert(s.id@, s@)
        }),
        final(m)@.chunks == old(m)@.chunks,
        final(m)@.evictions == old(m)@.evictions,
        final(m)@.accesses == old(m)@.accesses,
        final(m)@.members == old(m)@.members,
{
}

/// Closing gives a session its end and its outcome, an open one counting as
/// aborted, and leaves its other fields, the other sessions and the rest alone;
/// a session that is not there is reported.
pub proof fn law_close_ends_one_session(
    m: &mut BasicMemoryProvider,
    session_id: &str,
    outcome: SessionOutcome,
    at: Timestamp,
    r: MemoryResult<()>,
    other: Seq<char>,
)
    requires
        old(m).wf(),
        call_ensures(BasicMemoryProvider::close_session_at, (m, session_id, outcome, at), r),
    ensures
        r is Ok <==> old(m)@.sessions.contains_key(session_id@),
        r is Err ==> r->Err_0@ == ErrorView::NotFound("session "@ + session_id@) && final(m)@
            == old(m)@,
        r is Ok ==> {
            let was = old(m)@.sessions[session_id@];
            let now = final(m)@.sessions[session_id@];
            &&& final(m)@.sessions.contains_key(session_id@)
            &&& now.ended_at == Some(at)
            &&& outcome == SessionOutcome::Success ==> now.outcome == SessionOutcome::Success
            &&& outcome != SessionOutcome::Success ==> now.outcome == SessionOutcome::Aborted
            &&& now.id == was.id
            &&& now.started_at == was.started_at
            &&& now.caller_id == was.caller_id
            &&& now.title == was.title
            &&& now.summary == was.summary
            &&& now.metadata == was.metadata
        },
        other != session_id@ ==> (final(m)@.sessions.contains_key(other)
            <==> old(m)@.sessions.contains_key(other)) && final(m)@.sessions[other]
            == old(m)@.sessions[other],
        final(m)@.chunks == old(m)@.chunks,
        final(m)@.evictions == old(m)@.evictions,
        final(m)@.accesses == old(m)@.accesses,
        final(m)@.members == old(m)@.members,
{
    old(m).lemma_coherent();
}

/// The same of closing a session at the present instant.
pub proof fn law_close_now_ends_one_session(
    m: &mut BasicMemoryProvider,
    session_id: &str,
    outcome: SessionOutcome,
    r: MemoryResult<()>,
    other: Seq<char>,
)
    requires
        old(m).wf(),
        call_ensures(BasicMemoryProvider::close_session, (m, session_id, outcome), r),
    ensures
        r is Ok <==> old(m)@.sessions.contains_key(session_id@),
        r is Err ==> r->Err_0@ == ErrorView::NotFound("session "@ + session_id@) && final(m)@
            == old(m)@,
        r is Ok ==> {
            let was = old(m)@.sessions[session_id@];
            let now = final(m)@.sessions[session_id@];
            &&& final(m)@.sessions.contains_key(session_id@)
            &&& now.ended_at is Some
            &&& now.ended_at->Some_0.secs() >= 0
            &&& outcome == SessionOutcome::Success ==> now.outcome == SessionOutcome::Success
            &&& outcome != SessionOutcome::Success ==> now.outcome == SessionOutcome::Aborted
            &&& now.id == was.id
            &&& now.started_at == was.started_at
            &&& now.caller_id == was.caller_id
            &&& now.title == was.title
            &&& now.summary == was.summary
            &&& now.metadata == was.metadata
        },
        other != session_id@ ==> (final(m)@.sessions.contains_key(other)
            <==> old(m)@.sessions.contains_key(other)) && final(m)@.sessions[other]
            == old(m)@.sessions[other],
        final(m)@.chunks == old(m)@.chunks,
        final(m)@.evictions == old(m)@.evictions,
        final(m)@.accesses == old(m)@.accesses,
        final(m)@.members == old(m)@.members,
{
    old(m).lemma_coherent();
}

/// Renaming changes a session's title and nothing else; a session that is not
/// there is reported.
pub proof fn law_rename_changes_the_title(
    m: &mut BasicMemoryProvider,
    session_id: &str,
    title: &str,
    r: MemoryResult<()>,
    other: Seq<char>,
)
    requires
        old(m).wf(),
        call_ensures(BasicMemoryProvider::rename_session, (m, session_id, title), r),
    ensures
        r is Ok <==> old(m)@.sessions.contains_key(session_id@),
        r is Err ==> r->Err_0@ == ErrorView::NotFound("session "@ + session_id@) && final(m)@
            == old(m)@,
        r is Ok ==> {
            let was = old(m)@.sessions[session_id@];
            let now = final(m)@.sessions[session_id@];
            &&& final(m)@.sessions.contains_key(session_id@)
            &&& now.title == Some(title@)
            &&& now.id == was.id
            &&& now.started_at == was.started_at
            &&& now.ended_at == was.ended_at
            &&& now.caller_id == was.caller_id
            &&& now.summary == was.summary
            &&& now.outcome == was.outcome
            &&& now.metadata == was.metadata
        },
        other != session_id@ ==> (final(m)@.sessions.contains_key(other)
            <==> old(m)@.sessions.contains_key(other)) && final(m)@.sessions[other]
            == old(m)@.sessions[other],
        final(m)@.chunks == old(m)@.chunks,
        final(m)@.evictions == old(m)@.evictions,
        final(m)@.accesses == old(m)@.accesses,
        final(m)@.members == old(m)@.members,
{
    old(m).lemma_coherent();
}

/// A session that was opened is given back by its id, and every other session
/// as before.
pub proof fn law_get_session_gives_back_the_opened(
    m: &mut BasicMemoryProvider,
    init: NewMemorySession,
    id: String,
    at: Timestamp,
    s: MemorySession,
    key: &str,
    was: MemoryResult<Option<MemorySession>>,
    now: MemoryResult<Option<MemorySession>>,
)
    requires
        call_ensures(BasicMemoryProvider::open_session_at, (m, init, id, at), Ok(s)),
        call_ensures(BasicMemoryProvider::get_session, (&*old(m), key), was),
        call_ensures(BasicMemoryProvider::get_session, (&*final(m), key), now),
    ensures
        was is Ok,
        now is Ok,
        key@ == id@ ==> now->Ok_0 is Some && now->Ok_0->Some_0@ == s@,
        key@ != id@ ==> (now->Ok_0 is Some <==> was->Ok_0 is Some) && (was->Ok_0 is Some
            ==> now->Ok_0->Some_0@ == was->Ok_0->Some_0@),
{
}

// Updates and logs

/// A pin changes the pin of one chunk and nothing else; a chunk that is not
/// there is reported.
pub proof fn law_pin_changes_the_pin(
    m: &mut BasicMemoryProvider,
    chunk_id: &str,
    pinned: bool,
    r: MemoryResult<()>,
    other: Seq<char>,
)
    requires
        old(m).wf(),
        call_ensures(BasicMemoryProvider::pin, (m, chunk_id, pinned), r),
    ensures
        r is Ok <==> old(m)@.chunks.contains_key(chunk_id@),
        r is Err ==> r->Err_0@ == ErrorView::NotFound("chunk "@ + chunk_id@) && final(m)@
            == old(m)@,
        r is Ok ==> {
            let was = old(m)@.chunks[chunk_id@];
            let now = final(m)@.chunks[chunk_id@];
            &&& final(m)@.chunks.contains_key(chunk_id@)
            &&& now.pinned == pinned
            &&& now == (ChunkView { pinned: now.pinned, ..was })
        },
        other != chunk_id@ ==> (final(m)@.chunks.contains_key(other)
            <==> old(m)@.chunks.contains_key(other)) && final(m)@.chunks[other]
            == old(m)@.chunks[other],
        final(m)@.sessions == old(m)@.sessions,
        final(m)@.evictions == old(m)@.evictions,
        final(m)@.accesses == old(m)@.accesses,
        final(m)@.members == old(m)@.members,
{
    old(m).lemma_coherent();
}

/// Giving a chunk another importance, or another chunk in its place, is
/// accepted and changes nothing.
pub proof fn law_importance_and_supersession_stay(
    m: &mut BasicMemoryProvider,
    n: &mut BasicMemoryProvider,
    a: &str,
    b: &str,
    importance: Importance,
    r: MemoryResult<()>,
    q: MemoryResult<()>,
)
    requires
        call_ensures(BasicMemoryProvider::update_importance, (m, a, importance), r),
        call_ensures(BasicMemoryProvider::supersede, (n, a, b), q),
    ensures
        r is Ok,
        final(m)@ == old(m)@,
        q is Ok,
        final(n)@ == old(n)@,
{
}

/// An access is logged last, with the chunk, who retrieved it, whether it was
/// used and when; nothing else changes, and of a chunk that is not there nothing
/// is logged.
pub proof fn law_access_is_logged_last(
    m: &mut BasicMemoryProvider,
    chunk_id: &str,
    retrieved_by: &str,
    used: bool,
    at: Timestamp,
    r: MemoryResult<()>,
)
    requires
        call_ensures(
            BasicMemoryProvider::record_access_at,
            (m, chunk_id, retrieved_by, used, at),
            r,
        ),
    ensures
        r is Ok <==> old(m)@.chunks.contains_key(chunk_id@),
        r is Err ==> r->Err_0@ == ErrorView::NotFound("chunk "@ + chunk_id@) && final(m)@
            == old(m)@,
        r is Ok ==> {
            let log = final(m)@.accesses;
            &&& log.len() == old(m)@.accesses.len() + 1
            &&& log.drop_last() == old(m)@.accesses
            &&& log.last().ts == at
            &&& log.last().chunk_id == chunk_id@
            &&& log.last().retrieved_by == retrieved_by@
            &&& log.last().query_hash.len() == 0
            &&& log.last().rank == 0
            &&& log.last().used == used
        },
        final(m)@.chunks == old(m)@.chunks,
        final(m)@.sessions == old(m)@.sessions,
        final(m)@.evictions == old(m)@.evictions,
        final(m)@.members == old(m)@.members,
{
    if r is Ok {
        assert(final(m)@.accesses.drop_last() =~= old(m)@.accesses);
    }
}

/// The same of an access that is logged at the present instant.
pub proof fn law_access_now_is_logged_last(
    m: &mut BasicMemoryProvider,
    chunk_id: &str,
    retrieved_by: &str,
    used: bool,
    r: MemoryResult<()>,
)
    requires
        call_ensures(BasicMemoryProvider::record_access, (m, chunk_id, retrieved_by, used), r),
    ensures
        r is Ok <==> old(m)@.chunks.contains_key(chunk_id@),
        r is Err ==> r->Err_0@ == ErrorView::NotFound("chunk "@ + chunk_id@) && final(m)@
            == old(m)@,
        r is Ok ==> {
            let log = final(m)@.accesses;
            &&& log.len() == old(m)@.accesses.len() + 1
            &&& log.drop_last() == old(m)@.accesses
            &&& log.last().ts.secs() >= 0
            &&& log.last().chunk_id == chunk_id@
            &&& log.last().retrieved_by == retrieved_by@
            &&& log.last().query_hash.len() == 0
            &&& log.last().rank == 0
            &&& log.last().used == used
        },
        final(m)@.chunks == old(m)@.chunks,
        final(m)@.sessions == old(m)@.sessions,
        final(m)@.evictions == old(m)@.evictions,
        final(m)@.members == old(m)@.members,
{
    if r is Ok {
        assert(final(m)@.accesses.drop_last() =~= old(m)@.accesses);
    }
}

/// A new memory holds nothing; a hook and a summarizer can be had without
/// touching what it holds.
pub proof fn law_hook_and_summarizer_touch_nothing(
    made: BasicMemoryProvider,
    m: BasicMemoryProvider,
    hooked: BasicMemoryProvider,
    summarizing: BasicMemoryProvider,
)
    requires
        call_ensures(BasicMemoryProvider::new, (), made),
        call_ensures(BasicMemoryProvider::with_write_hook, (m,), hooked),
        call_ensures(BasicMemoryProvider::with_summarizer, (m,), summarizing),
    ensures
        forall|id: Seq<char>| !made@.chunks.contains_key(id),
        forall|id: Seq<char>| !made@.sessions.contains_key(id),
        made@.evictions.len() == 0,
        made@.accesses.len() == 0,
        !made@.write_hook,
        !made@.summarizer,
        hooked@.write_hook,
        hooked@.summarizer == m@.summarizer,
        hooked@.chunks == m@.chunks,
        hooked@.sessions == m@.sessions,
        hooked@.evictions == m@.evictions,
        hooked@.accesses == m@.accesses,
        hooked@.members == m@.members,
        summarizing@.summarizer,
        summarizing@.write_hook == m@.write_hook,
        summarizing@.chunks == m@.chunks,
        summarizing@.sessions == m@.sessions,
        summarizing@.evictions == m@.evictions,
        summarizing@.accesses == m@.accesses,
        summarizing@.members == m@.members,
{
}

/// Attaching sets the two flags and touches nothing else.
pub proof fn law_attach_touches_nothing(m: &mut BasicMemoryProvider, hook: bool, summarizer: bool)
    requires
        call_ensures(BasicMemoryProvider::attach, (m, hook, summarizer), ()),
    ensures
        final(m)@.write_hook == hook,
        final(m)@.summarizer == summarizer,
        final(m)@.chunks == old(m)@.chunks,
        final(m)@.sessions == old(m)@.sessions,
        final(m)@.evictions == old(m)@.evictions,
        final(m)@.accesses == old(m)@.accesses,
        final(m)@.members == old(m)@.members,
{
}

} // verus!
