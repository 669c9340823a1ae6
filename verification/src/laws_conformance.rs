//! What the checks of a provider try and what they find, call by call.

use crate::basic::BasicMemoryProvider;
use crate::chunk::{ChunkKind, ChunkSource, ChunkView, MemoryChunk, MemoryTier, NewMemoryChunk};
use crate::conformance::{
    assert_retrieve_finds_written, assert_session_lifecycle, assert_summarize_session_roundtrip,
    assert_write_get_stats, assert_write_get_stats_at, check_counted, check_fetched, check_outcome,
    check_persisted, check_retrieved, check_summary, just_opened, probe_chunk, probe_query,
    probe_session, probe_turn, probed, turn_written, turns_written, Verdict, LIFECYCLE_TITLE,
    LIFECYCLE_TURN, SUMMARY_TITLE,
};
use crate::error::ErrorView;
use crate::json::JsonView;
use crate::listing::{matching, views};
use crate::model::MemoryView;
use crate::ops::MemoryStats;
use crate::query::{CallerScope, MemoryQuery, RetrievalProfile};
use crate::rollup::session_result;
use crate::session::{MemorySession, NewMemorySession, SessionOutcome, SessionView};
use crate::summarizer::SummaryReply;
use crate::text::lowercase;
use crate::time::Timestamp;
use crate::write_hook::HookReply;
use vstd::prelude::*;

verus! {

// Probes

/// A probe is a plain chat chunk with the content, outside of sessions or in the
/// session, for the session's caller.
pub proof fn law_probe_is_a_plain_chat_chunk(
    content: &str,
    new: NewMemoryChunk,
    s: MemorySession,
    turn: NewMemoryChunk,
)
    requires
        call_ensures(probe_chunk, (content,), new),
        call_ensures(probe_turn, (&s, content), turn),
    ensures
        new.kind == ChunkKind::Chat,
        new.source == ChunkSource::Embedded,
        new.session_id is None,
        new.project_root is None,
        new.caller_id@ == "conformance"@,
        new.content@ == content@,
        new.metadata@ == JsonView::Null,
        new.importance is None,
        !new.shareable,
        !new.pinned,
        turn.kind == ChunkKind::Chat,
        turn.source == ChunkSource::Embedded,
        turn.session_id is Some,
        turn.session_id->Some_0@ == s.id@,
        turn.project_root is None,
        turn.caller_id@ == s.caller_id@,
        turn.content@ == content@,
        turn.metadata@ == JsonView::Null,
        turn.importance is None,
        !turn.shareable,
        !turn.pinned,
{
    assert(new@.session_id is None && new@.project_root is None);
    assert(turn@.session_id is Some && turn@.project_root is None);
}

/// A probing session has the title and belongs to the caller that probes; a
/// probing query asks for the content among every caller's chat.
pub proof fn law_probing_query_asks_every_caller(
    text: &str,
    init: NewMemorySession,
    q: MemoryQuery,
)
    requires
        call_ensures(probe_session, (text,), init),
        call_ensures(probe_query, (text,), q),
    ensures
        init.caller_id@ == "conformance"@,
        init.title is Some,
        init.title->Some_0@ == text@,
        init.metadata@ == JsonView::Null,
        q.text@ == text@,
        q.kinds is Some,
        q.kinds->Some_0@ == seq![ChunkKind::Chat],
        q.since is None,
        q.until is None,
        q.session_id is None,
        q.caller_scope == CallerScope::Global,
        q.project_root_prefix is None,
        q.k == 8,
        q.include_rollups,
        q.min_importance is None,
        q.profile == RetrievalProfile::AgentChatTurn,
        q.caller_id@ == "conformance"@,
{
}

// Verdicts

/// What is read back of a chunk passes exactly when it is there with the
/// content.
pub proof fn law_fetched_chunk_has_the_content(
    chunk: MemoryChunk,
    fetched: Option<MemoryChunk>,
    r: Verdict<()>,
)
    requires
        call_ensures(check_fetched, (&chunk, &fetched), r),
    ensures
        r is Ok <==> fetched is Some && fetched->Some_0.content@ == chunk.content@,
        fetched is None ==> r->Err_0 is Memory && r->Err_0->Memory_0@ == ErrorView::NotFound(
            chunk.id@,
        ),
        r is Err && fetched is Some ==> r->Err_0 is ContentDiffers,
{
}

/// Figures after a write pass exactly when they count a chunk; a summary, when
/// it is of the kind of one; what is read back of it, when there is anything.
pub proof fn law_plain_verdicts(
    stats: MemoryStats,
    counted: Verdict<()>,
    summary: MemoryChunk,
    kind: Verdict<()>,
    found: Option<MemoryChunk>,
    kept: Verdict<()>,
)
    requires
        call_ensures(check_counted, (&stats,), counted),
        call_ensures(check_summary, (&summary,), kind),
        call_ensures(check_persisted, (&found,), kept),
    ensures
        counted is Ok <==> stats.total_chunks >= 1,
        counted is Err ==> counted->Err_0 is NothingCounted,
        kind is Ok <==> summary.kind == ChunkKind::JobSummary,
        kind is Err ==> kind->Err_0 is NoSummary,
        kept is Ok <==> found is Some,
        kept is Err ==> kept->Err_0 is SummaryNotPersisted,
{
}

/// What a query brings back passes exactly when one of the hits, whichever, has
/// the chunk's id.
pub proof fn law_any_hit_with_the_id_passes(
    chunk: MemoryChunk,
    hits: Vec<MemoryChunk>,
    r: Verdict<()>,
)
    requires
        call_ensures(check_retrieved, (&chunk, &hits), r),
    ensures
        r is Ok <==> exists|i: int| 0 <= i < hits@.len() && (#[trigger] hits@[i]).id@ == chunk.id@,
        r is Err ==> r->Err_0 is NotRetrieved && r->Err_0->hits == hits@.len(),
{
    let shown: Seq<ChunkView> = views(hits@);
    assert(shown.len() == hits@.len());
    if exists|i: int| 0 <= i < hits@.len() && (#[trigger] hits@[i]).id@ == chunk.id@ {
        let i = choose|i: int| 0 <= i < hits@.len() && (#[trigger] hits@[i]).id@ == chunk.id@;
        assert(shown[i].id == chunk.id@);
    }
    if r is Ok {
        let i = choose|i: int| 0 <= i < shown.len() && #[trigger] shown[i].id == chunk@.id;
        assert(hits@[i].id@ == chunk.id@);
    }
}

/// A session passes exactly when it is there and stands as it should, and is
/// handed on.
pub proof fn law_session_stands_as_it_should(
    session_id: &str,
    found: Option<MemorySession>,
    outcome: SessionOutcome,
    r: Verdict<MemorySession>,
)
    requires
        call_ensures(check_outcome, (session_id, found, outcome), r),
    ensures
        r is Ok <==> found is Some && found->Some_0.outcome == outcome,
        r is Ok ==> r->Ok_0@ == found->Some_0@,
        found is None ==> r->Err_0 is Memory && r->Err_0->Memory_0@ == ErrorView::NotFound(
            session_id@,
        ),
        r is Err && found is Some ==> r->Err_0 is WrongOutcome,
{
}

// Checks

/// The check of a write passes when the content can be written and is not
/// redacted: the probe is stored, and it is counted. What cannot be written is
/// reported with its error, and a redacted probe as missing, unless there is a
/// chunk under its id already.
pub proof fn law_write_check_passes_for_what_is_stored(
    m: &mut BasicMemoryProvider,
    content: &str,
    reply: HookReply,
    id: String,
    at: Timestamp,
    r: Verdict<(MemoryChunk, MemoryStats)>,
)
    requires
        old(m).wf(),
        call_ensures(assert_write_get_stats_at, (m, content, reply, id, at), r),
    ensures
        ({
            let visible = exists|i: int|
                0 <= i < content@.len() && {
                    let u = #[trigger] content@[i] as u32;
                    !(0x9 <= u <= 0xd || u == 0x20 || u == 0x85 || u == 0xa0 || u == 0x1680
                        || 0x2000 <= u <= 0x200a || u == 0x2028 || u == 0x2029 || u == 0x202f
                        || u == 0x205f || u == 0x3000)
                };
            let redacted = reply is Decided && reply->Decided_0 is Redact;
            &&& !visible || reply is Failed ==> {
                &&& final(m)@ == old(m)@
                &&& r is Err
                &&& r->Err_0 is Memory
                &&& r->Err_0->Memory_0@ == if visible {
                    reply->Failed_0@
                } else {
                    ErrorView::InvalidArgument("content must not be empty"@)
                }
            }
            &&& visible && !(reply is Failed) && !redacted ==> {
                let c = r->Ok_0.0@;
                &&& r is Ok
                &&& c.id == id@
                &&& c.created_at == at
                &&& c.kind == ChunkKind::Chat
                &&& c.source == ChunkSource::Embedded
                &&& c.session_id == None::<Seq<char>>
                &&& c.project_root is None
                &&& c.caller_id == "conformance"@
                &&& c.content == content@
                &&& c.metadata == JsonView::Null
                &&& c.importance.bits == 0x3f00_0000
                &&& !c.pinned
                &&& !c.shareable
                &&& c.tier == MemoryTier::Session
                &&& c.superseded_by is None
                &&& c.embedding_model == "none"@
                &&& c.embedding_dim == 0
                &&& final(m)@.chunks == old(m)@.chunks.insert(id@, c)
                &&& final(m)@.sessions == old(m)@.sessions
                &&& r->Ok_0.1.total_chunks == final(m)@.chunks.len()
                &&& r->Ok_0.1.total_chunks >= 1
                &&& r->Ok_0.1.total_sessions == old(m)@.sessions.len()
            }
            &&& visible && redacted ==> {
                &&& final(m)@ == old(m)@
                &&& !old(m)@.chunks.contains_key(id@) ==> r is Err && r->Err_0 is Memory
                    && r->Err_0->Memory_0@ == ErrorView::NotFound(id@)
                &&& old(m)@.chunks.contains_key(id@) ==> (r is Ok <==> old(
                    m,
                )@.chunks[id@].content == "<redacted: "@ + reply->Decided_0->reason@ + ">"@)
                &&& old(m)@.chunks.contains_key(id@) && r is Err ==> r->Err_0 is ContentDiffers
            }
        }),
        final(m)@.evictions == old(m)@.evictions,
        final(m)@.accesses == old(m)@.accesses,
        final(m)@.members == old(m)@.members,
        final(m)@.write_hook == old(m)@.write_hook,
        final(m)@.summarizer == old(m)@.summarizer,
{
    old(m).lemma_coherent();
    lemma_one_at_least(old(m)@.chunks, id@, r->Ok_0.0@);
}

/// With a chunk put in, there is at least one.
proof fn lemma_one_at_least(m: Map<Seq<char>, ChunkView>, id: Seq<char>, c: ChunkView)
    requires
        m.dom().finite(),
    ensures
        m.insert(id, c).len() >= 1,
{
    let all = m.insert(id, c).dom();
    assert(all.contains(id));
    if all.len() == 0 {
        assert(all =~= Set::<Seq<char>>::empty());
    }
}

/// The same under a fresh id at the present instant; a redacted probe leaves
/// the memory as it was.
pub proof fn law_fresh_write_check_passes_for_what_is_stored(
    m: &mut BasicMemoryProvider,
    content: &str,
    reply: HookReply,
    r: Verdict<(MemoryChunk, MemoryStats)>,
)
    requires
        old(m).wf(),
        call_ensures(assert_write_get_stats, (m, content, reply), r),
    ensures
        ({
            let visible = exists|i: int|
                0 <= i < content@.len() && {
                    let u = #[trigger] content@[i] as u32;
                    !(0x9 <= u <= 0xd || u == 0x20 || u == 0x85 || u == 0xa0 || u == 0x1680
                        || 0x2000 <= u <= 0x200a || u == 0x2028 || u == 0x2029 || u == 0x202f
                        || u == 0x205f || u == 0x3000)
                };
            let redacted = reply is Decided && reply->Decided_0 is Redact;
            &&& !visible || reply is Failed ==> {
                &&& final(m)@ == old(m)@
                &&& r is Err
                &&& r->Err_0 is Memory
                &&& r->Err_0->Memory_0@ == if visible {
                    reply->Failed_0@
                } else {
                    ErrorView::InvalidArgument("content must not be empty"@)
                }
            }
            &&& visible && !(reply is Failed) && !redacted ==> {
                let c = r->Ok_0.0@;
                &&& r is Ok
                &&& c.id.len() == 36
                &&& c.id[14] == '7'
                &&& c.created_at.secs() >= 0
                &&& 0 <= c.created_at.nanos() < 1_000_000_000
                &&& c.kind == ChunkKind::Chat
                &&& c.source == ChunkSource::Embedded
                &&& c.session_id == None::<Seq<char>>
                &&& c.project_root is None
                &&& c.caller_id == "conformance"@
                &&& c.content == content@
                &&& c.metadata == JsonView::Null
                &&& c.importance.bits == 0x3f00_0000
                &&& !c.pinned
                &&& !c.shareable
                &&& c.tier == MemoryTier::Session
                &&& c.superseded_by is None
                &&& c.embedding_model == "none"@
                &&& c.embedding_dim == 0
                &&& final(m)@.chunks == old(m)@.chunks.insert(c.id, c)
                &&& final(m)@.sessions == old(m)@.sessions
                &&& r->Ok_0.1.total_chunks == final(m)@.chunks.len()
                &&& r->Ok_0.1.total_sessions == old(m)@.sessions.len()
            }
            &&& visible && redacted ==> final(m)@ == old(m)@
            &&& visible && redacted && r is Err ==> r->Err_0 is Memory
                || r->Err_0 is ContentDiffers
        }),
        final(m)@.evictions == old(m)@.evictions,
        final(m)@.accesses == old(m)@.accesses,
        final(m)@.members == old(m)@.members,
        final(m)@.write_hook == old(m)@.write_hook,
        final(m)@.summarizer == old(m)@.summarizer,
{
}

/// The check of retrieval passes when the content can be written and is not
/// redacted, and fewer than eight chat chunks held it, whatever the case of the
/// letters. The probe that it then hands on is stored, and a redacted one leaves
/// the memory as it was.
pub proof fn law_retrieval_check_passes_for_what_is_stored(
    m: &mut BasicMemoryProvider,
    content: &str,
    reply: HookReply,
    r: Verdict<MemoryChunk>,
)
    requires
        old(m).wf(),
        call_ensures(assert_retrieve_finds_written, (m, content, reply), r),
    ensures
        ({
            let visible = exists|i: int|
                0 <= i < content@.len() && {
                    let u = #[trigger] content@[i] as u32;
                    !(0x9 <= u <= 0xd || u == 0x20 || u == 0x85 || u == 0xa0 || u == 0x1680
                        || 0x2000 <= u <= 0x200a || u == 0x2028 || u == 0x2029 || u == 0x202f
                        || u == 0x205f || u == 0x3000)
                };
            let redacted = reply is Decided && reply->Decided_0 is Redact;
            let needle = lowercase(content@);
            let held = old(m)@.chunks.dom().filter(
                |id: Seq<char>|
                    {
                        let c = old(m)@.chunks[id];
                        &&& c.kind == ChunkKind::Chat
                        &&& exists|k: int|
                            0 <= k <= lowercase(c.content).len() - needle.len()
                                && #[trigger] lowercase(c.content).subrange(k, k + needle.len())
                                == needle
                    },
            ).len();
            &&& !visible || reply is Failed ==> {
                &&& final(m)@ == old(m)@
                &&& r is Err
                &&& r->Err_0 is Memory
                &&& r->Err_0->Memory_0@ == if visible {
                    reply->Failed_0@
                } else {
                    ErrorView::InvalidArgument("content must not be empty"@)
                }
            }
            &&& visible && !(reply is Failed) && !redacted && held < 8 ==> r is Ok
            &&& visible && !(reply is Failed) && r is Err ==> r->Err_0 is NotRetrieved
                && r->Err_0->hits <= 8
            &&& r is Ok && !redacted ==> {
                let c = r->Ok_0@;
                &&& c.id.len() == 36
                &&& c.id[14] == '7'
                &&& c.created_at.secs() >= 0
                &&& 0 <= c.created_at.nanos() < 1_000_000_000
                &&& c.kind == ChunkKind::Chat
                &&& c.source == ChunkSource::Embedded
                &&& c.session_id == None::<Seq<char>>
                &&& c.project_root is None
                &&& c.caller_id == "conformance"@
                &&& c.content == content@
                &&& c.metadata == JsonView::Null
                &&& c.importance.bits == 0x3f00_0000
                &&& !c.pinned
                &&& !c.shareable
                &&& c.tier == MemoryTier::Session
                &&& c.superseded_by is None
                &&& c.embedding_model == "none"@
                &&& c.embedding_dim == 0
                &&& final(m)@.chunks == old(m)@.chunks.insert(c.id, c)
            }
            &&& redacted ==> final(m)@ == old(m)@
        }),
        final(m)@.sessions == old(m)@.sessions,
        final(m)@.evictions == old(m)@.evictions,
        final(m)@.accesses == old(m)@.accesses,
        final(m)@.members == old(m)@.members,
        final(m)@.write_hook == old(m)@.write_hook,
        final(m)@.summarizer == old(m)@.summarizer,
{
    old(m).lemma_coherent();
    let needle = lowercase(content@);
    assert(matching(old(m)@.chunks, probed(content@)) =~= old(m)@.chunks.dom().filter(
        |id: Seq<char>|
            {
                let c = old(m)@.chunks[id];
                &&& c.kind == ChunkKind::Chat
                &&& exists|k: int|
                    0 <= k <= lowercase(c.content).len() - needle.len()
                        && #[trigger] lowercase(c.content).subrange(k, k + needle.len()) == needle
            },
    ));
}

/// The check of a session's life passes whenever the hook does not fail: the
/// session is there afterwards, closed with success, and so is the turn that was
/// written in it, unless it was redacted.
pub proof fn law_lifecycle_check_passes_unless_the_hook_fails(
    m: &mut BasicMemoryProvider,
    reply: HookReply,
    r: Verdict<MemorySession>,
)
    requires
        old(m).wf(),
        call_ensures(assert_session_lifecycle, (m, reply), r),
    ensures
        r is Ok <==> !(reply is Failed),
        r is Err ==> r->Err_0 is Memory && r->Err_0->Memory_0@ == reply->Failed_0@
            && final(m)@.chunks == old(m)@.chunks,
        r is Ok ==> {
            let s = r->Ok_0@;
            &&& s.id.len() == 36
            &&& s.id[14] == '7'
            &&& s.started_at.secs() >= 0
            &&& s.ended_at is Some
            &&& s.ended_at->Some_0.secs() >= 0
            &&& s.caller_id == "conformance"@
            &&& s.title == Some("conformance session"@)
            &&& s.summary is None
            &&& s.outcome == SessionOutcome::Success
            &&& s.metadata == JsonView::Null
            &&& final(m)@.sessions == old(m)@.sessions.insert(s.id, s)
        },
        r is Ok && reply is Decided && reply->Decided_0 is Redact ==> final(m)@.chunks
            == old(m)@.chunks,
        r is Ok && !(reply is Decided && reply->Decided_0 is Redact) ==> exists|c: ChunkView|
            {
                &&& final(m)@.chunks == #[trigger] old(m)@.chunks.insert(c.id, c)
                &&& c.id.len() == 36
                &&& c.kind == ChunkKind::Chat
                &&& c.source == ChunkSource::Embedded
                &&& c.session_id == Some(r->Ok_0.id@)
                &&& c.project_root is None
                &&& c.caller_id == "conformance"@
                &&& c.content == "session-scoped turn"@
                &&& c.metadata == JsonView::Null
                &&& c.importance.bits == 0x3f00_0000
                &&& !c.pinned
                &&& !c.shareable
                &&& c.tier == MemoryTier::Session
                &&& c.superseded_by is None
                &&& c.embedding_model == "none"@
                &&& c.embedding_dim == 0
            },
        final(m)@.evictions == old(m)@.evictions,
        final(m)@.accesses == old(m)@.accesses,
        final(m)@.members == old(m)@.members,
        final(m)@.write_hook == old(m)@.write_hook,
        final(m)@.summarizer == old(m)@.summarizer,
{
    if r is Ok {
        let closed = r->Ok_0@;
        let s = SessionView { ended_at: None, outcome: SessionOutcome::Open, ..closed };
        let (written, c) = choose|written: MemoryView, c: ChunkView|
            {
                &&& #[trigger] turn_written(
                    old(m)@.with_session(s),
                    written,
                    s,
                    LIFECYCLE_TURN@,
                    reply,
                    c,
                )
                &&& final(m)@ == written.with_session(closed)
            };
        assert(final(m)@.sessions =~= old(m)@.sessions.insert(closed.id, closed));
        assert(!(reply is Decided && reply->Decided_0 is Redact) ==> final(m)@.chunks
            == old(m)@.chunks.insert(c.id, c));
    } else {
        let s = choose|s: SessionView| #[trigger]
            just_opened(s, LIFECYCLE_TITLE@) && final(m)@ == old(m)@.with_session(s);
        assert(final(m)@.chunks == old(m)@.chunks);
    }
}

/// The check of summaries passes when there is a summarizer, nothing fails, and
/// neither the summary nor both turns are redacted; the summary that it then
/// hands on is stored, and holds the summarizer's text.
pub proof fn law_summary_check_passes_for_what_is_stored(
    m: &mut BasicMemoryProvider,
    first: HookReply,
    second: HookReply,
    answer: SummaryReply,
    summary: HookReply,
    r: Verdict<MemoryChunk>,
)
    requires
        old(m).wf(),
        call_ensures(
            assert_summarize_session_roundtrip,
            (m, first, second, answer, summary),
            r,
        ),
    ensures
        ({
            let visible = exists|i: int|
                0 <= i < answer.outcome->Ok_0@.len() && {
                    let u = #[trigger] answer.outcome->Ok_0@[i] as u32;
                    !(0x9 <= u <= 0xd || u == 0x20 || u == 0x85 || u == 0xa0 || u == 0x1680
                        || 0x2000 <= u <= 0x200a || u == 0x2028 || u == 0x2029 || u == 0x202f
                        || u == 0x205f || u == 0x3000)
                };
            let first_redacted = first is Decided && first->Decided_0 is Redact;
            let second_redacted = second is Decided && second->Decided_0 is Redact;
            let summary_redacted = summary is Decided && summary->Decided_0 is Redact;
            &&& old(m)@.summarizer && !(first is Failed) && !(second is Failed) && !(
            first_redacted && second_redacted) && answer.outcome is Ok && visible && !(
            summary is Failed) && !summary_redacted ==> r is Ok
            &&& r is Ok ==> old(m)@.summarizer && !(first is Failed) && !(second is Failed)
                && answer.outcome is Ok && visible && !(summary is Failed)
            &&& r is Ok && !summary_redacted ==> {
                let c = r->Ok_0@;
                &&& c.kind == ChunkKind::JobSummary
                &&& c.caller_id == "conformance"@
                &&& c.session_id is Some
                &&& c.content == answer.outcome->Ok_0@
                &&& final(m)@.chunks.contains_key(c.id)
                &&& final(m)@.chunks[c.id] == c
                &&& final(m)@.sessions.contains_key(c.session_id->Some_0)
                &&& final(m)@.sessions[c.session_id->Some_0].summary == Some(c.content)
                &&& final(m)@.sessions[c.session_id->Some_0].title == Some("summarize me"@)
            }
            &&& r is Err ==> r->Err_0 is Memory || (r->Err_0 is SummaryNotPersisted
                && summary_redacted)
        }),
{
    if r is Ok {
        let (s, turns) = choose|s: SessionView, turns: MemoryView|
            {
                &&& just_opened(s, SUMMARY_TITLE@)
                &&& #[trigger] turns_written(old(m)@, turns, s, first, second)
                &&& session_result(turns, final(m)@, s.id, answer, summary, Ok(r->Ok_0))
                &&& r->Ok_0@.kind is JobSummary
                &&& final(m)@.chunks.contains_key(r->Ok_0@.id)
            };
        assert(turns.sessions =~= old(m)@.sessions.insert(s.id, s));
    }
}

} // verus!
