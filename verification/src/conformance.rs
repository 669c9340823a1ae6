//! Checks that every memory provider has to pass.
//!
//! A check writes a probe and looks at what the provider makes of it. The
//! probes and the verdicts stand here by themselves, for checks of any
//! provider, and the checks as a whole are carried out on
//! [`BasicMemoryProvider`].

use crate::basic::BasicMemoryProvider;
use crate::chunk::{ChunkKind, ChunkSource, ChunkView, MemoryChunk, NewChunkView, NewMemoryChunk};
use crate::error::{ErrorView, MemoryError};
use crate::ids::{is_uuid_v7, next_id};
use crate::json::{Json, JsonView};
use crate::laws::{law_recent_match_is_listed, rivals};
use crate::listing::{matching, newest, views};
use crate::model::{
    hit_by, hook_failure, in_session, redaction, reply_fits, stats_of, write_answer, write_error,
    MemoryView,
};
use crate::ops::MemoryStats;
use crate::query::{CallerScope, MemoryQuery, RetrievalProfile};
use crate::rollup::{session_result, summary_error};
use crate::session::{MemorySession, NewMemorySession, SessionOutcome, SessionView};
use crate::summarizer::SummaryReply;
use crate::text::{blank, has_substring, lowercase, opt_text};
use crate::time::Timestamp;
use crate::write_hook::HookReply;
use vstd::prelude::*;

verus! {

/// The caller that probes are written for.
pub const PROBE_CALLER: &'static str = "conformance";

/// How many hits a probing query asks for.
pub const PROBE_HITS: usize = 8;

/// What a check found wrong.
#[derive(Debug)]
pub enum ConformanceFailure {
    /// An operation failed.
    Memory(MemoryError),
    /// A chunk was read back with another content.
    ContentDiffers,
    /// The figures do not count the chunk that was written.
    NothingCounted,
    /// A query did not bring back the chunk that was written.
    NotRetrieved {
        /// How many chunks it brought back.
        hits: usize,
    },
    /// A session stands otherwise than it should.
    WrongOutcome,
    /// A summary is of another kind.
    NoSummary,
    /// A summary was not kept.
    SummaryNotPersisted,
}

/// The outcome of a check.
pub type Verdict<T> = std::result::Result<T, ConformanceFailure>;

/// A chunk to probe with.
pub open spec fn probe(
    session_id: Option<Seq<char>>,
    caller_id: Seq<char>,
    content: Seq<char>,
) -> NewChunkView {
    NewChunkView {
        kind: ChunkKind::Chat,
        source: ChunkSource::Embedded,
        session_id,
        project_root: None,
        caller_id,
        content,
        metadata: JsonView::Null,
        importance: None,
        shareable: false,
        pinned: false,
    }
}

/// A chunk to probe with, outside of sessions.
pub fn probe_chunk(content: &str) -> (r: NewMemoryChunk)
    ensures
        r@ == probe(None, PROBE_CALLER@, content@),
{
    NewMemoryChunk {
        kind: ChunkKind::Chat,
        source: ChunkSource::Embedded,
        session_id: None,
        project_root: None,
        caller_id: PROBE_CALLER.to_owned(),
        content: content.to_owned(),
        metadata: Json::Null,
        importance: None,
        shareable: false,
        pinned: false,
    }
}

/// A chunk to probe a session with.
pub fn probe_turn(session: &MemorySession, content: &str) -> (r: NewMemoryChunk)
    ensures
        r@ == probe(Some(session@.id), session@.caller_id, content@),
{
    NewMemoryChunk {
        kind: ChunkKind::Chat,
        source: ChunkSource::Embedded,
        session_id: Some(session.id.clone()),
        project_root: None,
        caller_id: session.caller_id.clone(),
        content: content.to_owned(),
        metadata: Json::Null,
        importance: None,
        shareable: false,
        pinned: false,
    }
}

/// A session to probe with.
pub fn probe_session(title: &str) -> (r: NewMemorySession)
    ensures
        r.caller_id@ == PROBE_CALLER@,
        opt_text(r.title) == Some(title@),
        r.metadata@ == JsonView::Null,
{
    NewMemorySession {
        caller_id: PROBE_CALLER.to_owned(),
        title: Some(title.to_owned()),
        metadata: Json::Null,
    }
}

/// The query asks every caller's chat for the text.
pub open spec fn asks_for(q: MemoryQuery, text: Seq<char>) -> bool {
    &&& q.text@ == text
    &&& q.kinds matches Some(kinds) && kinds@ == seq![ChunkKind::Chat]
    &&& q.since is None
    &&& q.until is None
    &&& q.session_id is None
    &&& q.caller_scope is Global
    &&& q.project_root_prefix is None
    &&& q.k == PROBE_HITS
    &&& q.include_rollups
    &&& q.min_importance is None
    &&& q.profile is AgentChatTurn
    &&& q.caller_id@ == PROBE_CALLER@
}

/// A query that has to find a probe with the given content.
pub fn probe_query(content: &str) -> (r: MemoryQuery)
    ensures
        asks_for(r, content@),
{
    let mut kinds: Vec<ChunkKind> = Vec::new();
    kinds.push(ChunkKind::Chat);
    MemoryQuery {
        text: content.to_owned(),
        kinds: Some(kinds),
        since: None,
        until: None,
        session_id: None,
        caller_scope: CallerScope::Global,
        project_root_prefix: None,
        k: PROBE_HITS,
        include_rollups: true,
        min_importance: None,
        profile: RetrievalProfile::AgentChatTurn,
        caller_id: PROBE_CALLER.to_owned(),
    }
}

/// The verdict on what was read back of a chunk that was written.
pub fn check_fetched(chunk: &MemoryChunk, fetched: &Option<MemoryChunk>) -> (r: Verdict<()>)
    ensures
        match *fetched {
            Some(f) => if f@.content == chunk@.content {
                r is Ok
            } else {
                r matches Err(e) && e is ContentDiffers
            },
            None => r matches Err(ConformanceFailure::Memory(e)) && e@ == ErrorView::NotFound(
                chunk@.id,
            ),
        },
{
    match fetched {
        Some(f) => if f.content == chunk.content {
            Ok(())
        } else {
            Err(ConformanceFailure::ContentDiffers)
        },
        None => Err(ConformanceFailure::Memory(MemoryError::NotFound(chunk.id.clone()))),
    }
}

/// The verdict on the figures after a write.
pub fn check_counted(stats: &MemoryStats) -> (r: Verdict<()>)
    ensures
        if stats.total_chunks >= 1 {
            r is Ok
        } else {
            r matches Err(e) && e is NothingCounted
        },
{
    if stats.total_chunks >= 1 {
        Ok(())
    } else {
        Err(ConformanceFailure::NothingCounted)
    }
}

/// One of the chunks has the id.
pub open spec fn has_id(hits: Seq<ChunkView>, id: Seq<char>) -> bool {
    exists|i: int| 0 <= i < hits.len() && #[trigger] hits[i].id == id
}

/// The verdict on what a query brought back after a write.
pub fn check_retrieved(chunk: &MemoryChunk, hits: &Vec<MemoryChunk>) -> (r: Verdict<()>)
    ensures
        if has_id(views(hits@), chunk@.id) {
            r is Ok
        } else {
            r matches Err(ConformanceFailure::NotRetrieved { hits: n }) && n == hits@.len()
        },
{
    let mut i: usize = 0;
    while i < hits.len()
        invariant
            0 <= i <= hits@.len(),
            forall|k: int| 0 <= k < i ==> #[trigger] views(hits@)[k].id != chunk@.id,
        decreases hits@.len() - i,
    {
        assert(views(hits@)[i as int] == hits@[i as int]@);
        if hits[i].id == chunk.id {
            assert(views(hits@)[i as int].id == chunk@.id);
            return Ok(());
        }
        i = i + 1;
    }
    Err(ConformanceFailure::NotRetrieved { hits: hits.len() })
}

/// The verdict on how a session stands.
pub fn check_outcome(session_id: &str, found: Option<MemorySession>, outcome: SessionOutcome) -> (r:
    Verdict<MemorySession>)
    ensures
        match found {
            Some(s) => if s@.outcome == outcome {
                r matches Ok(t) && t@ == s@
            } else {
                r matches Err(e) && e is WrongOutcome
            },
            None => r matches Err(ConformanceFailure::Memory(e)) && e@ == ErrorView::NotFound(
                session_id@,
            ),
        },
{
    match found {
        Some(s) => if s.outcome == outcome {
            Ok(s)
        } else {
            Err(ConformanceFailure::WrongOutcome)
        },
        None => Err(ConformanceFailure::Memory(MemoryError::NotFound(session_id.to_owned()))),
    }
}

/// The verdict on the kind of a summary.
pub fn check_summary(summary: &MemoryChunk) -> (r: Verdict<()>)
    ensures
        if summary@.kind is JobSummary {
            r is Ok
        } else {
            r matches Err(e) && e is NoSummary
        },
{
    if summary.kind == ChunkKind::JobSummary {
        Ok(())
    } else {
        Err(ConformanceFailure::NoSummary)
    }
}

/// The verdict on what was read back of a summary.
pub fn check_persisted(found: &Option<MemoryChunk>) -> (r: Verdict<()>)
    ensures
        if *found is Some {
            r is Ok
        } else {
            r matches Err(e) && e is SummaryNotPersisted
        },
{
    if found.is_some() {
        Ok(())
    } else {
        Err(ConformanceFailure::SummaryNotPersisted)
    }
}

/// The chat that holds the text, whatever the case of the letters.
pub open spec fn probed(text: Seq<char>) -> spec_fn(ChunkView) -> bool {
    |c: ChunkView| c.kind is Chat && has_substring(lowercase(c.content), lowercase(text))
}

/// A probing query hits the chat that holds its text.
proof fn lemma_probed(q: MemoryQuery, text: Seq<char>)
    requires
        asks_for(q, text),
    ensures
        hit_by(q) == probed(text),
{
    assert forall|c: ChunkView| #[trigger]
        q.hits(c) == (c.kind is Chat && has_substring(lowercase(c.content), lowercase(text))) by {
        let kinds = q.kinds->Some_0@;
        assert(kinds[0] == ChunkKind::Chat);
        assert(kinds.contains(c.kind) <==> c.kind is Chat);
    }
    assert(hit_by(q) =~= probed(text));
}

/// A text occurs in itself.
proof fn lemma_has_itself(s: Seq<char>)
    ensures
        has_substring(s, s),
{
    assert(s.subrange(0int, 0int + s.len()) =~= s);
}

/// Where there is a chunk, there is at least one.
proof fn lemma_counted(m: Map<Seq<char>, ChunkView>, id: Seq<char>)
    requires
        m.dom().finite(),
        m.contains_key(id),
    ensures
        m.len() >= 1,
{
    if m.dom().len() == 0 {
        assert(m.dom() =~= Set::<Seq<char>>::empty());
    }
}

/// Checks that a chunk can be written under the given id at the given instant
/// and read back, and is counted.
///
/// `reply` is what came of asking the hook. The check passes whenever the write
/// does not fail and the hook does not redact the probe.
pub fn assert_write_get_stats_at(
    memory: &mut BasicMemoryProvider,
    content: &str,
    reply: HookReply,
    id: String,
    at: Timestamp,
) -> (r: Verdict<(MemoryChunk, MemoryStats)>)
    requires
        old(memory).wf(),
        reply_fits(old(memory)@.write_hook, reply),
    ensures
        final(memory).wf(),
        ({
            let answer = write_answer(
                probe(None, PROBE_CALLER@, content@),
                reply,
                id@,
                at,
            );
            match write_error(content@, reply) {
                Some(error) => {
                    &&& r matches Err(ConformanceFailure::Memory(e)) && e@ == error
                    &&& final(memory)@ == old(memory)@
                },
                None => {
                    let after = old(memory)@.after_write(reply, answer);
                    &&& final(memory)@ == after
                    &&& if !after.chunks.contains_key(id@) {
                        r matches Err(ConformanceFailure::Memory(e)) && e@ == ErrorView::NotFound(
                            id@,
                        )
                    } else if after.chunks[id@].content != answer.content {
                        r matches Err(e) && e is ContentDiffers
                    } else {
                        r matches Ok((c, stats)) && c@ == answer && stats_of(after, stats)
                    }
                },
            }
        }),
{
    let chunk: MemoryChunk = match memory.write_at(probe_chunk(content), reply, id, at) {
        Ok(c) => c,
        Err(e) => {
            return Err(ConformanceFailure::Memory(e));
        },
    };
    let fetched: Option<MemoryChunk> = match memory.get(chunk.id.as_str()) {
        Ok(f) => f,
        Err(e) => {
            return Err(ConformanceFailure::Memory(e));
        },
    };
    if let Err(failure) = check_fetched(&chunk, &fetched) {
        return Err(failure);
    }
    let stats: MemoryStats = match memory.stats() {
        Ok(s) => s,
        Err(e) => {
            return Err(ConformanceFailure::Memory(e));
        },
    };
    proof {
        memory.lemma_coherent();
        lemma_counted(memory@.chunks, chunk@.id);
    }
    if let Err(failure) = check_counted(&stats) {
        return Err(failure);
    }
    Ok((chunk, stats))
}

/// Checks that a chunk can be written and read back, and is counted.
///
/// `reply` is what came of asking the hook. The check passes whenever the write
/// does not fail and the hook does not redact the probe.
pub fn assert_write_get_stats(
    memory: &mut BasicMemoryProvider,
    content: &str,
    reply: HookReply,
) -> (r: Verdict<(MemoryChunk, MemoryStats)>)
    requires
        old(memory).wf(),
        reply_fits(old(memory)@.write_hook, reply),
    ensures
        final(memory).wf(),
        match r {
            Ok((c, stats)) => {
                let new = probe(None, PROBE_CALLER@, content@);
                &&& write_error(content@, reply) is None
                &&& is_uuid_v7(c@.id)
                &&& c@.created_at.on_clock()
                &&& c@ == write_answer(new, reply, c@.id, c@.created_at)
                &&& final(memory)@ == old(memory)@.after_write(reply, c@)
                &&& final(memory)@.chunks.contains_key(c@.id)
                &&& final(memory)@.chunks[c@.id].content == c@.content
                &&& stats_of(final(memory)@, stats)
            },
            Err(ConformanceFailure::Memory(e)) => {
                &&& final(memory)@ == old(memory)@
                &&& match write_error(content@, reply) {
                    Some(error) => e@ == error,
                    None => redaction(reply) is Some && exists|id: Seq<char>|
                        {
                            &&& #[trigger] is_uuid_v7(id)
                            &&& !old(memory)@.chunks.contains_key(id)
                            &&& e@ == ErrorView::NotFound(id)
                        },
                }
            },
            Err(failure) => {
                &&& failure is ContentDiffers
                &&& write_error(content@, reply) is None
                &&& redaction(reply) is Some
                &&& final(memory)@ == old(memory)@
                &&& exists|id: Seq<char>| #[trigger]
                    is_uuid_v7(id) && old(memory)@.chunks.contains_key(id)
            },
        },
{
    let id: String = next_id();
    let at: Timestamp = Timestamp::now();
    assert(is_uuid_v7(id@));
    assert_write_get_stats_at(memory, content, reply, id, at)
}

/// A query for `text` on the memory `m` brings back `hits`.
pub open spec fn probe_hits(m: MemoryView, text: Seq<char>, hits: Seq<ChunkView>) -> bool {
    newest::<MemoryChunk>(hits, m.chunks, probed(text), Some(PROBE_HITS))
}

/// The chunk has so many rivals for a place among the hits that it may be left
/// out.
pub open spec fn crowded_out(m: MemoryView, text: Seq<char>, c: ChunkView) -> bool {
    rivals(m.chunks, probed(text), c).len() >= PROBE_HITS
}

/// The rivals of a chunk that was just written were there before.
proof fn lemma_rivals_were_there(
    m: Map<Seq<char>, ChunkView>,
    p: spec_fn(ChunkView) -> bool,
    c: ChunkView,
)
    requires
        m.dom().finite(),
    ensures
        rivals(m.insert(c.id, c), p, c).len() <= matching(m, p).len(),
{
    let after = m.insert(c.id, c);
    vstd::set_lib::lemma_len_subset(matching(m, p), m.dom());
    assert(rivals(after, p, c).subset_of(matching(m, p)));
    vstd::set_lib::lemma_len_subset(rivals(after, p, c), matching(m, p));
}

/// Checks that a query brings back a chunk that was just written.
///
/// `reply` is what came of asking the hook. The check passes whenever the write
/// does not fail, the hook does not redact the probe, and there are not enough
/// hits at least as recent to crowd it out; in particular whenever there were
/// fewer hits before than a probing query asks for.
pub fn assert_retrieve_finds_written(
    memory: &mut BasicMemoryProvider,
    content: &str,
    reply: HookReply,
) -> (r: Verdict<MemoryChunk>)
    requires
        old(memory).wf(),
        reply_fits(old(memory)@.write_hook, reply),
    ensures
        final(memory).wf(),
        match r {
            Ok(c) => {
                let new = probe(None, PROBE_CALLER@, content@);
                &&& write_error(content@, reply) is None
                &&& is_uuid_v7(c@.id)
                &&& c@.created_at.on_clock()
                &&& c@ == write_answer(new, reply, c@.id, c@.created_at)
                &&& final(memory)@ == old(memory)@.after_write(reply, c@)
                &&& exists|hits: Seq<ChunkView>| #[trigger]
                    probe_hits(final(memory)@, content@, hits) && has_id(hits, c@.id)
            },
            Err(ConformanceFailure::Memory(e)) => {
                &&& write_error(content@, reply) == Some(e@)
                &&& final(memory)@ == old(memory)@
            },
            Err(ConformanceFailure::NotRetrieved { hits: n }) => {
                &&& write_error(content@, reply) is None
                &&& exists|c: ChunkView, hits: Seq<ChunkView>|
                    #![trigger
                        old(memory)@.after_write(reply, c),
                        probe_hits(final(memory)@, content@, hits)
                    ]
                    {
                        let new = probe(None, PROBE_CALLER@, content@);
                        &&& is_uuid_v7(c.id)
                        &&& c.created_at.on_clock()
                        &&& c == write_answer(new, reply, c.id, c.created_at)
                        &&& final(memory)@ == old(memory)@.after_write(reply, c)
                        &&& probe_hits(final(memory)@, content@, hits)
                        &&& hits.len() == n
                        &&& !has_id(hits, c.id)
                        &&& redaction(reply) is None ==> crowded_out(
                            final(memory)@,
                            content@,
                            c,
                        )
                    }
            },
            Err(_) => false,
        },
        ({
            &&& write_error(content@, reply) is None
            &&& redaction(reply) is None
            &&& matching(old(memory)@.chunks, probed(content@)).len() < PROBE_HITS
        }) ==> r is Ok,
{
    proof {
        memory.lemma_coherent();
    }
    let chunk: MemoryChunk = match memory.write(probe_chunk(content), reply) {
        Ok(c) => c,
        Err(e) => {
            return Err(ConformanceFailure::Memory(e));
        },
    };
    let query: MemoryQuery = probe_query(content);
    let hits: Vec<MemoryChunk> = match memory.retrieve(query) {
        Ok(h) => h,
        Err(e) => {
            return Err(ConformanceFailure::Memory(e));
        },
    };
    proof {
        memory.lemma_coherent();
        lemma_probed(query, content@);
        assert(probe_hits(memory@, content@, views(hits@)));
        if redaction(reply) is None && !crowded_out(memory@, content@, chunk@) {
            lemma_has_itself(lowercase(content@));
            law_recent_match_is_listed(
                views(hits@),
                memory@.chunks,
                probed(content@),
                PROBE_HITS,
                chunk@,
            );
            let i = choose|i: int| 0 <= i < views(hits@).len() && views(hits@)[i] == chunk@;
            assert(views(hits@)[i].id == chunk@.id);
        }
        assert(memory@ == old(memory)@.after_write(reply, chunk@));
        if redaction(reply) is None {
            lemma_rivals_were_there(old(memory)@.chunks, probed(content@), chunk@);
        }
    }
    match check_retrieved(&chunk, &hits) {
        Ok(()) => Ok(chunk),
        Err(failure) => Err(failure),
    }
}

/// The title of the session that the lifecycle is checked on.
pub const LIFECYCLE_TITLE: &'static str = "conformance session";

/// What is written in it.
pub const LIFECYCLE_TURN: &'static str = "session-scoped turn";

/// The title of the session that is summarized.
pub const SUMMARY_TITLE: &'static str = "summarize me";

/// What is written in it first.
pub const FIRST_TURN: &'static str = "first turn in session";

/// What is written in it second.
pub const SECOND_TURN: &'static str = "second turn in session";

proof fn lemma_turns_not_blank()
    ensures
        !blank(LIFECYCLE_TURN@),
        !blank(FIRST_TURN@),
        !blank(SECOND_TURN@),
{
    reveal_strlit("session-scoped turn");
    reveal_strlit("first turn in session");
    reveal_strlit("second turn in session");
    assert(LIFECYCLE_TURN@[0] == 's');
    assert(FIRST_TURN@[0] == 'f');
    assert(SECOND_TURN@[0] == 's');
}

/// The session was just opened by a check.
pub open spec fn just_opened(s: SessionView, title: Seq<char>) -> bool {
    &&& is_uuid_v7(s.id)
    &&& s.started_at.on_clock()
    &&& s == (SessionView {
        id: s.id,
        started_at: s.started_at,
        ended_at: None,
        caller_id: PROBE_CALLER@,
        title: Some(title),
        summary: None,
        outcome: SessionOutcome::Open,
        metadata: JsonView::Null,
    })
}

/// A turn was written in the session, answered with `c`.
pub open spec fn turn_written(
    before: MemoryView,
    after: MemoryView,
    s: SessionView,
    content: Seq<char>,
    reply: HookReply,
    c: ChunkView,
) -> bool {
    &&& hook_failure(reply) is None
    &&& is_uuid_v7(c.id)
    &&& c.created_at.on_clock()
    &&& c == write_answer(
        probe(Some(s.id), s.caller_id, content),
        reply,
        c.id,
        c.created_at,
    )
    &&& after == before.after_write(reply, c)
}

/// Checks that a session can be opened, written in and closed.
///
/// `reply` is what came of asking the hook. The check passes whenever the hook does not fail.
pub fn assert_session_lifecycle(
    memory: &mut BasicMemoryProvider,
    reply: HookReply,
) -> (r: Verdict<MemorySession>)
    requires
        old(memory).wf(),
        reply_fits(old(memory)@.write_hook, reply),
    ensures
        final(memory).wf(),
        match r {
            Ok(closed) => {
                let s = SessionView { ended_at: None, outcome: SessionOutcome::Open, ..closed@ };
                &&& just_opened(s, LIFECYCLE_TITLE@)
                &&& closed@.ended_at matches Some(at) && at.on_clock()
                &&& closed@.outcome is Success
                &&& exists|written: MemoryView, c: ChunkView|
                    {
                        &&& #[trigger] turn_written(
                            old(memory)@.with_session(s),
                            written,
                            s,
                            LIFECYCLE_TURN@,
                            reply,
                            c,
                        )
                        &&& final(memory)@ == written.with_session(closed@)
                    }
            },
            Err(ConformanceFailure::Memory(e)) => {
                &&& hook_failure(reply) == Some(e@)
                &&& exists|opened: SessionView| #[trigger]
                    just_opened(opened, LIFECYCLE_TITLE@) && final(memory)@
                        == old(memory)@.with_session(opened)
            },
            Err(_) => false,
        },
{
    proof {
        lemma_turns_not_blank();
    }
    let session: MemorySession = match memory.open_session(probe_session(LIFECYCLE_TITLE)) {
        Ok(s) => s,
        Err(e) => {
            return Err(ConformanceFailure::Memory(e));
        },
    };
    let ghost s = session@;
    let ghost opened_in = memory@;
    assert(just_opened(s, LIFECYCLE_TITLE@));
    let chunk: MemoryChunk = match memory.write(
        probe_turn(&session, LIFECYCLE_TURN),
        reply,
    ) {
        Ok(c) => c,
        Err(e) => {
            return Err(ConformanceFailure::Memory(e));
        },
    };
    let ghost written = memory@;
    assert(turn_written(opened_in, written, s, LIFECYCLE_TURN@, reply, chunk@));
    let found: Option<MemorySession> = match memory.get_session(session.id.as_str()) {
        Ok(f) => f,
        Err(e) => {
            return Err(ConformanceFailure::Memory(e));
        },
    };
    if let Err(failure) = check_outcome(session.id.as_str(), found, SessionOutcome::Open) {
        return Err(failure);
    }
    if let Err(e) = memory.close_session(session.id.as_str(), SessionOutcome::Success) {
        return Err(ConformanceFailure::Memory(e));
    }
    let found: Option<MemorySession> = match memory.get_session(session.id.as_str()) {
        Ok(f) => f,
        Err(e) => {
            return Err(ConformanceFailure::Memory(e));
        },
    };
    let r: Verdict<MemorySession> = check_outcome(
        session.id.as_str(),
        found,
        SessionOutcome::Success,
    );
    proof {
        assert(r is Ok);
        let closed = r->Ok_0@;
        assert(s =~= SessionView { ended_at: None, outcome: SessionOutcome::Open, ..closed });
    }
    r
}

/// The states that a check of summaries goes through up to the summary itself:
/// the session `s` is opened, and two turns are written in it.
pub open spec fn turns_written(
    before: MemoryView,
    after: MemoryView,
    s: SessionView,
    first: HookReply,
    second: HookReply,
) -> bool {
    exists|middle: MemoryView, c1: ChunkView, c2: ChunkView|
        {
            &&& #[trigger] turn_written(
                before.with_session(s),
                middle,
                s,
                FIRST_TURN@,
                first,
                c1,
            )
            &&& #[trigger] turn_written(
                middle,
                after,
                s,
                SECOND_TURN@,
                second,
                c2,
            )
        }
}

/// One of the two turns failed with `e`, and `after` is what was left.
pub open spec fn turns_failed(
    before: MemoryView,
    after: MemoryView,
    s: SessionView,
    first: HookReply,
    second: HookReply,
    e: MemoryError,
) -> bool {
    ||| hook_failure(first) == Some(e@) && after == before.with_session(s)
    ||| {
        &&& hook_failure(second) == Some(e@)
        &&& exists|c1: ChunkView| #[trigger]
            turn_written(
                before.with_session(s),
                after,
                s,
                FIRST_TURN@,
                first,
                c1,
            )
    }
}

/// Checks that a session's summary is written and kept.
///
/// `first`, `second` and `summary` are what came of asking the hook about the
/// two turns and the summary; `answer` is what the summarizer said. The check
/// passes whenever there is a summarizer, nothing fails, and the hook redacts
/// neither the summary nor both turns.
pub fn assert_summarize_session_roundtrip(
    memory: &mut BasicMemoryProvider,
    first: HookReply,
    second: HookReply,
    answer: SummaryReply,
    summary: HookReply,
) -> (r: Verdict<MemoryChunk>)
    requires
        old(memory).wf(),
        reply_fits(old(memory)@.write_hook, first),
        reply_fits(old(memory)@.write_hook, second),
        reply_fits(old(memory)@.write_hook, summary),
    ensures
        final(memory).wf(),
        match r {
            Ok(c) => exists|s: SessionView, turns: MemoryView|
                {
                    &&& just_opened(s, SUMMARY_TITLE@)
                    &&& #[trigger] turns_written(old(memory)@, turns, s, first, second)
                    &&& session_result(
                        turns,
                        final(memory)@,
                        s.id,
                        answer,
                        summary,
                        Ok(c),
                    )
                    &&& c@.kind is JobSummary
                    &&& final(memory)@.chunks.contains_key(c@.id)
                },
            Err(ConformanceFailure::Memory(e)) => exists|s: SessionView|
                {
                    &&& #[trigger] just_opened(s, SUMMARY_TITLE@)
                    &&& turns_failed(old(memory)@, final(memory)@, s, first, second, e) || {
                        &&& turns_written(old(memory)@, final(memory)@, s, first, second)
                        &&& session_result(
                            final(memory)@,
                            final(memory)@,
                            s.id,
                            answer,
                            summary,
                            Err(e),
                        )
                    }
                },
            Err(failure) => {
                &&& failure is SummaryNotPersisted
                &&& redaction(summary) is Some
                &&& exists|s: SessionView, turns: MemoryView, c: MemoryChunk|
                    {
                        &&& just_opened(s, SUMMARY_TITLE@)
                        &&& #[trigger] turns_written(old(memory)@, turns, s, first, second)
                        &&& #[trigger] session_result(
                            turns,
                            final(memory)@,
                            s.id,
                            answer,
                            summary,
                            Ok(c),
                        )
                    }
            },
        },
        ({
            &&& old(memory)@.summarizer
            &&& hook_failure(first) is None
            &&& hook_failure(second) is None
            &&& redaction(first) is None || redaction(second) is None
            &&& summary_error(answer, summary) is None
            &&& redaction(summary) is None
        }) ==> r is Ok,
{
    proof {
        lemma_turns_not_blank();
    }
    let session: MemorySession = match memory.open_session(probe_session(SUMMARY_TITLE)) {
        Ok(s) => s,
        Err(e) => {
            return Err(ConformanceFailure::Memory(e));
        },
    };
    let ghost s = session@;
    let ghost opened_in = memory@;
    assert(just_opened(s, SUMMARY_TITLE@));
    let c1: MemoryChunk = match memory.write(
        probe_turn(&session, FIRST_TURN),
        first,
    ) {
        Ok(c) => c,
        Err(e) => {
            assert(turns_failed(old(memory)@, memory@, s, first, second, e));
            return Err(ConformanceFailure::Memory(e));
        },
    };
    let ghost middle = memory@;
    assert(turn_written(opened_in, middle, s, FIRST_TURN@, first, c1@));
    let c2: MemoryChunk = match memory.write(
        probe_turn(&session, SECOND_TURN),
        second,
    ) {
        Ok(c) => c,
        Err(e) => {
            assert(turns_failed(old(memory)@, memory@, s, first, second, e));
            return Err(ConformanceFailure::Memory(e));
        },
    };
    let ghost turns = memory@;
    assert(turn_written(middle, turns, s, SECOND_TURN@, second, c2@));
    assert(turns_written(old(memory)@, turns, s, first, second));
    proof {
        if redaction(second) is None {
            assert(turns.chunks.contains_key(c2@.id) && in_session(s.id)(turns.chunks[c2@.id]));
        } else if redaction(first) is None {
            assert(turns.chunks.contains_key(c1@.id) && in_session(s.id)(turns.chunks[c1@.id]));
        }
    }
    let written: MemoryChunk = match memory.summarize_session(
        session.id.as_str(),
        answer,
        summary,
    ) {
        Ok(c) => c,
        Err(e) => {
            return Err(ConformanceFailure::Memory(e));
        },
    };
    if let Err(failure) = check_summary(&written) {
        return Err(failure);
    }
    let found: Option<MemoryChunk> = match memory.get(written.id.as_str()) {
        Ok(f) => f,
        Err(e) => {
            return Err(ConformanceFailure::Memory(e));
        },
    };
    match check_persisted(&found) {
        Ok(()) => Ok(written),
        Err(failure) => Err(failure),
    }
}

} // verus!
