//! The memory as a mathematical value, and what the operations make of it.

use crate::chunk::{redacted, stored, ChunkView, MemoryChunk, MemoryTier, NewChunkView};
use crate::error::{ErrorView, MemoryResult};
use crate::ids::is_uuid_v7;
use crate::importance::estimate;
use crate::json::text_at;
use crate::listing::{lists, matching, some_match, views};
use crate::ops::{
    eviction, AccessView, AgingReport, EvictionReason, EvictionView, ExportBundle, ExportFilter,
    MemoryStats,
};
use crate::query::{MemoryPredicate, MemoryQuery};
use crate::session::{SessionFilter, SessionView};
use crate::text::blank;
use crate::time::{Timestamp, DAY_SECS};
use crate::write_hook::{HookReply, PendingWrite, WriteDecision};
use vstd::prelude::*;

verus! {

/// The whole memory.
#[verifier::ext_equal]
pub struct MemoryView {
    /// The chunks by id.
    pub chunks: Map<Seq<char>, ChunkView>,
    /// The sessions by id.
    pub sessions: Map<Seq<char>, SessionView>,
    /// The deletion log.
    pub evictions: Seq<EvictionView>,
    /// The access log.
    pub accesses: Seq<AccessView>,
    /// The ids of the chunks behind each summary, by the summary's id.
    pub members: Map<Seq<char>, Seq<Seq<char>>>,
    /// Whether writes have to pass a hook.
    pub write_hook: bool,
    /// Whether there is a summarizer.
    pub summarizer: bool,
}

/// The chunk is in the session tier, not superseded and without a vector, as
/// every chunk is when it is written.
pub open spec fn untouched(c: ChunkView) -> bool {
    &&& c.tier == MemoryTier::Session
    &&& c.superseded_by is None
    &&& c.embedding_dim == 0
}

impl MemoryView {
    /// What holds of every memory: everything is filed under its own id, no
    /// chunk is moved to another tier, superseded or given a vector, and no
    /// summary counts a member twice.
    pub open spec fn coherent(self) -> bool {
        &&& self.chunks.dom().finite()
        &&& self.sessions.dom().finite()
        &&& forall|id: Seq<char>| #[trigger]
            self.chunks.contains_key(id) ==> self.chunks[id].id == id && untouched(self.chunks[id])
        &&& forall|id: Seq<char>| #[trigger]
            self.sessions.contains_key(id) ==> self.sessions[id].id == id
        &&& forall|id: Seq<char>| #[trigger]
            self.members.contains_key(id) ==> self.members[id].no_duplicates()
    }

    /// Nothing is remembered.
    pub open spec fn blank_slate(self) -> bool {
        &&& self.chunks == Map::<Seq<char>, ChunkView>::empty()
        &&& self.sessions == Map::<Seq<char>, SessionView>::empty()
        &&& self.evictions == Seq::<EvictionView>::empty()
        &&& self.accesses == Seq::<AccessView>::empty()
        &&& self.members == Map::<Seq<char>, Seq<Seq<char>>>::empty()
    }

    /// The memory with the chunk in it.
    pub open spec fn with_chunk(self, c: ChunkView) -> MemoryView {
        MemoryView { chunks: self.chunks.insert(c.id, c), ..self }
    }

    /// The memory with the session in it.
    pub open spec fn with_session(self, s: SessionView) -> MemoryView {
        MemoryView { sessions: self.sessions.insert(s.id, s), ..self }
    }

    /// The memory without the chunks `ids`, and with their deletions logged in
    /// that order.
    pub open spec fn evicting(
        self,
        ids: Seq<Seq<char>>,
        ts: Timestamp,
        reason: EvictionReason,
    ) -> MemoryView {
        MemoryView {
            chunks: self.chunks.remove_keys(ids.to_set()),
            evictions: self.evictions + ids.map_values(|id: Seq<char>| eviction(ts, id, reason)),
            ..self
        }
    }

    /// The memory with `ids` linked to the summary `summary`.
    pub open spec fn linking(self, summary: Seq<char>, ids: Seq<Seq<char>>) -> MemoryView {
        MemoryView {
            members: self.members.insert(summary, linked(self.members_of(summary), ids)),
            ..self
        }
    }

    /// The ids linked to a summary.
    pub open spec fn members_of(self, summary: Seq<char>) -> Seq<Seq<char>> {
        if self.members.contains_key(summary) {
            self.members[summary]
        } else {
            Seq::empty()
        }
    }
}

/// `ids` names each chunk that satisfies `p` once, and no other.
pub open spec fn names_matches(
    ids: Seq<Seq<char>>,
    m: Map<Seq<char>, ChunkView>,
    p: spec_fn(ChunkView) -> bool,
) -> bool {
    ids.no_duplicates() && ids.to_set() == matching(m, p)
}

/// `list` followed by those of `ids` that it lacks, each once.
pub open spec fn linked(list: Seq<Seq<char>>, ids: Seq<Seq<char>>) -> Seq<Seq<char>>
    decreases ids.len(),
{
    if ids.len() == 0 {
        list
    } else {
        let rest = linked(list, ids.drop_last());
        if rest.contains(ids.last()) {
            rest
        } else {
            rest.push(ids.last())
        }
    }
}

/// The chunks that a query hits.
pub open spec fn hit_by(q: MemoryQuery) -> spec_fn(ChunkView) -> bool {
    |c: ChunkView| q.hits(c)
}

/// The sessions that a filter lets through.
pub open spec fn let_through(f: SessionFilter) -> spec_fn(SessionView) -> bool {
    |s: SessionView| f.admits(s)
}

/// The chunks that a predicate holds of.
pub open spec fn held_by(p: MemoryPredicate) -> spec_fn(ChunkView) -> bool {
    |c: ChunkView| p.holds(c)
}

/// The chunks that an aging sweep deletes: what was written before `cutoff`,
/// is not pinned and is no correction.
pub open spec fn aged(cutoff: Timestamp) -> spec_fn(ChunkView) -> bool {
    |c: ChunkView|
        !c.pinned && !(c.kind is Correction) && c.created_at.rank() < cutoff.rank()
}

/// The chunks of a session, but for its summaries.
pub open spec fn in_session(session_id: Seq<char>) -> spec_fn(ChunkView) -> bool {
    |c: ChunkView| c.session_id == Some(session_id) && !(c.kind is JobSummary)
}

/// The chunks of a day, but for rollups.
pub open spec fn on_day(day: int) -> spec_fn(ChunkView) -> bool {
    |c: ChunkView| c.created_at.day() == day && !(c.kind is Rollup)
}

/// The fires of a rule in the seven days from `start`.
pub open spec fn fired_in_week(rule_id: Seq<char>, start: int) -> spec_fn(ChunkView) -> bool {
    |c: ChunkView|
        {
            &&& c.kind is Fire
            &&& start <= c.created_at.day() < start + 7
            &&& text_at(c.metadata, "rule_id"@) == Some(rule_id)
        }
}

/// The rollups of a day.
pub open spec fn day_rollup(date: Seq<char>) -> spec_fn(ChunkView) -> bool {
    |c: ChunkView| c.kind is Rollup && text_at(c.metadata, "rollup_date"@) == Some(date)
}

/// The rollups of a rule's week.
pub open spec fn rule_week_rollup(
    rule_id: Seq<char>,
    week: Seq<char>,
) -> spec_fn(ChunkView) -> bool {
    |c: ChunkView|
        {
            &&& c.kind is Rollup
            &&& text_at(c.metadata, "rollup_rule_id"@) == Some(rule_id)
            &&& text_at(c.metadata, "rollup_week_start"@) == Some(week)
        }
}

/// What a missing chunk is reported as.
pub open spec fn chunk_not_found(id: Seq<char>) -> ErrorView {
    ErrorView::NotFound("chunk "@ + id)
}

/// What a missing session is reported as.
pub open spec fn session_not_found(id: Seq<char>) -> ErrorView {
    ErrorView::NotFound("session "@ + id)
}

/// The reply is one that a memory with, or without, a hook can come by.
pub open spec fn reply_fits(hooked: bool, reply: HookReply) -> bool {
    hooked <==> !(reply is NotAsked)
}

/// What the hook failed with, if it did.
pub open spec fn hook_failure(reply: HookReply) -> Option<ErrorView> {
    match reply {
        HookReply::Failed(e) => Some(e@),
        _ => None,
    }
}

/// Why a write of the given text fails, if it does.
pub open spec fn write_error(content: Seq<char>, reply: HookReply) -> Option<ErrorView> {
    if blank(content) {
        Some(ErrorView::InvalidArgument("content must not be empty"@))
    } else {
        hook_failure(reply)
    }
}

/// Why the hook keeps a write out of the store, if it does.
pub open spec fn redaction(reply: HookReply) -> Option<Seq<char>> {
    match reply {
        HookReply::Decided(WriteDecision::Redact { reason }) => Some(reason@),
        _ => None,
    }
}

/// The chunk that a write which does not fail answers with.
pub open spec fn write_answer(
    new: NewChunkView,
    reply: HookReply,
    id: Seq<char>,
    at: Timestamp,
) -> ChunkView {
    match redaction(reply) {
        Some(reason) => redacted(new, reason, id, at),
        None => stored(new, estimate(new.importance), id, at),
    }
}

impl MemoryView {
    /// The memory after a write that answered with `answer`: a redacted chunk
    /// is not kept.
    pub open spec fn after_write(self, reply: HookReply, answer: ChunkView) -> MemoryView {
        if redaction(reply) is Some {
            self
        } else {
            self.with_chunk(answer)
        }
    }
}

/// `r` is what a write comes to, and `after` what it leaves.
pub open spec fn write_result(
    before: MemoryView,
    after: MemoryView,
    new: NewChunkView,
    reply: HookReply,
    r: MemoryResult<MemoryChunk>,
) -> bool {
    match r {
        Ok(c) => {
            &&& write_error(new.content, reply) is None
            &&& c@ == write_answer(new, reply, c.id@, c.created_at)
            &&& after == before.after_write(reply, c@)
        },
        Err(e) => write_error(new.content, reply) == Some(e@) && after == before,
    }
}

/// The first writes went through one after the other, under fresh ids and at
/// the present instant: `done` are the answers, and `states` the memory before
/// the first of them and after each.
pub open spec fn batch_runs(
    states: Seq<MemoryView>,
    done: Seq<MemoryChunk>,
    writes: Seq<PendingWrite>,
) -> bool {
    &&& states.len() == done.len() + 1
    &&& done.len() <= writes.len()
    &&& forall|i: int|
        0 <= i < done.len() ==> {
            &&& write_result(
                states[i],
                states[i + 1],
                writes[i].chunk@,
                writes[i].reply,
                Ok(#[trigger] done[i]),
            )
            &&& is_uuid_v7(done[i].id@)
            &&& done[i].created_at.on_clock()
        }
}

/// All writes went through, and `out` are the answers.
pub open spec fn batch_done(
    before: MemoryView,
    after: MemoryView,
    writes: Seq<PendingWrite>,
    out: Seq<MemoryChunk>,
) -> bool {
    exists|states: Seq<MemoryView>|
        {
            &&& #[trigger] batch_runs(states, out, writes)
            &&& out.len() == writes.len()
            &&& states[0] == before
            &&& states[out.len() as int] == after
        }
}

/// The writes before one that fails with `e` went through, and no other.
pub open spec fn batch_failed(
    before: MemoryView,
    after: MemoryView,
    writes: Seq<PendingWrite>,
    e: ErrorView,
) -> bool {
    exists|states: Seq<MemoryView>, done: Seq<MemoryChunk>|
        {
            &&& #[trigger] batch_runs(states, done, writes)
            &&& done.len() < writes.len()
            &&& states[0] == before
            &&& states[done.len() as int] == after
            &&& write_error(
                writes[done.len() as int].chunk@.content,
                writes[done.len() as int].reply,
            ) == Some(e)
        }
}

/// `r` is what a batch of writes comes to, and `after` what it leaves: all of
/// them, or those before the first that fails.
pub open spec fn batch_result(
    before: MemoryView,
    after: MemoryView,
    writes: Seq<PendingWrite>,
    r: MemoryResult<Vec<MemoryChunk>>,
) -> bool {
    match r {
        Ok(out) => batch_done(before, after, writes, out@),
        Err(e) => batch_failed(before, after, writes, e@),
    }
}

/// The chunks that satisfy `p`, `n` of them, were deleted at `at`, and the
/// deletions logged in some order.
pub open spec fn swept(
    before: MemoryView,
    after: MemoryView,
    p: spec_fn(ChunkView) -> bool,
    n: nat,
    at: Timestamp,
    reason: EvictionReason,
) -> bool {
    exists|ids: Seq<Seq<char>>|
        {
            &&& #[trigger] names_matches(ids, before.chunks, p)
            &&& ids.len() == n
            &&& after == before.evicting(ids, at, reason)
        }
}

/// How long an unpinned chunk that is no correction is kept, in days.
pub const RETENTION_DAYS: i64 = 30;

/// An aging sweep begun at `start` deletes what is older than `cutoff`.
pub open spec fn retention_cutoff(start: Timestamp, cutoff: Timestamp) -> bool {
    &&& cutoff.secs() == start.secs() - RETENTION_DAYS * DAY_SECS
    &&& cutoff.nanos() == start.nanos()
}

/// The report of an aging sweep: all deletions are for age, no chunk changes
/// its tier, and no storage is freed.
pub open spec fn aging_report(r: AgingReport) -> bool {
    &&& r.tier_promoted == 0
    &&& r.bytes_reclaimed == 0
    &&& r.deletions_by_reason@ == seq![(EvictionReason::Aging, r.deleted)]
}

/// The chunk with another embedding model.
pub open spec fn with_model(model: Seq<char>) -> spec_fn(ChunkView) -> ChunkView {
    |c: ChunkView| ChunkView { embedding_model: model, ..c }
}

/// The chunks that an export takes.
pub open spec fn wanted_by(f: ExportFilter) -> spec_fn(ChunkView) -> bool {
    |c: ChunkView| f.wants(c)
}

/// The sessions that an export takes: those that an exported chunk belongs to.
pub open spec fn exported_sessions(
    m: Map<Seq<char>, ChunkView>,
    f: ExportFilter,
) -> spec_fn(SessionView) -> bool {
    |s: SessionView|
        exists|id: Seq<char>| #[trigger]
            m.contains_key(id) && f.wants(m[id]) && m[id].session_id == Some(s.id)
}

/// What an export of the memory holds.
pub open spec fn export_result(m: MemoryView, f: ExportFilter, b: ExportBundle) -> bool {
    &&& lists(views(b.chunks@), m.chunks, wanted_by(f))
    &&& if f.include_sessions {
        lists(views(b.sessions@), m.sessions, exported_sessions(m.chunks, f))
    } else {
        b.sessions@.len() == 0
    }
    &&& views(b.evictions@) == if f.include_eviction_log {
        m.evictions
    } else {
        Seq::empty()
    }
    &&& views(b.accesses@) == if f.include_access_log {
        m.accesses
    } else {
        Seq::empty()
    }
}

/// The chunks of a tier.
pub open spec fn in_tier(tier: MemoryTier) -> spec_fn(ChunkView) -> bool {
    |c: ChunkView| c.tier == tier
}

/// The sessions that are still running.
pub open spec fn still_open() -> spec_fn(SessionView) -> bool {
    |s: SessionView| s.outcome is Open
}

/// The chunks that a model has embedded.
pub open spec fn embedded() -> spec_fn(ChunkView) -> bool {
    |c: ChunkView| c.embedding_model != "none"@
}

/// The chunks that a given model has embedded.
pub open spec fn embedded_by(model: Seq<char>) -> spec_fn(ChunkView) -> bool {
    |c: ChunkView| c.embedding_model == model
}

/// What the figures about the memory are.
pub open spec fn stats_of(m: MemoryView, s: MemoryStats) -> bool {
    &&& s.total_chunks == m.chunks.len()
    &&& s.session_chunks == matching(m.chunks, in_tier(MemoryTier::Session)).len()
    &&& s.long_term_chunks == matching(m.chunks, in_tier(MemoryTier::LongTerm)).len()
    &&& s.total_sessions == m.sessions.len()
    &&& s.open_sessions == matching(m.sessions, still_open()).len()
    &&& s.db_bytes == 0
    &&& match s.embedding_model {
        Some(model) => model@ != "none"@ && some_match(m.chunks, embedded_by(model@)),
        None => !some_match(m.chunks, embedded()),
    }
}

} // verus!
