//! What holds of the memory as a whole.

use crate::chunk::{redacted_metadata, ChunkView, MemoryChunk, MemoryTier, NewChunkView};
use crate::embedder::{Embedder, EmbedderResult, MockEmbedder};
use crate::error::{ErrorView, MemoryResult};
use crate::importance::estimate;
use crate::json::{member, text_at};
use crate::listing::{
    cut_from, lemma_lists_len, listed_under, matching, newest, some_match, views,
};
use crate::model::{
    aged, batch_done, batch_runs, day_rollup, embedded, embedded_by, export_result,
    exported_sessions, fired_in_week, hit_by, in_session, in_tier, let_through, linked,
    names_matches, on_day, redaction, rule_week_rollup, stats_of, still_open, swept, wanted_by,
    with_model, write_result, MemoryView,
};
use crate::ops::{eviction, EvictionReason, ExportBundle, ExportFilter, MemoryStats};
use crate::query::{MemoryPredicate, MemoryQuery};
use crate::rollup::{
    day_due, day_result, ids_of, members_by_age, session_result, summary_chunk, summary_metadata,
    summary_of, summary_written, week_overflow, week_refusal, week_result, TargetView,
};
use crate::session::{
    closing_outcome, opened, MemorySession, NewMemorySession, SessionFilter, SessionOutcome,
    SessionView,
};
use crate::summarizer::SummaryReply;
use crate::text::{lowercase, opt_text};
use crate::time::Timestamp;
use crate::write_hook::{HookReply, PendingWrite, WriteDecision};
use vstd::prelude::*;

verus! {

/// The ids of the other chunks that satisfy `p` and were not written before
/// `c`.
pub open spec fn rivals(
    m: Map<Seq<char>, ChunkView>,
    p: spec_fn(ChunkView) -> bool,
    c: ChunkView,
) -> Set<Seq<char>> {
    Set::new(
        |id: Seq<char>|
            {
                &&& m.contains_key(id)
                &&& id != c.id
                &&& p(m[id])
                &&& m[id].created_at.rank() >= c.created_at.rank()
            },
    )
}

/// A list of the newest `k` chunks that satisfy `p` holds every such chunk that
/// has fewer than `k` rivals.
pub proof fn law_recent_match_is_listed(
    out: Seq<ChunkView>,
    m: Map<Seq<char>, ChunkView>,
    p: spec_fn(ChunkView) -> bool,
    k: usize,
    c: ChunkView,
)
    requires
        m.dom().finite(),
        newest::<MemoryChunk>(out, m, p, Some(k)),
        m.contains_key(c.id),
        m[c.id] == c,
        p(c),
        rivals(m, p, c).len() < k,
    ensures
        out.contains(c),
{
    let full = choose|full: Seq<ChunkView>| cut_from::<MemoryChunk>(full, out, m, p, Some(k));
    let keys = choose|keys: Seq<Seq<char>>| listed_under(keys, full, m, p);
    assert(keys.contains(c.id));
    let i = choose|i: int| 0 <= i < keys.len() && keys[i] == c.id;
    assert(full[i] == c);
    if i < out.len() {
        assert(out[i] == c);
    } else {
        let before = keys.take(k as int);
        assert(before.no_duplicates());
        before.unique_seq_to_set();
        assert(before.to_set().subset_of(rivals(m, p, c))) by {
            assert forall|id: Seq<char>| before.to_set().contains(id) implies rivals(
                m,
                p,
                c,
            ).contains(id) by {
                let j = choose|j: int| 0 <= j < before.len() && before[j] == id;
                assert(keys[j] == id);
                assert(m.contains_key(keys[j]));
                assert(full[j].created_at.rank() >= full[i].created_at.rank());
            }
        }
        assert(rivals(m, p, c).subset_of(m.dom()));
        vstd::set_lib::lemma_len_subset(rivals(m, p, c), m.dom());
        vstd::set_lib::lemma_len_subset(before.to_set(), rivals(m, p, c));
    }
}

// Writes and reads

/// What was written is read back as it was answered, and nothing else is
/// touched.
pub proof fn law_write_then_get(
    before: MemoryView,
    after: MemoryView,
    new: NewChunkView,
    reply: HookReply,
    c: MemoryChunk,
)
    requires
        write_result(before, after, new, reply, Ok(c)),
        redaction(reply) is None,
    ensures
        after.chunks.contains_key(c@.id),
        after.chunks[c@.id] == c@,
        c@.content == new.content,
        c@.caller_id == new.caller_id,
        c@.metadata == new.metadata,
        c@.shareable == new.shareable,
        c@.pinned == new.pinned,
        c@.importance == estimate(new.importance),
        forall|id: Seq<char>|
            id != c@.id ==> (#[trigger] after.chunks.contains_key(id)
                <==> before.chunks.contains_key(id)) && after.chunks[id] == before.chunks[id],
        after == (MemoryView { chunks: after.chunks, ..before }),
{
}

/// A write under an id that is not in use adds one chunk, and replaces none.
pub proof fn law_write_adds_one_chunk(
    before: MemoryView,
    after: MemoryView,
    new: NewChunkView,
    reply: HookReply,
    c: MemoryChunk,
    s0: MemoryStats,
    s1: MemoryStats,
)
    requires
        before.coherent(),
        write_result(before, after, new, reply, Ok(c)),
        redaction(reply) is None,
        !before.chunks.contains_key(c@.id),
        stats_of(before, s0),
        stats_of(after, s1),
    ensures
        after.chunks.contains_key(c@.id),
        after.chunks[c@.id] == c@,
        after.chunks.len() == before.chunks.len() + 1,
        s1.total_chunks == s0.total_chunks + 1,
        forall|id: Seq<char>| #[trigger]
            before.chunks.contains_key(id) ==> after.chunks.contains_key(id) && after.chunks[id]
                == before.chunks[id],
        after.sessions == before.sessions,
        after.accesses == before.accesses,
        after.evictions == before.evictions,
        after.members == before.members,
{
    assert(after.chunks.dom() =~= before.chunks.dom().insert(c@.id));
}

/// A redacted write leaves no trace in the memory, and its answer gives away
/// neither the text nor the metadata.
pub proof fn law_redacted_write_leaves_no_trace(
    before: MemoryView,
    after: MemoryView,
    new: NewChunkView,
    reason: String,
    c: MemoryChunk,
)
    requires
        write_result(
            before,
            after,
            new,
            HookReply::Decided(WriteDecision::Redact { reason }),
            Ok(c),
        ),
    ensures
        after == before,
        c@.content == "<redacted: "@ + reason@ + ">"@,
        c@.metadata == redacted_metadata(reason@),
        !c@.shareable,
        !c@.pinned,
        c@.embedding_model == "none"@,
{
}

/// Redacted answers tell nothing of what was submitted: writes that agree in
/// kind, source, session, project and caller, and are redacted for the same
/// reason, are answered alike but for id and instant. Neither is in the memory,
/// unless its id was in use.
pub proof fn law_redacted_answers_tell_nothing(
    before: MemoryView,
    middle: MemoryView,
    after: MemoryView,
    a: NewChunkView,
    b: NewChunkView,
    reply_a: HookReply,
    reply_b: HookReply,
    ca: MemoryChunk,
    cb: MemoryChunk,
)
    requires
        a.kind == b.kind,
        a.source == b.source,
        a.session_id == b.session_id,
        a.project_root == b.project_root,
        a.caller_id == b.caller_id,
        redaction(reply_a) is Some,
        redaction(reply_a) == redaction(reply_b),
        write_result(before, middle, a, reply_a, Ok(ca)),
        write_result(middle, after, b, reply_b, Ok(cb)),
    ensures
        ca@ == (ChunkView { id: ca@.id, created_at: ca@.created_at, ..cb@ }),
        middle == before,
        after == before,
        !before.chunks.contains_key(ca@.id) ==> !after.chunks.contains_key(ca@.id),
        !before.chunks.contains_key(cb@.id) ==> !after.chunks.contains_key(cb@.id),
{
}

/// Each hit is a chunk of the memory that the query asks for; there are at most
/// `k`, none twice, and later ones come first.
pub proof fn law_hits_answer_the_query(hits: Seq<ChunkView>, m: MemoryView, q: MemoryQuery)
    requires
        m.coherent(),
        newest::<MemoryChunk>(hits, m.chunks, hit_by(q), Some(q.k)),
    ensures
        hits.len() <= q.k,
        forall|i: int|
            0 <= i < hits.len() ==> {
                &&& q.hits(#[trigger] hits[i])
                &&& m.chunks.contains_key(hits[i].id)
                &&& m.chunks[hits[i].id] == hits[i]
            },
        forall|i: int, j: int|
            0 <= i < j < hits.len() ==> {
                &&& (#[trigger] hits[i]).id != (#[trigger] hits[j]).id
                &&& hits[i].created_at.rank() >= hits[j].created_at.rank()
            },
{
    let full = choose|full: Seq<ChunkView>|
        cut_from::<MemoryChunk>(full, hits, m.chunks, hit_by(q), Some(q.k));
    let keys = choose|keys: Seq<Seq<char>>| listed_under(keys, full, m.chunks, hit_by(q));
    assert forall|i: int| 0 <= i < hits.len() implies {
        &&& q.hits(#[trigger] hits[i])
        &&& m.chunks.contains_key(hits[i].id)
        &&& m.chunks[hits[i].id] == hits[i]
    } by {
        assert(full[i] == hits[i]);
        assert(m.chunks.contains_key(keys[i]));
        assert(hit_by(q)(full[i]));
    }
    assert forall|i: int, j: int| 0 <= i < j < hits.len() implies {
        &&& (#[trigger] hits[i]).id != (#[trigger] hits[j]).id
        &&& hits[i].created_at.rank() >= hits[j].created_at.rank()
    } by {
        assert(full[i] == hits[i] && full[j] == hits[j]);
        assert(m.chunks.contains_key(keys[i]) && m.chunks.contains_key(keys[j]));
        assert(keys[i] != keys[j]);
    }
}

/// A query of scope `Own` brings back the caller's own chunks alone, and one of
/// scope `OwnPlusShared` besides those nothing but shareable ones.
pub proof fn law_scope_is_kept(hits: Seq<ChunkView>, m: MemoryView, q: MemoryQuery)
    requires
        m.coherent(),
        newest::<MemoryChunk>(hits, m.chunks, hit_by(q), Some(q.k)),
    ensures
        q.caller_scope is Own ==> forall|i: int|
            0 <= i < hits.len() ==> (#[trigger] hits[i]).caller_id == q.caller_id@,
        q.caller_scope is OwnPlusShared ==> forall|i: int|
            0 <= i < hits.len() ==> (#[trigger] hits[i]).caller_id == q.caller_id@
                || hits[i].shareable,
{
    law_hits_answer_the_query(hits, m, q);
}

/// A chunk that was just written is brought back by every query that hits it,
/// unless `k` other hits are at least as recent.
pub proof fn law_written_chunk_is_retrieved(
    before: MemoryView,
    after: MemoryView,
    new: NewChunkView,
    reply: HookReply,
    c: MemoryChunk,
    q: MemoryQuery,
    hits: Seq<ChunkView>,
)
    requires
        after.coherent(),
        write_result(before, after, new, reply, Ok(c)),
        redaction(reply) is None,
        q.hits(c@),
        newest::<MemoryChunk>(hits, after.chunks, hit_by(q), Some(q.k)),
        rivals(after.chunks, hit_by(q), c@).len() < q.k,
    ensures
        hits.contains(c@),
{
    law_recent_match_is_listed(hits, after.chunks, hit_by(q), q.k, c@);
}

/// A hit that is later than every other one comes first.
pub proof fn law_latest_hit_comes_first(
    hits: Seq<ChunkView>,
    m: MemoryView,
    q: MemoryQuery,
    c: ChunkView,
)
    requires
        m.coherent(),
        newest::<MemoryChunk>(hits, m.chunks, hit_by(q), Some(q.k)),
        q.k > 0,
        m.chunks.contains_key(c.id),
        m.chunks[c.id] == c,
        q.hits(c),
        rivals(m.chunks, hit_by(q), c) == Set::<Seq<char>>::empty(),
    ensures
        hits.len() > 0,
        hits[0] == c,
{
    law_recent_match_is_listed(hits, m.chunks, hit_by(q), q.k, c);
    law_hits_answer_the_query(hits, m, q);
    let i = choose|i: int| 0 <= i < hits.len() && hits[i] == c;
    if i > 0 {
        assert(hits[0].id != hits[i].id);
        assert(rivals(m.chunks, hit_by(q), c).contains(hits[0].id));
    }
}

/// The case of the letters plays no part: texts with the same lower-case form
/// are hit by the same queries.
pub proof fn law_letter_case_plays_no_part(q: MemoryQuery, a: ChunkView, b: ChunkView)
    requires
        lowercase(a.content) == lowercase(b.content),
        a == (ChunkView { content: a.content, ..b }),
    ensures
        q.hits(a) == q.hits(b),
{
}

/// A batch of writes touches nothing but the chunks, answers every write, and
/// adds no chunk but the answers that the hook did not redact.
pub proof fn law_batch_touches_only_chunks(
    before: MemoryView,
    after: MemoryView,
    writes: Seq<PendingWrite>,
    out: Seq<MemoryChunk>,
)
    requires
        batch_done(before, after, writes, out),
    ensures
        out.len() == writes.len(),
        after == (MemoryView { chunks: after.chunks, ..before }),
        forall|id: Seq<char>| #[trigger]
            after.chunks.contains_key(id) ==> before.chunks.contains_key(id) || exists|i: int|
                0 <= i < out.len() && #[trigger] out[i]@.id == id && redaction(
                    writes[i].reply,
                ) is None,
{
    let states = choose|states: Seq<MemoryView>|
        {
            &&& #[trigger] batch_runs(states, out, writes)
            &&& out.len() == writes.len()
            &&& states[0] == before
            &&& states[out.len() as int] == after
        };
    lemma_batch_prefix(states, writes, out, out.len() as int);
}

proof fn lemma_batch_prefix(
    states: Seq<MemoryView>,
    writes: Seq<PendingWrite>,
    out: Seq<MemoryChunk>,
    n: int,
)
    requires
        batch_runs(states, out, writes),
        0 <= n <= out.len(),
    ensures
        states[n] == (MemoryView { chunks: states[n].chunks, ..states[0] }),
        forall|id: Seq<char>| #[trigger]
            states[n].chunks.contains_key(id) ==> states[0].chunks.contains_key(id) || exists|
                i: int,
            |
                0 <= i < n && #[trigger] out[i]@.id == id && redaction(writes[i].reply) is None,
    decreases n,
{
    if n > 0 {
        lemma_batch_prefix(states, writes, out, n - 1);
        let c = out[n - 1];
        assert(write_result(
            states[n - 1],
            states[n - 1 + 1],
            writes[n - 1].chunk@,
            writes[n - 1].reply,
            Ok(c),
        ));
        assert forall|id: Seq<char>| #[trigger]
            states[n].chunks.contains_key(id) implies states[0].chunks.contains_key(id) || exists|
            i: int,
        |
            0 <= i < n && #[trigger] out[i]@.id == id && redaction(writes[i].reply) is None by {
            if id == c@.id && redaction(writes[n - 1].reply) is None {
                assert(out[n - 1]@.id == id);
            } else {
                assert(states[n - 1].chunks.contains_key(id));
            }
        }
    }
}

// Sessions

/// A session that is closed, with whatever outcome, is no longer open, and a
/// list of the sessions that are still running leaves it out.
pub proof fn law_closed_session_is_not_open(
    s: SessionView,
    outcome: SessionOutcome,
    at: Timestamp,
    filter: SessionFilter,
)
    ensures
        ({
            let closed = SessionView {
                ended_at: Some(at),
                outcome: closing_outcome(outcome),
                ..s
            };
            &&& !(closed.outcome is Open)
            &&& !(outcome is Open) ==> closed.outcome == outcome
            &&& filter.open_only ==> !filter.admits(closed)
        }),
{
}

/// Opening a session and then closing it leaves the session under its id, ended
/// and with its caller, title and metadata, and leaves all chunks as they were.
pub proof fn law_open_then_close(
    m: MemoryView,
    init: NewMemorySession,
    id: Seq<char>,
    opened_at: Timestamp,
    outcome: SessionOutcome,
    closed_at: Timestamp,
)
    ensures
        ({
            let running = m.with_session(opened(init, id, opened_at));
            let closed = running.with_session(
                SessionView {
                    ended_at: Some(closed_at),
                    outcome: closing_outcome(outcome),
                    ..running.sessions[id]
                },
            );
            &&& running.sessions[id].outcome is Open
            &&& closed.sessions.contains_key(id)
            &&& closed.sessions[id].ended_at == Some(closed_at)
            &&& closed.sessions[id].started_at == opened_at
            &&& closed.sessions[id].caller_id == init.caller_id@
            &&& closed.sessions[id].title == opt_text(init.title)
            &&& closed.sessions[id].metadata == init.metadata@
            &&& closed == (MemoryView { sessions: closed.sessions, ..m })
        }),
{
}

/// Each listed session is one of the memory that the filter lets through, none
/// is listed twice, and later ones come first; without a limit none is left
/// out.
pub proof fn law_session_list_answers_the_filter(
    out: Seq<SessionView>,
    m: MemoryView,
    f: SessionFilter,
)
    requires
        m.coherent(),
        newest::<MemorySession>(out, m.sessions, let_through(f), f.limit),
    ensures
        f.limit matches Some(n) ==> out.len() <= n,
        forall|i: int|
            0 <= i < out.len() ==> {
                &&& f.admits(#[trigger] out[i])
                &&& m.sessions.contains_key(out[i].id)
                &&& m.sessions[out[i].id] == out[i]
            },
        forall|i: int, j: int|
            0 <= i < j < out.len() ==> {
                &&& (#[trigger] out[i]).id != (#[trigger] out[j]).id
                &&& out[i].started_at.rank() >= out[j].started_at.rank()
            },
        f.limit is None ==> forall|id: Seq<char>| #[trigger]
            m.sessions.contains_key(id) && f.admits(m.sessions[id]) ==> out.contains(
                m.sessions[id],
            ),
{
    let p = let_through(f);
    let full = choose|full: Seq<SessionView>|
        cut_from::<MemorySession>(full, out, m.sessions, p, f.limit);
    let keys = choose|keys: Seq<Seq<char>>| listed_under(keys, full, m.sessions, p);
    assert forall|i: int| 0 <= i < out.len() implies {
        &&& f.admits(#[trigger] out[i])
        &&& m.sessions.contains_key(out[i].id)
        &&& m.sessions[out[i].id] == out[i]
    } by {
        assert(full[i] == out[i]);
        assert(m.sessions.contains_key(keys[i]));
        assert(p(full[i]));
    }
    assert forall|i: int, j: int| 0 <= i < j < out.len() implies {
        &&& (#[trigger] out[i]).id != (#[trigger] out[j]).id
        &&& out[i].started_at.rank() >= out[j].started_at.rank()
    } by {
        assert(full[i] == out[i] && full[j] == out[j]);
        assert(m.sessions.contains_key(keys[i]) && m.sessions.contains_key(keys[j]));
        assert(keys[i] != keys[j]);
    }
    if f.limit is None {
        assert forall|id: Seq<char>| #[trigger]
            m.sessions.contains_key(id) && f.admits(m.sessions[id]) implies out.contains(
            m.sessions[id],
        ) by {
            assert(p(m.sessions[id]));
            assert(keys.contains(id));
            let i = choose|i: int| 0 <= i < keys.len() && keys[i] == id;
            assert(out[i] == m.sessions[id]);
        }
    }
}

// Deletes

/// A deleted chunk is gone, its deletion is the last entry of the log, and
/// nothing else has changed.
pub proof fn law_delete_then_get(
    m: MemoryView,
    id: Seq<char>,
    at: Timestamp,
    reason: EvictionReason,
)
    ensures
        ({
            let after = m.evicting(seq![id], at, reason);
            &&& !after.chunks.contains_key(id)
            &&& after.evictions == m.evictions.push(eviction(at, id, reason))
            &&& forall|other: Seq<char>|
                other != id && #[trigger] m.chunks.contains_key(other)
                    ==> after.chunks.contains_key(other) && after.chunks[other]
                    == m.chunks[other]
            &&& after == (MemoryView {
                chunks: after.chunks,
                evictions: after.evictions,
                ..m
            })
        }),
{
    let after = m.evicting(seq![id], at, reason);
    let gone = seq![id].to_set();
    assert(gone.contains(id)) by {
        assert(seq![id][0] == id);
    }
    assert(after.evictions =~= m.evictions.push(eviction(at, id, reason)));
    assert forall|other: Seq<char>|
        other != id && #[trigger] m.chunks.contains_key(other) implies after.chunks.contains_key(
        other,
    ) && after.chunks[other] == m.chunks[other] by {
        assert(!gone.contains(other));
    }
}

/// A sweep deletes the chunks that satisfy the condition and no others, logs
/// each deletion once, reports their number, and touches nothing else.
pub proof fn law_sweep_is_exact(
    before: MemoryView,
    after: MemoryView,
    p: spec_fn(ChunkView) -> bool,
    n: nat,
    at: Timestamp,
    reason: EvictionReason,
)
    requires
        swept(before, after, p, n, at, reason),
    ensures
        forall|id: Seq<char>| #[trigger]
            after.chunks.contains_key(id) <==> before.chunks.contains_key(id) && !p(
                before.chunks[id],
            ),
        forall|id: Seq<char>| #[trigger]
            after.chunks.contains_key(id) ==> after.chunks[id] == before.chunks[id],
        n == matching(before.chunks, p).len(),
        after.evictions.len() == before.evictions.len() + n,
        after.evictions.take(before.evictions.len() as int) == before.evictions,
        forall|id: Seq<char>|
            before.chunks.contains_key(id) && p(before.chunks[id]) ==> #[trigger]
            after.evictions.contains(eviction(at, id, reason)),
        after == (MemoryView { chunks: after.chunks, evictions: after.evictions, ..before }),
{
    let ids = choose|ids: Seq<Seq<char>>|
        {
            &&& #[trigger] names_matches(ids, before.chunks, p)
            &&& ids.len() == n
            &&& after == before.evicting(ids, at, reason)
        };
    ids.unique_seq_to_set();
    let entry = |id: Seq<char>| eviction(at, id, reason);
    assert(after.evictions == before.evictions + ids.map_values(entry));
    assert(after.evictions.take(before.evictions.len() as int) =~= before.evictions);
    assert forall|id: Seq<char>| #[trigger]
        after.chunks.contains_key(id) <==> before.chunks.contains_key(id) && !p(
            before.chunks[id],
        ) by {
        assert(ids.to_set().contains(id) <==> matching(before.chunks, p).contains(id));
    }
    assert forall|id: Seq<char>|
        before.chunks.contains_key(id) && p(before.chunks[id]) implies #[trigger]
    after.evictions.contains(eviction(at, id, reason)) by {
        assert(matching(before.chunks, p).contains(id));
        assert(ids.to_set().contains(id));
        let i = choose|i: int| 0 <= i < ids.len() && ids[i] == id;
        assert(ids.map_values(entry)[i] == entry(id));
        assert(after.evictions[before.evictions.len() + i] == entry(id));
    }
}

/// A second sweep finds nothing left to delete.
pub proof fn law_second_sweep_deletes_nothing(
    m0: MemoryView,
    m1: MemoryView,
    m2: MemoryView,
    p: spec_fn(ChunkView) -> bool,
    n1: nat,
    n2: nat,
    at1: Timestamp,
    at2: Timestamp,
    reason: EvictionReason,
)
    requires
        swept(m0, m1, p, n1, at1, reason),
        swept(m1, m2, p, n2, at2, reason),
    ensures
        n2 == 0,
        m2 == m1,
{
    law_sweep_is_exact(m0, m1, p, n1, at1, reason);
    law_sweep_is_exact(m1, m2, p, n2, at2, reason);
    assert(matching(m1.chunks, p) =~= Set::<Seq<char>>::empty()) by {
        assert forall|id: Seq<char>| !matching(m1.chunks, p).contains(id) by {
            if m1.chunks.contains_key(id) {
                assert(m1.chunks[id] == m0.chunks[id]);
            }
        }
    }
    assert(m2.chunks =~= m1.chunks) by {
        assert forall|id: Seq<char>| m2.chunks.contains_key(id) == m1.chunks.contains_key(id) by {
            if m1.chunks.contains_key(id) {
                assert(m1.chunks[id] == m0.chunks[id]);
            }
        }
    }
    assert(m2.evictions =~= m1.evictions);
    assert(m2 =~= m1);
}

/// A predicate without conditions holds of every chunk: deleting by it would
/// delete everything.
pub proof fn law_unconditional_holds_of_all(p: MemoryPredicate, c: ChunkView)
    requires
        p.unconditional(),
    ensures
        p.holds(c),
{
}

/// After a purge the figures are zero and no model is named.
pub proof fn law_purge_leaves_nothing(m: MemoryView, s: MemoryStats)
    requires
        m.blank_slate(),
        stats_of(m, s),
    ensures
        s.total_chunks == 0,
        s.session_chunks == 0,
        s.long_term_chunks == 0,
        s.total_sessions == 0,
        s.open_sessions == 0,
        s.embedding_model is None,
{
    assert(matching(m.chunks, in_tier(MemoryTier::Session)) =~= Set::<Seq<char>>::empty());
    assert(matching(m.chunks, in_tier(MemoryTier::LongTerm)) =~= Set::<Seq<char>>::empty());
    assert(matching(m.sessions, still_open()) =~= Set::<Seq<char>>::empty());
}

/// After a purge there is nothing to export.
pub proof fn law_purge_leaves_nothing_to_export(m: MemoryView, f: ExportFilter, b: ExportBundle)
    requires
        m.blank_slate(),
        export_result(m, f, b),
    ensures
        b.chunks@.len() == 0,
        b.sessions@.len() == 0,
        b.evictions@.len() == 0,
        b.accesses@.len() == 0,
{
    lemma_lists_len(views(b.chunks@), m.chunks, wanted_by(f));
    assert(matching(m.chunks, wanted_by(f)) =~= Set::<Seq<char>>::empty());
    if f.include_sessions {
        let p = exported_sessions(m.chunks, f);
        lemma_lists_len(views(b.sessions@), m.sessions, p);
        assert(matching(m.sessions, p) =~= Set::<Seq<char>>::empty());
    }
    assert(views(b.evictions@).len() == 0);
    assert(views(b.accesses@).len() == 0);
}

// Maintenance

/// An aging sweep spares pinned chunks, corrections and whatever is not older
/// than the cutoff, and deletes everything else.
pub proof fn law_aging_spares(
    before: MemoryView,
    after: MemoryView,
    cutoff: Timestamp,
    n: nat,
    at: Timestamp,
    id: Seq<char>,
)
    requires
        swept(before, after, aged(cutoff), n, at, EvictionReason::Aging),
        before.chunks.contains_key(id),
    ensures
        after.chunks.contains_key(id) <==> {
            let c = before.chunks[id];
            c.pinned || c.kind is Correction || c.created_at.rank() >= cutoff.rank()
        },
        after.chunks.contains_key(id) ==> after.chunks[id] == before.chunks[id],
{
    law_sweep_is_exact(before, after, aged(cutoff), n, at, EvictionReason::Aging);
}

/// The chunks of the two tiers make up all chunks.
pub proof fn law_tiers_partition(m: MemoryView, s: MemoryStats)
    requires
        m.coherent(),
        stats_of(m, s),
    ensures
        s.session_chunks + s.long_term_chunks == s.total_chunks,
{
    let a = matching(m.chunks, in_tier(MemoryTier::Session));
    let b = matching(m.chunks, in_tier(MemoryTier::LongTerm));
    vstd::set_lib::lemma_len_subset(a, m.chunks.dom());
    vstd::set_lib::lemma_len_subset(b, m.chunks.dom());
    assert(a + b =~= m.chunks.dom());
    vstd::set_lib::lemma_set_disjoint_lens(a, b);
}

/// Every chunk of a memory is in the session tier, none is superseded and none
/// has a vector; so no chunk is counted as long-term, and the figures name no
/// model exactly when every chunk's model is `none`.
pub proof fn law_no_chunk_leaves_the_session_tier(m: MemoryView, s: MemoryStats)
    requires
        m.coherent(),
        stats_of(m, s),
    ensures
        forall|id: Seq<char>| #[trigger]
            m.chunks.contains_key(id) ==> m.chunks[id].tier == MemoryTier::Session
                && m.chunks[id].superseded_by is None && m.chunks[id].embedding_dim == 0,
        s.total_chunks == m.chunks.len(),
        s.session_chunks == s.total_chunks,
        s.long_term_chunks == 0,
        s.embedding_model is None <==> forall|id: Seq<char>| #[trigger]
            m.chunks.contains_key(id) ==> m.chunks[id].embedding_model == "none"@,
{
    assert(matching(m.chunks, in_tier(MemoryTier::Session)) =~= m.chunks.dom());
    assert(matching(m.chunks, in_tier(MemoryTier::LongTerm)) =~= Set::<Seq<char>>::empty());
    match s.embedding_model {
        Some(model) => {
            let id = choose|id: Seq<char>| #[trigger]
                m.chunks.contains_key(id) && embedded_by(model@)(m.chunks[id]);
            assert(m.chunks.contains_key(id) && m.chunks[id].embedding_model != "none"@);
        },
        None => {
            assert forall|id: Seq<char>| #[trigger]
                m.chunks.contains_key(id) implies m.chunks[id].embedding_model == "none"@ by {
                if m.chunks[id].embedding_model != "none"@ {
                    assert(embedded()(m.chunks[id]));
                }
            }
        },
    }
}

/// No more sessions are open than there are.
pub proof fn law_open_sessions_are_sessions(m: MemoryView, s: MemoryStats)
    requires
        m.coherent(),
        stats_of(m, s),
    ensures
        s.open_sessions <= s.total_sessions,
{
    vstd::set_lib::lemma_len_subset(matching(m.sessions, still_open()), m.sessions.dom());
}

/// After a change of the embedding model every chunk carries the new name and
/// is otherwise as it was, and the figures name the model if there is a chunk.
pub proof fn law_re_embed_names_the_model(m: MemoryView, target: Seq<char>, s: MemoryStats)
    requires
        target != "none"@,
        stats_of(
            MemoryView { chunks: m.chunks.map_values(with_model(target)), ..m },
            s,
        ),
    ensures
        ({
            let chunks = m.chunks.map_values(with_model(target));
            &&& chunks.dom() == m.chunks.dom()
            &&& forall|id: Seq<char>| #[trigger]
                m.chunks.contains_key(id) ==> chunks[id] == (ChunkView {
                    embedding_model: target,
                    ..m.chunks[id]
                })
        }),
        match s.embedding_model {
            Some(model) => model@ == target,
            None => m.chunks.dom() == Set::<Seq<char>>::empty(),
        },
{
    let chunks = m.chunks.map_values(with_model(target));
    assert(chunks.dom() =~= m.chunks.dom());
    match s.embedding_model {
        Some(model) => {
            let id = choose|id: Seq<char>| #[trigger]
                chunks.contains_key(id) && embedded_by(model@)(chunks[id]);
            assert(chunks[id].embedding_model == target);
        },
        None => {
            assert forall|id: Seq<char>| !m.chunks.contains_key(id) by {
                if m.chunks.contains_key(id) {
                    assert(chunks.contains_key(id) && embedded()(chunks[id]));
                }
            }
            assert(m.chunks.dom() =~= Set::<Seq<char>>::empty());
        },
    }
}

/// An export without a condition takes every chunk; one with a condition takes
/// exactly the chunks that meet it.
pub proof fn law_export_is_complete(m: MemoryView, f: ExportFilter, b: ExportBundle)
    requires
        m.coherent(),
        export_result(m, f, b),
    ensures
        f.predicate is None ==> b.chunks@.len() == m.chunks.len(),
        forall|id: Seq<char>| #[trigger]
            m.chunks.contains_key(id) ==> (f.wants(m.chunks[id]) <==> views(b.chunks@).contains(
                m.chunks[id],
            )),
{
    let out = views(b.chunks@);
    let keys = choose|keys: Seq<Seq<char>>| listed_under(keys, out, m.chunks, wanted_by(f));
    lemma_lists_len(out, m.chunks, wanted_by(f));
    if f.predicate is None {
        assert(matching(m.chunks, wanted_by(f)) =~= m.chunks.dom());
    }
    assert forall|id: Seq<char>| #[trigger] m.chunks.contains_key(id) implies (f.wants(m.chunks[id])
        <==> out.contains(m.chunks[id])) by {
        if f.wants(m.chunks[id]) {
            assert(wanted_by(f)(m.chunks[id]));
            assert(keys.contains(id));
            let i = choose|i: int| 0 <= i < keys.len() && keys[i] == id;
            assert(out[i] == m.chunks[id]);
        }
        if out.contains(m.chunks[id]) {
            let i = choose|i: int| 0 <= i < out.len() && out[i] == m.chunks[id];
            assert(m.chunks.contains_key(keys[i]));
            assert(wanted_by(f)(out[i]));
        }
    }
}

/// Every exported session is one that an exported chunk belongs to.
pub proof fn law_exported_sessions_are_referenced(
    m: MemoryView,
    f: ExportFilter,
    b: ExportBundle,
    i: int,
)
    requires
        m.coherent(),
        export_result(m, f, b),
        0 <= i < b.sessions@.len(),
    ensures
        exists|j: int|
            0 <= j < b.chunks@.len() && #[trigger] views(b.chunks@)[j].session_id == Some(
                b.sessions@[i]@.id,
            ),
{
    let sessions = views(b.sessions@);
    let p = exported_sessions(m.chunks, f);
    let keys = choose|keys: Seq<Seq<char>>| listed_under(keys, sessions, m.sessions, p);
    assert(m.sessions.contains_key(keys[i]));
    assert(p(sessions[i]));
    let id = choose|id: Seq<char>| #[trigger]
        m.chunks.contains_key(id) && f.wants(m.chunks[id]) && m.chunks[id].session_id == Some(
            sessions[i].id,
        );
    law_export_is_complete(m, f, b);
    let j = choose|j: int| 0 <= j < b.chunks@.len() && views(b.chunks@)[j] == m.chunks[id];
    assert(views(b.chunks@)[j].session_id == Some(b.sessions@[i]@.id));
}

// Summaries and rollups

/// Linking keeps what was linked, in its place, adds every id that was not, and
/// counts none twice.
pub proof fn law_linking_collects(list: Seq<Seq<char>>, ids: Seq<Seq<char>>)
    requires
        list.no_duplicates(),
    ensures
        linked(list, ids).no_duplicates(),
        list.is_prefix_of(linked(list, ids)),
        forall|id: Seq<char>| #[trigger]
            linked(list, ids).contains(id) <==> list.contains(id) || ids.contains(id),
    decreases ids.len(),
{
    if ids.len() > 0 {
        let rest = linked(list, ids.drop_last());
        let all = linked(list, ids);
        let last = ids.last();
        law_linking_collects(list, ids.drop_last());
        assert(list.is_prefix_of(all)) by {
            assert forall|i: int| 0 <= i < list.len() implies list[i] == all[i] by {
                assert(list[i] == rest[i]);
            }
            assert(list =~= all.subrange(0, list.len() as int));
        }
        assert forall|id: Seq<char>| #[trigger]
            all.contains(id) <==> list.contains(id) || ids.contains(id) by {
            if ids.contains(id) && id != last {
                let i = choose|i: int| 0 <= i < ids.len() && ids[i] == id;
                assert(ids.drop_last()[i] == id);
            }
            if ids.drop_last().contains(id) {
                let i = choose|i: int|
                    0 <= i < ids.drop_last().len() && ids.drop_last()[i] == id;
                assert(ids[i] == id);
            }
            assert(ids.contains(last)) by {
                assert(ids[ids.len() - 1] == last);
            }
            if rest.contains(id) {
                let i = choose|i: int| 0 <= i < rest.len() && rest[i] == id;
                assert(all[i] == id);
            }
            if id == last && !rest.contains(last) {
                assert(all[rest.len() as int] == last);
            }
            if all.contains(id) && id != last {
                let i = choose|i: int| 0 <= i < all.len() && all[i] == id;
                assert(rest[i] == id);
            }
        }
    }
}

/// Linking ids that are linked already changes nothing.
pub proof fn law_linking_again_changes_nothing(list: Seq<Seq<char>>, ids: Seq<Seq<char>>)
    requires
        list.no_duplicates(),
        forall|id: Seq<char>| #[trigger] ids.contains(id) ==> list.contains(id),
    ensures
        linked(list, ids) == list,
    decreases ids.len(),
{
    if ids.len() > 0 {
        assert forall|id: Seq<char>| #[trigger] ids.drop_last().contains(id) implies list.contains(
            id,
        ) by {
            let i = choose|i: int| 0 <= i < ids.drop_last().len() && ids.drop_last()[i] == id;
            assert(ids[i] == id);
            assert(ids.contains(id));
        }
        law_linking_again_changes_nothing(list, ids.drop_last());
        assert(ids[ids.len() - 1] == ids.last());
        assert(ids.contains(ids.last()));
    }
}

/// Linking is idempotent.
pub proof fn law_linking_is_idempotent(m: MemoryView, summary: Seq<char>, ids: Seq<Seq<char>>)
    requires
        m.coherent(),
    ensures
        m.linking(summary, ids).linking(summary, ids) == m.linking(summary, ids),
{
    let once = m.linking(summary, ids);
    law_linking_collects(m.members_of(summary), ids);
    law_linking_again_changes_nothing(once.members_of(summary), ids);
    assert(once.linking(summary, ids).members =~= once.members);
}

/// No summary of a session counts an earlier summary among its chunks, and no
/// rollup of a day an earlier rollup.
pub proof fn law_summaries_are_of_originals(
    members: Seq<ChunkView>,
    m: MemoryView,
    session_id: Seq<char>,
    day: int,
    i: int,
)
    requires
        0 <= i < members.len(),
    ensures
        members_by_age(members, m, in_session(session_id)) ==> !(members[i].kind is JobSummary)
            && members[i].session_id == Some(session_id),
        members_by_age(members, m, on_day(day)) ==> !(members[i].kind is Rollup)
            && members[i].created_at.day() == day,
{
    if members_by_age(members, m, in_session(session_id)) {
        let keys = choose|keys: Seq<Seq<char>>|
            listed_under(keys, members, m.chunks, in_session(session_id));
        assert(m.chunks.contains_key(keys[i]));
        assert(in_session(session_id)(members[i]));
    }
    if members_by_age(members, m, on_day(day)) {
        let keys = choose|keys: Seq<Seq<char>>| listed_under(keys, members, m.chunks, on_day(day));
        assert(m.chunks.contains_key(keys[i]));
        assert(on_day(day)(members[i]));
    }
}

proof fn lemma_day_metadata(date: Seq<char>, n: nat, summarizer: Seq<char>)
    ensures
        text_at(
            summary_metadata(TargetView::Day { date }, n, summarizer),
            "rollup_date"@,
        ) == Some(date),
{
    reveal_strlit("rollup_date");
    reveal_strlit("rollup_kind");
    reveal_strlit("summarizer");
    let members = summary_metadata(TargetView::Day { date }, n, summarizer)->Object_0;
    assert("rollup_date"@[7] != "rollup_kind"@[7]);
    assert("rollup_date"@.len() != "summarizer"@.len());
    assert(members.drop_last().drop_last().last() == members[1]);
    assert(members.drop_last().last() == members[2]);
    reveal_with_fuel(member, 3);
}

proof fn lemma_week_metadata(
    rule_id: Seq<char>,
    week_start: Seq<char>,
    n: nat,
    summarizer: Seq<char>,
)
    ensures
        ({
            let metadata = summary_metadata(
                TargetView::RuleWeek { rule_id, week_start },
                n,
                summarizer,
            );
            &&& text_at(metadata, "rollup_rule_id"@) == Some(rule_id)
            &&& text_at(metadata, "rollup_week_start"@) == Some(week_start)
        }),
{
    reveal_strlit("rollup_rule_id");
    reveal_strlit("rollup_week_start");
    reveal_strlit("summarizer");
    let members = summary_metadata(
        TargetView::RuleWeek { rule_id, week_start },
        n,
        summarizer,
    )->Object_0;
    assert("rollup_rule_id"@.len() != "rollup_week_start"@.len());
    assert("rollup_rule_id"@.len() != "summarizer"@.len());
    assert("rollup_week_start"@.len() != "summarizer"@.len());
    assert(members.drop_last().drop_last().last() == members[2]);
    assert(members.drop_last().last() == members[3]);
    reveal_with_fuel(member, 3);
}

/// A summary that was not redacted is in the memory, as it was answered.
proof fn lemma_summary_kept(
    before: MemoryView,
    after: MemoryView,
    target: TargetView,
    members: Seq<ChunkView>,
    answer: SummaryReply,
    reply: HookReply,
    c: MemoryChunk,
)
    requires
        summary_of(before, after, target, members, answer, reply, c),
        redaction(reply) is None,
    ensures
        after.chunks == before.chunks.insert(c@.id, c@),
        answer.outcome matches Ok(text) && c@.content == text@,
        c@.kind == summary_chunk(target, members, answer.summarizer@, Seq::empty()).kind,
        c@.metadata == summary_metadata(target, members.len(), answer.summarizer@),
        after.members.contains_key(c@.id),
        after.members[c@.id] == linked(before.members_of(c@.id), ids_of(members)),
        after.summarizer == before.summarizer,
{
}

/// For a summary or rollup that the hook redacts no chunk is stored. The rest is
/// as for any other: a session that is summarized carries the summarizer's text,
/// and the summarized chunks are linked to the id of the answer.
pub proof fn law_redacted_summary_stores_no_chunk(
    before: MemoryView,
    after: MemoryView,
    target: TargetView,
    p: spec_fn(ChunkView) -> bool,
    answer: SummaryReply,
    reply: HookReply,
    c: MemoryChunk,
)
    requires
        before.coherent(),
        summary_written(before, after, target, p, answer, reply, c),
        redaction(reply) is Some,
    ensures
        after.chunks == before.chunks,
        answer.outcome matches Ok(text) && after.sessions == match target {
            TargetView::Session { session_id, .. } => if before.sessions.contains_key(session_id) {
                before.sessions.insert(
                    session_id,
                    SessionView { summary: Some(text@), ..before.sessions[session_id] },
                )
            } else {
                before.sessions
            },
            _ => before.sessions,
        },
        forall|id: Seq<char>| #[trigger]
            before.chunks.contains_key(id) && p(before.chunks[id]) ==> after.members_of(
                c@.id,
            ).contains(id),
        after == (MemoryView {
            sessions: after.sessions,
            members: after.members,
            ..before
        }),
{
    let members = choose|members: Seq<ChunkView>| #[trigger]
        members_by_age(members, before, p) && summary_of(
            before,
            after,
            target,
            members,
            answer,
            reply,
            c,
        );
    lemma_members_linked(before, members, p, c@.id);
}

/// Every chunk that was summarized is linked.
proof fn lemma_members_linked(
    before: MemoryView,
    members: Seq<ChunkView>,
    p: spec_fn(ChunkView) -> bool,
    summary: Seq<char>,
)
    requires
        before.coherent(),
        members_by_age(members, before, p),
    ensures
        forall|id: Seq<char>| #[trigger]
            before.chunks.contains_key(id) && p(before.chunks[id]) ==> linked(
                before.members_of(summary),
                ids_of(members),
            ).contains(id),
{
    law_linking_collects(before.members_of(summary), ids_of(members));
    let keys = choose|keys: Seq<Seq<char>>| listed_under(keys, members, before.chunks, p);
    assert forall|id: Seq<char>| #[trigger]
        before.chunks.contains_key(id) && p(before.chunks[id]) implies linked(
        before.members_of(summary),
        ids_of(members),
    ).contains(id) by {
        assert(keys.contains(id));
        let i = choose|i: int| 0 <= i < keys.len() && keys[i] == id;
        assert(members[i].id == id);
        assert(ids_of(members)[i] == id);
        assert(ids_of(members).contains(id));
    }
}

/// The chunk has not been deleted: it may have been pinned or embedded since.
pub open spec fn still_held(m: MemoryView, c: ChunkView) -> bool {
    &&& m.chunks.contains_key(c.id)
    &&& m.chunks[c.id].kind == c.kind
    &&& m.chunks[c.id].metadata == c.metadata
}

/// A chunk stays held through everything but its own deletion: writes under
/// other ids, deletions of other chunks, pins, changes of the embedding model,
/// sessions and links.
pub proof fn law_held_until_deleted(
    m: MemoryView,
    c: ChunkView,
    other: ChunkView,
    ids: Seq<Seq<char>>,
    at: Timestamp,
    reason: EvictionReason,
    model: Seq<char>,
    pinned: bool,
    s: SessionView,
    summary: Seq<char>,
)
    requires
        m.coherent(),
        still_held(m, c),
    ensures
        other.id != c.id ==> still_held(m.with_chunk(other), c),
        !ids.contains(c.id) ==> still_held(m.evicting(ids, at, reason), c),
        still_held(m.with_chunk(ChunkView { pinned, ..m.chunks[c.id] }), c),
        still_held(MemoryView { chunks: m.chunks.map_values(with_model(model)), ..m }, c),
        still_held(m.with_session(s), c),
        still_held(m.linking(summary, ids), c),
{
}

/// A day that was rolled up, and not redacted, is not rolled up again unless
/// that is forced: as long as the rollup is held, the next one writes nothing,
/// whatever was written in between.
pub proof fn law_day_is_rolled_up_once(
    before: MemoryView,
    after: MemoryView,
    day: int,
    date: Seq<char>,
    force: bool,
    answer: SummaryReply,
    reply: HookReply,
    out: Vec<MemoryChunk>,
    later: MemoryView,
    again: MemoryView,
    answer2: SummaryReply,
    reply2: HookReply,
    r2: MemoryResult<Vec<MemoryChunk>>,
)
    requires
        day_result(before, after, day, date, force, answer, reply, Ok(out)),
        out@.len() > 0,
        redaction(reply) is None,
        still_held(later, out@[0]@),
        day_result(later, again, day, date, false, answer2, reply2, r2),
    ensures
        still_held(after, out@[0]@),
        later.summarizer ==> (r2 matches Ok(none) && none@.len() == 0),
        again == later,
{
    let c = out@[0];
    let target = TargetView::Day { date };
    let members = choose|members: Seq<ChunkView>| #[trigger]
        members_by_age(members, before, on_day(day)) && summary_of(
            before,
            after,
            target,
            members,
            answer,
            reply,
            c,
        );
    lemma_summary_kept(before, after, target, members, answer, reply, c);
    lemma_day_metadata(date, members.len(), answer.summarizer@);
    assert(later.chunks.contains_key(c@.id) && day_rollup(date)(later.chunks[c@.id]));
    assert(some_match(later.chunks, day_rollup(date)));
}

/// A rule's week that was rolled up, and not redacted, is refused another
/// rollup unless that is forced: as long as the rollup is held, whatever was
/// written in between, and without changing anything.
pub proof fn law_rule_week_is_rolled_up_once(
    before: MemoryView,
    after: MemoryView,
    rule_id: Seq<char>,
    start: int,
    label: Seq<char>,
    force: bool,
    answer: SummaryReply,
    reply: HookReply,
    c: MemoryChunk,
    later: MemoryView,
    again: MemoryView,
    answer2: SummaryReply,
    reply2: HookReply,
    r2: MemoryResult<MemoryChunk>,
)
    requires
        week_result(before, after, rule_id, start, label, force, answer, reply, Ok(c)),
        redaction(reply) is None,
        still_held(later, c@),
        week_result(later, again, rule_id, start, label, false, answer2, reply2, r2),
    ensures
        still_held(after, c@),
        later.summarizer ==> (r2 matches Err(e) && e@ == ErrorView::InvalidArgument(
            "rollup already exists for rule "@ + rule_id + " week "@ + label,
        )),
        again == later,
{
    let target = TargetView::RuleWeek { rule_id, week_start: label };
    let p = fired_in_week(rule_id, start);
    let members = choose|members: Seq<ChunkView>| #[trigger]
        members_by_age(members, before, p) && summary_of(
            before,
            after,
            target,
            members,
            answer,
            reply,
            c,
        );
    lemma_summary_kept(before, after, target, members, answer, reply, c);
    lemma_week_metadata(rule_id, label, members.len(), answer.summarizer@);
    assert(later.chunks.contains_key(c@.id) && rule_week_rollup(rule_id, label)(
        later.chunks[c@.id],
    ));
    assert(some_match(later.chunks, rule_week_rollup(rule_id, label)));
}

/// No earlier rollup stops one that is forced: it is stopped by nothing but a
/// missing summarizer, a week past the calendar, or the lack of anything to
/// roll up.
pub proof fn law_forced_rollup_is_not_stopped(
    m: MemoryView,
    rule_id: Seq<char>,
    start: int,
    label: Seq<char>,
    day: int,
    date: Seq<char>,
)
    ensures
        week_refusal(m, rule_id, start, label, true) is None <==> m.summarizer && !week_overflow(
            start,
        ) && some_match(m.chunks, fired_in_week(rule_id, start)),
        day_due(m, day, date, true) <==> some_match(m.chunks, on_day(day)),
{
}

/// A rollup of a rule's week under another id leaves every chunk that was
/// there as it was, an earlier rollup of the week among them.
pub proof fn law_later_rollup_keeps_the_earlier(
    before: MemoryView,
    after: MemoryView,
    rule_id: Seq<char>,
    start: int,
    label: Seq<char>,
    force: bool,
    answer: SummaryReply,
    reply: HookReply,
    c2: MemoryChunk,
    c1: ChunkView,
)
    requires
        week_result(before, after, rule_id, start, label, force, answer, reply, Ok(c2)),
        before.chunks.contains_key(c1.id),
        before.chunks[c1.id] == c1,
        c2@.id != c1.id,
    ensures
        after.chunks.contains_key(c1.id),
        after.chunks[c1.id] == c1,
{
    let target = TargetView::RuleWeek { rule_id, week_start: label };
    let p = fired_in_week(rule_id, start);
    let members = choose|members: Seq<ChunkView>| #[trigger]
        members_by_age(members, before, p) && summary_of(
            before,
            after,
            target,
            members,
            answer,
            reply,
            c2,
        );
    if redaction(reply) is None {
        lemma_summary_kept(before, after, target, members, answer, reply, c2);
    }
}

/// A session's summary that was not redacted is kept as a summary of that
/// session, the session carries its text, and every chunk of the session is
/// linked to it.
pub proof fn law_session_summary_is_kept(
    before: MemoryView,
    after: MemoryView,
    session_id: Seq<char>,
    answer: SummaryReply,
    reply: HookReply,
    c: MemoryChunk,
)
    requires
        before.coherent(),
        session_result(before, after, session_id, answer, reply, Ok(c)),
        redaction(reply) is None,
    ensures
        after.chunks.contains_key(c@.id),
        after.chunks[c@.id] == c@,
        c@.kind is JobSummary,
        c@.session_id == Some(session_id),
        answer.outcome matches Ok(text) && c@.content == text@,
        after.sessions[session_id].summary == Some(c@.content),
        forall|id: Seq<char>| #[trigger]
            before.chunks.contains_key(id) && in_session(session_id)(before.chunks[id])
                ==> after.members_of(c@.id).contains(id),
{
    let target = TargetView::Session {
        session_id,
        caller_id: before.sessions[session_id].caller_id,
    };
    let p = in_session(session_id);
    let members = choose|members: Seq<ChunkView>| #[trigger]
        members_by_age(members, before, p) && summary_of(
            before,
            after,
            target,
            members,
            answer,
            reply,
            c,
        );
    lemma_summary_kept(before, after, target, members, answer, reply, c);
    lemma_members_linked(before, members, p, c@.id);
}

/// Forcing another rollup of a day summarizes the same chunks again: a rollup
/// under a fresh id is not among the chunks of its day.
pub proof fn law_rollup_leaves_the_day_alone(
    before: MemoryView,
    after: MemoryView,
    day: int,
    date: Seq<char>,
    force: bool,
    answer: SummaryReply,
    reply: HookReply,
    out: Vec<MemoryChunk>,
)
    requires
        day_result(before, after, day, date, force, answer, reply, Ok(out)),
        forall|i: int|
            0 <= i < out@.len() ==> !before.chunks.contains_key((#[trigger] out@[i])@.id),
    ensures
        matching(after.chunks, on_day(day)) == matching(before.chunks, on_day(day)),
        forall|id: Seq<char>| #[trigger]
            before.chunks.contains_key(id) ==> after.chunks.contains_key(id) && after.chunks[id]
                == before.chunks[id],
{
    if out@.len() > 0 {
        let c = out@[0];
        let target = TargetView::Day { date };
        let members = choose|members: Seq<ChunkView>| #[trigger]
            members_by_age(members, before, on_day(day)) && summary_of(
                before,
                after,
                target,
                members,
                answer,
                reply,
                c,
            );
        if redaction(reply) is None {
            lemma_summary_kept(before, after, target, members, answer, reply, c);
        }
        assert(!before.chunks.contains_key(c@.id));
        assert(matching(after.chunks, on_day(day)) =~= matching(before.chunks, on_day(day)));
    }
}

/// The rollup of one day under a fresh id does not count as one of a day with
/// another text.
pub proof fn law_rollup_counts_for_its_day_alone(
    before: MemoryView,
    after: MemoryView,
    day: int,
    date: Seq<char>,
    force: bool,
    answer: SummaryReply,
    reply: HookReply,
    out: Vec<MemoryChunk>,
    other: Seq<char>,
)
    requires
        day_result(before, after, day, date, force, answer, reply, Ok(out)),
        forall|i: int|
            0 <= i < out@.len() ==> !before.chunks.contains_key((#[trigger] out@[i])@.id),
        other != date,
    ensures
        some_match(after.chunks, day_rollup(other)) == some_match(
            before.chunks,
            day_rollup(other),
        ),
{
    if out@.len() > 0 {
        let c = out@[0];
        let target = TargetView::Day { date };
        let members = choose|members: Seq<ChunkView>| #[trigger]
            members_by_age(members, before, on_day(day)) && summary_of(
                before,
                after,
                target,
                members,
                answer,
                reply,
                c,
            );
        if redaction(reply) is None {
            lemma_summary_kept(before, after, target, members, answer, reply, c);
            lemma_day_metadata(date, members.len(), answer.summarizer@);
            assert(!before.chunks.contains_key(c@.id));
            assert(!day_rollup(other)(after.chunks[c@.id]));
            if some_match(after.chunks, day_rollup(other)) {
                let k = choose|k: Seq<char>| #[trigger]
                    after.chunks.contains_key(k) && day_rollup(other)(after.chunks[k]);
                assert(before.chunks.contains_key(k) && day_rollup(other)(before.chunks[k]));
            }
            if some_match(before.chunks, day_rollup(other)) {
                let k = choose|k: Seq<char>| #[trigger]
                    before.chunks.contains_key(k) && day_rollup(other)(before.chunks[k]);
                assert(after.chunks.contains_key(k) && day_rollup(other)(after.chunks[k]));
            }
        }
    }
}

/// The rollup of a rule's week, written under a fresh id, does not count as one
/// of another rule or of another week.
pub proof fn law_rollup_counts_for_its_week_alone(
    before: MemoryView,
    after: MemoryView,
    rule_id: Seq<char>,
    start: int,
    label: Seq<char>,
    force: bool,
    answer: SummaryReply,
    reply: HookReply,
    c: MemoryChunk,
    other_rule: Seq<char>,
    other: Seq<char>,
)
    requires
        week_result(before, after, rule_id, start, label, force, answer, reply, Ok(c)),
        !before.chunks.contains_key(c@.id),
        other_rule != rule_id || other != label,
    ensures
        some_match(after.chunks, rule_week_rollup(other_rule, other)) == some_match(
            before.chunks,
            rule_week_rollup(other_rule, other),
        ),
{
    let target = TargetView::RuleWeek { rule_id, week_start: label };
    let members = choose|members: Seq<ChunkView>| #[trigger]
        members_by_age(members, before, fired_in_week(rule_id, start)) && summary_of(
            before,
            after,
            target,
            members,
            answer,
            reply,
            c,
        );
    if redaction(reply) is None {
        let p = rule_week_rollup(other_rule, other);
        lemma_summary_kept(before, after, target, members, answer, reply, c);
        lemma_week_metadata(rule_id, label, members.len(), answer.summarizer@);
        assert(!p(after.chunks[c@.id]));
        if some_match(after.chunks, p) {
            let k = choose|k: Seq<char>| #[trigger]
                after.chunks.contains_key(k) && p(after.chunks[k]);
            assert(before.chunks.contains_key(k) && p(before.chunks[k]));
        }
        if some_match(before.chunks, p) {
            let k = choose|k: Seq<char>| #[trigger]
                before.chunks.contains_key(k) && p(before.chunks[k]);
            assert(after.chunks.contains_key(k) && p(after.chunks[k]));
        }
    }
}

// Embedders

/// The mock embedder is deterministic, and its vectors have its dimension.
pub proof fn law_mock_embedder_is_deterministic(
    e: MockEmbedder,
    text: Seq<char>,
    a: EmbedderResult<Vec<i32>>,
    b: EmbedderResult<Vec<i32>>,
)
    requires
        e.may_embed(text, a),
        e.may_embed(text, b),
    ensures
        a is Ok,
        b is Ok,
        a->Ok_0@ == b->Ok_0@,
        a->Ok_0@.len() == e.dim_of(),
{
}

/// Every mock embedder embeds every text, and two of them agree on the
/// components that both have.
pub proof fn law_mock_vectors_share_a_prefix(
    e1: MockEmbedder,
    e2: MockEmbedder,
    text: Seq<char>,
    r1: EmbedderResult<Vec<i32>>,
    r2: EmbedderResult<Vec<i32>>,
)
    requires
        e1.dim_of() <= e2.dim_of(),
        e1.may_embed(text, r1),
        e2.may_embed(text, r2),
    ensures
        r1 is Ok,
        r2 is Ok,
        r1->Ok_0@.len() == e1.dim_of(),
        r2->Ok_0@.len() == e2.dim_of(),
        r1->Ok_0@ == r2->Ok_0@.take(e1.dim_of() as int),
{
    assert(r1->Ok_0@ =~= r2->Ok_0@.take(e1.dim_of() as int));
}

} // verus!
