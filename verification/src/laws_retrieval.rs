//! What retrieving, listing, deleting, exporting and counting come to, call by
//! call.
//!
//! Each law takes the arguments and the result of a call, and says what the
//! result and the memory after it have to be, over the fields of queries,
//! filters, predicates, chunks and sessions.

use crate::basic::BasicMemoryProvider;
use crate::chunk::{ChunkKind, ChunkView, MemoryChunk, MemoryTier};
use crate::error::{ErrorView, MemoryResult};
use crate::json::JsonView;
use crate::laws::{law_delete_then_get, law_sweep_is_exact};
use crate::listing::{cut_from, listed_under, lists, matching, views, Timed};
use crate::model::{
    aged, embedded, embedded_by, exported_sessions, held_by, hit_by, in_tier, let_through,
    names_matches, retention_cutoff, still_open, swept, wanted_by, MemoryView,
};
use crate::ops::{
    eviction, AgingReport, EvictionReason, ExportBundle, ExportFilter, MemoryStats, PurgeReport,
    ReEmbedReport,
};
use crate::query::{chunk_matches, CallerScope, MemoryPredicate, MemoryQuery};
use crate::session::{MemorySession, SessionFilter, SessionOutcome, SessionView};
use crate::text::{lowercase, texts};
use crate::time::Timestamp;
use vstd::prelude::*;

verus! {

// Retrieval

/// Every hit is a stored chunk that meets each condition of the query: its kind
/// is one of the list, it is a rollup only if rollups are wanted, it is of the
/// time, session, project and importance asked for, the asking caller may see
/// it, and its text holds the query's text whatever the case of the letters.
pub proof fn law_hits_meet_every_condition(
    m: BasicMemoryProvider,
    q: MemoryQuery,
    hits: Vec<MemoryChunk>,
    i: int,
)
    requires
        m.wf(),
        call_ensures(BasicMemoryProvider::retrieve, (&m, q), Ok(hits)),
        0 <= i < hits@.len(),
    ensures
        ({
            let c = hits@[i]@;
            &&& m@.chunks.contains_key(c.id)
            &&& m@.chunks[c.id] == c
            &&& q.kinds is Some ==> exists|k: int|
                0 <= k < q.kinds->Some_0@.len() && #[trigger] q.kinds->Some_0@[k] == c.kind
            &&& c.kind == ChunkKind::Rollup ==> q.include_rollups
            &&& q.since is Some ==> c.created_at.rank() >= q.since->Some_0.rank()
            &&& q.until is Some ==> c.created_at.rank() <= q.until->Some_0.rank()
            &&& q.session_id is Some ==> c.session_id == Some(q.session_id->Some_0@)
            &&& q.project_root_prefix is Some ==> {
                let prefix = q.project_root_prefix->Some_0@;
                &&& c.project_root is Some
                &&& c.project_root->Some_0.len() >= prefix.len()
                &&& c.project_root->Some_0.take(prefix.len() as int) == prefix
            }
            &&& q.min_importance is Some ==> !c.importance.lt(q.min_importance->Some_0)
            &&& q.caller_scope == CallerScope::Own ==> c.caller_id == q.caller_id@
            &&& q.caller_scope == CallerScope::OwnPlusShared ==> c.caller_id == q.caller_id@
                || c.shareable
            &&& exists|k: int|
                0 <= k <= lowercase(c.content).len() - lowercase(q.text@).len()
                    && #[trigger] lowercase(c.content).subrange(
                    k,
                    k + lowercase(q.text@).len(),
                ) == lowercase(q.text@)
        }),
{
    m.lemma_coherent();
    let found = lemma_retrieved(m, q, hits);
    let full = found.0;
    let keys = found.1;
    assert(full[i] == hits@[i]@);
    assert(m@.chunks.contains_key(keys[i]));
    assert(hit_by(q)(full[i]));
}

/// Hits are at most `k`, none comes twice, and later ones come first.
pub proof fn law_hits_are_few_distinct_and_newest_first(
    m: BasicMemoryProvider,
    q: MemoryQuery,
    hits: Vec<MemoryChunk>,
)
    requires
        m.wf(),
        call_ensures(BasicMemoryProvider::retrieve, (&m, q), Ok(hits)),
    ensures
        hits@.len() <= q.k,
        forall|i: int, j: int|
            0 <= i < j < hits@.len() ==> (#[trigger] hits@[i]).id@ != (#[trigger] hits@[j]).id@
                && hits@[i].created_at.rank() >= hits@[j].created_at.rank(),
{
    m.lemma_coherent();
    let found = lemma_retrieved(m, q, hits);
    let full = found.0;
    let keys = found.1;
    assert forall|i: int, j: int| 0 <= i < j < hits@.len() implies (#[trigger] hits@[i]).id@ != (
    #[trigger] hits@[j]).id@ && hits@[i].created_at.rank() >= hits@[j].created_at.rank() by {
        assert(full[i] == hits@[i]@ && full[j] == hits@[j]@);
        assert(m@.chunks.contains_key(keys[i]) && m@.chunks.contains_key(keys[j]));
        assert(keys[i] != keys[j]);
    }
}

/// A stored chunk that meets each condition of the query is among the hits,
/// unless `k` hits that are at least as recent are.
pub proof fn law_what_meets_every_condition_is_hit(
    m: BasicMemoryProvider,
    q: MemoryQuery,
    hits: Vec<MemoryChunk>,
    c: ChunkView,
)
    requires
        m.wf(),
        call_ensures(BasicMemoryProvider::retrieve, (&m, q), Ok(hits)),
        m@.chunks.contains_key(c.id),
        m@.chunks[c.id] == c,
        q.kinds is Some ==> exists|k: int|
            0 <= k < q.kinds->Some_0@.len() && #[trigger] q.kinds->Some_0@[k] == c.kind,
        c.kind == ChunkKind::Rollup ==> q.include_rollups,
        q.since is Some ==> c.created_at.rank() >= q.since->Some_0.rank(),
        q.until is Some ==> c.created_at.rank() <= q.until->Some_0.rank(),
        q.session_id is Some ==> c.session_id == Some(q.session_id->Some_0@),
        q.project_root_prefix is Some ==> c.project_root is Some && c.project_root->Some_0.len()
            >= q.project_root_prefix->Some_0@.len() && c.project_root->Some_0.take(
            q.project_root_prefix->Some_0@.len() as int,
        ) == q.project_root_prefix->Some_0@,
        q.min_importance is Some ==> !c.importance.lt(q.min_importance->Some_0),
        q.caller_scope == CallerScope::Own ==> c.caller_id == q.caller_id@,
        q.caller_scope == CallerScope::OwnPlusShared ==> c.caller_id == q.caller_id@
            || c.shareable,
        exists|k: int|
            0 <= k <= lowercase(c.content).len() - lowercase(q.text@).len()
                && #[trigger] lowercase(c.content).subrange(k, k + lowercase(q.text@).len())
                == lowercase(q.text@),
    ensures
        (exists|i: int| 0 <= i < hits@.len() && (#[trigger] hits@[i])@ == c) || (hits@.len() == q.k
            && forall|i: int|
            0 <= i < hits@.len() ==> (#[trigger] hits@[i]).created_at.rank()
                >= c.created_at.rank()),
{
    if q.project_root_prefix is Some {
        let prefix = q.project_root_prefix->Some_0@;
        assert(prefix =~= c.project_root->Some_0.subrange(0, prefix.len() as int));
    }
    assert(q.hits(c));
    assert(hit_by(q)(c));
    let found = lemma_retrieved(m, q, hits);
    let full = found.0;
    let keys = found.1;
    assert(keys.contains(c.id));
    let i = choose|i: int| 0 <= i < keys.len() && keys[i] == c.id;
    assert(full[i] == c);
    if i < hits@.len() {
        assert(hits@[i]@ == c);
    } else {
        assert forall|j: int| 0 <= j < hits@.len() implies (#[trigger] hits@[j]).created_at.rank()
            >= c.created_at.rank() by {
            assert(full[j] == hits@[j]@);
        }
    }
}

/// A query is answered exactly when its text has something besides white space.
pub proof fn law_blank_query_is_refused(
    m: BasicMemoryProvider,
    q: MemoryQuery,
    r: MemoryResult<Vec<MemoryChunk>>,
)
    requires
        call_ensures(BasicMemoryProvider::retrieve, (&m, q), r),
    ensures
        r is Ok <==> exists|i: int|
            0 <= i < q.text@.len() && {
                let u = #[trigger] q.text@[i] as u32;
                !(0x9 <= u <= 0xd || u == 0x20 || u == 0x85 || u == 0xa0 || u == 0x1680 || 0x2000
                    <= u <= 0x200a || u == 0x2028 || u == 0x2029 || u == 0x202f || u == 0x205f || u
                    == 0x3000)
            },
        r is Err ==> r->Err_0@ == ErrorView::InvalidArgument("query.text must not be empty"@),
{
}

proof fn lemma_retrieved(m: BasicMemoryProvider, q: MemoryQuery, hits: Vec<MemoryChunk>) -> (r: (
    Seq<ChunkView>,
    Seq<Seq<char>>,
))
    requires
        call_ensures(BasicMemoryProvider::retrieve, (&m, q), Ok(hits)),
    ensures
        listed_under(r.1, r.0, m@.chunks, hit_by(q)),
        hits@.len() <= r.0.len(),
        hits@.len() <= q.k,
        hits@.len() < r.0.len() ==> hits@.len() == q.k,
        forall|i: int| 0 <= i < hits@.len() ==> r.0[i] == (#[trigger] hits@[i])@,
        forall|i: int, j: int|
            0 <= i < j < r.0.len() ==> (#[trigger] r.0[i]).created_at.rank() >= (
            #[trigger] r.0[j]).created_at.rank(),
{
    let shown: Seq<ChunkView> = views(hits@);
    assert(shown.len() == hits@.len());
    assert forall|i: int| 0 <= i < hits@.len() implies shown[i] == (#[trigger] hits@[i])@ by {
    }
    let full = choose|full: Seq<ChunkView>|
        cut_from::<MemoryChunk>(full, views(hits@), m@.chunks, hit_by(q), Some(q.k));
    let keys = choose|keys: Seq<Seq<char>>| listed_under(keys, full, m@.chunks, hit_by(q));
    assert(shown == if q.k < full.len() {
        full.take(q.k as int)
    } else {
        full
    });
    assert forall|i: int, j: int| 0 <= i < j < full.len() implies (
    #[trigger] full[i]).created_at.rank() >= (#[trigger] full[j]).created_at.rank() by {
        assert(MemoryChunk::instant(full[i]) >= MemoryChunk::instant(full[j]));
    }
    (full, keys)
}

// Sessions

/// Every listed session is stored and meets each condition of the filter; none
/// comes twice, later ones come first, and there are no more than the limit.
pub proof fn law_listed_sessions_meet_every_condition(
    m: BasicMemoryProvider,
    f: SessionFilter,
    r: MemoryResult<Vec<MemorySession>>,
)
    requires
        m.wf(),
        call_ensures(BasicMemoryProvider::list_sessions, (&m, f), r),
    ensures
        r is Ok,
        f.limit is Some ==> r->Ok_0@.len() <= f.limit->Some_0,
        forall|i: int|
            0 <= i < r->Ok_0@.len() ==> {
                let s = (#[trigger] r->Ok_0@[i])@;
                &&& m@.sessions.contains_key(s.id)
                &&& m@.sessions[s.id] == s
                &&& f.caller_id is Some ==> s.caller_id == f.caller_id->Some_0@
                &&& f.outcome is Some ==> s.outcome == f.outcome->Some_0
                &&& f.open_only ==> s.outcome == SessionOutcome::Open
                &&& f.since is Some ==> s.started_at.rank() >= f.since->Some_0.rank()
                &&& f.until is Some ==> s.started_at.rank() <= f.until->Some_0.rank()
            },
        forall|i: int, j: int|
            0 <= i < j < r->Ok_0@.len() ==> (#[trigger] r->Ok_0@[i]).id@ != (
            #[trigger] r->Ok_0@[j]).id@ && r->Ok_0@[i].started_at.rank()
                >= r->Ok_0@[j].started_at.rank(),
{
    m.lemma_coherent();
    let out = r->Ok_0@;
    let found = lemma_listed(m, f, r->Ok_0);
    let full = found.0;
    let keys = found.1;
    assert forall|i: int| 0 <= i < out.len() implies {
        let s = (#[trigger] out[i])@;
        &&& m@.sessions.contains_key(s.id)
        &&& m@.sessions[s.id] == s
        &&& f.caller_id is Some ==> s.caller_id == f.caller_id->Some_0@
        &&& f.outcome is Some ==> s.outcome == f.outcome->Some_0
        &&& f.open_only ==> s.outcome == SessionOutcome::Open
        &&& f.since is Some ==> s.started_at.rank() >= f.since->Some_0.rank()
        &&& f.until is Some ==> s.started_at.rank() <= f.until->Some_0.rank()
    } by {
        assert(full[i] == out[i]@);
        assert(m@.sessions.contains_key(keys[i]));
        assert(let_through(f)(full[i]));
    }
    assert forall|i: int, j: int| 0 <= i < j < out.len() implies (#[trigger] out[i]).id@ != (
    #[trigger] out[j]).id@ && out[i].started_at.rank() >= out[j].started_at.rank() by {
        assert(full[i] == out[i]@ && full[j] == out[j]@);
        assert(m@.sessions.contains_key(keys[i]) && m@.sessions.contains_key(keys[j]));
        assert(keys[i] != keys[j]);
    }
}

/// A stored session that meets each condition of the filter is listed, unless
/// the limit is used up by sessions that are at least as recent.
pub proof fn law_what_meets_every_condition_is_listed(
    m: BasicMemoryProvider,
    f: SessionFilter,
    r: MemoryResult<Vec<MemorySession>>,
    s: SessionView,
)
    requires
        m.wf(),
        call_ensures(BasicMemoryProvider::list_sessions, (&m, f), r),
        m@.sessions.contains_key(s.id),
        m@.sessions[s.id] == s,
        f.caller_id is Some ==> s.caller_id == f.caller_id->Some_0@,
        f.outcome is Some ==> s.outcome == f.outcome->Some_0,
        f.open_only ==> s.outcome == SessionOutcome::Open,
        f.since is Some ==> s.started_at.rank() >= f.since->Some_0.rank(),
        f.until is Some ==> s.started_at.rank() <= f.until->Some_0.rank(),
    ensures
        r is Ok,
        (exists|i: int| 0 <= i < r->Ok_0@.len() && (#[trigger] r->Ok_0@[i])@ == s) || (
        f.limit is Some && r->Ok_0@.len() == f.limit->Some_0 && forall|i: int|
            0 <= i < r->Ok_0@.len() ==> (#[trigger] r->Ok_0@[i]).started_at.rank()
                >= s.started_at.rank()),
{
    let out = r->Ok_0@;
    let found = lemma_listed(m, f, r->Ok_0);
    let full = found.0;
    let keys = found.1;
    assert(let_through(f)(s));
    assert(keys.contains(s.id));
    let i = choose|i: int| 0 <= i < keys.len() && keys[i] == s.id;
    assert(full[i] == s);
    if i < out.len() {
        assert(r->Ok_0@[i]@ == s);
    } else {
        assert forall|j: int| 0 <= j < out.len() implies (#[trigger] r->Ok_0@[j]).started_at.rank()
            >= s.started_at.rank() by {
            assert(full[j] == out[j]@);
        }
    }
}

proof fn lemma_listed(m: BasicMemoryProvider, f: SessionFilter, out: Vec<MemorySession>) -> (r: (
    Seq<SessionView>,
    Seq<Seq<char>>,
))
    requires
        call_ensures(BasicMemoryProvider::list_sessions, (&m, f), Ok(out)),
    ensures
        listed_under(r.1, r.0, m@.sessions, let_through(f)),
        out@.len() <= r.0.len(),
        f.limit is Some ==> out@.len() <= f.limit->Some_0,
        out@.len() < r.0.len() ==> f.limit is Some && out@.len() == f.limit->Some_0,
        forall|i: int| 0 <= i < out@.len() ==> r.0[i] == (#[trigger] out@[i])@,
        forall|i: int, j: int|
            0 <= i < j < r.0.len() ==> (#[trigger] r.0[i]).started_at.rank() >= (
            #[trigger] r.0[j]).started_at.rank(),
{
    let shown: Seq<SessionView> = views(out@);
    assert(shown.len() == out@.len());
    assert forall|i: int| 0 <= i < out@.len() implies shown[i] == (#[trigger] out@[i])@ by {
    }
    let full = choose|full: Seq<SessionView>|
        cut_from::<MemorySession>(full, views(out@), m@.sessions, let_through(f), f.limit);
    let keys = choose|keys: Seq<Seq<char>>| listed_under(keys, full, m@.sessions, let_through(f));
    assert(shown == match f.limit {
        Some(n) => if n < full.len() {
            full.take(n as int)
        } else {
            full
        },
        None => full,
    });
    assert forall|i: int, j: int| 0 <= i < j < full.len() implies (
    #[trigger] full[i]).started_at.rank() >= (#[trigger] full[j]).started_at.rank() by {
        assert(MemorySession::instant(full[i]) >= MemorySession::instant(full[j]));
    }
    (full, keys)
}

// Predicates and deletes

/// A chunk meets a predicate exactly when it meets each condition that the
/// predicate sets, whatever else it sets.
pub proof fn law_predicate_conditions_are_conjoined(
    chunk: MemoryChunk,
    p: MemoryPredicate,
    b: bool,
)
    requires
        call_ensures(chunk_matches, (&chunk, &p), b),
    ensures
        ({
            let c = chunk@;
            b <==> {
            &&& p.kinds is Some ==> exists|k: int|
                0 <= k < p.kinds->Some_0@.len() && #[trigger] p.kinds->Some_0@[k] == c.kind
            &&& p.callers is Some ==> exists|k: int|
                0 <= k < p.callers->Some_0@.len() && #[trigger] p.callers->Some_0@[k]@
                    == c.caller_id
            &&& p.session_ids is Some ==> c.session_id is Some && exists|k: int|
                0 <= k < p.session_ids->Some_0@.len() && #[trigger] p.session_ids->Some_0@[k]@
                    == c.session_id->Some_0
            &&& p.project_root_prefix is Some ==> {
                let prefix = p.project_root_prefix->Some_0@;
                &&& c.project_root is Some
                &&& c.project_root->Some_0.len() >= prefix.len()
                &&& c.project_root->Some_0.take(prefix.len() as int) == prefix
            }
            &&& p.before is Some ==> c.created_at.rank() < p.before->Some_0.rank()
            &&& p.after is Some ==> c.created_at.rank() > p.after->Some_0.rank()
            &&& p.pinned is Some ==> c.pinned == p.pinned->Some_0
            &&& p.importance_below is Some ==> !c.importance.ge(p.importance_below->Some_0)
            &&& p.content_contains is Some ==> exists|k: int|
                0 <= k <= lowercase(c.content).len() - lowercase(
                    p.content_contains->Some_0@,
                ).len() && #[trigger] lowercase(c.content).subrange(
                    k,
                    k + lowercase(p.content_contains->Some_0@).len(),
                ) == lowercase(p.content_contains->Some_0@)
        }
        }),
{
    let c = chunk@;
    lemma_predicate(p, c);
}

/// What a predicate holds of, condition by condition.
proof fn lemma_predicate(p: MemoryPredicate, c: ChunkView)
    ensures
        held_by(p)(c) == p.holds(c),
        p.holds(c) <==> {
            &&& p.kinds is Some ==> exists|k: int|
                0 <= k < p.kinds->Some_0@.len() && #[trigger] p.kinds->Some_0@[k] == c.kind
            &&& p.callers is Some ==> exists|k: int|
                0 <= k < p.callers->Some_0@.len() && #[trigger] p.callers->Some_0@[k]@
                    == c.caller_id
            &&& p.session_ids is Some ==> c.session_id is Some && exists|k: int|
                0 <= k < p.session_ids->Some_0@.len() && #[trigger] p.session_ids->Some_0@[k]@
                    == c.session_id->Some_0
            &&& p.project_root_prefix is Some ==> {
                let prefix = p.project_root_prefix->Some_0@;
                &&& c.project_root is Some
                &&& c.project_root->Some_0.len() >= prefix.len()
                &&& c.project_root->Some_0.take(prefix.len() as int) == prefix
            }
            &&& p.before is Some ==> c.created_at.rank() < p.before->Some_0.rank()
            &&& p.after is Some ==> c.created_at.rank() > p.after->Some_0.rank()
            &&& p.pinned is Some ==> c.pinned == p.pinned->Some_0
            &&& p.importance_below is Some ==> !c.importance.ge(p.importance_below->Some_0)
            &&& p.content_contains is Some ==> exists|k: int|
                0 <= k <= lowercase(c.content).len() - lowercase(
                    p.content_contains->Some_0@,
                ).len() && #[trigger] lowercase(c.content).subrange(
                    k,
                    k + lowercase(p.content_contains->Some_0@).len(),
                ) == lowercase(p.content_contains->Some_0@)
        },
{
    if p.callers is Some {
        let list = texts(p.callers->Some_0@);
        if list.contains(c.caller_id) {
            let k = choose|k: int| 0 <= k < list.len() && list[k] == c.caller_id;
            assert(p.callers->Some_0@[k]@ == c.caller_id);
        }
        if exists|k: int|
            0 <= k < p.callers->Some_0@.len() && #[trigger] p.callers->Some_0@[k]@ == c.caller_id {
            let k = choose|k: int|
                0 <= k < p.callers->Some_0@.len() && #[trigger] p.callers->Some_0@[k]@
                    == c.caller_id;
            assert(list[k] == c.caller_id);
        }
    }
    if p.session_ids is Some && c.session_id is Some {
        let list = texts(p.session_ids->Some_0@);
        let s = c.session_id->Some_0;
        if list.contains(s) {
            let k = choose|k: int| 0 <= k < list.len() && list[k] == s;
            assert(p.session_ids->Some_0@[k]@ == s);
        }
        if exists|k: int|
            0 <= k < p.session_ids->Some_0@.len() && #[trigger] p.session_ids->Some_0@[k]@ == s {
            let k = choose|k: int|
                0 <= k < p.session_ids->Some_0@.len() && #[trigger] p.session_ids->Some_0@[k]@ == s;
            assert(list[k] == s);
        }
    }
    if p.project_root_prefix is Some && c.project_root is Some {
        let prefix = p.project_root_prefix->Some_0@;
        let root = c.project_root->Some_0;
        if root.len() >= prefix.len() {
            assert(root.take(prefix.len() as int) =~= root.subrange(0, prefix.len() as int));
        }
    }
}

/// A bulk deletion deletes exactly the chunks that meet each condition that the
/// predicate sets, and spares those that fail any; a predicate that sets none
/// deletes nothing.
pub proof fn law_bulk_deletion_spares_what_fails_a_condition(
    m: &mut BasicMemoryProvider,
    p: MemoryPredicate,
    reason: EvictionReason,
    r: MemoryResult<usize>,
    id: Seq<char>,
)
    requires
        call_ensures(BasicMemoryProvider::delete_matching, (m, p, reason), r),
        old(m)@.chunks.contains_key(id),
    ensures
        r is Ok,
        ({
            let c = old(m)@.chunks[id];
            let sets_none = p.kinds is None && p.callers is None && p.session_ids is None
            && p.project_root_prefix is None && p.before is None && p.after is None
            && p.pinned is None && p.importance_below is None && p.content_contains is None;
            let meets_all = {
            &&& p.kinds is Some ==> exists|k: int|
                0 <= k < p.kinds->Some_0@.len() && #[trigger] p.kinds->Some_0@[k] == c.kind
            &&& p.callers is Some ==> exists|k: int|
                0 <= k < p.callers->Some_0@.len() && #[trigger] p.callers->Some_0@[k]@
                    == c.caller_id
            &&& p.session_ids is Some ==> c.session_id is Some && exists|k: int|
                0 <= k < p.session_ids->Some_0@.len() && #[trigger] p.session_ids->Some_0@[k]@
                    == c.session_id->Some_0
            &&& p.project_root_prefix is Some ==> {
                let prefix = p.project_root_prefix->Some_0@;
                &&& c.project_root is Some
                &&& c.project_root->Some_0.len() >= prefix.len()
                &&& c.project_root->Some_0.take(prefix.len() as int) == prefix
            }
            &&& p.before is Some ==> c.created_at.rank() < p.before->Some_0.rank()
            &&& p.after is Some ==> c.created_at.rank() > p.after->Some_0.rank()
            &&& p.pinned is Some ==> c.pinned == p.pinned->Some_0
            &&& p.importance_below is Some ==> !c.importance.ge(p.importance_below->Some_0)
            &&& p.content_contains is Some ==> exists|k: int|
                0 <= k <= lowercase(c.content).len() - lowercase(
                    p.content_contains->Some_0@,
                ).len() && #[trigger] lowercase(c.content).subrange(
                    k,
                    k + lowercase(p.content_contains->Some_0@).len(),
                ) == lowercase(p.content_contains->Some_0@)
        };
            !final(m)@.chunks.contains_key(id) <==> !sets_none && meets_all
        }),
{
    lemma_predicate(p, old(m)@.chunks[id]);
    if !p.unconditional() {
        let at = choose|at: Timestamp|
            #[trigger] at.on_clock() && swept(
                old(m)@,
                final(m)@,
                held_by(p),
                r->Ok_0 as nat,
                at,
                reason,
            );
        law_sweep_is_exact(old(m)@, final(m)@, held_by(p), r->Ok_0 as nat, at, reason);
    }
}

/// A bulk deletion at a given instant deletes what the predicate alone is met
/// by, unless it sets no condition.
pub proof fn law_bulk_deletion_follows_the_predicate(
    m: &mut BasicMemoryProvider,
    p: MemoryPredicate,
    reason: EvictionReason,
    at: Timestamp,
    r: MemoryResult<usize>,
    chunk: MemoryChunk,
    b: bool,
)
    requires
        call_ensures(BasicMemoryProvider::delete_matching_at, (m, p, reason, at), r),
        old(m)@.chunks.contains_key(chunk@.id),
        old(m)@.chunks[chunk@.id] == chunk@,
        call_ensures(chunk_matches, (&chunk, &p), b),
    ensures
        r is Ok,
        ({
            let sets_none = p.kinds is None && p.callers is None && p.session_ids is None
            && p.project_root_prefix is None && p.before is None && p.after is None
            && p.pinned is None && p.importance_below is None && p.content_contains is None;
            !final(m)@.chunks.contains_key(chunk@.id) <==> !sets_none && b
        }),
{
    if !p.unconditional() {
        law_sweep_is_exact(old(m)@, final(m)@, held_by(p), r->Ok_0 as nat, at, reason);
    }
}

/// What a sweep logs and leaves.
proof fn lemma_swept(
    before: MemoryView,
    after: MemoryView,
    p: spec_fn(ChunkView) -> bool,
    n: nat,
    at: Timestamp,
    reason: EvictionReason,
)
    requires
        swept(before, after, p, n, at, reason),
    ensures
        after.evictions.len() == before.evictions.len() + n,
        after.evictions.take(before.evictions.len() as int) == before.evictions,
        forall|j: int|
            before.evictions.len() <= j < after.evictions.len() ==> {
                let e = #[trigger] after.evictions[j];
                &&& e.ts == at
                &&& e.reason == reason
                &&& e.metadata == JsonView::Null
                &&& before.chunks.contains_key(e.chunk_id)
                &&& !after.chunks.contains_key(e.chunk_id)
            },
        forall|id: Seq<char>| #[trigger]
            before.chunks.contains_key(id) && !after.chunks.contains_key(id) ==> exists|j: int|
                before.evictions.len() <= j < after.evictions.len()
                    && #[trigger] after.evictions[j].chunk_id == id,
        forall|i: int, j: int|
            before.evictions.len() <= i < j < after.evictions.len()
                ==> (#[trigger] after.evictions[i]).chunk_id != (
            #[trigger] after.evictions[j]).chunk_id,
        forall|id: Seq<char>| #[trigger]
            after.chunks.contains_key(id) ==> before.chunks.contains_key(id) && after.chunks[id]
                == before.chunks[id],
        after.sessions == before.sessions,
        after.accesses == before.accesses,
        after.members == before.members,
        after.write_hook == before.write_hook,
        after.summarizer == before.summarizer,
{
    let ids = choose|ids: Seq<Seq<char>>|
        {
            &&& #[trigger] names_matches(ids, before.chunks, p)
            &&& ids.len() == n
            &&& after == before.evicting(ids, at, reason)
        };
    let len = before.evictions.len() as int;
    let entry = |id: Seq<char>| eviction(at, id, reason);
    assert(after.evictions == before.evictions + ids.map_values(entry));
    assert(after.evictions.take(len) =~= before.evictions);
    assert forall|j: int| len <= j < after.evictions.len() implies #[trigger] after.evictions[j]
        == eviction(at, ids[j - len], reason) && ids.to_set().contains(ids[j - len]) by {
        assert(ids.map_values(entry)[j - len] == entry(ids[j - len]));
        assert(ids.contains(ids[j - len]));
    }
    assert forall|id: Seq<char>| #[trigger]
        before.chunks.contains_key(id) && !after.chunks.contains_key(id) implies exists|j: int|
        len <= j < after.evictions.len() && #[trigger] after.evictions[j].chunk_id == id by {
        assert(ids.to_set().contains(id));
        let i = choose|i: int| 0 <= i < ids.len() && ids[i] == id;
        assert(after.evictions[len + i].chunk_id == id);
    }
    assert forall|i: int, j: int| len <= i < j < after.evictions.len() implies (
    #[trigger] after.evictions[i]).chunk_id != (#[trigger] after.evictions[j]).chunk_id by {
        assert(ids[i - len] != ids[j - len]);
    }
    assert forall|j: int| len <= j < after.evictions.len() implies before.chunks.contains_key(
        (#[trigger] after.evictions[j]).chunk_id,
    ) && !after.chunks.contains_key(after.evictions[j].chunk_id) by {
        assert(after.evictions[j] == eviction(at, ids[j - len], reason));
        assert(matching(before.chunks, p).contains(ids[j - len]));
    }
}

/// A bulk deletion logs each deleted chunk once, with the reason and the
/// instant, reports their number, and leaves everything else alone.
pub proof fn law_bulk_deletion_is_logged(
    m: &mut BasicMemoryProvider,
    p: MemoryPredicate,
    reason: EvictionReason,
    at: Timestamp,
    r: MemoryResult<usize>,
)
    requires
        call_ensures(BasicMemoryProvider::delete_matching_at, (m, p, reason, at), r),
    ensures
        r is Ok,
        final(m)@.evictions.len() == old(m)@.evictions.len() + r->Ok_0,
        forall|j: int|
            old(m)@.evictions.len() <= j < final(m)@.evictions.len() ==> {
                let e = #[trigger] final(m)@.evictions[j];
                &&& e.ts == at
                &&& e.reason == reason
                &&& e.metadata == JsonView::Null
                &&& old(m)@.chunks.contains_key(e.chunk_id)
                &&& !final(m)@.chunks.contains_key(e.chunk_id)
            },
        forall|id: Seq<char>| #[trigger]
            old(m)@.chunks.contains_key(id) && !final(m)@.chunks.contains_key(id) ==> exists|
                j: int,
            |
                old(m)@.evictions.len() <= j < final(m)@.evictions.len()
                    && #[trigger] final(m)@.evictions[j].chunk_id == id,
        forall|i: int, j: int|
            old(m)@.evictions.len() <= i < j < final(m)@.evictions.len()
                ==> (#[trigger] final(m)@.evictions[i]).chunk_id != (
            #[trigger] final(m)@.evictions[j]).chunk_id,
        final(m)@.evictions.take(old(m)@.evictions.len() as int) == old(m)@.evictions,
        forall|id: Seq<char>| #[trigger]
            final(m)@.chunks.contains_key(id) ==> old(m)@.chunks.contains_key(id)
                && final(m)@.chunks[id] == old(m)@.chunks[id],
        final(m)@.sessions == old(m)@.sessions,
        final(m)@.accesses == old(m)@.accesses,
        final(m)@.members == old(m)@.members,
{
    if p.unconditional() {
        assert(final(m)@.evictions.take(old(m)@.evictions.len() as int) =~= old(m)@.evictions);
    } else {
        lemma_swept(old(m)@, final(m)@, held_by(p), r->Ok_0 as nat, at, reason);
    }
}

/// The same of a bulk deletion at the present instant.
pub proof fn law_bulk_deletion_now_is_logged(
    m: &mut BasicMemoryProvider,
    p: MemoryPredicate,
    reason: EvictionReason,
    r: MemoryResult<usize>,
)
    requires
        call_ensures(BasicMemoryProvider::delete_matching, (m, p, reason), r),
    ensures
        r is Ok,
        final(m)@.evictions.len() == old(m)@.evictions.len() + r->Ok_0,
        forall|j: int|
            old(m)@.evictions.len() <= j < final(m)@.evictions.len() ==> {
                let e = #[trigger] final(m)@.evictions[j];
                &&& e.ts.secs() >= 0
                &&& e.reason == reason
                &&& e.metadata == JsonView::Null
                &&& old(m)@.chunks.contains_key(e.chunk_id)
                &&& !final(m)@.chunks.contains_key(e.chunk_id)
            },
        forall|id: Seq<char>| #[trigger]
            old(m)@.chunks.contains_key(id) && !final(m)@.chunks.contains_key(id) ==> exists|
                j: int,
            |
                old(m)@.evictions.len() <= j < final(m)@.evictions.len()
                    && #[trigger] final(m)@.evictions[j].chunk_id == id,
        forall|i: int, j: int|
            old(m)@.evictions.len() <= i < j < final(m)@.evictions.len()
                ==> (#[trigger] final(m)@.evictions[i]).chunk_id != (
            #[trigger] final(m)@.evictions[j]).chunk_id,
        final(m)@.evictions.take(old(m)@.evictions.len() as int) == old(m)@.evictions,
        forall|id: Seq<char>| #[trigger]
            final(m)@.chunks.contains_key(id) ==> old(m)@.chunks.contains_key(id)
                && final(m)@.chunks[id] == old(m)@.chunks[id],
        final(m)@.sessions == old(m)@.sessions,
        final(m)@.accesses == old(m)@.accesses,
        final(m)@.members == old(m)@.members,
{
    if p.unconditional() {
        assert(final(m)@.evictions.take(old(m)@.evictions.len() as int) =~= old(m)@.evictions);
    } else {
        let at = choose|at: Timestamp|
            #[trigger] at.on_clock() && swept(
                old(m)@,
                final(m)@,
                held_by(p),
                r->Ok_0 as nat,
                at,
                reason,
            );
        lemma_swept(old(m)@, final(m)@, held_by(p), r->Ok_0 as nat, at, reason);
    }
}

/// A deletion removes one chunk and logs it last; nothing else changes, and a
/// chunk that is not there is reported.
pub proof fn law_delete_removes_and_logs_one_chunk(
    m: &mut BasicMemoryProvider,
    chunk_id: &str,
    reason: EvictionReason,
    at: Timestamp,
    r: MemoryResult<()>,
    other: Seq<char>,
)
    requires
        call_ensures(BasicMemoryProvider::delete_at, (m, chunk_id, reason, at), r),
    ensures
        r is Ok <==> old(m)@.chunks.contains_key(chunk_id@),
        r is Err ==> r->Err_0@ == ErrorView::NotFound("chunk "@ + chunk_id@) && final(m)@
            == old(m)@,
        !final(m)@.chunks.contains_key(chunk_id@),
        other != chunk_id@ ==> (final(m)@.chunks.contains_key(other)
            <==> old(m)@.chunks.contains_key(other)) && (old(m)@.chunks.contains_key(other)
            ==> final(m)@.chunks[other] == old(m)@.chunks[other]),
        r is Ok ==> {
            let log = final(m)@.evictions;
            &&& log.len() == old(m)@.evictions.len() + 1
            &&& log.drop_last() == old(m)@.evictions
            &&& log.last().ts == at
            &&& log.last().chunk_id == chunk_id@
            &&& log.last().reason == reason
            &&& log.last().metadata == JsonView::Null
        },
        final(m)@.sessions == old(m)@.sessions,
        final(m)@.accesses == old(m)@.accesses,
        final(m)@.members == old(m)@.members,
{
    if r is Ok {
        law_delete_then_get(old(m)@, chunk_id@, at, reason);
        assert(final(m)@.evictions.drop_last() =~= old(m)@.evictions);
        assert(seq![chunk_id@].to_set() =~= set![chunk_id@]) by {
            assert(seq![chunk_id@][0] == chunk_id@);
        }
    }
}

/// The same of a deletion at the present instant.
pub proof fn law_delete_now_removes_and_logs_one_chunk(
    m: &mut BasicMemoryProvider,
    chunk_id: &str,
    reason: EvictionReason,
    r: MemoryResult<()>,
    other: Seq<char>,
)
    requires
        call_ensures(BasicMemoryProvider::delete, (m, chunk_id, reason), r),
    ensures
        r is Ok <==> old(m)@.chunks.contains_key(chunk_id@),
        r is Err ==> r->Err_0@ == ErrorView::NotFound("chunk "@ + chunk_id@) && final(m)@
            == old(m)@,
        !final(m)@.chunks.contains_key(chunk_id@),
        other != chunk_id@ ==> (final(m)@.chunks.contains_key(other)
            <==> old(m)@.chunks.contains_key(other)) && (old(m)@.chunks.contains_key(other)
            ==> final(m)@.chunks[other] == old(m)@.chunks[other]),
        r is Ok ==> {
            let log = final(m)@.evictions;
            &&& log.len() == old(m)@.evictions.len() + 1
            &&& log.drop_last() == old(m)@.evictions
            &&& log.last().ts.secs() >= 0
            &&& log.last().chunk_id == chunk_id@
            &&& log.last().reason == reason
            &&& log.last().metadata == JsonView::Null
        },
        final(m)@.sessions == old(m)@.sessions,
        final(m)@.accesses == old(m)@.accesses,
        final(m)@.members == old(m)@.members,
{
    if r is Ok {
        let at = choose|at: Timestamp|
            #[trigger] at.on_clock() && final(m)@ == old(m)@.evicting(
                seq![chunk_id@],
                at,
                reason,
            );
        law_delete_then_get(old(m)@, chunk_id@, at, reason);
        assert(final(m)@.evictions.drop_last() =~= old(m)@.evictions);
        assert(seq![chunk_id@].to_set() =~= set![chunk_id@]) by {
            assert(seq![chunk_id@][0] == chunk_id@);
        }
    }
}

/// A purge reports how much there was of everything, and leaves nothing.
pub proof fn law_purge_reports_and_forgets(
    m: &mut BasicMemoryProvider,
    r: MemoryResult<PurgeReport>,
)
    requires
        call_ensures(BasicMemoryProvider::purge_all, (m,), r),
    ensures
        r is Ok,
        r->Ok_0.chunks_deleted == old(m)@.chunks.dom().len(),
        r->Ok_0.sessions_deleted == old(m)@.sessions.dom().len(),
        r->Ok_0.access_log_deleted == old(m)@.accesses.len(),
        r->Ok_0.eviction_log_deleted == old(m)@.evictions.len(),
        forall|id: Seq<char>| !final(m)@.chunks.contains_key(id),
        forall|id: Seq<char>| !final(m)@.sessions.contains_key(id),
        forall|id: Seq<char>| !final(m)@.members.contains_key(id),
        final(m)@.evictions.len() == 0,
        final(m)@.accesses.len() == 0,
        final(m)@.write_hook == old(m)@.write_hook,
        final(m)@.summarizer == old(m)@.summarizer,
{
}

// Maintenance

/// An aging sweep deletes a chunk exactly when it is older than the cutoff,
/// not pinned and no correction, whatever its other fields; it logs each
/// deletion as one for age, and reports their number.
pub proof fn law_aging_deletes_what_is_old(
    m: &mut BasicMemoryProvider,
    cutoff: Timestamp,
    at: Timestamp,
    r: MemoryResult<AgingReport>,
)
    requires
        call_ensures(BasicMemoryProvider::run_aging_sweep_at, (m, cutoff, at), r),
    ensures
        r is Ok,
        forall|id: Seq<char>| #[trigger]
            old(m)@.chunks.contains_key(id) ==> {
                let c = old(m)@.chunks[id];
                !final(m)@.chunks.contains_key(id) <==> c.created_at.rank() < cutoff.rank()
                    && !c.pinned && c.kind != ChunkKind::Correction
            },
        r->Ok_0.tier_promoted == 0,
        r->Ok_0.bytes_reclaimed == 0,
        r->Ok_0.deletions_by_reason@.len() == 1,
        r->Ok_0.deletions_by_reason@[0].0 == EvictionReason::Aging,
        r->Ok_0.deletions_by_reason@[0].1 == r->Ok_0.deleted,
        final(m)@.evictions.len() == old(m)@.evictions.len() + r->Ok_0.deleted,
        forall|j: int|
            old(m)@.evictions.len() <= j < final(m)@.evictions.len() ==> {
                let e = #[trigger] final(m)@.evictions[j];
                &&& e.ts == at
                &&& e.reason == EvictionReason::Aging
                &&& e.metadata == JsonView::Null
                &&& old(m)@.chunks.contains_key(e.chunk_id)
                &&& !final(m)@.chunks.contains_key(e.chunk_id)
            },
        forall|id: Seq<char>| #[trigger]
            old(m)@.chunks.contains_key(id) && !final(m)@.chunks.contains_key(id) ==> exists|
                j: int,
            |
                old(m)@.evictions.len() <= j < final(m)@.evictions.len()
                    && #[trigger] final(m)@.evictions[j].chunk_id == id,
        forall|i: int, j: int|
            old(m)@.evictions.len() <= i < j < final(m)@.evictions.len()
                ==> (#[trigger] final(m)@.evictions[i]).chunk_id != (
            #[trigger] final(m)@.evictions[j]).chunk_id,
        final(m)@.evictions.take(old(m)@.evictions.len() as int) == old(m)@.evictions,
        forall|id: Seq<char>| #[trigger]
            final(m)@.chunks.contains_key(id) ==> old(m)@.chunks.contains_key(id)
                && final(m)@.chunks[id] == old(m)@.chunks[id],
        final(m)@.sessions == old(m)@.sessions,
        final(m)@.accesses == old(m)@.accesses,
        final(m)@.members == old(m)@.members,
{
    let n = r->Ok_0.deleted as nat;
    lemma_swept(old(m)@, final(m)@, aged(cutoff), n, at, EvictionReason::Aging);
    law_sweep_is_exact(old(m)@, final(m)@, aged(cutoff), n, at, EvictionReason::Aging);
}

/// The aging sweep of the present instant keeps what is thirty days old or
/// younger: some instant that the clock showed, less thirty days of 86400
/// seconds, is the cutoff.
pub proof fn law_aging_keeps_thirty_days(
    m: &mut BasicMemoryProvider,
    r: MemoryResult<AgingReport>,
)
    requires
        call_ensures(BasicMemoryProvider::run_aging_sweep, (m,), r),
    ensures
        r is Ok,
        exists|start: Timestamp, cutoff: Timestamp|
            {
                &&& #[trigger] start.secs() >= 0
                &&& #[trigger] cutoff.secs() == start.secs() - 30 * 86_400
                &&& cutoff.nanos() == start.nanos()
                &&& forall|id: Seq<char>| #[trigger]
                    old(m)@.chunks.contains_key(id) ==> {
                        let c = old(m)@.chunks[id];
                        !final(m)@.chunks.contains_key(id) <==> c.created_at.rank()
                            < cutoff.rank() && !c.pinned && c.kind != ChunkKind::Correction
                    }
            },
        r->Ok_0.tier_promoted == 0,
        r->Ok_0.bytes_reclaimed == 0,
        r->Ok_0.deletions_by_reason@.len() == 1,
        r->Ok_0.deletions_by_reason@[0].0 == EvictionReason::Aging,
        r->Ok_0.deletions_by_reason@[0].1 == r->Ok_0.deleted,
        final(m)@.evictions.len() == old(m)@.evictions.len() + r->Ok_0.deleted,
        forall|j: int|
            old(m)@.evictions.len() <= j < final(m)@.evictions.len() ==> {
                let e = #[trigger] final(m)@.evictions[j];
                &&& e.ts.secs() >= 0
                &&& e.reason == EvictionReason::Aging
                &&& e.metadata == JsonView::Null
                &&& old(m)@.chunks.contains_key(e.chunk_id)
                &&& !final(m)@.chunks.contains_key(e.chunk_id)
            },
        forall|id: Seq<char>| #[trigger]
            old(m)@.chunks.contains_key(id) && !final(m)@.chunks.contains_key(id) ==> exists|
                j: int,
            |
                old(m)@.evictions.len() <= j < final(m)@.evictions.len()
                    && #[trigger] final(m)@.evictions[j].chunk_id == id,
        forall|i: int, j: int|
            old(m)@.evictions.len() <= i < j < final(m)@.evictions.len()
                ==> (#[trigger] final(m)@.evictions[i]).chunk_id != (
            #[trigger] final(m)@.evictions[j]).chunk_id,
        final(m)@.evictions.take(old(m)@.evictions.len() as int) == old(m)@.evictions,
        forall|id: Seq<char>| #[trigger]
            final(m)@.chunks.contains_key(id) ==> old(m)@.chunks.contains_key(id)
                && final(m)@.chunks[id] == old(m)@.chunks[id],
        final(m)@.sessions == old(m)@.sessions,
        final(m)@.accesses == old(m)@.accesses,
        final(m)@.members == old(m)@.members,
{
    let n = r->Ok_0.deleted as nat;
    let (start, cutoff, at) = choose|start: Timestamp, cutoff: Timestamp, at: Timestamp|
        {
            &&& #[trigger] retention_cutoff(start, cutoff)
            &&& start.on_clock()
            &&& #[trigger] at.on_clock()
            &&& swept(old(m)@, final(m)@, aged(cutoff), n, at, EvictionReason::Aging)
        };
    lemma_swept(old(m)@, final(m)@, aged(cutoff), n, at, EvictionReason::Aging);
    law_sweep_is_exact(old(m)@, final(m)@, aged(cutoff), n, at, EvictionReason::Aging);
    assert(start.secs() >= 0 && cutoff.secs() == start.secs() - 30 * 86_400);
}

/// A change of the embedding model gives every chunk the new name, and changes
/// nothing else.
pub proof fn law_re_embed_changes_the_model(
    m: &mut BasicMemoryProvider,
    target: &str,
    r: MemoryResult<ReEmbedReport>,
)
    requires
        call_ensures(BasicMemoryProvider::re_embed_all, (m, target), r),
    ensures
        r is Ok,
        r->Ok_0.total == old(m)@.chunks.dom().len(),
        r->Ok_0.succeeded == r->Ok_0.total,
        r->Ok_0.failed == 0,
        forall|id: Seq<char>| #[trigger]
            final(m)@.chunks.contains_key(id) <==> old(m)@.chunks.contains_key(id),
        forall|id: Seq<char>| #[trigger]
            old(m)@.chunks.contains_key(id) ==> final(m)@.chunks[id].embedding_model == target@
                && final(m)@.chunks[id] == (ChunkView {
                embedding_model: final(m)@.chunks[id].embedding_model,
                ..old(m)@.chunks[id]
            }),
        final(m)@.sessions == old(m)@.sessions,
        final(m)@.evictions == old(m)@.evictions,
        final(m)@.accesses == old(m)@.accesses,
        final(m)@.members == old(m)@.members,
{
}

// Exports and figures

/// An export takes a chunk exactly when its predicate, if it has one that sets
/// a condition, is met by it; each once, and as it is stored.
pub proof fn law_export_takes_what_meets_the_predicate(
    m: BasicMemoryProvider,
    f: ExportFilter,
    r: MemoryResult<ExportBundle>,
    chunk: MemoryChunk,
    b: bool,
)
    requires
        m.wf(),
        call_ensures(BasicMemoryProvider::export, (&m, f), r),
        m@.chunks.contains_key(chunk@.id),
        m@.chunks[chunk@.id] == chunk@,
        f.predicate is Some ==> call_ensures(chunk_matches, (&chunk, &f.predicate->Some_0), b),
    ensures
        r is Ok,
        (exists|i: int| 0 <= i < r->Ok_0.chunks@.len()
            && (#[trigger] r->Ok_0.chunks@[i])@ == chunk@)
            <==> f.predicate is None || b || {
            let p = f.predicate->Some_0;
            p.kinds is None && p.callers is None && p.session_ids is None
            && p.project_root_prefix is None && p.before is None && p.after is None
            && p.pinned is None && p.importance_below is None && p.content_contains is None
        },
        forall|i: int, j: int|
            0 <= i < j < r->Ok_0.chunks@.len() ==> (#[trigger] r->Ok_0.chunks@[i]).id@ != (
            #[trigger] r->Ok_0.chunks@[j]).id@,
        forall|i: int|
            0 <= i < r->Ok_0.chunks@.len() ==> m@.chunks.contains_key(
                (#[trigger] r->Ok_0.chunks@[i]).id@,
            ) && m@.chunks[r->Ok_0.chunks@[i].id@] == r->Ok_0.chunks@[i]@,
{
    m.lemma_coherent();
    let out = r->Ok_0.chunks@;
    let shown: Seq<ChunkView> = views(out);
    assert(shown.len() == out.len());
    assert forall|i: int| 0 <= i < out.len() implies shown[i] == (#[trigger] out[i])@ by {
    }
    let keys = choose|keys: Seq<Seq<char>>| listed_under(keys, shown, m@.chunks, wanted_by(f));
    assert forall|i: int| 0 <= i < out.len() implies m@.chunks.contains_key(
        (#[trigger] out[i]).id@,
    ) && m@.chunks[out[i].id@] == out[i]@ && keys[i] == out[i].id@ && wanted_by(f)(out[i]@) by {
        assert(shown[i] == out[i]@);
        assert(m@.chunks.contains_key(keys[i]));
    }
    assert forall|i: int, j: int| 0 <= i < j < out.len() implies (#[trigger] out[i]).id@ != (
    #[trigger] out[j]).id@ by {
        assert(keys[i] != keys[j]);
    }
    if wanted_by(f)(chunk@) {
        assert(keys.contains(chunk@.id));
        let i = choose|i: int| 0 <= i < keys.len() && keys[i] == chunk@.id;
        assert(shown[i] == chunk@);
        assert(r->Ok_0.chunks@[i]@ == chunk@);
    }
}

/// An export that is asked for sessions takes a stored session exactly when
/// some exported chunk belongs to it, and one that is not takes none; logs come
/// whole where they are asked for.
pub proof fn law_export_takes_the_sessions_of_its_chunks(
    m: BasicMemoryProvider,
    f: ExportFilter,
    r: MemoryResult<ExportBundle>,
    s: SessionView,
)
    requires
        m.wf(),
        call_ensures(BasicMemoryProvider::export, (&m, f), r),
        m@.sessions.contains_key(s.id),
        m@.sessions[s.id] == s,
    ensures
        r is Ok,
        (exists|i: int| 0 <= i < r->Ok_0.sessions@.len() && (#[trigger] r->Ok_0.sessions@[i])@ == s)
            <==> f.include_sessions && exists|j: int|
            0 <= j < r->Ok_0.chunks@.len() && (#[trigger] r->Ok_0.chunks@[j])@.session_id == Some(
                s.id,
            ),
        !f.include_sessions ==> r->Ok_0.sessions@.len() == 0,
        r->Ok_0.evictions@.len() == if f.include_eviction_log {
            m@.evictions.len()
        } else {
            0
        },
        forall|i: int|
            0 <= i < r->Ok_0.evictions@.len() ==> (#[trigger] r->Ok_0.evictions@[i])@
                == m@.evictions[i],
        r->Ok_0.accesses@.len() == if f.include_access_log {
            m@.accesses.len()
        } else {
            0
        },
        forall|i: int|
            0 <= i < r->Ok_0.accesses@.len() ==> (#[trigger] r->Ok_0.accesses@[i])@
                == m@.accesses[i],
{
    m.lemma_coherent();
    let b = r->Ok_0;
    let chunks: Seq<ChunkView> = views(b.chunks@);
    let sessions: Seq<SessionView> = views(b.sessions@);
    assert(chunks.len() == b.chunks@.len());
    assert(sessions.len() == b.sessions@.len());
    assert(views(b.evictions@).len() == b.evictions@.len());
    assert(views(b.accesses@).len() == b.accesses@.len());
    assert forall|i: int| 0 <= i < b.evictions@.len() implies (#[trigger] b.evictions@[i])@
        == m@.evictions[i] by {
        assert(views(b.evictions@)[i] == b.evictions@[i]@);
    }
    assert forall|i: int| 0 <= i < b.accesses@.len() implies (#[trigger] b.accesses@[i])@
        == m@.accesses[i] by {
        assert(views(b.accesses@)[i] == b.accesses@[i]@);
    }
    assert forall|i: int| 0 <= i < chunks.len() implies chunks[i] == (#[trigger] b.chunks@[i])@ by {
    }
    assert forall|i: int| 0 <= i < sessions.len() implies sessions[i] == (
    #[trigger] b.sessions@[i])@ by {
    }
    let keys = choose|keys: Seq<Seq<char>>| listed_under(keys, chunks, m@.chunks, wanted_by(f));
    let referenced = exists|j: int|
        0 <= j < b.chunks@.len() && (#[trigger] b.chunks@[j])@.session_id == Some(s.id);
    let p = exported_sessions(m@.chunks, f);
    if p(s) {
        let id = choose|id: Seq<char>| #[trigger]
            m@.chunks.contains_key(id) && f.wants(m@.chunks[id]) && m@.chunks[id].session_id
                == Some(s.id);
        assert(wanted_by(f)(m@.chunks[id]));
        assert(keys.contains(id));
        let j = choose|j: int| 0 <= j < keys.len() && keys[j] == id;
        assert(chunks[j] == b.chunks@[j]@);
        assert(b.chunks@[j]@.session_id == Some(s.id));
    }
    if referenced {
        let j = choose|j: int|
            0 <= j < b.chunks@.len() && (#[trigger] b.chunks@[j])@.session_id == Some(s.id);
        assert(chunks[j] == b.chunks@[j]@);
        assert(lists(chunks, m@.chunks, wanted_by(f)));
        assert(listed_under(keys, chunks, m@.chunks, wanted_by(f)));
        assert(m@.chunks.contains_key(keys[j]));
        assert(wanted_by(f)(chunks[j]));
        assert(p(s));
    }
    if f.include_sessions {
        let names = choose|names: Seq<Seq<char>>| listed_under(names, sessions, m@.sessions, p);
        if p(s) {
            assert(names.contains(s.id));
            let i = choose|i: int| 0 <= i < names.len() && names[i] == s.id;
            assert(sessions[i] == s);
            assert(r->Ok_0.sessions@[i]@ == s);
        }
        if exists|i: int|
            0 <= i < r->Ok_0.sessions@.len() && (#[trigger] r->Ok_0.sessions@[i])@ == s {
            let i = choose|i: int|
                0 <= i < r->Ok_0.sessions@.len() && (#[trigger] r->Ok_0.sessions@[i])@ == s;
            assert(sessions[i] == s);
            assert(m@.sessions.contains_key(names[i]));
            assert(p(s));
        }
    }
}

/// The figures count the chunks, those of each tier, the sessions and the open
/// ones; they name the model of some chunk whose model is not `none`, where
/// there is one.
pub proof fn law_figures_count(m: BasicMemoryProvider, r: MemoryResult<MemoryStats>)
    requires
        m.wf(),
        call_ensures(BasicMemoryProvider::stats, (&m,), r),
    ensures
        r is Ok,
        r->Ok_0.total_chunks == m@.chunks.dom().len(),
        r->Ok_0.session_chunks == m@.chunks.dom().filter(
            |id: Seq<char>| m@.chunks[id].tier == MemoryTier::Session,
        ).len(),
        r->Ok_0.long_term_chunks == m@.chunks.dom().filter(
            |id: Seq<char>| m@.chunks[id].tier == MemoryTier::LongTerm,
        ).len(),
        r->Ok_0.total_sessions == m@.sessions.dom().len(),
        r->Ok_0.open_sessions == m@.sessions.dom().filter(
            |id: Seq<char>| m@.sessions[id].outcome == SessionOutcome::Open,
        ).len(),
        r->Ok_0.db_bytes == 0,
        r->Ok_0.embedding_model is Some ==> r->Ok_0.embedding_model->Some_0@ != "none"@ && exists|
            id: Seq<char>,
        |
            #[trigger] m@.chunks.contains_key(id) && m@.chunks[id].embedding_model
                == r->Ok_0.embedding_model->Some_0@,
        r->Ok_0.embedding_model is None ==> forall|id: Seq<char>| #[trigger]
            m@.chunks.contains_key(id) ==> m@.chunks[id].embedding_model == "none"@,
{
    let c = m@.chunks;
    assert(matching(c, in_tier(MemoryTier::Session)) =~= c.dom().filter(
        |id: Seq<char>| c[id].tier == MemoryTier::Session,
    ));
    assert(matching(c, in_tier(MemoryTier::LongTerm)) =~= c.dom().filter(
        |id: Seq<char>| c[id].tier == MemoryTier::LongTerm,
    ));
    assert(matching(m@.sessions, still_open()) =~= m@.sessions.dom().filter(
        |id: Seq<char>| m@.sessions[id].outcome == SessionOutcome::Open,
    ));
    match r->Ok_0.embedding_model {
        Some(model) => {
            let id = choose|id: Seq<char>| #[trigger]
                c.contains_key(id) && embedded_by(model@)(c[id]);
            assert(c.contains_key(id) && c[id].embedding_model == model@);
        },
        None => {
            assert forall|id: Seq<char>| #[trigger] c.contains_key(id) implies c[id].embedding_model
                == "none"@ by {
                if c[id].embedding_model != "none"@ {
                    assert(embedded()(c[id]));
                }
            }
        },
    }
}

} // verus!
