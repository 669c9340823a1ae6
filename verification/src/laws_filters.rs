//! What queries, filters and predicates let through, condition by condition.
//!
//! Each law takes the arguments and the result of a call, and speaks of the
//! fields of both.

use crate::chunk::{ChunkKind, MemoryChunk};
use crate::query::{has_text, CallerScope, MemoryPredicate, MemoryQuery};
use crate::session::{MemorySession, SessionFilter, SessionOutcome};
use crate::text::texts;
use vstd::prelude::*;

verus! {

/// A list of texts holds a text when one of its items, whichever, is that text.
pub proof fn law_any_item_of_a_list_counts(list: Vec<String>, text: String, r: bool)
    requires
        call_ensures(has_text, (&list, &text), r),
    ensures
        r <==> exists|k: int| 0 <= k < list@.len() && #[trigger] list@[k]@ == text@,
{
    lemma_texts(list@, text@);
}

/// The texts of a list are those of its items.
proof fn lemma_texts(list: Seq<String>, text: Seq<char>)
    ensures
        texts(list).contains(text) <==> exists|k: int|
            0 <= k < list.len() && #[trigger] list[k]@ == text,
{
    let all = texts(list);
    if all.contains(text) {
        let k = choose|k: int| 0 <= k < all.len() && all[k] == text;
        assert(list[k]@ == text);
    }
    if exists|k: int| 0 <= k < list.len() && #[trigger] list[k]@ == text {
        let k = choose|k: int| 0 <= k < list.len() && #[trigger] list[k]@ == text;
        assert(all[k] == text);
    }
}

/// A query accepts a chunk that meets all of its filters, whichever of the kinds
/// it is of, and no other.
pub proof fn law_query_accepts_what_meets_every_filter(q: MemoryQuery, c: MemoryChunk, r: bool)
    requires
        call_ensures(MemoryQuery::accepts, (&q, &c), r),
    ensures
        r <==> {
            &&& q.kinds is Some ==> exists|k: int|
                0 <= k < q.kinds->Some_0@.len() && #[trigger] q.kinds->Some_0@[k] == c.kind
            &&& c.kind == ChunkKind::Rollup ==> q.include_rollups
            &&& q.since is Some ==> c.created_at.rank() >= q.since->Some_0.rank()
            &&& q.until is Some ==> c.created_at.rank() <= q.until->Some_0.rank()
            &&& q.session_id is Some ==> c.session_id is Some && c.session_id->Some_0@
                == q.session_id->Some_0@
            &&& q.project_root_prefix is Some ==> {
                let prefix = q.project_root_prefix->Some_0@;
                &&& c.project_root is Some
                &&& c.project_root->Some_0@.len() >= prefix.len()
                &&& c.project_root->Some_0@.take(prefix.len() as int) == prefix
            }
            &&& q.min_importance is Some ==> !c.importance.lt(q.min_importance->Some_0)
            &&& q.caller_scope == CallerScope::Own ==> c.caller_id@ == q.caller_id@
            &&& q.caller_scope == CallerScope::OwnPlusShared ==> c.caller_id@ == q.caller_id@
                || c.shareable
        },
{
}

/// A query hits a chunk that meets all of its filters and whose content, in the
/// form that is handed in, holds the text that is handed in.
pub proof fn law_query_hits_what_holds_the_text(
    q: MemoryQuery,
    c: MemoryChunk,
    content: &str,
    needle: &str,
    accepted: bool,
    r: bool,
)
    requires
        call_ensures(MemoryQuery::accepts, (&q, &c), accepted),
        call_ensures(MemoryQuery::hits_lowered, (&q, &c, content, needle), r),
    ensures
        r <==> accepted && exists|k: int|
            0 <= k <= content@.len() - needle@.len() && #[trigger] content@.subrange(
                k,
                k + needle@.len(),
            ) == needle@,
{
}

/// A predicate accepts a chunk that meets all of its conditions but the one on
/// the content, and no other.
pub proof fn law_predicate_accepts_what_meets_every_condition(
    p: MemoryPredicate,
    c: MemoryChunk,
    r: bool,
)
    requires
        call_ensures(MemoryPredicate::accepts, (&p, &c), r),
    ensures
        r <==> {
            &&& p.kinds is Some ==> exists|k: int|
                0 <= k < p.kinds->Some_0@.len() && #[trigger] p.kinds->Some_0@[k] == c.kind
            &&& p.callers is Some ==> exists|k: int|
                0 <= k < p.callers->Some_0@.len()
                    && #[trigger] p.callers->Some_0@[k]@ == c.caller_id@
            &&& p.session_ids is Some ==> c.session_id is Some && exists|k: int|
                0 <= k < p.session_ids->Some_0@.len() && #[trigger] p.session_ids->Some_0@[k]@
                    == c.session_id->Some_0@
            &&& p.project_root_prefix is Some ==> {
                let prefix = p.project_root_prefix->Some_0@;
                &&& c.project_root is Some
                &&& c.project_root->Some_0@.len() >= prefix.len()
                &&& c.project_root->Some_0@.take(prefix.len() as int) == prefix
            }
            &&& p.before is Some ==> c.created_at.rank() < p.before->Some_0.rank()
            &&& p.after is Some ==> c.created_at.rank() > p.after->Some_0.rank()
            &&& p.pinned is Some ==> c.pinned == p.pinned->Some_0
            &&& p.importance_below is Some ==> !c.importance.ge(p.importance_below->Some_0)
        },
{
    if p.callers is Some {
        lemma_texts(p.callers->Some_0@, c.caller_id@);
    }
    if p.session_ids is Some && c.session_id is Some {
        lemma_texts(p.session_ids->Some_0@, c.session_id->Some_0@);
    }
}

/// A predicate holds of a chunk that meets all of its other conditions and, if
/// it asks for a text, whose content holds the text, in the forms that are
/// handed in.
pub proof fn law_predicate_holds_of_what_meets_the_rest_too(
    p: MemoryPredicate,
    c: MemoryChunk,
    content: &str,
    needle: &str,
    accepted: bool,
    r: bool,
)
    requires
        call_ensures(MemoryPredicate::accepts, (&p, &c), accepted),
        call_ensures(MemoryPredicate::holds_lowered, (&p, &c, content, needle), r),
    ensures
        r <==> accepted && (p.content_contains is Some ==> exists|k: int|
            0 <= k <= content@.len() - needle@.len() && #[trigger] content@.subrange(
                k,
                k + needle@.len(),
            ) == needle@),
{
}

/// A predicate is empty when none of its conditions is set.
pub proof fn law_empty_predicate_sets_nothing(p: MemoryPredicate, r: bool, d: MemoryPredicate)
    requires
        call_ensures(MemoryPredicate::is_empty, (&p,), r),
        call_ensures(MemoryPredicate::default, (), d),
    ensures
        r <==> {
            &&& p.kinds is None
            &&& p.callers is None
            &&& p.session_ids is None
            &&& p.project_root_prefix is None
            &&& p.before is None
            &&& p.after is None
            &&& p.pinned is None
            &&& p.importance_below is None
            &&& p.content_contains is None
        },
        d.kinds is None,
        d.callers is None,
        d.session_ids is None,
        d.project_root_prefix is None,
        d.before is None,
        d.after is None,
        d.pinned is None,
        d.importance_below is None,
        d.content_contains is None,
{
}

/// A filter accepts a session that meets all of its conditions, and no other.
pub proof fn law_filter_accepts_what_meets_every_condition(
    f: SessionFilter,
    s: MemorySession,
    r: bool,
    d: SessionFilter,
)
    requires
        call_ensures(SessionFilter::accepts, (&f, &s), r),
        call_ensures(SessionFilter::default, (), d),
    ensures
        r <==> {
            &&& f.caller_id is Some ==> s.caller_id@ == f.caller_id->Some_0@
            &&& f.outcome is Some ==> s.outcome == f.outcome->Some_0
            &&& f.open_only ==> s.outcome == SessionOutcome::Open
            &&& f.since is Some ==> s.started_at.rank() >= f.since->Some_0.rank()
            &&& f.until is Some ==> s.started_at.rank() <= f.until->Some_0.rank()
        },
        d.caller_id is None,
        d.outcome is None,
        !d.open_only,
        d.since is None,
        d.until is None,
        d.limit is None,
{
}

} // verus!
