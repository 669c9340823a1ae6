//! What summaries and rollups come to, call by call.
//!
//! Each law takes the arguments and the result of a call, and says what the
//! result and the memory after it have to be: which chunks are summarized, what
//! the summarizer is told, what is written and what is linked.

use crate::basic::BasicMemoryProvider;
use crate::chunk::{ChunkKind, ChunkView, MemoryChunk};
use crate::error::{ErrorView, MemoryResult};
use crate::json::text_at;
use crate::listing::{lemma_lists_len, listed_under, matching, some_match, views, Timed};
use crate::model::{day_rollup, fired_in_week, in_session, on_day, rule_week_rollup, MemoryView};
use crate::rollup::{members_by_age, SummaryPlan};
use crate::text::decimal;
use crate::time::Date;
use vstd::prelude::*;

verus! {

/// What a list of the chunks that satisfy `p` by age holds.
pub(crate) proof fn lemma_members(
    members: Seq<ChunkView>,
    m: MemoryView,
    p: spec_fn(ChunkView) -> bool,
)
    requires
        m.coherent(),
        members_by_age(members, m, p),
    ensures
        forall|i: int|
            0 <= i < members.len() ==> m.chunks.contains_key((#[trigger] members[i]).id)
                && m.chunks[members[i].id] == members[i] && p(members[i]),
        forall|id: Seq<char>| #[trigger]
            m.chunks.contains_key(id) && p(m.chunks[id]) ==> exists|i: int|
                0 <= i < members.len() && #[trigger] members[i] == m.chunks[id],
        forall|i: int, j: int|
            0 <= i < j < members.len() ==> (#[trigger] members[i]).id != (#[trigger] members[j]).id
                && members[i].created_at.rank() <= members[j].created_at.rank(),
        members.len() == m.chunks.dom().filter(|id: Seq<char>| p(m.chunks[id])).len(),
        members.len() > 0 <==> some_match(m.chunks, p),
{
    let keys = choose|keys: Seq<Seq<char>>| listed_under(keys, members, m.chunks, p);
    assert forall|i: int| 0 <= i < members.len() implies m.chunks.contains_key(
        (#[trigger] members[i]).id,
    ) && m.chunks[members[i].id] == members[i] && p(members[i]) && keys[i] == members[i].id by {
        assert(m.chunks.contains_key(keys[i]));
    }
    assert forall|id: Seq<char>| #[trigger]
        m.chunks.contains_key(id) && p(m.chunks[id]) implies exists|i: int|
        0 <= i < members.len() && #[trigger] members[i] == m.chunks[id] by {
        assert(keys.contains(id));
        let i = choose|i: int| 0 <= i < keys.len() && keys[i] == id;
        assert(members[i] == m.chunks[id]);
    }
    assert forall|i: int, j: int| 0 <= i < j < members.len() implies (#[trigger] members[i]).id != (
    #[trigger] members[j]).id && members[i].created_at.rank() <= members[j].created_at.rank() by {
        assert(keys[i] != keys[j]);
        assert(MemoryChunk::instant(members[i]) <= MemoryChunk::instant(members[j]));
    }
    lemma_lists_len(members, m.chunks, p);
    assert(matching(m.chunks, p) =~= m.chunks.dom().filter(|id: Seq<char>| p(m.chunks[id])));
    if members.len() > 0 {
        assert(m.chunks.contains_key(members[0].id));
    }
}

/// A list of chunks shows them one by one.
pub(crate) proof fn lemma_shown(list: Vec<MemoryChunk>) -> (shown: Seq<ChunkView>)
    ensures
        shown == views(list@),
        shown.len() == list@.len(),
        forall|i: int| 0 <= i < list@.len() ==> shown[i] == (#[trigger] list@[i])@,
{
    let shown: Seq<ChunkView> = views(list@);
    assert(shown.len() == list@.len());
    assert forall|i: int| 0 <= i < list@.len() implies shown[i] == (#[trigger] list@[i])@ by {
    }
    shown
}

// Which chunks are summarized

/// The chunks of a session are all of its chunks, of whatever kind but that of
/// a summary, each once and oldest first.
pub proof fn law_session_chunks_are_complete(
    m: BasicMemoryProvider,
    session_id: &str,
    v: Vec<MemoryChunk>,
)
    requires
        m.wf(),
        call_ensures(BasicMemoryProvider::fetch_session_chunks, (&m, session_id), v),
    ensures
        forall|i: int|
            0 <= i < v@.len() ==> {
                let c = (#[trigger] v@[i])@;
                &&& m@.chunks.contains_key(c.id)
                &&& m@.chunks[c.id] == c
                &&& c.session_id == Some(session_id@) && c.kind != ChunkKind::JobSummary
            },
        forall|id: Seq<char>| #[trigger]
            m@.chunks.contains_key(id) ==> {
                let c = m@.chunks[id];
                c.session_id == Some(session_id@) && c.kind != ChunkKind::JobSummary
                    ==> exists|i: int|
                    0 <= i < v@.len() && (#[trigger] v@[i])@ == c
            },
        forall|i: int, j: int|
            0 <= i < j < v@.len() ==> (#[trigger] v@[i]).id@ != (#[trigger] v@[j]).id@
                && v@[i].created_at.rank() <= v@[j].created_at.rank(),
{
    m.lemma_coherent();
    let p = in_session(session_id@);
    let shown = lemma_shown(v);
    lemma_members(shown, m@, p);
    assert forall|i: int| 0 <= i < v@.len() implies p((#[trigger] v@[i])@)
        && m@.chunks.contains_key(v@[i]@.id) && m@.chunks[v@[i]@.id] == v@[i]@ by {
        assert(shown[i] == v@[i]@);
    }
    assert forall|id: Seq<char>| #[trigger]
        m@.chunks.contains_key(id) && p(m@.chunks[id]) implies exists|i: int|
        0 <= i < v@.len() && (#[trigger] v@[i])@ == m@.chunks[id] by {
        let i = choose|i: int| 0 <= i < shown.len() && #[trigger] shown[i] == m@.chunks[id];
        assert(v@[i]@ == m@.chunks[id]);
    }
    assert forall|i: int, j: int| 0 <= i < j < v@.len() implies (#[trigger] v@[i]).id@ != (
    #[trigger] v@[j]).id@ && v@[i].created_at.rank() <= v@[j].created_at.rank() by {
        assert(shown[i].id != shown[j].id);
    }
}

/// The chunks of a day are all that were written within its 86400 seconds, of
/// whatever kind but that of a rollup, each once and oldest first.
pub proof fn law_day_chunks_are_complete(
    m: BasicMemoryProvider,
    date: Date,
    v: Vec<MemoryChunk>,
)
    requires
        m.wf(),
        call_ensures(BasicMemoryProvider::fetch_day_chunks, (&m, &date), v),
    ensures
        forall|i: int|
            0 <= i < v@.len() ==> {
                let c = (#[trigger] v@[i])@;
                &&& m@.chunks.contains_key(c.id)
                &&& m@.chunks[c.id] == c
                &&& (date.day() - 719_163) * 86_400 <= c.created_at.secs() && c.created_at.secs()
                    < (date.day() - 719_162) * 86_400 && c.kind != ChunkKind::Rollup
            },
        forall|id: Seq<char>| #[trigger]
            m@.chunks.contains_key(id) ==> {
                let c = m@.chunks[id];
                (date.day() - 719_163) * 86_400 <= c.created_at.secs() && c.created_at.secs()
                    < (date.day() - 719_162) * 86_400 && c.kind != ChunkKind::Rollup
                        ==> exists|i: int|
                    0 <= i < v@.len() && (#[trigger] v@[i])@ == c
            },
        forall|i: int, j: int|
            0 <= i < j < v@.len() ==> (#[trigger] v@[i]).id@ != (#[trigger] v@[j]).id@
                && v@[i].created_at.rank() <= v@[j].created_at.rank(),
{
    m.lemma_coherent();
    let p = on_day(date.day());
    let shown = lemma_shown(v);
    lemma_members(shown, m@, p);
    assert forall|i: int| 0 <= i < v@.len() implies p((#[trigger] v@[i])@)
        && m@.chunks.contains_key(v@[i]@.id) && m@.chunks[v@[i]@.id] == v@[i]@ by {
        assert(shown[i] == v@[i]@);
    }
    assert forall|id: Seq<char>| #[trigger]
        m@.chunks.contains_key(id) && p(m@.chunks[id]) implies exists|i: int|
        0 <= i < v@.len() && (#[trigger] v@[i])@ == m@.chunks[id] by {
        let i = choose|i: int| 0 <= i < shown.len() && #[trigger] shown[i] == m@.chunks[id];
        assert(v@[i]@ == m@.chunks[id]);
    }
    assert forall|i: int, j: int| 0 <= i < j < v@.len() implies (#[trigger] v@[i]).id@ != (
    #[trigger] v@[j]).id@ && v@[i].created_at.rank() <= v@[j].created_at.rank() by {
        assert(shown[i].id != shown[j].id);
    }
}

/// The chunks of a rule's week are all fires that name the rule and were written
/// within seven days of 86400 seconds from its first day, each once and oldest
/// first; a week that reaches past the last day is refused, under the given label.
pub proof fn law_rule_week_chunks_are_complete(
    m: BasicMemoryProvider,
    rule_id: &str,
    week_start: Date,
    label: &str,
    r: MemoryResult<Vec<MemoryChunk>>,
)
    requires
        m.wf(),
        call_ensures(
            BasicMemoryProvider::fetch_rule_week_chunks_labelled,
            (&m, rule_id, &week_start, label),
            r,
        ),
    ensures
        r is Ok <==> week_start.day() + 7 <= 95_745_399,
        r is Err ==> r->Err_0@ == ErrorView::InvalidArgument(
            "week overflow: "@ + label@,
        ),
        r is Ok ==> {
            let v = r->Ok_0@;
            &&& forall|i: int|
                0 <= i < v.len() ==> {
                    let c = (#[trigger] v[i])@;
                    &&& m@.chunks.contains_key(c.id)
                    &&& m@.chunks[c.id] == c
                    &&& c.kind == ChunkKind::Fire
                        && (week_start.day() - 719_163) * 86_400 <= c.created_at.secs()
                        && c.created_at.secs() < (week_start.day() - 719_156) * 86_400
                            && text_at(c.metadata, "rule_id"@)
                        == Some(rule_id@)
                }
            &&& forall|id: Seq<char>| #[trigger]
                m@.chunks.contains_key(id) ==> {
                    let c = m@.chunks[id];
                    c.kind == ChunkKind::Fire
                        && (week_start.day() - 719_163) * 86_400 <= c.created_at.secs()
                        && c.created_at.secs() < (week_start.day() - 719_156) * 86_400
                            && text_at(c.metadata, "rule_id"@)
                        == Some(rule_id@) ==> exists|i: int|
                        0 <= i < v.len() && (#[trigger] v[i])@ == c
                }
            &&& forall|i: int, j: int|
                0 <= i < j < v.len() ==> (#[trigger] v[i]).id@ != (#[trigger] v[j]).id@
                    && v[i].created_at.rank() <= v[j].created_at.rank()
        },
{
    if r is Ok {
        let v = r->Ok_0;
        m.lemma_coherent();
        let p = fired_in_week(rule_id@, week_start.day());
        let shown = lemma_shown(v);
        lemma_members(shown, m@, p);
        assert forall|i: int| 0 <= i < v@.len() implies p((#[trigger] v@[i])@)
            && m@.chunks.contains_key(v@[i]@.id) && m@.chunks[v@[i]@.id] == v@[i]@ by {
            assert(shown[i] == v@[i]@);
        }
        assert forall|id: Seq<char>| #[trigger]
            m@.chunks.contains_key(id) && p(m@.chunks[id]) implies exists|i: int|
            0 <= i < v@.len() && (#[trigger] v@[i])@ == m@.chunks[id] by {
            let i = choose|i: int| 0 <= i < shown.len() && #[trigger] shown[i] == m@.chunks[id];
            assert(v@[i]@ == m@.chunks[id]);
        }
        assert forall|i: int, j: int| 0 <= i < j < v@.len() implies (#[trigger] v@[i]).id@ != (
        #[trigger] v@[j]).id@ && v@[i].created_at.rank() <= v@[j].created_at.rank() by {
            assert(shown[i].id != shown[j].id);
        }
    }
}

/// The chunks of a rule's week are all fires that name the rule and were written
/// within seven days of 86400 seconds from its first day, each once and oldest
/// first; a week that reaches past the last day is refused.
pub proof fn law_fires_of_a_week_are_complete(
    m: BasicMemoryProvider,
    rule_id: &str,
    week_start: Date,
    r: MemoryResult<Vec<MemoryChunk>>,
)
    requires
        m.wf(),
        call_ensures(
            BasicMemoryProvider::fetch_rule_week_chunks,
            (&m, rule_id, &week_start),
            r,
        ),
    ensures
        r is Ok <==> week_start.day() + 7 <= 95_745_399,
        r is Err ==> r->Err_0@ == ErrorView::InvalidArgument(
            "week overflow: "@ + week_start.text(),
        ),
        r is Ok ==> {
            let v = r->Ok_0@;
            &&& forall|i: int|
                0 <= i < v.len() ==> {
                    let c = (#[trigger] v[i])@;
                    &&& m@.chunks.contains_key(c.id)
                    &&& m@.chunks[c.id] == c
                    &&& c.kind == ChunkKind::Fire
                        && (week_start.day() - 719_163) * 86_400 <= c.created_at.secs()
                        && c.created_at.secs() < (week_start.day() - 719_156) * 86_400
                            && text_at(c.metadata, "rule_id"@)
                        == Some(rule_id@)
                }
            &&& forall|id: Seq<char>| #[trigger]
                m@.chunks.contains_key(id) ==> {
                    let c = m@.chunks[id];
                    c.kind == ChunkKind::Fire
                        && (week_start.day() - 719_163) * 86_400 <= c.created_at.secs()
                        && c.created_at.secs() < (week_start.day() - 719_156) * 86_400
                            && text_at(c.metadata, "rule_id"@)
                        == Some(rule_id@) ==> exists|i: int|
                        0 <= i < v.len() && (#[trigger] v[i])@ == c
                }
            &&& forall|i: int, j: int|
                0 <= i < j < v.len() ==> (#[trigger] v[i]).id@ != (#[trigger] v[j]).id@
                    && v[i].created_at.rank() <= v[j].created_at.rank()
        },
{
    if r is Ok {
        let v = r->Ok_0;
        m.lemma_coherent();
        let p = fired_in_week(rule_id@, week_start.day());
        let shown = lemma_shown(v);
        lemma_members(shown, m@, p);
        assert forall|i: int| 0 <= i < v@.len() implies p((#[trigger] v@[i])@)
            && m@.chunks.contains_key(v@[i]@.id) && m@.chunks[v@[i]@.id] == v@[i]@ by {
            assert(shown[i] == v@[i]@);
        }
        assert forall|id: Seq<char>| #[trigger]
            m@.chunks.contains_key(id) && p(m@.chunks[id]) implies exists|i: int|
            0 <= i < v@.len() && (#[trigger] v@[i])@ == m@.chunks[id] by {
            let i = choose|i: int| 0 <= i < shown.len() && #[trigger] shown[i] == m@.chunks[id];
            assert(v@[i]@ == m@.chunks[id]);
        }
        assert forall|i: int, j: int| 0 <= i < j < v@.len() implies (#[trigger] v@[i]).id@ != (
        #[trigger] v@[j]).id@ && v@[i].created_at.rank() <= v@[j].created_at.rank() by {
            assert(shown[i].id != shown[j].id);
        }
    }
}

/// A day counts as rolled up exactly when some stored rollup is recorded for its
/// text.
pub proof fn law_day_rollup_is_found_by_its_date_labelled(
    m: BasicMemoryProvider,
    label: &str,
    b: bool,
)
    requires
        call_ensures(BasicMemoryProvider::day_rollup_exists_labelled, (&m, label), b),
    ensures
        b <==> exists|id: Seq<char>| #[trigger]
            m@.chunks.contains_key(id) && m@.chunks[id].kind == ChunkKind::Rollup && text_at(
                m@.chunks[id].metadata,
                "rollup_date"@,
            ) == Some(label@),
{
    let p = day_rollup(label@);
    if b {
        let id = choose|id: Seq<char>| #[trigger]
            m@.chunks.contains_key(id) && p(m@.chunks[id]);
        assert(m@.chunks.contains_key(id));
    }
    if exists|id: Seq<char>| #[trigger]
        m@.chunks.contains_key(id) && m@.chunks[id].kind == ChunkKind::Rollup && text_at(
            m@.chunks[id].metadata,
            "rollup_date"@,
        ) == Some(label@) {
        let id = choose|id: Seq<char>| #[trigger]
            m@.chunks.contains_key(id) && m@.chunks[id].kind == ChunkKind::Rollup && text_at(
                m@.chunks[id].metadata,
                "rollup_date"@,
            ) == Some(label@);
        assert(p(m@.chunks[id]));
    }
}

/// A rule's week counts as rolled up exactly when some stored rollup is recorded
/// for that rule and for that first day.
pub proof fn law_week_rollup_is_found_by_rule_and_week_labelled(
    m: BasicMemoryProvider,
    rule_id: &str,
    label: &str,
    b: bool,
)
    requires
        call_ensures(
            BasicMemoryProvider::rule_week_rollup_exists_labelled,
            (&m, rule_id, label),
            b,
        ),
    ensures
        b <==> exists|id: Seq<char>|
            {
                &&& #[trigger] m@.chunks.contains_key(id)
                &&& m@.chunks[id].kind == ChunkKind::Rollup
                &&& text_at(m@.chunks[id].metadata, "rollup_rule_id"@) == Some(rule_id@)
                &&& text_at(m@.chunks[id].metadata, "rollup_week_start"@) == Some(label@)
            },
{
    let p = rule_week_rollup(rule_id@, label@);
    if b {
        let id = choose|id: Seq<char>| #[trigger]
            m@.chunks.contains_key(id) && p(m@.chunks[id]);
        assert(m@.chunks.contains_key(id));
    }
    if exists|id: Seq<char>|
        {
            &&& #[trigger] m@.chunks.contains_key(id)
            &&& m@.chunks[id].kind == ChunkKind::Rollup
            &&& text_at(m@.chunks[id].metadata, "rollup_rule_id"@) == Some(rule_id@)
            &&& text_at(m@.chunks[id].metadata, "rollup_week_start"@) == Some(label@)
        } {
        let id = choose|id: Seq<char>|
            {
                &&& #[trigger] m@.chunks.contains_key(id)
                &&& m@.chunks[id].kind == ChunkKind::Rollup
                &&& text_at(m@.chunks[id].metadata, "rollup_rule_id"@) == Some(rule_id@)
                &&& text_at(m@.chunks[id].metadata, "rollup_week_start"@) == Some(label@)
            };
        assert(p(m@.chunks[id]));
    }
}

/// A day counts as rolled up exactly when some stored rollup is recorded for its
/// text.
pub proof fn law_day_rollup_is_found_by_its_date(
    m: BasicMemoryProvider,
    date: Date,
    b: bool,
)
    requires
        call_ensures(BasicMemoryProvider::day_rollup_exists, (&m, &date), b),
    ensures
        b <==> exists|id: Seq<char>| #[trigger]
            m@.chunks.contains_key(id) && m@.chunks[id].kind == ChunkKind::Rollup && text_at(
                m@.chunks[id].metadata,
                "rollup_date"@,
            ) == Some(date.text()),
{
    let p = day_rollup(date.text());
    if b {
        let id = choose|id: Seq<char>| #[trigger]
            m@.chunks.contains_key(id) && p(m@.chunks[id]);
        assert(m@.chunks.contains_key(id));
    }
    if exists|id: Seq<char>| #[trigger]
        m@.chunks.contains_key(id) && m@.chunks[id].kind == ChunkKind::Rollup && text_at(
            m@.chunks[id].metadata,
            "rollup_date"@,
        ) == Some(date.text()) {
        let id = choose|id: Seq<char>| #[trigger]
            m@.chunks.contains_key(id) && m@.chunks[id].kind == ChunkKind::Rollup && text_at(
                m@.chunks[id].metadata,
                "rollup_date"@,
            ) == Some(date.text());
        assert(p(m@.chunks[id]));
    }
}

/// A rule's week counts as rolled up exactly when some stored rollup is recorded
/// for that rule and for that first day.
pub proof fn law_week_rollup_is_found_by_rule_and_week(
    m: BasicMemoryProvider,
    rule_id: &str,
    week_start: Date,
    b: bool,
)
    requires
        call_ensures(
            BasicMemoryProvider::rule_week_rollup_exists,
            (&m, rule_id, &week_start),
            b,
        ),
    ensures
        b <==> exists|id: Seq<char>|
            {
                &&& #[trigger] m@.chunks.contains_key(id)
                &&& m@.chunks[id].kind == ChunkKind::Rollup
                &&& text_at(m@.chunks[id].metadata, "rollup_rule_id"@) == Some(rule_id@)
                &&& text_at(m@.chunks[id].metadata, "rollup_week_start"@) == Some(week_start.text())
            },
{
    let p = rule_week_rollup(rule_id@, week_start.text());
    if b {
        let id = choose|id: Seq<char>| #[trigger]
            m@.chunks.contains_key(id) && p(m@.chunks[id]);
        assert(m@.chunks.contains_key(id));
    }
    if exists|id: Seq<char>|
        {
            &&& #[trigger] m@.chunks.contains_key(id)
            &&& m@.chunks[id].kind == ChunkKind::Rollup
            &&& text_at(m@.chunks[id].metadata, "rollup_rule_id"@) == Some(rule_id@)
            &&& text_at(m@.chunks[id].metadata, "rollup_week_start"@) == Some(week_start.text())
        } {
        let id = choose|id: Seq<char>|
            {
                &&& #[trigger] m@.chunks.contains_key(id)
                &&& m@.chunks[id].kind == ChunkKind::Rollup
                &&& text_at(m@.chunks[id].metadata, "rollup_rule_id"@) == Some(rule_id@)
                &&& text_at(m@.chunks[id].metadata, "rollup_week_start"@) == Some(week_start.text())
            };
        assert(p(m@.chunks[id]));
    }
}

// Plans

/// A session is planned for exactly when there is a summarizer, the session is
/// there and it has a chunk that is no summary; the plan names all of those
/// chunks, oldest first, and tells the session's title.
pub proof fn law_session_plan_says_all(
    m: BasicMemoryProvider,
    session_id: &str,
    r: MemoryResult<SummaryPlan>,
)
    requires
        m.wf(),
        call_ensures(BasicMemoryProvider::plan_session_summary, (&m, session_id), r),
    ensures
        ({
            let has_chunks = exists|id: Seq<char>| #[trigger]
                m@.chunks.contains_key(id) && {
                    let c = m@.chunks[id];
                    c.session_id == Some(session_id@) && c.kind != ChunkKind::JobSummary
                };
            &&& r is Ok <==> m@.summarizer && m@.sessions.contains_key(session_id@) && has_chunks
            &&& r is Err ==> r->Err_0@ == if !m@.summarizer {
                ErrorView::NotImplemented(
                    "BasicMemoryProvider::summarize_session — no summarizer attached (call `with_summarizer` first)"@,
                )
            } else if !m@.sessions.contains_key(session_id@) {
                ErrorView::NotFound("session "@ + session_id@)
            } else {
                ErrorView::InvalidArgument(
                    "session "@ + session_id@ + " has no chunks to summarize"@,
                )
            }
        }),
        r is Ok ==> {
            let plan = r->Ok_0;
            let session = m@.sessions[session_id@];
            &&& plan.target is Session
            &&& plan.target->session_id@ == session_id@
            &&& plan.target->caller_id@ == session.caller_id
            &&& plan.context.kind_label is Some
            &&& plan.context.kind_label->Some_0@ == "session"@
            &&& plan.context.note is Some <==> session.title is Some
            &&& session.title is Some ==> plan.context.note->Some_0@ == "session title: "@
                + session.title->Some_0
            &&& plan.context.max_words is None
            &&& forall|i: int|
                0 <= i < plan.members@.len() ==> {
                    let c = (#[trigger] plan.members@[i])@;
                    &&& m@.chunks.contains_key(c.id)
                    &&& m@.chunks[c.id] == c
                    &&& c.session_id == Some(session_id@) && c.kind != ChunkKind::JobSummary
                }
            &&& forall|id: Seq<char>| #[trigger]
                m@.chunks.contains_key(id) ==> {
                    let c = m@.chunks[id];
                    c.session_id == Some(session_id@) && c.kind != ChunkKind::JobSummary
                        ==> exists|i: int|
                        0 <= i < plan.members@.len() && (#[trigger] plan.members@[i])@ == c
                }
            &&& forall|i: int, j: int|
                0 <= i < j < plan.members@.len()
                    ==> (#[trigger] plan.members@[i]).id@ != (#[trigger] plan.members@[j]).id@
                    && plan.members@[i].created_at.rank() <= plan.members@[j].created_at.rank()
        },
{
    let p = in_session(session_id@);
    if some_match(m@.chunks, p) {
        let id = choose|id: Seq<char>| #[trigger]
            m@.chunks.contains_key(id) && p(m@.chunks[id]);
        assert(m@.chunks.contains_key(id));
    }
    if r is Ok {
        let v = r->Ok_0.members;
        m.lemma_coherent();
        let p = in_session(session_id@);
        let shown = lemma_shown(v);
        lemma_members(shown, m@, p);
        assert forall|i: int| 0 <= i < v@.len() implies p((#[trigger] v@[i])@)
            && m@.chunks.contains_key(v@[i]@.id) && m@.chunks[v@[i]@.id] == v@[i]@ by {
            assert(shown[i] == v@[i]@);
        }
        assert forall|id: Seq<char>| #[trigger]
            m@.chunks.contains_key(id) && p(m@.chunks[id]) implies exists|i: int|
            0 <= i < v@.len() && (#[trigger] v@[i])@ == m@.chunks[id] by {
            let i = choose|i: int| 0 <= i < shown.len() && #[trigger] shown[i] == m@.chunks[id];
            assert(v@[i]@ == m@.chunks[id]);
        }
        assert forall|i: int, j: int| 0 <= i < j < v@.len() implies (#[trigger] v@[i]).id@ != (
        #[trigger] v@[j]).id@ && v@[i].created_at.rank() <= v@[j].created_at.rank() by {
            assert(shown[i].id != shown[j].id);
        }
    }
}

/// A day is planned for exactly when there is a summarizer, the day has a chunk
/// that is no rollup, and it has no rollup or another is forced; the plan names
/// all of those chunks, oldest first, and tells the day and their number.
pub proof fn law_day_plan_says_all_labelled(
    m: BasicMemoryProvider,
    date: Date,
    label: &str,
    force: bool,
    r: MemoryResult<Option<SummaryPlan>>,
)
    requires
        m.wf(),
        call_ensures(
            BasicMemoryProvider::plan_day_rollup_labelled,
            (&m, &date, label, force),
            r,
        ),
    ensures
        r is Ok <==> m@.summarizer,
        r is Err ==> r->Err_0@ == ErrorView::NotImplemented(
            "BasicMemoryProvider::rollup_day — no summarizer attached (call `with_summarizer` first)"@,
        ),
        r is Ok ==> {
            let has_chunks = exists|id: Seq<char>| #[trigger]
                m@.chunks.contains_key(id) && {
                    let c = m@.chunks[id];
                    (date.day() - 719_163) * 86_400 <= c.created_at.secs() && c.created_at.secs()
                        < (date.day() - 719_162) * 86_400 && c.kind != ChunkKind::Rollup
                };
            let has_rollup = exists|id: Seq<char>| #[trigger]
                m@.chunks.contains_key(id) && m@.chunks[id].kind == ChunkKind::Rollup && text_at(
                    m@.chunks[id].metadata,
                    "rollup_date"@,
                ) == Some(label@);
            r->Ok_0 is Some <==> has_chunks && (force || !has_rollup)
        },
        r is Ok && r->Ok_0 is Some ==> {
            let plan = r->Ok_0->Some_0;
            &&& plan.target is Day
            &&& plan.target->date@ == label@
            &&& plan.context.kind_label is Some
            &&& plan.context.kind_label->Some_0@ == "day "@ + label@
            &&& plan.context.note is Some
            &&& plan.context.note->Some_0@ == "Daily rollup for "@ + label@ + " ("@ + decimal(
                plan.members@.len(),
            ) + " chunks)"@
            &&& plan.context.max_words is None
            &&& forall|i: int|
                0 <= i < plan.members@.len() ==> {
                    let c = (#[trigger] plan.members@[i])@;
                    &&& m@.chunks.contains_key(c.id)
                    &&& m@.chunks[c.id] == c
                    &&& (date.day() - 719_163) * 86_400 <= c.created_at.secs()
                        && c.created_at.secs()
                        < (date.day() - 719_162) * 86_400 && c.kind != ChunkKind::Rollup
                }
            &&& forall|id: Seq<char>| #[trigger]
                m@.chunks.contains_key(id) ==> {
                    let c = m@.chunks[id];
                    (date.day() - 719_163) * 86_400 <= c.created_at.secs() && c.created_at.secs()
                        < (date.day() - 719_162) * 86_400 && c.kind != ChunkKind::Rollup
                            ==> exists|i: int|
                        0 <= i < plan.members@.len() && (#[trigger] plan.members@[i])@ == c
                }
            &&& forall|i: int, j: int|
                0 <= i < j < plan.members@.len()
                    ==> (#[trigger] plan.members@[i]).id@ != (#[trigger] plan.members@[j]).id@
                    && plan.members@[i].created_at.rank() <= plan.members@[j].created_at.rank()
        },
{
    let p = on_day(date.day());
    let q = day_rollup(label@);
    if some_match(m@.chunks, p) {
        let id = choose|id: Seq<char>| #[trigger]
            m@.chunks.contains_key(id) && p(m@.chunks[id]);
        assert(m@.chunks.contains_key(id));
    }
    if some_match(m@.chunks, q) {
        let id = choose|id: Seq<char>| #[trigger]
            m@.chunks.contains_key(id) && q(m@.chunks[id]);
        assert(m@.chunks.contains_key(id));
    }
    if r is Ok && r->Ok_0 is Some {
        let v = r->Ok_0->Some_0.members;
        m.lemma_coherent();
        let p = on_day(date.day());
        let shown = lemma_shown(v);
        lemma_members(shown, m@, p);
        assert forall|i: int| 0 <= i < v@.len() implies p((#[trigger] v@[i])@)
            && m@.chunks.contains_key(v@[i]@.id) && m@.chunks[v@[i]@.id] == v@[i]@ by {
            assert(shown[i] == v@[i]@);
        }
        assert forall|id: Seq<char>| #[trigger]
            m@.chunks.contains_key(id) && p(m@.chunks[id]) implies exists|i: int|
            0 <= i < v@.len() && (#[trigger] v@[i])@ == m@.chunks[id] by {
            let i = choose|i: int| 0 <= i < shown.len() && #[trigger] shown[i] == m@.chunks[id];
            assert(v@[i]@ == m@.chunks[id]);
        }
        assert forall|i: int, j: int| 0 <= i < j < v@.len() implies (#[trigger] v@[i]).id@ != (
        #[trigger] v@[j]).id@ && v@[i].created_at.rank() <= v@[j].created_at.rank() by {
            assert(shown[i].id != shown[j].id);
        }
    }
}

/// A rule's week is planned for exactly when there is a summarizer, the week has
/// no rollup or another is forced, it ends before the calendar does, and the
/// rule fired in it; the plan names all of those fires, oldest first, and tells
/// the week, the rule and their number.
pub proof fn law_week_plan_says_all_labelled(
    m: BasicMemoryProvider,
    rule_id: &str,
    week_start: Date,
    label: &str,
    force: bool,
    r: MemoryResult<SummaryPlan>,
)
    requires
        m.wf(),
        call_ensures(
            BasicMemoryProvider::plan_rule_week_rollup_labelled,
            (&m, rule_id, &week_start, label, force),
            r,
        ),
    ensures
        ({
            let has_fires = exists|id: Seq<char>| #[trigger]
                m@.chunks.contains_key(id) && {
                    let c = m@.chunks[id];
                    c.kind == ChunkKind::Fire
                        && (week_start.day() - 719_163) * 86_400 <= c.created_at.secs()
                        && c.created_at.secs() < (week_start.day() - 719_156) * 86_400
                            && text_at(c.metadata, "rule_id"@)
                        == Some(rule_id@)
                };
            let has_rollup = exists|id: Seq<char>|
                {
                    &&& #[trigger] m@.chunks.contains_key(id)
                    &&& m@.chunks[id].kind == ChunkKind::Rollup
                    &&& text_at(m@.chunks[id].metadata, "rollup_rule_id"@) == Some(rule_id@)
                    &&& text_at(m@.chunks[id].metadata, "rollup_week_start"@) == Some(label@)
                };
            &&& r is Ok <==> m@.summarizer && (force || !has_rollup) && week_start.day() + 7
                <= 95_745_399 && has_fires
            &&& r is Err ==> r->Err_0@ == if !m@.summarizer {
                ErrorView::NotImplemented(
                    "BasicMemoryProvider::rollup_rule_week — no summarizer attached (call `with_summarizer` first)"@,
                )
            } else if !force && has_rollup {
                ErrorView::InvalidArgument(
                    "rollup already exists for rule "@ + rule_id@ + " week "@ + label@,
                )
            } else if week_start.day() + 7 > 95_745_399 {
                ErrorView::InvalidArgument("week overflow: "@ + label@)
            } else {
                ErrorView::NotFound("no fires for rule "@ + rule_id@ + " in week of "@ + label@)
            }
        }),
        r is Ok ==> {
            let plan = r->Ok_0;
            &&& plan.target is RuleWeek
            &&& plan.target->rule_id@ == rule_id@
            &&& plan.target->week_start@ == label@
            &&& plan.context.kind_label is Some
            &&& plan.context.kind_label->Some_0@ == "week of "@ + label@ + " for rule "@ + rule_id@
            &&& plan.context.note is Some
            &&& plan.context.note->Some_0@ == "Weekly rollup for rule "@ + rule_id@ + " ("@
                + decimal(plan.members@.len()) + " fires)"@
            &&& plan.context.max_words is None
            &&& forall|i: int|
                0 <= i < plan.members@.len() ==> {
                    let c = (#[trigger] plan.members@[i])@;
                    &&& m@.chunks.contains_key(c.id)
                    &&& m@.chunks[c.id] == c
                    &&& c.kind == ChunkKind::Fire
                        && (week_start.day() - 719_163) * 86_400 <= c.created_at.secs()
                        && c.created_at.secs() < (week_start.day() - 719_156) * 86_400
                            && text_at(c.metadata, "rule_id"@)
                        == Some(rule_id@)
                }
            &&& forall|id: Seq<char>| #[trigger]
                m@.chunks.contains_key(id) ==> {
                    let c = m@.chunks[id];
                    c.kind == ChunkKind::Fire
                        && (week_start.day() - 719_163) * 86_400 <= c.created_at.secs()
                        && c.created_at.secs() < (week_start.day() - 719_156) * 86_400
                            && text_at(c.metadata, "rule_id"@)
                        == Some(rule_id@) ==> exists|i: int|
                        0 <= i < plan.members@.len() && (#[trigger] plan.members@[i])@ == c
                }
            &&& forall|i: int, j: int|
                0 <= i < j < plan.members@.len()
                    ==> (#[trigger] plan.members@[i]).id@ != (#[trigger] plan.members@[j]).id@
                    && plan.members@[i].created_at.rank() <= plan.members@[j].created_at.rank()
        },
{
    let p = fired_in_week(rule_id@, week_start.day());
    let q = rule_week_rollup(rule_id@, label@);
    if some_match(m@.chunks, p) {
        let id = choose|id: Seq<char>| #[trigger]
            m@.chunks.contains_key(id) && p(m@.chunks[id]);
        assert(m@.chunks.contains_key(id));
    }
    if some_match(m@.chunks, q) {
        let id = choose|id: Seq<char>| #[trigger]
            m@.chunks.contains_key(id) && q(m@.chunks[id]);
        assert(m@.chunks.contains_key(id));
    }
    if r is Ok {
        let v = r->Ok_0.members;
        m.lemma_coherent();
        let p = fired_in_week(rule_id@, week_start.day());
        let shown = lemma_shown(v);
        lemma_members(shown, m@, p);
        assert forall|i: int| 0 <= i < v@.len() implies p((#[trigger] v@[i])@)
            && m@.chunks.contains_key(v@[i]@.id) && m@.chunks[v@[i]@.id] == v@[i]@ by {
            assert(shown[i] == v@[i]@);
        }
        assert forall|id: Seq<char>| #[trigger]
            m@.chunks.contains_key(id) && p(m@.chunks[id]) implies exists|i: int|
            0 <= i < v@.len() && (#[trigger] v@[i])@ == m@.chunks[id] by {
            let i = choose|i: int| 0 <= i < shown.len() && #[trigger] shown[i] == m@.chunks[id];
            assert(v@[i]@ == m@.chunks[id]);
        }
        assert forall|i: int, j: int| 0 <= i < j < v@.len() implies (#[trigger] v@[i]).id@ != (
        #[trigger] v@[j]).id@ && v@[i].created_at.rank() <= v@[j].created_at.rank() by {
            assert(shown[i].id != shown[j].id);
        }
    }
}

/// A day is planned for exactly when there is a summarizer, the day has a chunk
/// that is no rollup, and it has no rollup or another is forced; the plan names
/// all of those chunks, oldest first, and tells the day and their number.
pub proof fn law_day_plan_says_all(
    m: BasicMemoryProvider,
    date: Date,
    force: bool,
    r: MemoryResult<Option<SummaryPlan>>,
)
    requires
        m.wf(),
        call_ensures(
            BasicMemoryProvider::plan_day_rollup,
            (&m, &date, force),
            r,
        ),
    ensures
        r is Ok <==> m@.summarizer,
        r is Err ==> r->Err_0@ == ErrorView::NotImplemented(
            "BasicMemoryProvider::rollup_day — no summarizer attached (call `with_summarizer` first)"@,
        ),
        r is Ok ==> {
            let has_chunks = exists|id: Seq<char>| #[trigger]
                m@.chunks.contains_key(id) && {
                    let c = m@.chunks[id];
                    (date.day() - 719_163) * 86_400 <= c.created_at.secs() && c.created_at.secs()
                        < (date.day() - 719_162) * 86_400 && c.kind != ChunkKind::Rollup
                };
            let has_rollup = exists|id: Seq<char>| #[trigger]
                m@.chunks.contains_key(id) && m@.chunks[id].kind == ChunkKind::Rollup && text_at(
                    m@.chunks[id].metadata,
                    "rollup_date"@,
                ) == Some(date.text());
            r->Ok_0 is Some <==> has_chunks && (force || !has_rollup)
        },
        r is Ok && r->Ok_0 is Some ==> {
            let plan = r->Ok_0->Some_0;
            &&& plan.target is Day
            &&& plan.target->date@ == date.text()
            &&& plan.context.kind_label is Some
            &&& plan.context.kind_label->Some_0@ == "day "@ + date.text()
            &&& plan.context.note is Some
            &&& plan.context.note->Some_0@ == "Daily rollup for "@ + date.text() + " ("@ + decimal(
                plan.members@.len(),
            ) + " chunks)"@
            &&& plan.context.max_words is None
            &&& forall|i: int|
                0 <= i < plan.members@.len() ==> {
                    let c = (#[trigger] plan.members@[i])@;
                    &&& m@.chunks.contains_key(c.id)
                    &&& m@.chunks[c.id] == c
                    &&& (date.day() - 719_163) * 86_400 <= c.created_at.secs()
                        && c.created_at.secs()
                        < (date.day() - 719_162) * 86_400 && c.kind != ChunkKind::Rollup
                }
            &&& forall|id: Seq<char>| #[trigger]
                m@.chunks.contains_key(id) ==> {
                    let c = m@.chunks[id];
                    (date.day() - 719_163) * 86_400 <= c.created_at.secs() && c.created_at.secs()
                        < (date.day() - 719_162) * 86_400 && c.kind != ChunkKind::Rollup
                            ==> exists|i: int|
                        0 <= i < plan.members@.len() && (#[trigger] plan.members@[i])@ == c
                }
            &&& forall|i: int, j: int|
                0 <= i < j < plan.members@.len()
                    ==> (#[trigger] plan.members@[i]).id@ != (#[trigger] plan.members@[j]).id@
                    && plan.members@[i].created_at.rank() <= plan.members@[j].created_at.rank()
        },
{
    let p = on_day(date.day());
    let q = day_rollup(date.text());
    if some_match(m@.chunks, p) {
        let id = choose|id: Seq<char>| #[trigger]
            m@.chunks.contains_key(id) && p(m@.chunks[id]);
        assert(m@.chunks.contains_key(id));
    }
    if some_match(m@.chunks, q) {
        let id = choose|id: Seq<char>| #[trigger]
            m@.chunks.contains_key(id) && q(m@.chunks[id]);
        assert(m@.chunks.contains_key(id));
    }
    if r is Ok && r->Ok_0 is Some {
        let v = r->Ok_0->Some_0.members;
        m.lemma_coherent();
        let p = on_day(date.day());
        let shown = lemma_shown(v);
        lemma_members(shown, m@, p);
        assert forall|i: int| 0 <= i < v@.len() implies p((#[trigger] v@[i])@)
            && m@.chunks.contains_key(v@[i]@.id) && m@.chunks[v@[i]@.id] == v@[i]@ by {
            assert(shown[i] == v@[i]@);
        }
        assert forall|id: Seq<char>| #[trigger]
            m@.chunks.contains_key(id) && p(m@.chunks[id]) implies exists|i: int|
            0 <= i < v@.len() && (#[trigger] v@[i])@ == m@.chunks[id] by {
            let i = choose|i: int| 0 <= i < shown.len() && #[trigger] shown[i] == m@.chunks[id];
            assert(v@[i]@ == m@.chunks[id]);
        }
        assert forall|i: int, j: int| 0 <= i < j < v@.len() implies (#[trigger] v@[i]).id@ != (
        #[trigger] v@[j]).id@ && v@[i].created_at.rank() <= v@[j].created_at.rank() by {
            assert(shown[i].id != shown[j].id);
        }
    }
}

/// A rule's week is planned for exactly when there is a summarizer, the week has
/// no rollup or another is forced, it ends before the calendar does, and the
/// rule fired in it; the plan names all of those fires, oldest first, and tells
/// the week, the rule and their number.
pub proof fn law_week_plan_says_all(
    m: BasicMemoryProvider,
    rule_id: &str,
    week_start: Date,
    force: bool,
    r: MemoryResult<SummaryPlan>,
)
    requires
        m.wf(),
        call_ensures(
            BasicMemoryProvider::plan_rule_week_rollup,
            (&m, rule_id, &week_start, force),
            r,
        ),
    ensures
        ({
            let has_fires = exists|id: Seq<char>| #[trigger]
                m@.chunks.contains_key(id) && {
                    let c = m@.chunks[id];
                    c.kind == ChunkKind::Fire
                        && (week_start.day() - 719_163) * 86_400 <= c.created_at.secs()
                        && c.created_at.secs() < (week_start.day() - 719_156) * 86_400
                            && text_at(c.metadata, "rule_id"@)
                        == Some(rule_id@)
                };
            let has_rollup = exists|id: Seq<char>|
                {
                    &&& #[trigger] m@.chunks.contains_key(id)
                    &&& m@.chunks[id].kind == ChunkKind::Rollup
                    &&& text_at(m@.chunks[id].metadata, "rollup_rule_id"@) == Some(rule_id@)
                    &&& text_at(m@.chunks[id].metadata, "rollup_week_start"@)
                        == Some(week_start.text())
                };
            &&& r is Ok <==> m@.summarizer && (force || !has_rollup) && week_start.day() + 7
                <= 95_745_399 && has_fires
            &&& r is Err ==> r->Err_0@ == if !m@.summarizer {
                ErrorView::NotImplemented(
                    "BasicMemoryProvider::rollup_rule_week — no summarizer attached (call `with_summarizer` first)"@,
                )
            } else if !force && has_rollup {
                ErrorView::InvalidArgument(
                    "rollup already exists for rule "@ + rule_id@ + " week "@ + week_start.text(),
                )
            } else if week_start.day() + 7 > 95_745_399 {
                ErrorView::InvalidArgument("week overflow: "@ + week_start.text())
            } else {
                ErrorView::NotFound("no fires for rule "@ + rule_id@ + " in week of "@ + week_start.text())
            }
        }),
        r is Ok ==> {
            let plan = r->Ok_0;
            &&& plan.target is RuleWeek
            &&& plan.target->rule_id@ == rule_id@
            &&& plan.target->week_start@ == week_start.text()
            &&& plan.context.kind_label is Some
            &&& plan.context.kind_label->Some_0@
                == "week of "@ + week_start.text() + " for rule "@ + rule_id@
            &&& plan.context.note is Some
            &&& plan.context.note->Some_0@ == "Weekly rollup for rule "@ + rule_id@ + " ("@
                + decimal(plan.members@.len()) + " fires)"@
            &&& plan.context.max_words is None
            &&& forall|i: int|
                0 <= i < plan.members@.len() ==> {
                    let c = (#[trigger] plan.members@[i])@;
                    &&& m@.chunks.contains_key(c.id)
                    &&& m@.chunks[c.id] == c
                    &&& c.kind == ChunkKind::Fire
                        && (week_start.day() - 719_163) * 86_400 <= c.created_at.secs()
                        && c.created_at.secs() < (week_start.day() - 719_156) * 86_400
                            && text_at(c.metadata, "rule_id"@)
                        == Some(rule_id@)
                }
            &&& forall|id: Seq<char>| #[trigger]
                m@.chunks.contains_key(id) ==> {
                    let c = m@.chunks[id];
                    c.kind == ChunkKind::Fire
                        && (week_start.day() - 719_163) * 86_400 <= c.created_at.secs()
                        && c.created_at.secs() < (week_start.day() - 719_156) * 86_400
                            && text_at(c.metadata, "rule_id"@)
                        == Some(rule_id@) ==> exists|i: int|
                        0 <= i < plan.members@.len() && (#[trigger] plan.members@[i])@ == c
                }
            &&& forall|i: int, j: int|
                0 <= i < j < plan.members@.len()
                    ==> (#[trigger] plan.members@[i]).id@ != (#[trigger] plan.members@[j]).id@
                    && plan.members@[i].created_at.rank() <= plan.members@[j].created_at.rank()
        },
{
    let p = fired_in_week(rule_id@, week_start.day());
    let q = rule_week_rollup(rule_id@, week_start.text());
    if some_match(m@.chunks, p) {
        let id = choose|id: Seq<char>| #[trigger]
            m@.chunks.contains_key(id) && p(m@.chunks[id]);
        assert(m@.chunks.contains_key(id));
    }
    if some_match(m@.chunks, q) {
        let id = choose|id: Seq<char>| #[trigger]
            m@.chunks.contains_key(id) && q(m@.chunks[id]);
        assert(m@.chunks.contains_key(id));
    }
    if r is Ok {
        let v = r->Ok_0.members;
        m.lemma_coherent();
        let p = fired_in_week(rule_id@, week_start.day());
        let shown = lemma_shown(v);
        lemma_members(shown, m@, p);
        assert forall|i: int| 0 <= i < v@.len() implies p((#[trigger] v@[i])@)
            && m@.chunks.contains_key(v@[i]@.id) && m@.chunks[v@[i]@.id] == v@[i]@ by {
            assert(shown[i] == v@[i]@);
        }
        assert forall|id: Seq<char>| #[trigger]
            m@.chunks.contains_key(id) && p(m@.chunks[id]) implies exists|i: int|
            0 <= i < v@.len() && (#[trigger] v@[i])@ == m@.chunks[id] by {
            let i = choose|i: int| 0 <= i < shown.len() && #[trigger] shown[i] == m@.chunks[id];
            assert(v@[i]@ == m@.chunks[id]);
        }
        assert forall|i: int, j: int| 0 <= i < j < v@.len() implies (#[trigger] v@[i]).id@ != (
        #[trigger] v@[j]).id@ && v@[i].created_at.rank() <= v@[j].created_at.rank() by {
            assert(shown[i].id != shown[j].id);
        }
    }
}

} // verus!
