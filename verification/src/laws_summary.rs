//! What a summary says, and what writing one leaves, call by call.
//!
//! Each law takes the arguments and the result of a call. It says which chunk
//! is written for which reply, which chunks are linked to it, and what else
//! changes.

use crate::basic::BasicMemoryProvider;
use crate::chunk::{ChunkKind, ChunkSource, ChunkView, MemoryChunk, MemoryTier, NewMemoryChunk};
use crate::error::{ErrorView, MemoryResult};
use crate::importance::Importance;
use crate::json::{member, text_at, JsonView};
use crate::laws::law_linking_collects;
use crate::laws_rollup::{lemma_members, lemma_shown};
use crate::listing::some_match;
use crate::model::{
    day_rollup, fired_in_week, in_session, linked, on_day, rule_week_rollup, MemoryView,
};
use crate::rollup::{
    first_root, ids_of, members_by_age, summary_metadata, summary_of, summary_written, SummaryPlan,
    SummaryTarget, TargetView,
};
use crate::session::SessionView;
use crate::summarizer::{SummarizerError, SummaryReply};
use crate::text::texts;
use crate::time::{Date, Timestamp};
use crate::write_hook::HookReply;
use vstd::prelude::*;

verus! {

// Drafts

/// The project of a list of chunks is that of the first of them that has one.
proof fn lemma_root(members: Seq<ChunkView>) -> (at: int)
    ensures
        first_root(members) is None ==> forall|i: int|
            0 <= i < members.len() ==> (#[trigger] members[i]).project_root is None,
        first_root(members) is Some ==> 0 <= at < members.len() && members[at].project_root
            == first_root(members) && forall|j: int|
            0 <= j < at ==> (#[trigger] members[j]).project_root is None,
    decreases members.len(),
{
    if members.len() == 0 || members[0].project_root is Some {
        0
    } else {
        let rest = members.drop_first();
        let at = lemma_root(rest);
        assert forall|i: int| 0 < i < members.len() implies #[trigger] members[i]
            == rest[i - 1] by {
        }
        at + 1
    }
}

/// The chunk to write holds the text and says, in its metadata, what was
/// summarized, how many chunks that was and who summarized it.
pub proof fn law_summary_says_what_it_is(
    plan: SummaryPlan,
    summarizer: &str,
    text: &str,
    new: NewMemoryChunk,
)
    requires
        call_ensures(SummaryPlan::chunk, (&plan, summarizer, text), new),
    ensures
        ({
            let count = ("member_count"@, JsonView::PosInt(plan.members@.len() as u64));
            let author = ("summarizer"@, JsonView::Text(summarizer@));
            &&& new.content@ == text@
            &&& new.importance is None
            &&& !new.pinned
            &&& !new.shareable
            &&& match plan.target {
                SummaryTarget::Session { session_id, caller_id } => {
                    &&& new.kind == ChunkKind::JobSummary
                    &&& new.source == ChunkSource::Embedded
                    &&& new.session_id is Some
                    &&& new.session_id->Some_0@ == session_id@
                    &&& new.caller_id@ == caller_id@
                    &&& new.metadata@ == JsonView::Object(
                        seq![count, ("session_id"@, JsonView::Text(session_id@)), author],
                    )
                    &&& new.project_root is None <==> forall|i: int|
                        0 <= i < plan.members@.len()
                            ==> (#[trigger] plan.members@[i]).project_root is None
                    &&& new.project_root is Some ==> exists|i: int|
                        {
                            &&& 0 <= i < plan.members@.len()
                            &&& (#[trigger] plan.members@[i]).project_root is Some
                            &&& plan.members@[i].project_root->Some_0@ == new.project_root->Some_0@
                            &&& forall|j: int|
                                0 <= j < i ==> (#[trigger] plan.members@[j]).project_root is None
                        }
                },
                SummaryTarget::Day { date } => {
                    &&& new.kind == ChunkKind::Rollup
                    &&& new.source == ChunkSource::System
                    &&& new.session_id is None
                    &&& new.project_root is None
                    &&& new.caller_id@ == "system"@
                    &&& new.metadata@ == JsonView::Object(
                        seq![
                            count,
                            ("rollup_date"@, JsonView::Text(date@)),
                            ("rollup_kind"@, JsonView::Text("day"@)),
                            author,
                        ],
                    )
                },
                SummaryTarget::RuleWeek { rule_id, week_start } => {
                    &&& new.kind == ChunkKind::Rollup
                    &&& new.source == ChunkSource::System
                    &&& new.session_id is None
                    &&& new.project_root is None
                    &&& new.caller_id@ == "system"@
                    &&& new.metadata@ == JsonView::Object(
                        seq![
                            count,
                            ("rollup_kind"@, JsonView::Text("rule_week"@)),
                            ("rollup_rule_id"@, JsonView::Text(rule_id@)),
                            ("rollup_week_start"@, JsonView::Text(week_start@)),
                            author,
                        ],
                    )
                },
            }
        }),
{
    let shown = lemma_shown(plan.members);
    let at = lemma_root(shown);
    if first_root(shown) is Some {
        assert(plan.members@[at].project_root is Some);
        assert forall|j: int| 0 <= j < at implies (
        #[trigger] plan.members@[j]).project_root is None by {
            assert(shown[j].project_root is None);
        }
    } else {
        assert forall|i: int| 0 <= i < plan.members@.len() implies (
        #[trigger] plan.members@[i]).project_root is None by {
            assert(shown[i].project_root is None);
        }
    }
}

/// A reply that holds a text makes a draft of it; any other is reported as the
/// summarizer's failure.
pub proof fn law_draft_follows_the_reply(
    plan: SummaryPlan,
    answer: SummaryReply,
    r: MemoryResult<NewMemoryChunk>,
)
    requires
        call_ensures(SummaryPlan::draft, (&plan, answer), r),
    ensures
        r is Ok <==> answer.outcome is Ok,
        r is Err ==> r->Err_0@ == match answer.outcome->Err_0 {
            SummarizerError::NoInput => ErrorView::InvalidArgument(
                "summarizer received no input"@,
            ),
            SummarizerError::Failed(msg) => ErrorView::Provider(
                "summarizer "@ + answer.summarizer@ + " failed: "@ + msg@,
            ),
        },
        r is Ok ==> {
            let new = r->Ok_0;
            let count = ("member_count"@, JsonView::PosInt(plan.members@.len() as u64));
            let author = ("summarizer"@, JsonView::Text(answer.summarizer@));
            &&& new.content@ == answer.outcome->Ok_0@
            &&& new.importance is None
            &&& !new.pinned
            &&& !new.shareable
            &&& match plan.target {
                SummaryTarget::Session { session_id, caller_id } => {
                    &&& new.kind == ChunkKind::JobSummary
                    &&& new.source == ChunkSource::Embedded
                    &&& new.session_id is Some
                    &&& new.session_id->Some_0@ == session_id@
                    &&& new.caller_id@ == caller_id@
                    &&& new.metadata@ == JsonView::Object(
                        seq![count, ("session_id"@, JsonView::Text(session_id@)), author],
                    )
                    &&& new.project_root is None <==> forall|i: int|
                        0 <= i < plan.members@.len()
                            ==> (#[trigger] plan.members@[i]).project_root is None
                    &&& new.project_root is Some ==> exists|i: int|
                        {
                            &&& 0 <= i < plan.members@.len()
                            &&& (#[trigger] plan.members@[i]).project_root is Some
                            &&& plan.members@[i].project_root->Some_0@ == new.project_root->Some_0@
                            &&& forall|j: int|
                                0 <= j < i ==> (#[trigger] plan.members@[j]).project_root is None
                        }
                },
                SummaryTarget::Day { date } => {
                    &&& new.kind == ChunkKind::Rollup
                    &&& new.source == ChunkSource::System
                    &&& new.session_id is None
                    &&& new.project_root is None
                    &&& new.caller_id@ == "system"@
                    &&& new.metadata@ == JsonView::Object(
                        seq![
                            count,
                            ("rollup_date"@, JsonView::Text(date@)),
                            ("rollup_kind"@, JsonView::Text("day"@)),
                            author,
                        ],
                    )
                },
                SummaryTarget::RuleWeek { rule_id, week_start } => {
                    &&& new.kind == ChunkKind::Rollup
                    &&& new.source == ChunkSource::System
                    &&& new.session_id is None
                    &&& new.project_root is None
                    &&& new.caller_id@ == "system"@
                    &&& new.metadata@ == JsonView::Object(
                        seq![
                            count,
                            ("rollup_kind"@, JsonView::Text("rule_week"@)),
                            ("rollup_rule_id"@, JsonView::Text(rule_id@)),
                            ("rollup_week_start"@, JsonView::Text(week_start@)),
                            author,
                        ],
                    )
                },
            }
        },
{
    if r is Ok {
        let shown = lemma_shown(plan.members);
        let at = lemma_root(shown);
        if first_root(shown) is Some {
            assert(plan.members@[at].project_root is Some);
            assert forall|j: int| 0 <= j < at implies (
            #[trigger] plan.members@[j]).project_root is None by {
                assert(shown[j].project_root is None);
            }
        } else {
            assert forall|i: int| 0 <= i < plan.members@.len() implies (
            #[trigger] plan.members@[i]).project_root is None by {
                assert(shown[i].project_root is None);
            }
        }
    }
}

// Links

/// Linking adds the ids that were not linked, and changes nothing else.
pub proof fn law_links_are_added(
    m: &mut BasicMemoryProvider,
    summary_id: &str,
    ids: Vec<String>,
)
    requires
        old(m).wf(),
        call_ensures(BasicMemoryProvider::link_summary_members, (m, summary_id, &ids), ()),
    ensures
        final(m)@.members.contains_key(summary_id@),
        ({
            let now = final(m)@.members[summary_id@];
            let had = old(m)@.members.contains_key(summary_id@);
            let was = old(m)@.members[summary_id@];
            &&& now.no_duplicates()
            &&& had ==> was.is_prefix_of(now)
            &&& forall|x: Seq<char>| #[trigger]
                now.contains(x) <==> (had && was.contains(x)) || exists|i: int|
                    0 <= i < ids@.len() && (#[trigger] ids@[i])@ == x
        }),
        forall|k: Seq<char>|
            k != summary_id@ ==> (#[trigger] final(m)@.members.contains_key(k)
                <==> old(m)@.members.contains_key(k)) && final(m)@.members[k]
                == old(m)@.members[k],
        final(m)@.chunks == old(m)@.chunks,
        final(m)@.sessions == old(m)@.sessions,
        final(m)@.evictions == old(m)@.evictions,
        final(m)@.accesses == old(m)@.accesses,
        final(m)@.write_hook == old(m)@.write_hook,
        final(m)@.summarizer == old(m)@.summarizer,
{
    old(m).lemma_coherent();
    let was = old(m)@.members_of(summary_id@);
    let names = texts(ids@);
    law_linking_collects(was, names);
    assert forall|x: Seq<char>| #[trigger] names.contains(x) <==> exists|i: int|
        0 <= i < ids@.len() && (#[trigger] ids@[i])@ == x by {
        if names.contains(x) {
            let i = choose|i: int| 0 <= i < names.len() && names[i] == x;
            assert(ids@[i]@ == x);
        }
        if exists|i: int| 0 <= i < ids@.len() && (#[trigger] ids@[i])@ == x {
            let i = choose|i: int| 0 <= i < ids@.len() && (#[trigger] ids@[i])@ == x;
            assert(names[i] == x);
        }
    }
}

/// The ids of the members are what is linked.
proof fn lemma_ids(members: Seq<ChunkView>)
    ensures
        forall|x: Seq<char>| #[trigger]
            ids_of(members).contains(x) <==> exists|i: int|
                0 <= i < members.len() && (#[trigger] members[i]).id == x,
{
    let ids = ids_of(members);
    assert forall|x: Seq<char>| #[trigger] ids.contains(x) <==> exists|i: int|
        0 <= i < members.len() && (#[trigger] members[i]).id == x by {
        if ids.contains(x) {
            let i = choose|i: int| 0 <= i < ids.len() && ids[i] == x;
            assert(members[i].id == x);
        }
        if exists|i: int| 0 <= i < members.len() && (#[trigger] members[i]).id == x {
            let i = choose|i: int| 0 <= i < members.len() && (#[trigger] members[i]).id == x;
            assert(ids[i] == x);
        }
    }
}

// Finishing a summary

/// Finishing a summary writes the draft as any write does, links exactly the
/// members to it, and gives a session its text; a draft that cannot be written
/// changes nothing.
pub proof fn law_finished_summary_is_written_and_linked(
    m: &mut BasicMemoryProvider,
    plan: SummaryPlan,
    draft: NewMemoryChunk,
    reply: HookReply,
    id: String,
    at: Timestamp,
    r: MemoryResult<MemoryChunk>,
)
    requires
        old(m).wf(),
        call_ensures(BasicMemoryProvider::finish_summary_at, (m, &plan, draft, reply, id, at), r),
    ensures
        ({
            let visible = exists|i: int|
                0 <= i < draft.content@.len() && {
                    let u = #[trigger] draft.content@[i] as u32;
                    !(0x9 <= u <= 0xd || u == 0x20 || u == 0x85 || u == 0xa0 || u == 0x1680
                        || 0x2000 <= u <= 0x200a || u == 0x2028 || u == 0x2029 || u == 0x202f
                        || u == 0x205f || u == 0x3000)
                };
            &&& r is Ok <==> visible && !(reply is Failed)
            &&& r is Err ==> final(m)@ == old(m)@ && r->Err_0@ == if visible {
                reply->Failed_0@
            } else {
                ErrorView::InvalidArgument("content must not be empty"@)
            }
        }),
        r is Ok ==> {
            let c = r->Ok_0@;
            &&& c.id == id@
            &&& c.created_at == at
            &&& c.kind == draft.kind
            &&& c.source == draft.source
            &&& c.session_id is Some <==> draft.session_id is Some
            &&& draft.session_id is Some ==> c.session_id->Some_0 == draft.session_id->Some_0@
            &&& c.project_root is Some <==> draft.project_root is Some
            &&& draft.project_root is Some ==> c.project_root->Some_0
                == draft.project_root->Some_0@
            &&& c.caller_id == draft.caller_id@
            &&& c.tier == MemoryTier::Session
            &&& c.superseded_by is None
            &&& c.embedding_model == "none"@
            &&& c.embedding_dim == 0
            &&& if reply is Decided && reply->Decided_0 is Redact {
                let reason = reply->Decided_0->reason@;
                &&& c.content == "<redacted: "@ + reason + ">"@
                &&& c.metadata == JsonView::Object(
                    seq![("reason"@, JsonView::Text(reason)), ("redacted"@, JsonView::Bool(true))],
                )
                &&& c.importance.bits == 0
                &&& !c.pinned
                &&& !c.shareable
                &&& final(m)@.chunks == old(m)@.chunks
            } else {
                &&& c.content == draft.content@
                &&& c.metadata == draft.metadata@
                &&& c.importance == match draft.importance {
                    Some(i) => i,
                    None => Importance { bits: 0x3f00_0000 },
                }
                &&& c.pinned == draft.pinned
                &&& c.shareable == draft.shareable
                &&& final(m)@.chunks == old(m)@.chunks.insert(c.id, c)
            }
        },
        r is Ok ==> {
            let summary = r->Ok_0.id@;
            let now = final(m)@.members[summary];
            let had = old(m)@.members.contains_key(summary);
            let was = old(m)@.members[summary];
            &&& final(m)@.members.contains_key(summary)
            &&& now.no_duplicates()
            &&& had ==> was.is_prefix_of(now)
            &&& forall|x: Seq<char>| #[trigger]
                now.contains(x) <==> (had && was.contains(x)) || exists|i: int|
                    0 <= i < plan.members@.len() && (#[trigger] plan.members@[i]).id@ == x
            &&& forall|k: Seq<char>|
                k != summary ==> (#[trigger] final(m)@.members.contains_key(k)
                    <==> old(m)@.members.contains_key(k)) && final(m)@.members[k]
                    == old(m)@.members[k]
        },
        r is Ok ==> final(m)@.sessions == match plan.target {
            SummaryTarget::Session { session_id, .. } => if old(m)@.sessions.contains_key(
                session_id@,
            ) {
                old(m)@.sessions.insert(
                    session_id@,
                    SessionView {
                        summary: Some(draft.content@),
                        ..old(m)@.sessions[session_id@]
                    },
                )
            } else {
                old(m)@.sessions
            },
            _ => old(m)@.sessions,
        },
        final(m)@.evictions == old(m)@.evictions,
        final(m)@.accesses == old(m)@.accesses,
        final(m)@.write_hook == old(m)@.write_hook,
        final(m)@.summarizer == old(m)@.summarizer,
{
    old(m).lemma_coherent();
    if r is Ok {
        let shown = lemma_shown(plan.members);
        let was = old(m)@.members_of(r->Ok_0.id@);
        law_linking_collects(was, ids_of(shown));
        lemma_ids(shown);
        assert forall|x: Seq<char>| #[trigger] ids_of(shown).contains(x) <==> exists|i: int|
            0 <= i < plan.members@.len() && (#[trigger] plan.members@[i]).id@ == x by {
            if exists|i: int| 0 <= i < shown.len() && (#[trigger] shown[i]).id == x {
                let i = choose|i: int| 0 <= i < shown.len() && (#[trigger] shown[i]).id == x;
                assert(plan.members@[i].id@ == x);
            }
            if exists|i: int|
                0 <= i < plan.members@.len() && (#[trigger] plan.members@[i]).id@ == x {
                let i = choose|i: int|
                    0 <= i < plan.members@.len() && (#[trigger] plan.members@[i]).id@ == x;
                assert(shown[i].id == x);
            }
        }
        if let SummaryTarget::Session { session_id, .. } = plan.target {
            if old(m)@.sessions.contains_key(session_id@) {
                assert(old(m)@.sessions[session_id@].id == session_id@);
            }
        }
    }
}

/// The same under a fresh id at the present instant.
pub proof fn law_fresh_summary_is_written_and_linked(
    m: &mut BasicMemoryProvider,
    plan: SummaryPlan,
    draft: NewMemoryChunk,
    reply: HookReply,
    r: MemoryResult<MemoryChunk>,
)
    requires
        old(m).wf(),
        call_ensures(BasicMemoryProvider::finish_summary, (m, &plan, draft, reply), r),
    ensures
        ({
            let visible = exists|i: int|
                0 <= i < draft.content@.len() && {
                    let u = #[trigger] draft.content@[i] as u32;
                    !(0x9 <= u <= 0xd || u == 0x20 || u == 0x85 || u == 0xa0 || u == 0x1680
                        || 0x2000 <= u <= 0x200a || u == 0x2028 || u == 0x2029 || u == 0x202f
                        || u == 0x205f || u == 0x3000)
                };
            &&& r is Ok <==> visible && !(reply is Failed)
            &&& r is Err ==> final(m)@ == old(m)@ && r->Err_0@ == if visible {
                reply->Failed_0@
            } else {
                ErrorView::InvalidArgument("content must not be empty"@)
            }
        }),
        r is Ok ==> {
            let c = r->Ok_0@;
            &&& c.id.len() == 36
            &&& c.id[14] == '7'
            &&& c.created_at.secs() >= 0
            &&& 0 <= c.created_at.nanos() < 1_000_000_000
            &&& c.kind == draft.kind
            &&& c.source == draft.source
            &&& c.session_id is Some <==> draft.session_id is Some
            &&& draft.session_id is Some ==> c.session_id->Some_0 == draft.session_id->Some_0@
            &&& c.project_root is Some <==> draft.project_root is Some
            &&& draft.project_root is Some ==> c.project_root->Some_0
                == draft.project_root->Some_0@
            &&& c.caller_id == draft.caller_id@
            &&& c.tier == MemoryTier::Session
            &&& c.superseded_by is None
            &&& c.embedding_model == "none"@
            &&& c.embedding_dim == 0
            &&& if reply is Decided && reply->Decided_0 is Redact {
                let reason = reply->Decided_0->reason@;
                &&& c.content == "<redacted: "@ + reason + ">"@
                &&& c.metadata == JsonView::Object(
                    seq![("reason"@, JsonView::Text(reason)), ("redacted"@, JsonView::Bool(true))],
                )
                &&& c.importance.bits == 0
                &&& !c.pinned
                &&& !c.shareable
                &&& final(m)@.chunks == old(m)@.chunks
            } else {
                &&& c.content == draft.content@
                &&& c.metadata == draft.metadata@
                &&& c.importance == match draft.importance {
                    Some(i) => i,
                    None => Importance { bits: 0x3f00_0000 },
                }
                &&& c.pinned == draft.pinned
                &&& c.shareable == draft.shareable
                &&& final(m)@.chunks == old(m)@.chunks.insert(c.id, c)
            }
        },
        r is Ok ==> {
            let summary = r->Ok_0.id@;
            let now = final(m)@.members[summary];
            let had = old(m)@.members.contains_key(summary);
            let was = old(m)@.members[summary];
            &&& final(m)@.members.contains_key(summary)
            &&& now.no_duplicates()
            &&& had ==> was.is_prefix_of(now)
            &&& forall|x: Seq<char>| #[trigger]
                now.contains(x) <==> (had && was.contains(x)) || exists|i: int|
                    0 <= i < plan.members@.len() && (#[trigger] plan.members@[i]).id@ == x
            &&& forall|k: Seq<char>|
                k != summary ==> (#[trigger] final(m)@.members.contains_key(k)
                    <==> old(m)@.members.contains_key(k)) && final(m)@.members[k]
                    == old(m)@.members[k]
        },
        r is Ok ==> final(m)@.sessions == match plan.target {
            SummaryTarget::Session { session_id, .. } => if old(m)@.sessions.contains_key(
                session_id@,
            ) {
                old(m)@.sessions.insert(
                    session_id@,
                    SessionView {
                        summary: Some(draft.content@),
                        ..old(m)@.sessions[session_id@]
                    },
                )
            } else {
                old(m)@.sessions
            },
            _ => old(m)@.sessions,
        },
        final(m)@.evictions == old(m)@.evictions,
        final(m)@.accesses == old(m)@.accesses,
        final(m)@.write_hook == old(m)@.write_hook,
        final(m)@.summarizer == old(m)@.summarizer,
{
    old(m).lemma_coherent();
    if r is Ok {
        let shown = lemma_shown(plan.members);
        let was = old(m)@.members_of(r->Ok_0.id@);
        law_linking_collects(was, ids_of(shown));
        lemma_ids(shown);
        assert forall|x: Seq<char>| #[trigger] ids_of(shown).contains(x) <==> exists|i: int|
            0 <= i < plan.members@.len() && (#[trigger] plan.members@[i]).id@ == x by {
            if exists|i: int| 0 <= i < shown.len() && (#[trigger] shown[i]).id == x {
                let i = choose|i: int| 0 <= i < shown.len() && (#[trigger] shown[i]).id == x;
                assert(plan.members@[i].id@ == x);
            }
            if exists|i: int|
                0 <= i < plan.members@.len() && (#[trigger] plan.members@[i]).id@ == x {
                let i = choose|i: int|
                    0 <= i < plan.members@.len() && (#[trigger] plan.members@[i]).id@ == x;
                assert(shown[i].id == x);
            }
        }
        if let SummaryTarget::Session { session_id, .. } = plan.target {
            if old(m)@.sessions.contains_key(session_id@) {
                assert(old(m)@.sessions[session_id@].id == session_id@);
            }
        }
    }
}

// Summaries and rollups as a whole

/// The ids linked to a summary of the chunks that satisfy `p` are theirs, and
/// those that were linked before.
proof fn lemma_members_linked(
    before: MemoryView,
    members: Seq<ChunkView>,
    p: spec_fn(ChunkView) -> bool,
    summary: Seq<char>,
)
    requires
        before.coherent(),
        members_by_age(members, before, p),
    ensures
        ({
            let was = before.members_of(summary);
            let now = linked(was, ids_of(members));
            &&& now.no_duplicates()
            &&& was.is_prefix_of(now)
            &&& forall|x: Seq<char>| #[trigger]
                now.contains(x) <==> was.contains(x) || (before.chunks.contains_key(x) && p(
                    before.chunks[x],
                ))
        }),
        members.len() == before.chunks.dom().filter(|id: Seq<char>| p(before.chunks[id])).len(),
{
    lemma_members(members, before, p);
    lemma_ids(members);
    law_linking_collects(before.members_of(summary), ids_of(members));
    assert forall|x: Seq<char>| #[trigger]
        ids_of(members).contains(x) <==> before.chunks.contains_key(x) && p(before.chunks[x]) by {
        if before.chunks.contains_key(x) && p(before.chunks[x]) {
            let i = choose|i: int|
                0 <= i < members.len() && #[trigger] members[i] == before.chunks[x];
            assert(members[i].id == x);
        }
    }
}

/// Where a chunk that satisfies `p` is listed.
proof fn lemma_place(
    members: Seq<ChunkView>,
    before: MemoryView,
    p: spec_fn(ChunkView) -> bool,
    id: Seq<char>,
) -> (i: int)
    requires
        before.coherent(),
        members_by_age(members, before, p),
        before.chunks.contains_key(id),
        p(before.chunks[id]),
    ensures
        0 <= i < members.len(),
        members[i] == before.chunks[id],
{
    lemma_members(members, before, p);
    choose|i: int| 0 <= i < members.len() && #[trigger] members[i] == before.chunks[id]
}

/// The project of the chunks that satisfy `p` is that of the earliest of them
/// that has one.
proof fn lemma_earliest_root(
    members: Seq<ChunkView>,
    before: MemoryView,
    p: spec_fn(ChunkView) -> bool,
) -> (id: Seq<char>)
    requires
        before.coherent(),
        members_by_age(members, before, p),
    ensures
        first_root(members) is None ==> forall|id: Seq<char>| #[trigger]
            before.chunks.contains_key(id) && p(before.chunks[id])
                ==> before.chunks[id].project_root is None,
        first_root(members) is Some ==> {
            let first = before.chunks[id];
            &&& before.chunks.contains_key(id)
            &&& p(first)
            &&& first.project_root == first_root(members)
            &&& forall|other: Seq<char>| #[trigger]
                before.chunks.contains_key(other) && p(before.chunks[other])
                    && before.chunks[other].project_root is Some ==> first.created_at.rank()
                    <= before.chunks[other].created_at.rank()
        },
{
    let i = lemma_root(members);
    if first_root(members) is None {
        assert forall|id: Seq<char>| #[trigger]
            before.chunks.contains_key(id) && p(
                before.chunks[id],
            ) implies before.chunks[id].project_root is None by {
            let k = lemma_place(members, before, p, id);
            assert(members[k].project_root is None);
        }
        Seq::empty()
    } else {
        let first = members[i];
        assert(before.chunks.contains_key(first.id) && before.chunks[first.id] == first && p(first))
            by {
            lemma_members(members, before, p);
        }
        assert forall|other: Seq<char>| #[trigger]
            before.chunks.contains_key(other) && p(before.chunks[other])
                && before.chunks[other].project_root is Some implies first.created_at.rank()
            <= before.chunks[other].created_at.rank() by {
            let j = lemma_place(members, before, p, other);
            assert(j >= i);
            assert(members[i].created_at.rank() <= members[j].created_at.rank()) by {
                lemma_members(members, before, p);
            }
        }
        first.id
    }
}

/// What writing a summary of the chunks that satisfy `p` comes to.
proof fn lemma_written(
    before: MemoryView,
    after: MemoryView,
    target: TargetView,
    p: spec_fn(ChunkView) -> bool,
    answer: SummaryReply,
    reply: HookReply,
    c: MemoryChunk,
)
    requires
        before.coherent(),
        summary_written(before, after, target, p, answer, reply, c),
    ensures
        answer.outcome is Ok,
        ({
            let n = before.chunks.dom().filter(|id: Seq<char>| p(before.chunks[id])).len();
            !(reply is Decided && reply->Decided_0 is Redact) ==> c@.metadata == summary_metadata(
                target,
                n,
                answer.summarizer@,
            ) && c@.content == answer.outcome->Ok_0@ && c@.importance.bits == 0x3f00_0000
                && after.chunks == before.chunks.insert(c@.id, c@)
        }),
        reply is Decided && reply->Decided_0 is Redact ==> {
            let reason = reply->Decided_0->reason@;
            &&& c@.content == "<redacted: "@ + reason + ">"@
            &&& c@.metadata == JsonView::Object(
                seq![("reason"@, JsonView::Text(reason)), ("redacted"@, JsonView::Bool(true))],
            )
            &&& c@.importance.bits == 0
            &&& after.chunks == before.chunks
        },
        c@.tier == MemoryTier::Session,
        c@.superseded_by is None,
        c@.embedding_model == "none"@,
        c@.embedding_dim == 0,
        !c@.pinned,
        !c@.shareable,
        match target {
            TargetView::Session { session_id, caller_id } => {
                &&& c@.kind == ChunkKind::JobSummary
                &&& c@.source == ChunkSource::Embedded
                &&& c@.session_id == Some(session_id)
                &&& c@.caller_id == caller_id
                &&& c@.project_root is None <==> forall|id: Seq<char>| #[trigger]
                    before.chunks.contains_key(id) && p(before.chunks[id])
                        ==> before.chunks[id].project_root is None
                &&& c@.project_root is Some ==> exists|id: Seq<char>|
                    {
                        let first = before.chunks[id];
                        &&& #[trigger] before.chunks.contains_key(id)
                        &&& p(first)
                        &&& first.project_root == c@.project_root
                        &&& forall|other: Seq<char>| #[trigger]
                            before.chunks.contains_key(other) && p(before.chunks[other])
                                && before.chunks[other].project_root is Some
                                ==> first.created_at.rank()
                                <= before.chunks[other].created_at.rank()
                    }
            },
            _ => {
                &&& c@.kind == ChunkKind::Rollup
                &&& c@.source == ChunkSource::System
                &&& c@.session_id is None
                &&& c@.project_root is None
                &&& c@.caller_id == "system"@
            },
        },
        after.members == before.members.insert(c@.id, after.members[c@.id]),
        after.members[c@.id].no_duplicates(),
        before.members.contains_key(c@.id) ==> before.members[c@.id].is_prefix_of(
            after.members[c@.id],
        ),
        forall|x: Seq<char>| #[trigger]
            after.members[c@.id].contains(x) <==> (before.members.contains_key(c@.id)
                && before.members[c@.id].contains(x)) || (before.chunks.contains_key(x) && p(
                before.chunks[x],
            )),
        after.sessions == match target {
            TargetView::Session { session_id, .. } => if before.sessions.contains_key(session_id) {
                before.sessions.insert(
                    session_id,
                    SessionView {
                        summary: Some(answer.outcome->Ok_0@),
                        ..before.sessions[session_id]
                    },
                )
            } else {
                before.sessions
            },
            _ => before.sessions,
        },
        after.evictions == before.evictions,
        after.accesses == before.accesses,
        after.write_hook == before.write_hook,
        after.summarizer == before.summarizer,
{
    let members = choose|members: Seq<ChunkView>| #[trigger]
        members_by_age(members, before, p) && summary_of(
            before,
            after,
            target,
            members,
            answer,
            reply,
            c,
        );
    lemma_members_linked(before, members, p, c@.id);
    let first = lemma_earliest_root(members, before, p);
    assert(first_root(members) is Some ==> before.chunks.contains_key(first));
    if let TargetView::Session { session_id, .. } = target {
        if before.sessions.contains_key(session_id) {
            assert(before.sessions[session_id].id == session_id);
        }
    }
}

/// A session is summarized exactly when there is a summarizer, the session is
/// there with a chunk that is no summary, the summarizer gives a text and the
/// text can be written; the error tells what is missing. The summary is of all
/// of those chunks, it links exactly them, and the session carries its text.
pub proof fn law_session_is_summarized_whole(
    m: &mut BasicMemoryProvider,
    session_id: &str,
    answer: SummaryReply,
    reply: HookReply,
    r: MemoryResult<MemoryChunk>,
)
    requires
        old(m).wf(),
        call_ensures(BasicMemoryProvider::summarize_session, (m, session_id, answer, reply), r),
    ensures
        ({
            let has_chunks = exists|id: Seq<char>| #[trigger]
                old(m)@.chunks.contains_key(id) && {
                    let c = old(m)@.chunks[id];
                    c.session_id == Some(session_id@) && c.kind != ChunkKind::JobSummary
                };
            let visible = exists|i: int|
                0 <= i < answer.outcome->Ok_0@.len() && {
                    let u = #[trigger] answer.outcome->Ok_0@[i] as u32;
                    !(0x9 <= u <= 0xd || u == 0x20 || u == 0x85 || u == 0xa0 || u == 0x1680
                        || 0x2000 <= u <= 0x200a || u == 0x2028 || u == 0x2029 || u == 0x202f
                        || u == 0x205f || u == 0x3000)
                };
            &&& r is Ok <==> old(m)@.summarizer && old(m)@.sessions.contains_key(session_id@)
                && has_chunks && answer.outcome is Ok && visible && !(reply is Failed)
            &&& r is Err ==> final(m)@ == old(m)@ && r->Err_0@ == if !old(m)@.summarizer {
                ErrorView::NotImplemented(
                    "BasicMemoryProvider::summarize_session — no summarizer attached (call `with_summarizer` first)"@,
                )
            } else if !old(m)@.sessions.contains_key(session_id@) {
                ErrorView::NotFound("session "@ + session_id@)
            } else if !has_chunks {
                ErrorView::InvalidArgument(
                    "session "@ + session_id@ + " has no chunks to summarize"@,
                )
            } else if answer.outcome is Err {
                match answer.outcome->Err_0 {
                    SummarizerError::NoInput => ErrorView::InvalidArgument(
                        "summarizer received no input"@,
                    ),
                    SummarizerError::Failed(msg) => ErrorView::Provider(
                        "summarizer "@ + answer.summarizer@ + " failed: "@ + msg@,
                    ),
                }
            } else if !visible {
                ErrorView::InvalidArgument("content must not be empty"@)
            } else {
                reply->Failed_0@
            }
        }),
        r is Ok ==> {
            let c = r->Ok_0@;
            let n = old(m)@.chunks.dom().filter(
                |id: Seq<char>|
                    {
                        let c = old(m)@.chunks[id];
                        c.session_id == Some(session_id@) && c.kind != ChunkKind::JobSummary
                    },
            ).len();
            &&& c.id.len() == 36
            &&& c.id[14] == '7'
            &&& c.created_at.secs() >= 0
            &&& 0 <= c.created_at.nanos() < 1_000_000_000
            &&& c.kind == ChunkKind::JobSummary
            &&& c.source == ChunkSource::Embedded
            &&& c.session_id == Some(session_id@)
            &&& c.caller_id == old(m)@.sessions[session_id@].caller_id
            &&& c.project_root is None <==> forall|id: Seq<char>| #[trigger]
                old(m)@.chunks.contains_key(id)
                    && old(m)@.chunks[id].session_id == Some(session_id@)
                    && old(m)@.chunks[id].kind != ChunkKind::JobSummary
                    ==> old(m)@.chunks[id].project_root is None
            &&& c.project_root is Some ==> exists|id: Seq<char>|
                {
                    let first = old(m)@.chunks[id];
                    &&& #[trigger] old(m)@.chunks.contains_key(id)
                    &&& first.session_id == Some(session_id@)
                    &&& first.kind != ChunkKind::JobSummary
                    &&& first.project_root == c.project_root
                    &&& forall|other: Seq<char>| #[trigger]
                        old(m)@.chunks.contains_key(other)
                            && old(m)@.chunks[other].session_id == Some(
                            session_id@,
                        ) && old(m)@.chunks[other].kind != ChunkKind::JobSummary
                            && old(m)@.chunks[other].project_root is Some
                            ==> first.created_at.rank() <= old(m)@.chunks[other].created_at.rank()
                }
            &&& c.tier == MemoryTier::Session
            &&& c.superseded_by is None
            &&& c.embedding_model == "none"@
            &&& c.embedding_dim == 0
            &&& !c.pinned
            &&& !c.shareable
            &&& if reply is Decided && reply->Decided_0 is Redact {
                let reason = reply->Decided_0->reason@;
                &&& c.content == "<redacted: "@ + reason + ">"@
                &&& c.metadata == JsonView::Object(
                    seq![("reason"@, JsonView::Text(reason)), ("redacted"@, JsonView::Bool(true))],
                )
                &&& c.importance.bits == 0
                &&& final(m)@.chunks == old(m)@.chunks
            } else {
                &&& c.content == answer.outcome->Ok_0@
                &&& c.metadata == JsonView::Object(
                    seq![
                        ("member_count"@, JsonView::PosInt(n as u64)),
                        ("session_id"@, JsonView::Text(session_id@)),
                        ("summarizer"@, JsonView::Text(answer.summarizer@)),
                    ],
                )
                &&& c.importance.bits == 0x3f00_0000
                &&& final(m)@.chunks == old(m)@.chunks.insert(c.id, c)
            }
        },
        r is Ok ==> {
            let summary = r->Ok_0.id@;
            let now = final(m)@.members[summary];
            let had = old(m)@.members.contains_key(summary);
            let was = old(m)@.members[summary];
            &&& final(m)@.members.contains_key(summary)
            &&& now.no_duplicates()
            &&& had ==> was.is_prefix_of(now)
            &&& forall|x: Seq<char>| #[trigger]
                now.contains(x) <==> (had && was.contains(x)) || (old(m)@.chunks.contains_key(x)
                    && {
                    let c = old(m)@.chunks[x];
                    c.session_id == Some(session_id@) && c.kind != ChunkKind::JobSummary
                })
            &&& forall|k: Seq<char>|
                k != summary ==> (#[trigger] final(m)@.members.contains_key(k)
                    <==> old(m)@.members.contains_key(k)) && final(m)@.members[k]
                    == old(m)@.members[k]
        },
        r is Ok ==> final(m)@.sessions == old(m)@.sessions.insert(
            session_id@,
            SessionView {
                summary: Some(answer.outcome->Ok_0@),
                ..old(m)@.sessions[session_id@]
            },
        ),
        final(m)@.evictions == old(m)@.evictions,
        final(m)@.accesses == old(m)@.accesses,
        final(m)@.write_hook == old(m)@.write_hook,
        final(m)@.summarizer == old(m)@.summarizer,
{
    old(m).lemma_coherent();
    let p = in_session(session_id@);
    if some_match(old(m)@.chunks, p) {
        let id = choose|id: Seq<char>| #[trigger]
            old(m)@.chunks.contains_key(id) && p(old(m)@.chunks[id]);
        assert(old(m)@.chunks.contains_key(id));
    }
    if r is Ok {
        let target = TargetView::Session {
            session_id: session_id@,
            caller_id: old(m)@.sessions[session_id@].caller_id,
        };
        lemma_written(old(m)@, final(m)@, target, p, answer, reply, r->Ok_0);
        assert(old(m)@.chunks.dom().filter(|id: Seq<char>| p(old(m)@.chunks[id]))
            =~= old(m)@.chunks.dom().filter(
            |id: Seq<char>|
                {
                    let c = old(m)@.chunks[id];
                    c.session_id == Some(session_id@) && c.kind != ChunkKind::JobSummary
                },
        ));
    }
}

/// A day is rolled up when it has a chunk that is no rollup, and has no rollup
/// or another is forced; else nothing happens. The rollup is of all of those
/// chunks, it links exactly them, and it changes nothing else.
pub proof fn law_day_is_rolled_up_whole_labelled(
    m: &mut BasicMemoryProvider,
    date: Date,
    label: &str,
    force: bool,
    answer: SummaryReply,
    reply: HookReply,
    r: MemoryResult<Vec<MemoryChunk>>,
)
    requires
        old(m).wf(),
        call_ensures(BasicMemoryProvider::rollup_day_labelled, (m, &date, label, force, answer, reply), r),
    ensures
        ({
            let has_chunks = exists|id: Seq<char>| #[trigger]
                old(m)@.chunks.contains_key(id) && {
                    let c = old(m)@.chunks[id];
                    (date.day() - 719_163) * 86_400 <= c.created_at.secs() && c.created_at.secs()
                        < (date.day() - 719_162) * 86_400 && c.kind != ChunkKind::Rollup
                };
            let has_rollup = exists|id: Seq<char>| #[trigger]
                old(m)@.chunks.contains_key(id) && old(m)@.chunks[id].kind == ChunkKind::Rollup
                    && text_at(old(m)@.chunks[id].metadata, "rollup_date"@) == Some(label@);
            let due = has_chunks && (force || !has_rollup);
            let visible = exists|i: int|
                0 <= i < answer.outcome->Ok_0@.len() && {
                    let u = #[trigger] answer.outcome->Ok_0@[i] as u32;
                    !(0x9 <= u <= 0xd || u == 0x20 || u == 0x85 || u == 0xa0 || u == 0x1680
                        || 0x2000 <= u <= 0x200a || u == 0x2028 || u == 0x2029 || u == 0x202f
                        || u == 0x205f || u == 0x3000)
                };
            &&& r is Ok <==> old(m)@.summarizer && (due ==> answer.outcome is Ok && visible && !(
            reply is Failed))
            &&& r is Ok ==> r->Ok_0@.len() == if due {
                1nat
            } else {
                0nat
            }
            &&& r is Ok && !due ==> final(m)@ == old(m)@
            &&& r is Err ==> final(m)@ == old(m)@ && r->Err_0@ == if !old(m)@.summarizer {
                ErrorView::NotImplemented(
                    "BasicMemoryProvider::rollup_day — no summarizer attached (call `with_summarizer` first)"@,
                )
            } else if answer.outcome is Err {
                match answer.outcome->Err_0 {
                    SummarizerError::NoInput => ErrorView::InvalidArgument(
                        "summarizer received no input"@,
                    ),
                    SummarizerError::Failed(msg) => ErrorView::Provider(
                        "summarizer "@ + answer.summarizer@ + " failed: "@ + msg@,
                    ),
                }
            } else if !visible {
                ErrorView::InvalidArgument("content must not be empty"@)
            } else {
                reply->Failed_0@
            }
        }),
        r is Ok && r->Ok_0@.len() > 0 ==> {
            let c = r->Ok_0@[0]@;
            let n = old(m)@.chunks.dom().filter(
                |id: Seq<char>|
                    {
                        let c = old(m)@.chunks[id];
                        (date.day() - 719_163) * 86_400 <= c.created_at.secs()
                            && c.created_at.secs()
                            < (date.day() - 719_162) * 86_400 && c.kind != ChunkKind::Rollup
                    },
            ).len();
            &&& c.id.len() == 36
            &&& c.id[14] == '7'
            &&& c.created_at.secs() >= 0
            &&& 0 <= c.created_at.nanos() < 1_000_000_000
            &&& c.kind == ChunkKind::Rollup
            &&& c.source == ChunkSource::System
            &&& c.session_id is None
            &&& c.project_root is None
            &&& c.caller_id == "system"@
            &&& c.tier == MemoryTier::Session
            &&& c.superseded_by is None
            &&& c.embedding_model == "none"@
            &&& c.embedding_dim == 0
            &&& !c.pinned
            &&& !c.shareable
            &&& if reply is Decided && reply->Decided_0 is Redact {
                let reason = reply->Decided_0->reason@;
                &&& c.content == "<redacted: "@ + reason + ">"@
                &&& c.metadata == JsonView::Object(
                    seq![("reason"@, JsonView::Text(reason)), ("redacted"@, JsonView::Bool(true))],
                )
                &&& c.importance.bits == 0
                &&& final(m)@.chunks == old(m)@.chunks
            } else {
                &&& c.content == answer.outcome->Ok_0@
                &&& c.metadata == JsonView::Object(
                    seq![
                        ("member_count"@, JsonView::PosInt(n as u64)),
                        ("rollup_date"@, JsonView::Text(label@)),
                        ("rollup_kind"@, JsonView::Text("day"@)),
                        ("summarizer"@, JsonView::Text(answer.summarizer@)),
                    ],
                )
                &&& c.importance.bits == 0x3f00_0000
                &&& final(m)@.chunks == old(m)@.chunks.insert(c.id, c)
            }
        },
        r is Ok && r->Ok_0@.len() > 0 ==> {
            let summary = r->Ok_0@[0].id@;
            let now = final(m)@.members[summary];
            let had = old(m)@.members.contains_key(summary);
            let was = old(m)@.members[summary];
            &&& final(m)@.members.contains_key(summary)
            &&& now.no_duplicates()
            &&& had ==> was.is_prefix_of(now)
            &&& forall|x: Seq<char>| #[trigger]
                now.contains(x) <==> (had && was.contains(x)) || (old(m)@.chunks.contains_key(x)
                    && {
                    let c = old(m)@.chunks[x];
                    (date.day() - 719_163) * 86_400 <= c.created_at.secs() && c.created_at.secs()
                        < (date.day() - 719_162) * 86_400 && c.kind != ChunkKind::Rollup
                })
            &&& forall|k: Seq<char>|
                k != summary ==> (#[trigger] final(m)@.members.contains_key(k)
                    <==> old(m)@.members.contains_key(k)) && final(m)@.members[k]
                    == old(m)@.members[k]
        },
        final(m)@.sessions == old(m)@.sessions,
        final(m)@.evictions == old(m)@.evictions,
        final(m)@.accesses == old(m)@.accesses,
        final(m)@.write_hook == old(m)@.write_hook,
        final(m)@.summarizer == old(m)@.summarizer,
{
    old(m).lemma_coherent();
    let p = on_day(date.day());
    if some_match(old(m)@.chunks, p) {
        let id = choose|id: Seq<char>| #[trigger]
            old(m)@.chunks.contains_key(id) && p(old(m)@.chunks[id]);
        assert(old(m)@.chunks.contains_key(id));
    }
    let q = day_rollup(label@);
    if some_match(old(m)@.chunks, q) {
        let id = choose|id: Seq<char>| #[trigger]
            old(m)@.chunks.contains_key(id) && q(old(m)@.chunks[id]);
        assert(old(m)@.chunks.contains_key(id));
    }
    if r is Ok && r->Ok_0@.len() > 0 {
        let target = TargetView::Day { date: label@ };
        lemma_written(old(m)@, final(m)@, target, p, answer, reply, r->Ok_0@[0]);
        assert(old(m)@.chunks.dom().filter(|id: Seq<char>| p(old(m)@.chunks[id]))
            =~= old(m)@.chunks.dom().filter(
            |id: Seq<char>|
                {
                    let c = old(m)@.chunks[id];
                    (date.day() - 719_163) * 86_400 <= c.created_at.secs() && c.created_at.secs()
                        < (date.day() - 719_162) * 86_400 && c.kind != ChunkKind::Rollup
                },
        ));
    }
}

/// The same of a day by its date, where none is forced.
pub proof fn law_day_is_rolled_up_whole(
    m: &mut BasicMemoryProvider,
    date: Date,
    answer: SummaryReply,
    reply: HookReply,
    r: MemoryResult<Vec<MemoryChunk>>,
)
    requires
        old(m).wf(),
        call_ensures(BasicMemoryProvider::rollup_day, (m, &date, answer, reply), r),
    ensures
        ({
            let has_chunks = exists|id: Seq<char>| #[trigger]
                old(m)@.chunks.contains_key(id) && {
                    let c = old(m)@.chunks[id];
                    (date.day() - 719_163) * 86_400 <= c.created_at.secs() && c.created_at.secs()
                        < (date.day() - 719_162) * 86_400 && c.kind != ChunkKind::Rollup
                };
            let has_rollup = exists|id: Seq<char>| #[trigger]
                old(m)@.chunks.contains_key(id) && old(m)@.chunks[id].kind == ChunkKind::Rollup
                    && text_at(old(m)@.chunks[id].metadata, "rollup_date"@) == Some(date.text());
            let due = has_chunks && !has_rollup;
            let visible = exists|i: int|
                0 <= i < answer.outcome->Ok_0@.len() && {
                    let u = #[trigger] answer.outcome->Ok_0@[i] as u32;
                    !(0x9 <= u <= 0xd || u == 0x20 || u == 0x85 || u == 0xa0 || u == 0x1680
                        || 0x2000 <= u <= 0x200a || u == 0x2028 || u == 0x2029 || u == 0x202f
                        || u == 0x205f || u == 0x3000)
                };
            &&& r is Ok <==> old(m)@.summarizer && (due ==> answer.outcome is Ok && visible && !(
            reply is Failed))
            &&& r is Ok ==> r->Ok_0@.len() == if due {
                1nat
            } else {
                0nat
            }
            &&& r is Ok && !due ==> final(m)@ == old(m)@
            &&& r is Err ==> final(m)@ == old(m)@ && r->Err_0@ == if !old(m)@.summarizer {
                ErrorView::NotImplemented(
                    "BasicMemoryProvider::rollup_day — no summarizer attached (call `with_summarizer` first)"@,
                )
            } else if answer.outcome is Err {
                match answer.outcome->Err_0 {
                    SummarizerError::NoInput => ErrorView::InvalidArgument(
                        "summarizer received no input"@,
                    ),
                    SummarizerError::Failed(msg) => ErrorView::Provider(
                        "summarizer "@ + answer.summarizer@ + " failed: "@ + msg@,
                    ),
                }
            } else if !visible {
                ErrorView::InvalidArgument("content must not be empty"@)
            } else {
                reply->Failed_0@
            }
        }),
        r is Ok && r->Ok_0@.len() > 0 ==> {
            let c = r->Ok_0@[0]@;
            let n = old(m)@.chunks.dom().filter(
                |id: Seq<char>|
                    {
                        let c = old(m)@.chunks[id];
                        (date.day() - 719_163) * 86_400 <= c.created_at.secs()
                            && c.created_at.secs()
                            < (date.day() - 719_162) * 86_400 && c.kind != ChunkKind::Rollup
                    },
            ).len();
            &&& c.id.len() == 36
            &&& c.id[14] == '7'
            &&& c.created_at.secs() >= 0
            &&& 0 <= c.created_at.nanos() < 1_000_000_000
            &&& c.kind == ChunkKind::Rollup
            &&& c.source == ChunkSource::System
            &&& c.session_id is None
            &&& c.project_root is None
            &&& c.caller_id == "system"@
            &&& c.tier == MemoryTier::Session
            &&& c.superseded_by is None
            &&& c.embedding_model == "none"@
            &&& c.embedding_dim == 0
            &&& !c.pinned
            &&& !c.shareable
            &&& if reply is Decided && reply->Decided_0 is Redact {
                let reason = reply->Decided_0->reason@;
                &&& c.content == "<redacted: "@ + reason + ">"@
                &&& c.metadata == JsonView::Object(
                    seq![("reason"@, JsonView::Text(reason)), ("redacted"@, JsonView::Bool(true))],
                )
                &&& c.importance.bits == 0
                &&& final(m)@.chunks == old(m)@.chunks
            } else {
                &&& c.content == answer.outcome->Ok_0@
                &&& c.metadata == JsonView::Object(
                    seq![
                        ("member_count"@, JsonView::PosInt(n as u64)),
                        ("rollup_date"@, JsonView::Text(date.text())),
                        ("rollup_kind"@, JsonView::Text("day"@)),
                        ("summarizer"@, JsonView::Text(answer.summarizer@)),
                    ],
                )
                &&& c.importance.bits == 0x3f00_0000
                &&& final(m)@.chunks == old(m)@.chunks.insert(c.id, c)
            }
        },
        r is Ok && r->Ok_0@.len() > 0 ==> {
            let summary = r->Ok_0@[0].id@;
            let now = final(m)@.members[summary];
            let had = old(m)@.members.contains_key(summary);
            let was = old(m)@.members[summary];
            &&& final(m)@.members.contains_key(summary)
            &&& now.no_duplicates()
            &&& had ==> was.is_prefix_of(now)
            &&& forall|x: Seq<char>| #[trigger]
                now.contains(x) <==> (had && was.contains(x)) || (old(m)@.chunks.contains_key(x)
                    && {
                    let c = old(m)@.chunks[x];
                    (date.day() - 719_163) * 86_400 <= c.created_at.secs() && c.created_at.secs()
                        < (date.day() - 719_162) * 86_400 && c.kind != ChunkKind::Rollup
                })
            &&& forall|k: Seq<char>|
                k != summary ==> (#[trigger] final(m)@.members.contains_key(k)
                    <==> old(m)@.members.contains_key(k)) && final(m)@.members[k]
                    == old(m)@.members[k]
        },
        final(m)@.sessions == old(m)@.sessions,
        final(m)@.evictions == old(m)@.evictions,
        final(m)@.accesses == old(m)@.accesses,
        final(m)@.write_hook == old(m)@.write_hook,
        final(m)@.summarizer == old(m)@.summarizer,
{
    old(m).lemma_coherent();
    let p = on_day(date.day());
    if some_match(old(m)@.chunks, p) {
        let id = choose|id: Seq<char>| #[trigger]
            old(m)@.chunks.contains_key(id) && p(old(m)@.chunks[id]);
        assert(old(m)@.chunks.contains_key(id));
    }
    let q = day_rollup(date.text());
    if some_match(old(m)@.chunks, q) {
        let id = choose|id: Seq<char>| #[trigger]
            old(m)@.chunks.contains_key(id) && q(old(m)@.chunks[id]);
        assert(old(m)@.chunks.contains_key(id));
    }
    if r is Ok && r->Ok_0@.len() > 0 {
        let target = TargetView::Day { date: date.text() };
        lemma_written(old(m)@, final(m)@, target, p, answer, reply, r->Ok_0@[0]);
        assert(old(m)@.chunks.dom().filter(|id: Seq<char>| p(old(m)@.chunks[id]))
            =~= old(m)@.chunks.dom().filter(
            |id: Seq<char>|
                {
                    let c = old(m)@.chunks[id];
                    (date.day() - 719_163) * 86_400 <= c.created_at.secs() && c.created_at.secs()
                        < (date.day() - 719_162) * 86_400 && c.kind != ChunkKind::Rollup
                },
        ));
    }
}

/// The same of a day by its date, where a rollup is forced.
pub proof fn law_day_is_rolled_up_whole_forced(
    m: &mut BasicMemoryProvider,
    date: Date,
    answer: SummaryReply,
    reply: HookReply,
    r: MemoryResult<Vec<MemoryChunk>>,
)
    requires
        old(m).wf(),
        call_ensures(BasicMemoryProvider::rollup_day_forced, (m, &date, answer, reply), r),
    ensures
        ({
            let has_chunks = exists|id: Seq<char>| #[trigger]
                old(m)@.chunks.contains_key(id) && {
                    let c = old(m)@.chunks[id];
                    (date.day() - 719_163) * 86_400 <= c.created_at.secs() && c.created_at.secs()
                        < (date.day() - 719_162) * 86_400 && c.kind != ChunkKind::Rollup
                };
            let due = has_chunks;
            let visible = exists|i: int|
                0 <= i < answer.outcome->Ok_0@.len() && {
                    let u = #[trigger] answer.outcome->Ok_0@[i] as u32;
                    !(0x9 <= u <= 0xd || u == 0x20 || u == 0x85 || u == 0xa0 || u == 0x1680
                        || 0x2000 <= u <= 0x200a || u == 0x2028 || u == 0x2029 || u == 0x202f
                        || u == 0x205f || u == 0x3000)
                };
            &&& r is Ok <==> old(m)@.summarizer && (due ==> answer.outcome is Ok && visible && !(
            reply is Failed))
            &&& r is Ok ==> r->Ok_0@.len() == if due {
                1nat
            } else {
                0nat
            }
            &&& r is Ok && !due ==> final(m)@ == old(m)@
            &&& r is Err ==> final(m)@ == old(m)@ && r->Err_0@ == if !old(m)@.summarizer {
                ErrorView::NotImplemented(
                    "BasicMemoryProvider::rollup_day — no summarizer attached (call `with_summarizer` first)"@,
                )
            } else if answer.outcome is Err {
                match answer.outcome->Err_0 {
                    SummarizerError::NoInput => ErrorView::InvalidArgument(
                        "summarizer received no input"@,
                    ),
                    SummarizerError::Failed(msg) => ErrorView::Provider(
                        "summarizer "@ + answer.summarizer@ + " failed: "@ + msg@,
                    ),
                }
            } else if !visible {
                ErrorView::InvalidArgument("content must not be empty"@)
            } else {
                reply->Failed_0@
            }
        }),
        r is Ok && r->Ok_0@.len() > 0 ==> {
            let c = r->Ok_0@[0]@;
            let n = old(m)@.chunks.dom().filter(
                |id: Seq<char>|
                    {
                        let c = old(m)@.chunks[id];
                        (date.day() - 719_163) * 86_400 <= c.created_at.secs()
                            && c.created_at.secs()
                            < (date.day() - 719_162) * 86_400 && c.kind != ChunkKind::Rollup
                    },
            ).len();
            &&& c.id.len() == 36
            &&& c.id[14] == '7'
            &&& c.created_at.secs() >= 0
            &&& 0 <= c.created_at.nanos() < 1_000_000_000
            &&& c.kind == ChunkKind::Rollup
            &&& c.source == ChunkSource::System
            &&& c.session_id is None
            &&& c.project_root is None
            &&& c.caller_id == "system"@
            &&& c.tier == MemoryTier::Session
            &&& c.superseded_by is None
            &&& c.embedding_model == "none"@
            &&& c.embedding_dim == 0
            &&& !c.pinned
            &&& !c.shareable
            &&& if reply is Decided && reply->Decided_0 is Redact {
                let reason = reply->Decided_0->reason@;
                &&& c.content == "<redacted: "@ + reason + ">"@
                &&& c.metadata == JsonView::Object(
                    seq![("reason"@, JsonView::Text(reason)), ("redacted"@, JsonView::Bool(true))],
                )
                &&& c.importance.bits == 0
                &&& final(m)@.chunks == old(m)@.chunks
            } else {
                &&& c.content == answer.outcome->Ok_0@
                &&& c.metadata == JsonView::Object(
                    seq![
                        ("member_count"@, JsonView::PosInt(n as u64)),
                        ("rollup_date"@, JsonView::Text(date.text())),
                        ("rollup_kind"@, JsonView::Text("day"@)),
                        ("summarizer"@, JsonView::Text(answer.summarizer@)),
                    ],
                )
                &&& c.importance.bits == 0x3f00_0000
                &&& final(m)@.chunks == old(m)@.chunks.insert(c.id, c)
            }
        },
        r is Ok && r->Ok_0@.len() > 0 ==> {
            let summary = r->Ok_0@[0].id@;
            let now = final(m)@.members[summary];
            let had = old(m)@.members.contains_key(summary);
            let was = old(m)@.members[summary];
            &&& final(m)@.members.contains_key(summary)
            &&& now.no_duplicates()
            &&& had ==> was.is_prefix_of(now)
            &&& forall|x: Seq<char>| #[trigger]
                now.contains(x) <==> (had && was.contains(x)) || (old(m)@.chunks.contains_key(x)
                    && {
                    let c = old(m)@.chunks[x];
                    (date.day() - 719_163) * 86_400 <= c.created_at.secs() && c.created_at.secs()
                        < (date.day() - 719_162) * 86_400 && c.kind != ChunkKind::Rollup
                })
            &&& forall|k: Seq<char>|
                k != summary ==> (#[trigger] final(m)@.members.contains_key(k)
                    <==> old(m)@.members.contains_key(k)) && final(m)@.members[k]
                    == old(m)@.members[k]
        },
        final(m)@.sessions == old(m)@.sessions,
        final(m)@.evictions == old(m)@.evictions,
        final(m)@.accesses == old(m)@.accesses,
        final(m)@.write_hook == old(m)@.write_hook,
        final(m)@.summarizer == old(m)@.summarizer,
{
    old(m).lemma_coherent();
    let p = on_day(date.day());
    if some_match(old(m)@.chunks, p) {
        let id = choose|id: Seq<char>| #[trigger]
            old(m)@.chunks.contains_key(id) && p(old(m)@.chunks[id]);
        assert(old(m)@.chunks.contains_key(id));
    }
    let q = day_rollup(date.text());
    if some_match(old(m)@.chunks, q) {
        let id = choose|id: Seq<char>| #[trigger]
            old(m)@.chunks.contains_key(id) && q(old(m)@.chunks[id]);
        assert(old(m)@.chunks.contains_key(id));
    }
    if r is Ok && r->Ok_0@.len() > 0 {
        let target = TargetView::Day { date: date.text() };
        lemma_written(old(m)@, final(m)@, target, p, answer, reply, r->Ok_0@[0]);
        assert(old(m)@.chunks.dom().filter(|id: Seq<char>| p(old(m)@.chunks[id]))
            =~= old(m)@.chunks.dom().filter(
            |id: Seq<char>|
                {
                    let c = old(m)@.chunks[id];
                    (date.day() - 719_163) * 86_400 <= c.created_at.secs() && c.created_at.secs()
                        < (date.day() - 719_162) * 86_400 && c.kind != ChunkKind::Rollup
                },
        ));
    }
}

/// A rule's week is rolled up exactly when there is a summarizer, there is no
/// rollup of this rule and this week or another is forced, the week ends before
/// the calendar does, the rule fired in it, the summarizer gives a text and the
/// text can be written; the error tells which of these fails. The rollup is of
/// all of those fires, it links exactly them, and it changes nothing else.
pub proof fn law_rule_week_is_rolled_up_whole_labelled(
    m: &mut BasicMemoryProvider,
    rule_id: &str,
    week_start: Date,
    label: &str,
    force: bool,
    answer: SummaryReply,
    reply: HookReply,
    r: MemoryResult<MemoryChunk>,
)
    requires
        old(m).wf(),
        call_ensures(
            BasicMemoryProvider::rollup_rule_week_labelled,
            (m, rule_id, &week_start, label, force, answer, reply),
            r,
        ),
    ensures
        ({
            let has_fires = exists|id: Seq<char>| #[trigger]
                old(m)@.chunks.contains_key(id) && {
                    let c = old(m)@.chunks[id];
                    c.kind == ChunkKind::Fire
                        && (week_start.day() - 719_163) * 86_400 <= c.created_at.secs()
                        && c.created_at.secs() < (week_start.day() - 719_156) * 86_400
                            && text_at(c.metadata, "rule_id"@)
                        == Some(rule_id@)
                };
            let has_rollup = exists|id: Seq<char>|
                {
                    &&& #[trigger] old(m)@.chunks.contains_key(id)
                    &&& old(m)@.chunks[id].kind == ChunkKind::Rollup
                    &&& text_at(old(m)@.chunks[id].metadata, "rollup_rule_id"@) == Some(rule_id@)
                    &&& text_at(old(m)@.chunks[id].metadata, "rollup_week_start"@) == Some(label@)
                };
            let visible = exists|i: int|
                0 <= i < answer.outcome->Ok_0@.len() && {
                    let u = #[trigger] answer.outcome->Ok_0@[i] as u32;
                    !(0x9 <= u <= 0xd || u == 0x20 || u == 0x85 || u == 0xa0 || u == 0x1680
                        || 0x2000 <= u <= 0x200a || u == 0x2028 || u == 0x2029 || u == 0x202f
                        || u == 0x205f || u == 0x3000)
                };
            &&& r is Ok <==> old(m)@.summarizer && !(!force && has_rollup)
                && week_start.day() + 7 <= 95_745_399
                && has_fires && answer.outcome is Ok && visible && !(reply is Failed)
            &&& r is Err ==> final(m)@ == old(m)@ && r->Err_0@ == if !old(m)@.summarizer {
                ErrorView::NotImplemented(
                    "BasicMemoryProvider::rollup_rule_week — no summarizer attached (call `with_summarizer` first)"@,
                )
            } else if !force && has_rollup {
                ErrorView::InvalidArgument(
                    "rollup already exists for rule "@ + rule_id@ + " week "@ + label@,
                )
            } else if week_start.day() + 7 > 95_745_399 {
                ErrorView::InvalidArgument("week overflow: "@ + label@)
            } else if !has_fires {
                ErrorView::NotFound("no fires for rule "@ + rule_id@ + " in week of "@ + label@)
            } else if answer.outcome is Err {
                match answer.outcome->Err_0 {
                    SummarizerError::NoInput => ErrorView::InvalidArgument(
                        "summarizer received no input"@,
                    ),
                    SummarizerError::Failed(msg) => ErrorView::Provider(
                        "summarizer "@ + answer.summarizer@ + " failed: "@ + msg@,
                    ),
                }
            } else if !visible {
                ErrorView::InvalidArgument("content must not be empty"@)
            } else {
                reply->Failed_0@
            }
        }),
        r is Ok ==> {
            let c = r->Ok_0@;
            let n = old(m)@.chunks.dom().filter(
                |id: Seq<char>|
                    {
                        let c = old(m)@.chunks[id];
                        c.kind == ChunkKind::Fire
                            && (week_start.day() - 719_163) * 86_400 <= c.created_at.secs()
                            && c.created_at.secs() < (week_start.day() - 719_156) * 86_400
                                && text_at(c.metadata, "rule_id"@)
                            == Some(rule_id@)
                    },
            ).len();
            &&& c.id.len() == 36
            &&& c.id[14] == '7'
            &&& c.created_at.secs() >= 0
            &&& 0 <= c.created_at.nanos() < 1_000_000_000
            &&& c.kind == ChunkKind::Rollup
            &&& c.source == ChunkSource::System
            &&& c.session_id is None
            &&& c.project_root is None
            &&& c.caller_id == "system"@
            &&& c.tier == MemoryTier::Session
            &&& c.superseded_by is None
            &&& c.embedding_model == "none"@
            &&& c.embedding_dim == 0
            &&& !c.pinned
            &&& !c.shareable
            &&& if reply is Decided && reply->Decided_0 is Redact {
                let reason = reply->Decided_0->reason@;
                &&& c.content == "<redacted: "@ + reason + ">"@
                &&& c.metadata == JsonView::Object(
                    seq![("reason"@, JsonView::Text(reason)), ("redacted"@, JsonView::Bool(true))],
                )
                &&& c.importance.bits == 0
                &&& final(m)@.chunks == old(m)@.chunks
            } else {
                &&& c.content == answer.outcome->Ok_0@
                &&& c.metadata == JsonView::Object(
                    seq![
                        ("member_count"@, JsonView::PosInt(n as u64)),
                        ("rollup_kind"@, JsonView::Text("rule_week"@)),
                        ("rollup_rule_id"@, JsonView::Text(rule_id@)),
                        ("rollup_week_start"@, JsonView::Text(label@)),
                        ("summarizer"@, JsonView::Text(answer.summarizer@)),
                    ],
                )
                &&& c.importance.bits == 0x3f00_0000
                &&& final(m)@.chunks == old(m)@.chunks.insert(c.id, c)
            }
        },
        r is Ok ==> {
            let summary = r->Ok_0.id@;
            let now = final(m)@.members[summary];
            let had = old(m)@.members.contains_key(summary);
            let was = old(m)@.members[summary];
            &&& final(m)@.members.contains_key(summary)
            &&& now.no_duplicates()
            &&& had ==> was.is_prefix_of(now)
            &&& forall|x: Seq<char>| #[trigger]
                now.contains(x) <==> (had && was.contains(x)) || (old(m)@.chunks.contains_key(x)
                    && {
                    let c = old(m)@.chunks[x];
                    c.kind == ChunkKind::Fire
                        && (week_start.day() - 719_163) * 86_400 <= c.created_at.secs()
                        && c.created_at.secs() < (week_start.day() - 719_156) * 86_400
                            && text_at(c.metadata, "rule_id"@)
                        == Some(rule_id@)
                })
            &&& forall|k: Seq<char>|
                k != summary ==> (#[trigger] final(m)@.members.contains_key(k)
                    <==> old(m)@.members.contains_key(k)) && final(m)@.members[k]
                    == old(m)@.members[k]
        },
        final(m)@.sessions == old(m)@.sessions,
        final(m)@.evictions == old(m)@.evictions,
        final(m)@.accesses == old(m)@.accesses,
        final(m)@.write_hook == old(m)@.write_hook,
        final(m)@.summarizer == old(m)@.summarizer,
{
    old(m).lemma_coherent();
    let p = fired_in_week(rule_id@, week_start.day());
    if some_match(old(m)@.chunks, p) {
        let id = choose|id: Seq<char>| #[trigger]
            old(m)@.chunks.contains_key(id) && p(old(m)@.chunks[id]);
        assert(old(m)@.chunks.contains_key(id));
    }
    let q = rule_week_rollup(rule_id@, label@);
    if some_match(old(m)@.chunks, q) {
        let id = choose|id: Seq<char>| #[trigger]
            old(m)@.chunks.contains_key(id) && q(old(m)@.chunks[id]);
        assert(old(m)@.chunks.contains_key(id));
    }
    if r is Ok {
        let target = TargetView::RuleWeek { rule_id: rule_id@, week_start: label@ };
        lemma_written(old(m)@, final(m)@, target, p, answer, reply, r->Ok_0);
        assert(old(m)@.chunks.dom().filter(|id: Seq<char>| p(old(m)@.chunks[id]))
            =~= old(m)@.chunks.dom().filter(
            |id: Seq<char>|
                {
                    let c = old(m)@.chunks[id];
                    c.kind == ChunkKind::Fire
                        && (week_start.day() - 719_163) * 86_400 <= c.created_at.secs()
                        && c.created_at.secs() < (week_start.day() - 719_156) * 86_400
                            && text_at(c.metadata, "rule_id"@)
                        == Some(rule_id@)
                },
        ));
    }
}

/// The same of a week by its first day, where none is forced.
pub proof fn law_rule_week_is_rolled_up_whole(
    m: &mut BasicMemoryProvider,
    rule_id: &str,
    week_start: Date,
    answer: SummaryReply,
    reply: HookReply,
    r: MemoryResult<MemoryChunk>,
)
    requires
        old(m).wf(),
        call_ensures(
            BasicMemoryProvider::rollup_rule_week,
            (m, rule_id, &week_start, answer, reply),
            r,
        ),
    ensures
        ({
            let has_fires = exists|id: Seq<char>| #[trigger]
                old(m)@.chunks.contains_key(id) && {
                    let c = old(m)@.chunks[id];
                    c.kind == ChunkKind::Fire
                        && (week_start.day() - 719_163) * 86_400 <= c.created_at.secs()
                        && c.created_at.secs() < (week_start.day() - 719_156) * 86_400
                            && text_at(c.metadata, "rule_id"@)
                        == Some(rule_id@)
                };
            let has_rollup = exists|id: Seq<char>|
                {
                    &&& #[trigger] old(m)@.chunks.contains_key(id)
                    &&& old(m)@.chunks[id].kind == ChunkKind::Rollup
                    &&& text_at(old(m)@.chunks[id].metadata, "rollup_rule_id"@) == Some(rule_id@)
                    &&& text_at(old(m)@.chunks[id].metadata, "rollup_week_start"@)
                        == Some(week_start.text())
                };
            let visible = exists|i: int|
                0 <= i < answer.outcome->Ok_0@.len() && {
                    let u = #[trigger] answer.outcome->Ok_0@[i] as u32;
                    !(0x9 <= u <= 0xd || u == 0x20 || u == 0x85 || u == 0xa0 || u == 0x1680
                        || 0x2000 <= u <= 0x200a || u == 0x2028 || u == 0x2029 || u == 0x202f
                        || u == 0x205f || u == 0x3000)
                };
            &&& r is Ok <==> old(m)@.summarizer && !has_rollup && week_start.day() + 7 <= 95_745_399
                && has_fires && answer.outcome is Ok && visible && !(reply is Failed)
            &&& r is Err ==> final(m)@ == old(m)@ && r->Err_0@ == if !old(m)@.summarizer {
                ErrorView::NotImplemented(
                    "BasicMemoryProvider::rollup_rule_week — no summarizer attached (call `with_summarizer` first)"@,
                )
            } else if has_rollup {
                ErrorView::InvalidArgument(
                    "rollup already exists for rule "@ + rule_id@ + " week "@ + week_start.text(),
                )
            } else if week_start.day() + 7 > 95_745_399 {
                ErrorView::InvalidArgument("week overflow: "@ + week_start.text())
            } else if !has_fires {
                ErrorView::NotFound("no fires for rule "@ + rule_id@ + " in week of "@ + week_start.text())
            } else if answer.outcome is Err {
                match answer.outcome->Err_0 {
                    SummarizerError::NoInput => ErrorView::InvalidArgument(
                        "summarizer received no input"@,
                    ),
                    SummarizerError::Failed(msg) => ErrorView::Provider(
                        "summarizer "@ + answer.summarizer@ + " failed: "@ + msg@,
                    ),
                }
            } else if !visible {
                ErrorView::InvalidArgument("content must not be empty"@)
            } else {
                reply->Failed_0@
            }
        }),
        r is Ok ==> {
            let c = r->Ok_0@;
            let n = old(m)@.chunks.dom().filter(
                |id: Seq<char>|
                    {
                        let c = old(m)@.chunks[id];
                        c.kind == ChunkKind::Fire
                            && (week_start.day() - 719_163) * 86_400 <= c.created_at.secs()
                            && c.created_at.secs() < (week_start.day() - 719_156) * 86_400
                                && text_at(c.metadata, "rule_id"@)
                            == Some(rule_id@)
                    },
            ).len();
            &&& c.id.len() == 36
            &&& c.id[14] == '7'
            &&& c.created_at.secs() >= 0
            &&& 0 <= c.created_at.nanos() < 1_000_000_000
            &&& c.kind == ChunkKind::Rollup
            &&& c.source == ChunkSource::System
            &&& c.session_id is None
            &&& c.project_root is None
            &&& c.caller_id == "system"@
            &&& c.tier == MemoryTier::Session
            &&& c.superseded_by is None
            &&& c.embedding_model == "none"@
            &&& c.embedding_dim == 0
            &&& !c.pinned
            &&& !c.shareable
            &&& if reply is Decided && reply->Decided_0 is Redact {
                let reason = reply->Decided_0->reason@;
                &&& c.content == "<redacted: "@ + reason + ">"@
                &&& c.metadata == JsonView::Object(
                    seq![("reason"@, JsonView::Text(reason)), ("redacted"@, JsonView::Bool(true))],
                )
                &&& c.importance.bits == 0
                &&& final(m)@.chunks == old(m)@.chunks
            } else {
                &&& c.content == answer.outcome->Ok_0@
                &&& c.metadata == JsonView::Object(
                    seq![
                        ("member_count"@, JsonView::PosInt(n as u64)),
                        ("rollup_kind"@, JsonView::Text("rule_week"@)),
                        ("rollup_rule_id"@, JsonView::Text(rule_id@)),
                        ("rollup_week_start"@, JsonView::Text(week_start.text())),
                        ("summarizer"@, JsonView::Text(answer.summarizer@)),
                    ],
                )
                &&& c.importance.bits == 0x3f00_0000
                &&& final(m)@.chunks == old(m)@.chunks.insert(c.id, c)
            }
        },
        r is Ok ==> {
            let summary = r->Ok_0.id@;
            let now = final(m)@.members[summary];
            let had = old(m)@.members.contains_key(summary);
            let was = old(m)@.members[summary];
            &&& final(m)@.members.contains_key(summary)
            &&& now.no_duplicates()
            &&& had ==> was.is_prefix_of(now)
            &&& forall|x: Seq<char>| #[trigger]
                now.contains(x) <==> (had && was.contains(x)) || (old(m)@.chunks.contains_key(x)
                    && {
                    let c = old(m)@.chunks[x];
                    c.kind == ChunkKind::Fire
                        && (week_start.day() - 719_163) * 86_400 <= c.created_at.secs()
                        && c.created_at.secs() < (week_start.day() - 719_156) * 86_400
                            && text_at(c.metadata, "rule_id"@)
                        == Some(rule_id@)
                })
            &&& forall|k: Seq<char>|
                k != summary ==> (#[trigger] final(m)@.members.contains_key(k)
                    <==> old(m)@.members.contains_key(k)) && final(m)@.members[k]
                    == old(m)@.members[k]
        },
        final(m)@.sessions == old(m)@.sessions,
        final(m)@.evictions == old(m)@.evictions,
        final(m)@.accesses == old(m)@.accesses,
        final(m)@.write_hook == old(m)@.write_hook,
        final(m)@.summarizer == old(m)@.summarizer,
{
    old(m).lemma_coherent();
    let p = fired_in_week(rule_id@, week_start.day());
    if some_match(old(m)@.chunks, p) {
        let id = choose|id: Seq<char>| #[trigger]
            old(m)@.chunks.contains_key(id) && p(old(m)@.chunks[id]);
        assert(old(m)@.chunks.contains_key(id));
    }
    let q = rule_week_rollup(rule_id@, week_start.text());
    if some_match(old(m)@.chunks, q) {
        let id = choose|id: Seq<char>| #[trigger]
            old(m)@.chunks.contains_key(id) && q(old(m)@.chunks[id]);
        assert(old(m)@.chunks.contains_key(id));
    }
    if r is Ok {
        let target = TargetView::RuleWeek { rule_id: rule_id@, week_start: week_start.text() };
        lemma_written(old(m)@, final(m)@, target, p, answer, reply, r->Ok_0);
        assert(old(m)@.chunks.dom().filter(|id: Seq<char>| p(old(m)@.chunks[id]))
            =~= old(m)@.chunks.dom().filter(
            |id: Seq<char>|
                {
                    let c = old(m)@.chunks[id];
                    c.kind == ChunkKind::Fire
                        && (week_start.day() - 719_163) * 86_400 <= c.created_at.secs()
                        && c.created_at.secs() < (week_start.day() - 719_156) * 86_400
                            && text_at(c.metadata, "rule_id"@)
                        == Some(rule_id@)
                },
        ));
    }
}

/// The same of a week by its first day, where a rollup is forced.
pub proof fn law_rule_week_is_rolled_up_whole_forced(
    m: &mut BasicMemoryProvider,
    rule_id: &str,
    week_start: Date,
    answer: SummaryReply,
    reply: HookReply,
    r: MemoryResult<MemoryChunk>,
)
    requires
        old(m).wf(),
        call_ensures(
            BasicMemoryProvider::rollup_rule_week_forced,
            (m, rule_id, &week_start, answer, reply),
            r,
        ),
    ensures
        ({
            let has_fires = exists|id: Seq<char>| #[trigger]
                old(m)@.chunks.contains_key(id) && {
                    let c = old(m)@.chunks[id];
                    c.kind == ChunkKind::Fire
                        && (week_start.day() - 719_163) * 86_400 <= c.created_at.secs()
                        && c.created_at.secs() < (week_start.day() - 719_156) * 86_400
                            && text_at(c.metadata, "rule_id"@)
                        == Some(rule_id@)
                };
            let visible = exists|i: int|
                0 <= i < answer.outcome->Ok_0@.len() && {
                    let u = #[trigger] answer.outcome->Ok_0@[i] as u32;
                    !(0x9 <= u <= 0xd || u == 0x20 || u == 0x85 || u == 0xa0 || u == 0x1680
                        || 0x2000 <= u <= 0x200a || u == 0x2028 || u == 0x2029 || u == 0x202f
                        || u == 0x205f || u == 0x3000)
                };
            &&& r is Ok <==> old(m)@.summarizer && week_start.day() + 7 <= 95_745_399
                && has_fires && answer.outcome is Ok && visible && !(reply is Failed)
            &&& r is Err ==> final(m)@ == old(m)@ && r->Err_0@ == if !old(m)@.summarizer {
                ErrorView::NotImplemented(
                    "BasicMemoryProvider::rollup_rule_week — no summarizer attached (call `with_summarizer` first)"@,
                )
            } else if week_start.day() + 7 > 95_745_399 {
                ErrorView::InvalidArgument("week overflow: "@ + week_start.text())
            } else if !has_fires {
                ErrorView::NotFound("no fires for rule "@ + rule_id@ + " in week of "@ + week_start.text())
            } else if answer.outcome is Err {
                match answer.outcome->Err_0 {
                    SummarizerError::NoInput => ErrorView::InvalidArgument(
                        "summarizer received no input"@,
                    ),
                    SummarizerError::Failed(msg) => ErrorView::Provider(
                        "summarizer "@ + answer.summarizer@ + " failed: "@ + msg@,
                    ),
                }
            } else if !visible {
                ErrorView::InvalidArgument("content must not be empty"@)
            } else {
                reply->Failed_0@
            }
        }),
        r is Ok ==> {
            let c = r->Ok_0@;
            let n = old(m)@.chunks.dom().filter(
                |id: Seq<char>|
                    {
                        let c = old(m)@.chunks[id];
                        c.kind == ChunkKind::Fire
                            && (week_start.day() - 719_163) * 86_400 <= c.created_at.secs()
                            && c.created_at.secs() < (week_start.day() - 719_156) * 86_400
                                && text_at(c.metadata, "rule_id"@)
                            == Some(rule_id@)
                    },
            ).len();
            &&& c.id.len() == 36
            &&& c.id[14] == '7'
            &&& c.created_at.secs() >= 0
            &&& 0 <= c.created_at.nanos() < 1_000_000_000
            &&& c.kind == ChunkKind::Rollup
            &&& c.source == ChunkSource::System
            &&& c.session_id is None
            &&& c.project_root is None
            &&& c.caller_id == "system"@
            &&& c.tier == MemoryTier::Session
            &&& c.superseded_by is None
            &&& c.embedding_model == "none"@
            &&& c.embedding_dim == 0
            &&& !c.pinned
            &&& !c.shareable
            &&& if reply is Decided && reply->Decided_0 is Redact {
                let reason = reply->Decided_0->reason@;
                &&& c.content == "<redacted: "@ + reason + ">"@
                &&& c.metadata == JsonView::Object(
                    seq![("reason"@, JsonView::Text(reason)), ("redacted"@, JsonView::Bool(true))],
                )
                &&& c.importance.bits == 0
                &&& final(m)@.chunks == old(m)@.chunks
            } else {
                &&& c.content == answer.outcome->Ok_0@
                &&& c.metadata == JsonView::Object(
                    seq![
                        ("member_count"@, JsonView::PosInt(n as u64)),
                        ("rollup_kind"@, JsonView::Text("rule_week"@)),
                        ("rollup_rule_id"@, JsonView::Text(rule_id@)),
                        ("rollup_week_start"@, JsonView::Text(week_start.text())),
                        ("summarizer"@, JsonView::Text(answer.summarizer@)),
                    ],
                )
                &&& c.importance.bits == 0x3f00_0000
                &&& final(m)@.chunks == old(m)@.chunks.insert(c.id, c)
            }
        },
        r is Ok ==> {
            let summary = r->Ok_0.id@;
            let now = final(m)@.members[summary];
            let had = old(m)@.members.contains_key(summary);
            let was = old(m)@.members[summary];
            &&& final(m)@.members.contains_key(summary)
            &&& now.no_duplicates()
            &&& had ==> was.is_prefix_of(now)
            &&& forall|x: Seq<char>| #[trigger]
                now.contains(x) <==> (had && was.contains(x)) || (old(m)@.chunks.contains_key(x)
                    && {
                    let c = old(m)@.chunks[x];
                    c.kind == ChunkKind::Fire
                        && (week_start.day() - 719_163) * 86_400 <= c.created_at.secs()
                        && c.created_at.secs() < (week_start.day() - 719_156) * 86_400
                            && text_at(c.metadata, "rule_id"@)
                        == Some(rule_id@)
                })
            &&& forall|k: Seq<char>|
                k != summary ==> (#[trigger] final(m)@.members.contains_key(k)
                    <==> old(m)@.members.contains_key(k)) && final(m)@.members[k]
                    == old(m)@.members[k]
        },
        final(m)@.sessions == old(m)@.sessions,
        final(m)@.evictions == old(m)@.evictions,
        final(m)@.accesses == old(m)@.accesses,
        final(m)@.write_hook == old(m)@.write_hook,
        final(m)@.summarizer == old(m)@.summarizer,
{
    old(m).lemma_coherent();
    let p = fired_in_week(rule_id@, week_start.day());
    if some_match(old(m)@.chunks, p) {
        let id = choose|id: Seq<char>| #[trigger]
            old(m)@.chunks.contains_key(id) && p(old(m)@.chunks[id]);
        assert(old(m)@.chunks.contains_key(id));
    }
    let q = rule_week_rollup(rule_id@, week_start.text());
    if some_match(old(m)@.chunks, q) {
        let id = choose|id: Seq<char>| #[trigger]
            old(m)@.chunks.contains_key(id) && q(old(m)@.chunks[id]);
        assert(old(m)@.chunks.contains_key(id));
    }
    if r is Ok {
        let target = TargetView::RuleWeek { rule_id: rule_id@, week_start: week_start.text() };
        lemma_written(old(m)@, final(m)@, target, p, answer, reply, r->Ok_0);
        assert(old(m)@.chunks.dom().filter(|id: Seq<char>| p(old(m)@.chunks[id]))
            =~= old(m)@.chunks.dom().filter(
            |id: Seq<char>|
                {
                    let c = old(m)@.chunks[id];
                    c.kind == ChunkKind::Fire
                        && (week_start.day() - 719_163) * 86_400 <= c.created_at.secs()
                        && c.created_at.secs() < (week_start.day() - 719_156) * 86_400
                            && text_at(c.metadata, "rule_id"@)
                        == Some(rule_id@)
                },
        ));
    }
}

// What a rollup counts for

/// What the metadata of a day's rollup says.
proof fn lemma_day_keys(date: Seq<char>, n: nat, summarizer: Seq<char>)
    ensures
        ({
            let metadata = summary_metadata(TargetView::Day { date }, n, summarizer);
            &&& text_at(metadata, "rollup_date"@) == Some(date)
            &&& text_at(metadata, "rollup_rule_id"@) is None
        }),
{
    reveal_strlit("member_count");
    reveal_strlit("rollup_date");
    reveal_strlit("rollup_kind");
    reveal_strlit("rollup_rule_id");
    reveal_strlit("summarizer");
    let all = summary_metadata(TargetView::Day { date }, n, summarizer)->Object_0;
    assert("rollup_date"@[7] != "rollup_kind"@[7]);
    assert("rollup_date"@.len() != "summarizer"@.len());
    assert("rollup_rule_id"@.len() != "rollup_kind"@.len());
    assert("rollup_rule_id"@.len() != "member_count"@.len());
    assert("rollup_rule_id"@.len() != "summarizer"@.len());
    assert(all.drop_last().last() == all[2]);
    assert(all.drop_last().drop_last().last() == all[1]);
    assert(all.drop_last().drop_last().drop_last().last() == all[0]);
    reveal_with_fuel(member, 5);
}

/// What the metadata of the rollup of a rule's week says.
proof fn lemma_week_keys(
    rule_id: Seq<char>,
    week_start: Seq<char>,
    n: nat,
    summarizer: Seq<char>,
)
    ensures
        ({
            let metadata = summary_metadata(
                TargetView::RuleWeek { rule_id, week_start },
                n,
                summarizer,
            );
            &&& text_at(metadata, "rollup_rule_id"@) == Some(rule_id)
            &&& text_at(metadata, "rollup_week_start"@) == Some(week_start)
            &&& text_at(metadata, "rollup_date"@) is None
        }),
{
    reveal_strlit("member_count");
    reveal_strlit("rollup_date");
    reveal_strlit("rollup_kind");
    reveal_strlit("rollup_rule_id");
    reveal_strlit("rollup_week_start");
    reveal_strlit("summarizer");
    let all = summary_metadata(
        TargetView::RuleWeek { rule_id, week_start },
        n,
        summarizer,
    )->Object_0;
    assert("rollup_date"@[7] != "rollup_kind"@[7]);
    assert("rollup_date"@.len() != "member_count"@.len());
    assert("rollup_date"@.len() != "rollup_rule_id"@.len());
    assert("rollup_date"@.len() != "rollup_week_start"@.len());
    assert("rollup_date"@.len() != "summarizer"@.len());
    assert("rollup_rule_id"@.len() != "rollup_week_start"@.len());
    assert("rollup_rule_id"@.len() != "summarizer"@.len());
    assert("rollup_week_start"@.len() != "summarizer"@.len());
    assert(all.drop_last().last() == all[3]);
    assert(all.drop_last().drop_last().last() == all[2]);
    assert(all.drop_last().drop_last().drop_last().last() == all[1]);
    assert(all.drop_last().drop_last().drop_last().drop_last().last() == all[0]);
    reveal_with_fuel(member, 6);
}

/// The rollup of a rule's week, written under a fresh id, counts as the rollup
/// of that rule and that week, and of no other rule and no other week; one that
/// is redacted counts for none.
pub proof fn law_week_rollup_counts_for_its_rule_and_week_alone(
    m: &mut BasicMemoryProvider,
    rule_id: &str,
    week_start: Date,
    label: &str,
    force: bool,
    answer: SummaryReply,
    reply: HookReply,
    c: MemoryChunk,
    other_rule: &str,
    other_label: &str,
    was: bool,
    now: bool,
)
    requires
        old(m).wf(),
        call_ensures(
            BasicMemoryProvider::rollup_rule_week_labelled,
            (m, rule_id, &week_start, label, force, answer, reply),
            Ok(c),
        ),
        !old(m)@.chunks.contains_key(c.id@),
        call_ensures(
            BasicMemoryProvider::rule_week_rollup_exists_labelled,
            (&*old(m), other_rule, other_label),
            was,
        ),
        call_ensures(
            BasicMemoryProvider::rule_week_rollup_exists_labelled,
            (&*final(m), other_rule, other_label),
            now,
        ),
    ensures
        now <==> was || (!(reply is Decided && reply->Decided_0 is Redact) && other_rule@
            == rule_id@ && other_label@ == label@),
{
    old(m).lemma_coherent();
    let p = fired_in_week(rule_id@, week_start.day());
    let n = old(m)@.chunks.dom().filter(|id: Seq<char>| p(old(m)@.chunks[id])).len();
    lemma_written(
        old(m)@,
        final(m)@,
        TargetView::RuleWeek { rule_id: rule_id@, week_start: label@ },
        p,
        answer,
        reply,
        c,
    );
    lemma_week_keys(rule_id@, label@, n, answer.summarizer@);
    let q = rule_week_rollup(other_rule@, other_label@);
    if some_match(old(m)@.chunks, q) {
        let k = choose|k: Seq<char>| #[trigger]
            old(m)@.chunks.contains_key(k) && q(old(m)@.chunks[k]);
        assert(final(m)@.chunks.contains_key(k) && q(final(m)@.chunks[k]));
    }
    if some_match(final(m)@.chunks, q) {
        let k = choose|k: Seq<char>| #[trigger]
            final(m)@.chunks.contains_key(k) && q(final(m)@.chunks[k]);
        assert(k == c@.id || old(m)@.chunks.contains_key(k) && q(old(m)@.chunks[k]));
    }
    assert(final(m)@.chunks.contains_key(c@.id) || (reply is Decided
        && reply->Decided_0 is Redact));
}

/// A day's rollup, written under a fresh id, counts as the rollup of that day
/// and of no other day; one that is redacted counts for none.
pub proof fn law_day_rollup_counts_for_its_date_alone(
    m: &mut BasicMemoryProvider,
    date: Date,
    label: &str,
    force: bool,
    answer: SummaryReply,
    reply: HookReply,
    out: Vec<MemoryChunk>,
    other_label: &str,
    was: bool,
    now: bool,
)
    requires
        old(m).wf(),
        call_ensures(
            BasicMemoryProvider::rollup_day_labelled,
            (m, &date, label, force, answer, reply),
            Ok(out),
        ),
        forall|i: int|
            0 <= i < out@.len() ==> !old(m)@.chunks.contains_key((#[trigger] out@[i]).id@),
        call_ensures(
            BasicMemoryProvider::day_rollup_exists_labelled,
            (&*old(m), other_label),
            was,
        ),
        call_ensures(
            BasicMemoryProvider::day_rollup_exists_labelled,
            (&*final(m), other_label),
            now,
        ),
    ensures
        now <==> was || (out@.len() > 0 && !(reply is Decided && reply->Decided_0 is Redact)
            && other_label@ == label@),
{
    old(m).lemma_coherent();
    if out@.len() > 0 {
        let c = out@[0];
        assert(!old(m)@.chunks.contains_key(c@.id));
        let p = on_day(date.day());
        let n = old(m)@.chunks.dom().filter(|id: Seq<char>| p(old(m)@.chunks[id])).len();
        lemma_written(
            old(m)@,
            final(m)@,
            TargetView::Day { date: label@ },
            p,
            answer,
            reply,
            c,
        );
        lemma_day_keys(label@, n, answer.summarizer@);
        let q = day_rollup(other_label@);
        if some_match(old(m)@.chunks, q) {
            let k = choose|k: Seq<char>| #[trigger]
                old(m)@.chunks.contains_key(k) && q(old(m)@.chunks[k]);
            assert(final(m)@.chunks.contains_key(k) && q(final(m)@.chunks[k]));
        }
        if some_match(final(m)@.chunks, q) {
            let k = choose|k: Seq<char>| #[trigger]
                final(m)@.chunks.contains_key(k) && q(final(m)@.chunks[k]);
            assert(k == c@.id || old(m)@.chunks.contains_key(k) && q(old(m)@.chunks[k]));
        }
        assert(final(m)@.chunks.contains_key(c@.id) || (reply is Decided
            && reply->Decided_0 is Redact));
    }
}

/// A day's rollup counts as the rollup of no rule's week.
pub proof fn law_day_rollup_counts_for_no_week(
    m: &mut BasicMemoryProvider,
    date: Date,
    label: &str,
    force: bool,
    answer: SummaryReply,
    reply: HookReply,
    out: Vec<MemoryChunk>,
    other_rule: &str,
    other_label: &str,
    was: bool,
    now: bool,
)
    requires
        old(m).wf(),
        call_ensures(
            BasicMemoryProvider::rollup_day_labelled,
            (m, &date, label, force, answer, reply),
            Ok(out),
        ),
        forall|i: int|
            0 <= i < out@.len() ==> !old(m)@.chunks.contains_key((#[trigger] out@[i]).id@),
        call_ensures(
            BasicMemoryProvider::rule_week_rollup_exists_labelled,
            (&*old(m), other_rule, other_label),
            was,
        ),
        call_ensures(
            BasicMemoryProvider::rule_week_rollup_exists_labelled,
            (&*final(m), other_rule, other_label),
            now,
        ),
    ensures
        now == was,
{
    old(m).lemma_coherent();
    if out@.len() > 0 {
        let c = out@[0];
        assert(!old(m)@.chunks.contains_key(c@.id));
        let p = on_day(date.day());
        let n = old(m)@.chunks.dom().filter(|id: Seq<char>| p(old(m)@.chunks[id])).len();
        lemma_written(
            old(m)@,
            final(m)@,
            TargetView::Day { date: label@ },
            p,
            answer,
            reply,
            c,
        );
        lemma_day_keys(label@, n, answer.summarizer@);
        let q = rule_week_rollup(other_rule@, other_label@);
        if some_match(old(m)@.chunks, q) {
            let k = choose|k: Seq<char>| #[trigger]
                old(m)@.chunks.contains_key(k) && q(old(m)@.chunks[k]);
            assert(final(m)@.chunks.contains_key(k) && q(final(m)@.chunks[k]));
        }
        if some_match(final(m)@.chunks, q) {
            let k = choose|k: Seq<char>| #[trigger]
                final(m)@.chunks.contains_key(k) && q(final(m)@.chunks[k]);
            assert(k == c@.id || old(m)@.chunks.contains_key(k) && q(old(m)@.chunks[k]));
        }
        assert(final(m)@.chunks.contains_key(c@.id) || (reply is Decided
            && reply->Decided_0 is Redact));
    }
}

/// The rollup of a rule's week counts as the rollup of no day.
pub proof fn law_week_rollup_counts_for_no_day(
    m: &mut BasicMemoryProvider,
    rule_id: &str,
    week_start: Date,
    label: &str,
    force: bool,
    answer: SummaryReply,
    reply: HookReply,
    c: MemoryChunk,
    other_label: &str,
    was: bool,
    now: bool,
)
    requires
        old(m).wf(),
        call_ensures(
            BasicMemoryProvider::rollup_rule_week_labelled,
            (m, rule_id, &week_start, label, force, answer, reply),
            Ok(c),
        ),
        !old(m)@.chunks.contains_key(c.id@),
        call_ensures(
            BasicMemoryProvider::day_rollup_exists_labelled,
            (&*old(m), other_label),
            was,
        ),
        call_ensures(
            BasicMemoryProvider::day_rollup_exists_labelled,
            (&*final(m), other_label),
            now,
        ),
    ensures
        now == was,
{
    old(m).lemma_coherent();
    let p = fired_in_week(rule_id@, week_start.day());
    let n = old(m)@.chunks.dom().filter(|id: Seq<char>| p(old(m)@.chunks[id])).len();
    lemma_written(
        old(m)@,
        final(m)@,
        TargetView::RuleWeek { rule_id: rule_id@, week_start: label@ },
        p,
        answer,
        reply,
        c,
    );
    lemma_week_keys(rule_id@, label@, n, answer.summarizer@);
    let q = day_rollup(other_label@);
    if some_match(old(m)@.chunks, q) {
        let k = choose|k: Seq<char>| #[trigger]
            old(m)@.chunks.contains_key(k) && q(old(m)@.chunks[k]);
        assert(final(m)@.chunks.contains_key(k) && q(final(m)@.chunks[k]));
    }
    if some_match(final(m)@.chunks, q) {
        let k = choose|k: Seq<char>| #[trigger]
            final(m)@.chunks.contains_key(k) && q(final(m)@.chunks[k]);
        assert(k == c@.id || old(m)@.chunks.contains_key(k) && q(old(m)@.chunks[k]));
    }
    assert(final(m)@.chunks.contains_key(c@.id) || (reply is Decided
        && reply->Decided_0 is Redact));
}

/// A session's summary counts as the rollup of no rule's week.
pub proof fn law_session_summary_counts_for_no_week(
    m: &mut BasicMemoryProvider,
    session_id: &str,
    answer: SummaryReply,
    reply: HookReply,
    c: MemoryChunk,
    other_rule: &str,
    other_label: &str,
    was: bool,
    now: bool,
)
    requires
        old(m).wf(),
        call_ensures(
            BasicMemoryProvider::summarize_session,
            (m, session_id, answer, reply),
            Ok(c),
        ),
        !old(m)@.chunks.contains_key(c.id@),
        call_ensures(
            BasicMemoryProvider::rule_week_rollup_exists_labelled,
            (&*old(m), other_rule, other_label),
            was,
        ),
        call_ensures(
            BasicMemoryProvider::rule_week_rollup_exists_labelled,
            (&*final(m), other_rule, other_label),
            now,
        ),
    ensures
        now == was,
{
    old(m).lemma_coherent();
    let p = in_session(session_id@);
    let n = old(m)@.chunks.dom().filter(|id: Seq<char>| p(old(m)@.chunks[id])).len();
    lemma_written(
        old(m)@,
        final(m)@,
        TargetView::Session {
            session_id: session_id@,
            caller_id: old(m)@.sessions[session_id@].caller_id,
        },
        p,
        answer,
        reply,
        c,
    );
    let q = rule_week_rollup(other_rule@, other_label@);
    if some_match(old(m)@.chunks, q) {
        let k = choose|k: Seq<char>| #[trigger]
            old(m)@.chunks.contains_key(k) && q(old(m)@.chunks[k]);
        assert(final(m)@.chunks.contains_key(k) && q(final(m)@.chunks[k]));
    }
    if some_match(final(m)@.chunks, q) {
        let k = choose|k: Seq<char>| #[trigger]
            final(m)@.chunks.contains_key(k) && q(final(m)@.chunks[k]);
        assert(k == c@.id || old(m)@.chunks.contains_key(k) && q(old(m)@.chunks[k]));
    }
    assert(final(m)@.chunks.contains_key(c@.id) || (reply is Decided
        && reply->Decided_0 is Redact));
}

/// A session's summary counts as the rollup of no day.
pub proof fn law_session_summary_counts_for_no_day(
    m: &mut BasicMemoryProvider,
    session_id: &str,
    answer: SummaryReply,
    reply: HookReply,
    c: MemoryChunk,
    other_label: &str,
    was: bool,
    now: bool,
)
    requires
        old(m).wf(),
        call_ensures(
            BasicMemoryProvider::summarize_session,
            (m, session_id, answer, reply),
            Ok(c),
        ),
        !old(m)@.chunks.contains_key(c.id@),
        call_ensures(
            BasicMemoryProvider::day_rollup_exists_labelled,
            (&*old(m), other_label),
            was,
        ),
        call_ensures(
            BasicMemoryProvider::day_rollup_exists_labelled,
            (&*final(m), other_label),
            now,
        ),
    ensures
        now == was,
{
    old(m).lemma_coherent();
    let p = in_session(session_id@);
    let n = old(m)@.chunks.dom().filter(|id: Seq<char>| p(old(m)@.chunks[id])).len();
    lemma_written(
        old(m)@,
        final(m)@,
        TargetView::Session {
            session_id: session_id@,
            caller_id: old(m)@.sessions[session_id@].caller_id,
        },
        p,
        answer,
        reply,
        c,
    );
    let q = day_rollup(other_label@);
    if some_match(old(m)@.chunks, q) {
        let k = choose|k: Seq<char>| #[trigger]
            old(m)@.chunks.contains_key(k) && q(old(m)@.chunks[k]);
        assert(final(m)@.chunks.contains_key(k) && q(final(m)@.chunks[k]));
    }
    if some_match(final(m)@.chunks, q) {
        let k = choose|k: Seq<char>| #[trigger]
            final(m)@.chunks.contains_key(k) && q(final(m)@.chunks[k]);
        assert(k == c@.id || old(m)@.chunks.contains_key(k) && q(old(m)@.chunks[k]));
    }
    assert(final(m)@.chunks.contains_key(c@.id) || (reply is Decided
        && reply->Decided_0 is Redact));
}

} // verus!
