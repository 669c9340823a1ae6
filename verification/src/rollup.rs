//! Session summaries and rollups.
//!
//! A summary takes three steps. A plan says what is to be summarized and with
//! which remarks; the summarizer is asked outside. Its reply makes a draft of
//! the chunk to write; the write hook is asked outside. Finishing writes the
//! draft and links the summarized chunks to it. [`BasicMemoryProvider`] offers
//! the steps one by one, and all of them in one call for replies that are
//! already there.

use crate::basic::{no_session, BasicMemoryProvider};
use crate::chunk::{ChunkKind, ChunkSource, ChunkView, MemoryChunk, NewChunkView, NewMemoryChunk};
use crate::error::{ErrorView, MemoryError, MemoryResult};
use crate::ids::{is_uuid_v7, next_id};
use crate::json::{json_view, text_at, Json, JsonView};
use crate::listing::{lists, oldest_first, some_match, views};
use crate::model::{
    day_rollup, fired_in_week, in_session, on_day, reply_fits, rule_week_rollup, session_not_found,
    write_error, write_result, MemoryView,
};
use crate::session::{MemorySession, SessionView};
use crate::summarizer::{
    map_summarizer_error, summarizer_error_view, ContextView, SummaryContext, SummaryReply,
};
use crate::text::{copy_opt, decimal, decimal_text, opt_text, texts};
use crate::time::{Date, Timestamp, MAX_DAY};
use crate::write_hook::HookReply;
use vstd::prelude::*;
use vstd::string::StringExecFns;

verus! {

/// The days of a week.
pub const WEEK_DAYS: u32 = 7;

/// The string that a chunk's metadata holds under `key`.
fn metadata_str(chunk: &MemoryChunk, key: &str) -> (r: Option<String>)
    ensures
        opt_text(r) == text_at(chunk@.metadata, key@),
{
    match chunk.metadata.get_text(key) {
        Some(s) => Some(s.clone()),
        None => None,
    }
}

/// Whether the text is there and is the one wanted.
fn is_text(found: &Option<String>, wanted: &String) -> (r: bool)
    ensures
        r == (opt_text(*found) == Some(wanted@)),
{
    match found {
        Some(s) => *s == *wanted,
        None => false,
    }
}

/// `members` are the chunks that satisfy `p`, oldest first.
pub open spec fn members_by_age(
    members: Seq<ChunkView>,
    m: MemoryView,
    p: spec_fn(ChunkView) -> bool,
) -> bool {
    lists(members, m.chunks, p) && oldest_first::<MemoryChunk>(members)
}

/// A rule's week that reaches past the last day of the calendar.
pub open spec fn week_overflow(start: int) -> bool {
    start + WEEK_DAYS > MAX_DAY
}

/// The error for a week that reaches past the calendar.
pub open spec fn week_overflow_error(label: Seq<char>) -> ErrorView {
    ErrorView::InvalidArgument("week overflow: "@ + label)
}

impl BasicMemoryProvider {
    /// The chunks of a session but for its summaries, oldest first.
    pub fn fetch_session_chunks(&self, session_id: &str) -> (r: Vec<MemoryChunk>)
        requires
            self.wf(),
        ensures
            members_by_age(views(r@), self@, in_session(session_id@)),
    {
        let wanted: String = session_id.to_owned();
        let member = |c: &MemoryChunk| -> (b: bool)
            ensures
                b == (c@.session_id == Some(session_id@) && !(c@.kind is JobSummary)),
        { is_text(&c.session_id, &wanted) && c.kind != ChunkKind::JobSummary };
        self.chunks_oldest_first(member, Ghost(in_session(session_id@)))
    }

    /// The chunks of a day but for rollups, oldest first.
    pub fn fetch_day_chunks(&self, date: &Date) -> (r: Vec<MemoryChunk>)
        requires
            self.wf(),
        ensures
            members_by_age(views(r@), self@, on_day(date.day())),
    {
        let day: i32 = date.number();
        let member = |c: &MemoryChunk| -> (b: bool)
            ensures
                b == (c@.created_at.day() == day && !(c@.kind is Rollup)),
        { c.created_at.date().number() == day && c.kind != ChunkKind::Rollup };
        self.chunks_oldest_first(member, Ghost(on_day(date.day())))
    }

    /// The fires of a rule in the week from `week_start`, oldest first, given
    /// that day as text.
    pub fn fetch_rule_week_chunks_labelled(
        &self,
        rule_id: &str,
        week_start: &Date,
        label: &str,
    ) -> (r: MemoryResult<Vec<MemoryChunk>>)
        requires
            self.wf(),
        ensures
            match r {
                Ok(v) => !week_overflow(week_start.day()) && members_by_age(
                    views(v@),
                    self@,
                    fired_in_week(rule_id@, week_start.day()),
                ),
                Err(e) => week_overflow(week_start.day()) && e@ == week_overflow_error(label@),
            },
    {
        let end: i32 = match week_start.plus_days(WEEK_DAYS) {
            Some(d) => d.number(),
            None => {
                let mut s: String = "week overflow: ".to_owned();
                s.append(label);
                return Err(MemoryError::InvalidArgument(s));
            },
        };
        let start: i32 = week_start.number();
        let wanted: String = rule_id.to_owned();
        let member = |c: &MemoryChunk| -> (b: bool)
            ensures
                b == (c@.kind is Fire && start <= c@.created_at.day() < end && text_at(
                    c@.metadata,
                    "rule_id"@,
                ) == Some(rule_id@)),
        {
            if c.kind != ChunkKind::Fire {
                return false;
            }
            let day: i32 = c.created_at.date().number();
            start <= day && day < end && is_text(&metadata_str(c, "rule_id"), &wanted)
        };
        Ok(self.chunks_oldest_first(member, Ghost(fired_in_week(rule_id@, week_start.day()))))
    }

    /// The fires of a rule in the week from `week_start`, oldest first.
    pub fn fetch_rule_week_chunks(&self, rule_id: &str, week_start: &Date) -> (r: MemoryResult<
        Vec<MemoryChunk>,
    >)
        requires
            self.wf(),
        ensures
            match r {
                Ok(v) => !week_overflow(week_start.day()) && members_by_age(
                    views(v@),
                    self@,
                    fired_in_week(rule_id@, week_start.day()),
                ),
                Err(e) => week_overflow(week_start.day()) && e@ == week_overflow_error(
                    week_start.text(),
                ),
            },
    {
        let label: String = week_start.to_text();
        self.fetch_rule_week_chunks_labelled(rule_id, week_start, label.as_str())
    }

    /// Whether there is a rollup of the day whose text is `label`.
    pub fn day_rollup_exists_labelled(&self, label: &str) -> (r: bool)
        requires
            self.wf(),
        ensures
            r == some_match(self@.chunks, day_rollup(label@)),
    {
        let wanted: String = label.to_owned();
        let rolled_up = |c: &MemoryChunk| -> (b: bool)
            ensures
                b == (c@.kind is Rollup && text_at(c@.metadata, "rollup_date"@) == Some(label@)),
        { c.kind == ChunkKind::Rollup && is_text(&metadata_str(c, "rollup_date"), &wanted) };
        self.any_chunk(rolled_up, Ghost(day_rollup(label@)))
    }

    /// Whether there is a rollup of the day.
    pub fn day_rollup_exists(&self, date: &Date) -> (r: bool)
        requires
            self.wf(),
        ensures
            r == some_match(self@.chunks, day_rollup(date.text())),
    {
        let label: String = date.to_text();
        self.day_rollup_exists_labelled(label.as_str())
    }

    /// Whether there is a rollup of the rule's week from the day whose text is
    /// `label`.
    pub fn rule_week_rollup_exists_labelled(&self, rule_id: &str, label: &str) -> (r: bool)
        requires
            self.wf(),
        ensures
            r == some_match(self@.chunks, rule_week_rollup(rule_id@, label@)),
    {
        let rule: String = rule_id.to_owned();
        let week: String = label.to_owned();
        let rolled_up = |c: &MemoryChunk| -> (b: bool)
            ensures
                b == (c@.kind is Rollup && text_at(c@.metadata, "rollup_rule_id"@) == Some(rule_id@)
                    && text_at(c@.metadata, "rollup_week_start"@) == Some(label@)),
        {
            c.kind == ChunkKind::Rollup && is_text(&metadata_str(c, "rollup_rule_id"), &rule)
                && is_text(&metadata_str(c, "rollup_week_start"), &week)
        };
        self.any_chunk(rolled_up, Ghost(rule_week_rollup(rule_id@, label@)))
    }

    /// Whether there is a rollup of the rule's week from `week_start`.
    pub fn rule_week_rollup_exists(&self, rule_id: &str, week_start: &Date) -> (r: bool)
        requires
            self.wf(),
        ensures
            r == some_match(self@.chunks, rule_week_rollup(rule_id@, week_start.text())),
    {
        let label: String = week_start.to_text();
        self.rule_week_rollup_exists_labelled(rule_id, label.as_str())
    }
}

/// What a summary is about.
#[derive(Debug)]
pub enum SummaryTarget {
    /// A session.
    Session {
        /// The session's id.
        session_id: String,
        /// The caller that opened the session.
        caller_id: String,
    },
    /// A day.
    Day {
        /// The day as text.
        date: String,
    },
    /// A rule's week.
    RuleWeek {
        /// The rule's id.
        rule_id: String,
        /// The first day as text.
        week_start: String,
    },
}

/// What a [`SummaryTarget`] names.
pub enum TargetView {
    /// A session.
    Session {
        /// The session's id.
        session_id: Seq<char>,
        /// The caller that opened the session.
        caller_id: Seq<char>,
    },
    /// A day.
    Day {
        /// The day as text.
        date: Seq<char>,
    },
    /// A rule's week.
    RuleWeek {
        /// The rule's id.
        rule_id: Seq<char>,
        /// The first day as text.
        week_start: Seq<char>,
    },
}

impl View for SummaryTarget {
    type V = TargetView;

    open spec fn view(&self) -> TargetView {
        match *self {
            SummaryTarget::Session { session_id, caller_id } => TargetView::Session {
                session_id: session_id@,
                caller_id: caller_id@,
            },
            SummaryTarget::Day { date } => TargetView::Day { date: date@ },
            SummaryTarget::RuleWeek { rule_id, week_start } => TargetView::RuleWeek {
                rule_id: rule_id@,
                week_start: week_start@,
            },
        }
    }
}

/// What a summarizer is to be asked.
#[derive(Debug)]
pub struct SummaryPlan {
    /// What the summary is about.
    pub target: SummaryTarget,
    /// The chunks to summarize.
    pub members: Vec<MemoryChunk>,
    /// What the summarizer is told besides.
    pub context: SummaryContext,
}

/// What a summarizer is told about a session.
pub open spec fn session_context(title: Option<Seq<char>>) -> ContextView {
    ContextView {
        kind_label: Some("session"@),
        note: match title {
            Some(t) => Some("session title: "@ + t),
            None => None,
        },
        max_words: None,
    }
}

/// What a summarizer is told about the `n` chunks of a day.
pub open spec fn day_context(date: Seq<char>, n: nat) -> ContextView {
    ContextView {
        kind_label: Some("day "@ + date),
        note: Some("Daily rollup for "@ + date + " ("@ + decimal(n) + " chunks)"@),
        max_words: None,
    }
}

/// What a summarizer is told about the `n` fires of a rule's week.
pub open spec fn week_context(rule_id: Seq<char>, week_start: Seq<char>, n: nat) -> ContextView {
    ContextView {
        kind_label: Some("week of "@ + week_start + " for rule "@ + rule_id),
        note: Some("Weekly rollup for rule "@ + rule_id + " ("@ + decimal(n) + " fires)"@),
        max_words: None,
    }
}

/// The plan for the chunks of `m` that satisfy `p`.
pub open spec fn plan_for(
    plan: SummaryPlan,
    m: MemoryView,
    p: spec_fn(ChunkView) -> bool,
    target: TargetView,
    context: ContextView,
) -> bool {
    &&& members_by_age(views(plan.members@), m, p)
    &&& plan.members@.len() > 0
    &&& plan.target@ == target
    &&& plan.context@ == context
}

/// What a session summary without a summarizer is refused with.
pub const NO_SESSION_SUMMARIZER: &'static str =
    "BasicMemoryProvider::summarize_session — no summarizer attached (call `with_summarizer` first)";

/// What a day's rollup without a summarizer is refused with.
pub const NO_DAY_SUMMARIZER: &'static str =
    "BasicMemoryProvider::rollup_day — no summarizer attached (call `with_summarizer` first)";

/// What a rule's weekly rollup without a summarizer is refused with.
pub const NO_WEEK_SUMMARIZER: &'static str =
    "BasicMemoryProvider::rollup_rule_week — no summarizer attached (call `with_summarizer` first)";

/// Why a session cannot be summarized, if it cannot.
pub open spec fn session_refusal(m: MemoryView, session_id: Seq<char>) -> Option<ErrorView> {
    if !m.summarizer {
        Some(ErrorView::NotImplemented(NO_SESSION_SUMMARIZER@))
    } else if !m.sessions.contains_key(session_id) {
        Some(session_not_found(session_id))
    } else if !some_match(m.chunks, in_session(session_id)) {
        Some(
            ErrorView::InvalidArgument(
                "session "@ + session_id + " has no chunks to summarize"@,
            ),
        )
    } else {
        None
    }
}

/// A day is to be rolled up: it has chunks, and either it has no rollup yet or
/// another one is forced.
pub open spec fn day_due(m: MemoryView, day: int, date: Seq<char>, force: bool) -> bool {
    &&& force || !some_match(m.chunks, day_rollup(date))
    &&& some_match(m.chunks, on_day(day))
}

/// Why a rule's week cannot be rolled up, if it cannot.
pub open spec fn week_refusal(
    m: MemoryView,
    rule_id: Seq<char>,
    start: int,
    label: Seq<char>,
    force: bool,
) -> Option<ErrorView> {
    if !m.summarizer {
        Some(ErrorView::NotImplemented(NO_WEEK_SUMMARIZER@))
    } else if !force && some_match(m.chunks, rule_week_rollup(rule_id, label)) {
        Some(
            ErrorView::InvalidArgument(
                "rollup already exists for rule "@ + rule_id + " week "@ + label,
            ),
        )
    } else if week_overflow(start) {
        Some(week_overflow_error(label))
    } else if !some_match(m.chunks, fired_in_week(rule_id, start)) {
        Some(
            ErrorView::NotFound(
                "no fires for rule "@ + rule_id + " in week of "@ + label,
            ),
        )
    } else {
        None
    }
}

/// A list of what satisfies `p` is empty exactly when nothing does.
proof fn lemma_nobody_listed(members: Seq<ChunkView>, m: MemoryView, p: spec_fn(ChunkView) -> bool)
    requires
        members_by_age(members, m, p),
    ensures
        members.len() > 0 <==> some_match(m.chunks, p),
{
    let keys = choose|keys: Seq<Seq<char>>|
        crate::listing::listed_under(keys, members, m.chunks, p);
    if members.len() > 0 {
        assert(m.chunks.contains_key(keys[0]));
    }
    if some_match(m.chunks, p) {
        let k = choose|k: Seq<char>| #[trigger] m.chunks.contains_key(k) && p(m.chunks[k]);
        assert(keys.contains(k));
    }
}

impl BasicMemoryProvider {
    /// Plans the summary of a session.
    pub fn plan_session_summary(&self, session_id: &str) -> (r: MemoryResult<SummaryPlan>)
        requires
            self.wf(),
        ensures
            match r {
                Ok(plan) => {
                    let session = self@.sessions[session_id@];
                    &&& session_refusal(self@, session_id@) is None
                    &&& plan_for(
                        plan,
                        self@,
                        in_session(session_id@),
                        TargetView::Session {
                            session_id: session_id@,
                            caller_id: session.caller_id,
                        },
                        session_context(session.title),
                    )
                },
                Err(e) => session_refusal(self@, session_id@) == Some(e@),
            },
    {
        if !self.has_summarizer() {
            return Err(MemoryError::NotImplemented(NO_SESSION_SUMMARIZER));
        }
        let session: MemorySession = match self.get_session(session_id) {
            Ok(Some(s)) => s,
            Ok(None) => {
                return Err(no_session(session_id));
            },
            Err(e) => {
                return Err(e);
            },
        };
        let members: Vec<MemoryChunk> = self.fetch_session_chunks(session_id);
        proof {
            lemma_nobody_listed(views(members@), self@, in_session(session_id@));
        }
        if members.is_empty() {
            let mut s: String = "session ".to_owned();
            s.append(session_id);
            s.append(" has no chunks to summarize");
            return Err(MemoryError::InvalidArgument(s));
        }
        let note: Option<String> = match &session.title {
            Some(t) => {
                let mut s: String = "session title: ".to_owned();
                s.append(t.as_str());
                Some(s)
            },
            None => None,
        };
        Ok(
            SummaryPlan {
                target: SummaryTarget::Session {
                    session_id: session_id.to_owned(),
                    caller_id: session.caller_id,
                },
                members,
                context: SummaryContext {
                    kind_label: Some("session".to_owned()),
                    note,
                    max_words: None,
                },
            },
        )
    }

    /// Plans the rollup of a day, given the day as text. There is none to plan
    /// for a day without chunks, nor for one that has a rollup unless another
    /// is forced.
    pub fn plan_day_rollup_labelled(&self, date: &Date, label: &str, force: bool) -> (r:
        MemoryResult<Option<SummaryPlan>>)
        requires
            self.wf(),
        ensures
            match r {
                Ok(Some(plan)) => {
                    &&& self@.summarizer
                    &&& day_due(self@, date.day(), label@, force)
                    &&& plan_for(
                        plan,
                        self@,
                        on_day(date.day()),
                        TargetView::Day { date: label@ },
                        day_context(label@, plan.members@.len()),
                    )
                },
                Ok(None) => self@.summarizer && !day_due(self@, date.day(), label@, force),
                Err(e) => !self@.summarizer && e@ == ErrorView::NotImplemented(NO_DAY_SUMMARIZER@),
            },
    {
        if !self.has_summarizer() {
            return Err(MemoryError::NotImplemented(NO_DAY_SUMMARIZER));
        }
        if !force && self.day_rollup_exists_labelled(label) {
            return Ok(None);
        }
        let members: Vec<MemoryChunk> = self.fetch_day_chunks(date);
        proof {
            lemma_nobody_listed(views(members@), self@, on_day(date.day()));
        }
        if members.is_empty() {
            return Ok(None);
        }
        let mut kind_label: String = "day ".to_owned();
        kind_label.append(label);
        let mut note: String = "Daily rollup for ".to_owned();
        note.append(label);
        note.append(" (");
        note.append(decimal_text(members.len()).as_str());
        note.append(" chunks)");
        Ok(
            Some(
                SummaryPlan {
                    target: SummaryTarget::Day { date: label.to_owned() },
                    members,
                    context: SummaryContext {
                        kind_label: Some(kind_label),
                        note: Some(note),
                        max_words: None,
                    },
                },
            ),
        )
    }

    /// Plans the rollup of a day. There is none to plan for a day without
    /// chunks, nor for one that has a rollup unless another is forced.
    pub fn plan_day_rollup(&self, date: &Date, force: bool) -> (r: MemoryResult<
        Option<SummaryPlan>,
    >)
        requires
            self.wf(),
        ensures
            match r {
                Ok(Some(plan)) => {
                    &&& self@.summarizer
                    &&& day_due(self@, date.day(), date.text(), force)
                    &&& plan_for(
                        plan,
                        self@,
                        on_day(date.day()),
                        TargetView::Day { date: date.text() },
                        day_context(date.text(), plan.members@.len()),
                    )
                },
                Ok(None) => self@.summarizer && !day_due(self@, date.day(), date.text(), force),
                Err(e) => !self@.summarizer && e@ == ErrorView::NotImplemented(NO_DAY_SUMMARIZER@),
            },
    {
        let label: String = date.to_text();
        self.plan_day_rollup_labelled(date, label.as_str(), force)
    }

    /// Plans the rollup of a rule's week, given its first day as text.
    pub fn plan_rule_week_rollup_labelled(
        &self,
        rule_id: &str,
        week_start: &Date,
        label: &str,
        force: bool,
    ) -> (r: MemoryResult<SummaryPlan>)
        requires
            self.wf(),
        ensures
            match r {
                Ok(plan) => {
                    &&& week_refusal(self@, rule_id@, week_start.day(), label@, force) is None
                    &&& plan_for(
                        plan,
                        self@,
                        fired_in_week(rule_id@, week_start.day()),
                        TargetView::RuleWeek { rule_id: rule_id@, week_start: label@ },
                        week_context(rule_id@, label@, plan.members@.len()),
                    )
                },
                Err(e) => week_refusal(self@, rule_id@, week_start.day(), label@, force) == Some(
                    e@,
                ),
            },
    {
        if !self.has_summarizer() {
            return Err(MemoryError::NotImplemented(NO_WEEK_SUMMARIZER));
        }
        if !force && self.rule_week_rollup_exists_labelled(rule_id, label) {
            let mut s: String = "rollup already exists for rule ".to_owned();
            s.append(rule_id);
            s.append(" week ");
            s.append(label);
            return Err(MemoryError::InvalidArgument(s));
        }
        let members: Vec<MemoryChunk> = match self.fetch_rule_week_chunks_labelled(
            rule_id,
            week_start,
            label,
        ) {
            Ok(v) => v,
            Err(e) => {
                return Err(e);
            },
        };
        proof {
            lemma_nobody_listed(
                views(members@),
                self@,
                fired_in_week(rule_id@, week_start.day()),
            );
        }
        if members.is_empty() {
            let mut s: String = "no fires for rule ".to_owned();
            s.append(rule_id);
            s.append(" in week of ");
            s.append(label);
            return Err(MemoryError::NotFound(s));
        }
        let mut kind_label: String = "week of ".to_owned();
        kind_label.append(label);
        kind_label.append(" for rule ");
        kind_label.append(rule_id);
        let mut note: String = "Weekly rollup for rule ".to_owned();
        note.append(rule_id);
        note.append(" (");
        note.append(decimal_text(members.len()).as_str());
        note.append(" fires)");
        Ok(
            SummaryPlan {
                target: SummaryTarget::RuleWeek {
                    rule_id: rule_id.to_owned(),
                    week_start: label.to_owned(),
                },
                members,
                context: SummaryContext {
                    kind_label: Some(kind_label),
                    note: Some(note),
                    max_words: None,
                },
            },
        )
    }

    /// Plans the rollup of a rule's week.
    pub fn plan_rule_week_rollup(&self, rule_id: &str, week_start: &Date, force: bool) -> (r:
        MemoryResult<SummaryPlan>)
        requires
            self.wf(),
        ensures
            match r {
                Ok(plan) => {
                    let label = week_start.text();
                    &&& week_refusal(self@, rule_id@, week_start.day(), label, force) is None
                    &&& plan_for(
                        plan,
                        self@,
                        fired_in_week(rule_id@, week_start.day()),
                        TargetView::RuleWeek { rule_id: rule_id@, week_start: label },
                        week_context(rule_id@, label, plan.members@.len()),
                    )
                },
                Err(e) => week_refusal(
                    self@,
                    rule_id@,
                    week_start.day(),
                    week_start.text(),
                    force,
                ) == Some(e@),
            },
    {
        let label: String = week_start.to_text();
        self.plan_rule_week_rollup_labelled(rule_id, week_start, label.as_str(), force)
    }
}

/// The ids of the chunks.
pub open spec fn ids_of(members: Seq<ChunkView>) -> Seq<Seq<char>> {
    members.map_values(|c: ChunkView| c.id)
}

/// The first project that one of the chunks belongs to.
pub open spec fn first_root(members: Seq<ChunkView>) -> Option<Seq<char>>
    decreases members.len(),
{
    if members.len() == 0 {
        None
    } else if members[0].project_root is Some {
        members[0].project_root
    } else {
        first_root(members.drop_first())
    }
}

/// The metadata of a summary of `n` chunks.
pub open spec fn summary_metadata(
    target: TargetView,
    n: nat,
    summarizer: Seq<char>,
) -> JsonView {
    let count = ("member_count"@, JsonView::PosInt(n as u64));
    let author = ("summarizer"@, JsonView::Text(summarizer));
    match target {
        TargetView::Session { session_id, .. } => JsonView::Object(
            seq![count, ("session_id"@, JsonView::Text(session_id)), author],
        ),
        TargetView::Day { date } => JsonView::Object(
            seq![
                count,
                ("rollup_date"@, JsonView::Text(date)),
                ("rollup_kind"@, JsonView::Text("day"@)),
                author,
            ],
        ),
        TargetView::RuleWeek { rule_id, week_start } => JsonView::Object(
            seq![
                count,
                ("rollup_kind"@, JsonView::Text("rule_week"@)),
                ("rollup_rule_id"@, JsonView::Text(rule_id)),
                ("rollup_week_start"@, JsonView::Text(week_start)),
                author,
            ],
        ),
    }
}

/// The chunk to write for a summary.
pub open spec fn summary_chunk(
    target: TargetView,
    members: Seq<ChunkView>,
    summarizer: Seq<char>,
    text: Seq<char>,
) -> NewChunkView {
    let metadata = summary_metadata(target, members.len(), summarizer);
    match target {
        TargetView::Session { session_id, caller_id } => NewChunkView {
            kind: ChunkKind::JobSummary,
            source: ChunkSource::Embedded,
            session_id: Some(session_id),
            project_root: first_root(members),
            caller_id,
            content: text,
            metadata,
            importance: None,
            shareable: false,
            pinned: false,
        },
        _ => NewChunkView {
            kind: ChunkKind::Rollup,
            source: ChunkSource::System,
            session_id: None,
            project_root: None,
            caller_id: "system"@,
            content: text,
            metadata,
            importance: None,
            shareable: false,
            pinned: false,
        },
    }
}

/// A member of an object that is a text.
fn text_member(key: &str, text: &str) -> (r: (String, Json))
    ensures
        r.0@ == key@,
        json_view(r.1) == JsonView::Text(text@),
{
    (key.to_owned(), Json::Text(text.to_owned()))
}

/// The project of the first chunk that has one.
fn root_of(members: &Vec<MemoryChunk>) -> (r: Option<String>)
    ensures
        opt_text(r) == first_root(views(members@)),
{
    let ghost all = views(members@);
    let mut i: usize = 0;
    assert(all.skip(0) =~= all);
    while i < members.len()
        invariant
            0 <= i <= members@.len(),
            all == views(members@),
            first_root(all) == first_root(all.skip(i as int)),
        decreases members@.len() - i,
    {
        assert(all.skip(i as int)[0] == members@[i as int]@);
        assert(all.skip(i as int).drop_first() =~= all.skip(i + 1));
        if members[i].project_root.is_some() {
            return copy_opt(&members[i].project_root);
        }
        i = i + 1;
    }
    None
}

impl SummaryPlan {
    /// The metadata of the summary.
    fn metadata(&self, summarizer: &str) -> (r: Json)
        ensures
            r@ == summary_metadata(self.target@, self.members@.len(), summarizer@),
    {
        let mut v: Vec<(String, Json)> = Vec::new();
        v.push(("member_count".to_owned(), Json::PosInt(self.members.len() as u64)));
        match &self.target {
            SummaryTarget::Session { session_id, .. } => {
                v.push(text_member("session_id", session_id.as_str()));
            },
            SummaryTarget::Day { date } => {
                v.push(text_member("rollup_date", date.as_str()));
                v.push(text_member("rollup_kind", "day"));
            },
            SummaryTarget::RuleWeek { rule_id, week_start } => {
                v.push(text_member("rollup_kind", "rule_week"));
                v.push(text_member("rollup_rule_id", rule_id.as_str()));
                v.push(text_member("rollup_week_start", week_start.as_str()));
            },
        }
        v.push(text_member("summarizer", summarizer));
        let r = Json::Object(v);
        proof {
            reveal_with_fuel(json_view, 2);
            assert(r@->Object_0 =~= summary_metadata(
                self.target@,
                self.members@.len(),
                summarizer@,
            )->Object_0);
        }
        r
    }

    /// The chunk to write, given the summarizer's name and text.
    pub fn chunk(&self, summarizer: &str, text: &str) -> (r: NewMemoryChunk)
        ensures
            r@ == summary_chunk(self.target@, views(self.members@), summarizer@, text@),
    {
        let metadata: Json = self.metadata(summarizer);
        match &self.target {
            SummaryTarget::Session { session_id, caller_id } => NewMemoryChunk {
                kind: ChunkKind::JobSummary,
                source: ChunkSource::Embedded,
                session_id: Some(session_id.clone()),
                project_root: root_of(&self.members),
                caller_id: caller_id.clone(),
                content: text.to_owned(),
                metadata,
                importance: None,
                shareable: false,
                pinned: false,
            },
            _ => NewMemoryChunk {
                kind: ChunkKind::Rollup,
                source: ChunkSource::System,
                session_id: None,
                project_root: None,
                caller_id: "system".to_owned(),
                content: text.to_owned(),
                metadata,
                importance: None,
                shareable: false,
                pinned: false,
            },
        }
    }

    /// The chunk to write for the summarizer's reply.
    pub fn draft(&self, answer: SummaryReply) -> (r: MemoryResult<NewMemoryChunk>)
        ensures
            match (answer.outcome, r) {
                (Ok(text), Ok(new)) => new@ == summary_chunk(
                    self.target@,
                    views(self.members@),
                    answer.summarizer@,
                    text@,
                ),
                (Err(e), Err(err)) => err@ == summarizer_error_view(answer.summarizer@, e),
                _ => false,
            },
    {
        match answer.outcome {
            Ok(text) => Ok(self.chunk(answer.summarizer.as_str(), text.as_str())),
            Err(e) => Err(map_summarizer_error(answer.summarizer.as_str(), e)),
        }
    }

    /// The ids of the chunks to summarize.
    fn member_ids(&self) -> (r: Vec<String>)
        ensures
            texts(r@) == ids_of(views(self.members@)),
    {
        let mut ids: Vec<String> = Vec::new();
        let mut i: usize = 0;
        while i < self.members.len()
            invariant
                0 <= i <= self.members@.len(),
                ids@.len() == i,
                forall|k: int| 0 <= k < i ==> #[trigger] ids@[k]@ == self.members@[k].id@,
            decreases self.members@.len() - i,
        {
            ids.push(self.members[i].id.clone());
            i = i + 1;
        }
        assert(texts(ids@) =~= ids_of(views(self.members@)));
        ids
    }
}

impl MemoryView {
    /// The memory in which the session that a summary is about, if it is there,
    /// carries the summary's text.
    pub open spec fn with_summary(self, target: TargetView, text: Seq<char>) -> MemoryView {
        match target {
            TargetView::Session { session_id, .. } => if self.sessions.contains_key(session_id) {
                self.with_session(
                    SessionView { summary: Some(text), ..self.sessions[session_id] },
                )
            } else {
                self
            },
            _ => self,
        }
    }
}

/// `r` is what finishing a summary comes to, and `after` what it leaves: the
/// draft is written, the members are linked to it, and a session carries the
/// text. A write that fails leaves everything as it was.
pub open spec fn finish_result(
    before: MemoryView,
    after: MemoryView,
    target: TargetView,
    members: Seq<ChunkView>,
    draft: NewChunkView,
    reply: HookReply,
    r: MemoryResult<MemoryChunk>,
) -> bool {
    match r {
        Ok(c) => {
            let written = before.after_write(reply, c@);
            &&& write_result(before, written, draft, reply, Ok(c))
            &&& after == written.linking(c.id@, ids_of(members)).with_summary(
                target,
                draft.content,
            )
        },
        Err(e) => write_error(draft.content, reply) == Some(e@) && after == before,
    }
}

impl BasicMemoryProvider {
    /// Writes the draft of a summary under the given id at the given instant,
    /// and links the summarized chunks to it.
    pub fn finish_summary_at(
        &mut self,
        plan: &SummaryPlan,
        draft: NewMemoryChunk,
        reply: HookReply,
        id: String,
        at: Timestamp,
    ) -> (r: MemoryResult<MemoryChunk>)
        requires
            old(self).wf(),
            reply_fits(old(self)@.write_hook, reply),
        ensures
            final(self).wf(),
            finish_result(
                old(self)@,
                final(self)@,
                plan.target@,
                views(plan.members@),
                draft@,
                reply,
                r,
            ),
            r matches Ok(c) ==> c.id@ == id@ && c.created_at == at,
    {
        let text: String = draft.content.clone();
        let written: MemoryChunk = match self.write_at(draft, reply, id, at) {
            Ok(c) => c,
            Err(e) => {
                return Err(e);
            },
        };
        let ids: Vec<String> = plan.member_ids();
        self.link_summary_members(written.id.as_str(), &ids);
        let ghost after_link = self@;
        if let SummaryTarget::Session { session_id, .. } = &plan.target {
            if let Ok(Some(session)) = self.get_session(session_id.as_str()) {
                let mut session: MemorySession = session;
                session.summary = Some(text);
                self.replace_session(session);
            }
        }
        assert(self@ == after_link.with_summary(plan.target@, text@));
        Ok(written)
    }

    /// Writes the draft of a summary under a fresh id at the present instant,
    /// and links the summarized chunks to it.
    pub fn finish_summary(
        &mut self,
        plan: &SummaryPlan,
        draft: NewMemoryChunk,
        reply: HookReply,
    ) -> (r: MemoryResult<MemoryChunk>)
        requires
            old(self).wf(),
            reply_fits(old(self)@.write_hook, reply),
        ensures
            final(self).wf(),
            finish_result(
                old(self)@,
                final(self)@,
                plan.target@,
                views(plan.members@),
                draft@,
                reply,
                r,
            ),
            r matches Ok(c) ==> is_uuid_v7(c.id@) && c.created_at.on_clock(),
    {
        let id: String = next_id();
        let at: Timestamp = Timestamp::now();
        self.finish_summary_at(plan, draft, reply, id, at)
    }
}

/// Why a summary that was planned fails, if it does: the summarizer failed, or
/// its text cannot be written.
pub open spec fn summary_error(answer: SummaryReply, reply: HookReply) -> Option<ErrorView> {
    match answer.outcome {
        Ok(text) => write_error(text@, reply),
        Err(e) => Some(summarizer_error_view(answer.summarizer@, e)),
    }
}

/// `c` is the summary of `members`, and `after` what writing it leaves.
pub open spec fn summary_of(
    before: MemoryView,
    after: MemoryView,
    target: TargetView,
    members: Seq<ChunkView>,
    answer: SummaryReply,
    reply: HookReply,
    c: MemoryChunk,
) -> bool {
    answer.outcome matches Ok(text) && finish_result(
        before,
        after,
        target,
        members,
        summary_chunk(target, members, answer.summarizer@, text@),
        reply,
        Ok(c),
    )
}

/// `c` is a summary of the chunks that satisfy `p`, and `after` what writing it
/// leaves.
pub open spec fn summary_written(
    before: MemoryView,
    after: MemoryView,
    target: TargetView,
    p: spec_fn(ChunkView) -> bool,
    answer: SummaryReply,
    reply: HookReply,
    c: MemoryChunk,
) -> bool {
    exists|members: Seq<ChunkView>| #[trigger]
        members_by_age(members, before, p) && summary_of(
            before,
            after,
            target,
            members,
            answer,
            reply,
            c,
        )
}

/// `r` is what a session's summary comes to, and `after` what it leaves.
pub open spec fn session_result(
    before: MemoryView,
    after: MemoryView,
    session_id: Seq<char>,
    answer: SummaryReply,
    reply: HookReply,
    r: MemoryResult<MemoryChunk>,
) -> bool {
    let refusal = session_refusal(before, session_id);
    match r {
        Ok(c) => {
            &&& refusal is None
            &&& summary_error(answer, reply) is None
            &&& is_uuid_v7(c.id@)
            &&& c.created_at.on_clock()
            &&& summary_written(
                before,
                after,
                TargetView::Session {
                    session_id,
                    caller_id: before.sessions[session_id].caller_id,
                },
                in_session(session_id),
                answer,
                reply,
                c,
            )
        },
        Err(e) => {
            &&& Some(e@) == match refusal {
                Some(_) => refusal,
                None => summary_error(answer, reply),
            }
            &&& after == before
        },
    }
}

/// `r` is what a day's rollup comes to, and `after` what it leaves.
pub open spec fn day_result(
    before: MemoryView,
    after: MemoryView,
    day: int,
    date: Seq<char>,
    force: bool,
    answer: SummaryReply,
    reply: HookReply,
    r: MemoryResult<Vec<MemoryChunk>>,
) -> bool {
    let due = day_due(before, day, date, force);
    match r {
        Ok(out) => before.summarizer && if due {
            &&& summary_error(answer, reply) is None
            &&& out@.len() == 1
            &&& is_uuid_v7(out@[0].id@)
            &&& out@[0].created_at.on_clock()
            &&& summary_written(
                before,
                after,
                TargetView::Day { date },
                on_day(day),
                answer,
                reply,
                out@[0],
            )
        } else {
            out@.len() == 0 && after == before
        },
        Err(e) => {
            &&& if !before.summarizer {
                e@ == ErrorView::NotImplemented(NO_DAY_SUMMARIZER@)
            } else {
                due && summary_error(answer, reply) == Some(e@)
            }
            &&& after == before
        },
    }
}

/// `r` is what the rollup of a rule's week comes to, and `after` what it
/// leaves.
pub open spec fn week_result(
    before: MemoryView,
    after: MemoryView,
    rule_id: Seq<char>,
    start: int,
    label: Seq<char>,
    force: bool,
    answer: SummaryReply,
    reply: HookReply,
    r: MemoryResult<MemoryChunk>,
) -> bool {
    let refusal = week_refusal(before, rule_id, start, label, force);
    match r {
        Ok(c) => {
            &&& refusal is None
            &&& summary_error(answer, reply) is None
            &&& is_uuid_v7(c.id@)
            &&& c.created_at.on_clock()
            &&& summary_written(
                before,
                after,
                TargetView::RuleWeek { rule_id, week_start: label },
                fired_in_week(rule_id, start),
                answer,
                reply,
                c,
            )
        },
        Err(e) => {
            &&& Some(e@) == match refusal {
                Some(_) => refusal,
                None => summary_error(answer, reply),
            }
            &&& after == before
        },
    }
}

impl BasicMemoryProvider {
    /// Drafts and finishes a summary.
    fn carry_out(
        &mut self,
        plan: &SummaryPlan,
        answer: SummaryReply,
        reply: HookReply,
    ) -> (r: MemoryResult<MemoryChunk>)
        requires
            old(self).wf(),
            reply_fits(old(self)@.write_hook, reply),
        ensures
            final(self).wf(),
            match r {
                Ok(c) => {
                    &&& summary_error(answer, reply) is None
                    &&& is_uuid_v7(c.id@)
                    &&& c.created_at.on_clock()
                    &&& summary_of(
                        old(self)@,
                        final(self)@,
                        plan.target@,
                        views(plan.members@),
                        answer,
                        reply,
                        c,
                    )
                },
                Err(e) => summary_error(answer, reply) == Some(e@) && final(self)@ == old(self)@,
            },
    {
        let draft: NewMemoryChunk = match plan.draft(answer) {
            Ok(new) => new,
            Err(e) => {
                return Err(e);
            },
        };
        self.finish_summary(plan, draft, reply)
    }

    /// Writes a session's summary.
    ///
    /// `answer` is what the summarizer said, and `reply` what came of asking
    /// the hook.
    pub fn summarize_session(
        &mut self,
        session_id: &str,
        answer: SummaryReply,
        reply: HookReply,
    ) -> (r: MemoryResult<MemoryChunk>)
        requires
            old(self).wf(),
            reply_fits(old(self)@.write_hook, reply),
        ensures
            final(self).wf(),
            session_result(old(self)@, final(self)@, session_id@, answer, reply, r),
    {
        let plan: SummaryPlan = match self.plan_session_summary(session_id) {
            Ok(plan) => plan,
            Err(e) => {
                return Err(e);
            },
        };
        self.carry_out(&plan, answer, reply)
    }

    /// Writes a day's rollup, given the day as text; nothing is written for a
    /// day that is not due.
    pub fn rollup_day_labelled(
        &mut self,
        date: &Date,
        label: &str,
        force: bool,
        answer: SummaryReply,
        reply: HookReply,
    ) -> (r: MemoryResult<Vec<MemoryChunk>>)
        requires
            old(self).wf(),
            reply_fits(old(self)@.write_hook, reply),
        ensures
            final(self).wf(),
            day_result(
                old(self)@,
                final(self)@,
                date.day(),
                label@,
                force,
                answer,
                reply,
                r,
            ),
    {
        let plan: SummaryPlan = match self.plan_day_rollup_labelled(date, label, force) {
            Ok(Some(plan)) => plan,
            Ok(None) => {
                return Ok(Vec::new());
            },
            Err(e) => {
                return Err(e);
            },
        };
        match self.carry_out(&plan, answer, reply) {
            Ok(c) => {
                let mut out: Vec<MemoryChunk> = Vec::new();
                out.push(c);
                Ok(out)
            },
            Err(e) => Err(e),
        }
    }

    /// Writes a day's rollup, unless it has one or there is nothing to roll up.
    pub fn rollup_day(
        &mut self,
        date: &Date,
        answer: SummaryReply,
        reply: HookReply,
    ) -> (r: MemoryResult<Vec<MemoryChunk>>)
        requires
            old(self).wf(),
            reply_fits(old(self)@.write_hook, reply),
        ensures
            final(self).wf(),
            day_result(
                old(self)@,
                final(self)@,
                date.day(),
                date.text(),
                false,
                answer,
                reply,
                r,
            ),
    {
        let label: String = date.to_text();
        self.rollup_day_labelled(date, label.as_str(), false, answer, reply)
    }

    /// Writes a day's rollup, even if it has one, unless there is nothing to
    /// roll up.
    pub fn rollup_day_forced(
        &mut self,
        date: &Date,
        answer: SummaryReply,
        reply: HookReply,
    ) -> (r: MemoryResult<Vec<MemoryChunk>>)
        requires
            old(self).wf(),
            reply_fits(old(self)@.write_hook, reply),
        ensures
            final(self).wf(),
            day_result(
                old(self)@,
                final(self)@,
                date.day(),
                date.text(),
                true,
                answer,
                reply,
                r,
            ),
    {
        let label: String = date.to_text();
        self.rollup_day_labelled(date, label.as_str(), true, answer, reply)
    }

    /// Writes the rollup of a rule's week, given its first day as text.
    pub fn rollup_rule_week_labelled(
        &mut self,
        rule_id: &str,
        week_start: &Date,
        label: &str,
        force: bool,
        answer: SummaryReply,
        reply: HookReply,
    ) -> (r: MemoryResult<MemoryChunk>)
        requires
            old(self).wf(),
            reply_fits(old(self)@.write_hook, reply),
        ensures
            final(self).wf(),
            week_result(
                old(self)@,
                final(self)@,
                rule_id@,
                week_start.day(),
                label@,
                force,
                answer,
                reply,
                r,
            ),
    {
        let plan: SummaryPlan = match self.plan_rule_week_rollup_labelled(
            rule_id,
            week_start,
            label,
            force,
        ) {
            Ok(plan) => plan,
            Err(e) => {
                return Err(e);
            },
        };
        self.carry_out(&plan, answer, reply)
    }

    /// Writes the rollup of a rule's week; one that has a rollup is refused.
    pub fn rollup_rule_week(
        &mut self,
        rule_id: &str,
        week_start: &Date,
        answer: SummaryReply,
        reply: HookReply,
    ) -> (r: MemoryResult<MemoryChunk>)
        requires
            old(self).wf(),
            reply_fits(old(self)@.write_hook, reply),
        ensures
            final(self).wf(),
            week_result(
                old(self)@,
                final(self)@,
                rule_id@,
                week_start.day(),
                week_start.text(),
                false,
                answer,
                reply,
                r,
            ),
    {
        let label: String = week_start.to_text();
        self.rollup_rule_week_labelled(
            rule_id,
            week_start,
            label.as_str(),
            false,
            answer,
            reply,
        )
    }

    /// Writes the rollup of a rule's week, even if it has one.
    pub fn rollup_rule_week_forced(
        &mut self,
        rule_id: &str,
        week_start: &Date,
        answer: SummaryReply,
        reply: HookReply,
    ) -> (r: MemoryResult<MemoryChunk>)
        requires
            old(self).wf(),
            reply_fits(old(self)@.write_hook, reply),
        ensures
            final(self).wf(),
            week_result(
                old(self)@,
                final(self)@,
                rule_id@,
                week_start.day(),
                week_start.text(),
                true,
                answer,
                reply,
                r,
            ),
    {
        let label: String = week_start.to_text();
        self.rollup_rule_week_labelled(
            rule_id,
            week_start,
            label.as_str(),
            true,
            answer,
            reply,
        )
    }
}

} // verus!
