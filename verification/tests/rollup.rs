use cel_memory::rollup::{NO_DAY_SUMMARIZER, NO_SESSION_SUMMARIZER, NO_WEEK_SUMMARIZER};
use cel_memory::{
    BasicMemoryProvider, ChunkKind, ChunkSource, Date, HookReply, Json, MemoryError,
    NewMemoryChunk, NewMemorySession, SummarizerError, SummaryReply, SummaryTarget, Timestamp,
    WriteDecision,
};

/// 2026-05-23, a Saturday.
const DAY: i32 = 739_759;

/// Midnight of that day.
const MIDNIGHT: i64 = 1_779_494_400;

fn day() -> Date {
    Date::new(DAY).unwrap()
}

fn at(secs: i64) -> Timestamp {
    Timestamp::new(MIDNIGHT + secs, 0).unwrap()
}

fn nc(content: &str) -> NewMemoryChunk {
    NewMemoryChunk {
        kind: ChunkKind::Chat,
        source: ChunkSource::Embedded,
        session_id: None,
        project_root: None,
        caller_id: "me".into(),
        content: content.into(),
        metadata: Json::Null,
        importance: None,
        shareable: false,
        pinned: false,
    }
}

fn fire(rule: &str) -> NewMemoryChunk {
    let mut new = nc("fired");
    new.kind = ChunkKind::Fire;
    new.metadata = Json::Object(vec![("rule_id".to_string(), Json::Text(rule.to_string()))]);
    new
}

fn put(m: &mut BasicMemoryProvider, new: NewMemoryChunk, id: &str, secs: i64) {
    m.write_at(new, HookReply::NotAsked, id.into(), at(secs)).unwrap();
}

fn answer(text: &str) -> SummaryReply {
    SummaryReply { summarizer: "mock".into(), outcome: Ok(text.into()) }
}

fn text_at<'a>(metadata: &'a Json, key: &str) -> Option<&'a str> {
    metadata.get_text(key).map(|s| s.as_str())
}

fn member_count(metadata: &Json) -> Option<u64> {
    match metadata {
        Json::Object(v) => match &v[0] {
            (key, Json::PosInt(n)) if key == "member_count" => Some(*n),
            _ => None,
        },
        _ => None,
    }
}

#[test]
fn without_a_summarizer_nothing_is_rolled_up() {
    let mut m = BasicMemoryProvider::new();
    let e = m.plan_session_summary("s").unwrap_err();
    assert!(matches!(e, MemoryError::NotImplemented(s) if s == NO_SESSION_SUMMARIZER));
    let e = m.rollup_day(&day(), answer("x"), HookReply::NotAsked).unwrap_err();
    assert!(matches!(e, MemoryError::NotImplemented(s) if s == NO_DAY_SUMMARIZER));
    let e = m
        .rollup_rule_week("r", &day(), answer("x"), HookReply::NotAsked)
        .unwrap_err();
    assert!(matches!(e, MemoryError::NotImplemented(s) if s == NO_WEEK_SUMMARIZER));
    assert_eq!(
        NO_WEEK_SUMMARIZER,
        "BasicMemoryProvider::rollup_rule_week \u{2014} no summarizer attached \
         (call `with_summarizer` first)"
    );
}

#[test]
fn a_day_is_rolled_up_once() {
    let mut m = BasicMemoryProvider::new().with_summarizer();
    put(&mut m, nc("b"), "b", 20);
    put(&mut m, nc("a"), "a", 10);
    put(&mut m, nc("yesterday"), "y", -1);
    put(&mut m, nc("tomorrow"), "t", 86_400);
    let plan = m.plan_day_rollup(&day(), false).unwrap().unwrap();
    assert_eq!(plan.members.len(), 2);
    assert_eq!(plan.members[0].id, "a");
    assert_eq!(plan.members[1].id, "b");
    assert_eq!(plan.context.kind_label.as_deref(), Some("day 2026-05-23"));
    assert_eq!(
        plan.context.note.as_deref(),
        Some("Daily rollup for 2026-05-23 (2 chunks)")
    );
    assert!(plan.context.max_words.is_none());
    assert!(matches!(&plan.target, SummaryTarget::Day { date } if date == "2026-05-23"));

    let out = m.rollup_day(&day(), answer("busy"), HookReply::NotAsked).unwrap();
    assert_eq!(out.len(), 1);
    let c = &out[0];
    assert_eq!(c.kind, ChunkKind::Rollup);
    assert_eq!(c.source, ChunkSource::System);
    assert_eq!(c.caller_id, "system");
    assert_eq!(c.content, "busy");
    assert!(c.session_id.is_none() && c.project_root.is_none());
    assert_eq!(member_count(&c.metadata), Some(2));
    assert_eq!(text_at(&c.metadata, "rollup_kind"), Some("day"));
    assert_eq!(text_at(&c.metadata, "rollup_date"), Some("2026-05-23"));
    assert_eq!(text_at(&c.metadata, "summarizer"), Some("mock"));
    assert!(m.get(&c.id).unwrap().is_some());
    assert!(m.day_rollup_exists(&day()));
    assert!(m.day_rollup_exists_labelled("2026-05-23"));
    assert!(!m.day_rollup_exists_labelled("2026-05-24"));

    let again = m.rollup_day(&day(), answer("x"), HookReply::NotAsked).unwrap();
    assert!(again.is_empty());
    let forced = m.rollup_day_forced(&day(), answer("again"), HookReply::NotAsked).unwrap();
    assert_eq!(forced.len(), 1);
    assert_eq!(member_count(&forced[0].metadata), Some(2));
}

#[test]
fn a_day_without_chunks_is_not_rolled_up() {
    let mut m = BasicMemoryProvider::new().with_summarizer();
    assert!(m.plan_day_rollup(&day(), true).unwrap().is_none());
    let out = m.rollup_day_forced(&day(), answer("x"), HookReply::NotAsked).unwrap();
    assert!(out.is_empty());
    assert_eq!(m.stats().unwrap().total_chunks, 0);
}

#[test]
fn a_redacted_rollup_does_not_count_as_one() {
    let mut m = BasicMemoryProvider::new().with_summarizer();
    put(&mut m, nc("a"), "a", 10);
    let mut m = m.with_write_hook();
    let redact = HookReply::Decided(WriteDecision::Redact { reason: "no".into() });
    let out = m.rollup_day(&day(), answer("x"), redact).unwrap();
    assert_eq!(out[0].content, "<redacted: no>");
    assert!(!m.day_rollup_exists(&day()));
    assert_eq!(m.stats().unwrap().total_chunks, 1);
    let allow = HookReply::Decided(WriteDecision::Allow);
    assert_eq!(m.rollup_day(&day(), answer("x"), allow).unwrap().len(), 1);
    assert!(m.day_rollup_exists(&day()));
}

#[test]
fn a_rules_week_is_rolled_up_once() {
    let mut m = BasicMemoryProvider::new().with_summarizer();
    put(&mut m, fire("r"), "first", 0);
    put(&mut m, fire("r"), "last", 7 * 86_400 - 1);
    put(&mut m, fire("r"), "late", 7 * 86_400);
    put(&mut m, fire("r"), "early", -1);
    put(&mut m, fire("other"), "other", 5);
    put(&mut m, nc("chat"), "chat", 5);
    let plan = m.plan_rule_week_rollup("r", &day(), false).unwrap();
    assert_eq!(plan.members.len(), 2);
    assert_eq!(plan.members[0].id, "first");
    assert_eq!(plan.members[1].id, "last");
    assert_eq!(
        plan.context.kind_label.as_deref(),
        Some("week of 2026-05-23 for rule r")
    );
    assert_eq!(plan.context.note.as_deref(), Some("Weekly rollup for rule r (2 fires)"));

    let c = m
        .rollup_rule_week("r", &day(), answer("twice"), HookReply::NotAsked)
        .unwrap();
    assert_eq!(c.kind, ChunkKind::Rollup);
    assert_eq!(c.content, "twice");
    assert_eq!(member_count(&c.metadata), Some(2));
    assert_eq!(text_at(&c.metadata, "rollup_kind"), Some("rule_week"));
    assert_eq!(text_at(&c.metadata, "rollup_rule_id"), Some("r"));
    assert_eq!(text_at(&c.metadata, "rollup_week_start"), Some("2026-05-23"));
    assert_eq!(text_at(&c.metadata, "summarizer"), Some("mock"));
    assert!(m.rule_week_rollup_exists("r", &day()));
    assert!(m.rule_week_rollup_exists_labelled("r", "2026-05-23"));
    assert!(!m.rule_week_rollup_exists_labelled("other", "2026-05-23"));

    let e = m
        .rollup_rule_week("r", &day(), answer("x"), HookReply::NotAsked)
        .unwrap_err();
    assert!(matches!(
        e,
        MemoryError::InvalidArgument(s)
            if s == "rollup already exists for rule r week 2026-05-23"
    ));
    let forced = m
        .rollup_rule_week_forced("r", &day(), answer("x"), HookReply::NotAsked)
        .unwrap();
    assert_eq!(member_count(&forced.metadata), Some(2));
}

#[test]
fn a_rules_week_without_fires_is_refused() {
    let mut m = BasicMemoryProvider::new().with_summarizer();
    let e = m
        .rollup_rule_week("r", &day(), answer("x"), HookReply::NotAsked)
        .unwrap_err();
    assert!(matches!(
        e,
        MemoryError::NotFound(s) if s == "no fires for rule r in week of 2026-05-23"
    ));
}

#[test]
fn a_week_past_the_calendar_is_refused() {
    let m = BasicMemoryProvider::new().with_summarizer();
    let last = Date::new(95_745_399).unwrap();
    let e = m.fetch_rule_week_chunks("r", &last).unwrap_err();
    assert!(matches!(
        e,
        MemoryError::InvalidArgument(s) if s == "week overflow: +262142-12-31"
    ));
    let e = m.plan_rule_week_rollup("r", &last, true).unwrap_err();
    assert!(matches!(e, MemoryError::InvalidArgument(_)));
    let e = m.fetch_rule_week_chunks_labelled("r", &last, "then").unwrap_err();
    assert!(matches!(e, MemoryError::InvalidArgument(s) if s == "week overflow: then"));
    let week_before = Date::new(95_745_392).unwrap();
    assert!(m.fetch_rule_week_chunks("r", &week_before).unwrap().is_empty());
}

#[test]
fn the_label_is_what_is_recorded() {
    let mut m = BasicMemoryProvider::new().with_summarizer();
    put(&mut m, nc("a"), "a", 10);
    put(&mut m, fire("r"), "f", 10);
    let out = m
        .rollup_day_labelled(&day(), "today", false, answer("x"), HookReply::NotAsked)
        .unwrap();
    assert_eq!(text_at(&out[0].metadata, "rollup_date"), Some("today"));
    assert!(m.plan_day_rollup_labelled(&day(), "today", false).unwrap().is_none());
    assert!(m.plan_day_rollup_labelled(&day(), "today", true).unwrap().is_some());
    let c = m
        .rollup_rule_week_labelled(
            "r",
            &day(),
            "now",
            false,
            answer("x"),
            HookReply::NotAsked,
        )
        .unwrap();
    assert_eq!(text_at(&c.metadata, "rollup_week_start"), Some("now"));
    assert!(m.plan_rule_week_rollup_labelled("r", &day(), "now", false).is_err());
}

fn open(m: &mut BasicMemoryProvider, title: Option<&str>) {
    m.open_session_at(
        NewMemorySession {
            caller_id: "owner".into(),
            title: title.map(|t| t.to_string()),
            metadata: Json::Null,
        },
        "s".into(),
        at(0),
    )
    .unwrap();
}

#[test]
fn a_session_is_summarized_from_its_chunks() {
    let mut m = BasicMemoryProvider::new().with_summarizer();
    open(&mut m, Some("chat"));
    let mut b = nc("b");
    b.session_id = Some("s".into());
    b.project_root = Some("/b".into());
    put(&mut m, b, "b", 20);
    let mut a = nc("a");
    a.session_id = Some("s".into());
    put(&mut m, a, "a", 10);
    put(&mut m, nc("elsewhere"), "e", 5);
    let plan = m.plan_session_summary("s").unwrap();
    assert_eq!(plan.members.len(), 2);
    assert_eq!(plan.members[0].id, "a");
    assert_eq!(plan.context.kind_label.as_deref(), Some("session"));
    assert_eq!(plan.context.note.as_deref(), Some("session title: chat"));

    let c = m.summarize_session("s", answer("recap"), HookReply::NotAsked).unwrap();
    assert_eq!(c.kind, ChunkKind::JobSummary);
    assert_eq!(c.source, ChunkSource::Embedded);
    assert_eq!(c.session_id.as_deref(), Some("s"));
    assert_eq!(c.project_root.as_deref(), Some("/b"));
    assert_eq!(c.caller_id, "owner");
    assert_eq!(member_count(&c.metadata), Some(2));
    assert_eq!(text_at(&c.metadata, "session_id"), Some("s"));
    assert_eq!(text_at(&c.metadata, "summarizer"), Some("mock"));
    let s = m.get_session("s").unwrap().unwrap();
    assert_eq!(s.summary.as_deref(), Some("recap"));

    // A summary is not among the chunks of the next one.
    let c = m.summarize_session("s", answer("again"), HookReply::NotAsked).unwrap();
    assert_eq!(member_count(&c.metadata), Some(2));
}

#[test]
fn a_session_that_cannot_be_summarized_says_why() {
    let mut m = BasicMemoryProvider::new().with_summarizer();
    let e = m.plan_session_summary("s").unwrap_err();
    assert!(matches!(e, MemoryError::NotFound(t) if t == "session s"));
    open(&mut m, None);
    let e = m.plan_session_summary("s").unwrap_err();
    assert!(matches!(
        e,
        MemoryError::InvalidArgument(t) if t == "session s has no chunks to summarize"
    ));
    let mut a = nc("a");
    a.session_id = Some("s".into());
    put(&mut m, a, "a", 10);
    assert!(m.plan_session_summary("s").unwrap().context.note.is_none());
    let failed = SummaryReply {
        summarizer: "mock".into(),
        outcome: Err(SummarizerError::Failed("quota".into())),
    };
    let e = m.summarize_session("s", failed, HookReply::NotAsked).unwrap_err();
    assert!(matches!(e, MemoryError::Provider(t) if t == "summarizer mock failed: quota"));
    let e = m.summarize_session("s", answer(" "), HookReply::NotAsked).unwrap_err();
    assert!(matches!(e, MemoryError::InvalidArgument(t) if t == "content must not be empty"));
    assert_eq!(m.stats().unwrap().total_chunks, 1);
    assert!(m.get_session("s").unwrap().unwrap().summary.is_none());
}

#[test]
fn the_steps_of_a_summary_can_be_taken_one_by_one() {
    let mut m = BasicMemoryProvider::new().with_summarizer();
    open(&mut m, None);
    let mut a = nc("a");
    a.session_id = Some("s".into());
    put(&mut m, a, "a", 10);
    let plan = m.plan_session_summary("s").unwrap();
    let draft = plan.draft(answer("recap")).unwrap();
    assert_eq!(draft.content, "recap");
    assert!(draft.importance.is_none() && !draft.pinned && !draft.shareable);
    // The session is gone by the time the summarizer has answered.
    m.purge_all().unwrap();
    let c = m
        .finish_summary_at(&plan, draft, HookReply::NotAsked, "sum".into(), at(30))
        .unwrap();
    assert_eq!(c.id, "sum");
    assert_eq!(c.created_at, at(30));
    assert!(m.get("sum").unwrap().is_some());
    assert_eq!(m.stats().unwrap().total_sessions, 0);
    let other = plan.chunk("llm", "text");
    assert_eq!(text_at(&other.metadata, "summarizer"), Some("llm"));
}

#[test]
fn a_redacted_summary_still_reaches_the_session() {
    let mut m = BasicMemoryProvider::new().with_summarizer();
    open(&mut m, None);
    let mut a = nc("a");
    a.session_id = Some("s".into());
    put(&mut m, a, "a", 10);
    let mut m = m.with_write_hook();
    let redact = HookReply::Decided(WriteDecision::Redact { reason: "no".into() });
    let c = m.summarize_session("s", answer("recap"), redact).unwrap();
    assert_eq!(c.content, "<redacted: no>");
    assert!(m.get(&c.id).unwrap().is_none());
    let s = m.get_session("s").unwrap().unwrap();
    assert_eq!(s.summary.as_deref(), Some("recap"));
}

#[test]
fn members_are_linked_once() {
    let mut m = BasicMemoryProvider::new().with_summarizer();
    put(&mut m, nc("a"), "a", 10);
    put(&mut m, nc("b"), "b", 20);
    let plan = m.plan_day_rollup(&day(), false).unwrap().unwrap();
    let draft = plan.draft(answer("x")).unwrap();
    m.finish_summary_at(&plan, draft, HookReply::NotAsked, "sum".into(), at(30)).unwrap();
    let links = "entries: [(\"sum\", [\"a\", \"b\"])]";
    assert!(format!("{m:?}").contains(links));
    m.link_summary_members("sum", &vec!["b".to_string(), "a".to_string()]);
    assert!(format!("{m:?}").contains(links));
    m.link_summary_members("sum", &vec!["c".to_string(), "c".to_string()]);
    assert!(format!("{m:?}").contains("entries: [(\"sum\", [\"a\", \"b\", \"c\"])]"));
    m.link_summary_members("empty", &vec![]);
    assert!(format!("{m:?}").contains("(\"empty\", [])"));
    m.purge_all().unwrap();
    assert!(!format!("{m:?}").contains("\"sum\""));
}

#[test]
fn a_rollup_of_one_day_leaves_other_days_due() {
    let mut m = BasicMemoryProvider::new().with_summarizer();
    put(&mut m, nc("a"), "a", 10);
    put(&mut m, nc("b"), "b", 86_410);
    let next = Date::new(DAY + 1).unwrap();
    m.rollup_day(&day(), answer("x"), HookReply::NotAsked).unwrap();
    assert!(!m.day_rollup_exists(&next));
    let out = m.rollup_day(&next, answer("y"), HookReply::NotAsked).unwrap();
    assert_eq!(text_at(&out[0].metadata, "rollup_date"), Some("2026-05-24"));
}

#[test]
fn a_rollup_counts_until_it_is_deleted() {
    let mut m = BasicMemoryProvider::new().with_summarizer();
    put(&mut m, fire("r"), "f", 10);
    let c1 = m
        .rollup_rule_week("r", &day(), answer("x"), HookReply::NotAsked)
        .unwrap();
    let d1 = m.rollup_day(&day(), answer("x"), HookReply::NotAsked).unwrap().remove(0);
    put(&mut m, fire("r"), "g", 20);
    m.pin(&c1.id, true).unwrap();
    m.re_embed_all("mock-8").unwrap();
    assert!(m.rollup_rule_week("r", &day(), answer("x"), HookReply::NotAsked).is_err());
    assert!(m.rollup_day(&day(), answer("x"), HookReply::NotAsked).unwrap().is_empty());
    let c2 = m
        .rollup_rule_week_forced("r", &day(), answer("x"), HookReply::NotAsked)
        .unwrap();
    assert_eq!(member_count(&c2.metadata), Some(2));
    assert_ne!(c1.id, c2.id);
    assert!(m.get(&c1.id).unwrap().is_some());
    m.delete(&c1.id, cel_memory::EvictionReason::UserDelete).unwrap();
    m.delete(&c2.id, cel_memory::EvictionReason::UserDelete).unwrap();
    m.delete(&d1.id, cel_memory::EvictionReason::UserDelete).unwrap();
    assert!(m.rollup_rule_week("r", &day(), answer("x"), HookReply::NotAsked).is_ok());
    assert_eq!(
        m.rollup_day(&day(), answer("x"), HookReply::NotAsked).unwrap().len(),
        1
    );
}
