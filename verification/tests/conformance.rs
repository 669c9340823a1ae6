use cel_memory::conformance::{
    assert_write_get_stats_at, check_counted, check_fetched, check_outcome, check_persisted,
    check_retrieved, check_summary, probe_chunk, probe_query, probe_session, probe_turn,
    PROBE_HITS,
};
use cel_memory::{
    assert_retrieve_finds_written, assert_session_lifecycle, assert_summarize_session_roundtrip,
    assert_write_get_stats, BasicMemoryProvider, CallerScope, ChunkKind, ConformanceFailure,
    HookReply, MemoryError, SessionOutcome, SummarizerError, SummaryReply, Timestamp,
    WriteDecision,
};

fn redact() -> HookReply {
    HookReply::Decided(WriteDecision::Redact { reason: "policy".to_string() })
}

fn failed() -> HookReply {
    HookReply::Failed(MemoryError::Internal("hook".to_string()))
}

fn answer(text: &str) -> SummaryReply {
    SummaryReply { summarizer: "mock".to_string(), outcome: Ok(text.to_string()) }
}

#[test]
fn basic_provider_passes_conformance() {
    let mut memory = BasicMemoryProvider::new();
    let (_chunk, stats) =
        assert_write_get_stats(&mut memory, "conformance probe", HookReply::NotAsked)
            .unwrap();
    assert_eq!(stats.total_chunks, 1);

    assert_retrieve_finds_written(
        &mut memory,
        "unique retrieval phrase 7f3a",
        HookReply::NotAsked,
    )
    .unwrap();
    assert_session_lifecycle(&mut memory, HookReply::NotAsked).unwrap();
}

#[test]
fn summaries_pass_conformance() {
    let mut memory = BasicMemoryProvider::new().with_summarizer();
    let summary = assert_summarize_session_roundtrip(
        &mut memory,
        HookReply::NotAsked,
        HookReply::NotAsked,
        answer("recap"),
        HookReply::NotAsked,
    )
    .unwrap();
    assert_eq!(summary.kind, ChunkKind::JobSummary);
    assert_eq!(summary.content, "recap");
    assert_eq!(memory.stats().unwrap().total_chunks, 3);
}

#[test]
fn a_check_reports_what_the_memory_reports() {
    let mut memory = BasicMemoryProvider::new();
    let r = assert_write_get_stats(&mut memory, " ", HookReply::NotAsked);
    assert!(matches!(
        r,
        Err(ConformanceFailure::Memory(MemoryError::InvalidArgument(_)))
    ));
    let r = assert_retrieve_finds_written(&mut memory, "", HookReply::NotAsked);
    assert!(matches!(
        r,
        Err(ConformanceFailure::Memory(MemoryError::InvalidArgument(_)))
    ));
    let r = assert_summarize_session_roundtrip(
        &mut memory,
        HookReply::NotAsked,
        HookReply::NotAsked,
        answer("recap"),
        HookReply::NotAsked,
    );
    assert!(matches!(
        r,
        Err(ConformanceFailure::Memory(MemoryError::NotImplemented(_)))
    ));
}

#[test]
fn a_redacted_probe_fails_the_checks() {
    let mut memory = BasicMemoryProvider::new().with_write_hook();
    let r = assert_write_get_stats(&mut memory, "probe", redact());
    assert!(matches!(
        r,
        Err(ConformanceFailure::Memory(MemoryError::NotFound(_)))
    ));
    let r = assert_retrieve_finds_written(&mut memory, "probe", redact());
    assert!(matches!(r, Err(ConformanceFailure::NotRetrieved { hits: 0 })));
    assert_eq!(memory.stats().unwrap().total_chunks, 0);
}

#[test]
fn a_redacted_turn_does_not_matter_to_the_lifecycle() {
    let mut memory = BasicMemoryProvider::new().with_write_hook();
    let closed = assert_session_lifecycle(&mut memory, redact()).unwrap();
    assert_eq!(closed.outcome, SessionOutcome::Success);
    assert_eq!(closed.title.as_deref(), Some("conformance session"));
    assert!(closed.ended_at.is_some());
    let r = assert_session_lifecycle(&mut memory, failed());
    assert!(matches!(
        r,
        Err(ConformanceFailure::Memory(MemoryError::Internal(_)))
    ));
    assert_eq!(memory.stats().unwrap().open_sessions, 1);
}

#[test]
fn a_redacted_summary_is_not_persisted() {
    let mut memory = BasicMemoryProvider::new().with_summarizer().with_write_hook();
    let allow = || HookReply::Decided(WriteDecision::Allow);
    let r = assert_summarize_session_roundtrip(
        &mut memory,
        allow(),
        allow(),
        answer("recap"),
        redact(),
    );
    assert!(matches!(r, Err(ConformanceFailure::SummaryNotPersisted)));
    let r = assert_summarize_session_roundtrip(
        &mut memory,
        redact(),
        redact(),
        answer("recap"),
        allow(),
    );
    assert!(matches!(
        r,
        Err(ConformanceFailure::Memory(MemoryError::InvalidArgument(_)))
    ));
    let r = assert_summarize_session_roundtrip(
        &mut memory,
        allow(),
        failed(),
        answer("recap"),
        allow(),
    );
    assert!(matches!(
        r,
        Err(ConformanceFailure::Memory(MemoryError::Internal(_)))
    ));
    let r = assert_summarize_session_roundtrip(
        &mut memory,
        allow(),
        allow(),
        SummaryReply {
            summarizer: "mock".to_string(),
            outcome: Err(SummarizerError::NoInput),
        },
        allow(),
    );
    assert!(matches!(
        r,
        Err(ConformanceFailure::Memory(MemoryError::InvalidArgument(s)))
            if s == "summarizer received no input"
    ));
}

#[test]
fn later_hits_crowd_a_probe_out() {
    let mut memory = BasicMemoryProvider::new();
    let later = Timestamp::new(8_000_000_000_000, 0).unwrap();
    for i in 0..PROBE_HITS {
        memory
            .write_at(
                probe_chunk("needle"),
                HookReply::NotAsked,
                format!("later-{i}"),
                later,
            )
            .unwrap();
    }
    let r = assert_retrieve_finds_written(&mut memory, "needle", HookReply::NotAsked);
    assert!(matches!(r, Err(ConformanceFailure::NotRetrieved { hits: 8 })));
    memory
        .delete("later-0", cel_memory::EvictionReason::UserDelete)
        .unwrap();
    // One place is free now, and the newer of the two probes takes it.
    let r = assert_retrieve_finds_written(&mut memory, "needle", HookReply::NotAsked);
    assert!(r.is_ok());
}

#[test]
fn verdicts_tell_the_failures_apart() {
    let mut memory = BasicMemoryProvider::new();
    let c = memory
        .write(probe_chunk("one"), HookReply::NotAsked)
        .unwrap();
    let other = memory
        .write(probe_chunk("two"), HookReply::NotAsked)
        .unwrap();
    assert!(check_fetched(&c, &Some(c.clone())).is_ok());
    assert!(matches!(
        check_fetched(&c, &Some(other.clone())),
        Err(ConformanceFailure::ContentDiffers)
    ));
    assert!(matches!(
        check_fetched(&c, &None),
        Err(ConformanceFailure::Memory(MemoryError::NotFound(id))) if id == c.id
    ));
    assert!(check_retrieved(&c, &vec![other.clone(), c.clone()]).is_ok());
    assert!(matches!(
        check_retrieved(&c, &vec![other.clone()]),
        Err(ConformanceFailure::NotRetrieved { hits: 1 })
    ));
    assert!(check_counted(&memory.stats().unwrap()).is_ok());
    assert!(matches!(
        check_counted(&BasicMemoryProvider::new().stats().unwrap()),
        Err(ConformanceFailure::NothingCounted)
    ));
    assert!(matches!(
        check_summary(&c),
        Err(ConformanceFailure::NoSummary)
    ));
    let mut summary = c.clone();
    summary.kind = ChunkKind::JobSummary;
    assert!(matches!(
        check_persisted(&None),
        Err(ConformanceFailure::SummaryNotPersisted)
    ));
    assert!(check_summary(&summary).is_ok());
    assert!(check_persisted(&Some(summary)).is_ok());
    let s = memory.open_session(probe_session("t")).unwrap();
    assert!(matches!(
        check_outcome("x", None, SessionOutcome::Open),
        Err(ConformanceFailure::Memory(MemoryError::NotFound(id))) if id == "x"
    ));
    assert!(matches!(
        check_outcome("x", Some(s.clone()), SessionOutcome::Success),
        Err(ConformanceFailure::WrongOutcome)
    ));
    assert_eq!(check_outcome("x", Some(s.clone()), SessionOutcome::Open).unwrap().id, s.id);
}

#[test]
fn probes_are_written_for_the_conformance_caller() {
    let c = probe_chunk("x");
    assert_eq!(c.caller_id, "conformance");
    assert_eq!(c.kind, ChunkKind::Chat);
    assert!(c.session_id.is_none() && c.importance.is_none());
    let q = probe_query("x");
    assert_eq!(q.k, 8);
    assert_eq!(q.caller_scope, CallerScope::Global);
    assert_eq!(q.kinds, Some(vec![ChunkKind::Chat]));
    let mut memory = BasicMemoryProvider::new();
    let s = memory.open_session(probe_session("t")).unwrap();
    assert_eq!(s.caller_id, "conformance");
    assert_eq!(probe_turn(&s, "x").session_id, Some(s.id));
}

#[test]
fn a_missing_probe_is_reported_under_its_id() {
    let at = Timestamp::new(5, 0).unwrap();
    let mut memory = BasicMemoryProvider::new();
    let (c, stats) = assert_write_get_stats_at(
        &mut memory,
        "probe",
        HookReply::NotAsked,
        "p".to_string(),
        at,
    )
    .unwrap();
    assert_eq!(c.id, "p");
    assert_eq!(c.created_at, at);
    assert_eq!(stats.total_chunks, 1);
    let mut memory = memory.with_write_hook();
    let r = assert_write_get_stats_at(&mut memory, "x", redact(), "q".to_string(), at);
    assert!(matches!(
        r,
        Err(ConformanceFailure::Memory(MemoryError::NotFound(id))) if id == "q"
    ));
    // Under an id in use the chunk that is there comes back in its place.
    let r = assert_write_get_stats_at(&mut memory, "x", redact(), "p".to_string(), at);
    assert!(matches!(r, Err(ConformanceFailure::ContentDiffers)));
}
