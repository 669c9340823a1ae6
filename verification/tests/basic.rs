use cel_memory::{
    BasicMemoryProvider, CallerScope, ChunkKind, ChunkSource, EvictionReason, ExportFilter,
    HookReply, Importance, Json, MemoryChunk, MemoryError, MemoryPredicate, MemoryQuery,
    NewMemoryChunk, NewMemorySession, RetrievalProfile, SessionOutcome, SummaryReply, Timestamp,
};

fn nc(caller: &str, content: &str) -> NewMemoryChunk {
    NewMemoryChunk {
        kind: ChunkKind::Chat,
        source: ChunkSource::Embedded,
        session_id: None,
        project_root: None,
        caller_id: caller.into(),
        content: content.into(),
        metadata: Json::Null,
        importance: None,
        shareable: false,
        pinned: false,
    }
}

fn q(caller: &str, text: &str) -> MemoryQuery {
    MemoryQuery {
        text: text.into(),
        kinds: None,
        since: None,
        until: None,
        session_id: None,
        caller_scope: CallerScope::Own,
        project_root_prefix: None,
        k: 8,
        include_rollups: true,
        min_importance: None,
        profile: RetrievalProfile::AgentChatTurn,
        caller_id: caller.into(),
    }
}

fn write(m: &mut BasicMemoryProvider, new: NewMemoryChunk) -> MemoryChunk {
    m.write(new, HookReply::NotAsked).unwrap()
}

/// Waits until the clock shows a later instant.
fn tick() {
    let t = Timestamp::now();
    while !t.is_before(&Timestamp::now()) {}
}

#[test]
fn write_and_retrieve_round_trips() {
    let mut m = BasicMemoryProvider::new();
    let c = write(&mut m, nc("embedded", "Q4 report is filed under Workspace"));
    let hits = m.retrieve(q("embedded", "q4 report")).unwrap();
    assert_eq!(hits.len(), 1);
    assert_eq!(hits[0].id, c.id);
}

#[test]
fn retrieve_respects_caller_scope_own() {
    let mut m = BasicMemoryProvider::new();
    write(&mut m, nc("embedded", "my secret"));
    write(&mut m, nc("mcp:cursor", "my secret"));
    let hits = m.retrieve(q("embedded", "secret")).unwrap();
    assert_eq!(hits.len(), 1);
    assert_eq!(hits[0].caller_id, "embedded");
}

#[test]
fn retrieve_global_scope_sees_all() {
    let mut m = BasicMemoryProvider::new();
    write(&mut m, nc("embedded", "my secret"));
    write(&mut m, nc("mcp:cursor", "my secret"));
    let mut query = q("audit", "secret");
    query.caller_scope = CallerScope::Global;
    let hits = m.retrieve(query).unwrap();
    assert_eq!(hits.len(), 2);
}

#[test]
fn retrieve_own_plus_shared_surfaces_shareable_across_callers() {
    let mut m = BasicMemoryProvider::new();
    let mut shared = nc("mcp:cursor", "user prefers dry-run mode");
    shared.shareable = true;
    write(&mut m, shared);
    write(&mut m, nc("mcp:cursor", "user said hi to cursor"));
    write(&mut m, nc("mcp:codex", "user said hi to codex"));
    let mut query = q("embedded", "user");
    query.caller_scope = CallerScope::OwnPlusShared;
    let hits = m.retrieve(query).unwrap();
    assert_eq!(hits.len(), 1);
    assert!(hits[0].content.contains("dry-run"));
    assert!(hits[0].shareable);
}

#[test]
fn retrieve_own_plus_shared_includes_own_unshared() {
    let mut m = BasicMemoryProvider::new();
    write(&mut m, nc("embedded", "embedded private note"));
    write(&mut m, nc("mcp:cursor", "cursor private note"));
    let mut query = q("embedded", "note");
    query.caller_scope = CallerScope::OwnPlusShared;
    let hits = m.retrieve(query).unwrap();
    assert_eq!(hits.len(), 1);
    assert_eq!(hits[0].caller_id, "embedded");
}

#[test]
fn retrieve_orders_recent_first() {
    let mut m = BasicMemoryProvider::new();
    write(&mut m, nc("embedded", "first about cats"));
    tick();
    let second = write(&mut m, nc("embedded", "second about cats"));
    let hits = m.retrieve(q("embedded", "cats")).unwrap();
    assert_eq!(hits[0].id, second.id);
}

#[test]
fn retrieve_kind_filter() {
    let mut m = BasicMemoryProvider::new();
    let chat = write(&mut m, nc("embedded", "alpha"));
    let mut action = nc("embedded", "alpha");
    action.kind = ChunkKind::Action;
    let _ = write(&mut m, action);
    let mut query = q("embedded", "alpha");
    query.kinds = Some(vec![ChunkKind::Chat]);
    let hits = m.retrieve(query).unwrap();
    assert_eq!(hits.len(), 1);
    assert_eq!(hits[0].id, chat.id);
}

#[test]
fn empty_query_text_rejected() {
    let m = BasicMemoryProvider::new();
    let err = m.retrieve(q("embedded", "   ")).unwrap_err();
    assert!(matches!(err, MemoryError::InvalidArgument(_)));
}

#[test]
fn empty_content_rejected() {
    let mut m = BasicMemoryProvider::new();
    let err = m.write(nc("embedded", ""), HookReply::NotAsked).unwrap_err();
    assert!(matches!(err, MemoryError::InvalidArgument(_)));
}

#[test]
fn session_open_close() {
    let mut m = BasicMemoryProvider::new();
    let s = m
        .open_session(NewMemorySession {
            caller_id: "embedded".into(),
            title: Some("test".into()),
            metadata: Json::Null,
        })
        .unwrap();
    assert_eq!(s.outcome, SessionOutcome::Open);
    m.close_session(&s.id, SessionOutcome::Success).unwrap();
    let s2 = m.get_session(&s.id).unwrap().unwrap();
    assert_eq!(s2.outcome, SessionOutcome::Success);
    assert!(s2.ended_at.is_some());
}

#[test]
fn close_session_unknown_id_errors() {
    let mut m = BasicMemoryProvider::new();
    let err = m.close_session("nope", SessionOutcome::Success).unwrap_err();
    assert!(matches!(err, MemoryError::NotFound(_)));
}

#[test]
fn delete_matching_empty_predicate_is_noop() {
    let mut m = BasicMemoryProvider::new();
    write(&mut m, nc("embedded", "x"));
    let n = m
        .delete_matching(MemoryPredicate::default(), EvictionReason::UserDelete)
        .unwrap();
    assert_eq!(n, 0);
    let stats = m.stats().unwrap();
    assert_eq!(stats.total_chunks, 1);
}

#[test]
fn delete_matching_by_caller() {
    let mut m = BasicMemoryProvider::new();
    write(&mut m, nc("embedded", "x"));
    write(&mut m, nc("mcp:cursor", "y"));
    let n = m
        .delete_matching(
            MemoryPredicate {
                callers: Some(vec!["embedded".into()]),
                ..Default::default()
            },
            EvictionReason::UserDelete,
        )
        .unwrap();
    assert_eq!(n, 1);
    let stats = m.stats().unwrap();
    assert_eq!(stats.total_chunks, 1);
}

#[test]
fn purge_all_clears_state() {
    let mut m = BasicMemoryProvider::new();
    write(&mut m, nc("embedded", "x"));
    let _ = m
        .open_session(NewMemorySession {
            caller_id: "embedded".into(),
            title: None,
            metadata: Json::Null,
        })
        .unwrap();
    let r = m.purge_all().unwrap();
    assert_eq!(r.chunks_deleted, 1);
    assert_eq!(r.sessions_deleted, 1);
    let stats = m.stats().unwrap();
    assert_eq!(stats.total_chunks, 0);
    assert_eq!(stats.total_sessions, 0);
}

#[test]
fn summarize_without_summarizer_returns_not_implemented() {
    let mut m = BasicMemoryProvider::new();
    let err = m.plan_session_summary("anything").unwrap_err();
    assert!(matches!(err, MemoryError::NotImplemented(_)));
    let err = m
        .summarize_session(
            "anything",
            SummaryReply { summarizer: "mock".into(), outcome: Ok("recap".into()) },
            HookReply::NotAsked,
        )
        .unwrap_err();
    assert!(matches!(err, MemoryError::NotImplemented(_)));
}

#[test]
fn summarize_session_with_summarizer_writes_summary() {
    let mut m = BasicMemoryProvider::new().with_summarizer();
    let session = m
        .open_session(NewMemorySession {
            caller_id: "embedded".into(),
            title: Some("chat".into()),
            metadata: Json::Null,
        })
        .unwrap();
    let mut hello = nc("embedded", "hello");
    hello.session_id = Some(session.id.clone());
    write(&mut m, hello);

    let summary = m
        .summarize_session(
            &session.id,
            SummaryReply { summarizer: "mock".into(), outcome: Ok("session recap".into()) },
            HookReply::NotAsked,
        )
        .unwrap();
    assert_eq!(summary.kind, ChunkKind::JobSummary);
    assert_eq!(summary.content, "session recap");

    let updated = m.get_session(&session.id).unwrap().unwrap();
    assert_eq!(updated.summary.as_deref(), Some("session recap"));
}

#[test]
fn re_embed_updates_embedding_model_metadata() {
    let mut m = BasicMemoryProvider::new();
    let chunk = write(&mut m, nc("embedded", "hello"));
    assert_eq!(chunk.embedding_model, "none");

    let report = m.re_embed_all("mock-384").unwrap();
    assert_eq!(report.total, 1);
    assert_eq!(report.succeeded, 1);
    assert_eq!(report.failed, 0);

    let got = m.get(&chunk.id).unwrap().unwrap();
    assert_eq!(got.embedding_model, "mock-384");
}

#[test]
fn update_importance_and_supersede_noop() {
    let mut m = BasicMemoryProvider::new();
    let c = write(&mut m, nc("embedded", "x"));
    m.update_importance(&c.id, Importance { bits: 0.9f32.to_bits() }).unwrap();
    m.supersede(&c.id, "other").unwrap();
    let got = m.get(&c.id).unwrap().unwrap();
    assert_eq!(f32::from_bits(got.importance.bits), 0.5);
    assert!(got.superseded_by.is_none());
}

#[test]
fn export_filters_by_predicate() {
    let mut m = BasicMemoryProvider::new();
    write(&mut m, nc("embedded", "alpha"));
    write(&mut m, nc("embedded", "beta"));
    let bundle = m
        .export(ExportFilter {
            predicate: Some(MemoryPredicate {
                content_contains: Some("alpha".into()),
                ..Default::default()
            }),
            include_eviction_log: false,
            include_access_log: false,
            include_sessions: true,
        })
        .unwrap();
    assert_eq!(bundle.chunks.len(), 1);
    assert!(bundle.chunks[0].content.contains("alpha"));
}

#[test]
fn aging_sweep_deletes_old_unpinned() {
    let mut m = BasicMemoryProvider::new();
    m.write_at(
        nc("embedded", "fresh"),
        HookReply::NotAsked,
        "aged".into(),
        Timestamp::now().minus_days(45),
    )
    .unwrap();
    let r = m.run_aging_sweep().unwrap();
    assert_eq!(r.deleted, 1);
    let stats = m.stats().unwrap();
    assert_eq!(stats.total_chunks, 0);
}

#[test]
fn aging_sweep_preserves_pinned_and_corrections() {
    let mut m = BasicMemoryProvider::new();
    let long_ago = Timestamp::now().minus_days(45);
    m.write_at(nc("embedded", "pinned"), HookReply::NotAsked, "p".into(), long_ago)
        .unwrap();
    let mut correction_nc = nc("embedded", "correction");
    correction_nc.kind = ChunkKind::Correction;
    m.write_at(correction_nc, HookReply::NotAsked, "c".into(), long_ago).unwrap();
    m.pin("p", true).unwrap();
    let r = m.run_aging_sweep().unwrap();
    assert_eq!(r.deleted, 0);
}
