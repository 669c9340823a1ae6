use cel_memory::{
    BasicMemoryProvider, CallerScope, ChunkKind, ChunkSource, EvictionReason, ExportFilter,
    HookReply, Importance, Json, MemoryChunk, MemoryError, MemoryPredicate, MemoryQuery,
    MemoryTier, NewMemoryChunk, NewMemorySession, PendingWrite, RetrievalProfile, SessionFilter,
    SessionOutcome, Timestamp, WriteAction, WriteDecision,
};

fn score(f: f32) -> Importance {
    Importance { bits: f.to_bits() }
}

fn at(secs: i64) -> Timestamp {
    Timestamp::new(secs, 0).unwrap()
}

fn nc(content: &str) -> NewMemoryChunk {
    NewMemoryChunk {
        kind: ChunkKind::Chat,
        source: ChunkSource::Perception,
        session_id: None,
        project_root: None,
        caller_id: "me".into(),
        content: content.into(),
        metadata: Json::Null,
        importance: None,
        shareable: false,
        pinned: false,
    }
}

fn q(text: &str) -> MemoryQuery {
    MemoryQuery {
        text: text.into(),
        kinds: None,
        since: None,
        until: None,
        session_id: None,
        caller_scope: CallerScope::Own,
        project_root_prefix: None,
        k: 8,
        include_rollups: true,
        min_importance: None,
        profile: RetrievalProfile::AgentChatTurn,
        caller_id: "me".into(),
    }
}

fn put(m: &mut BasicMemoryProvider, new: NewMemoryChunk, id: &str, secs: i64) -> MemoryChunk {
    m.write_at(new, HookReply::NotAsked, id.into(), at(secs)).unwrap()
}

fn ids(chunks: &[MemoryChunk]) -> Vec<&str> {
    chunks.iter().map(|c| c.id.as_str()).collect()
}

fn session(caller: &str, title: Option<&str>) -> NewMemorySession {
    NewMemorySession {
        caller_id: caller.into(),
        title: title.map(|t| t.to_string()),
        metadata: Json::Bool(true),
    }
}

#[test]
fn a_write_is_read_back_field_by_field() {
    let mut m = BasicMemoryProvider::new();
    let mut new = nc("text");
    new.session_id = Some("s".into());
    new.project_root = Some("/p".into());
    new.metadata = Json::Object(vec![("k".to_string(), Json::PosInt(1))]);
    new.shareable = true;
    new.pinned = true;
    new.importance = Some(score(0.75));
    let answer = m
        .write_at(new, HookReply::NotAsked, "id".into(), at(7))
        .unwrap();
    let c = m.get("id").unwrap().unwrap();
    assert_eq!(answer.id, c.id);
    assert_eq!(c.id, "id");
    assert_eq!(c.created_at, at(7));
    assert_eq!(c.kind, ChunkKind::Chat);
    assert_eq!(c.tier, MemoryTier::Session);
    assert_eq!(c.source, ChunkSource::Perception);
    assert_eq!(c.session_id.as_deref(), Some("s"));
    assert_eq!(c.project_root.as_deref(), Some("/p"));
    assert_eq!(c.caller_id, "me");
    assert_eq!(c.content, "text");
    assert!(matches!(&c.metadata, Json::Object(v) if v.len() == 1 && v[0].0 == "k"));
    assert_eq!(c.importance, score(0.75));
    assert!(c.pinned && c.shareable);
    assert!(c.superseded_by.is_none());
    assert_eq!(c.embedding_model, "none");
    assert_eq!(c.embedding_dim, 0);
    assert!(m.get("other").unwrap().is_none());
}

#[test]
fn fresh_ids_are_version_seven_uuids() {
    let mut m = BasicMemoryProvider::new();
    let a = m.write(nc("a"), HookReply::NotAsked).unwrap();
    let b = m.write(nc("b"), HookReply::NotAsked).unwrap();
    assert_ne!(a.id, b.id);
    let id: Vec<char> = a.id.chars().collect();
    assert_eq!(id.len(), 36);
    for (i, c) in id.iter().enumerate() {
        if i == 8 || i == 13 || i == 18 || i == 23 {
            assert_eq!(*c, '-');
        } else {
            assert!(c.is_ascii_digit() || ('a'..='f').contains(c));
        }
    }
    assert_eq!(id[14], '7');
    assert!(['8', '9', 'a', 'b'].contains(&id[19]));
}

#[test]
fn a_hook_is_asked_only_where_there_is_one() {
    let m = BasicMemoryProvider::new();
    assert_eq!(m.admit_write(&nc("x")).unwrap(), WriteAction::Store);
    let m = m.with_write_hook();
    assert_eq!(m.admit_write(&nc("x")).unwrap(), WriteAction::AskHook);
    assert!(matches!(
        m.admit_write(&nc("\u{3000}\t")),
        Err(MemoryError::InvalidArgument(s)) if s == "content must not be empty"
    ));
}

#[test]
fn a_redacted_write_is_answered_and_not_kept() {
    let mut m = BasicMemoryProvider::new().with_write_hook();
    let mut new = nc("my secret");
    new.metadata = Json::Text("secret".into());
    new.importance = Some(score(0.9));
    new.shareable = true;
    new.pinned = true;
    let c = m
        .write_at(
            new,
            HookReply::Decided(WriteDecision::Redact { reason: "policy".into() }),
            "r".into(),
            at(1),
        )
        .unwrap();
    assert_eq!(c.content, "<redacted: policy>");
    assert!(matches!(
        &c.metadata,
        Json::Object(v) if v.len() == 2
            && v[0].0 == "reason" && matches!(&v[0].1, Json::Text(t) if t == "policy")
            && v[1].0 == "redacted" && matches!(v[1].1, Json::Bool(true))
    ));
    assert_eq!(c.importance, score(0.0));
    assert!(!c.pinned && !c.shareable);
    assert_eq!(c.embedding_model, "none");
    assert!(m.get("r").unwrap().is_none());
    assert_eq!(m.stats().unwrap().total_chunks, 0);
}

#[test]
fn an_allowed_write_is_kept_and_a_failed_hook_stops_it() {
    let mut m = BasicMemoryProvider::new().with_write_hook();
    let c = m
        .write(nc("x"), HookReply::Decided(WriteDecision::Allow))
        .unwrap();
    assert_eq!(c.content, "x");
    let e = m
        .write(
            nc("y"),
            HookReply::Failed(MemoryError::Storage("disk".into())),
        )
        .unwrap_err();
    assert!(matches!(e, MemoryError::Storage(s) if s == "disk"));
    // Blank content is refused before the hook counts.
    let e = m
        .write(
            nc(" "),
            HookReply::Failed(MemoryError::Storage("disk".into())),
        )
        .unwrap_err();
    assert!(matches!(e, MemoryError::InvalidArgument(s) if s == "content must not be empty"));
    assert_eq!(m.stats().unwrap().total_chunks, 1);
}

#[test]
fn a_batch_stops_at_the_first_failure_and_keeps_what_went_before() {
    let pending = |text: &str| PendingWrite {
        chunk: nc(text),
        reply: HookReply::NotAsked,
    };
    let mut m = BasicMemoryProvider::new();
    let out = m.write_batch(vec![pending("a"), pending("b")]).unwrap();
    assert_eq!(out.len(), 2);
    assert_eq!(out[0].content, "a");
    assert_eq!(out[1].content, "b");
    assert!(m.write_batch(vec![]).unwrap().is_empty());
    let e = m
        .write_batch(vec![pending("c"), pending(""), pending("d")])
        .unwrap_err();
    assert!(matches!(e, MemoryError::InvalidArgument(_)));
    assert_eq!(m.stats().unwrap().total_chunks, 3);
}

#[test]
fn retrieval_filters_one_by_one() {
    let mut m = BasicMemoryProvider::new();
    let mut a = nc("note");
    a.session_id = Some("s1".into());
    a.project_root = Some("/work/app".into());
    put(&mut m, a, "a", 10);
    let mut b = nc("note");
    b.kind = ChunkKind::Rollup;
    put(&mut m, b, "b", 20);
    let mut c = nc("note");
    c.importance = Some(score(0.1));
    put(&mut m, c, "c", 30);

    assert_eq!(ids(&m.retrieve(q("note")).unwrap()), ["c", "b", "a"]);
    let with = |change: &dyn Fn(&mut MemoryQuery)| {
        let mut query = q("note");
        change(&mut query);
        query
    };
    let found = |change: &dyn Fn(&mut MemoryQuery)| {
        let hits = m.retrieve(with(change)).unwrap();
        hits.iter().map(|c| c.id.clone()).collect::<Vec<String>>()
    };
    assert_eq!(found(&|q| q.include_rollups = false), ["c", "a"]);
    assert_eq!(found(&|q| q.kinds = Some(vec![ChunkKind::Rollup])), ["b"]);
    assert_eq!(found(&|q| q.kinds = Some(vec![])), Vec::<String>::new());
    assert_eq!(found(&|q| q.since = Some(at(20))), ["c", "b"]);
    assert_eq!(found(&|q| q.until = Some(at(20))), ["b", "a"]);
    assert_eq!(found(&|q| q.session_id = Some("s1".into())), ["a"]);
    assert_eq!(found(&|q| q.session_id = Some("s2".into())), Vec::<String>::new());
    assert_eq!(found(&|q| q.project_root_prefix = Some("/work".into())), ["a"]);
    assert_eq!(found(&|q| q.project_root_prefix = Some("work".into())), Vec::<String>::new());
    assert_eq!(found(&|q| q.min_importance = Some(score(0.5))), ["b", "a"]);
    assert_eq!(found(&|q| q.k = 1), ["c"]);
    assert_eq!(found(&|q| q.k = 0), Vec::<String>::new());
    assert_eq!(found(&|q| q.caller_id = "you".into()), Vec::<String>::new());
}

#[test]
fn retrieval_ignores_letter_case_and_looks_for_substrings() {
    let mut m = BasicMemoryProvider::new();
    put(&mut m, nc("Stra\u{df}e \u{c9}COLE"), "a", 1);
    assert_eq!(m.retrieve(q("\u{e9}cole")).unwrap().len(), 1);
    assert_eq!(m.retrieve(q("STRA\u{df}E")).unwrap().len(), 1);
    assert_eq!(m.retrieve(q("e \u{e9}c")).unwrap().len(), 1);
    assert_eq!(m.retrieve(q("ecole")).unwrap().len(), 0);
    let e = m.retrieve(q("\n\u{2003}")).unwrap_err();
    assert!(matches!(e, MemoryError::InvalidArgument(s) if s == "query.text must not be empty"));
}

#[test]
fn lowered_forms_decide_a_hit() {
    let mut m = BasicMemoryProvider::new();
    let c = put(&mut m, nc("ABC"), "a", 1);
    let query = q("B");
    assert!(query.accepts(&c));
    assert!(query.hits_lowered(&c, "abc", "b"));
    assert!(query.hits_lowered(&c, "abc", ""));
    assert!(query.hits_lowered(&c, "", ""));
    assert!(!query.hits_lowered(&c, "abc", "ac"));
    assert!(!query.hits_lowered(&c, "", "a"));
    let p = MemoryPredicate { content_contains: Some("B".into()), ..Default::default() };
    assert!(p.holds_lowered(&c, "abc", "b"));
    assert!(!p.holds_lowered(&c, "abc", "d"));
    assert!(MemoryPredicate::default().holds_lowered(&c, "abc", "d"));
}

#[test]
fn a_nan_is_below_nothing() {
    let mut m = BasicMemoryProvider::new();
    let mut n = nc("x");
    n.importance = Some(score(f32::NAN));
    put(&mut m, n, "n", 1);
    let mut query = q("x");
    query.min_importance = Some(score(0.5));
    assert_eq!(m.retrieve(query).unwrap().len(), 1);
    let below = MemoryPredicate { importance_below: Some(score(0.5)), ..Default::default() };
    assert_eq!(m.delete_matching(below, EvictionReason::UserDelete).unwrap(), 1);
}

#[test]
fn predicates_condition_by_condition() {
    let mut m = BasicMemoryProvider::new();
    let mut a = nc("Alpha");
    a.session_id = Some("s1".into());
    a.project_root = Some("/work".into());
    a.pinned = true;
    let a = put(&mut m, a, "a", 10);
    let holds = |p: MemoryPredicate| cel_memory::query::chunk_matches(&a, &p);
    let none = MemoryPredicate::default;
    assert!(none().is_empty());
    assert!(holds(none()));
    assert!(holds(MemoryPredicate { kinds: Some(vec![ChunkKind::Chat]), ..none() }));
    assert!(!holds(MemoryPredicate { kinds: Some(vec![]), ..none() }));
    assert!(holds(MemoryPredicate { callers: Some(vec!["x".into(), "me".into()]), ..none() }));
    assert!(!holds(MemoryPredicate { callers: Some(vec!["x".into()]), ..none() }));
    assert!(holds(MemoryPredicate { session_ids: Some(vec!["s1".into()]), ..none() }));
    assert!(!holds(MemoryPredicate { session_ids: Some(vec!["s".into()]), ..none() }));
    assert!(holds(MemoryPredicate { project_root_prefix: Some("/w".into()), ..none() }));
    assert!(!holds(MemoryPredicate { project_root_prefix: Some("/x".into()), ..none() }));
    assert!(holds(MemoryPredicate { before: Some(at(11)), ..none() }));
    assert!(!holds(MemoryPredicate { before: Some(at(10)), ..none() }));
    assert!(holds(MemoryPredicate { after: Some(at(9)), ..none() }));
    assert!(!holds(MemoryPredicate { after: Some(at(10)), ..none() }));
    assert!(holds(MemoryPredicate { pinned: Some(true), ..none() }));
    assert!(!holds(MemoryPredicate { pinned: Some(false), ..none() }));
    assert!(holds(MemoryPredicate { importance_below: Some(score(0.6)), ..none() }));
    assert!(!holds(MemoryPredicate { importance_below: Some(score(0.5)), ..none() }));
    assert!(holds(MemoryPredicate { content_contains: Some("LPH".into()), ..none() }));
    assert!(!holds(MemoryPredicate { content_contains: Some("beta".into()), ..none() }));
    assert!(!MemoryPredicate { pinned: Some(true), ..none() }.is_empty());
}

#[test]
fn a_chunk_without_session_or_project_meets_no_condition_on_them() {
    let mut m = BasicMemoryProvider::new();
    let c = put(&mut m, nc("x"), "a", 1);
    let p = MemoryPredicate { session_ids: Some(vec!["s".into()]), ..Default::default() };
    assert!(!cel_memory::query::chunk_matches(&c, &p));
    let p = MemoryPredicate { project_root_prefix: Some("".into()), ..Default::default() };
    assert!(!cel_memory::query::chunk_matches(&c, &p));
}

#[test]
fn a_delete_removes_one_chunk_and_logs_it() {
    let mut m = BasicMemoryProvider::new();
    put(&mut m, nc("a"), "a", 1);
    put(&mut m, nc("b"), "b", 2);
    m.delete_at("a", EvictionReason::UserDelete, at(5)).unwrap();
    assert!(m.get("a").unwrap().is_none());
    assert!(m.get("b").unwrap().is_some());
    let e = m.delete("a", EvictionReason::UserDelete).unwrap_err();
    assert!(matches!(e, MemoryError::NotFound(s) if s == "chunk a"));
    let log = m
        .export(ExportFilter {
            predicate: None,
            include_eviction_log: true,
            include_access_log: false,
            include_sessions: false,
        })
        .unwrap()
        .evictions;
    assert_eq!(log.len(), 1);
    assert_eq!(log[0].chunk_id, "a");
    assert_eq!(log[0].ts, at(5));
    assert_eq!(log[0].reason, EvictionReason::UserDelete);
    assert!(matches!(log[0].metadata, Json::Null));
}

#[test]
fn a_sweep_deletes_what_matches_and_logs_each_once() {
    let mut m = BasicMemoryProvider::new();
    put(&mut m, nc("old one"), "a", 1);
    put(&mut m, nc("old two"), "b", 2);
    put(&mut m, nc("new"), "c", 3);
    let p = || MemoryPredicate { content_contains: Some("OLD".into()), ..Default::default() };
    assert_eq!(m.delete_matching_at(p(), EvictionReason::UserDelete, at(9)).unwrap(), 2);
    assert_eq!(m.delete_matching(p(), EvictionReason::UserDelete).unwrap(), 0);
    assert!(m.get("c").unwrap().is_some());
    let bundle = m
        .export(ExportFilter {
            predicate: None,
            include_eviction_log: true,
            include_access_log: true,
            include_sessions: true,
        })
        .unwrap();
    let mut gone: Vec<&str> = bundle.evictions.iter().map(|e| e.chunk_id.as_str()).collect();
    gone.sort();
    assert_eq!(gone, ["a", "b"]);
    assert!(bundle.evictions.iter().all(|e| e.ts == at(9)));
}

#[test]
fn aging_spares_what_is_not_older_than_the_cutoff() {
    let mut m = BasicMemoryProvider::new();
    put(&mut m, nc("x"), "before", 99);
    put(&mut m, nc("x"), "at", 100);
    put(&mut m, nc("x"), "after", 101);
    let r = m.run_aging_sweep_at(at(100), at(200)).unwrap();
    assert_eq!(r.deleted, 1);
    assert_eq!(r.tier_promoted, 0);
    assert_eq!(r.bytes_reclaimed, 0);
    assert_eq!(r.deletions_by_reason, vec![(EvictionReason::Aging, 1)]);
    assert!(m.get("before").unwrap().is_none());
    assert!(m.get("at").unwrap().is_some());
    assert!(m.get("after").unwrap().is_some());
}

#[test]
fn aging_keeps_thirty_days() {
    let mut m = BasicMemoryProvider::new();
    let days = |n: i64| Timestamp::now().minus_days(n);
    m.write_at(nc("x"), HookReply::NotAsked, "29".into(), days(29)).unwrap();
    m.write_at(nc("x"), HookReply::NotAsked, "31".into(), days(31)).unwrap();
    assert_eq!(m.run_aging_sweep().unwrap().deleted, 1);
    assert!(m.get("29").unwrap().is_some());
    assert!(m.get("31").unwrap().is_none());
}

#[test]
fn pins_go_on_and_off() {
    let mut m = BasicMemoryProvider::new();
    put(&mut m, nc("x"), "a", 1);
    m.pin("a", true).unwrap();
    assert!(m.get("a").unwrap().unwrap().pinned);
    m.pin("a", false).unwrap();
    assert!(!m.get("a").unwrap().unwrap().pinned);
    let e = m.pin("b", true).unwrap_err();
    assert!(matches!(e, MemoryError::NotFound(s) if s == "chunk b"));
}

#[test]
fn accesses_are_logged_in_order() {
    let mut m = BasicMemoryProvider::new();
    put(&mut m, nc("x"), "a", 1);
    m.record_access_at("a", "agent", true, at(4)).unwrap();
    m.record_access("a", "audit", false).unwrap();
    let e = m.record_access("b", "agent", true).unwrap_err();
    assert!(matches!(e, MemoryError::NotFound(s) if s == "chunk b"));
    let log = m
        .export(ExportFilter {
            predicate: None,
            include_eviction_log: false,
            include_access_log: true,
            include_sessions: false,
        })
        .unwrap()
        .accesses;
    assert_eq!(log.len(), 2);
    assert_eq!(log[0].ts, at(4));
    assert_eq!(log[0].chunk_id, "a");
    assert_eq!(log[0].retrieved_by, "agent");
    assert_eq!(log[0].query_hash, "");
    assert_eq!(log[0].rank, 0);
    assert!(log[0].used && !log[1].used);
}

#[test]
fn sessions_are_listed_by_filter_newest_first() {
    let mut m = BasicMemoryProvider::new();
    m.open_session_at(session("me", Some("one")), "s1".into(), at(10)).unwrap();
    m.open_session_at(session("you", None), "s2".into(), at(20)).unwrap();
    m.open_session_at(session("me", None), "s3".into(), at(30)).unwrap();
    m.close_session_at("s1", SessionOutcome::Success, at(40)).unwrap();
    m.close_session_at("s3", SessionOutcome::Open, at(50)).unwrap();
    let found = |f: SessionFilter| {
        let v = m.list_sessions(f).unwrap();
        v.iter().map(|s| s.id.clone()).collect::<Vec<String>>()
    };
    let all = SessionFilter::default;
    assert_eq!(found(all()), ["s3", "s2", "s1"]);
    assert_eq!(found(SessionFilter { caller_id: Some("me".into()), ..all() }), ["s3", "s1"]);
    assert_eq!(found(SessionFilter { open_only: true, ..all() }), ["s2"]);
    assert_eq!(
        found(SessionFilter { outcome: Some(SessionOutcome::Aborted), ..all() }),
        ["s3"]
    );
    assert_eq!(found(SessionFilter { since: Some(at(20)), ..all() }), ["s3", "s2"]);
    assert_eq!(found(SessionFilter { until: Some(at(20)), ..all() }), ["s2", "s1"]);
    assert_eq!(found(SessionFilter { limit: Some(1), ..all() }), ["s3"]);
    assert_eq!(found(SessionFilter { limit: Some(9), ..all() }), ["s3", "s2", "s1"]);
    let s1 = m.get_session("s1").unwrap().unwrap();
    assert_eq!(s1.ended_at, Some(at(40)));
    assert_eq!(s1.title.as_deref(), Some("one"));
    assert!(matches!(s1.metadata, Json::Bool(true)));
    assert!(m.get_session("s4").unwrap().is_none());
}

#[test]
fn closing_never_leaves_a_session_open() {
    let mut m = BasicMemoryProvider::new();
    let s = m.open_session(session("me", None)).unwrap();
    m.close_session(&s.id, SessionOutcome::Open).unwrap();
    let s = m.get_session(&s.id).unwrap().unwrap();
    assert_eq!(s.outcome, SessionOutcome::Aborted);
    let e = m.close_session("x", SessionOutcome::Success).unwrap_err();
    assert!(matches!(e, MemoryError::NotFound(t) if t == "session x"));
}

#[test]
fn sessions_can_be_renamed() {
    let mut m = BasicMemoryProvider::new();
    let s = m.open_session(session("me", None)).unwrap();
    m.rename_session(&s.id, "title").unwrap();
    let s = m.get_session(&s.id).unwrap().unwrap();
    assert_eq!(s.title.as_deref(), Some("title"));
    assert_eq!(s.outcome, SessionOutcome::Open);
    let e = m.rename_session("x", "t").unwrap_err();
    assert!(matches!(e, MemoryError::NotFound(t) if t == "session x"));
}

#[test]
fn an_export_takes_the_sessions_of_its_chunks() {
    let mut m = BasicMemoryProvider::new();
    m.open_session_at(session("me", None), "s1".into(), at(1)).unwrap();
    m.open_session_at(session("me", None), "s2".into(), at(2)).unwrap();
    let mut a = nc("alpha");
    a.session_id = Some("s1".into());
    put(&mut m, a, "a", 1);
    put(&mut m, nc("beta"), "b", 2);
    let filter = |predicate, include_sessions| ExportFilter {
        predicate,
        include_eviction_log: false,
        include_access_log: false,
        include_sessions,
    };
    let bundle = m.export(filter(None, true)).unwrap();
    assert_eq!(bundle.chunks.len(), 2);
    assert_eq!(bundle.sessions.len(), 1);
    assert_eq!(bundle.sessions[0].id, "s1");
    let bundle = m.export(filter(Some(MemoryPredicate::default()), false)).unwrap();
    assert_eq!(bundle.chunks.len(), 2);
    assert!(bundle.sessions.is_empty());
    let beta = MemoryPredicate { content_contains: Some("beta".into()), ..Default::default() };
    let bundle = m.export(filter(Some(beta), true)).unwrap();
    assert_eq!(ids(&bundle.chunks), ["b"]);
    assert!(bundle.sessions.is_empty());
}

#[test]
fn figures_count_tiers_and_open_sessions() {
    let mut m = BasicMemoryProvider::default();
    put(&mut m, nc("a"), "a", 1);
    put(&mut m, nc("b"), "b", 2);
    m.open_session_at(session("me", None), "s1".into(), at(1)).unwrap();
    m.open_session_at(session("me", None), "s2".into(), at(2)).unwrap();
    m.close_session("s1", SessionOutcome::Success).unwrap();
    let s = m.stats().unwrap();
    assert_eq!(s.total_chunks, 2);
    assert_eq!(s.session_chunks, 2);
    assert_eq!(s.long_term_chunks, 0);
    assert_eq!(s.session_chunks + s.long_term_chunks, s.total_chunks);
    assert_eq!(s.total_sessions, 2);
    assert_eq!(s.open_sessions, 1);
    assert_eq!(s.db_bytes, 0);
    assert!(s.embedding_model.is_none());
    m.re_embed_all("mock-8").unwrap();
    assert_eq!(m.stats().unwrap().embedding_model.as_deref(), Some("mock-8"));
    m.re_embed_all("none").unwrap();
    assert!(m.stats().unwrap().embedding_model.is_none());
}

#[test]
fn a_purge_clears_the_logs_too() {
    let mut m = BasicMemoryProvider::new().with_summarizer();
    put(&mut m, nc("a"), "a", 1);
    put(&mut m, nc("b"), "b", 2);
    m.record_access("a", "x", true).unwrap();
    m.delete("b", EvictionReason::UserDelete).unwrap();
    m.open_session(session("me", None)).unwrap();
    let r = m.purge_all().unwrap();
    assert_eq!(r.chunks_deleted, 1);
    assert_eq!(r.sessions_deleted, 1);
    assert_eq!(r.access_log_deleted, 1);
    assert_eq!(r.eviction_log_deleted, 1);
    let r = m.purge_all().unwrap();
    assert_eq!(
        (r.chunks_deleted, r.sessions_deleted, r.access_log_deleted, r.eviction_log_deleted),
        (0, 0, 0, 0)
    );
    assert!(m.has_summarizer());
    let bundle = m
        .export(ExportFilter {
            predicate: None,
            include_eviction_log: true,
            include_access_log: true,
            include_sessions: true,
        })
        .unwrap();
    assert!(bundle.chunks.is_empty() && bundle.sessions.is_empty());
    assert!(bundle.evictions.is_empty() && bundle.accesses.is_empty());
    m.attach(true, false);
    assert!(!m.has_summarizer());
    assert_eq!(m.admit_write(&nc("x")).unwrap(), WriteAction::AskHook);
}

#[test]
fn an_estimate_counts_and_half_stands_in_for_none() {
    let mut new = nc("x");
    assert_eq!(cel_memory::score_importance(&new), score(0.5));
    new.importance = Some(score(0.9));
    assert_eq!(cel_memory::score_importance(&new), score(0.9));
    let mut m = BasicMemoryProvider::new();
    assert_eq!(put(&mut m, nc("x"), "a", 1).importance, score(0.5));
    assert_eq!(put(&mut m, new, "b", 2).importance, score(0.9));
    assert_eq!(m.get("b").unwrap().unwrap().importance, score(0.9));
}

#[test]
fn a_write_adds_one_chunk() {
    let mut m = BasicMemoryProvider::new();
    put(&mut m, nc("a"), "a", 1);
    m.open_session(session("me", None)).unwrap();
    let c = m.write(nc("b"), HookReply::NotAsked).unwrap();
    let s = m.stats().unwrap();
    assert_eq!(s.total_chunks, 2);
    assert_eq!(s.total_sessions, 1);
    assert_eq!(m.get("a").unwrap().unwrap().content, "a");
    assert_eq!(m.get(&c.id).unwrap().unwrap().content, "b");
    assert!(c.created_at.unix_secs() >= 0 && c.created_at.subsec_nanos() < 1_000_000_000);
}

#[test]
fn redacted_answers_are_alike() {
    let mut m = BasicMemoryProvider::new().with_write_hook();
    let mut redacted = |content: &str, metadata: Json| {
        let mut new = nc(content);
        new.metadata = metadata;
        let reply = HookReply::Decided(WriteDecision::Redact { reason: "policy".into() });
        let mut c = m.write(new, reply).unwrap();
        assert!(m.get(&c.id).unwrap().is_none());
        c.id = String::new();
        c.created_at = at(0);
        format!("{c:?}")
    };
    assert_eq!(redacted("one", Json::Null), redacted("two", Json::Bool(true)));
}

#[test]
fn no_call_moves_a_chunk_out_of_its_tier() {
    let mut m = BasicMemoryProvider::new();
    let c = put(&mut m, nc("a"), "a", 1);
    m.pin(&c.id, true).unwrap();
    m.update_importance(&c.id, score(0.9)).unwrap();
    m.supersede(&c.id, "b").unwrap();
    m.re_embed_all("mock-8").unwrap();
    m.run_aging_sweep().unwrap();
    let c = m.get("a").unwrap().unwrap();
    assert_eq!(c.tier, MemoryTier::Session);
    assert_eq!(c.embedding_dim, 0);
    assert!(c.superseded_by.is_none());
    let s = m.stats().unwrap();
    assert_eq!((s.session_chunks, s.long_term_chunks), (1, 0));
}
