//! The reference memory: everything in one process, nothing on disk.
//!
//! [`BasicMemoryProvider`] retrieves by text and recency, keeps sessions, logs
//! deletions and accesses, and ages what is old. The steps of summaries and
//! rollups stand in [`crate::rollup`].
//!
//! A write may have to wait for a hook, and a summary for a summarizer; both
//! are asked outside. The memory says what to ask ([`WriteAction`], a plan of
//! a summary) and takes the reply as an argument.

use crate::chunk::{ChunkKind, ChunkView, MemoryChunk, MemoryTier, NewMemoryChunk};
use crate::error::{ErrorView, MemoryError, MemoryResult};
use crate::ids::{is_uuid_v7, next_id};
use crate::importance::{score, Importance};
use crate::json::Json;
use crate::listing::{
    count, find_match, list_all, list_newest, list_oldest_first, listed_under, lists, matching,
    newest, oldest_first, positions_of, select, some_match, table_view, views,
};
use crate::model::{
    aged, aging_report, batch_done, batch_failed, batch_result, batch_runs, chunk_not_found,
    embedded, embedded_by, export_result, exported_sessions, held_by, hit_by, in_tier, let_through,
    linked, names_matches, reply_fits, retention_cutoff, session_not_found, stats_of, still_open,
    swept, wanted_by, with_model, write_result, MemoryView, RETENTION_DAYS,
};
use crate::ops::{
    access, eviction, AccessEntry, AccessView, AgingReport, EvictionEntry, EvictionReason,
    EvictionView, ExportBundle, ExportFilter, MemoryStats, PurgeReport, ReEmbedReport,
};
use crate::query::{chunk_matches, has_text, MemoryPredicate, MemoryQuery};
use crate::session::{
    closing_outcome, opened, MemorySession, NewMemorySession, SessionFilter, SessionOutcome,
    SessionView,
};
use crate::table::{distinct_keys, lemma_key_row, lemma_row, row_of, rows_map, Table};
use crate::text::{blank, is_blank, str_to_lowercase, texts};
use crate::time::{clock_elapsed_ms, clock_start, Timestamp};
use crate::write_hook::{HookReply, PendingWrite, WriteAction, WriteDecision};
use vstd::prelude::*;
use vstd::string::StringExecFns;

verus! {

/// The reference memory.
#[derive(Debug)]
pub struct BasicMemoryProvider {
    pub(crate) chunks: Table<MemoryChunk>,
    pub(crate) sessions: Table<MemorySession>,
    pub(crate) evictions: Vec<EvictionEntry>,
    pub(crate) accesses: Vec<AccessEntry>,
    pub(crate) summary_members: Table<Vec<String>>,
    pub(crate) write_hook: bool,
    pub(crate) summarizer: bool,
}

/// The member lists of a table of them.
pub open spec fn members_view(t: Table<Vec<String>>) -> Map<Seq<char>, Seq<Seq<char>>> {
    t@.map_values(|v: Vec<String>| texts(v@))
}

impl View for BasicMemoryProvider {
    type V = MemoryView;

    closed spec fn view(&self) -> MemoryView {
        MemoryView {
            chunks: table_view(self.chunks),
            sessions: table_view(self.sessions),
            evictions: views(self.evictions@),
            accesses: views(self.accesses@),
            members: members_view(self.summary_members),
            write_hook: self.write_hook,
            summarizer: self.summarizer,
        }
    }
}

/// The error for a missing chunk.
pub(crate) fn no_chunk(id: &str) -> (r: MemoryError)
    ensures
        r@ == chunk_not_found(id@),
{
    let mut s: String = "chunk ".to_owned();
    s.append(id);
    MemoryError::NotFound(s)
}

/// The error for a missing session.
pub(crate) fn no_session(id: &str) -> (r: MemoryError)
    ensures
        r@ == session_not_found(id@),
{
    let mut s: String = "session ".to_owned();
    s.append(id);
    MemoryError::NotFound(s)
}

impl BasicMemoryProvider {
    /// The invariant of the memory.
    pub closed spec fn wf(&self) -> bool {
        &&& self.chunks.wf()
        &&& self.sessions.wf()
        &&& self.summary_members.wf()
        &&& self@.coherent()
    }

    /// Every well-formed memory is coherent.
    pub proof fn lemma_coherent(&self)
        requires
            self.wf(),
        ensures
            self@.coherent(),
    {
    }

    /// An empty memory without hook and summarizer.
    pub fn new() -> (r: BasicMemoryProvider)
        ensures
            r.wf(),
            r@.blank_slate(),
            !r@.write_hook,
            !r@.summarizer,
    {
        let r = BasicMemoryProvider {
            chunks: Table::new(),
            sessions: Table::new(),
            evictions: Vec::new(),
            accesses: Vec::new(),
            summary_members: Table::new(),
            write_hook: false,
            summarizer: false,
        };
        proof {
            assert(r@.chunks =~= Map::<Seq<char>, ChunkView>::empty());
            assert(r@.sessions =~= Map::<Seq<char>, SessionView>::empty());
            assert(r@.evictions =~= Seq::<EvictionView>::empty());
            assert(r@.accesses =~= Seq::<AccessView>::empty());
            assert(r@.members =~= Map::<Seq<char>, Seq<Seq<char>>>::empty());
        }
        r
    }

    /// The memory with a hook that every write has to pass.
    pub fn with_write_hook(self) -> (r: BasicMemoryProvider)
        requires
            self.wf(),
        ensures
            r.wf(),
            r@ == (MemoryView { write_hook: true, ..self@ }),
    {
        BasicMemoryProvider { write_hook: true, ..self }
    }

    /// The memory with a summarizer for summaries and rollups.
    pub fn with_summarizer(self) -> (r: BasicMemoryProvider)
        requires
            self.wf(),
        ensures
            r.wf(),
            r@ == (MemoryView { summarizer: true, ..self@ }),
    {
        BasicMemoryProvider { summarizer: true, ..self }
    }

    /// Sets whether there are a hook and a summarizer, for a memory that is
    /// shared by holders with hooks and summarizers of their own.
    pub fn attach(&mut self, write_hook: bool, summarizer: bool)
        requires
            old(self).wf(),
        ensures
            final(self).wf(),
            final(self)@ == (MemoryView { write_hook, summarizer, ..old(self)@ }),
    {
        self.write_hook = write_hook;
        self.summarizer = summarizer;
    }

    // Reads

    /// The chunks that the query hits, newest first, at most `k` of them.
    pub fn retrieve(&self, query: MemoryQuery) -> (r: MemoryResult<Vec<MemoryChunk>>)
        requires
            self.wf(),
        ensures
            match r {
                Ok(hits) => !blank(query.text@) && newest::<MemoryChunk>(
                    views(hits@),
                    self@.chunks,
                    hit_by(query),
                    Some(query.k),
                ),
                Err(e) => blank(query.text@) && e@ == ErrorView::InvalidArgument(
                    "query.text must not be empty"@,
                ),
            },
    {
        if is_blank(query.text.as_str()) {
            return Err(MemoryError::InvalidArgument("query.text must not be empty".to_owned()));
        }
        let needle: String = str_to_lowercase(query.text.as_str());
        let q: &MemoryQuery = &query;
        let is_hit = |c: &MemoryChunk| -> (b: bool)
            ensures
                b == q.hits(c@),
        {
            q.is_hit(c, &needle)
        };
        let hits: Vec<MemoryChunk> = list_newest(
            &self.chunks,
            is_hit,
            Ghost(hit_by(query)),
            Some(query.k),
        );
        Ok(hits)
    }

    /// The chunk with the given id.
    pub fn get(&self, chunk_id: &str) -> (r: MemoryResult<Option<MemoryChunk>>)
        requires
            self.wf(),
        ensures
            match r {
                Ok(Some(c)) => self@.chunks.contains_key(chunk_id@) && self@.chunks[chunk_id@]
                    == c@,
                Ok(None) => !self@.chunks.contains_key(chunk_id@),
                Err(_) => false,
            },
    {
        match self.chunks.get(chunk_id) {
            Some(c) => Ok(Some(c.clone())),
            None => Ok(None),
        }
    }

    /// The session with the given id.
    pub fn get_session(&self, session_id: &str) -> (r: MemoryResult<Option<MemorySession>>)
        requires
            self.wf(),
        ensures
            match r {
                Ok(Some(s)) => self@.sessions.contains_key(session_id@)
                    && self@.sessions[session_id@] == s@,
                Ok(None) => !self@.sessions.contains_key(session_id@),
                Err(_) => false,
            },
    {
        match self.sessions.get(session_id) {
            Some(s) => Ok(Some(s.clone())),
            None => Ok(None),
        }
    }

    /// The sessions that the filter lets through, newest first.
    pub fn list_sessions(&self, filter: SessionFilter) -> (r: MemoryResult<Vec<MemorySession>>)
        requires
            self.wf(),
        ensures
            r matches Ok(out) && newest::<MemorySession>(
                views(out@),
                self@.sessions,
                let_through(filter),
                filter.limit,
            ),
    {
        let f: &SessionFilter = &filter;
        let accepted = |s: &MemorySession| -> (b: bool)
            ensures
                b == f.admits(s@),
        {
            f.accepts(s)
        };
        let out: Vec<MemorySession> = list_newest(
            &self.sessions,
            accepted,
            Ghost(let_through(filter)),
            filter.limit,
        );
        Ok(out)
    }

    /// Whether there is a summarizer.
    pub fn has_summarizer(&self) -> (r: bool)
        ensures
            r == self@.summarizer,
    {
        self.summarizer
    }

    /// The chunks that satisfy `p`, oldest first.
    pub(crate) fn chunks_oldest_first<F: Fn(&MemoryChunk) -> bool>(
        &self,
        f: F,
        Ghost(p): Ghost<spec_fn(ChunkView) -> bool>,
    ) -> (r: Vec<MemoryChunk>)
        requires
            self.wf(),
            forall|c: &MemoryChunk| f.requires((c,)),
            forall|c: &MemoryChunk, b: bool| f.ensures((c,), b) ==> b == p(c@),
        ensures
            lists(views(r@), self@.chunks, p),
            oldest_first::<MemoryChunk>(views(r@)),
    {
        list_oldest_first(&self.chunks, f, Ghost(p))
    }

    /// Whether some chunk satisfies `p`.
    pub(crate) fn any_chunk<F: Fn(&MemoryChunk) -> bool>(
        &self,
        f: F,
        Ghost(p): Ghost<spec_fn(ChunkView) -> bool>,
    ) -> (r: bool)
        requires
            self.wf(),
            forall|c: &MemoryChunk| f.requires((c,)),
            forall|c: &MemoryChunk, b: bool| f.ensures((c,), b) ==> b == p(c@),
        ensures
            r == some_match(self@.chunks, p),
    {
        find_match(&self.chunks, f, Ghost(p)).is_some()
    }

    // Writes

    /// What has to be asked before the chunk can be written.
    pub fn admit_write(&self, new_chunk: &NewMemoryChunk) -> (r: MemoryResult<WriteAction>)
        ensures
            match r {
                Ok(a) => !blank(new_chunk.content@) && (a is AskHook <==> self@.write_hook),
                Err(e) => blank(new_chunk.content@) && e@ == ErrorView::InvalidArgument(
                    "content must not be empty"@,
                ),
            },
    {
        if is_blank(new_chunk.content.as_str()) {
            return Err(MemoryError::InvalidArgument("content must not be empty".to_owned()));
        }
        if self.write_hook {
            Ok(WriteAction::AskHook)
        } else {
            Ok(WriteAction::Store)
        }
    }

    /// Writes the chunk under the given id at the given instant.
    ///
    /// `reply` is what came of asking the hook. A chunk that is stored has the
    /// importance that [`score`] gives it.
    pub fn write_at(
        &mut self,
        new_chunk: NewMemoryChunk,
        reply: HookReply,
        id: String,
        at: Timestamp,
    ) -> (r: MemoryResult<MemoryChunk>)
        requires
            old(self).wf(),
            reply_fits(old(self)@.write_hook, reply),
        ensures
            final(self).wf(),
            write_result(old(self)@, final(self)@, new_chunk@, reply, r),
            r matches Ok(c) ==> c.id@ == id@ && c.created_at == at,
    {
        if is_blank(new_chunk.content.as_str()) {
            return Err(MemoryError::InvalidArgument("content must not be empty".to_owned()));
        }
        match reply {
            HookReply::Failed(e) => Err(e),
            HookReply::Decided(WriteDecision::Redact { reason }) => {
                Ok(new_chunk.into_redacted(reason.as_str(), id, at))
            },
            _ => {
                let importance: Importance = score(&new_chunk);
                let chunk: MemoryChunk = new_chunk.into_stored(importance, id, at);
                let copy: MemoryChunk = chunk.clone();
                let ghost before = self.chunks@;
                self.chunks.insert(copy.id.clone(), copy);
                proof {
                    assert(table_view(self.chunks) =~= old(self)@.chunks.insert(chunk.id@, chunk@));
                    assert(self@ =~= old(self)@.with_chunk(chunk@));
                }
                Ok(chunk)
            },
        }
    }

    /// Writes the chunk under a fresh id at the present instant.
    pub fn write(
        &mut self,
        new_chunk: NewMemoryChunk,
        reply: HookReply,
    ) -> (r: MemoryResult<MemoryChunk>)
        requires
            old(self).wf(),
            reply_fits(old(self)@.write_hook, reply),
        ensures
            final(self).wf(),
            write_result(old(self)@, final(self)@, new_chunk@, reply, r),
            r matches Ok(c) ==> is_uuid_v7(c.id@) && c.created_at.on_clock(),
    {
        let id: String = next_id();
        let at: Timestamp = Timestamp::now();
        self.write_at(new_chunk, reply, id, at)
    }

    /// Writes the chunks one after the other, up to the first failure. What
    /// was written before a failure stays.
    pub fn write_batch(&mut self, writes: Vec<PendingWrite>) -> (r: MemoryResult<Vec<MemoryChunk>>)
        requires
            old(self).wf(),
            forall|i: int|
                0 <= i < writes@.len() ==> reply_fits(
                    old(self)@.write_hook,
                    (#[trigger] writes@[i]).reply,
                ),
        ensures
            final(self).wf(),
            batch_result(old(self)@, final(self)@, writes@, r),
            r matches Ok(out) ==> forall|i: int|
                0 <= i < out@.len() ==> is_uuid_v7((#[trigger] out@[i]).id@)
                    && out@[i].created_at.on_clock(),
    {
        let ghost hooked = self@.write_hook;
        let ghost all = writes@;
        let ghost mut states: Seq<MemoryView> = seq![self@];
        let mut out: Vec<MemoryChunk> = Vec::new();
        for w in it: writes
            invariant
                self.wf(),
                it.seq() == all,
                out@.len() == it.index(),
                self@.write_hook == hooked,
                old(self)@ == states[0],
                batch_runs(states, out@, all),
                states[out@.len() as int] == self@,
                forall|i: int|
                    0 <= i < out@.len() ==> is_uuid_v7((#[trigger] out@[i]).id@)
                        && out@[i].created_at.on_clock(),
                forall|i: int|
                    0 <= i < all.len() ==> reply_fits(hooked, (#[trigger] all[i]).reply),
        {
            let ghost n = out@.len() as int;
            let ghost before = out@;
            assert(w == all[n]);
            match self.write(w.chunk, w.reply) {
                Ok(c) => {
                    out.push(c);
                    proof {
                        let grown = states.push(self@);
                        assert forall|i: int| 0 <= i < out@.len() implies {
                            &&& write_result(
                                grown[i],
                                grown[i + 1],
                                all[i].chunk@,
                                all[i].reply,
                                Ok(#[trigger] out@[i]),
                            )
                            &&& is_uuid_v7(out@[i].id@)
                            &&& out@[i].created_at.on_clock()
                        } by {
                            if i < n {
                                assert(out@[i] == before[i]);
                            }
                        }
                        states = grown;
                    }
                },
                Err(e) => {
                    assert(batch_failed(old(self)@, self@, all, e@));
                    return Err(e);
                },
            }
        }
        assert(batch_done(old(self)@, self@, all, out@));
        Ok(out)
    }

    /// Opens a session under the given id at the given instant.
    pub fn open_session_at(
        &mut self,
        init: NewMemorySession,
        id: String,
        at: Timestamp,
    ) -> (r: MemoryResult<MemorySession>)
        requires
            old(self).wf(),
        ensures
            final(self).wf(),
            r matches Ok(s) && s@ == opened(init, id@, at) && final(self)@
                == old(self)@.with_session(s@),
    {
        let session: MemorySession = init.into_opened(id, at);
        let copy: MemorySession = session.clone();
        self.sessions.insert(copy.id.clone(), copy);
        proof {
            assert(table_view(self.sessions) =~= old(self)@.sessions.insert(
                session.id@,
                session@,
            ));
            assert(self@ =~= old(self)@.with_session(session@));
        }
        Ok(session)
    }

    /// Opens a session under a fresh id at the present instant.
    pub fn open_session(&mut self, init: NewMemorySession) -> (r: MemoryResult<MemorySession>)
        requires
            old(self).wf(),
        ensures
            final(self).wf(),
            r matches Ok(s) && is_uuid_v7(s.id@) && s.started_at.on_clock() && s@ == opened(
                init,
                s.id@,
                s.started_at,
            ) && final(self)@ == old(self)@.with_session(s@),
    {
        let id: String = next_id();
        let at: Timestamp = Timestamp::now();
        self.open_session_at(init, id, at)
    }

    /// Files a session under its id, in place of one that is there.
    pub(crate) fn replace_session(&mut self, session: MemorySession)
        requires
            old(self).wf(),
        ensures
            final(self).wf(),
            final(self)@ == old(self)@.with_session(session@),
    {
        let ghost s = session@;
        self.sessions.insert(session.id.clone(), session);
        proof {
            assert(table_view(self.sessions) =~= old(self)@.sessions.insert(s.id, s));
            assert(self@ =~= old(self)@.with_session(s));
        }
    }

    /// Closes a session at the given instant.
    pub fn close_session_at(
        &mut self,
        session_id: &str,
        outcome: SessionOutcome,
        at: Timestamp,
    ) -> (r: MemoryResult<()>)
        requires
            old(self).wf(),
        ensures
            final(self).wf(),
            match r {
                Ok(()) => {
                    &&& old(self)@.sessions.contains_key(session_id@)
                    &&& final(self)@ == old(self)@.with_session(
                        SessionView {
                            ended_at: Some(at),
                            outcome: closing_outcome(outcome),
                            ..old(self)@.sessions[session_id@]
                        },
                    )
                },
                Err(e) => {
                    &&& !old(self)@.sessions.contains_key(session_id@)
                    &&& e@ == session_not_found(session_id@)
                    &&& final(self)@ == old(self)@
                },
            },
    {
        let mut session: MemorySession = match self.sessions.get(session_id) {
            Some(s) => s.clone(),
            None => {
                return Err(no_session(session_id));
            },
        };
        session.ended_at = Some(at);
        session.outcome = match outcome {
            SessionOutcome::Open => SessionOutcome::Aborted,
            other => other,
        };
        self.replace_session(session);
        Ok(())
    }

    /// Closes a session at the present instant.
    pub fn close_session(&mut self, session_id: &str, outcome: SessionOutcome) -> (r: MemoryResult<
        (),
    >)
        requires
            old(self).wf(),
        ensures
            final(self).wf(),
            match r {
                Ok(()) => {
                    &&& old(self)@.sessions.contains_key(session_id@)
                    &&& exists|at: Timestamp|
                        #[trigger] at.on_clock() && final(self)@ == old(self)@.with_session(
                            SessionView {
                                ended_at: Some(at),
                                outcome: closing_outcome(outcome),
                                ..old(self)@.sessions[session_id@]
                            },
                        )
                },
                Err(e) => {
                    &&& !old(self)@.sessions.contains_key(session_id@)
                    &&& e@ == session_not_found(session_id@)
                    &&& final(self)@ == old(self)@
                },
            },
    {
        let at: Timestamp = Timestamp::now();
        self.close_session_at(session_id, outcome, at)
    }

    /// Gives a session another title.
    pub fn rename_session(&mut self, session_id: &str, title: &str) -> (r: MemoryResult<()>)
        requires
            old(self).wf(),
        ensures
            final(self).wf(),
            match r {
                Ok(()) => {
                    &&& old(self)@.sessions.contains_key(session_id@)
                    &&& final(self)@ == old(self)@.with_session(
                        SessionView {
                            title: Some(title@),
                            ..old(self)@.sessions[session_id@]
                        },
                    )
                },
                Err(e) => {
                    &&& !old(self)@.sessions.contains_key(session_id@)
                    &&& e@ == session_not_found(session_id@)
                    &&& final(self)@ == old(self)@
                },
            },
    {
        let mut session: MemorySession = match self.sessions.get(session_id) {
            Some(s) => s.clone(),
            None => {
                return Err(no_session(session_id));
            },
        };
        session.title = Some(title.to_owned());
        self.replace_session(session);
        Ok(())
    }

    // Updates

    /// Pins a chunk, or takes the pin off.
    pub fn pin(&mut self, chunk_id: &str, pinned: bool) -> (r: MemoryResult<()>)
        requires
            old(self).wf(),
        ensures
            final(self).wf(),
            match r {
                Ok(()) => {
                    &&& old(self)@.chunks.contains_key(chunk_id@)
                    &&& final(self)@ == old(self)@.with_chunk(
                        ChunkView { pinned, ..old(self)@.chunks[chunk_id@] },
                    )
                },
                Err(e) => {
                    &&& !old(self)@.chunks.contains_key(chunk_id@)
                    &&& e@ == chunk_not_found(chunk_id@)
                    &&& final(self)@ == old(self)@
                },
            },
    {
        let mut chunk: MemoryChunk = match self.chunks.get(chunk_id) {
            Some(c) => c.clone(),
            None => {
                return Err(no_chunk(chunk_id));
            },
        };
        chunk.pinned = pinned;
        let ghost c = chunk@;
        assert(self@.chunks.contains_key(chunk_id@));
        self.chunks.insert(chunk.id.clone(), chunk);
        proof {
            assert(table_view(self.chunks) =~= old(self)@.chunks.insert(c.id, c));
            assert(self@ =~= old(self)@.with_chunk(c));
        }
        Ok(())
    }

    /// Accepts another importance for a chunk, and leaves the memory as it is:
    /// scores are given when a chunk is written.
    pub fn update_importance(&mut self, _chunk_id: &str, _importance: Importance) -> (r: MemoryResult<
        (),
    >)
        ensures
            r is Ok,
            *final(self) == *old(self),
    {
        Ok(())
    }

    /// Accepts that one chunk takes another's place, and leaves the memory as
    /// it is: supersession is not tracked.
    pub fn supersede(&mut self, _old_id: &str, _new_id: &str) -> (r: MemoryResult<()>)
        ensures
            r is Ok,
            *final(self) == *old(self),
    {
        Ok(())
    }

    /// Logs at the given instant that a chunk was retrieved.
    pub fn record_access_at(
        &mut self,
        chunk_id: &str,
        retrieved_by: &str,
        used: bool,
        at: Timestamp,
    ) -> (r: MemoryResult<()>)
        requires
            old(self).wf(),
        ensures
            final(self).wf(),
            match r {
                Ok(()) => {
                    &&& old(self)@.chunks.contains_key(chunk_id@)
                    &&& final(self)@ == (MemoryView {
                        accesses: old(self)@.accesses.push(
                            access(at, chunk_id@, retrieved_by@, used),
                        ),
                        ..old(self)@
                    })
                },
                Err(e) => {
                    &&& !old(self)@.chunks.contains_key(chunk_id@)
                    &&& e@ == chunk_not_found(chunk_id@)
                    &&& final(self)@ == old(self)@
                },
            },
    {
        if !self.chunks.contains_key(chunk_id) {
            return Err(no_chunk(chunk_id));
        }
        self.accesses.push(
            AccessEntry {
                ts: at,
                chunk_id: chunk_id.to_owned(),
                retrieved_by: retrieved_by.to_owned(),
                query_hash: String::new(),
                rank: 0,
                used,
            },
        );
        assert(self@.accesses =~= old(self)@.accesses.push(
            access(at, chunk_id@, retrieved_by@, used),
        ));
        Ok(())
    }

    /// Logs that a chunk was retrieved just now.
    pub fn record_access(&mut self, chunk_id: &str, retrieved_by: &str, used: bool) -> (r:
        MemoryResult<()>)
        requires
            old(self).wf(),
        ensures
            final(self).wf(),
            match r {
                Ok(()) => {
                    &&& old(self)@.chunks.contains_key(chunk_id@)
                    &&& exists|at: Timestamp|
                        #[trigger] at.on_clock() && final(self)@ == (MemoryView {
                            accesses: old(self)@.accesses.push(
                                access(at, chunk_id@, retrieved_by@, used),
                            ),
                            ..old(self)@
                        })
                },
                Err(e) => {
                    &&& !old(self)@.chunks.contains_key(chunk_id@)
                    &&& e@ == chunk_not_found(chunk_id@)
                    &&& final(self)@ == old(self)@
                },
            },
    {
        let at: Timestamp = Timestamp::now();
        self.record_access_at(chunk_id, retrieved_by, used, at)
    }

    // Deletes

    /// The ids of the chunks that satisfy `p`.
    fn matching_ids<F: Fn(&MemoryChunk) -> bool>(
        &self,
        f: F,
        Ghost(p): Ghost<spec_fn(ChunkView) -> bool>,
    ) -> (ids: Vec<String>)
        requires
            self.wf(),
            forall|c: &MemoryChunk| f.requires((c,)),
            forall|c: &MemoryChunk, b: bool| f.ensures((c,), b) ==> b == p(c@),
        ensures
            names_matches(texts(ids@), self@.chunks, p),
    {
        let _rows: usize = self.chunks.len();
        let positions: Vec<usize> = select(&self.chunks, f, Ghost(p));
        let ghost rows = self.chunks.rows();
        let mut ids: Vec<String> = Vec::new();
        let mut i: usize = 0;
        while i < positions.len()
            invariant
                0 <= i <= positions@.len(),
                self.wf(),
                rows == self.chunks.rows(),
                positions_of(positions@, rows, p),
                ids@.len() == i,
                forall|k: int|
                    0 <= k < i ==> #[trigger] ids@[k]@ == rows[positions@[k] as int].0,
            decreases positions@.len() - i,
        {
            assert(positions@[i as int] < rows.len());
            proof {
                lemma_row(rows, positions@[i as int] as int);
                assert(self@.chunks.contains_key(rows[positions@[i as int] as int].0));
            }
            ids.push(self.chunks.at(positions[i]).id.clone());
            i = i + 1;
        }
        proof {
            let names = texts(ids@);
            let m = self@.chunks;
            assert forall|a: int, b: int|
                0 <= a < names.len() && 0 <= b < names.len() && a != b implies names[a]
                != names[b] by {
                assert(positions@[a] != positions@[b]);
                assert(ids@[a]@ == names[a] && ids@[b]@ == names[b]);
                assert(rows[positions@[a] as int].0 != rows[positions@[b] as int].0);
            }
            assert forall|k: Seq<char>| names.to_set().contains(k) <==> matching(m, p).contains(
                k,
            ) by {
                if names.contains(k) {
                    let a = choose|a: int| 0 <= a < names.len() && names[a] == k;
                    assert(ids@[a]@ == k);
                    lemma_row(rows, positions@[a] as int);
                }
                if m.contains_key(k) && p(m[k]) {
                    lemma_key_row(rows, k);
                    let n = row_of(rows, k);
                    assert(p(rows[n as usize as int].1@));
                    assert(positions@.contains(n as usize));
                    let a = choose|a: int| 0 <= a < positions@.len() && positions@[a] == n as usize;
                    assert(ids@[a]@ == k);
                    assert(names[a] == k);
                }
            }
            assert(names.to_set() =~= matching(m, p));
        }
        ids
    }

    /// Deletes the chunks `ids` and logs each deletion.
    fn evict(&mut self, ids: &Vec<String>, at: Timestamp, reason: EvictionReason)
        requires
            old(self).wf(),
        ensures
            final(self).wf(),
            final(self)@ == old(self)@.evicting(texts(ids@), at, reason),
    {
        let ghost names = texts(ids@);
        let ghost entry = |id: Seq<char>| eviction(at, id, reason);
        let mut i: usize = 0;
        proof {
            assert(names.take(0).to_set() =~= Set::<Seq<char>>::empty());
            assert(self@.chunks =~= old(self)@.chunks.remove_keys(names.take(0).to_set()));
            assert(self@.evictions =~= old(self)@.evictions + names.take(0).map_values(entry));
        }
        while i < ids.len()
            invariant
                0 <= i <= ids@.len(),
                self.wf(),
                names == texts(ids@),
                entry == |id: Seq<char>| eviction(at, id, reason),
                self@ == (MemoryView {
                    chunks: old(self)@.chunks.remove_keys(names.take(i as int).to_set()),
                    evictions: old(self)@.evictions + names.take(i as int).map_values(entry),
                    ..old(self)@
                }),
            decreases ids@.len() - i,
        {
            let ghost before = self@;
            let ghost done = names.take(i as int);
            let ghost more = names.take(i + 1);
            let ghost name = ids@[i as int]@;
            self.chunks.remove(ids[i].as_str());
            self.evictions.push(
                EvictionEntry { ts: at, chunk_id: ids[i].clone(), reason, metadata: Json::Null },
            );
            proof {
                assert(names[i as int] == name);
                assert(more =~= done.push(name));
                assert(more.to_set() =~= done.to_set().insert(name)) by {
                    assert forall|k: Seq<char>| more.to_set().contains(k)
                        <==> done.to_set().insert(name).contains(k) by {
                        if done.contains(k) {
                            let a = choose|a: int| 0 <= a < done.len() && done[a] == k;
                            assert(more[a] == k);
                        }
                        if k == name {
                            assert(more[i as int] == k);
                        }
                    }
                }
                assert(table_view(self.chunks) =~= before.chunks.remove(name));
                assert(self@.chunks.dom() =~= before.chunks.dom().remove(name));
                assert(self@.members =~= before.members);
                assert(self@.chunks =~= old(self)@.chunks.remove_keys(more.to_set()));
                assert(self@.evictions =~= before.evictions.push(entry(name)));
                assert(self@.evictions =~= old(self)@.evictions + more.map_values(entry));
            }
            i = i + 1;
        }
        assert(names.take(i as int) =~= names);
    }

    /// Deletes a chunk at the given instant, and logs the deletion.
    pub fn delete_at(&mut self, chunk_id: &str, reason: EvictionReason, at: Timestamp) -> (r:
        MemoryResult<()>)
        requires
            old(self).wf(),
        ensures
            final(self).wf(),
            match r {
                Ok(()) => {
                    &&& old(self)@.chunks.contains_key(chunk_id@)
                    &&& final(self)@ == old(self)@.evicting(seq![chunk_id@], at, reason)
                },
                Err(e) => {
                    &&& !old(self)@.chunks.contains_key(chunk_id@)
                    &&& e@ == chunk_not_found(chunk_id@)
                    &&& final(self)@ == old(self)@
                },
            },
    {
        if !self.chunks.contains_key(chunk_id) {
            return Err(no_chunk(chunk_id));
        }
        let mut ids: Vec<String> = Vec::new();
        ids.push(chunk_id.to_owned());
        assert(texts(ids@) =~= seq![chunk_id@]);
        self.evict(&ids, at, reason);
        Ok(())
    }

    /// Deletes a chunk at the present instant, and logs the deletion.
    pub fn delete(&mut self, chunk_id: &str, reason: EvictionReason) -> (r: MemoryResult<()>)
        requires
            old(self).wf(),
        ensures
            final(self).wf(),
            match r {
                Ok(()) => {
                    &&& old(self)@.chunks.contains_key(chunk_id@)
                    &&& exists|at: Timestamp|
                        #[trigger] at.on_clock() && final(self)@ == old(self)@.evicting(
                            seq![chunk_id@],
                            at,
                            reason,
                        )
                },
                Err(e) => {
                    &&& !old(self)@.chunks.contains_key(chunk_id@)
                    &&& e@ == chunk_not_found(chunk_id@)
                    &&& final(self)@ == old(self)@
                },
            },
    {
        let at: Timestamp = Timestamp::now();
        self.delete_at(chunk_id, reason, at)
    }

    /// Deletes at the given instant the chunks that the predicate holds of.
    ///
    /// A predicate without conditions would hold of every chunk; it deletes
    /// none. [`BasicMemoryProvider::purge_all`] deletes everything.
    pub fn delete_matching_at(
        &mut self,
        predicate: MemoryPredicate,
        reason: EvictionReason,
        at: Timestamp,
    ) -> (r: MemoryResult<usize>)
        requires
            old(self).wf(),
        ensures
            final(self).wf(),
            r matches Ok(n) && if predicate.unconditional() {
                n == 0 && final(self)@ == old(self)@
            } else {
                swept(old(self)@, final(self)@, held_by(predicate), n as nat, at, reason)
            },
    {
        if predicate.is_empty() {
            return Ok(0);
        }
        let p: &MemoryPredicate = &predicate;
        let holds = |c: &MemoryChunk| -> (b: bool)
            ensures
                b == p.holds(c@),
        {
            chunk_matches(c, p)
        };
        let ids: Vec<String> = self.matching_ids(holds, Ghost(held_by(predicate)));
        self.evict(&ids, at, reason);
        Ok(ids.len())
    }

    /// Deletes at the present instant the chunks that the predicate holds of;
    /// none if it sets no condition.
    pub fn delete_matching(&mut self, predicate: MemoryPredicate, reason: EvictionReason) -> (r:
        MemoryResult<usize>)
        requires
            old(self).wf(),
        ensures
            final(self).wf(),
            r matches Ok(n) && if predicate.unconditional() {
                n == 0 && final(self)@ == old(self)@
            } else {
                exists|at: Timestamp|
                    #[trigger] at.on_clock() && swept(
                        old(self)@,
                        final(self)@,
                        held_by(predicate),
                        n as nat,
                        at,
                        reason,
                    )
            },
    {
        let at: Timestamp = Timestamp::now();
        self.delete_matching_at(predicate, reason, at)
    }

    /// Forgets everything: chunks, sessions, logs and links. Hook and
    /// summarizer stay.
    pub fn purge_all(&mut self) -> (r: MemoryResult<PurgeReport>)
        requires
            old(self).wf(),
        ensures
            final(self).wf(),
            final(self)@.blank_slate(),
            final(self)@.write_hook == old(self)@.write_hook,
            final(self)@.summarizer == old(self)@.summarizer,
            r matches Ok(report) && {
                &&& report.chunks_deleted == old(self)@.chunks.len()
                &&& report.sessions_deleted == old(self)@.sessions.len()
                &&& report.access_log_deleted == old(self)@.accesses.len()
                &&& report.eviction_log_deleted == old(self)@.evictions.len()
            },
    {
        let report = PurgeReport {
            chunks_deleted: self.chunks.len(),
            sessions_deleted: self.sessions.len(),
            access_log_deleted: self.accesses.len(),
            eviction_log_deleted: self.evictions.len(),
        };
        proof {
            assert(self@.chunks.dom() =~= self.chunks@.dom());
            assert(self@.sessions.dom() =~= self.sessions@.dom());
        }
        self.chunks.clear();
        self.sessions.clear();
        self.accesses.clear();
        self.evictions.clear();
        self.summary_members.clear();
        proof {
            assert(self@.chunks =~= Map::<Seq<char>, ChunkView>::empty());
            assert(self@.sessions =~= Map::<Seq<char>, SessionView>::empty());
            assert(self@.evictions =~= Seq::<EvictionView>::empty());
            assert(self@.accesses =~= Seq::<AccessView>::empty());
            assert(self@.members =~= Map::<Seq<char>, Seq<Seq<char>>>::empty());
        }
        Ok(report)
    }

    // Links

    /// Links chunks to the summary made of them; those that are linked
    /// already are not linked twice.
    pub fn link_summary_members(&mut self, summary_id: &str, member_ids: &Vec<String>)
        requires
            old(self).wf(),
        ensures
            final(self).wf(),
            final(self)@ == old(self)@.linking(summary_id@, texts(member_ids@)),
    {
        let ghost before = self@.members_of(summary_id@);
        let ghost ids = texts(member_ids@);
        let mut list: Vec<String> = match self.summary_members.get(summary_id) {
            Some(v) => v.clone(),
            None => Vec::new(),
        };
        proof {
            assert(texts(list@) =~= before);
            assert(ids.take(0) =~= Seq::<Seq<char>>::empty());
        }
        let mut i: usize = 0;
        while i < member_ids.len()
            invariant
                0 <= i <= member_ids@.len(),
                ids == texts(member_ids@),
                before.no_duplicates(),
                texts(list@) == linked(before, ids.take(i as int)),
                texts(list@).no_duplicates(),
            decreases member_ids@.len() - i,
        {
            let ghost had = texts(list@);
            proof {
                assert(ids.take(i + 1).drop_last() =~= ids.take(i as int));
                assert(ids.take(i + 1).last() == member_ids@[i as int]@);
            }
            if !has_text(&list, &member_ids[i]) {
                list.push(member_ids[i].clone());
                assert(texts(list@) =~= had.push(member_ids@[i as int]@));
            }
            i = i + 1;
        }
        proof {
            assert(ids.take(i as int) =~= ids);
        }
        self.summary_members.insert(summary_id.to_owned(), list);
        proof {
            assert(self@.members =~= old(self)@.members.insert(
                summary_id@,
                linked(before, ids),
            ));
            assert(self@ =~= old(self)@.linking(summary_id@, ids));
        }
    }

    // Maintenance

    /// Deletes at the given instant what was written before `cutoff`, but for
    /// pinned chunks and corrections.
    pub fn run_aging_sweep_at(&mut self, cutoff: Timestamp, at: Timestamp) -> (r: MemoryResult<
        AgingReport,
    >)
        requires
            old(self).wf(),
        ensures
            final(self).wf(),
            r matches Ok(report) && aging_report(report) && swept(
                old(self)@,
                final(self)@,
                aged(cutoff),
                report.deleted as nat,
                at,
                EvictionReason::Aging,
            ),
    {
        let old_enough = |c: &MemoryChunk| -> (b: bool)
            ensures
                b == (!c@.pinned && !(c@.kind is Correction) && c@.created_at.rank()
                    < cutoff.rank()),
        {
            !c.pinned && c.kind != ChunkKind::Correction && c.created_at.is_before(&cutoff)
        };
        let ids: Vec<String> = self.matching_ids(old_enough, Ghost(aged(cutoff)));
        let deleted: usize = ids.len();
        self.evict(&ids, at, EvictionReason::Aging);
        let mut by_reason: Vec<(EvictionReason, usize)> = Vec::new();
        by_reason.push((EvictionReason::Aging, deleted));
        Ok(
            AgingReport {
                tier_promoted: 0,
                deleted,
                bytes_reclaimed: 0,
                deletions_by_reason: by_reason,
            },
        )
    }

    /// Deletes what was written more than thirty days ago, but for pinned
    /// chunks and corrections.
    pub fn run_aging_sweep(&mut self) -> (r: MemoryResult<AgingReport>)
        requires
            old(self).wf(),
        ensures
            final(self).wf(),
            r matches Ok(report) && aging_report(report) && exists|
                start: Timestamp,
                cutoff: Timestamp,
                at: Timestamp,
            |
                {
                    &&& #[trigger] retention_cutoff(start, cutoff)
                    &&& start.on_clock()
                    &&& #[trigger] at.on_clock()
                    &&& swept(
                        old(self)@,
                        final(self)@,
                        aged(cutoff),
                        report.deleted as nat,
                        at,
                        EvictionReason::Aging,
                    )
                },
    {
        let start: Timestamp = Timestamp::now();
        let cutoff: Timestamp = start.minus_days(RETENTION_DAYS);
        let at: Timestamp = Timestamp::now();
        assert(retention_cutoff(start, cutoff));
        self.run_aging_sweep_at(cutoff, at)
    }

    /// Marks every chunk as embedded by another model.
    pub fn re_embed_all(&mut self, target_model: &str) -> (r: MemoryResult<ReEmbedReport>)
        requires
            old(self).wf(),
        ensures
            final(self).wf(),
            final(self)@ == (MemoryView {
                chunks: old(self)@.chunks.map_values(with_model(target_model@)),
                ..old(self)@
            }),
            r matches Ok(report) && {
                &&& report.total == old(self)@.chunks.len()
                &&& report.succeeded == report.total
                &&& report.failed == 0
            },
    {
        let started = clock_start();
        let total: usize = self.chunks.len();
        let ghost rows = self.chunks.rows();
        let ghost model = target_model@;
        proof {
            assert(self@.chunks.dom() =~= self.chunks@.dom());
        }
        let mut i: usize = 0;
        while i < total
            invariant
                0 <= i <= total,
                total == rows.len(),
                distinct_keys(rows),
                old(self)@.chunks =~= rows_map(rows).map_values(|c: MemoryChunk| c@),
                model == target_model@,
                self.wf(),
                self@ == (MemoryView { chunks: self@.chunks, ..old(self)@ }),
                self.chunks.rows().len() == total,
                forall|k: int|
                    0 <= k < total ==> (#[trigger] self.chunks.rows()[k]).0 == rows[k].0,
                forall|k: int|
                    0 <= k < i ==> (#[trigger] self.chunks.rows()[k]).1@ == with_model(model)(
                        rows[k].1@,
                    ),
                forall|k: int|
                    i <= k < total ==> (#[trigger] self.chunks.rows()[k]).1@ == rows[k].1@,
            decreases total - i,
        {
            let ghost before = *self;
            let mut chunk: MemoryChunk = self.chunks.at(i).clone();
            chunk.embedding_model = target_model.to_owned();
            proof {
                lemma_row(before.chunks.rows(), i as int);
                assert(before@.chunks.contains_key(before.chunks.rows()[i as int].0));
            }
            let ghost c = chunk@;
            self.chunks.set(i, chunk);
            proof {
                assert(table_view(self.chunks) =~= before@.chunks.insert(c.id, c));
                assert(self@.chunks.dom() =~= before@.chunks.dom().insert(c.id));
                assert(self@.members =~= before@.members);
            }
            i = i + 1;
        }
        proof {
            let m = self@.chunks;
            let goal = old(self)@.chunks.map_values(with_model(model));
            let now = self.chunks.rows();
            assert forall|k: Seq<char>| m.contains_key(k) <==> goal.contains_key(k) by {
                if m.contains_key(k) {
                    lemma_key_row(now, k);
                    lemma_row(rows, row_of(now, k));
                }
                if goal.contains_key(k) {
                    lemma_key_row(rows, k);
                    lemma_row(now, row_of(rows, k));
                }
            }
            assert forall|k: Seq<char>| m.contains_key(k) implies m[k] == goal[k] by {
                lemma_key_row(now, k);
                let j = row_of(now, k);
                lemma_row(rows, j);
                assert(now[j].1@ == with_model(model)(rows[j].1@));
            }
            assert(m =~= goal);
        }
        Ok(
            ReEmbedReport {
                total,
                succeeded: total,
                failed: 0,
                elapsed_ms: clock_elapsed_ms(&started),
            },
        )
    }

    /// A copy of what the filter asks for.
    pub fn export(&self, filter: ExportFilter) -> (r: MemoryResult<ExportBundle>)
        requires
            self.wf(),
        ensures
            r matches Ok(bundle) && export_result(self@, filter, bundle),
    {
        let f: &ExportFilter = &filter;
        let wanted = |c: &MemoryChunk| -> (b: bool)
            ensures
                b == f.wants(c@),
        {
            match &f.predicate {
                Some(p) => p.is_empty() || chunk_matches(c, p),
                None => true,
            }
        };
        let chunks: Vec<MemoryChunk> = list_all(&self.chunks, wanted, Ghost(wanted_by(filter)));
        let session_ids: Vec<String> = session_ids_of(&chunks);
        let sessions: Vec<MemorySession> = if filter.include_sessions {
            proof {
                self.lemma_exported_sessions(filter, views(chunks@), texts(session_ids@));
            }
            let referenced = |s: &MemorySession| -> (b: bool)
                ensures
                    b == texts(session_ids@).contains(s@.id),
            {
                has_text(&session_ids, &s.id)
            };
            list_all(
                &self.sessions,
                referenced,
                Ghost(exported_sessions(self@.chunks, filter)),
            )
        } else {
            Vec::new()
        };
        let evictions: Vec<EvictionEntry> = if filter.include_eviction_log {
            self.evictions.clone()
        } else {
            Vec::new()
        };
        let accesses: Vec<AccessEntry> = if filter.include_access_log {
            self.accesses.clone()
        } else {
            Vec::new()
        };
        proof {
            assert(views(evictions@) =~= if filter.include_eviction_log {
                self@.evictions
            } else {
                Seq::empty()
            });
            assert(views(accesses@) =~= if filter.include_access_log {
                self@.accesses
            } else {
                Seq::empty()
            });
        }
        Ok(ExportBundle { chunks, sessions, evictions, accesses })
    }

    /// The ids of the sessions that exported chunks belong to single out the
    /// sessions to export.
    proof fn lemma_exported_sessions(
        &self,
        filter: ExportFilter,
        chunks: Seq<ChunkView>,
        ids: Seq<Seq<char>>,
    )
        requires
            self.wf(),
            lists(chunks, self@.chunks, wanted_by(filter)),
            forall|x: Seq<char>| #[trigger]
                ids.contains(x) <==> exists|i: int|
                    0 <= i < chunks.len() && #[trigger] chunks[i].session_id == Some(x),
        ensures
            forall|s: SessionView| #[trigger]
                exported_sessions(self@.chunks, filter)(s) == ids.contains(s.id),
    {
        let m = self@.chunks;
        let keys = choose|keys: Seq<Seq<char>>| listed_under(keys, chunks, m, wanted_by(filter));
        assert forall|s: SessionView| #[trigger]
            exported_sessions(m, filter)(s) == ids.contains(s.id) by {
            if exported_sessions(m, filter)(s) {
                let id = choose|id: Seq<char>| #[trigger]
                    m.contains_key(id) && filter.wants(m[id]) && m[id].session_id == Some(s.id);
                assert(wanted_by(filter)(m[id]));
                assert(keys.contains(id));
                let i = choose|i: int| 0 <= i < keys.len() && keys[i] == id;
                assert(chunks[i].session_id == Some(s.id));
            }
            if ids.contains(s.id) {
                let i = choose|i: int|
                    0 <= i < chunks.len() && #[trigger] chunks[i].session_id == Some(s.id);
                assert(m.contains_key(keys[i]));
            }
        }
    }

    /// Figures about the memory.
    pub fn stats(&self) -> (r: MemoryResult<MemoryStats>)
        requires
            self.wf(),
        ensures
            r matches Ok(s) && stats_of(self@, s),
    {
        let session_tier = |c: &MemoryChunk| -> (b: bool)
            ensures
                b == (c@.tier == MemoryTier::Session),
        { c.tier == MemoryTier::Session };
        let long_term_tier = |c: &MemoryChunk| -> (b: bool)
            ensures
                b == (c@.tier == MemoryTier::LongTerm),
        { c.tier == MemoryTier::LongTerm };
        let open = |s: &MemorySession| -> (b: bool)
            ensures
                b == (s@.outcome is Open),
        { s.outcome == SessionOutcome::Open };
        let none: String = "none".to_owned();
        let has_model = |c: &MemoryChunk| -> (b: bool)
            ensures
                b == (c@.embedding_model != "none"@),
        { !(c.embedding_model == none) };
        let embedding_model: Option<String> = match find_match(
            &self.chunks,
            has_model,
            Ghost(embedded()),
        ) {
            Some(i) => {
                let model: String = self.chunks.at(i).embedding_model.clone();
                assert(self@.chunks.contains_key(self.chunks.rows()[i as int].0)
                    && embedded_by(model@)(self@.chunks[self.chunks.rows()[i as int].0]));
                Some(model)
            },
            None => None,
        };
        proof {
            assert(self@.chunks.dom() =~= self.chunks@.dom());
            assert(self@.sessions.dom() =~= self.sessions@.dom());
        }
        Ok(
            MemoryStats {
                total_chunks: self.chunks.len(),
                session_chunks: count(
                    &self.chunks,
                    session_tier,
                    Ghost(in_tier(MemoryTier::Session)),
                ),
                long_term_chunks: count(
                    &self.chunks,
                    long_term_tier,
                    Ghost(in_tier(MemoryTier::LongTerm)),
                ),
                total_sessions: self.sessions.len(),
                open_sessions: count(&self.sessions, open, Ghost(still_open())),
                db_bytes: 0,
                embedding_model,
            },
        )
    }
}

impl Default for BasicMemoryProvider {
    fn default() -> (r: BasicMemoryProvider)
        ensures
            r.wf(),
            r@.blank_slate(),
            !r@.write_hook,
            !r@.summarizer,
    {
        BasicMemoryProvider::new()
    }
}

/// The ids of the sessions that the chunks belong to.
fn session_ids_of(chunks: &Vec<MemoryChunk>) -> (ids: Vec<String>)
    ensures
        forall|x: Seq<char>| #[trigger]
            texts(ids@).contains(x) <==> exists|i: int|
                0 <= i < chunks@.len() && #[trigger] views(chunks@)[i].session_id == Some(x),
{
    let mut ids: Vec<String> = Vec::new();
    let mut i: usize = 0;
    while i < chunks.len()
        invariant
            0 <= i <= chunks@.len(),
            forall|x: Seq<char>| #[trigger]
                texts(ids@).contains(x) <==> exists|k: int|
                    0 <= k < i && #[trigger] views(chunks@)[k].session_id == Some(x),
        decreases chunks@.len() - i,
    {
        let ghost before = texts(ids@);
        if let Some(id) = &chunks[i].session_id {
            ids.push(id.clone());
            assert(texts(ids@) =~= before.push(id@));
        }
        proof {
            let s = views(chunks@)[i as int].session_id;
            assert forall|x: Seq<char>| #[trigger]
                texts(ids@).contains(x) <==> exists|k: int|
                    0 <= k < i + 1 && #[trigger] views(chunks@)[k].session_id == Some(x) by {
                if before.contains(x) {
                    let j = choose|j: int| 0 <= j < before.len() && before[j] == x;
                    assert(texts(ids@)[j] == x);
                    let k = choose|k: int|
                        0 <= k < i && #[trigger] views(chunks@)[k].session_id == Some(x);
                    assert(views(chunks@)[k].session_id == Some(x));
                } else if s == Some(x) {
                    assert(texts(ids@)[before.len() as int] == x);
                    assert(views(chunks@)[i as int].session_id == Some(x));
                } else {
                    if texts(ids@).contains(x) {
                        let j = choose|j: int| 0 <= j < texts(ids@).len() && texts(ids@)[j] == x;
                        assert(j < before.len());
                        assert(before[j] == x);
                    }
                }
            }
        }
        i = i + 1;
    }
    ids
}

} // verus!
