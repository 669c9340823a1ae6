//! Logs, reports and exports.

use crate::chunk::{ChunkView, MemoryChunk};
use crate::json::{Json, JsonView};
use crate::query::MemoryPredicate;
use crate::session::MemorySession;
use crate::time::Timestamp;
use vstd::prelude::*;

verus! {

/// Why a chunk was deleted.
#[derive(Debug, Clone, Copy, PartialEq, Eq, Structural)]
pub enum EvictionReason {
    /// The user asked for it.
    UserDelete,
    /// The retention time had passed.
    Aging,
}

/// An entry of the deletion log.
#[derive(Debug)]
pub struct EvictionEntry {
    /// When the chunk was deleted.
    pub ts: Timestamp,
    /// The chunk's id.
    pub chunk_id: String,
    /// Why the chunk was deleted.
    pub reason: EvictionReason,
    /// Free-form data about the deletion.
    pub metadata: Json,
}

/// What an [`EvictionEntry`] holds.
#[verifier::ext_equal]
pub struct EvictionView {
    /// When the chunk was deleted.
    pub ts: Timestamp,
    /// The chunk's id.
    pub chunk_id: Seq<char>,
    /// Why the chunk was deleted.
    pub reason: EvictionReason,
    /// Free-form data about the deletion.
    pub metadata: JsonView,
}

impl View for EvictionEntry {
    type V = EvictionView;

    open spec fn view(&self) -> EvictionView {
        EvictionView {
            ts: self.ts,
            chunk_id: self.chunk_id@,
            reason: self.reason,
            metadata: self.metadata@,
        }
    }
}

impl Clone for EvictionEntry {
    fn clone(&self) -> (r: EvictionEntry)
        ensures
            r@ == self@,
    {
        EvictionEntry {
            ts: self.ts,
            chunk_id: self.chunk_id.clone(),
            reason: self.reason,
            metadata: self.metadata.clone(),
        }
    }
}

/// The log entry of a deletion.
pub open spec fn eviction(
    ts: Timestamp,
    chunk_id: Seq<char>,
    reason: EvictionReason,
) -> EvictionView {
    EvictionView { ts, chunk_id, reason, metadata: JsonView::Null }
}

/// An entry of the access log.
#[derive(Debug)]
pub struct AccessEntry {
    /// When the chunk was retrieved.
    pub ts: Timestamp,
    /// The chunk's id.
    pub chunk_id: String,
    /// Who retrieved the chunk.
    pub retrieved_by: String,
    /// The hash of the query, where a backend computes one.
    pub query_hash: String,
    /// The rank of the chunk in the result.
    pub rank: usize,
    /// Whether the chunk was put to use.
    pub used: bool,
}

/// What an [`AccessEntry`] holds.
#[verifier::ext_equal]
pub struct AccessView {
    /// When the chunk was retrieved.
    pub ts: Timestamp,
    /// The chunk's id.
    pub chunk_id: Seq<char>,
    /// Who retrieved the chunk.
    pub retrieved_by: Seq<char>,
    /// The hash of the query.
    pub query_hash: Seq<char>,
    /// The rank of the chunk in the result.
    pub rank: usize,
    /// Whether the chunk was put to use.
    pub used: bool,
}

impl View for AccessEntry {
    type V = AccessView;

    open spec fn view(&self) -> AccessView {
        AccessView {
            ts: self.ts,
            chunk_id: self.chunk_id@,
            retrieved_by: self.retrieved_by@,
            query_hash: self.query_hash@,
            rank: self.rank,
            used: self.used,
        }
    }
}

impl Clone for AccessEntry {
    fn clone(&self) -> (r: AccessEntry)
        ensures
            r@ == self@,
    {
        AccessEntry {
            ts: self.ts,
            chunk_id: self.chunk_id.clone(),
            retrieved_by: self.retrieved_by.clone(),
            query_hash: self.query_hash.clone(),
            rank: self.rank,
            used: self.used,
        }
    }
}

/// The log entry of an access: no query is hashed and no rank is kept.
pub open spec fn access(
    ts: Timestamp,
    chunk_id: Seq<char>,
    retrieved_by: Seq<char>,
    used: bool,
) -> AccessView {
    AccessView { ts, chunk_id, retrieved_by, query_hash: Seq::empty(), rank: 0, used }
}

/// What a purge removed.
#[derive(Debug, Clone, Copy, PartialEq, Eq, Structural)]
pub struct PurgeReport {
    /// The number of chunks.
    pub chunks_deleted: usize,
    /// The number of sessions.
    pub sessions_deleted: usize,
    /// The number of access log entries.
    pub access_log_deleted: usize,
    /// The number of deletion log entries.
    pub eviction_log_deleted: usize,
}

/// What an aging sweep did.
#[derive(Debug)]
pub struct AgingReport {
    /// The number of chunks promoted to another tier.
    pub tier_promoted: usize,
    /// The number of chunks deleted.
    pub deleted: usize,
    /// The storage that was freed.
    pub bytes_reclaimed: u64,
    /// The number of deletions for each reason.
    pub deletions_by_reason: Vec<(EvictionReason, usize)>,
}

/// What a change of the embedding model did.
#[derive(Debug, Clone, Copy, PartialEq, Eq, Structural)]
pub struct ReEmbedReport {
    /// The number of chunks.
    pub total: usize,
    /// The number of chunks that were embedded again.
    pub succeeded: usize,
    /// The number of chunks that could not be embedded.
    pub failed: usize,
    /// The time it took, in milliseconds.
    pub elapsed_ms: u64,
}

/// What to export.
#[derive(Debug)]
pub struct ExportFilter {
    /// Which chunks; all of them if not set, or if it sets no condition.
    pub predicate: Option<MemoryPredicate>,
    /// Whether to export the deletion log.
    pub include_eviction_log: bool,
    /// Whether to export the access log.
    pub include_access_log: bool,
    /// Whether to export the sessions that the chunks belong to.
    pub include_sessions: bool,
}

impl ExportFilter {
    /// The chunk is to be exported.
    pub open spec fn wants(self, c: ChunkView) -> bool {
        self.predicate matches Some(p) ==> p.unconditional() || p.holds(c)
    }
}

/// An export of the memory.
#[derive(Debug)]
pub struct ExportBundle {
    /// The chunks.
    pub chunks: Vec<MemoryChunk>,
    /// The sessions that the chunks belong to.
    pub sessions: Vec<MemorySession>,
    /// The deletion log.
    pub evictions: Vec<EvictionEntry>,
    /// The access log.
    pub accesses: Vec<AccessEntry>,
}

/// Figures about the memory.
#[derive(Debug)]
pub struct MemoryStats {
    /// The number of chunks.
    pub total_chunks: usize,
    /// The number of chunks of the session tier.
    pub session_chunks: usize,
    /// The number of chunks of the long-term tier.
    pub long_term_chunks: usize,
    /// The number of sessions.
    pub total_sessions: usize,
    /// The number of sessions that are still running.
    pub open_sessions: usize,
    /// The size of the storage.
    pub db_bytes: u64,
    /// The model that embedded a chunk, where one did.
    pub embedding_model: Option<String>,
}

} // verus!
