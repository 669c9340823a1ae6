//! Durable memory for agents across turns: chunks, sessions, retrieval,
//! summaries, rollups and retention.
//!
//! [`BasicMemoryProvider`] is the reference memory. It keeps everything in one
//! process and retrieves by text and recency. Its operations are specified over
//! [`model::MemoryView`], the memory as a mathematical value; what holds of the
//! operations together stands in [`laws`].
//!
//! The library asks nobody. What comes from outside (the decision of a write
//! hook, the text of a summarizer) is an argument.

pub mod basic;
pub mod chunk;
pub mod conformance;
pub mod embedder;
pub mod error;
pub mod ids;
pub mod importance;
pub mod json;
pub mod laws;
pub mod laws_conformance;
pub mod laws_embedder;
pub mod laws_filters;
pub mod laws_retrieval;
pub mod laws_rollup;
pub mod laws_summary;
pub mod laws_values;
pub mod laws_writes;
pub mod listing;
pub mod model;
pub mod ops;
pub mod query;
pub mod rollup;
pub mod session;
pub mod sort;
pub mod summarizer;
pub mod table;
pub mod text;
pub mod time;
pub mod write_hook;

pub use basic::BasicMemoryProvider;
pub use chunk::{ChunkKind, ChunkSource, MemoryChunk, MemoryTier, NewMemoryChunk};
pub use conformance::{
    assert_retrieve_finds_written, assert_session_lifecycle, assert_summarize_session_roundtrip,
    assert_write_get_stats, ConformanceFailure,
};
pub use embedder::{Embedder, EmbedderError, EmbedderResult, MockEmbedder};
pub use error::{MemoryError, MemoryResult};
pub use importance::{score as score_importance, Importance};
pub use json::Json;
pub use ops::{
    AccessEntry, AgingReport, EvictionEntry, EvictionReason, ExportBundle, ExportFilter,
    MemoryStats, PurgeReport, ReEmbedReport,
};
pub use query::{CallerScope, MemoryPredicate, MemoryQuery, RetrievalProfile};
pub use rollup::{SummaryPlan, SummaryTarget};
pub use session::{MemorySession, NewMemorySession, SessionFilter, SessionOutcome};
pub use summarizer::{SummarizerError, SummaryContext, SummaryReply};
pub use time::{Date, Timestamp};
pub use write_hook::{HookReply, PendingWrite, WriteAction, WriteDecision};
