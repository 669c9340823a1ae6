//! Memory chunks: the unit of what is remembered.

use crate::importance::Importance;
use crate::json::{json_view, Json, JsonView};
use crate::text::{copy_opt, opt_text};
use crate::time::Timestamp;
use vstd::prelude::*;
use vstd::string::StringExecFns;

verus! {

/// What a chunk records.
#[derive(Debug, Clone, Copy, PartialEq, Eq, Structural)]
pub enum ChunkKind {
    /// A turn of a conversation.
    Chat,
    /// Something the agent did.
    Action,
    /// A rule that fired.
    Fire,
    /// The summary of a session.
    JobSummary,
    /// The summary of a day, or of a rule's week.
    Rollup,
    /// A correction by the user.
    Correction,
}

/// Where a chunk comes from.
#[derive(Debug, Clone, Copy, PartialEq, Eq, Structural)]
pub enum ChunkSource {
    /// The embedded agent.
    Embedded,
    /// Perception of the environment.
    Perception,
    /// The memory system itself.
    System,
}

/// How long a chunk is meant to live.
#[derive(Debug, Clone, Copy, PartialEq, Eq, Structural)]
pub enum MemoryTier {
    /// Recent memory.
    Session,
    /// Memory that was promoted.
    LongTerm,
}

/// A chunk as the store holds it.
#[derive(Debug)]
pub struct MemoryChunk {
    /// The chunk's id.
    pub id: String,
    /// When the chunk was written.
    pub created_at: Timestamp,
    /// What the chunk records.
    pub kind: ChunkKind,
    /// How long the chunk is meant to live.
    pub tier: MemoryTier,
    /// Where the chunk comes from.
    pub source: ChunkSource,
    /// The session that the chunk belongs to.
    pub session_id: Option<String>,
    /// The project that the chunk belongs to.
    pub project_root: Option<String>,
    /// The caller that wrote the chunk.
    pub caller_id: String,
    /// The remembered text.
    pub content: String,
    /// Free-form data about the chunk.
    pub metadata: Json,
    /// How important the chunk is.
    pub importance: Importance,
    /// Whether the chunk is exempt from aging.
    pub pinned: bool,
    /// Whether other callers may see the chunk.
    pub shareable: bool,
    /// The chunk that takes this one's place.
    pub superseded_by: Option<String>,
    /// The model that embedded the chunk.
    pub embedding_model: String,
    /// The dimension of the chunk's embedding.
    pub embedding_dim: usize,
}

/// What a [`MemoryChunk`] holds.
#[verifier::ext_equal]
pub struct ChunkView {
    /// The chunk's id.
    pub id: Seq<char>,
    /// When the chunk was written.
    pub created_at: Timestamp,
    /// What the chunk records.
    pub kind: ChunkKind,
    /// How long the chunk is meant to live.
    pub tier: MemoryTier,
    /// Where the chunk comes from.
    pub source: ChunkSource,
    /// The session that the chunk belongs to.
    pub session_id: Option<Seq<char>>,
    /// The project that the chunk belongs to.
    pub project_root: Option<Seq<char>>,
    /// The caller that wrote the chunk.
    pub caller_id: Seq<char>,
    /// The remembered text.
    pub content: Seq<char>,
    /// Free-form data about the chunk.
    pub metadata: JsonView,
    /// How important the chunk is.
    pub importance: Importance,
    /// Whether the chunk is exempt from aging.
    pub pinned: bool,
    /// Whether other callers may see the chunk.
    pub shareable: bool,
    /// The chunk that takes this one's place.
    pub superseded_by: Option<Seq<char>>,
    /// The model that embedded the chunk.
    pub embedding_model: Seq<char>,
    /// The dimension of the chunk's embedding.
    pub embedding_dim: usize,
}

impl View for MemoryChunk {
    type V = ChunkView;

    open spec fn view(&self) -> ChunkView {
        ChunkView {
            id: self.id@,
            created_at: self.created_at,
            kind: self.kind,
            tier: self.tier,
            source: self.source,
            session_id: opt_text(self.session_id),
            project_root: opt_text(self.project_root),
            caller_id: self.caller_id@,
            content: self.content@,
            metadata: self.metadata@,
            importance: self.importance,
            pinned: self.pinned,
            shareable: self.shareable,
            superseded_by: opt_text(self.superseded_by),
            embedding_model: self.embedding_model@,
            embedding_dim: self.embedding_dim,
        }
    }
}

impl Clone for MemoryChunk {
    fn clone(&self) -> (r: MemoryChunk)
        ensures
            r@ == self@,
    {
        MemoryChunk {
            id: self.id.clone(),
            created_at: self.created_at,
            kind: self.kind,
            tier: self.tier,
            source: self.source,
            session_id: copy_opt(&self.session_id),
            project_root: copy_opt(&self.project_root),
            caller_id: self.caller_id.clone(),
            content: self.content.clone(),
            metadata: self.metadata.clone(),
            importance: self.importance,
            pinned: self.pinned,
            shareable: self.shareable,
            superseded_by: copy_opt(&self.superseded_by),
            embedding_model: self.embedding_model.clone(),
            embedding_dim: self.embedding_dim,
        }
    }
}

/// A chunk as a caller hands it in.
#[derive(Debug)]
pub struct NewMemoryChunk {
    /// What the chunk records.
    pub kind: ChunkKind,
    /// Where the chunk comes from.
    pub source: ChunkSource,
    /// The session that the chunk belongs to.
    pub session_id: Option<String>,
    /// The project that the chunk belongs to.
    pub project_root: Option<String>,
    /// The caller that writes the chunk.
    pub caller_id: String,
    /// The text to remember.
    pub content: String,
    /// Free-form data about the chunk.
    pub metadata: Json,
    /// The caller's own estimate of the importance, for the scorer to use.
    pub importance: Option<Importance>,
    /// Whether other callers may see the chunk.
    pub shareable: bool,
    /// Whether the chunk is exempt from aging.
    pub pinned: bool,
}

/// What a [`NewMemoryChunk`] holds.
#[verifier::ext_equal]
pub struct NewChunkView {
    /// What the chunk records.
    pub kind: ChunkKind,
    /// Where the chunk comes from.
    pub source: ChunkSource,
    /// The session that the chunk belongs to.
    pub session_id: Option<Seq<char>>,
    /// The project that the chunk belongs to.
    pub project_root: Option<Seq<char>>,
    /// The caller that writes the chunk.
    pub caller_id: Seq<char>,
    /// The text to remember.
    pub content: Seq<char>,
    /// Free-form data about the chunk.
    pub metadata: JsonView,
    /// The caller's own estimate of the importance.
    pub importance: Option<Importance>,
    /// Whether other callers may see the chunk.
    pub shareable: bool,
    /// Whether the chunk is exempt from aging.
    pub pinned: bool,
}

impl View for NewMemoryChunk {
    type V = NewChunkView;

    open spec fn view(&self) -> NewChunkView {
        NewChunkView {
            kind: self.kind,
            source: self.source,
            session_id: opt_text(self.session_id),
            project_root: opt_text(self.project_root),
            caller_id: self.caller_id@,
            content: self.content@,
            metadata: self.metadata@,
            importance: self.importance,
            shareable: self.shareable,
            pinned: self.pinned,
        }
    }
}

/// The chunk that a write stores.
pub open spec fn stored(
    new: NewChunkView,
    score: Importance,
    id: Seq<char>,
    at: Timestamp,
) -> ChunkView {
    ChunkView {
        id,
        created_at: at,
        kind: new.kind,
        tier: MemoryTier::Session,
        source: new.source,
        session_id: new.session_id,
        project_root: new.project_root,
        caller_id: new.caller_id,
        content: new.content,
        metadata: new.metadata,
        importance: score,
        pinned: new.pinned,
        shareable: new.shareable,
        superseded_by: None,
        embedding_model: "none"@,
        embedding_dim: 0,
    }
}

/// The metadata of a redacted chunk.
pub open spec fn redacted_metadata(reason: Seq<char>) -> JsonView {
    JsonView::Object(
        seq![("reason"@, JsonView::Text(reason)), ("redacted"@, JsonView::Bool(true))],
    )
}

/// The chunk that a redacted write answers with, and which is stored nowhere.
pub open spec fn redacted(
    new: NewChunkView,
    reason: Seq<char>,
    id: Seq<char>,
    at: Timestamp,
) -> ChunkView {
    ChunkView {
        id,
        created_at: at,
        kind: new.kind,
        tier: MemoryTier::Session,
        source: new.source,
        session_id: new.session_id,
        project_root: new.project_root,
        caller_id: new.caller_id,
        content: "<redacted: "@ + reason + ">"@,
        metadata: redacted_metadata(reason),
        importance: Importance { bits: 0 },
        pinned: false,
        shareable: false,
        superseded_by: None,
        embedding_model: "none"@,
        embedding_dim: 0,
    }
}

impl NewMemoryChunk {
    /// The chunk to store for this write.
    pub fn into_stored(self, score: Importance, id: String, at: Timestamp) -> (r: MemoryChunk)
        ensures
            r@ == stored(self@, score, id@, at),
    {
        MemoryChunk {
            id,
            created_at: at,
            kind: self.kind,
            tier: MemoryTier::Session,
            source: self.source,
            session_id: self.session_id,
            project_root: self.project_root,
            caller_id: self.caller_id,
            content: self.content,
            metadata: self.metadata,
            importance: score,
            pinned: self.pinned,
            shareable: self.shareable,
            superseded_by: None,
            embedding_model: "none".to_owned(),
            embedding_dim: 0,
        }
    }

    /// The stand-in that a redacted write is answered with.
    pub fn into_redacted(self, reason: &str, id: String, at: Timestamp) -> (r: MemoryChunk)
        ensures
            r@ == redacted(self@, reason@, id@, at),
    {
        let mut content: String = "<redacted: ".to_owned();
        content.append(reason);
        content.append(">");
        let mut members: Vec<(String, Json)> = Vec::new();
        members.push(("reason".to_owned(), Json::Text(reason.to_owned())));
        members.push(("redacted".to_owned(), Json::Bool(true)));
        let metadata = Json::Object(members);
        proof {
            reveal_with_fuel(json_view, 2);
            assert(metadata@->Object_0 =~= redacted_metadata(reason@)->Object_0);
        }
        MemoryChunk {
            id,
            created_at: at,
            kind: self.kind,
            tier: MemoryTier::Session,
            source: self.source,
            session_id: self.session_id,
            project_root: self.project_root,
            caller_id: self.caller_id,
            content,
            metadata,
            importance: Importance::zero(),
            pinned: false,
            shareable: false,
            superseded_by: None,
            embedding_model: "none".to_owned(),
            embedding_dim: 0,
        }
    }
}

} // verus!
