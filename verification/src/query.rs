//! Retrieval queries and the predicates of bulk operations.

use crate::chunk::{ChunkKind, ChunkView, MemoryChunk};
use crate::importance::Importance;
use crate::text::{
    has_substring, lowercase, opt_text, str_contains, str_starts_with, str_to_lowercase, texts,
};
use crate::time::Timestamp;
use vstd::prelude::*;

verus! {

/// Whose chunks a query may see.
#[derive(Debug, Clone, Copy, PartialEq, Eq, Structural)]
pub enum CallerScope {
    /// The caller's own chunks.
    Own,
    /// The caller's own chunks and every shareable one.
    OwnPlusShared,
    /// Every chunk.
    Global,
}

/// What a query is for; a backend may weigh relevance by it.
#[derive(Debug, Clone, Copy, PartialEq, Eq, Structural)]
pub enum RetrievalProfile {
    /// A turn of an agent's conversation.
    AgentChatTurn,
}

/// A retrieval query.
#[derive(Debug)]
pub struct MemoryQuery {
    /// The text to look for.
    pub text: String,
    /// Only chunks of these kinds.
    pub kinds: Option<Vec<ChunkKind>>,
    /// Only chunks written at this instant or later.
    pub since: Option<Timestamp>,
    /// Only chunks written at this instant or earlier.
    pub until: Option<Timestamp>,
    /// Only chunks of this session.
    pub session_id: Option<String>,
    /// Whose chunks to see.
    pub caller_scope: CallerScope,
    /// Only chunks of projects whose root begins so.
    pub project_root_prefix: Option<String>,
    /// At most this many chunks.
    pub k: usize,
    /// Whether rollups are wanted too.
    pub include_rollups: bool,
    /// Only chunks that are not below this importance.
    pub min_importance: Option<Importance>,
    /// What the query is for.
    pub profile: RetrievalProfile,
    /// The caller that asks.
    pub caller_id: String,
}

/// The kinds, if any are named, include `kind`.
pub open spec fn kinds_admit(kinds: Option<Vec<ChunkKind>>, kind: ChunkKind) -> bool {
    kinds matches Some(v) ==> v@.contains(kind)
}

/// The project root, if a prefix is named, begins with it.
pub open spec fn root_admits(prefix: Option<String>, root: Option<Seq<char>>) -> bool {
    prefix matches Some(p) ==> (root matches Some(r) && p@.is_prefix_of(r))
}

impl MemoryQuery {
    /// The asking caller may see the chunk.
    pub open spec fn in_scope(self, c: ChunkView) -> bool {
        match self.caller_scope {
            CallerScope::Own => c.caller_id == self.caller_id@,
            CallerScope::OwnPlusShared => c.caller_id == self.caller_id@ || c.shareable,
            CallerScope::Global => true,
        }
    }

    /// The chunk passes every filter of the query but the text.
    pub open spec fn admits(self, c: ChunkView) -> bool {
        &&& kinds_admit(self.kinds, c.kind)
        &&& c.kind is Rollup ==> self.include_rollups
        &&& self.since matches Some(t) ==> c.created_at.rank() >= t.rank()
        &&& self.until matches Some(t) ==> c.created_at.rank() <= t.rank()
        &&& self.session_id matches Some(s) ==> c.session_id == Some(s@)
        &&& root_admits(self.project_root_prefix, c.project_root)
        &&& self.min_importance matches Some(min) ==> !c.importance.lt(min)
        &&& self.in_scope(c)
    }

    /// The chunk is a hit: it passes the filters, and its content holds the
    /// query's text whatever the case of the letters.
    pub open spec fn hits(self, c: ChunkView) -> bool {
        self.admits(c) && has_substring(lowercase(c.content), lowercase(self.text@))
    }

    /// Whether the chunk passes every filter of the query but the text.
    pub fn accepts(&self, c: &MemoryChunk) -> (r: bool)
        ensures
            r == self.admits(c@),
    {
        if let Some(kinds) = &self.kinds {
            if !has_kind(kinds, c.kind) {
                return false;
            }
        }
        if !self.include_rollups && c.kind == ChunkKind::Rollup {
            return false;
        }
        if let Some(since) = &self.since {
            if c.created_at.is_before(since) {
                return false;
            }
        }
        if let Some(until) = &self.until {
            if until.is_before(&c.created_at) {
                return false;
            }
        }
        if let Some(sid) = &self.session_id {
            match &c.session_id {
                Some(id) => {
                    if !(*id == *sid) {
                        return false;
                    }
                },
                None => {
                    return false;
                },
            }
        }
        if let Some(prefix) = &self.project_root_prefix {
            if !root_begins(&c.project_root, prefix) {
                return false;
            }
        }
        if let Some(min) = &self.min_importance {
            if c.importance.is_below(min) {
                return false;
            }
        }
        match self.caller_scope {
            CallerScope::Own => c.caller_id == self.caller_id,
            CallerScope::OwnPlusShared => c.caller_id == self.caller_id || c.shareable,
            CallerScope::Global => true,
        }
    }

    /// Whether the chunk is a hit, given the lower-case forms of its content
    /// and of the query's text.
    pub fn hits_lowered(&self, c: &MemoryChunk, content: &str, needle: &str) -> (r: bool)
        ensures
            r == (self.admits(c@) && has_substring(content@, needle@)),
    {
        self.accepts(c) && str_contains(content, needle)
    }

    /// Whether the chunk is a hit, given the lower-case form of the query's
    /// text.
    pub(crate) fn is_hit(&self, c: &MemoryChunk, needle: &String) -> (r: bool)
        requires
            needle@ == lowercase(self.text@),
        ensures
            r == self.hits(c@),
    {
        let content: String = str_to_lowercase(c.content.as_str());
        self.hits_lowered(c, content.as_str(), needle.as_str())
    }
}

/// Whether `kind` is among `kinds`.
fn has_kind(kinds: &Vec<ChunkKind>, kind: ChunkKind) -> (r: bool)
    ensures
        r == kinds@.contains(kind),
{
    let mut i: usize = 0;
    while i < kinds.len()
        invariant
            0 <= i <= kinds@.len(),
            forall|j: int| 0 <= j < i ==> kinds@[j] != kind,
        decreases kinds@.len() - i,
    {
        if kinds[i] == kind {
            return true;
        }
        i = i + 1;
    }
    false
}

/// Whether `text` is among `list`.
pub fn has_text(list: &Vec<String>, text: &String) -> (r: bool)
    ensures
        r == texts(list@).contains(text@),
{
    let mut i: usize = 0;
    while i < list.len()
        invariant
            0 <= i <= list@.len(),
            forall|j: int| 0 <= j < i ==> texts(list@)[j] != text@,
        decreases list@.len() - i,
    {
        if list[i] == *text {
            assert(texts(list@)[i as int] == text@);
            return true;
        }
        i = i + 1;
    }
    false
}

/// Whether there is a root and it begins with `prefix`.
fn root_begins(root: &Option<String>, prefix: &String) -> (r: bool)
    ensures
        r == (opt_text(*root) matches Some(t) && prefix@.is_prefix_of(t)),
{
    match root {
        Some(t) => str_starts_with(t.as_str(), prefix.as_str()),
        None => false,
    }
}

/// Which chunks a bulk operation is about. Conditions that are not set hold of
/// every chunk.
#[derive(Debug)]
pub struct MemoryPredicate {
    /// Chunks of these kinds.
    pub kinds: Option<Vec<ChunkKind>>,
    /// Chunks of these callers.
    pub callers: Option<Vec<String>>,
    /// Chunks of these sessions.
    pub session_ids: Option<Vec<String>>,
    /// Chunks of projects whose root begins so.
    pub project_root_prefix: Option<String>,
    /// Chunks written strictly before this instant.
    pub before: Option<Timestamp>,
    /// Chunks written strictly after this instant.
    pub after: Option<Timestamp>,
    /// Chunks with this pin.
    pub pinned: Option<bool>,
    /// Chunks that are not at or above this importance.
    pub importance_below: Option<Importance>,
    /// Chunks whose content holds this text, whatever the case of the letters.
    pub content_contains: Option<String>,
}

impl MemoryPredicate {
    /// No condition is set.
    pub open spec fn unconditional(self) -> bool {
        &&& self.kinds is None
        &&& self.callers is None
        &&& self.session_ids is None
        &&& self.project_root_prefix is None
        &&& self.before is None
        &&& self.after is None
        &&& self.pinned is None
        &&& self.importance_below is None
        &&& self.content_contains is None
    }

    /// The chunk meets every condition but the one on its content.
    pub open spec fn admits(self, c: ChunkView) -> bool {
        &&& kinds_admit(self.kinds, c.kind)
        &&& self.callers matches Some(callers) ==> texts(callers@).contains(c.caller_id)
        &&& self.session_ids matches Some(ids) ==> (c.session_id matches Some(s) && texts(
            ids@,
        ).contains(s))
        &&& root_admits(self.project_root_prefix, c.project_root)
        &&& self.before matches Some(t) ==> c.created_at.rank() < t.rank()
        &&& self.after matches Some(t) ==> c.created_at.rank() > t.rank()
        &&& self.pinned matches Some(p) ==> c.pinned == p
        &&& self.importance_below matches Some(below) ==> !c.importance.ge(below)
    }

    /// The chunk meets every condition.
    pub open spec fn holds(self, c: ChunkView) -> bool {
        &&& self.admits(c)
        &&& self.content_contains matches Some(needle) ==> has_substring(
            lowercase(c.content),
            lowercase(needle@),
        )
    }

    /// Whether no condition is set.
    pub fn is_empty(&self) -> (r: bool)
        ensures
            r == self.unconditional(),
    {
        self.kinds.is_none() && self.callers.is_none() && self.session_ids.is_none()
            && self.project_root_prefix.is_none() && self.before.is_none() && self.after.is_none()
            && self.pinned.is_none() && self.importance_below.is_none()
            && self.content_contains.is_none()
    }

    /// Whether the chunk meets every condition but the one on its content.
    pub fn accepts(&self, c: &MemoryChunk) -> (r: bool)
        ensures
            r == self.admits(c@),
    {
        if let Some(kinds) = &self.kinds {
            if !has_kind(kinds, c.kind) {
                return false;
            }
        }
        if let Some(callers) = &self.callers {
            if !has_text(callers, &c.caller_id) {
                return false;
            }
        }
        if let Some(ids) = &self.session_ids {
            match &c.session_id {
                Some(id) => {
                    if !has_text(ids, id) {
                        return false;
                    }
                },
                None => {
                    return false;
                },
            }
        }
        if let Some(prefix) = &self.project_root_prefix {
            if !root_begins(&c.project_root, prefix) {
                return false;
            }
        }
        if let Some(before) = &self.before {
            if !c.created_at.is_before(before) {
                return false;
            }
        }
        if let Some(after) = &self.after {
            if !after.is_before(&c.created_at) {
                return false;
            }
        }
        if let Some(pinned) = self.pinned {
            if c.pinned != pinned {
                return false;
            }
        }
        if let Some(below) = &self.importance_below {
            if c.importance.is_at_least(below) {
                return false;
            }
        }
        true
    }

    /// Whether the chunk meets every condition, given the lower-case forms of
    /// its content and of the text that the predicate asks for.
    pub fn holds_lowered(&self, c: &MemoryChunk, content: &str, needle: &str) -> (r: bool)
        ensures
            r == (self.admits(c@) && (self.content_contains is Some ==> has_substring(
                content@,
                needle@,
            ))),
    {
        self.accepts(c) && (self.content_contains.is_none() || str_contains(content, needle))
    }
}

impl Default for MemoryPredicate {
    fn default() -> (r: MemoryPredicate)
        ensures
            r.unconditional(),
    {
        MemoryPredicate {
            kinds: None,
            callers: None,
            session_ids: None,
            project_root_prefix: None,
            before: None,
            after: None,
            pinned: None,
            importance_below: None,
            content_contains: None,
        }
    }
}

/// Whether the chunk meets every condition of the predicate.
pub fn chunk_matches(c: &MemoryChunk, p: &MemoryPredicate) -> (r: bool)
    ensures
        r == p.holds(c@),
{
    match &p.content_contains {
        Some(needle) => {
            let content: String = str_to_lowercase(c.content.as_str());
            let needle: String = str_to_lowercase(needle.as_str());
            p.holds_lowered(c, content.as_str(), needle.as_str())
        },
        None => p.accepts(c),
    }
}

} // verus!
