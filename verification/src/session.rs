//! Sessions: the runs of work that chunks are grouped by.

use crate::json::{Json, JsonView};
use crate::text::{copy_opt, opt_text};
use crate::time::Timestamp;
use vstd::prelude::*;

verus! {

/// How a session stands, or how it ended.
#[derive(Debug, Clone, Copy, PartialEq, Eq, Structural)]
pub enum SessionOutcome {
    /// The session is still running.
    Open,
    /// The session reached its goal.
    Success,
    /// The session was broken off.
    Aborted,
}

/// A session as the store holds it.
#[derive(Debug)]
pub struct MemorySession {
    /// The session's id.
    pub id: String,
    /// When the session was opened.
    pub started_at: Timestamp,
    /// When the session was closed.
    pub ended_at: Option<Timestamp>,
    /// The caller that opened the session.
    pub caller_id: String,
    /// The session's title.
    pub title: Option<String>,
    /// The session's summary, once there is one.
    pub summary: Option<String>,
    /// How the session stands.
    pub outcome: SessionOutcome,
    /// Free-form data about the session.
    pub metadata: Json,
}

/// What a [`MemorySession`] holds.
#[verifier::ext_equal]
pub struct SessionView {
    /// The session's id.
    pub id: Seq<char>,
    /// When the session was opened.
    pub started_at: Timestamp,
    /// When the session was closed.
    pub ended_at: Option<Timestamp>,
    /// The caller that opened the session.
    pub caller_id: Seq<char>,
    /// The session's title.
    pub title: Option<Seq<char>>,
    /// The session's summary, once there is one.
    pub summary: Option<Seq<char>>,
    /// How the session stands.
    pub outcome: SessionOutcome,
    /// Free-form data about the session.
    pub metadata: JsonView,
}

impl View for MemorySession {
    type V = SessionView;

    open spec fn view(&self) -> SessionView {
        SessionView {
            id: self.id@,
            started_at: self.started_at,
            ended_at: self.ended_at,
            caller_id: self.caller_id@,
            title: opt_text(self.title),
            summary: opt_text(self.summary),
            outcome: self.outcome,
            metadata: self.metadata@,
        }
    }
}

impl Clone for MemorySession {
    fn clone(&self) -> (r: MemorySession)
        ensures
            r@ == self@,
    {
        MemorySession {
            id: self.id.clone(),
            started_at: self.started_at,
            ended_at: self.ended_at,
            caller_id: self.caller_id.clone(),
            title: copy_opt(&self.title),
            summary: copy_opt(&self.summary),
            outcome: self.outcome,
            metadata: self.metadata.clone(),
        }
    }
}

/// What a caller hands in to open a session.
#[derive(Debug)]
pub struct NewMemorySession {
    /// The caller that opens the session.
    pub caller_id: String,
    /// The session's title.
    pub title: Option<String>,
    /// Free-form data about the session.
    pub metadata: Json,
}

/// The session that opening one stores.
pub open spec fn opened(init: NewMemorySession, id: Seq<char>, at: Timestamp) -> SessionView {
    SessionView {
        id,
        started_at: at,
        ended_at: None,
        caller_id: init.caller_id@,
        title: opt_text(init.title),
        summary: None,
        outcome: SessionOutcome::Open,
        metadata: init.metadata@,
    }
}

/// The outcome that a session is closed with: closing never leaves it open.
pub open spec fn closing_outcome(outcome: SessionOutcome) -> SessionOutcome {
    if outcome is Open {
        SessionOutcome::Aborted
    } else {
        outcome
    }
}

impl NewMemorySession {
    /// The session to store.
    pub fn into_opened(self, id: String, at: Timestamp) -> (r: MemorySession)
        ensures
            r@ == opened(self, id@, at),
    {
        MemorySession {
            id,
            started_at: at,
            ended_at: None,
            caller_id: self.caller_id,
            title: self.title,
            summary: None,
            outcome: SessionOutcome::Open,
            metadata: self.metadata,
        }
    }
}

/// Which sessions to list.
#[derive(Debug)]
pub struct SessionFilter {
    /// Only sessions of this caller.
    pub caller_id: Option<String>,
    /// Only sessions with this outcome.
    pub outcome: Option<SessionOutcome>,
    /// Only sessions that are still running.
    pub open_only: bool,
    /// Only sessions opened at this instant or later.
    pub since: Option<Timestamp>,
    /// Only sessions opened at this instant or earlier.
    pub until: Option<Timestamp>,
    /// At most this many sessions.
    pub limit: Option<usize>,
}

impl SessionFilter {
    /// The filter lets the session through.
    pub open spec fn admits(self, s: SessionView) -> bool {
        &&& self.caller_id matches Some(c) ==> s.caller_id == c@
        &&& self.outcome matches Some(o) ==> s.outcome == o
        &&& self.open_only ==> s.outcome is Open
        &&& self.since matches Some(t) ==> s.started_at.rank() >= t.rank()
        &&& self.until matches Some(t) ==> s.started_at.rank() <= t.rank()
    }

    /// Whether the filter lets the session through.
    pub fn accepts(&self, s: &MemorySession) -> (r: bool)
        ensures
            r == self.admits(s@),
    {
        if let Some(c) = &self.caller_id {
            if !(s.caller_id == *c) {
                return false;
            }
        }
        if let Some(o) = self.outcome {
            if s.outcome != o {
                return false;
            }
        }
        if self.open_only && s.outcome != SessionOutcome::Open {
            return false;
        }
        if let Some(since) = &self.since {
            if s.started_at.is_before(since) {
                return false;
            }
        }
        if let Some(until) = &self.until {
            if until.is_before(&s.started_at) {
                return false;
            }
        }
        true
    }
}

impl Default for SessionFilter {
    fn default() -> (r: SessionFilter)
        ensures
            r.caller_id is None,
            r.outcome is None,
            !r.open_only,
            r.since is None,
            r.until is None,
            r.limit is None,
    {
        SessionFilter {
            caller_id: None,
            outcome: None,
            open_only: false,
            since: None,
            until: None,
            limit: None,
        }
    }
}

} // verus!
