//! The hook that a write may have to pass.

use crate::chunk::NewMemoryChunk;
use crate::error::MemoryError;
use vstd::prelude::*;

verus! {

/// What a write hook decides about a write.
#[derive(Debug)]
pub enum WriteDecision {
    /// The chunk is stored as it is.
    Allow,
    /// The chunk is not stored.
    Redact {
        /// Why it is not.
        reason: String,
    },
}

/// What came of asking the write hook.
#[derive(Debug)]
pub enum HookReply {
    /// There is no hook to ask.
    NotAsked,
    /// The hook decided.
    Decided(WriteDecision),
    /// The hook failed.
    Failed(MemoryError),
}

/// What a write needs before anything is stored.
#[derive(Debug, Clone, Copy, PartialEq, Eq, Structural)]
pub enum WriteAction {
    /// The hook is to be asked.
    AskHook,
    /// There is nothing to ask.
    Store,
}

/// A write with everything that was asked for it.
#[derive(Debug)]
pub struct PendingWrite {
    /// The chunk to write.
    pub chunk: NewMemoryChunk,
    /// What came of asking the hook.
    pub reply: HookReply,
}

} // verus!
