//! The errors that memory operations report.

use vstd::prelude::*;

verus! {

/// What went wrong in a memory operation.
#[derive(Debug)]
pub enum MemoryError {
    /// The caller passed something that the operation cannot accept.
    InvalidArgument(String),
    /// No chunk or session has the given id.
    NotFound(String),
    /// The provider does not offer the operation as it is set up.
    NotImplemented(&'static str),
    /// The storage engine failed.
    Storage(String),
    /// A collaborator such as a summarizer or an embedder failed.
    Provider(String),
    /// An unexpected internal error.
    Internal(String),
}

/// What a [`MemoryError`] says.
pub enum ErrorView {
    /// The caller passed something that the operation cannot accept.
    InvalidArgument(Seq<char>),
    /// No chunk or session has the given id.
    NotFound(Seq<char>),
    /// The provider does not offer the operation as it is set up.
    NotImplemented(Seq<char>),
    /// The storage engine failed.
    Storage(Seq<char>),
    /// A collaborator failed.
    Provider(Seq<char>),
    /// An unexpected internal error.
    Internal(Seq<char>),
}

/// The outcome of a memory operation.
pub type MemoryResult<T> = std::result::Result<T, MemoryError>;

impl View for MemoryError {
    type V = ErrorView;

    open spec fn view(&self) -> ErrorView {
        match *self {
            MemoryError::InvalidArgument(s) => ErrorView::InvalidArgument(s@),
            MemoryError::NotFound(s) => ErrorView::NotFound(s@),
            MemoryError::NotImplemented(s) => ErrorView::NotImplemented(s@),
            MemoryError::Storage(s) => ErrorView::Storage(s@),
            MemoryError::Provider(s) => ErrorView::Provider(s@),
            MemoryError::Internal(s) => ErrorView::Internal(s@),
        }
    }
}

} // verus!
