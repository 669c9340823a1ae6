//! What passes between the memory and a summarizer.

use crate::error::{ErrorView, MemoryError};
use crate::text::opt_text;
use vstd::prelude::*;
use vstd::string::StringExecFns;

verus! {

/// What a summarizer is told besides the chunks.
#[derive(Debug)]
pub struct SummaryContext {
    /// What the chunks have in common.
    pub kind_label: Option<String>,
    /// A remark.
    pub note: Option<String>,
    /// The length to keep to, in words.
    pub max_words: Option<usize>,
}

/// What a [`SummaryContext`] says.
#[verifier::ext_equal]
pub struct ContextView {
    /// What the chunks have in common.
    pub kind_label: Option<Seq<char>>,
    /// A remark.
    pub note: Option<Seq<char>>,
    /// The length to keep to, in words.
    pub max_words: Option<usize>,
}

impl View for SummaryContext {
    type V = ContextView;

    open spec fn view(&self) -> ContextView {
        ContextView {
            kind_label: opt_text(self.kind_label),
            note: opt_text(self.note),
            max_words: self.max_words,
        }
    }
}

/// What went wrong in a summarizer.
#[derive(Debug)]
pub enum SummarizerError {
    /// There was nothing to summarize.
    NoInput,
    /// Anything else, with the summarizer's own account of it.
    Failed(String),
}

/// What a summarizer answered.
#[derive(Debug)]
pub struct SummaryReply {
    /// The summarizer's name.
    pub summarizer: String,
    /// The summary, or what went wrong.
    pub outcome: Result<String, SummarizerError>,
}

/// The memory error that a summarizer's failure is reported as.
pub open spec fn summarizer_error_view(name: Seq<char>, e: SummarizerError) -> ErrorView {
    match e {
        SummarizerError::NoInput => ErrorView::InvalidArgument("summarizer received no input"@),
        SummarizerError::Failed(msg) => ErrorView::Provider(
            "summarizer "@ + name + " failed: "@ + msg@,
        ),
    }
}

/// The memory error that reports a summarizer's failure.
pub fn map_summarizer_error(name: &str, e: SummarizerError) -> (r: MemoryError)
    ensures
        r@ == summarizer_error_view(name@, e),
{
    match e {
        SummarizerError::NoInput => MemoryError::InvalidArgument(
            "summarizer received no input".to_owned(),
        ),
        SummarizerError::Failed(msg) => {
            let mut s: String = "summarizer ".to_owned();
            s.append(name);
            s.append(" failed: ");
            s.append(msg.as_str());
            MemoryError::Provider(s)
        },
    }
}

} // verus!
