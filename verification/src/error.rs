//! The failures a request can end in.

use vstd::prelude::*;
use vstd::string::*;

verus! {

/// What went wrong.
#[derive(Clone, Copy, Debug, PartialEq, Eq, Structural)]
pub enum ErrorKind {
    /// The location reference is longer than the sanitizer accepts.
    TooLong,
    /// The location reference is not a well-formed URL.
    InvalidFormat,
    /// The URL's host is not the trusted one.
    UntrustedDomain,
    /// The URL has no path to a place.
    InvalidPath,
    /// The short link could not be followed.
    NetworkFailure,
    /// No place answers to the reference.
    NotFound,
    /// A call to the places provider failed.
    UpstreamFailure,
    /// The record store could not be read or written.
    PersistFailure,
}

/// A failure: its kind and a message for whoever reads the diagnosis.
#[derive(Clone, Debug, PartialEq, Eq)]
pub struct PipelineError {
    pub kind: ErrorKind,
    pub message: String,
}

/// The mathematical value of a [`PipelineError`].
pub ghost struct PipelineErrorView {
    pub kind: ErrorKind,
    pub message: Seq<char>,
}

impl View for PipelineError {
    type V = PipelineErrorView;

    open spec fn view(&self) -> PipelineErrorView {
        PipelineErrorView { kind: self.kind, message: self.message@ }
    }
}

impl PipelineError {
    /// A failure of the given kind with the given message.
    pub fn new(kind: ErrorKind, message: &str) -> (error: PipelineError)
        ensures
            error@ == (PipelineErrorView { kind, message: message@ }),
    {
        PipelineError { kind, message: message.to_owned() }
    }

    /// A failure of the given kind whose message is `prefix` followed by
    /// `detail`.
    pub fn with_detail(kind: ErrorKind, prefix: &str, detail: &str) -> (error: PipelineError)
        ensures
            error@ == (PipelineErrorView { kind, message: prefix@ + detail@ }),
    {
        let mut message = prefix.to_owned();
        message.append(detail);
        PipelineError { kind, message }
    }
}

} // verus!
