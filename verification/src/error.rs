//! The failures that tracing and resolving can end in.

use vstd::prelude::*;

verus! {

/// Why a trace run or a lookup failed.
#[derive(Debug, Clone, PartialEq, Eq)]
pub enum Error {
    /// The traced child was stopped or killed by the signal with this number.
    DynamicSignaled(i32),
    /// The native compiler refused the helper program; holds what it wrote to
    /// its standard error.
    ResolverCompilation(String),
    /// The helper program could not resolve a library name; holds what it
    /// wrote to its standard error.
    SharedLibraryLookup(String),
    /// The helper program's standard output is not valid UTF-8.
    InvalidUtf8,
}

/// An [`Error`] with its texts as sequences of characters.
pub enum ErrorView {
    DynamicSignaled(i32),
    ResolverCompilation(Seq<char>),
    SharedLibraryLookup(Seq<char>),
    InvalidUtf8,
}

impl View for Error {
    type V = ErrorView;

    open spec fn view(&self) -> ErrorView {
        match self {
            Error::DynamicSignaled(signal) => ErrorView::DynamicSignaled(*signal),
            Error::ResolverCompilation(text) => ErrorView::ResolverCompilation(text@),
            Error::SharedLibraryLookup(text) => ErrorView::SharedLibraryLookup(text@),
            Error::InvalidUtf8 => ErrorView::InvalidUtf8,
        }
    }
}

} // verus!
