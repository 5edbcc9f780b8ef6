//! Error kinds returned by the library.

use vstd::prelude::*;

verus! {

/// Spec-level image of an `ErrorKind`: each carried message as a sequence of
/// characters.
pub enum ErrorKindView {
    InvalidFormat,
    InvalidFile(Seq<char>),
    InvalidOutputFormat(Seq<char>),
    InvalidOutputDetail(Seq<char>),
    OutputFailed,
    InsaneWpScan(Seq<char>),
}

/// The kind of error that the library reports: a malformed report, a bad
/// file, an unrecognized output selector, a failed rendering, or a report
/// that fails the sanity pre-check (with the reason as a message).
#[derive(Debug, Clone, PartialEq)]
pub enum ErrorKind {
    InvalidFormat,
    InvalidFile(String),
    InvalidOutputFormat(String),
    InvalidOutputDetail(String),
    OutputFailed,
    InsaneWpScan(String),
}

impl DeepView for ErrorKind {
    type V = ErrorKindView;

    open spec fn deep_view(&self) -> ErrorKindView {
        match self {
            ErrorKind::InvalidFormat => ErrorKindView::InvalidFormat,
            ErrorKind::InvalidFile(s) => ErrorKindView::InvalidFile(s@),
            ErrorKind::InvalidOutputFormat(s) => ErrorKindView::InvalidOutputFormat(s@),
            ErrorKind::InvalidOutputDetail(s) => ErrorKindView::InvalidOutputDetail(s@),
            ErrorKind::OutputFailed => ErrorKindView::OutputFailed,
            ErrorKind::InsaneWpScan(s) => ErrorKindView::InsaneWpScan(s@),
        }
    }
}

} // verus!
