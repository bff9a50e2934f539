//! The ways in which a run can fail.

use vstd::prelude::*;
use vstd::string::*;

verus! {

/// What kind of step failed.
#[derive(Clone, Copy, Debug, PartialEq, Eq, Structural)]
pub enum ErrorKind {
    /// A request could not be sent or answered.
    Network,
    /// An answer did not have the expected shape.
    Decode,
    /// A file could not be read, written or removed.
    Io,
}

/// A failure that ends the run.
#[derive(Debug)]
pub struct SyncError {
    pub kind: ErrorKind,
    /// What went wrong, in words.
    pub message: String,
}

/// A failure as plain values.
pub struct ErrorView {
    pub kind: ErrorKind,
    pub message: Seq<char>,
}

impl View for SyncError {
    type V = ErrorView;

    open spec fn view(&self) -> ErrorView {
        ErrorView { kind: self.kind, message: self.message@ }
    }
}

impl DeepView for SyncError {
    type V = ErrorView;

    open spec fn deep_view(&self) -> ErrorView {
        self@
    }
}

/// The words that introduce a failure of the given kind.
pub open spec fn spec_kind_label(kind: ErrorKind) -> Seq<char> {
    match kind {
        ErrorKind::Network => "network error: "@,
        ErrorKind::Decode => "decode error: "@,
        ErrorKind::Io => "i/o error: "@,
    }
}

impl Clone for SyncError {
    fn clone(&self) -> (copy: SyncError)
        ensures
            copy == *self,
    {
        SyncError { kind: self.kind, message: self.message.clone() }
    }
}

impl SyncError {
    /// A one-line description: the kind, then the message.
    pub fn describe(&self) -> (line: String)
        ensures
            line@ == spec_kind_label(self.kind) + self.message@,
    {
        let label = match self.kind {
            ErrorKind::Network => "network error: ",
            ErrorKind::Decode => "decode error: ",
            ErrorKind::Io => "i/o error: ",
        };
        label.to_owned().concat(self.message.as_str())
    }
}

} // verus!
