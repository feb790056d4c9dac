//! Error taxonomy of the editor core.

use vstd::prelude::*;

verus! {

/// OS-level error category carried by a failed file read or write.
#[derive(Clone, Copy, Debug, PartialEq, Eq, Structural)]
pub enum IoErrorKind {
    NotFound,
    PermissionDenied,
    AlreadyExists,
    InvalidData,
    Interrupted,
    TimedOut,
    Other,
}

impl IoErrorKind {
    /// The human-readable status-bar text for this error category.
    pub open spec fn spec_message(self) -> Seq<char> {
        match self {
            IoErrorKind::NotFound => "file not found"@,
            IoErrorKind::PermissionDenied => "permission denied"@,
            IoErrorKind::AlreadyExists => "file already exists"@,
            IoErrorKind::InvalidData => "file is not valid text"@,
            IoErrorKind::Interrupted => "operation interrupted"@,
            IoErrorKind::TimedOut => "operation timed out"@,
            IoErrorKind::Other => "input/output error"@,
        }
    }

    /// Human-readable form of the error, for the status bar.
    pub fn message(&self) -> (r: String)
        ensures
            r@ == self.spec_message(),
    {
        match self {
            IoErrorKind::NotFound => "file not found".to_owned(),
            IoErrorKind::PermissionDenied => "permission denied".to_owned(),
            IoErrorKind::AlreadyExists => "file already exists".to_owned(),
            IoErrorKind::InvalidData => "file is not valid text".to_owned(),
            IoErrorKind::Interrupted => "operation interrupted".to_owned(),
            IoErrorKind::TimedOut => "operation timed out".to_owned(),
            IoErrorKind::Other => "input/output error".to_owned(),
        }
    }
}

/// Outcome of an asynchronous command that did not succeed.
///
/// `DialogClosed` is benign: the user dismissed a native dialog, and the
/// reducer ignores it silently. `IoFailed` is stored in the model and shown
/// in the status bar until the next successful edit, load or save.
#[derive(Clone, Copy, Debug, PartialEq, Eq, Structural)]
pub enum EditorError {
    DialogClosed,
    IoFailed(IoErrorKind),
}

} // verus!
