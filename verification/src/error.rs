use vstd::prelude::*;

verus! {

/// The failure taxonomy of the library.
///
/// Field-level native failures are absorbed by the normalizers into per-field
/// defaults and never reach this type; only bag-level, session-level and
/// subscription-level failures are surfaced as one of these kinds.
#[derive(Clone, Copy, Debug, Hash, PartialEq, Eq, Structural)]
pub enum ErrorKind {
    /// No media source is currently registered with the backend.
    NoActiveSession,
    /// The native service or bus cannot be reached at all.
    BackendUnavailable,
    /// The backend reported a transport state outside the known set.
    UnknownStatus,
    /// The resolved status carries no timeline payload.
    NoTimeline,
    /// A single native call failed at the bag or call level.
    NativeCallFailure,
}

/// Spec-level content of an [`Error`]: its kind and its message text.
pub ghost struct ErrorV {
    pub kind: ErrorKind,
    pub msg: Seq<char>,
}

/// An error of the library: a taxonomy kind plus a human-readable message.
#[derive(Debug, Clone)]
pub struct Error {
    kind: ErrorKind,
    msg: String,
}

impl View for Error {
    type V = ErrorV;

    closed spec fn view(&self) -> ErrorV {
        ErrorV { kind: self.kind, msg: self.msg@ }
    }
}

impl Error {
    /// Builds an error of the given kind carrying the given message.
    pub fn new(kind: ErrorKind, msg: &str) -> (r: Self)
        ensures
            r@.kind == kind,
            r@.msg == msg@,
    {
        Error { kind, msg: msg.to_owned() }
    }

    /// The taxonomy kind of this error.
    pub fn kind(&self) -> (k: ErrorKind)
        ensures
            k == self@.kind,
    {
        self.kind
    }

    /// The message text of this error.
    pub fn message(&self) -> (s: String)
        ensures
            s@ == self@.msg,
    {
        self.msg.clone()
    }
}

} // verus!
