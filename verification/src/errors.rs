use vstd::prelude::*;

verus! {

/// Why a session operation failed.
///
/// `Spawn` and `Io` carry the backend's own message so the embedder can
/// surface it verbatim; `NotFound` and `DuplicateId` are registry decisions
/// and need no payload beyond the id the caller already has.
#[derive(Debug)]
pub enum TermError {
    /// The PTY could not be allocated or the child process could not start.
    Spawn(String),
    /// Duplicating a handle, or writing, flushing or resizing the stream, failed.
    Io(String),
    /// The operation referenced an id with no live session.
    NotFound,
    /// Creation referenced an id that is already registered.
    DuplicateId,
}

impl TermError {
    /// The failure class, with the backend message stripped.
    pub open spec fn kind(&self) -> ErrKind {
        match self {
            TermError::Spawn(_) => ErrKind::Spawn,
            TermError::Io(_) => ErrKind::Io,
            TermError::NotFound => ErrKind::NotFound,
            TermError::DuplicateId => ErrKind::DuplicateId,
        }
    }
}

/// The failure classes of `TermError`, without messages; the abstract
/// transition functions and the laws speak in these.
#[derive(Clone, Copy, Debug, PartialEq, Eq, Structural)]
pub enum ErrKind {
    Spawn,
    Io,
    NotFound,
    DuplicateId,
}

} // verus!
