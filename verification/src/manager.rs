//! The session manager: creation, write, resize and close, orchestrated
//! against the registry and the PTY backend.
//!
//! Abstractly the manager is a map from live session id to the log of byte
//! chunks written into that session (`SessionMap`).  The `spec_*` transition
//! functions below say how each operation moves that map; the operations'
//! contracts tie the executable code to them, and the laws in `laws` are
//! proved about them.

use vstd::prelude::*;

use crate::backend::ChildProc;
use crate::backend::PtyReader;
use crate::backend::clone_reader;
use crate::backend::into_master;
use crate::backend::pty_open;
use crate::backend::spawn_child;
use crate::backend::take_writer;
use crate::command::build_command;
use crate::errors::ErrKind;
use crate::errors::TermError;
use crate::registry::Registry;
use vstd::string::StringSliceAdditionalSpecFns;

verus! {

/// Initial geometry of every new session's PTY.
pub const DEFAULT_ROWS: u16 = 24;

pub const DEFAULT_COLS: u16 = 80;

/// The abstract state of a manager: each live id mapped to the log of byte
/// chunks successfully written into its session, in order.
pub type SessionMap = Map<Seq<char>, Seq<Seq<u8>>>;

/// An operation's outcome with the backend message stripped.
pub open spec fn res_kind(r: Result<(), TermError>) -> Result<(), ErrKind> {
    match r {
        Ok(_) => Ok(()),
        Err(e) => Err(e.kind()),
    }
}

/// How `create_terminal` moves the abstract state.  `failure` is how the
/// backend answered: `None` when the PTY opened and the child spawned,
/// otherwise the failure class the backend reported.  A duplicate id is
/// rejected before the backend is consulted.
pub open spec fn spec_create(m: SessionMap, id: Seq<char>, failure: Option<ErrKind>) -> (
    SessionMap,
    Result<(), ErrKind>,
) {
    if m.contains_key(id) {
        (m, Err(ErrKind::DuplicateId))
    } else {
        match failure {
            None => (m.insert(id, Seq::empty()), Ok(())),
            Some(k) => (m, Err(k)),
        }
    }
}

/// How `write_to_terminal` moves the abstract state.  `write_ok` and
/// `flush_ok` are how the stream answered the two calls it takes; a chunk
/// is logged exactly when the write itself went through, and a failing
/// stream never unregisters the session.
pub open spec fn spec_write(
    m: SessionMap,
    id: Seq<char>,
    data: Seq<u8>,
    write_ok: bool,
    flush_ok: bool,
) -> (SessionMap, Result<(), ErrKind>) {
    if !m.contains_key(id) {
        (m, Err(ErrKind::NotFound))
    } else if !write_ok {
        (m, Err(ErrKind::Io))
    } else {
        let m2 = m.insert(id, m[id].push(data));
        if flush_ok {
            (m2, Ok(()))
        } else {
            (m2, Err(ErrKind::Io))
        }
    }
}

/// How `resize_terminal` decides.  The abstract state never changes; `io_ok`
/// is how the backend answered the resize call.
pub open spec fn spec_resize(m: SessionMap, id: Seq<char>, io_ok: bool) -> Result<(), ErrKind> {
    if !m.contains_key(id) {
        Err(ErrKind::NotFound)
    } else if io_ok {
        Ok(())
    } else {
        Err(ErrKind::Io)
    }
}

/// How `close_terminal` moves the abstract state: the entry is released if
/// it exists, and nothing else happens.
pub open spec fn spec_close(m: SessionMap, id: Seq<char>) -> (SessionMap, Result<(), ErrKind>) {
    if m.contains_key(id) {
        (m.remove(id), Ok(()))
    } else {
        (m, Err(ErrKind::NotFound))
    }
}

/// What a successful creation hands back: the id, confirmed as the handle
/// for later operations, and the two pieces the reader loop runs on — the
/// output stream and the child to wait on once that stream ends.
pub struct SpawnedSession {
    pub id: String,
    pub reader: PtyReader,
    pub child: ChildProc,
}

/// One manager instance owns the registry of live sessions.  Callers that
/// share a manager across threads wrap it in their own lock; every critical
/// section here is a short map operation plus at most one stream call.
pub struct TerminalManager {
    registry: Registry,
}

impl View for TerminalManager {
    type V = SessionMap;

    closed spec fn view(&self) -> SessionMap {
        self.registry@
    }
}

impl TerminalManager {
    pub closed spec fn wf(&self) -> bool {
        self.registry.wf()
    }

    /// A manager with no live sessions.
    pub fn new() -> (r: TerminalManager)
        ensures
            r.wf(),
            r@ == Map::<Seq<char>, Seq<Seq<u8>>>::empty(),
    {
        TerminalManager { registry: Registry::new() }
    }

    /// Opens a PTY with the default geometry, spawns the shell attached to
    /// it, starts the session's write log empty, and registers the id —
    /// unless the id is already taken, which is rejected before the backend
    /// is touched.  On failure the manager is exactly as it was.
    pub fn create_terminal(
        &mut self,
        id: String,
        cwd: Option<String>,
        env: Option<Vec<(String, String)>>,
    ) -> (r: Result<SpawnedSession, TermError>)
        requires
            old(self).wf(),
        ensures
            final(self).wf(),
            r matches Ok(s) ==> s.id@ == id@,
            r is Ok ==> (final(self)@, Ok::<(), ErrKind>(())) == spec_create(
                old(self)@,
                id@,
                None,
            ),
            r matches Err(e) ==> (final(self)@, Err::<(), ErrKind>(e.kind())) == spec_create(
                old(self)@,
                id@,
                Some(e.kind()),
            ),
            r matches Err(e) ==> (e is DuplicateId <==> old(self)@.contains_key(id@)),
            r matches Err(e) ==> e is DuplicateId || e is Spawn || e is Io,
    {
        if self.registry.contains(&id) {
            return Err(TermError::DuplicateId);
        }
        let pair = match pty_open(DEFAULT_ROWS, DEFAULT_COLS) {
            Ok(p) => p,
            Err(m) => {
                return Err(TermError::Spawn(m));
            },
        };
        let cmd = build_command(&cwd, &env);
        let child = match spawn_child(&pair, cmd) {
            Ok(c) => c,
            Err(m) => {
                return Err(TermError::Spawn(m));
            },
        };
        let reader = match clone_reader(&pair) {
            Ok(h) => h,
            Err(m) => {
                return Err(TermError::Io(m));
            },
        };
        let writer = match take_writer(&pair) {
            Ok(h) => h,
            Err(m) => {
                return Err(TermError::Io(m));
            },
        };
        let master = into_master(pair);
        let out_id = id.clone();
        self.registry.insert_session(id, writer, master);
        Ok(SpawnedSession { id: out_id, reader, child })
    }

    /// Writes the bytes of `data` into the session's input side and flushes.
    /// On success exactly those bytes, in order, are appended as one chunk
    /// to that session's log; no other session's log ever changes, and a
    /// failing stream leaves the entry registered for an explicit close.
    pub fn write_to_terminal(&mut self, id: &String, data: &str) -> (r: Result<(), TermError>)
        requires
            old(self).wf(),
        ensures
            final(self).wf(),
            exists|write_ok: bool, flush_ok: bool|
                (final(self)@, res_kind(r)) == spec_write(
                    old(self)@,
                    id@,
                    data.spec_bytes(),
                    write_ok,
                    flush_ok,
                ),
            r matches Err(e) ==> (e is NotFound <==> !old(self)@.contains_key(id@)),
            r matches Err(e) ==> e is NotFound || e is Io,
            r is Ok ==> final(self)@ == old(self)@.insert(
                id@,
                old(self)@[id@].push(data.spec_bytes()),
            ),
            final(self)@.dom() == old(self)@.dom(),
    {
        let bytes: &[u8] = data.as_bytes();
        let r = self.registry.write_chunk(id, bytes);
        proof {
            let m0 = old(self)@;
            let d = data.spec_bytes();
            if r is Ok {
                assert((self@, res_kind(r)) == spec_write(m0, id@, d, true, true));
            } else if !m0.contains_key(id@) {
                assert((self@, res_kind(r)) == spec_write(m0, id@, d, true, true));
            } else if self@ == m0.insert(id@, m0[id@].push(d)) {
                assert((self@, res_kind(r)) == spec_write(m0, id@, d, true, false));
            } else {
                assert((self@, res_kind(r)) == spec_write(m0, id@, d, false, false));
            }
        }
        r
    }

    /// Tells the session's PTY about the new geometry, so the child process
    /// receives a window-size-changed signal.  The session map is untouched.
    pub fn resize_terminal(&self, id: &String, cols: u16, rows: u16) -> (r: Result<(), TermError>)
        requires
            self.wf(),
        ensures
            exists|io_ok: bool| res_kind(r) == spec_resize(self@, id@, io_ok),
            r matches Err(e) ==> (e is NotFound <==> !self@.contains_key(id@)),
            r matches Err(e) ==> e is NotFound || e is Io,
    {
        let r = self.registry.resize_session(id, cols, rows);
        proof {
            if r is Ok {
                assert(res_kind(r) == spec_resize(self@, id@, true));
            } else {
                assert(res_kind(r) == spec_resize(self@, id@, false));
            }
        }
        r
    }

    /// Releases the registry entry for `id`.  The manager's references are
    /// dropped and every later operation on this id reports `NotFound`; the
    /// child process is not terminated and the reader loop is not
    /// interrupted — it ends on its own when the output stream closes.
    pub fn close_terminal(&mut self, id: &String) -> (r: Result<(), TermError>)
        requires
            old(self).wf(),
        ensures
            final(self).wf(),
            (final(self)@, res_kind(r)) == spec_close(old(self)@, id@),
            r matches Err(e) ==> e is NotFound,
    {
        if self.registry.remove_session(id) {
            Ok(())
        } else {
            Err(TermError::NotFound)
        }
    }
}

} // verus!
