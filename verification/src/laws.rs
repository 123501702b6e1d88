//! The laws of the session manager, proved over the abstract transitions.

use vstd::prelude::*;

use crate::errors::ErrKind;
use crate::manager::SessionMap;
use crate::manager::spec_close;
use crate::manager::spec_create;
use crate::manager::spec_resize;
use crate::manager::spec_write;

verus! {

/// Creating a session and closing it right away leaves nothing behind: the
/// id is unknown again, and a subsequent write, resize or close on it all
/// report `NotFound`, whatever the streams would have said.
pub proof fn lemma_create_close_leaves_nothing(
    m: SessionMap,
    id: Seq<char>,
    data: Seq<u8>,
    write_ok: bool,
    flush_ok: bool,
    io_ok: bool,
)
    requires
        !m.contains_key(id),
    ensures
        ({
            let (m1, r1) = spec_create(m, id, None);
            let (m2, r2) = spec_close(m1, id);
            &&& r1 is Ok
            &&& r2 is Ok
            &&& !m2.contains_key(id)
            &&& spec_write(m2, id, data, write_ok, flush_ok) == (
                m2,
                Err::<(), ErrKind>(ErrKind::NotFound),
            )
            &&& spec_resize(m2, id, io_ok) == Err::<(), ErrKind>(ErrKind::NotFound)
            &&& spec_close(m2, id) == (m2, Err::<(), ErrKind>(ErrKind::NotFound))
        }),
{
}

/// A successful write appends exactly the given bytes, in order, as one
/// chunk to the target session's log — and to no other session's: writes
/// never interleave across sessions.
pub proof fn lemma_write_exact_and_isolated(
    m: SessionMap,
    id: Seq<char>,
    other: Seq<char>,
    data: Seq<u8>,
)
    requires
        m.contains_key(id),
        other != id,
    ensures
        ({
            let (m2, r) = spec_write(m, id, data, true, true);
            &&& r is Ok
            &&& m2[id] == m[id].push(data)
            &&& m2.contains_key(other) == m.contains_key(other)
            &&& m.contains_key(other) ==> m2[other] == m[other]
        }),
{
}

/// Closing is no idempotent operation: the first close of a live id
/// succeeds and releases the entry, the second reports `NotFound` and
/// changes nothing.
pub proof fn lemma_close_twice(m: SessionMap, id: Seq<char>)
    requires
        m.contains_key(id),
    ensures
        ({
            let (m1, r1) = spec_close(m, id);
            let (m2, r2) = spec_close(m1, id);
            &&& r1 is Ok
            &&& r2 == Err::<(), ErrKind>(ErrKind::NotFound)
            &&& m2 == m1
        }),
{
}

/// Creating under an id that is already live is rejected with
/// `DuplicateId`, whatever the backend would have said, and the original
/// session is untouched and remains writable.
pub proof fn lemma_duplicate_create_rejected(
    m: SessionMap,
    id: Seq<char>,
    failure: Option<ErrKind>,
    data: Seq<u8>,
)
    requires
        m.contains_key(id),
    ensures
        ({
            let (m1, r1) = spec_create(m, id, failure);
            &&& r1 == Err::<(), ErrKind>(ErrKind::DuplicateId)
            &&& m1 == m
            &&& spec_write(m1, id, data, true, true).1 is Ok
        }),
{
}

/// A write to an id never created (or no longer live) fails with
/// `NotFound` and touches nothing.
pub proof fn lemma_write_unknown_id(
    m: SessionMap,
    id: Seq<char>,
    data: Seq<u8>,
    write_ok: bool,
    flush_ok: bool,
)
    requires
        !m.contains_key(id),
    ensures
        spec_write(m, id, data, write_ok, flush_ok) == (m, Err::<(), ErrKind>(ErrKind::NotFound)),
{
}

} // verus!
