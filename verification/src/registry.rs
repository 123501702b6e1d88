//! The session registry: a mapping from session id to the live session's
//! handles, with at most one session per id.
//!
//! Abstractly a registry is a map from each live id to the log of byte
//! chunks successfully written into that session, in order.  The log is
//! ghost bookkeeping: it lets the contracts say exactly which bytes each
//! session was handed, and that sessions never see each other's writes.

use vstd::prelude::*;

use crate::backend::PtyMaster;
use crate::backend::PtyWriter;
use crate::backend::resize_master;
use crate::backend::writer_flush;
use crate::backend::writer_write_all;
use crate::errors::TermError;

verus! {

/// One live session: its id, the exclusive write handle into the PTY, the
/// controlling side kept for live resizing, and the ghost log of the byte
/// chunks written so far.
struct SessionEntry {
    id: String,
    writer: PtyWriter,
    master: PtyMaster,
    chunks: Ghost<Seq<Seq<u8>>>,
}

/// The registry of live sessions.  Entries are held in a vector with
/// pairwise-distinct ids; its abstract value is the map from id to write
/// log.
pub struct Registry {
    entries: Vec<SessionEntry>,
}

impl View for Registry {
    type V = Map<Seq<char>, Seq<Seq<u8>>>;

    closed spec fn view(&self) -> Map<Seq<char>, Seq<Seq<u8>>> {
        Map::new(|id: Seq<char>| self.has_id(id), |id: Seq<char>| self.log_at(id))
    }
}

impl Registry {
    /// Well-formed: no two entries share an id.
    pub closed spec fn wf(&self) -> bool {
        forall|i: int, j: int|
            0 <= i < j < self.entries@.len() ==> self.entries@[i].id@ != self.entries@[j].id@
    }

    pub closed spec fn has_id(&self, id: Seq<char>) -> bool {
        exists|i: int| 0 <= i < self.entries@.len() && self.entries@[i].id@ == id
    }

    pub closed spec fn idx_of(&self, id: Seq<char>) -> int {
        choose|i: int| 0 <= i < self.entries@.len() && self.entries@[i].id@ == id
    }

    pub closed spec fn log_at(&self, id: Seq<char>) -> Seq<Seq<u8>> {
        self.entries@[self.idx_of(id)].chunks@
    }

    /// Two registries whose entries agree on ids and logs entry by entry
    /// have the same abstract value.
    proof fn lemma_same_view(pre: &Registry, post: &Registry)
        requires
            pre.wf(),
            post.entries@.len() == pre.entries@.len(),
            forall|i: int|
                0 <= i < pre.entries@.len() ==> #[trigger] post.entries@[i].id@
                    == pre.entries@[i].id@ && post.entries@[i].chunks@ == pre.entries@[i].chunks@,
        ensures
            post.wf(),
            post@ == pre@,
    {
        assert forall|i: int, j: int|
            0 <= i < j < post.entries@.len() implies post.entries@[i].id@
            != post.entries@[j].id@ by {
            assert(pre.entries@[i].id@ != pre.entries@[j].id@);
        }
        assert forall|k: Seq<char>| #[trigger]
            post@.contains_key(k) == pre@.contains_key(k) by {
            if post.has_id(k) {
                let i = choose|i: int|
                    0 <= i < post.entries@.len() && post.entries@[i].id@ == k;
                assert(pre.entries@[i].id@ == k);
                assert(pre.has_id(k));
            }
            if pre.has_id(k) {
                let i = pre.idx_of(k);
                assert(post.entries@[i].id@ == k);
                assert(post.has_id(k));
            }
        }
        assert forall|k: Seq<char>| #[trigger] post@.contains_key(k) implies post@[k]
            == pre@[k] by {
            let i = post.idx_of(k);
            assert(0 <= i < post.entries@.len() && post.entries@[i].id@ == k);
            post.lemma_view_at(i);
            assert(pre.entries@[i].id@ == k);
            pre.lemma_view_at(i);
        }
        assert(post@ =~= pre@);
    }

    proof fn lemma_view_at(&self, i: int)
        requires
            self.wf(),
            0 <= i < self.entries@.len(),
        ensures
            self.has_id(self.entries@[i].id@),
            self.idx_of(self.entries@[i].id@) == i,
            self@.contains_key(self.entries@[i].id@),
            self@[self.entries@[i].id@] == self.entries@[i].chunks@,
    {
        assert(self.has_id(self.entries@[i].id@));
        let j = self.idx_of(self.entries@[i].id@);
        assert(0 <= j < self.entries@.len() && self.entries@[j].id@ == self.entries@[i].id@);
        assert(j == i);
    }

    pub fn new() -> (r: Registry)
        ensures
            r.wf(),
            r@ == Map::<Seq<char>, Seq<Seq<u8>>>::empty(),
    {
        let r = Registry { entries: Vec::new() };
        proof {
            assert(r@ =~= Map::<Seq<char>, Seq<Seq<u8>>>::empty());
        }
        r
    }

    /// The index of the entry for `id`, if one is registered.
    fn find_index(&self, id: &String) -> (r: Option<usize>)
        requires
            self.wf(),
        ensures
            match r {
                Some(i) => i < self.entries@.len() && self.entries@[i as int].id@ == id@,
                None => !self@.contains_key(id@),
            },
    {
        let mut i: usize = 0;
        while i < self.entries.len()
            invariant
                i <= self.entries@.len(),
                forall|j: int| 0 <= j < i ==> self.entries@[j].id@ != id@,
            decreases self.entries@.len() - i,
        {
            if self.entries[i].id == *id {
                return Some(i);
            }
            i += 1;
        }
        None
    }

    /// Whether a session with this id is registered.
    pub fn contains(&self, id: &String) -> (r: bool)
        requires
            self.wf(),
        ensures
            r == self@.contains_key(id@),
    {
        match self.find_index(id) {
            Some(i) => {
                proof {
                    self.lemma_view_at(i as int);
                }
                true
            },
            None => false,
        }
    }

    /// Registers a new session under an id no live session holds.
    pub fn insert_session(&mut self, id: String, writer: PtyWriter, master: PtyMaster)
        requires
            old(self).wf(),
            !old(self)@.contains_key(id@),
        ensures
            final(self).wf(),
            final(self)@ == old(self)@.insert(id@, Seq::<Seq<u8>>::empty()),
    {
        let ghost pre = *self;
        let ghost idv = id@;
        self.entries.push(
            SessionEntry { id, writer, master, chunks: Ghost(Seq::empty()) },
        );
        proof {
            let n = pre.entries@.len() as int;
            assert(!pre.has_id(idv));
            assert forall|i: int, j: int|
                0 <= i < j < self.entries@.len() implies self.entries@[i].id@
                != self.entries@[j].id@ by {
                if j < n {
                    assert(pre.entries@[i].id@ != pre.entries@[j].id@);
                } else {
                    assert(self.entries@[j].id@ == idv);
                    assert(self.entries@[i].id@ == pre.entries@[i].id@);
                }
            }
            assert forall|k: Seq<char>| #[trigger]
                self@.contains_key(k) == pre@.insert(idv, Seq::<Seq<u8>>::empty()).contains_key(
                k,
            ) by {
                if k == idv {
                    assert(self.entries@[n].id@ == idv);
                    assert(self.has_id(idv));
                } else {
                    if self.has_id(k) {
                        let i = choose|i: int|
                            0 <= i < self.entries@.len() && self.entries@[i].id@ == k;
                        assert(i < n && pre.entries@[i].id@ == k);
                        assert(pre.has_id(k));
                    }
                    if pre.has_id(k) {
                        let i = pre.idx_of(k);
                        assert(self.entries@[i].id@ == k);
                        assert(self.has_id(k));
                    }
                }
            }
            assert forall|k: Seq<char>| #[trigger]
                self@.contains_key(k) implies self@[k] == pre@.insert(
                idv,
                Seq::<Seq<u8>>::empty(),
            )[k] by {
                if k == idv {
                    assert(self.entries@[n].id@ == idv);
                    self.lemma_view_at(n);
                } else {
                    let i = self.idx_of(k);
                    assert(0 <= i < self.entries@.len() && self.entries@[i].id@ == k);
                    assert(i < n);
                    self.lemma_view_at(i);
                    pre.lemma_view_at(i);
                }
            }
            assert(self@ =~= pre@.insert(idv, Seq::<Seq<u8>>::empty()));
        }
    }

    /// Releases the registry entry for `id`, reporting whether one existed.
    /// The handles it held are dropped; the child process itself is not
    /// touched.
    pub fn remove_session(&mut self, id: &String) -> (r: bool)
        requires
            old(self).wf(),
        ensures
            final(self).wf(),
            r == old(self)@.contains_key(id@),
            r ==> final(self)@ == old(self)@.remove(id@),
            !r ==> final(self)@ == old(self)@,
    {
        let ghost pre = *self;
        match self.find_index(id) {
            None => false,
            Some(i) => {
                proof {
                    self.lemma_view_at(i as int);
                }
                self.entries.remove(i);
                proof {
                    let n = pre.entries@.len() as int;
                    let iv = i as int;
                    assert forall|p: int, q: int|
                        0 <= p < q < self.entries@.len() implies self.entries@[p].id@
                        != self.entries@[q].id@ by {
                        let p0 = if p < iv { p } else { p + 1 };
                        let q0 = if q < iv { q } else { q + 1 };
                        assert(self.entries@[p] == pre.entries@[p0]);
                        assert(self.entries@[q] == pre.entries@[q0]);
                        assert(pre.entries@[p0].id@ != pre.entries@[q0].id@);
                    }
                    assert forall|k: Seq<char>| #[trigger]
                        self@.contains_key(k) == pre@.remove(id@).contains_key(k) by {
                        if k == id@ {
                            if self.has_id(k) {
                                let p = choose|p: int|
                                    0 <= p < self.entries@.len() && self.entries@[p].id@ == k;
                                let p0 = if p < iv { p } else { p + 1 };
                                assert(pre.entries@[p0].id@ == k);
                                assert(pre.entries@[iv].id@ == k);
                                assert(p0 == iv);
                                assert(false);
                            }
                        } else {
                            if self.has_id(k) {
                                let p = choose|p: int|
                                    0 <= p < self.entries@.len() && self.entries@[p].id@ == k;
                                let p0 = if p < iv { p } else { p + 1 };
                                assert(pre.entries@[p0].id@ == k);
                                assert(pre.has_id(k));
                            }
                            if pre.has_id(k) {
                                let p0 = pre.idx_of(k);
                                assert(p0 != iv);
                                let p = if p0 < iv { p0 } else { p0 - 1 };
                                assert(self.entries@[p] == pre.entries@[p0]);
                                assert(self.has_id(k));
                            }
                        }
                    }
                    assert forall|k: Seq<char>| #[trigger]
                        self@.contains_key(k) implies self@[k] == pre@.remove(id@)[k] by {
                        let p = self.idx_of(k);
                        assert(0 <= p < self.entries@.len() && self.entries@[p].id@ == k);
                        self.lemma_view_at(p);
                        let p0 = if p < iv { p } else { p + 1 };
                        assert(self.entries@[p] == pre.entries@[p0]);
                        pre.lemma_view_at(p0);
                    }
                    assert(self@ =~= pre@.remove(id@));
                }
                true
            },
        }
    }

    /// Writes the bytes into the session's input side and flushes, appending
    /// them to the session's log on success.  A failing stream leaves the
    /// entry registered, for an explicit removal later.
    pub fn write_chunk(&mut self, id: &String, data: &[u8]) -> (r: Result<(), TermError>)
        requires
            old(self).wf(),
        ensures
            final(self).wf(),
            r matches Err(e) ==> (e is NotFound <==> !old(self)@.contains_key(id@)),
            r matches Err(e) ==> e is NotFound || e is Io,
            !old(self)@.contains_key(id@) ==> final(self)@ == old(self)@,
            r is Ok ==> old(self)@.contains_key(id@) && final(self)@ == old(self)@.insert(
                id@,
                old(self)@[id@].push(data@),
            ),
            final(self)@.dom() == old(self)@.dom(),
            r is Err ==> final(self)@ == old(self)@ || final(self)@ == old(self)@.insert(
                id@,
                old(self)@[id@].push(data@),
            ),
    {
        let ghost pre = *self;
        let i = match self.find_index(id) {
            Some(i) => i,
            None => {
                return Err(TermError::NotFound);
            },
        };
        proof {
            self.lemma_view_at(i as int);
        }
        let entry = &mut self.entries[i];
        match writer_write_all(&mut entry.writer, data) {
            Ok(_) => {},
            Err(m) => {
                proof {
                    Registry::lemma_same_view(&pre, self);
                }
                return Err(TermError::Io(m));
            },
        }
        entry.chunks = Ghost(entry.chunks@.push(data@));
        let r = match writer_flush(&mut entry.writer) {
            Ok(_) => Ok(()),
            Err(m) => Err(TermError::Io(m)),
        };
        proof {
            let iv = i as int;
            let idv = pre.entries@[iv].id@;
            assert(idv == id@);
            assert forall|p: int, q: int|
                0 <= p < q < self.entries@.len() implies self.entries@[p].id@
                != self.entries@[q].id@ by {
                assert(self.entries@[p].id@ == pre.entries@[p].id@);
                assert(self.entries@[q].id@ == pre.entries@[q].id@);
            }
            assert forall|k: Seq<char>| #[trigger]
                self@.contains_key(k) == pre@.insert(id@, pre@[id@].push(data@)).contains_key(
                k,
            ) by {
                if self.has_id(k) {
                    let p = choose|p: int|
                        0 <= p < self.entries@.len() && self.entries@[p].id@ == k;
                    assert(pre.entries@[p].id@ == k);
                    assert(pre.has_id(k));
                }
                if pre.has_id(k) {
                    let p = pre.idx_of(k);
                    assert(self.entries@[p].id@ == k);
                    assert(self.has_id(k));
                }
            }
            assert forall|k: Seq<char>| #[trigger]
                self@.contains_key(k) implies self@[k] == pre@.insert(
                id@,
                pre@[id@].push(data@),
            )[k] by {
                let p = self.idx_of(k);
                assert(0 <= p < self.entries@.len() && self.entries@[p].id@ == k);
                self.lemma_view_at(p);
                assert(pre.entries@[p].id@ == k);
                pre.lemma_view_at(p);
                if k == id@ {
                    assert(p == iv);
                    assert(self.entries@[p].chunks@ == pre.entries@[iv].chunks@.push(data@));
                } else {
                    assert(p != iv);
                    assert(self.entries@[p] == pre.entries@[p]);
                }
            }
            assert(self@ =~= pre@.insert(id@, pre@[id@].push(data@)));
            assert(self@.dom() =~= pre@.dom());
        }
        r
    }

    /// Tells the session's PTY about a new geometry, so the child receives a
    /// window-size-changed signal.  The registry itself is unchanged.
    pub fn resize_session(&self, id: &String, cols: u16, rows: u16) -> (r: Result<(), TermError>)
        requires
            self.wf(),
        ensures
            r matches Err(e) ==> (e is NotFound <==> !self@.contains_key(id@)),
            r matches Err(e) ==> e is NotFound || e is Io,
            r is Ok ==> self@.contains_key(id@),
    {
        let i = match self.find_index(id) {
            Some(i) => i,
            None => {
                return Err(TermError::NotFound);
            },
        };
        proof {
            self.lemma_view_at(i as int);
        }
        match resize_master(&self.entries[i].master, cols, rows) {
            Ok(_) => Ok(()),
            Err(m) => Err(TermError::Io(m)),
        }
    }
}

} // verus!
