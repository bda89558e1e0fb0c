//! The holepuncher's session registry: session identifier → last-seen
//! external address of the registering peer.
//!
//! Entries are created or overwritten on Register; there is no removal, so a
//! small association list with unique keys suffices.  Its view is the
//! mathematical map the role logic's contracts speak of.

use vstd::prelude::*;

use crate::bytes::bytes_eq;
use crate::messages::AddrModel;
use crate::messages::PeerAddr;

verus! {

/// The map an entry list denotes; later entries would win, but the store
/// keeps keys unique.
pub open spec fn entries_map(s: Seq<(Vec<u8>, PeerAddr)>) -> Map<Seq<u8>, AddrModel>
    decreases s.len(),
{
    if s.len() == 0 {
        Map::empty()
    } else {
        entries_map(s.drop_last()).insert(s.last().0@, s.last().1@)
    }
}

/// No two entries share a key.
pub open spec fn unique_keys(s: Seq<(Vec<u8>, PeerAddr)>) -> bool {
    forall|i: int, j: int| 0 <= i < j < s.len() ==> s[i].0@ != s[j].0@
}

/// An entry is faithfully reported by the denoted map.
proof fn lemma_map_index(s: Seq<(Vec<u8>, PeerAddr)>, i: int)
    requires
        unique_keys(s),
        0 <= i < s.len(),
    ensures
        entries_map(s).contains_key(s[i].0@),
        entries_map(s)[s[i].0@] == s[i].1@,
    decreases s.len(),
{
    if i == s.len() - 1 {
    } else {
        lemma_map_index(s.drop_last(), i);
    }
}

/// A key held by no entry is absent from the denoted map.
proof fn lemma_map_no_key(s: Seq<(Vec<u8>, PeerAddr)>, k: Seq<u8>)
    requires
        forall|i: int| 0 <= i < s.len() ==> s[i].0@ != k,
    ensures
        !entries_map(s).contains_key(k),
    decreases s.len(),
{
    if s.len() > 0 {
        lemma_map_no_key(s.drop_last(), k);
    }
}

/// Appending an entry inserts its binding into the denoted map.
proof fn lemma_map_push(s: Seq<(Vec<u8>, PeerAddr)>, e: (Vec<u8>, PeerAddr))
    ensures
        entries_map(s.push(e)) == entries_map(s).insert(e.0@, e.1@),
{
    assert(s.push(e).drop_last() =~= s);
}

/// Overwriting the entry that holds a key updates that key's binding alone.
proof fn lemma_map_update(s: Seq<(Vec<u8>, PeerAddr)>, i: int, e: (Vec<u8>, PeerAddr))
    requires
        unique_keys(s),
        0 <= i < s.len(),
        s[i].0@ == e.0@,
    ensures
        entries_map(s.update(i, e)) =~= entries_map(s).insert(e.0@, e.1@),
    decreases s.len(),
{
    if i == s.len() - 1 {
        assert(s.update(i, e).drop_last() =~= s.drop_last());
        assert(s.update(i, e).last() == e);
    } else {
        assert(s.update(i, e).drop_last() =~= s.drop_last().update(i, e));
        lemma_map_update(s.drop_last(), i, e);
        assert(s.update(i, e).last() == s.last());
        assert(s.last().0@ != e.0@);
    }
}

/// The holepuncher's registry of sessions.
pub struct SessionStore {
    entries: Vec<(Vec<u8>, PeerAddr)>,
}

impl View for SessionStore {
    type V = Map<Seq<u8>, AddrModel>;

    closed spec fn view(&self) -> Map<Seq<u8>, AddrModel> {
        entries_map(self.entries@)
    }
}

impl SessionStore {
    /// Well-formedness: the constructor establishes it and every method
    /// preserves it.
    pub closed spec fn wf(&self) -> bool {
        unique_keys(self.entries@)
    }

    /// An empty registry.
    pub fn new() -> (r: Self)
        ensures
            r.wf(),
            r@ == Map::<Seq<u8>, AddrModel>::empty(),
    {
        Self { entries: Vec::new() }
    }

    /// Create or overwrite the binding for a session identifier.
    #[verifier::loop_isolation(false)]
    pub fn insert(&mut self, session_id: Vec<u8>, addr: PeerAddr)
        requires
            old(self).wf(),
        ensures
            final(self).wf(),
            final(self)@ == old(self)@.insert(session_id@, addr@),
    {
        let ghost s0 = self.entries@;
        let len = self.entries.len();
        let mut i: usize = 0;
        while i < len
            invariant
                i <= len,
                self.entries@ == s0,
                forall|j: int| 0 <= j < i ==> s0[j].0@ != session_id@,
            decreases len - i,
        {
            if bytes_eq(self.entries[i].0.as_slice(), session_id.as_slice()) {
                self.entries.set(i, (session_id, addr));
                proof {
                    lemma_map_update(s0, i as int, self.entries@[i as int]);
                }
                return ;
            }
            i = i + 1;
        }
        self.entries.push((session_id, addr));
        proof {
            lemma_map_push(s0, self.entries@.last());
            assert(self.entries@.drop_last() =~= s0);
        }
    }

    /// Look a session identifier up; `Some` exactly when the registry binds
    /// it, and then to the bound address.
    #[verifier::loop_isolation(false)]
    pub fn get(&self, session_id: &[u8]) -> (r: Option<PeerAddr>)
        requires
            self.wf(),
        ensures
            r matches Some(a) ==> self@.contains_key(session_id@) && a@ == self@[session_id@],
            r is None ==> !self@.contains_key(session_id@),
    {
        let len = self.entries.len();
        let mut i: usize = 0;
        while i < len
            invariant
                i <= len,
                forall|j: int| 0 <= j < i ==> self.entries@[j].0@ != session_id@,
        decreases len - i,
        {
            if bytes_eq(self.entries[i].0.as_slice(), session_id) {
                let found = self.entries[i].1;
                proof {
                    lemma_map_index(self.entries@, i as int);
                }
                return Some(found);
            }
            i = i + 1;
        }
        proof {
            lemma_map_no_key(self.entries@, session_id@);
        }
        None
    }
}

} // verus!
