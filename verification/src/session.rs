use vstd::prelude::*;

use crate::bytes::bytes_eq;

verus! {

/// One parked login attempt: the account identifier the caller bound to it,
/// the serialized server login state, and the instant (in milliseconds) past
/// which it may no longer be finished.
pub struct SessionEntry {
    pub sid: Vec<u8>,
    pub secret_id: Vec<u8>,
    pub state: Vec<u8>,
    pub expires_at_ms: u64,
}

/// The mathematical content of one ledger entry.
pub struct SessionView {
    pub secret_id: Seq<u8>,
    pub state: Seq<u8>,
    pub expires_at_ms: u64,
}

/// The mathematical content of an entry.
pub open spec fn entry_view(e: SessionEntry) -> SessionView {
    SessionView { secret_id: e.secret_id@, state: e.state@, expires_at_ms: e.expires_at_ms }
}

/// The map a sequence of entries denotes, later entries taking precedence.
pub open spec fn entries_map(s: Seq<SessionEntry>) -> Map<Seq<u8>, SessionView>
    decreases s.len(),
{
    if s.len() == 0 {
        Map::empty()
    } else {
        entries_map(s.drop_last()).insert(s.last().sid@, entry_view(s.last()))
    }
}

/// No session id occurs twice.
pub open spec fn wf_entries(s: Seq<SessionEntry>) -> bool {
    forall|i: int, j: int| 0 <= i < j < s.len() ==> s[i].sid@ != s[j].sid@
}

/// Some entry of `s` carries the session id `k`.
pub open spec fn contains_sid(s: Seq<SessionEntry>, k: Seq<u8>) -> bool {
    exists|i: int| 0 <= i < s.len() && (#[trigger] s[i]).sid@ == k
}

/// A key is in the denoted map exactly when some entry carries it.
pub proof fn lemma_entries_map_domain(s: Seq<SessionEntry>)
    ensures
        forall|k: Seq<u8>| #[trigger] entries_map(s).contains_key(k) <==> contains_sid(s, k),
    decreases s.len(),
{
    if s.len() > 0 {
        let prev = s.drop_last();
        lemma_entries_map_domain(prev);
        assert forall|k: Seq<u8>| #[trigger]
            entries_map(s).contains_key(k) implies contains_sid(s, k) by {
            if k == s.last().sid@ {
                assert((s[s.len() - 1]).sid@ == k);
            } else {
                assert(entries_map(prev).contains_key(k));
                let i = choose|i: int| 0 <= i < prev.len() && (#[trigger] prev[i]).sid@ == k;
                assert(prev[i] == s[i]);
                assert((s[i]).sid@ == k);
            }
        }
        assert forall|k: Seq<u8>| contains_sid(s, k) implies #[trigger]
            entries_map(s).contains_key(k) by {
            let i = choose|i: int| 0 <= i < s.len() && (#[trigger] s[i]).sid@ == k;
            if i == s.len() - 1 {
                assert(k == s.last().sid@);
                assert(entries_map(s) == entries_map(prev).insert(s.last().sid@, entry_view(s.last())));
            } else {
                assert(prev[i] == s[i]);
                assert(contains_sid(prev, k));
                assert(entries_map(prev).contains_key(k));
            }
        }
    } else {
        assert forall|k: Seq<u8>| #[trigger]
            entries_map(s).contains_key(k) <==> contains_sid(s, k) by {
            assert(!entries_map(s).contains_key(k));
            assert(!contains_sid(s, k));
        }
    }
}

/// At any entry's id, the denoted map holds that entry's content (given
/// unique ids).
pub proof fn lemma_entries_map_at(s: Seq<SessionEntry>, i: int)
    requires
        wf_entries(s),
        0 <= i < s.len(),
    ensures
        entries_map(s).contains_key(s[i].sid@),
        entries_map(s)[s[i].sid@] == entry_view(s[i]),
    decreases s.len(),
{
    if i < s.len() - 1 {
        assert(s.drop_last()[i] == s[i]);
        lemma_entries_map_at(s.drop_last(), i);
        assert(s[i].sid@ != s.last().sid@);
    }
}

/// Appending an entry with a fresh id inserts it into the denoted map.
pub proof fn lemma_entries_map_push(s: Seq<SessionEntry>, e: SessionEntry)
    ensures
        entries_map(s.push(e)) == entries_map(s).insert(e.sid@, entry_view(e)),
{
    assert(s.push(e).drop_last() =~= s);
    assert(s.push(e).last() == e);
}

/// Removing the entry at index i removes exactly its id from the denoted map
/// (given unique ids).
pub proof fn lemma_entries_map_remove(s: Seq<SessionEntry>, i: int)
    requires
        wf_entries(s),
        0 <= i < s.len(),
    ensures
        wf_entries(s.remove(i)),
        entries_map(s.remove(i)) == entries_map(s).remove(s[i].sid@),
{
    s.remove_ensures(i);
    let t = s.remove(i);
    let key = s[i].sid@;
    assert forall|a: int, b: int| 0 <= a < b < t.len() implies (t[a]).sid@ != (t[b]).sid@ by {
        let sa: int = if a < i {
            a
        } else {
            a + 1
        };
        let sb: int = if b < i {
            b
        } else {
            b + 1
        };
        assert(t[a] == s[sa] && t[b] == s[sb]);
        assert((s[sa]).sid@ != (s[sb]).sid@);
    }
    lemma_entries_map_domain(s);
    lemma_entries_map_domain(t);
    assert forall|k: Seq<u8>| #[trigger]
        entries_map(t).contains_key(k) implies entries_map(s).remove(key).contains_key(k) by {
        let j = choose|j: int| 0 <= j < t.len() && (#[trigger] t[j]).sid@ == k;
        let sj: int = if j < i {
            j
        } else {
            j + 1
        };
        assert(t[j] == s[sj]);
        assert(contains_sid(s, k));
        if sj < i {
            assert((s[sj]).sid@ != (s[i]).sid@);
        } else {
            assert((s[i]).sid@ != (s[sj]).sid@);
        }
    }
    assert forall|k: Seq<u8>| #[trigger]
        entries_map(s).remove(key).contains_key(k) implies entries_map(t).contains_key(k) by {
        assert(entries_map(s).contains_key(k));
        let j = choose|j: int| 0 <= j < s.len() && (#[trigger] s[j]).sid@ == k;
        assert(j != i);
        let tj: int = if j < i {
            j
        } else {
            j - 1
        };
        assert(t[tj] == s[j]);
        assert(contains_sid(t, k));
    }
    assert forall|k: Seq<u8>| #[trigger]
        entries_map(t).contains_key(k) implies entries_map(t)[k] == entries_map(s).remove(key)[k] by {
        let j = choose|j: int| 0 <= j < t.len() && (#[trigger] t[j]).sid@ == k;
        let sj: int = if j < i {
            j
        } else {
            j + 1
        };
        assert(t[j] == s[sj]);
        lemma_entries_map_at(t, j);
        lemma_entries_map_at(s, sj);
        if sj < i {
            assert((s[sj]).sid@ != (s[i]).sid@);
        } else {
            assert((s[i]).sid@ != (s[sj]).sid@);
        }
    }
    assert(entries_map(t) =~= entries_map(s).remove(key));
}

/// The server's session ledger: a finite mapping from session id to parked
/// login attempt, with unique ids. Insertion happens at login start, removal
/// at login finish or on an observed expiry.
pub struct SessionLedger {
    entries: Vec<SessionEntry>,
}

impl View for SessionLedger {
    type V = Map<Seq<u8>, SessionView>;

    closed spec fn view(&self) -> Map<Seq<u8>, SessionView> {
        entries_map(self.entries@)
    }
}

impl SessionLedger {
    /// Unique session ids throughout.
    pub closed spec fn wf(&self) -> bool {
        wf_entries(self.entries@)
    }

    /// An empty ledger.
    pub fn new() -> (r: Self)
        ensures
            r.wf(),
            r@ == Map::<Seq<u8>, SessionView>::empty(),
    {
        SessionLedger { entries: Vec::new() }
    }

    /// Whether a session id is currently parked.
    pub fn contains(&self, sid: &Vec<u8>) -> (r: bool)
        requires
            self.wf(),
        ensures
            r == self@.contains_key(sid@),
    {
        let n = self.entries.len();
        let mut i: usize = 0;
        while i < n
            invariant
                i <= n,
                n == self.entries@.len(),
                forall|j: int| 0 <= j < i ==> self.entries@[j].sid@ != sid@,
            decreases n - i,
        {
            if bytes_eq(&self.entries[i].sid, sid) {
                proof {
                    lemma_entries_map_domain(self.entries@);
                }
                return true;
            }
            i = i + 1;
        }
        proof {
            lemma_entries_map_domain(self.entries@);
        }
        false
    }

    /// Parks a new session under a fresh id.
    pub fn insert(&mut self, sid: Vec<u8>, secret_id: Vec<u8>, state: Vec<u8>, expires_at_ms: u64)
        requires
            old(self).wf(),
            !old(self)@.contains_key(sid@),
        ensures
            final(self).wf(),
            final(self)@ == old(self)@.insert(
                sid@,
                SessionView { secret_id: secret_id@, state: state@, expires_at_ms },
            ),
    {
        let entry = SessionEntry { sid, secret_id, state, expires_at_ms };
        proof {
            lemma_entries_map_domain(self.entries@);
            lemma_entries_map_push(self.entries@, entry);
        }
        self.entries.push(entry);
    }

    /// Removes and returns the session parked under `sid`, if any. Absence
    /// leaves the ledger unchanged.
    pub fn remove(&mut self, sid: &Vec<u8>) -> (r: Option<SessionEntry>)
        requires
            old(self).wf(),
        ensures
            final(self).wf(),
            r is Some <==> old(self)@.contains_key(sid@),
            r is None ==> final(self)@ == old(self)@,
            r is Some ==> r->0.sid@ == sid@ && entry_view(r->0) == old(self)@[sid@] && final(self)@
                == old(self)@.remove(sid@),
    {
        let n = self.entries.len();
        let mut i: usize = 0;
        while i < n
            invariant
                i <= n,
                self.entries@ == old(self).entries@,
                old(self).wf(),
                n == self.entries@.len(),
                forall|j: int| 0 <= j < i ==> self.entries@[j].sid@ != sid@,
            decreases n - i,
        {
            if bytes_eq(&self.entries[i].sid, sid) {
                proof {
                    lemma_entries_map_domain(self.entries@);
                    lemma_entries_map_at(self.entries@, i as int);
                    lemma_entries_map_remove(self.entries@, i as int);
                }
                let entry = self.entries.remove(i);
                return Some(entry);
            }
            i = i + 1;
        }
        proof {
            lemma_entries_map_domain(self.entries@);
        }
        None
    }
}

/// Law: sessions are single-use. Finishing a session removes its id — which
/// every finish of a parked session does, succeed, fail or expire — so a
/// second finish with the same id meets its contract's unknown-session
/// clause.
pub proof fn lemma_session_single_use(
    before: Map<Seq<u8>, SessionView>,
    after: Map<Seq<u8>, SessionView>,
    sid: Seq<u8>,
)
    requires
        after == before.remove(sid),
    ensures
        !after.contains_key(sid),
{
}

} // verus!
