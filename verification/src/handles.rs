use vstd::prelude::*;

verus! {

/// One parked client-side protocol state under its numeric handle.
pub struct HandleEntry {
    pub handle: u32,
    pub state: Vec<u8>,
}

/// The map a sequence of handle entries denotes, later entries taking
/// precedence.
pub open spec fn handles_map(s: Seq<HandleEntry>) -> Map<u32, Seq<u8>>
    decreases s.len(),
{
    if s.len() == 0 {
        Map::empty()
    } else {
        handles_map(s.drop_last()).insert(s.last().handle, s.last().state@)
    }
}

/// No handle occurs twice.
pub open spec fn wf_handles(s: Seq<HandleEntry>) -> bool {
    forall|i: int, j: int| 0 <= i < j < s.len() ==> s[i].handle != s[j].handle
}

/// Some entry of `s` carries the handle `h`.
pub open spec fn contains_handle(s: Seq<HandleEntry>, h: u32) -> bool {
    exists|i: int| 0 <= i < s.len() && (#[trigger] s[i]).handle == h
}

/// A handle is in the denoted map exactly when some entry carries it.
pub proof fn lemma_handles_map_domain(s: Seq<HandleEntry>)
    ensures
        forall|h: u32| #[trigger] handles_map(s).contains_key(h) <==> contains_handle(s, h),
    decreases s.len(),
{
    if s.len() > 0 {
        let prev = s.drop_last();
        lemma_handles_map_domain(prev);
        assert forall|h: u32| #[trigger]
            handles_map(s).contains_key(h) implies contains_handle(s, h) by {
            if h == s.last().handle {
                assert((s[s.len() - 1]).handle == h);
            } else {
                assert(handles_map(prev).contains_key(h));
                let i = choose|i: int| 0 <= i < prev.len() && (#[trigger] prev[i]).handle == h;
                assert(prev[i] == s[i]);
                assert((s[i]).handle == h);
            }
        }
        assert forall|h: u32| contains_handle(s, h) implies #[trigger]
            handles_map(s).contains_key(h) by {
            let i = choose|i: int| 0 <= i < s.len() && (#[trigger] s[i]).handle == h;
            if i == s.len() - 1 {
                assert(h == s.last().handle);
                assert(handles_map(s) == handles_map(prev).insert(
                    s.last().handle,
                    s.last().state@,
                ));
            } else {
                assert(prev[i] == s[i]);
                assert(contains_handle(prev, h));
                assert(handles_map(prev).contains_key(h));
            }
        }
    } else {
        assert forall|h: u32| #[trigger]
            handles_map(s).contains_key(h) <==> contains_handle(s, h) by {
            assert(!handles_map(s).contains_key(h));
            assert(!contains_handle(s, h));
        }
    }
}

/// At any entry's handle, the denoted map holds that entry's state (given
/// unique handles).
pub proof fn lemma_handles_map_at(s: Seq<HandleEntry>, i: int)
    requires
        wf_handles(s),
        0 <= i < s.len(),
    ensures
        handles_map(s).contains_key(s[i].handle),
        handles_map(s)[s[i].handle] == s[i].state@,
    decreases s.len(),
{
    if i < s.len() - 1 {
        assert(s.drop_last()[i] == s[i]);
        lemma_handles_map_at(s.drop_last(), i);
        assert(s[i].handle != s.last().handle);
    }
}

/// Appending an entry with a fresh handle inserts it into the denoted map.
pub proof fn lemma_handles_map_push(s: Seq<HandleEntry>, e: HandleEntry)
    ensures
        handles_map(s.push(e)) == handles_map(s).insert(e.handle, e.state@),
{
    assert(s.push(e).drop_last() =~= s);
    assert(s.push(e).last() == e);
}

/// Removing the entry at index i removes exactly its handle from the denoted
/// map (given unique handles).
pub proof fn lemma_handles_map_remove(s: Seq<HandleEntry>, i: int)
    requires
        wf_handles(s),
        0 <= i < s.len(),
    ensures
        wf_handles(s.remove(i)),
        handles_map(s.remove(i)) == handles_map(s).remove(s[i].handle),
{
    s.remove_ensures(i);
    let t = s.remove(i);
    let key = s[i].handle;
    assert forall|a: int, b: int| 0 <= a < b < t.len() implies (t[a]).handle != (t[b]).handle by {
        let sa: int = if a < i {
            a
        } else {
            a + 1
        };
        let sb: int = if b < i {
            b
        } else {
            b + 1
        };
        assert(t[a] == s[sa] && t[b] == s[sb]);
        assert((s[sa]).handle != (s[sb]).handle);
    }
    lemma_handles_map_domain(s);
    lemma_handles_map_domain(t);
    assert forall|h: u32| #[trigger]
        handles_map(t).contains_key(h) implies handles_map(s).remove(key).contains_key(h) by {
        let j = choose|j: int| 0 <= j < t.len() && (#[trigger] t[j]).handle == h;
        let sj: int = if j < i {
            j
        } else {
            j + 1
        };
        assert(t[j] == s[sj]);
        assert(contains_handle(s, h));
        if sj < i {
            assert((s[sj]).handle != (s[i]).handle);
        } else {
            assert((s[i]).handle != (s[sj]).handle);
        }
    }
    assert forall|h: u32| #[trigger]
        handles_map(s).remove(key).contains_key(h) implies handles_map(t).contains_key(h) by {
        assert(handles_map(s).contains_key(h));
        let j = choose|j: int| 0 <= j < s.len() && (#[trigger] s[j]).handle == h;
        assert(j != i);
        let tj: int = if j < i {
            j
        } else {
            j - 1
        };
        assert(t[tj] == s[j]);
        assert(contains_handle(t, h));
    }
    assert forall|h: u32| #[trigger]
        handles_map(t).contains_key(h) implies handles_map(t)[h] == handles_map(s).remove(key)[h] by {
        let j = choose|j: int| 0 <= j < t.len() && (#[trigger] t[j]).handle == h;
        let sj: int = if j < i {
            j
        } else {
            j + 1
        };
        assert(t[j] == s[sj]);
        lemma_handles_map_at(t, j);
        lemma_handles_map_at(s, sj);
        if sj < i {
            assert((s[sj]).handle != (s[i]).handle);
        } else {
            assert((s[i]).handle != (s[sj]).handle);
        }
    }
    assert(handles_map(t) =~= handles_map(s).remove(key));
}

/// A ledger of half-finished client protocol states keyed by numeric handle.
/// Handles are single-use: a state is parked at start and removed, never to
/// return, by the matching finish.
pub struct HandleLedger {
    entries: Vec<HandleEntry>,
}

impl View for HandleLedger {
    type V = Map<u32, Seq<u8>>;

    closed spec fn view(&self) -> Map<u32, Seq<u8>> {
        handles_map(self.entries@)
    }
}

impl HandleLedger {
    /// Unique handles throughout.
    pub closed spec fn wf(&self) -> bool {
        wf_handles(self.entries@)
    }

    /// An empty ledger.
    pub fn new() -> (r: Self)
        ensures
            r.wf(),
            r@ == Map::<u32, Seq<u8>>::empty(),
    {
        HandleLedger { entries: Vec::new() }
    }

    /// Parks a state under a fresh handle.
    pub fn insert(&mut self, handle: u32, state: Vec<u8>)
        requires
            old(self).wf(),
            !old(self)@.contains_key(handle),
        ensures
            final(self).wf(),
            final(self)@ == old(self)@.insert(handle, state@),
    {
        let entry = HandleEntry { handle, state };
        proof {
            lemma_handles_map_domain(self.entries@);
            lemma_handles_map_push(self.entries@, entry);
        }
        self.entries.push(entry);
    }

    /// Whether a handle is currently parked.
    pub fn contains(&self, handle: u32) -> (r: bool)
        requires
            self.wf(),
        ensures
            r == self@.contains_key(handle),
    {
        let n = self.entries.len();
        let mut i: usize = 0;
        while i < n
            invariant
                i <= n,
                n == self.entries@.len(),
                forall|j: int| 0 <= j < i ==> self.entries@[j].handle != handle,
            decreases n - i,
        {
            if self.entries[i].handle == handle {
                proof {
                    lemma_handles_map_domain(self.entries@);
                }
                return true;
            }
            i = i + 1;
        }
        proof {
            lemma_handles_map_domain(self.entries@);
        }
        false
    }

    /// Removes and returns the state parked under `handle`, if any. Absence
    /// leaves the ledger unchanged.
    pub fn remove(&mut self, handle: u32) -> (r: Option<Vec<u8>>)
        requires
            old(self).wf(),
        ensures
            final(self).wf(),
            r is Some <==> old(self)@.contains_key(handle),
            r is None ==> final(self)@ == old(self)@,
            r is Some ==> r->0@ == old(self)@[handle] && final(self)@ == old(self)@.remove(handle),
    {
        let n = self.entries.len();
        let mut i: usize = 0;
        while i < n
            invariant
                i <= n,
                self.entries@ == old(self).entries@,
                old(self).wf(),
                n == self.entries@.len(),
                forall|j: int| 0 <= j < i ==> self.entries@[j].handle != handle,
            decreases n - i,
        {
            if self.entries[i].handle == handle {
                proof {
                    lemma_handles_map_domain(self.entries@);
                    lemma_handles_map_at(self.entries@, i as int);
                    lemma_handles_map_remove(self.entries@, i as int);
                }
                let entry = self.entries.remove(i);
                return Some(entry.state);
            }
            i = i + 1;
        }
        proof {
            lemma_handles_map_domain(self.entries@);
        }
        None
    }
}

} // verus!
