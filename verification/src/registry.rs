//! The window-id registry of the event-loop bridge.
//!
//! The event loop owns one registry for its lifetime and uses it to route
//! input, resize and close events to the right window handle.  Handles are
//! referred to by an opaque token (the event loop resolves the token to the
//! handle it keeps alive); native windows by their window id.

use vstd::prelude::*;

verus! {

/// One registered window: a native window id and the token of the handle
/// that owns it.
#[derive(Clone, Copy, Debug, PartialEq, Eq, Structural)]
pub struct RegistryEntry {
    pub window_id: u64,
    pub handle_token: u64,
}

/// Each window id is carried by at most one entry.
pub open spec fn entries_unique(s: Seq<RegistryEntry>) -> bool {
    forall|i: int, j: int|
        0 <= i < j < s.len() ==> (#[trigger] s[i]).window_id != (#[trigger] s[j]).window_id
}

/// What looking an id up in a run of entries yields: the handle token of
/// the first entry carrying that id.
pub open spec fn seq_lookup(s: Seq<RegistryEntry>, id: u64) -> Option<u64>
    decreases s.len(),
{
    if s.len() == 0 {
        None
    } else if s[0].window_id == id {
        Some(s[0].handle_token)
    } else {
        seq_lookup(s.drop_first(), id)
    }
}

/// Looking up an id matched by no entry yields nothing.
proof fn lemma_seq_lookup_absent(s: Seq<RegistryEntry>, id: u64)
    requires
        forall|j: int| 0 <= j < s.len() ==> (#[trigger] s[j]).window_id != id,
    ensures
        seq_lookup(s, id) is None,
    decreases s.len(),
{
    if s.len() > 0 {
        lemma_seq_lookup_absent(s.drop_first(), id);
    }
}

/// Looking up an id is settled by the first entry carrying it.
proof fn lemma_seq_lookup_found(s: Seq<RegistryEntry>, id: u64, k: int)
    requires
        0 <= k < s.len(),
        s[k].window_id == id,
        forall|j: int| 0 <= j < k ==> (#[trigger] s[j]).window_id != id,
    ensures
        seq_lookup(s, id) == Some(s[k].handle_token),
    decreases k,
{
    if k > 0 {
        lemma_seq_lookup_found(s.drop_first(), id, k - 1);
    }
}

/// Removing the one entry that carries an id empties that id's lookup,
/// leaves every other lookup as it was, and keeps the entries unique.
proof fn lemma_remove_entry(s: Seq<RegistryEntry>, k: int)
    requires
        entries_unique(s),
        0 <= k < s.len(),
    ensures
        entries_unique(s.remove(k)),
        seq_lookup(s.remove(k), s[k].window_id) is None,
        forall|other: u64|
            other != s[k].window_id ==> #[trigger] seq_lookup(s.remove(k), other) == seq_lookup(
                s,
                other,
            ),
{
    let t = s.remove(k);
    assert forall|j: int| 0 <= j < t.len() implies (#[trigger] t[j]).window_id
        != s[k].window_id by {
        if j < k {
            assert(t[j] == s[j]);
        } else {
            assert(t[j] == s[j + 1]);
        }
    }
    assert forall|p: int, q: int| 0 <= p < q < t.len() implies (#[trigger] t[p]).window_id != (
    #[trigger] t[q]).window_id by {
        let p0: int = if p < k {
            p
        } else {
            p + 1
        };
        let q0: int = if q < k {
            q
        } else {
            q + 1
        };
        assert(t[p] == s[p0]);
        assert(t[q] == s[q0]);
    }
    lemma_seq_lookup_absent(t, s[k].window_id);
    assert forall|other: u64| other != s[k].window_id implies #[trigger] seq_lookup(t, other)
        == seq_lookup(s, other) by {
        lemma_seq_lookup_remove_other(s, k, other);
    }
}

/// Removing an entry that does not carry an id leaves that id's lookup
/// unchanged.
proof fn lemma_seq_lookup_remove_other(s: Seq<RegistryEntry>, k: int, id: u64)
    requires
        0 <= k < s.len(),
        s[k].window_id != id,
    ensures
        seq_lookup(s.remove(k), id) == seq_lookup(s, id),
    decreases s.len(),
{
    if s.len() > 0 {
        if k == 0 {
            assert(s.remove(0) =~= s.drop_first());
        } else if s[0].window_id == id {
            assert(s.remove(k)[0] == s[0]);
        } else {
            assert(s.remove(k)[0] == s[0]);
            assert(s.remove(k).drop_first() =~= s.drop_first().remove(k - 1));
            lemma_seq_lookup_remove_other(s.drop_first(), k - 1, id);
        }
    }
}

/// Appending an entry changes lookups for its id alone, and only when the
/// id was absent before.
proof fn lemma_seq_lookup_push(s: Seq<RegistryEntry>, e: RegistryEntry, id: u64)
    ensures
        id != e.window_id ==> seq_lookup(s.push(e), id) == seq_lookup(s, id),
        id == e.window_id && seq_lookup(s, id) is None ==> seq_lookup(s.push(e), id) == Some(
            e.handle_token,
        ),
        id == e.window_id && seq_lookup(s, id) is Some ==> seq_lookup(s.push(e), id) == seq_lookup(
            s,
            id,
        ),
    decreases s.len(),
{
    if s.len() == 0 {
        assert(s.push(e)[0] == e);
        assert(s.push(e).drop_first() =~= Seq::<RegistryEntry>::empty());
        assert(seq_lookup(s.push(e).drop_first(), id) is None);
    } else {
        assert(s.push(e)[0] == s[0]);
        assert(s.push(e).drop_first() =~= s.drop_first().push(e));
        lemma_seq_lookup_push(s.drop_first(), e, id);
    }
}

/// The process-wide mapping from native window id to handle token,
/// owned by the event loop and mutated only on its thread.
#[derive(Debug)]
pub struct WindowRegistry {
    entries: Vec<RegistryEntry>,
}

impl WindowRegistry {
    /// Each window id is carried by at most one entry.
    pub closed spec fn wf(self) -> bool {
        entries_unique(self.entries@)
    }

    /// The handle token registered for a window id, if any.
    pub closed spec fn spec_lookup(self, id: u64) -> Option<u64> {
        seq_lookup(self.entries@, id)
    }

    pub open spec fn spec_contains(self, id: u64) -> bool {
        self.spec_lookup(id) is Some
    }

    /// How many windows are registered.
    pub closed spec fn spec_len(self) -> nat {
        self.entries@.len()
    }

    /// A fresh registry, created when the event loop starts; empty.
    pub fn new() -> (r: WindowRegistry)
        ensures
            r.wf(),
            r.spec_len() == 0,
            forall|id: u64| r.spec_lookup(id) is None,
    {
        let r = WindowRegistry { entries: Vec::new() };
        proof {
            assert forall|id: u64| r.spec_lookup(id) is None by {
                lemma_seq_lookup_absent(r.entries@, id);
            }
        }
        r
    }

    pub fn len(&self) -> (r: usize)
        ensures
            r == self.spec_len(),
    {
        self.entries.len()
    }

    /// Finds the handle token registered for a window id.
    pub fn lookup(&self, id: u64) -> (r: Option<u64>)
        ensures
            r == self.spec_lookup(id),
    {
        let n = self.entries.len();
        let mut i: usize = 0;
        while i < n
            invariant
                n == self.entries@.len(),
                0 <= i <= n,
                forall|j: int| 0 <= j < i ==> (#[trigger] self.entries@[j]).window_id != id,
            decreases n - i,
        {
            if self.entries[i].window_id == id {
                proof {
                    lemma_seq_lookup_found(self.entries@, id, i as int);
                }
                return Some(self.entries[i].handle_token);
            }
            i += 1;
        }
        proof {
            lemma_seq_lookup_absent(self.entries@, id);
        }
        None
    }

    /// Unregisters a window id; a no-op when the id is not registered.
    pub fn unregister(&mut self, id: u64)
        requires
            old(self).wf(),
        ensures
            final(self).wf(),
            final(self).spec_lookup(id) is None,
            forall|other: u64|
                other != id ==> #[trigger] final(self).spec_lookup(other) == old(self).spec_lookup(
                    other,
                ),
            final(self).spec_len() == if old(self).spec_contains(id) {
                old(self).spec_len() - 1
            } else {
                old(self).spec_len() as int
            },
    {
        let n = self.entries.len();
        let mut i: usize = 0;
        while i < n
            invariant
                n == self.entries@.len(),
                0 <= i <= n,
                *self == *old(self),
                entries_unique(self.entries@),
                forall|j: int| 0 <= j < i ==> (#[trigger] self.entries@[j]).window_id != id,
            decreases n - i,
        {
            if self.entries[i].window_id == id {
                proof {
                    lemma_seq_lookup_found(self.entries@, id, i as int);
                    lemma_remove_entry(self.entries@, i as int);
                }
                self.entries.remove(i);
                return ;
            }
            i += 1;
        }
        proof {
            lemma_seq_lookup_absent(self.entries@, id);
        }
    }

    /// Registers a window id for a handle token.  A stale entry under the
    /// same id is replaced.
    pub fn register(&mut self, id: u64, handle_token: u64)
        requires
            old(self).wf(),
        ensures
            final(self).wf(),
            final(self).spec_lookup(id) == Some(handle_token),
            forall|other: u64|
                other != id ==> #[trigger] final(self).spec_lookup(other) == old(self).spec_lookup(
                    other,
                ),
    {
        self.unregister(id);
        let ghost mid = *self;
        let e = RegistryEntry { window_id: id, handle_token };
        self.entries.push(e);
        proof {
            let s1 = mid.entries@;
            let s2 = self.entries@;
            assert(s2 =~= s1.push(e));
            assert forall|i: int, j: int| 0 <= i < j < s2.len() implies (
            #[trigger] s2[i]).window_id != (#[trigger] s2[j]).window_id by {
                assert(s2[i] == s1[i]);
                if j == s2.len() - 1 {
                    if s1[i].window_id == id {
                        lemma_seq_lookup_found(s1, id, i);
                        assert(mid.spec_lookup(id) is Some);
                    }
                } else {
                    assert(s2[j] == s1[j]);
                }
            }
            lemma_seq_lookup_push(s1, e, id);
            assert forall|other: u64| other != id implies #[trigger] self.spec_lookup(other)
                == old(self).spec_lookup(other) by {
                lemma_seq_lookup_push(s1, e, other);
                assert(mid.spec_lookup(other) == old(self).spec_lookup(other));
            }
        }
    }
}

} // verus!
