use vstd::prelude::*;

verus! {

/// No key occurs twice in the entry sequence.
pub open spec fn seq_keys_unique<V>(s: Seq<(u64, V)>) -> bool {
    forall|i: int, j: int| 0 <= i < j < s.len() ==> s[i].0 != s[j].0
}

/// Some entry of the sequence carries key `k`.
pub open spec fn seq_has_key<V>(s: Seq<(u64, V)>, k: u64) -> bool {
    exists|i: int| 0 <= i < s.len() && s[i].0 == k
}

/// Index of an entry carrying `k`; meaningful only when `seq_has_key`.
pub open spec fn seq_index_of<V>(s: Seq<(u64, V)>, k: u64) -> int {
    choose|i: int| 0 <= i < s.len() && s[i].0 == k
}

/// Value stored under `k`; meaningful only when `seq_has_key`.
pub open spec fn seq_value_of<V>(s: Seq<(u64, V)>, k: u64) -> V {
    s[seq_index_of(s, k)].1
}

/// Appending an entry adds exactly its key.
pub proof fn lemma_seq_has_key_push<V>(s: Seq<(u64, V)>, p: (u64, V), k: u64)
    ensures
        seq_has_key(s.push(p), k) <==> (seq_has_key(s, k) || p.0 == k),
{
    if seq_has_key(s, k) {
        let i = seq_index_of(s, k);
        assert(s.push(p)[i].0 == k);
    }
    if p.0 == k {
        assert(s.push(p)[s.len() as int].0 == k);
    }
    if seq_has_key(s.push(p), k) && p.0 != k {
        let i = choose|i: int| 0 <= i < s.push(p).len() && s.push(p)[i].0 == k;
        assert(s[i].0 == k);
    }
}

/// Replacing the entry at a key's index keeps every key.
pub proof fn lemma_seq_has_key_update<V>(s: Seq<(u64, V)>, k: u64, v: V, k2: u64)
    requires
        seq_keys_unique(s),
        seq_has_key(s, k),
    ensures
        seq_has_key(s.update(seq_index_of(s, k), (k, v)), k2) <==> seq_has_key(s, k2),
{
    let w = seq_index_of(s, k);
    assert(0 <= w < s.len() && s[w].0 == k);
    let t = s.update(w, (k, v));
    if seq_has_key(s, k2) {
        let i = seq_index_of(s, k2);
        if i == w {
            assert(t[w].0 == k && s[w].0 == k2);
        } else {
            assert(t[i].0 == k2);
        }
    }
    if seq_has_key(t, k2) {
        let i = choose|i: int| 0 <= i < t.len() && t[i].0 == k2;
        if i == w {
            assert(s[w].0 == k2);
        } else {
            assert(s[i].0 == k2);
        }
    }
}

/// Association table from `u64` keys to values of type `V`.
///
/// Keys are pairwise distinct; entries keep their insertion order, so that
/// everything derived from a table (snapshot field lists in particular) is
/// deterministic.
pub struct IdMap<V> {
    pub entries: Vec<(u64, V)>,
}

impl<V> IdMap<V> {
    /// Well-formed: no key occurs twice.
    pub open spec fn wf(&self) -> bool {
        seq_keys_unique(self.entries@)
    }

    /// Some entry carries key `k`.
    pub open spec fn has_key(&self, k: u64) -> bool {
        seq_has_key(self.entries@, k)
    }

    /// Index of the entry carrying `k`; meaningful only when `has_key(k)`.
    pub open spec fn index_of(&self, k: u64) -> int {
        seq_index_of(self.entries@, k)
    }

    /// Value stored under `k`; meaningful only when `has_key(k)`.
    pub open spec fn value_of(&self, k: u64) -> V {
        seq_value_of(self.entries@, k)
    }

    pub fn new() -> (r: Self)
        ensures
            r.wf(),
            r.entries@.len() == 0,
    {
        IdMap { entries: Vec::new() }
    }

    pub fn len(&self) -> (n: usize)
        ensures
            n == self.entries@.len(),
    {
        self.entries.len()
    }

    /// The entry at position `i`, in insertion order.
    pub fn pair_at(&self, i: usize) -> (p: &(u64, V))
        requires
            i < self.entries@.len(),
        ensures
            *p == self.entries@[i as int],
    {
        &self.entries[i]
    }

    /// Look a key up; `None` exactly when the key is absent.
    pub fn get(&self, k: u64) -> (r: Option<&V>)
        requires
            self.wf(),
        ensures
            (match r {
                Some(v) => self.has_key(k) && *v == self.value_of(k),
                None => !self.has_key(k),
            }),
    {
        let n = self.entries.len();
        let mut i: usize = 0;
        while i < n
            invariant
                n == self.entries@.len(),
                i <= n,
                self.wf(),
                forall|j: int| 0 <= j < i ==> self.entries@[j].0 != k,
            decreases n - i,
        {
            if self.entries[i].0 == k {
                proof {
                    let w = self.index_of(k);
                    assert(0 <= w < self.entries@.len() && self.entries@[w].0 == k);
                    assert(w == i as int);
                }
                return Some(&self.entries[i].1);
            }
            i += 1;
        }
        None
    }

    pub fn contains_key(&self, k: u64) -> (r: bool)
        requires
            self.wf(),
        ensures
            r == self.has_key(k),
    {
        match self.get(k) {
            Some(_) => true,
            None => false,
        }
    }

    /// Insert or replace: afterwards `k` maps to `v`; every other entry and
    /// the entry order are unchanged.
    pub fn set(&mut self, k: u64, v: V)
        requires
            old(self).wf(),
        ensures
            final(self).wf(),
            old(self).has_key(k) ==> final(self).entries@
                == old(self).entries@.update(old(self).index_of(k), (k, v)),
            !old(self).has_key(k) ==> final(self).entries@ == old(self).entries@.push((k, v)),
            final(self).has_key(k),
            final(self).value_of(k) == v,
    {
        let n = self.entries.len();
        let mut i: usize = 0;
        while i < n
            invariant
                *self == *old(self),
                n == self.entries@.len(),
                i <= n,
                self.wf(),
                forall|j: int| 0 <= j < i ==> self.entries@[j].0 != k,
            decreases n - i,
        {
            if self.entries[i].0 == k {
                proof {
                    let w = old(self).index_of(k);
                    assert(0 <= w < old(self).entries@.len() && old(self).entries@[w].0 == k);
                    assert(w == i as int);
                }
                self.entries[i] = (k, v);
                proof {
                    assert(self.entries@ == old(self).entries@.update(i as int, (k, v)));
                    assert forall|a: int, b: int|
                        0 <= a < b < self.entries@.len() implies self.entries@[a].0
                        != self.entries@[b].0 by {
                        assert(old(self).entries@[a].0 != old(self).entries@[b].0);
                    }
                    let w2 = self.index_of(k);
                    assert(self.entries@[i as int].0 == k);
                    assert(0 <= w2 < self.entries@.len() && self.entries@[w2].0 == k);
                    assert(w2 == i as int);
                }
                return;
            }
            i += 1;
        }
        self.entries.push((k, v));
        proof {
            assert(self.entries@ == old(self).entries@.push((k, v)));
            assert forall|a: int, b: int|
                0 <= a < b < self.entries@.len() implies self.entries@[a].0
                != self.entries@[b].0 by {
                if b < old(self).entries@.len() {
                    assert(old(self).entries@[a].0 != old(self).entries@[b].0);
                } else {
                    assert(self.entries@[b].0 == k);
                    assert(old(self).entries@[a].0 != k);
                }
            }
            let w = self.index_of(k);
            assert(self.entries@[old(self).entries@.len() as int].0 == k);
            assert(0 <= w < self.entries@.len() && self.entries@[w].0 == k);
        }
    }
}

impl<V: Copy> IdMap<V> {
    /// A fresh table with the same entries in the same order.
    pub fn duplicate(&self) -> (r: Self)
        ensures
            r.entries@ == self.entries@,
    {
        let n = self.entries.len();
        let mut out: Vec<(u64, V)> = Vec::new();
        let mut i: usize = 0;
        while i < n
            invariant
                n == self.entries@.len(),
                i <= n,
                out@ == self.entries@.take(i as int),
            decreases n - i,
        {
            let p = self.entries[i];
            out.push(p);
            proof {
                assert(self.entries@.take(i + 1 as int) == self.entries@.take(i as int).push(
                    self.entries@[i as int],
                ));
            }
            i += 1;
        }
        proof {
            assert(self.entries@.take(n as int) == self.entries@);
        }
        IdMap { entries: out }
    }
}

} // verus!
