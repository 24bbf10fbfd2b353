use vstd::prelude::*;

verus! {

/// Whether some entry of `m` has the key `k`.
pub open spec fn has_key<T>(m: Seq<(Seq<char>, T)>, k: Seq<char>) -> bool {
    exists|i: int| 0 <= i < m.len() && (#[trigger] m[i]).0 == k
}

/// No two entries of `m` share a key.
pub open spec fn keys_unique<T>(m: Seq<(Seq<char>, T)>) -> bool {
    forall|i: int, j: int|
        0 <= i < m.len() && 0 <= j < m.len() && (#[trigger] m[i]).0 == (#[trigger] m[j]).0
            ==> i == j
}

/// The position of the entry with key `k`, where there is one.
pub open spec fn key_index<T>(m: Seq<(Seq<char>, T)>, k: Seq<char>) -> int {
    choose|i: int| 0 <= i < m.len() && (#[trigger] m[i]).0 == k
}

/// The value stored under `k`.
pub open spec fn lookup<T>(m: Seq<(Seq<char>, T)>, k: Seq<char>) -> Option<T> {
    if has_key(m, k) {
        Some(m[key_index(m, k)].1)
    } else {
        None
    }
}

/// `m` with `v` stored under `k`: an entry with that key keeps its place and
/// takes the new value; otherwise the entry is appended.
pub open spec fn insert_entry<T>(m: Seq<(Seq<char>, T)>, k: Seq<char>, v: T) -> Seq<(Seq<char>, T)> {
    if has_key(m, k) {
        m.update(key_index(m, k), (k, v))
    } else {
        m.push((k, v))
    }
}

/// Where `m` has unique keys, the entry at `i` is the one that `key_index` picks.
pub proof fn lemma_key_index_unique<T>(m: Seq<(Seq<char>, T)>, i: int)
    requires
        keys_unique(m),
        0 <= i < m.len(),
    ensures
        has_key(m, m[i].0),
        key_index(m, m[i].0) == i,
        lookup(m, m[i].0) == Some(m[i].1),
{
    let k = m[i].0;
    assert(has_key(m, k));
    let j = key_index(m, k);
    assert(m[j].0 == m[i].0);
}

/// Storing a value keeps the keys unique, and the key is then present.
pub proof fn lemma_insert_entry<T>(m: Seq<(Seq<char>, T)>, k: Seq<char>, v: T)
    requires
        keys_unique(m),
    ensures
        keys_unique(insert_entry(m, k, v)),
        has_key(insert_entry(m, k, v), k),
        lookup(insert_entry(m, k, v), k) == Some(v),
        forall|k2: Seq<char>| k2 != k ==> lookup(insert_entry(m, k, v), k2) == lookup(m, k2),
{
    let r = insert_entry(m, k, v);
    let n = if has_key(m, k) { key_index(m, k) } else { m.len() as int };
    assert(r[n].0 == k);
    assert(keys_unique(r));
    lemma_key_index_unique(r, n);
    assert forall|k2: Seq<char>| k2 != k implies lookup(r, k2) == lookup(m, k2) by {
        if has_key(m, k2) {
            let j = key_index(m, k2);
            assert(r[j] == m[j]);
            lemma_key_index_unique(r, j);
        }
        if has_key(r, k2) {
            let j = key_index(r, k2);
            assert(r[j] == m[j]);
        }
    }
}

/// Storing the same value under the same key a second time changes nothing.
pub proof fn lemma_insert_entry_twice<T>(m: Seq<(Seq<char>, T)>, k: Seq<char>, v: T)
    requires
        keys_unique(m),
    ensures
        insert_entry(insert_entry(m, k, v), k, v) == insert_entry(m, k, v),
{
    lemma_insert_entry(m, k, v);
    let r = insert_entry(m, k, v);
    let n = if has_key(m, k) { key_index(m, k) } else { m.len() as int };
    assert(r[n].0 == k);
    lemma_key_index_unique(r, n);
    assert(r.update(n, (k, v)) =~= r);
}

/// A list of entries, each a key and a value, with no key twice, in the
/// order in which the keys were first stored.
#[derive(Debug)]
pub struct Table<T> {
    entries: Vec<(String, T)>,
}

impl<T: View> View for Table<T> {
    type V = Seq<(Seq<char>, T::V)>;

    closed spec fn view(&self) -> Seq<(Seq<char>, T::V)> {
        Seq::new(self.entries@.len(), |i: int| (self.entries@[i].0@, self.entries@[i].1@))
    }
}

impl<T: View> Table<T> {
    /// The table's invariant: no key twice.
    pub open spec fn wf(&self) -> bool {
        keys_unique(self@)
    }

    pub fn new() -> (r: Table<T>)
        ensures
            r@ == Seq::<(Seq<char>, T::V)>::empty(),
            r.wf(),
    {
        let r = Table { entries: Vec::new() };
        assert(r@ =~= Seq::<(Seq<char>, T::V)>::empty());
        r
    }

    pub fn len(&self) -> (r: usize)
        ensures
            r == self@.len(),
    {
        self.entries.len()
    }

    /// The key and the value of the entry at position `i`.
    pub fn entry(&self, i: usize) -> (r: (&String, &T))
        requires
            i < self@.len(),
        ensures
            (r.0@, r.1@) == self@[i as int],
    {
        let e = &self.entries[i];
        (&e.0, &e.1)
    }

    /// The position of the entry with key `key`.
    pub fn find(&self, key: &String) -> (r: Option<usize>)
        requires
            self.wf(),
        ensures
            r is None <==> !has_key(self@, key@),
            r matches Some(i) ==> i < self@.len() && self@[i as int].0 == key@ && key_index(
                self@,
                key@,
            ) == i,
    {
        let n = self.entries.len();
        let mut i: usize = 0;
        while i < n
            invariant
                self.wf(),
                n == self@.len(),
                i <= n,
                forall|j: int| 0 <= j < i ==> (#[trigger] self@[j]).0 != key@,
            decreases n - i,
        {
            if self.entries[i].0 == *key {
                proof {
                    lemma_key_index_unique(self@, i as int);
                }
                return Some(i);
            }
            i += 1;
        }
        None
    }

    /// Whether some entry has the key `key`.
    pub fn contains_key(&self, key: &String) -> (r: bool)
        requires
            self.wf(),
        ensures
            r == has_key(self@, key@),
    {
        self.find(key).is_some()
    }

    /// The value stored under `key`.
    pub fn get(&self, key: &String) -> (r: Option<&T>)
        requires
            self.wf(),
        ensures
            match r {
                Some(v) => lookup(self@, key@) == Some(v@),
                None => lookup(self@, key@) is None,
            },
    {
        match self.find(key) {
            Some(i) => Some(&self.entries[i].1),
            None => None,
        }
    }

    /// Stores `value` under `key`, replacing the value of an entry with that
    /// key in its place; tells whether there was one.
    pub fn insert(&mut self, key: String, value: T) -> (replaced: bool)
        requires
            old(self).wf(),
        ensures
            final(self).wf(),
            final(self)@ == insert_entry(old(self)@, key@, value@),
            replaced == has_key(old(self)@, key@),
    {
        proof {
            lemma_insert_entry(self@, key@, value@);
        }
        let ghost k = key@;
        let ghost v = value@;
        match self.find(&key) {
            Some(i) => {
                self.entries.set(i, (key, value));
                assert(self@ =~= insert_entry(old(self)@, k, v));
                true
            },
            None => {
                self.entries.push((key, value));
                assert(self@ =~= insert_entry(old(self)@, k, v));
                false
            },
        }
    }
}

} // verus!
