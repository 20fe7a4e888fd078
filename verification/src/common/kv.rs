//! Ordered string-keyed maps in which each key occurs at most once.

use vstd::prelude::*;

verus! {

/// The entries of a map as (key, value) pairs, in insertion order.
pub type KvView = Seq<(Seq<char>, Seq<char>)>;

/// No key occurs twice.
pub open spec fn kv_unique(m: KvView) -> bool {
    forall|i: int, j: int| 0 <= i < j < m.len() ==> #[trigger] m[i].0 != #[trigger] m[j].0
}

/// Position of `key` in `m`, if present.
pub open spec fn kv_index(m: KvView, key: Seq<char>) -> Option<int>
    decreases m.len(),
{
    if m.len() == 0 {
        None
    } else if m.last().0 == key {
        Some(m.len() - 1)
    } else {
        kv_index(m.drop_last(), key)
    }
}

/// The value stored under `key`.
pub open spec fn kv_get(m: KvView, key: Seq<char>) -> Option<Seq<char>> {
    match kv_index(m, key) {
        Some(i) => Some(m[i].1),
        None => None,
    }
}

/// `m` with `key` bound to `value`: replaced in place when present, appended otherwise.
pub open spec fn kv_insert(m: KvView, key: Seq<char>, value: Seq<char>) -> KvView {
    match kv_index(m, key) {
        Some(i) => m.update(i, (key, value)),
        None => m.push((key, value)),
    }
}

/// `m` without `key`; the other entries keep their order.
pub open spec fn kv_remove(m: KvView, key: Seq<char>) -> KvView {
    match kv_index(m, key) {
        Some(i) => m.remove(i),
        None => m,
    }
}

/// The keys of `m`, in order.
pub open spec fn kv_keys(m: KvView) -> Seq<Seq<char>> {
    m.map_values(|e: (Seq<char>, Seq<char>)| e.0)
}

pub proof fn lemma_kv_index(m: KvView, key: Seq<char>)
    ensures
        kv_index(m, key) matches Some(i) ==> 0 <= i < m.len() && m[i].0 == key,
        kv_index(m, key) is None ==> forall|j: int| 0 <= j < m.len() ==> #[trigger] m[j].0 != key,
    decreases m.len(),
{
    if m.len() > 0 && m.last().0 != key {
        lemma_kv_index(m.drop_last(), key);
        let p = m.drop_last();
        if kv_index(p, key) is None {
            assert forall|j: int| 0 <= j < m.len() implies #[trigger] m[j].0 != key by {
                if j < m.len() - 1 {
                    assert(m[j] == p[j]);
                }
            }
        }
    }
}

/// In a map with unique keys, the entry found is the only one with that key.
pub proof fn lemma_kv_index_unique(m: KvView, key: Seq<char>, j: int)
    requires
        kv_unique(m),
        0 <= j < m.len(),
        m[j].0 == key,
    ensures
        kv_index(m, key) == Some(j),
{
    lemma_kv_index(m, key);
    if let Some(i) = kv_index(m, key) {
        if i != j {
            if i < j {
                assert(m[i].0 != m[j].0);
            } else {
                assert(m[j].0 != m[i].0);
            }
        }
    }
}

/// Reading a key after writing it gives the written value; other keys are unaffected.
pub proof fn lemma_kv_insert(m: KvView, key: Seq<char>, value: Seq<char>, other: Seq<char>)
    requires
        kv_unique(m),
    ensures
        kv_unique(kv_insert(m, key, value)),
        kv_get(kv_insert(m, key, value), key) == Some(value),
        other != key ==> kv_get(kv_insert(m, key, value), other) == kv_get(m, other),
{
    lemma_kv_index(m, key);
    lemma_kv_index(m, other);
    let n = kv_insert(m, key, value);
    match kv_index(m, key) {
        Some(i) => {
            assert forall|a: int, b: int| 0 <= a < b < n.len() implies #[trigger] n[a].0
                != #[trigger] n[b].0 by {
                assert(m[a].0 != m[b].0);
            }
            lemma_kv_index_unique(n, key, i);
            if other != key {
                match kv_index(m, other) {
                    Some(j) => {
                        lemma_kv_index_unique(n, other, j);
                    },
                    None => {
                        lemma_kv_index(n, other);
                        if let Some(j) = kv_index(n, other) {
                            assert(n[j] == m[j]);
                        }
                    },
                }
            }
        },
        None => {
            assert forall|a: int, b: int| 0 <= a < b < n.len() implies #[trigger] n[a].0
                != #[trigger] n[b].0 by {
                if b == m.len() {
                    assert(n[a] == m[a]);
                } else {
                    assert(m[a].0 != m[b].0);
                }
            }
            lemma_kv_index_unique(n, key, m.len() as int);
            if other != key {
                match kv_index(m, other) {
                    Some(j) => {
                        lemma_kv_index_unique(n, other, j);
                    },
                    None => {
                        lemma_kv_index(n, other);
                        if let Some(j) = kv_index(n, other) {
                            assert(n[j] == m[j]);
                        }
                    },
                }
            }
        },
    }
}

/// After removing a key it is absent; other keys are unaffected.
pub proof fn lemma_kv_remove(m: KvView, key: Seq<char>, other: Seq<char>)
    requires
        kv_unique(m),
    ensures
        kv_unique(kv_remove(m, key)),
        kv_get(kv_remove(m, key), key) is None,
        other != key ==> kv_get(kv_remove(m, key), other) == kv_get(m, other),
{
    lemma_kv_index(m, key);
    lemma_kv_index(m, other);
    let n = kv_remove(m, key);
    match kv_index(m, key) {
        Some(i) => {
            assert forall|a: int, b: int| 0 <= a < b < n.len() implies #[trigger] n[a].0
                != #[trigger] n[b].0 by {
                let ma = if a < i { a } else { a + 1 };
                let mb = if b < i { b } else { b + 1 };
                assert(n[a] == m[ma]);
                assert(n[b] == m[mb]);
                assert(m[ma].0 != m[mb].0);
            }
            lemma_kv_index(n, key);
            if let Some(j) = kv_index(n, key) {
                let mj = if j < i { j } else { j + 1 };
                assert(n[j] == m[mj]);
                if mj < i {
                    assert(m[mj].0 != m[i].0);
                } else {
                    assert(m[i].0 != m[mj].0);
                }
            }
            if other != key {
                lemma_kv_index(n, other);
                match kv_index(m, other) {
                    Some(j) => {
                        let nj = if j < i { j } else { j - 1 };
                        assert(n[nj] == m[j]);
                        lemma_kv_index_unique(n, other, nj);
                    },
                    None => {
                        if let Some(j) = kv_index(n, other) {
                            let mj = if j < i { j } else { j + 1 };
                            assert(n[j] == m[mj]);
                        }
                    },
                }
            }
        },
        None => {},
    }
}

/// A map from strings to strings whose keys are unique; entries keep insertion order.
pub struct KeyValues {
    entries: Vec<(String, String)>,
}

impl View for KeyValues {
    type V = KvView;

    closed spec fn view(&self) -> KvView {
        self.entries@.map_values(|e: (String, String)| (e.0@, e.1@))
    }
}

impl KeyValues {
    /// The map's invariant: no key occurs twice.
    pub open spec fn wf(&self) -> bool {
        kv_unique(self@)
    }

    proof fn lemma_view(&self)
        ensures
            self@.len() == self.entries@.len(),
            forall|i: int|
                0 <= i < self@.len() ==> #[trigger] self@[i] == (
                self.entries@[i].0@,
                self.entries@[i].1@,
            ),
    {
    }

    /// An empty map.
    pub fn new() -> (r: Self)
        ensures
            r@ == Seq::<(Seq<char>, Seq<char>)>::empty(),
            r.wf(),
    {
        let r = KeyValues { entries: Vec::new() };
        assert(r@ =~= Seq::<(Seq<char>, Seq<char>)>::empty());
        r
    }

    fn find(&self, key: &str) -> (r: Option<usize>)
        ensures
            r matches Some(i) ==> Some(i as int) == kv_index(self@, key@) && i < self@.len(),
            r is None ==> kv_index(self@, key@) is None,
    {
        proof {
            self.lemma_view();
        }
        let k = String::from_str(key);
        let mut i = self.entries.len();
        assert(self@.take(i as int) =~= self@);
        while i > 0
            invariant
                i <= self.entries@.len(),
                self@.len() == self.entries@.len(),
                forall|j: int|
                    0 <= j < self@.len() ==> #[trigger] self@[j] == (
                    self.entries@[j].0@,
                    self.entries@[j].1@,
                ),
                k@ == key@,
                kv_index(self@, key@) == kv_index(self@.take(i as int), key@),
            decreases i,
        {
            let ghost t = self@.take(i as int);
            assert(t.drop_last() =~= self@.take(i - 1));
            assert(t.last() == self@[i - 1]);
            if self.entries[i - 1].0 == k {
                return Some(i - 1);
            }
            i = i - 1;
        }
        None
    }

    /// The value under `key`.
    pub fn get(&self, key: &str) -> (r: Option<String>)
        ensures
            match r {
                Some(v) => kv_get(self@, key@) == Some(v@),
                None => kv_get(self@, key@) is None,
            },
    {
        proof {
            self.lemma_view();
        }
        match self.find(key) {
            Some(i) => Some(self.entries[i].1.clone()),
            None => None,
        }
    }

    /// Whether `key` is present.
    pub fn contains_key(&self, key: &str) -> (r: bool)
        ensures
            r == (kv_index(self@, key@) is Some),
    {
        self.find(key).is_some()
    }

    /// Bind `key` to `value`.
    pub fn insert(&mut self, key: &str, value: String)
        requires
            old(self).wf(),
        ensures
            final(self)@ == kv_insert(old(self)@, key@, value@),
            final(self).wf(),
    {
        proof {
            lemma_kv_insert(self@, key@, value@, key@);
            self.lemma_view();
        }
        match self.find(key) {
            Some(i) => {
                self.entries.set(i, (String::from_str(key), value));
            },
            None => {
                self.entries.push((String::from_str(key), value));
            },
        }
        proof {
            self.lemma_view();
        }
        assert(self@ =~= kv_insert(old(self)@, key@, value@));
    }

    /// Remove `key`; returns whether it was present.
    pub fn remove(&mut self, key: &str) -> (r: bool)
        requires
            old(self).wf(),
        ensures
            final(self)@ == kv_remove(old(self)@, key@),
            final(self).wf(),
            r == (kv_index(old(self)@, key@) is Some),
    {
        proof {
            lemma_kv_remove(self@, key@, key@);
            self.lemma_view();
        }
        match self.find(key) {
            Some(i) => {
                self.entries.remove(i);
                proof {
                    self.lemma_view();
                }
                assert(self@ =~= kv_remove(old(self)@, key@));
                true
            },
            None => false,
        }
    }

    /// The keys, in order.
    pub fn keys(&self) -> (r: Vec<String>)
        ensures
            r@.map_values(|s: String| s@) == kv_keys(self@),
    {
        proof {
            self.lemma_view();
        }
        let mut r: Vec<String> = Vec::new();
        let mut i: usize = 0;
        while i < self.entries.len()
            invariant
                i <= self.entries@.len(),
                self@.len() == self.entries@.len(),
                forall|j: int|
                    0 <= j < self@.len() ==> #[trigger] self@[j] == (
                    self.entries@[j].0@,
                    self.entries@[j].1@,
                ),
                r@.map_values(|s: String| s@) == kv_keys(self@).take(i as int),
            decreases self.entries@.len() - i,
        {
            let ghost before = r@.map_values(|s: String| s@);
            let key = self.entries[i].0.clone();
            r.push(key);
            assert(self@[i as int].0 == key@);
            assert(r@.map_values(|s: String| s@) =~= before.push(key@));
            assert(r@.map_values(|s: String| s@) =~= kv_keys(self@).take(i + 1));
            i = i + 1;
        }
        assert(kv_keys(self@).take(i as int) =~= kv_keys(self@));
        r
    }

    /// The number of entries.
    pub fn len(&self) -> (r: usize)
        ensures
            r == self@.len(),
    {
        proof {
            self.lemma_view();
        }
        self.entries.len()
    }

    /// A copy of this map.
    pub fn copy(&self) -> (r: Self)
        ensures
            r@ == self@,
    {
        proof {
            self.lemma_view();
        }
        let mut entries: Vec<(String, String)> = Vec::new();
        let mut i: usize = 0;
        while i < self.entries.len()
            invariant
                i <= self.entries@.len(),
                self@.len() == self.entries@.len(),
                forall|j: int|
                    0 <= j < self@.len() ==> #[trigger] self@[j] == (
                    self.entries@[j].0@,
                    self.entries@[j].1@,
                ),
                entries@.map_values(|e: (String, String)| (e.0@, e.1@)) == self@.take(i as int),
            decreases self.entries@.len() - i,
        {
            let ghost before = entries@.map_values(|e: (String, String)| (e.0@, e.1@));
            let e = (self.entries[i].0.clone(), self.entries[i].1.clone());
            entries.push(e);
            assert(self@[i as int] == (e.0@, e.1@));
            assert(entries@.map_values(|e: (String, String)| (e.0@, e.1@)) =~= before.push(
                (e.0@, e.1@),
            ));
            assert(entries@.map_values(|e: (String, String)| (e.0@, e.1@)) =~= self@.take(
                i + 1,
            ));
            i = i + 1;
        }
        assert(self@.take(i as int) =~= self@);
        let r = KeyValues { entries };
        assert(r@ =~= self@);
        r
    }
}

} // verus!
