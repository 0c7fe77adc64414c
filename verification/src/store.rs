//! A collection of records keyed by their string identifier, with the semantics of a
//! map: inserting under a present key replaces the record held there.

use vstd::prelude::*;

verus! {

/// A record with a string key.
pub trait Keyed {
    /// The record's key.
    spec fn key(&self) -> Seq<char>;

    /// The record's key, as held in the record.
    fn key_str(&self) -> (r: &str)
        ensures
            r@ == self.key(),
    ;
}

/// Records keyed by their identifier.
#[derive(Debug)]
pub struct KeyedStore<T> {
    items: Vec<T>,
}

/// Whether some record of `s` has key `k`.
pub open spec fn has_key<T: Keyed>(s: Seq<T>, k: Seq<char>) -> bool {
    exists|i: int| 0 <= i < s.len() && (#[trigger] s[i]).key() == k
}

/// The map from keys to records that `s` holds.
pub open spec fn as_map<T: Keyed>(s: Seq<T>) -> Map<Seq<char>, T> {
    Map::new(
        |k: Seq<char>| has_key(s, k),
        |k: Seq<char>| s[choose|i: int| 0 <= i < s.len() && (#[trigger] s[i]).key() == k],
    )
}

/// No two records of `s` share a key.
pub open spec fn distinct_keys<T: Keyed>(s: Seq<T>) -> bool {
    forall|i: int, j: int|
        0 <= i < s.len() && 0 <= j < s.len() && i != j ==> (#[trigger] s[i]).key() != (
        #[trigger] s[j]).key()
}

proof fn lemma_map_at<T: Keyed>(s: Seq<T>, i: int)
    requires
        distinct_keys(s),
        0 <= i < s.len(),
    ensures
        as_map(s).contains_key(s[i].key()),
        as_map(s)[s[i].key()] == s[i],
{
    let k = s[i].key();
    assert(has_key(s, k));
    let j = choose|j: int| 0 <= j < s.len() && (#[trigger] s[j]).key() == k;
    assert(j == i);
}

proof fn lemma_map_push<T: Keyed>(s: Seq<T>, a: T)
    requires
        distinct_keys(s),
        !has_key(s, a.key()),
    ensures
        distinct_keys(s.push(a)),
        as_map(s.push(a)) == as_map(s).insert(a.key(), a),
{
    let t = s.push(a);
    assert forall|i: int, j: int|
        0 <= i < t.len() && 0 <= j < t.len() && i != j implies (#[trigger] t[i]).key() != (
        #[trigger] t[j]).key() by {
        if i < s.len() && j < s.len() {
            assert(t[i] == s[i] && t[j] == s[j]);
        } else if i < s.len() {
            assert(t[i] == s[i]);
        } else {
            assert(t[j] == s[j]);
        }
    }
    assert forall|k: Seq<char>| #[trigger] as_map(t).contains_key(k) == as_map(s).insert(
        a.key(),
        a,
    ).contains_key(k) by {
        if has_key(s, k) {
            let i = choose|i: int| 0 <= i < s.len() && (#[trigger] s[i]).key() == k;
            assert(t[i] == s[i]);
        }
        if k == a.key() {
            assert(t[s.len() as int] == a);
        }
    }
    assert forall|k: Seq<char>| #[trigger] as_map(t).contains_key(k) implies as_map(t)[k]
        == as_map(s).insert(a.key(), a)[k] by {
        if k == a.key() {
            lemma_map_at(t, s.len() as int);
        } else {
            let i = choose|i: int| 0 <= i < t.len() && (#[trigger] t[i]).key() == k;
            assert(i < s.len());
            assert(t[i] == s[i]);
            lemma_map_at(t, i);
            lemma_map_at(s, i);
        }
    }
    assert(as_map(t) =~= as_map(s).insert(a.key(), a));
}

proof fn lemma_map_update<T: Keyed>(s: Seq<T>, i: int, a: T)
    requires
        distinct_keys(s),
        0 <= i < s.len(),
        s[i].key() == a.key(),
    ensures
        distinct_keys(s.update(i, a)),
        as_map(s.update(i, a)) == as_map(s).insert(a.key(), a),
{
    let t = s.update(i, a);
    assert forall|x: int, y: int|
        0 <= x < t.len() && 0 <= y < t.len() && x != y implies (#[trigger] t[x]).key() != (
        #[trigger] t[y]).key() by {
        assert(t[x].key() == s[x].key());
        assert(t[y].key() == s[y].key());
    }
    assert forall|k: Seq<char>| #[trigger] as_map(t).contains_key(k) == as_map(s).insert(
        a.key(),
        a,
    ).contains_key(k) by {
        if has_key(s, k) {
            let j = choose|j: int| 0 <= j < s.len() && (#[trigger] s[j]).key() == k;
            assert(t[j].key() == s[j].key());
        }
        if has_key(t, k) {
            let j = choose|j: int| 0 <= j < t.len() && (#[trigger] t[j]).key() == k;
            assert(t[j].key() == s[j].key());
        }
        assert(t[i].key() == a.key());
    }
    assert forall|k: Seq<char>| #[trigger] as_map(t).contains_key(k) implies as_map(t)[k]
        == as_map(s).insert(a.key(), a)[k] by {
        let j = choose|j: int| 0 <= j < t.len() && (#[trigger] t[j]).key() == k;
        lemma_map_at(t, j);
        if j != i {
            assert(t[j] == s[j]);
            lemma_map_at(s, j);
        }
    }
    assert(as_map(t) =~= as_map(s).insert(a.key(), a));
}

proof fn lemma_map_remove<T: Keyed>(s: Seq<T>, i: int)
    requires
        distinct_keys(s),
        0 <= i < s.len(),
    ensures
        distinct_keys(s.remove(i)),
        as_map(s.remove(i)) == as_map(s).remove(s[i].key()),
{
    let t = s.remove(i);
    let k0 = s[i].key();
    assert forall|x: int, y: int|
        0 <= x < t.len() && 0 <= y < t.len() && x != y implies (#[trigger] t[x]).key() != (
        #[trigger] t[y]).key() by {
        let sx = if x < i {
            x
        } else {
            x + 1
        };
        let sy = if y < i {
            y
        } else {
            y + 1
        };
        assert(t[x] == s[sx]);
        assert(t[y] == s[sy]);
    }
    assert forall|k: Seq<char>| #[trigger] as_map(t).contains_key(k) == as_map(s).remove(
        k0,
    ).contains_key(k) by {
        if has_key(t, k) {
            let j = choose|j: int| 0 <= j < t.len() && (#[trigger] t[j]).key() == k;
            let sj = if j < i {
                j
            } else {
                j + 1
            };
            assert(t[j] == s[sj]);
            assert(s[sj].key() == k);
        }
        if has_key(s, k) && k != k0 {
            let j = choose|j: int| 0 <= j < s.len() && (#[trigger] s[j]).key() == k;
            assert(j != i);
            let tj = if j < i {
                j
            } else {
                j - 1
            };
            assert(t[tj] == s[j]);
        }
    }
    assert forall|k: Seq<char>| #[trigger] as_map(t).contains_key(k) implies as_map(t)[k]
        == as_map(s).remove(k0)[k] by {
        let j = choose|j: int| 0 <= j < t.len() && (#[trigger] t[j]).key() == k;
        let sj = if j < i {
            j
        } else {
            j + 1
        };
        assert(t[j] == s[sj]);
        lemma_map_at(t, j);
        lemma_map_at(s, sj);
    }
    assert(as_map(t) =~= as_map(s).remove(k0));
}

impl<T: Keyed> KeyedStore<T> {
    /// The records held, by key.
    pub closed spec fn view(&self) -> Map<Seq<char>, T> {
        as_map(self.items@)
    }

    /// The records in the order the store keeps them.
    pub closed spec fn entries(&self) -> Seq<T> {
        self.items@
    }

    /// Keys are not repeated.
    pub closed spec fn wf(&self) -> bool {
        distinct_keys(self.items@)
    }

    /// The entries hold exactly the records of the map, each once.
    pub proof fn lemma_entries(&self)
        requires
            self.wf(),
        ensures
            forall|i: int|
                0 <= i < self.entries().len() ==> self.view().contains_key(
                    (#[trigger] self.entries()[i]).key(),
                ) && self.view()[self.entries()[i].key()] == self.entries()[i],
            forall|k: Seq<char>|
                #[trigger] self.view().contains_key(k) ==> exists|i: int|
                    0 <= i < self.entries().len() && (#[trigger] self.entries()[i]).key() == k,
    {
        assert forall|i: int| 0 <= i < self.entries().len() implies self.view().contains_key(
            (#[trigger] self.entries()[i]).key(),
        ) && self.view()[self.entries()[i].key()] == self.entries()[i] by {
            lemma_map_at(self.items@, i);
        }
        assert forall|k: Seq<char>| #[trigger] self.view().contains_key(k) implies exists|i: int|
            0 <= i < self.entries().len() && (#[trigger] self.entries()[i]).key() == k by {
            assert(has_key(self.items@, k));
            let i = choose|i: int| 0 <= i < self.items@.len() && (#[trigger] self.items@[i]).key() == k;
            assert(self.entries()[i].key() == k);
        }
    }

    /// An empty store.
    pub fn new() -> (s: Self)
        ensures
            s.wf(),
            s.view() == Map::<Seq<char>, T>::empty(),
            s.entries().len() == 0,
    {
        let s = KeyedStore { items: Vec::new() };
        assert(s.view() =~= Map::<Seq<char>, T>::empty());
        s
    }

    /// Number of records.
    pub fn len(&self) -> (n: usize)
        requires
            self.wf(),
        ensures
            n == self.entries().len(),
    {
        self.items.len()
    }

    /// The position of the record with key `key`, if any.
    fn position(&self, key: &str) -> (r: Option<usize>)
        requires
            self.wf(),
        ensures
            r matches Some(i) ==> i < self.items@.len() && self.items@[i as int].key() == key@,
            r is None ==> !has_key(self.items@, key@),
    {
        let mut i: usize = 0;
        while i < self.items.len()
            invariant
                i <= self.items@.len(),
                forall|j: int| 0 <= j < i ==> (#[trigger] self.items@[j]).key() != key@,
            decreases self.items@.len() - i,
        {
            if crate::text::str_eq(self.items[i].key_str(), key) {
                return Some(i);
            }
            i = i + 1;
        }
        None
    }

    /// Whether a record with key `key` is held.
    pub fn contains_key(&self, key: &str) -> (r: bool)
        requires
            self.wf(),
        ensures
            r == self.view().contains_key(key@),
    {
        self.position(key).is_some()
    }

    /// The record with key `key`, if any.
    pub fn get(&self, key: &str) -> (r: Option<&T>)
        requires
            self.wf(),
        ensures
            r is Some <==> self.view().contains_key(key@),
            r matches Some(t) ==> *t == self.view()[key@] && t.key() == key@,
    {
        match self.position(key) {
            Some(i) => {
                proof {
                    lemma_map_at(self.items@, i as int);
                }
                Some(&self.items[i])
            },
            None => None,
        }
    }

    /// Insert `item` under its key, replacing the record held there; the replaced
    /// record is returned.
    pub fn insert(&mut self, item: T) -> (old_item: Option<T>)
        requires
            old(self).wf(),
        ensures
            final(self).wf(),
            final(self).view() == old(self).view().insert(item.key(), item),
            old(self).view().contains_key(item.key()) ==> old_item == Some(
                old(self).view()[item.key()],
            ),
            !old(self).view().contains_key(item.key()) ==> old_item is None,
            !old(self).view().contains_key(item.key()) ==> final(self).entries()
                == old(self).entries().push(item),
    {
        let ghost k = item.key();
        match self.position(item.key_str()) {
            Some(i) => {
                let ghost s0 = self.items@;
                proof {
                    lemma_map_at(s0, i as int);
                    lemma_map_update(s0, i as int, item);
                }
                let prev = self.items.remove(i);
                self.items.insert(i, item);
                assert(self.items@ =~= s0.update(i as int, item));
                Some(prev)
            },
            None => {
                let ghost s0 = self.items@;
                proof {
                    lemma_map_push(s0, item);
                }
                self.items.push(item);
                None
            },
        }
    }

    /// Remove the record with key `key`, returning it.
    pub fn remove(&mut self, key: &str) -> (r: Option<T>)
        requires
            old(self).wf(),
        ensures
            final(self).wf(),
            final(self).view() == old(self).view().remove(key@),
            old(self).view().contains_key(key@) ==> r == Some(old(self).view()[key@]),
            r matches Some(t) ==> t.key() == key@,
            !old(self).view().contains_key(key@) ==> r is None,
            r matches Some(t) ==> exists|i: int|
                0 <= i < old(self).entries().len() && old(self).entries()[i] == t
                    && final(self).entries() == old(self).entries().remove(i),
            r is None ==> final(self).entries() == old(self).entries(),
    {
        match self.position(key) {
            Some(i) => {
                let ghost s0 = self.items@;
                proof {
                    lemma_map_at(s0, i as int);
                    lemma_map_remove(s0, i as int);
                }
                let t = self.items.remove(i);
                assert(s0[i as int] == t && self.items@ == s0.remove(i as int));
                assert(old(self).entries()[i as int] == t && self.entries() == old(self).entries().remove(
                    i as int,
                ));
                Some(t)
            },
            None => {
                assert(self.view() =~= self.view().remove(key@));
                None
            },
        }
    }

    /// The records, in the order the store keeps them.
    pub fn entries_ref(&self) -> (r: &Vec<T>)
        ensures
            r@ == self.entries(),
    {
        &self.items
    }
}

} // verus!
