//! An ordered map from text keys to values: keys are unique and kept in the
//! order of their UTF-8 bytes, the order in which `String`s compare.

use vstd::prelude::*;
use vstd::utf8::*;

verus! {

/// Lexicographic order on byte strings; a proper prefix comes first.
pub open spec fn bytes_less(a: Seq<u8>, b: Seq<u8>) -> bool
    decreases a.len(),
{
    if b.len() == 0 {
        false
    } else if a.len() == 0 {
        true
    } else if a[0] != b[0] {
        a[0] < b[0]
    } else {
        bytes_less(a.drop_first(), b.drop_first())
    }
}

/// The order of keys: that of their UTF-8 encodings.
pub open spec fn key_less(a: Seq<char>, b: Seq<char>) -> bool {
    bytes_less(encode_utf8(a), encode_utf8(b))
}

/// Every key strictly precedes the keys after it.
pub open spec fn strictly_ascending(keys: Seq<Seq<char>>) -> bool {
    forall|i: int, j: int| 0 <= i < j < keys.len() ==> key_less(#[trigger] keys[i], #[trigger] keys[j])
}

pub proof fn lemma_bytes_less_transitive(a: Seq<u8>, b: Seq<u8>, c: Seq<u8>)
    requires
        bytes_less(a, b),
        bytes_less(b, c),
    ensures
        bytes_less(a, c),
    decreases a.len(),
{
    if a.len() > 0 && b.len() > 0 && c.len() > 0 && a[0] == b[0] && b[0] == c[0] {
        lemma_bytes_less_transitive(a.drop_first(), b.drop_first(), c.drop_first());
    }
}

pub proof fn lemma_bytes_less_irreflexive(a: Seq<u8>)
    ensures
        !bytes_less(a, a),
    decreases a.len(),
{
    if a.len() > 0 {
        lemma_bytes_less_irreflexive(a.drop_first());
    }
}

pub proof fn lemma_bytes_less_total(a: Seq<u8>, b: Seq<u8>)
    requires
        a != b,
    ensures
        bytes_less(a, b) || bytes_less(b, a),
    decreases a.len(),
{
    if a.len() == 0 && b.len() == 0 {
        assert(a =~= b);
    } else if a.len() > 0 && b.len() > 0 && a[0] == b[0] {
        if a.drop_first() == b.drop_first() {
            assert(a =~= seq![a[0]] + a.drop_first());
            assert(b =~= seq![b[0]] + b.drop_first());
        }
        lemma_bytes_less_total(a.drop_first(), b.drop_first());
    }
}

pub proof fn lemma_key_less_transitive(a: Seq<char>, b: Seq<char>, c: Seq<char>)
    requires
        key_less(a, b),
        key_less(b, c),
    ensures
        key_less(a, c),
{
    lemma_bytes_less_transitive(encode_utf8(a), encode_utf8(b), encode_utf8(c));
}

pub proof fn lemma_key_less_irreflexive(a: Seq<char>)
    ensures
        !key_less(a, a),
{
    lemma_bytes_less_irreflexive(encode_utf8(a));
}

/// Distinct keys are ordered one way or the other.
pub proof fn lemma_key_less_total(a: Seq<char>, b: Seq<char>)
    requires
        a != b,
    ensures
        key_less(a, b) || key_less(b, a),
{
    if encode_utf8(a) == encode_utf8(b) {
        encode_utf8_decode_utf8(a);
        encode_utf8_decode_utf8(b);
    }
    lemma_bytes_less_total(encode_utf8(a), encode_utf8(b));
}

fn bytes_precede(a: &[u8], b: &[u8]) -> (r: bool)
    ensures
        r == bytes_less(a@, b@),
{
    let mut i: usize = 0;
    assert(a@.subrange(0, a@.len() as int) =~= a@);
    assert(b@.subrange(0, b@.len() as int) =~= b@);
    while i < a.len() && i < b.len()
        invariant
            0 <= i <= a@.len(),
            i <= b@.len(),
            bytes_less(a@, b@) == bytes_less(
                a@.subrange(i as int, a@.len() as int),
                b@.subrange(i as int, b@.len() as int),
            ),
        decreases a@.len() - i,
    {
        let x = a[i];
        let y = b[i];
        if x != y {
            return x < y;
        }
        assert(a@.subrange(i as int, a@.len() as int).drop_first() =~= a@.subrange(
            i + 1,
            a@.len() as int,
        ));
        assert(b@.subrange(i as int, b@.len() as int).drop_first() =~= b@.subrange(
            i + 1,
            b@.len() as int,
        ));
        i = i + 1;
    }
    i < b.len()
}

/// Whether key `a` comes before key `b`.
pub fn key_precedes(a: &String, b: &String) -> (r: bool)
    ensures
        r == key_less(a@, b@),
{
    bytes_precede(a.as_str().as_bytes(), b.as_str().as_bytes())
}

/// A map from text keys to values, its entries in ascending key order.
#[derive(Debug)]
pub struct KeyedMap<V> {
    items: Vec<(String, V)>,
}

impl<V> KeyedMap<V> {
    /// The entries, in ascending key order.
    pub closed spec fn entries(&self) -> Seq<(Seq<char>, V)> {
        self.items@.map_values(|e: (String, V)| (e.0@, e.1))
    }

    /// The keys, in ascending order.
    pub open spec fn keys(&self) -> Seq<Seq<char>> {
        self.entries().map_values(|e: (Seq<char>, V)| e.0)
    }

    /// The values, in the order of their keys.
    pub open spec fn values(&self) -> Seq<V> {
        self.entries().map_values(|e: (Seq<char>, V)| e.1)
    }

    /// Keys are unique and ascending.
    pub open spec fn wf(&self) -> bool {
        strictly_ascending(self.keys())
    }

    pub open spec fn contains_key(&self, k: Seq<char>) -> bool {
        self.keys().contains(k)
    }

    /// The map holds `v` under `k`.
    pub open spec fn maps_to(&self, k: Seq<char>, v: V) -> bool {
        exists|i: int| 0 <= i < self.entries().len() && #[trigger] self.entries()[i] == (k, v)
    }

    /// `new` is `old` with `v` put under `k`: in place of the value that was
    /// there, or as a new entry at the position its key takes.
    pub open spec fn put(old: Self, new: Self, k: Seq<char>, v: V) -> bool {
        &&& new.maps_to(k, v)
        &&& new.contains_key(k)
        &&& old.contains_key(k) ==> exists|i: int|
            0 <= i < old.entries().len() && old.keys()[i] == k && new.entries()
                == old.entries().update(i, (k, v))
        &&& !old.contains_key(k) ==> exists|i: int|
            0 <= i <= old.entries().len() && new.entries() == old.entries().insert(i, (k, v))
    }

    /// `new` is `old` without the entry under `k`, or `old` itself if there
    /// is none.
    pub open spec fn dropped(old: Self, new: Self, k: Seq<char>) -> bool {
        &&& old.contains_key(k) ==> exists|i: int|
            0 <= i < old.entries().len() && old.keys()[i] == k && new.entries()
                == old.entries().remove(i)
        &&& !old.contains_key(k) ==> new.entries() == old.entries()
    }

    /// An empty map.
    pub fn new() -> (r: Self)
        ensures
            r.wf(),
            r.entries() == Seq::<(Seq<char>, V)>::empty(),
    {
        let r = KeyedMap { items: Vec::new() };
        assert(r.entries() =~= Seq::<(Seq<char>, V)>::empty());
        r
    }

    /// The number of entries.
    pub fn len(&self) -> (r: usize)
        ensures
            r == self.entries().len(),
    {
        self.items.len()
    }

    /// The key of the entry at `i`, in key order.
    pub fn key_at(&self, i: usize) -> (r: &String)
        requires
            i < self.entries().len(),
        ensures
            r@ == self.keys()[i as int],
    {
        &self.items[i].0
    }

    /// The value of the entry at `i`, in key order.
    pub fn value_at(&self, i: usize) -> (r: &V)
        requires
            i < self.entries().len(),
        ensures
            *r == self.values()[i as int],
    {
        &self.items[i].1
    }

    /// The position of `key`, if it is present.
    pub fn find(&self, key: &String) -> (r: Option<usize>)
        ensures
            match r {
                Some(i) => i < self.entries().len() && self.keys()[i as int] == key@,
                None => !self.contains_key(key@),
            },
    {
        let mut i: usize = 0;
        while i < self.items.len()
            invariant
                0 <= i <= self.items@.len(),
                forall|j: int| 0 <= j < i ==> self.keys()[j] != key@,
            decreases self.items@.len() - i,
        {
            if self.items[i].0 == *key {
                return Some(i);
            }
            i = i + 1;
        }
        None
    }

    /// The value under `key`, if any.
    pub fn get(&self, key: &String) -> (r: Option<&V>)
        ensures
            match r {
                Some(v) => self.maps_to(key@, *v),
                None => !self.contains_key(key@),
            },
    {
        match self.find(key) {
            Some(i) => {
                let v = &self.items[i].1;
                assert(self.entries()[i as int] == (key@, *v));
                Some(v)
            },
            None => None,
        }
    }

    /// Whether `key` is present.
    pub fn contains(&self, key: &String) -> (r: bool)
        ensures
            r == self.contains_key(key@),
    {
        self.find(key).is_some()
    }

    /// Puts `value` under `key`, replacing the value that was there.
    pub fn insert(&mut self, key: String, value: V)
        requires
            old(self).wf(),
        ensures
            final(self).wf(),
            Self::put(*old(self), *final(self), key@, value),
    {
        let ghost old_entries = self.entries();
        let ghost k = key@;
        let mut i: usize = 0;
        while i < self.items.len() && key_precedes(&self.items[i].0, &key)
            invariant
                k == key@,
                0 <= i <= self.items@.len(),
                self.entries() == old_entries,
                strictly_ascending(self.keys()),
                forall|j: int| 0 <= j < i ==> key_less(#[trigger] self.keys()[j], k),
            decreases self.items@.len() - i,
        {
            assert(self.keys()[i as int] == self.items@[i as int].0@);
            i = i + 1;
        }
        if i < self.items.len() && self.items[i].0 == key {
            let ghost pos = i as int;
            assert(old_entries.map_values(|e: (Seq<char>, V)| e.0)[pos] == k);
            self.items.remove(i);
            self.items.insert(i, (key, value));
            assert(self.entries() =~= old_entries.update(pos, (k, value)));
            assert(self.keys() =~= old_entries.map_values(|e: (Seq<char>, V)| e.0));
            assert(self.entries()[pos] == (k, value));
            assert(self.keys()[pos] == k);
        } else {
            let ghost pos = i as int;
            let ghost old_keys = self.keys();
            proof {
                if pos < old_keys.len() {
                    assert(old_keys[pos] == self.items@[pos].0@);
                    lemma_key_less_total(old_keys[pos], k);
                }
                assert forall|j: int| pos <= j < old_keys.len() implies key_less(
                    k,
                    #[trigger] old_keys[j],
                ) by {
                    if j > pos {
                        lemma_key_less_transitive(k, old_keys[pos], old_keys[j]);
                    }
                }
                if old_keys.contains(k) {
                    let m = choose|m: int| 0 <= m < old_keys.len() && old_keys[m] == k;
                    lemma_key_less_irreflexive(k);
                    if m < pos {
                        assert(key_less(old_keys[m], k));
                    } else {
                        assert(key_less(k, old_keys[m]));
                    }
                }
                assert(!old_keys.contains(k));
            }
            self.items.insert(i, (key, value));
            assert(self.entries() =~= old_entries.insert(pos, (k, value)));
            let ghost new_keys = self.keys();
            assert(new_keys =~= old_keys.insert(pos, k));
            assert(self.entries()[pos] == (k, value));
            assert(new_keys[pos] == k);
            assert forall|a: int, b: int| 0 <= a < b < new_keys.len() implies key_less(
                #[trigger] new_keys[a],
                #[trigger] new_keys[b],
            ) by {
                if b < pos {
                } else if b == pos {
                } else if a < pos {
                    lemma_key_less_transitive(new_keys[a], k, new_keys[b]);
                } else if a == pos {
                } else {
                }
            }
        }
    }

    /// Replaces the value of the entry at `i`, handing back the one it held.
    pub fn replace_value(&mut self, i: usize, value: V) -> (r: V)
        requires
            old(self).wf(),
            i < old(self).entries().len(),
        ensures
            final(self).wf(),
            r == old(self).values()[i as int],
            final(self).entries() == old(self).entries().update(
                i as int,
                (old(self).keys()[i as int], value),
            ),
    {
        let ghost old_entries = self.entries();
        let ghost old_keys = self.keys();
        let (k, v) = self.items.remove(i);
        self.items.insert(i, (k, value));
        assert(self.entries() =~= old_entries.update(i as int, (old_keys[i as int], value)));
        assert(self.keys() =~= old_keys);
        v
    }

    /// Takes out the entry under `key`; nothing changes if there is none.
    pub fn remove(&mut self, key: &String) -> (r: Option<V>)
        requires
            old(self).wf(),
        ensures
            final(self).wf(),
            Self::dropped(*old(self), *final(self), key@),
            match r {
                Some(v) => exists|i: int|
                    0 <= i < old(self).entries().len() && old(self).entries()[i] == (key@, v)
                        && final(self).entries() == old(self).entries().remove(i),
                None => !old(self).contains_key(key@) && final(self).entries() == old(self).entries(),
            },
    {
        match self.find(key) {
            Some(i) => {
                let ghost old_entries = self.entries();
                let ghost old_keys = self.keys();
                let e = self.items.remove(i);
                assert(self.entries() =~= old_entries.remove(i as int));
                assert(self.keys() =~= old_keys.remove(i as int));
                assert forall|a: int, b: int| 0 <= a < b < self.keys().len() implies key_less(
                    #[trigger] self.keys()[a],
                    #[trigger] self.keys()[b],
                ) by {
                    if b < i {
                    } else if a < i {
                        assert(self.keys()[a] == old_keys[a]);
                        assert(self.keys()[b] == old_keys[b + 1]);
                    } else {
                        assert(self.keys()[a] == old_keys[a + 1]);
                        assert(self.keys()[b] == old_keys[b + 1]);
                    }
                }
                Some(e.1)
            },
            None => None,
        }
    }
}

} // verus!
