//! A small map keyed by strings.
//!
//! The entries live in two parallel vectors.  No key occurs twice, so the
//! structure denotes a finite `Map` from the characters of a key to the
//! view of its value.

use vstd::prelude::*;

verus! {

/// The slot that slot `i` had before the entry at slot `p` was taken out.
spec fn skip_slot(i: int, p: int) -> int {
    if i < p {
        i
    } else {
        i + 1
    }
}

/// A finite map from strings to values.
pub struct StrMap<V> {
    keys: Vec<String>,
    vals: Vec<V>,
}

impl<V> StrMap<V> {
    /// Both vectors have one length, and no key occurs twice.
    #[verifier::type_invariant]
    spec fn well_formed(&self) -> bool {
        &&& self.keys@.len() == self.vals@.len()
        &&& forall|i: int, j: int|
            0 <= i < self.keys@.len() && 0 <= j < self.keys@.len() && i != j
                ==> self.keys@[i]@ != self.keys@[j]@
    }

    /// Slot `i` holds the key `k`.
    spec fn at(&self, i: int, k: Seq<char>) -> bool {
        0 <= i < self.keys@.len() && self.keys@[i]@ == k
    }

    /// Some slot holds the key `k`.
    spec fn has(&self, k: Seq<char>) -> bool {
        exists|i: int| self.at(i, k)
    }

    /// Some slot that holds `k`, where there is one.
    spec fn slot(&self, k: Seq<char>) -> int {
        choose|i: int| self.at(i, k)
    }
}

impl<V: View> View for StrMap<V> {
    type V = Map<Seq<char>, V::V>;

    closed spec fn view(&self) -> Map<Seq<char>, V::V> {
        Map::new(
            |k: Seq<char>| self.has(k),
            |k: Seq<char>| self.vals@[self.slot(k)]@,
        )
    }
}

impl<V: View> StrMap<V> {
    /// The empty map.
    pub fn new() -> (m: Self)
        ensures
            m@ == Map::<Seq<char>, V::V>::empty(),
    {
        let m = StrMap { keys: Vec::new(), vals: Vec::new() };
        assert(m@ =~= Map::<Seq<char>, V::V>::empty());
        m
    }

    /// The slot of `key`, or the number of entries where the key is absent.
    fn position(&self, key: &String) -> (p: usize)
        ensures
            p <= self.keys@.len(),
            p < self.keys@.len() ==> self.at(p as int, key@),
            p == self.keys@.len() ==> forall|i: int| !self.at(i, key@),
    {
        let mut i: usize = 0;
        while i < self.keys.len()
            invariant
                i <= self.keys@.len(),
                forall|j: int| 0 <= j < i ==> self.keys@[j]@ != key@,
            decreases self.keys@.len() - i,
        {
            if self.keys[i] == *key {
                return i;
            }
            i += 1;
        }
        i
    }

    /// Whether `key` has an entry.
    pub fn contains_key(&self, key: &str) -> (b: bool)
        ensures
            b == self@.contains_key(key@),
    {
        let owned = key.to_owned();
        let p = self.position(&owned);
        p < self.keys.len()
    }

    /// The value stored under `key`.
    pub fn get(&self, key: &str) -> (r: Option<&V>)
        ensures
            match r {
                Some(v) => self@.contains_key(key@) && v@ == self@[key@],
                None => !self@.contains_key(key@),
            },
    {
        proof {
            use_type_invariant(self);
        }
        let owned = key.to_owned();
        let p = self.position(&owned);
        if p < self.keys.len() {
            assert(self.at(self.slot(key@), key@));
            Some(&self.vals[p])
        } else {
            None
        }
    }

    /// Stores `value` under `key`, in place of what was stored there.
    pub fn insert(&mut self, key: String, value: V)
        ensures
            final(self)@ == old(self)@.insert(key@, value@),
    {
        proof {
            use_type_invariant(&*self);
        }
        let p = self.position(&key);
        let mut taken = StrMap { keys: Vec::new(), vals: Vec::new() };
        std::mem::swap(self, &mut taken);
        let ghost before = taken;
        let mut keys = taken.keys;
        let mut vals = taken.vals;
        if p < keys.len() {
            vals.set(p, value);
        } else {
            keys.push(key);
            vals.push(value);
        }
        let ghost after = StrMap { keys, vals };
        let ghost q: int = if p < before.keys@.len() { p as int } else { before.keys@.len() as int };
        proof {
            assert forall|i: int, j: int|
                0 <= i < after.keys@.len() && 0 <= j < after.keys@.len() && i != j implies after.keys@[i]@
                != after.keys@[j]@ by {
                if p >= before.keys@.len() {
                    assert(!before.at(i, key@));
                    assert(!before.at(j, key@));
                }
            }
            assert(after.at(q, key@));
            assert forall|k: Seq<char>| #[trigger] after.has(k) <==> (k == key@ || before.has(k)) by {
                if after.has(k) && k != key@ {
                    assert(before.at(after.slot(k), k));
                }
                if before.has(k) {
                    assert(after.at(before.slot(k), k));
                }
            }
            assert forall|k: Seq<char>| #[trigger] after.has(k) implies after.vals@[after.slot(k)]@ == (if k
                == key@ {
                value@
            } else {
                before.vals@[before.slot(k)]@
            }) by {
                let i = after.slot(k);
                assert(after.at(i, k));
                if k == key@ {
                    assert(i == q);
                } else {
                    assert(before.at(i, k));
                    assert(before.at(before.slot(k), k));
                }
            }
            assert(after@ =~= before@.insert(key@, value@));
        }
        *self = StrMap { keys, vals };
    }

    /// Takes the entry of `key` out of the map and hands back its value.
    pub fn remove(&mut self, key: &str) -> (r: Option<V>)
        ensures
            final(self)@ == old(self)@.remove(key@),
            match r {
                Some(v) => old(self)@.contains_key(key@) && v@ == old(self)@[key@],
                None => !old(self)@.contains_key(key@),
            },
    {
        proof {
            use_type_invariant(&*self);
        }
        let owned = key.to_owned();
        let p = self.position(&owned);
        if p >= self.keys.len() {
            assert(self@ =~= self@.remove(key@));
            return None;
        }
        let mut taken = StrMap { keys: Vec::new(), vals: Vec::new() };
        std::mem::swap(self, &mut taken);
        let ghost before = taken;
        let mut keys = taken.keys;
        let mut vals = taken.vals;
        let _ = keys.remove(p);
        let value = vals.remove(p);
        let ghost after = StrMap { keys, vals };
        proof {
            assert forall|i: int| 0 <= i < after.keys@.len() implies after.keys@[i] == before.keys@[skip_slot(
                i,
                p as int,
            )] && after.vals@[i] == before.vals@[skip_slot(i, p as int)] by {
                assert(0 <= skip_slot(i, p as int) < before.keys@.len());
            }
            assert forall|k: Seq<char>| #[trigger] after.has(k) <==> (k != key@ && before.has(k)) by {
                if after.has(k) {
                    let i = after.slot(k);
                    assert(before.at(skip_slot(i, p as int), k));
                    assert(before.at(p as int, key@));
                }
                if k != key@ && before.has(k) {
                    let j = before.slot(k);
                    assert(before.at(j, k));
                    let i = if j < p {
                        j
                    } else {
                        j - 1
                    };
                    assert(skip_slot(i, p as int) == j);
                    assert(after.at(i, k));
                }
            }
            assert forall|k: Seq<char>| #[trigger] after.has(k) implies after.vals@[after.slot(k)]@
                == before.vals@[before.slot(k)]@ by {
                let i = after.slot(k);
                assert(after.at(i, k));
                assert(before.at(skip_slot(i, p as int), k));
                assert(before.at(before.slot(k), k));
            }
            assert(before.at(before.slot(key@), key@));
            assert(after@ =~= before@.remove(key@));
        }
        *self = StrMap { keys, vals };
        Some(value)
    }

    /// The keys of the map, each once.
    pub fn keys(&self) -> (ks: Vec<String>)
        ensures
            forall|i: int, j: int|
                0 <= i < ks@.len() && 0 <= j < ks@.len() && i != j ==> ks@[i]@ != ks@[j]@,
            forall|i: int| 0 <= i < ks@.len() ==> self@.contains_key(#[trigger] ks@[i]@),
            forall|k: Seq<char>|
                self@.contains_key(k) ==> (exists|i: int| 0 <= i < ks@.len() && ks@[i]@ == k),
    {
        proof {
            use_type_invariant(self);
        }
        let mut ks: Vec<String> = Vec::new();
        let mut n: usize = 0;
        while n < self.keys.len()
            invariant
                n <= self.keys@.len(),
                ks@.len() == n,
                forall|j: int| 0 <= j < n ==> ks@[j]@ == self.keys@[j]@,
            decreases self.keys@.len() - n,
        {
            ks.push(self.keys[n].clone());
            n += 1;
        }
        proof {
            assert forall|i: int| 0 <= i < ks@.len() implies self@.contains_key(#[trigger] ks@[i]@) by {
                assert(self.at(i, ks@[i]@));
            }
            assert forall|k: Seq<char>| self@.contains_key(k) implies (exists|i: int|
                0 <= i < ks@.len() && ks@[i]@ == k) by {
                let i = self.slot(k);
                assert(self.at(i, k));
                assert(0 <= i < ks@.len() && ks@[i]@ == k);
            }
        }
        ks
    }
}

} // verus!
