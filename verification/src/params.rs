//! `Params`: the parameters of a Signature-Key header, a map from parameter
//! name to value in which a later insertion of a name replaces the earlier.

use vstd::prelude::*;

verus! {

/// A finite map from parameter names to values, kept as a list of entries in
/// which no name occurs twice.
#[derive(Debug)]
pub struct Params {
    entries: Vec<(String, String)>,
}

impl Params {
    #[verifier::type_invariant]
    spec fn names_unique(&self) -> bool {
        forall|i: int, j: int|
            0 <= i < j < self.entries@.len() ==> (#[trigger] self.entries@[i]).0@
                != (#[trigger] self.entries@[j]).0@
    }

    spec fn has_name_at(&self, i: int, k: Seq<char>) -> bool {
        0 <= i < self.entries@.len() && self.entries@[i].0@ == k
    }
}

impl View for Params {
    type V = Map<Seq<char>, Seq<char>>;

    closed spec fn view(&self) -> Map<Seq<char>, Seq<char>> {
        Map::new(
            |k: Seq<char>| exists|i: int| self.has_name_at(i, k),
            |k: Seq<char>| self.entries@[choose|i: int| self.has_name_at(i, k)].1@,
        )
    }
}

impl Params {
    /// The empty map.
    pub fn new() -> (p: Params)
        ensures
            p@ == Map::<Seq<char>, Seq<char>>::empty(),
    {
        let p = Params { entries: Vec::new() };
        assert(p@ =~= Map::<Seq<char>, Seq<char>>::empty());
        p
    }

    /// The number of names in the map.
    pub fn len(&self) -> (n: usize)
        ensures
            n == self@.len(),
    {
        proof {
            use_type_invariant(self);
            self.lemma_dom_len();
        }
        self.entries.len()
    }

    proof fn lemma_dom_len(&self)
        requires
            self.names_unique(),
        ensures
            self@.dom().finite(),
            self@.dom().len() == self.entries@.len(),
        decreases self.entries@.len(),
    {
        let names = self.entries@.map_values(|e: (String, String)| e.0@);
        assert forall|kk: Seq<char>| #[trigger] self@.dom().contains(kk) == names.to_set().contains(
            kk,
        ) by {
            if self@.dom().contains(kk) {
                let j = choose|j: int| self.has_name_at(j, kk);
                assert(names[j] == kk);
            }
            if names.contains(kk) {
                let j = choose|j: int| 0 <= j < names.len() && names[j] == kk;
                assert(self.has_name_at(j, kk));
            }
        }
        assert(self@.dom() =~= names.to_set());
        assert forall|i: int, j: int| 0 <= i < j < names.len() implies names[i] != names[j] by {
            assert(self.entries@[i].0@ != self.entries@[j].0@);
        }
        names.unique_seq_to_set();
    }

    /// The value of `key`, if the map holds it.
    pub fn get(&self, key: &str) -> (r: Option<&String>)
        ensures
            match r {
                Some(v) => self@.contains_key(key@) && self@[key@] == v@,
                None => !self@.contains_key(key@),
            },
    {
        proof {
            use_type_invariant(self);
        }
        let k = String::from_str(key);
        let mut i: usize = 0;
        while i < self.entries.len()
            invariant
                0 <= i <= self.entries@.len(),
                k@ == key@,
                self.names_unique(),
                forall|j: int| 0 <= j < i ==> self.entries@[j].0@ != key@,
            decreases self.entries@.len() - i,
        {
            if self.entries[i].0 == k {
                proof {
                    assert(self.has_name_at(i as int, key@));
                    let c = choose|j: int| self.has_name_at(j, key@);
                    assert(c == i as int) by {
                        if c != i as int {
                            if c < i {
                                assert(self.entries@[c].0@ != self.entries@[i as int].0@);
                            } else {
                                assert(self.entries@[i as int].0@ != self.entries@[c].0@);
                            }
                        }
                    }
                }
                return Some(&self.entries[i].1);
            }
            i = i + 1;
        }
        None
    }

    /// Sets `key` to `value`, replacing any earlier value of `key`.
    pub fn insert(&mut self, key: String, value: String)
        ensures
            final(self)@ == old(self)@.insert(key@, value@),
    {
        proof {
            use_type_invariant(&*self);
        }
        let ghost old_p = *self;
        let mut i: usize = 0;
        while i < self.entries.len()
            invariant
                0 <= i <= self.entries@.len(),
                *self == old_p,
                old_p == *old(self),
                old_p.names_unique(),
                forall|j: int| 0 <= j < i ==> self.entries@[j].0@ != key@,
            decreases self.entries@.len() - i,
        {
            if self.entries[i].0 == key {
                let ghost ki = key@;
                let mut entries = Vec::new();
                std::mem::swap(&mut entries, &mut self.entries);
                entries.set(i, (key, value));
                self.entries = entries;
                proof {
                    assert(self.entries@[i as int].0@ == ki);
                    assert(self.entries@ =~= old_p.entries@.update(i as int, self.entries@[i as int]));
                    assert(old_p.has_name_at(i as int, ki));
                    assert(self.names_unique());
                    assert forall|kk: Seq<char>| #[trigger] self@.contains_key(kk) == old_p@.insert(
                        ki,
                        value@,
                    ).contains_key(kk) by {
                        if exists|j: int| old_p.has_name_at(j, kk) {
                            let j = choose|j: int| old_p.has_name_at(j, kk);
                            assert(self.has_name_at(j, kk));
                        }
                        if kk == ki {
                            assert(self.has_name_at(i as int, kk));
                        }
                        if exists|j: int| self.has_name_at(j, kk) {
                            let j = choose|j: int| self.has_name_at(j, kk);
                            if j != i as int {
                                assert(old_p.has_name_at(j, kk));
                            }
                        }
                    }
                    assert forall|kk: Seq<char>| #[trigger] self@.contains_key(kk) implies self@[kk]
                        == old_p@.insert(ki, value@)[kk] by {
                        let c = choose|j: int| self.has_name_at(j, kk);
                        if kk == ki {
                            if c != i as int {
                                if c < i {
                                    assert(self.entries@[c].0@ != self.entries@[i as int].0@);
                                } else {
                                    assert(self.entries@[i as int].0@ != self.entries@[c].0@);
                                }
                            }
                        } else {
                            assert(old_p.has_name_at(c, kk));
                            let c0 = choose|j: int| old_p.has_name_at(j, kk);
                            if c0 != c {
                                if c0 < c {
                                    assert(old_p.entries@[c0].0@ != old_p.entries@[c].0@);
                                } else {
                                    assert(old_p.entries@[c].0@ != old_p.entries@[c0].0@);
                                }
                            }
                        }
                    }
                    assert(self@ =~= old_p@.insert(ki, value@));
                }
                return;
            }
            i = i + 1;
        }
        let ghost ki = key@;
        let ghost vi = value@;
        let mut entries = Vec::new();
        std::mem::swap(&mut entries, &mut self.entries);
        entries.push((key, value));
        self.entries = entries;
        proof {
            let n = old_p.entries@.len() as int;
            assert(self.names_unique());
            assert forall|kk: Seq<char>| #[trigger] self@.contains_key(kk) == old_p@.insert(
                ki,
                vi,
            ).contains_key(kk) by {
                if exists|j: int| old_p.has_name_at(j, kk) {
                    let j = choose|j: int| old_p.has_name_at(j, kk);
                    assert(self.has_name_at(j, kk));
                }
                if kk == ki {
                    assert(self.has_name_at(n, kk));
                }
                if exists|j: int| self.has_name_at(j, kk) {
                    let j = choose|j: int| self.has_name_at(j, kk);
                    if j < n {
                        assert(old_p.has_name_at(j, kk));
                    }
                }
            }
            assert forall|kk: Seq<char>| #[trigger] self@.contains_key(kk) implies self@[kk]
                == old_p@.insert(ki, vi)[kk] by {
                let c = choose|j: int| self.has_name_at(j, kk);
                if kk == ki {
                    assert(c == n);
                } else {
                    assert(c < n);
                    assert(old_p.has_name_at(c, kk));
                    let c0 = choose|j: int| old_p.has_name_at(j, kk);
                    if c0 != c {
                        if c0 < c {
                            assert(old_p.entries@[c0].0@ != old_p.entries@[c].0@);
                        } else {
                            assert(old_p.entries@[c].0@ != old_p.entries@[c0].0@);
                        }
                    }
                }
            }
            assert(self@ =~= old_p@.insert(ki, vi));
        }
    }
}


impl Clone for Params {
    /// A copy holding the same names and values.
    fn clone(&self) -> (r: Params)
        ensures
            r@ == self@,
    {
        proof {
            use_type_invariant(self);
        }
        let mut entries: Vec<(String, String)> = Vec::new();
        let mut i: usize = 0;
        while i < self.entries.len()
            invariant
                0 <= i <= self.entries@.len(),
                self.names_unique(),
                entries@.len() == i,
                forall|j: int|
                    0 <= j < i ==> (#[trigger] entries@[j]).0@ == self.entries@[j].0@
                        && entries@[j].1@ == self.entries@[j].1@,
            decreases self.entries@.len() - i,
        {
            let k = self.entries[i].0.clone();
            let v = self.entries[i].1.clone();
            entries.push((k, v));
            i = i + 1;
        }
        let r = Params { entries };
        proof {
            assert forall|k: Seq<char>, j: int| r.has_name_at(j, k) == self.has_name_at(j, k) by {}
            assert(r@ =~= self@);
        }
        r
    }
}

} // verus!
