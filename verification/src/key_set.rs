//! A set of key names, as the keyboard handling keeps them.
use vstd::prelude::*;

use crate::text::str_eq;

verus! {

/// A set of key names in which each name occurs at most once.
#[derive(Debug)]
pub struct KeySet {
    keys: Vec<String>,
}

impl View for KeySet {
    type V = Set<Seq<char>>;

    closed spec fn view(&self) -> Set<Seq<char>> {
        Set::new(|k: Seq<char>| exists|i: int| 0 <= i < self.keys@.len() && (#[trigger] self.keys@[i])@ == k)
    }
}

impl KeySet {
    #[verifier::type_invariant]
    spec fn no_duplicates(self) -> bool {
        forall|i: int, j: int|
            0 <= i < j < self.keys@.len() ==> (#[trigger] self.keys@[i])@ != (#[trigger] self.keys@[j])@
    }

    /// An empty set.
    pub fn new() -> (s: KeySet)
        ensures
            s@ == Set::<Seq<char>>::empty(),
    {
        let s = KeySet { keys: Vec::new() };
        assert(s@ =~= Set::<Seq<char>>::empty());
        s
    }

    /// The number of names in the set.
    pub fn len(&self) -> (n: usize)
        ensures
            n == self@.len(),
            self@.finite(),
    {
        proof {
            use_type_invariant(self);
            self.lemma_view_len();
        }
        self.keys.len()
    }

    proof fn lemma_view_len(&self)
        requires
            self.no_duplicates(),
        ensures
            self@.finite(),
            self@.len() == self.keys@.len(),
    {
        let views = self.keys@.map_values(|s: String| s@);
        assert(views.no_duplicates());
        assert forall|x: Seq<char>| #[trigger] self@.contains(x) == views.to_set().contains(x) by {
            if self@.contains(x) {
                let i = choose|i: int| 0 <= i < self.keys@.len() && (#[trigger] self.keys@[i])@ == x;
                assert(views[i] == x);
            }
            if views.contains(x) {
                let i = choose|i: int| 0 <= i < views.len() && views[i] == x;
                assert(self.keys@[i]@ == x);
            }
        }
        assert(self@ =~= views.to_set());
        views.unique_seq_to_set();
    }

    fn position(&self, key: &str) -> (p: Option<usize>)
        ensures
            match p {
                Some(i) => i < self.keys@.len() && self.keys@[i as int]@ == key@,
                None => !self@.contains(key@),
            },
    {
        let mut i: usize = 0;
        while i < self.keys.len()
            invariant
                i <= self.keys@.len(),
                forall|j: int| 0 <= j < i ==> (#[trigger] self.keys@[j])@ != key@,
            decreases self.keys@.len() - i,
        {
            if str_eq(self.keys[i].as_str(), key) {
                return Some(i);
            }
            i = i + 1;
        }
        None
    }

    /// Whether the set holds `key`.
    pub fn contains(&self, key: &str) -> (b: bool)
        ensures
            b == self@.contains(key@),
    {
        match self.position(key) {
            Some(_) => true,
            None => false,
        }
    }

    /// Adds `key`; returns whether it was new.
    pub fn insert(&mut self, key: String) -> (added: bool)
        ensures
            final(self)@ == old(self)@.insert(key@),
            added == !old(self)@.contains(key@),
    {
        proof {
            use_type_invariant(&*self);
        }
        match self.position(key.as_str()) {
            Some(_) => {
                assert(old(self)@.insert(key@) =~= old(self)@);
                false
            },
            None => {
                let ghost k = key@;
                let mut keys = Vec::new();
                std::mem::swap(&mut keys, &mut self.keys);
                keys.push(key);
                *self = KeySet { keys };
                proof {
                    assert forall|x: Seq<char>| #[trigger] self@.contains(x) == old(self)@.insert(k).contains(x) by {
                        if old(self)@.contains(x) {
                            let i = choose|i: int| 0 <= i < old(self).keys@.len() && (#[trigger] old(self).keys@[i])@ == x;
                            assert(self.keys@[i] == old(self).keys@[i]);
                        }
                        if x == k {
                            assert(self.keys@[self.keys@.len() - 1]@ == k);
                        }
                    }
                    assert(self@ =~= old(self)@.insert(k));
                }
                true
            },
        }
    }

    /// Removes `key`; returns whether it was there.
    pub fn remove(&mut self, key: &str) -> (removed: bool)
        ensures
            final(self)@ == old(self)@.remove(key@),
            removed == old(self)@.contains(key@),
    {
        proof {
            use_type_invariant(&*self);
        }
        match self.position(key) {
            None => {
                assert(old(self)@.remove(key@) =~= old(self)@);
                false
            },
            Some(i) => {
                let mut keys = Vec::new();
                std::mem::swap(&mut keys, &mut self.keys);
                let ghost before = keys@;
                keys.swap_remove(i);
                let ghost after = keys@;
                proof {
                    assert forall|a: int, b: int| 0 <= a < b < after.len() implies (#[trigger] after[a])@ != (#[trigger] after[b])@ by {
                        let ia = if a == i && i < before.len() - 1 { before.len() - 1 } else { a };
                        let ib = if b == i && i < before.len() - 1 { before.len() - 1 } else { b };
                        assert(after[a] == before[ia]);
                        assert(after[b] == before[ib]);
                        assert(ia != ib);
                        if ia < ib {
                            assert(before[ia]@ != before[ib]@);
                        } else {
                            assert(before[ib]@ != before[ia]@);
                        }
                    }
                }
                *self = KeySet { keys };
                proof {
                    assert forall|x: Seq<char>| #[trigger] self@.contains(x) == old(self)@.remove(key@).contains(x) by {
                        if self@.contains(x) {
                            let j = choose|j: int| 0 <= j < after.len() && (#[trigger] after[j])@ == x;
                            let oj = if j == i && i < before.len() - 1 { before.len() - 1 } else { j };
                            assert(after[j] == before[oj]);
                            assert(oj != i);
                            assert(before[oj]@ != before[i as int]@);
                        }
                        if old(self)@.remove(key@).contains(x) {
                            let j = choose|j: int| 0 <= j < before.len() && (#[trigger] before[j])@ == x;
                            assert(j != i);
                            if j == before.len() - 1 {
                                assert(after[i as int] == before[j]);
                            } else {
                                assert(after[j] == before[j]);
                            }
                        }
                    }
                    assert(self@ =~= old(self)@.remove(key@));
                }
                true
            },
        }
    }
}

} // verus!
