use vstd::prelude::*;
use crate::types::Subscription;

verus! {

/// The active subscriptions, at most one per identifier.
pub struct SubscriptionRegistry {
    subs: Vec<Subscription>,
    entries: Ghost<Map<Seq<char>, Seq<char>>>,
}

impl View for SubscriptionRegistry {
    type V = Map<Seq<char>, Seq<char>>;

    closed spec fn view(&self) -> Map<Seq<char>, Seq<char>> {
        self.entries@
    }
}

impl SubscriptionRegistry {
    /// Each stored subscription has its own identifier, and the map lists
    /// exactly the stored pairs.
    pub closed spec fn wf(&self) -> bool {
        &&& forall|i: int, j: int|
            0 <= i < j < self.subs@.len() ==> self.subs@[i].id@ != self.subs@[j].id@
        &&& forall|i: int|
            0 <= i < self.subs@.len() ==> #[trigger] self.entries@.contains_key(self.subs@[i].id@)
                && self.entries@[self.subs@[i].id@] == self.subs@[i].filter@
        &&& forall|k: Seq<char>|
            #[trigger] self.entries@.contains_key(k) ==> exists|i: int|
                0 <= i < self.subs@.len() && self.subs@[i].id@ == k
    }

    pub fn new() -> (r: SubscriptionRegistry)
        ensures
            r.wf(),
            r@ == Map::<Seq<char>, Seq<char>>::empty(),
    {
        SubscriptionRegistry { subs: Vec::new(), entries: Ghost(Map::empty()) }
    }

    fn position(&self, id: &String) -> (r: Option<usize>)
        requires
            self.wf(),
        ensures
            match r {
                Some(i) => i < self.subs@.len() && self.subs@[i as int].id@ == id@,
                None => !self@.contains_key(id@),
            },
    {
        let mut i: usize = 0;
        while i < self.subs.len()
            invariant
                self.wf(),
                0 <= i <= self.subs@.len(),
                forall|j: int| 0 <= j < i ==> self.subs@[j].id@ != id@,
            decreases self.subs@.len() - i,
        {
            if self.subs[i].id == *id {
                return Some(i);
            }
            i += 1;
        }
        proof {
            if self@.contains_key(id@) {
                let j = choose|j: int| 0 <= j < self.subs@.len() && self.subs@[j].id@ == id@;
                assert(self.subs@[j].id@ != id@);
            }
        }
        None
    }

    pub fn contains(&self, id: &String) -> (r: bool)
        requires
            self.wf(),
        ensures
            r == self@.contains_key(id@),
    {
        match self.position(id) {
            Some(_) => true,
            None => false,
        }
    }

    /// The filter registered under `id`.
    pub fn filter_of(&self, id: &String) -> (r: Option<String>)
        requires
            self.wf(),
        ensures
            match r {
                Some(f) => self@.contains_key(id@) && f@ == self@[id@],
                None => !self@.contains_key(id@),
            },
    {
        match self.position(id) {
            Some(i) => {
                assert(self@.contains_key(self.subs@[i as int].id@));
                Some(self.subs[i].filter.clone())
            },
            None => None,
        }
    }

    pub fn len(&self) -> (r: usize)
        requires
            self.wf(),
        ensures
            r == self@.len(),
    {
        proof {
            self.lemma_len();
        }
        self.subs.len()
    }

    proof fn lemma_len(&self)
        requires
            self.wf(),
        ensures
            self@.dom().finite(),
            self@.len() == self.subs@.len(),
        decreases self.subs@.len(),
    {
        let ids = self.subs@.map_values(|s: Subscription| s.id@);
        assert(ids.no_duplicates()) by {
            assert forall|i: int, j: int|
                0 <= i < ids.len() && 0 <= j < ids.len() && i != j implies ids[i] != ids[j] by {
                if i < j {
                } else {
                }
            }
        }
        assert forall|k: Seq<char>| #[trigger] self@.dom().contains(k) == ids.to_set().contains(k) by {
            if self@.dom().contains(k) {
                let i = choose|i: int| 0 <= i < self.subs@.len() && self.subs@[i].id@ == k;
                assert(ids[i] == k);
            }
            if ids.to_set().contains(k) {
                let i = choose|i: int| 0 <= i < ids.len() && ids[i] == k;
                assert(self@.contains_key(self.subs@[i].id@));
            }
        }
        assert(self@.dom() =~= ids.to_set());
        ids.unique_seq_to_set();
    }

    /// Registers `sub`, replacing any subscription with the same identifier.
    pub fn insert(&mut self, sub: Subscription)
        requires
            old(self).wf(),
        ensures
            final(self).wf(),
            final(self)@ == old(self)@.insert(sub.id@, sub.filter@),
    {
        let ghost key = sub.id@;
        let ghost val = sub.filter@;
        match self.position(&sub.id) {
            Some(i) => {
                self.subs.set(i, sub);
                self.entries = Ghost(self.entries@.insert(key, val));
                assert forall|k: Seq<char>| #[trigger] self.entries@.contains_key(k) implies exists|j: int|
                    0 <= j < self.subs@.len() && self.subs@[j].id@ == k by {
                    if k != key {
                        let j = choose|j: int|
                            0 <= j < old(self).subs@.len() && old(self).subs@[j].id@ == k;
                        assert(self.subs@[j].id@ == k);
                    } else {
                        assert(self.subs@[i as int].id@ == k);
                    }
                }
            },
            None => {
                self.subs.push(sub);
                self.entries = Ghost(self.entries@.insert(key, val));
                let ghost n = self.subs@.len() - 1;
                assert forall|k: Seq<char>| #[trigger] self.entries@.contains_key(k) implies exists|j: int|
                    0 <= j < self.subs@.len() && self.subs@[j].id@ == k by {
                    if k != key {
                        let j = choose|j: int|
                            0 <= j < old(self).subs@.len() && old(self).subs@[j].id@ == k;
                        assert(self.subs@[j].id@ == k);
                    } else {
                        assert(self.subs@[n].id@ == k);
                    }
                }
                assert forall|a: int, b: int|
                    0 <= a < b < self.subs@.len() implies self.subs@[a].id@ != self.subs@[b].id@ by {
                    if b == n {
                        assert(old(self).entries@.contains_key(old(self).subs@[a].id@));
                    }
                }
            },
        }
    }

    /// Removes the subscription `id`; tells whether there was one. Removing an
    /// absent identifier changes nothing.
    pub fn remove(&mut self, id: &String) -> (r: bool)
        requires
            old(self).wf(),
        ensures
            final(self).wf(),
            r == old(self)@.contains_key(id@),
            final(self)@ == old(self)@.remove(id@),
    {
        match self.position(id) {
            Some(i) => {
                let ghost key = id@;
                let ghost olds = self.subs@;
                self.subs.remove(i);
                self.entries = Ghost(self.entries@.remove(key));
                assert forall|j: int| 0 <= j < self.subs@.len() implies
                    #[trigger] self.entries@.contains_key(self.subs@[j].id@)
                    && self.entries@[self.subs@[j].id@] == self.subs@[j].filter@ by {
                    if j < i {
                        assert(self.subs@[j] == olds[j]);
                        assert(olds[j].id@ != olds[i as int].id@);
                        assert(old(self).entries@.contains_key(olds[j].id@));
                    } else {
                        assert(self.subs@[j] == olds[j + 1]);
                        assert(olds[i as int].id@ != olds[j + 1].id@);
                        assert(old(self).entries@.contains_key(olds[j + 1].id@));
                    }
                }
                assert forall|k: Seq<char>| #[trigger] self.entries@.contains_key(k) implies exists|j: int|
                    0 <= j < self.subs@.len() && self.subs@[j].id@ == k by {
                    let j = choose|j: int| 0 <= j < olds.len() && olds[j].id@ == k;
                    if j < i {
                        assert(self.subs@[j] == olds[j]);
                    } else {
                        assert(j != i);
                        assert(self.subs@[j - 1] == olds[j]);
                    }
                }
                assert forall|a: int, b: int|
                    0 <= a < b < self.subs@.len() implies self.subs@[a].id@ != self.subs@[b].id@ by {
                    let oa = if a < i { a } else { a + 1 };
                    let ob = if b < i { b } else { b + 1 };
                    assert(self.subs@[a] == olds[oa]);
                    assert(self.subs@[b] == olds[ob]);
                }
                true
            },
            None => {
                assert(self.entries@ =~= self.entries@.remove(id@));
                false
            },
        }
    }
}

} // verus!
