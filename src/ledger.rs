use vstd::prelude::*;

verus! {

/// The identifiers of every note already handed to the consumer.
///
/// Entries are only ever added: the ledger lives as long as its pool.
pub struct DedupLedger {
    ids: Vec<String>,
}

impl View for DedupLedger {
    type V = Set<Seq<char>>;

    closed spec fn view(&self) -> Set<Seq<char>> {
        Set::new(|x: Seq<char>| exists|i: int| 0 <= i < self.ids@.len() && self.ids@[i]@ == x)
    }
}

impl DedupLedger {
    pub fn new() -> (r: DedupLedger)
        ensures
            r@ == Set::<Seq<char>>::empty(),
    {
        let r = DedupLedger { ids: Vec::new() };
        assert(r@ =~= Set::<Seq<char>>::empty());
        r
    }

    /// Whether `id` has been marked.
    pub fn seen(&self, id: &String) -> (r: bool)
        ensures
            r == self@.contains(id@),
    {
        let mut i: usize = 0;
        while i < self.ids.len()
            invariant
                0 <= i <= self.ids@.len(),
                forall|j: int| 0 <= j < i ==> self.ids@[j]@ != id@,
            decreases self.ids@.len() - i,
        {
            if self.ids[i] == *id {
                assert(self@.contains(id@));
                return true;
            }
            i += 1;
        }
        false
    }

    /// Marks `id`, and tells whether it was new: the check and the mark are one step.
    pub fn check_and_mark(&mut self, id: &String) -> (fresh: bool)
        ensures
            fresh == !old(self)@.contains(id@),
            final(self)@ == old(self)@.insert(id@),
    {
        if self.seen(id) {
            assert(self@ =~= self@.insert(id@));
            false
        } else {
            let ghost before = self@;
            self.ids.push(id.clone());
            assert forall|x: Seq<char>| #[trigger] self@.contains(x) == before.insert(id@).contains(x) by {
                if x == id@ {
                    assert(self.ids@[self.ids@.len() - 1]@ == x);
                }
                if before.contains(x) {
                    let i = choose|i: int| 0 <= i < old(self).ids@.len() && old(self).ids@[i]@ == x;
                    assert(self.ids@[i]@ == x);
                }
            }
            assert(self@ =~= before.insert(id@));
            true
        }
    }
}

} // verus!
