//! The table of the deployments that are under way, by artifact id.
//!
//! A deployment may start only while no other deployment of the same
//! artifact is in the table; deployments of different artifacts do not
//! hinder each other.

use vstd::prelude::*;

verus! {

/// The ids of the artifacts whose deployment is under way.
#[derive(Debug)]
pub struct InFlight {
    ids: Vec<String>,
}

impl View for InFlight {
    type V = Set<Seq<char>>;

    closed spec fn view(&self) -> Set<Seq<char>> {
        Set::new(|id: Seq<char>| self.ids.deep_view().contains(id))
    }
}

/// Whether a deployment of `id` may start, given the ids under way.
pub open spec fn may_start(under_way: Set<Seq<char>>, id: Seq<char>) -> bool {
    !under_way.contains(id)
}

/// Of two requests for one artifact, the first to come starts and the
/// other is refused for as long as the first is under way; a request for
/// another artifact is answered as if the first were not there; and once a
/// deployment has ended, its artifact can be deployed again.
pub proof fn lemma_one_at_a_time(under_way: Set<Seq<char>>, first: Seq<char>, second: Seq<char>)
    ensures
        !may_start(under_way.insert(first), first),
        first != second ==> may_start(under_way.insert(first), second) == may_start(
            under_way,
            second,
        ),
        may_start(under_way.insert(first).remove(first), first),
{
}

impl InFlight {
    /// A table with no deployment under way.
    pub fn new() -> (table: InFlight)
        ensures
            table@ == Set::<Seq<char>>::empty(),
    {
        let table = InFlight { ids: Vec::new() };
        assert(table@ =~= Set::<Seq<char>>::empty());
        table
    }

    /// Whether a deployment of the artifact is under way.
    pub fn holds(&self, id: &str) -> (yes: bool)
        ensures
            yes == self@.contains(id@),
    {
        let wanted = String::from_str(id);
        let ghost all = self.ids.deep_view();
        let mut i: usize = 0;
        while i < self.ids.len()
            invariant
                i <= self.ids@.len(),
                wanted@ == id@,
                all == self.ids.deep_view(),
                forall|k: int| 0 <= k < i ==> all[k] != id@,
            decreases self.ids@.len() - i,
        {
            assert(all[i as int] == self.ids@[i as int]@);
            if self.ids[i] == wanted {
                return true;
            }
            i += 1;
        }
        false
    }

    /// Enters the artifact, where no deployment of it is under way, and
    /// says whether it did.
    pub fn acquire(&mut self, id: &str) -> (granted: bool)
        ensures
            granted == may_start(old(self)@, id@),
            final(self)@ == old(self)@.insert(id@),
    {
        if self.holds(id) {
            assert(self@ =~= self@.insert(id@));
            return false;
        }
        let ghost before = self.ids.deep_view();
        self.ids.push(String::from_str(id));
        proof {
            assert(self.ids.deep_view() =~= before.push(id@));
            assert forall|other: Seq<char>| self@.contains(other) == old(self)@.insert(
                id@,
            ).contains(other) by {
                if before.push(id@).contains(other) {
                    let k = choose|k: int|
                        0 <= k < before.push(id@).len() && before.push(id@)[k] == other;
                    if k < before.len() {
                        assert(before[k] == other);
                    }
                }
                if before.contains(other) {
                    let k = choose|k: int| 0 <= k < before.len() && before[k] == other;
                    assert(before.push(id@)[k] == other);
                }
                if other == id@ {
                    assert(before.push(id@)[before.len() as int] == other);
                }
            }
            assert(self@ =~= old(self)@.insert(id@));
        }
        true
    }

    /// Takes the artifact out of the table.
    pub fn release(&mut self, id: &str)
        ensures
            final(self)@ == old(self)@.remove(id@),
    {
        let wanted = String::from_str(id);
        let ghost all = self.ids.deep_view();
        let mut rest: Vec<String> = Vec::new();
        let mut i: usize = 0;
        while i < self.ids.len()
            invariant
                i <= self.ids@.len(),
                wanted@ == id@,
                all == self.ids.deep_view(),
                forall|k: int| 0 <= k < rest@.len() ==> (#[trigger] rest@[k])@ != id@,
                forall|k: int|
                    0 <= k < rest@.len() ==> all.subrange(0, i as int).contains(
                        (#[trigger] rest@[k])@,
                    ),
                forall|k: int|
                    0 <= k < i && (#[trigger] all[k]) != id@ ==> rest.deep_view().contains(all[k]),
            decreases self.ids@.len() - i,
        {
            assert(all[i as int] == self.ids@[i as int]@);
            let ghost kept = rest.deep_view();
            if self.ids[i] != wanted {
                rest.push(self.ids[i].clone());
                proof {
                    let grown = rest.deep_view();
                    assert(grown =~= kept.push(all[i as int]));
                    assert forall|k: int| 0 <= k < i + 1 && (#[trigger] all[k]) != id@ implies grown.contains(
                        all[k],
                    ) by {
                        if k < i {
                            let j = choose|j: int| 0 <= j < kept.len() && kept[j] == all[k];
                            assert(grown[j] == all[k]);
                        } else {
                            assert(grown[kept.len() as int] == all[k]);
                        }
                    }
                }
            }
            proof {
                assert forall|k: int| 0 <= k < rest@.len() implies all.subrange(
                    0,
                    i + 1,
                ).contains((#[trigger] rest@[k])@) by {
                    if k < kept.len() {
                        assert(rest@[k]@ == kept[k]);
                        let j = choose|j: int|
                            0 <= j < all.subrange(0, i as int).len() && all.subrange(
                                0,
                                i as int,
                            )[j] == kept[k];
                        assert(all.subrange(0, i + 1)[j] == kept[k]);
                    } else {
                        assert(all.subrange(0, i + 1)[i as int] == rest@[k]@);
                    }
                }
            }
            i += 1;
        }
        proof {
            let left = rest.deep_view();
            assert forall|other: Seq<char>| left.contains(other) == old(self)@.remove(id@).contains(
                other,
            ) by {
                if left.contains(other) {
                    let k = choose|k: int| 0 <= k < left.len() && left[k] == other;
                    assert(rest@[k]@ == other);
                    let j = choose|j: int|
                        0 <= j < all.subrange(0, i as int).len() && all.subrange(0, i as int)[j]
                            == rest@[k]@;
                    assert(all[j] == other);
                }
                if old(self)@.remove(id@).contains(other) {
                    let j = choose|j: int| 0 <= j < all.len() && all[j] == other;
                    assert(left.contains(all[j]));
                }
            }
        }
        self.ids = rest;
        assert(self@ =~= old(self)@.remove(id@));
    }
}

} // verus!
