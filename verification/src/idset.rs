//! Finite sets of identities, kept in the order in which members were first added.

use vstd::prelude::*;
use crate::id::Id;

verus! {

/// A finite set of identities.
///
/// The members are held in a vector in which nothing occurs twice; the view is the set
/// of its elements, and [`IdSet::order`] is the sequence in which they were first added.
#[derive(Debug)]
pub struct IdSet {
    items: Vec<Id>,
}

impl View for IdSet {
    type V = Set<Id>;

    closed spec fn view(&self) -> Set<Id> {
        self.items@.to_set()
    }
}

impl IdSet {
    #[verifier::type_invariant]
    spec fn distinct(self) -> bool {
        self.items@.no_duplicates()
    }

    /// The members in the order in which they were first added.
    pub closed spec fn order(&self) -> Seq<Id> {
        self.items@
    }

    /// Whether `s` lists exactly the members of `m`, each once.
    pub open spec fn lists(s: Seq<Id>, m: Set<Id>) -> bool {
        &&& s.no_duplicates()
        &&& s.to_set() == m
        &&& m.finite()
        &&& m.len() == s.len()
    }

    /// The empty set.
    pub fn new() -> (s: IdSet)
        ensures
            s@ == Set::<Id>::empty(),
            s.order() == Seq::<Id>::empty(),
    {
        let s = IdSet { items: Vec::new() };
        assert(s.items@.to_set() =~= Set::<Id>::empty());
        s
    }

    /// Whether `id` is a member.
    pub fn contains(&self, id: &Id) -> (r: bool)
        ensures
            r == self@.contains(*id),
    {
        let mut i: usize = 0;
        while i < self.items.len()
            invariant
                i <= self.items.len(),
                forall|j: int| 0 <= j < i ==> self.items@[j] != *id,
            decreases self.items.len() - i,
        {
            if self.items[i] == *id {
                return true;
            }
            i += 1;
        }
        false
    }

    /// The number of members.
    pub fn len(&self) -> (n: usize)
        ensures
            n == self@.len(),
            self@.finite(),
    {
        proof {
            use_type_invariant(self);
            self.items@.unique_seq_to_set();
        }
        self.items.len()
    }

    /// Whether the set has no member.
    pub fn is_empty(&self) -> (r: bool)
        ensures
            r == (self@.len() == 0),
            r == (self@ == Set::<Id>::empty()),
            self@.finite(),
    {
        proof {
            use_type_invariant(self);
            self.items@.unique_seq_to_set();
            if self.items@.len() == 0 {
                assert(self.items@.to_set() =~= Set::<Id>::empty());
            } else {
                assert(self.items@.to_set().contains(self.items@[0]));
            }
        }
        self.items.len() == 0
    }

    /// Adds `id`; says whether it was new. A new member goes to the end of the order.
    pub fn insert(&mut self, id: Id) -> (fresh: bool)
        ensures
            final(self)@ == old(self)@.insert(id),
            fresh == !old(self)@.contains(id),
            final(self).order() == if fresh {
                old(self).order().push(id)
            } else {
                old(self).order()
            },
    {
        proof {
            use_type_invariant(&*self);
        }
        if self.contains(&id) {
            assert(self.items@.to_set().insert(id) =~= self.items@.to_set());
            false
        } else {
            let ghost before = self.items@;
            let mut items = self.to_vec();
            items.push(id);
            proof {
                assert(items@ == before.push(id));
                assert forall|i: int, j: int|
                    0 <= i < items@.len() && 0 <= j < items@.len() && i != j implies items@[i]
                    != items@[j] by {
                    if i < before.len() && j < before.len() {
                        assert(before[i] != before[j]);
                    } else if i < before.len() {
                        assert(before.to_set().contains(before[i]));
                    } else {
                        assert(before.to_set().contains(before[j]));
                    }
                }
            }
            self.items = items;
            proof {
                assert(self.items@ == before.push(id));
                assert forall|i: int, j: int|
                    0 <= i < self.items@.len() && 0 <= j < self.items@.len() && i != j implies self.items@[i]
                    != self.items@[j] by {
                    if i < before.len() && j < before.len() {
                        assert(before[i] != before[j]);
                    } else if i < before.len() {
                        assert(before.to_set().contains(before[i]));
                    } else {
                        assert(before.to_set().contains(before[j]));
                    }
                }
                assert(self.items@.to_set() =~= before.to_set().insert(id)) by {
                    assert forall|x: Id| self.items@.to_set().contains(x) implies before.to_set().insert(
                        id,
                    ).contains(x) by {
                        let k = choose|k: int| 0 <= k < self.items@.len() && self.items@[k] == x;
                        if k < before.len() {
                            assert(before[k] == x);
                        }
                    }
                    assert forall|x: Id| before.to_set().insert(id).contains(x) implies self.items@.to_set().contains(
                        x,
                    ) by {
                        if x == id {
                            assert(self.items@[before.len() as int] == x);
                        } else {
                            let k = choose|k: int| 0 <= k < before.len() && before[k] == x;
                            assert(self.items@[k] == x);
                        }
                    }
                }
            }
            true
        }
    }

    /// Takes `id` out; says whether it was a member.
    pub fn remove(&mut self, id: &Id) -> (found: bool)
        ensures
            final(self)@ == old(self)@.remove(*id),
            found == old(self)@.contains(*id),
    {
        proof {
            use_type_invariant(&*self);
        }
        let mut i: usize = 0;
        while i < self.items.len()
            invariant
                i <= self.items.len(),
                self.items@ == old(self).items@,
                self.items@.no_duplicates(),
                forall|j: int| 0 <= j < i ==> self.items@[j] != *id,
            decreases self.items.len() - i,
        {
            if self.items[i] == *id {
                let ghost before = self.items@;
                let mut items = self.to_vec();
                items.remove(i);
                proof {
                    assert(items@ == before.remove(i as int));
                    assert forall|a: int, b: int|
                        0 <= a < items@.len() && 0 <= b < items@.len() && a != b implies items@[a]
                        != items@[b] by {
                        let a0 = if a < i { a } else { a + 1 };
                        let b0 = if b < i { b } else { b + 1 };
                        assert(items@[a] == before[a0]);
                        assert(items@[b] == before[b0]);
                    }
                    assert(items@.to_set() =~= before.to_set().remove(*id)) by {
                        assert forall|x: Id| items@.to_set().contains(x) implies before.to_set().remove(
                            *id,
                        ).contains(x) by {
                            let k = choose|k: int| 0 <= k < items@.len() && items@[k] == x;
                            let k0 = if k < i { k } else { k + 1 };
                            assert(before[k0] == x);
                            assert(k0 != i);
                        }
                        assert forall|x: Id| before.to_set().remove(*id).contains(x) implies items@.to_set().contains(
                            x,
                        ) by {
                            let k = choose|k: int| 0 <= k < before.len() && before[k] == x;
                            let k1 = if k < i { k } else { k - 1 };
                            assert(items@[k1] == x);
                        }
                    }
                }
                self.items = items;
                return true;
            }
            i += 1;
        }
        assert(self.items@.to_set().remove(*id) =~= self.items@.to_set());
        false
    }

    /// The set of the identities in `ids`; one that occurs again is ignored.
    pub fn from_ids(ids: &Vec<Id>) -> (s: IdSet)
        ensures
            s@ == ids@.to_set(),
    {
        let mut s = IdSet::new();
        let mut i: usize = 0;
        while i < ids.len()
            invariant
                i <= ids.len(),
                s@ == ids@.take(i as int).to_set(),
            decreases ids.len() - i,
        {
            s.insert(ids[i]);
            proof {
                assert(ids@.take(i + 1) == ids@.take(i as int).push(ids@[i as int]));
                assert(ids@.take(i as int).push(ids@[i as int]).to_set() =~= ids@.take(i as int).to_set().insert(
                    ids@[i as int],
                )) by {
                    let a = ids@.take(i as int);
                    let x = ids@[i as int];
                    assert forall|y: Id| a.push(x).to_set().contains(y) implies a.to_set().insert(x).contains(
                        y,
                    ) by {
                        let k = choose|k: int| 0 <= k < a.push(x).len() && a.push(x)[k] == y;
                        if k < a.len() {
                            assert(a[k] == y);
                        }
                    }
                    assert forall|y: Id| a.to_set().insert(x).contains(y) implies a.push(x).to_set().contains(
                        y,
                    ) by {
                        if y == x {
                            assert(a.push(x)[a.len() as int] == y);
                        } else {
                            let k = choose|k: int| 0 <= k < a.len() && a[k] == y;
                            assert(a.push(x)[k] == y);
                        }
                    }
                }
            }
            i += 1;
        }
        assert(ids@.take(ids.len() as int) == ids@);
        s
    }

    /// The members as a vector, in their order.
    pub fn to_vec(&self) -> (v: Vec<Id>)
        ensures
            v@ == self.order(),
            IdSet::lists(v@, self@),
    {
        proof {
            use_type_invariant(self);
            self.items@.unique_seq_to_set();
        }
        let mut v: Vec<Id> = Vec::new();
        let mut i: usize = 0;
        while i < self.items.len()
            invariant
                i <= self.items.len(),
                v@ == self.items@.take(i as int),
            decreases self.items.len() - i,
        {
            v.push(self.items[i]);
            proof {
                assert(self.items@.take(i + 1) == self.items@.take(i as int).push(self.items@[i as int]));
            }
            i += 1;
        }
        assert(self.items@.take(self.items.len() as int) == self.items@);
        v
    }

    /// A copy of the set, with the same members in the same order.
    pub fn duplicate(&self) -> (s: IdSet)
        ensures
            s@ == self@,
            s.order() == self.order(),
    {
        proof {
            use_type_invariant(self);
        }
        let v = self.to_vec();
        IdSet { items: v }
    }
}

impl Clone for IdSet {
    fn clone(&self) -> (s: IdSet)
        ensures
            s@ == self@,
            s.order() == self.order(),
    {
        self.duplicate()
    }
}

impl Default for IdSet {
    fn default() -> (s: IdSet)
        ensures
            s@ == Set::<Id>::empty(),
    {
        IdSet::new()
    }
}

} // verus!
