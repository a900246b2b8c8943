//! Finite sets of coordinates.

use vstd::prelude::*;
use crate::coord::Coord;

verus! {

/// A finite set of coordinates. Its view is the mathematical set of its
/// members. The order in which `members` lists them is not part of its
/// meaning.
#[derive(Debug)]
pub struct CoordSet {
    items: Vec<Coord>,
}

impl View for CoordSet {
    type V = Set<Coord>;

    closed spec fn view(&self) -> Set<Coord> {
        self.items@.to_set()
    }
}

/// Taking the element at `i` out of a sequence without repetition leaves a
/// sequence without repetition whose set lacks exactly that element.
proof fn lemma_remove_distinct(s: Seq<Coord>, i: int)
    requires
        s.no_duplicates(),
        0 <= i < s.len(),
    ensures
        s.remove(i).no_duplicates(),
        s.remove(i).to_set() == s.to_set().remove(s[i]),
{
    let r = s.remove(i);
    assert forall|a: int, b: int| 0 <= a < r.len() && 0 <= b < r.len() && a != b implies r[a]
        != r[b] by {
        let a0 = if a < i { a } else { a + 1 };
        let b0 = if b < i { b } else { b + 1 };
        assert(r[a] == s[a0] && r[b] == s[b0]);
    }
    assert forall|c: Coord| r.to_set().contains(c) <==> s.to_set().remove(s[i]).contains(c) by {
        if r.to_set().contains(c) {
            let a = choose|a: int| 0 <= a < r.len() && r[a] == c;
            let a0 = if a < i { a } else { a + 1 };
            assert(s[a0] == c);
            assert(s.contains(c));
        }
        if s.to_set().remove(s[i]).contains(c) {
            let a0 = choose|a0: int| 0 <= a0 < s.len() && s[a0] == c;
            assert(a0 != i);
            let a = if a0 < i { a0 } else { a0 - 1 };
            assert(r[a] == c);
            assert(r.contains(c));
        }
    }
    assert(r.to_set() =~= s.to_set().remove(s[i]));
}

impl CoordSet {
    #[verifier::type_invariant]
    spec fn each_held_once(self) -> bool {
        self.items@.no_duplicates()
    }

    /// Every set of this type is finite.
    pub proof fn lemma_finite(self)
        ensures
            self@.finite(),
    {
        vstd::seq_lib::seq_to_set_is_finite(self.items@);
    }

    /// The empty set.
    pub fn new() -> (s: CoordSet)
        ensures
            s@ == Set::<Coord>::empty(),
    {
        let s = CoordSet { items: Vec::new() };
        assert(s.items@.to_set() =~= Set::<Coord>::empty());
        s
    }

    /// The number of members.
    pub fn len(&self) -> (n: usize)
        ensures
            n == self@.len(),
    {
        proof {
            use_type_invariant(self);
            self.items@.unique_seq_to_set();
        }
        self.items.len()
    }

    /// Whether the set has no member.
    pub fn is_empty(&self) -> (empty: bool)
        ensures
            empty == (self@ == Set::<Coord>::empty()),
    {
        proof {
            if self.items@.len() == 0 {
                assert(self.items@.to_set() =~= Set::<Coord>::empty());
            } else {
                assert(self.items@.contains(self.items@[0]));
                assert(self.items@.to_set().contains(self.items@[0]));
            }
        }
        self.items.len() == 0
    }

    /// The members, each once.
    pub fn members(&self) -> (v: &Vec<Coord>)
        ensures
            v@.no_duplicates(),
            v@.to_set() == self@,
    {
        proof {
            use_type_invariant(self);
        }
        &self.items
    }

    /// Where `coord` is held, if it is a member.
    fn position(&self, coord: &Coord) -> (at: Option<usize>)
        ensures
            match at {
                Some(i) => i < self.items@.len() && self.items@[i as int] == *coord,
                None => !self@.contains(*coord),
            },
    {
        let mut i: usize = 0;
        while i < self.items.len()
            invariant
                i <= self.items.len(),
                forall|j: int| 0 <= j < i ==> self.items@[j] != *coord,
            decreases self.items.len() - i,
        {
            if self.items[i] == *coord {
                return Some(i);
            }
            i += 1;
        }
        None
    }

    /// Whether `coord` is a member.
    pub fn contains(&self, coord: &Coord) -> (found: bool)
        ensures
            found == self@.contains(*coord),
    {
        let at = self.position(coord);
        proof {
            if let Some(i) = at {
                assert(self.items@.contains(*coord));
            }
        }
        at.is_some()
    }

    /// Puts `coord` in; says whether it was new.
    pub fn insert(&mut self, coord: Coord) -> (fresh: bool)
        ensures
            final(self)@ == old(self)@.insert(coord),
            fresh == !old(self)@.contains(coord),
    {
        if self.contains(&coord) {
            assert(self@.insert(coord) =~= self@);
            false
        } else {
            self.insert_new(coord);
            true
        }
    }

    /// Puts in a coordinate that is known not to be a member, without
    /// searching for it.
    pub fn insert_new(&mut self, coord: Coord)
        requires
            !old(self)@.contains(coord),
        ensures
            final(self)@ == old(self)@.insert(coord),
    {
        proof {
            use_type_invariant(&*self);
            self.items@.lemma_push_to_set_commute(coord);
        }
        let mut items = Vec::new();
        std::mem::swap(&mut items, &mut self.items);
        items.push(coord);
        self.items = items;
    }

    /// Takes `coord` out; says whether it was a member.
    pub fn remove(&mut self, coord: &Coord) -> (was_member: bool)
        ensures
            final(self)@ == old(self)@.remove(*coord),
            was_member == old(self)@.contains(*coord),
    {
        proof {
            use_type_invariant(&*self);
        }
        match self.position(coord) {
            Some(i) => {
                proof {
                    assert(self.items@.contains(*coord));
                    lemma_remove_distinct(self.items@, i as int);
                }
                let mut items = Vec::new();
                std::mem::swap(&mut items, &mut self.items);
                items.remove(i);
                self.items = items;
                true
            },
            None => {
                assert(self@.remove(*coord) =~= self@);
                false
            },
        }
    }
}

impl Clone for CoordSet {
    fn clone(&self) -> (copy: CoordSet)
        ensures
            copy@ == self@,
    {
        proof {
            use_type_invariant(self);
        }
        let items = self.items.clone();
        assert(items@ =~= self.items@);
        CoordSet { items }
    }
}

} // verus!
