//! A small set of characters, stored without repetition.
//!
//! The set is meant for alphabets of at most a few hundred characters, so it
//! keeps its members in a vector and searches it linearly. What callers see
//! is the mathematical set of members; the order in which members are stored
//! or handed out is not part of any contract.

use crate::classes::CharClass;
use vstd::prelude::*;

verus! {

/// A finite set of characters.
#[derive(Debug)]
pub struct CharSet {
    items: Vec<char>,
}

impl View for CharSet {
    type V = Set<char>;

    closed spec fn view(&self) -> Set<char> {
        self.items@.to_set()
    }
}

impl CharSet {
    /// No character is stored twice.
    #[verifier::type_invariant]
    spec fn distinct(&self) -> bool {
        self.items@.no_duplicates()
    }

    /// The empty set.
    pub fn new() -> (s: CharSet)
        ensures
            s@ == Set::<char>::empty(),
    {
        let s = CharSet { items: Vec::new() };
        assert(s.items@.to_set() =~= Set::<char>::empty());
        s
    }

    /// Index of `c` in the backing vector, if it is a member.
    fn position(&self, c: char) -> (r: Option<usize>)
        ensures
            match r {
                Some(i) => i < self.items@.len() && self.items@[i as int] == c,
                None => !self.items@.contains(c),
            },
    {
        let mut i: usize = 0;
        while i < self.items.len()
            invariant
                i <= self.items@.len(),
                forall|j: int| 0 <= j < i ==> self.items@[j] != c,
            decreases self.items@.len() - i,
        {
            if self.items[i] == c {
                return Some(i);
            }
            i += 1;
        }
        None
    }

    /// Number of members.
    pub fn len(&self) -> (n: usize)
        ensures
            n == self@.len(),
    {
        proof {
            use_type_invariant(self);
            self.items@.unique_seq_to_set();
        }
        self.items.len()
    }

    /// Whether the set has no member.
    pub fn is_empty(&self) -> (b: bool)
        ensures
            b == self@.is_empty(),
    {
        proof {
            if self.items@.len() > 0 {
                assert(self.items@.to_set().contains(self.items@[0]));
            }
        }
        self.items.len() == 0
    }

    /// Whether `c` is a member.
    pub fn contains(&self, c: &char) -> (b: bool)
        ensures
            b == self@.contains(*c),
    {
        self.position(*c).is_some()
    }

    /// Adds `c`. Returns `true` when `c` was not a member before.
    pub fn insert(&mut self, c: char) -> (fresh: bool)
        ensures
            final(self)@ == old(self)@.insert(c),
            fresh == !old(self)@.contains(c),
    {
        proof {
            use_type_invariant(&*self);
        }
        match self.position(c) {
            Some(_) => {
                assert(self.items@.to_set().insert(c) =~= self.items@.to_set());
                false
            },
            None => {
                let mut items: Vec<char> = Vec::new();
                std::mem::swap(&mut items, &mut self.items);
                proof {
                    items@.lemma_push_to_set_commute(c);
                }
                items.push(c);
                self.items = items;
                true
            },
        }
    }

    /// Removes `c`. Returns `true` when `c` was a member before.
    pub fn remove(&mut self, c: &char) -> (present: bool)
        ensures
            final(self)@ == old(self)@.remove(*c),
            present == old(self)@.contains(*c),
    {
        proof {
            use_type_invariant(&*self);
        }
        match self.position(*c) {
            Some(i) => {
                let ghost before = self.items@;
                let mut items: Vec<char> = Vec::new();
                std::mem::swap(&mut items, &mut self.items);
                items.remove(i);
                proof {
                    let after = items@;
                    assert(after == before.remove(i as int));
                    assert forall|x: char| after.to_set().contains(x) <==> before.to_set().remove(
                        *c,
                    ).contains(x) by {
                        if after.contains(x) {
                            let j = choose|j: int| 0 <= j < after.len() && after[j] == x;
                            if j < i {
                                assert(before[j] == x);
                            } else {
                                assert(before[j + 1] == x);
                            }
                        }
                        if before.contains(x) && x != *c {
                            let j = choose|j: int| 0 <= j < before.len() && before[j] == x;
                            if j < i {
                                assert(after[j] == x);
                            } else {
                                assert(after[j - 1] == x);
                            }
                        }
                    }
                    assert(after.to_set() =~= before.to_set().remove(*c));
                }
                self.items = items;
                true
            },
            None => {
                assert(self.items@.to_set().remove(*c) =~= self.items@.to_set());
                false
            },
        }
    }

    /// The set of the characters that occur in `text`.
    pub fn from_text(text: &str) -> (s: CharSet)
        ensures
            s@ == text@.to_set(),
    {
        let mut s = CharSet::new();
        s.extend_from_str(text);
        assert(Set::<char>::empty().union(text@.to_set()) =~= text@.to_set());
        s
    }

    /// Adds every character that occurs in `text`.
    pub fn extend_from_str(&mut self, text: &str)
        ensures
            final(self)@ == old(self)@.union(text@.to_set()),
    {
        assert(self@ =~= old(self)@.union(text@.take(0).to_set()));
        for c in it: text.chars()
            invariant
                it.seq() == text@,
                self@ == old(self)@.union(text@.take(it.index() as int).to_set()),
        {
            let ghost k = it.index() as int;
            self.insert(c);
            proof {
                assert(text@.take(k + 1) =~= text@.take(k).push(c));
                text@.take(k).lemma_push_to_set_commute(c);
                assert(self@ =~= old(self)@.union(text@.take(k + 1).to_set()));
            }
        }
        assert(text@.take(text@.len() as int) =~= text@);
    }

    /// Adds every member of `other`.
    pub fn extend(&mut self, other: &CharSet)
        ensures
            final(self)@ == old(self)@.union(other@),
    {
        let mut i: usize = 0;
        assert(self@ =~= old(self)@.union(other.items@.take(0).to_set()));
        while i < other.items.len()
            invariant
                i <= other.items@.len(),
                self@ == old(self)@.union(other.items@.take(i as int).to_set()),
            decreases other.items@.len() - i,
        {
            let c = other.items[i];
            self.insert(c);
            proof {
                assert(other.items@.take(i + 1) =~= other.items@.take(i as int).push(c));
                other.items@.take(i as int).lemma_push_to_set_commute(c);
                assert(self@ =~= old(self)@.union(other.items@.take(i + 1).to_set()));
            }
            i += 1;
        }
        assert(other.items@.take(i as int) =~= other.items@);
    }

    /// Removes every character that occurs in `text`.
    pub fn remove_chars(&mut self, text: &str)
        ensures
            final(self)@ == old(self)@.difference(text@.to_set()),
    {
        assert(self@ =~= old(self)@.difference(text@.take(0).to_set()));
        for c in it: text.chars()
            invariant
                it.seq() == text@,
                self@ == old(self)@.difference(text@.take(it.index() as int).to_set()),
        {
            let ghost k = it.index() as int;
            self.remove(&c);
            proof {
                assert(text@.take(k + 1) =~= text@.take(k).push(c));
                text@.take(k).lemma_push_to_set_commute(c);
                assert(self@ =~= old(self)@.difference(text@.take(k + 1).to_set()));
            }
        }
        assert(text@.take(text@.len() as int) =~= text@);
    }

    /// Removes every member of `other`.
    pub fn remove_all(&mut self, other: &CharSet)
        ensures
            final(self)@ == old(self)@.difference(other@),
    {
        let mut i: usize = 0;
        assert(self@ =~= old(self)@.difference(other.items@.take(0).to_set()));
        while i < other.items.len()
            invariant
                i <= other.items@.len(),
                self@ == old(self)@.difference(other.items@.take(i as int).to_set()),
            decreases other.items@.len() - i,
        {
            let c = other.items[i];
            self.remove(&c);
            proof {
                assert(other.items@.take(i + 1) =~= other.items@.take(i as int).push(c));
                other.items@.take(i as int).lemma_push_to_set_commute(c);
                assert(self@ =~= old(self)@.difference(other.items@.take(i + 1).to_set()));
            }
            i += 1;
        }
        assert(other.items@.take(i as int) =~= other.items@);
    }

    /// Whether some member counts as a character of `class`.
    pub fn any(&self, class: CharClass) -> (b: bool)
        ensures
            b == exists|c: char| self@.contains(c) && class.holds(c),
    {
        let mut i: usize = 0;
        while i < self.items.len()
            invariant
                i <= self.items@.len(),
                forall|j: int| 0 <= j < i ==> !class.holds(self.items@[j]),
            decreases self.items@.len() - i,
        {
            if class.matches(self.items[i]) {
                assert(self@.contains(self.items@[i as int]));
                return true;
            }
            i += 1;
        }
        false
    }

    /// The members as a vector in which none is repeated, in no particular order.
    pub fn into_vec(self) -> (v: Vec<char>)
        ensures
            v@.no_duplicates(),
            v@.to_set() == self@,
    {
        proof {
            use_type_invariant(&self);
        }
        self.items
    }
}

} // verus!
