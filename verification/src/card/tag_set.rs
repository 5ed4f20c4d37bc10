//! A hashed set of tags.

use super::tag::Tag;
use std::collections::HashSet;
use std::marker::PhantomData;
use vstd::prelude::*;
use vstd::set_lib::lemma_map_size;

verus! {

broadcast use vstd::std_specs::hash::group_hash_axioms;

/// A set of tags of one kind: a tag is in it or not, with no order and no
/// multiplicity. It is stored as the hashed set of the tags' codes.
#[derive(Debug)]
pub struct TagSet<T> {
    codes: HashSet<u8>,
    kind: PhantomData<T>,
}

impl<T: Tag> View for TagSet<T> {
    type V = Set<T>;

    closed spec fn view(&self) -> Set<T> {
        Set::new(|tag: T| self.codes@.contains(tag.code_of()))
    }
}

/// The tag that a code stands for, if it stands for one.
spec fn tag_with_code<T: Tag>(c: u8) -> T {
    choose|tag: T| tag.code_of() == c
}

impl<T: Tag> TagSet<T> {
    /// The set holds finitely many codes, and each of them is the code of a tag.
    pub closed spec fn wf(&self) -> bool {
        &&& self.codes@.finite()
        &&& forall|c: u8| #[trigger]
            self.codes@.contains(c) ==> tag_with_code::<T>(c).code_of() == c
    }

    /// A well-formed set is finite, and holds as many tags as it stores codes.
    proof fn lemma_counts_tags(&self)
        requires
            self.wf(),
        ensures
            self@.finite(),
            self@.len() == self.codes@.len(),
    {
        let decode = |c: u8| tag_with_code::<T>(c);
        assert forall|c1: u8, c2: u8|
            self.codes@.contains(c1) && self.codes@.contains(c2) && #[trigger] decode(c1)
                == #[trigger] decode(c2) implies c1 == c2 by {
            assert(decode(c1).code_of() == c1);
            assert(decode(c2).code_of() == c2);
        }
        assert(self.codes@.map(decode) =~= self@) by {
            assert forall|tag: T| self@.contains(tag) implies #[trigger] self.codes@.map(
                decode,
            ).contains(tag) by {
                let c = tag.code_of();
                assert(self.codes@.contains(c));
                T::lemma_code_is_injective(decode(c), tag);
            }
        }
        lemma_map_size(self.codes@, self@, decode);
    }

    /// A well-formed set holds finitely many tags.
    pub proof fn lemma_is_finite(&self)
        requires
            self.wf(),
        ensures
            self@.finite(),
    {
        self.lemma_counts_tags();
    }

    /// The empty set.
    pub fn new() -> (set: Self)
        ensures
            set.wf(),
            set@ == Set::<T>::empty(),
    {
        let set = TagSet { codes: HashSet::new(), kind: PhantomData };
        assert(set@ =~= Set::<T>::empty());
        set
    }

    /// Puts `tag` into the set and says whether it was missing before.
    pub fn insert(&mut self, tag: T) -> (fresh: bool)
        requires
            old(self).wf(),
        ensures
            final(self).wf(),
            final(self)@ == old(self)@.insert(tag),
            fresh == !old(self)@.contains(tag),
    {
        let c = tag.code();
        let fresh = self.codes.insert(c);
        proof {
            assert(tag_with_code::<T>(c).code_of() == c) by {
                assert(tag.code_of() == c);
            }
            assert forall|other: T| #[trigger]
                self@.contains(other) == old(self)@.insert(tag).contains(other) by {
                if other.code_of() == c {
                    T::lemma_code_is_injective(other, tag);
                }
            }
            assert(self@ =~= old(self)@.insert(tag));
        }
        fresh
    }

    /// Takes `tag` out of the set and says whether it was there.
    pub fn remove(&mut self, tag: &T) -> (found: bool)
        requires
            old(self).wf(),
        ensures
            final(self).wf(),
            final(self)@ == old(self)@.remove(*tag),
            found == old(self)@.contains(*tag),
    {
        let c = tag.code();
        let found = self.codes.remove(&c);
        proof {
            assert forall|other: T| #[trigger]
                self@.contains(other) == old(self)@.remove(*tag).contains(other) by {
                if other.code_of() == c {
                    T::lemma_code_is_injective(other, *tag);
                }
            }
            assert(self@ =~= old(self)@.remove(*tag));
        }
        found
    }

    /// Whether `tag` is in the set.
    pub fn contains(&self, tag: &T) -> (found: bool)
        ensures
            found == self@.contains(*tag),
    {
        let c = tag.code();
        self.codes.contains(&c)
    }

    /// The number of tags in the set.
    pub fn len(&self) -> (n: usize)
        requires
            self.wf(),
        ensures
            n == self@.len(),
    {
        proof {
            self.lemma_counts_tags();
        }
        self.codes.len()
    }

    /// Whether the set holds no tag.
    pub fn is_empty(&self) -> (empty: bool)
        requires
            self.wf(),
        ensures
            empty == (self@ == Set::<T>::empty()),
    {
        proof {
            self.lemma_counts_tags();
            if self@.len() == 0 {
                self@.lemma_len0_is_empty();
                assert(self@ =~= Set::<T>::empty());
            }
        }
        self.codes.len() == 0
    }
}

} // verus!
