//! The counters that lie on a card.

use super::counter_type::CounterType;
use super::tag::Tag;
use std::collections::HashMap;
use vstd::prelude::*;
use vstd::set_lib::lemma_map_size;

verus! {

broadcast use vstd::std_specs::hash::group_hash_axioms;

/// The number of counters of one kind: a kind without an entry has none.
pub open spec fn count_in(counters: Map<CounterType, nat>, kind: CounterType) -> nat {
    if counters.contains_key(kind) {
        counters[kind]
    } else {
        0
    }
}

/// No kind is entered with a count of zero.
pub open spec fn no_stored_zero(counters: Map<CounterType, nat>) -> bool {
    forall|kind: CounterType| #[trigger] counters.contains_key(kind) ==> counters[kind] > 0
}

/// The counters after `amount` more of one kind were put on. Putting on none
/// changes nothing, and so enters nothing.
pub open spec fn counters_added(
    counters: Map<CounterType, nat>,
    kind: CounterType,
    amount: nat,
) -> Map<CounterType, nat> {
    if amount == 0 {
        counters
    } else {
        counters.insert(kind, count_in(counters, kind) + amount)
    }
}

/// The counters after `amount` of one kind were taken off. Where no more than
/// `amount` lay there, none is left, and the kind loses its entry.
pub open spec fn counters_removed(
    counters: Map<CounterType, nat>,
    kind: CounterType,
    amount: nat,
) -> Map<CounterType, nat> {
    if count_in(counters, kind) > amount {
        counters.insert(kind, (count_in(counters, kind) - amount) as nat)
    } else {
        counters.remove(kind)
    }
}

/// How many counters of each kind lie on a card. A kind is entered only while
/// at least one counter of it is there. It is stored as a hashed map from the
/// kinds' codes to the counts.
#[derive(Debug)]
pub struct CounterMap {
    counts: HashMap<u8, u32>,
}

impl View for CounterMap {
    type V = Map<CounterType, nat>;

    closed spec fn view(&self) -> Map<CounterType, nat> {
        Map::new(
            |kind: CounterType| self.counts@.contains_key(kind.code_of()),
            |kind: CounterType| self.counts@[kind.code_of()] as nat,
        )
    }
}

/// The kind that a code stands for, if it stands for one.
spec fn kind_with_code(c: u8) -> CounterType {
    choose|kind: CounterType| kind.code_of() == c
}

impl CounterMap {
    /// Every stored code is the code of a kind, and every stored count is
    /// positive.
    pub closed spec fn wf(&self) -> bool {
        forall|c: u8| #[trigger]
            self.counts@.contains_key(c) ==> {
                &&& kind_with_code(c).code_of() == c
                &&& self.counts@[c] > 0
            }
    }

    /// A well-formed map has finitely many entries: as many as it stores codes.
    proof fn lemma_counts_kinds(&self)
        requires
            self.wf(),
        ensures
            self@.dom().finite(),
            self@.dom().len() == self.counts@.dom().len(),
    {
        let decode = |c: u8| kind_with_code(c);
        let codes = self.counts@.dom();
        assert forall|c1: u8, c2: u8|
            codes.contains(c1) && codes.contains(c2) && #[trigger] decode(c1) == #[trigger] decode(
                c2,
            ) implies c1 == c2 by {
            assert(decode(c1).code_of() == c1);
            assert(decode(c2).code_of() == c2);
        }
        assert(codes.map(decode) =~= self@.dom()) by {
            assert forall|kind: CounterType| self@.dom().contains(kind) implies #[trigger] codes.map(
                decode,
            ).contains(kind) by {
                let c = kind.code_of();
                assert(codes.contains(c));
                CounterType::lemma_code_is_injective(decode(c), kind);
            }
        }
        lemma_map_size(codes, self@.dom(), decode);
    }

    /// A well-formed map has finitely many entries, and none of them is zero:
    /// a kind has no counters exactly if it has no entry.
    pub proof fn lemma_zero_count_is_absent(&self, kind: CounterType)
        requires
            self.wf(),
        ensures
            self@.dom().finite(),
            no_stored_zero(self@),
            count_in(self@, kind) == 0 <==> !self@.contains_key(kind),
    {
        self.lemma_counts_kinds();
    }

    /// The map without any counter.
    pub fn new() -> (counters: Self)
        ensures
            counters.wf(),
            counters@ == Map::<CounterType, nat>::empty(),
    {
        let counters = CounterMap { counts: HashMap::new() };
        assert(counters@ =~= Map::<CounterType, nat>::empty());
        counters
    }

    /// The number of counters of the given kind.
    pub fn get(&self, kind: CounterType) -> (n: u32)
        ensures
            n == count_in(self@, kind),
    {
        let c = kind.code();
        match self.counts.get(&c) {
            Some(n) => *n,
            None => 0,
        }
    }

    /// Puts `amount` more counters of the given kind on.
    pub fn add(&mut self, kind: CounterType, amount: u32)
        requires
            old(self).wf(),
            count_in(old(self)@, kind) + amount <= u32::MAX,
        ensures
            final(self).wf(),
            final(self)@ == counters_added(old(self)@, kind, amount as nat),
    {
        if amount > 0 {
            let c = kind.code();
            let held = self.get(kind);
            let total: u32 = held + amount;
            self.counts.insert(c, total);
            proof {
                assert(kind_with_code(c).code_of() == c) by {
                    assert(kind.code_of() == c);
                }
                self.lemma_view_after_insert(old(self), kind, total);
            }
        }
    }

    /// Takes `amount` counters of the given kind off, or all of them where
    /// fewer are there. A kind that is left without counters loses its entry.
    pub fn remove(&mut self, kind: CounterType, amount: u32)
        requires
            old(self).wf(),
        ensures
            final(self).wf(),
            final(self)@ == counters_removed(old(self)@, kind, amount as nat),
    {
        let c = kind.code();
        let held = self.get(kind);
        if held > amount {
            let left: u32 = held - amount;
            self.counts.insert(c, left);
            proof {
                self.lemma_view_after_insert(old(self), kind, left);
            }
        } else {
            self.counts.remove(&c);
            proof {
                assert forall|other: CounterType| #[trigger]
                    self@.contains_key(other) == old(self)@.remove(kind).contains_key(other) by {
                    if other.code_of() == c {
                        CounterType::lemma_code_is_injective(other, kind);
                    }
                }
                assert(self@ =~= old(self)@.remove(kind));
            }
        }
    }

    /// Storing a count under the code of a kind enters it under that kind and
    /// leaves the other kinds as they were.
    proof fn lemma_view_after_insert(&self, before: &Self, kind: CounterType, n: u32)
        requires
            self.counts@ == before.counts@.insert(kind.code_of(), n),
        ensures
            self@ == before@.insert(kind, n as nat),
    {
        assert forall|other: CounterType| #[trigger]
            self@.contains_key(other) == before@.insert(kind, n as nat).contains_key(other) by {
            if other.code_of() == kind.code_of() {
                CounterType::lemma_code_is_injective(other, kind);
            }
        }
        assert forall|other: CounterType| #[trigger] self@.contains_key(other) implies self@[other]
            == before@.insert(kind, n as nat)[other] by {
            if other.code_of() == kind.code_of() {
                CounterType::lemma_code_is_injective(other, kind);
            }
        }
        assert(self@ =~= before@.insert(kind, n as nat));
    }

    /// The number of kinds of which at least one counter is there.
    pub fn len(&self) -> (n: usize)
        requires
            self.wf(),
        ensures
            n == self@.dom().len(),
    {
        proof {
            self.lemma_counts_kinds();
        }
        self.counts.len()
    }

    /// Whether no counter is there at all.
    pub fn is_empty(&self) -> (empty: bool)
        requires
            self.wf(),
        ensures
            empty == (self@ == Map::<CounterType, nat>::empty()),
    {
        proof {
            self.lemma_counts_kinds();
            if self@.dom().len() == 0 {
                self@.dom().lemma_len0_is_empty();
                assert(self@ =~= Map::<CounterType, nat>::empty());
            }
        }
        self.counts.len() == 0
    }
}

} // verus!
