//! The kinds of counters that can lie on a card.

use super::tag::Tag;
use vstd::prelude::*;

verus! {

/// A kind of counter.
#[derive(Debug, PartialEq, Eq, Hash, Clone, Copy, Structural)]
pub enum CounterType {
    PlusOnePlusOne,
    MinusOneMinusOne,
    Loyalty,
    Charge,
    Poison,
    Time,
    Age,
    Fade,
    Level,
    Lore,
    Quest,
    Shield,
    Stun,
}

impl Tag for CounterType {
    open spec fn code_of(self) -> u8 {
        match self {
            CounterType::PlusOnePlusOne => 0,
            CounterType::MinusOneMinusOne => 1,
            CounterType::Loyalty => 2,
            CounterType::Charge => 3,
            CounterType::Poison => 4,
            CounterType::Time => 5,
            CounterType::Age => 6,
            CounterType::Fade => 7,
            CounterType::Level => 8,
            CounterType::Lore => 9,
            CounterType::Quest => 10,
            CounterType::Shield => 11,
            CounterType::Stun => 12,
        }
    }

    fn code(&self) -> (c: u8) {
        match self {
            CounterType::PlusOnePlusOne => 0,
            CounterType::MinusOneMinusOne => 1,
            CounterType::Loyalty => 2,
            CounterType::Charge => 3,
            CounterType::Poison => 4,
            CounterType::Time => 5,
            CounterType::Age => 6,
            CounterType::Fade => 7,
            CounterType::Level => 8,
            CounterType::Lore => 9,
            CounterType::Quest => 10,
            CounterType::Shield => 11,
            CounterType::Stun => 12,
        }
    }

    proof fn lemma_code_is_injective(a: Self, b: Self) {
    }
}

} // verus!
