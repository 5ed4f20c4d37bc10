//! The subtypes of a card.

use super::tag::Tag;
use vstd::prelude::*;

verus! {

/// A subtype of a card.
#[derive(Debug, PartialEq, Eq, Hash, Clone, Copy, Structural)]
pub enum SubType {
    Attraction,
    Blood,
    Bobblehead,
    Clue,
    Contraption,
}

impl Tag for SubType {
    open spec fn code_of(self) -> u8 {
        match self {
            SubType::Attraction => 0,
            SubType::Blood => 1,
            SubType::Bobblehead => 2,
            SubType::Clue => 3,
            SubType::Contraption => 4,
        }
    }

    fn code(&self) -> (c: u8) {
        match self {
            SubType::Attraction => 0,
            SubType::Blood => 1,
            SubType::Bobblehead => 2,
            SubType::Clue => 3,
            SubType::Contraption => 4,
        }
    }

    proof fn lemma_code_is_injective(a: Self, b: Self) {
    }
}

} // verus!
