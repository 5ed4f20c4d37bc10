//! The situations that a card in play can be in.

use super::tag::Tag;
use vstd::prelude::*;

verus! {

/// A situation that a card in play is in. A card can be in several at once.
#[derive(Debug, PartialEq, Eq, Hash, Clone, Copy, Structural)]
pub enum CardState {
    Tapped,
    Flipped,
    SummoningSickness,
}

impl Tag for CardState {
    open spec fn code_of(self) -> u8 {
        match self {
            CardState::Tapped => 0,
            CardState::Flipped => 1,
            CardState::SummoningSickness => 2,
        }
    }

    fn code(&self) -> (c: u8) {
        match self {
            CardState::Tapped => 0,
            CardState::Flipped => 1,
            CardState::SummoningSickness => 2,
        }
    }

    proof fn lemma_code_is_injective(a: Self, b: Self) {
    }
}

} // verus!
