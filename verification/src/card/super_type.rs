//! The supertypes of a card.

use super::tag::Tag;
use vstd::prelude::*;

verus! {

/// A supertype of a card.
#[derive(Debug, PartialEq, Eq, Hash, Clone, Copy, Structural)]
pub enum Supertype {
    Legendary,
    Basic,
    Ongoing,
    Snow,
    World,
    Elite,
    Host,
}

impl Tag for Supertype {
    open spec fn code_of(self) -> u8 {
        match self {
            Supertype::Legendary => 0,
            Supertype::Basic => 1,
            Supertype::Ongoing => 2,
            Supertype::Snow => 3,
            Supertype::World => 4,
            Supertype::Elite => 5,
            Supertype::Host => 6,
        }
    }

    fn code(&self) -> (c: u8) {
        match self {
            Supertype::Legendary => 0,
            Supertype::Basic => 1,
            Supertype::Ongoing => 2,
            Supertype::Snow => 3,
            Supertype::World => 4,
            Supertype::Elite => 5,
            Supertype::Host => 6,
        }
    }

    proof fn lemma_code_is_injective(a: Self, b: Self) {
    }
}

} // verus!
