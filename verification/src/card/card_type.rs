//! The types of a card.

use super::tag::Tag;
use vstd::prelude::*;

verus! {

/// A type of a card. A card can have several, as an artifact creature has.
#[derive(Debug, PartialEq, Eq, Hash, Clone, Copy, Structural)]
pub enum Type {
    Land,
    Creature,
    Artifact,
    Enchantment,
    Planeswalker,
    Battle,
    Instant,
    Sorcery,
    Kindred,
    /// The older word for `Kindred`.
    Tribal,
    Phenomenon,
    Plane,
    Scheme,
    Vanguard,
    Conspiracy,
    Bounty,
    /// The older word for `Creature`.
    Summon,
    /// The older word for an enchantment that is attached to something.
    LocalEnchant,
    /// An older type that is played as an instant.
    Interrupt,
    /// An older type that is played as an instant.
    ManaSource,
}

impl Tag for Type {
    open spec fn code_of(self) -> u8 {
        match self {
            Type::Land => 0,
            Type::Creature => 1,
            Type::Artifact => 2,
            Type::Enchantment => 3,
            Type::Planeswalker => 4,
            Type::Battle => 5,
            Type::Instant => 6,
            Type::Sorcery => 7,
            Type::Kindred => 8,
            Type::Tribal => 9,
            Type::Phenomenon => 10,
            Type::Plane => 11,
            Type::Scheme => 12,
            Type::Vanguard => 13,
            Type::Conspiracy => 14,
            Type::Bounty => 15,
            Type::Summon => 16,
            Type::LocalEnchant => 17,
            Type::Interrupt => 18,
            Type::ManaSource => 19,
        }
    }

    fn code(&self) -> (c: u8) {
        match self {
            Type::Land => 0,
            Type::Creature => 1,
            Type::Artifact => 2,
            Type::Enchantment => 3,
            Type::Planeswalker => 4,
            Type::Battle => 5,
            Type::Instant => 6,
            Type::Sorcery => 7,
            Type::Kindred => 8,
            Type::Tribal => 9,
            Type::Phenomenon => 10,
            Type::Plane => 11,
            Type::Scheme => 12,
            Type::Vanguard => 13,
            Type::Conspiracy => 14,
            Type::Bounty => 15,
            Type::Summon => 16,
            Type::LocalEnchant => 17,
            Type::Interrupt => 18,
            Type::ManaSource => 19,
        }
    }

    proof fn lemma_code_is_injective(a: Self, b: Self) {
    }
}

} // verus!
