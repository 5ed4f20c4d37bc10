//! The keyword abilities that a card can have.

use super::tag::Tag;
use vstd::prelude::*;

verus! {

/// A static ability that is known by a keyword.
#[derive(Debug, PartialEq, Eq, Hash, Clone, Copy, Structural)]
pub enum KeywordAbility {
    Flying,
    FirstStrike,
    DoubleStrike,
    Deathtouch,
    Defender,
    Flash,
    Haste,
    Hexproof,
    Indestructible,
    Lifelink,
    Menace,
    Reach,
    Trample,
    Vigilance,
}

impl Tag for KeywordAbility {
    open spec fn code_of(self) -> u8 {
        match self {
            KeywordAbility::Flying => 0,
            KeywordAbility::FirstStrike => 1,
            KeywordAbility::DoubleStrike => 2,
            KeywordAbility::Deathtouch => 3,
            KeywordAbility::Defender => 4,
            KeywordAbility::Flash => 5,
            KeywordAbility::Haste => 6,
            KeywordAbility::Hexproof => 7,
            KeywordAbility::Indestructible => 8,
            KeywordAbility::Lifelink => 9,
            KeywordAbility::Menace => 10,
            KeywordAbility::Reach => 11,
            KeywordAbility::Trample => 12,
            KeywordAbility::Vigilance => 13,
        }
    }

    fn code(&self) -> (c: u8) {
        match self {
            KeywordAbility::Flying => 0,
            KeywordAbility::FirstStrike => 1,
            KeywordAbility::DoubleStrike => 2,
            KeywordAbility::Deathtouch => 3,
            KeywordAbility::Defender => 4,
            KeywordAbility::Flash => 5,
            KeywordAbility::Haste => 6,
            KeywordAbility::Hexproof => 7,
            KeywordAbility::Indestructible => 8,
            KeywordAbility::Lifelink => 9,
            KeywordAbility::Menace => 10,
            KeywordAbility::Reach => 11,
            KeywordAbility::Trample => 12,
            KeywordAbility::Vigilance => 13,
        }
    }

    proof fn lemma_code_is_injective(a: Self, b: Self) {
    }
}

} // verus!
