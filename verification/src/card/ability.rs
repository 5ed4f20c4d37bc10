//! Named abilities of a card.

use vstd::prelude::*;

verus! {

broadcast use vstd::string::group_string_axioms;

/// An ability of a card: a name, and the effect that game logic runs when the
/// ability is used. The effect is a value of whatever type the game works
/// with; this library stores it and never runs it.
#[derive(Debug)]
pub struct Ability<E> {
    name: String,
    effect: E,
}

/// What an ability is: its name as text, and its effect.
pub ghost struct AbilityView<E> {
    pub name: Seq<char>,
    pub effect: E,
}

impl<E> View for Ability<E> {
    type V = AbilityView<E>;

    closed spec fn view(&self) -> AbilityView<E> {
        AbilityView { name: self.name@, effect: self.effect }
    }
}

impl<E> Ability<E> {
    /// The ability of the given name and effect.
    pub fn new(name: &str, effect: E) -> (ability: Self)
        ensures
            ability@ == (AbilityView { name: name@, effect }),
    {
        Ability { name: name.to_string(), effect }
    }

    /// The name of the ability.
    pub fn name(&self) -> (name: &str)
        ensures
            name@ == self@.name,
    {
        self.name.as_str()
    }

    /// The effect of the ability.
    pub fn effect(&self) -> (effect: &E)
        ensures
            *effect == self@.effect,
    {
        &self.effect
    }
}

} // verus!
