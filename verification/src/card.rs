//! One card and what it carries while it is in play.

pub mod ability;
pub mod card_state;
pub mod card_type;
pub mod counter_map;
pub mod counter_type;
pub mod keyword_abilities;
pub mod sub_type;
pub mod super_type;
pub mod tag;
pub mod tag_set;

use ability::{Ability, AbilityView};
use card_state::CardState;
use card_type::Type;
use counter_map::{count_in, counters_added, counters_removed, no_stored_zero, CounterMap};
use counter_type::CounterType;
use keyword_abilities::KeywordAbility;
use sub_type::SubType;
use super_type::Supertype;
use tag_set::TagSet;
use vstd::prelude::*;

verus! {

broadcast use vstd::string::group_string_axioms;

/// What a card is, apart from how it is stored.
pub ghost struct CardView<E> {
    /// The name; cards may share one.
    pub name: Seq<char>,
    /// The situations the card is in.
    pub states: Set<CardState>,
    /// The number of counters of each kind that has any.
    pub counters: Map<CounterType, nat>,
    /// The power printed on the card, if it has one.
    pub base_power: Option<i32>,
    /// The toughness printed on the card, if it has one.
    pub base_toughness: Option<i32>,
    /// The power that an effect has given the card in place of its own.
    pub override_power: Option<i32>,
    /// The toughness that an effect has given the card in place of its own.
    pub override_toughness: Option<i32>,
    pub super_types: Set<Supertype>,
    pub types: Set<Type>,
    pub sub_types: Set<SubType>,
    pub keyword_abilities: Set<KeywordAbility>,
    /// The abilities, in the order in which they were added.
    pub abilities: Seq<AbilityView<E>>,
    /// The names of the equipment on the card, in the order of attachment.
    pub equipment: Seq<Seq<char>>,
    /// The names of the enchantments on the card, in the order of attachment.
    pub enchantments: Seq<Seq<char>>,
}

impl<E> CardView<E> {
    /// The card of the given name to which nothing has happened yet.
    pub open spec fn fresh(name: Seq<char>) -> Self {
        CardView {
            name,
            states: Set::empty(),
            counters: Map::empty(),
            base_power: None,
            base_toughness: None,
            override_power: None,
            override_toughness: None,
            super_types: Set::empty(),
            types: Set::empty(),
            sub_types: Set::empty(),
            keyword_abilities: Set::empty(),
            abilities: Seq::empty(),
            equipment: Seq::empty(),
            enchantments: Seq::empty(),
        }
    }

    /// The number of counters of the given kind on the card.
    pub open spec fn count(self, kind: CounterType) -> nat {
        count_in(self.counters, kind)
    }

    /// The power that the card has now: the one given to it in place of its
    /// own if there is one, else its own, else none.
    pub open spec fn current_power(self) -> Option<i32> {
        match self.override_power {
            Some(power) => Some(power),
            None => self.base_power,
        }
    }

    /// The toughness that the card has now: the one given to it in place of
    /// its own if there is one, else its own, else none.
    pub open spec fn current_toughness(self) -> Option<i32> {
        match self.override_toughness {
            Some(toughness) => Some(toughness),
            None => self.base_toughness,
        }
    }

    // What each operation of `Card` makes of the card; whatever an operation
    // does not name stays as it is.
    pub open spec fn add_state(self, state: CardState) -> Self {
        CardView { states: self.states.insert(state), ..self }
    }

    pub open spec fn remove_state(self, state: CardState) -> Self {
        CardView { states: self.states.remove(state), ..self }
    }

    pub open spec fn add_counter(self, kind: CounterType, amount: nat) -> Self {
        CardView { counters: counters_added(self.counters, kind, amount), ..self }
    }

    pub open spec fn remove_counter(self, kind: CounterType, amount: nat) -> Self {
        CardView { counters: counters_removed(self.counters, kind, amount), ..self }
    }

    pub open spec fn set_base_power(self, power: i32) -> Self {
        CardView { base_power: Some(power), ..self }
    }

    pub open spec fn set_base_toughness(self, toughness: i32) -> Self {
        CardView { base_toughness: Some(toughness), ..self }
    }

    pub open spec fn set_override_power(self, power: i32) -> Self {
        CardView { override_power: Some(power), ..self }
    }

    pub open spec fn set_override_toughness(self, toughness: i32) -> Self {
        CardView { override_toughness: Some(toughness), ..self }
    }

    pub open spec fn remove_override_power(self) -> Self {
        CardView { override_power: None, ..self }
    }

    pub open spec fn remove_override_toughness(self) -> Self {
        CardView { override_toughness: None, ..self }
    }

    pub open spec fn add_supertype(self, supertype: Supertype) -> Self {
        CardView { super_types: self.super_types.insert(supertype), ..self }
    }

    pub open spec fn remove_supertype(self, supertype: Supertype) -> Self {
        CardView { super_types: self.super_types.remove(supertype), ..self }
    }

    pub open spec fn add_type(self, card_type: Type) -> Self {
        CardView { types: self.types.insert(card_type), ..self }
    }

    pub open spec fn remove_type(self, card_type: Type) -> Self {
        CardView { types: self.types.remove(card_type), ..self }
    }

    pub open spec fn add_subtype(self, subtype: SubType) -> Self {
        CardView { sub_types: self.sub_types.insert(subtype), ..self }
    }

    pub open spec fn remove_subtype(self, subtype: SubType) -> Self {
        CardView { sub_types: self.sub_types.remove(subtype), ..self }
    }

    pub open spec fn add_keyword(self, keyword: KeywordAbility) -> Self {
        CardView { keyword_abilities: self.keyword_abilities.insert(keyword), ..self }
    }

    pub open spec fn add_ability(self, name: Seq<char>, effect: E) -> Self {
        CardView { abilities: self.abilities.push(AbilityView { name, effect }), ..self }
    }

    pub open spec fn equip(self, item: Seq<char>) -> Self {
        CardView { equipment: self.equipment.push(item), ..self }
    }

    pub open spec fn enchant(self, enchantment: Seq<char>) -> Self {
        CardView { enchantments: self.enchantments.push(enchantment), ..self }
    }
}

/// The texts of a list of strings.
pub open spec fn texts_of(list: Seq<String>) -> Seq<Seq<char>> {
    list.map_values(|s: String| s@)
}

/// What a list of abilities holds.
pub open spec fn abilities_of<E>(list: Seq<Ability<E>>) -> Seq<AbilityView<E>> {
    list.map_values(|a: Ability<E>| a@)
}

/// The state of one card in play.
#[derive(Debug)]
pub struct Card<E> {
    name: String,
    states: TagSet<CardState>,
    counters: CounterMap,
    base_power: Option<i32>,
    base_toughness: Option<i32>,
    override_power: Option<i32>,
    override_toughness: Option<i32>,
    super_types: TagSet<Supertype>,
    types: TagSet<Type>,
    sub_types: TagSet<SubType>,
    keyword_abilities: TagSet<KeywordAbility>,
    abilities: Vec<Ability<E>>,
    equipment: Vec<String>,
    enchantments: Vec<String>,
}

impl<E> View for Card<E> {
    type V = CardView<E>;

    closed spec fn view(&self) -> CardView<E> {
        CardView {
            name: self.name@,
            states: self.states@,
            counters: self.counters@,
            base_power: self.base_power,
            base_toughness: self.base_toughness,
            override_power: self.override_power,
            override_toughness: self.override_toughness,
            super_types: self.super_types@,
            types: self.types@,
            sub_types: self.sub_types@,
            keyword_abilities: self.keyword_abilities@,
            abilities: abilities_of(self.abilities@),
            equipment: texts_of(self.equipment@),
            enchantments: texts_of(self.enchantments@),
        }
    }
}

impl<E> Card<E> {
    /// Every collection of the card is well-formed.
    pub closed spec fn wf(&self) -> bool {
        &&& self.states.wf()
        &&& self.counters.wf()
        &&& self.super_types.wf()
        &&& self.types.wf()
        &&& self.sub_types.wf()
        &&& self.keyword_abilities.wf()
    }

    /// On a well-formed card every set and the counters are finite, and no
    /// kind of counter is entered with a count of zero: a kind has no counters
    /// exactly if it has no entry.
    pub proof fn lemma_no_stored_zero(&self, kind: CounterType)
        requires
            self.wf(),
        ensures
            self@.states.finite(),
            self@.super_types.finite(),
            self@.types.finite(),
            self@.sub_types.finite(),
            self@.keyword_abilities.finite(),
            self@.counters.dom().finite(),
            no_stored_zero(self@.counters),
            self@.count(kind) == 0 <==> !self@.counters.contains_key(kind),
    {
        self.states.lemma_is_finite();
        self.super_types.lemma_is_finite();
        self.types.lemma_is_finite();
        self.sub_types.lemma_is_finite();
        self.keyword_abilities.lemma_is_finite();
        self.counters.lemma_zero_count_is_absent(kind);
    }

    /// A card of the given name: in no situation, without counters, power,
    /// toughness, types, abilities or attachments.
    pub fn new(name: &str) -> (card: Self)
        ensures
            card.wf(),
            card@ == CardView::<E>::fresh(name@),
    {
        let card = Self {
            name: name.to_string(),
            states: TagSet::new(),
            counters: CounterMap::new(),
            base_power: None,
            base_toughness: None,
            override_power: None,
            override_toughness: None,
            super_types: TagSet::new(),
            types: TagSet::new(),
            sub_types: TagSet::new(),
            keyword_abilities: TagSet::new(),
            abilities: Vec::new(),
            equipment: Vec::new(),
            enchantments: Vec::new(),
        };
        proof {
            assert(card@.abilities =~= Seq::empty());
            assert(card@.equipment =~= Seq::empty());
            assert(card@.enchantments =~= Seq::empty());
        }
        card
    }

    /// The name of the card.
    pub fn name(&self) -> (name: &str)
        ensures
            name@ == self@.name,
    {
        self.name.as_str()
    }

    /// The situations the card is in.
    pub fn states(&self) -> (states: &TagSet<CardState>)
        ensures
            states@ == self@.states,
            self.wf() ==> states.wf(),
    {
        &self.states
    }

    /// The counters on the card.
    pub fn counters(&self) -> (counters: &CounterMap)
        ensures
            counters@ == self@.counters,
            self.wf() ==> counters.wf(),
    {
        &self.counters
    }

    /// The supertypes of the card.
    pub fn super_types(&self) -> (super_types: &TagSet<Supertype>)
        ensures
            super_types@ == self@.super_types,
            self.wf() ==> super_types.wf(),
    {
        &self.super_types
    }

    /// The types of the card.
    pub fn types(&self) -> (types: &TagSet<Type>)
        ensures
            types@ == self@.types,
            self.wf() ==> types.wf(),
    {
        &self.types
    }

    /// The subtypes of the card.
    pub fn sub_types(&self) -> (sub_types: &TagSet<SubType>)
        ensures
            sub_types@ == self@.sub_types,
            self.wf() ==> sub_types.wf(),
    {
        &self.sub_types
    }

    /// The keyword abilities of the card.
    pub fn keyword_abilities(&self) -> (keywords: &TagSet<KeywordAbility>)
        ensures
            keywords@ == self@.keyword_abilities,
            self.wf() ==> keywords.wf(),
    {
        &self.keyword_abilities
    }

    /// The abilities of the card, in the order in which they were added.
    pub fn abilities(&self) -> (abilities: &Vec<Ability<E>>)
        ensures
            abilities_of(abilities@) == self@.abilities,
            abilities@.len() == self@.abilities.len(),
            forall|i: int|
                0 <= i < abilities@.len() ==> (#[trigger] abilities@[i])@ == self@.abilities[i],
    {
        &self.abilities
    }

    /// The names of the equipment on the card, in the order of attachment.
    pub fn equipment(&self) -> (equipment: &Vec<String>)
        ensures
            texts_of(equipment@) == self@.equipment,
            equipment@.len() == self@.equipment.len(),
            forall|i: int|
                0 <= i < equipment@.len() ==> (#[trigger] equipment@[i])@ == self@.equipment[i],
    {
        &self.equipment
    }

    /// The names of the enchantments on the card, in the order of attachment.
    pub fn enchantments(&self) -> (enchantments: &Vec<String>)
        ensures
            texts_of(enchantments@) == self@.enchantments,
            enchantments@.len() == self@.enchantments.len(),
            forall|i: int|
                0 <= i < enchantments@.len() ==> (#[trigger] enchantments@[i])@
                    == self@.enchantments[i],
    {
        &self.enchantments
    }

    /// Puts the card into a situation. It changes nothing if the card is in
    /// it already.
    pub fn add_state(&mut self, state: CardState)
        requires
            old(self).wf(),
        ensures
            final(self).wf(),
            final(self)@ == old(self)@.add_state(state),
    {
        self.states.insert(state);
    }

    /// Takes the card out of a situation. It changes nothing if the card is
    /// not in it.
    pub fn remove_state(&mut self, state: &CardState)
        requires
            old(self).wf(),
        ensures
            final(self).wf(),
            final(self)@ == old(self)@.remove_state(*state),
    {
        self.states.remove(state);
    }

    /// Whether the card is in the given situation.
    pub fn has_state(&self, state: &CardState) -> (yes: bool)
        ensures
            yes == self@.states.contains(*state),
    {
        self.states.contains(state)
    }

    /// Puts `amount` more counters of the given kind on the card. The count
    /// has to stay within `u32`.
    pub fn add_counter(&mut self, counter: CounterType, amount: u32)
        requires
            old(self).wf(),
            old(self)@.count(counter) + amount <= u32::MAX,
        ensures
            final(self).wf(),
            final(self)@ == old(self)@.add_counter(counter, amount as nat),
            final(self)@.count(counter) == old(self)@.count(counter) + amount,
    {
        self.counters.add(counter, amount);
    }

    /// Takes `amount` counters of the given kind off the card, or all of them
    /// where fewer are there. A kind of which none is left is not kept with a
    /// count of zero: it is dropped.
    pub fn remove_counter(&mut self, counter: CounterType, amount: u32)
        requires
            old(self).wf(),
        ensures
            final(self).wf(),
            final(self)@ == old(self)@.remove_counter(counter, amount as nat),
            final(self)@.count(counter) == if old(self)@.count(counter) > amount {
                old(self)@.count(counter) - amount
            } else {
                0
            },
            final(self)@.counters.contains_key(counter) == (old(self)@.count(counter) > amount),
    {
        self.counters.remove(counter, amount);
    }

    /// The number of counters of the given kind on the card; zero exactly if
    /// the kind is not entered.
    pub fn get_counter(&self, counter: CounterType) -> (n: u32)
        requires
            self.wf(),
        ensures
            n == self@.count(counter),
            n == 0 <==> !self@.counters.contains_key(counter),
    {
        proof {
            self.counters.lemma_zero_count_is_absent(counter);
        }
        self.counters.get(counter)
    }

    /// Sets the power printed on the card.
    pub fn set_base_power(&mut self, power: i32)
        ensures
            final(self).wf() == old(self).wf(),
            final(self)@ == old(self)@.set_base_power(power),
    {
        self.base_power = Some(power);
    }

    /// Sets the toughness printed on the card.
    pub fn set_base_toughness(&mut self, toughness: i32)
        ensures
            final(self).wf() == old(self).wf(),
            final(self)@ == old(self)@.set_base_toughness(toughness),
    {
        self.base_toughness = Some(toughness);
    }

    /// Gives the card the power `power` in place of its own. An earlier such
    /// power is replaced.
    pub fn set_override_power(&mut self, power: i32)
        ensures
            final(self).wf() == old(self).wf(),
            final(self)@ == old(self)@.set_override_power(power),
    {
        self.override_power = Some(power);
    }

    /// Gives the card the toughness `toughness` in place of its own. An
    /// earlier such toughness is replaced.
    pub fn set_override_toughness(&mut self, toughness: i32)
        ensures
            final(self).wf() == old(self).wf(),
            final(self)@ == old(self)@.set_override_toughness(toughness),
    {
        self.override_toughness = Some(toughness);
    }

    /// Gives the card its own power back.
    pub fn remove_override_power(&mut self)
        ensures
            final(self).wf() == old(self).wf(),
            final(self)@ == old(self)@.remove_override_power(),
    {
        self.override_power = None;
    }

    /// Gives the card its own toughness back.
    pub fn remove_override_toughness(&mut self)
        ensures
            final(self).wf() == old(self).wf(),
            final(self)@ == old(self)@.remove_override_toughness(),
    {
        self.override_toughness = None;
    }

    /// The power that the card has now.
    pub fn get_current_power(&self) -> (power: Option<i32>)
        ensures
            power == self@.current_power(),
    {
        match self.override_power {
            Some(power) => Some(power),
            None => self.base_power,
        }
    }

    /// The toughness that the card has now.
    pub fn get_current_toughness(&self) -> (toughness: Option<i32>)
        ensures
            toughness == self@.current_toughness(),
    {
        match self.override_toughness {
            Some(toughness) => Some(toughness),
            None => self.base_toughness,
        }
    }

    /// Gives the card a supertype. It changes nothing if the card has it
    /// already.
    pub fn add_supertype(&mut self, supertype: Supertype)
        requires
            old(self).wf(),
        ensures
            final(self).wf(),
            final(self)@ == old(self)@.add_supertype(supertype),
    {
        self.super_types.insert(supertype);
    }

    /// Takes a supertype from the card. It changes nothing if the card does
    /// not have it.
    pub fn remove_supertype(&mut self, supertype: &Supertype)
        requires
            old(self).wf(),
        ensures
            final(self).wf(),
            final(self)@ == old(self)@.remove_supertype(*supertype),
    {
        self.super_types.remove(supertype);
    }

    /// Gives the card a type. It changes nothing if the card has it already.
    pub fn add_type(&mut self, card_type: Type)
        requires
            old(self).wf(),
        ensures
            final(self).wf(),
            final(self)@ == old(self)@.add_type(card_type),
    {
        self.types.insert(card_type);
    }

    /// Takes a type from the card. It changes nothing if the card does not
    /// have it.
    pub fn remove_type(&mut self, card_type: &Type)
        requires
            old(self).wf(),
        ensures
            final(self).wf(),
            final(self)@ == old(self)@.remove_type(*card_type),
    {
        self.types.remove(card_type);
    }

    /// Gives the card a subtype. It changes nothing if the card has it
    /// already.
    pub fn add_subtype(&mut self, subtype: SubType)
        requires
            old(self).wf(),
        ensures
            final(self).wf(),
            final(self)@ == old(self)@.add_subtype(subtype),
    {
        self.sub_types.insert(subtype);
    }

    /// Takes a subtype from the card. It changes nothing if the card does not
    /// have it.
    pub fn remove_subtype(&mut self, subtype: &SubType)
        requires
            old(self).wf(),
        ensures
            final(self).wf(),
            final(self)@ == old(self)@.remove_subtype(*subtype),
    {
        self.sub_types.remove(subtype);
    }

    /// Whether the card has the given supertype.
    pub fn has_supertype(&self, supertype: &Supertype) -> (yes: bool)
        ensures
            yes == self@.super_types.contains(*supertype),
    {
        self.super_types.contains(supertype)
    }

    /// Whether the card has the given type.
    pub fn has_type(&self, card_type: &Type) -> (yes: bool)
        ensures
            yes == self@.types.contains(*card_type),
    {
        self.types.contains(card_type)
    }

    /// Whether the card has the given subtype.
    pub fn has_subtype(&self, subtype: &SubType) -> (yes: bool)
        ensures
            yes == self@.sub_types.contains(*subtype),
    {
        self.sub_types.contains(subtype)
    }

    /// Gives the card a keyword ability. It changes nothing if the card has
    /// it already.
    pub fn add_keyword(&mut self, keyword: KeywordAbility)
        requires
            old(self).wf(),
        ensures
            final(self).wf(),
            final(self)@ == old(self)@.add_keyword(keyword),
    {
        self.keyword_abilities.insert(keyword);
    }

    /// Whether the card has the given keyword ability.
    pub fn has_keyword(&self, keyword: &KeywordAbility) -> (yes: bool)
        ensures
            yes == self@.keyword_abilities.contains(*keyword),
    {
        self.keyword_abilities.contains(keyword)
    }

    /// Adds an ability behind those that the card has. The effect is stored
    /// as it is and not run.
    pub fn add_ability(&mut self, name: &str, effect: E)
        ensures
            final(self).wf() == old(self).wf(),
            final(self)@ == old(self)@.add_ability(name@, effect),
    {
        self.abilities.push(Ability::new(name, effect));
        proof {
            assert(abilities_of(self.abilities@) =~= abilities_of(old(self).abilities@).push(
                AbilityView { name: name@, effect },
            ));
        }
    }

    /// Attaches an equipment of the given name behind those on the card.
    pub fn equip(&mut self, item: &str)
        ensures
            final(self).wf() == old(self).wf(),
            final(self)@ == old(self)@.equip(item@),
    {
        self.equipment.push(item.to_string());
        proof {
            assert(texts_of(self.equipment@) =~= texts_of(old(self).equipment@).push(item@));
        }
    }

    /// Attaches an enchantment of the given name behind those on the card.
    pub fn enchant(&mut self, enchantment: &str)
        ensures
            final(self).wf() == old(self).wf(),
            final(self)@ == old(self)@.enchant(enchantment@),
    {
        self.enchantments.push(enchantment.to_string());
        proof {
            assert(texts_of(self.enchantments@) =~= texts_of(old(self).enchantments@).push(
                enchantment@,
            ));
        }
    }
}

/// Counters add up: putting `a` and then `b` counters of one kind on a card
/// is putting `a + b` of them on it, and the count of that kind grows by
/// `a + b`; on a card without counters of that kind it becomes `a + b`.
pub proof fn lemma_add_counter_twice<E>(card: CardView<E>, kind: CounterType, a: nat, b: nat)
    ensures
        card.add_counter(kind, a).add_counter(kind, b) == card.add_counter(kind, a + b),
        card.add_counter(kind, a).add_counter(kind, b).count(kind) == card.count(kind) + a + b,
        card.count(kind) == 0 ==> card.add_counter(kind, a).add_counter(kind, b).count(kind) == a
            + b,
{
    assert(card.add_counter(kind, a).add_counter(kind, b).counters =~= card.add_counter(
        kind,
        a + b,
    ).counters);
}

/// Putting counters on and taking counters off never enters a kind with a
/// count of zero.
pub proof fn lemma_counters_stay_positive<E>(card: CardView<E>, kind: CounterType, amount: nat)
    requires
        no_stored_zero(card.counters),
    ensures
        no_stored_zero(card.add_counter(kind, amount).counters),
        no_stored_zero(card.remove_counter(kind, amount).counters),
{
}

/// Taking off at least as many counters of a kind as a card has leaves none of
/// that kind, and no entry for it. Taking off fewer leaves the difference.
pub proof fn lemma_remove_counter<E>(card: CardView<E>, kind: CounterType, amount: nat)
    ensures
        amount >= card.count(kind) ==> {
            &&& card.remove_counter(kind, amount).count(kind) == 0
            &&& !card.remove_counter(kind, amount).counters.contains_key(kind)
        },
        amount < card.count(kind) ==> card.remove_counter(kind, amount).count(kind) == card.count(
            kind,
        ) - amount,
{
}

/// A power or toughness given in place of the card's own is the one the card
/// has, whatever its own is. Once it is taken away again, the card has its
/// own, or none where it has none of its own.
pub proof fn lemma_override_precedence<E>(card: CardView<E>, value: i32)
    ensures
        card.set_override_power(value).current_power() == Some(value),
        card.set_override_toughness(value).current_toughness() == Some(value),
        card.remove_override_power().current_power() == card.base_power,
        card.remove_override_toughness().current_toughness() == card.base_toughness,
        card.set_override_power(value).remove_override_power().current_power()
            == card.base_power,
        card.set_override_toughness(value).remove_override_toughness().current_toughness()
            == card.base_toughness,
{
}

/// Adding to a set of the card twice is adding once.
pub proof fn lemma_add_is_idempotent<E>(
    card: CardView<E>,
    state: CardState,
    supertype: Supertype,
    card_type: Type,
    subtype: SubType,
    keyword: KeywordAbility,
)
    ensures
        card.add_state(state).add_state(state) == card.add_state(state),
        card.add_supertype(supertype).add_supertype(supertype) == card.add_supertype(supertype),
        card.add_type(card_type).add_type(card_type) == card.add_type(card_type),
        card.add_subtype(subtype).add_subtype(subtype) == card.add_subtype(subtype),
        card.add_keyword(keyword).add_keyword(keyword) == card.add_keyword(keyword),
        card.add_state(state).states.contains(state),
        card.add_supertype(supertype).super_types.contains(supertype),
        card.add_type(card_type).types.contains(card_type),
        card.add_subtype(subtype).sub_types.contains(subtype),
        card.add_keyword(keyword).keyword_abilities.contains(keyword),
{
    assert(card.states.insert(state).insert(state) =~= card.states.insert(state));
    assert(card.super_types.insert(supertype).insert(supertype) =~= card.super_types.insert(
        supertype,
    ));
    assert(card.types.insert(card_type).insert(card_type) =~= card.types.insert(card_type));
    assert(card.sub_types.insert(subtype).insert(subtype) =~= card.sub_types.insert(subtype));
    assert(card.keyword_abilities.insert(keyword).insert(keyword)
        =~= card.keyword_abilities.insert(keyword));
}

/// Removing from a set of the card what is not in it changes nothing, and
/// removing twice is removing once.
pub proof fn lemma_remove_is_idempotent<E>(
    card: CardView<E>,
    state: CardState,
    supertype: Supertype,
    card_type: Type,
    subtype: SubType,
)
    ensures
        !card.states.contains(state) ==> card.remove_state(state) == card,
        !card.super_types.contains(supertype) ==> card.remove_supertype(supertype) == card,
        !card.types.contains(card_type) ==> card.remove_type(card_type) == card,
        !card.sub_types.contains(subtype) ==> card.remove_subtype(subtype) == card,
        card.remove_state(state).remove_state(state) == card.remove_state(state),
        card.remove_supertype(supertype).remove_supertype(supertype) == card.remove_supertype(
            supertype,
        ),
        card.remove_type(card_type).remove_type(card_type) == card.remove_type(card_type),
        card.remove_subtype(subtype).remove_subtype(subtype) == card.remove_subtype(subtype),
        !card.remove_state(state).states.contains(state),
        !card.remove_supertype(supertype).super_types.contains(supertype),
        !card.remove_type(card_type).types.contains(card_type),
        !card.remove_subtype(subtype).sub_types.contains(subtype),
{
    assert(card.states.remove(state).remove(state) =~= card.states.remove(state));
    assert(card.super_types.remove(supertype).remove(supertype) =~= card.super_types.remove(
        supertype,
    ));
    assert(card.types.remove(card_type).remove(card_type) =~= card.types.remove(card_type));
    assert(card.sub_types.remove(subtype).remove(subtype) =~= card.sub_types.remove(subtype));
    if !card.states.contains(state) {
        assert(card.states.remove(state) =~= card.states);
    }
    if !card.super_types.contains(supertype) {
        assert(card.super_types.remove(supertype) =~= card.super_types);
    }
    if !card.types.contains(card_type) {
        assert(card.types.remove(card_type) =~= card.types);
    }
    if !card.sub_types.contains(subtype) {
        assert(card.sub_types.remove(subtype) =~= card.sub_types);
    }
}

} // verus!
