use tcg_rules::card::card_state::CardState;
use tcg_rules::card::card_type::Type;
use tcg_rules::card::counter_type::CounterType;
use tcg_rules::card::keyword_abilities::KeywordAbility;
use tcg_rules::card::sub_type::SubType;
use tcg_rules::card::super_type::Supertype;
use tcg_rules::card::Card;

/// An effect as a game would supply it: a function that may change the card.
struct Effect(fn(&mut Card<Effect>));

#[test]
fn test_card_creation() {
    let card: Card<Effect> = Card::new("Goblin Warrior");
    assert_eq!(card.name(), "Goblin Warrior");
    assert!(card.states().is_empty());
    assert!(card.counters().is_empty());
    assert!(card.super_types().is_empty());
    assert!(card.types().is_empty());
    assert!(card.sub_types().is_empty());
    assert!(card.keyword_abilities().is_empty());
    assert!(card.abilities().is_empty());
    assert!(card.equipment().is_empty());
    assert!(card.enchantments().is_empty());
}

#[test]
fn test_card_state() {
    let mut card: Card<Effect> = Card::new("Test Card");
    card.add_state(CardState::Tapped);
    assert!(card.has_state(&CardState::Tapped));
    card.remove_state(&CardState::Tapped);
    assert!(!card.has_state(&CardState::Tapped));
}

#[test]
fn test_counters() {
    let mut card: Card<Effect> = Card::new("Counter Test");
    card.add_counter(CounterType::PlusOnePlusOne, 2);
    assert_eq!(card.get_counter(CounterType::PlusOnePlusOne), 2);
    card.remove_counter(CounterType::PlusOnePlusOne, 1);
    assert_eq!(card.get_counter(CounterType::PlusOnePlusOne), 1);
}

#[test]
fn test_override_power() {
    let mut card: Card<Effect> = Card::new("Override Test");
    card.set_override_power(5);
    assert_eq!(card.get_current_power(), Some(5));
    card.remove_override_power();
    assert_eq!(card.get_current_power(), None);
}

#[test]
fn test_supertype() {
    let mut card: Card<Effect> = Card::new("Supertype Test");
    card.add_supertype(Supertype::Legendary);
    assert!(card.has_supertype(&Supertype::Legendary));
}

#[test]
fn test_card_types() {
    let mut card: Card<Effect> = Card::new("Type Test");
    card.add_type(Type::Creature);
    assert!(card.has_type(&Type::Creature));
}

#[test]
fn test_card_subtypes() {
    let mut card: Card<Effect> = Card::new("Subtype Test");
    card.add_subtype(SubType::Attraction);
    assert!(card.has_subtype(&SubType::Attraction));
}

#[test]
fn test_keywords() {
    let mut card: Card<Effect> = Card::new("Keyword Test");
    card.add_keyword(KeywordAbility::Flying);
    assert!(card.has_keyword(&KeywordAbility::Flying));
}

#[test]
fn test_abilities() {
    fn test_effect(_card: &mut Card<Effect>) {}
    let mut card = Card::new("Ability Test");
    card.add_ability("Test Ability", Effect(test_effect));
    assert_eq!(card.abilities().len(), 1);
}

#[test]
fn test_equipment_and_enchantments() {
    let mut card: Card<Effect> = Card::new("Equipped");
    card.equip("Sword of Fire and Ice");
    card.enchant("Pacifism");
    assert_eq!(card.equipment().len(), 1);
}

#[test]
fn counters_add_up() {
    let mut card: Card<Effect> = Card::new("Sum");
    card.add_counter(CounterType::Charge, 3);
    card.add_counter(CounterType::Charge, 4);
    assert_eq!(card.get_counter(CounterType::Charge), 7);
    assert_eq!(card.get_counter(CounterType::Poison), 0);
    assert_eq!(card.counters().len(), 1);
}

#[test]
fn counters_reach_the_top_of_the_range() {
    let mut card: Card<Effect> = Card::new("Full");
    card.add_counter(CounterType::Time, u32::MAX - 1);
    card.add_counter(CounterType::Time, 1);
    assert_eq!(card.get_counter(CounterType::Time), u32::MAX);
    card.remove_counter(CounterType::Time, u32::MAX);
    assert_eq!(card.get_counter(CounterType::Time), 0);
    assert!(card.counters().is_empty());
}

#[test]
fn adding_no_counters_enters_nothing() {
    let mut card: Card<Effect> = Card::new("Nothing");
    card.add_counter(CounterType::Loyalty, 0);
    assert_eq!(card.get_counter(CounterType::Loyalty), 0);
    assert!(card.counters().is_empty());
    assert_eq!(card.counters().len(), 0);
    card.add_counter(CounterType::Loyalty, 2);
    card.add_counter(CounterType::Loyalty, 0);
    assert_eq!(card.get_counter(CounterType::Loyalty), 2);
    assert_eq!(card.counters().len(), 1);
}

#[test]
fn removing_all_counters_drops_the_kind() {
    let mut card: Card<Effect> = Card::new("Drop");
    card.add_counter(CounterType::PlusOnePlusOne, 2);
    card.add_counter(CounterType::MinusOneMinusOne, 1);
    assert_eq!(card.counters().len(), 2);
    card.remove_counter(CounterType::PlusOnePlusOne, 2);
    assert_eq!(card.get_counter(CounterType::PlusOnePlusOne), 0);
    assert_eq!(card.counters().len(), 1);
    card.remove_counter(CounterType::MinusOneMinusOne, 10);
    assert_eq!(card.get_counter(CounterType::MinusOneMinusOne), 0);
    assert!(card.counters().is_empty());
}

#[test]
fn removing_counters_that_are_not_there_changes_nothing() {
    let mut card: Card<Effect> = Card::new("Bare");
    card.add_counter(CounterType::Lore, 3);
    card.remove_counter(CounterType::Quest, 1);
    card.remove_counter(CounterType::Quest, 0);
    assert_eq!(card.get_counter(CounterType::Quest), 0);
    assert_eq!(card.get_counter(CounterType::Lore), 3);
    assert_eq!(card.counters().len(), 1);
    card.remove_counter(CounterType::Lore, 0);
    assert_eq!(card.get_counter(CounterType::Lore), 3);
}

#[test]
fn counters_of_different_kinds_are_kept_apart() {
    let mut card: Card<Effect> = Card::new("Apart");
    let kinds = [
        CounterType::PlusOnePlusOne,
        CounterType::MinusOneMinusOne,
        CounterType::Loyalty,
        CounterType::Charge,
        CounterType::Poison,
        CounterType::Time,
        CounterType::Age,
        CounterType::Fade,
        CounterType::Level,
        CounterType::Lore,
        CounterType::Quest,
        CounterType::Shield,
        CounterType::Stun,
    ];
    let mut amount = 1;
    for kind in kinds {
        card.add_counter(kind, amount);
        amount += 1;
    }
    assert_eq!(card.counters().len(), 13);
    let mut expected = 1;
    for kind in kinds {
        assert_eq!(card.get_counter(kind), expected);
        assert_eq!(card.counters().get(kind), expected);
        expected += 1;
    }
}

#[test]
fn scenario_counters_then_override() {
    let mut card: Card<Effect> = Card::new("Test");
    card.add_counter(CounterType::PlusOnePlusOne, 2);
    card.remove_counter(CounterType::PlusOnePlusOne, 1);
    assert_eq!(card.get_counter(CounterType::PlusOnePlusOne), 1);
    card.set_override_power(5);
    assert_eq!(card.get_current_power(), Some(5));
    card.remove_override_power();
    assert_eq!(card.get_current_power(), None);
}

#[test]
fn override_comes_before_base() {
    let mut card: Card<Effect> = Card::new("Layers");
    assert_eq!(card.get_current_power(), None);
    assert_eq!(card.get_current_toughness(), None);
    card.set_base_power(2);
    card.set_base_toughness(3);
    assert_eq!(card.get_current_power(), Some(2));
    assert_eq!(card.get_current_toughness(), Some(3));
    card.set_override_power(7);
    card.set_override_toughness(-1);
    assert_eq!(card.get_current_power(), Some(7));
    assert_eq!(card.get_current_toughness(), Some(-1));
    card.set_override_power(0);
    assert_eq!(card.get_current_power(), Some(0));
    card.remove_override_power();
    card.remove_override_toughness();
    assert_eq!(card.get_current_power(), Some(2));
    assert_eq!(card.get_current_toughness(), Some(3));
}

#[test]
fn override_toughness_without_base() {
    let mut card: Card<Effect> = Card::new("Spell");
    card.set_override_toughness(4);
    assert_eq!(card.get_current_toughness(), Some(4));
    assert_eq!(card.get_current_power(), None);
    card.remove_override_toughness();
    assert_eq!(card.get_current_toughness(), None);
    card.remove_override_toughness();
    assert_eq!(card.get_current_toughness(), None);
}

#[test]
fn adding_twice_is_adding_once() {
    let mut card: Card<Effect> = Card::new("Twice");
    card.add_state(CardState::Tapped);
    card.add_state(CardState::Tapped);
    card.add_supertype(Supertype::Snow);
    card.add_supertype(Supertype::Snow);
    card.add_type(Type::Artifact);
    card.add_type(Type::Artifact);
    card.add_subtype(SubType::Clue);
    card.add_subtype(SubType::Clue);
    card.add_keyword(KeywordAbility::Trample);
    card.add_keyword(KeywordAbility::Trample);
    assert_eq!(card.states().len(), 1);
    assert_eq!(card.super_types().len(), 1);
    assert_eq!(card.types().len(), 1);
    assert_eq!(card.sub_types().len(), 1);
    assert_eq!(card.keyword_abilities().len(), 1);
    assert!(card.has_state(&CardState::Tapped));
    assert!(card.has_supertype(&Supertype::Snow));
    assert!(card.has_type(&Type::Artifact));
    assert!(card.has_subtype(&SubType::Clue));
    assert!(card.has_keyword(&KeywordAbility::Trample));
}

#[test]
fn removing_what_is_absent_changes_nothing() {
    let mut card: Card<Effect> = Card::new("Absent");
    card.add_state(CardState::Flipped);
    card.add_supertype(Supertype::Basic);
    card.add_type(Type::Land);
    card.add_subtype(SubType::Blood);
    card.remove_state(&CardState::SummoningSickness);
    card.remove_supertype(&Supertype::World);
    card.remove_type(&Type::Instant);
    card.remove_subtype(&SubType::Contraption);
    assert!(card.has_state(&CardState::Flipped));
    assert!(card.has_supertype(&Supertype::Basic));
    assert!(card.has_type(&Type::Land));
    assert!(card.has_subtype(&SubType::Blood));
    assert_eq!(card.states().len(), 1);
    assert_eq!(card.super_types().len(), 1);
    assert_eq!(card.types().len(), 1);
    assert_eq!(card.sub_types().len(), 1);
    card.remove_state(&CardState::Flipped);
    card.remove_state(&CardState::Flipped);
    card.remove_supertype(&Supertype::Basic);
    card.remove_type(&Type::Land);
    card.remove_subtype(&SubType::Blood);
    assert!(card.states().is_empty());
    assert!(card.super_types().is_empty());
    assert!(card.types().is_empty());
    assert!(card.sub_types().is_empty());
}

#[test]
fn a_card_can_have_several_types() {
    let mut card: Card<Effect> = Card::new("Golem");
    card.add_type(Type::Artifact);
    card.add_type(Type::Creature);
    assert!(card.has_type(&Type::Artifact));
    assert!(card.has_type(&Type::Creature));
    assert!(!card.has_type(&Type::Enchantment));
    assert_eq!(card.types().len(), 2);
    card.remove_type(&Type::Artifact);
    assert!(!card.has_type(&Type::Artifact));
    assert!(card.has_type(&Type::Creature));
}

#[test]
fn every_type_is_told_from_every_other() {
    let all = [
        Type::Land,
        Type::Creature,
        Type::Artifact,
        Type::Enchantment,
        Type::Planeswalker,
        Type::Battle,
        Type::Instant,
        Type::Sorcery,
        Type::Kindred,
        Type::Tribal,
        Type::Phenomenon,
        Type::Plane,
        Type::Scheme,
        Type::Vanguard,
        Type::Conspiracy,
        Type::Bounty,
        Type::Summon,
        Type::LocalEnchant,
        Type::Interrupt,
        Type::ManaSource,
    ];
    for (i, one) in all.iter().enumerate() {
        let mut card: Card<Effect> = Card::new("One");
        card.add_type(*one);
        for (j, other) in all.iter().enumerate() {
            assert_eq!(card.has_type(other), i == j);
        }
    }
    let mut card: Card<Effect> = Card::new("All");
    for one in all {
        card.add_type(one);
    }
    assert_eq!(card.types().len(), 20);
}

#[test]
fn every_keyword_is_told_from_every_other() {
    let all = [
        KeywordAbility::Flying,
        KeywordAbility::FirstStrike,
        KeywordAbility::DoubleStrike,
        KeywordAbility::Deathtouch,
        KeywordAbility::Defender,
        KeywordAbility::Flash,
        KeywordAbility::Haste,
        KeywordAbility::Hexproof,
        KeywordAbility::Indestructible,
        KeywordAbility::Lifelink,
        KeywordAbility::Menace,
        KeywordAbility::Reach,
        KeywordAbility::Trample,
        KeywordAbility::Vigilance,
    ];
    for (i, one) in all.iter().enumerate() {
        let mut card: Card<Effect> = Card::new("One");
        card.add_keyword(*one);
        for (j, other) in all.iter().enumerate() {
            assert_eq!(card.has_keyword(other), i == j);
        }
    }
}

#[test]
fn every_state_supertype_and_subtype_is_told_from_every_other() {
    let states = [CardState::Tapped, CardState::Flipped, CardState::SummoningSickness];
    let supertypes = [
        Supertype::Legendary,
        Supertype::Basic,
        Supertype::Ongoing,
        Supertype::Snow,
        Supertype::World,
        Supertype::Elite,
        Supertype::Host,
    ];
    let subtypes = [
        SubType::Attraction,
        SubType::Blood,
        SubType::Bobblehead,
        SubType::Clue,
        SubType::Contraption,
    ];
    for (i, one) in states.iter().enumerate() {
        let mut card: Card<Effect> = Card::new("One");
        card.add_state(*one);
        for (j, other) in states.iter().enumerate() {
            assert_eq!(card.has_state(other), i == j);
        }
    }
    for (i, one) in supertypes.iter().enumerate() {
        let mut card: Card<Effect> = Card::new("One");
        card.add_supertype(*one);
        for (j, other) in supertypes.iter().enumerate() {
            assert_eq!(card.has_supertype(other), i == j);
        }
    }
    for (i, one) in subtypes.iter().enumerate() {
        let mut card: Card<Effect> = Card::new("One");
        card.add_subtype(*one);
        for (j, other) in subtypes.iter().enumerate() {
            assert_eq!(card.has_subtype(other), i == j);
        }
    }
}

#[test]
fn abilities_keep_their_order_and_are_not_run() {
    fn grow(card: &mut Card<Effect>) {
        card.add_counter(CounterType::PlusOnePlusOne, 1);
    }
    fn tap(card: &mut Card<Effect>) {
        card.add_state(CardState::Tapped);
    }
    let mut card = Card::new("Able");
    card.add_ability("Grow", Effect(grow));
    card.add_ability("Tap", Effect(tap));
    card.add_ability("Grow", Effect(grow));
    let names: Vec<&str> = card.abilities().iter().map(|ability| ability.name()).collect();
    assert_eq!(names, vec!["Grow", "Tap", "Grow"]);
    assert_eq!(card.get_counter(CounterType::PlusOnePlusOne), 0);
    assert!(!card.has_state(&CardState::Tapped));

    let second: fn(&mut Card<Effect>) = card.abilities()[1].effect().0;
    second(&mut card);
    assert!(card.has_state(&CardState::Tapped));
    assert_eq!(card.get_counter(CounterType::PlusOnePlusOne), 0);
    let first: fn(&mut Card<Effect>) = card.abilities()[0].effect().0;
    first(&mut card);
    assert_eq!(card.get_counter(CounterType::PlusOnePlusOne), 1);
    assert_eq!(card.abilities().len(), 3);
}

#[test]
fn attachments_keep_their_order() {
    let mut card: Card<Effect> = Card::new("Laden");
    card.equip("Sword of Fire and Ice");
    card.equip("Bonesplitter");
    card.equip("Sword of Fire and Ice");
    card.enchant("Pacifism");
    card.enchant("Rancor");
    assert_eq!(
        card.equipment(),
        &vec![
            "Sword of Fire and Ice".to_string(),
            "Bonesplitter".to_string(),
            "Sword of Fire and Ice".to_string()
        ]
    );
    assert_eq!(card.enchantments(), &vec!["Pacifism".to_string(), "Rancor".to_string()]);
    assert_eq!(card.name(), "Laden");
}

#[test]
fn what_one_operation_changes_the_others_keep() {
    let mut card: Card<Effect> = Card::new("Whole");
    card.add_state(CardState::SummoningSickness);
    card.add_counter(CounterType::Shield, 2);
    card.add_supertype(Supertype::Legendary);
    card.add_type(Type::Creature);
    card.add_subtype(SubType::Bobblehead);
    card.add_keyword(KeywordAbility::Haste);
    card.set_base_power(1);
    card.set_override_toughness(9);
    card.equip("Shield");
    card.enchant("Aura");
    assert_eq!(card.name(), "Whole");
    assert!(card.has_state(&CardState::SummoningSickness));
    assert_eq!(card.get_counter(CounterType::Shield), 2);
    assert!(card.has_supertype(&Supertype::Legendary));
    assert!(card.has_type(&Type::Creature));
    assert!(card.has_subtype(&SubType::Bobblehead));
    assert!(card.has_keyword(&KeywordAbility::Haste));
    assert_eq!(card.get_current_power(), Some(1));
    assert_eq!(card.get_current_toughness(), Some(9));
    assert_eq!(card.equipment().len(), 1);
    assert_eq!(card.enchantments().len(), 1);
    assert!(card.abilities().is_empty());
}
