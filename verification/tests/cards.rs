use sorcery_engine::card::{
    Card, CollectorNumber, ExpansionSymbol, Loyalty, Name, PtCharacteristic, PtValue, Rarity,
    RulesText, TypeLine,
};
use sorcery_engine::card_type::{CardType, Supertype};
use sorcery_engine::color::{Color, ColorKind};
use sorcery_engine::creature_type::CreatureType;
use sorcery_engine::database::CardDatabase;
use sorcery_engine::deck::Deck;
use sorcery_engine::error::GameError;
use sorcery_engine::mana::{ManaCost, ManaSymbol};
use sorcery_engine::ordered_set::{Coded, Indexed, OrderedSet};
use sorcery_engine::planar_type::PlanarType;
use sorcery_engine::planeswalker_type::PlaneswalkerType;
use sorcery_engine::subtype::{
    ArtifactType, BasicLandType, EnchantmentType, LandType, SpellType, Subtype,
};

fn named(name: &str, number: u64) -> Card {
    Card::builder()
        .name(Name(name.to_string()))
        .collector_number(CollectorNumber(number))
        .build()
}

fn count_indices<T: Indexed + PartialEq + std::fmt::Debug>() -> u64 {
    let mut index = 0;
    while let Some(value) = T::from_index(index) {
        assert_eq!(value.index(), index);
        assert_eq!(T::from_index(value.index()), Some(value));
        index += 1;
    }
    assert_eq!(T::from_index(index + 1), None);
    assert_eq!(T::from_index(u64::MAX), None);
    index
}

#[test]
fn the_empty_card_has_the_documented_parts() {
    let card = Card::default();
    assert_eq!(card.name.0, "Test Card");
    assert!(card.mana_cost.is_none());
    assert_eq!(card.color_indicator, None);
    assert_eq!(card.type_line.card_type.len(), 0);
    assert_eq!(card.type_line.subtype.len(), 0);
    assert_eq!(card.type_line.supertype.len(), 0);
    assert_eq!(card.expansion_symbol.set, "TEST");
    assert_eq!(card.expansion_symbol.rarity, Rarity::Common);
    assert_eq!(card.rules_text.0, "");
    assert_eq!(card.pt, None);
    assert_eq!(card.loyalty, None);
    assert_eq!(card.collector_number, CollectorNumber(0));
}

#[test]
fn a_builder_without_settings_builds_the_empty_card() {
    let card = Card::builder().build();
    let empty = Card::default();
    assert_eq!(card.name.0, empty.name.0);
    assert!(card.mana_cost.is_none());
    assert_eq!(card.expansion_symbol.set, empty.expansion_symbol.set);
    assert_eq!(card.collector_number, empty.collector_number);
}

#[test]
fn a_builder_sets_the_parts_it_is_given() {
    let mut type_line = TypeLine::new();
    type_line.card_type.insert(CardType::Creature);
    type_line.subtype.insert(Subtype::Creature(CreatureType::Elf));
    type_line.subtype.insert(Subtype::Creature(CreatureType::Druid));
    type_line.supertype.insert(Supertype::Legendary);
    let pt = PtCharacteristic { power: PtValue::Fixed(1), toughness: PtValue::Variable };
    let card = Card::builder()
        .name(Name("Llanowar Elves".to_string()))
        .mana_cost(ManaCost::from_symbols(&[ManaSymbol::Colored(Color::Green)]))
        .color_indicator(ColorKind::Monocolored(Color::Green))
        .type_line(type_line)
        .expansion_symbol(ExpansionSymbol { set: "M19".to_string(), rarity: Rarity::Uncommon })
        .rules_text(RulesText("{T}: Add {G}.".to_string()))
        .pt(pt)
        .loyalty(Loyalty(3))
        .collector_number(CollectorNumber(314))
        .build();
    assert_eq!(card.name.0, "Llanowar Elves");
    assert_eq!(
        card.mana_cost.as_ref().map(|cost| cost.symbols()),
        Some(vec![ManaSymbol::Colored(Color::Green)])
    );
    assert_eq!(card.color_indicator, Some(ColorKind::Monocolored(Color::Green)));
    assert_eq!(card.type_line.card_type.get(0), Some(CardType::Creature));
    assert_eq!(card.type_line.subtype.get(0), Some(Subtype::Creature(CreatureType::Elf)));
    assert_eq!(card.type_line.subtype.get(1), Some(Subtype::Creature(CreatureType::Druid)));
    assert_eq!(card.type_line.subtype.get(2), None);
    assert_eq!(card.type_line.supertype.get(0), Some(Supertype::Legendary));
    assert_eq!(card.expansion_symbol.set, "M19");
    assert_eq!(card.expansion_symbol.rarity, Rarity::Uncommon);
    assert_eq!(card.rules_text.0, "{T}: Add {G}.");
    assert_eq!(card.pt, Some(pt));
    assert_eq!(card.loyalty, Some(Loyalty(3)));
    assert_eq!(card.collector_number, CollectorNumber(314));
}

#[test]
fn a_copy_of_a_card_has_the_same_parts() {
    let mut type_line = TypeLine::new();
    type_line.card_type.insert(CardType::Land);
    type_line.subtype.insert(Subtype::Land(LandType::Basic(BasicLandType::Forest)));
    let card = Card::builder()
        .name(Name("Forest".to_string()))
        .mana_cost(ManaCost::from_symbols(&[ManaSymbol::Generic(7), ManaSymbol::Variable]))
        .type_line(type_line)
        .build();
    let copy = card.clone();
    assert_eq!(copy.name.0, "Forest");
    assert_eq!(
        copy.mana_cost.map(|cost| cost.symbols()),
        Some(vec![ManaSymbol::Generic(7), ManaSymbol::Variable])
    );
    assert_eq!(copy.type_line.card_type.get(0), Some(CardType::Land));
    assert_eq!(
        copy.type_line.subtype.get(0),
        Some(Subtype::Land(LandType::Basic(BasicLandType::Forest)))
    );
    assert_eq!(copy.type_line.subtype.len(), 1);
    assert_eq!(card.name.0, "Forest");
}

#[test]
fn a_mana_cost_keeps_the_first_of_each_symbol_in_order() {
    let cost = ManaCost::from_symbols(&[
        ManaSymbol::Generic(2),
        ManaSymbol::Colored(Color::Black),
        ManaSymbol::Colored(Color::Black),
        ManaSymbol::Colored(Color::Green),
        ManaSymbol::Generic(2),
        ManaSymbol::Generic(3),
    ]);
    assert_eq!(cost.len(), 4);
    assert_eq!(
        cost.symbols(),
        vec![
            ManaSymbol::Generic(2),
            ManaSymbol::Colored(Color::Black),
            ManaSymbol::Colored(Color::Green),
            ManaSymbol::Generic(3),
        ]
    );
    assert_eq!(cost.get(0), Some(ManaSymbol::Generic(2)));
    assert_eq!(cost.get(3), Some(ManaSymbol::Generic(3)));
    assert_eq!(cost.get(4), None);
    assert_eq!(ManaCost::new().len(), 0);
    assert_eq!(ManaCost::new().symbols(), Vec::<ManaSymbol>::new());
}

#[test]
fn a_mana_symbol_names_its_color() {
    assert_eq!(ManaSymbol::Colored(Color::Red).color(), Some(Color::Red));
    assert_eq!(ManaSymbol::Generic(4).color(), None);
    assert_eq!(ManaSymbol::Variable.color(), None);
    assert_eq!(ManaSymbol::Colorless.color(), None);
}

#[test]
fn an_ordered_set_keeps_the_order_of_insertion() {
    let mut set: OrderedSet<Supertype> = OrderedSet::new();
    assert_eq!(set.len(), 0);
    assert_eq!(set.get(0), None);
    assert!(!set.contains(Supertype::Snow));
    assert!(set.insert(Supertype::Snow));
    assert!(set.insert(Supertype::Basic));
    assert!(!set.insert(Supertype::Snow));
    assert!(set.insert(Supertype::World));
    assert_eq!(set.len(), 3);
    assert_eq!(set.get(0), Some(Supertype::Snow));
    assert_eq!(set.get(1), Some(Supertype::Basic));
    assert_eq!(set.get(2), Some(Supertype::World));
    assert_eq!(set.get(3), None);
    assert!(set.contains(Supertype::Basic));
    assert!(!set.contains(Supertype::Legendary));
}

#[test]
fn a_copy_of_an_ordered_set_is_independent() {
    let mut set: OrderedSet<CardType> = OrderedSet::new();
    set.insert(CardType::Artifact);
    set.insert(CardType::Creature);
    let mut copy = set.clone();
    copy.insert(CardType::Tribal);
    assert_eq!(set.len(), 2);
    assert_eq!(copy.len(), 3);
    assert_eq!(copy.get(0), Some(CardType::Artifact));
    assert_eq!(copy.get(1), Some(CardType::Creature));
    assert_eq!(copy.get(2), Some(CardType::Tribal));
}

#[test]
fn mana_symbols_are_found_again_from_their_codes() {
    let symbols = [
        ManaSymbol::Colored(Color::White),
        ManaSymbol::Colored(Color::Blue),
        ManaSymbol::Colored(Color::Black),
        ManaSymbol::Colored(Color::Red),
        ManaSymbol::Colored(Color::Green),
        ManaSymbol::Generic(0),
        ManaSymbol::Generic(1),
        ManaSymbol::Generic(u64::MAX),
        ManaSymbol::Variable,
        ManaSymbol::Colorless,
    ];
    for (i, symbol) in symbols.iter().enumerate() {
        assert_eq!(ManaSymbol::from_code(symbol.code()), Some(*symbol));
        for other in &symbols[i + 1..] {
            assert_ne!(symbol.code(), other.code());
        }
    }
    assert_eq!(ManaSymbol::Colored(Color::Black).code(), (0, 2));
    assert_eq!(ManaSymbol::Generic(9).code(), (1, 9));
    assert_eq!(ManaSymbol::from_code((0, 5)), None);
    assert_eq!(ManaSymbol::from_code((2, 1)), None);
    assert_eq!(ManaSymbol::from_code((3, 1)), None);
    assert_eq!(ManaSymbol::from_code((4, 0)), None);
}

#[test]
fn every_enumeration_is_indexed_without_gaps() {
    assert_eq!(count_indices::<CardType>(), 14);
    assert_eq!(count_indices::<Supertype>(), 5);
    assert_eq!(count_indices::<ArtifactType>(), 9);
    assert_eq!(count_indices::<EnchantmentType>(), 8);
    assert_eq!(count_indices::<BasicLandType>(), 5);
    assert_eq!(count_indices::<LandType>(), 13);
    assert_eq!(count_indices::<SpellType>(), 4);
    assert_eq!(count_indices::<PlanarType>(), 43);
    assert_eq!(count_indices::<PlaneswalkerType>(), 69);
    assert_eq!(count_indices::<CreatureType>(), 261);
}

#[test]
fn the_first_and_the_last_of_an_enumeration_have_the_expected_index() {
    assert_eq!(CreatureType::Advisor.index(), 0);
    assert_eq!(CreatureType::Zubera.index(), 260);
    assert_eq!(PlaneswalkerType::Ajani.index(), 0);
    assert_eq!(PlaneswalkerType::Zariel.index(), 68);
    assert_eq!(PlanarType::Alara.index(), 0);
    assert_eq!(PlanarType::Zendikar.index(), 42);
    assert_eq!(CardType::Vanguard.index(), 13);
    assert_eq!(LandType::Basic(BasicLandType::Swamp).index(), 4);
    assert_eq!(LandType::Desert.index(), 5);
    assert_eq!(LandType::Urzas.index(), 12);
}

#[test]
fn subtypes_are_coded_by_card_type_and_index() {
    let subtypes = [
        Subtype::Artifact(ArtifactType::Vehicle),
        Subtype::Creature(CreatureType::Wizard),
        Subtype::Enchantment(EnchantmentType::Aura),
        Subtype::Land(LandType::Basic(BasicLandType::Plains)),
        Subtype::Land(LandType::Gate),
        Subtype::Plane(PlanarType::Ravnica),
        Subtype::Planeswalker(PlaneswalkerType::Jace),
        Subtype::Spell(SpellType::Arcane),
    ];
    for (i, subtype) in subtypes.iter().enumerate() {
        assert_eq!(Subtype::from_code(subtype.code()), Some(*subtype));
        for other in &subtypes[i + 1..] {
            assert_ne!(subtype.code(), other.code());
        }
    }
    assert_eq!(Subtype::Artifact(ArtifactType::Blood).code(), (0, 0));
    assert_eq!(Subtype::Spell(SpellType::Trap).code(), (6, 3));
    assert_eq!(Subtype::from_code((7, 0)), None);
    assert_eq!(Subtype::from_code((6, 4)), None);
    assert_eq!(CardType::Land.code(), (0, 6));
    assert_eq!(CardType::from_code((1, 6)), None);
    assert_eq!(Supertype::from_code((0, 4)), Some(Supertype::World));
}

#[test]
fn a_database_finds_the_first_card_of_a_name() {
    let database = CardDatabase::new(vec![
        named("Plains", 1),
        named("Forest", 2),
        named("Plains", 3),
        named("Island", 4),
    ]);
    assert_eq!(database.len(), 4);
    let plains = database.find_card_by_name("Plains").expect("no Plains");
    assert_eq!(plains.name.0, "Plains");
    assert_eq!(plains.collector_number, CollectorNumber(1));
    let island = database.find_card_by_name("Island").expect("no Island");
    assert_eq!(island.collector_number, CollectorNumber(4));
    assert!(database.find_card_by_name("Swamp").is_none());
    assert!(database.find_card_by_name("plains").is_none());
    assert!(database.find_card_by_name("").is_none());
    assert_eq!(database.get(1).map(|card| card.name.0.as_str()), Some("Forest"));
    assert!(database.get(4).is_none());
    assert!(CardDatabase::new(Vec::new()).find_card_by_name("Plains").is_none());
}

#[test]
fn a_deck_lists_names_and_counts_in_order() {
    let deck = Deck::from(&[("Plains", 30), ("Soulmender", 30)]);
    assert_eq!(deck.len(), 2);
    let first = deck.get(0).expect("no first line");
    assert_eq!(first.name, "Plains");
    assert_eq!(first.count, 30);
    let second = deck.get(1).expect("no second line");
    assert_eq!(second.name, "Soulmender");
    assert_eq!(second.count, 30);
    assert!(deck.get(2).is_none());
    assert_eq!(deck.size(), Some(60));
}

#[test]
fn the_size_of_a_deck_is_the_sum_of_its_counts() {
    assert_eq!(Deck::from(&[]).size(), Some(0));
    assert_eq!(Deck::from(&[("Plains", 0)]).size(), Some(0));
    assert_eq!(Deck::from(&[("Plains", 4), ("Forest", 20), ("Island", 1)]).size(), Some(25));
    assert_eq!(Deck::from(&[("Plains", u32::MAX)]).size(), Some(u32::MAX));
    assert_eq!(Deck::from(&[("Plains", u32::MAX), ("Forest", 0)]).size(), Some(u32::MAX));
    assert_eq!(Deck::from(&[("Plains", u32::MAX), ("Forest", 1)]).size(), None);
    assert_eq!(Deck::from(&[("Plains", u32::MAX), ("Forest", u32::MAX)]).size(), None);
}

#[test]
fn a_deck_resolves_its_cards_against_the_database() {
    let database = CardDatabase::new(vec![named("Plains", 1), named("Forest", 2)]);
    let deck = Deck::from(&[("Forest", 3), ("Plains", 2), ("Forest", 1)]);
    let cards = deck.cards(&database).expect("the deck does not resolve");
    assert_eq!(cards.len(), 3);
    assert_eq!(cards[0].0.name.0, "Forest");
    assert_eq!(cards[0].1, 3);
    assert_eq!(cards[1].0.name.0, "Plains");
    assert_eq!(cards[1].1, 2);
    assert_eq!(cards[2].0.collector_number, CollectorNumber(2));
    assert_eq!(cards[2].1, 1);
    assert_eq!(Deck::from(&[]).cards(&database).map(|cards| cards.len()), Ok(0));
}

#[test]
fn a_deck_with_an_unknown_card_does_not_resolve() {
    let database = CardDatabase::new(vec![named("Plains", 1)]);
    let deck = Deck::from(&[("Plains", 3), ("Black Lotus", 1)]);
    assert_eq!(deck.cards(&database).err(), Some(GameError::UnknownCard));
    let unused = Deck::from(&[("Black Lotus", 0)]);
    assert_eq!(unused.cards(&database).err(), Some(GameError::UnknownCard));
}
