use std::collections::HashMap;

use sorcery_engine::card::{
    Card, CollectorNumber, ExpansionSymbol, Loyalty, Name, PtCharacteristic, PtValue, Rarity,
    RulesText, TypeLine,
};
use sorcery_engine::card_type::{CardType, Supertype};
use sorcery_engine::color::{Color, ColorKind, ColorSet};
use sorcery_engine::components::{ObjectId, Owner};
use sorcery_engine::creature_type::CreatureType;
use sorcery_engine::database::CardDatabase;
use sorcery_engine::deck::Deck;
use sorcery_engine::error::GameError;
use sorcery_engine::game::Game;
use sorcery_engine::library::Library;
use sorcery_engine::mana::{ManaCost, ManaSymbol};
use sorcery_engine::planeswalker_type::PlaneswalkerType;
use sorcery_engine::player::{Player, PlayerId, Zone};
use sorcery_engine::subtype::{BasicLandType, LandType, Subtype};

fn land(name: &str, basic: BasicLandType) -> Card {
    let mut type_line = TypeLine::new();
    type_line.card_type.insert(CardType::Land);
    type_line.subtype.insert(Subtype::Land(LandType::Basic(basic)));
    type_line.supertype.insert(Supertype::Basic);
    Card::builder()
        .name(Name(name.to_string()))
        .type_line(type_line)
        .expansion_symbol(ExpansionSymbol { set: "M19".to_string(), rarity: Rarity::BasicLand })
        .build()
}

fn creature(name: &str, color: Color, kinds: &[CreatureType], number: u64) -> Card {
    let mut type_line = TypeLine::new();
    type_line.card_type.insert(CardType::Creature);
    for kind in kinds {
        type_line.subtype.insert(Subtype::Creature(*kind));
    }
    Card::builder()
        .name(Name(name.to_string()))
        .mana_cost(ManaCost::from_symbols(&[ManaSymbol::Colored(color)]))
        .type_line(type_line)
        .expansion_symbol(ExpansionSymbol { set: "M19".to_string(), rarity: Rarity::Common })
        .rules_text(RulesText("{T}: Do something.".to_string()))
        .pt(PtCharacteristic { power: PtValue::Fixed(1), toughness: PtValue::Fixed(1) })
        .collector_number(CollectorNumber(number))
        .build()
}

fn database() -> CardDatabase {
    CardDatabase::new(vec![
        land("Plains", BasicLandType::Plains),
        land("Forest", BasicLandType::Forest),
        creature("Soulmender", Color::White, &[CreatureType::Human, CreatureType::Cleric], 35),
        creature("Llanowar Elves", Color::Green, &[CreatureType::Elf, CreatureType::Druid], 314),
    ])
}

fn sorted(objects: &[ObjectId]) -> Vec<u64> {
    let mut ids: Vec<u64> = objects.iter().map(|object| object.0).collect();
    ids.sort();
    ids
}

#[test]
fn sample_game() {
    let mut game = Game::new(2);

    let white_deck = Deck::from(&[("Plains", 30), ("Soulmender", 30)]);
    let green_deck = Deck::from(&[("Forest", 30), ("Llanowar Elves", 30)]);

    let mut players = game.players().iter();
    let first_player = players.next().expect("Could not get the first player.").id;
    let second_player = players.next().expect("Could not get the second player.").id;

    let started = game.start(
        &database(),
        &[(first_player.0, white_deck), (second_player.0, green_deck)].into(),
    );
    assert_eq!(started, Ok(()));

    let white_library = game.objects_in_zone(&Zone::Library(first_player));
    assert_eq!(white_library.len(), 60);

    let green_library = game.objects_in_zone(&Zone::Library(second_player));
    assert_eq!(green_library.len(), 60);

    assert_eq!(game.library(first_player).map(|library| library.len()), Some(60));
    assert_eq!(game.library(second_player).map(|library| library.len()), Some(60));
}

#[test]
fn a_new_game_has_numbered_players_with_twenty_life() {
    let game = Game::new(12);
    let players = game.players();
    assert_eq!(players.len(), 12);
    for (position, player) in players.iter().enumerate() {
        assert_eq!(player.id, PlayerId(position as u32));
        assert_eq!(player.life, 20);
        assert_eq!(player.name, format!("Player {}", position + 1));
        let library = game.library(player.id).expect("a player without a library");
        assert_eq!(library.len(), 0);
    }
    assert_eq!(players[0].name, "Player 1");
    assert_eq!(players[8].name, "Player 9");
    assert_eq!(players[9].name, "Player 10");
    assert_eq!(players[11].name, "Player 12");
    assert_eq!(game.object_count(), 0);
    assert!(game.library(PlayerId(12)).is_none());
    assert!(game.objects_in_zone(&Zone::Library(PlayerId(0))).is_empty());
}

#[test]
fn a_player_starts_with_a_numbered_name() {
    let names = [
        (0, "Player 1"),
        (8, "Player 9"),
        (9, "Player 10"),
        (98, "Player 99"),
        (99, "Player 100"),
        (1_234_566, "Player 1234567"),
        (u32::MAX - 1, "Player 4294967295"),
        (u32::MAX, "Player 4294967296"),
    ];
    for (id, name) in names {
        let player = Player::new(PlayerId(id));
        assert_eq!(player.id, PlayerId(id));
        assert_eq!(player.name, name);
        assert_eq!(player.life, 20);
    }
}

#[test]
fn a_game_without_players_starts_with_no_decks() {
    let mut game = Game::new(0);
    assert_eq!(game.players().len(), 0);
    assert_eq!(game.start(&database(), &HashMap::new()), Ok(()));
    assert_eq!(game.object_count(), 0);
    let decks: HashMap<u32, Deck> = [(0, Deck::from(&[("Plains", 1)]))].into();
    assert_eq!(game.start(&database(), &decks), Err(GameError::DeckMismatch));
}

#[test]
fn a_spawned_object_has_the_characteristics_of_its_card() {
    let mut game = Game::new(2);
    let database = database();
    let elves = database.find_card_by_name("Llanowar Elves").expect("no Llanowar Elves");
    let owner = PlayerId(1);
    let object = game.spawn_object(elves, &Zone::Library(owner)).expect("the spawn failed");

    assert!(game.is_object(object));
    assert_eq!(game.name_of(object).map(|name| name.0), Some("Llanowar Elves".to_string()));
    assert_eq!(game.color_of(object), Some(ColorKind::Monocolored(Color::Green)));
    assert_eq!(
        game.mana_cost_of(object).map(|cost| cost.symbols()),
        Some(vec![ManaSymbol::Colored(Color::Green)])
    );
    let type_line = game.type_line_of(object).expect("no type line");
    assert_eq!(type_line.card_type.len(), 1);
    assert_eq!(type_line.card_type.get(0), Some(CardType::Creature));
    assert_eq!(type_line.subtype.get(0), Some(Subtype::Creature(CreatureType::Elf)));
    assert_eq!(type_line.subtype.get(1), Some(Subtype::Creature(CreatureType::Druid)));
    assert_eq!(type_line.supertype.len(), 0);
    let symbol = game.expansion_symbol_of(object).expect("no expansion symbol");
    assert_eq!(symbol.set, "M19");
    assert_eq!(symbol.rarity, Rarity::Common);
    assert_eq!(
        game.rules_text_of(object).map(|text| text.0),
        Some("{T}: Do something.".to_string())
    );
    assert_eq!(game.collector_number_of(object), Some(CollectorNumber(314)));
    assert_eq!(
        game.pt_of(object),
        Some(PtCharacteristic { power: PtValue::Fixed(1), toughness: PtValue::Fixed(1) })
    );
    assert_eq!(game.loyalty_of(object), None);
    assert_eq!(game.owner_of(object), Some(Owner(owner)));
    assert_eq!(game.controller_of(object), None);
    assert_eq!(game.zone_of(object), Some(Zone::Library(owner)));

    assert_eq!(game.object_count(), 1);
    assert_eq!(game.library(owner).map(|library| library.cards().to_vec()), Some(vec![object]));
    assert_eq!(game.library(PlayerId(0)).map(|library| library.len()), Some(0));
    assert_eq!(game.objects_in_zone(&Zone::Library(owner)), vec![object]);
    assert!(game.objects_in_zone(&Zone::Library(PlayerId(0))).is_empty());
}

#[test]
fn absent_characteristics_are_not_attached() {
    let mut game = Game::new(1);
    let database = database();
    let plains = database.find_card_by_name("Plains").expect("no Plains");
    let object = game.spawn_object(plains, &Zone::Library(PlayerId(0))).expect("the spawn failed");
    assert!(game.mana_cost_of(object).is_none());
    assert_eq!(game.pt_of(object), None);
    assert_eq!(game.loyalty_of(object), None);
    assert_eq!(game.controller_of(object), None);
    assert_eq!(game.color_of(object), Some(ColorKind::Colorless));
    assert_eq!(game.name_of(object).map(|name| name.0), Some("Plains".to_string()));
    assert_eq!(game.rules_text_of(object).map(|text| text.0), Some(String::new()));
    assert_eq!(game.collector_number_of(object), Some(CollectorNumber(0)));
    let type_line = game.type_line_of(object).expect("no type line");
    assert_eq!(type_line.supertype.get(0), Some(Supertype::Basic));

    let mut type_line = TypeLine::new();
    type_line.card_type.insert(CardType::Planeswalker);
    type_line.subtype.insert(Subtype::Planeswalker(PlaneswalkerType::Jace));
    let jace = Card::builder()
        .name(Name("Jace".to_string()))
        .mana_cost(ManaCost::from_symbols(&[
            ManaSymbol::Generic(3),
            ManaSymbol::Colored(Color::Blue),
        ]))
        .color_indicator(ColorKind::Multicolored(ColorSet::from_colors(&[
            Color::Blue,
            Color::Black,
        ])))
        .type_line(type_line)
        .loyalty(Loyalty(4))
        .build();
    let walker = game.spawn_object(&jace, &Zone::Library(PlayerId(0))).expect("the spawn failed");
    assert_ne!(walker, object);
    assert_eq!(game.loyalty_of(walker), Some(Loyalty(4)));
    assert_eq!(game.pt_of(walker), None);
    assert_eq!(
        game.color_of(walker),
        Some(ColorKind::Multicolored(ColorSet::from_colors(&[Color::Blue, Color::Black])))
    );
    assert_eq!(
        game.mana_cost_of(walker).map(|cost| cost.symbols()),
        Some(vec![ManaSymbol::Generic(3), ManaSymbol::Colored(Color::Blue)])
    );
    assert_eq!(
        game.library(PlayerId(0)).map(|library| library.cards().to_vec()),
        Some(vec![object, walker])
    );
}

#[test]
fn an_unknown_object_has_nothing_attached() {
    let mut game = Game::new(1);
    let card = Card::default();
    let object = game.spawn_object(&card, &Zone::Library(PlayerId(0))).expect("the spawn failed");
    for unknown in [ObjectId(0), ObjectId(object.0 + 1), ObjectId(u64::MAX)] {
        assert_ne!(unknown, object);
        assert!(!game.is_object(unknown));
        assert!(game.name_of(unknown).is_none());
        assert!(game.type_line_of(unknown).is_none());
        assert!(game.expansion_symbol_of(unknown).is_none());
        assert!(game.rules_text_of(unknown).is_none());
        assert_eq!(game.collector_number_of(unknown), None);
        assert_eq!(game.color_of(unknown), None);
        assert!(game.mana_cost_of(unknown).is_none());
        assert_eq!(game.pt_of(unknown), None);
        assert_eq!(game.loyalty_of(unknown), None);
        assert_eq!(game.owner_of(unknown), None);
        assert_eq!(game.controller_of(unknown), None);
        assert_eq!(game.zone_of(unknown), None);
    }
}

#[test]
fn spawning_outside_a_library_is_not_supported() {
    let mut game = Game::new(2);
    let card = Card::default();
    let first = game.spawn_object(&card, &Zone::Library(PlayerId(0))).expect("the spawn failed");
    let zones = [
        Zone::Hand(PlayerId(0)),
        Zone::Hand(PlayerId(7)),
        Zone::Battlefield,
        Zone::Graveyard(PlayerId(1)),
        Zone::Stack,
        Zone::Exile,
        Zone::Command,
    ];
    for zone in zones {
        assert_eq!(game.spawn_object(&card, &zone), Err(GameError::UnsupportedZone));
        assert_eq!(game.object_count(), 1);
        assert_eq!(
            game.library(PlayerId(0)).map(|library| library.cards().to_vec()),
            Some(vec![first])
        );
        assert_eq!(game.library(PlayerId(1)).map(|library| library.len()), Some(0));
        assert!(game.objects_in_zone(&zone).is_empty());
    }
}

#[test]
fn spawning_into_the_library_of_an_unknown_player_fails() {
    let mut game = Game::new(2);
    let card = Card::default();
    for player in [PlayerId(2), PlayerId(3), PlayerId(u32::MAX)] {
        assert_eq!(
            game.spawn_object(&card, &Zone::Library(player)),
            Err(GameError::UnknownPlayer)
        );
    }
    assert_eq!(game.object_count(), 0);
    assert_eq!(game.library(PlayerId(0)).map(|library| library.len()), Some(0));
    assert_eq!(game.library(PlayerId(1)).map(|library| library.len()), Some(0));
    let mut empty = Game::new(0);
    assert_eq!(
        empty.spawn_object(&card, &Zone::Library(PlayerId(0))),
        Err(GameError::UnknownPlayer)
    );
}

#[test]
fn spawned_objects_go_to_the_end_of_the_library_in_order() {
    let mut game = Game::new(3);
    let card = Card::default();
    let mut expected: Vec<ObjectId> = Vec::new();
    for _ in 0..25 {
        let object =
            game.spawn_object(&card, &Zone::Library(PlayerId(1))).expect("the spawn failed");
        assert!(!expected.contains(&object));
        expected.push(object);
    }
    assert_eq!(game.library(PlayerId(1)).map(|library| library.cards().to_vec()), Some(expected));
    assert_eq!(game.library(PlayerId(0)).map(|library| library.len()), Some(0));
    assert_eq!(game.library(PlayerId(2)).map(|library| library.len()), Some(0));
    assert_eq!(game.object_count(), 25);
}

#[test]
fn after_start_every_library_holds_its_deck() {
    let mut game = Game::new(3);
    let decks: HashMap<u32, Deck> = [
        (2, Deck::from(&[("Forest", 7), ("Llanowar Elves", 4), ("Forest", 2)])),
        (0, Deck::from(&[("Plains", 3), ("Soulmender", 1)])),
        (1, Deck::from(&[])),
    ]
    .into();
    assert_eq!(game.start(&database(), &decks), Ok(()));
    assert_eq!(game.object_count(), 17);
    let sizes = [4usize, 0, 13];
    for (position, size) in sizes.iter().enumerate() {
        let player = PlayerId(position as u32);
        let library = game.library(player).expect("a player without a library");
        assert_eq!(library.len(), *size);
        let cards = library.cards().to_vec();
        for object in &cards {
            assert_eq!(game.zone_of(*object), Some(Zone::Library(player)));
            assert_eq!(game.owner_of(*object), Some(Owner(player)));
            assert!(game.is_object(*object));
            assert!(game.name_of(*object).is_some());
            assert!(game.color_of(*object).is_some());
            assert!(game.type_line_of(*object).is_some());
        }
        let in_zone = game.objects_in_zone(&Zone::Library(player));
        assert_eq!(sorted(&in_zone), sorted(&cards));
        let mut distinct = sorted(&cards);
        distinct.dedup();
        assert_eq!(distinct.len(), *size);
    }
    let green = game.library(PlayerId(2)).expect("no library").cards().to_vec();
    let mut names: Vec<String> = green
        .iter()
        .map(|object| game.name_of(*object).expect("an object without a name").0)
        .collect();
    names.sort();
    let mut expected = vec!["Forest".to_string(); 9];
    expected.extend(vec!["Llanowar Elves".to_string(); 4]);
    assert_eq!(names, expected);
    let creatures = green
        .iter()
        .filter(|object| game.color_of(**object) == Some(ColorKind::Monocolored(Color::Green)))
        .count();
    assert_eq!(creatures, 4);
    let lands = green.iter().filter(|object| game.mana_cost_of(**object).is_none()).count();
    assert_eq!(lands, 9);
}

#[test]
fn starting_again_adds_to_the_libraries() {
    let mut game = Game::new(1);
    let decks: HashMap<u32, Deck> = [(0, Deck::from(&[("Plains", 5)]))].into();
    assert_eq!(game.start(&database(), &decks), Ok(()));
    let before = game.library(PlayerId(0)).expect("no library").cards().to_vec();
    assert_eq!(before.len(), 5);
    let more: HashMap<u32, Deck> = [(0, Deck::from(&[("Forest", 2)]))].into();
    assert_eq!(game.start(&database(), &more), Ok(()));
    let after = game.library(PlayerId(0)).expect("no library").cards().to_vec();
    assert_eq!(after.len(), 7);
    for object in &before {
        assert!(after.contains(object));
        assert_eq!(game.name_of(*object).map(|name| name.0), Some("Plains".to_string()));
    }
    let forests = after
        .iter()
        .filter(|object| game.name_of(**object).map(|name| name.0) == Some("Forest".to_string()))
        .count();
    assert_eq!(forests, 2);
    assert_eq!(game.object_count(), 7);
}

#[test]
fn decks_that_do_not_cover_the_players_are_refused() {
    let database = database();
    let deck = || Deck::from(&[("Plains", 2)]);
    let refused: Vec<HashMap<u32, Deck>> = vec![
        HashMap::new(),
        [(0, deck())].into(),
        [(1, deck())].into(),
        [(0, deck()), (2, deck())].into(),
        [(1, deck()), (2, deck())].into(),
        [(0, deck()), (1, deck()), (2, deck())].into(),
        [(0, deck()), (u32::MAX, deck())].into(),
    ];
    for decks in &refused {
        let mut game = Game::new(2);
        assert_eq!(game.start(&database, decks), Err(GameError::DeckMismatch));
        assert_eq!(game.object_count(), 0);
        assert_eq!(game.library(PlayerId(0)).map(|library| library.len()), Some(0));
        assert_eq!(game.library(PlayerId(1)).map(|library| library.len()), Some(0));
    }
    let mut game = Game::new(2);
    let unknown: HashMap<u32, Deck> = [(0, Deck::from(&[("Black Lotus", 1)]))].into();
    assert_eq!(game.start(&database, &unknown), Err(GameError::DeckMismatch));
}

#[test]
fn a_deck_with_an_unknown_card_leaves_the_game_as_it_was() {
    let database = database();
    let mut game = Game::new(2);
    let decks: HashMap<u32, Deck> = [
        (0, Deck::from(&[("Plains", 30), ("Soulmender", 30)])),
        (1, Deck::from(&[("Forest", 30), ("Black Lotus", 1)])),
    ]
    .into();
    assert_eq!(game.start(&database, &decks), Err(GameError::UnknownCard));
    assert_eq!(game.object_count(), 0);
    assert_eq!(game.library(PlayerId(0)).map(|library| library.len()), Some(0));
    assert_eq!(game.library(PlayerId(1)).map(|library| library.len()), Some(0));
    assert!(game.objects_in_zone(&Zone::Library(PlayerId(0))).is_empty());
    let too_many: HashMap<u32, Deck> = [
        (0, Deck::from(&[("Plains", u32::MAX), ("Plains", u32::MAX)])),
        (1, Deck::from(&[("Black Lotus", 0)])),
    ]
    .into();
    assert_eq!(game.start(&database, &too_many), Err(GameError::UnknownCard));
}

#[test]
fn decks_that_the_game_cannot_hold_are_refused() {
    let database = database();
    let mut game = Game::new(2);
    let card = Card::default();
    let first = game.spawn_object(&card, &Zone::Library(PlayerId(1))).expect("the spawn failed");
    let refused: Vec<HashMap<u32, Deck>> = vec![
        [(0, Deck::from(&[("Plains", u32::MAX)])), (1, Deck::from(&[]))].into(),
        [(0, Deck::from(&[("Plains", u32::MAX - 1)])), (1, Deck::from(&[("Forest", 1)]))].into(),
        [(0, Deck::from(&[("Plains", 1)])), (1, Deck::from(&[("Forest", u32::MAX - 1)]))].into(),
        [
            (0, Deck::from(&[("Plains", u32::MAX), ("Soulmender", u32::MAX)])),
            (1, Deck::from(&[("Forest", u32::MAX)])),
        ]
        .into(),
    ];
    for decks in &refused {
        assert_eq!(game.start(&database, decks), Err(GameError::TooManyObjects));
        assert_eq!(game.object_count(), 1);
        assert_eq!(game.library(PlayerId(0)).map(|library| library.len()), Some(0));
        assert_eq!(
            game.library(PlayerId(1)).map(|library| library.cards().to_vec()),
            Some(vec![first])
        );
    }
}

#[test]
fn shuffling_keeps_the_objects_of_a_library() {
    let mut library = Library::default();
    assert_eq!(library.len(), 0);
    library.shuffle();
    assert_eq!(library.len(), 0);
    let objects: Vec<ObjectId> = (1..=60).map(|bits| ObjectId(bits * 3)).collect();
    for object in &objects {
        library.push(*object);
    }
    assert_eq!(library.cards().to_vec(), objects);
    let mut moved = false;
    for _ in 0..20 {
        library.shuffle();
        assert_eq!(library.len(), 60);
        assert_eq!(sorted(library.cards()), sorted(&objects));
        if library.cards() != objects.as_slice() {
            moved = true;
        }
    }
    assert!(moved);
}

#[test]
fn shuffling_keeps_repeated_objects_as_often_as_before() {
    let mut library = Library::default();
    let objects = [ObjectId(5), ObjectId(5), ObjectId(9), ObjectId(5), ObjectId(1)];
    for object in objects {
        library.push(object);
    }
    for _ in 0..10 {
        library.shuffle();
        assert_eq!(sorted(library.cards()), vec![1, 5, 5, 5, 9]);
    }
}

#[test]
fn shuffling_the_library_of_a_player_leaves_the_others_alone() {
    let mut game = Game::new(3);
    let decks: HashMap<u32, Deck> = [
        (0, Deck::from(&[("Plains", 20), ("Soulmender", 20)])),
        (1, Deck::from(&[("Forest", 20), ("Llanowar Elves", 20)])),
        (2, Deck::from(&[("Forest", 1)])),
    ]
    .into();
    assert_eq!(game.start(&database(), &decks), Ok(()));
    let cards = |game: &Game, player: u32| {
        game.library(PlayerId(player)).expect("no library").cards().to_vec()
    };
    let first = cards(&game, 0);
    let second = cards(&game, 1);
    let third = cards(&game, 2);
    let mut moved = false;
    for _ in 0..10 {
        assert_eq!(game.shuffle_library(PlayerId(1)), Ok(()));
        assert_eq!(cards(&game, 0), first);
        assert_eq!(cards(&game, 2), third);
        let shuffled = cards(&game, 1);
        assert_eq!(sorted(&shuffled), sorted(&second));
        if shuffled != second {
            moved = true;
        }
        for object in &shuffled {
            assert_eq!(game.zone_of(*object), Some(Zone::Library(PlayerId(1))));
            assert_eq!(game.owner_of(*object), Some(Owner(PlayerId(1))));
        }
        assert_eq!(game.objects_in_zone(&Zone::Library(PlayerId(1))).len(), 40);
    }
    assert!(moved);
    assert_eq!(game.object_count(), 81);
    assert_eq!(game.shuffle_library(PlayerId(3)), Err(GameError::UnknownPlayer));
    assert_eq!(game.shuffle_library(PlayerId(u32::MAX)), Err(GameError::UnknownPlayer));
    assert_eq!(cards(&game, 0), first);
    assert_eq!(cards(&game, 2), third);
}

#[test]
fn the_libraries_of_a_started_game_are_shuffled() {
    let database = database();
    let mut orders: Vec<Vec<String>> = Vec::new();
    for _ in 0..8 {
        let mut game = Game::new(1);
        let decks: HashMap<u32, Deck> =
            [(0, Deck::from(&[("Plains", 30), ("Soulmender", 30)]))].into();
        assert_eq!(game.start(&database, &decks), Ok(()));
        let library = game.library(PlayerId(0)).expect("no library");
        let names: Vec<String> = library
            .cards()
            .iter()
            .map(|object| game.name_of(*object).expect("an object without a name").0)
            .collect();
        assert_eq!(names.iter().filter(|name| name.as_str() == "Plains").count(), 30);
        assert_eq!(names.iter().filter(|name| name.as_str() == "Soulmender").count(), 30);
        orders.push(names);
    }
    let unshuffled: Vec<String> = std::iter::repeat("Plains".to_string())
        .take(30)
        .chain(std::iter::repeat("Soulmender".to_string()).take(30))
        .collect();
    assert!(orders.iter().any(|order| *order != unshuffled));
}
