//! The game session: the players, the store of all objects, and one library
//! for each player.

use crate::card::{
    Card, CardView, CollectorNumber, ExpansionSymbol, Loyalty, Name, PtCharacteristic, RulesText,
    TypeLine,
};
use crate::color::ColorKind;
use crate::components::{Components, Controller, Object, ObjectId, Owner};
use crate::database::CardDatabase;
use crate::deck::{
    card_copies, deck_objects, deck_resolves, lemma_deck_objects_len, lemma_deck_objects_prefix,
    resolved_deck, Deck,
};
use crate::error::GameError;
use crate::game_view::{
    id_at, lemma_decks_size_grows, lemma_grown_by_nothing, lemma_grown_twice, lemma_ids_below,
    lemma_library_loaded, lemma_reordered_library, resolved_view, GameView,
};
use crate::library::Library;
use crate::mana::ManaCost;
use crate::player::{player_name, Player, PlayerId, PlayerView, Zone};
use crate::world::{
    builder_add, builder_components, builder_new, world_get, world_len, world_new, world_objects,
    world_spawn, world_zones,
};
use hecs::World;
use std::collections::HashMap;
use vstd::prelude::*;

verus! {

/// 100.1. These Magic rules apply to any Magic game with two or more players, including two-player
///        games and multiplayer games.
pub struct Game {
    world: World,
    players: Vec<Player>,
    libraries: Vec<Library>,
}

impl View for Game {
    type V = GameView;

    closed spec fn view(&self) -> GameView {
        GameView {
            players: self.players@.map_values(|player: Player| player@),
            libraries: self.libraries@.map_values(|library: Library| library@),
            objects: world_objects(self.world),
        }
    }
}

impl Game {
    /// 119.1. Each player begins the game with a starting life total of 20. Some variant games have
    ///        different starting life totals.
    ///
    /// A game of the given number of players, with the ids 0, 1, 2 and so
    /// on, each with 20 life, an empty library and the name "Player" with
    /// the player's number counted from one. The game has no objects yet.
    pub fn new(players: u32) -> (game: Game)
        ensures
            game@.wf(),
            game@.players.len() == players,
            forall|p: int|
                0 <= p < players ==> #[trigger] game@.players[p] == (PlayerView {
                    id: PlayerId(p as u32),
                    name: player_name(PlayerId(p as u32)),
                    life: 20,
                }),
            forall|p: int|
                0 <= p < players ==> #[trigger] game@.libraries[p] == Seq::<ObjectId>::empty(),
            game@.objects == Map::<ObjectId, Components>::empty(),
    {
        let mut roster: Vec<Player> = Vec::new();
        let mut libraries: Vec<Library> = Vec::new();
        let mut i: u32 = 0;
        while i < players
            invariant
                i <= players,
                roster@.len() == i,
                libraries@.len() == i,
                forall|p: int|
                    0 <= p < i ==> (#[trigger] roster@[p])@ == (PlayerView {
                        id: PlayerId(p as u32),
                        name: player_name(PlayerId(p as u32)),
                        life: 20,
                    }),
                forall|p: int|
                    0 <= p < i ==> (#[trigger] libraries@[p])@ == Seq::<ObjectId>::empty(),
            decreases players - i,
        {
            roster.push(Player::new(PlayerId(i)));
            libraries.push(Library::default());
            i = i + 1;
        }
        let world = world_new();
        let game = Game { world, players: roster, libraries };
        proof {
            assert(game@.objects =~= Map::<ObjectId, Components>::empty());
            assert(game@.objects.dom() =~= Set::<ObjectId>::empty());
        }
        game
    }

    /// Returns a slice of players within the current game.
    pub fn players(&self) -> (players: &[Player])
        ensures
            players@.map_values(|player: Player| player@) == self@.players,
    {
        self.players.as_slice()
    }

    /// The library of a player, if the game has the player.
    pub fn library(&self, player: PlayerId) -> (library: Option<&Library>)
        requires
            self@.wf(),
        ensures
            match library {
                Some(found) => self@.has_player(player) && found@ == self@.library(player),
                None => !self@.has_player(player),
            },
    {
        let index = player.0 as usize;
        if index < self.libraries.len() {
            Some(&self.libraries[index])
        } else {
            None
        }
    }

    /// The number of objects in the game.
    pub fn object_count(&self) -> (count: u32)
        ensures
            count == self@.objects.dom().len(),
    {
        world_len(&self.world)
    }

    /// Spawns an instance of a [`Card`] in the specified [`Zone`].
    ///
    /// The new object gets the characteristics of the card: name, type
    /// line, expansion symbol, rules text, collector number and derived
    /// colour always; mana cost, power and toughness, and loyalty where the
    /// card has them. The player of the library becomes its owner, and the
    /// object goes to the end of that library. Only a library is supported
    /// as the zone.
    pub fn spawn_object(&mut self, card: &Card, zone: &Zone) -> (spawned: Result<
        ObjectId,
        GameError,
    >)
        requires
            old(self)@.wf(),
        ensures
            final(self)@.wf(),
            match spawned {
                Ok(object) => {
                    &&& old(self)@.spawn_refusal(*zone) is None
                    &&& *zone matches Zone::Library(owner)
                    &&& !old(self)@.objects.dom().contains(object)
                    &&& final(self)@.objects == old(self)@.objects.insert(
                        object,
                        Components::of_card(card@, owner, *zone),
                    )
                    &&& final(self)@.libraries == old(self)@.libraries.update(
                        owner.0 as int,
                        old(self)@.library(owner).push(object),
                    )
                    &&& final(self)@.players == old(self)@.players
                },
                Err(error) => {
                    &&& old(self)@.spawn_refusal(*zone) == Some(error)
                    &&& final(self)@ == old(self)@
                },
            },
    {
        match *zone {
            Zone::Library(owner) => {
                let index = owner.0 as usize;
                if index >= self.libraries.len() {
                    return Err(GameError::UnknownPlayer);
                }
                if world_len(&self.world) == u32::MAX {
                    return Err(GameError::TooManyObjects);
                }
                let mut builder = builder_new();
                builder_add(&mut builder, Object);
                builder_add(&mut builder, card.name.clone());
                builder_add(&mut builder, card.type_line.clone());
                builder_add(&mut builder, card.expansion_symbol.clone());
                builder_add(&mut builder, card.rules_text.clone());
                builder_add(&mut builder, card.collector_number);
                builder_add(&mut builder, card.color());
                if let Some(mana_cost) = &card.mana_cost {
                    builder_add(&mut builder, mana_cost.clone());
                }
                if let Some(pt) = card.pt {
                    builder_add(&mut builder, pt);
                }
                if let Some(loyalty) = card.loyalty {
                    builder_add(&mut builder, loyalty);
                }
                // 108.3. The owner of a card in the game is the player who started the game
                //        with it in their deck. [...]
                builder_add(&mut builder, Owner(owner));
                builder_add(&mut builder, Zone::Library(owner));
                assert(builder_components(builder) == Components::of_card(card@, owner, *zone));
                let object = world_spawn(&mut self.world, &mut builder);
                self.libraries[index].push(object);
                proof {
                    let before = old(self)@;
                    let after = self@;
                    assert(after.libraries =~= before.libraries.update(
                        owner.0 as int,
                        before.library(owner).push(object),
                    ));
                    assert(after.players == before.players);
                    assert forall|p: int, i: int|
                        0 <= p < after.libraries.len() && 0 <= i
                            < after.libraries[p].len() implies after.in_library(
                        #[trigger] after.libraries[p][i],
                        PlayerId(p as u32),
                    ) by {
                        if p == index && i == before.libraries[p].len() {
                        } else {
                            assert(before.in_library(before.libraries[p][i], PlayerId(p as u32)));
                        }
                    }
                    assert forall|p: int| 0 <= p < after.libraries.len() implies (
                    #[trigger] after.libraries[p]).no_duplicates() by {
                        assert(before.libraries[p].no_duplicates());
                        if p == index {
                            assert forall|i: int|
                                0 <= i < before.libraries[p].len() implies before.libraries[p][i]
                                != object by {
                                assert(before.in_library(
                                    before.libraries[p][i],
                                    PlayerId(p as u32),
                                ));
                            }
                        }
                    }
                    assert forall|other: ObjectId, player: PlayerId| #[trigger]
                        after.placed_in_library(other, player) implies after.has_player(player)
                        && after.library(player).contains(other) by {
                        if other == object {
                            assert(after.library(player)[before.library(player).len() as int]
                                == object);
                        } else {
                            assert(before.placed_in_library(other, player));
                            assert(before.library(player).contains(other));
                            let i = choose|i: int|
                                0 <= i < before.library(player).len() && before.library(player)[i]
                                    == other;
                            assert(after.library(player)[i] == other);
                        }
                    }
                }
                Ok(object)
            },
            _ => Err(GameError::UnsupportedZone),
        }
    }

    /// Spawns `count` instances of a card in the library of `owner`.
    fn spawn_copies(&mut self, card: &Card, owner: PlayerId, count: u32)
        requires
            old(self)@.wf(),
            old(self)@.has_player(owner),
            old(self)@.objects.dom().len() + count <= u32::MAX,
        ensures
            final(self)@.wf(),
            old(self)@.grown_in(final(self)@, owner, card_copies(card@, owner, count as nat)),
    {
        let zone = Zone::Library(owner);
        let mut k: u32 = 0;
        proof {
            lemma_grown_by_nothing(self@, owner);
            assert(card_copies(card@, owner, 0) =~= Seq::<Components>::empty());
        }
        while k < count
            invariant
                k <= count,
                zone == Zone::Library(owner),
                self@.wf(),
                old(self)@.wf(),
                old(self)@.has_player(owner),
                old(self)@.objects.dom().len() + count <= u32::MAX,
                old(self)@.grown_in(self@, owner, card_copies(card@, owner, k as nat)),
            decreases count - k,
        {
            let ghost before = self@;
            let spawned = self.spawn_object(card, &zone);
            proof {
                let after = self@;
                let one = seq![Components::of_card(card@, owner, zone)];
                assert(spawned is Ok);
                let object = spawned->Ok_0;
                assert(after.library(owner)[before.library(owner).len() as int] == object);
                assert(before.new_in(after, object, one[0]));
                assert(before.grown_in(after, owner, one));
                lemma_grown_twice(
                    old(self)@,
                    before,
                    after,
                    owner,
                    card_copies(card@, owner, k as nat),
                    one,
                );
                assert(card_copies(card@, owner, k as nat) + one =~= card_copies(
                    card@,
                    owner,
                    (k + 1) as nat,
                ));
            }
            k = k + 1;
        }
    }

    /// Spawns the cards of a resolved deck in the library of `owner`: for
    /// each line in turn, as many instances of the card as the line says.
    fn spawn_deck(&mut self, cards: &Vec<(&Card, u32)>, owner: PlayerId)
        requires
            old(self)@.wf(),
            old(self)@.has_player(owner),
            old(self)@.objects.dom().len() + deck_objects(resolved_view(cards@), owner).len()
                <= u32::MAX,
        ensures
            final(self)@.wf(),
            old(self)@.grown_in(final(self)@, owner, deck_objects(resolved_view(cards@), owner)),
    {
        let ghost lines = resolved_view(cards@);
        let mut i: usize = 0;
        proof {
            lemma_grown_by_nothing(self@, owner);
            assert(lines.take(0) =~= Seq::<(CardView, u32)>::empty());
        }
        while i < cards.len()
            invariant
                i <= cards.len(),
                lines == resolved_view(cards@),
                lines.len() == cards@.len(),
                self@.wf(),
                old(self)@.wf(),
                old(self)@.has_player(owner),
                old(self)@.objects.dom().len() + deck_objects(lines, owner).len() <= u32::MAX,
                old(self)@.grown_in(self@, owner, deck_objects(lines.take(i as int), owner)),
            decreases cards.len() - i,
        {
            let ghost before = self@;
            let (card, count) = cards[i];
            proof {
                assert(lines[i as int] == (card@, count));
                assert(lines.take(i + 1).drop_last() =~= lines.take(i as int));
                assert(lines.take(i + 1).last() == lines[i as int]);
                lemma_deck_objects_prefix(lines, owner, i + 1);
            }
            self.spawn_copies(card, owner, count);
            proof {
                lemma_grown_twice(
                    old(self)@,
                    before,
                    self@,
                    owner,
                    deck_objects(lines.take(i as int), owner),
                    card_copies(card@, owner, count as nat),
                );
            }
            i = i + 1;
        }
        proof {
            assert(lines.take(i as int) =~= lines);
        }
    }

    /// The decks in the order of the players, where they are one for each
    /// player of the game.
    fn decks_in_order<'a>(&self, decks: &'a HashMap<u32, Deck>) -> (ordered: Option<Vec<&'a Deck>>)
        requires
            self@.wf(),
        ensures
            ordered is Some <==> decks@.dom() == self@.roster(),
            ordered matches Some(found) ==> found@.len() == self@.players.len() && forall|id: u32|
                id < self@.players.len() ==> found@[id as int] == #[trigger] decks@[id],
    {
        broadcast use vstd::std_specs::hash::group_hash_axioms;

        let players = self.players.len();
        proof {
            lemma_ids_below(players as nat);
        }
        if decks.len() != players {
            return None;
        }
        let mut ordered: Vec<&'a Deck> = Vec::new();
        let mut id: u32 = 0;
        while (id as usize) < players
            invariant
                id <= players,
                players == self@.players.len(),
                players <= u32::MAX,
                ordered@.len() == id,
                forall|p: int| 0 <= p < id ==> decks@.dom().contains(#[trigger] id_at(p)),
                forall|p: int| 0 <= p < id ==> #[trigger] ordered@[p] == decks@[id_at(p)],
            decreases players - id,
        {
            match decks.get(&id) {
                Some(deck) => {
                    ordered.push(deck);
                },
                None => {
                    assert(self@.roster().contains(id));
                    return None;
                },
            }
            assert(id_at(id as int) == id);
            id = id + 1;
        }
        proof {
            assert(self@.roster().subset_of(decks@.dom())) by {
                assert forall|known: u32|
                    self@.roster().contains(known) implies decks@.dom().contains(known) by {
                    assert(id_at(known as int) == known);
                }
            }
            vstd::set_lib::lemma_subset_equality(self@.roster(), decks@.dom());
            assert forall|known: u32| known < self@.players.len() implies ordered@[known as int]
                == #[trigger] decks@[known] by {
                assert(id_at(known as int) == known);
            }
        }
        Some(ordered)
    }

    /// The cards of each player's deck, looked up in the database.
    fn resolve_decks<'a>(database: &'a CardDatabase, decks: &Vec<&Deck>) -> (resolved: Result<
        Vec<Vec<(&'a Card, u32)>>,
        GameError,
    >)
        ensures
            match resolved {
                Ok(cards) => {
                    &&& cards@.len() == decks@.len()
                    &&& forall|p: int|
                        0 <= p < decks@.len() ==> deck_resolves(database@, (#[trigger] decks@[p])@)
                            && resolved_view(cards@[p]@) == resolved_deck(database@, decks@[p]@)
                },
                Err(error) => {
                    &&& error == GameError::UnknownCard
                    &&& exists|p: int|
                        0 <= p < decks@.len() && !deck_resolves(database@, (#[trigger] decks@[p])@)
                },
            },
    {
        let mut resolved: Vec<Vec<(&'a Card, u32)>> = Vec::new();
        let mut p: usize = 0;
        while p < decks.len()
            invariant
                p <= decks@.len(),
                resolved@.len() == p,
                forall|q: int|
                    0 <= q < p ==> deck_resolves(database@, (#[trigger] decks@[q])@)
                        && resolved_view(resolved@[q]@) == resolved_deck(database@, decks@[q]@),
            decreases decks@.len() - p,
        {
            match decks[p].cards(database) {
                Ok(cards) => {
                    assert(resolved_view(cards@) =~= resolved_deck(database@, decks@[p as int]@));
                    resolved.push(cards);
                },
                Err(error) => {
                    assert(!deck_resolves(database@, decks@[p as int]@));
                    return Err(error);
                },
            }
            p = p + 1;
        }
        Ok(resolved)
    }

    /// Whether the game can hold the cards of all decks besides the objects
    /// that it has.
    fn decks_fit(&self, decks: &Vec<&Deck>, Ghost(by_id): Ghost<Map<u32, Deck>>) -> (fit: bool)
        requires
            self@.wf(),
            decks@.len() == self@.players.len(),
            forall|id: u32| id < decks@.len() ==> decks@[id as int] == #[trigger] by_id[id],
        ensures
            fit == (self@.objects.dom().len() + GameView::decks_size(by_id, self@.players.len())
                <= u32::MAX),
    {
        let room: u64 = (u32::MAX - world_len(&self.world)) as u64;
        let mut total: u64 = 0;
        let mut p: usize = 0;
        while p < decks.len()
            invariant
                p <= decks@.len(),
                decks@.len() == self@.players.len(),
                decks@.len() <= u32::MAX,
                forall|id: u32| id < decks@.len() ==> decks@[id as int] == #[trigger] by_id[id],
                room == u32::MAX - self@.objects.dom().len(),
                total == GameView::decks_size(by_id, p as nat),
                total <= room,
            decreases decks@.len() - p,
        {
            proof {
                lemma_decks_size_grows(by_id, (p + 1) as nat, decks@.len());
                assert(decks@[p as int] == by_id[p as u32]);
            }
            match decks[p].size() {
                Some(size) => {
                    total = total + size as u64;
                    if total > room {
                        return false;
                    }
                },
                None => {
                    return false;
                },
            }
            p = p + 1;
        }
        true
    }

    /// Spawns the cards of every player's deck in that player's library, in
    /// the order of the deck.
    fn load_decks(
        &mut self,
        resolved: &Vec<Vec<(&Card, u32)>>,
        Ghost(database): Ghost<Seq<CardView>>,
        Ghost(decks): Ghost<Map<u32, Deck>>,
    )
        requires
            old(self)@.wf(),
            resolved@.len() == old(self)@.players.len(),
            forall|id: u32|
                id < old(self)@.players.len() ==> resolved_view(resolved@[id as int]@)
                    == resolved_deck(database, (#[trigger] decks[id])@),
            old(self)@.objects.dom().len() + GameView::decks_size(
                decks,
                old(self)@.players.len(),
            ) <= u32::MAX,
        ensures
            final(self)@.wf(),
            final(self)@.players == old(self)@.players,
            final(self)@.libraries.len() == old(self)@.libraries.len(),
            old(self)@.objects_kept_in(final(self)@),
            final(self)@.objects.dom().len() == old(self)@.objects.dom().len()
                + GameView::decks_size(decks, old(self)@.players.len()),
            forall|id: u32|
                id < old(self)@.players.len() ==> old(self)@.library_grown_in(
                    final(self)@,
                    PlayerId(id),
                    deck_objects(resolved_deck(database, (#[trigger] decks[id])@), PlayerId(id)),
                ),
    {
        let players = self.players.len();
        let mut id: u32 = 0;
        while (id as usize) < players
            invariant
                id <= players,
                players == old(self)@.players.len(),
                players <= u32::MAX,
                old(self)@.wf(),
                self@.wf(),
                self@.players == old(self)@.players,
                self@.libraries.len() == old(self)@.libraries.len(),
                resolved@.len() == players,
                forall|known: u32|
                    known < players ==> resolved_view(resolved@[known as int]@) == resolved_deck(
                        database,
                        (#[trigger] decks[known])@,
                    ),
                old(self)@.objects.dom().len() + GameView::decks_size(decks, players as nat)
                    <= u32::MAX,
                old(self)@.objects_kept_in(self@),
                self@.objects.dom().len() == old(self)@.objects.dom().len()
                    + GameView::decks_size(decks, id as nat),
                forall|known: u32|
                    known < id ==> old(self)@.library_grown_in(
                        self@,
                        PlayerId(known),
                        deck_objects(
                            resolved_deck(database, (#[trigger] decks[known])@),
                            PlayerId(known),
                        ),
                    ),
                forall|p: int|
                    id <= p < players ==> #[trigger] self@.libraries[p] == old(self)@.libraries[p],
            decreases players - id,
        {
            let ghost before = self@;
            let ghost first = old(self)@;
            let owner = PlayerId(id);
            let ghost added = deck_objects(resolved_deck(database, decks[id]@), owner);
            proof {
                lemma_deck_objects_len(database, decks[id]@, owner);
                lemma_decks_size_grows(decks, (id + 1) as nat, players as nat);
            }
            self.spawn_deck(&resolved[id as usize], owner);
            proof {
                let after = self@;
                assert(before.grown_in(after, owner, added));
                assert forall|object: ObjectId| #[trigger]
                    first.objects.dom().contains(object) implies after.objects.dom().contains(
                    object,
                ) && after.objects[object] == first.objects[object] by {
                    assert(before.objects.dom().contains(object));
                }
                assert forall|known: u32| known < id + 1 implies first.library_grown_in(
                    after,
                    PlayerId(known),
                    deck_objects(
                        resolved_deck(database, (#[trigger] decks[known])@),
                        PlayerId(known),
                    ),
                ) by {
                    let player = PlayerId(known);
                    let items = deck_objects(resolved_deck(database, decks[known]@), player);
                    if known < id {
                        assert(first.library_grown_in(before, player, items));
                        assert(after.libraries[known as int] == before.libraries[known as int]);
                        assert forall|k: int| 0 <= k < items.len() implies first.new_in(
                            after,
                            after.library(player)[first.library(player).len() + k],
                            #[trigger] items[k],
                        ) by {
                            let object = before.library(player)[first.library(player).len() + k];
                            assert(first.new_in(before, object, items[k]));
                            assert(before.objects.dom().contains(object));
                        }
                    } else {
                        assert(before.libraries[id as int] == first.libraries[id as int]);
                        assert forall|k: int| 0 <= k < items.len() implies first.new_in(
                            after,
                            after.library(player)[first.library(player).len() + k],
                            #[trigger] items[k],
                        ) by {
                            let object = after.library(player)[before.library(player).len() + k];
                            assert(before.new_in(after, object, items[k]));
                            if first.objects.dom().contains(object) {
                                assert(before.objects.dom().contains(object));
                            }
                        }
                    }
                }
                assert forall|p: int| id + 1 <= p < players implies #[trigger] after.libraries[p]
                    == first.libraries[p] by {
                    assert(after.libraries[p] == before.libraries[p]);
                }
            }
            id = id + 1;
        }
    }

    /// Shuffles the library of a player, and leaves the libraries of the
    /// other players as they are. The library holds the same objects
    /// afterwards; only their order may have changed.
    pub fn shuffle_library(&mut self, player: PlayerId) -> (shuffled: Result<(), GameError>)
        requires
            old(self)@.wf(),
        ensures
            final(self)@.wf(),
            match shuffled {
                Ok(_) => {
                    &&& old(self)@.has_player(player)
                    &&& final(self)@.players == old(self)@.players
                    &&& final(self)@.objects == old(self)@.objects
                    &&& final(self)@.libraries.len() == old(self)@.libraries.len()
                    &&& forall|p: int|
                        0 <= p < old(self)@.libraries.len() && p != player.0
                            ==> #[trigger] final(self)@.libraries[p] == old(self)@.libraries[p]
                    &&& final(self)@.library(player).to_multiset() == old(self)@.library(
                        player,
                    ).to_multiset()
                },
                Err(error) => {
                    &&& error == GameError::UnknownPlayer
                    &&& !old(self)@.has_player(player)
                    &&& final(self)@ == old(self)@
                },
            },
    {
        let index = player.0 as usize;
        if index >= self.libraries.len() {
            return Err(GameError::UnknownPlayer);
        }
        self.libraries[index].shuffle();
        proof {
            let before = old(self)@;
            let after = self@;
            assert(after.libraries =~= before.libraries.update(
                index as int,
                after.libraries[index as int],
            ));
            lemma_reordered_library(before, after, player);
        }
        Ok(())
    }

    /// Shuffles the library of every player.
    fn shuffle_libraries(&mut self)
        requires
            old(self)@.wf(),
        ensures
            final(self)@.wf(),
            final(self)@.players == old(self)@.players,
            final(self)@.objects == old(self)@.objects,
            final(self)@.libraries.len() == old(self)@.libraries.len(),
            forall|p: int|
                0 <= p < old(self)@.libraries.len() ==> #[trigger] old(self)@.reordered_in(
                    final(self)@,
                    p,
                ),
    {
        let players = self.players.len();
        let mut id: u32 = 0;
        while (id as usize) < players
            invariant
                id <= players,
                players == old(self)@.libraries.len(),
                players <= u32::MAX,
                old(self)@.wf(),
                self@.wf(),
                self@.players == old(self)@.players,
                self@.objects == old(self)@.objects,
                self@.libraries.len() == old(self)@.libraries.len(),
                forall|q: int| 0 <= q < id ==> #[trigger] old(self)@.reordered_in(self@, q),
                forall|q: int|
                    id <= q < players ==> #[trigger] self@.libraries[q] == old(self)@.libraries[q],
            decreases players - id,
        {
            let ghost first = old(self)@;
            let ghost before = self@;
            let shuffled = self.shuffle_library(PlayerId(id));
            proof {
                let after = self@;
                assert(shuffled is Ok);
                assert forall|q: int| 0 <= q < id + 1 implies #[trigger] first.reordered_in(
                    after,
                    q,
                ) by {
                    if q < id {
                        assert(first.reordered_in(before, q));
                        assert(after.libraries[q] == before.libraries[q]);
                    } else {
                        assert(before.libraries[q] == first.libraries[q]);
                    }
                }
                assert forall|q: int| id + 1 <= q < players implies #[trigger] after.libraries[q]
                    == first.libraries[q] by {
                    assert(after.libraries[q] == before.libraries[q]);
                }
            }
            id = id + 1;
        }
    }

    /// 103.2. After the starting player has been determined, each player shuffles their deck so
    ///        that the cards are in a random order. Each player may then shuffle or cut their
    ///        opponents' decks. The players' decks become their libraries.
    ///
    /// Starts the game with one deck for each player, keyed by the player's
    /// id. Every card of every deck is looked up by name in the database and
    /// spawned in its player's library, one object for each copy; then every
    /// library is shuffled. Where the decks do not cover the players one for
    /// one, a card is not in the database, or the game cannot hold all the
    /// cards, nothing is spawned and the game is as it was.
    pub fn start(&mut self, database: &CardDatabase, decks: &HashMap<u32, Deck>) -> (started:
        Result<(), GameError>)
        requires
            old(self)@.wf(),
        ensures
            final(self)@.wf(),
            match started {
                Ok(_) => {
                    &&& old(self)@.start_refusal(database@, decks@) is None
                    &&& old(self)@.started_in(final(self)@, database@, decks@)
                },
                Err(error) => {
                    &&& old(self)@.start_refusal(database@, decks@) == Some(error)
                    &&& final(self)@ == old(self)@
                },
            },
    {
        let ordered = match self.decks_in_order(decks) {
            Some(ordered) => ordered,
            None => {
                return Err(GameError::DeckMismatch);
            },
        };
        let resolved = match Game::resolve_decks(database, &ordered) {
            Ok(resolved) => resolved,
            Err(error) => {
                proof {
                    let p = choose|p: int|
                        0 <= p < ordered@.len() && !deck_resolves(
                            database@,
                            (#[trigger] ordered@[p])@,
                        );
                    assert(ordered@[p] == decks@[p as u32]);
                }
                return Err(error);
            },
        };
        proof {
            assert forall|id: u32| id < self@.players.len() implies deck_resolves(
                database@,
                (#[trigger] decks@[id])@,
            ) && resolved_view(resolved@[id as int]@) == resolved_deck(database@, decks@[id]@) by {
                assert(ordered@[id as int] == decks@[id]);
            }
        }
        if !self.decks_fit(&ordered, Ghost(decks@)) {
            return Err(GameError::TooManyObjects);
        }
        self.load_decks(&resolved, Ghost(database@), Ghost(decks@));
        let ghost grown = self@;
        self.shuffle_libraries();
        proof {
            let before = old(self)@;
            let after = self@;
            assert forall|object: ObjectId| #[trigger]
                before.objects.dom().contains(object) implies after.objects.dom().contains(object)
                && after.objects[object] == before.objects[object] by {
                assert(grown.objects.dom().contains(object));
            }
            assert forall|id: u32| id < before.players.len() implies before.library_loaded_in(
                after,
                PlayerId(id),
                database@,
                (#[trigger] decks@[id])@,
            ) by {
                assert(grown.reordered_in(after, id as int));
                lemma_library_loaded(before, grown, after, PlayerId(id), database@, decks@[id]@);
            }
        }
        Ok(())
    }
    /// The objects of the game that are in the given zone, each once, in no
    /// particular order. For the library of a player they are the objects of
    /// that library, and as many.
    pub fn objects_in_zone(&self, zone: &Zone) -> (found: Vec<ObjectId>)
        requires
            self@.wf(),
        ensures
            found@.no_duplicates(),
            forall|object: ObjectId| found@.contains(object) <==> self@.is_object_in(object, *zone),
            forall|player: PlayerId|
                *zone == Zone::Library(player) && self@.has_player(player) ==> found@.len()
                    == (#[trigger] self@.library(player)).len() && found@.to_set()
                    == self@.library(player).to_set(),
            !(*zone is Library) ==> found@.len() == 0,
            *zone matches Zone::Library(player) ==> (!self@.has_player(player) ==> found@.len()
                == 0),
    {
        let all = world_zones(&self.world);
        let mut found: Vec<ObjectId> = Vec::new();
        let mut i: usize = 0;
        while i < all.len()
            invariant
                i <= all@.len(),
                found@.no_duplicates(),
                forall|object: ObjectId|
                    found@.contains(object) <==> exists|k: int|
                        0 <= k < i && (#[trigger] all@[k]).0 == object && all@[k].1 == *zone,
                forall|j: int, k: int|
                    0 <= j < k < all@.len() ==> (#[trigger] all@[j]).0 != (#[trigger] all@[k]).0,
            decreases all@.len() - i,
        {
            let (object, place) = all[i];
            let ghost before = found@;
            if place == *zone {
                found.push(object);
                proof {
                    assert(!before.contains(object)) by {
                        if before.contains(object) {
                            let k = choose|k: int|
                                0 <= k < i && (#[trigger] all@[k]).0 == object && all@[k].1
                                    == *zone;
                            assert(all@[k].0 != all@[i as int].0);
                        }
                    }
                    assert forall|other: ObjectId| found@.contains(other) <==> exists|k: int|
                        0 <= k < i + 1 && (#[trigger] all@[k]).0 == other && all@[k].1
                            == *zone by {
                        if found@.contains(other) {
                            let at = choose|at: int| 0 <= at < found@.len() && found@[at] == other;
                            if at < before.len() {
                                assert(before[at] == other);
                                assert(before.contains(other));
                                let k = choose|k: int|
                                    0 <= k < i && (#[trigger] all@[k]).0 == other && all@[k].1
                                        == *zone;
                                assert(0 <= k < i + 1 && all@[k].0 == other && all@[k].1 == *zone);
                            } else {
                                assert(all@[i as int].0 == other && all@[i as int].1 == *zone);
                            }
                        }
                        if exists|k: int|
                            0 <= k < i + 1 && (#[trigger] all@[k]).0 == other && all@[k].1
                                == *zone {
                            let k = choose|k: int|
                                0 <= k < i + 1 && (#[trigger] all@[k]).0 == other && all@[k].1
                                    == *zone;
                            if k < i {
                                assert(before.contains(other));
                                let at = choose|at: int|
                                    0 <= at < before.len() && before[at] == other;
                                assert(found@[at] == other);
                            } else {
                                assert(found@[before.len() as int] == other);
                            }
                        }
                    }
                }
            } else {
                proof {
                    assert forall|other: ObjectId| found@.contains(other) <==> exists|k: int|
                        0 <= k < i + 1 && (#[trigger] all@[k]).0 == other && all@[k].1
                            == *zone by {
                        if found@.contains(other) {
                            let k = choose|k: int|
                                0 <= k < i && (#[trigger] all@[k]).0 == other && all@[k].1
                                    == *zone;
                            assert(0 <= k < i + 1 && all@[k].0 == other && all@[k].1 == *zone);
                        }
                        if exists|k: int|
                            0 <= k < i + 1 && (#[trigger] all@[k]).0 == other && all@[k].1
                                == *zone {
                            let k = choose|k: int|
                                0 <= k < i + 1 && (#[trigger] all@[k]).0 == other && all@[k].1
                                    == *zone;
                            assert(k < i);
                        }
                    }
                }
            }
            i = i + 1;
        }
        proof {
            let game = self@;
            assert forall|object: ObjectId| found@.contains(object) <==> game.is_object_in(
                object,
                *zone,
            ) by {
                if found@.contains(object) {
                    let k = choose|k: int|
                        0 <= k < all@.len() && (#[trigger] all@[k]).0 == object && all@[k].1
                            == *zone;
                    assert(game.is_object_in(all@[k].0, *zone));
                }
                if game.is_object_in(object, *zone) {
                    let k = choose|k: int| 0 <= k < all@.len() && (#[trigger] all@[k]).0 == object;
                    assert(game.objects[all@[k].0].zone == Some(all@[k].1));
                }
            }
            assert forall|player: PlayerId|
                *zone == Zone::Library(player) && game.has_player(player) implies found@.len() == (
                #[trigger] game.library(player)).len() && found@.to_set() == game.library(
                player,
            ).to_set() by {
                let library = game.library(player);
                assert(game.libraries[player.0 as int].no_duplicates());
                assert forall|object: ObjectId| found@.contains(object) <==> library.contains(
                    object,
                ) by {
                    if found@.contains(object) {
                        assert(game.placed_in_library(object, player));
                    }
                    if library.contains(object) {
                        let at = choose|at: int| 0 <= at < library.len() && library[at] == object;
                        assert(game.in_library(
                            game.libraries[player.0 as int][at],
                            PlayerId(player.0),
                        ));
                    }
                }
                assert(found@.to_set() =~= library.to_set());
                found@.unique_seq_to_set();
                library.unique_seq_to_set();
            }
            if found@.len() > 0 {
                let object = found@[0];
                assert(found@.contains(object));
                assert(game.is_object_in(object, *zone));
                assert(game.is_library_card(object));
                if let Zone::Library(player) = *zone {
                    assert(game.placed_in_library(object, player));
                }
            }
        }
        found
    }

    /// Whether the game has the object, marked as an object.
    pub fn is_object(&self, object: ObjectId) -> (marked: bool)
        ensures
            marked == (self@.components_of(object).object is Some),
    {
        world_get::<Object>(&self.world, object).is_some()
    }

    /// The name of an object, if it has one.
    pub fn name_of(&self, object: ObjectId) -> (name: Option<Name>)
        ensures
            match name {
                Some(found) => self@.components_of(object).name == Some(found@),
                None => self@.components_of(object).name is None,
            },
    {
        world_get::<Name>(&self.world, object)
    }

    /// The type line of an object, if it has one.
    pub fn type_line_of(&self, object: ObjectId) -> (type_line: Option<TypeLine>)
        ensures
            match type_line {
                Some(found) => self@.components_of(object).type_line == Some(found@),
                None => self@.components_of(object).type_line is None,
            },
    {
        world_get::<TypeLine>(&self.world, object)
    }

    /// The expansion symbol of an object, if it has one.
    pub fn expansion_symbol_of(&self, object: ObjectId) -> (expansion_symbol: Option<
        ExpansionSymbol,
    >)
        ensures
            match expansion_symbol {
                Some(found) => self@.components_of(object).expansion_symbol == Some(found@),
                None => self@.components_of(object).expansion_symbol is None,
            },
    {
        world_get::<ExpansionSymbol>(&self.world, object)
    }

    /// The rules text of an object, if it has one.
    pub fn rules_text_of(&self, object: ObjectId) -> (rules_text: Option<RulesText>)
        ensures
            match rules_text {
                Some(found) => self@.components_of(object).rules_text == Some(found@),
                None => self@.components_of(object).rules_text is None,
            },
    {
        world_get::<RulesText>(&self.world, object)
    }

    /// The collector number of an object, if it has one.
    pub fn collector_number_of(&self, object: ObjectId) -> (collector_number: Option<
        CollectorNumber,
    >)
        ensures
            collector_number == self@.components_of(object).collector_number,
    {
        world_get::<CollectorNumber>(&self.world, object)
    }

    /// The colour of an object, if it has one.
    pub fn color_of(&self, object: ObjectId) -> (color: Option<ColorKind>)
        ensures
            color == self@.components_of(object).color,
    {
        world_get::<ColorKind>(&self.world, object)
    }

    /// The mana cost of an object, if it has one.
    pub fn mana_cost_of(&self, object: ObjectId) -> (mana_cost: Option<ManaCost>)
        ensures
            match mana_cost {
                Some(found) => self@.components_of(object).mana_cost == Some(found@),
                None => self@.components_of(object).mana_cost is None,
            },
    {
        world_get::<ManaCost>(&self.world, object)
    }

    /// The power and toughness of an object, if it has them.
    pub fn pt_of(&self, object: ObjectId) -> (pt: Option<PtCharacteristic>)
        ensures
            pt == self@.components_of(object).pt,
    {
        world_get::<PtCharacteristic>(&self.world, object)
    }

    /// The loyalty of an object, if it has one.
    pub fn loyalty_of(&self, object: ObjectId) -> (loyalty: Option<Loyalty>)
        ensures
            loyalty == self@.components_of(object).loyalty,
    {
        world_get::<Loyalty>(&self.world, object)
    }

    /// The owner of an object, if it has one.
    pub fn owner_of(&self, object: ObjectId) -> (owner: Option<Owner>)
        ensures
            owner == self@.components_of(object).owner,
    {
        world_get::<Owner>(&self.world, object)
    }

    /// The controller of an object, if it has one.
    pub fn controller_of(&self, object: ObjectId) -> (controller: Option<Controller>)
        ensures
            controller == self@.components_of(object).controller,
    {
        world_get::<Controller>(&self.world, object)
    }

    /// The zone of an object, if it has one.
    pub fn zone_of(&self, object: ObjectId) -> (zone: Option<Zone>)
        ensures
            zone == self@.components_of(object).zone,
    {
        world_get::<Zone>(&self.world, object)
    }
}

} // verus!
