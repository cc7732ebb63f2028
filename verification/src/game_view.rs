//! What a game is, and how a game can change: the model over which the
//! functions of [`Game`](crate::game::Game) are specified.

use crate::card::{Card, CardView};
use crate::components::{Components, ObjectId, Owner};
use crate::deck::{
    deck_objects, deck_resolves, deck_size, lemma_deck_objects_len, resolved_deck, Deck,
};
use crate::error::GameError;
use crate::player::{PlayerId, PlayerView, Zone};
use vstd::prelude::*;

verus! {

/// The id of the player at a position.
pub(crate) open spec fn id_at(position: int) -> u32 {
    position as u32
}

/// The ids 0, 1, 2 and so on below the given number.
pub open spec fn ids_below(players: nat) -> Set<u32> {
    Set::new(|id: u32| id < players)
}

/// What a game is: its players, the library of each player as the sequence
/// of its objects, and the objects of the game with what is attached to
/// each.
pub struct GameView {
    pub players: Seq<PlayerView>,
    pub libraries: Seq<Seq<ObjectId>>,
    pub objects: Map<ObjectId, Components>,
}

impl GameView {
    /// Whether the game has a player with the given id.
    pub open spec fn has_player(self, player: PlayerId) -> bool {
        player.0 < self.players.len()
    }

    /// The library of a player.
    pub open spec fn library(self, player: PlayerId) -> Seq<ObjectId> {
        self.libraries[player.0 as int]
    }

    /// Whether the zone of an object of the game is the library of a player.
    pub open spec fn placed_in_library(self, object: ObjectId, player: PlayerId) -> bool {
        &&& self.objects.dom().contains(object)
        &&& self.objects[object].zone == Some(Zone::Library(player))
    }

    /// Whether an object is a card in the library of a player: it is an
    /// object of the game, that library is its zone, and the player is its
    /// owner.
    pub open spec fn in_library(self, object: ObjectId, player: PlayerId) -> bool {
        &&& self.objects.dom().contains(object)
        &&& self.objects[object].is_card()
        &&& self.objects[object].zone == Some(Zone::Library(player))
        &&& self.objects[object].owner == Some(Owner(player))
    }

    /// Whether an object of the game is a card in a library: its zone is the
    /// library of a player, it is a card owned by that player, and it has no
    /// controller.
    pub open spec fn is_library_card(self, object: ObjectId) -> bool {
        match self.objects[object].zone {
            Some(Zone::Library(player)) => self.in_library(object, player)
                && self.objects[object].controller is None,
            _ => false,
        }
    }

    /// The invariant of a game. The players have the ids 0, 1, 2 and so on,
    /// and each has a library. No object is twice in a library. Every object
    /// of the game is a card in a library. The objects in the library of a
    /// player are exactly the objects of the game whose zone is that library,
    /// and they are owned by that player.
    pub open spec fn wf(self) -> bool {
        &&& self.players.len() == self.libraries.len()
        &&& self.players.len() <= u32::MAX
        &&& forall|p: int|
            0 <= p < self.players.len() ==> (#[trigger] self.players[p]).id == PlayerId(p as u32)
        &&& self.objects.dom().finite()
        &&& forall|p: int|
            0 <= p < self.libraries.len() ==> (#[trigger] self.libraries[p]).no_duplicates()
        &&& forall|p: int, i: int|
            0 <= p < self.libraries.len() && 0 <= i < self.libraries[p].len() ==> self.in_library(
                #[trigger] self.libraries[p][i],
                PlayerId(p as u32),
            )
        &&& forall|object: ObjectId| #[trigger]
            self.objects.dom().contains(object) ==> self.is_library_card(object)
        &&& forall|object: ObjectId, player: PlayerId| #[trigger]
            self.placed_in_library(object, player) ==> self.has_player(player) && self.library(
                player,
            ).contains(object)
    }

    /// What is attached to an object; nothing, where the game has no such
    /// object.
    pub open spec fn components_of(self, object: ObjectId) -> Components {
        if self.objects.dom().contains(object) {
            self.objects[object]
        } else {
            Components::none()
        }
    }

    /// Whether the game has the object, marked as an object, in the given
    /// zone.
    pub open spec fn is_object_in(self, object: ObjectId, zone: Zone) -> bool {
        &&& self.objects.dom().contains(object)
        &&& self.objects[object].object is Some
        &&& self.objects[object].zone == Some(zone)
    }

    /// What is attached to the objects of the library of a player, in the
    /// order of the library.
    pub open spec fn library_objects(self, player: PlayerId) -> Seq<Components> {
        self.library(player).map_values(|object: ObjectId| self.objects[object])
    }

    /// Every object of this game is an object of the game `after`, with the
    /// same attached to it.
    pub open spec fn objects_kept_in(self, after: GameView) -> bool {
        forall|object: ObjectId| #[trigger]
            self.objects.dom().contains(object) ==> after.objects.dom().contains(object)
                && after.objects[object] == self.objects[object]
    }

    /// `object` is no object of this game, and in the game `after` it is an
    /// object with `components` attached.
    pub open spec fn new_in(
        self,
        after: GameView,
        object: ObjectId,
        components: Components,
    ) -> bool {
        &&& !self.objects.dom().contains(object)
        &&& after.objects.dom().contains(object)
        &&& after.objects[object] == components
    }

    /// In the game `after`, the library of `player` is the library of this
    /// game followed by one new object for each item of `added`, in order,
    /// with that item attached.
    pub open spec fn library_grown_in(
        self,
        after: GameView,
        player: PlayerId,
        added: Seq<Components>,
    ) -> bool {
        &&& after.library(player).len() == self.library(player).len() + added.len()
        &&& forall|i: int|
            0 <= i < self.library(player).len() ==> #[trigger] after.library(player)[i]
                == self.library(player)[i]
        &&& forall|k: int|
            0 <= k < added.len() ==> self.new_in(
                after,
                after.library(player)[self.library(player).len() + k],
                #[trigger] added[k],
            )
    }

    /// The game `after` is this game with the library of `owner` grown by
    /// new objects with `added` attached, and nothing else changed.
    pub open spec fn grown_in(
        self,
        after: GameView,
        owner: PlayerId,
        added: Seq<Components>,
    ) -> bool {
        &&& after.players == self.players
        &&& after.libraries.len() == self.libraries.len()
        &&& forall|p: int|
            0 <= p < self.libraries.len() && p != owner.0 ==> #[trigger] after.libraries[p]
                == self.libraries[p]
        &&& self.library_grown_in(after, owner, added)
        &&& self.objects_kept_in(after)
        &&& after.objects.dom().len() == self.objects.dom().len() + added.len()
    }

    /// In the game `after`, the library at a position holds the objects that
    /// it holds in this game, each as often, in some order.
    pub open spec fn reordered_in(self, after: GameView, position: int) -> bool {
        after.libraries[position].to_multiset() == self.libraries[position].to_multiset()
    }

    /// The ids of the players of the game.
    pub open spec fn roster(self) -> Set<u32> {
        ids_below(self.players.len())
    }

    /// The number of cards in the decks of the first `players` players.
    pub open spec fn decks_size(decks: Map<u32, Deck>, players: nat) -> nat
        decreases players,
    {
        if players == 0 {
            0
        } else {
            GameView::decks_size(decks, (players - 1) as nat) + deck_size(
                decks[(players - 1) as u32]@,
            )
        }
    }

    /// Why the game cannot be started with the given decks, if it cannot: the
    /// decks are not one for each player of the game, the database lacks a
    /// card of some deck, or the game cannot hold the cards of all decks.
    pub open spec fn start_refusal(self, database: Seq<CardView>, decks: Map<u32, Deck>) -> Option<
        GameError,
    > {
        if decks.dom() != self.roster() {
            Some(GameError::DeckMismatch)
        } else if exists|id: u32|
            id < self.players.len() && !deck_resolves(database, (#[trigger] decks[id])@) {
            Some(GameError::UnknownCard)
        } else if self.objects.dom().len() + GameView::decks_size(decks, self.players.len())
            > u32::MAX {
            Some(GameError::TooManyObjects)
        } else {
            None
        }
    }

    /// In the game `after`, the library of `player` holds the objects that
    /// it holds in this game and one new object for each card of the deck,
    /// with the characteristics of that card, in some order.
    pub open spec fn library_loaded_in(
        self,
        after: GameView,
        player: PlayerId,
        database: Seq<CardView>,
        deck: Seq<(Seq<char>, u32)>,
    ) -> bool {
        &&& after.library(player).len() == self.library(player).len() + deck_size(deck)
        &&& after.library_objects(player).to_multiset() == self.library_objects(
            player,
        ).to_multiset().add(deck_objects(resolved_deck(database, deck), player).to_multiset())
        &&& forall|object: ObjectId|
            self.library(player).contains(object) ==> after.library(player).contains(object)
    }

    /// The game `after` is this game started with the given decks: the
    /// players are the same, the objects of this game are kept, each library
    /// is loaded with the cards of its player's deck, and there are no other
    /// new objects.
    pub open spec fn started_in(
        self,
        after: GameView,
        database: Seq<CardView>,
        decks: Map<u32, Deck>,
    ) -> bool {
        &&& after.players == self.players
        &&& after.libraries.len() == self.libraries.len()
        &&& self.objects_kept_in(after)
        &&& after.objects.dom().len() == self.objects.dom().len() + GameView::decks_size(
            decks,
            self.players.len(),
        )
        &&& forall|id: u32|
            id < self.players.len() ==> self.library_loaded_in(
                after,
                PlayerId(id),
                database,
                (#[trigger] decks[id])@,
            )
    }

    /// Why an object cannot be put into a zone, if it cannot: the zone is no
    /// library, the library is that of no player of the game, or the game is
    /// full.
    pub open spec fn spawn_refusal(self, zone: Zone) -> Option<GameError> {
        match zone {
            Zone::Library(owner) => if !self.has_player(owner) {
                Some(GameError::UnknownPlayer)
            } else if self.objects.dom().len() >= u32::MAX {
                Some(GameError::TooManyObjects)
            } else {
                None
            },
            _ => Some(GameError::UnsupportedZone),
        }
    }
}

/// After the start of a game whose libraries were empty, the library of
/// every player holds as many objects as the player's deck has cards, and
/// each object in it has that library as its zone and that player as its
/// owner.
pub proof fn lemma_started_libraries(
    before: GameView,
    after: GameView,
    database: Seq<CardView>,
    decks: Map<u32, Deck>,
    player: PlayerId,
)
    requires
        before.wf(),
        after.wf(),
        before.started_in(after, database, decks),
        before.has_player(player),
        before.library(player).len() == 0,
    ensures
        after.library(player).len() == deck_size(decks[player.0]@),
        forall|i: int|
            0 <= i < after.library(player).len() ==> {
                let object = #[trigger] after.library(player)[i];
                &&& after.objects.dom().contains(object)
                &&& after.objects[object].zone == Some(Zone::Library(player))
                &&& after.objects[object].owner == Some(Owner(player))
            },
{
    assert(before.library_loaded_in(after, PlayerId(player.0), database, decks[player.0]@));
    assert forall|i: int| 0 <= i < after.library(player).len() implies {
        let object = #[trigger] after.library(player)[i];
        &&& after.objects.dom().contains(object)
        &&& after.objects[object].zone == Some(Zone::Library(player))
        &&& after.objects[object].owner == Some(Owner(player))
    } by {
        assert(after.in_library(after.libraries[player.0 as int][i], PlayerId(player.0)));
    }
}

/// What is attached to the cards of a resolved deck, each card as a plain
/// value.
pub open spec fn resolved_view(cards: Seq<(&Card, u32)>) -> Seq<(CardView, u32)> {
    cards.map_values(|entry: (&Card, u32)| (entry.0@, entry.1))
}

/// A library that grows twice has grown by what was added the first time
/// followed by what was added the second time.
pub(crate) proof fn lemma_grown_twice(
    first: GameView,
    second: GameView,
    third: GameView,
    owner: PlayerId,
    added: Seq<Components>,
    more: Seq<Components>,
)
    requires
        first.has_player(owner),
        first.players.len() == first.libraries.len(),
        first.grown_in(second, owner, added),
        second.grown_in(third, owner, more),
    ensures
        first.grown_in(third, owner, added + more),
{
    let all = added + more;
    let start = first.library(owner).len();
    let middle = second.library(owner).len();
    assert forall|i: int| 0 <= i < start implies #[trigger] third.library(owner)[i]
        == first.library(owner)[i] by {
        assert(third.library(owner)[i] == second.library(owner)[i]);
    }
    assert forall|k: int| 0 <= k < all.len() implies first.new_in(
        third,
        third.library(owner)[start + k],
        #[trigger] all[k],
    ) by {
        if k < added.len() {
            let object = second.library(owner)[start + k];
            assert(first.new_in(second, object, added[k]));
            assert(third.library(owner)[start + k] == object);
            assert(second.objects.dom().contains(object));
        } else {
            let object = third.library(owner)[middle + (k - added.len())];
            assert(second.new_in(third, object, more[k - added.len()]));
            if first.objects.dom().contains(object) {
                assert(second.objects.dom().contains(object));
            }
        }
    }
    assert forall|object: ObjectId| #[trigger]
        first.objects.dom().contains(object) implies third.objects.dom().contains(object)
        && third.objects[object] == first.objects[object] by {
        assert(second.objects.dom().contains(object));
    }
    assert forall|p: int|
        0 <= p < first.libraries.len() && p != owner.0 implies #[trigger] third.libraries[p]
        == first.libraries[p] by {
        assert(second.libraries[p] == first.libraries[p]);
    }
}

/// A game has grown by nothing when it has not changed.
pub(crate) proof fn lemma_grown_by_nothing(game: GameView, owner: PlayerId)
    ensures
        game.grown_in(game, owner, Seq::<Components>::empty()),
{
}

/// There are as many ids below a number as the number says.
pub(crate) proof fn lemma_ids_below(players: nat)
    requires
        players <= u32::MAX,
    ensures
        ids_below(players).finite(),
        ids_below(players).len() == players,
    decreases players,
{
    if players == 0 {
        assert(ids_below(players) =~= Set::<u32>::empty());
    } else {
        lemma_ids_below((players - 1) as nat);
        assert(ids_below(players) =~= ids_below((players - 1) as nat).insert((players - 1) as u32));
    }
}

/// The decks of fewer players hold no more cards.
pub(crate) proof fn lemma_decks_size_grows(decks: Map<u32, Deck>, fewer: nat, players: nat)
    requires
        fewer <= players,
    ensures
        GameView::decks_size(decks, fewer) <= GameView::decks_size(decks, players),
    decreases players,
{
    if fewer < players {
        lemma_decks_size_grows(decks, fewer, (players - 1) as nat);
    }
}

/// Two sequences with the same items, each as often in the one as in the
/// other, still have the same items so after a function was applied to each
/// item.
pub(crate) proof fn lemma_map_permutation<A, B>(left: Seq<A>, right: Seq<A>, f: spec_fn(A) -> B)
    requires
        left.to_multiset() == right.to_multiset(),
    ensures
        left.map_values(f).to_multiset() == right.map_values(f).to_multiset(),
    decreases left.len(),
{
    broadcast use
        vstd::seq_lib::to_multiset_len,
        vstd::seq_lib::to_multiset_contains,
        vstd::seq_lib::to_multiset_build,
        vstd::seq_lib::to_multiset_remove,
        vstd::seq_lib::to_multiset_insert,
    ;

    assert(left.len() == left.to_multiset().len());
    assert(right.len() == right.to_multiset().len());
    if left.len() == 0 {
        assert(left.map_values(f) =~= right.map_values(f));
    } else {
        let item = left.last();
        assert(left.contains(item)) by {
            assert(left[left.len() - 1] == item);
        }
        assert(left.to_multiset().count(item) > 0);
        assert(right.to_multiset().count(item) > 0);
        assert(right.contains(item));
        let at = choose|at: int| 0 <= at < right.len() && right[at] == item;
        let fewer_left = left.drop_last();
        let fewer_right = right.remove(at);
        assert(fewer_left =~= left.remove(left.len() - 1));
        assert(fewer_left.to_multiset() == left.to_multiset().remove(item));
        assert(fewer_right.to_multiset() == right.to_multiset().remove(item));
        lemma_map_permutation(fewer_left, fewer_right, f);
        assert(left.map_values(f) =~= fewer_left.map_values(f).push(f(item)));
        assert(right.map_values(f) =~= fewer_right.map_values(f).insert(at, f(item)));
    }
}

/// A game stays well formed when the objects of one library are put in
/// another order.
pub(crate) proof fn lemma_reordered_library(before: GameView, after: GameView, player: PlayerId)
    requires
        before.wf(),
        before.has_player(player),
        after.players == before.players,
        after.objects == before.objects,
        after.libraries.len() == before.libraries.len(),
        forall|p: int|
            0 <= p < before.libraries.len() && p != player.0 ==> #[trigger] after.libraries[p]
                == before.libraries[p],
        after.library(player).to_multiset() == before.library(player).to_multiset(),
    ensures
        after.wf(),
{
    broadcast use vstd::seq_lib::to_multiset_contains;

    let old_library = before.library(player);
    let new_library = after.library(player);
    assert forall|object: ObjectId| new_library.contains(object) <==> old_library.contains(
        object,
    ) by {
        assert(new_library.contains(object) <==> new_library.to_multiset().count(object) > 0);
        assert(old_library.contains(object) <==> old_library.to_multiset().count(object) > 0);
    }
    assert forall|p: int| 0 <= p < after.libraries.len() implies (
    #[trigger] after.libraries[p]).no_duplicates() by {
        assert(before.libraries[p].no_duplicates());
        if p == player.0 {
            old_library.lemma_multiset_has_no_duplicates();
            new_library.lemma_multiset_has_no_duplicates_conv();
        }
    }
    assert forall|p: int, i: int|
        0 <= p < after.libraries.len() && 0 <= i
            < after.libraries[p].len() implies after.in_library(
        #[trigger] after.libraries[p][i],
        PlayerId(p as u32),
    ) by {
        if p == player.0 {
            let object = new_library[i];
            assert(new_library.contains(object));
            assert(old_library.contains(object));
            let k = choose|k: int| 0 <= k < old_library.len() && old_library[k] == object;
            assert(before.in_library(before.libraries[p][k], PlayerId(p as u32)));
        } else {
            assert(before.in_library(before.libraries[p][i], PlayerId(p as u32)));
        }
    }
    assert forall|object: ObjectId, owner: PlayerId| #[trigger]
        after.placed_in_library(object, owner) implies after.has_player(owner) && after.library(
        owner,
    ).contains(object) by {
        assert(before.placed_in_library(object, owner));
    }
}

/// A library that has grown by the objects of a deck and was then put in
/// another order is loaded with the deck.
pub(crate) proof fn lemma_library_loaded(
    before: GameView,
    grown: GameView,
    after: GameView,
    player: PlayerId,
    database: Seq<CardView>,
    deck: Seq<(Seq<char>, u32)>,
)
    requires
        before.wf(),
        before.has_player(player),
        before.objects_kept_in(grown),
        before.library_grown_in(
            grown,
            player,
            deck_objects(resolved_deck(database, deck), player),
        ),
        after.objects == grown.objects,
        after.library(player).to_multiset() == grown.library(player).to_multiset(),
    ensures
        before.library_loaded_in(after, player, database, deck),
{
    broadcast use
        vstd::seq_lib::to_multiset_len,
        vstd::seq_lib::to_multiset_contains,
        vstd::seq_lib::lemma_multiset_commutative,
    ;

    let added = deck_objects(resolved_deck(database, deck), player);
    let attached = |object: ObjectId| after.objects[object];
    let old_library = before.library(player);
    let grown_library = grown.library(player);
    let new_library = after.library(player);
    let fresh = grown_library.skip(old_library.len() as int);
    lemma_deck_objects_len(database, deck, player);
    assert(new_library.len() == new_library.to_multiset().len());
    assert(grown_library.len() == grown_library.to_multiset().len());
    assert(grown_library =~= old_library + fresh);
    assert(old_library.map_values(attached) =~= before.library_objects(player)) by {
        assert forall|i: int| 0 <= i < old_library.len() implies after.objects[old_library[i]]
            == before.objects[old_library[i]] by {
            assert(before.in_library(before.libraries[player.0 as int][i], PlayerId(player.0)));
            assert(before.objects.dom().contains(old_library[i]));
        }
    }
    assert(fresh.map_values(attached) =~= added) by {
        assert forall|k: int| 0 <= k < added.len() implies after.objects[fresh[k]]
            == added[k] by {
            assert(before.new_in(grown, grown_library[old_library.len() + k], added[k]));
        }
    }
    assert(grown_library.map_values(attached) =~= old_library.map_values(attached)
        + fresh.map_values(attached));
    lemma_map_permutation(new_library, grown_library, attached);
    assert(after.library_objects(player) =~= new_library.map_values(attached));
    assert forall|object: ObjectId| old_library.contains(object) implies new_library.contains(
        object,
    ) by {
        let i = choose|i: int| 0 <= i < old_library.len() && old_library[i] == object;
        assert(grown_library[i] == object);
        assert(grown_library.contains(object));
        assert(grown_library.to_multiset().count(object) > 0);
        assert(new_library.to_multiset().count(object) > 0);
    }
}

} // verus!
