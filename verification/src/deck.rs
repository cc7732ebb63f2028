//! Decks: the cards that a player starts the game with, by name and number
//! of copies.

use crate::card::{Card, CardView};
use crate::components::Components;
use crate::database::{find_card, CardDatabase};
use crate::error::GameError;
use crate::player::{PlayerId, Zone};
use vstd::prelude::*;

verus! {

/// A line of a deck: the name of a card and the number of its copies.
pub struct DeckEntry {
    pub name: String,
    pub count: u32,
}

impl View for DeckEntry {
    type V = (Seq<char>, u32);

    open spec fn view(&self) -> (Seq<char>, u32) {
        (self.name@, self.count)
    }
}

/// 100.2. To play, each player needs their own deck of traditional Magic cards, small items to
///        represent any tokens and counters, and some way to clearly track life totals.
///
/// A deck is an ordered list of card names, each with a number of copies.
pub struct Deck {
    entries: Vec<DeckEntry>,
}

impl View for Deck {
    type V = Seq<(Seq<char>, u32)>;

    /// The lines of the deck in their order.
    closed spec fn view(&self) -> Seq<(Seq<char>, u32)> {
        self.entries@.map_values(|entry: DeckEntry| entry@)
    }
}

/// The number of cards in a deck: the sum of the numbers of copies.
pub open spec fn deck_size(entries: Seq<(Seq<char>, u32)>) -> nat
    decreases entries.len(),
{
    if entries.len() == 0 {
        0
    } else {
        deck_size(entries.drop_last()) + entries.last().1 as nat
    }
}

/// Whether the database has a card for each line of the deck.
pub open spec fn deck_resolves(database: Seq<CardView>, entries: Seq<(Seq<char>, u32)>) -> bool {
    forall|i: int| 0 <= i < entries.len() ==> find_card(database, (#[trigger] entries[i]).0) is Some
}

/// The lines of a deck, each with the card of its name in place of the name.
pub open spec fn resolved_deck(database: Seq<CardView>, entries: Seq<(Seq<char>, u32)>) -> Seq<
    (CardView, u32),
> {
    entries.map_values(|entry: (Seq<char>, u32)| (find_card(database, entry.0).unwrap(), entry.1))
}

/// What is attached to each of `count` copies of a card in the library of
/// their owner.
pub open spec fn card_copies(card: CardView, owner: PlayerId, count: nat) -> Seq<Components> {
    Seq::new(count, |k: int| Components::of_card(card, owner, Zone::Library(owner)))
}

/// What is attached to each object that a resolved deck gives its owner:
/// for each line in turn, as many copies of the card as the line says.
pub open spec fn deck_objects(entries: Seq<(CardView, u32)>, owner: PlayerId) -> Seq<Components>
    decreases entries.len(),
{
    if entries.len() == 0 {
        Seq::empty()
    } else {
        deck_objects(entries.drop_last(), owner) + card_copies(
            entries.last().0,
            owner,
            entries.last().1 as nat,
        )
    }
}

/// A deck gives as many objects as it has cards.
pub proof fn lemma_deck_objects_len(
    database: Seq<CardView>,
    entries: Seq<(Seq<char>, u32)>,
    owner: PlayerId,
)
    ensures
        deck_objects(resolved_deck(database, entries), owner).len() == deck_size(entries),
    decreases entries.len(),
{
    if entries.len() > 0 {
        lemma_deck_objects_len(database, entries.drop_last(), owner);
        assert(resolved_deck(database, entries).drop_last() =~= resolved_deck(
            database,
            entries.drop_last(),
        ));
    }
}

/// The first lines of a resolved deck give no more objects than the deck.
pub(crate) proof fn lemma_deck_objects_prefix(
    entries: Seq<(CardView, u32)>,
    owner: PlayerId,
    lines: int,
)
    requires
        0 <= lines <= entries.len(),
    ensures
        deck_objects(entries.take(lines), owner).len() <= deck_objects(entries, owner).len(),
    decreases entries.len(),
{
    if lines < entries.len() {
        lemma_deck_objects_prefix(entries.drop_last(), owner, lines);
        assert(entries.drop_last().take(lines) =~= entries.take(lines));
    } else {
        assert(entries.take(lines) =~= entries);
    }
}

/// The first lines of a deck hold no more cards than the deck.
pub(crate) proof fn lemma_deck_size_prefix(entries: Seq<(Seq<char>, u32)>, lines: int)
    requires
        0 <= lines <= entries.len(),
    ensures
        deck_size(entries.take(lines)) <= deck_size(entries),
    decreases entries.len(),
{
    if lines < entries.len() {
        lemma_deck_size_prefix(entries.drop_last(), lines);
        assert(entries.drop_last().take(lines) =~= entries.take(lines));
    } else {
        assert(entries.take(lines) =~= entries);
    }
}

impl Deck {
    /// The deck of the given lines, each the name of a card and the number
    /// of its copies.
    pub fn from(entries: &[(&str, u32)]) -> (deck: Deck)
        ensures
            deck@.len() == entries@.len(),
            forall|i: int|
                0 <= i < entries@.len() ==> #[trigger] deck@[i] == (entries@[i].0@, entries@[i].1),
    {
        let mut lines: Vec<DeckEntry> = Vec::new();
        let mut i: usize = 0;
        while i < entries.len()
            invariant
                i <= entries.len(),
                lines@.len() == i,
                forall|k: int|
                    0 <= k < i ==> (#[trigger] lines@[k])@ == (entries@[k].0@, entries@[k].1),
            decreases entries.len() - i,
        {
            let (name, count) = entries[i];
            lines.push(DeckEntry { name: name.to_owned(), count });
            i = i + 1;
        }
        Deck { entries: lines }
    }

    /// The number of lines of the deck.
    pub fn len(&self) -> (len: usize)
        ensures
            len == self@.len(),
    {
        self.entries.len()
    }

    /// The line at a position of the deck.
    pub fn get(&self, index: usize) -> (entry: Option<&DeckEntry>)
        ensures
            index < self@.len() ==> (entry matches Some(found) && found@ == self@[index as int]),
            index >= self@.len() ==> entry is None,
    {
        if index < self.entries.len() {
            Some(&self.entries[index])
        } else {
            None
        }
    }

    /// The number of cards in the deck, where it is at most `u32::MAX`.
    pub fn size(&self) -> (size: Option<u32>)
        ensures
            match size {
                Some(cards) => cards == deck_size(self@),
                None => deck_size(self@) > u32::MAX,
            },
    {
        let mut total: u64 = 0;
        let mut i: usize = 0;
        assert(self@.take(0) =~= Seq::<(Seq<char>, u32)>::empty());
        while i < self.entries.len()
            invariant
                i <= self.entries.len(),
                self.entries@.len() == self@.len(),
                total == deck_size(self@.take(i as int)),
                total <= u32::MAX,
            decreases self.entries.len() - i,
        {
            proof {
                assert(self@.take(i + 1).drop_last() =~= self@.take(i as int));
                assert(self@.take(i + 1).last() == self.entries@[i as int]@);
            }
            total = total + self.entries[i].count as u64;
            i = i + 1;
            if total > u32::MAX as u64 {
                proof {
                    lemma_deck_size_prefix(self@, i as int);
                }
                return None;
            }
        }
        assert(self@.take(i as int) =~= self@);
        Some(total as u32)
    }

    /// The cards of the deck: for each line, the card of that name in the
    /// database, with the number of its copies. Fails where the database
    /// has no card of a name in the deck.
    pub fn cards<'a>(&self, database: &'a CardDatabase) -> (cards: Result<
        Vec<(&'a Card, u32)>,
        GameError,
    >)
        ensures
            cards is Ok <==> deck_resolves(database@, self@),
            cards matches Err(error) ==> error == GameError::UnknownCard,
            cards matches Ok(found) ==> found@.len() == self@.len() && forall|i: int|
                0 <= i < found@.len() ==> ((#[trigger] found@[i]).0@, found@[i].1) == resolved_deck(
                    database@,
                    self@,
                )[i],
    {
        let mut found: Vec<(&'a Card, u32)> = Vec::new();
        let mut i: usize = 0;
        while i < self.entries.len()
            invariant
                i <= self.entries.len(),
                found@.len() == i,
                forall|k: int| 0 <= k < i ==> find_card(database@, (#[trigger] self@[k]).0) is Some,
                forall|k: int|
                    0 <= k < i ==> ((#[trigger] found@[k]).0@, found@[k].1) == resolved_deck(
                        database@,
                        self@,
                    )[k],
            decreases self.entries.len() - i,
        {
            let entry = &self.entries[i];
            assert(self@[i as int] == entry@);
            match database.find_card_by_name(entry.name.as_str()) {
                Some(card) => {
                    found.push((card, entry.count));
                },
                None => {
                    return Err(GameError::UnknownCard);
                },
            }
            i = i + 1;
        }
        Ok(found)
    }
}

} // verus!
