//! The card database: the cards that can be used as templates for the
//! objects of a game, looked up by name.

use crate::card::{Card, CardView};
use vstd::prelude::*;

verus! {

/// The position of the first card with the given name among `cards` from
/// the position `from` on, or the number of cards where there is none.
pub open spec fn card_position_from(cards: Seq<CardView>, name: Seq<char>, from: int) -> int
    decreases cards.len() - from,
{
    if from < 0 || from >= cards.len() {
        cards.len() as int
    } else if cards[from].name == name {
        from
    } else {
        card_position_from(cards, name, from + 1)
    }
}

/// The first card with the given name among `cards`.
pub open spec fn find_card(cards: Seq<CardView>, name: Seq<char>) -> Option<CardView> {
    let position = card_position_from(cards, name, 0);
    if position < cards.len() {
        Some(cards[position])
    } else {
        None
    }
}

/// The position of the first card with a name lies from `from` on, the card
/// there has the name, and no card between `from` and it has the name.
pub proof fn lemma_card_position_from(cards: Seq<CardView>, name: Seq<char>, from: int)
    requires
        0 <= from <= cards.len(),
    ensures
        from <= card_position_from(cards, name, from) <= cards.len(),
        card_position_from(cards, name, from) < cards.len() ==> cards[card_position_from(
            cards,
            name,
            from,
        )].name == name,
        forall|j: int|
            from <= j < card_position_from(cards, name, from) ==> (#[trigger] cards[j]).name
                != name,
    decreases cards.len() - from,
{
    if from < cards.len() && cards[from].name != name {
        lemma_card_position_from(cards, name, from + 1);
    }
}

/// A card is found exactly when some card has the name, and the card found
/// has the name.
pub proof fn lemma_find_card(cards: Seq<CardView>, name: Seq<char>)
    ensures
        find_card(cards, name) is Some <==> exists|i: int|
            0 <= i < cards.len() && (#[trigger] cards[i]).name == name,
        find_card(cards, name) matches Some(card) ==> card.name == name,
{
    lemma_card_position_from(cards, name, 0);
    let position = card_position_from(cards, name, 0);
    if position < cards.len() {
        assert(cards[position].name == name);
    }
}

/// A collection of cards that serve as templates. Several cards may share a
/// name; a lookup by name gives the first of them.
pub struct CardDatabase {
    cards: Vec<Card>,
}

impl View for CardDatabase {
    type V = Seq<CardView>;

    /// The cards of the database in their order.
    closed spec fn view(&self) -> Seq<CardView> {
        self.cards@.map_values(|card: Card| card@)
    }
}

impl CardDatabase {
    /// The database of the given cards, in their order.
    pub fn new(cards: Vec<Card>) -> (database: CardDatabase)
        ensures
            database@ == cards@.map_values(|card: Card| card@),
    {
        CardDatabase { cards }
    }

    /// The number of cards in the database.
    pub fn len(&self) -> (len: usize)
        ensures
            len == self@.len(),
    {
        self.cards.len()
    }

    /// The card at a position of the database.
    pub fn get(&self, index: usize) -> (card: Option<&Card>)
        ensures
            index < self@.len() ==> (card matches Some(found) && found@ == self@[index as int]),
            index >= self@.len() ==> card is None,
    {
        if index < self.cards.len() {
            Some(&self.cards[index])
        } else {
            None
        }
    }

    /// Returns a reference to the first card with the specified name, and
    /// `None` where no card has that name.
    pub fn find_card_by_name(&self, name: &str) -> (card: Option<&Card>)
        ensures
            match card {
                Some(found) => find_card(self@, name@) == Some(found@),
                None => find_card(self@, name@) is None,
            },
            card is Some <==> exists|i: int|
                0 <= i < self@.len() && (#[trigger] self@[i]).name == name@,
            card matches Some(found) ==> found@.name == name@,
    {
        proof {
            lemma_find_card(self@, name@);
        }
        let wanted = name.to_owned();
        let mut i: usize = 0;
        while i < self.cards.len()
            invariant
                i <= self.cards.len(),
                self.cards@.len() == self@.len(),
                wanted@ == name@,
                card_position_from(self@, name@, 0) == card_position_from(self@, name@, i as int),
            decreases self.cards.len() - i,
        {
            assert(self@[i as int] == self.cards@[i as int]@);
            if self.cards[i].name.0 == wanted {
                return Some(&self.cards[i]);
            }
            i = i + 1;
        }
        None
    }
}

} // verus!
