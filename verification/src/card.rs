//! Cards: the templates from which the objects of a game are made.

use crate::card_type::{CardType, Supertype};
use crate::color::ColorKind;
use crate::derivation::{derive_color, derived_color};
use crate::mana::{ManaCost, ManaSymbol};
use crate::ordered_set::OrderedSet;
use crate::subtype::Subtype;
use vstd::prelude::*;

verus! {

/// 201.2. A card's name is always considered to be the English version of its name, regardless of
///        printed language.
pub struct Name(pub String);

impl View for Name {
    type V = Seq<char>;

    open spec fn view(&self) -> Seq<char> {
        self.0@
    }
}

impl Clone for Name {
    fn clone(&self) -> (copy: Name)
        ensures
            copy@ == self@,
    {
        Name(self.0.clone())
    }
}

/// 207.1. The text box is printed on the lower half of the card. It usually contains rules text
///        defining the card's abilities.
pub struct RulesText(pub String);

impl View for RulesText {
    type V = Seq<char>;

    open spec fn view(&self) -> Seq<char> {
        self.0@
    }
}

impl Clone for RulesText {
    fn clone(&self) -> (copy: RulesText)
        ensures
            copy@ == self@,
    {
        RulesText(self.0.clone())
    }
}

/// 209.1. Each planeswalker card has a loyalty number printed in its lower right corner. This
///        indicates its loyalty while it's not on the battlefield, and it also indicates that the
///        planeswalker enters the battlefield with that many loyalty counters on it.
#[derive(Copy, Clone, Debug, PartialEq, Eq, Hash, Structural)]
pub struct Loyalty(pub u64);

/// 212.1. Each card features text printed below the text box that has no effect on game play. Not
///        all card sets were printed with all of the information listed below on each card.
///
/// 212.1a Most card sets feature collector numbers. This information is printed in the form
///        [card number]/[total cards in the set] or simply [card number]. Some cards, such as
///        unique cards in Planeswalker Decks, have card numbers that exceed the listed total number
///        of cards.
#[derive(Copy, Clone, Debug, PartialEq, Eq, Hash, Structural)]
pub struct CollectorNumber(pub u64);

/// 206.2. The color of the expansion symbol indicates the rarity of the card within its set. A
///        red-orange symbol indicates the card is mythic rare. A gold symbol indicates the card is
///        rare. A silver symbol indicates the card is uncommon. A black or white symbol indicates
///        the card is common or is a basic land. A purple symbol signifies a special rarity; to
///        date, only the Time Spiral "timeshifted" cards, which were rarer than that set's rare
///        cards, have had purple expansion symbols.
#[derive(Copy, Clone, Debug, PartialEq, Eq, Hash, Structural)]
pub enum Rarity {
    MythicRare,
    Rare,
    Uncommon,
    Common,
    BasicLand,
    Timeshifted,
}

/// 206.1. The expansion symbol indicates which Magic set a card is from. It's a small icon normally
///        printed below the right edge of the illustration. It has no effect on game play.
pub struct ExpansionSymbol {
    pub set: String,
    pub rarity: Rarity,
}

/// What an expansion symbol is, with the set as a sequence of characters.
pub struct ExpansionSymbolView {
    pub set: Seq<char>,
    pub rarity: Rarity,
}

impl View for ExpansionSymbol {
    type V = ExpansionSymbolView;

    open spec fn view(&self) -> ExpansionSymbolView {
        ExpansionSymbolView { set: self.set@, rarity: self.rarity }
    }
}

impl Clone for ExpansionSymbol {
    fn clone(&self) -> (copy: ExpansionSymbol)
        ensures
            copy@ == self@,
    {
        ExpansionSymbol { set: self.set.clone(), rarity: self.rarity }
    }
}

#[derive(Copy, Clone, Debug, PartialEq, Eq, Hash, Structural)]
pub enum PtValue {
    Fixed(i64),
    /// 208.2. Rather than a fixed number, some creature cards have power and/or toughness that
    ///        includes a star (*).
    /// 208.2a The card may have a characteristic-defining ability that sets its power and/or
    ///        toughness according to some stated condition. (See rule 604.3.) Such an ability is
    ///        worded "[This creature's] [power or toughness] is equal to . . ." or
    ///        "[This creature's] power and toughness are each equal to . . ." This ability
    ///        functions everywhere, even outside the game. If the ability needs to use a number
    ///        that can't be determined, including inside a calculation, use 0 instead of that
    ///        number.
    Variable,
}

/// 208.1. A creature card has two numbers separated by a slash printed in its lower right corner.
///        The first number is its power (the amount of damage it deals in combat); the second is
///        its toughness (the amount of damage needed to destroy it). For example, 2/3 means the
///        object has power 2 and toughness 3. Power and toughness can be modified or set to
///        particular values by effects.
#[derive(Copy, Clone, Debug, PartialEq, Eq, Hash, Structural)]
pub struct PtCharacteristic {
    pub power: PtValue,
    pub toughness: PtValue,
}

/// 205.1. The type line is printed directly below the illustration. It contains the card's card
///        type(s). It also contains the card's subtype(s) and supertype(s), if applicable.
pub struct TypeLine {
    /// 205.2a The card types are artifact, conspiracy, creature, dungeon, enchantment, instant,
    ///        land, phenomenon, plane, planeswalker, scheme, sorcery, tribal, and vanguard. See
    ///        section 3, "Card Types."
    pub card_type: OrderedSet<CardType>,
    /// 205.3a A card can have one or more subtypes printed on its type line.
    pub subtype: OrderedSet<Subtype>,
    /// 205.4a An object can have one or more supertypes. A card's supertypes are printed directly
    ///        before its card types. The supertypes are basic, legendary, ongoing, snow, and world.
    pub supertype: OrderedSet<Supertype>,
}

/// What a type line holds: each of its three sets as the sequence of its
/// items.
pub struct TypeLineView {
    pub card_type: Seq<CardType>,
    pub subtype: Seq<Subtype>,
    pub supertype: Seq<Supertype>,
}

impl View for TypeLine {
    type V = TypeLineView;

    open spec fn view(&self) -> TypeLineView {
        TypeLineView {
            card_type: self.card_type@,
            subtype: self.subtype@,
            supertype: self.supertype@,
        }
    }
}

impl Clone for TypeLine {
    fn clone(&self) -> (copy: TypeLine)
        ensures
            copy@ == self@,
    {
        TypeLine {
            card_type: self.card_type.clone(),
            subtype: self.subtype.clone(),
            supertype: self.supertype.clone(),
        }
    }
}

impl TypeLineView {
    /// The type line without any type.
    pub open spec fn empty() -> TypeLineView {
        TypeLineView { card_type: Seq::empty(), subtype: Seq::empty(), supertype: Seq::empty() }
    }
}

impl TypeLine {
    /// The type line without any type.
    pub fn new() -> (type_line: TypeLine)
        ensures
            type_line@ == TypeLineView::empty(),
    {
        TypeLine {
            card_type: OrderedSet::new(),
            subtype: OrderedSet::new(),
            supertype: OrderedSet::new(),
        }
    }
}

/// 200.1. The parts of a card are name, mana cost, illustration, color indicator, type line,
///        expansion symbol, text box, power and toughness, loyalty, hand modifier, life modifier,
///        illustration credit, legal text, and collector number. Some cards may have more than one
///        of any or all of these parts.
///
/// 200.2. Some parts of a card are also characteristics of the object that has them. See rule
///        109.3.
pub struct Card {
    /// 201.1. The name of a card is printed on its upper left corner.
    pub name: Name,
    /// 202.1. A card's mana cost is indicated by mana symbols near the top of the card. (See rule
    ///        107.4.)
    pub mana_cost: Option<ManaCost>,
    /// 204.1. The color indicator is printed to the left of the type line directly below the
    ///        illustration. It consists of a circular symbol filled in with one or more colors. A
    ///        color indicator is usually found on nonland cards without a mana cost.
    pub color_indicator: Option<ColorKind>,
    /// 205.1. The type line is printed directly below the illustration. It contains the card's card
    ///        type(s). It also contains the card's subtype(s) and supertype(s), if applicable.
    pub type_line: TypeLine,
    /// 206.1. The expansion symbol indicates which Magic set a card is from. It's a small icon
    ///        normally printed below the right edge of the illustration. It has no effect on game
    ///        play.
    pub expansion_symbol: ExpansionSymbol,
    /// 207.1. The text box is printed on the lower half of the card. It usually contains rules text
    ///        defining the card's abilities.
    pub rules_text: RulesText,
    /// 208.1. A creature card has two numbers separated by a slash printed in its lower right
    ///        corner. The first number is its power (the amount of damage it deals in combat); the
    ///        second is its toughness (the amount of damage needed to destroy it).
    pub pt: Option<PtCharacteristic>,
    /// 209.1. Each planeswalker card has a loyalty number printed in its lower right corner.
    pub loyalty: Option<Loyalty>,
    /// 212.1a Most card sets feature collector numbers.
    pub collector_number: CollectorNumber,
}

/// What a card is: each of its parts as a plain value.
pub struct CardView {
    pub name: Seq<char>,
    pub mana_cost: Option<Seq<ManaSymbol>>,
    pub color_indicator: Option<ColorKind>,
    pub type_line: TypeLineView,
    pub expansion_symbol: ExpansionSymbolView,
    pub rules_text: Seq<char>,
    pub pt: Option<PtCharacteristic>,
    pub loyalty: Option<Loyalty>,
    pub collector_number: CollectorNumber,
}

impl View for Card {
    type V = CardView;

    open spec fn view(&self) -> CardView {
        CardView {
            name: self.name@,
            mana_cost: match self.mana_cost {
                Some(cost) => Some(cost@),
                None => None,
            },
            color_indicator: self.color_indicator,
            type_line: self.type_line@,
            expansion_symbol: self.expansion_symbol@,
            rules_text: self.rules_text@,
            pt: self.pt,
            loyalty: self.loyalty,
            collector_number: self.collector_number,
        }
    }
}

impl CardView {
    /// The empty card: named "Test Card", of the set "TEST", common, with no
    /// cost, no colour indicator, no types, no text, no power and toughness,
    /// no loyalty, and the collector number 0.
    pub open spec fn empty() -> CardView {
        CardView {
            name: "Test Card"@,
            mana_cost: None,
            color_indicator: None,
            type_line: TypeLineView::empty(),
            expansion_symbol: ExpansionSymbolView { set: "TEST"@, rarity: Rarity::Common },
            rules_text: Seq::empty(),
            pt: None,
            loyalty: None,
            collector_number: CollectorNumber(0),
        }
    }

    /// The colour of an object made from the card.
    pub open spec fn color(self) -> ColorKind {
        derived_color(self.mana_cost, self.color_indicator)
    }
}

impl Clone for Card {
    fn clone(&self) -> (copy: Card)
        ensures
            copy@ == self@,
    {
        Card {
            name: self.name.clone(),
            mana_cost: match &self.mana_cost {
                Some(cost) => Some(cost.clone()),
                None => None,
            },
            color_indicator: self.color_indicator,
            type_line: self.type_line.clone(),
            expansion_symbol: self.expansion_symbol.clone(),
            rules_text: self.rules_text.clone(),
            pt: self.pt,
            loyalty: self.loyalty,
            collector_number: self.collector_number,
        }
    }
}

impl Default for Card {
    /// The empty card, from which a [`CardBuilder`] starts.
    fn default() -> (card: Card)
        ensures
            card@ == CardView::empty(),
    {
        Card {
            name: Name("Test Card".to_owned()),
            mana_cost: None,
            color_indicator: None,
            type_line: TypeLine::new(),
            expansion_symbol: ExpansionSymbol { set: "TEST".to_owned(), rarity: Rarity::Common },
            rules_text: RulesText(String::new()),
            pt: None,
            loyalty: None,
            collector_number: CollectorNumber(0),
        }
    }
}

impl Card {
    /// Returns a [`CardBuilder`] that starts from the empty card.
    pub fn builder() -> (builder: CardBuilder)
        ensures
            builder@ == CardView::empty(),
    {
        CardBuilder { card: Card::default() }
    }

    /// 202.2. An object is the color or colors of the mana symbols in its mana cost, regardless of
    ///        the color of its frame.
    ///
    /// The colour indicator of the card, where it has one; else the colour that
    /// its mana cost gives.
    pub fn color(&self) -> (kind: ColorKind)
        ensures
            kind == self@.color(),
            self.color_indicator is None ==> kind.wf(),
    {
        match &self.mana_cost {
            Some(cost) => derive_color(Some(cost), self.color_indicator),
            None => derive_color(None, self.color_indicator),
        }
    }
}

/// Builds a card part by part. What is not set is as in the empty card.
pub struct CardBuilder {
    card: Card,
}

impl View for CardBuilder {
    type V = CardView;

    /// The card that `build` would return.
    closed spec fn view(&self) -> CardView {
        self.card@
    }
}

impl CardBuilder {
    pub fn name(self, name: Name) -> (builder: CardBuilder)
        ensures
            builder@ == (CardView { name: name@, ..self@ }),
    {
        let mut card = self.card;
        card.name = name;
        CardBuilder { card }
    }

    pub fn mana_cost(self, mana_cost: ManaCost) -> (builder: CardBuilder)
        ensures
            builder@ == (CardView { mana_cost: Some(mana_cost@), ..self@ }),
    {
        let mut card = self.card;
        card.mana_cost = Some(mana_cost);
        CardBuilder { card }
    }

    pub fn color_indicator(self, color_indicator: ColorKind) -> (builder: CardBuilder)
        ensures
            builder@ == (CardView { color_indicator: Some(color_indicator), ..self@ }),
    {
        let mut card = self.card;
        card.color_indicator = Some(color_indicator);
        CardBuilder { card }
    }

    pub fn type_line(self, type_line: TypeLine) -> (builder: CardBuilder)
        ensures
            builder@ == (CardView { type_line: type_line@, ..self@ }),
    {
        let mut card = self.card;
        card.type_line = type_line;
        CardBuilder { card }
    }

    pub fn expansion_symbol(self, expansion_symbol: ExpansionSymbol) -> (builder: CardBuilder)
        ensures
            builder@ == (CardView { expansion_symbol: expansion_symbol@, ..self@ }),
    {
        let mut card = self.card;
        card.expansion_symbol = expansion_symbol;
        CardBuilder { card }
    }

    pub fn rules_text(self, rules_text: RulesText) -> (builder: CardBuilder)
        ensures
            builder@ == (CardView { rules_text: rules_text@, ..self@ }),
    {
        let mut card = self.card;
        card.rules_text = rules_text;
        CardBuilder { card }
    }

    pub fn pt(self, pt: PtCharacteristic) -> (builder: CardBuilder)
        ensures
            builder@ == (CardView { pt: Some(pt), ..self@ }),
    {
        let mut card = self.card;
        card.pt = Some(pt);
        CardBuilder { card }
    }

    pub fn loyalty(self, loyalty: Loyalty) -> (builder: CardBuilder)
        ensures
            builder@ == (CardView { loyalty: Some(loyalty), ..self@ }),
    {
        let mut card = self.card;
        card.loyalty = Some(loyalty);
        CardBuilder { card }
    }

    pub fn collector_number(self, collector_number: CollectorNumber) -> (builder: CardBuilder)
        ensures
            builder@ == (CardView { collector_number, ..self@ }),
    {
        let mut card = self.card;
        card.collector_number = collector_number;
        CardBuilder { card }
    }

    /// The card that was built.
    pub fn build(self) -> (card: Card)
        ensures
            card@ == self@,
    {
        self.card
    }
}

} // verus!
