//! The facts that can be attached to an object of the game.
//!
//! An object has no fixed shape: its characteristics are whatever is
//! attached to it. [`Components`] is the record of what is attached, each
//! fact present or absent.

use crate::card::{
    CardView, CollectorNumber, ExpansionSymbol, ExpansionSymbolView, Loyalty, Name,
    PtCharacteristic, RulesText, TypeLine, TypeLineView,
};
use crate::color::ColorKind;
use crate::mana::{ManaCost, ManaSymbol};
use crate::player::{PlayerId, Zone};
use vstd::prelude::*;

verus! {

/// The identity of an object of the game.
#[derive(Copy, Clone, Debug, PartialEq, Eq, Hash, Structural)]
pub struct ObjectId(pub u64);

/// 109.1. An object is an ability on the stack, a card, a copy of a card, a token, a spell, a
///        permanent, or an emblem.
///
/// 109.3. An object's characteristics are name, mana cost, color, color indicator, card type,
///        subtype, supertype, rules text, abilities, power, toughness, loyalty, hand modifier, and
///        life modifier. Objects can have some or all of these characteristics. Any other
///        information about an object isn't a characteristic. For example, characteristics don't
///        include whether a permanent is tapped, a spell's target, an object's owner or controller,
///        what an Aura enchants, and so on.
#[derive(Copy, Clone, Debug, PartialEq, Eq, Hash, Structural)]
pub struct Object;

/// 108.3. The owner of a card in the game is the player who started the game with it in their deck.
///        If a card is brought into the game from outside the game rather than starting in a
///        player's deck, its owner is the player who brought it into the game. If a card starts the
///        game in the command zone, its owner is the player who put it into the command zone to
///        start the game. Legal ownership of a card in the game is irrelevant to the game rules
///        except for the rules for ante. (See rule 407.)
#[derive(Copy, Clone, Debug, PartialEq, Eq, Hash, Structural)]
pub struct Owner(pub PlayerId);

/// 109.4. Only objects on the stack or on the battlefield have a controller. Objects that are
///        neither on the stack nor on the battlefield aren't controlled by any player. See rule
///        108.4.
#[derive(Copy, Clone, Debug, PartialEq, Eq, Hash, Structural)]
pub struct Controller(pub PlayerId);

/// What is attached to an object: each fact as a plain value, or `None`
/// where the object does not have it.
pub struct Components {
    pub object: Option<Object>,
    pub name: Option<Seq<char>>,
    pub type_line: Option<TypeLineView>,
    pub expansion_symbol: Option<ExpansionSymbolView>,
    pub rules_text: Option<Seq<char>>,
    pub collector_number: Option<CollectorNumber>,
    pub color: Option<ColorKind>,
    pub mana_cost: Option<Seq<ManaSymbol>>,
    pub pt: Option<PtCharacteristic>,
    pub loyalty: Option<Loyalty>,
    pub owner: Option<Owner>,
    pub controller: Option<Controller>,
    pub zone: Option<Zone>,
}

impl Components {
    /// Nothing attached.
    pub open spec fn none() -> Components {
        Components {
            object: None,
            name: None,
            type_line: None,
            expansion_symbol: None,
            rules_text: None,
            collector_number: None,
            color: None,
            mana_cost: None,
            pt: None,
            loyalty: None,
            owner: None,
            controller: None,
            zone: None,
        }
    }

    /// What is attached to the object that is made from `card` for `owner` in
    /// `zone`: the mark of an object, the name, the type line, the expansion
    /// symbol, the rules text, the collector number and the derived colour
    /// always; the mana cost, power and toughness, and loyalty where the card
    /// has them; the owner and the zone. No controller.
    pub open spec fn of_card(card: CardView, owner: PlayerId, zone: Zone) -> Components {
        Components {
            object: Some(Object),
            name: Some(card.name),
            type_line: Some(card.type_line),
            expansion_symbol: Some(card.expansion_symbol),
            rules_text: Some(card.rules_text),
            collector_number: Some(card.collector_number),
            color: Some(card.color()),
            mana_cost: card.mana_cost,
            pt: card.pt,
            loyalty: card.loyalty,
            owner: Some(Owner(owner)),
            controller: None,
            zone: Some(zone),
        }
    }

    /// An object that stands for a physical card always has a name, a colour,
    /// a type line, an owner and a zone.
    pub open spec fn is_card(self) -> bool {
        &&& self.object is Some
        &&& self.name is Some
        &&& self.color is Some
        &&& self.type_line is Some
        &&& self.owner is Some
        &&& self.zone is Some
    }
}

/// A type whose values can be attached to an object, one value of the type
/// to an object at most. Each such type has a field of its own in
/// [`Components`], which `attach` sets and `attached` reads. The types of
/// this file are all there are: the trait is not open to others.
pub(crate) trait Component: View + Sized {
    /// `components` with `value` attached, in place of a value of this type
    /// that was attached before.
    spec fn attach(components: Components, value: Self::V) -> Components;

    /// The value of this type that is attached in `components`.
    spec fn attached(components: Components) -> Option<Self::V>;
}

impl View for Object {
    type V = Object;

    open spec fn view(&self) -> Object {
        *self
    }
}

impl Component for Object {
    open spec fn attach(components: Components, value: Object) -> Components {
        Components { object: Some(value), ..components }
    }

    open spec fn attached(components: Components) -> Option<Object> {
        components.object
    }
}

impl Component for Name {
    open spec fn attach(components: Components, value: Seq<char>) -> Components {
        Components { name: Some(value), ..components }
    }

    open spec fn attached(components: Components) -> Option<Seq<char>> {
        components.name
    }
}

impl Component for TypeLine {
    open spec fn attach(components: Components, value: TypeLineView) -> Components {
        Components { type_line: Some(value), ..components }
    }

    open spec fn attached(components: Components) -> Option<TypeLineView> {
        components.type_line
    }
}

impl Component for ExpansionSymbol {
    open spec fn attach(components: Components, value: ExpansionSymbolView) -> Components {
        Components { expansion_symbol: Some(value), ..components }
    }

    open spec fn attached(components: Components) -> Option<ExpansionSymbolView> {
        components.expansion_symbol
    }
}

impl Component for RulesText {
    open spec fn attach(components: Components, value: Seq<char>) -> Components {
        Components { rules_text: Some(value), ..components }
    }

    open spec fn attached(components: Components) -> Option<Seq<char>> {
        components.rules_text
    }
}

impl View for CollectorNumber {
    type V = CollectorNumber;

    open spec fn view(&self) -> CollectorNumber {
        *self
    }
}

impl Component for CollectorNumber {
    open spec fn attach(components: Components, value: CollectorNumber) -> Components {
        Components { collector_number: Some(value), ..components }
    }

    open spec fn attached(components: Components) -> Option<CollectorNumber> {
        components.collector_number
    }
}

impl View for ColorKind {
    type V = ColorKind;

    open spec fn view(&self) -> ColorKind {
        *self
    }
}

impl Component for ColorKind {
    open spec fn attach(components: Components, value: ColorKind) -> Components {
        Components { color: Some(value), ..components }
    }

    open spec fn attached(components: Components) -> Option<ColorKind> {
        components.color
    }
}

impl Component for ManaCost {
    open spec fn attach(components: Components, value: Seq<ManaSymbol>) -> Components {
        Components { mana_cost: Some(value), ..components }
    }

    open spec fn attached(components: Components) -> Option<Seq<ManaSymbol>> {
        components.mana_cost
    }
}

impl View for PtCharacteristic {
    type V = PtCharacteristic;

    open spec fn view(&self) -> PtCharacteristic {
        *self
    }
}

impl Component for PtCharacteristic {
    open spec fn attach(components: Components, value: PtCharacteristic) -> Components {
        Components { pt: Some(value), ..components }
    }

    open spec fn attached(components: Components) -> Option<PtCharacteristic> {
        components.pt
    }
}

impl View for Loyalty {
    type V = Loyalty;

    open spec fn view(&self) -> Loyalty {
        *self
    }
}

impl Component for Loyalty {
    open spec fn attach(components: Components, value: Loyalty) -> Components {
        Components { loyalty: Some(value), ..components }
    }

    open spec fn attached(components: Components) -> Option<Loyalty> {
        components.loyalty
    }
}

impl View for Owner {
    type V = Owner;

    open spec fn view(&self) -> Owner {
        *self
    }
}

impl Component for Owner {
    open spec fn attach(components: Components, value: Owner) -> Components {
        Components { owner: Some(value), ..components }
    }

    open spec fn attached(components: Components) -> Option<Owner> {
        components.owner
    }
}

impl View for Controller {
    type V = Controller;

    open spec fn view(&self) -> Controller {
        *self
    }
}

impl Component for Controller {
    open spec fn attach(components: Components, value: Controller) -> Components {
        Components { controller: Some(value), ..components }
    }

    open spec fn attached(components: Components) -> Option<Controller> {
        components.controller
    }
}

impl View for Zone {
    type V = Zone;

    open spec fn view(&self) -> Zone {
        *self
    }
}

impl Component for Zone {
    open spec fn attach(components: Components, value: Zone) -> Components {
        Components { zone: Some(value), ..components }
    }

    open spec fn attached(components: Components) -> Option<Zone> {
        components.zone
    }
}

} // verus!
