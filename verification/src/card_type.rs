//! Card types and supertypes.

use crate::ordered_set::{Coded, Indexed};
use vstd::prelude::*;

verus! {

/// 300.1. The card types are artifact, conspiracy, creature, dungeon, enchantment, instant, land,
///        phenomenon, plane, planeswalker, scheme, sorcery, tribal, and vanguard. See section 3,
///        "Card Types."
/// 300.2. Some objects have more than one card type (for example, an artifact creature). Such
///        objects combine the aspects of each of those card types, and are subject to spells and
///        abilities that affect either or all of those card types.
#[derive(Copy, Clone, Debug, PartialEq, Eq, Hash, Structural)]
pub enum CardType {
    Artifact,
    Conspiracy,
    Creature,
    Dungeon,
    Enchantment,
    Instant,
    Land,
    Phenomenon,
    Plane,
    Planeswalker,
    Scheme,
    Sorcery,
    Tribal,
    Vanguard,
}

impl Indexed for CardType {
    /// The position of the variant in the declaration.
    closed spec fn spec_index(self) -> u64 {
        match self {
            CardType::Artifact => 0,
            CardType::Conspiracy => 1,
            CardType::Creature => 2,
            CardType::Dungeon => 3,
            CardType::Enchantment => 4,
            CardType::Instant => 5,
            CardType::Land => 6,
            CardType::Phenomenon => 7,
            CardType::Plane => 8,
            CardType::Planeswalker => 9,
            CardType::Scheme => 10,
            CardType::Sorcery => 11,
            CardType::Tribal => 12,
            CardType::Vanguard => 13,
        }
    }

    closed spec fn spec_from_index(index: u64) -> Option<CardType> {
        if index == 0 {
            Some(CardType::Artifact)
        } else if index == 1 {
            Some(CardType::Conspiracy)
        } else if index == 2 {
            Some(CardType::Creature)
        } else if index == 3 {
            Some(CardType::Dungeon)
        } else if index == 4 {
            Some(CardType::Enchantment)
        } else if index == 5 {
            Some(CardType::Instant)
        } else if index == 6 {
            Some(CardType::Land)
        } else if index == 7 {
            Some(CardType::Phenomenon)
        } else if index == 8 {
            Some(CardType::Plane)
        } else if index == 9 {
            Some(CardType::Planeswalker)
        } else if index == 10 {
            Some(CardType::Scheme)
        } else if index == 11 {
            Some(CardType::Sorcery)
        } else if index == 12 {
            Some(CardType::Tribal)
        } else if index == 13 {
            Some(CardType::Vanguard)
        } else {
            None
        }
    }

    fn index(self) -> (index: u64) {
        match self {
            CardType::Artifact => 0,
            CardType::Conspiracy => 1,
            CardType::Creature => 2,
            CardType::Dungeon => 3,
            CardType::Enchantment => 4,
            CardType::Instant => 5,
            CardType::Land => 6,
            CardType::Phenomenon => 7,
            CardType::Plane => 8,
            CardType::Planeswalker => 9,
            CardType::Scheme => 10,
            CardType::Sorcery => 11,
            CardType::Tribal => 12,
            CardType::Vanguard => 13,
        }
    }

    fn from_index(index: u64) -> (value: Option<CardType>) {
        if index == 0 {
            Some(CardType::Artifact)
        } else if index == 1 {
            Some(CardType::Conspiracy)
        } else if index == 2 {
            Some(CardType::Creature)
        } else if index == 3 {
            Some(CardType::Dungeon)
        } else if index == 4 {
            Some(CardType::Enchantment)
        } else if index == 5 {
            Some(CardType::Instant)
        } else if index == 6 {
            Some(CardType::Land)
        } else if index == 7 {
            Some(CardType::Phenomenon)
        } else if index == 8 {
            Some(CardType::Plane)
        } else if index == 9 {
            Some(CardType::Planeswalker)
        } else if index == 10 {
            Some(CardType::Scheme)
        } else if index == 11 {
            Some(CardType::Sorcery)
        } else if index == 12 {
            Some(CardType::Tribal)
        } else if index == 13 {
            Some(CardType::Vanguard)
        } else {
            None
        }
    }

    proof fn lemma_index(value: CardType, index: u64) {
    }
}

impl Coded for CardType {
    /// Zero, then the index of the value.
    open spec fn spec_code(self) -> (u64, u64) {
        (0, self.spec_index())
    }

    open spec fn spec_from_code(code: (u64, u64)) -> Option<CardType> {
        if code.0 == 0 {
            CardType::spec_from_index(code.1)
        } else {
            None
        }
    }

    fn code(self) -> (code: (u64, u64)) {
        (0, self.index())
    }

    fn from_code(code: (u64, u64)) -> (value: Option<CardType>) {
        if code.0 == 0 {
            CardType::from_index(code.1)
        } else {
            None
        }
    }

    proof fn lemma_code(value: CardType, code: (u64, u64)) {
        CardType::lemma_index(value, code.1);
    }
}

/// 205.4a An object can have one or more supertypes. A card's supertypes are printed directly
///        before its card types. The supertypes are basic, legendary, ongoing, snow, and world.
///
/// 205.4b An object's supertype is independent of its card type and subtype, even though some
///        supertypes are closely identified with specific card types. Changing an object's card
///        types or subtypes won't change its supertypes. Changing an object's supertypes won't
///        change its card types or subtypes. When an object gains or loses a supertype, it retains
///        any other supertypes it had.
///
/// Example: An ability reads, "All lands are 1/1 creatures that are still lands." If any of the
///          affected lands were legendary, they are still legendary.
#[derive(Copy, Clone, Debug, PartialEq, Eq, Hash, Structural)]
pub enum Supertype {
    Basic,
    Legendary,
    Ongoing,
    Snow,
    World,
}

impl Indexed for Supertype {
    /// The position of the variant in the declaration.
    closed spec fn spec_index(self) -> u64 {
        match self {
            Supertype::Basic => 0,
            Supertype::Legendary => 1,
            Supertype::Ongoing => 2,
            Supertype::Snow => 3,
            Supertype::World => 4,
        }
    }

    closed spec fn spec_from_index(index: u64) -> Option<Supertype> {
        if index == 0 {
            Some(Supertype::Basic)
        } else if index == 1 {
            Some(Supertype::Legendary)
        } else if index == 2 {
            Some(Supertype::Ongoing)
        } else if index == 3 {
            Some(Supertype::Snow)
        } else if index == 4 {
            Some(Supertype::World)
        } else {
            None
        }
    }

    fn index(self) -> (index: u64) {
        match self {
            Supertype::Basic => 0,
            Supertype::Legendary => 1,
            Supertype::Ongoing => 2,
            Supertype::Snow => 3,
            Supertype::World => 4,
        }
    }

    fn from_index(index: u64) -> (value: Option<Supertype>) {
        if index == 0 {
            Some(Supertype::Basic)
        } else if index == 1 {
            Some(Supertype::Legendary)
        } else if index == 2 {
            Some(Supertype::Ongoing)
        } else if index == 3 {
            Some(Supertype::Snow)
        } else if index == 4 {
            Some(Supertype::World)
        } else {
            None
        }
    }

    proof fn lemma_index(value: Supertype, index: u64) {
    }
}

impl Coded for Supertype {
    /// Zero, then the index of the value.
    open spec fn spec_code(self) -> (u64, u64) {
        (0, self.spec_index())
    }

    open spec fn spec_from_code(code: (u64, u64)) -> Option<Supertype> {
        if code.0 == 0 {
            Supertype::spec_from_index(code.1)
        } else {
            None
        }
    }

    fn code(self) -> (code: (u64, u64)) {
        (0, self.index())
    }

    fn from_code(code: (u64, u64)) -> (value: Option<Supertype>) {
        if code.0 == 0 {
            Supertype::from_index(code.1)
        } else {
            None
        }
    }

    proof fn lemma_code(value: Supertype, code: (u64, u64)) {
        Supertype::lemma_index(value, code.1);
    }
}
} // verus!
