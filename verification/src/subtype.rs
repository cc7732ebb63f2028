//! Subtypes, each correlated to the card type that it belongs to.

use crate::creature_type::CreatureType;
use crate::ordered_set::{Coded, Indexed};
use crate::planar_type::PlanarType;
use crate::planeswalker_type::PlaneswalkerType;
use vstd::prelude::*;

verus! {

/// 205.3a A card can have one or more subtypes printed on its type line.
///
/// 205.3b Subtypes of each card type except plane are always single words and are listed after
///        a long dash. Each word after the dash is a separate subtype; such objects may have
///        multiple types. Subtypes of planes are also listed after a long dash, but may be
///        multiple words; all words after the dash are, collectively, a single subtype.
///
/// Example: "Basic Land - Mountain" means the card is a land with the subtype Mountain.
///          "Creature - Goblin Wizard" means the card is a creature with the subtypes Goblin
///          and Wizard. "Artifact - Equipment" means the card is an artifact with the subtype
///          Equipment.
///
/// 205.3c If a card with multiple card types has one or more subtypes, each subtype is
///        correlated to its appropriate card type.
///
/// Example: Dryad Arbor's type line says "Land Creature - Forest Dryad." Forest is a land type,
///          and Dryad is a creature type.
#[derive(Copy, Clone, Debug, PartialEq, Eq, Hash, Structural)]
pub enum Subtype {
    Artifact(ArtifactType),
    Creature(CreatureType),
    Enchantment(EnchantmentType),
    Land(LandType),
    Plane(PlanarType),
    Planeswalker(PlaneswalkerType),
    Spell(SpellType),
}

impl Coded for Subtype {
    /// The position of the card type that the subtype belongs to, then the
    /// index of the subtype among the subtypes of that card type.
    open spec fn spec_code(self) -> (u64, u64) {
        match self {
            Subtype::Artifact(subtype) => (0, subtype.spec_index()),
            Subtype::Creature(subtype) => (1, subtype.spec_index()),
            Subtype::Enchantment(subtype) => (2, subtype.spec_index()),
            Subtype::Land(subtype) => (3, subtype.spec_index()),
            Subtype::Plane(subtype) => (4, subtype.spec_index()),
            Subtype::Planeswalker(subtype) => (5, subtype.spec_index()),
            Subtype::Spell(subtype) => (6, subtype.spec_index()),
        }
    }

    open spec fn spec_from_code(code: (u64, u64)) -> Option<Subtype> {
        if code.0 == 0 {
            match ArtifactType::spec_from_index(code.1) {
                Some(subtype) => Some(Subtype::Artifact(subtype)),
                None => None,
            }
        } else if code.0 == 1 {
            match CreatureType::spec_from_index(code.1) {
                Some(subtype) => Some(Subtype::Creature(subtype)),
                None => None,
            }
        } else if code.0 == 2 {
            match EnchantmentType::spec_from_index(code.1) {
                Some(subtype) => Some(Subtype::Enchantment(subtype)),
                None => None,
            }
        } else if code.0 == 3 {
            match LandType::spec_from_index(code.1) {
                Some(subtype) => Some(Subtype::Land(subtype)),
                None => None,
            }
        } else if code.0 == 4 {
            match PlanarType::spec_from_index(code.1) {
                Some(subtype) => Some(Subtype::Plane(subtype)),
                None => None,
            }
        } else if code.0 == 5 {
            match PlaneswalkerType::spec_from_index(code.1) {
                Some(subtype) => Some(Subtype::Planeswalker(subtype)),
                None => None,
            }
        } else if code.0 == 6 {
            match SpellType::spec_from_index(code.1) {
                Some(subtype) => Some(Subtype::Spell(subtype)),
                None => None,
            }
        } else {
            None
        }
    }

    fn code(self) -> (code: (u64, u64)) {
        match self {
            Subtype::Artifact(subtype) => (0, subtype.index()),
            Subtype::Creature(subtype) => (1, subtype.index()),
            Subtype::Enchantment(subtype) => (2, subtype.index()),
            Subtype::Land(subtype) => (3, subtype.index()),
            Subtype::Plane(subtype) => (4, subtype.index()),
            Subtype::Planeswalker(subtype) => (5, subtype.index()),
            Subtype::Spell(subtype) => (6, subtype.index()),
        }
    }

    fn from_code(code: (u64, u64)) -> (value: Option<Subtype>) {
        if code.0 == 0 {
            match ArtifactType::from_index(code.1) {
                Some(subtype) => Some(Subtype::Artifact(subtype)),
                None => None,
            }
        } else if code.0 == 1 {
            match CreatureType::from_index(code.1) {
                Some(subtype) => Some(Subtype::Creature(subtype)),
                None => None,
            }
        } else if code.0 == 2 {
            match EnchantmentType::from_index(code.1) {
                Some(subtype) => Some(Subtype::Enchantment(subtype)),
                None => None,
            }
        } else if code.0 == 3 {
            match LandType::from_index(code.1) {
                Some(subtype) => Some(Subtype::Land(subtype)),
                None => None,
            }
        } else if code.0 == 4 {
            match PlanarType::from_index(code.1) {
                Some(subtype) => Some(Subtype::Plane(subtype)),
                None => None,
            }
        } else if code.0 == 5 {
            match PlaneswalkerType::from_index(code.1) {
                Some(subtype) => Some(Subtype::Planeswalker(subtype)),
                None => None,
            }
        } else if code.0 == 6 {
            match SpellType::from_index(code.1) {
                Some(subtype) => Some(Subtype::Spell(subtype)),
                None => None,
            }
        } else {
            None
        }
    }

    proof fn lemma_code(value: Subtype, code: (u64, u64)) {
        match value {
            Subtype::Artifact(subtype) => {
                ArtifactType::lemma_index(subtype, code.1);
            },
            Subtype::Creature(subtype) => {
                CreatureType::lemma_index(subtype, code.1);
            },
            Subtype::Enchantment(subtype) => {
                EnchantmentType::lemma_index(subtype, code.1);
            },
            Subtype::Land(subtype) => {
                LandType::lemma_index(subtype, code.1);
            },
            Subtype::Plane(subtype) => {
                PlanarType::lemma_index(subtype, code.1);
            },
            Subtype::Planeswalker(subtype) => {
                PlaneswalkerType::lemma_index(subtype, code.1);
            },
            Subtype::Spell(subtype) => {
                SpellType::lemma_index(subtype, code.1);
            },
        }
    }
}

/// 301.3. Artifact subtypes are always a single word and are listed after a long dash: "Artifact -
///        Equipment." Artifact subtypes are also called artifact types. Artifacts may have multiple
///        subtypes. See rule 205.3g for the complete list of artifact types.
#[derive(Copy, Clone, Debug, PartialEq, Eq, Hash, Structural)]
pub enum ArtifactType {
    Blood,
    Clue,
    Contraption,
    Equipment,
    Food,
    Fortification,
    Gold,
    Treasure,
    Vehicle,
}

impl Indexed for ArtifactType {
    /// The position of the variant in the declaration.
    closed spec fn spec_index(self) -> u64 {
        match self {
            ArtifactType::Blood => 0,
            ArtifactType::Clue => 1,
            ArtifactType::Contraption => 2,
            ArtifactType::Equipment => 3,
            ArtifactType::Food => 4,
            ArtifactType::Fortification => 5,
            ArtifactType::Gold => 6,
            ArtifactType::Treasure => 7,
            ArtifactType::Vehicle => 8,
        }
    }

    closed spec fn spec_from_index(index: u64) -> Option<ArtifactType> {
        if index == 0 {
            Some(ArtifactType::Blood)
        } else if index == 1 {
            Some(ArtifactType::Clue)
        } else if index == 2 {
            Some(ArtifactType::Contraption)
        } else if index == 3 {
            Some(ArtifactType::Equipment)
        } else if index == 4 {
            Some(ArtifactType::Food)
        } else if index == 5 {
            Some(ArtifactType::Fortification)
        } else if index == 6 {
            Some(ArtifactType::Gold)
        } else if index == 7 {
            Some(ArtifactType::Treasure)
        } else if index == 8 {
            Some(ArtifactType::Vehicle)
        } else {
            None
        }
    }

    fn index(self) -> (index: u64) {
        match self {
            ArtifactType::Blood => 0,
            ArtifactType::Clue => 1,
            ArtifactType::Contraption => 2,
            ArtifactType::Equipment => 3,
            ArtifactType::Food => 4,
            ArtifactType::Fortification => 5,
            ArtifactType::Gold => 6,
            ArtifactType::Treasure => 7,
            ArtifactType::Vehicle => 8,
        }
    }

    fn from_index(index: u64) -> (value: Option<ArtifactType>) {
        if index == 0 {
            Some(ArtifactType::Blood)
        } else if index == 1 {
            Some(ArtifactType::Clue)
        } else if index == 2 {
            Some(ArtifactType::Contraption)
        } else if index == 3 {
            Some(ArtifactType::Equipment)
        } else if index == 4 {
            Some(ArtifactType::Food)
        } else if index == 5 {
            Some(ArtifactType::Fortification)
        } else if index == 6 {
            Some(ArtifactType::Gold)
        } else if index == 7 {
            Some(ArtifactType::Treasure)
        } else if index == 8 {
            Some(ArtifactType::Vehicle)
        } else {
            None
        }
    }

    proof fn lemma_index(value: ArtifactType, index: u64) {
    }
}

/// 303.3. Enchantment subtypes are always a single word and are listed after a long dash:
///        "Enchantment - Shrine." Each word after the dash is a separate subtype. Enchantment
///        subtypes are also called enchantment types. Enchantments may have multiple subtypes.
///        See rule 205.3h for the complete list of enchantment types.
#[derive(Copy, Clone, Debug, PartialEq, Eq, Hash, Structural)]
pub enum EnchantmentType {
    Aura,
    Cartouche,
    Class,
    Curse,
    Rune,
    Saga,
    Shard,
    Shrine,
}

impl Indexed for EnchantmentType {
    /// The position of the variant in the declaration.
    closed spec fn spec_index(self) -> u64 {
        match self {
            EnchantmentType::Aura => 0,
            EnchantmentType::Cartouche => 1,
            EnchantmentType::Class => 2,
            EnchantmentType::Curse => 3,
            EnchantmentType::Rune => 4,
            EnchantmentType::Saga => 5,
            EnchantmentType::Shard => 6,
            EnchantmentType::Shrine => 7,
        }
    }

    closed spec fn spec_from_index(index: u64) -> Option<EnchantmentType> {
        if index == 0 {
            Some(EnchantmentType::Aura)
        } else if index == 1 {
            Some(EnchantmentType::Cartouche)
        } else if index == 2 {
            Some(EnchantmentType::Class)
        } else if index == 3 {
            Some(EnchantmentType::Curse)
        } else if index == 4 {
            Some(EnchantmentType::Rune)
        } else if index == 5 {
            Some(EnchantmentType::Saga)
        } else if index == 6 {
            Some(EnchantmentType::Shard)
        } else if index == 7 {
            Some(EnchantmentType::Shrine)
        } else {
            None
        }
    }

    fn index(self) -> (index: u64) {
        match self {
            EnchantmentType::Aura => 0,
            EnchantmentType::Cartouche => 1,
            EnchantmentType::Class => 2,
            EnchantmentType::Curse => 3,
            EnchantmentType::Rune => 4,
            EnchantmentType::Saga => 5,
            EnchantmentType::Shard => 6,
            EnchantmentType::Shrine => 7,
        }
    }

    fn from_index(index: u64) -> (value: Option<EnchantmentType>) {
        if index == 0 {
            Some(EnchantmentType::Aura)
        } else if index == 1 {
            Some(EnchantmentType::Cartouche)
        } else if index == 2 {
            Some(EnchantmentType::Class)
        } else if index == 3 {
            Some(EnchantmentType::Curse)
        } else if index == 4 {
            Some(EnchantmentType::Rune)
        } else if index == 5 {
            Some(EnchantmentType::Saga)
        } else if index == 6 {
            Some(EnchantmentType::Shard)
        } else if index == 7 {
            Some(EnchantmentType::Shrine)
        } else {
            None
        }
    }

    proof fn lemma_index(value: EnchantmentType, index: u64) {
    }
}

/// 305.5. Land subtypes are always a single word and are listed after a long dash. Land subtypes
///        are also called land types. Lands may have multiple subtypes. See rule 205.3i for the
///        complete list of land types.
///
/// Example: "Basic Land - Mountain" means the card is a land with the subtype Mountain.
#[derive(Copy, Clone, Debug, PartialEq, Eq, Hash, Structural)]
pub enum LandType {
    Basic(BasicLandType),
    Desert,
    Gate,
    Lair,
    Locus,
    Mine,
    PowerPlant,
    Tower,
    Urzas,
}

impl Indexed for LandType {
    /// The index of a basic land type, which is below 5, or for another land
    /// type its position in the declaration counted from 5.
    closed spec fn spec_index(self) -> u64 {
        match self {
            LandType::Basic(basic) => basic.spec_index(),
            LandType::Desert => 5,
            LandType::Gate => 6,
            LandType::Lair => 7,
            LandType::Locus => 8,
            LandType::Mine => 9,
            LandType::PowerPlant => 10,
            LandType::Tower => 11,
            LandType::Urzas => 12,
        }
    }

    closed spec fn spec_from_index(index: u64) -> Option<LandType> {
        if index < 5 {
            match BasicLandType::spec_from_index(index) {
                Some(basic) => Some(LandType::Basic(basic)),
                None => None,
            }
        } else if index == 5 {
            Some(LandType::Desert)
        } else if index == 6 {
            Some(LandType::Gate)
        } else if index == 7 {
            Some(LandType::Lair)
        } else if index == 8 {
            Some(LandType::Locus)
        } else if index == 9 {
            Some(LandType::Mine)
        } else if index == 10 {
            Some(LandType::PowerPlant)
        } else if index == 11 {
            Some(LandType::Tower)
        } else if index == 12 {
            Some(LandType::Urzas)
        } else {
            None
        }
    }

    fn index(self) -> (index: u64) {
        match self {
            LandType::Basic(basic) => basic.index(),
            LandType::Desert => 5,
            LandType::Gate => 6,
            LandType::Lair => 7,
            LandType::Locus => 8,
            LandType::Mine => 9,
            LandType::PowerPlant => 10,
            LandType::Tower => 11,
            LandType::Urzas => 12,
        }
    }

    fn from_index(index: u64) -> (value: Option<LandType>) {
        if index < 5 {
            match BasicLandType::from_index(index) {
                Some(basic) => Some(LandType::Basic(basic)),
                None => None,
            }
        } else if index == 5 {
            Some(LandType::Desert)
        } else if index == 6 {
            Some(LandType::Gate)
        } else if index == 7 {
            Some(LandType::Lair)
        } else if index == 8 {
            Some(LandType::Locus)
        } else if index == 9 {
            Some(LandType::Mine)
        } else if index == 10 {
            Some(LandType::PowerPlant)
        } else if index == 11 {
            Some(LandType::Tower)
        } else if index == 12 {
            Some(LandType::Urzas)
        } else {
            None
        }
    }

    proof fn lemma_index(value: LandType, index: u64) {
    }
}

/// 305.6. The basic land types are Plains, Island, Swamp, Mountain, and Forest. If an object uses
///        the words "basic land type," it's referring to one of these subtypes. An object with the
///        land card type and a basic land type has the intrinsic ability "{T}: Add [mana symbol],"
///        even if the text box doesn't actually contain that text or the object has no text box.
///        For Plains, [mana symbol] is {W}; for Islands, {U}; for Swamps, {B}; for Mountains, {R};
///        and for Forests, {G}. See rule 107.4a. See also rule 605, "Mana Abilities."
#[derive(Copy, Clone, Debug, PartialEq, Eq, Hash, Structural)]
pub enum BasicLandType {
    Forest,
    Island,
    Mountain,
    Plains,
    Swamp,
}

impl Indexed for BasicLandType {
    /// The position of the variant in the declaration.
    closed spec fn spec_index(self) -> u64 {
        match self {
            BasicLandType::Forest => 0,
            BasicLandType::Island => 1,
            BasicLandType::Mountain => 2,
            BasicLandType::Plains => 3,
            BasicLandType::Swamp => 4,
        }
    }

    closed spec fn spec_from_index(index: u64) -> Option<BasicLandType> {
        if index == 0 {
            Some(BasicLandType::Forest)
        } else if index == 1 {
            Some(BasicLandType::Island)
        } else if index == 2 {
            Some(BasicLandType::Mountain)
        } else if index == 3 {
            Some(BasicLandType::Plains)
        } else if index == 4 {
            Some(BasicLandType::Swamp)
        } else {
            None
        }
    }

    fn index(self) -> (index: u64) {
        match self {
            BasicLandType::Forest => 0,
            BasicLandType::Island => 1,
            BasicLandType::Mountain => 2,
            BasicLandType::Plains => 3,
            BasicLandType::Swamp => 4,
        }
    }

    fn from_index(index: u64) -> (value: Option<BasicLandType>) {
        if index == 0 {
            Some(BasicLandType::Forest)
        } else if index == 1 {
            Some(BasicLandType::Island)
        } else if index == 2 {
            Some(BasicLandType::Mountain)
        } else if index == 3 {
            Some(BasicLandType::Plains)
        } else if index == 4 {
            Some(BasicLandType::Swamp)
        } else {
            None
        }
    }

    proof fn lemma_index(value: BasicLandType, index: u64) {
    }
}

/// 304.3. Instant subtypes are always a single word and are listed after a long dash: "Instant -
///        Arcane." Each word after the dash is a separate subtype. The set of instant subtypes is
///        the same as the set of sorcery subtypes; these subtypes are called spell types. Instants
///        may have multiple subtypes. See rule 205.3k for the complete list of spell types.
///
/// 307.3. Sorcery subtypes are always a single word and are listed after a long dash: "Sorcery -
///        Arcane." Each word after the dash is a separate subtype. The set of sorcery subtypes is
///        the same as the set of instant subtypes; these subtypes are called spell types. Sorceries
///        may have multiple subtypes. See rule 205.3k for the complete list of spell types.
#[derive(Copy, Clone, Debug, PartialEq, Eq, Hash, Structural)]
pub enum SpellType {
    Adventure,
    Arcane,
    Lesson,
    Trap,
}

impl Indexed for SpellType {
    /// The position of the variant in the declaration.
    closed spec fn spec_index(self) -> u64 {
        match self {
            SpellType::Adventure => 0,
            SpellType::Arcane => 1,
            SpellType::Lesson => 2,
            SpellType::Trap => 3,
        }
    }

    closed spec fn spec_from_index(index: u64) -> Option<SpellType> {
        if index == 0 {
            Some(SpellType::Adventure)
        } else if index == 1 {
            Some(SpellType::Arcane)
        } else if index == 2 {
            Some(SpellType::Lesson)
        } else if index == 3 {
            Some(SpellType::Trap)
        } else {
            None
        }
    }

    fn index(self) -> (index: u64) {
        match self {
            SpellType::Adventure => 0,
            SpellType::Arcane => 1,
            SpellType::Lesson => 2,
            SpellType::Trap => 3,
        }
    }

    fn from_index(index: u64) -> (value: Option<SpellType>) {
        if index == 0 {
            Some(SpellType::Adventure)
        } else if index == 1 {
            Some(SpellType::Arcane)
        } else if index == 2 {
            Some(SpellType::Lesson)
        } else if index == 3 {
            Some(SpellType::Trap)
        } else {
            None
        }
    }

    proof fn lemma_index(value: SpellType, index: u64) {
    }
}

} // verus!
