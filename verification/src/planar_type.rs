//! The planar types.

use crate::ordered_set::Indexed;
use vstd::prelude::*;

verus! {

/// 310.3. Plane subtypes are listed after a long dash, and may be multiple words: "Plane - Serra's
///        Realm." All words after the dash are, collectively, a single subtype. Planar subtypes are
///        called planar types. A plane can have only one subtype. See rule 205.3n for the complete
///        list of planar types.
#[derive(Copy, Clone, Debug, PartialEq, Eq, Hash, Structural)]
pub enum PlanarType {
    Alara,
    Arkhos,
    Azgol,
    Belenon,
    BolassMeditationRealm,
    Dominaria,
    Equilor,
    Ergamon,
    Fabacin,
    Innistrad,
    Iquatana,
    Ir,
    Kaldheim,
    Kamigawa,
    Karsus,
    Kephalai,
    Kinshala,
    Kolbahan,
    Kyneth,
    Lorwyn,
    Luvion,
    Mercadia,
    Mirrodin,
    Moag,
    Mongseng,
    Muraganda,
    NewPhyrexia,
    Phyrexia,
    Pyrulea,
    Rabiah,
    Rath,
    Ravnica,
    Regatha,
    Segovia,
    SerrasRealm,
    Shadowmoor,
    Shandalar,
    Ulgrotha,
    Valla,
    Vryn,
    Wildfire,
    Xerex,
    Zendikar,
}

impl Indexed for PlanarType {
    /// The position of the variant in the declaration.
    closed spec fn spec_index(self) -> u64 {
        match self {
            PlanarType::Alara => 0,
            PlanarType::Arkhos => 1,
            PlanarType::Azgol => 2,
            PlanarType::Belenon => 3,
            PlanarType::BolassMeditationRealm => 4,
            PlanarType::Dominaria => 5,
            PlanarType::Equilor => 6,
            PlanarType::Ergamon => 7,
            PlanarType::Fabacin => 8,
            PlanarType::Innistrad => 9,
            PlanarType::Iquatana => 10,
            PlanarType::Ir => 11,
            PlanarType::Kaldheim => 12,
            PlanarType::Kamigawa => 13,
            PlanarType::Karsus => 14,
            PlanarType::Kephalai => 15,
            PlanarType::Kinshala => 16,
            PlanarType::Kolbahan => 17,
            PlanarType::Kyneth => 18,
            PlanarType::Lorwyn => 19,
            PlanarType::Luvion => 20,
            PlanarType::Mercadia => 21,
            PlanarType::Mirrodin => 22,
            PlanarType::Moag => 23,
            PlanarType::Mongseng => 24,
            PlanarType::Muraganda => 25,
            PlanarType::NewPhyrexia => 26,
            PlanarType::Phyrexia => 27,
            PlanarType::Pyrulea => 28,
            PlanarType::Rabiah => 29,
            PlanarType::Rath => 30,
            PlanarType::Ravnica => 31,
            PlanarType::Regatha => 32,
            PlanarType::Segovia => 33,
            PlanarType::SerrasRealm => 34,
            PlanarType::Shadowmoor => 35,
            PlanarType::Shandalar => 36,
            PlanarType::Ulgrotha => 37,
            PlanarType::Valla => 38,
            PlanarType::Vryn => 39,
            PlanarType::Wildfire => 40,
            PlanarType::Xerex => 41,
            PlanarType::Zendikar => 42,
        }
    }

    closed spec fn spec_from_index(index: u64) -> Option<PlanarType> {
        if index == 0 {
            Some(PlanarType::Alara)
        } else if index == 1 {
            Some(PlanarType::Arkhos)
        } else if index == 2 {
            Some(PlanarType::Azgol)
        } else if index == 3 {
            Some(PlanarType::Belenon)
        } else if index == 4 {
            Some(PlanarType::BolassMeditationRealm)
        } else if index == 5 {
            Some(PlanarType::Dominaria)
        } else if index == 6 {
            Some(PlanarType::Equilor)
        } else if index == 7 {
            Some(PlanarType::Ergamon)
        } else if index == 8 {
            Some(PlanarType::Fabacin)
        } else if index == 9 {
            Some(PlanarType::Innistrad)
        } else if index == 10 {
            Some(PlanarType::Iquatana)
        } else if index == 11 {
            Some(PlanarType::Ir)
        } else if index == 12 {
            Some(PlanarType::Kaldheim)
        } else if index == 13 {
            Some(PlanarType::Kamigawa)
        } else if index == 14 {
            Some(PlanarType::Karsus)
        } else if index == 15 {
            Some(PlanarType::Kephalai)
        } else if index == 16 {
            Some(PlanarType::Kinshala)
        } else if index == 17 {
            Some(PlanarType::Kolbahan)
        } else if index == 18 {
            Some(PlanarType::Kyneth)
        } else if index == 19 {
            Some(PlanarType::Lorwyn)
        } else if index == 20 {
            Some(PlanarType::Luvion)
        } else if index == 21 {
            Some(PlanarType::Mercadia)
        } else if index == 22 {
            Some(PlanarType::Mirrodin)
        } else if index == 23 {
            Some(PlanarType::Moag)
        } else if index == 24 {
            Some(PlanarType::Mongseng)
        } else if index == 25 {
            Some(PlanarType::Muraganda)
        } else if index == 26 {
            Some(PlanarType::NewPhyrexia)
        } else if index == 27 {
            Some(PlanarType::Phyrexia)
        } else if index == 28 {
            Some(PlanarType::Pyrulea)
        } else if index == 29 {
            Some(PlanarType::Rabiah)
        } else if index == 30 {
            Some(PlanarType::Rath)
        } else if index == 31 {
            Some(PlanarType::Ravnica)
        } else if index == 32 {
            Some(PlanarType::Regatha)
        } else if index == 33 {
            Some(PlanarType::Segovia)
        } else if index == 34 {
            Some(PlanarType::SerrasRealm)
        } else if index == 35 {
            Some(PlanarType::Shadowmoor)
        } else if index == 36 {
            Some(PlanarType::Shandalar)
        } else if index == 37 {
            Some(PlanarType::Ulgrotha)
        } else if index == 38 {
            Some(PlanarType::Valla)
        } else if index == 39 {
            Some(PlanarType::Vryn)
        } else if index == 40 {
            Some(PlanarType::Wildfire)
        } else if index == 41 {
            Some(PlanarType::Xerex)
        } else if index == 42 {
            Some(PlanarType::Zendikar)
        } else {
            None
        }
    }

    fn index(self) -> (index: u64) {
        match self {
            PlanarType::Alara => 0,
            PlanarType::Arkhos => 1,
            PlanarType::Azgol => 2,
            PlanarType::Belenon => 3,
            PlanarType::BolassMeditationRealm => 4,
            PlanarType::Dominaria => 5,
            PlanarType::Equilor => 6,
            PlanarType::Ergamon => 7,
            PlanarType::Fabacin => 8,
            PlanarType::Innistrad => 9,
            PlanarType::Iquatana => 10,
            PlanarType::Ir => 11,
            PlanarType::Kaldheim => 12,
            PlanarType::Kamigawa => 13,
            PlanarType::Karsus => 14,
            PlanarType::Kephalai => 15,
            PlanarType::Kinshala => 16,
            PlanarType::Kolbahan => 17,
            PlanarType::Kyneth => 18,
            PlanarType::Lorwyn => 19,
            PlanarType::Luvion => 20,
            PlanarType::Mercadia => 21,
            PlanarType::Mirrodin => 22,
            PlanarType::Moag => 23,
            PlanarType::Mongseng => 24,
            PlanarType::Muraganda => 25,
            PlanarType::NewPhyrexia => 26,
            PlanarType::Phyrexia => 27,
            PlanarType::Pyrulea => 28,
            PlanarType::Rabiah => 29,
            PlanarType::Rath => 30,
            PlanarType::Ravnica => 31,
            PlanarType::Regatha => 32,
            PlanarType::Segovia => 33,
            PlanarType::SerrasRealm => 34,
            PlanarType::Shadowmoor => 35,
            PlanarType::Shandalar => 36,
            PlanarType::Ulgrotha => 37,
            PlanarType::Valla => 38,
            PlanarType::Vryn => 39,
            PlanarType::Wildfire => 40,
            PlanarType::Xerex => 41,
            PlanarType::Zendikar => 42,
        }
    }

    fn from_index(index: u64) -> (value: Option<PlanarType>) {
        if index == 0 {
            Some(PlanarType::Alara)
        } else if index == 1 {
            Some(PlanarType::Arkhos)
        } else if index == 2 {
            Some(PlanarType::Azgol)
        } else if index == 3 {
            Some(PlanarType::Belenon)
        } else if index == 4 {
            Some(PlanarType::BolassMeditationRealm)
        } else if index == 5 {
            Some(PlanarType::Dominaria)
        } else if index == 6 {
            Some(PlanarType::Equilor)
        } else if index == 7 {
            Some(PlanarType::Ergamon)
        } else if index == 8 {
            Some(PlanarType::Fabacin)
        } else if index == 9 {
            Some(PlanarType::Innistrad)
        } else if index == 10 {
            Some(PlanarType::Iquatana)
        } else if index == 11 {
            Some(PlanarType::Ir)
        } else if index == 12 {
            Some(PlanarType::Kaldheim)
        } else if index == 13 {
            Some(PlanarType::Kamigawa)
        } else if index == 14 {
            Some(PlanarType::Karsus)
        } else if index == 15 {
            Some(PlanarType::Kephalai)
        } else if index == 16 {
            Some(PlanarType::Kinshala)
        } else if index == 17 {
            Some(PlanarType::Kolbahan)
        } else if index == 18 {
            Some(PlanarType::Kyneth)
        } else if index == 19 {
            Some(PlanarType::Lorwyn)
        } else if index == 20 {
            Some(PlanarType::Luvion)
        } else if index == 21 {
            Some(PlanarType::Mercadia)
        } else if index == 22 {
            Some(PlanarType::Mirrodin)
        } else if index == 23 {
            Some(PlanarType::Moag)
        } else if index == 24 {
            Some(PlanarType::Mongseng)
        } else if index == 25 {
            Some(PlanarType::Muraganda)
        } else if index == 26 {
            Some(PlanarType::NewPhyrexia)
        } else if index == 27 {
            Some(PlanarType::Phyrexia)
        } else if index == 28 {
            Some(PlanarType::Pyrulea)
        } else if index == 29 {
            Some(PlanarType::Rabiah)
        } else if index == 30 {
            Some(PlanarType::Rath)
        } else if index == 31 {
            Some(PlanarType::Ravnica)
        } else if index == 32 {
            Some(PlanarType::Regatha)
        } else if index == 33 {
            Some(PlanarType::Segovia)
        } else if index == 34 {
            Some(PlanarType::SerrasRealm)
        } else if index == 35 {
            Some(PlanarType::Shadowmoor)
        } else if index == 36 {
            Some(PlanarType::Shandalar)
        } else if index == 37 {
            Some(PlanarType::Ulgrotha)
        } else if index == 38 {
            Some(PlanarType::Valla)
        } else if index == 39 {
            Some(PlanarType::Vryn)
        } else if index == 40 {
            Some(PlanarType::Wildfire)
        } else if index == 41 {
            Some(PlanarType::Xerex)
        } else if index == 42 {
            Some(PlanarType::Zendikar)
        } else {
            None
        }
    }

    proof fn lemma_index(value: PlanarType, index: u64) {
    }
}
} // verus!
