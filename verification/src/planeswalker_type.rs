//! The planeswalker types.

use crate::ordered_set::Indexed;
use vstd::prelude::*;

verus! {

/// 306.3. Planeswalker subtypes are always a single word and are listed after a long dash:
///        "Planeswalker - Jace." Each word after the dash is a separate subtype. Planeswalker
///        subtypes are also called planeswalker types. Planeswalkers may have multiple subtypes.
///        See rule 205.3j for the complete list of planeswalker types.
#[derive(Copy, Clone, Debug, PartialEq, Eq, Hash, Structural)]
pub enum PlaneswalkerType {
    Ajani,
    Aminatou,
    Angrath,
    Arlinn,
    Ashiok,
    Bahamut,
    Basri,
    Bolas,
    Calix,
    Chandra,
    Dack,
    Dakkon,
    Daretti,
    Davriel,
    Dihada,
    Domri,
    Dovin,
    Ellywick,
    Elspeth,
    Estrid,
    Freyalise,
    Garruk,
    Gideon,
    Grist,
    Huatli,
    Jace,
    Jaya,
    Jeska,
    Kaito,
    Karn,
    Kasmina,
    Kaya,
    Kiora,
    Koth,
    Liliana,
    Lolth,
    Lukka,
    Mordenkainen,
    Nahiri,
    Narset,
    Niko,
    Nissa,
    Nixilis,
    Oko,
    Ral,
    Rowan,
    Saheeli,
    Samut,
    Sarkhan,
    Serra,
    Sorin,
    Szat,
    Tamiyo,
    Teferi,
    Teyo,
    Tezzeret,
    Tibalt,
    Tyvar,
    Ugin,
    Venser,
    Vivien,
    Vraska,
    Will,
    Windgrace,
    Wrenn,
    Xenagos,
    Yanggu,
    Yanling,
    Zariel,
}

impl Indexed for PlaneswalkerType {
    /// The position of the variant in the declaration.
    closed spec fn spec_index(self) -> u64 {
        match self {
            PlaneswalkerType::Ajani => 0,
            PlaneswalkerType::Aminatou => 1,
            PlaneswalkerType::Angrath => 2,
            PlaneswalkerType::Arlinn => 3,
            PlaneswalkerType::Ashiok => 4,
            PlaneswalkerType::Bahamut => 5,
            PlaneswalkerType::Basri => 6,
            PlaneswalkerType::Bolas => 7,
            PlaneswalkerType::Calix => 8,
            PlaneswalkerType::Chandra => 9,
            PlaneswalkerType::Dack => 10,
            PlaneswalkerType::Dakkon => 11,
            PlaneswalkerType::Daretti => 12,
            PlaneswalkerType::Davriel => 13,
            PlaneswalkerType::Dihada => 14,
            PlaneswalkerType::Domri => 15,
            PlaneswalkerType::Dovin => 16,
            PlaneswalkerType::Ellywick => 17,
            PlaneswalkerType::Elspeth => 18,
            PlaneswalkerType::Estrid => 19,
            PlaneswalkerType::Freyalise => 20,
            PlaneswalkerType::Garruk => 21,
            PlaneswalkerType::Gideon => 22,
            PlaneswalkerType::Grist => 23,
            PlaneswalkerType::Huatli => 24,
            PlaneswalkerType::Jace => 25,
            PlaneswalkerType::Jaya => 26,
            PlaneswalkerType::Jeska => 27,
            PlaneswalkerType::Kaito => 28,
            PlaneswalkerType::Karn => 29,
            PlaneswalkerType::Kasmina => 30,
            PlaneswalkerType::Kaya => 31,
            PlaneswalkerType::Kiora => 32,
            PlaneswalkerType::Koth => 33,
            PlaneswalkerType::Liliana => 34,
            PlaneswalkerType::Lolth => 35,
            PlaneswalkerType::Lukka => 36,
            PlaneswalkerType::Mordenkainen => 37,
            PlaneswalkerType::Nahiri => 38,
            PlaneswalkerType::Narset => 39,
            PlaneswalkerType::Niko => 40,
            PlaneswalkerType::Nissa => 41,
            PlaneswalkerType::Nixilis => 42,
            PlaneswalkerType::Oko => 43,
            PlaneswalkerType::Ral => 44,
            PlaneswalkerType::Rowan => 45,
            PlaneswalkerType::Saheeli => 46,
            PlaneswalkerType::Samut => 47,
            PlaneswalkerType::Sarkhan => 48,
            PlaneswalkerType::Serra => 49,
            PlaneswalkerType::Sorin => 50,
            PlaneswalkerType::Szat => 51,
            PlaneswalkerType::Tamiyo => 52,
            PlaneswalkerType::Teferi => 53,
            PlaneswalkerType::Teyo => 54,
            PlaneswalkerType::Tezzeret => 55,
            PlaneswalkerType::Tibalt => 56,
            PlaneswalkerType::Tyvar => 57,
            PlaneswalkerType::Ugin => 58,
            PlaneswalkerType::Venser => 59,
            PlaneswalkerType::Vivien => 60,
            PlaneswalkerType::Vraska => 61,
            PlaneswalkerType::Will => 62,
            PlaneswalkerType::Windgrace => 63,
            PlaneswalkerType::Wrenn => 64,
            PlaneswalkerType::Xenagos => 65,
            PlaneswalkerType::Yanggu => 66,
            PlaneswalkerType::Yanling => 67,
            PlaneswalkerType::Zariel => 68,
        }
    }

    closed spec fn spec_from_index(index: u64) -> Option<PlaneswalkerType> {
        if index == 0 {
            Some(PlaneswalkerType::Ajani)
        } else if index == 1 {
            Some(PlaneswalkerType::Aminatou)
        } else if index == 2 {
            Some(PlaneswalkerType::Angrath)
        } else if index == 3 {
            Some(PlaneswalkerType::Arlinn)
        } else if index == 4 {
            Some(PlaneswalkerType::Ashiok)
        } else if index == 5 {
            Some(PlaneswalkerType::Bahamut)
        } else if index == 6 {
            Some(PlaneswalkerType::Basri)
        } else if index == 7 {
            Some(PlaneswalkerType::Bolas)
        } else if index == 8 {
            Some(PlaneswalkerType::Calix)
        } else if index == 9 {
            Some(PlaneswalkerType::Chandra)
        } else if index == 10 {
            Some(PlaneswalkerType::Dack)
        } else if index == 11 {
            Some(PlaneswalkerType::Dakkon)
        } else if index == 12 {
            Some(PlaneswalkerType::Daretti)
        } else if index == 13 {
            Some(PlaneswalkerType::Davriel)
        } else if index == 14 {
            Some(PlaneswalkerType::Dihada)
        } else if index == 15 {
            Some(PlaneswalkerType::Domri)
        } else if index == 16 {
            Some(PlaneswalkerType::Dovin)
        } else if index == 17 {
            Some(PlaneswalkerType::Ellywick)
        } else if index == 18 {
            Some(PlaneswalkerType::Elspeth)
        } else if index == 19 {
            Some(PlaneswalkerType::Estrid)
        } else if index == 20 {
            Some(PlaneswalkerType::Freyalise)
        } else if index == 21 {
            Some(PlaneswalkerType::Garruk)
        } else if index == 22 {
            Some(PlaneswalkerType::Gideon)
        } else if index == 23 {
            Some(PlaneswalkerType::Grist)
        } else if index == 24 {
            Some(PlaneswalkerType::Huatli)
        } else if index == 25 {
            Some(PlaneswalkerType::Jace)
        } else if index == 26 {
            Some(PlaneswalkerType::Jaya)
        } else if index == 27 {
            Some(PlaneswalkerType::Jeska)
        } else if index == 28 {
            Some(PlaneswalkerType::Kaito)
        } else if index == 29 {
            Some(PlaneswalkerType::Karn)
        } else if index == 30 {
            Some(PlaneswalkerType::Kasmina)
        } else if index == 31 {
            Some(PlaneswalkerType::Kaya)
        } else if index == 32 {
            Some(PlaneswalkerType::Kiora)
        } else if index == 33 {
            Some(PlaneswalkerType::Koth)
        } else if index == 34 {
            Some(PlaneswalkerType::Liliana)
        } else if index == 35 {
            Some(PlaneswalkerType::Lolth)
        } else if index == 36 {
            Some(PlaneswalkerType::Lukka)
        } else if index == 37 {
            Some(PlaneswalkerType::Mordenkainen)
        } else if index == 38 {
            Some(PlaneswalkerType::Nahiri)
        } else if index == 39 {
            Some(PlaneswalkerType::Narset)
        } else if index == 40 {
            Some(PlaneswalkerType::Niko)
        } else if index == 41 {
            Some(PlaneswalkerType::Nissa)
        } else if index == 42 {
            Some(PlaneswalkerType::Nixilis)
        } else if index == 43 {
            Some(PlaneswalkerType::Oko)
        } else if index == 44 {
            Some(PlaneswalkerType::Ral)
        } else if index == 45 {
            Some(PlaneswalkerType::Rowan)
        } else if index == 46 {
            Some(PlaneswalkerType::Saheeli)
        } else if index == 47 {
            Some(PlaneswalkerType::Samut)
        } else if index == 48 {
            Some(PlaneswalkerType::Sarkhan)
        } else if index == 49 {
            Some(PlaneswalkerType::Serra)
        } else if index == 50 {
            Some(PlaneswalkerType::Sorin)
        } else if index == 51 {
            Some(PlaneswalkerType::Szat)
        } else if index == 52 {
            Some(PlaneswalkerType::Tamiyo)
        } else if index == 53 {
            Some(PlaneswalkerType::Teferi)
        } else if index == 54 {
            Some(PlaneswalkerType::Teyo)
        } else if index == 55 {
            Some(PlaneswalkerType::Tezzeret)
        } else if index == 56 {
            Some(PlaneswalkerType::Tibalt)
        } else if index == 57 {
            Some(PlaneswalkerType::Tyvar)
        } else if index == 58 {
            Some(PlaneswalkerType::Ugin)
        } else if index == 59 {
            Some(PlaneswalkerType::Venser)
        } else if index == 60 {
            Some(PlaneswalkerType::Vivien)
        } else if index == 61 {
            Some(PlaneswalkerType::Vraska)
        } else if index == 62 {
            Some(PlaneswalkerType::Will)
        } else if index == 63 {
            Some(PlaneswalkerType::Windgrace)
        } else if index == 64 {
            Some(PlaneswalkerType::Wrenn)
        } else if index == 65 {
            Some(PlaneswalkerType::Xenagos)
        } else if index == 66 {
            Some(PlaneswalkerType::Yanggu)
        } else if index == 67 {
            Some(PlaneswalkerType::Yanling)
        } else if index == 68 {
            Some(PlaneswalkerType::Zariel)
        } else {
            None
        }
    }

    fn index(self) -> (index: u64) {
        match self {
            PlaneswalkerType::Ajani => 0,
            PlaneswalkerType::Aminatou => 1,
            PlaneswalkerType::Angrath => 2,
            PlaneswalkerType::Arlinn => 3,
            PlaneswalkerType::Ashiok => 4,
            PlaneswalkerType::Bahamut => 5,
            PlaneswalkerType::Basri => 6,
            PlaneswalkerType::Bolas => 7,
            PlaneswalkerType::Calix => 8,
            PlaneswalkerType::Chandra => 9,
            PlaneswalkerType::Dack => 10,
            PlaneswalkerType::Dakkon => 11,
            PlaneswalkerType::Daretti => 12,
            PlaneswalkerType::Davriel => 13,
            PlaneswalkerType::Dihada => 14,
            PlaneswalkerType::Domri => 15,
            PlaneswalkerType::Dovin => 16,
            PlaneswalkerType::Ellywick => 17,
            PlaneswalkerType::Elspeth => 18,
            PlaneswalkerType::Estrid => 19,
            PlaneswalkerType::Freyalise => 20,
            PlaneswalkerType::Garruk => 21,
            PlaneswalkerType::Gideon => 22,
            PlaneswalkerType::Grist => 23,
            PlaneswalkerType::Huatli => 24,
            PlaneswalkerType::Jace => 25,
            PlaneswalkerType::Jaya => 26,
            PlaneswalkerType::Jeska => 27,
            PlaneswalkerType::Kaito => 28,
            PlaneswalkerType::Karn => 29,
            PlaneswalkerType::Kasmina => 30,
            PlaneswalkerType::Kaya => 31,
            PlaneswalkerType::Kiora => 32,
            PlaneswalkerType::Koth => 33,
            PlaneswalkerType::Liliana => 34,
            PlaneswalkerType::Lolth => 35,
            PlaneswalkerType::Lukka => 36,
            PlaneswalkerType::Mordenkainen => 37,
            PlaneswalkerType::Nahiri => 38,
            PlaneswalkerType::Narset => 39,
            PlaneswalkerType::Niko => 40,
            PlaneswalkerType::Nissa => 41,
            PlaneswalkerType::Nixilis => 42,
            PlaneswalkerType::Oko => 43,
            PlaneswalkerType::Ral => 44,
            PlaneswalkerType::Rowan => 45,
            PlaneswalkerType::Saheeli => 46,
            PlaneswalkerType::Samut => 47,
            PlaneswalkerType::Sarkhan => 48,
            PlaneswalkerType::Serra => 49,
            PlaneswalkerType::Sorin => 50,
            PlaneswalkerType::Szat => 51,
            PlaneswalkerType::Tamiyo => 52,
            PlaneswalkerType::Teferi => 53,
            PlaneswalkerType::Teyo => 54,
            PlaneswalkerType::Tezzeret => 55,
            PlaneswalkerType::Tibalt => 56,
            PlaneswalkerType::Tyvar => 57,
            PlaneswalkerType::Ugin => 58,
            PlaneswalkerType::Venser => 59,
            PlaneswalkerType::Vivien => 60,
            PlaneswalkerType::Vraska => 61,
            PlaneswalkerType::Will => 62,
            PlaneswalkerType::Windgrace => 63,
            PlaneswalkerType::Wrenn => 64,
            PlaneswalkerType::Xenagos => 65,
            PlaneswalkerType::Yanggu => 66,
            PlaneswalkerType::Yanling => 67,
            PlaneswalkerType::Zariel => 68,
        }
    }

    fn from_index(index: u64) -> (value: Option<PlaneswalkerType>) {
        if index == 0 {
            Some(PlaneswalkerType::Ajani)
        } else if index == 1 {
            Some(PlaneswalkerType::Aminatou)
        } else if index == 2 {
            Some(PlaneswalkerType::Angrath)
        } else if index == 3 {
            Some(PlaneswalkerType::Arlinn)
        } else if index == 4 {
            Some(PlaneswalkerType::Ashiok)
        } else if index == 5 {
            Some(PlaneswalkerType::Bahamut)
        } else if index == 6 {
            Some(PlaneswalkerType::Basri)
        } else if index == 7 {
            Some(PlaneswalkerType::Bolas)
        } else if index == 8 {
            Some(PlaneswalkerType::Calix)
        } else if index == 9 {
            Some(PlaneswalkerType::Chandra)
        } else if index == 10 {
            Some(PlaneswalkerType::Dack)
        } else if index == 11 {
            Some(PlaneswalkerType::Dakkon)
        } else if index == 12 {
            Some(PlaneswalkerType::Daretti)
        } else if index == 13 {
            Some(PlaneswalkerType::Davriel)
        } else if index == 14 {
            Some(PlaneswalkerType::Dihada)
        } else if index == 15 {
            Some(PlaneswalkerType::Domri)
        } else if index == 16 {
            Some(PlaneswalkerType::Dovin)
        } else if index == 17 {
            Some(PlaneswalkerType::Ellywick)
        } else if index == 18 {
            Some(PlaneswalkerType::Elspeth)
        } else if index == 19 {
            Some(PlaneswalkerType::Estrid)
        } else if index == 20 {
            Some(PlaneswalkerType::Freyalise)
        } else if index == 21 {
            Some(PlaneswalkerType::Garruk)
        } else if index == 22 {
            Some(PlaneswalkerType::Gideon)
        } else if index == 23 {
            Some(PlaneswalkerType::Grist)
        } else if index == 24 {
            Some(PlaneswalkerType::Huatli)
        } else if index == 25 {
            Some(PlaneswalkerType::Jace)
        } else if index == 26 {
            Some(PlaneswalkerType::Jaya)
        } else if index == 27 {
            Some(PlaneswalkerType::Jeska)
        } else if index == 28 {
            Some(PlaneswalkerType::Kaito)
        } else if index == 29 {
            Some(PlaneswalkerType::Karn)
        } else if index == 30 {
            Some(PlaneswalkerType::Kasmina)
        } else if index == 31 {
            Some(PlaneswalkerType::Kaya)
        } else if index == 32 {
            Some(PlaneswalkerType::Kiora)
        } else if index == 33 {
            Some(PlaneswalkerType::Koth)
        } else if index == 34 {
            Some(PlaneswalkerType::Liliana)
        } else if index == 35 {
            Some(PlaneswalkerType::Lolth)
        } else if index == 36 {
            Some(PlaneswalkerType::Lukka)
        } else if index == 37 {
            Some(PlaneswalkerType::Mordenkainen)
        } else if index == 38 {
            Some(PlaneswalkerType::Nahiri)
        } else if index == 39 {
            Some(PlaneswalkerType::Narset)
        } else if index == 40 {
            Some(PlaneswalkerType::Niko)
        } else if index == 41 {
            Some(PlaneswalkerType::Nissa)
        } else if index == 42 {
            Some(PlaneswalkerType::Nixilis)
        } else if index == 43 {
            Some(PlaneswalkerType::Oko)
        } else if index == 44 {
            Some(PlaneswalkerType::Ral)
        } else if index == 45 {
            Some(PlaneswalkerType::Rowan)
        } else if index == 46 {
            Some(PlaneswalkerType::Saheeli)
        } else if index == 47 {
            Some(PlaneswalkerType::Samut)
        } else if index == 48 {
            Some(PlaneswalkerType::Sarkhan)
        } else if index == 49 {
            Some(PlaneswalkerType::Serra)
        } else if index == 50 {
            Some(PlaneswalkerType::Sorin)
        } else if index == 51 {
            Some(PlaneswalkerType::Szat)
        } else if index == 52 {
            Some(PlaneswalkerType::Tamiyo)
        } else if index == 53 {
            Some(PlaneswalkerType::Teferi)
        } else if index == 54 {
            Some(PlaneswalkerType::Teyo)
        } else if index == 55 {
            Some(PlaneswalkerType::Tezzeret)
        } else if index == 56 {
            Some(PlaneswalkerType::Tibalt)
        } else if index == 57 {
            Some(PlaneswalkerType::Tyvar)
        } else if index == 58 {
            Some(PlaneswalkerType::Ugin)
        } else if index == 59 {
            Some(PlaneswalkerType::Venser)
        } else if index == 60 {
            Some(PlaneswalkerType::Vivien)
        } else if index == 61 {
            Some(PlaneswalkerType::Vraska)
        } else if index == 62 {
            Some(PlaneswalkerType::Will)
        } else if index == 63 {
            Some(PlaneswalkerType::Windgrace)
        } else if index == 64 {
            Some(PlaneswalkerType::Wrenn)
        } else if index == 65 {
            Some(PlaneswalkerType::Xenagos)
        } else if index == 66 {
            Some(PlaneswalkerType::Yanggu)
        } else if index == 67 {
            Some(PlaneswalkerType::Yanling)
        } else if index == 68 {
            Some(PlaneswalkerType::Zariel)
        } else {
            None
        }
    }

    proof fn lemma_index(value: PlaneswalkerType, index: u64) {
    }
}
} // verus!
