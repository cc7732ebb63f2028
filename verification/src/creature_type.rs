//! The creature types.

use crate::ordered_set::Indexed;
use vstd::prelude::*;

verus! {

/// 302.3. Creature subtypes are always a single word and are listed after a long dash: "Creature -
///        Human Soldier," "Artifact Creature - Golem," and so on. Creature subtypes are also called
///        creature types. Creatures may have multiple subtypes. See rule 205.3m for the complete
///        list of creature types.
///
/// Example: "Creature - Goblin Wizard" means the card is a creature with the subtypes Goblin and
///          Wizard.
#[derive(Copy, Clone, Debug, PartialEq, Eq, Hash, Structural)]
pub enum CreatureType {
    Advisor,
    Aetherborn,
    Ally,
    Angel,
    Antelope,
    Ape,
    Archer,
    Archon,
    Army,
    Artificer,
    Assassin,
    AssemblyWorker,
    Atog,
    Aurochs,
    Avatar,
    Azra,
    Badger,
    Barbarian,
    Bard,
    Basilisk,
    Bat,
    Bear,
    Beast,
    Beeble,
    Beholder,
    Berserker,
    Bird,
    Blinkmoth,
    Boar,
    Bringer,
    Brushwagg,
    Camarid,
    Camel,
    Caribou,
    Carrier,
    Cat,
    Centaur,
    Cephalid,
    Chimera,
    Citizen,
    Cleric,
    Cockatrice,
    Construct,
    Coward,
    Crab,
    Crocodile,
    Cyclops,
    Dauthi,
    Demigod,
    Demon,
    Deserter,
    Devil,
    Dinosaur,
    Djinn,
    Dog,
    Dragon,
    Drake,
    Dreadnought,
    Drone,
    Druid,
    Dryad,
    Dwarf,
    Efreet,
    Egg,
    Elder,
    Eldrazi,
    Elemental,
    Elephant,
    Elf,
    Elk,
    Eye,
    Faerie,
    Ferret,
    Fish,
    Flagbearer,
    Fox,
    Fractal,
    Frog,
    Fungus,
    Gargoyle,
    Germ,
    Giant,
    Gnoll,
    Gnome,
    Goat,
    Goblin,
    God,
    Golem,
    Gorgon,
    Graveborn,
    Gremlin,
    Griffin,
    Hag,
    Halfling,
    Hamster,
    Harpy,
    Hellion,
    Hippo,
    Hippogriff,
    Homarid,
    Homunculus,
    Horror,
    Horse,
    Human,
    Hydra,
    Hyena,
    Illusion,
    Imp,
    Incarnation,
    Inkling,
    Insect,
    Jackal,
    Jellyfish,
    Juggernaut,
    Kavu,
    Kirin,
    Kithkin,
    Knight,
    Kobold,
    Kor,
    Kraken,
    Lamia,
    Lammasu,
    Leech,
    Leviathan,
    Lhurgoyf,
    Licid,
    Lizard,
    Manticore,
    Masticore,
    Mercenary,
    Merfolk,
    Metathran,
    Minion,
    Minotaur,
    Mole,
    Monger,
    Mongoose,
    Monk,
    Monkey,
    Moonfolk,
    Mouse,
    Mutant,
    Myr,
    Mystic,
    Naga,
    Nautilus,
    Nephilim,
    Nightmare,
    Nightstalker,
    Ninja,
    Noble,
    Noggle,
    Nomad,
    Nymph,
    Octopus,
    Ogre,
    Ooze,
    Orb,
    Orc,
    Orgg,
    Otter,
    Ouphe,
    Ox,
    Oyster,
    Pangolin,
    Peasant,
    Pegasus,
    Pentavite,
    Pest,
    Phelddagrif,
    Phoenix,
    Phyrexian,
    Pilot,
    Pincher,
    Pirate,
    Plant,
    Praetor,
    Prism,
    Processor,
    Rabbit,
    Ranger,
    Rat,
    Rebel,
    Reflection,
    Rhino,
    Rigger,
    Rogue,
    Sable,
    Salamander,
    Samurai,
    Sand,
    Saproling,
    Satyr,
    Scarecrow,
    Scion,
    Scorpion,
    Scout,
    Sculpture,
    Serf,
    Serpent,
    Servo,
    Shade,
    Shaman,
    Shapeshifter,
    Shark,
    Sheep,
    Siren,
    Skeleton,
    Slith,
    Sliver,
    Slug,
    Snake,
    Soldier,
    Soltari,
    Spawn,
    Specter,
    Spellshaper,
    Sphinx,
    Spider,
    Spike,
    Spirit,
    Splinter,
    Sponge,
    Squid,
    Squirrel,
    Starfish,
    Surrakar,
    Survivor,
    Tentacle,
    Tetravite,
    Thalakos,
    Thopter,
    Thrull,
    Tiefling,
    Treefolk,
    Trilobite,
    Triskelavite,
    Troll,
    Turtle,
    Unicorn,
    Vampire,
    Vedalken,
    Viashino,
    Volver,
    Wall,
    Warlock,
    Warrior,
    Weird,
    Werewolf,
    Whale,
    Wizard,
    Wolf,
    Wolverine,
    Wombat,
    Worm,
    Wraith,
    Wurm,
    Yeti,
    Zombie,
    Zubera,
}

impl Indexed for CreatureType {
    /// The position of the variant in the declaration.
    closed spec fn spec_index(self) -> u64 {
        match self {
            CreatureType::Advisor => 0,
            CreatureType::Aetherborn => 1,
            CreatureType::Ally => 2,
            CreatureType::Angel => 3,
            CreatureType::Antelope => 4,
            CreatureType::Ape => 5,
            CreatureType::Archer => 6,
            CreatureType::Archon => 7,
            CreatureType::Army => 8,
            CreatureType::Artificer => 9,
            CreatureType::Assassin => 10,
            CreatureType::AssemblyWorker => 11,
            CreatureType::Atog => 12,
            CreatureType::Aurochs => 13,
            CreatureType::Avatar => 14,
            CreatureType::Azra => 15,
            CreatureType::Badger => 16,
            CreatureType::Barbarian => 17,
            CreatureType::Bard => 18,
            CreatureType::Basilisk => 19,
            CreatureType::Bat => 20,
            CreatureType::Bear => 21,
            CreatureType::Beast => 22,
            CreatureType::Beeble => 23,
            CreatureType::Beholder => 24,
            CreatureType::Berserker => 25,
            CreatureType::Bird => 26,
            CreatureType::Blinkmoth => 27,
            CreatureType::Boar => 28,
            CreatureType::Bringer => 29,
            CreatureType::Brushwagg => 30,
            CreatureType::Camarid => 31,
            CreatureType::Camel => 32,
            CreatureType::Caribou => 33,
            CreatureType::Carrier => 34,
            CreatureType::Cat => 35,
            CreatureType::Centaur => 36,
            CreatureType::Cephalid => 37,
            CreatureType::Chimera => 38,
            CreatureType::Citizen => 39,
            CreatureType::Cleric => 40,
            CreatureType::Cockatrice => 41,
            CreatureType::Construct => 42,
            CreatureType::Coward => 43,
            CreatureType::Crab => 44,
            CreatureType::Crocodile => 45,
            CreatureType::Cyclops => 46,
            CreatureType::Dauthi => 47,
            CreatureType::Demigod => 48,
            CreatureType::Demon => 49,
            CreatureType::Deserter => 50,
            CreatureType::Devil => 51,
            CreatureType::Dinosaur => 52,
            CreatureType::Djinn => 53,
            CreatureType::Dog => 54,
            CreatureType::Dragon => 55,
            CreatureType::Drake => 56,
            CreatureType::Dreadnought => 57,
            CreatureType::Drone => 58,
            CreatureType::Druid => 59,
            CreatureType::Dryad => 60,
            CreatureType::Dwarf => 61,
            CreatureType::Efreet => 62,
            CreatureType::Egg => 63,
            CreatureType::Elder => 64,
            CreatureType::Eldrazi => 65,
            CreatureType::Elemental => 66,
            CreatureType::Elephant => 67,
            CreatureType::Elf => 68,
            CreatureType::Elk => 69,
            CreatureType::Eye => 70,
            CreatureType::Faerie => 71,
            CreatureType::Ferret => 72,
            CreatureType::Fish => 73,
            CreatureType::Flagbearer => 74,
            CreatureType::Fox => 75,
            CreatureType::Fractal => 76,
            CreatureType::Frog => 77,
            CreatureType::Fungus => 78,
            CreatureType::Gargoyle => 79,
            CreatureType::Germ => 80,
            CreatureType::Giant => 81,
            CreatureType::Gnoll => 82,
            CreatureType::Gnome => 83,
            CreatureType::Goat => 84,
            CreatureType::Goblin => 85,
            CreatureType::God => 86,
            CreatureType::Golem => 87,
            CreatureType::Gorgon => 88,
            CreatureType::Graveborn => 89,
            CreatureType::Gremlin => 90,
            CreatureType::Griffin => 91,
            CreatureType::Hag => 92,
            CreatureType::Halfling => 93,
            CreatureType::Hamster => 94,
            CreatureType::Harpy => 95,
            CreatureType::Hellion => 96,
            CreatureType::Hippo => 97,
            CreatureType::Hippogriff => 98,
            CreatureType::Homarid => 99,
            CreatureType::Homunculus => 100,
            CreatureType::Horror => 101,
            CreatureType::Horse => 102,
            CreatureType::Human => 103,
            CreatureType::Hydra => 104,
            CreatureType::Hyena => 105,
            CreatureType::Illusion => 106,
            CreatureType::Imp => 107,
            CreatureType::Incarnation => 108,
            CreatureType::Inkling => 109,
            CreatureType::Insect => 110,
            CreatureType::Jackal => 111,
            CreatureType::Jellyfish => 112,
            CreatureType::Juggernaut => 113,
            CreatureType::Kavu => 114,
            CreatureType::Kirin => 115,
            CreatureType::Kithkin => 116,
            CreatureType::Knight => 117,
            CreatureType::Kobold => 118,
            CreatureType::Kor => 119,
            CreatureType::Kraken => 120,
            CreatureType::Lamia => 121,
            CreatureType::Lammasu => 122,
            CreatureType::Leech => 123,
            CreatureType::Leviathan => 124,
            CreatureType::Lhurgoyf => 125,
            CreatureType::Licid => 126,
            CreatureType::Lizard => 127,
            CreatureType::Manticore => 128,
            CreatureType::Masticore => 129,
            CreatureType::Mercenary => 130,
            CreatureType::Merfolk => 131,
            CreatureType::Metathran => 132,
            CreatureType::Minion => 133,
            CreatureType::Minotaur => 134,
            CreatureType::Mole => 135,
            CreatureType::Monger => 136,
            CreatureType::Mongoose => 137,
            CreatureType::Monk => 138,
            CreatureType::Monkey => 139,
            CreatureType::Moonfolk => 140,
            CreatureType::Mouse => 141,
            CreatureType::Mutant => 142,
            CreatureType::Myr => 143,
            CreatureType::Mystic => 144,
            CreatureType::Naga => 145,
            CreatureType::Nautilus => 146,
            CreatureType::Nephilim => 147,
            CreatureType::Nightmare => 148,
            CreatureType::Nightstalker => 149,
            CreatureType::Ninja => 150,
            CreatureType::Noble => 151,
            CreatureType::Noggle => 152,
            CreatureType::Nomad => 153,
            CreatureType::Nymph => 154,
            CreatureType::Octopus => 155,
            CreatureType::Ogre => 156,
            CreatureType::Ooze => 157,
            CreatureType::Orb => 158,
            CreatureType::Orc => 159,
            CreatureType::Orgg => 160,
            CreatureType::Otter => 161,
            CreatureType::Ouphe => 162,
            CreatureType::Ox => 163,
            CreatureType::Oyster => 164,
            CreatureType::Pangolin => 165,
            CreatureType::Peasant => 166,
            CreatureType::Pegasus => 167,
            CreatureType::Pentavite => 168,
            CreatureType::Pest => 169,
            CreatureType::Phelddagrif => 170,
            CreatureType::Phoenix => 171,
            CreatureType::Phyrexian => 172,
            CreatureType::Pilot => 173,
            CreatureType::Pincher => 174,
            CreatureType::Pirate => 175,
            CreatureType::Plant => 176,
            CreatureType::Praetor => 177,
            CreatureType::Prism => 178,
            CreatureType::Processor => 179,
            CreatureType::Rabbit => 180,
            CreatureType::Ranger => 181,
            CreatureType::Rat => 182,
            CreatureType::Rebel => 183,
            CreatureType::Reflection => 184,
            CreatureType::Rhino => 185,
            CreatureType::Rigger => 186,
            CreatureType::Rogue => 187,
            CreatureType::Sable => 188,
            CreatureType::Salamander => 189,
            CreatureType::Samurai => 190,
            CreatureType::Sand => 191,
            CreatureType::Saproling => 192,
            CreatureType::Satyr => 193,
            CreatureType::Scarecrow => 194,
            CreatureType::Scion => 195,
            CreatureType::Scorpion => 196,
            CreatureType::Scout => 197,
            CreatureType::Sculpture => 198,
            CreatureType::Serf => 199,
            CreatureType::Serpent => 200,
            CreatureType::Servo => 201,
            CreatureType::Shade => 202,
            CreatureType::Shaman => 203,
            CreatureType::Shapeshifter => 204,
            CreatureType::Shark => 205,
            CreatureType::Sheep => 206,
            CreatureType::Siren => 207,
            CreatureType::Skeleton => 208,
            CreatureType::Slith => 209,
            CreatureType::Sliver => 210,
            CreatureType::Slug => 211,
            CreatureType::Snake => 212,
            CreatureType::Soldier => 213,
            CreatureType::Soltari => 214,
            CreatureType::Spawn => 215,
            CreatureType::Specter => 216,
            CreatureType::Spellshaper => 217,
            CreatureType::Sphinx => 218,
            CreatureType::Spider => 219,
            CreatureType::Spike => 220,
            CreatureType::Spirit => 221,
            CreatureType::Splinter => 222,
            CreatureType::Sponge => 223,
            CreatureType::Squid => 224,
            CreatureType::Squirrel => 225,
            CreatureType::Starfish => 226,
            CreatureType::Surrakar => 227,
            CreatureType::Survivor => 228,
            CreatureType::Tentacle => 229,
            CreatureType::Tetravite => 230,
            CreatureType::Thalakos => 231,
            CreatureType::Thopter => 232,
            CreatureType::Thrull => 233,
            CreatureType::Tiefling => 234,
            CreatureType::Treefolk => 235,
            CreatureType::Trilobite => 236,
            CreatureType::Triskelavite => 237,
            CreatureType::Troll => 238,
            CreatureType::Turtle => 239,
            CreatureType::Unicorn => 240,
            CreatureType::Vampire => 241,
            CreatureType::Vedalken => 242,
            CreatureType::Viashino => 243,
            CreatureType::Volver => 244,
            CreatureType::Wall => 245,
            CreatureType::Warlock => 246,
            CreatureType::Warrior => 247,
            CreatureType::Weird => 248,
            CreatureType::Werewolf => 249,
            CreatureType::Whale => 250,
            CreatureType::Wizard => 251,
            CreatureType::Wolf => 252,
            CreatureType::Wolverine => 253,
            CreatureType::Wombat => 254,
            CreatureType::Worm => 255,
            CreatureType::Wraith => 256,
            CreatureType::Wurm => 257,
            CreatureType::Yeti => 258,
            CreatureType::Zombie => 259,
            CreatureType::Zubera => 260,
        }
    }

    closed spec fn spec_from_index(index: u64) -> Option<CreatureType> {
        if index == 0 {
            Some(CreatureType::Advisor)
        } else if index == 1 {
            Some(CreatureType::Aetherborn)
        } else if index == 2 {
            Some(CreatureType::Ally)
        } else if index == 3 {
            Some(CreatureType::Angel)
        } else if index == 4 {
            Some(CreatureType::Antelope)
        } else if index == 5 {
            Some(CreatureType::Ape)
        } else if index == 6 {
            Some(CreatureType::Archer)
        } else if index == 7 {
            Some(CreatureType::Archon)
        } else if index == 8 {
            Some(CreatureType::Army)
        } else if index == 9 {
            Some(CreatureType::Artificer)
        } else if index == 10 {
            Some(CreatureType::Assassin)
        } else if index == 11 {
            Some(CreatureType::AssemblyWorker)
        } else if index == 12 {
            Some(CreatureType::Atog)
        } else if index == 13 {
            Some(CreatureType::Aurochs)
        } else if index == 14 {
            Some(CreatureType::Avatar)
        } else if index == 15 {
            Some(CreatureType::Azra)
        } else if index == 16 {
            Some(CreatureType::Badger)
        } else if index == 17 {
            Some(CreatureType::Barbarian)
        } else if index == 18 {
            Some(CreatureType::Bard)
        } else if index == 19 {
            Some(CreatureType::Basilisk)
        } else if index == 20 {
            Some(CreatureType::Bat)
        } else if index == 21 {
            Some(CreatureType::Bear)
        } else if index == 22 {
            Some(CreatureType::Beast)
        } else if index == 23 {
            Some(CreatureType::Beeble)
        } else if index == 24 {
            Some(CreatureType::Beholder)
        } else if index == 25 {
            Some(CreatureType::Berserker)
        } else if index == 26 {
            Some(CreatureType::Bird)
        } else if index == 27 {
            Some(CreatureType::Blinkmoth)
        } else if index == 28 {
            Some(CreatureType::Boar)
        } else if index == 29 {
            Some(CreatureType::Bringer)
        } else if index == 30 {
            Some(CreatureType::Brushwagg)
        } else if index == 31 {
            Some(CreatureType::Camarid)
        } else if index == 32 {
            Some(CreatureType::Camel)
        } else if index == 33 {
            Some(CreatureType::Caribou)
        } else if index == 34 {
            Some(CreatureType::Carrier)
        } else if index == 35 {
            Some(CreatureType::Cat)
        } else if index == 36 {
            Some(CreatureType::Centaur)
        } else if index == 37 {
            Some(CreatureType::Cephalid)
        } else if index == 38 {
            Some(CreatureType::Chimera)
        } else if index == 39 {
            Some(CreatureType::Citizen)
        } else if index == 40 {
            Some(CreatureType::Cleric)
        } else if index == 41 {
            Some(CreatureType::Cockatrice)
        } else if index == 42 {
            Some(CreatureType::Construct)
        } else if index == 43 {
            Some(CreatureType::Coward)
        } else if index == 44 {
            Some(CreatureType::Crab)
        } else if index == 45 {
            Some(CreatureType::Crocodile)
        } else if index == 46 {
            Some(CreatureType::Cyclops)
        } else if index == 47 {
            Some(CreatureType::Dauthi)
        } else if index == 48 {
            Some(CreatureType::Demigod)
        } else if index == 49 {
            Some(CreatureType::Demon)
        } else if index == 50 {
            Some(CreatureType::Deserter)
        } else if index == 51 {
            Some(CreatureType::Devil)
        } else if index == 52 {
            Some(CreatureType::Dinosaur)
        } else if index == 53 {
            Some(CreatureType::Djinn)
        } else if index == 54 {
            Some(CreatureType::Dog)
        } else if index == 55 {
            Some(CreatureType::Dragon)
        } else if index == 56 {
            Some(CreatureType::Drake)
        } else if index == 57 {
            Some(CreatureType::Dreadnought)
        } else if index == 58 {
            Some(CreatureType::Drone)
        } else if index == 59 {
            Some(CreatureType::Druid)
        } else if index == 60 {
            Some(CreatureType::Dryad)
        } else if index == 61 {
            Some(CreatureType::Dwarf)
        } else if index == 62 {
            Some(CreatureType::Efreet)
        } else if index == 63 {
            Some(CreatureType::Egg)
        } else if index == 64 {
            Some(CreatureType::Elder)
        } else if index == 65 {
            Some(CreatureType::Eldrazi)
        } else if index == 66 {
            Some(CreatureType::Elemental)
        } else if index == 67 {
            Some(CreatureType::Elephant)
        } else if index == 68 {
            Some(CreatureType::Elf)
        } else if index == 69 {
            Some(CreatureType::Elk)
        } else if index == 70 {
            Some(CreatureType::Eye)
        } else if index == 71 {
            Some(CreatureType::Faerie)
        } else if index == 72 {
            Some(CreatureType::Ferret)
        } else if index == 73 {
            Some(CreatureType::Fish)
        } else if index == 74 {
            Some(CreatureType::Flagbearer)
        } else if index == 75 {
            Some(CreatureType::Fox)
        } else if index == 76 {
            Some(CreatureType::Fractal)
        } else if index == 77 {
            Some(CreatureType::Frog)
        } else if index == 78 {
            Some(CreatureType::Fungus)
        } else if index == 79 {
            Some(CreatureType::Gargoyle)
        } else if index == 80 {
            Some(CreatureType::Germ)
        } else if index == 81 {
            Some(CreatureType::Giant)
        } else if index == 82 {
            Some(CreatureType::Gnoll)
        } else if index == 83 {
            Some(CreatureType::Gnome)
        } else if index == 84 {
            Some(CreatureType::Goat)
        } else if index == 85 {
            Some(CreatureType::Goblin)
        } else if index == 86 {
            Some(CreatureType::God)
        } else if index == 87 {
            Some(CreatureType::Golem)
        } else if index == 88 {
            Some(CreatureType::Gorgon)
        } else if index == 89 {
            Some(CreatureType::Graveborn)
        } else if index == 90 {
            Some(CreatureType::Gremlin)
        } else if index == 91 {
            Some(CreatureType::Griffin)
        } else if index == 92 {
            Some(CreatureType::Hag)
        } else if index == 93 {
            Some(CreatureType::Halfling)
        } else if index == 94 {
            Some(CreatureType::Hamster)
        } else if index == 95 {
            Some(CreatureType::Harpy)
        } else if index == 96 {
            Some(CreatureType::Hellion)
        } else if index == 97 {
            Some(CreatureType::Hippo)
        } else if index == 98 {
            Some(CreatureType::Hippogriff)
        } else if index == 99 {
            Some(CreatureType::Homarid)
        } else if index == 100 {
            Some(CreatureType::Homunculus)
        } else if index == 101 {
            Some(CreatureType::Horror)
        } else if index == 102 {
            Some(CreatureType::Horse)
        } else if index == 103 {
            Some(CreatureType::Human)
        } else if index == 104 {
            Some(CreatureType::Hydra)
        } else if index == 105 {
            Some(CreatureType::Hyena)
        } else if index == 106 {
            Some(CreatureType::Illusion)
        } else if index == 107 {
            Some(CreatureType::Imp)
        } else if index == 108 {
            Some(CreatureType::Incarnation)
        } else if index == 109 {
            Some(CreatureType::Inkling)
        } else if index == 110 {
            Some(CreatureType::Insect)
        } else if index == 111 {
            Some(CreatureType::Jackal)
        } else if index == 112 {
            Some(CreatureType::Jellyfish)
        } else if index == 113 {
            Some(CreatureType::Juggernaut)
        } else if index == 114 {
            Some(CreatureType::Kavu)
        } else if index == 115 {
            Some(CreatureType::Kirin)
        } else if index == 116 {
            Some(CreatureType::Kithkin)
        } else if index == 117 {
            Some(CreatureType::Knight)
        } else if index == 118 {
            Some(CreatureType::Kobold)
        } else if index == 119 {
            Some(CreatureType::Kor)
        } else if index == 120 {
            Some(CreatureType::Kraken)
        } else if index == 121 {
            Some(CreatureType::Lamia)
        } else if index == 122 {
            Some(CreatureType::Lammasu)
        } else if index == 123 {
            Some(CreatureType::Leech)
        } else if index == 124 {
            Some(CreatureType::Leviathan)
        } else if index == 125 {
            Some(CreatureType::Lhurgoyf)
        } else if index == 126 {
            Some(CreatureType::Licid)
        } else if index == 127 {
            Some(CreatureType::Lizard)
        } else if index == 128 {
            Some(CreatureType::Manticore)
        } else if index == 129 {
            Some(CreatureType::Masticore)
        } else if index == 130 {
            Some(CreatureType::Mercenary)
        } else if index == 131 {
            Some(CreatureType::Merfolk)
        } else if index == 132 {
            Some(CreatureType::Metathran)
        } else if index == 133 {
            Some(CreatureType::Minion)
        } else if index == 134 {
            Some(CreatureType::Minotaur)
        } else if index == 135 {
            Some(CreatureType::Mole)
        } else if index == 136 {
            Some(CreatureType::Monger)
        } else if index == 137 {
            Some(CreatureType::Mongoose)
        } else if index == 138 {
            Some(CreatureType::Monk)
        } else if index == 139 {
            Some(CreatureType::Monkey)
        } else if index == 140 {
            Some(CreatureType::Moonfolk)
        } else if index == 141 {
            Some(CreatureType::Mouse)
        } else if index == 142 {
            Some(CreatureType::Mutant)
        } else if index == 143 {
            Some(CreatureType::Myr)
        } else if index == 144 {
            Some(CreatureType::Mystic)
        } else if index == 145 {
            Some(CreatureType::Naga)
        } else if index == 146 {
            Some(CreatureType::Nautilus)
        } else if index == 147 {
            Some(CreatureType::Nephilim)
        } else if index == 148 {
            Some(CreatureType::Nightmare)
        } else if index == 149 {
            Some(CreatureType::Nightstalker)
        } else if index == 150 {
            Some(CreatureType::Ninja)
        } else if index == 151 {
            Some(CreatureType::Noble)
        } else if index == 152 {
            Some(CreatureType::Noggle)
        } else if index == 153 {
            Some(CreatureType::Nomad)
        } else if index == 154 {
            Some(CreatureType::Nymph)
        } else if index == 155 {
            Some(CreatureType::Octopus)
        } else if index == 156 {
            Some(CreatureType::Ogre)
        } else if index == 157 {
            Some(CreatureType::Ooze)
        } else if index == 158 {
            Some(CreatureType::Orb)
        } else if index == 159 {
            Some(CreatureType::Orc)
        } else if index == 160 {
            Some(CreatureType::Orgg)
        } else if index == 161 {
            Some(CreatureType::Otter)
        } else if index == 162 {
            Some(CreatureType::Ouphe)
        } else if index == 163 {
            Some(CreatureType::Ox)
        } else if index == 164 {
            Some(CreatureType::Oyster)
        } else if index == 165 {
            Some(CreatureType::Pangolin)
        } else if index == 166 {
            Some(CreatureType::Peasant)
        } else if index == 167 {
            Some(CreatureType::Pegasus)
        } else if index == 168 {
            Some(CreatureType::Pentavite)
        } else if index == 169 {
            Some(CreatureType::Pest)
        } else if index == 170 {
            Some(CreatureType::Phelddagrif)
        } else if index == 171 {
            Some(CreatureType::Phoenix)
        } else if index == 172 {
            Some(CreatureType::Phyrexian)
        } else if index == 173 {
            Some(CreatureType::Pilot)
        } else if index == 174 {
            Some(CreatureType::Pincher)
        } else if index == 175 {
            Some(CreatureType::Pirate)
        } else if index == 176 {
            Some(CreatureType::Plant)
        } else if index == 177 {
            Some(CreatureType::Praetor)
        } else if index == 178 {
            Some(CreatureType::Prism)
        } else if index == 179 {
            Some(CreatureType::Processor)
        } else if index == 180 {
            Some(CreatureType::Rabbit)
        } else if index == 181 {
            Some(CreatureType::Ranger)
        } else if index == 182 {
            Some(CreatureType::Rat)
        } else if index == 183 {
            Some(CreatureType::Rebel)
        } else if index == 184 {
            Some(CreatureType::Reflection)
        } else if index == 185 {
            Some(CreatureType::Rhino)
        } else if index == 186 {
            Some(CreatureType::Rigger)
        } else if index == 187 {
            Some(CreatureType::Rogue)
        } else if index == 188 {
            Some(CreatureType::Sable)
        } else if index == 189 {
            Some(CreatureType::Salamander)
        } else if index == 190 {
            Some(CreatureType::Samurai)
        } else if index == 191 {
            Some(CreatureType::Sand)
        } else if index == 192 {
            Some(CreatureType::Saproling)
        } else if index == 193 {
            Some(CreatureType::Satyr)
        } else if index == 194 {
            Some(CreatureType::Scarecrow)
        } else if index == 195 {
            Some(CreatureType::Scion)
        } else if index == 196 {
            Some(CreatureType::Scorpion)
        } else if index == 197 {
            Some(CreatureType::Scout)
        } else if index == 198 {
            Some(CreatureType::Sculpture)
        } else if index == 199 {
            Some(CreatureType::Serf)
        } else if index == 200 {
            Some(CreatureType::Serpent)
        } else if index == 201 {
            Some(CreatureType::Servo)
        } else if index == 202 {
            Some(CreatureType::Shade)
        } else if index == 203 {
            Some(CreatureType::Shaman)
        } else if index == 204 {
            Some(CreatureType::Shapeshifter)
        } else if index == 205 {
            Some(CreatureType::Shark)
        } else if index == 206 {
            Some(CreatureType::Sheep)
        } else if index == 207 {
            Some(CreatureType::Siren)
        } else if index == 208 {
            Some(CreatureType::Skeleton)
        } else if index == 209 {
            Some(CreatureType::Slith)
        } else if index == 210 {
            Some(CreatureType::Sliver)
        } else if index == 211 {
            Some(CreatureType::Slug)
        } else if index == 212 {
            Some(CreatureType::Snake)
        } else if index == 213 {
            Some(CreatureType::Soldier)
        } else if index == 214 {
            Some(CreatureType::Soltari)
        } else if index == 215 {
            Some(CreatureType::Spawn)
        } else if index == 216 {
            Some(CreatureType::Specter)
        } else if index == 217 {
            Some(CreatureType::Spellshaper)
        } else if index == 218 {
            Some(CreatureType::Sphinx)
        } else if index == 219 {
            Some(CreatureType::Spider)
        } else if index == 220 {
            Some(CreatureType::Spike)
        } else if index == 221 {
            Some(CreatureType::Spirit)
        } else if index == 222 {
            Some(CreatureType::Splinter)
        } else if index == 223 {
            Some(CreatureType::Sponge)
        } else if index == 224 {
            Some(CreatureType::Squid)
        } else if index == 225 {
            Some(CreatureType::Squirrel)
        } else if index == 226 {
            Some(CreatureType::Starfish)
        } else if index == 227 {
            Some(CreatureType::Surrakar)
        } else if index == 228 {
            Some(CreatureType::Survivor)
        } else if index == 229 {
            Some(CreatureType::Tentacle)
        } else if index == 230 {
            Some(CreatureType::Tetravite)
        } else if index == 231 {
            Some(CreatureType::Thalakos)
        } else if index == 232 {
            Some(CreatureType::Thopter)
        } else if index == 233 {
            Some(CreatureType::Thrull)
        } else if index == 234 {
            Some(CreatureType::Tiefling)
        } else if index == 235 {
            Some(CreatureType::Treefolk)
        } else if index == 236 {
            Some(CreatureType::Trilobite)
        } else if index == 237 {
            Some(CreatureType::Triskelavite)
        } else if index == 238 {
            Some(CreatureType::Troll)
        } else if index == 239 {
            Some(CreatureType::Turtle)
        } else if index == 240 {
            Some(CreatureType::Unicorn)
        } else if index == 241 {
            Some(CreatureType::Vampire)
        } else if index == 242 {
            Some(CreatureType::Vedalken)
        } else if index == 243 {
            Some(CreatureType::Viashino)
        } else if index == 244 {
            Some(CreatureType::Volver)
        } else if index == 245 {
            Some(CreatureType::Wall)
        } else if index == 246 {
            Some(CreatureType::Warlock)
        } else if index == 247 {
            Some(CreatureType::Warrior)
        } else if index == 248 {
            Some(CreatureType::Weird)
        } else if index == 249 {
            Some(CreatureType::Werewolf)
        } else if index == 250 {
            Some(CreatureType::Whale)
        } else if index == 251 {
            Some(CreatureType::Wizard)
        } else if index == 252 {
            Some(CreatureType::Wolf)
        } else if index == 253 {
            Some(CreatureType::Wolverine)
        } else if index == 254 {
            Some(CreatureType::Wombat)
        } else if index == 255 {
            Some(CreatureType::Worm)
        } else if index == 256 {
            Some(CreatureType::Wraith)
        } else if index == 257 {
            Some(CreatureType::Wurm)
        } else if index == 258 {
            Some(CreatureType::Yeti)
        } else if index == 259 {
            Some(CreatureType::Zombie)
        } else if index == 260 {
            Some(CreatureType::Zubera)
        } else {
            None
        }
    }

    fn index(self) -> (index: u64) {
        match self {
            CreatureType::Advisor => 0,
            CreatureType::Aetherborn => 1,
            CreatureType::Ally => 2,
            CreatureType::Angel => 3,
            CreatureType::Antelope => 4,
            CreatureType::Ape => 5,
            CreatureType::Archer => 6,
            CreatureType::Archon => 7,
            CreatureType::Army => 8,
            CreatureType::Artificer => 9,
            CreatureType::Assassin => 10,
            CreatureType::AssemblyWorker => 11,
            CreatureType::Atog => 12,
            CreatureType::Aurochs => 13,
            CreatureType::Avatar => 14,
            CreatureType::Azra => 15,
            CreatureType::Badger => 16,
            CreatureType::Barbarian => 17,
            CreatureType::Bard => 18,
            CreatureType::Basilisk => 19,
            CreatureType::Bat => 20,
            CreatureType::Bear => 21,
            CreatureType::Beast => 22,
            CreatureType::Beeble => 23,
            CreatureType::Beholder => 24,
            CreatureType::Berserker => 25,
            CreatureType::Bird => 26,
            CreatureType::Blinkmoth => 27,
            CreatureType::Boar => 28,
            CreatureType::Bringer => 29,
            CreatureType::Brushwagg => 30,
            CreatureType::Camarid => 31,
            CreatureType::Camel => 32,
            CreatureType::Caribou => 33,
            CreatureType::Carrier => 34,
            CreatureType::Cat => 35,
            CreatureType::Centaur => 36,
            CreatureType::Cephalid => 37,
            CreatureType::Chimera => 38,
            CreatureType::Citizen => 39,
            CreatureType::Cleric => 40,
            CreatureType::Cockatrice => 41,
            CreatureType::Construct => 42,
            CreatureType::Coward => 43,
            CreatureType::Crab => 44,
            CreatureType::Crocodile => 45,
            CreatureType::Cyclops => 46,
            CreatureType::Dauthi => 47,
            CreatureType::Demigod => 48,
            CreatureType::Demon => 49,
            CreatureType::Deserter => 50,
            CreatureType::Devil => 51,
            CreatureType::Dinosaur => 52,
            CreatureType::Djinn => 53,
            CreatureType::Dog => 54,
            CreatureType::Dragon => 55,
            CreatureType::Drake => 56,
            CreatureType::Dreadnought => 57,
            CreatureType::Drone => 58,
            CreatureType::Druid => 59,
            CreatureType::Dryad => 60,
            CreatureType::Dwarf => 61,
            CreatureType::Efreet => 62,
            CreatureType::Egg => 63,
            CreatureType::Elder => 64,
            CreatureType::Eldrazi => 65,
            CreatureType::Elemental => 66,
            CreatureType::Elephant => 67,
            CreatureType::Elf => 68,
            CreatureType::Elk => 69,
            CreatureType::Eye => 70,
            CreatureType::Faerie => 71,
            CreatureType::Ferret => 72,
            CreatureType::Fish => 73,
            CreatureType::Flagbearer => 74,
            CreatureType::Fox => 75,
            CreatureType::Fractal => 76,
            CreatureType::Frog => 77,
            CreatureType::Fungus => 78,
            CreatureType::Gargoyle => 79,
            CreatureType::Germ => 80,
            CreatureType::Giant => 81,
            CreatureType::Gnoll => 82,
            CreatureType::Gnome => 83,
            CreatureType::Goat => 84,
            CreatureType::Goblin => 85,
            CreatureType::God => 86,
            CreatureType::Golem => 87,
            CreatureType::Gorgon => 88,
            CreatureType::Graveborn => 89,
            CreatureType::Gremlin => 90,
            CreatureType::Griffin => 91,
            CreatureType::Hag => 92,
            CreatureType::Halfling => 93,
            CreatureType::Hamster => 94,
            CreatureType::Harpy => 95,
            CreatureType::Hellion => 96,
            CreatureType::Hippo => 97,
            CreatureType::Hippogriff => 98,
            CreatureType::Homarid => 99,
            CreatureType::Homunculus => 100,
            CreatureType::Horror => 101,
            CreatureType::Horse => 102,
            CreatureType::Human => 103,
            CreatureType::Hydra => 104,
            CreatureType::Hyena => 105,
            CreatureType::Illusion => 106,
            CreatureType::Imp => 107,
            CreatureType::Incarnation => 108,
            CreatureType::Inkling => 109,
            CreatureType::Insect => 110,
            CreatureType::Jackal => 111,
            CreatureType::Jellyfish => 112,
            CreatureType::Juggernaut => 113,
            CreatureType::Kavu => 114,
            CreatureType::Kirin => 115,
            CreatureType::Kithkin => 116,
            CreatureType::Knight => 117,
            CreatureType::Kobold => 118,
            CreatureType::Kor => 119,
            CreatureType::Kraken => 120,
            CreatureType::Lamia => 121,
            CreatureType::Lammasu => 122,
            CreatureType::Leech => 123,
            CreatureType::Leviathan => 124,
            CreatureType::Lhurgoyf => 125,
            CreatureType::Licid => 126,
            CreatureType::Lizard => 127,
            CreatureType::Manticore => 128,
            CreatureType::Masticore => 129,
            CreatureType::Mercenary => 130,
            CreatureType::Merfolk => 131,
            CreatureType::Metathran => 132,
            CreatureType::Minion => 133,
            CreatureType::Minotaur => 134,
            CreatureType::Mole => 135,
            CreatureType::Monger => 136,
            CreatureType::Mongoose => 137,
            CreatureType::Monk => 138,
            CreatureType::Monkey => 139,
            CreatureType::Moonfolk => 140,
            CreatureType::Mouse => 141,
            CreatureType::Mutant => 142,
            CreatureType::Myr => 143,
            CreatureType::Mystic => 144,
            CreatureType::Naga => 145,
            CreatureType::Nautilus => 146,
            CreatureType::Nephilim => 147,
            CreatureType::Nightmare => 148,
            CreatureType::Nightstalker => 149,
            CreatureType::Ninja => 150,
            CreatureType::Noble => 151,
            CreatureType::Noggle => 152,
            CreatureType::Nomad => 153,
            CreatureType::Nymph => 154,
            CreatureType::Octopus => 155,
            CreatureType::Ogre => 156,
            CreatureType::Ooze => 157,
            CreatureType::Orb => 158,
            CreatureType::Orc => 159,
            CreatureType::Orgg => 160,
            CreatureType::Otter => 161,
            CreatureType::Ouphe => 162,
            CreatureType::Ox => 163,
            CreatureType::Oyster => 164,
            CreatureType::Pangolin => 165,
            CreatureType::Peasant => 166,
            CreatureType::Pegasus => 167,
            CreatureType::Pentavite => 168,
            CreatureType::Pest => 169,
            CreatureType::Phelddagrif => 170,
            CreatureType::Phoenix => 171,
            CreatureType::Phyrexian => 172,
            CreatureType::Pilot => 173,
            CreatureType::Pincher => 174,
            CreatureType::Pirate => 175,
            CreatureType::Plant => 176,
            CreatureType::Praetor => 177,
            CreatureType::Prism => 178,
            CreatureType::Processor => 179,
            CreatureType::Rabbit => 180,
            CreatureType::Ranger => 181,
            CreatureType::Rat => 182,
            CreatureType::Rebel => 183,
            CreatureType::Reflection => 184,
            CreatureType::Rhino => 185,
            CreatureType::Rigger => 186,
            CreatureType::Rogue => 187,
            CreatureType::Sable => 188,
            CreatureType::Salamander => 189,
            CreatureType::Samurai => 190,
            CreatureType::Sand => 191,
            CreatureType::Saproling => 192,
            CreatureType::Satyr => 193,
            CreatureType::Scarecrow => 194,
            CreatureType::Scion => 195,
            CreatureType::Scorpion => 196,
            CreatureType::Scout => 197,
            CreatureType::Sculpture => 198,
            CreatureType::Serf => 199,
            CreatureType::Serpent => 200,
            CreatureType::Servo => 201,
            CreatureType::Shade => 202,
            CreatureType::Shaman => 203,
            CreatureType::Shapeshifter => 204,
            CreatureType::Shark => 205,
            CreatureType::Sheep => 206,
            CreatureType::Siren => 207,
            CreatureType::Skeleton => 208,
            CreatureType::Slith => 209,
            CreatureType::Sliver => 210,
            CreatureType::Slug => 211,
            CreatureType::Snake => 212,
            CreatureType::Soldier => 213,
            CreatureType::Soltari => 214,
            CreatureType::Spawn => 215,
            CreatureType::Specter => 216,
            CreatureType::Spellshaper => 217,
            CreatureType::Sphinx => 218,
            CreatureType::Spider => 219,
            CreatureType::Spike => 220,
            CreatureType::Spirit => 221,
            CreatureType::Splinter => 222,
            CreatureType::Sponge => 223,
            CreatureType::Squid => 224,
            CreatureType::Squirrel => 225,
            CreatureType::Starfish => 226,
            CreatureType::Surrakar => 227,
            CreatureType::Survivor => 228,
            CreatureType::Tentacle => 229,
            CreatureType::Tetravite => 230,
            CreatureType::Thalakos => 231,
            CreatureType::Thopter => 232,
            CreatureType::Thrull => 233,
            CreatureType::Tiefling => 234,
            CreatureType::Treefolk => 235,
            CreatureType::Trilobite => 236,
            CreatureType::Triskelavite => 237,
            CreatureType::Troll => 238,
            CreatureType::Turtle => 239,
            CreatureType::Unicorn => 240,
            CreatureType::Vampire => 241,
            CreatureType::Vedalken => 242,
            CreatureType::Viashino => 243,
            CreatureType::Volver => 244,
            CreatureType::Wall => 245,
            CreatureType::Warlock => 246,
            CreatureType::Warrior => 247,
            CreatureType::Weird => 248,
            CreatureType::Werewolf => 249,
            CreatureType::Whale => 250,
            CreatureType::Wizard => 251,
            CreatureType::Wolf => 252,
            CreatureType::Wolverine => 253,
            CreatureType::Wombat => 254,
            CreatureType::Worm => 255,
            CreatureType::Wraith => 256,
            CreatureType::Wurm => 257,
            CreatureType::Yeti => 258,
            CreatureType::Zombie => 259,
            CreatureType::Zubera => 260,
        }
    }

    fn from_index(index: u64) -> (value: Option<CreatureType>) {
        if index == 0 {
            Some(CreatureType::Advisor)
        } else if index == 1 {
            Some(CreatureType::Aetherborn)
        } else if index == 2 {
            Some(CreatureType::Ally)
        } else if index == 3 {
            Some(CreatureType::Angel)
        } else if index == 4 {
            Some(CreatureType::Antelope)
        } else if index == 5 {
            Some(CreatureType::Ape)
        } else if index == 6 {
            Some(CreatureType::Archer)
        } else if index == 7 {
            Some(CreatureType::Archon)
        } else if index == 8 {
            Some(CreatureType::Army)
        } else if index == 9 {
            Some(CreatureType::Artificer)
        } else if index == 10 {
            Some(CreatureType::Assassin)
        } else if index == 11 {
            Some(CreatureType::AssemblyWorker)
        } else if index == 12 {
            Some(CreatureType::Atog)
        } else if index == 13 {
            Some(CreatureType::Aurochs)
        } else if index == 14 {
            Some(CreatureType::Avatar)
        } else if index == 15 {
            Some(CreatureType::Azra)
        } else if index == 16 {
            Some(CreatureType::Badger)
        } else if index == 17 {
            Some(CreatureType::Barbarian)
        } else if index == 18 {
            Some(CreatureType::Bard)
        } else if index == 19 {
            Some(CreatureType::Basilisk)
        } else if index == 20 {
            Some(CreatureType::Bat)
        } else if index == 21 {
            Some(CreatureType::Bear)
        } else if index == 22 {
            Some(CreatureType::Beast)
        } else if index == 23 {
            Some(CreatureType::Beeble)
        } else if index == 24 {
            Some(CreatureType::Beholder)
        } else if index == 25 {
            Some(CreatureType::Berserker)
        } else if index == 26 {
            Some(CreatureType::Bird)
        } else if index == 27 {
            Some(CreatureType::Blinkmoth)
        } else if index == 28 {
            Some(CreatureType::Boar)
        } else if index == 29 {
            Some(CreatureType::Bringer)
        } else if index == 30 {
            Some(CreatureType::Brushwagg)
        } else if index == 31 {
            Some(CreatureType::Camarid)
        } else if index == 32 {
            Some(CreatureType::Camel)
        } else if index == 33 {
            Some(CreatureType::Caribou)
        } else if index == 34 {
            Some(CreatureType::Carrier)
        } else if index == 35 {
            Some(CreatureType::Cat)
        } else if index == 36 {
            Some(CreatureType::Centaur)
        } else if index == 37 {
            Some(CreatureType::Cephalid)
        } else if index == 38 {
            Some(CreatureType::Chimera)
        } else if index == 39 {
            Some(CreatureType::Citizen)
        } else if index == 40 {
            Some(CreatureType::Cleric)
        } else if index == 41 {
            Some(CreatureType::Cockatrice)
        } else if index == 42 {
            Some(CreatureType::Construct)
        } else if index == 43 {
            Some(CreatureType::Coward)
        } else if index == 44 {
            Some(CreatureType::Crab)
        } else if index == 45 {
            Some(CreatureType::Crocodile)
        } else if index == 46 {
            Some(CreatureType::Cyclops)
        } else if index == 47 {
            Some(CreatureType::Dauthi)
        } else if index == 48 {
            Some(CreatureType::Demigod)
        } else if index == 49 {
            Some(CreatureType::Demon)
        } else if index == 50 {
            Some(CreatureType::Deserter)
        } else if index == 51 {
            Some(CreatureType::Devil)
        } else if index == 52 {
            Some(CreatureType::Dinosaur)
        } else if index == 53 {
            Some(CreatureType::Djinn)
        } else if index == 54 {
            Some(CreatureType::Dog)
        } else if index == 55 {
            Some(CreatureType::Dragon)
        } else if index == 56 {
            Some(CreatureType::Drake)
        } else if index == 57 {
            Some(CreatureType::Dreadnought)
        } else if index == 58 {
            Some(CreatureType::Drone)
        } else if index == 59 {
            Some(CreatureType::Druid)
        } else if index == 60 {
            Some(CreatureType::Dryad)
        } else if index == 61 {
            Some(CreatureType::Dwarf)
        } else if index == 62 {
            Some(CreatureType::Efreet)
        } else if index == 63 {
            Some(CreatureType::Egg)
        } else if index == 64 {
            Some(CreatureType::Elder)
        } else if index == 65 {
            Some(CreatureType::Eldrazi)
        } else if index == 66 {
            Some(CreatureType::Elemental)
        } else if index == 67 {
            Some(CreatureType::Elephant)
        } else if index == 68 {
            Some(CreatureType::Elf)
        } else if index == 69 {
            Some(CreatureType::Elk)
        } else if index == 70 {
            Some(CreatureType::Eye)
        } else if index == 71 {
            Some(CreatureType::Faerie)
        } else if index == 72 {
            Some(CreatureType::Ferret)
        } else if index == 73 {
            Some(CreatureType::Fish)
        } else if index == 74 {
            Some(CreatureType::Flagbearer)
        } else if index == 75 {
            Some(CreatureType::Fox)
        } else if index == 76 {
            Some(CreatureType::Fractal)
        } else if index == 77 {
            Some(CreatureType::Frog)
        } else if index == 78 {
            Some(CreatureType::Fungus)
        } else if index == 79 {
            Some(CreatureType::Gargoyle)
        } else if index == 80 {
            Some(CreatureType::Germ)
        } else if index == 81 {
            Some(CreatureType::Giant)
        } else if index == 82 {
            Some(CreatureType::Gnoll)
        } else if index == 83 {
            Some(CreatureType::Gnome)
        } else if index == 84 {
            Some(CreatureType::Goat)
        } else if index == 85 {
            Some(CreatureType::Goblin)
        } else if index == 86 {
            Some(CreatureType::God)
        } else if index == 87 {
            Some(CreatureType::Golem)
        } else if index == 88 {
            Some(CreatureType::Gorgon)
        } else if index == 89 {
            Some(CreatureType::Graveborn)
        } else if index == 90 {
            Some(CreatureType::Gremlin)
        } else if index == 91 {
            Some(CreatureType::Griffin)
        } else if index == 92 {
            Some(CreatureType::Hag)
        } else if index == 93 {
            Some(CreatureType::Halfling)
        } else if index == 94 {
            Some(CreatureType::Hamster)
        } else if index == 95 {
            Some(CreatureType::Harpy)
        } else if index == 96 {
            Some(CreatureType::Hellion)
        } else if index == 97 {
            Some(CreatureType::Hippo)
        } else if index == 98 {
            Some(CreatureType::Hippogriff)
        } else if index == 99 {
            Some(CreatureType::Homarid)
        } else if index == 100 {
            Some(CreatureType::Homunculus)
        } else if index == 101 {
            Some(CreatureType::Horror)
        } else if index == 102 {
            Some(CreatureType::Horse)
        } else if index == 103 {
            Some(CreatureType::Human)
        } else if index == 104 {
            Some(CreatureType::Hydra)
        } else if index == 105 {
            Some(CreatureType::Hyena)
        } else if index == 106 {
            Some(CreatureType::Illusion)
        } else if index == 107 {
            Some(CreatureType::Imp)
        } else if index == 108 {
            Some(CreatureType::Incarnation)
        } else if index == 109 {
            Some(CreatureType::Inkling)
        } else if index == 110 {
            Some(CreatureType::Insect)
        } else if index == 111 {
            Some(CreatureType::Jackal)
        } else if index == 112 {
            Some(CreatureType::Jellyfish)
        } else if index == 113 {
            Some(CreatureType::Juggernaut)
        } else if index == 114 {
            Some(CreatureType::Kavu)
        } else if index == 115 {
            Some(CreatureType::Kirin)
        } else if index == 116 {
            Some(CreatureType::Kithkin)
        } else if index == 117 {
            Some(CreatureType::Knight)
        } else if index == 118 {
            Some(CreatureType::Kobold)
        } else if index == 119 {
            Some(CreatureType::Kor)
        } else if index == 120 {
            Some(CreatureType::Kraken)
        } else if index == 121 {
            Some(CreatureType::Lamia)
        } else if index == 122 {
            Some(CreatureType::Lammasu)
        } else if index == 123 {
            Some(CreatureType::Leech)
        } else if index == 124 {
            Some(CreatureType::Leviathan)
        } else if index == 125 {
            Some(CreatureType::Lhurgoyf)
        } else if index == 126 {
            Some(CreatureType::Licid)
        } else if index == 127 {
            Some(CreatureType::Lizard)
        } else if index == 128 {
            Some(CreatureType::Manticore)
        } else if index == 129 {
            Some(CreatureType::Masticore)
        } else if index == 130 {
            Some(CreatureType::Mercenary)
        } else if index == 131 {
            Some(CreatureType::Merfolk)
        } else if index == 132 {
            Some(CreatureType::Metathran)
        } else if index == 133 {
            Some(CreatureType::Minion)
        } else if index == 134 {
            Some(CreatureType::Minotaur)
        } else if index == 135 {
            Some(CreatureType::Mole)
        } else if index == 136 {
            Some(CreatureType::Monger)
        } else if index == 137 {
            Some(CreatureType::Mongoose)
        } else if index == 138 {
            Some(CreatureType::Monk)
        } else if index == 139 {
            Some(CreatureType::Monkey)
        } else if index == 140 {
            Some(CreatureType::Moonfolk)
        } else if index == 141 {
            Some(CreatureType::Mouse)
        } else if index == 142 {
            Some(CreatureType::Mutant)
        } else if index == 143 {
            Some(CreatureType::Myr)
        } else if index == 144 {
            Some(CreatureType::Mystic)
        } else if index == 145 {
            Some(CreatureType::Naga)
        } else if index == 146 {
            Some(CreatureType::Nautilus)
        } else if index == 147 {
            Some(CreatureType::Nephilim)
        } else if index == 148 {
            Some(CreatureType::Nightmare)
        } else if index == 149 {
            Some(CreatureType::Nightstalker)
        } else if index == 150 {
            Some(CreatureType::Ninja)
        } else if index == 151 {
            Some(CreatureType::Noble)
        } else if index == 152 {
            Some(CreatureType::Noggle)
        } else if index == 153 {
            Some(CreatureType::Nomad)
        } else if index == 154 {
            Some(CreatureType::Nymph)
        } else if index == 155 {
            Some(CreatureType::Octopus)
        } else if index == 156 {
            Some(CreatureType::Ogre)
        } else if index == 157 {
            Some(CreatureType::Ooze)
        } else if index == 158 {
            Some(CreatureType::Orb)
        } else if index == 159 {
            Some(CreatureType::Orc)
        } else if index == 160 {
            Some(CreatureType::Orgg)
        } else if index == 161 {
            Some(CreatureType::Otter)
        } else if index == 162 {
            Some(CreatureType::Ouphe)
        } else if index == 163 {
            Some(CreatureType::Ox)
        } else if index == 164 {
            Some(CreatureType::Oyster)
        } else if index == 165 {
            Some(CreatureType::Pangolin)
        } else if index == 166 {
            Some(CreatureType::Peasant)
        } else if index == 167 {
            Some(CreatureType::Pegasus)
        } else if index == 168 {
            Some(CreatureType::Pentavite)
        } else if index == 169 {
            Some(CreatureType::Pest)
        } else if index == 170 {
            Some(CreatureType::Phelddagrif)
        } else if index == 171 {
            Some(CreatureType::Phoenix)
        } else if index == 172 {
            Some(CreatureType::Phyrexian)
        } else if index == 173 {
            Some(CreatureType::Pilot)
        } else if index == 174 {
            Some(CreatureType::Pincher)
        } else if index == 175 {
            Some(CreatureType::Pirate)
        } else if index == 176 {
            Some(CreatureType::Plant)
        } else if index == 177 {
            Some(CreatureType::Praetor)
        } else if index == 178 {
            Some(CreatureType::Prism)
        } else if index == 179 {
            Some(CreatureType::Processor)
        } else if index == 180 {
            Some(CreatureType::Rabbit)
        } else if index == 181 {
            Some(CreatureType::Ranger)
        } else if index == 182 {
            Some(CreatureType::Rat)
        } else if index == 183 {
            Some(CreatureType::Rebel)
        } else if index == 184 {
            Some(CreatureType::Reflection)
        } else if index == 185 {
            Some(CreatureType::Rhino)
        } else if index == 186 {
            Some(CreatureType::Rigger)
        } else if index == 187 {
            Some(CreatureType::Rogue)
        } else if index == 188 {
            Some(CreatureType::Sable)
        } else if index == 189 {
            Some(CreatureType::Salamander)
        } else if index == 190 {
            Some(CreatureType::Samurai)
        } else if index == 191 {
            Some(CreatureType::Sand)
        } else if index == 192 {
            Some(CreatureType::Saproling)
        } else if index == 193 {
            Some(CreatureType::Satyr)
        } else if index == 194 {
            Some(CreatureType::Scarecrow)
        } else if index == 195 {
            Some(CreatureType::Scion)
        } else if index == 196 {
            Some(CreatureType::Scorpion)
        } else if index == 197 {
            Some(CreatureType::Scout)
        } else if index == 198 {
            Some(CreatureType::Sculpture)
        } else if index == 199 {
            Some(CreatureType::Serf)
        } else if index == 200 {
            Some(CreatureType::Serpent)
        } else if index == 201 {
            Some(CreatureType::Servo)
        } else if index == 202 {
            Some(CreatureType::Shade)
        } else if index == 203 {
            Some(CreatureType::Shaman)
        } else if index == 204 {
            Some(CreatureType::Shapeshifter)
        } else if index == 205 {
            Some(CreatureType::Shark)
        } else if index == 206 {
            Some(CreatureType::Sheep)
        } else if index == 207 {
            Some(CreatureType::Siren)
        } else if index == 208 {
            Some(CreatureType::Skeleton)
        } else if index == 209 {
            Some(CreatureType::Slith)
        } else if index == 210 {
            Some(CreatureType::Sliver)
        } else if index == 211 {
            Some(CreatureType::Slug)
        } else if index == 212 {
            Some(CreatureType::Snake)
        } else if index == 213 {
            Some(CreatureType::Soldier)
        } else if index == 214 {
            Some(CreatureType::Soltari)
        } else if index == 215 {
            Some(CreatureType::Spawn)
        } else if index == 216 {
            Some(CreatureType::Specter)
        } else if index == 217 {
            Some(CreatureType::Spellshaper)
        } else if index == 218 {
            Some(CreatureType::Sphinx)
        } else if index == 219 {
            Some(CreatureType::Spider)
        } else if index == 220 {
            Some(CreatureType::Spike)
        } else if index == 221 {
            Some(CreatureType::Spirit)
        } else if index == 222 {
            Some(CreatureType::Splinter)
        } else if index == 223 {
            Some(CreatureType::Sponge)
        } else if index == 224 {
            Some(CreatureType::Squid)
        } else if index == 225 {
            Some(CreatureType::Squirrel)
        } else if index == 226 {
            Some(CreatureType::Starfish)
        } else if index == 227 {
            Some(CreatureType::Surrakar)
        } else if index == 228 {
            Some(CreatureType::Survivor)
        } else if index == 229 {
            Some(CreatureType::Tentacle)
        } else if index == 230 {
            Some(CreatureType::Tetravite)
        } else if index == 231 {
            Some(CreatureType::Thalakos)
        } else if index == 232 {
            Some(CreatureType::Thopter)
        } else if index == 233 {
            Some(CreatureType::Thrull)
        } else if index == 234 {
            Some(CreatureType::Tiefling)
        } else if index == 235 {
            Some(CreatureType::Treefolk)
        } else if index == 236 {
            Some(CreatureType::Trilobite)
        } else if index == 237 {
            Some(CreatureType::Triskelavite)
        } else if index == 238 {
            Some(CreatureType::Troll)
        } else if index == 239 {
            Some(CreatureType::Turtle)
        } else if index == 240 {
            Some(CreatureType::Unicorn)
        } else if index == 241 {
            Some(CreatureType::Vampire)
        } else if index == 242 {
            Some(CreatureType::Vedalken)
        } else if index == 243 {
            Some(CreatureType::Viashino)
        } else if index == 244 {
            Some(CreatureType::Volver)
        } else if index == 245 {
            Some(CreatureType::Wall)
        } else if index == 246 {
            Some(CreatureType::Warlock)
        } else if index == 247 {
            Some(CreatureType::Warrior)
        } else if index == 248 {
            Some(CreatureType::Weird)
        } else if index == 249 {
            Some(CreatureType::Werewolf)
        } else if index == 250 {
            Some(CreatureType::Whale)
        } else if index == 251 {
            Some(CreatureType::Wizard)
        } else if index == 252 {
            Some(CreatureType::Wolf)
        } else if index == 253 {
            Some(CreatureType::Wolverine)
        } else if index == 254 {
            Some(CreatureType::Wombat)
        } else if index == 255 {
            Some(CreatureType::Worm)
        } else if index == 256 {
            Some(CreatureType::Wraith)
        } else if index == 257 {
            Some(CreatureType::Wurm)
        } else if index == 258 {
            Some(CreatureType::Yeti)
        } else if index == 259 {
            Some(CreatureType::Zombie)
        } else if index == 260 {
            Some(CreatureType::Zubera)
        } else {
            None
        }
    }

    #[verifier::rlimit(50)]
    proof fn lemma_index(value: CreatureType, index: u64) {
    }
}
} // verus!
