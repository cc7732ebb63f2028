//! The five colours, sets of colours, and the colour classification of an object.

use std::cmp::Ordering;
use vstd::prelude::*;

verus! {

/// 105.1. There are five colors in the Magic game: white, blue, black, red, and green.
///
/// The colours are ordered white, blue, black, red, green (WUBRG). `<` and
/// `partial_cmp` compare by [`Color::spec_rank`]; the derived `Ord` follows the
/// order of the variants, which is the same.
#[derive(Copy, Clone, Debug, PartialEq, Eq, Ord, Hash, Structural)]
pub enum Color {
    White,
    Blue,
    Black,
    Red,
    Green,
}

impl Color {
    /// The position of the colour in the canonical sequence, from 0 (white) to 4 (green).
    pub open spec fn spec_rank(self) -> nat {
        match self {
            Color::White => 0,
            Color::Blue => 1,
            Color::Black => 2,
            Color::Red => 3,
            Color::Green => 4,
        }
    }

    /// The colour at a position of the canonical sequence.
    pub open spec fn spec_from_rank(rank: nat) -> Option<Color> {
        if rank == 0 {
            Some(Color::White)
        } else if rank == 1 {
            Some(Color::Blue)
        } else if rank == 2 {
            Some(Color::Black)
        } else if rank == 3 {
            Some(Color::Red)
        } else if rank == 4 {
            Some(Color::Green)
        } else {
            None
        }
    }

    /// The canonical sequence of all colours.
    pub open spec fn wubrg() -> Seq<Color> {
        seq![Color::White, Color::Blue, Color::Black, Color::Red, Color::Green]
    }

    /// The position of the colour in the canonical sequence.
    pub fn rank(self) -> (rank: u8)
        ensures
            rank == self.spec_rank(),
            rank < 5,
            Color::wubrg()[rank as int] == self,
    {
        match self {
            Color::White => 0,
            Color::Blue => 1,
            Color::Black => 2,
            Color::Red => 3,
            Color::Green => 4,
        }
    }

    /// The colour at a position of the canonical sequence, if `rank` is below 5.
    pub fn from_rank(rank: u8) -> (color: Option<Color>)
        ensures
            color == Color::spec_from_rank(rank as nat),
            color is Some <==> rank < 5,
            color matches Some(found) ==> found.spec_rank() == rank && found == Color::wubrg()[rank
                as int],
    {
        if rank == 0 {
            Some(Color::White)
        } else if rank == 1 {
            Some(Color::Blue)
        } else if rank == 2 {
            Some(Color::Black)
        } else if rank == 3 {
            Some(Color::Red)
        } else if rank == 4 {
            Some(Color::Green)
        } else {
            None
        }
    }
}

impl PartialOrd for Color {
    fn partial_cmp(&self, other: &Color) -> (order: Option<Ordering>) {
        let left = self.rank();
        let right = other.rank();
        if left < right {
            Some(Ordering::Less)
        } else if left == right {
            Some(Ordering::Equal)
        } else {
            Some(Ordering::Greater)
        }
    }
}

impl vstd::std_specs::cmp::PartialOrdSpecImpl for Color {
    open spec fn obeys_partial_cmp_spec() -> bool {
        true
    }

    open spec fn partial_cmp_spec(&self, other: &Color) -> Option<Ordering> {
        if self.spec_rank() < other.spec_rank() {
            Some(Ordering::Less)
        } else if self.spec_rank() == other.spec_rank() {
            Some(Ordering::Equal)
        } else {
            Some(Ordering::Greater)
        }
    }
}

/// A set of colours.
///
/// Each colour is in the set or not: one flag per colour. The set is read in
/// the canonical order of the colours, whatever the order in which they
/// were put in.
#[derive(Copy, Clone, Debug, PartialEq, Eq, Hash, Structural)]
pub struct ColorSet {
    pub white: bool,
    pub blue: bool,
    pub black: bool,
    pub red: bool,
    pub green: bool,
}

impl View for ColorSet {
    type V = Set<Color>;

    open spec fn view(&self) -> Set<Color> {
        Set::new(|color: Color| self.spec_contains(color))
    }
}

impl ColorSet {
    /// The set without any colour.
    pub open spec fn spec_empty() -> ColorSet {
        ColorSet { white: false, blue: false, black: false, red: false, green: false }
    }

    /// Whether `color` is in the set.
    pub open spec fn spec_contains(self, color: Color) -> bool {
        match color {
            Color::White => self.white,
            Color::Blue => self.blue,
            Color::Black => self.black,
            Color::Red => self.red,
            Color::Green => self.green,
        }
    }

    /// The set with `color` added.
    pub open spec fn spec_insert(self, color: Color) -> ColorSet {
        match color {
            Color::White => ColorSet { white: true, ..self },
            Color::Blue => ColorSet { blue: true, ..self },
            Color::Black => ColorSet { black: true, ..self },
            Color::Red => ColorSet { red: true, ..self },
            Color::Green => ColorSet { green: true, ..self },
        }
    }

    /// The number of colours in the set.
    pub open spec fn spec_len(self) -> nat {
        (if self.white { 1nat } else { 0nat })
        + (if self.blue { 1nat } else { 0nat })
        + (if self.black { 1nat } else { 0nat })
        + (if self.red { 1nat } else { 0nat })
        + (if self.green { 1nat } else { 0nat })
    }

    /// `colors` followed by `color`, where `wanted`.
    pub open spec fn followed_by(colors: Seq<Color>, wanted: bool, color: Color) -> Seq<Color> {
        if wanted {
            colors.push(color)
        } else {
            colors
        }
    }

    /// The colours of the set in the canonical order.
    pub open spec fn spec_colors(self) -> Seq<Color> {
        let white = ColorSet::followed_by(Seq::empty(), self.white, Color::White);
        let blue = ColorSet::followed_by(white, self.blue, Color::Blue);
        let black = ColorSet::followed_by(blue, self.black, Color::Black);
        let red = ColorSet::followed_by(black, self.red, Color::Red);
        ColorSet::followed_by(red, self.green, Color::Green)
    }

    /// Whether the colours of a sequence are in strictly ascending rank and
    /// all below the given rank.
    pub open spec fn ascending_below(colors: Seq<Color>, rank: nat) -> bool {
        &&& forall|i: int, j: int|
            0 <= i < j < colors.len() ==> colors[i].spec_rank() < colors[j].spec_rank()
        &&& forall|i: int| 0 <= i < colors.len() ==> colors[i].spec_rank() < rank
    }

    /// The set of the colours that occur in `colors`.
    pub open spec fn spec_from_colors(colors: Seq<Color>) -> ColorSet {
        ColorSet {
            white: colors.contains(Color::White),
            blue: colors.contains(Color::Blue),
            black: colors.contains(Color::Black),
            red: colors.contains(Color::Red),
            green: colors.contains(Color::Green),
        }
    }

    /// The view of a set is finite and has as many elements as flags are set;
    /// two sets with the same view are the same set.
    pub proof fn lemma_view(self)
        ensures
            self@.finite(),
            self@.len() == self.spec_len(),
            self.spec_len() <= 5,
            forall|color: Color| self@.contains(color) <==> self.spec_contains(color),
            forall|other: ColorSet| other@ == self@ ==> other == self,
    {
        let s0 = Set::<Color>::empty();
        let s1 = if self.white { s0.insert(Color::White) } else { s0 };
        let s2 = if self.blue { s1.insert(Color::Blue) } else { s1 };
        let s3 = if self.black { s2.insert(Color::Black) } else { s2 };
        let s4 = if self.red { s3.insert(Color::Red) } else { s3 };
        let s5 = if self.green { s4.insert(Color::Green) } else { s4 };
        assert(self@ =~= s5);
        assert forall|other: ColorSet| other@ == self@ implies other == self by {
            assert(other@.contains(Color::White) == self@.contains(Color::White));
            assert(other@.contains(Color::Blue) == self@.contains(Color::Blue));
            assert(other@.contains(Color::Black) == self@.contains(Color::Black));
            assert(other@.contains(Color::Red) == self@.contains(Color::Red));
            assert(other@.contains(Color::Green) == self@.contains(Color::Green));
        }
    }

    /// A sequence that ascends below the rank of a colour, followed by that
    /// colour, ascends below the next rank, and holds the colour besides
    /// what it held.
    proof fn lemma_followed_by(colors: Seq<Color>, wanted: bool, color: Color)
        requires
            ColorSet::ascending_below(colors, color.spec_rank()),
        ensures
            ColorSet::ascending_below(
                ColorSet::followed_by(colors, wanted, color),
                color.spec_rank() + 1,
            ),
            ColorSet::followed_by(colors, wanted, color).len() == colors.len() + if wanted {
                1nat
            } else {
                0nat
            },
            forall|other: Color|
                ColorSet::followed_by(colors, wanted, color).contains(other) <==> (colors.contains(
                    other,
                ) || (wanted && other == color)),
    {
        let all = ColorSet::followed_by(colors, wanted, color);
        assert forall|other: Color| all.contains(other) <==> (colors.contains(other) || (wanted
            && other == color)) by {
            if colors.contains(other) {
                let i = choose|i: int| 0 <= i < colors.len() && colors[i] == other;
                assert(all[i] == other);
            }
            if wanted && other == color {
                assert(all[colors.len() as int] == other);
            }
            if all.contains(other) {
                let i = choose|i: int| 0 <= i < all.len() && all[i] == other;
                if i < colors.len() {
                    assert(colors[i] == other);
                }
            }
        }
    }

    /// The canonical sequence of a set holds exactly the colours of the set,
    /// each once, in strictly ascending rank.
    pub proof fn lemma_colors(self)
        ensures
            self.spec_colors().len() == self.spec_len(),
            forall|color: Color| self.spec_colors().contains(color) <==> self.spec_contains(color),
            forall|i: int, j: int|
                0 <= i < j < self.spec_colors().len() ==> self.spec_colors()[i].spec_rank()
                    < self.spec_colors()[j].spec_rank(),
    {
        let none = Seq::<Color>::empty();
        let white = ColorSet::followed_by(none, self.white, Color::White);
        let blue = ColorSet::followed_by(white, self.blue, Color::Blue);
        let black = ColorSet::followed_by(blue, self.black, Color::Black);
        let red = ColorSet::followed_by(black, self.red, Color::Red);
        let green = ColorSet::followed_by(red, self.green, Color::Green);
        ColorSet::lemma_followed_by(none, self.white, Color::White);
        ColorSet::lemma_followed_by(white, self.blue, Color::Blue);
        ColorSet::lemma_followed_by(blue, self.black, Color::Black);
        ColorSet::lemma_followed_by(black, self.red, Color::Red);
        ColorSet::lemma_followed_by(red, self.green, Color::Green);
        assert forall|color: Color| green.contains(color) <==> self.spec_contains(color) by {
            assert(!none.contains(color));
            match color {
                Color::White => {},
                Color::Blue => {},
                Color::Black => {},
                Color::Red => {},
                Color::Green => {},
            }
        }
    }

    /// The set without any colour.
    pub fn new() -> (set: ColorSet)
        ensures
            set == ColorSet::spec_empty(),
            set@ == Set::<Color>::empty(),
    {
        let set = ColorSet { white: false, blue: false, black: false, red: false, green: false };
        assert(set@ =~= Set::<Color>::empty());
        set
    }

    /// Adds `color` to the set, and says whether it was new to it.
    pub fn insert(&mut self, color: Color) -> (fresh: bool)
        ensures
            *final(self) == old(self).spec_insert(color),
            final(self)@ == old(self)@.insert(color),
            fresh == !old(self)@.contains(color),
    {
        let fresh = !self.contains(color);
        match color {
            Color::White => {
                self.white = true;
            },
            Color::Blue => {
                self.blue = true;
            },
            Color::Black => {
                self.black = true;
            },
            Color::Red => {
                self.red = true;
            },
            Color::Green => {
                self.green = true;
            },
        }
        assert(self@ =~= old(self)@.insert(color));
        fresh
    }

    /// Whether `color` is in the set.
    pub fn contains(&self, color: Color) -> (found: bool)
        ensures
            found == self@.contains(color),
            found == self.spec_contains(color),
    {
        match color {
            Color::White => self.white,
            Color::Blue => self.blue,
            Color::Black => self.black,
            Color::Red => self.red,
            Color::Green => self.green,
        }
    }

    /// The number of colours in the set.
    pub fn len(&self) -> (len: usize)
        ensures
            len == self@.len(),
            len == self.spec_len(),
            len <= 5,
    {
        proof {
            self.lemma_view();
        }
        let mut len: usize = 0;
        if self.white {
            len = len + 1;
        }
        if self.blue {
            len = len + 1;
        }
        if self.black {
            len = len + 1;
        }
        if self.red {
            len = len + 1;
        }
        if self.green {
            len = len + 1;
        }
        len
    }

    /// Whether the set holds no colour.
    pub fn is_empty(&self) -> (empty: bool)
        ensures
            empty == (self@.len() == 0),
            empty == (*self == ColorSet::spec_empty()),
    {
        proof {
            self.lemma_view();
        }
        !(self.white || self.blue || self.black || self.red || self.green)
    }

    /// The colours of the set, in the canonical order: white, blue, black,
    /// red, green.
    pub fn colors(&self) -> (colors: Vec<Color>)
        ensures
            colors@ == self.spec_colors(),
            colors@.len() == self@.len(),
            forall|color: Color| colors@.contains(color) <==> self@.contains(color),
            forall|i: int, j: int|
                0 <= i < j < colors@.len() ==> colors@[i].spec_rank() < colors@[j].spec_rank(),
    {
        let mut colors: Vec<Color> = Vec::new();
        if self.white {
            colors.push(Color::White);
        }
        if self.blue {
            colors.push(Color::Blue);
        }
        if self.black {
            colors.push(Color::Black);
        }
        if self.red {
            colors.push(Color::Red);
        }
        if self.green {
            colors.push(Color::Green);
        }
        proof {
            self.lemma_view();
            self.lemma_colors();
            assert(colors@ =~= self.spec_colors());
        }
        colors
    }

    /// The first colour of the set in the canonical order, if it has any.
    pub fn first(&self) -> (first: Option<Color>)
        ensures
            first is None <==> self@.len() == 0,
            first matches Some(color) ==> self.spec_colors().len() > 0 && color
                == self.spec_colors()[0] && self@.contains(color),
    {
        proof {
            self.lemma_view();
            self.lemma_colors();
        }
        if self.white {
            Some(Color::White)
        } else if self.blue {
            Some(Color::Blue)
        } else if self.black {
            Some(Color::Black)
        } else if self.red {
            Some(Color::Red)
        } else if self.green {
            Some(Color::Green)
        } else {
            None
        }
    }

    /// The set of the colours that occur in `colors`, however often and in
    /// whatever order.
    pub fn from_colors(colors: &[Color]) -> (set: ColorSet)
        ensures
            set == ColorSet::spec_from_colors(colors@),
            set@ == colors@.to_set(),
    {
        let mut set = ColorSet::new();
        let mut i: usize = 0;
        while i < colors.len()
            invariant
                i <= colors.len(),
                set == ColorSet::spec_from_colors(colors@.take(i as int)),
            decreases colors.len() - i,
        {
            let ghost before = colors@.take(i as int);
            let ghost after = colors@.take(i + 1);
            proof {
                assert(after =~= before.push(colors@[i as int]));
                assert forall|color: Color| after.contains(color) <==> (before.contains(color)
                    || color == colors@[i as int]) by {
                    if before.contains(color) {
                        let k = choose|k: int| 0 <= k < before.len() && before[k] == color;
                        assert(after[k] == color);
                    }
                    if color == colors@[i as int] {
                        assert(after[i as int] == color);
                    }
                }
            }
            set.insert(colors[i]);
            i = i + 1;
        }
        proof {
            assert(colors@.take(i as int) =~= colors@);
            assert(set@ =~= colors@.to_set());
        }
        set
    }
}

/// 105.2. An object can be one or more of the five colors, or it can be no color at all. An object
///        is the color or colors of the mana symbols in its mana cost, regardless of the color of
///        its frame. An object's color or colors may also be defined by a color indicator or a
///        characteristic-defining ability. See rule 202.2.
#[derive(Copy, Clone, Debug, PartialEq, Eq, Hash, Structural)]
pub enum ColorKind {
    /// 105.2a A monocolored object is exactly one of the five colors.
    Monocolored(Color),
    /// 105.2b A multicolored object is two or more of the five colors.
    Multicolored(ColorSet),
    /// 105.2c A colorless object has no color.
    Colorless,
}

impl ColorKind {
    /// The colours that the classification names.
    pub open spec fn spec_colors(self) -> Set<Color> {
        match self {
            ColorKind::Monocolored(color) => set![color],
            ColorKind::Multicolored(colors) => colors@,
            ColorKind::Colorless => Set::empty(),
        }
    }

    /// A classification is well formed when a multicoloured one names at
    /// least two colours.
    pub open spec fn wf(self) -> bool {
        self matches ColorKind::Multicolored(colors) ==> colors.spec_len() >= 2
    }

    /// The classification of a set of colours: colourless when it is empty,
    /// monocoloured with its one colour when it has one, multicoloured with
    /// all of them otherwise.
    pub open spec fn spec_of(colors: ColorSet) -> ColorKind {
        if colors.spec_len() == 0 {
            ColorKind::Colorless
        } else if colors.spec_len() == 1 {
            ColorKind::Monocolored(colors.spec_colors()[0])
        } else {
            ColorKind::Multicolored(colors)
        }
    }

    /// The classification of a set of colours.
    pub fn of(colors: ColorSet) -> (kind: ColorKind)
        ensures
            kind == ColorKind::spec_of(colors),
            kind.wf(),
            kind.spec_colors() == colors@,
    {
        proof {
            colors.lemma_view();
            colors.lemma_colors();
        }
        let len = colors.len();
        if len == 0 {
            assert(colors@ =~= Set::<Color>::empty());
            ColorKind::Colorless
        } else if len == 1 {
            match colors.first() {
                Some(color) => {
                    assert(colors@ =~= set![color]) by {
                        assert forall|other: Color| colors@.contains(other) implies other
                            == color by {
                            let all = colors.spec_colors();
                            assert(all.contains(other));
                            let k = choose|k: int| 0 <= k < all.len() && all[k] == other;
                            assert(k == 0);
                        }
                    }
                    ColorKind::Monocolored(color)
                },
                None => ColorKind::Colorless,
            }
        } else {
            ColorKind::Multicolored(colors)
        }
    }
}

/// 105.5. If an effect refers to a color pair, it means exactly two of the five colors. There are
///        ten color pairs: white and blue, white and black, blue and black, blue and red, black and
///        red, black and green, red and green, red and white, green and white, and green and blue.
#[derive(Copy, Clone, Debug, PartialEq, Eq, Hash, Structural)]
pub enum ColorPair {
    WhiteBlue,
    WhiteBlack,
    BlueBlack,
    BlueRed,
    BlackRed,
    BlackGreen,
    RedGreen,
    RedWhite,
    GreenWhite,
    GreenBlue,
}

/// 106.1. Mana is the primary resource in the game. Players spend mana to pay costs, usually when
///        casting spells and activating abilities.
#[derive(Copy, Clone, Debug, PartialEq, Eq, Hash, Structural)]
pub enum Mana {
    /// 106.1a There are five colors of mana: white, blue, black, red, and green.
    Monocolored(Color),
    /// 106.1b There are six types of mana: white, blue, black, red, green, and colorless.
    Colorless,
}

/// 106.4. When an effect instructs a player to add mana, that mana goes into a player's mana pool.
///        From there, it can be used to pay costs immediately, or it can stay in the player's mana
///        pool as unspent mana. Each player's mana pool empties at the end of each step and phase,
///        and the player is said to lose this mana.
pub struct ManaPool {
    pub mana: Vec<Mana>,
}

} // verus!
