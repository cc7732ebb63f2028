//! Mana symbols and mana costs.

use crate::color::Color;
use crate::ordered_set::{Coded, OrderedSet};
use vstd::prelude::*;

verus! {

/// 107.4. The mana symbols are {W}, {U}, {B}, {R}, {G}, and {C}; the numerical symbols {0}, {1},
///        {2}, {3}, {4}, and so on; the variable symbol {X}; the hybrid symbols {W/U}, {W/B},
///        {U/B}, {U/R}, {B/R}, {B/G}, {R/G}, {R/W}, {G/W}, and {G/U}; the monocolored hybrid
///        symbols {2/W}, {2/U}, {2/B}, {2/R}, and {2/G}; the Phyrexian mana symbols {W/P}, {U/P},
///        {B/P}, {R/P}, and {G/P}; the hybrid Phyrexian symbols {W/U/P}, {W/B/P}, {U/B/P}, {U/R/P},
///        {B/R/P}, {B/G/P}, {R/G/P}, {R/W/P}, {G/W/P}, and {G/U/P}; and the snow mana symbol {S}.
///
/// Hybrid, Phyrexian and snow symbols are not among the variants yet.
#[derive(Copy, Clone, Debug, PartialEq, Eq, Hash, Structural)]
pub enum ManaSymbol {
    /// 107.4a There are five primary colored mana symbols: {W} is white, {U} blue, {B} black, {R}
    ///        red, and {G} green. These symbols are used to represent colored mana, and also to
    ///        represent colored mana in costs. Colored mana in costs can be paid only with the
    ///        appropriate color of mana. See rule 202, "Mana Cost and Color."
    Colored(Color),
    /// 107.4b Numerical symbols (such as {1}) and variable symbols (such as {X}) represent generic
    ///        mana in costs. Generic mana in costs can be paid with any type of mana. For more
    ///        information about {X}, see rule 107.3.
    Generic(u64),
    Variable,
    /// 107.4c The colorless mana symbol {C} is used to represent one colorless mana, and also to
    ///        represent a cost that can be paid only with one colorless mana.
    Colorless,
}

impl ManaSymbol {
    /// The colour of a coloured symbol; other symbols have none.
    pub open spec fn spec_color(self) -> Option<Color> {
        match self {
            ManaSymbol::Colored(color) => Some(color),
            _ => None,
        }
    }

    /// The colour of a coloured symbol; other symbols have none.
    pub fn color(self) -> (color: Option<Color>)
        ensures
            color == self.spec_color(),
    {
        match self {
            ManaSymbol::Colored(color) => Some(color),
            _ => None,
        }
    }
}

impl Coded for ManaSymbol {
    /// The kind of symbol, then the rank of its colour or its amount.
    open spec fn spec_code(self) -> (u64, u64) {
        match self {
            ManaSymbol::Colored(color) => (0, color.spec_rank() as u64),
            ManaSymbol::Generic(amount) => (1, amount),
            ManaSymbol::Variable => (2, 0),
            ManaSymbol::Colorless => (3, 0),
        }
    }

    open spec fn spec_from_code(code: (u64, u64)) -> Option<ManaSymbol> {
        if code.0 == 0 {
            match Color::spec_from_rank(code.1 as nat) {
                Some(color) => Some(ManaSymbol::Colored(color)),
                None => None,
            }
        } else if code.0 == 1 {
            Some(ManaSymbol::Generic(code.1))
        } else if code.0 == 2 && code.1 == 0 {
            Some(ManaSymbol::Variable)
        } else if code.0 == 3 && code.1 == 0 {
            Some(ManaSymbol::Colorless)
        } else {
            None
        }
    }

    fn code(self) -> (code: (u64, u64)) {
        match self {
            ManaSymbol::Colored(color) => (0, color.rank() as u64),
            ManaSymbol::Generic(amount) => (1, amount),
            ManaSymbol::Variable => (2, 0),
            ManaSymbol::Colorless => (3, 0),
        }
    }

    fn from_code(code: (u64, u64)) -> (value: Option<ManaSymbol>) {
        if code.0 == 0 {
            if code.1 < 5 {
                match Color::from_rank(code.1 as u8) {
                    Some(color) => Some(ManaSymbol::Colored(color)),
                    None => None,
                }
            } else {
                None
            }
        } else if code.0 == 1 {
            Some(ManaSymbol::Generic(code.1))
        } else if code.0 == 2 && code.1 == 0 {
            Some(ManaSymbol::Variable)
        } else if code.0 == 3 && code.1 == 0 {
            Some(ManaSymbol::Colorless)
        } else {
            None
        }
    }

    proof fn lemma_code(value: ManaSymbol, code: (u64, u64)) {
    }
}

/// 202.1. A card's mana cost is indicated by mana symbols near the top of the card. (See rule
///        107.4.) On most cards, these symbols are printed in the upper right corner. Some cards
///        from the Future Sight set have alternate frames in which the mana symbols appear to the
///        left of the illustration.
///
/// The symbols of a cost are kept in the order in which they were declared, each
/// distinct symbol once.
pub struct ManaCost(pub OrderedSet<ManaSymbol>);

impl View for ManaCost {
    type V = Seq<ManaSymbol>;

    open spec fn view(&self) -> Seq<ManaSymbol> {
        self.0@
    }
}

impl Clone for ManaCost {
    fn clone(&self) -> (copy: ManaCost)
        ensures
            copy@ == self@,
    {
        ManaCost(self.0.clone())
    }
}

impl ManaCost {
    /// What is left of `symbols` when each symbol is kept where it first
    /// occurs and dropped where it occurs again.
    pub open spec fn spec_distinct(symbols: Seq<ManaSymbol>) -> Seq<ManaSymbol>
        decreases symbols.len(),
    {
        if symbols.len() == 0 {
            Seq::empty()
        } else {
            let front = ManaCost::spec_distinct(symbols.drop_last());
            if front.contains(symbols.last()) {
                front
            } else {
                front.push(symbols.last())
            }
        }
    }

    /// The symbols that are left of a declared sequence are those that occur
    /// in it.
    pub proof fn lemma_distinct_contains(symbols: Seq<ManaSymbol>, symbol: ManaSymbol)
        ensures
            ManaCost::spec_distinct(symbols).contains(symbol) <==> symbols.contains(symbol),
        decreases symbols.len(),
    {
        if symbols.len() > 0 {
            let front = symbols.drop_last();
            let kept = ManaCost::spec_distinct(front);
            ManaCost::lemma_distinct_contains(front, symbol);
            ManaCost::lemma_distinct_contains(front, symbols.last());
            let all = ManaCost::spec_distinct(symbols);
            if symbols.contains(symbol) {
                let i = choose|i: int| 0 <= i < symbols.len() && symbols[i] == symbol;
                if i < front.len() {
                    assert(front[i] == symbol);
                    let k = choose|k: int| 0 <= k < kept.len() && kept[k] == symbol;
                    assert(all[k] == symbol);
                } else {
                    if kept.contains(symbol) {
                    } else {
                        assert(all[kept.len() as int] == symbol);
                    }
                }
            }
            if all.contains(symbol) {
                let k = choose|k: int| 0 <= k < all.len() && all[k] == symbol;
                if k < kept.len() {
                    assert(kept[k] == symbol);
                    let i = choose|i: int| 0 <= i < front.len() && front[i] == symbol;
                    assert(symbols[i] == symbol);
                } else {
                    assert(symbols[symbols.len() - 1] == symbol);
                }
            }
        }
    }

    /// The cost without any symbol.
    pub fn new() -> (cost: ManaCost)
        ensures
            cost@ == Seq::<ManaSymbol>::empty(),
    {
        ManaCost(OrderedSet::new())
    }

    /// The cost with the given symbols, in the order in which they are
    /// declared; a symbol that is declared again is not repeated.
    pub fn from_symbols(symbols: &[ManaSymbol]) -> (cost: ManaCost)
        ensures
            cost@ == ManaCost::spec_distinct(symbols@),
            cost@.no_duplicates(),
            forall|symbol: ManaSymbol| cost@.contains(symbol) <==> symbols@.contains(symbol),
    {
        let mut set: OrderedSet<ManaSymbol> = OrderedSet::new();
        let mut i: usize = 0;
        assert(symbols@.take(0) =~= Seq::<ManaSymbol>::empty());
        while i < symbols.len()
            invariant
                i <= symbols.len(),
                set@ == ManaCost::spec_distinct(symbols@.take(i as int)),
                set@.no_duplicates(),
            decreases symbols.len() - i,
        {
            proof {
                assert(symbols@.take(i + 1).drop_last() =~= symbols@.take(i as int));
                assert(symbols@.take(i + 1).last() == symbols@[i as int]);
            }
            set.insert(symbols[i]);
            i = i + 1;
        }
        proof {
            assert(symbols@.take(i as int) =~= symbols@);
            assert forall|symbol: ManaSymbol| set@.contains(symbol) <==> symbols@.contains(
                symbol,
            ) by {
                ManaCost::lemma_distinct_contains(symbols@, symbol);
            }
        }
        ManaCost(set)
    }

    /// The number of symbols in the cost.
    pub fn len(&self) -> (len: usize)
        ensures
            len == self@.len(),
            self@.no_duplicates(),
    {
        self.0.len()
    }

    /// The symbol at a position of the cost.
    pub fn get(&self, index: usize) -> (symbol: Option<ManaSymbol>)
        ensures
            index < self@.len() ==> symbol == Some(self@[index as int]),
            index >= self@.len() ==> symbol is None,
    {
        self.0.get(index)
    }

    /// The symbols of the cost in their order.
    pub fn symbols(&self) -> (symbols: Vec<ManaSymbol>)
        ensures
            symbols@ == self@,
    {
        let mut symbols: Vec<ManaSymbol> = Vec::new();
        let len = self.0.len();
        let mut i: usize = 0;
        while i < len
            invariant
                i <= len,
                len == self@.len(),
                symbols@ == self@.take(i as int),
            decreases len - i,
        {
            match self.0.get(i) {
                Some(symbol) => {
                    symbols.push(symbol);
                    assert(self@.take(i + 1) =~= self@.take(i as int).push(self@[i as int]));
                },
                None => {},
            }
            i = i + 1;
        }
        assert(self@.take(len as int) =~= self@);
        symbols
    }
}

} // verus!
