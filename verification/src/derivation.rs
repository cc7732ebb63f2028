//! The derivation of an object's colour from its mana cost and its colour
//! indicator (rule 202.2).

use crate::color::{Color, ColorKind, ColorSet};
use crate::mana::{ManaCost, ManaSymbol};
use vstd::prelude::*;

verus! {

/// The colours of the coloured symbols among `symbols`. Symbols that are not
/// coloured contribute nothing, and a colour counts once however often its
/// symbol occurs.
pub open spec fn cost_colors(symbols: Seq<ManaSymbol>) -> ColorSet {
    ColorSet {
        white: symbols.contains(ManaSymbol::Colored(Color::White)),
        blue: symbols.contains(ManaSymbol::Colored(Color::Blue)),
        black: symbols.contains(ManaSymbol::Colored(Color::Black)),
        red: symbols.contains(ManaSymbol::Colored(Color::Red)),
        green: symbols.contains(ManaSymbol::Colored(Color::Green)),
    }
}

/// 202.2. An object is the color or colors of the mana symbols in its mana cost, regardless of
///        the color of its frame.
///
/// A colour indicator, where there is one, is the colour. Without one, the colour
/// is the classification of the colours of the cost; no cost has no colours.
pub open spec fn derived_color(
    mana_cost: Option<Seq<ManaSymbol>>,
    color_indicator: Option<ColorKind>,
) -> ColorKind {
    match color_indicator {
        Some(kind) => kind,
        None => match mana_cost {
            Some(symbols) => ColorKind::spec_of(cost_colors(symbols)),
            None => ColorKind::Colorless,
        },
    }
}

/// Whether none of the symbols is coloured: all are generic, variable or
/// colourless.
pub open spec fn has_no_colored_symbol(symbols: Seq<ManaSymbol>) -> bool {
    forall|i: int| 0 <= i < symbols.len() ==> !(#[trigger] symbols[i] is Colored)
}

/// Whether the symbols hold a symbol of `color`, and no symbol of another
/// colour.
pub open spec fn has_one_color(symbols: Seq<ManaSymbol>, color: Color) -> bool {
    &&& symbols.contains(ManaSymbol::Colored(color))
    &&& forall|other: Color| #[trigger]
        symbols.contains(ManaSymbol::Colored(other)) ==> other == color
}

/// Whether the symbols hold coloured symbols of two colours at least.
pub open spec fn has_two_colors(symbols: Seq<ManaSymbol>) -> bool {
    exists|first: Color, second: Color|
        first != second && #[trigger] symbols.contains(ManaSymbol::Colored(first))
            && #[trigger] symbols.contains(ManaSymbol::Colored(second))
}

/// A colour is among the colours of a cost exactly when its symbol is in the
/// cost.
pub proof fn lemma_cost_colors(symbols: Seq<ManaSymbol>)
    ensures
        forall|color: Color| #[trigger]
            cost_colors(symbols).spec_contains(color) <==> symbols.contains(
                ManaSymbol::Colored(color),
            ),
        forall|color: Color| #[trigger]
            cost_colors(symbols)@.contains(color) <==> symbols.contains(
                ManaSymbol::Colored(color),
            ),
{
    assert forall|color: Color| #[trigger]
        cost_colors(symbols).spec_contains(color) <==> symbols.contains(
            ManaSymbol::Colored(color),
        ) by {
        match color {
            Color::White => {},
            Color::Blue => {},
            Color::Black => {},
            Color::Red => {},
            Color::Green => {},
        }
    }
}

/// Without a colour indicator, an object without a mana cost, or with a cost
/// that holds no coloured symbol, is colourless.
pub proof fn lemma_no_colored_symbol_is_colorless(mana_cost: Option<Seq<ManaSymbol>>)
    requires
        mana_cost matches Some(symbols) ==> has_no_colored_symbol(symbols),
    ensures
        derived_color(mana_cost, None) == ColorKind::Colorless,
{
    if let Some(symbols) = mana_cost {
        lemma_cost_colors(symbols);
        assert forall|color: Color| !symbols.contains(ManaSymbol::Colored(color)) by {
            if symbols.contains(ManaSymbol::Colored(color)) {
                let i = choose|i: int|
                    0 <= i < symbols.len() && symbols[i] == ManaSymbol::Colored(color);
                assert(symbols[i] is Colored);
            }
        }
    }
}

/// Without a colour indicator, an object whose cost holds coloured symbols of
/// one colour only is monocoloured in that colour.
pub proof fn lemma_one_color_is_monocolored(symbols: Seq<ManaSymbol>, color: Color)
    requires
        has_one_color(symbols, color),
    ensures
        derived_color(Some(symbols), None) == ColorKind::Monocolored(color),
{
    lemma_cost_colors(symbols);
    let colors = cost_colors(symbols);
    colors.lemma_colors();
    assert(colors.spec_contains(color));
    assert(colors == ColorSet::spec_empty().spec_insert(color)) by {
        assert(colors.spec_contains(Color::White) ==> color == Color::White);
        assert(colors.spec_contains(Color::Blue) ==> color == Color::Blue);
        assert(colors.spec_contains(Color::Black) ==> color == Color::Black);
        assert(colors.spec_contains(Color::Red) ==> color == Color::Red);
        assert(colors.spec_contains(Color::Green) ==> color == Color::Green);
    }
}

/// Without a colour indicator, an object whose cost holds coloured symbols of
/// two colours or more is multicoloured in exactly the colours of its
/// coloured symbols, however often a symbol is repeated.
pub proof fn lemma_two_colors_are_multicolored(symbols: Seq<ManaSymbol>)
    requires
        has_two_colors(symbols),
    ensures
        derived_color(Some(symbols), None) == ColorKind::Multicolored(cost_colors(symbols)),
        forall|color: Color| #[trigger]
            cost_colors(symbols)@.contains(color) <==> symbols.contains(
                ManaSymbol::Colored(color),
            ),
{
    lemma_cost_colors(symbols);
    let colors = cost_colors(symbols);
    let (first, second) = choose|first: Color, second: Color|
        first != second && #[trigger] symbols.contains(ManaSymbol::Colored(first))
            && #[trigger] symbols.contains(ManaSymbol::Colored(second));
    assert(colors.spec_contains(first));
    assert(colors.spec_contains(second));
}

/// With a colour indicator, the colour of an object is the indicator,
/// whatever its mana cost.
pub proof fn lemma_indicator_overrides(mana_cost: Option<Seq<ManaSymbol>>, indicator: ColorKind)
    ensures
        derived_color(mana_cost, Some(indicator)) == indicator,
{
}

/// The view of an optional mana cost.
pub open spec fn cost_view(mana_cost: Option<&ManaCost>) -> Option<Seq<ManaSymbol>> {
    match mana_cost {
        Some(cost) => Some(cost@),
        None => None,
    }
}

/// The colours of the coloured symbols of a cost.
pub fn colors_of_cost(mana_cost: &ManaCost) -> (colors: ColorSet)
    ensures
        colors == cost_colors(mana_cost@),
        forall|color: Color| #[trigger]
            colors@.contains(color) <==> mana_cost@.contains(ManaSymbol::Colored(color)),
{
    let len = mana_cost.len();
    let mut colors = ColorSet::new();
    let mut i: usize = 0;
    assert(mana_cost@.take(0) =~= Seq::<ManaSymbol>::empty());
    while i < len
        invariant
            i <= len,
            len == mana_cost@.len(),
            colors == cost_colors(mana_cost@.take(i as int)),
        decreases len - i,
    {
        let ghost before = mana_cost@.take(i as int);
        let ghost after = mana_cost@.take(i + 1);
        proof {
            assert(after =~= before.push(mana_cost@[i as int]));
            assert forall|symbol: ManaSymbol| after.contains(symbol) <==> (before.contains(symbol)
                || symbol == mana_cost@[i as int]) by {
                if before.contains(symbol) {
                    let k = choose|k: int| 0 <= k < before.len() && before[k] == symbol;
                    assert(after[k] == symbol);
                }
                if symbol == mana_cost@[i as int] {
                    assert(after[i as int] == symbol);
                }
            }
        }
        match mana_cost.get(i) {
            Some(ManaSymbol::Colored(color)) => {
                colors.insert(color);
            },
            _ => {},
        }
        i = i + 1;
    }
    proof {
        assert(mana_cost@.take(len as int) =~= mana_cost@);
        lemma_cost_colors(mana_cost@);
    }
    colors
}

/// 202.2. An object is the color or colors of the mana symbols in its mana cost, regardless of
///        the color of its frame.
///
/// Derives the colour of an object from its mana cost and its colour indicator.
/// A colour indicator overrides the cost: it is returned as it is. Without one,
/// the distinct colours of the coloured symbols of the cost decide: none (or no
/// cost) is colourless, one is monocoloured, two or more are multicoloured in
/// exactly those colours.
pub fn derive_color(mana_cost: Option<&ManaCost>, color_indicator: Option<ColorKind>) -> (kind:
    ColorKind)
    ensures
        kind == derived_color(cost_view(mana_cost), color_indicator),
        color_indicator matches Some(indicator) ==> kind == indicator,
        color_indicator is None ==> kind.wf(),
        color_indicator is None ==> match mana_cost {
            None => kind == ColorKind::Colorless,
            Some(cost) => {
                &&& has_no_colored_symbol(cost@) ==> kind == ColorKind::Colorless
                &&& forall|color: Color| #[trigger]
                    has_one_color(cost@, color) ==> kind == ColorKind::Monocolored(color)
                &&& has_two_colors(cost@) ==> kind == ColorKind::Multicolored(cost_colors(cost@))
                &&& forall|color: Color| #[trigger]
                    cost_colors(cost@)@.contains(color) <==> cost@.contains(
                        ManaSymbol::Colored(color),
                    )
            },
        },
{
    match color_indicator {
        Some(indicator) => indicator,
        None => match mana_cost {
            Some(cost) => {
                let kind = ColorKind::of(colors_of_cost(cost));
                proof {
                    let symbols = cost@;
                    lemma_cost_colors(symbols);
                    if has_no_colored_symbol(symbols) {
                        lemma_no_colored_symbol_is_colorless(Some(symbols));
                    }
                    assert forall|color: Color| #[trigger]
                        has_one_color(symbols, color) implies kind == ColorKind::Monocolored(
                        color,
                    ) by {
                        lemma_one_color_is_monocolored(symbols, color);
                    }
                    if has_two_colors(symbols) {
                        lemma_two_colors_are_multicolored(symbols);
                    }
                }
                kind
            },
            None => ColorKind::Colorless,
        },
    }
}

} // verus!
