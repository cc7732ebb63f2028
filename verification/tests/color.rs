use std::collections::BTreeSet;

use sorcery_engine::card::Card;
use sorcery_engine::color::{Color, ColorKind, ColorSet};
use sorcery_engine::derivation::{colors_of_cost, derive_color};
use sorcery_engine::mana::{ManaCost, ManaSymbol};

#[test]
fn core_color_order_is_stable() {
    let colors = BTreeSet::from([
        Color::Black,
        Color::Blue,
        Color::Green,
        Color::Red,
        Color::White,
    ]);
    let mut iter = colors.iter();
    assert_eq!(iter.next(), Some(&Color::White));
    assert_eq!(iter.next(), Some(&Color::Blue));
    assert_eq!(iter.next(), Some(&Color::Black));
    assert_eq!(iter.next(), Some(&Color::Red));
    assert_eq!(iter.next(), Some(&Color::Green));
    assert_eq!(iter.next(), None);
}

#[test]
fn lib_color_order_is_stable() {
    let colors = ColorSet::from_colors(&[
        Color::Black,
        Color::Blue,
        Color::Green,
        Color::Red,
        Color::White,
    ]);
    let ordered = colors.colors();
    let mut iter = ordered.iter();
    assert_eq!(iter.next(), Some(&Color::White));
    assert_eq!(iter.next(), Some(&Color::Blue));
    assert_eq!(iter.next(), Some(&Color::Black));
    assert_eq!(iter.next(), Some(&Color::Red));
    assert_eq!(iter.next(), Some(&Color::Green));
    assert_eq!(iter.next(), None);
}

#[test]
fn lands_are_colorless() {
    // Our default empty card has no mana cost or color indicator, thus it behaves like a land.
    let card = Card::builder().build();
    assert_eq!(card.color(), ColorKind::Colorless);
}

#[test]
fn generic_mana_is_colorless() {
    // Build a card with mana cost {1}.
    let card = Card::builder()
        .mana_cost(ManaCost::from_symbols(&[ManaSymbol::Generic(1)]))
        .build();
    assert_eq!(card.color(), ColorKind::Colorless);
}

#[test]
fn mixed_mana_costs_have_the_correct_color() {
    // Build a card with mana cost {2}{B}{B}{G}.
    let card = Card::builder()
        .mana_cost(ManaCost::from_symbols(&[
            ManaSymbol::Generic(2),
            ManaSymbol::Colored(Color::Black),
            ManaSymbol::Colored(Color::Black),
            ManaSymbol::Colored(Color::Green),
        ]))
        .build();
    assert_eq!(
        card.color(),
        ColorKind::Multicolored(ColorSet::from_colors(&[Color::Black, Color::Green]))
    );
}

#[test]
fn ranks_follow_the_canonical_order() {
    let all = [Color::White, Color::Blue, Color::Black, Color::Red, Color::Green];
    for (position, color) in all.iter().enumerate() {
        assert_eq!(color.rank() as usize, position);
        assert_eq!(Color::from_rank(position as u8), Some(*color));
    }
    assert_eq!(Color::from_rank(5), None);
    assert_eq!(Color::from_rank(u8::MAX), None);
}

#[test]
fn comparison_of_colors_agrees_with_their_ranks() {
    let all = [Color::White, Color::Blue, Color::Black, Color::Red, Color::Green];
    for left in all {
        for right in all {
            assert_eq!(left < right, left.rank() < right.rank());
            assert_eq!(left.partial_cmp(&right), Some(left.rank().cmp(&right.rank())));
            assert_eq!(left.cmp(&right), left.rank().cmp(&right.rank()));
        }
    }
    assert!(Color::White < Color::Blue);
    assert!(Color::Blue < Color::Black);
    assert!(Color::Black < Color::Red);
    assert!(Color::Red < Color::Green);
}

#[test]
fn a_new_color_set_is_empty() {
    let set = ColorSet::new();
    assert!(set.is_empty());
    assert_eq!(set.len(), 0);
    assert_eq!(set.first(), None);
    assert_eq!(set.colors(), Vec::<Color>::new());
    assert!(!set.contains(Color::White));
}

#[test]
fn a_color_set_holds_each_color_once() {
    let mut set = ColorSet::new();
    assert!(set.insert(Color::Red));
    assert!(!set.insert(Color::Red));
    assert!(set.insert(Color::Blue));
    assert_eq!(set.len(), 2);
    assert!(!set.is_empty());
    assert!(set.contains(Color::Red));
    assert!(set.contains(Color::Blue));
    assert!(!set.contains(Color::Green));
    assert_eq!(set.colors(), vec![Color::Blue, Color::Red]);
    assert_eq!(set.first(), Some(Color::Blue));
}

#[test]
fn a_color_set_does_not_depend_on_the_order_of_insertion() {
    let forward = ColorSet::from_colors(&[Color::White, Color::Green, Color::Black]);
    let backward = ColorSet::from_colors(&[Color::Black, Color::Green, Color::White, Color::Green]);
    assert_eq!(forward, backward);
    assert_eq!(forward.colors(), vec![Color::White, Color::Black, Color::Green]);
    assert_eq!(forward.len(), 3);
}

#[test]
fn every_color_set_is_read_in_ascending_rank() {
    let all = [Color::White, Color::Blue, Color::Black, Color::Red, Color::Green];
    for bits in 0u8..32 {
        let mut set = ColorSet::new();
        for (position, color) in all.iter().enumerate().rev() {
            if bits & (1 << position) != 0 {
                set.insert(*color);
            }
        }
        let colors = set.colors();
        assert_eq!(colors.len(), bits.count_ones() as usize);
        assert_eq!(set.len(), bits.count_ones() as usize);
        for pair in colors.windows(2) {
            assert!(pair[0].rank() < pair[1].rank());
        }
        for color in all {
            assert_eq!(colors.contains(&color), set.contains(color));
        }
        assert_eq!(set.first(), colors.first().copied());
    }
}

#[test]
fn the_kind_of_a_color_set_goes_by_its_size() {
    assert_eq!(ColorKind::of(ColorSet::new()), ColorKind::Colorless);
    assert_eq!(
        ColorKind::of(ColorSet::from_colors(&[Color::Green])),
        ColorKind::Monocolored(Color::Green)
    );
    let two = ColorSet::from_colors(&[Color::Green, Color::White]);
    assert_eq!(ColorKind::of(two), ColorKind::Multicolored(two));
    let five = ColorSet::from_colors(&[
        Color::White,
        Color::Blue,
        Color::Black,
        Color::Red,
        Color::Green,
    ]);
    assert_eq!(ColorKind::of(five), ColorKind::Multicolored(five));
}

#[test]
fn a_cost_without_colored_symbols_is_colorless() {
    let cost = ManaCost::from_symbols(&[
        ManaSymbol::Generic(3),
        ManaSymbol::Colorless,
        ManaSymbol::Variable,
        ManaSymbol::Generic(0),
    ]);
    assert_eq!(derive_color(Some(&cost), None), ColorKind::Colorless);
    assert_eq!(derive_color(Some(&ManaCost::new()), None), ColorKind::Colorless);
    assert_eq!(derive_color(None, None), ColorKind::Colorless);
}

#[test]
fn a_cost_with_one_color_is_monocolored() {
    let all = [Color::White, Color::Blue, Color::Black, Color::Red, Color::Green];
    for color in all {
        let cost = ManaCost::from_symbols(&[
            ManaSymbol::Generic(1),
            ManaSymbol::Colored(color),
            ManaSymbol::Colorless,
            ManaSymbol::Colored(color),
        ]);
        assert_eq!(derive_color(Some(&cost), None), ColorKind::Monocolored(color));
    }
}

#[test]
fn a_cost_with_several_colors_is_multicolored_in_exactly_those() {
    let cost = ManaCost::from_symbols(&[
        ManaSymbol::Colored(Color::Green),
        ManaSymbol::Colored(Color::White),
        ManaSymbol::Colored(Color::Green),
        ManaSymbol::Variable,
        ManaSymbol::Colored(Color::Blue),
    ]);
    let kind = derive_color(Some(&cost), None);
    let expected = ColorSet::from_colors(&[Color::White, Color::Blue, Color::Green]);
    assert_eq!(kind, ColorKind::Multicolored(expected));
    match kind {
        ColorKind::Multicolored(colors) => {
            assert_eq!(colors.colors(), vec![Color::White, Color::Blue, Color::Green]);
        }
        _ => panic!("the colour is not multicoloured"),
    }
    assert_eq!(colors_of_cost(&cost), expected);
}

#[test]
fn a_color_indicator_overrides_the_mana_cost() {
    let cost = ManaCost::from_symbols(&[
        ManaSymbol::Colored(Color::Red),
        ManaSymbol::Colored(Color::Green),
    ]);
    let indicators = [
        ColorKind::Colorless,
        ColorKind::Monocolored(Color::Blue),
        ColorKind::Multicolored(ColorSet::from_colors(&[Color::White, Color::Black])),
        ColorKind::Multicolored(ColorSet::new()),
    ];
    for indicator in indicators {
        assert_eq!(derive_color(Some(&cost), Some(indicator)), indicator);
        assert_eq!(derive_color(None, Some(indicator)), indicator);
        let card = Card::builder()
            .mana_cost(ManaCost::from_symbols(&[ManaSymbol::Colored(Color::Red)]))
            .color_indicator(indicator)
            .build();
        assert_eq!(card.color(), indicator);
    }
}
