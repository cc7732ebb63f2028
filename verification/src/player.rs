//! Players and the zones of the game.

use vstd::prelude::*;

verus! {

/// Opaque type to reference a player within a game.
#[derive(Copy, Clone, Debug, PartialEq, Eq, Hash, Structural)]
pub struct PlayerId(pub u32);

/// 102.1. A player is one of the people in the game. The active player is the player whose turn it
///        is. The other players are nonactive players.
pub struct Player {
    pub id: PlayerId,
    pub name: String,
    pub life: i64,
}

/// What a player is, with the name as a sequence of characters.
pub struct PlayerView {
    pub id: PlayerId,
    pub name: Seq<char>,
    pub life: i64,
}

impl View for Player {
    type V = PlayerView;

    open spec fn view(&self) -> PlayerView {
        PlayerView { id: self.id, name: self.name@, life: self.life }
    }
}

/// The decimal digit of a number below ten.
pub open spec fn digit(value: nat) -> char {
    if value == 0 {
        '0'
    } else if value == 1 {
        '1'
    } else if value == 2 {
        '2'
    } else if value == 3 {
        '3'
    } else if value == 4 {
        '4'
    } else if value == 5 {
        '5'
    } else if value == 6 {
        '6'
    } else if value == 7 {
        '7'
    } else if value == 8 {
        '8'
    } else {
        '9'
    }
}

/// The decimal digits of a number, without leading zeros.
pub open spec fn decimal(value: nat) -> Seq<char>
    decreases value,
{
    if value < 10 {
        seq![digit(value)]
    } else {
        decimal(value / 10).push(digit(value % 10))
    }
}

/// The name that a player has at the start: "Player" and the player's
/// number, counted from one.
pub open spec fn player_name(id: PlayerId) -> Seq<char> {
    "Player "@ + decimal((id.0 + 1) as nat)
}

/// The decimal digit of a number below ten, as text.
fn digit_text(value: u64) -> (text: &'static str)
    requires
        value < 10,
    ensures
        text@ == seq![digit(value as nat)],
{
    proof {
        reveal_strlit("0");
        reveal_strlit("1");
        reveal_strlit("2");
        reveal_strlit("3");
        reveal_strlit("4");
        reveal_strlit("5");
        reveal_strlit("6");
        reveal_strlit("7");
        reveal_strlit("8");
        reveal_strlit("9");
    }
    let text = if value == 0 {
        "0"
    } else if value == 1 {
        "1"
    } else if value == 2 {
        "2"
    } else if value == 3 {
        "3"
    } else if value == 4 {
        "4"
    } else if value == 5 {
        "5"
    } else if value == 6 {
        "6"
    } else if value == 7 {
        "7"
    } else if value == 8 {
        "8"
    } else {
        "9"
    };
    assert(text@ =~= seq![digit(value as nat)]);
    text
}

/// Writes the decimal digits of a number at the end of a text.
fn append_decimal(text: &mut String, value: u64)
    ensures
        final(text)@ == old(text)@ + decimal(value as nat),
    decreases value,
{
    if value >= 10 {
        append_decimal(text, value / 10);
    }
    text.append(digit_text(value % 10));
    assert(text@ =~= old(text)@ + decimal(value as nat));
}

impl Player {
    /// 119.1. Each player begins the game with a starting life total of 20. Some variant games have
    ///        different starting life totals.
    ///
    /// The player with the given id at the start of a game: with 20 life and
    /// the name "Player" with the player's number, counted from one.
    pub fn new(id: PlayerId) -> (player: Player)
        ensures
            player@ == (PlayerView { id, name: player_name(id), life: 20 }),
    {
        let mut name = "Player ".to_owned();
        append_decimal(&mut name, id.0 as u64 + 1);
        Player { id, name, life: 20 }
    }
}

/// 400.1. A zone is a place where objects can be during a game. There are normally seven zones:
///        library, hand, battlefield, graveyard, stack, exile, and command. Some older cards also
///        use the ante zone. Each player has their own library, hand, and graveyard. The other
///        zones are shared by all players.
#[derive(Copy, Clone, Debug, PartialEq, Eq, Hash, Structural)]
pub enum Zone {
    Library(PlayerId),
    Hand(PlayerId),
    Battlefield,
    Graveyard(PlayerId),
    Stack,
    Exile,
    Command,
}

} // verus!
