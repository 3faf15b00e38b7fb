//! The two players and the operations the game loop needs on them:
//! swapping the active player and naming a player for the terminal.

use vstd::prelude::*;
use vstd::string::StringExecFns;

verus! {

/// One of the two participants. A `Player` carries no state beyond its
/// identity; the board remembers who set which cell.
#[derive(Clone, Copy, Debug, PartialEq, Eq, Structural)]
pub enum Player {
    O,
    X,
}

/// The other participant: `O` and `X` trade places.
pub open spec fn opponent(p: Player) -> Player {
    match p {
        Player::O => Player::X,
        Player::X => Player::O,
    }
}

/// The text a player is announced with.
pub open spec fn player_name_view(p: Player) -> Seq<char> {
    match p {
        Player::O => "Player O"@,
        Player::X => "Player X"@,
    }
}

impl Player {
    /// Swaps the active player.
    pub fn swap(&mut self)
        ensures
            *final(self) == opponent(*old(self)),
    {
        *self = match self {
            Player::O => Player::X,
            Player::X => Player::O,
        }
    }

    /// The player's printable name.
    pub fn name(&self) -> (r: String)
        ensures
            r@ == player_name_view(*self),
    {
        match self {
            Player::O => String::from_str("Player O"),
            Player::X => String::from_str("Player X"),
        }
    }
}

} // verus!
