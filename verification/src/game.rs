//! The decisions of the turn loop that do not touch the terminal: what
//! an end-of-round answer means, and which player a start-of-game answer
//! picks. The loop itself reads and prints outside the library.

use vstd::prelude::*;
use vstd::string::StrSliceExecFns;
use crate::player::Player;

verus! {

/// A helper enum for handling the end game state.
#[derive(Clone, Copy, Debug, PartialEq, Eq, Structural)]
pub enum EndState {
    Replay,
    End,
    Continue,
}

/// The player picked by a start-of-game answer: `O`, `o` or `1` for
/// player O; `X`, `x` or `2` for player X.
pub open spec fn start_player_of(s: Seq<char>) -> Option<Player> {
    if s.len() == 1 {
        if s[0] == 'O' || s[0] == 'o' || s[0] == '1' {
            Some(Player::O)
        } else if s[0] == 'X' || s[0] == 'x' || s[0] == '2' {
            Some(Player::X)
        } else {
            None
        }
    } else {
        None
    }
}

/// The outcome picked by a play-again answer: `y` or `Y` replays, `n` or
/// `N` ends the session.
pub open spec fn replay_choice_of(s: Seq<char>) -> Option<EndState> {
    if s.len() == 1 {
        if s[0] == 'n' || s[0] == 'N' {
            Some(EndState::End)
        } else if s[0] == 'y' || s[0] == 'Y' {
            Some(EndState::Replay)
        } else {
            None
        }
    } else {
        None
    }
}

/// Reads a start-of-game answer, already trimmed, and names the starting
/// player it selects, if any.
pub fn parse_start_player(answer: &str) -> (r: Option<Player>)
    ensures
        r == start_player_of(answer@),
{
    let n = answer.unicode_len();
    if n == 1 {
        let c = answer.get_char(0);
        if c == 'O' || c == 'o' || c == '1' {
            Some(Player::O)
        } else if c == 'X' || c == 'x' || c == '2' {
            Some(Player::X)
        } else {
            None
        }
    } else {
        None
    }
}

/// Reads a play-again answer, already trimmed, and names the end state
/// it selects, if any.
pub fn parse_replay_choice(answer: &str) -> (r: Option<EndState>)
    ensures
        r == replay_choice_of(answer@),
{
    let n = answer.unicode_len();
    if n == 1 {
        let c = answer.get_char(0);
        if c == 'n' || c == 'N' {
            Some(EndState::End)
        } else if c == 'y' || c == 'Y' {
            Some(EndState::Replay)
        } else {
            None
        }
    } else {
        None
    }
}

} // verus!
