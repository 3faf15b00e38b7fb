//! Handles how the packed board is displayed to the players: a framed
//! grid of `O`, `X` and `E` symbols.

use vstd::prelude::*;
use vstd::string::StringExecFns;
use crate::bit_patterns::Cell;
use crate::bit_patterns::CellState;
use crate::bit_patterns::cell_of;
use crate::player::Player;
use super::Board;

verus! {

/// The one-character symbol a cell is drawn with.
pub open spec fn symbol_view(s: CellState) -> Seq<char> {
    match s {
        CellState::Owned(Player::X) => "X"@,
        CellState::Owned(Player::O) => "O"@,
        CellState::Empty => "E"@,
    }
}

/// One framed row of the drawn board, listing its three symbols from
/// left to right.
pub open spec fn cell_line_view(left: Seq<char>, centre: Seq<char>, right: Seq<char>) -> Seq<
    char,
> {
    "| "@ + left + " | "@ + centre + " | "@ + right + " |\n"@
}

/// The whole drawn board: four horizontal rules around three framed
/// rows, top row first.
pub open spec fn board_text_view(v: Seq<CellState>) -> Seq<char> {
    "-------------\n"@ + cell_line_view(symbol_view(v[8]), symbol_view(v[7]), symbol_view(v[6]))
        + "-------------\n"@ + cell_line_view(
        symbol_view(v[5]),
        symbol_view(v[4]),
        symbol_view(v[3]),
    ) + "-------------\n"@ + cell_line_view(
        symbol_view(v[2]),
        symbol_view(v[1]),
        symbol_view(v[0]),
    ) + "-------------\n"@
}

/// The horizontal rule drawn between rows.
pub fn draw_top_line() -> (r: &'static str)
    ensures
        r@ == "-------------\n"@,
{
    "-------------\n"
}

/// Draws one row of the board. The triple is consumed right-to-left:
/// its last entry is drawn first.
pub fn draw_cell_line(cell_triple: [&str; 3]) -> (r: String)
    ensures
        r@ == cell_line_view(cell_triple[2]@, cell_triple[1]@, cell_triple[0]@),
{
    let mut line = String::from_str("| ");
    line.append(cell_triple[2]);
    line.append(" | ");
    line.append(cell_triple[1]);
    line.append(" | ");
    line.append(cell_triple[0]);
    line.append(" |\n");
    line
}

impl Board {
    /// The symbol for one cell: the owner's mark, or `E` while empty.
    fn symbol(&self, cell: Cell) -> (r: &'static str)
        ensures
            r@ == symbol_view(cell_of(self@, cell)),
    {
        if self.has_player_set_cell(Player::X, cell) {
            "X"
        } else if self.has_player_set_cell(Player::O, cell) {
            "O"
        } else {
            "E"
        }
    }

    /// Draws the whole board as text, top row first.
    pub fn render(&self) -> (r: String)
        ensures
            r@ == board_text_view(self@),
    {
        let mut out = String::from_str(draw_top_line());
        let top = draw_cell_line(
            [self.symbol(Cell::TopRight), self.symbol(Cell::TopCentre), self.symbol(Cell::TopLeft)],
        );
        out.append(top.as_str());
        out.append(draw_top_line());
        let centre = draw_cell_line(
            [
                self.symbol(Cell::CentreRight),
                self.symbol(Cell::Centre),
                self.symbol(Cell::CentreLeft),
            ],
        );
        out.append(centre.as_str());
        out.append(draw_top_line());
        let bottom = draw_cell_line(
            [
                self.symbol(Cell::BottomRight),
                self.symbol(Cell::BottomCentre),
                self.symbol(Cell::BottomLeft),
            ],
        );
        out.append(bottom.as_str());
        out.append(draw_top_line());
        proof {
            assert(out@ =~= board_text_view(self@));
        }
        out
    }
}

} // verus!
