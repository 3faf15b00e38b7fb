//! A Tic-Tac-Toe engine built on bit patterns, with its behaviour verified.
//!
//! The heart of the crate is a board packed into a single integer register:
//! nine two-bit slots, one per cell, where the high bit of a slot records
//! that the cell has been played (the occupancy bit) and the low bit records
//! which player played it (the companion bit). The slot values are `00` for
//! an empty cell, `10` for player O and `11` for player X; `01` never occurs.
//!
//! Every operation is specified against an abstract grid — a sequence of
//! nine cell states — so that the bit manipulation is proved to implement
//! the game, not merely assumed to.

pub mod bit_patterns;
pub mod board;
pub mod game;
pub mod player;

use vstd::prelude::*;
use vstd::string::StringExecFns;
use bit_patterns::Cell;
use bit_patterns::CellState;
use bit_patterns::WinPattern;
use bit_patterns::cell_index;
use bit_patterns::empty_grid;
use bit_patterns::grid_full;
use bit_patterns::grid_place;
use bit_patterns::grid_won;
use bit_patterns::line_cells;
use bit_patterns::line_won;
use bit_patterns::occupancy_flag;
use bit_patterns::occupied;
use board::board_display::symbol_view;
use player::Player;
use player::player_name_view;

verus! {

/// An alternative board encoding kept alongside the packed register:
/// the two bit planes stored as separate nine-bit words.
///
/// `active_cells` records *if* a cell has been set, one bit per cell;
/// `player_cells` records *who* set it, and is meaningful only where the
/// matching `active_cells` bit is set.
pub struct Board {
    pub player_cells: u16,
    pub active_cells: u16,
}

/// The abstract state of slot `i`, read off the two nine-bit words.
pub open spec fn word_state(active: u16, owners: u16, i: u32) -> CellState {
    if active & occupancy_flag(i) == 0 {
        CellState::Empty
    } else if owners & occupancy_flag(i) != 0 {
        CellState::Owned(Player::X)
    } else {
        CellState::Owned(Player::O)
    }
}

impl View for Board {
    type V = Seq<CellState>;

    open spec fn view(&self) -> Seq<CellState> {
        Seq::new(9, |i: int| word_state(self.active_cells, self.player_cells, i as u32))
    }
}

/// The bare drawn form of the two-word board: three rows of three
/// symbols, top row first, each row ended by a newline.
pub open spec fn word_board_text_view(v: Seq<CellState>) -> Seq<char> {
    symbol_view(v[8]) + symbol_view(v[7]) + symbol_view(v[6]) + "\n"@ + symbol_view(v[5])
        + symbol_view(v[4]) + symbol_view(v[3]) + "\n"@ + symbol_view(v[2]) + symbol_view(v[1])
        + symbol_view(v[0]) + "\n"@
}

proof fn lemma_empty_words()
    by (bit_vector)
    ensures
        forall|i: u32| i < 9 ==> 0u16 & #[trigger] occupancy_flag(i) == 0,
{
}

proof fn lemma_or_flag(x: u16, k: u32)
    by (bit_vector)
    requires
        k < 9,
    ensures
        forall|j: u32|
            j < 9 && j != k ==> (x | occupancy_flag(k)) & #[trigger] occupancy_flag(j) == x
                & occupancy_flag(j),
        (x | occupancy_flag(k)) & occupancy_flag(k) != 0,
        x < 512 ==> (x | occupancy_flag(k)) < 512,
{
}

proof fn lemma_index_flag(k: usize)
    by (bit_vector)
    requires
        k < 9,
    ensures
        1u16 << k == occupancy_flag(k as u32),
{
}

proof fn lemma_active_word_full(x: u16)
    by (bit_vector)
    ensures
        (x ^ 0b1_1111_1111u16 == 0) <==> x == 0b1_1111_1111u16,
        x == 0b1_1111_1111u16 ==> (x & 0b1u16 != 0 && x & 0b10u16 != 0 && x & 0b100u16 != 0 && x
            & 0b1000u16 != 0 && x & 0b1_0000u16 != 0 && x & 0b10_0000u16 != 0 && x & 0b100_0000u16
            != 0 && x & 0b1000_0000u16 != 0 && x & 0b1_0000_0000u16 != 0),
        (x < 512 && x & 0b1u16 != 0 && x & 0b10u16 != 0 && x & 0b100u16 != 0 && x & 0b1000u16 != 0
            && x & 0b1_0000u16 != 0 && x & 0b10_0000u16 != 0 && x & 0b100_0000u16 != 0 && x
            & 0b1000_0000u16 != 0 && x & 0b1_0000_0000u16 != 0) ==> x == 0b1_1111_1111u16,
{
}

proof fn lemma_line_flags(a: u16, p: u16, i1: u32, i2: u32, i3: u32)
    by (bit_vector)
    requires
        i1 < 9,
        i2 < 9,
        i3 < 9,
    ensures
        (!a & (occupancy_flag(i1) | occupancy_flag(i2) | occupancy_flag(i3)) == 0) <==> (a
            & occupancy_flag(i1) != 0 && a & occupancy_flag(i2) != 0 && a & occupancy_flag(i3)
            != 0),
        (p & (occupancy_flag(i1) | occupancy_flag(i2) | occupancy_flag(i3)) == 0) <==> (p
            & occupancy_flag(i1) == 0 && p & occupancy_flag(i2) == 0 && p & occupancy_flag(i3)
            == 0),
        (!p & (occupancy_flag(i1) | occupancy_flag(i2) | occupancy_flag(i3)) == 0) <==> (p
            & occupancy_flag(i1) != 0 && p & occupancy_flag(i2) != 0 && p & occupancy_flag(i3)
            != 0),
{
}

impl Board {
    /// Both words use only the nine low bits, and an owner bit is only
    /// ever set together with its activity bit.
    pub open spec fn wf(&self) -> bool {
        &&& self.active_cells < 512
        &&& self.player_cells < 512
        &&& forall|i: u32|
            i < 9 ==> (self.player_cells & #[trigger] occupancy_flag(i) != 0 ==> self.active_cells
                & occupancy_flag(i) != 0)
    }

    /// A board with every cell empty.
    pub fn new() -> (r: Board)
        ensures
            r.wf(),
            r@ == empty_grid(),
            r.player_cells == 0,
            r.active_cells == 0,
    {
        proof {
            lemma_empty_words();
            assert(Seq::new(9, |i: int| word_state(0u16, 0u16, i as u32)) =~= empty_grid());
        }
        Board { player_cells: 0, active_cells: 0 }
    }

    /// The cell at `cell_idx` is active, and the owner bit names
    /// `player`: clear for player O, set for player X.
    pub fn check_player_has_set_cell(&self, player: Player, cell_idx: usize) -> (r: bool)
        requires
            cell_idx < 9,
        ensures
            r == (self@[cell_idx as int] == CellState::Owned(player)),
    {
        proof {
            lemma_index_flag(cell_idx);
        }
        let cell: u16 = 1u16 << cell_idx;
        let is_cell_active = self.active_cells & cell != 0;
        let player_set_cell = self.player_cells & cell == 0;
        is_cell_active && (player == Player::O && player_set_cell || player == Player::X
            && !player_set_cell)
    }

    /// Checks if every cell has been set.
    pub fn is_every_cell_set(&self) -> (r: bool)
        requires
            self.wf(),
        ensures
            r == grid_full(self@),
    {
        proof {
            lemma_active_word_full(self.active_cells);
            let a = self.active_cells;
            let all_bits = (a & 0b1u16 != 0 && a & 0b10u16 != 0 && a & 0b100u16 != 0 && a
                & 0b1000u16 != 0 && a & 0b1_0000u16 != 0 && a & 0b10_0000u16 != 0 && a
                & 0b100_0000u16 != 0 && a & 0b1000_0000u16 != 0 && a & 0b1_0000_0000u16 != 0);
            if all_bits {
                assert forall|i: int| 0 <= i < 9 implies self@[i] != CellState::Empty by {
                    assert(a & occupancy_flag(i as u32) != 0);
                }
            }
            if grid_full(self@) {
                assert(self@[0] != CellState::Empty && self@[1] != CellState::Empty && self@[2]
                    != CellState::Empty && self@[3] != CellState::Empty && self@[4]
                    != CellState::Empty && self@[5] != CellState::Empty && self@[6]
                    != CellState::Empty && self@[7] != CellState::Empty && self@[8]
                    != CellState::Empty);
                assert(all_bits);
            }
        }
        self.active_cells ^ 0b1_1111_1111u16 == 0
    }

    /// Checks if a given cell has been set.
    pub fn is_cell_set(&self, cell_to_check: Cell) -> (r: bool)
        ensures
            r == occupied(self@, cell_to_check),
    {
        self.active_cells & cell_to_check.flag() != 0
    }

    /// Sets the cell for a given player: the activity bit always, the
    /// owner bit only for player X.
    pub fn set_cell(&mut self, player: Player, cell: Cell)
        requires
            old(self).wf(),
            !occupied(old(self)@, cell),
        ensures
            final(self).wf(),
            final(self)@ == grid_place(old(self)@, player, cell),
            final(self).active_cells == old(self).active_cells | occupancy_flag(cell_index(cell)),
            player == Player::X ==> final(self).player_cells == old(self).player_cells
                | occupancy_flag(cell_index(cell)),
            player == Player::O ==> final(self).player_cells == old(self).player_cells,
    {
        let ghost k = cell_index(cell);
        if player == Player::X {
            let ghost owners = self.player_cells;
            self.player_cells = self.player_cells | cell.flag();
            proof {
                lemma_or_flag(owners, k);
            }
        }
        let ghost active = self.active_cells;
        self.active_cells = self.active_cells | cell.flag();
        proof {
            lemma_or_flag(active, k);
            assert(final(self)@ =~= grid_place(old(self)@, player, cell));
        }
    }

    /// One line is uniformly held: all three cells active, and the three
    /// owner bits all clear or all set.
    fn check_line(&self, w: WinPattern) -> (r: bool)
        ensures
            r == (line_won(self@, Player::O, w) || line_won(self@, Player::X, w)),
    {
        proof {
            let (a, b, c) = line_cells(w);
            lemma_line_flags(
                self.active_cells,
                self.player_cells,
                cell_index(a),
                cell_index(b),
                cell_index(c),
            );
        }
        let m = w.flags();
        !self.active_cells & m == 0 && (self.player_cells & m == 0 || !self.player_cells & m == 0)
    }

    /// Checks if either player has won the game.
    pub fn has_player_won(&self) -> (r: bool)
        ensures
            r == grid_won(self@),
    {
        let r = self.check_line(WinPattern::TopRow) || self.check_line(WinPattern::CentreRow)
            || self.check_line(WinPattern::BottomRow) || self.check_line(WinPattern::LeftColumn)
            || self.check_line(WinPattern::CentreColumn) || self.check_line(
            WinPattern::RightColumn,
        ) || self.check_line(WinPattern::LeftDiagonal) || self.check_line(
            WinPattern::RightDiagonal,
        );
        proof {
            if !r {
                assert(forall|w: WinPattern, p: Player| !line_won(self@, p, w));
            }
        }
        r
    }

    /// The symbol for the cell at `cell_idx`: the owner's mark, or `E`
    /// while empty.
    fn symbol_at(&self, cell_idx: usize) -> (r: &'static str)
        requires
            cell_idx < 9,
        ensures
            r@ == symbol_view(self@[cell_idx as int]),
    {
        if self.check_player_has_set_cell(Player::O, cell_idx) {
            "O"
        } else if self.check_player_has_set_cell(Player::X, cell_idx) {
            "X"
        } else {
            "E"
        }
    }

    /// Draws the board as bare rows of symbols, top row first.
    pub fn render(&self) -> (r: String)
        ensures
            r@ == word_board_text_view(self@),
    {
        let mut out = String::new();
        out.append(self.symbol_at(8));
        out.append(self.symbol_at(7));
        out.append(self.symbol_at(6));
        out.append("\n");
        out.append(self.symbol_at(5));
        out.append(self.symbol_at(4));
        out.append(self.symbol_at(3));
        out.append("\n");
        out.append(self.symbol_at(2));
        out.append(self.symbol_at(1));
        out.append(self.symbol_at(0));
        out.append("\n");
        proof {
            assert(out@ =~= word_board_text_view(self@));
        }
        out
    }
}

/// Represents the game state: the board together with the player whose
/// turn it is.
pub struct Game {
    pub board: board::Board,
    pub current_player: Player,
}

impl Game {
    /// A fresh session: empty board, player O to move first.
    pub fn new() -> (r: Game)
        ensures
            r.board.wf(),
            r.board@ == empty_grid(),
            r.current_player == Player::O,
    {
        Game { board: board::Board::new(), current_player: Player::O }
    }

    /// Resets the game to a fresh session.
    pub fn reset(&mut self)
        ensures
            final(self).board.wf(),
            final(self).board@ == empty_grid(),
            final(self).current_player == Player::O,
    {
        self.board = board::Board::new();
        self.current_player = Player::O;
    }

    /// The round has ended: somebody has won, or the board is full.
    pub fn is_over(&self) -> (r: bool)
        ensures
            r == (grid_won(self.board@) || grid_full(self.board@)),
    {
        self.board.has_player_won() || self.board.is_every_cell_set()
    }

    /// The announcement for an ended round: the current player's win, or
    /// a draw.
    pub fn end_message(&self) -> (r: String)
        ensures
            grid_won(self.board@) ==> r@ == player_name_view(self.current_player) + " has won!"@,
            !grid_won(self.board@) ==> r@ == "Draw!"@,
    {
        if self.board.has_player_won() {
            let mut message = self.current_player.name();
            message.append(" has won!");
            message
        } else {
            String::from_str("Draw!")
        }
    }
}

} // verus!

