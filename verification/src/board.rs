//! The packed board engine: nine cells in one 18-bit register, two bits
//! per cell, and every operation a masked bitwise query or update.

use vstd::prelude::*;
use crate::bit_patterns::Cell;
use crate::bit_patterns::CellState;
use crate::bit_patterns::WinPattern;
use crate::bit_patterns::cell_index;
use crate::bit_patterns::cell_mask;
use crate::bit_patterns::companion_mask;
use crate::bit_patterns::empty_grid;
use crate::bit_patterns::grid_full;
use crate::bit_patterns::grid_place;
use crate::bit_patterns::grid_won;
use crate::bit_patterns::line_won;
use crate::bit_patterns::occupancy_mask;
use crate::bit_patterns::occupied;
use crate::bit_patterns::owned_by;
use crate::player::Player;

pub mod board_display;

verus! {

/// The state of the game board: one packed register.
///
/// Each position owns a two-bit slot. The slot reads `00` while the cell
/// is empty, `10` once player O has set it, and `11` once player X has;
/// `01` — a companion bit without its occupancy bit — is unreachable.
pub struct Board {
    pub cells: u32,
}

/// The abstract state of slot `i`, read off the packed register.
pub open spec fn slot_state(cells: u32, i: u32) -> CellState {
    if cells & occupancy_mask(i) == 0 {
        CellState::Empty
    } else if cells & companion_mask(i) != 0 {
        CellState::Owned(Player::X)
    } else {
        CellState::Owned(Player::O)
    }
}

impl View for Board {
    type V = Seq<CellState>;

    open spec fn view(&self) -> Seq<CellState> {
        Seq::new(9, |i: int| slot_state(self.cells, i as u32))
    }
}

impl Board {
    /// The register never holds a companion bit without its occupancy
    /// bit: no slot is ever in the `01` state.
    pub open spec fn wf(&self) -> bool {
        forall|i: u32|
            i < 9 ==> (self.cells & #[trigger] companion_mask(i) != 0 ==> self.cells
                & occupancy_mask(i) != 0)
    }
}

proof fn lemma_empty_register()
    by (bit_vector)
    ensures
        forall|i: u32| i < 9 ==> 0u32 & #[trigger] occupancy_mask(i) == 0,
        forall|i: u32| i < 9 ==> 0u32 & #[trigger] companion_mask(i) == 0,
{
}

proof fn lemma_companion_is_shifted_mask()
    by (bit_vector)
    ensures
        forall|i: u32| i < 9 ==> #[trigger] occupancy_mask(i) >> 1u32 == companion_mask(i),
{
}

proof fn lemma_or_occupancy(x: u32, k: u32)
    by (bit_vector)
    requires
        k < 9,
    ensures
        forall|j: u32|
            j < 9 && j != k ==> (x | occupancy_mask(k)) & #[trigger] occupancy_mask(j) == x
                & occupancy_mask(j),
        forall|j: u32|
            j < 9 ==> (x | occupancy_mask(k)) & #[trigger] companion_mask(j) == x
                & companion_mask(j),
        (x | occupancy_mask(k)) & occupancy_mask(k) != 0,
{
}

proof fn lemma_or_companion(x: u32, k: u32)
    by (bit_vector)
    requires
        k < 9,
    ensures
        forall|j: u32|
            j < 9 ==> (x | companion_mask(k)) & #[trigger] occupancy_mask(j) == x
                & occupancy_mask(j),
        forall|j: u32|
            j < 9 && j != k ==> (x | companion_mask(k)) & #[trigger] companion_mask(j) == x
                & companion_mask(j),
        (x | companion_mask(k)) & companion_mask(k) != 0,
{
}

proof fn lemma_occupancy_complement(x: u32)
    by (bit_vector)
    ensures
        (!x & 0b10_1010_1010_1010_1010u32 == 0) <==> (x & 0b10u32 != 0 && x & 0b1000u32 != 0 && x
            & 0b10_0000u32 != 0 && x & 0b1000_0000u32 != 0 && x & 0b10_0000_0000u32 != 0 && x
            & 0b1000_0000_0000u32 != 0 && x & 0b10_0000_0000_0000u32 != 0 && x
            & 0b1000_0000_0000_0000u32 != 0 && x & 0b10_0000_0000_0000_0000u32 != 0),
{
}

// Private block
impl Board {
    /// `cell` is occupied, and its companion bit names `player`: clear
    /// for player O, set for player X.
    pub fn has_player_set_cell(&self, player: Player, cell: Cell) -> (r: bool)
        ensures
            r == owned_by(self@, player, cell),
    {
        proof {
            lemma_companion_is_shifted_mask();
        }
        let m = cell.mask();
        self.cells & m != 0 && if let Player::O = player {
            self.cells & (m >> 1u32) == 0
        } else {
            self.cells & (m >> 1u32) != 0
        }
    }

    /// Checks if a given cell has been set.
    pub fn is_cell_set(&self, cell: Cell) -> (r: bool)
        ensures
            r == occupied(self@, cell),
    {
        self.cells & cell.mask() != 0
    }

    /// Sets the cell for a given player: ORs in the cell mask, and for
    /// player X also the companion bit one position to its right.
    pub fn set_cell(&mut self, player: Player, cell: Cell)
        requires
            old(self).wf(),
            !occupied(old(self)@, cell),
        ensures
            final(self).wf(),
            final(self)@ == grid_place(old(self)@, player, cell),
            player == Player::O ==> final(self).cells == old(self).cells | cell_mask(cell),
            player == Player::X ==> final(self).cells == old(self).cells | cell_mask(cell)
                | companion_mask(cell_index(cell)),
    {
        let ghost k = cell_index(cell);
        let ghost before = self.cells;
        let m = cell.mask();
        self.cells = self.cells | m;
        proof {
            lemma_or_occupancy(before, k);
        }
        if let Player::X = player {
            let ghost mid = self.cells;
            self.cells = self.cells | (m >> 1u32);
            proof {
                lemma_companion_is_shifted_mask();
                lemma_or_companion(mid, k);
            }
        }
        proof {
            assert(final(self)@ =~= grid_place(old(self)@, player, cell));
        }
    }
}

// Public-Crate block
impl Board {
    /// A board with every cell empty.
    pub fn new() -> (r: Board)
        ensures
            r.wf(),
            r@ == empty_grid(),
            r.cells == 0,
    {
        proof {
            lemma_empty_register();
            assert(Seq::new(9, |i: int| slot_state(0u32, i as u32)) =~= empty_grid());
        }
        Board { cells: 0 }
    }

    /// Checks if every cell has been set: the complement of the register,
    /// masked to the nine occupancy bits, is zero.
    pub fn is_every_cell_set(&self) -> (r: bool)
        ensures
            r == grid_full(self@),
    {
        proof {
            lemma_occupancy_complement(self.cells);
            let occupied_bits = (self.cells & 0b10u32 != 0 && self.cells & 0b1000u32 != 0
                && self.cells & 0b10_0000u32 != 0 && self.cells & 0b1000_0000u32 != 0 && self.cells
                & 0b10_0000_0000u32 != 0 && self.cells & 0b1000_0000_0000u32 != 0 && self.cells
                & 0b10_0000_0000_0000u32 != 0 && self.cells & 0b1000_0000_0000_0000u32 != 0
                && self.cells & 0b10_0000_0000_0000_0000u32 != 0);
            if occupied_bits {
                assert forall|i: int| 0 <= i < 9 implies self@[i] != CellState::Empty by {
                    assert(self.cells & occupancy_mask(i as u32) != 0);
                }
            }
            if grid_full(self@) {
                assert(forall|i: int| 0 <= i < 9 ==> #[trigger] self@[i] != CellState::Empty);
                assert(self@[0] != CellState::Empty && self@[1] != CellState::Empty && self@[2]
                    != CellState::Empty && self@[3] != CellState::Empty && self@[4]
                    != CellState::Empty && self@[5] != CellState::Empty && self@[6]
                    != CellState::Empty && self@[7] != CellState::Empty && self@[8]
                    != CellState::Empty);
                assert(occupied_bits);
            }
        }
        !self.cells & 0b10_1010_1010_1010_1010u32 == 0
    }

    /// Applies a [`WinPattern`] over the cells for a given player.
    ///
    /// This is achieved by converting the [`WinPattern`] to a triple of
    /// cells and checking that the player set all three of them.
    pub fn check_player_has_won(&self, player: Player, win_pattern: WinPattern) -> (r: bool)
        ensures
            r == line_won(self@, player, win_pattern),
    {
        let cells = win_pattern.cells();
        self.has_player_set_cell(player, cells[0]) && self.has_player_set_cell(player, cells[1])
            && self.has_player_set_cell(player, cells[2])
    }

    /// Checks if either player has won the game: some line is uniformly
    /// owned by one player.
    pub fn has_player_won(&self) -> (r: bool)
        ensures
            r == grid_won(self@),
    {
        let r = self.check_player_has_won(Player::O, WinPattern::TopRow)
            || self.check_player_has_won(Player::X, WinPattern::TopRow)
            || self.check_player_has_won(Player::O, WinPattern::CentreRow)
            || self.check_player_has_won(Player::X, WinPattern::CentreRow)
            || self.check_player_has_won(Player::O, WinPattern::BottomRow)
            || self.check_player_has_won(Player::X, WinPattern::BottomRow)
            || self.check_player_has_won(Player::O, WinPattern::LeftColumn)
            || self.check_player_has_won(Player::X, WinPattern::LeftColumn)
            || self.check_player_has_won(Player::O, WinPattern::CentreColumn)
            || self.check_player_has_won(Player::X, WinPattern::CentreColumn)
            || self.check_player_has_won(Player::O, WinPattern::RightColumn)
            || self.check_player_has_won(Player::X, WinPattern::RightColumn)
            || self.check_player_has_won(Player::O, WinPattern::LeftDiagonal)
            || self.check_player_has_won(Player::X, WinPattern::LeftDiagonal)
            || self.check_player_has_won(Player::O, WinPattern::RightDiagonal)
            || self.check_player_has_won(Player::X, WinPattern::RightDiagonal);
        proof {
            if !r {
                assert(forall|w: WinPattern, p: Player| !line_won(self@, p, w));
            }
        }
        r
    }

    /// The player holding a complete line, if the game has been won.
    pub fn winning_player(&self) -> (r: Option<Player>)
        ensures
            r is Some <==> grid_won(self@),
            match r {
                Some(p) => exists|w: WinPattern| line_won(self@, p, w),
                None => !grid_won(self@),
            },
    {
        if self.has_player_won() {
            if self.check_player_has_won(Player::O, WinPattern::TopRow)
                || self.check_player_has_won(Player::O, WinPattern::CentreRow)
                || self.check_player_has_won(Player::O, WinPattern::BottomRow)
                || self.check_player_has_won(Player::O, WinPattern::LeftColumn)
                || self.check_player_has_won(Player::O, WinPattern::CentreColumn)
                || self.check_player_has_won(Player::O, WinPattern::RightColumn)
                || self.check_player_has_won(Player::O, WinPattern::LeftDiagonal)
                || self.check_player_has_won(Player::O, WinPattern::RightDiagonal) {
                Some(Player::O)
            } else {
                proof {
                    let (w, p) = choose|w: WinPattern, p: Player| line_won(self@, p, w);
                    assert(p == Player::X);
                }
                Some(Player::X)
            }
        } else {
            None
        }
    }
}

} // verus!
