//! The bit patterns the game is built from, and the abstract grid model
//! the engine is verified against.
//!
//! The patterns are 18 bits long, containing 9 pairs of bits, one pair per
//! board position. In each pair `(x, y)`:
//! - `x` is the occupancy bit: the cell has been set by somebody;
//! - `y` is the companion bit: which player set the cell.
//!
//! Because a companion bit is only ever set together with its occupancy
//! bit, the pair `01` never occurs.

use vstd::prelude::*;
use crate::player::Player;
use crate::player::opponent;

pub mod cell;
pub mod win_pattern;

verus! {

/// One of the nine board positions, ordered most-significant-first from
/// top-left to bottom-right within the 18-bit field.
#[derive(Clone, Copy)]
pub enum Cell {
    TopLeft,
    TopCentre,
    TopRight,
    CentreLeft,
    Centre,
    CentreRight,
    BottomLeft,
    BottomCentre,
    BottomRight,
}

/// One of the eight winning lines: three rows, three columns, two
/// diagonals.
#[derive(Clone, Copy)]
pub enum WinPattern {
    TopRow,
    CentreRow,
    BottomRow,
    LeftColumn,
    CentreColumn,
    RightColumn,
    LeftDiagonal,
    RightDiagonal,
}

/// The abstract state of one cell: untouched, or set by one player.
#[derive(Clone, Copy)]
pub enum CellState {
    Empty,
    Owned(Player),
}

/// The slot index of a position: bottom-right is slot 0, top-left slot 8.
pub open spec fn cell_index(c: Cell) -> u32 {
    match c {
        Cell::TopLeft => 8,
        Cell::TopCentre => 7,
        Cell::TopRight => 6,
        Cell::CentreLeft => 5,
        Cell::Centre => 4,
        Cell::CentreRight => 3,
        Cell::BottomLeft => 2,
        Cell::BottomCentre => 1,
        Cell::BottomRight => 0,
    }
}

/// The occupancy bit of slot `i` inside the 18-bit register: the high bit
/// of the slot's two-bit pair.
pub open spec fn occupancy_mask(i: u32) -> u32 {
    if i == 0 {
        0b10u32
    } else if i == 1 {
        0b1000u32
    } else if i == 2 {
        0b10_0000u32
    } else if i == 3 {
        0b1000_0000u32
    } else if i == 4 {
        0b10_0000_0000u32
    } else if i == 5 {
        0b1000_0000_0000u32
    } else if i == 6 {
        0b10_0000_0000_0000u32
    } else if i == 7 {
        0b1000_0000_0000_0000u32
    } else if i == 8 {
        0b10_0000_0000_0000_0000u32
    } else {
        0u32
    }
}

/// The companion bit of slot `i`: the occupancy bit shifted right by one.
pub open spec fn companion_mask(i: u32) -> u32 {
    if i == 0 {
        0b1u32
    } else if i == 1 {
        0b100u32
    } else if i == 2 {
        0b1_0000u32
    } else if i == 3 {
        0b100_0000u32
    } else if i == 4 {
        0b1_0000_0000u32
    } else if i == 5 {
        0b100_0000_0000u32
    } else if i == 6 {
        0b1_0000_0000_0000u32
    } else if i == 7 {
        0b100_0000_0000_0000u32
    } else if i == 8 {
        0b1_0000_0000_0000_0000u32
    } else {
        0u32
    }
}

/// The Cell Mask Table: the single occupancy bit that marks a position.
pub open spec fn cell_mask(c: Cell) -> u32 {
    occupancy_mask(cell_index(c))
}

/// The single-bit flag of slot `i` in a nine-bit word, used by the
/// two-word board encoding.
pub open spec fn occupancy_flag(i: u32) -> u16 {
    if i == 0 {
        0b1u16
    } else if i == 1 {
        0b10u16
    } else if i == 2 {
        0b100u16
    } else if i == 3 {
        0b1000u16
    } else if i == 4 {
        0b1_0000u16
    } else if i == 5 {
        0b10_0000u16
    } else if i == 6 {
        0b100_0000u16
    } else if i == 7 {
        0b1000_0000u16
    } else if i == 8 {
        0b1_0000_0000u16
    } else {
        0u16
    }
}

/// The three positions of a winning line, in the order the table lists
/// them.
pub open spec fn line_cells(w: WinPattern) -> (Cell, Cell, Cell) {
    match w {
        WinPattern::TopRow => (Cell::TopLeft, Cell::TopCentre, Cell::TopRight),
        WinPattern::CentreRow => (Cell::CentreLeft, Cell::Centre, Cell::CentreRight),
        WinPattern::BottomRow => (Cell::BottomLeft, Cell::BottomCentre, Cell::BottomRight),
        WinPattern::LeftColumn => (Cell::TopLeft, Cell::CentreLeft, Cell::BottomLeft),
        WinPattern::CentreColumn => (Cell::TopCentre, Cell::Centre, Cell::BottomCentre),
        WinPattern::RightColumn => (Cell::TopRight, Cell::CentreRight, Cell::BottomRight),
        WinPattern::LeftDiagonal => (Cell::TopLeft, Cell::Centre, Cell::BottomRight),
        WinPattern::RightDiagonal => (Cell::TopRight, Cell::Centre, Cell::BottomLeft),
    }
}

/// The Win Mask Table: the OR of the three cell masks of one line.
pub open spec fn win_mask(w: WinPattern) -> u32 {
    match w {
        WinPattern::TopRow => 0b10_1010_0000_0000_0000u32,
        WinPattern::CentreRow => 0b00_0000_1010_1000_0000u32,
        WinPattern::BottomRow => 0b00_0000_0000_0010_1010u32,
        WinPattern::LeftColumn => 0b10_0000_1000_0010_0000u32,
        WinPattern::CentreColumn => 0b00_1000_0010_0000_1000u32,
        WinPattern::RightColumn => 0b00_0010_0000_1000_0010u32,
        WinPattern::LeftDiagonal => 0b10_0000_0010_0000_0010u32,
        WinPattern::RightDiagonal => 0b00_0010_0010_0010_0000u32,
    }
}

/// The nine-bit projection of a winning line: the OR of the three
/// occupancy flags of its cells, for the two-word board encoding.
pub open spec fn win_flags(w: WinPattern) -> u16 {
    let (a, b, c) = line_cells(w);
    occupancy_flag(cell_index(a)) | occupancy_flag(cell_index(b)) | occupancy_flag(cell_index(c))
}

/// The grid with no cell set.
pub open spec fn empty_grid() -> Seq<CellState> {
    Seq::new(9, |i: int| CellState::Empty)
}

/// The grid after `p` takes position `c`.
pub open spec fn grid_place(v: Seq<CellState>, p: Player, c: Cell) -> Seq<CellState> {
    v.update(cell_index(c) as int, CellState::Owned(p))
}

/// The state of position `c` in grid `v`.
pub open spec fn cell_of(v: Seq<CellState>, c: Cell) -> CellState {
    v[cell_index(c) as int]
}

/// Position `c` has been set by somebody.
pub open spec fn occupied(v: Seq<CellState>, c: Cell) -> bool {
    cell_of(v, c) != CellState::Empty
}

/// Position `c` has been set by `p` in particular.
pub open spec fn owned_by(v: Seq<CellState>, p: Player, c: Cell) -> bool {
    cell_of(v, c) == CellState::Owned(p)
}

/// Every position of the grid has been set.
pub open spec fn grid_full(v: Seq<CellState>) -> bool {
    forall|i: int| 0 <= i < 9 ==> v[i] != CellState::Empty
}

/// Player `p` has set all three cells of line `w`.
pub open spec fn line_won(v: Seq<CellState>, p: Player, w: WinPattern) -> bool {
    let (a, b, c) = line_cells(w);
    owned_by(v, p, a) && owned_by(v, p, b) && owned_by(v, p, c)
}

/// Some player has a complete line.
pub open spec fn grid_won(v: Seq<CellState>) -> bool {
    exists|w: WinPattern, p: Player| line_won(v, p, w)
}

/// After a player takes any position of an empty grid, that position is
/// occupied, it is owned by that player, and not by the other player.
pub proof fn lemma_first_move_ownership(p: Player, c: Cell)
    ensures
        occupied(grid_place(empty_grid(), p, c), c),
        owned_by(grid_place(empty_grid(), p, c), p, c),
        !owned_by(grid_place(empty_grid(), p, c), opponent(p), c),
{
}

/// A grid with no cell set is not full.
pub proof fn lemma_empty_grid_not_full()
    ensures
        !grid_full(empty_grid()),
{
    assert(empty_grid()[0] == CellState::Empty);
}

/// Fullness depends only on which cells are set, never on which player
/// set each of them.
pub proof fn lemma_full_ignores_owners(v: Seq<CellState>, w: Seq<CellState>)
    requires
        v.len() == 9,
        w.len() == 9,
        forall|i: int| 0 <= i < 9 ==> ((v[i] == CellState::Empty) <==> (w[i] == CellState::Empty)),
    ensures
        grid_full(v) == grid_full(w),
{
}

/// Taking all three cells of one line, in the table's order, completes
/// that line for the taking player and wins the grid — whatever the rest
/// of the grid holds.
pub proof fn lemma_completed_line_wins(v: Seq<CellState>, p: Player, w: WinPattern)
    requires
        v.len() == 9,
    ensures
        ({
            let (a, b, c) = line_cells(w);
            let placed = grid_place(grid_place(grid_place(v, p, a), p, b), p, c);
            line_won(placed, p, w) && grid_won(placed)
        }),
{
    let (a, b, c) = line_cells(w);
    assert(cell_index(a) != cell_index(b) && cell_index(a) != cell_index(c) && cell_index(b)
        != cell_index(c));
    let placed = grid_place(grid_place(grid_place(v, p, a), p, b), p, c);
    assert(line_won(placed, p, w));
}

/// Splitting the three cells of a line between the two players, on an
/// otherwise empty grid, wins nothing for anybody.
pub proof fn lemma_mixed_line_does_not_win(p1: Player, p2: Player, p3: Player, w: WinPattern)
    requires
        !(p1 == p2 && p2 == p3),
    ensures
        ({
            let (a, b, c) = line_cells(w);
            !grid_won(grid_place(grid_place(grid_place(empty_grid(), p1, a), p2, b), p3, c))
        }),
{
    let (a, b, c) = line_cells(w);
    let placed = grid_place(grid_place(grid_place(empty_grid(), p1, a), p2, b), p3, c);
    assert(forall|w2: WinPattern, p: Player| !line_won(placed, p, w2));
}

/// A full grid in which no player holds any complete line is a draw: the
/// grid is reported full and not won.
pub proof fn lemma_draw_reported(v: Seq<CellState>)
    requires
        grid_full(v),
        forall|w: WinPattern, p: Player| !line_won(v, p, w),
    ensures
        grid_full(v),
        !grid_won(v),
{
}

} // verus!
