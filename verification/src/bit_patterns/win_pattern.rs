//! Helper module for [`WinPattern`]: the executable accessors for the win
//! mask table and the decomposition of a line into its three cells.

use vstd::prelude::*;
use super::Cell;
use super::WinPattern;
use super::line_cells;
use super::win_flags;
use super::win_mask;

verus! {

impl WinPattern {
    /// The line's win mask: the OR of the cell masks of its three
    /// positions inside the 18-bit register.
    pub fn mask(&self) -> (r: u32)
        ensures
            r == win_mask(*self),
    {
        match self {
            WinPattern::TopRow => 0b10_1010_0000_0000_0000u32,
            WinPattern::CentreRow => 0b00_0000_1010_1000_0000u32,
            WinPattern::BottomRow => 0b00_0000_0000_0010_1010u32,
            WinPattern::LeftColumn => 0b10_0000_1000_0010_0000u32,
            WinPattern::CentreColumn => 0b00_1000_0010_0000_1000u32,
            WinPattern::RightColumn => 0b00_0010_0000_1000_0010u32,
            WinPattern::LeftDiagonal => 0b10_0000_0010_0000_0010u32,
            WinPattern::RightDiagonal => 0b00_0010_0010_0010_0000u32,
        }
    }

    /// The line's nine-bit projection: the OR of the occupancy flags of
    /// its three positions, used by the two-word board encoding.
    pub fn flags(&self) -> (r: u16)
        ensures
            r == win_flags(*self),
    {
        proof {
            assert((0b1_0000_0000u16 | 0b0_1000_0000u16 | 0b0_0100_0000u16 == 0b1_1100_0000u16)
                && (0b0_0010_0000u16 | 0b0_0001_0000u16 | 0b0_0000_1000u16 == 0b0_0011_1000u16)
                && (0b0_0000_0100u16 | 0b0_0000_0010u16 | 0b0_0000_0001u16 == 0b0_0000_0111u16)
                && (0b1_0000_0000u16 | 0b0_0010_0000u16 | 0b0_0000_0100u16 == 0b1_0010_0100u16)
                && (0b0_1000_0000u16 | 0b0_0001_0000u16 | 0b0_0000_0010u16 == 0b0_1001_0010u16)
                && (0b0_0100_0000u16 | 0b0_0000_1000u16 | 0b0_0000_0001u16 == 0b0_0100_1001u16)
                && (0b1_0000_0000u16 | 0b0_0001_0000u16 | 0b0_0000_0001u16 == 0b1_0001_0001u16)
                && (0b0_0100_0000u16 | 0b0_0001_0000u16 | 0b0_0000_0100u16 == 0b0_0101_0100u16))
                by (bit_vector);
        }
        match self {
            WinPattern::TopRow => 0b1_1100_0000u16,
            WinPattern::CentreRow => 0b0_0011_1000u16,
            WinPattern::BottomRow => 0b0_0000_0111u16,
            WinPattern::LeftColumn => 0b1_0010_0100u16,
            WinPattern::CentreColumn => 0b0_1001_0010u16,
            WinPattern::RightColumn => 0b0_0100_1001u16,
            WinPattern::LeftDiagonal => 0b1_0001_0001u16,
            WinPattern::RightDiagonal => 0b0_0101_0100u16,
        }
    }

    /// Converts the line into the triple of [`Cell`]s it runs through.
    pub fn cells(&self) -> (r: [Cell; 3])
        ensures
            (r[0], r[1], r[2]) == line_cells(*self),
    {
        match self {
            WinPattern::TopRow => [Cell::TopLeft, Cell::TopCentre, Cell::TopRight],
            WinPattern::CentreRow => [Cell::CentreLeft, Cell::Centre, Cell::CentreRight],
            WinPattern::BottomRow => [Cell::BottomLeft, Cell::BottomCentre, Cell::BottomRight],
            WinPattern::LeftColumn => [Cell::TopLeft, Cell::CentreLeft, Cell::BottomLeft],
            WinPattern::CentreColumn => [Cell::TopCentre, Cell::Centre, Cell::BottomCentre],
            WinPattern::RightColumn => [Cell::TopRight, Cell::CentreRight, Cell::BottomRight],
            WinPattern::LeftDiagonal => [Cell::TopLeft, Cell::Centre, Cell::BottomRight],
            WinPattern::RightDiagonal => [Cell::TopRight, Cell::Centre, Cell::BottomLeft],
        }
    }
}

/// The win masks really are the OR of the three cell masks of their
/// lines, as the win mask table promises.
pub proof fn lemma_win_mask_combines_cell_masks()
    ensures
        forall|w: WinPattern|
            #[trigger] win_mask(w) == ({
                let (a, b, c) = line_cells(w);
                super::cell_mask(a) | super::cell_mask(b) | super::cell_mask(c)
            }),
{
    assert((0b10_0000_0000_0000_0000u32 | 0b00_1000_0000_0000_0000u32
        | 0b00_0010_0000_0000_0000u32 == 0b10_1010_0000_0000_0000u32)
        && (0b00_0000_1000_0000_0000u32 | 0b00_0000_0010_0000_0000u32
        | 0b00_0000_0000_1000_0000u32 == 0b00_0000_1010_1000_0000u32)
        && (0b00_0000_0000_0010_0000u32 | 0b00_0000_0000_0000_1000u32
        | 0b00_0000_0000_0000_0010u32 == 0b00_0000_0000_0010_1010u32)
        && (0b10_0000_0000_0000_0000u32 | 0b00_0000_1000_0000_0000u32
        | 0b00_0000_0000_0010_0000u32 == 0b10_0000_1000_0010_0000u32)
        && (0b00_1000_0000_0000_0000u32 | 0b00_0000_0010_0000_0000u32
        | 0b00_0000_0000_0000_1000u32 == 0b00_1000_0010_0000_1000u32)
        && (0b00_0010_0000_0000_0000u32 | 0b00_0000_0000_1000_0000u32
        | 0b00_0000_0000_0000_0010u32 == 0b00_0010_0000_1000_0010u32)
        && (0b10_0000_0000_0000_0000u32 | 0b00_0000_0010_0000_0000u32
        | 0b00_0000_0000_0000_0010u32 == 0b10_0000_0010_0000_0010u32)
        && (0b00_0010_0000_0000_0000u32 | 0b00_0000_0010_0000_0000u32
        | 0b00_0000_0000_0010_0000u32 == 0b00_0010_0010_0010_0000u32)) by (bit_vector);
}

} // verus!
