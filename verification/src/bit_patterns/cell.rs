//! Helper module for [`Cell`]: the executable accessors for the mask
//! tables, and the parser that turns a textual label into a position.

use vstd::prelude::*;
use vstd::string::StrSliceExecFns;
use vstd::string::StringExecFns;
use super::Cell;
use super::cell_index;
use super::cell_mask;
use super::occupancy_flag;

verus! {

/// The position named by a one-character label `"1"` through `"9"`,
/// numbered from the bottom-left corner as on a keypad.
pub open spec fn cell_of_label(s: Seq<char>) -> Option<Cell> {
    if s.len() == 1 {
        if s[0] == '1' {
            Some(Cell::BottomLeft)
        } else if s[0] == '2' {
            Some(Cell::BottomCentre)
        } else if s[0] == '3' {
            Some(Cell::BottomRight)
        } else if s[0] == '4' {
            Some(Cell::CentreLeft)
        } else if s[0] == '5' {
            Some(Cell::Centre)
        } else if s[0] == '6' {
            Some(Cell::CentreRight)
        } else if s[0] == '7' {
            Some(Cell::TopLeft)
        } else if s[0] == '8' {
            Some(Cell::TopCentre)
        } else if s[0] == '9' {
            Some(Cell::TopRight)
        } else {
            None
        }
    } else {
        None
    }
}

impl Cell {
    /// The position's cell mask: its occupancy bit inside the 18-bit
    /// register.
    pub fn mask(&self) -> (r: u32)
        ensures
            r == cell_mask(*self),
    {
        match self {
            Cell::TopLeft => 0b10_0000_0000_0000_0000u32,
            Cell::TopCentre => 0b00_1000_0000_0000_0000u32,
            Cell::TopRight => 0b00_0010_0000_0000_0000u32,
            Cell::CentreLeft => 0b00_0000_1000_0000_0000u32,
            Cell::Centre => 0b00_0000_0010_0000_0000u32,
            Cell::CentreRight => 0b00_0000_0000_1000_0000u32,
            Cell::BottomLeft => 0b00_0000_0000_0010_0000u32,
            Cell::BottomCentre => 0b00_0000_0000_0000_1000u32,
            Cell::BottomRight => 0b00_0000_0000_0000_0010u32,
        }
    }

    /// The position's single-bit flag inside a nine-bit word, used by the
    /// two-word board encoding.
    pub fn flag(&self) -> (r: u16)
        ensures
            r == occupancy_flag(cell_index(*self)),
    {
        match self {
            Cell::TopLeft => 0b1_0000_0000u16,
            Cell::TopCentre => 0b0_1000_0000u16,
            Cell::TopRight => 0b0_0100_0000u16,
            Cell::CentreLeft => 0b0_0010_0000u16,
            Cell::Centre => 0b0_0001_0000u16,
            Cell::CentreRight => 0b0_0000_1000u16,
            Cell::BottomLeft => 0b0_0000_0100u16,
            Cell::BottomCentre => 0b0_0000_0010u16,
            Cell::BottomRight => 0b0_0000_0001u16,
        }
    }

    /// Attempts to convert the input to a [`Cell`]. Returns an error
    /// message if the input is not one of the nine recognized digits.
    pub fn try_from(x: &str) -> (r: Result<Cell, String>)
        ensures
            match r {
                Ok(c) => cell_of_label(x@) == Some(c),
                Err(e) => {
                    &&& cell_of_label(x@) is None
                    &&& e@ == x@ + " is not a valid cell number"@
                },
            },
    {
        let n = x.unicode_len();
        if n == 1 {
            let c = x.get_char(0);
            if c == '1' {
                return Ok(Cell::BottomLeft);
            } else if c == '2' {
                return Ok(Cell::BottomCentre);
            } else if c == '3' {
                return Ok(Cell::BottomRight);
            } else if c == '4' {
                return Ok(Cell::CentreLeft);
            } else if c == '5' {
                return Ok(Cell::Centre);
            } else if c == '6' {
                return Ok(Cell::CentreRight);
            } else if c == '7' {
                return Ok(Cell::TopLeft);
            } else if c == '8' {
                return Ok(Cell::TopCentre);
            } else if c == '9' {
                return Ok(Cell::TopRight);
            }
        }
        let mut message = String::from_str(x);
        message.append(" is not a valid cell number");
        Err(message)
    }
}

} // verus!
