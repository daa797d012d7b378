//! Square addressing and the difference of two squares.
use vstd::prelude::*;

verus! {

/// A square of the board, by rank and file, both counted from 0.
#[derive(Copy, Clone, Debug, PartialEq, Eq, Structural, Hash)]
pub struct SquareSpec {
    pub rank: u8,
    pub file: u8,
}

/// The rank and file distance from one square to another.
#[derive(Copy, Clone, Debug, PartialEq, Eq, Structural, Hash)]
pub struct SquareDiff {
    pub d_rank: i8,
    pub d_file: i8,
}

pub open spec fn on_board(r: int, f: int) -> bool {
    0 <= r < 8 && 0 <= f < 8
}

/// The position of square (r, f) in a rank-major list of the 64 squares.
pub open spec fn index_of(r: int, f: int) -> int {
    r * 8 + f
}

impl SquareSpec {
    pub open spec fn wf(self) -> bool {
        self.rank < 8 && self.file < 8
    }

    pub open spec fn index(self) -> int {
        index_of(self.rank as int, self.file as int)
    }

    /// The square at `rank` and `file`.
    pub fn new(rank: u8, file: u8) -> (r: SquareSpec)
        requires
            rank < 8,
            file < 8,
        ensures
            r.rank == rank,
            r.file == file,
            r.wf(),
    {
        SquareSpec { rank, file }
    }

    /// The square at position `i` of the rank-major order.
    pub fn to_index(self) -> (r: usize)
        requires
            self.wf(),
        ensures
            r as int == self.index(),
            r < 64,
    {
        self.rank as usize * 8 + self.file as usize
    }

    /// `self - other`: how far `self` lies from `other`.
    pub fn diff(self, other: SquareSpec) -> (r: SquareDiff)
        requires
            self.wf(),
            other.wf(),
        ensures
            r.d_rank == self.rank as int - other.rank as int,
            r.d_file == self.file as int - other.file as int,
    {
        SquareDiff {
            d_rank: self.rank as i8 - other.rank as i8,
            d_file: self.file as i8 - other.file as i8,
        }
    }
}

} // verus!
