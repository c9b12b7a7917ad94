//! The pixel formats: where each sample sits in a packed 4:2:2 source, and
//! where each channel sits in a 24-bit destination triple.
//!
//! A source is a run of 4-byte pairs of pixels. Each pair holds two luma
//! samples and the one chroma pair `(U, V)` that they share. A destination
//! holds one 3-byte triple per luma sample.

use vstd::prelude::*;

verus! {

/// A conversion from one packed 4:2:2 byte order to one 24-bit channel order.
#[derive(Clone, Copy, Debug, PartialEq, Eq, Structural)]
pub enum Format {
    /// Source pairs are `Y0 U Y1 V`; destination triples are `R G B`.
    Yuyv422ToRgb24,
    /// Source pairs are `U Y0 V Y1`; destination triples are `B G R`.
    Uyvy422ToBgr24,
}

/// For each of the eight lanes of a 16-byte group, the index of the byte that
/// feeds it: one table for luma, one for `U`, one for `V`. Two neighbouring
/// lanes share their chroma bytes.
#[derive(Clone, Copy, Debug)]
pub struct LaneTable {
    pub luma: [usize; 8],
    pub u: [usize; 8],
    pub v: [usize; 8],
}

impl Format {
    /// Offset in a 4-byte pair of the luma sample `k` (0 or 1).
    pub open spec fn luma_offset(self, k: int) -> int {
        match self {
            Format::Yuyv422ToRgb24 => 2 * k,
            Format::Uyvy422ToBgr24 => 2 * k + 1,
        }
    }

    /// Offset in a 4-byte pair of the `U` sample.
    pub open spec fn u_offset(self) -> int {
        match self {
            Format::Yuyv422ToRgb24 => 1,
            Format::Uyvy422ToBgr24 => 0,
        }
    }

    /// Offset in a 4-byte pair of the `V` sample.
    pub open spec fn v_offset(self) -> int {
        match self {
            Format::Yuyv422ToRgb24 => 3,
            Format::Uyvy422ToBgr24 => 2,
        }
    }

    /// Offset in a 3-byte triple of the red channel.
    pub open spec fn red_offset(self) -> int {
        match self {
            Format::Yuyv422ToRgb24 => 0,
            Format::Uyvy422ToBgr24 => 2,
        }
    }

    /// Offset in a 3-byte triple of the green channel.
    pub open spec fn green_offset(self) -> int {
        1
    }

    /// Offset in a 3-byte triple of the blue channel.
    pub open spec fn blue_offset(self) -> int {
        match self {
            Format::Yuyv422ToRgb24 => 2,
            Format::Uyvy422ToBgr24 => 0,
        }
    }

    /// Index in a group of the luma byte of `lane`.
    pub open spec fn luma_index(self, lane: int) -> int {
        4 * (lane / 2) + self.luma_offset(lane % 2)
    }

    /// Index in a group of the `U` byte of `lane`.
    pub open spec fn u_index(self, lane: int) -> int {
        4 * (lane / 2) + self.u_offset()
    }

    /// Index in a group of the `V` byte of `lane`.
    pub open spec fn v_index(self, lane: int) -> int {
        4 * (lane / 2) + self.v_offset()
    }

    /// Offset in a 4-byte pair of the luma sample `k`.
    pub fn luma_at(self, k: usize) -> (offset: usize)
        requires
            k < 2,
        ensures
            offset == self.luma_offset(k as int),
            offset < 4,
    {
        match self {
            Format::Yuyv422ToRgb24 => 2 * k,
            Format::Uyvy422ToBgr24 => 2 * k + 1,
        }
    }

    /// Offset in a 4-byte pair of the `U` sample.
    pub fn u_at(self) -> (offset: usize)
        ensures
            offset == self.u_offset(),
            offset < 4,
    {
        match self {
            Format::Yuyv422ToRgb24 => 1,
            Format::Uyvy422ToBgr24 => 0,
        }
    }

    /// Offset in a 4-byte pair of the `V` sample.
    pub fn v_at(self) -> (offset: usize)
        ensures
            offset == self.v_offset(),
            offset < 4,
    {
        match self {
            Format::Yuyv422ToRgb24 => 3,
            Format::Uyvy422ToBgr24 => 2,
        }
    }

    /// Offset in a 3-byte triple of the red channel.
    pub fn red_at(self) -> (offset: usize)
        ensures
            offset == self.red_offset(),
            offset < 3,
    {
        match self {
            Format::Yuyv422ToRgb24 => 0,
            Format::Uyvy422ToBgr24 => 2,
        }
    }

    /// Offset in a 3-byte triple of the green channel.
    pub fn green_at(self) -> (offset: usize)
        ensures
            offset == self.green_offset(),
            offset < 3,
    {
        1
    }

    /// Offset in a 3-byte triple of the blue channel.
    pub fn blue_at(self) -> (offset: usize)
        ensures
            offset == self.blue_offset(),
            offset < 3,
    {
        match self {
            Format::Yuyv422ToRgb24 => 2,
            Format::Uyvy422ToBgr24 => 0,
        }
    }

    /// The lane table of this format's source byte order.
    pub fn lane_table(self) -> (table: LaneTable)
        ensures
            table.feeds(self),
    {
        match self {
            Format::Yuyv422ToRgb24 => LaneTable {
                luma: [0, 2, 4, 6, 8, 10, 12, 14],
                u: [1, 1, 5, 5, 9, 9, 13, 13],
                v: [3, 3, 7, 7, 11, 11, 15, 15],
            },
            Format::Uyvy422ToBgr24 => LaneTable {
                luma: [1, 3, 5, 7, 9, 11, 13, 15],
                u: [0, 0, 4, 4, 8, 8, 12, 12],
                v: [2, 2, 6, 6, 10, 10, 14, 14],
            },
        }
    }
}

impl LaneTable {
    /// The table names, for every lane, the bytes that `format` assigns to it.
    pub open spec fn feeds(self, format: Format) -> bool {
        &&& forall|lane: int|
            0 <= lane < 8 ==> #[trigger] self.luma[lane] == format.luma_index(lane)
        &&& forall|lane: int| 0 <= lane < 8 ==> #[trigger] self.u[lane] == format.u_index(lane)
        &&& forall|lane: int| 0 <= lane < 8 ==> #[trigger] self.v[lane] == format.v_index(lane)
    }
}

} // verus!
