//! What a conversion is, as a function from source bytes to destination bytes.
//!
//! Destination byte `j` belongs to pixel `j / 3` and holds the channel at
//! offset `j % 3` of its triple. Pixel `p` takes its luma from pair `p / 2`,
//! sample `p % 2`, and its chroma from the same pair.

use vstd::prelude::*;
use crate::format::Format;
use crate::matrix::{blue_channel, green_channel, red_channel};

verus! {

/// The channel at offset `c` of the destination triple of the sample
/// `(y, u, v)`.
pub open spec fn channel_at(format: Format, c: int, y: u8, u: u8, v: u8) -> u8 {
    if c == format.red_offset() {
        red_channel(y, v)
    } else if c == format.blue_offset() {
        blue_channel(y, u)
    } else {
        green_channel(y, u, v)
    }
}

/// Byte `j` of the conversion of `src`.
pub open spec fn converted_byte(format: Format, src: Seq<u8>, j: int) -> u8 {
    let pixel = j / 3;
    let pair = pixel / 2;
    let y = src[4 * pair + format.luma_offset(pixel % 2)];
    let u = src[4 * pair + format.u_offset()];
    let v = src[4 * pair + format.v_offset()];
    channel_at(format, j % 3, y, u, v)
}

/// Number of destination bytes that `source_len` source bytes convert to:
/// six for every whole 4-byte pair.
pub open spec fn converted_len(source_len: int) -> int {
    source_len / 4 * 6
}

/// The conversion of `src`, pair by pair. A kernel or a dispatcher is only
/// ever handed whole pairs; were `src` to end in part of a pair, those bytes
/// would take no part.
pub open spec fn converted(format: Format, src: Seq<u8>) -> Seq<u8> {
    Seq::new(converted_len(src.len() as int) as nat, |j: int| converted_byte(format, src, j))
}

/// The source is made of whole 4-byte pairs: no luma sample is without its
/// chroma.
pub open spec fn whole_pairs(source_len: int) -> bool {
    source_len % 4 == 0
}

/// The lengths of a source and a destination fit: every two source bytes
/// stand against three destination bytes.
pub open spec fn ratio_holds(source_len: int, destination_len: int) -> bool {
    destination_len * 2 == source_len * 3
}

} // verus!
