//! `Y0 U Y1 V` sources to `R G B` destinations.

use vstd::prelude::*;
use crate::dispatch::{convert_narrow, convert_wide};
use crate::format::Format;
use crate::kernel::{narrow_kernel, wide_kernel};
use crate::model::{converted, ratio_holds, whole_pairs};

verus! {

/// Converts a buffer of `Y0 U Y1 V` pairs to `R G B` triples, one 4-byte
/// group per unit of work.
pub fn yuyv422_to_rgb24_chunk4_many(in_buf: &[u8], out_buf: &mut [u8])
    requires
        whole_pairs(in_buf.len() as int),
        ratio_holds(in_buf.len() as int, old(out_buf).len() as int),
    ensures
        final(out_buf)@ == converted(Format::Yuyv422ToRgb24, in_buf@),
        ratio_holds(in_buf.len() as int, final(out_buf)@.len() as int),
{
    convert_narrow(Format::Yuyv422ToRgb24, in_buf, out_buf);
}

/// Converts a buffer of `Y0 U Y1 V` pairs to `R G B` triples, one 16-byte
/// group per unit of work, with a narrow tail.
pub fn yuyv422_to_rgb24_chunk16_many(in_buf: &[u8], out_buf: &mut [u8])
    requires
        whole_pairs(in_buf.len() as int),
        ratio_holds(in_buf.len() as int, old(out_buf).len() as int),
    ensures
        final(out_buf)@ == converted(Format::Yuyv422ToRgb24, in_buf@),
        ratio_holds(in_buf.len() as int, final(out_buf)@.len() as int),
{
    convert_wide(Format::Yuyv422ToRgb24, in_buf, out_buf);
}

/// Converts one `Y0 U Y1 V` pair into two `R G B` triples.
pub fn yuyv422_to_rgb24_chunk4_single(yuv422: [u8; 4], rgb24: &mut [u8])
    requires
        old(rgb24).len() == 6,
    ensures
        final(rgb24)@ == converted(Format::Yuyv422ToRgb24, yuv422@),
{
    narrow_kernel(Format::Yuyv422ToRgb24, &yuv422, rgb24);
}

/// Converts four `Y0 U Y1 V` pairs into eight `R G B` triples.
pub fn yuyv422_to_rgb24_chunk16_single(yuv422: [u8; 16], rgb24: &mut [u8])
    requires
        old(rgb24).len() == 24,
    ensures
        final(rgb24)@ == converted(Format::Yuyv422ToRgb24, yuv422@),
{
    wide_kernel(Format::Yuyv422ToRgb24, &yuv422, rgb24);
}

} // verus!
