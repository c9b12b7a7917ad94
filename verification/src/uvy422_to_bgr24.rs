//! `U Y0 V Y1` sources to `B G R` destinations.

use vstd::prelude::*;
use crate::dispatch::{convert_narrow, convert_wide};
use crate::format::Format;
use crate::kernel::{narrow_kernel, wide_kernel};
use crate::model::{converted, ratio_holds, whole_pairs};

verus! {

/// Converts a buffer of `U Y0 V Y1` pairs to `B G R` triples, one 4-byte
/// group per unit of work.
pub fn uyvy422_to_bgr24_chunk4_many(in_buf: &[u8], out_buf: &mut [u8])
    requires
        whole_pairs(in_buf.len() as int),
        ratio_holds(in_buf.len() as int, old(out_buf).len() as int),
    ensures
        final(out_buf)@ == converted(Format::Uyvy422ToBgr24, in_buf@),
        ratio_holds(in_buf.len() as int, final(out_buf)@.len() as int),
{
    convert_narrow(Format::Uyvy422ToBgr24, in_buf, out_buf);
}

/// Converts a buffer of `U Y0 V Y1` pairs to `B G R` triples, one 16-byte
/// group per unit of work, with a narrow tail.
pub fn uyvy422_to_bgr24_chunk16_many(in_buf: &[u8], out_buf: &mut [u8])
    requires
        whole_pairs(in_buf.len() as int),
        ratio_holds(in_buf.len() as int, old(out_buf).len() as int),
    ensures
        final(out_buf)@ == converted(Format::Uyvy422ToBgr24, in_buf@),
        ratio_holds(in_buf.len() as int, final(out_buf)@.len() as int),
{
    convert_wide(Format::Uyvy422ToBgr24, in_buf, out_buf);
}

/// Converts one `U Y0 V Y1` pair into two `B G R` triples.
pub fn uyvy422_to_bgr24_chunk4_single(uvy422: [u8; 4], bgr24: &mut [u8])
    requires
        old(bgr24).len() == 6,
    ensures
        final(bgr24)@ == converted(Format::Uyvy422ToBgr24, uvy422@),
{
    narrow_kernel(Format::Uyvy422ToBgr24, &uvy422, bgr24);
}

/// Converts four `U Y0 V Y1` pairs into eight `B G R` triples.
pub fn uyvy422_to_bgr24_chunk16_single(uvy422: [u8; 16], bgr24: &mut [u8])
    requires
        old(bgr24).len() == 24,
    ensures
        final(bgr24)@ == converted(Format::Uyvy422ToBgr24, uvy422@),
{
    wide_kernel(Format::Uyvy422ToBgr24, &uvy422, bgr24);
}

} // verus!
