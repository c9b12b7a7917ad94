//! Conversion of packed 4:2:2 YUV buffers to packed 24-bit RGB or BGR.
//!
//! A source buffer holds two bytes per pixel: a luma sample for each pixel
//! and one chroma pair for every two. A destination buffer holds three bytes
//! per pixel. Every conversion of a buffer therefore asks that the source be
//! whole 4-byte pairs of pixels and that the destination hold three bytes for
//! every two of the source; it then overwrites every byte of the destination.
//!
//! The colour transform is the BT.709 limited-range matrix of [`matrix`]. The
//! byte orders are those of [`format::Format`]. [`model::converted`] says what
//! a conversion yields; the kernels of [`kernel`] compute it for one group,
//! and the dispatchers of [`dispatch`] for a whole buffer, fanning the groups
//! out over rayon's worker pool. [`laws`] holds what is proved of every
//! conversion.
//!
//! The functions of this module convert `Y0 U Y1 V` sources to `R G B`.

use vstd::prelude::*;
use crate::dispatch::{convert_narrow, convert_wide};
use crate::format::Format;
use crate::kernel::wide_kernel;
use crate::matrix::{blue, green, red, rgb_of};
use crate::model::{converted, ratio_holds, whole_pairs};

pub mod dispatch;
pub mod fanout;
pub mod format;
pub mod kernel;
pub mod laws;
pub mod matrix;
pub mod model;
pub mod uvy422_to_bgr24;
pub mod yuv422_to_rgb24;

verus! {

/// Converts `Y0 U Y1 V` pairs to `R G B` triples, one 4-byte group per unit
/// of work.
pub fn yuv422_to_rgb24_chunk4(in_buf: &[u8], out_buf: &mut [u8])
    requires
        whole_pairs(in_buf.len() as int),
        ratio_holds(in_buf.len() as int, old(out_buf).len() as int),
    ensures
        final(out_buf)@ == converted(Format::Yuyv422ToRgb24, in_buf@),
        ratio_holds(in_buf.len() as int, final(out_buf)@.len() as int),
{
    convert_narrow(Format::Yuyv422ToRgb24, in_buf, out_buf);
}

/// Converts `Y0 U Y1 V` pairs to `R G B` triples, one 16-byte group per unit
/// of work, with a narrow tail.
pub fn yuv422_to_rgb24_chunk16(in_buf: &[u8], out_buf: &mut [u8])
    requires
        whole_pairs(in_buf.len() as int),
        ratio_holds(in_buf.len() as int, old(out_buf).len() as int),
    ensures
        final(out_buf)@ == converted(Format::Yuyv422ToRgb24, in_buf@),
        ratio_holds(in_buf.len() as int, final(out_buf)@.len() as int),
{
    convert_wide(Format::Yuyv422ToRgb24, in_buf, out_buf);
}

/// Applies the colour matrix to one sample and returns its `R G B` triple.
pub fn yuv_to_rgb_simd(y: u8, cb: u8, cr: u8) -> (rgb: [u8; 3])
    ensures
        rgb@ == rgb_of(y, cb, cr),
{
    let rgb: [u8; 3] = [red(y, cr), green(y, cb, cr), blue(y, cb)];
    assert(rgb@ =~= rgb_of(y, cb, cr));
    rgb
}

/// Converts one 16-byte group of `Y0 U Y1 V` pairs into eight `R G B`
/// triples.
pub fn yuv_to_rgb_chunk16(yuv422: [u8; 16], rgb24: &mut [u8])
    requires
        old(rgb24).len() == 24,
    ensures
        final(rgb24)@ == converted(Format::Yuyv422ToRgb24, yuv422@),
{
    wide_kernel(Format::Yuyv422ToRgb24, &yuv422, rgb24);
}

} // verus!
