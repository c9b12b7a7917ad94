//! The chunk dispatcher: cuts a buffer into whole groups, fans them out over
//! the worker pool, and hands what is left over to the narrow kernel.

use vstd::prelude::*;
use crate::fanout::{
    for_each_group, NARROW_DESTINATION, NARROW_SOURCE, WIDE_DESTINATION, WIDE_SOURCE,
};
use crate::format::Format;
use crate::laws::{lemma_narrow_fan_out, lemma_wide_fan_out_then_tail};
use crate::model::{converted, ratio_holds, whole_pairs};

verus! {

/// Which conversion to run, and how the buffer is cut for it.
#[derive(Clone, Copy, Debug, PartialEq, Eq, Structural)]
pub enum Variant {
    /// `Y0 U Y1 V` to `R G B`, in 4-byte groups.
    Yuyv422ToRgb24,
    /// `Y0 U Y1 V` to `R G B`, in 16-byte groups with a narrow tail.
    Yuyv422ToRgb24Wide,
    /// `U Y0 V Y1` to `B G R`, in 4-byte groups.
    Uyvy422ToBgr24,
    /// `U Y0 V Y1` to `B G R`, in 16-byte groups with a narrow tail.
    Uyvy422ToBgr24Wide,
}

/// Why a conversion was refused.
#[derive(Clone, Copy, Debug, PartialEq, Eq, Structural)]
pub enum ConvertError {
    /// The destination does not hold three bytes for every two of the source.
    LengthMismatch,
    /// The lengths fit, but the source ends in half a pair of pixels: its
    /// length is not a multiple of four.
    HalfPair,
}

impl Variant {
    /// The pixel format that this variant converts.
    pub open spec fn format_of(self) -> Format {
        match self {
            Variant::Yuyv422ToRgb24 | Variant::Yuyv422ToRgb24Wide => Format::Yuyv422ToRgb24,
            Variant::Uyvy422ToBgr24 | Variant::Uyvy422ToBgr24Wide => Format::Uyvy422ToBgr24,
        }
    }

    /// Whether this variant cuts the buffer into 16-byte groups.
    pub open spec fn is_wide(self) -> bool {
        self == Variant::Yuyv422ToRgb24Wide || self == Variant::Uyvy422ToBgr24Wide
    }

    /// The pixel format that this variant converts.
    pub fn format(self) -> (format: Format)
        ensures
            format == self.format_of(),
    {
        match self {
            Variant::Yuyv422ToRgb24 | Variant::Yuyv422ToRgb24Wide => Format::Yuyv422ToRgb24,
            Variant::Uyvy422ToBgr24 | Variant::Uyvy422ToBgr24Wide => Format::Uyvy422ToBgr24,
        }
    }

    /// Whether this variant cuts the buffer into 16-byte groups.
    pub fn wide(self) -> (wide: bool)
        ensures
            wide == self.is_wide(),
    {
        match self {
            Variant::Yuyv422ToRgb24Wide | Variant::Uyvy422ToBgr24Wide => true,
            Variant::Yuyv422ToRgb24 | Variant::Uyvy422ToBgr24 => false,
        }
    }
}

/// Whether a destination of `destination_len` bytes fits a source of
/// `source_len` bytes: three bytes for every two.
pub fn lengths_fit(source_len: usize, destination_len: usize) -> (fit: bool)
    ensures
        fit == ratio_holds(source_len as int, destination_len as int),
{
    let twice: u128 = destination_len as u128 * 2;
    let thrice: u128 = source_len as u128 * 3;
    twice == thrice
}

/// Converts `src` into `dst`, one 4-byte group per unit of work.
///
/// The source is whole pairs and the lengths fit; every byte of `dst` is
/// overwritten.
pub fn convert_narrow(format: Format, src: &[u8], dst: &mut [u8])
    requires
        whole_pairs(src.len() as int),
        ratio_holds(src.len() as int, old(dst).len() as int),
    ensures
        final(dst)@ == converted(format, src@),
        ratio_holds(src.len() as int, final(dst)@.len() as int),
{
    for_each_group(format, src, NARROW_SOURCE, dst, NARROW_DESTINATION);
    proof {
        lemma_narrow_fan_out(format, src@, old(dst)@);
    }
}

/// Converts `src` into `dst`, one 16-byte group per unit of work, and then
/// what follows the last whole 16-byte group in 4-byte groups.
///
/// The source is whole pairs and the lengths fit; every byte of `dst` is
/// overwritten, with the bytes that `convert_narrow` writes.
pub fn convert_wide(format: Format, src: &[u8], dst: &mut [u8])
    requires
        whole_pairs(src.len() as int),
        ratio_holds(src.len() as int, old(dst).len() as int),
    ensures
        final(dst)@ == converted(format, src@),
        ratio_holds(src.len() as int, final(dst)@.len() as int),
{
    for_each_group(format, src, WIDE_SOURCE, dst, WIDE_DESTINATION);
    let remain_len: usize = (src.len() % WIDE_SOURCE) / 2;
    proof {
        lemma_wide_fan_out_then_tail(format, src@, old(dst)@);
    }
    let src_tail: &[u8] = &src[src.len() - remain_len * 2..src.len()];
    let cut: usize = dst.len() - remain_len * 3;
    let (_, dst_tail) = dst.split_at_mut(cut);
    convert_narrow(format, src_tail, dst_tail);
}

/// Converts `source` into `destination` as `variant` says, after checking
/// that the lengths fit and that the source is whole pairs.
///
/// Where either check fails, nothing is read or written.
pub fn convert(variant: Variant, source: &[u8], destination: &mut [u8]) -> (result: Result<
    (),
    ConvertError,
>)
    ensures
        result is Ok <==> whole_pairs(source.len() as int) && ratio_holds(
            source.len() as int,
            old(destination).len() as int,
        ),
        result is Ok ==> final(destination)@ == converted(variant.format_of(), source@),
        result == Err::<(), ConvertError>(ConvertError::LengthMismatch) <==> !ratio_holds(
            source.len() as int,
            old(destination).len() as int,
        ),
        result == Err::<(), ConvertError>(ConvertError::HalfPair) <==> ratio_holds(
            source.len() as int,
            old(destination).len() as int,
        ) && !whole_pairs(source.len() as int),
        result is Err ==> final(destination)@ == old(destination)@,
{
    if !lengths_fit(source.len(), destination.len()) {
        return Err(ConvertError::LengthMismatch);
    }
    if source.len() % NARROW_SOURCE != 0 {
        return Err(ConvertError::HalfPair);
    }
    if variant.wide() {
        convert_wide(variant.format(), source, destination);
    } else {
        convert_narrow(variant.format(), source, destination);
    }
    Ok(())
}

} // verus!
