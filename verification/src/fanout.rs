//! Fan-out of a buffer over the worker pool, one group per unit of work.
//!
//! Each unit reads its own group of the source and writes its own group of
//! the destination, so the units share nothing and their order does not
//! matter.

use vstd::prelude::*;
use rayon::iter::{IndexedParallelIterator, ParallelIterator};
use rayon::slice::{ParallelSlice, ParallelSliceMut};
use crate::format::Format;
use crate::kernel::{narrow_kernel, wide_kernel};
use crate::model::converted;

verus! {

/// Source bytes in a group of the narrow kernel.
pub const NARROW_SOURCE: usize = 4;

/// Destination bytes in a group of the narrow kernel.
pub const NARROW_DESTINATION: usize = 6;

/// Source bytes in a group of the wide kernel.
pub const WIDE_SOURCE: usize = 16;

/// Destination bytes in a group of the wide kernel.
pub const WIDE_DESTINATION: usize = 24;

/// The sizes are those of a group that one of the two kernels takes.
pub open spec fn is_group(source_group: int, destination_group: int) -> bool {
    ||| source_group == NARROW_SOURCE && destination_group == NARROW_DESTINATION
    ||| source_group == WIDE_SOURCE && destination_group == WIDE_DESTINATION
}

/// Group `i` of a buffer cut into groups of `size` bytes.
pub open spec fn group_of(buf: Seq<u8>, size: int, i: int) -> Seq<u8> {
    buf.subrange(size * i, size * i + size)
}

/// Number of groups that a fan-out converts: as many whole groups as both
/// buffers hold.
pub open spec fn group_count(
    source_len: int,
    source_group: int,
    destination_len: int,
    destination_group: int,
) -> int {
    if source_len / source_group <= destination_len / destination_group {
        source_len / source_group
    } else {
        destination_len / destination_group
    }
}

/// A destination after a fan-out: destination group `i` holds the conversion
/// of source group `i`, for every group that both buffers hold whole; the
/// bytes after the last such group are as they were.
pub open spec fn fanned_out(
    format: Format,
    src: Seq<u8>,
    source_group: int,
    dst: Seq<u8>,
    destination_group: int,
) -> Seq<u8> {
    let groups = group_count(
        src.len() as int,
        source_group,
        dst.len() as int,
        destination_group,
    );
    Seq::new(
        dst.len(),
        |j: int|
            if j < groups * destination_group {
                converted(
                    format,
                    group_of(src, source_group, j / destination_group),
                )[j % destination_group]
            } else {
                dst[j]
            },
    )
}

/// Number of source bytes that a fan-out over 16-byte groups leaves to the
/// narrow kernel: what follows the last whole group, in whole pixels.
pub open spec fn tail_len(source_len: int) -> int {
    source_len % 16 / 2 * 2
}

/// Converts one group with the kernel of its size.
pub fn convert_group(format: Format, src: &[u8], dst: &mut [u8])
    requires
        is_group(src.len() as int, old(dst).len() as int),
    ensures
        final(dst)@ == converted(format, src@),
{
    if src.len() == WIDE_SOURCE {
        wide_kernel(format, src, dst);
    } else {
        narrow_kernel(format, src, dst);
    }
}

/// Runs `convert_group` on every pair of a source group and a destination
/// group, across rayon's worker pool.
///
/// This is rayon's `par_chunks_exact` on the source, `par_chunks_exact_mut` on
/// the destination, `zip` of the two and `for_each` over the pairs. Taken on
/// trust from rayon: the chunks are the consecutive, non-overlapping groups of
/// exactly the given size, bytes after the last whole group are not visited;
/// `zip` pairs group `i` with group `i` and stops at the shorter side;
/// `for_each` has called the closure once on every pair when it returns. What
/// the closure leaves in a destination group is the contract of
/// `convert_group`. Both sizes are positive, so rayon does not panic.
#[verifier::external_body]
pub(crate) fn for_each_group(
    format: Format,
    src: &[u8],
    source_group: usize,
    dst: &mut [u8],
    destination_group: usize,
)
    requires
        is_group(source_group as int, destination_group as int),
    ensures
        final(dst)@ == fanned_out(
            format,
            src@,
            source_group as int,
            old(dst)@,
            destination_group as int,
        ),
{
    src.par_chunks_exact(source_group)
        .zip(dst.par_chunks_exact_mut(destination_group))
        .for_each(|(group, out)| convert_group(format, group, out));
}

} // verus!
