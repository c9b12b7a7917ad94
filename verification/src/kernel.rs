//! The two kernels: one source group in, one destination group out.
//!
//! The narrow kernel takes one 4-byte pair and writes two triples. The wide
//! kernel takes four pairs at once: it gathers their samples into eight-lane
//! batches, runs the colour matrix over the lanes, and scatters each channel
//! batch into every third destination byte. Both compute the same function,
//! `model::converted`, of their group.

use vstd::prelude::*;
use crate::format::Format;
use crate::matrix::{blue, blue_channel, green, green_channel, red, red_channel};
use crate::model::{channel_at, converted};

verus! {

/// Writes the triple of the sample `(y, u, v)` into `dst[at..at + 3]`, in the
/// channel order of `format`.
fn write_triple(format: Format, dst: &mut [u8], at: usize, y: u8, u: u8, v: u8)
    requires
        at + 3 <= old(dst).len(),
    ensures
        final(dst)@.len() == old(dst)@.len(),
        forall|j: int|
            0 <= j < old(dst)@.len() ==> #[trigger] final(dst)@[j] == (if at <= j < at + 3 {
                channel_at(format, j - at, y, u, v)
            } else {
                old(dst)@[j]
            }),
{
    dst[at + format.red_at()] = red(y, v);
    dst[at + format.green_at()] = green(y, u, v);
    dst[at + format.blue_at()] = blue(y, u);
}

/// Converts one 4-byte pair into two 3-byte triples.
pub fn narrow_kernel(format: Format, src: &[u8], dst: &mut [u8])
    requires
        src.len() == 4,
        old(dst).len() == 6,
    ensures
        final(dst)@ == converted(format, src@),
{
    let y0: u8 = src[format.luma_at(0)];
    let y1: u8 = src[format.luma_at(1)];
    let u: u8 = src[format.u_at()];
    let v: u8 = src[format.v_at()];
    write_triple(format, dst, 0, y0, u, v);
    write_triple(format, dst, 3, y1, u, v);
    assert(dst@ =~= converted(format, src@));
}

/// Builds one eight-lane batch: lane `i` takes the source byte that the table
/// names for it.
fn gather(src: &[u8], lanes: &[usize; 8]) -> (batch: [u8; 8])
    requires
        forall|i: int| 0 <= i < 8 ==> #[trigger] lanes[i] < src.len(),
    ensures
        forall|i: int| 0 <= i < 8 ==> #[trigger] batch[i] == src[lanes[i] as int],
{
    let mut batch: [u8; 8] = [0u8; 8];
    let mut i: usize = 0;
    while i < 8
        invariant
            i <= 8,
            forall|k: int| 0 <= k < 8 ==> #[trigger] lanes[k] < src.len(),
            forall|k: int| 0 <= k < i ==> #[trigger] batch[k] == src[lanes[k] as int],
        decreases 8 - i,
    {
        batch[i] = src[lanes[i]];
        i += 1;
    }
    batch
}

/// The red channel of every lane.
fn red_batch(y: &[u8; 8], v: &[u8; 8]) -> (batch: [u8; 8])
    ensures
        forall|i: int| 0 <= i < 8 ==> #[trigger] batch[i] == red_channel(y[i], v[i]),
{
    let mut batch: [u8; 8] = [0u8; 8];
    let mut i: usize = 0;
    while i < 8
        invariant
            i <= 8,
            forall|k: int| 0 <= k < i ==> #[trigger] batch[k] == red_channel(y[k], v[k]),
        decreases 8 - i,
    {
        batch[i] = red(y[i], v[i]);
        i += 1;
    }
    batch
}

/// The green channel of every lane.
fn green_batch(y: &[u8; 8], u: &[u8; 8], v: &[u8; 8]) -> (batch: [u8; 8])
    ensures
        forall|i: int| 0 <= i < 8 ==> #[trigger] batch[i] == green_channel(y[i], u[i], v[i]),
{
    let mut batch: [u8; 8] = [0u8; 8];
    let mut i: usize = 0;
    while i < 8
        invariant
            i <= 8,
            forall|k: int| 0 <= k < i ==> #[trigger] batch[k] == green_channel(y[k], u[k], v[k]),
        decreases 8 - i,
    {
        batch[i] = green(y[i], u[i], v[i]);
        i += 1;
    }
    batch
}

/// The blue channel of every lane.
fn blue_batch(y: &[u8; 8], u: &[u8; 8]) -> (batch: [u8; 8])
    ensures
        forall|i: int| 0 <= i < 8 ==> #[trigger] batch[i] == blue_channel(y[i], u[i]),
{
    let mut batch: [u8; 8] = [0u8; 8];
    let mut i: usize = 0;
    while i < 8
        invariant
            i <= 8,
            forall|k: int| 0 <= k < i ==> #[trigger] batch[k] == blue_channel(y[k], u[k]),
        decreases 8 - i,
    {
        batch[i] = blue(y[i], u[i]);
        i += 1;
    }
    batch
}

/// Writes lane `i` of a channel batch to `dst[3 * i + offset]`, and leaves
/// the other bytes as they are.
fn scatter(batch: &[u8; 8], dst: &mut [u8], offset: usize)
    requires
        offset < 3,
        old(dst).len() == 24,
    ensures
        final(dst)@.len() == 24,
        forall|j: int|
            0 <= j < 24 ==> #[trigger] final(dst)@[j] == (if j % 3 == offset as int {
                batch[j / 3]
            } else {
                old(dst)@[j]
            }),
{
    let mut i: usize = 0;
    while i < 8
        invariant
            i <= 8,
            offset < 3,
            dst@.len() == 24,
            forall|j: int|
                0 <= j < 24 ==> #[trigger] dst@[j] == (if j % 3 == offset as int && j / 3 < i {
                    batch[j / 3]
                } else {
                    old(dst)@[j]
                }),
        decreases 8 - i,
    {
        dst[3 * i + offset] = batch[i];
        i += 1;
    }
}

/// Converts four 4-byte pairs into eight 3-byte triples, eight lanes at a
/// time.
pub fn wide_kernel(format: Format, src: &[u8], dst: &mut [u8])
    requires
        src.len() == 16,
        old(dst).len() == 24,
    ensures
        final(dst)@ == converted(format, src@),
{
    let table = format.lane_table();
    let y_batch: [u8; 8] = gather(src, &table.luma);
    let u_batch: [u8; 8] = gather(src, &table.u);
    let v_batch: [u8; 8] = gather(src, &table.v);
    let r_batch: [u8; 8] = red_batch(&y_batch, &v_batch);
    let g_batch: [u8; 8] = green_batch(&y_batch, &u_batch, &v_batch);
    let b_batch: [u8; 8] = blue_batch(&y_batch, &u_batch);
    scatter(&r_batch, dst, format.red_at());
    scatter(&g_batch, dst, format.green_at());
    scatter(&b_batch, dst, format.blue_at());
    assert(dst@ =~= converted(format, src@));
}

} // verus!
