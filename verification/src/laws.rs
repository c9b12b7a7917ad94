//! What holds of every conversion, whatever the buffer and however it is cut
//! into groups.

use vstd::prelude::*;
use crate::fanout::{fanned_out, group_of, tail_len};
use crate::format::Format;
use crate::matrix::rgb_of;
use crate::model::{converted, converted_byte, converted_len, ratio_holds, whole_pairs};

verus! {

/// A conversion reads each pair on its own: byte `j` of the conversion of a
/// stretch that starts at a pair is the byte that the whole buffer has at the
/// stretch's place.
pub proof fn lemma_converted_byte_local(
    format: Format,
    src: Seq<u8>,
    first_pair: int,
    end: int,
    j: int,
)
    requires
        0 <= first_pair,
        4 * first_pair <= end <= src.len(),
        0 <= j < converted_len(end - 4 * first_pair),
    ensures
        converted_byte(format, src.subrange(4 * first_pair, end), j) == converted_byte(
            format,
            src,
            6 * first_pair + j,
        ),
{
    let pixel = j / 3;
    let pair = pixel / 2;
    assert((6 * first_pair + j) / 3 == 2 * first_pair + pixel);
    assert((6 * first_pair + j) % 3 == j % 3);
    assert((2 * first_pair + pixel) / 2 == first_pair + pair);
    assert((2 * first_pair + pixel) % 2 == pixel % 2);
    assert(0 <= 4 * pair + 3 < end - 4 * first_pair);
}

/// The conversion of a stretch that starts at a pair is the matching stretch
/// of the conversion of the whole buffer: nothing outside it has a part in it.
pub proof fn lemma_converted_stretch(format: Format, src: Seq<u8>, first_pair: int, end: int)
    requires
        0 <= first_pair,
        4 * first_pair <= end <= src.len(),
    ensures
        6 * first_pair + converted_len(end - 4 * first_pair) <= converted_len(src.len() as int),
        converted(format, src.subrange(4 * first_pair, end)) == converted(format, src).subrange(
            6 * first_pair,
            6 * first_pair + converted_len(end - 4 * first_pair),
        ),
{
    let stretch = src.subrange(4 * first_pair, end);
    let len = converted_len(end - 4 * first_pair);
    let whole = converted(format, src);
    assert(6 * first_pair + len <= converted_len(src.len() as int));
    assert forall|j: int| 0 <= j < len implies #[trigger] converted(format, stretch)[j]
        == whole.subrange(6 * first_pair, 6 * first_pair + len)[j] by {
        lemma_converted_byte_local(format, src, first_pair, end, j);
    }
    assert(converted(format, stretch) =~= whole.subrange(6 * first_pair, 6 * first_pair + len));
}

/// Byte `j` of a fan-out over 4-byte groups is byte `j` of the conversion of
/// the buffer, for every byte that the fan-out writes.
proof fn lemma_narrow_fanned_out_byte(format: Format, src: Seq<u8>, dst: Seq<u8>, j: int)
    requires
        ratio_holds(src.len() as int, dst.len() as int),
        0 <= j < src.len() / 4 * 6,
    ensures
        j < dst.len(),
        j < converted_len(src.len() as int),
        fanned_out(format, src, 4, dst, 6)[j] == converted(format, src)[j],
{
    let i = j / 6;
    assert(group_of(src, 4, i) == src.subrange(4 * i, 4 * i + 4));
    lemma_converted_stretch(format, src, i, 4 * i + 4);
    assert(converted(format, src).subrange(6 * i, 6 * i + 6)[j % 6] == converted(format, src)[j]);
}

/// Byte `j` of a fan-out over 16-byte groups is byte `j` of the conversion of
/// the buffer, for every byte that the fan-out writes.
proof fn lemma_wide_fanned_out_byte(format: Format, src: Seq<u8>, dst: Seq<u8>, j: int)
    requires
        ratio_holds(src.len() as int, dst.len() as int),
        0 <= j < src.len() / 16 * 24,
    ensures
        j < dst.len(),
        j < converted_len(src.len() as int),
        fanned_out(format, src, 16, dst, 24)[j] == converted(format, src)[j],
{
    let i = j / 24;
    let first = 4 * i;
    assert(group_of(src, 16, i) == src.subrange(4 * first, 4 * first + 16));
    lemma_converted_stretch(format, src, first, 4 * first + 16);
    assert(converted(format, src).subrange(6 * first, 6 * first + 24)[j % 24] == converted(
        format,
        src,
    )[j]);
}

/// Converting a buffer pair by pair gives the conversion of the buffer: a
/// fan-out over 4-byte groups writes every byte of the destination.
pub proof fn lemma_narrow_fan_out(format: Format, src: Seq<u8>, dst: Seq<u8>)
    requires
        whole_pairs(src.len() as int),
        ratio_holds(src.len() as int, dst.len() as int),
    ensures
        fanned_out(format, src, 4, dst, 6) == converted(format, src),
{
    let done = fanned_out(format, src, 4, dst, 6);
    let want = converted(format, src);
    assert(done.len() == want.len());
    assert forall|j: int| 0 <= j < done.len() implies done[j] == want[j] by {
        lemma_narrow_fanned_out_byte(format, src, dst, j);
    }
    assert(done =~= want);
}

/// A wide fan-out followed by the narrow conversion of what it left over
/// gives the conversion of the buffer. The fan-out fills the destination up
/// to the last whole 16-byte group; the tail starts where it stopped, so no
/// destination byte is left out and none is written twice.
pub proof fn lemma_wide_fan_out_then_tail(format: Format, src: Seq<u8>, dst: Seq<u8>)
    requires
        whole_pairs(src.len() as int),
        ratio_holds(src.len() as int, dst.len() as int),
    ensures
        whole_pairs(tail_len(src.len() as int)),
        ({
            let wide = fanned_out(format, src, 16, dst, 24);
            let src_tail = src.subrange(src.len() - tail_len(src.len() as int), src.len() as int);
            let cut = dst.len() - tail_len(src.len() as int) / 2 * 3;
            wide.subrange(0, cut) + converted(format, src_tail) == converted(format, src)
        }),
{
    let n = src.len() as int;
    let d = dst.len() as int;
    let groups = n / 16;
    let rest = tail_len(n);
    let cut = d - rest / 2 * 3;
    assert(rest == n % 16);
    assert(cut == 24 * groups);
    let wide = fanned_out(format, src, 16, dst, 24);
    let src_tail = src.subrange(n - rest, n);
    let done = wide.subrange(0, cut) + converted(format, src_tail);
    let want = converted(format, src);
    // The tail of the source converts to the tail of the conversion.
    lemma_converted_stretch(format, src, 4 * groups, n);
    assert(converted(format, src_tail) == want.subrange(cut, d));
    assert(done.len() == want.len());
    assert forall|j: int| 0 <= j < done.len() implies done[j] == want[j] by {
        if j < cut {
            lemma_wide_fanned_out_byte(format, src, dst, j);
        }
    }
    assert(done =~= want);
}

/// What the wide kernel makes of a 16-byte group is what the narrow kernel
/// makes of its four pairs, one after the other.
pub proof fn lemma_wide_group_is_four_narrow(format: Format, group: Seq<u8>)
    requires
        group.len() == 16,
    ensures
        converted(format, group) == converted(format, group.subrange(0, 4)) + converted(
            format,
            group.subrange(4, 8),
        ) + converted(format, group.subrange(8, 12)) + converted(format, group.subrange(12, 16)),
{
    let whole = converted(format, group);
    lemma_converted_stretch(format, group, 0, 4);
    lemma_converted_stretch(format, group, 1, 8);
    lemma_converted_stretch(format, group, 2, 12);
    lemma_converted_stretch(format, group, 3, 16);
    assert(whole =~= whole.subrange(0, 6) + whole.subrange(6, 12) + whole.subrange(12, 18)
        + whole.subrange(18, 24));
}

/// Wide and narrow agree: on a buffer of whole 16-byte groups, a fan-out over
/// 16-byte groups and a fan-out over 4-byte groups leave the same bytes,
/// which are the conversion of the buffer.
pub proof fn lemma_wide_equals_narrow(format: Format, src: Seq<u8>, dst: Seq<u8>)
    requires
        src.len() % 16 == 0,
        ratio_holds(src.len() as int, dst.len() as int),
    ensures
        fanned_out(format, src, 16, dst, 24) == fanned_out(format, src, 4, dst, 6),
        fanned_out(format, src, 16, dst, 24) == converted(format, src),
{
    lemma_narrow_fan_out(format, src, dst);
    let wide = fanned_out(format, src, 16, dst, 24);
    let whole = converted(format, src);
    assert(wide.len() == whole.len());
    assert forall|j: int| 0 <= j < wide.len() implies wide[j] == whole[j] by {
        lemma_wide_fanned_out_byte(format, src, dst, j);
    }
    assert(wide =~= whole);
}

/// However the work is cut, the bytes are the same: the wide path with its
/// narrow tail leaves what the narrow path leaves, on every buffer of whole
/// pairs.
pub proof fn lemma_paths_agree(format: Format, src: Seq<u8>, dst: Seq<u8>)
    requires
        whole_pairs(src.len() as int),
        ratio_holds(src.len() as int, dst.len() as int),
    ensures
        ({
            let wide = fanned_out(format, src, 16, dst, 24);
            let src_tail = src.subrange(src.len() - tail_len(src.len() as int), src.len() as int);
            let cut = dst.len() - tail_len(src.len() as int) / 2 * 3;
            let dst_tail = wide.subrange(cut, dst.len() as int);
            wide.subrange(0, cut) + fanned_out(format, src_tail, 4, dst_tail, 6) == fanned_out(
                format,
                src,
                4,
                dst,
                6,
            )
        }),
{
    let n = src.len() as int;
    let wide = fanned_out(format, src, 16, dst, 24);
    let src_tail = src.subrange(n - tail_len(n), n);
    let cut = dst.len() - tail_len(n) / 2 * 3;
    let dst_tail = wide.subrange(cut, dst.len() as int);
    lemma_wide_fan_out_then_tail(format, src, dst);
    lemma_narrow_fan_out(format, src, dst);
    lemma_narrow_fan_out(format, src_tail, dst_tail);
}

/// What the destination held before has no part in the result: two fan-outs
/// of one source into destinations of different contents leave the same
/// bytes, whichever group size cuts the work.
pub proof fn lemma_destination_has_no_part(
    format: Format,
    src: Seq<u8>,
    first: Seq<u8>,
    second: Seq<u8>,
)
    requires
        whole_pairs(src.len() as int),
        ratio_holds(src.len() as int, first.len() as int),
        ratio_holds(src.len() as int, second.len() as int),
    ensures
        fanned_out(format, src, 4, first, 6) == fanned_out(format, src, 4, second, 6),
        ({
            let cut = first.len() - tail_len(src.len() as int) / 2 * 3;
            fanned_out(format, src, 16, first, 24).subrange(0, cut) == fanned_out(
                format,
                src,
                16,
                second,
                24,
            ).subrange(0, cut)
        }),
{
    lemma_narrow_fan_out(format, src, first);
    lemma_narrow_fan_out(format, src, second);
    let cut = first.len() - tail_len(src.len() as int) / 2 * 3;
    let a = fanned_out(format, src, 16, first, 24).subrange(0, cut);
    let b = fanned_out(format, src, 16, second, 24).subrange(0, cut);
    assert(tail_len(src.len() as int) == src.len() % 16);
    assert(cut == src.len() / 16 * 24);
    assert forall|j: int| 0 <= j < cut implies a[j] == b[j] by {
        lemma_wide_fanned_out_byte(format, src, first, j);
        lemma_wide_fanned_out_byte(format, src, second, j);
    }
    assert(a =~= b);
}

/// The lengths fit exactly when the source holds whole pixels and the
/// destination is three halves of it.
pub proof fn lemma_ratio_is_three_halves(source_len: int, destination_len: int)
    requires
        0 <= source_len,
        0 <= destination_len,
    ensures
        ratio_holds(source_len, destination_len) <==> (source_len % 2 == 0 && destination_len
            == source_len * 3 / 2),
{
}

/// The conversion of a source of whole pairs is three halves of its length,
/// and no other length of destination fits that source.
pub proof fn lemma_converted_fits(format: Format, src: Seq<u8>, destination_len: int)
    requires
        whole_pairs(src.len() as int),
    ensures
        converted(format, src).len() == src.len() * 3 / 2,
        ratio_holds(src.len() as int, destination_len) <==> destination_len == converted(
            format,
            src,
        ).len(),
{
}

/// A source of `k` whole 16-byte groups and one more pair: the first `24 * k`
/// destination bytes are the wide fan-out of the first `16 * k` source bytes,
/// the last six are the narrow conversion of the last four, and together
/// they are the whole destination.
pub proof fn lemma_wide_groups_then_one_pair(format: Format, src: Seq<u8>, dst: Seq<u8>, k: int)
    requires
        0 <= k,
        src.len() == 16 * k + 4,
        ratio_holds(src.len() as int, dst.len() as int),
    ensures
        dst.len() == 24 * k + 6,
        converted(format, src) == fanned_out(
            format,
            src.subrange(0, 16 * k),
            16,
            dst.subrange(0, 24 * k),
            24,
        ) + converted(format, src.subrange(16 * k, 16 * k + 4)),
{
    let head = src.subrange(0, 16 * k);
    let whole = converted(format, src);
    lemma_wide_equals_narrow(format, head, dst.subrange(0, 24 * k));
    lemma_converted_stretch(format, src, 0, 16 * k);
    lemma_converted_stretch(format, src, 4 * k, 16 * k + 4);
    assert(whole.len() == 24 * k + 6);
    assert(whole =~= whole.subrange(0, 24 * k) + whole.subrange(24 * k, 24 * k + 6));
}

/// The two formats yield the same channel values in reversed places: what
/// `R G B` has at offset `c` of a triple, `B G R` has at offset `2 - c`.
pub proof fn lemma_channel_order_reversed(y0: u8, u: u8, y1: u8, v: u8)
    ensures
        ({
            let rgb = converted(Format::Yuyv422ToRgb24, seq![y0, u, y1, v]);
            let bgr = converted(Format::Uyvy422ToBgr24, seq![u, y0, v, y1]);
            &&& rgb.len() == 6
            &&& bgr.len() == 6
            &&& forall|p: int, c: int|
                0 <= p < 2 && 0 <= c < 3 ==> #[trigger] rgb[3 * p + c] == bgr[3 * p + 2 - c]
        }),
{
    let rgb = converted(Format::Yuyv422ToRgb24, seq![y0, u, y1, v]);
    let bgr = converted(Format::Uyvy422ToBgr24, seq![u, y0, v, y1]);
    assert forall|p: int, c: int| 0 <= p < 2 && 0 <= c < 3 implies #[trigger] rgb[3 * p + c]
        == bgr[3 * p + 2 - c] by {
        assert((3 * p + c) / 3 == p && (3 * p + c) % 3 == c);
        assert((3 * p + 2 - c) / 3 == p && (3 * p + 2 - c) % 3 == 2 - c);
    }
}

/// An empty source and an empty destination fit, and the conversion of the
/// empty source is empty: the call is admitted and writes nothing.
pub proof fn lemma_empty_is_no_op(format: Format)
    ensures
        whole_pairs(0),
        ratio_holds(0, 0),
        converted(format, Seq::<u8>::empty()) == Seq::<u8>::empty(),
        fanned_out(format, Seq::<u8>::empty(), 4, Seq::<u8>::empty(), 6) == Seq::<u8>::empty(),
        fanned_out(format, Seq::<u8>::empty(), 16, Seq::<u8>::empty(), 24) == Seq::<u8>::empty(),
{
    assert(converted(format, Seq::<u8>::empty()) =~= Seq::<u8>::empty());
    assert(fanned_out(format, Seq::<u8>::empty(), 4, Seq::<u8>::empty(), 6)
        =~= Seq::<u8>::empty());
    assert(fanned_out(format, Seq::<u8>::empty(), 16, Seq::<u8>::empty(), 24)
        =~= Seq::<u8>::empty());
}

/// Pixel `p` of an `R G B` conversion is the colour matrix applied to the
/// pixel's luma and to the chroma of its pair.
pub proof fn lemma_rgb_pixel(src: Seq<u8>, p: int)
    requires
        0 <= p < src.len() / 4 * 2,
    ensures
        3 * p + 3 <= converted_len(src.len() as int),
        converted(Format::Yuyv422ToRgb24, src).subrange(3 * p, 3 * p + 3) == rgb_of(
            src[2 * p],
            src[4 * (p / 2) + 1],
            src[4 * (p / 2) + 3],
        ),
{
    let triple = converted(Format::Yuyv422ToRgb24, src).subrange(3 * p, 3 * p + 3);
    let sample = rgb_of(src[2 * p], src[4 * (p / 2) + 1], src[4 * (p / 2) + 3]);
    assert(2 * p == 4 * (p / 2) + 2 * (p % 2));
    assert forall|c: int| 0 <= c < 3 implies triple[c] == sample[c] by {
        assert((3 * p + c) / 3 == p && (3 * p + c) % 3 == c);
    }
    assert(triple =~= sample);
}

/// Pixel `p` of a `B G R` conversion is the colour matrix applied to the
/// pixel's luma and to the chroma of its pair, with the triple reversed.
pub proof fn lemma_bgr_pixel(src: Seq<u8>, p: int)
    requires
        0 <= p < src.len() / 4 * 2,
    ensures
        3 * p + 3 <= converted_len(src.len() as int),
        converted(Format::Uyvy422ToBgr24, src).subrange(3 * p, 3 * p + 3) == rgb_of(
            src[2 * p + 1],
            src[4 * (p / 2)],
            src[4 * (p / 2) + 2],
        ).reverse(),
{
    let triple = converted(Format::Uyvy422ToBgr24, src).subrange(3 * p, 3 * p + 3);
    let sample = rgb_of(src[2 * p + 1], src[4 * (p / 2)], src[4 * (p / 2) + 2]);
    assert(2 * p == 4 * (p / 2) + 2 * (p % 2));
    assert forall|c: int| 0 <= c < 3 implies triple[c] == sample.reverse()[c] by {
        assert((3 * p + c) / 3 == p && (3 * p + c) % 3 == c);
    }
    assert(triple =~= sample.reverse());
}

} // verus!
