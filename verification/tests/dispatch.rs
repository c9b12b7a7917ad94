use yuv422::uvy422_to_bgr24::{uyvy422_to_bgr24_chunk16_many, uyvy422_to_bgr24_chunk4_many};
use yuv422::yuv422_to_rgb24::{
    yuyv422_to_rgb24_chunk16_many, yuyv422_to_rgb24_chunk16_single, yuyv422_to_rgb24_chunk4_many,
    yuyv422_to_rgb24_chunk4_single,
};
use yuv422::{yuv422_to_rgb24_chunk16, yuv422_to_rgb24_chunk4, yuv_to_rgb_simd};

/// A source of `len` bytes with no pattern that a group size could hide.
fn source(len: usize) -> Vec<u8> {
    let mut state: u32 = 0x2545_f491;
    let mut out = Vec::with_capacity(len);
    for _ in 0..len {
        state = state.wrapping_mul(1_664_525).wrapping_add(1_013_904_223);
        out.push((state >> 24) as u8);
    }
    out
}

/// The destination that fits a source of `len` bytes, filled with a marker.
fn destination(len: usize) -> Vec<u8> {
    vec![0xa5; len / 2 * 3]
}

/// Pixel by pixel: `R G B` triples of a `Y0 U Y1 V` source.
fn expected_rgb(src: &[u8]) -> Vec<u8> {
    let mut out = destination(src.len());
    for pair in 0..src.len() / 4 {
        let (y0, u, y1, v) = (src[4 * pair], src[4 * pair + 1], src[4 * pair + 2], src[4 * pair + 3]);
        out[6 * pair..6 * pair + 3].copy_from_slice(&yuv_to_rgb_simd(y0, u, v));
        out[6 * pair + 3..6 * pair + 6].copy_from_slice(&yuv_to_rgb_simd(y1, u, v));
    }
    out
}

/// Pixel by pixel: `B G R` triples of a `U Y0 V Y1` source.
fn expected_bgr(src: &[u8]) -> Vec<u8> {
    let mut out = destination(src.len());
    for pair in 0..src.len() / 4 {
        let (u, y0, v, y1) = (src[4 * pair], src[4 * pair + 1], src[4 * pair + 2], src[4 * pair + 3]);
        for (k, y) in [y0, y1].into_iter().enumerate() {
            let [r, g, b] = yuv_to_rgb_simd(y, u, v);
            out[6 * pair + 3 * k..6 * pair + 3 * k + 3].copy_from_slice(&[b, g, r]);
        }
    }
    out
}

#[test]
fn empty_buffers_are_a_no_op() {
    let src: [u8; 0] = [];
    let mut dst: [u8; 0] = [];
    yuv422_to_rgb24_chunk4(&src, &mut dst);
    yuv422_to_rgb24_chunk16(&src, &mut dst);
    yuyv422_to_rgb24_chunk4_many(&src, &mut dst);
    yuyv422_to_rgb24_chunk16_many(&src, &mut dst);
    uyvy422_to_bgr24_chunk4_many(&src, &mut dst);
    uyvy422_to_bgr24_chunk16_many(&src, &mut dst);
    assert_eq!(dst.len(), 0);
}

#[test]
fn narrow_rgb_two_pairs() {
    let src = [100, 50, 200, 200, 128, 255, 16, 0];
    let mut dst = [0u8; 12];
    yuyv422_to_rgb24_chunk4_many(&src, &mut dst);
    assert_eq!(dst, [213, 81, 0, 255, 181, 55, 0, 164, 255, 0, 52, 252]);
    let mut again = [9u8; 12];
    yuv422_to_rgb24_chunk4(&src, &mut again);
    assert_eq!(again, dst);
}

#[test]
fn narrow_bgr_two_pairs() {
    let src = [50, 100, 200, 200, 255, 128, 0, 16];
    let mut dst = [0u8; 12];
    uyvy422_to_bgr24_chunk4_many(&src, &mut dst);
    assert_eq!(dst, [0, 81, 213, 55, 181, 255, 255, 164, 0, 252, 52, 0]);
}

#[test]
fn every_length_matches_pixel_by_pixel() {
    for len in (0..=132).step_by(4) {
        let src = source(len);

        let mut dst = destination(len);
        yuv422_to_rgb24_chunk4(&src, &mut dst);
        assert_eq!(dst, expected_rgb(&src), "chunk4, {len} bytes");

        let mut dst = destination(len);
        yuv422_to_rgb24_chunk16(&src, &mut dst);
        assert_eq!(dst, expected_rgb(&src), "chunk16, {len} bytes");

        let mut dst = destination(len);
        yuyv422_to_rgb24_chunk4_many(&src, &mut dst);
        assert_eq!(dst, expected_rgb(&src), "yuyv chunk4_many, {len} bytes");

        let mut dst = destination(len);
        yuyv422_to_rgb24_chunk16_many(&src, &mut dst);
        assert_eq!(dst, expected_rgb(&src), "yuyv chunk16_many, {len} bytes");

        let mut dst = destination(len);
        uyvy422_to_bgr24_chunk4_many(&src, &mut dst);
        assert_eq!(dst, expected_bgr(&src), "uyvy chunk4_many, {len} bytes");

        let mut dst = destination(len);
        uyvy422_to_bgr24_chunk16_many(&src, &mut dst);
        assert_eq!(dst, expected_bgr(&src), "uyvy chunk16_many, {len} bytes");
    }
}

#[test]
fn wide_and_narrow_agree_on_whole_groups() {
    for groups in [1usize, 2, 3, 17, 64] {
        let src = source(16 * groups);
        let mut wide = vec![0u8; 24 * groups];
        let mut narrow = vec![255u8; 24 * groups];
        yuyv422_to_rgb24_chunk16_many(&src, &mut wide);
        yuyv422_to_rgb24_chunk4_many(&src, &mut narrow);
        assert_eq!(wide, narrow);
        uyvy422_to_bgr24_chunk16_many(&src, &mut wide);
        uyvy422_to_bgr24_chunk4_many(&src, &mut narrow);
        assert_eq!(wide, narrow);
    }
}

#[test]
fn tail_of_one_pair_follows_the_wide_groups() {
    for k in 0..5usize {
        let src = source(16 * k + 4);
        let mut dst = destination(src.len());
        assert_eq!(dst.len(), 24 * k + 6);
        yuyv422_to_rgb24_chunk16_many(&src, &mut dst);
        for group in 0..k {
            let mut want = [0u8; 24];
            let mut one = [0u8; 16];
            one.copy_from_slice(&src[16 * group..16 * group + 16]);
            yuyv422_to_rgb24_chunk16_single(one, &mut want);
            assert_eq!(dst[24 * group..24 * group + 24], want);
        }
        let mut want = [0u8; 6];
        let mut last = [0u8; 4];
        last.copy_from_slice(&src[16 * k..]);
        yuyv422_to_rgb24_chunk4_single(last, &mut want);
        assert_eq!(dst[24 * k..], want);
    }
}

#[test]
fn every_tail_length_is_converted() {
    // After the last whole 16-byte group there are 0, 4, 8 or 12 bytes.
    for len in [16usize, 20, 24, 28, 32, 36, 44, 60] {
        let src = source(len);
        let mut wide = destination(len);
        uyvy422_to_bgr24_chunk16_many(&src, &mut wide);
        assert_eq!(wide, expected_bgr(&src), "{len} bytes");
        let head = len / 16 * 16;
        let mut tail = destination(len - head);
        uyvy422_to_bgr24_chunk4_many(&src[head..], &mut tail);
        assert_eq!(wide[head / 2 * 3..], tail[..], "{len} bytes");
    }
}

#[test]
fn no_byte_keeps_what_the_destination_held() {
    // No conversion of this source yields 0xa5 in these places, so a byte
    // left unwritten would show.
    let src = [0u8, 128, 255, 128].repeat(9);
    let mut narrow = destination(src.len());
    let mut wide = destination(src.len());
    yuyv422_to_rgb24_chunk4_many(&src, &mut narrow);
    yuyv422_to_rgb24_chunk16_many(&src, &mut wide);
    assert_eq!(narrow, [0u8, 0, 0, 255, 255, 255].repeat(9));
    assert_eq!(wide, narrow);
}

#[test]
fn whole_pairs_overwrite_every_byte() {
    let src = source(40);
    let mut a = vec![0u8; 60];
    let mut b = vec![255u8; 60];
    yuv422_to_rgb24_chunk16(&src, &mut a);
    yuv422_to_rgb24_chunk16(&src, &mut b);
    assert_eq!(a, b);
    yuv422_to_rgb24_chunk4(&src, &mut b);
    assert_eq!(a, b);
}

#[test]
fn repeated_calls_give_the_same_bytes() {
    let src = source(16 * 1024 + 12);
    let mut first = destination(src.len());
    yuyv422_to_rgb24_chunk16_many(&src, &mut first);
    for _ in 0..8 {
        let mut next = destination(src.len());
        yuyv422_to_rgb24_chunk16_many(&src, &mut next);
        assert_eq!(next, first);
    }
    let mut onto_itself = first.clone();
    yuyv422_to_rgb24_chunk16_many(&src, &mut onto_itself);
    assert_eq!(onto_itself, first);
    assert_eq!(first, expected_rgb(&src));
}

#[test]
fn pool_size_does_not_change_the_bytes() {
    let src = source(16 * 4096 + 4);
    let want = expected_bgr(&src);
    for threads in [1usize, 2, 3, 8] {
        let pool = rayon::ThreadPoolBuilder::new().num_threads(threads).build().unwrap();
        let mut wide = destination(src.len());
        pool.install(|| uyvy422_to_bgr24_chunk16_many(&src, &mut wide));
        assert_eq!(wide, want, "wide, {threads} threads");
        let mut narrow = destination(src.len());
        pool.install(|| uyvy422_to_bgr24_chunk4_many(&src, &mut narrow));
        assert_eq!(narrow, want, "narrow, {threads} threads");
    }
}

#[test]
fn source_is_left_as_it_was() {
    let src = source(52);
    let copy = src.clone();
    let mut dst = destination(src.len());
    yuv422_to_rgb24_chunk16(&src, &mut dst);
    assert_eq!(src, copy);
}
