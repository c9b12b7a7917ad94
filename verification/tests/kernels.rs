use yuv422::fanout::convert_group;
use yuv422::format::Format;
use yuv422::kernel::{narrow_kernel, wide_kernel};
use yuv422::uvy422_to_bgr24::{uyvy422_to_bgr24_chunk16_single, uyvy422_to_bgr24_chunk4_single};
use yuv422::yuv422_to_rgb24::{yuyv422_to_rgb24_chunk16_single, yuyv422_to_rgb24_chunk4_single};
use yuv422::{yuv_to_rgb_chunk16, yuv_to_rgb_simd};

const YUYV_GROUP: [u8; 16] = [
    100, 50, 200, 200, 0, 128, 255, 128, 128, 255, 16, 0, 235, 16, 77, 240,
];

fn uyvy_of(yuyv: [u8; 16]) -> [u8; 16] {
    let mut out = [0u8; 16];
    for pair in 0..4 {
        out[4 * pair] = yuyv[4 * pair + 1];
        out[4 * pair + 1] = yuyv[4 * pair];
        out[4 * pair + 2] = yuyv[4 * pair + 3];
        out[4 * pair + 3] = yuyv[4 * pair + 2];
    }
    out
}

#[test]
fn narrow_rgb_on_one_pair() {
    // Pixel 0: R = 213.3856, G = 80.906344, B = -44.7368.
    // Pixel 1: R = 313.3856, G = 180.906344, B = 55.2632.
    let mut out = [7u8; 6];
    yuyv422_to_rgb24_chunk4_single([100, 50, 200, 200], &mut out);
    assert_eq!(out, [213, 81, 0, 255, 181, 55]);
}

#[test]
fn narrow_bgr_on_one_pair() {
    let mut out = [7u8; 6];
    uyvy422_to_bgr24_chunk4_single([50, 100, 200, 200], &mut out);
    assert_eq!(out, [0, 81, 213, 55, 181, 255]);
}

#[test]
fn narrow_kernel_shares_the_chroma_pair() {
    let mut out = [0u8; 6];
    yuyv422_to_rgb24_chunk4_single([10, 90, 250, 170], &mut out);
    assert_eq!(out[0..3], yuv_to_rgb_simd(10, 90, 170));
    assert_eq!(out[3..6], yuv_to_rgb_simd(250, 90, 170));
}

#[test]
fn wide_rgb_on_one_group() {
    let mut out = [7u8; 24];
    yuyv422_to_rgb24_chunk16_single(YUYV_GROUP, &mut out);
    let want: [u8; 24] = [
        213, 81, 0, 255, 181, 55, // (100, 50, 200), (200, 50, 200)
        0, 0, 0, 255, 255, 255, // black, white
        0, 164, 255, 0, 52, 252, // (128, 255, 0), (16, 255, 0)
        255, 204, 27, 253, 46, 0, // (235, 16, 240), (77, 16, 240)
    ];
    assert_eq!(out, want);
}

#[test]
fn wide_bgr_on_one_group() {
    let mut out = [7u8; 24];
    uyvy422_to_bgr24_chunk16_single(uyvy_of(YUYV_GROUP), &mut out);
    let want: [u8; 24] = [
        0, 81, 213, 55, 181, 255, 0, 0, 0, 255, 255, 255, 255, 164, 0, 252, 52, 0, 27, 204, 255,
        0, 46, 253,
    ];
    assert_eq!(out, want);
}

#[test]
fn wide_kernel_equals_four_narrow_kernels() {
    for format in [Format::Yuyv422ToRgb24, Format::Uyvy422ToBgr24] {
        let mut wide = [0u8; 24];
        wide_kernel(format, &YUYV_GROUP, &mut wide);
        let mut narrow = [0u8; 24];
        for pair in 0..4 {
            narrow_kernel(
                format,
                &YUYV_GROUP[4 * pair..4 * pair + 4],
                &mut narrow[6 * pair..6 * pair + 6],
            );
        }
        assert_eq!(wide, narrow);
    }
}

#[test]
fn both_wide_rgb_entry_points_agree() {
    let mut a = [0u8; 24];
    let mut b = [1u8; 24];
    yuv_to_rgb_chunk16(YUYV_GROUP, &mut a);
    yuyv422_to_rgb24_chunk16_single(YUYV_GROUP, &mut b);
    assert_eq!(a, b);
}

#[test]
fn convert_group_picks_the_kernel_by_size() {
    let mut six = [0u8; 6];
    convert_group(Format::Yuyv422ToRgb24, &[100, 50, 200, 200], &mut six);
    assert_eq!(six, [213, 81, 0, 255, 181, 55]);
    let mut wide = [0u8; 24];
    convert_group(Format::Yuyv422ToRgb24, &YUYV_GROUP, &mut wide);
    let mut want = [0u8; 24];
    yuv_to_rgb_chunk16(YUYV_GROUP, &mut want);
    assert_eq!(wide, want);
}

#[test]
fn channel_order_is_reversed_between_rgb_and_bgr() {
    let (y0, u, y1, v) = (64u8, 200u8, 180u8, 90u8);
    let mut rgb = [0u8; 6];
    let mut bgr = [0u8; 6];
    yuyv422_to_rgb24_chunk4_single([y0, u, y1, v], &mut rgb);
    uyvy422_to_bgr24_chunk4_single([u, y0, v, y1], &mut bgr);
    for pixel in 0..2 {
        for c in 0..3 {
            assert_eq!(rgb[3 * pixel + c], bgr[3 * pixel + 2 - c]);
        }
    }
    assert_ne!(rgb[0], rgb[2]);
}

#[test]
fn lane_tables_name_the_bytes_of_each_lane() {
    let yuyv = Format::Yuyv422ToRgb24.lane_table();
    assert_eq!(yuyv.luma, [0, 2, 4, 6, 8, 10, 12, 14]);
    assert_eq!(yuyv.u, [1, 1, 5, 5, 9, 9, 13, 13]);
    assert_eq!(yuyv.v, [3, 3, 7, 7, 11, 11, 15, 15]);
    let uyvy = Format::Uyvy422ToBgr24.lane_table();
    assert_eq!(uyvy.luma, [1, 3, 5, 7, 9, 11, 13, 15]);
    assert_eq!(uyvy.u, [0, 0, 4, 4, 8, 8, 12, 12]);
    assert_eq!(uyvy.v, [2, 2, 6, 6, 10, 10, 14, 14]);
}

#[test]
fn offsets_of_each_format() {
    let yuyv = Format::Yuyv422ToRgb24;
    assert_eq!((yuyv.luma_at(0), yuyv.u_at(), yuyv.luma_at(1), yuyv.v_at()), (0, 1, 2, 3));
    assert_eq!((yuyv.red_at(), yuyv.green_at(), yuyv.blue_at()), (0, 1, 2));
    let uyvy = Format::Uyvy422ToBgr24;
    assert_eq!((uyvy.u_at(), uyvy.luma_at(0), uyvy.v_at(), uyvy.luma_at(1)), (0, 1, 2, 3));
    assert_eq!((uyvy.blue_at(), uyvy.green_at(), uyvy.red_at()), (0, 1, 2));
}
