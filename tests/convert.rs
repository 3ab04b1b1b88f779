use img_to_webm::convert::{chroma_layout_fits, convert_rgb_to_yuv420, convert_rgb_to_yuv420_pixel};

#[test]
fn yuv_pixel_1() {
    let yuv_pixel = convert_rgb_to_yuv420_pixel(255, 0, 0);
    assert_eq!(yuv_pixel.y, 77);
    assert_eq!(yuv_pixel.u, 85);
    assert_eq!(yuv_pixel.v, 255);
}

#[test]
fn yuv_pixel_2() {
    let yuv_pixel = convert_rgb_to_yuv420_pixel(0, 255, 0);
    assert_eq!(yuv_pixel.y, 149);
    assert_eq!(yuv_pixel.u, 44);
    assert_eq!(yuv_pixel.v, 22);
}

#[test]
fn yuv_pixel_3() {
    let yuv_pixel = convert_rgb_to_yuv420_pixel(0, 0, 255);
    assert_eq!(yuv_pixel.y, 29);
    assert_eq!(yuv_pixel.u, 255);
    assert_eq!(yuv_pixel.v, 107);
}

#[test]
fn yuv_pixel_4() {
    let yuv_pixel = convert_rgb_to_yuv420_pixel(255, 255, 255);
    assert_eq!(yuv_pixel.y, 255);
    assert_eq!(yuv_pixel.u, 128);
    assert_eq!(yuv_pixel.v, 128);
}

#[test]
fn rgb_to_yuv_1() {
    let rgb = vec![255, 255, 255, 0, 0, 0, 0, 0, 0, 0, 0, 0];
    let yuv = convert_rgb_to_yuv420(2, 2, &rgb, 3);
    assert_eq!(yuv, vec![255, 0, 0, 0, 128, 128]);
}

#[test]
fn rgb_to_yuv_2() {
    let rgb = vec![255, 255, 255, 255, 0, 0, 0, 255, 0, 0, 0, 255];
    let yuv = convert_rgb_to_yuv420(2, 2, &rgb, 3);
    assert_eq!(yuv, vec![255, 77, 149, 29, 85, 255]);
}

#[test]
fn rgb_to_yuv_3() {
    let rgb = vec![255, 0, 0, 255, 0, 0, 255, 0, 0, 255, 0, 0];
    let yuv = convert_rgb_to_yuv420(2, 2, &rgb, 3);
    assert_eq!(yuv, vec![77, 77, 77, 77, 85, 255]);
}

#[test]
fn rgb_to_yuv_4() {
    let rgb = vec![0, 255, 0, 255, 0, 0, 255, 0, 0, 0, 255, 0];
    let yuv = convert_rgb_to_yuv420(2, 2, &rgb, 3);
    assert_eq!(yuv, vec![149, 77, 77, 149, 85, 255]);
}

#[test]
fn rgb_to_yuv_5() {
    let rgb = vec![0, 0, 255, 255, 255, 255, 255, 255, 255, 0, 0, 255];
    let yuv = convert_rgb_to_yuv420(2, 2, &rgb, 3);
    assert_eq!(yuv, vec![29, 255, 255, 29, 128, 128]);
}

#[test]
fn rgb_to_yuv_6() {
    let rgb = vec![255, 255, 255, 255, 255, 255, 0, 0, 0, 255, 0, 0];
    let yuv = convert_rgb_to_yuv420(2, 2, &rgb, 3);
    assert_eq!(yuv, vec![255, 255, 0, 77, 128, 128]);
}

#[test]
fn rgb_to_yuv_7() {
    let rgb = vec![42, 42, 42, 42, 42, 0, 42, 42, 0, 42, 42, 42];
    let yuv = convert_rgb_to_yuv420(2, 2, &rgb, 3);
    assert_eq!(yuv, vec![42, 37, 37, 42, 107, 131]);
}

#[test]
fn rgb_to_yuv_8() {
    let rgb = vec![42, 42, 42, 0, 42, 0, 0, 42, 0, 0, 42, 0];
    let yuv = convert_rgb_to_yuv420(2, 2, &rgb, 3);
    assert_eq!(yuv, vec![42, 25, 25, 25, 114, 111]);
}

#[test]
fn rgb_to_yuv_4_bytes() {
    let rgb = vec![42, 42, 42, 0, 0, 42, 0, 0, 0, 42, 0, 0, 0, 42, 0, 0];
    let yuv = convert_rgb_to_yuv420(2, 2, &rgb, 4);
    assert_eq!(yuv, vec![42, 25, 25, 25, 114, 111]);
}

#[test]
fn pixel_black_is_neutral() {
    let p = convert_rgb_to_yuv420_pixel(0, 0, 0);
    assert_eq!((p.y, p.u, p.v), (0, 128, 128));
}

#[test]
fn pixel_channels_stay_in_byte_range() {
    for r in [0u8, 1, 127, 128, 254, 255] {
        for g in [0u8, 1, 127, 128, 254, 255] {
            for b in [0u8, 1, 127, 128, 254, 255] {
                let p = convert_rgb_to_yuv420_pixel(r, g, b);
                let y = (77 * r as i32 + 150 * g as i32 + 29 * b as i32 + 128) >> 8;
                let u = ((-43 * r as i32 - 84 * g as i32 + 127 * b as i32 + 128) >> 8) + 128;
                let v = ((127 * r as i32 - 106 * g as i32 - 21 * b as i32 + 128) >> 8) + 128;
                assert_eq!(p.y as i32, y.clamp(0, 255));
                assert_eq!(p.u as i32, u.clamp(0, 255));
                assert_eq!(p.v as i32, v.clamp(0, 255));
            }
        }
    }
}

#[test]
fn white_block_is_white() {
    let rgb = vec![255u8; 12];
    let yuv = convert_rgb_to_yuv420(2, 2, &rgb, 3);
    assert_eq!(yuv, vec![255, 255, 255, 255, 128, 128]);
}

#[test]
fn chroma_comes_from_top_right_pixel() {
    // Top row: black, red; bottom row: green, blue. Only red is sampled.
    let rgb = vec![0, 0, 0, 255, 0, 0, 0, 255, 0, 0, 0, 255];
    let yuv = convert_rgb_to_yuv420(2, 2, &rgb, 3);
    assert_eq!(yuv, vec![0, 77, 149, 29, 85, 255]);
}

#[test]
fn frame_length_even_sizes() {
    for (w, h) in [(2u32, 2u32), (4, 2), (2, 6), (8, 4), (16, 10)] {
        let rgb = vec![7u8; (w * h * 3) as usize];
        let yuv = convert_rgb_to_yuv420(w, h, &rgb, 3);
        assert_eq!(yuv.len(), (w * h * 3 / 2) as usize);
    }
}

#[test]
fn frame_length_odd_sizes() {
    for (w, h) in [(1u32, 1u32), (3, 3), (2, 3), (1, 5), (3, 1), (2, 1), (5, 5)] {
        assert!(chroma_layout_fits(w, h));
        let rgb = vec![200u8; (w * h * 3) as usize];
        let yuv = convert_rgb_to_yuv420(w, h, &rgb, 3);
        assert_eq!(yuv.len(), (w * h * 3 / 2) as usize);
    }
}

#[test]
fn empty_frame() {
    let yuv = convert_rgb_to_yuv420(0, 0, &[], 3);
    assert!(yuv.is_empty());
}

#[test]
fn odd_width_leaves_unwritten_chroma_zero() {
    // 3x3: two samples, from pixels 1 and 7; chroma planes of two bytes each.
    let mut rgb = vec![0u8; 27];
    rgb[3] = 255; // pixel 1 red
    rgb[7 * 3 + 2] = 255; // pixel 7 blue
    let yuv = convert_rgb_to_yuv420(3, 3, &rgb, 3);
    assert_eq!(yuv, vec![0, 77, 0, 0, 0, 0, 0, 29, 0, 85, 255, 255, 107]);
}

#[test]
fn overlapping_planes_keep_the_later_write() {
    // 2x3: samples from pixels 1 and 5; chroma size 1, so U and V overlap.
    let mut rgb = vec![0u8; 18];
    rgb[3] = 255; // pixel 1 red
    rgb[5 * 3 + 1] = 255; // pixel 5 green
    let yuv = convert_rgb_to_yuv420(2, 3, &rgb, 3);
    assert_eq!(yuv, vec![0, 77, 0, 0, 0, 149, 85, 44, 22]);
}

#[test]
fn layouts_whose_chroma_would_overflow() {
    assert!(!chroma_layout_fits(4, 3));
    assert!(!chroma_layout_fits(5, 1));
    assert!(chroma_layout_fits(4, 4));
}

#[test]
fn four_bytes_per_pixel_matches_three() {
    let rgb3 = vec![10u8, 20, 30, 40, 50, 60, 70, 80, 90, 100, 110, 120, 130, 140, 150, 160, 170, 180, 190, 200, 210, 220, 230, 240];
    let mut rgb4 = Vec::new();
    for p in rgb3.chunks(3) {
        rgb4.extend_from_slice(p);
        rgb4.push(99);
    }
    assert_eq!(convert_rgb_to_yuv420(4, 2, &rgb3, 3), convert_rgb_to_yuv420(4, 2, &rgb4, 4));
}
