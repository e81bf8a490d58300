use rugif::frame::{
    clip_to_screen, crop_frame, decode_screenshot, encode_screenshot, extract_full_frame,
    rgba_bytes_to_pixels, rgba_to_argb, swap_red_blue_in_place, CaptureFrame, Rgba8,
};
use rugif::region::Region;

#[test]
fn extract_full_frame_converts_and_pads() {
    // Two BGRA pixels and one stray byte for a 2x2 frame (16 bytes expected).
    let raw = [1u8, 2, 3, 4, 5, 6, 7, 8, 9];
    let f = extract_full_frame(&raw, 2, 2);
    assert_eq!((f.width, f.height), (2, 2));
    assert_eq!(f.data, vec![3, 2, 1, 4, 7, 6, 5, 8, 0, 0, 0, 0, 0, 0, 0, 0]);
}

#[test]
fn extract_full_frame_ignores_extra_bytes() {
    let raw = [10u8, 20, 30, 40, 50, 60, 70, 80];
    let f = extract_full_frame(&raw, 1, 1);
    assert_eq!(f.data, vec![30, 20, 10, 40]);
}

#[test]
fn crop_frame_picks_region_rows() {
    // 3x3 screen, pixel (x, y) has bytes [b, g, r, a] = [10y+x, 1, 2, 3].
    let mut raw = Vec::new();
    for y in 0..3u8 {
        for x in 0..3u8 {
            raw.extend_from_slice(&[10 * y + x, 1, 2, 3]);
        }
    }
    let region = Region { x: 1, y: 1, width: 2, height: 2 };
    let f = crop_frame(&raw, 3, region);
    assert_eq!((f.width, f.height), (2, 2));
    assert_eq!(f.data, vec![2, 1, 11, 3, 2, 1, 12, 3, 2, 1, 21, 3, 2, 1, 22, 3]);
}

#[test]
fn crop_frame_zero_fills_rows_past_the_end() {
    let raw = vec![9u8, 8, 7, 6, 5, 4, 3, 2, 1, 1, 1, 1, 2, 2, 2, 2]; // 2x2 screen
    let region = Region { x: 0, y: 1, width: 2, height: 2 };
    let f = crop_frame(&raw, 2, region);
    assert_eq!(f.height, 2);
    assert_eq!(f.data, vec![1, 1, 1, 1, 2, 2, 2, 2, 0, 0, 0, 0, 0, 0, 0, 0]);
}

#[test]
fn crop_frame_of_an_empty_buffer_is_all_zeros() {
    let region = Region { x: 0, y: 0, width: 1, height: 1 };
    let f = crop_frame(&[], 1, region);
    assert_eq!((f.width, f.height), (1, 1));
    assert_eq!(f.data, vec![0, 0, 0, 0]);
}

#[test]
fn swap_in_place_leaves_trailing_bytes() {
    let mut data = vec![1u8, 2, 3, 4, 5, 6, 7, 8, 9, 10];
    swap_red_blue_in_place(&mut data);
    assert_eq!(data, vec![3, 2, 1, 4, 7, 6, 5, 8, 9, 10]);
}

#[test]
fn argb_moves_alpha_first() {
    assert_eq!(rgba_to_argb(&[1, 2, 3, 4, 5, 6, 7, 8]), vec![4, 1, 2, 3, 8, 5, 6, 7]);
    assert_eq!(rgba_to_argb(&[1, 2, 3]), Vec::<u8>::new());
}

#[test]
fn pixels_from_bytes() {
    let p = rgba_bytes_to_pixels(&[1, 2, 3, 4, 5, 6, 7, 8, 9]);
    assert_eq!(p, vec![Rgba8 { r: 1, g: 2, b: 3, a: 4 }, Rgba8 { r: 5, g: 6, b: 7, a: 8 }]);
}

#[test]
fn clip_region_to_screen() {
    let r = Region { x: 0, y: 0, width: 3000, height: 500 };
    assert_eq!(clip_to_screen(r, 1920, 1080), (1920, 500));
}

#[test]
fn screenshot_file_round_trip() {
    let frame = CaptureFrame {
        data: vec![9, 8, 7, 6],
        width: 1,
        height: 1,
        timestamp: std::time::Instant::now(),
    };
    let blob = encode_screenshot(&frame);
    assert_eq!(blob, vec![1, 0, 0, 0, 1, 0, 0, 0, 9, 8, 7, 6]);
    assert_eq!(decode_screenshot(&blob), Some((1, 1, vec![9, 8, 7, 6])));
    let wide = CaptureFrame { data: vec![1], width: 0x01020304, height: 7, timestamp: std::time::Instant::now() };
    assert_eq!(decode_screenshot(&encode_screenshot(&wide)), Some((0x01020304, 7, vec![1])));
}

#[test]
fn screenshot_file_needs_pixels() {
    assert_eq!(decode_screenshot(&[1, 0, 0, 0, 1, 0, 0, 0]), None);
    assert_eq!(decode_screenshot(&[]), None);
}
