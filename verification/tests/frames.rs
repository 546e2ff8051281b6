use rust_camera::decode::{
    can_decode, decode_frame, frame_from_decoded, RawFormat, RawImage,
};
use rust_camera::frame::{can_scale, scale, texture_image, RgbFrame, MAX_SCALED_SIDE};

fn frame(width: u32, height: u32, pixels: Vec<u8>) -> RgbFrame {
    RgbFrame::from_raw(width, height, pixels).unwrap()
}

fn raw(format: RawFormat, width: u32, height: u32, data: Vec<u8>) -> RawImage {
    RawImage { format, width, height, data }
}

fn complaint(format: nokhwa::utils::FrameFormat, width: u32, height: u32, data: &[u8]) -> String {
    let resolution = nokhwa::utils::Resolution::new(width, height);
    let error = nokhwa::Buffer::new(resolution, data, format)
        .decode_image::<nokhwa::pixel_format::RgbFormat>()
        .unwrap_err();
    format!("{error:#}")
}

#[test]
fn frame_takes_three_bytes_a_pixel() {
    assert!(RgbFrame::from_raw(2, 1, vec![0; 5]).is_none());
    let two = frame(2, 1, vec![1, 2, 3, 4, 5, 6]);
    assert_eq!((two.width(), two.height()), (2, 1));
    assert_eq!(two.as_raw(), &vec![1, 2, 3, 4, 5, 6]);
    assert_eq!(two.duplicate(), two);
    assert!(two.is_exact());
    assert!(RgbFrame::from_raw(0, 7, vec![]).is_some());
    assert!(RgbFrame::from_raw(u32::MAX, u32::MAX, vec![]).is_none());
}

#[test]
fn frame_keeps_bytes_to_spare() {
    for spare in 1..5 {
        let mut bytes = vec![1, 2, 3];
        bytes.resize(3 + spare, 9);
        let one = frame(1, 1, bytes.clone());
        assert!(!one.is_exact());
        assert_eq!(one.as_raw(), &bytes);
        assert_eq!(one.rgb_bytes(), &[1, 2, 3]);
        assert_eq!(one.duplicate(), one);
        assert_eq!(scale(&one, 1, 1), frame(1, 1, vec![1, 2, 3]));
        assert_eq!(scale(&one, 2, 1), frame(2, 1, vec![1, 2, 3, 1, 2, 3]));
    }
}

#[test]
fn scaling_to_the_same_size_copies() {
    let source = frame(2, 2, vec![1, 2, 3, 4, 5, 6, 7, 8, 9, 10, 11, 12]);
    assert_eq!(scale(&source, 2, 2), source);
}

#[test]
fn scaling_blends_neighbours() {
    let source = frame(2, 1, vec![0, 0, 0, 100, 200, 40]);
    let scaled = scale(&source, 1, 1);
    assert_eq!(scaled.as_raw(), &vec![50, 100, 20]);
    let flat = scale(&frame(3, 3, vec![77; 27]), 5, 2);
    assert_eq!((flat.width(), flat.height()), (5, 2));
    assert_eq!(flat.as_raw(), &vec![77; 30]);
}

#[test]
fn scaling_nothing_gives_black() {
    assert_eq!(scale(&frame(0, 3, vec![]), 2, 1).as_raw(), &vec![0; 6]);
}

#[test]
fn scaling_has_a_greatest_side() {
    assert!(can_scale(3840, 2160, 1280, 720));
    assert!(can_scale(MAX_SCALED_SIDE, 1, 1, 1));
    assert!(can_scale(MAX_SCALED_SIDE + 1, 1, 1, 1));
    assert!(can_scale(1, MAX_SCALED_SIDE + 1, 1, 1));
    assert!(!can_scale(1, 1, MAX_SCALED_SIDE + 1, 1));
    assert!(!can_scale(1, 1, 1, MAX_SCALED_SIDE + 1));
    assert!(can_scale(641, 1_100_000, 640, 1_098_283));
    assert!(can_scale(1, MAX_SCALED_SIDE + 1, 1, MAX_SCALED_SIDE + 1));
}

#[test]
fn long_sides_are_scaled_down() {
    let side = MAX_SCALED_SIDE + 1;
    let wide = scale(&frame(side, 1, vec![90; 3 * side as usize]), 3, 2);
    assert_eq!(wide.as_raw(), &vec![90; 18]);
    let tall = scale(&frame(1, side, vec![90; 3 * side as usize]), 2, 3);
    assert_eq!(tall.as_raw(), &vec![90; 18]);
}

#[test]
fn long_sides_are_scaled_to_long_sides() {
    for (side, new_side) in [
        (MAX_SCALED_SIDE, MAX_SCALED_SIDE - 1),
        (MAX_SCALED_SIDE - 1, MAX_SCALED_SIDE),
        (MAX_SCALED_SIDE + 2, MAX_SCALED_SIDE),
        (3, MAX_SCALED_SIDE),
    ] {
        let tall = scale(&frame(1, side, vec![90; 3 * side as usize]), 1, new_side);
        assert!(tall.as_raw().iter().all(|byte| *byte == 90));
    }
}

#[test]
fn texture_is_opaque_and_in_order() {
    let image = texture_image(&frame(2, 1, vec![1, 2, 3, 250, 251, 252]));
    assert_eq!(image.size, [2, 1]);
    assert_eq!(image.pixels[0].to_array(), [1, 2, 3, 255]);
    assert_eq!(image.pixels[1].to_array(), [250, 251, 252, 255]);
}

#[test]
fn gray_levels_are_tripled() {
    let image = raw(RawFormat::Gray, 2, 1, vec![7, 200]);
    assert!(can_decode(&image));
    let decoded = decode_frame(&image).unwrap();
    assert_eq!(decoded, frame(2, 1, vec![7, 7, 7, 200, 200, 200]));
}

#[test]
fn rgb_stays_and_bgr_is_reversed() {
    let data = vec![1, 2, 3, 4, 5, 6];
    let rgb = decode_frame(&raw(RawFormat::RawRgb, 1, 2, data.clone())).unwrap();
    assert_eq!(rgb, frame(1, 2, data.clone()));
    let bgr = decode_frame(&raw(RawFormat::RawBgr, 1, 2, data)).unwrap();
    assert_eq!(bgr, frame(1, 2, vec![3, 2, 1, 6, 5, 4]));
}

#[test]
fn yuyv_black_and_white() {
    let image = raw(RawFormat::Yuyv, 2, 1, vec![16, 128, 235, 128]);
    let decoded = decode_frame(&image).unwrap();
    assert_eq!(decoded, frame(2, 1, vec![0, 0, 0, 255, 255, 255]));
}

#[test]
fn nv12_black_and_white() {
    let image = raw(RawFormat::Nv12, 2, 2, vec![16, 235, 235, 16, 128, 128]);
    assert!(can_decode(&image));
    let decoded = decode_frame(&image).unwrap();
    assert_eq!(decoded, frame(2, 2, vec![0, 0, 0, 255, 255, 255, 255, 255, 255, 0, 0, 0]));
}

#[test]
fn data_that_do_not_fit_are_complained_about() {
    let short = decode_frame(&raw(RawFormat::RawRgb, 2, 2, vec![0; 11])).unwrap_err();
    assert_eq!(short, complaint(nokhwa::utils::FrameFormat::RAWRGB, 2, 2, &[0; 11]));
    let odd = decode_frame(&raw(RawFormat::Yuyv, 2, 1, vec![0; 7])).unwrap_err();
    assert_eq!(odd, complaint(nokhwa::utils::FrameFormat::YUYV, 2, 1, &[0; 7]));
    let planes = decode_frame(&raw(RawFormat::Nv12, 2, 2, vec![0; 7])).unwrap_err();
    assert_eq!(planes, complaint(nokhwa::utils::FrameFormat::NV12, 2, 2, &[0; 7]));
    let side = decode_frame(&raw(RawFormat::Nv12, 3, 2, vec![0; 9])).unwrap_err();
    assert_eq!(side, complaint(nokhwa::utils::FrameFormat::NV12, 3, 2, &[0; 9]));
    assert!(decode_frame(&raw(RawFormat::Gray, 2, 2, vec![0; 3])).is_err());
    assert!(decode_frame(&raw(RawFormat::RawBgr, 1, 1, vec![0; 2])).is_err());
}

#[test]
fn data_to_spare_are_kept() {
    let spare = |format, data| decode_frame(&raw(format, 1, 1, data)).unwrap();
    assert_eq!(spare(RawFormat::RawRgb, vec![1, 2, 3, 4]), frame(1, 1, vec![1, 2, 3, 4]));
    assert_eq!(spare(RawFormat::RawBgr, vec![1, 2, 3, 4]), frame(1, 1, vec![3, 2, 1, 0]));
    assert_eq!(spare(RawFormat::Gray, vec![7, 8]), frame(1, 1, vec![7, 7, 7, 8, 8, 8]));
    assert_eq!(
        spare(RawFormat::Yuyv, vec![235, 128, 16, 128]),
        frame(1, 1, vec![255, 255, 255, 0, 0, 0])
    );
}

#[test]
fn luma_and_chroma_follow_their_formula() {
    let channels = |y: i32, u: i32, v: i32| {
        let luma = 298 * (y - 16) + 128;
        let byte = |n: i32| n.div_euclid(256).clamp(0, 255) as u8;
        [
            byte(luma + 409 * (v - 128)),
            byte(luma - 100 * (u - 128) - 208 * (v - 128)),
            byte(luma + 516 * (u - 128)),
        ]
    };
    let mut data = Vec::new();
    let mut expected = Vec::new();
    for y in (0..=255).step_by(17) {
        for u in (0..=255).step_by(15) {
            for v in (0..=255).step_by(15) {
                let other = 255 - y;
                data.extend([y as u8, u as u8, other as u8, v as u8]);
                expected.extend(channels(y, u, v));
                expected.extend(channels(other, u, v));
            }
        }
    }
    let width = (expected.len() / 3) as u32;
    let decoded = decode_frame(&raw(RawFormat::Yuyv, width, 1, data)).unwrap();
    assert_eq!(decoded, frame(width, 1, expected));
}

#[test]
fn bi_planar_chroma_belongs_to_squares() {
    let (width, height) = (4usize, 4usize);
    let data: Vec<u8> = (0..24).map(|i| (i * 53 % 256) as u8).collect();
    let image = raw(RawFormat::Nv12, 4, 4, data.clone());
    let decoded = decode_frame(&image).unwrap();
    for row in 0..height {
        for column in 0..width {
            let chroma = 16 + row / 2 * width + 2 * (column / 2);
            let pair = vec![data[row * width + column], data[chroma], 0, data[chroma + 1]];
            let alone = decode_frame(&raw(RawFormat::Yuyv, 2, 1, pair)).unwrap();
            let at = 3 * (row * width + column);
            assert_eq!(decoded.as_raw()[at..at + 3], alone.as_raw()[..3]);
        }
    }
}

#[test]
fn complaints_are_in_the_words_of_the_decoder() {
    let said = |format, width, height, len| {
        decode_frame(&raw(format, width, height, vec![0; len])).unwrap_err()
    };
    assert_eq!(
        said(RawFormat::Yuyv, 2, 1, 7),
        "Could not process frame YUYV to RGB888: Assertion failure, the YUV stream isn't 4:2:2! (wrong number of bytes)"
    );
    assert_eq!(
        said(RawFormat::Yuyv, 4, 1, 4),
        "Could not process frame YUYV to F: Failed to create buffer"
    );
    assert_eq!(
        said(RawFormat::Nv12, 3, 2, 9),
        "Could not process frame NV12 to RGB: bad resolution"
    );
    assert_eq!(
        said(RawFormat::Nv12, 0, 1, 0),
        "Could not process frame NV12 to RGB: bad resolution"
    );
    assert_eq!(
        said(RawFormat::Nv12, 0, 2, 1),
        "Could not process frame NV12 to RGB: bad input buffer size"
    );
    assert_eq!(
        said(RawFormat::Nv12, 2, 2, 5),
        "Could not process frame NV12 to RGB: bad input buffer size"
    );
    assert_eq!(
        said(RawFormat::Gray, 2, 2, 3),
        "Could not process frame GRAY to F: Failed to create buffer"
    );
    assert_eq!(
        said(RawFormat::RawRgb, 1, 1, 2),
        "Could not process frame RAWRGB to F: Failed to create buffer"
    );
    assert_eq!(
        said(RawFormat::RawBgr, u32::MAX, 1, 2),
        "Could not process frame RAWBGR to F: Failed to create buffer"
    );
}

#[test]
fn planes_without_width_cannot_be_decoded() {
    assert!(!can_decode(&raw(RawFormat::Nv12, 0, 2, vec![])));
    assert!(!can_decode(&raw(RawFormat::Nv12, 65_536, 65_536, vec![])));
    assert!(can_decode(&raw(RawFormat::Gray, 0, 2, vec![])));
    assert!(can_decode(&raw(RawFormat::Gray, u32::MAX, 0, vec![])));
    assert!(can_decode(&raw(RawFormat::Nv12, 0, 1, vec![])));
    assert!(can_decode(&raw(RawFormat::Nv12, 0, 2, vec![0])));
    assert!(!can_decode(&raw(RawFormat::Nv12, u32::MAX, 0, vec![])));
}

#[test]
fn decoded_bytes_become_a_frame() {
    assert_eq!(frame_from_decoded(1, 1, Ok(vec![9, 8, 7])), Ok(frame(1, 1, vec![9, 8, 7])));
    assert_eq!(frame_from_decoded(1, 1, Ok(vec![9, 8, 7, 6])), Ok(frame(1, 1, vec![9, 8, 7, 6])));
    assert_eq!(frame_from_decoded(1, 1, Err("broken".to_owned())), Err("broken".to_owned()));
}
