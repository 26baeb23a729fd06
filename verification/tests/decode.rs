use screen_capture::decode::{check_crop_fits, decode_and_crop};
use screen_capture::error::CaptureError;

fn encode(width: u32, height: u32, color: png::ColorType, data: &[u8]) -> Vec<u8> {
    let mut file = Vec::new();
    {
        let mut encoder = png::Encoder::new(&mut file, width, height);
        encoder.set_color(color);
        encoder.set_depth(png::BitDepth::Eight);
        let mut writer = encoder.write_header().unwrap();
        writer.write_image_data(data).unwrap();
    }
    file
}

#[test]
fn decodes_and_crops() {
    let pixels: Vec<u8> = (1..=48).collect();
    let file = encode(4, 3, png::ColorType::Rgba, &pixels);
    assert_eq!(decode_and_crop(&file, 0, 0, 4, 3), Ok(pixels.clone()));
    assert_eq!(
        decode_and_crop(&file, 1, 1, 2, 2),
        Ok(vec![21, 22, 23, 24, 25, 26, 27, 28, 37, 38, 39, 40, 41, 42, 43, 44])
    );
}

#[test]
fn image_smaller_than_the_rectangle() {
    let pixels: Vec<u8> = (1..=16).collect();
    let file = encode(2, 2, png::ColorType::Rgba, &pixels);
    let out = decode_and_crop(&file, 0, 0, 2, 3).unwrap();
    let mut expected = pixels.clone();
    expected.extend([0u8; 8]);
    assert_eq!(out, expected);
    assert_eq!(decode_and_crop(&file, 10, 10, 2, 2), Ok(vec![0u8; 16]));
}

#[test]
fn three_bytes_to_a_pixel_are_read_as_they_lie() {
    let pixels: Vec<u8> = (1..=12).collect();
    let file = encode(2, 2, png::ColorType::Rgb, &pixels);
    // Offsets go by four bytes to a pixel and two pixels to a row.
    assert_eq!(
        decode_and_crop(&file, 0, 0, 2, 2),
        Ok(vec![1, 2, 3, 4, 5, 6, 7, 8, 9, 10, 11, 12, 0, 0, 0, 0])
    );
}

#[test]
fn malformed_file() {
    assert_eq!(decode_and_crop(&[], 0, 0, 1, 1), Err(CaptureError::DecodeError));
    assert_eq!(decode_and_crop(b"not a png", 0, 0, 1, 1), Err(CaptureError::DecodeError));
    let pixels: Vec<u8> = (1..=16).collect();
    let mut file = encode(2, 2, png::ColorType::Rgba, &pixels);
    file.truncate(file.len() / 2);
    assert_eq!(decode_and_crop(&file, 0, 0, 1, 1), Err(CaptureError::DecodeError));
}

#[test]
fn rectangle_too_large() {
    let pixels: Vec<u8> = (1..=16).collect();
    let file = encode(2, 2, png::ColorType::Rgba, &pixels);
    assert!(!check_crop_fits(u32::MAX, u32::MAX));
    assert_eq!(decode_and_crop(&file, 0, 0, u32::MAX, u32::MAX), Err(CaptureError::IoError));
    assert!(check_crop_fits(1920, 1080));
    assert!(check_crop_fits(0, u32::MAX));
    // A malformed file is reported first.
    assert_eq!(decode_and_crop(&[], 0, 0, u32::MAX, u32::MAX), Err(CaptureError::DecodeError));
}
