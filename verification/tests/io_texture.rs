use image::codecs::png::PngEncoder;
use image::{ExtendedColorType, ImageEncoder};
use three_d::io::{format_from_channels, Loaded, Saver};
use three_d::types::{Format, IOError};

fn encode_rgba_png(pixels: &[u8], width: u32, height: u32) -> Vec<u8> {
    let mut bytes = Vec::new();
    PngEncoder::new(&mut bytes)
        .write_image(pixels, width, height, ExtendedColorType::Rgba8)
        .unwrap();
    bytes
}

fn encode_luma_png(pixels: &[u8], width: u32, height: u32) -> Vec<u8> {
    let mut bytes = Vec::new();
    PngEncoder::new(&mut bytes)
        .write_image(pixels, width, height, ExtendedColorType::L8)
        .unwrap();
    bytes
}

#[test]
fn image_decodes_rgba_and_infers_format() {
    let mut loaded = Loaded::new();
    let pixels = [10u8, 20, 30, 200];
    let encoded = encode_rgba_png(&pixels, 1, 1);
    assert_ne!(encoded.as_slice(), &pixels[..]);
    loaded.insert("test.png".to_string(), encoded);

    let texture = loaded.image(&"test.png".to_string()).unwrap();
    assert_eq!(texture.data, pixels.to_vec());
    assert_eq!(texture.width, 1);
    assert_eq!(texture.height, 1);
    assert_eq!(texture.format, Format::RGBA8);
}

#[test]
fn image_decodes_single_channel() {
    let mut loaded = Loaded::new();
    let pixels = [17u8, 200];
    loaded.insert("gray.png".to_string(), encode_luma_png(&pixels, 2, 1));
    let texture = loaded.image(&"gray.png".to_string()).unwrap();
    assert_eq!(texture.data, pixels.to_vec());
    assert_eq!(texture.width, 2);
    assert_eq!(texture.height, 1);
    assert_eq!(texture.format, Format::R8);
}

#[test]
fn image_rejects_undecodable_bytes() {
    let mut loaded = Loaded::new();
    loaded.insert("bad.png".to_string(), vec![0, 1, 2, 3, 4]);
    let result = loaded.image(&"bad.png".to_string());
    assert!(matches!(result, Err(IOError::FailedToLoad { .. })));
}

#[test]
fn image_rejects_missing_resource() {
    let loaded = Loaded::new();
    let result = loaded.image(&"absent.png".to_string());
    assert!(matches!(result, Err(IOError::FailedToLoad { .. })));
}

#[test]
fn cube_image_concatenates_six_faces() {
    let mut loaded = Loaded::new();
    let faces: [(&str, [u8; 4]); 6] = [
        ("right.png", [1, 0, 0, 255]),
        ("left.png", [2, 0, 0, 255]),
        ("top.png", [3, 0, 0, 255]),
        ("bottom.png", [4, 0, 0, 255]),
        ("front.png", [5, 0, 0, 255]),
        ("back.png", [6, 0, 0, 255]),
    ];
    for (path, pixels) in &faces {
        loaded.insert(path.to_string(), encode_rgba_png(pixels, 1, 1));
    }
    let texture = loaded
        .cube_image(
            &"right.png".to_string(),
            &"left.png".to_string(),
            &"top.png".to_string(),
            &"bottom.png".to_string(),
            &"front.png".to_string(),
            &"back.png".to_string(),
        )
        .unwrap();
    let mut expected = Vec::new();
    for (_, pixels) in &faces {
        expected.extend_from_slice(pixels);
    }
    assert_eq!(texture.data, expected);
    assert_eq!(texture.width, 1);
    assert_eq!(texture.height, 1);
    assert_eq!(texture.format, Format::RGBA8);
}

#[test]
fn cube_image_fails_when_one_face_is_missing() {
    let mut loaded = Loaded::new();
    loaded.insert("only.png".to_string(), encode_rgba_png(&[1, 2, 3, 255], 1, 1));
    let result = loaded.cube_image(
        &"only.png".to_string(),
        &"only.png".to_string(),
        &"only.png".to_string(),
        &"only.png".to_string(),
        &"only.png".to_string(),
        &"missing.png".to_string(),
    );
    assert!(matches!(result, Err(IOError::FailedToLoad { .. })));
}

#[test]
fn format_inference_by_channel_count() {
    assert_eq!(format_from_channels(1), Some(Format::R8));
    assert_eq!(format_from_channels(3), Some(Format::RGB8));
    assert_eq!(format_from_channels(4), Some(Format::RGBA8));
    assert_eq!(format_from_channels(0), None);
    assert_eq!(format_from_channels(2), None);
    assert_eq!(format_from_channels(5), None);
}

#[test]
fn coordinate_conversion_flips_rows() {
    // three rows of one pixel with two channels each
    let pixels: [u8; 6] = [1, 2, 3, 4, 5, 6];
    let flipped = Saver::convert_from_opengl_coordinates(&pixels, 1, 3, 2);
    assert_eq!(flipped, vec![5, 6, 3, 4, 1, 2]);

    // two rows of two three-channel pixels
    let pixels: [u16; 12] = [0, 1, 2, 3, 4, 5, 6, 7, 8, 9, 10, 11];
    let flipped = Saver::convert_from_opengl_coordinates(&pixels, 2, 2, 3);
    assert_eq!(flipped, vec![6, 7, 8, 9, 10, 11, 0, 1, 2, 3, 4, 5]);
}

#[test]
fn coordinate_conversion_reads_only_the_image_rows() {
    // a buffer longer than the image: the flip reads the first two rows
    // of three values and ignores the tail
    let pixels: [u8; 9] = [1, 2, 3, 4, 5, 6, 90, 91, 92];
    let flipped = Saver::convert_from_opengl_coordinates(&pixels, 3, 2, 1);
    assert_eq!(flipped, vec![4, 5, 6, 1, 2, 3]);
}

#[test]
fn coordinate_conversion_single_row_is_identity() {
    let pixels: [u8; 8] = [9, 8, 7, 6, 5, 4, 3, 2];
    let flipped = Saver::convert_from_opengl_coordinates(&pixels, 2, 1, 4);
    assert_eq!(flipped, pixels.to_vec());
}
