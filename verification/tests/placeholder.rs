use frame_relay::placeholder::{Decoded, PlaceholderError, PlaceholderImage};
use std::io::Cursor;

fn png_of(picture: image::DynamicImage) -> Vec<u8> {
    let mut bytes = Vec::new();
    picture.write_to(&mut Cursor::new(&mut bytes), image::ImageFormat::Png).unwrap();
    bytes
}

#[test]
fn rgba8_of_the_right_size_is_taken() {
    let data: Vec<u8> = (0..24).collect();
    let image =
        PlaceholderImage::from_decoded(Decoded::Rgba8 { width: 3, height: 2, data: data.clone() })
            .unwrap();
    assert_eq!(image.width(), 3);
    assert_eq!(image.height(), 2);
    assert_eq!(image.data(), &data);
}

#[test]
fn empty_image_is_taken() {
    let image =
        PlaceholderImage::from_decoded(Decoded::Rgba8 { width: 0, height: 7, data: Vec::new() })
            .unwrap();
    assert_eq!((image.width(), image.height()), (0, 7));
    assert!(image.data().is_empty());
}

#[test]
fn short_and_long_pixel_data_are_refused() {
    let short = Decoded::Rgba8 { width: 3, height: 2, data: vec![0; 23] };
    assert_eq!(PlaceholderImage::from_decoded(short).err(), Some(PlaceholderError::SizeMismatch));
    let long = Decoded::Rgba8 { width: 3, height: 2, data: vec![0; 25] };
    assert_eq!(PlaceholderImage::from_decoded(long).err(), Some(PlaceholderError::SizeMismatch));
}

#[test]
fn huge_claimed_size_is_refused() {
    let decoded = Decoded::Rgba8 { width: u32::MAX, height: u32::MAX, data: vec![0; 4] };
    assert_eq!(
        PlaceholderImage::from_decoded(decoded).err(),
        Some(PlaceholderError::SizeMismatch)
    );
}

#[test]
fn other_outcomes_are_errors() {
    assert_eq!(
        PlaceholderImage::from_decoded(Decoded::OtherLayout).err(),
        Some(PlaceholderError::NotRgba8)
    );
    assert_eq!(
        PlaceholderImage::from_decoded(Decoded::Unreadable).err(),
        Some(PlaceholderError::Unreadable)
    );
}

#[test]
fn decode_reads_an_rgba_png() {
    let pixels: Vec<u8> = (0..4 * 5 * 3).map(|n| (n * 7 % 256) as u8).collect();
    let picture = image::RgbaImage::from_raw(5, 3, pixels.clone()).unwrap();
    let bytes = png_of(image::DynamicImage::ImageRgba8(picture));
    let image = PlaceholderImage::decode(&bytes).unwrap();
    assert_eq!(image.width(), 5);
    assert_eq!(image.height(), 3);
    assert_eq!(image.data(), &pixels);
    assert_ne!(image.data(), &bytes);
}

#[test]
fn decode_refuses_a_png_without_alpha() {
    let picture = image::RgbImage::from_raw(2, 2, vec![9; 12]).unwrap();
    let bytes = png_of(image::DynamicImage::ImageRgb8(picture));
    assert_eq!(PlaceholderImage::decode(&bytes).err(), Some(PlaceholderError::NotRgba8));
}

#[test]
fn decode_refuses_what_is_no_image() {
    assert_eq!(
        PlaceholderImage::decode(b"not an image").err(),
        Some(PlaceholderError::Unreadable)
    );
    assert_eq!(PlaceholderImage::decode(&[]).err(), Some(PlaceholderError::Unreadable));
}

#[test]
fn decode_refuses_a_truncated_png() {
    let picture = image::RgbaImage::from_raw(4, 4, vec![200; 64]).unwrap();
    let bytes = png_of(image::DynamicImage::ImageRgba8(picture));
    assert_eq!(
        PlaceholderImage::decode(&bytes[..bytes.len() / 2]).err(),
        Some(PlaceholderError::Unreadable)
    );
}
