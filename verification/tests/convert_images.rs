use std::io::Cursor;
use wallpaper_refresh::convert::{convert_to_bmp, image_dimensions, ConvertError};
use wallpaper_refresh::fetch::is_jpeg;

fn sample_jpeg(width: u32, height: u32) -> Vec<u8> {
    let mut img = image::RgbImage::new(width, height);
    for (x, y, pixel) in img.enumerate_pixels_mut() {
        *pixel = image::Rgb([(x * 40) as u8, (y * 40) as u8, 128]);
    }
    let mut cursor = Cursor::new(Vec::new());
    image::DynamicImage::ImageRgb8(img)
        .write_to(&mut cursor, image::ImageFormat::Jpeg)
        .unwrap();
    cursor.into_inner()
}

#[test]
fn sample_jpeg_passes_the_magic_gate() {
    let jpeg = sample_jpeg(2, 3);
    assert!(is_jpeg(&jpeg));
}

#[test]
fn dimensions_read_from_bytes() {
    let jpeg = sample_jpeg(5, 4);
    assert_eq!(image_dimensions(&jpeg), Some((5, 4)));
    assert_eq!(image_dimensions(&vec![0xFF, 0xD8, 0x00]), None);
    assert_eq!(image_dimensions(&vec![]), None);
}

#[test]
fn conversion_produces_a_bitmap_with_the_same_dimensions() {
    let jpeg = sample_jpeg(6, 2);
    let bmp = convert_to_bmp(&jpeg).unwrap();
    assert_ne!(bmp, jpeg);
    assert_eq!(&bmp[0..2], b"BM");
    assert_eq!(image_dimensions(&bmp), Some((6, 2)));
    let decoded = image::load_from_memory(&bmp).unwrap();
    assert_eq!(decoded.width(), 6);
    assert_eq!(decoded.height(), 2);
}

#[test]
fn corrupt_body_is_a_terminal_conversion_error() {
    let result = convert_to_bmp(&vec![0xFF, 0xD8, 0x01, 0x02, 0x03]);
    assert_eq!(result, Err(ConvertError::ConversionFailed));
    let bare_marker = convert_to_bmp(&vec![0xFF, 0xD8]);
    assert_eq!(bare_marker, Err(ConvertError::ConversionFailed));
}

#[test]
fn a_decodable_body_without_the_marker_does_not_convert() {
    let img = image::RgbImage::new(3, 3);
    let mut cursor = Cursor::new(Vec::new());
    image::DynamicImage::ImageRgb8(img)
        .write_to(&mut cursor, image::ImageFormat::Png)
        .unwrap();
    let png = cursor.into_inner();
    assert_eq!(image_dimensions(&png), Some((3, 3)));
    assert_eq!(convert_to_bmp(&png), Err(ConvertError::ConversionFailed));
}
