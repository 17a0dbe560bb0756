use image::{DynamicImage, Rgb, RgbImage};
use wiborade::image_ops::{exif_thumbnail, rotated, thumbnail_bytes};

fn entry(out: &mut Vec<u8>, tag: u16, typ: u16, count: u32, value: u32) {
    out.extend_from_slice(&tag.to_le_bytes());
    out.extend_from_slice(&typ.to_le_bytes());
    out.extend_from_slice(&count.to_le_bytes());
    out.extend_from_slice(&value.to_le_bytes());
}

/// A little-endian TIFF block with a thumbnail directory pointing at
/// `len` bytes from `offset`, followed by `payload`.
fn tiff(offset: u32, len: u32, payload: &[u8]) -> Vec<u8> {
    let mut t = vec![b'I', b'I', 0x2a, 0x00, 8, 0, 0, 0];
    t.extend_from_slice(&1u16.to_le_bytes());
    entry(&mut t, 0x0100, 3, 1, 1);
    t.extend_from_slice(&26u32.to_le_bytes());
    t.extend_from_slice(&2u16.to_le_bytes());
    entry(&mut t, 0x0201, 4, 1, offset);
    entry(&mut t, 0x0202, 4, 1, len);
    t.extend_from_slice(&0u32.to_le_bytes());
    assert_eq!(t.len(), 56);
    t.extend_from_slice(payload);
    t
}

#[test]
fn thumbnail_bytes_are_cut_from_the_tiff_data() {
    let exif = exif::Reader::new().read_raw(tiff(56, 3, &[9, 8, 7, 6, 5])).unwrap();
    assert_eq!(thumbnail_bytes(&exif), Some(vec![9, 8, 7]));
}

#[test]
fn thumbnail_out_of_range_is_missing() {
    let exif = exif::Reader::new().read_raw(tiff(58, 10, &[9, 8, 7, 6, 5])).unwrap();
    assert_eq!(thumbnail_bytes(&exif), None);
    assert!(exif_thumbnail(&exif).is_none());
}

#[test]
fn thumbnail_that_does_not_decode_is_missing() {
    let exif = exif::Reader::new().read_raw(tiff(56, 5, &[9, 8, 7, 6, 5])).unwrap();
    assert_eq!(thumbnail_bytes(&exif), Some(vec![9, 8, 7, 6, 5]));
    assert!(exif_thumbnail(&exif).is_none());
}

#[test]
fn embedded_png_thumbnail_decodes() {
    let img = DynamicImage::ImageRgb8(RgbImage::from_pixel(2, 2, Rgb([1, 2, 3])));
    let mut png = Vec::new();
    img.write_to(&mut std::io::Cursor::new(&mut png), image::ImageFormat::Png).unwrap();
    let exif = exif::Reader::new().read_raw(tiff(56, png.len() as u32, &png)).unwrap();
    let thumb = exif_thumbnail(&exif).unwrap();
    assert_eq!((thumb.width(), thumb.height()), (2, 2));
}

#[test]
fn embedded_thumbnail_is_the_picture_encoded() {
    let img = sample();
    let mut png = Vec::new();
    img.write_to(&mut std::io::Cursor::new(&mut png), image::ImageFormat::Png).unwrap();
    let exif = exif::Reader::new().read_raw(tiff(56, png.len() as u32, &png)).unwrap();
    let thumb = exif_thumbnail(&exif).unwrap();
    assert_eq!((thumb.width(), thumb.height()), (3, 2));
    assert_eq!(thumb.to_rgb8(), img.to_rgb8());
    assert_ne!(thumb.to_rgb8(), img.rotate180().to_rgb8());
}

#[test]
fn embedded_bmp_thumbnail_decodes() {
    let img = sample();
    let mut bmp = Vec::new();
    img.write_to(&mut std::io::Cursor::new(&mut bmp), image::ImageFormat::Bmp).unwrap();
    let exif = exif::Reader::new().read_raw(tiff(56, bmp.len() as u32, &bmp)).unwrap();
    let thumb = exif_thumbnail(&exif).unwrap();
    assert_eq!(thumb.to_rgb8(), img.to_rgb8());
}

fn sample() -> DynamicImage {
    let mut img = RgbImage::new(3, 2);
    for y in 0..2u32 {
        for x in 0..3u32 {
            img.put_pixel(x, y, Rgb([x as u8, y as u8, 10 * x as u8 + y as u8]));
        }
    }
    DynamicImage::ImageRgb8(img)
}

#[test]
fn quarter_turn_moves_pixels_clockwise() {
    let img = sample();
    let out = rotated(&img, 90).to_rgb8();
    assert_eq!(out.dimensions(), (2, 3));
    let src = img.to_rgb8();
    for y in 0..3u32 {
        for x in 0..2u32 {
            assert_eq!(out.get_pixel(x, y), src.get_pixel(y, 2 - 1 - x));
        }
    }
}

#[test]
fn half_and_three_quarter_turns() {
    let img = sample();
    let src = img.to_rgb8();
    let half = rotated(&img, 180).to_rgb8();
    assert_eq!(half.dimensions(), (3, 2));
    assert_eq!(half.get_pixel(0, 0), src.get_pixel(2, 1));
    let three = rotated(&img, 270).to_rgb8();
    assert_eq!(three.dimensions(), (2, 3));
    for y in 0..3u32 {
        for x in 0..2u32 {
            assert_eq!(three.get_pixel(x, y), src.get_pixel(3 - 1 - y, x));
        }
    }
    assert_eq!(rotated(&img, 0).to_rgb8(), src);
    assert_eq!(rotated(&img, 45).to_rgb8(), src);
}

#[test]
fn four_quarter_turns_give_back_the_picture() {
    let img = sample();
    let mut cur = img.clone();
    for _ in 0..4 {
        cur = rotated(&cur, 90);
    }
    assert_eq!(cur.to_rgb8(), img.to_rgb8());
    assert_eq!(rotated(&rotated(&img, 90), 270).to_rgb8(), img.to_rgb8());
}
