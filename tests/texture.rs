use std::io::Cursor;
use voxel_render::texture::{decode_texture, texture_from_rgba, TextureError};

fn png_bytes(width: u32, height: u32, pixels: Vec<u8>) -> Vec<u8> {
    let img = image::RgbaImage::from_raw(width, height, pixels).unwrap();
    let mut out = Cursor::new(Vec::new());
    img.write_to(&mut out, image::ImageOutputFormat::Png).unwrap();
    out.into_inner()
}

#[test]
fn decodes_png_into_rgba_rows() {
    let pixels = vec![255, 0, 0, 255, 0, 255, 0, 128, 0, 0, 255, 0, 10, 20, 30, 40, 1, 2, 3, 4, 5, 6, 7, 8];
    let encoded = png_bytes(3, 2, pixels.clone());
    assert_ne!(encoded, pixels);
    let t = decode_texture(&encoded).unwrap();
    assert_eq!(t.width, 3);
    assert_eq!(t.height, 2);
    assert_eq!(t.bytes_per_row, 12);
    assert_eq!(t.pixels, pixels);
}

#[test]
fn decodes_gray_png_as_rgba() {
    let img = image::GrayImage::from_raw(2, 1, vec![7, 200]).unwrap();
    let mut out = Cursor::new(Vec::new());
    img.write_to(&mut out, image::ImageOutputFormat::Png).unwrap();
    let t = decode_texture(&out.into_inner()).unwrap();
    assert_eq!(t.pixels, vec![7, 7, 7, 255, 200, 200, 200, 255]);
    assert_eq!(t.bytes_per_row, 8);
}

#[test]
fn garbage_is_a_decode_error() {
    assert!(matches!(decode_texture(&[1, 2, 3, 4]), Err(TextureError::Decode(_))));
    assert!(matches!(decode_texture(&[]), Err(TextureError::Decode(_))));
}

#[test]
fn rgba_texture_checks_sizes() {
    let t = texture_from_rgba(2, 2, vec![0; 16]).unwrap();
    assert_eq!(t.bytes_per_row, 8);
    assert_eq!(t.pixels.len(), 16);
    assert!(matches!(
        texture_from_rgba(2, 2, vec![0; 15]),
        Err(TextureError::PixelCount { expected: 16, found: 15 })
    ));
    assert!(matches!(texture_from_rgba(1 << 30, 0, vec![]), Err(TextureError::TooWide { width: 1073741824 })));
    let edge = texture_from_rgba(u32::MAX / 4, 0, vec![]).unwrap();
    assert_eq!(edge.bytes_per_row, u32::MAX - 3);
    let empty = texture_from_rgba(0, 0, vec![]).unwrap();
    assert_eq!(empty.bytes_per_row, 0);
}
