//! Texture images: decoding encoded bytes into eight-bit RGBA pixels and
//! working out how the pixels are laid out for upload to the device.

use vstd::prelude::*;

verus! {

#[verifier::external_type_specification]
#[verifier::external_body]
pub struct ExImageError(image::ImageError);

/// Relies on `image::load_from_memory`, which guesses the format from the
/// bytes and decodes them, and on `DynamicImage::to_rgba8`, which converts the
/// result into a fresh buffer of four bytes per pixel, row after row. Some
/// decoders pick their arithmetic by CPU feature, so the pixels are not
/// claimed to be the same on every machine.
#[verifier::external_body]
fn decode_rgba8(bytes: &[u8]) -> (r: Result<(u32, u32, Vec<u8>), image::ImageError>)
    ensures
        r matches Ok((w, h, px)) ==> px@.len() == 4 * w * h,
{
    match image::load_from_memory(bytes) {
        Ok(img) => {
            let rgba = img.to_rgba8();
            let (w, h) = rgba.dimensions();
            Ok((w, h, rgba.into_raw()))
        },
        Err(e) => Err(e),
    }
}

/// Bytes per RGBA pixel, one for each channel.
pub const BYTES_PER_PIXEL: u32 = 4;

/// An RGBA image ready for upload: `pixels` holds `height` rows of
/// `bytes_per_row` bytes.
#[derive(Debug)]
pub struct TextureData {
    pub width: u32,
    pub height: u32,
    pub bytes_per_row: u32,
    pub pixels: Vec<u8>,
}

/// Why a texture could not be made.
#[derive(Debug)]
pub enum TextureError {
    /// The bytes are not an image that the decoder reads; the decoder's own
    /// error is kept.
    Decode(image::ImageError),
    /// A row of this many pixels has more bytes than a `u32` counts.
    TooWide { width: u32 },
    /// The pixel bytes are not four for each pixel.
    PixelCount { expected: u64, found: usize },
}

/// The outcome of making a texture from `width` by `height` pixels given as
/// RGBA bytes `px`.
pub open spec fn texture_outcome(
    r: Result<TextureData, TextureError>,
    width: u32,
    height: u32,
    px: Seq<u8>,
) -> bool {
    if 4 * width > u32::MAX {
        r matches Err(TextureError::TooWide { width: w }) && w == width
    } else if px.len() != 4 * width * height {
        r matches Err(TextureError::PixelCount { expected, found }) && expected == 4 * width
            * height && found == px.len()
    } else {
        r matches Ok(t) && t.width == width && t.height == height && t.bytes_per_row == 4 * width
            && t.pixels@ == px
    }
}

/// A texture of `width` by `height` pixels from their RGBA bytes, row after
/// row. Fails when a row's byte count does not fit in a `u32`, or when there
/// are not exactly four bytes per pixel.
pub fn texture_from_rgba(width: u32, height: u32, pixels: Vec<u8>) -> (r: Result<
    TextureData,
    TextureError,
>)
    ensures
        texture_outcome(r, width, height, pixels@),
{
    if width > u32::MAX / BYTES_PER_PIXEL {
        return Err(TextureError::TooWide { width });
    }
    let bytes_per_row: u32 = BYTES_PER_PIXEL * width;
    proof {
        assert(bytes_per_row * height <= u64::MAX) by (nonlinear_arith)
            requires
                bytes_per_row <= u32::MAX,
                height <= u32::MAX,
        ;
    }
    let expected: u64 = bytes_per_row as u64 * height as u64;
    if pixels.len() as u64 != expected {
        return Err(TextureError::PixelCount { expected, found: pixels.len() });
    }
    Ok(TextureData { width, height, bytes_per_row, pixels })
}

/// Decodes an encoded image into a texture. A decoding failure is handed on
/// with the decoder's error; a decoded image then becomes a texture as
/// `texture_from_rgba` says, which succeeds unless a row's byte count does
/// not fit in a `u32`.
pub fn decode_texture(bytes: &[u8]) -> (r: Result<TextureData, TextureError>)
    ensures
        match r {
            Ok(t) => t.bytes_per_row == 4 * t.width && t.pixels@.len() == 4 * t.width * t.height,
            Err(TextureError::TooWide { width }) => 4 * width > u32::MAX,
            Err(TextureError::PixelCount { .. }) => false,
            Err(TextureError::Decode(_)) => true,
        },
{
    match decode_rgba8(bytes) {
        Ok((width, height, pixels)) => texture_from_rgba(width, height, pixels),
        Err(e) => Err(TextureError::Decode(e)),
    }
}

} // verus!
