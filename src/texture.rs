//! How an 8-bit RGBA image is laid out for upload into a texture, and which colour
//! encoding the texture gets.
//!
//! Diffuse textures are authored in sRGB and are sampled with sRGB decoding; normal maps
//! hold directions, not colours, and are sampled linearly.
use vstd::prelude::*;

verus! {

/// The bytes of one RGBA8 texel.
pub const BYTES_PER_TEXEL: u32 = 4;

#[derive(Clone, Copy, Debug, PartialEq, Eq, Structural)]
pub enum TextureEncoding {
    /// 8-bit unsigned normalized RGBA, decoded from sRGB when sampled.
    Srgb,
    /// 8-bit unsigned normalized RGBA, sampled as stored.
    Linear,
}

#[derive(Clone, Copy, Debug, PartialEq, Eq, Structural)]
pub struct UploadLayout {
    pub encoding: TextureEncoding,
    pub bytes_per_row: u32,
    pub rows_per_image: u32,
}

pub open spec fn encoding_for(is_normal_map: bool) -> TextureEncoding {
    if is_normal_map {
        TextureEncoding::Linear
    } else {
        TextureEncoding::Srgb
    }
}

/// The layout of a `width` by `height` RGBA8 image: tightly packed rows of four bytes
/// per texel, one row per line of the image. None when a row's size does not fit in
/// 32 bits.
pub fn image_upload_layout(width: u32, height: u32, is_normal_map: bool) -> (r: Option<UploadLayout>)
    ensures
        r.is_some() <==> BYTES_PER_TEXEL * width <= u32::MAX,
        match r {
            Some(l) => l == (UploadLayout {
                encoding: encoding_for(is_normal_map),
                bytes_per_row: (BYTES_PER_TEXEL * width) as u32,
                rows_per_image: height,
            }),
            None => true,
        },
{
    let encoding = if is_normal_map {
        TextureEncoding::Linear
    } else {
        TextureEncoding::Srgb
    };
    match width.checked_mul(BYTES_PER_TEXEL) {
        Some(bytes_per_row) => Some(UploadLayout { encoding, bytes_per_row, rows_per_image: height }),
        None => None,
    }
}

} // verus!
