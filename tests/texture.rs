use scene_core::texture::{image_upload_layout, TextureEncoding, UploadLayout};

#[test]
fn diffuse_textures_are_srgb() {
    assert_eq!(
        image_upload_layout(256, 128, false),
        Some(UploadLayout { encoding: TextureEncoding::Srgb, bytes_per_row: 1024, rows_per_image: 128 })
    );
}

#[test]
fn normal_maps_are_linear() {
    assert_eq!(
        image_upload_layout(3, 7, true),
        Some(UploadLayout { encoding: TextureEncoding::Linear, bytes_per_row: 12, rows_per_image: 7 })
    );
}

#[test]
fn row_size_must_fit_in_32_bits() {
    assert!(image_upload_layout(u32::MAX / 4, 1, false).is_some());
    assert_eq!(image_upload_layout(u32::MAX / 4 + 1, 1, false), None);
}
