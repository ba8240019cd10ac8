use std::io::Cursor;

use wgpu_kit::texture::{
    decode_picture, load_texture, texture_upload, upload_layout, Picture, TextureError,
    UploadLayout, BYTES_PER_TEXEL,
};

/// A 3 x 2 picture with a different colour in every texel.
fn sample_pixels() -> Vec<u8> {
    vec![
        255, 0, 0, 255, 0, 255, 0, 255, 0, 0, 255, 255, //
        10, 20, 30, 40, 50, 60, 70, 80, 90, 100, 110, 120,
    ]
}

fn encoded(format: image::ImageFormat) -> Vec<u8> {
    let picture = image::RgbaImage::from_raw(3, 2, sample_pixels()).unwrap();
    let mut bytes = Cursor::new(Vec::new());
    match format {
        image::ImageFormat::Jpeg => image::DynamicImage::ImageRgba8(picture)
            .to_rgb8()
            .write_to(&mut bytes, format)
            .unwrap(),
        _ => picture.write_to(&mut bytes, format).unwrap(),
    }
    bytes.into_inner()
}

#[test]
fn a_texel_has_four_bytes() {
    assert_eq!(BYTES_PER_TEXEL, 4);
}

#[test]
fn decoding_a_png_gives_its_pixels_back() {
    let picture = decode_picture(&encoded(image::ImageFormat::Png)).unwrap();
    assert_eq!(picture, Picture { width: 3, height: 2, pixels: sample_pixels() });
}

#[test]
fn decoding_a_jpeg_gives_opaque_pixels_of_its_size() {
    let picture = decode_picture(&encoded(image::ImageFormat::Jpeg)).unwrap();
    assert_eq!((picture.width, picture.height), (3, 2));
    assert_eq!(picture.pixels.len(), 24);
    for texel in picture.pixels.chunks(4) {
        assert_eq!(texel[3], 255);
    }
}

#[test]
fn decoding_what_is_no_picture_fails() {
    assert!(matches!(decode_picture(b"not a picture"), Err(TextureError::Decode(_))));
    assert!(matches!(decode_picture(&[]), Err(TextureError::Decode(_))));
}

#[test]
fn decoding_a_cut_off_png_fails() {
    let whole = encoded(image::ImageFormat::Png);
    assert!(matches!(decode_picture(&whole[..whole.len() / 2]), Err(TextureError::Decode(_))));
}

#[test]
fn layout_of_packed_rows() {
    assert_eq!(
        upload_layout(512, 256),
        Some(UploadLayout { bytes_per_row: 2048, rows_per_image: 256 })
    );
    assert_eq!(upload_layout(0, 9), Some(UploadLayout { bytes_per_row: 0, rows_per_image: 9 }));
    assert_eq!(
        upload_layout(1_073_741_823, 1),
        Some(UploadLayout { bytes_per_row: 4_294_967_292, rows_per_image: 1 })
    );
}

#[test]
fn layout_of_a_row_too_wide() {
    assert_eq!(upload_layout(1_073_741_824, 1), None);
    assert_eq!(upload_layout(u32::MAX, 0), None);
}

#[test]
fn upload_keeps_the_picture() {
    let picture = Picture { width: 3, height: 2, pixels: sample_pixels() };
    let upload = texture_upload(picture.clone()).unwrap();
    assert_eq!(upload.picture, picture);
    assert_eq!(upload.layout, UploadLayout { bytes_per_row: 12, rows_per_image: 2 });
}

#[test]
fn upload_of_a_picture_too_wide_fails() {
    let picture = Picture { width: 1 << 30, height: 0, pixels: vec![] };
    assert!(matches!(texture_upload(picture), Err(TextureError::TooWide)));
}

#[test]
fn loading_a_texture_decodes_and_lays_out() {
    let upload = load_texture(&encoded(image::ImageFormat::Png)).unwrap();
    assert_eq!(upload.picture.pixels, sample_pixels());
    assert_eq!(upload.layout, UploadLayout { bytes_per_row: 12, rows_per_image: 2 });
    let rows = upload.layout.bytes_per_row as usize * upload.picture.height as usize;
    assert!(rows <= upload.picture.pixels.len());
}

#[test]
fn loading_a_texture_from_garbage_fails() {
    assert!(matches!(load_texture(&[0u8; 64]), Err(TextureError::Decode(_))));
}
