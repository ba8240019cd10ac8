//! Pictures as plain RGBA8 pixels: decoding them from encoded files and
//! laying them out for upload into a texture.

use vstd::prelude::*;

verus! {

/// Bytes of one RGBA8 texel.
pub const BYTES_PER_TEXEL: u32 = 4;

/// Tightly packed RGBA8 pixels of a `width` x `height` picture, row by row
/// from the top, four bytes to a texel.
#[derive(Clone, Debug, PartialEq, Eq)]
pub struct Picture {
    pub width: u32,
    pub height: u32,
    pub pixels: Vec<u8>,
}

impl Picture {
    /// The pixels cover the picture: there are at least four bytes for each of
    /// its texels. This is the condition under which `image` accepts a raw
    /// buffer as an RGBA8 image of these dimensions.
    pub open spec fn wf(self) -> bool {
        4 * self.width * self.height <= self.pixels@.len()
    }
}

/// How the rows of a picture lie in the bytes handed to a texture write.
#[derive(Clone, Copy, Debug, PartialEq, Eq)]
pub struct UploadLayout {
    /// Bytes from the start of one row to the start of the next.
    pub bytes_per_row: u32,
    /// Rows from the start of one image to the start of the next.
    pub rows_per_image: u32,
}

/// A picture together with the layout to upload it with.
#[derive(Debug)]
pub struct TextureUpload {
    pub picture: Picture,
    pub layout: UploadLayout,
}

/// Why no texture upload could be prepared.
#[derive(Debug)]
pub enum TextureError {
    /// The decoder rejected the encoded bytes.
    Decode(image::ImageError),
    /// A row of the picture is longer than 32 bits can count in bytes.
    TooWide,
}

/// `image::DynamicImage`, a decoded picture in whatever pixel format its file
/// had. It is only carried from the decoder to `rgba8_of`.
#[verifier::external_type_specification]
#[verifier::external_body]
pub struct ExDynamicImage(image::DynamicImage);

/// `image::ImageError`, the decoder's reason for a refusal. It is only
/// carried to the caller, inside `TextureError::Decode`.
#[verifier::external_type_specification]
#[verifier::external_body]
pub struct ExImageError(image::ImageError);

/// `image::load_from_memory` guesses the format of an encoded picture and
/// decodes it. Nothing is claimed of what it returns: besides the bytes, the
/// result depends on the format detection and decoding hooks that have been
/// registered with `image` in the running process.
pub assume_specification[ image::load_from_memory ](buffer: &[u8]) -> (decoded: image::ImageResult<
    image::DynamicImage,
>)
;

/// The RGBA8 form of a decoded picture as width, height and raw pixels.
///
/// Calls `image::DynamicImage::to_rgba8` and takes the resulting buffer apart.
/// The contract claims only that the buffer covers the picture, which every
/// image buffer of `image` does: none is built without that check.
#[verifier::external_body]
fn rgba8_of(decoded: &image::DynamicImage) -> (parts: (u32, u32, Vec<u8>))
    ensures
        4 * parts.0 * parts.1 <= parts.2@.len(),
{
    let rgba = decoded.to_rgba8();
    let (width, height) = rgba.dimensions();
    (width, height, rgba.into_raw())
}

/// Decodes an encoded picture (PNG, JPEG, ...) into RGBA8 pixels.
///
/// Whether and to what the bytes decode is up to the decoder and the hooks
/// registered with it, so two calls on the same bytes need not agree. What
/// comes back on success is a well-formed picture; a refusal comes back as
/// `Decode`.
pub fn decode_picture(encoded: &[u8]) -> (picture: Result<Picture, TextureError>)
    ensures
        match picture {
            Ok(p) => p.wf(),
            Err(e) => e is Decode,
        },
{
    match image::load_from_memory(encoded) {
        Ok(decoded) => {
            let (width, height, pixels) = rgba8_of(&decoded);
            Ok(Picture { width, height, pixels })
        },
        Err(error) => Err(TextureError::Decode(error)),
    }
}

/// The layout of tightly packed RGBA8 rows of `width` texels, `height` rows
/// to the image, where a row's length fits in 32 bits.
pub open spec fn layout_of(width: u32, height: u32) -> Option<UploadLayout> {
    if 4 * width <= u32::MAX {
        Some(UploadLayout { bytes_per_row: (4 * width) as u32, rows_per_image: height })
    } else {
        None
    }
}

/// Layout of a `width` x `height` picture whose rows follow each other
/// without padding.
pub fn upload_layout(width: u32, height: u32) -> (layout: Option<UploadLayout>)
    ensures
        layout == layout_of(width, height),
{
    match width.checked_mul(BYTES_PER_TEXEL) {
        Some(bytes_per_row) => Some(UploadLayout { bytes_per_row, rows_per_image: height }),
        None => None,
    }
}

/// Prepares the upload of a decoded picture: the picture itself with the
/// layout of its rows, or `TooWide` where no such layout exists.
pub fn texture_upload(picture: Picture) -> (upload: Result<TextureUpload, TextureError>)
    ensures
        match upload {
            Ok(u) => u.picture == picture && Some(u.layout) == layout_of(
                picture.width,
                picture.height,
            ),
            Err(e) => e is TooWide && layout_of(picture.width, picture.height) is None,
        },
{
    match upload_layout(picture.width, picture.height) {
        Some(layout) => Ok(TextureUpload { picture, layout }),
        None => Err(TextureError::TooWide),
    }
}

/// Decodes an encoded picture and prepares its upload.
///
/// What the bytes decode to is the decoder's business; whatever picture it
/// yields is handed to `texture_upload`.
pub fn load_texture(encoded: &[u8]) -> (upload: Result<TextureUpload, TextureError>)
    ensures
        upload matches Ok(u) ==> u.picture.wf() && Some(u.layout) == layout_of(
            u.picture.width,
            u.picture.height,
        ),
{
    match decode_picture(encoded) {
        Ok(picture) => texture_upload(picture),
        Err(error) => Err(error),
    }
}

} // verus!
