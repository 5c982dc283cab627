use vstd::prelude::*;

verus! {

/// An image as 8-bit RGBA pixels, row by row, with its size in pixels.
pub struct IconImage {
    pub rgba: Vec<u8>,
    pub width: u32,
    pub height: u32,
}

/// What the `image` crate's ICO decoder makes of an icon file held in memory, converted
/// to 8-bit RGBA: the pixels, the width and the height; none when it reads no icon
/// from the bytes.
pub uninterp spec fn decoded_rgba(bytes: Seq<u8>) -> Option<(Seq<u8>, u32, u32)>;

/// Decodes an icon file held in memory as ICO (`image::load_from_memory_with_format`
/// with `ImageFormat::Ico`, which uses the built-in decoder and no registered format
/// hooks) and converts it to 8-bit RGBA (`DynamicImage::to_rgba8`, then
/// `ImageBuffer::dimensions` and `ImageBuffer::into_vec`). The result is stated to
/// depend on the bytes alone; what the decoder makes of them is not stated.
#[verifier::external_body]
fn decode_rgba(bytes: &[u8]) -> (r: Option<(Vec<u8>, u32, u32)>)
    ensures
        match r {
            Some((p, w, h)) => decoded_rgba(bytes@) == Some((p@, w, h)),
            None => decoded_rgba(bytes@) is None,
        },
{
    match image::load_from_memory_with_format(bytes, image::ImageFormat::Ico) {
        Ok(img) => {
            let rgba = img.to_rgba8();
            let (width, height) = rgba.dimensions();
            Some((rgba.into_vec(), width, height))
        },
        Err(_) => None,
    }
}

/// The window icon made from an icon (ICO) file held in memory: its pixels as 8-bit
/// RGBA with its width and height; none when the bytes hold no icon that can be read.
pub fn load_icon(bytes: &[u8]) -> (r: Option<IconImage>)
    ensures
        match r {
            Some(icon) => decoded_rgba(bytes@) == Some((icon.rgba@, icon.width, icon.height)),
            None => decoded_rgba(bytes@) is None,
        },
{
    match decode_rgba(bytes) {
        Some((rgba, width, height)) => Some(IconImage { rgba, width, height }),
        None => None,
    }
}

} // verus!
