//! The image codec and resampler from the `image` crate, held behind
//! trusted declarations: decoding arbitrary image bytes into a raw RGBA
//! buffer, and Lanczos-windowed resizing of such a buffer.

use vstd::prelude::*;

verus! {

#[verifier::external_type_specification]
#[verifier::external_body]
pub struct ExImageError(image::ImageError);

/// What decoding a byte stream yields: `None` when the bytes are not a
/// valid image, otherwise the width, height and row-major RGBA pixel
/// buffer. Decoding reads nothing but the bytes.
pub uninterp spec fn decoded(bytes: Seq<u8>) -> Option<(int, int, Seq<u8>)>;

/// What Lanczos-windowed resampling of a `w` by `h` RGBA buffer to `tw` by
/// `th` yields. The resampler reads nothing but its arguments.
pub uninterp spec fn lanczos(w: int, h: int, pixels: Seq<u8>, tw: int, th: int) -> Seq<u8>;

/// Relies on `image::load_from_memory` to decode the byte stream, and on
/// `DynamicImage::width`, `height` and `to_rgba8` to read the result out as
/// plain values; the RGBA buffer holds four bytes per pixel, row-major.
#[verifier::external_body]
pub(crate) fn decode_image(bytes: &[u8]) -> (r: Result<(u32, u32, Vec<u8>), image::ImageError>)
    ensures
        match r {
            Ok((w, h, p)) => decoded(bytes@) == Some((w as int, h as int, p@)) && p@.len() == 4 * w
                * h,
            Err(_) => decoded(bytes@) is None,
        },
{
    match image::load_from_memory(bytes) {
        Ok(img) => {
            let w = img.width();
            let h = img.height();
            Ok((w, h, img.to_rgba8().into_raw()))
        },
        Err(e) => Err(e),
    }
}

/// Relies on `image::imageops::resize` with the `Lanczos3` filter: resamples
/// a `w` by `h` RGBA buffer to exactly `tw` by `th`, yielding four bytes per
/// target pixel, row-major. `RgbaImage::from_raw` wraps the input buffer and
/// accepts it exactly when it holds `4 * w * h` bytes.
#[verifier::external_body]
pub(crate) fn resize_lanczos(w: u32, h: u32, pixels: &Vec<u8>, tw: u32, th: u32) -> (r: Vec<u8>)
    requires
        w >= 1,
        h >= 1,
        tw >= 1,
        th >= 1,
        pixels@.len() == 4 * w * h,
    ensures
        r@.len() == 4 * tw * th,
        r@ == lanczos(w as int, h as int, pixels@, tw as int, th as int),
{
    let buf: image::RgbaImage = match image::RgbaImage::from_raw(w, h, pixels.clone()) {
        Some(b) => b,
        None => image::RgbaImage::new(w, h),
    };
    image::imageops::resize(&buf, tw, th, image::imageops::FilterType::Lanczos3).into_raw()
}

} // verus!
