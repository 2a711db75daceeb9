//! The calls into the `image` crate that the pipeline makes, each behind a
//! trusted item. Where a result is a function of the arguments alone on
//! every machine, it is given a name over which the pipeline's contracts are
//! stated. The blur is not: its kernel weights come from floating-point
//! functions whose precision may differ between platforms, so its result is
//! left unnamed.

use vstd::prelude::*;

verus! {

#[verifier::external_type_specification]
#[verifier::external_body]
pub struct ExDynamicImage(image::DynamicImage);

#[verifier::external_type_specification]
#[verifier::external_body]
pub struct ExImageError(image::ImageError);

/// The bitmap that `image::load_from_memory` decodes from the bytes, or
/// `None` where it refuses them.
pub uninterp spec fn decoded(b: Seq<u8>) -> Option<image::DynamicImage>;

/// What `DynamicImage::grayscale` returns for the bitmap.
pub uninterp spec fn gray_of(img: image::DynamicImage) -> image::DynamicImage;

/// The width in pixels that `DynamicImage::width` reports for the bitmap.
pub uninterp spec fn width_of(img: image::DynamicImage) -> u32;

/// The height in pixels that `DynamicImage::height` reports for the bitmap.
pub uninterp spec fn height_of(img: image::DynamicImage) -> u32;

/// The PNG bytes that `DynamicImage::write_to` writes for the bitmap, or
/// `None` where it fails.
pub uninterp spec fn png_of(img: image::DynamicImage) -> Option<Seq<u8>>;

/// The eight bytes with which every PNG stream begins.
pub open spec fn png_signature() -> Seq<u8> {
    seq![0x89u8, 0x50u8, 0x4eu8, 0x47u8, 0x0du8, 0x0au8, 0x1au8, 0x0au8]
}

/// Whether `bytes` begin with the PNG signature.
pub open spec fn has_png_signature(bytes: Seq<u8>) -> bool {
    bytes.len() >= 8 && bytes.subrange(0, 8) == png_signature()
}

/// Relies on `image::load_from_memory`: the format is guessed from the
/// leading bytes, and the outcome depends on the bytes alone.
#[verifier::external_body]
pub(crate) fn decode_image(b: &[u8]) -> (r: Result<image::DynamicImage, image::ImageError>)
    ensures
        match r {
            Ok(img) => decoded(b@) == Some(img),
            Err(_) => decoded(b@) is None,
        },
{
    image::load_from_memory(b)
}

/// Relies on `DynamicImage::grayscale`: a new bitmap, a function of the old,
/// of the same width and height.
#[verifier::external_body]
pub(crate) fn grayscale_image(img: &image::DynamicImage) -> (r: image::DynamicImage)
    ensures
        r == gray_of(*img),
        width_of(r) == width_of(*img),
        height_of(r) == height_of(*img),
{
    img.grayscale()
}

/// Relies on `DynamicImage::width`.
#[verifier::external_body]
pub(crate) fn image_width(img: &image::DynamicImage) -> (r: u32)
    ensures
        r == width_of(*img),
{
    img.width()
}

/// Relies on `DynamicImage::height`.
#[verifier::external_body]
pub(crate) fn image_height(img: &image::DynamicImage) -> (r: u32)
    ensures
        r == height_of(*img),
{
    img.height()
}

/// Relies on `DynamicImage::blur`: a Gaussian blur with the given sigma,
/// converted losslessly to the crate's `f32`. Its separable filter divides
/// the pixel buffer into rows, which panics on a bitmap without pixels, so
/// the bitmap must have some. The result is rebuilt in the same pixel type
/// with the same width and height, and PNG encoding depends only on those
/// and on the pixel bytes, so a bitmap that encodes still encodes after the
/// blur.
#[verifier::external_body]
pub(crate) fn blur_image(img: &image::DynamicImage, sigma: u16) -> (r: image::DynamicImage)
    requires
        width_of(*img) > 0,
        height_of(*img) > 0,
    ensures
        width_of(r) == width_of(*img),
        height_of(r) == height_of(*img),
        png_of(*img) is Some ==> png_of(r) is Some,
{
    img.blur(sigma.into())
}

/// Relies on `DynamicImage::write_to` with `ImageFormat::Png`, writing into
/// an empty in-memory buffer: the bytes depend on the bitmap alone, and the
/// PNG encoder writes the signature first.
#[verifier::external_body]
pub(crate) fn encode_png(img: &image::DynamicImage) -> (r: Result<Vec<u8>, image::ImageError>)
    ensures
        match r {
            Ok(v) => png_of(*img) == Some(v@),
            Err(_) => png_of(*img) is None,
        },
        r matches Ok(v) ==> has_png_signature(v@),
{
    let mut out: Vec<u8> = Vec::new();
    let written = img.write_to(&mut std::io::Cursor::new(&mut out), image::ImageFormat::Png);
    written.map(|_| out)
}

} // verus!
