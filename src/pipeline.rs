//! The transform pipeline: encoded bytes are decoded into a bitmap, the
//! bitmap is optionally collapsed to gray and blurred, and the result is
//! encoded as PNG. The payload is only read, never changed.
//!
//! Decoding, graying and encoding are functions of their inputs alone. The
//! blur is not promised to be bit-for-bit the same on every machine, so
//! where it applies the contracts say only that the result is the encoding
//! of some bitmap.

use vstd::prelude::*;

use crate::image_ops::{
    blur_image, decode_image, decoded, encode_png, gray_of, grayscale_image, has_png_signature,
    height_of, image_height, image_width, png_of, width_of,
};

verus! {

/// Sigma of the blur that `process_image_heavy` applies after graying.
pub const PROCESS_SIGMA: u16 = 5;

/// Sigma of the blur that the filter entry points apply.
pub const FILTER_SIGMA: u16 = 20;

/// What a pipeline invocation does to the bitmap. `blur_radius` is the
/// sigma of the Gaussian blur, in pixels; zero means that no blur is
/// applied.
#[derive(Clone, Copy, Debug, PartialEq, Eq, Structural)]
pub struct TransformParams {
    pub grayscale: bool,
    pub blur_radius: u16,
}

/// Why a pipeline invocation failed.
#[derive(Clone, Copy, Debug, PartialEq, Eq, Structural)]
pub enum TransformError {
    /// The payload is not an image in a recognised encoding.
    Decode,
    /// The transformed bitmap could not be serialised.
    Encode,
}

/// The outcome of encoding a bitmap as PNG.
pub open spec fn encoded(img: image::DynamicImage) -> Result<Seq<u8>, TransformError> {
    match png_of(img) {
        None => Err(TransformError::Encode),
        Some(bytes) => Ok(bytes),
    }
}

/// The bitmap that the blur step receives: grayed if `params` asks for it.
pub open spec fn pre_blur(img: image::DynamicImage, params: TransformParams) -> image::DynamicImage {
    if params.grayscale {
        gray_of(img)
    } else {
        img
    }
}

/// Whether the blur step runs: a non-zero sigma on a bitmap with pixels.
pub open spec fn blur_applies(img: image::DynamicImage, params: TransformParams) -> bool {
    params.blur_radius != 0 && width_of(pre_blur(img, params)) > 0 && height_of(
        pre_blur(img, params),
    ) > 0
}

/// Whether `blurred` can be the blur of `img`: the same width and height,
/// and it encodes as PNG wherever `img` does. The blurred pixels themselves
/// come from floating-point kernels and are not fixed across machines.
pub open spec fn blur_of_shape(img: image::DynamicImage, blurred: image::DynamicImage) -> bool {
    &&& width_of(blurred) == width_of(img)
    &&& height_of(blurred) == height_of(img)
    &&& png_of(img) is Some ==> png_of(blurred) is Some
}

/// Whether `r` is the outcome of encoding a bitmap of the width and height
/// of `img`.
pub open spec fn encodes_same_size(img: image::DynamicImage, r: Result<Seq<u8>, TransformError>) -> bool {
    exists|out: image::DynamicImage|
        width_of(out) == width_of(img) && height_of(out) == height_of(img) && r == #[trigger] encoded(out)
}

/// What transforming the decoded bitmap `img` may give: PNG bytes or an
/// encode failure. Without a blur it is exactly the encoding of the
/// (possibly grayed) bitmap; with one, the encoding of a blur of that
/// bitmap, which keeps its size and succeeds wherever the unblurred bitmap
/// would encode.
pub open spec fn bitmap_outcome(
    img: image::DynamicImage,
    params: TransformParams,
    r: Result<Seq<u8>, TransformError>,
) -> bool {
    &&& r matches Ok(bytes) ==> has_png_signature(bytes)
    &&& encodes_same_size(img, r)
    &&& if blur_applies(img, params) {
        exists|blurred: image::DynamicImage|
            blur_of_shape(pre_blur(img, params), blurred) && r == #[trigger] encoded(blurred)
    } else {
        r == encoded(pre_blur(img, params))
    }
}

/// What the pipeline may give on `payload`: a decode failure exactly when
/// the payload does not decode, and otherwise the outcome on its bitmap.
pub open spec fn pipeline_outcome(
    payload: Seq<u8>,
    params: TransformParams,
    r: Result<Seq<u8>, TransformError>,
) -> bool {
    match decoded(payload) {
        None => r == Err::<Seq<u8>, TransformError>(TransformError::Decode),
        Some(img) => bitmap_outcome(img, params, r),
    }
}

/// Whether the pipeline on `payload` runs the blur step.
pub open spec fn blurs(payload: Seq<u8>, params: TransformParams) -> bool {
    &&& decoded(payload) is Some
    &&& blur_applies(decoded(payload)->Some_0, params)
}

/// A pipeline result with its bytes seen as a sequence.
pub open spec fn result_view(r: Result<Vec<u8>, TransformError>) -> Result<Seq<u8>, TransformError> {
    match r {
        Ok(v) => Ok(v@),
        Err(e) => Err(e),
    }
}

/// The parameters of `process_image_heavy`.
pub open spec fn process_params() -> TransformParams {
    TransformParams { grayscale: true, blur_radius: PROCESS_SIGMA }
}

/// The parameters of the filter entry points.
pub open spec fn filter_params() -> TransformParams {
    TransformParams { grayscale: false, blur_radius: FILTER_SIGMA }
}

/// Decodes `payload` into a bitmap, or fails with a decode error.
pub fn decode_payload(payload: &[u8]) -> (r: Result<image::DynamicImage, TransformError>)
    ensures
        match r {
            Ok(img) => decoded(payload@) == Some(img),
            Err(e) => e == TransformError::Decode && decoded(payload@) is None,
        },
{
    match decode_image(payload) {
        Ok(img) => Ok(img),
        Err(_) => Err(TransformError::Decode),
    }
}

/// Encodes `img` as PNG, or fails with an encode error (a bitmap without
/// pixels cannot be encoded).
pub fn encode_bitmap(img: &image::DynamicImage) -> (r: Result<Vec<u8>, TransformError>)
    ensures
        result_view(r) == encoded(*img),
        r matches Ok(v) ==> has_png_signature(v@),
{
    match encode_png(img) {
        Ok(bytes) => Ok(bytes),
        Err(_) => Err(TransformError::Encode),
    }
}

/// Applies the pixel transforms of `params` to a decoded bitmap and encodes
/// the result as PNG. The blur is skipped on a bitmap without pixels.
pub fn transform_bitmap(img: image::DynamicImage, params: TransformParams) -> (r: Result<
    Vec<u8>,
    TransformError,
>)
    ensures
        bitmap_outcome(img, params, result_view(r)),
{
    let gray = if params.grayscale {
        grayscale_image(&img)
    } else {
        img
    };
    if params.blur_radius != 0 && image_width(&gray) > 0 && image_height(&gray) > 0 {
        let blurred = blur_image(&gray, params.blur_radius);
        let r = encode_bitmap(&blurred);
        assert(blur_of_shape(gray, blurred) && result_view(r) == encoded(blurred));
        assert(width_of(blurred) == width_of(img) && height_of(blurred) == height_of(img));
        r
    } else {
        let r = encode_bitmap(&gray);
        assert(width_of(gray) == width_of(img) && height_of(gray) == height_of(img));
        assert(result_view(r) == encoded(gray));
        r
    }
}

/// Runs the pipeline on `payload` with `params`.
pub fn transform(payload: &[u8], params: TransformParams) -> (r: Result<Vec<u8>, TransformError>)
    ensures
        pipeline_outcome(payload@, params, result_view(r)),
{
    match decode_payload(payload) {
        Ok(img) => transform_bitmap(img, params),
        Err(e) => Err(e),
    }
}

/// Grays the image, blurs it with sigma 5 and encodes it as PNG.
pub fn process_image_heavy(image_data: Vec<u8>) -> (r: Result<Vec<u8>, TransformError>)
    ensures
        pipeline_outcome(image_data@, process_params(), result_view(r)),
{
    transform(image_data.as_slice(), TransformParams { grayscale: true, blur_radius: PROCESS_SIGMA })
}

fn heavy_image_logic(image_data: Vec<u8>) -> (r: Result<Vec<u8>, TransformError>)
    ensures
        pipeline_outcome(image_data@, filter_params(), result_view(r)),
{
    transform(image_data.as_slice(), TransformParams { grayscale: false, blur_radius: FILTER_SIGMA })
}

/// The filter entry point meant to run on a background worker: blurs the
/// image with sigma 20 and encodes it as PNG.
pub fn apply_filter_async(image_data: Vec<u8>) -> (r: Result<Vec<u8>, TransformError>)
    ensures
        pipeline_outcome(image_data@, filter_params(), result_view(r)),
{
    heavy_image_logic(image_data)
}

/// The filter entry point meant to run on the calling thread; it runs the
/// same pipeline as `apply_filter_async`.
pub fn apply_filter_sync(image_data: Vec<u8>) -> (r: Result<Vec<u8>, TransformError>)
    ensures
        pipeline_outcome(image_data@, filter_params(), result_view(r)),
{
    heavy_image_logic(image_data)
}

/// Two runs of the pipeline on the same payload and parameters agree on
/// whether the payload decodes, and, where no blur applies, give
/// byte-identical outcomes.
pub proof fn lemma_transform_deterministic(
    payload: Seq<u8>,
    params: TransformParams,
    r1: Result<Seq<u8>, TransformError>,
    r2: Result<Seq<u8>, TransformError>,
)
    requires
        pipeline_outcome(payload, params, r1),
        pipeline_outcome(payload, params, r2),
    ensures
        (r1 == Err::<Seq<u8>, TransformError>(TransformError::Decode)) == (r2 == Err::<
            Seq<u8>,
            TransformError,
        >(TransformError::Decode)),
        !blurs(payload, params) ==> r1 == r2,
{
    if decoded(payload) is Some {
        let img = decoded(payload)->Some_0;
        lemma_decoded_never_fails_to_decode(img, params, r1);
        lemma_decoded_never_fails_to_decode(img, params, r2);
    }
}

/// Once a payload decodes, the pipeline never reports a decode error.
pub proof fn lemma_decoded_never_fails_to_decode(
    img: image::DynamicImage,
    params: TransformParams,
    r: Result<Seq<u8>, TransformError>,
)
    requires
        bitmap_outcome(img, params, r),
    ensures
        r != Err::<Seq<u8>, TransformError>(TransformError::Decode),
{
    if blur_applies(img, params) {
        let blurred = choose|blurred: image::DynamicImage|
            blur_of_shape(pre_blur(img, params), blurred) && r == #[trigger] encoded(blurred);
        assert(r == encoded(blurred));
    }
}

/// A payload that decodes into a bitmap that encodes as PNG once grayed as
/// asked is transformed successfully, whatever the blur sigma.
pub proof fn lemma_encodable_succeeds(
    payload: Seq<u8>,
    params: TransformParams,
    r: Result<Seq<u8>, TransformError>,
)
    requires
        decoded(payload) is Some,
        png_of(pre_blur(decoded(payload)->Some_0, params)) is Some,
        pipeline_outcome(payload, params, r),
    ensures
        r is Ok,
{
    let img = decoded(payload)->Some_0;
    if blur_applies(img, params) {
        let blurred = choose|blurred: image::DynamicImage|
            blur_of_shape(pre_blur(img, params), blurred) && r == #[trigger] encoded(blurred);
        assert(r == encoded(blurred));
    }
}

/// A payload that does not decode fails with a decode error, whatever the
/// parameters.
pub proof fn lemma_undecodable_fails(
    payload: Seq<u8>,
    params: TransformParams,
    r: Result<Seq<u8>, TransformError>,
)
    requires
        decoded(payload) is None,
        pipeline_outcome(payload, params, r),
    ensures
        r == Err::<Seq<u8>, TransformError>(TransformError::Decode),
{
}

} // verus!
