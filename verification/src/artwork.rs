//! The artwork processor: cover art is decoded, cropped to its largest
//! centered square, resized and encoded again as JPEG.
//!
//! Decoding, resampling and encoding are done by the `image` crate. What this
//! module decides, and proves, is which image is handed to each of them: the
//! geometry of the crop, the sizes that are refused, and that the bytes given
//! back are the encoding of the resized crop.

use crate::error::{ErrorKind, ErrorView, SyncError};
use crate::text::{replace_all, str_replace};
use image::codecs::jpeg::JpegEncoder;
use image::imageops::FilterType;
use image::{DynamicImage, GenericImageView, ImageError};
use vstd::prelude::*;

verus! {

/// A decoded image of the `image` crate. Proofs see of it its dimensions, as
/// [`image_dims`], and its pixels, as [`image_pixel`].
#[verifier::external_type_specification]
#[verifier::external_body]
pub struct ExDynamicImage(DynamicImage);

/// A decoding or encoding failure of the `image` crate.
#[verifier::external_type_specification]
#[verifier::external_body]
pub struct ExImageError(ImageError);

/// The width and height of an image, in pixels.
pub uninterp spec fn image_dims(img: DynamicImage) -> (u32, u32);

/// The pixel of an image at column `x` and row `y`, as red, green, blue and
/// alpha: what `GenericImageView::get_pixel` gives.
pub uninterp spec fn image_pixel(img: DynamicImage, x: u32, y: u32) -> (u8, u8, u8, u8);

/// Decodes an image, guessing its format from the bytes.
///
/// Trusted: this is `image::load_from_memory`. It guesses and decodes with
/// the format hooks that are registered in the process at that moment, so
/// what it gives does not depend on the bytes alone: nothing is claimed of
/// its result.
#[verifier::external_body]
fn load_image(bytes: &[u8]) -> Result<DynamicImage, ImageError> {
    image::load_from_memory(bytes)
}

/// Returns the width and height of an image.
///
/// Trusted: this is `GenericImageView::dimensions` of `DynamicImage`; its
/// result is what [`image_dims`] names.
#[verifier::external_body]
fn image_dimensions(img: &DynamicImage) -> (r: (u32, u32))
    ensures
        r == image_dims(*img),
{
    img.dimensions()
}

/// Cuts the rectangle at `(x, y)` of the given width and height out of an
/// image.
///
/// Trusted: this is `DynamicImage::crop_imm`. For a rectangle that lies
/// within the image, the result has the rectangle's dimensions, and each of
/// its pixels is the pixel of the image at the same place in the rectangle.
#[verifier::external_body]
fn crop_image(img: &DynamicImage, x: u32, y: u32, width: u32, height: u32) -> (out: DynamicImage)
    requires
        x + width <= image_dims(*img).0,
        y + height <= image_dims(*img).1,
    ensures
        image_dims(out) == (width, height),
        (forall|i: u32, j: u32|
            i < width && j < height ==> #[trigger] image_pixel(out, i, j) == image_pixel(
                *img,
                (x + i) as u32,
                (y + j) as u32,
            )),
{
    img.crop_imm(x, y, width, height)
}

/// Whether `out` shows `img` pixel for pixel.
pub open spec fn is_copy_of(out: DynamicImage, img: DynamicImage) -> bool {
    &&& image_dims(out) == image_dims(img)
    &&& forall|x: u32, y: u32|
        x < image_dims(img).0 && y < image_dims(img).1 ==> #[trigger] image_pixel(out, x, y)
            == image_pixel(img, x, y)
}

/// Resizes an image to exactly `nwidth` by `nheight` with the Lanczos filter
/// of window 3.
///
/// Trusted: this is `DynamicImage::resize_exact` with `FilterType::Lanczos3`.
/// It allocates a buffer of four samples per pixel for the source width and
/// the new height, and one for the new width and height, and panics where
/// their lengths do not fit in `usize`: that is required not to happen. The
/// result has the dimensions asked for. Where these are the dimensions of
/// the image, it is a copy. Otherwise its pixels are resampled in floating
/// point with `f32::sin`, whose precision differs between platforms: they
/// are given no name.
#[verifier::external_body]
fn resize_image(img: &DynamicImage, nwidth: u32, nheight: u32) -> (out: DynamicImage)
    requires
        image_dims(*img).0 * nheight * 4 <= usize::MAX,
        nwidth * nheight * 4 <= usize::MAX,
    ensures
        image_dims(out) == (nwidth, nheight),
        image_dims(*img) == (nwidth, nheight) ==> is_copy_of(out, *img),
{
    img.resize_exact(nwidth, nheight, FilterType::Lanczos3)
}

/// The largest width and height that a JPEG image can have.
pub const MAX_JPEG_SIDE: u32 = 65535;

/// Whether an image of these dimensions can be a JPEG: neither is zero, and
/// neither is more than [`MAX_JPEG_SIDE`].
pub open spec fn is_jpeg_size(dims: (u32, u32)) -> bool {
    1 <= dims.0 <= MAX_JPEG_SIDE && 1 <= dims.1 <= MAX_JPEG_SIDE
}

/// Whether `bytes` begin as a JPEG file does: with the start-of-image marker
/// `FF D8`, and more than a marker behind it.
pub open spec fn starts_as_jpeg(bytes: Seq<u8>) -> bool {
    bytes.len() >= 8 && bytes[0] == 0xFF && bytes[1] == 0xD8
}

/// The JPEG file that this library's encoder makes of an image at a quality:
/// baseline, with the standard tables scaled by the quality, without
/// metadata.
pub uninterp spec fn jpeg_encoding(img: DynamicImage, quality: u8) -> Seq<u8>;

/// Encodes an image as JPEG at the given quality.
///
/// Trusted: this is `JpegEncoder::new_with_quality` on an empty vector,
/// followed by `JpegEncoder::encode_image`. The encoder refuses an image
/// exactly when a dimension is zero or above 65535, since writing to a
/// vector cannot fail; it computes in integers and correctly rounded
/// divisions, so its output is [`jpeg_encoding`] of the image and quality;
/// and the first thing it writes is the marker `FF D8`, then the JFIF
/// header.
#[verifier::external_body]
fn encode_jpeg(img: &DynamicImage, quality: u8) -> (r: Result<Vec<u8>, ImageError>)
    ensures
        r is Ok <==> is_jpeg_size(image_dims(*img)),
        r matches Ok(out) ==> out@ == jpeg_encoding(*img, quality),
        r matches Ok(out) ==> starts_as_jpeg(out@),
{
    let mut out = Vec::new();
    let mut encoder = JpegEncoder::new_with_quality(&mut out, quality);
    encoder.encode_image(img)?;
    Ok(out)
}

/// Renders a failure of the `image` crate as text.
///
/// Trusted: this is `ToString::to_string` of `ImageError`. Nothing is claimed
/// of its result.
#[verifier::external_body]
fn image_error_text(e: &ImageError) -> String {
    e.to_string()
}

/// The address of the 500 by 500 variant of an artwork: every `-large.` in
/// the address becomes `-t500x500.`.
pub open spec fn spec_normalize_artwork_url(url: Seq<char>) -> Seq<char> {
    replace_all(url, "-large."@, "-t500x500."@)
}

/// Rewrites an artwork address so that it asks for the 500 by 500 variant.
/// The substitution is textual; an address without `-large.` is returned
/// unchanged.
pub fn normalize_soundcloud_artwork_url(url: &str) -> (r: String)
    ensures
        r@ == spec_normalize_artwork_url(url@),
{
    proof {
        reveal_strlit("-large.");
    }
    str_replace(url, "-large.", "-t500x500.")
}

/// A square region of an image: its top left corner and the length of its side.
#[derive(Debug, Clone, Copy, PartialEq, Eq, Structural)]
pub struct CropRect {
    pub x: u32,
    pub y: u32,
    pub side: u32,
}

/// The smaller of two lengths.
pub open spec fn spec_min(a: int, b: int) -> int {
    if a <= b {
        a
    } else {
        b
    }
}

/// The largest centered square of a `width` by `height` image: its side is
/// the smaller dimension, and on each axis it starts at half of what is left
/// over, rounded down.
pub open spec fn spec_center_square(width: u32, height: u32) -> CropRect {
    let side: int = spec_min(width as int, height as int);
    CropRect {
        x: ((width - side) / 2) as u32,
        y: ((height - side) / 2) as u32,
        side: side as u32,
    }
}

/// Computes the largest centered square of a `width` by `height` image.
pub fn center_square(width: u32, height: u32) -> (r: CropRect)
    ensures
        r == spec_center_square(width, height),
        r.side == spec_min(width as int, height as int),
        r.x == (width - r.side) / 2,
        r.y == (height - r.side) / 2,
        r.x + r.side <= width,
        r.y + r.side <= height,
{
    let side: u32 = if width <= height {
        width
    } else {
        height
    };
    CropRect { x: (width - side) / 2, y: (height - side) / 2, side }
}

/// The centered square lies within the image, touches both borders along the
/// shorter axis, and along the longer axis leaves margins that differ by one
/// pixel at most, the larger one after the square.
pub proof fn law_crop_is_centered(width: u32, height: u32)
    ensures
        ({
            let r = spec_center_square(width, height);
            let right: int = width - r.side - r.x;
            let bottom: int = height - r.side - r.y;
            &&& r.side == spec_min(width as int, height as int)
            &&& r.x + r.side <= width
            &&& r.y + r.side <= height
            &&& r.x == 0 || r.y == 0
            &&& r.x <= right <= r.x + 1
            &&& r.y <= bottom <= r.y + 1
        }),
{
}

/// Whether `out` is the region `r` of `img`: it has the region's size, and
/// each of its pixels is the pixel of `img` at the same place in the region.
pub open spec fn is_region_of(out: DynamicImage, img: DynamicImage, r: CropRect) -> bool {
    &&& image_dims(out) == (r.side, r.side)
    &&& forall|i: u32, j: u32|
        i < r.side && j < r.side ==> #[trigger] image_pixel(out, i, j) == image_pixel(
            img,
            (r.x + i) as u32,
            (r.y + j) as u32,
        )
}

/// Cuts the largest centered square out of an image. The result is exactly
/// `side` by `side`, where `side` is the smaller dimension of the image, and
/// shows the image from the offsets that [`spec_center_square`] gives.
pub fn center_crop(img: &DynamicImage) -> (out: DynamicImage)
    ensures
        is_region_of(out, *img, spec_center_square(image_dims(*img).0, image_dims(*img).1)),
        image_dims(out).0 == spec_min(image_dims(*img).0 as int, image_dims(*img).1 as int),
        image_dims(out).1 == image_dims(out).0,
{
    let (w, h) = image_dimensions(img);
    let r = center_square(w, h);
    crop_image(img, r.x, r.y, r.side, r.side)
}

/// Whether the buffers needed to resize a `width` pixels wide image to
/// `size` by `size` have lengths that fit in `usize`.
pub open spec fn spec_resize_fits(width: u32, size: u32) -> bool {
    width * size * 4 <= usize::MAX && size * size * 4 <= usize::MAX
}

/// Tells whether the buffers needed for a resize can be addressed.
fn resize_fits(width: u32, size: u32) -> (r: bool)
    ensures
        r == spec_resize_fits(width, size),
{
    let limit: u128 = usize::MAX as u128;
    let w: u128 = width as u128;
    let s: u128 = size as u128;
    assert(w * s <= 0xFFFF_FFFF * 0xFFFF_FFFF) by (nonlinear_arith)
        requires
            0 <= w <= 0xFFFF_FFFF,
            0 <= s <= 0xFFFF_FFFF,
    ;
    assert(s * s <= 0xFFFF_FFFF * 0xFFFF_FFFF) by (nonlinear_arith)
        requires
            0 <= s <= 0xFFFF_FFFF,
    ;
    let a: u128 = w * s * 4;
    let b: u128 = s * s * 4;
    a <= limit && b <= limit
}

/// The side of the largest centered square of an image.
pub open spec fn spec_side(img: DynamicImage) -> u32 {
    spec_center_square(image_dims(img).0, image_dims(img).1).side
}

/// Whether a cover of `size` by `size` can be made of an image: a JPEG can
/// have that size, and the buffers for the resize can be addressed.
pub open spec fn can_make_cover(img: DynamicImage, size: u32) -> bool {
    1 <= size <= MAX_JPEG_SIDE && spec_resize_fits(spec_side(img), size)
}

/// The failure with which a cover is refused.
pub open spec fn spec_cover_refusal(size: u32) -> ErrorView {
    ErrorView {
        kind: ErrorKind::Parse,
        message: if 1 <= size <= MAX_JPEG_SIDE {
            "image too large to resize"@
        } else {
            "invalid cover size"@
        },
    }
}

/// Whether `resized` is an image that resizing `crop` to `size` by `size` may
/// give. All that holds of every such image is stated: it has that size and,
/// where the crop has that size already, it shows the crop pixel for pixel.
/// Of pixels that were resampled nothing is said.
pub open spec fn may_be_resize_of(resized: DynamicImage, crop: DynamicImage, size: u32) -> bool {
    &&& image_dims(resized) == (size, size)
    &&& image_dims(crop) == (size, size) ==> is_copy_of(resized, crop)
}

/// Whether `bytes` are the cover of `img`: the JPEG encoding, at `quality`,
/// of an image that resizing the largest centered square of `img` to `size`
/// by `size` may give.
pub open spec fn is_cover_of(bytes: Seq<u8>, img: DynamicImage, size: u32, quality: u8) -> bool {
    exists|crop: DynamicImage, resized: DynamicImage|
        {
            &&& is_region_of(crop, img, spec_center_square(image_dims(img).0, image_dims(img).1))
            &&& #[trigger] may_be_resize_of(resized, crop, size)
            &&& bytes == jpeg_encoding(resized, quality)
        }
}

/// Whether `bytes` are the cover of some image of which a cover can be made.
pub open spec fn is_cover(bytes: Seq<u8>, size: u32, quality: u8) -> bool {
    exists|img: DynamicImage| can_make_cover(img, size) && #[trigger] is_cover_of(
        bytes,
        img,
        size,
        quality,
    )
}

/// Decodes artwork. Every failure is of kind [`ErrorKind::Parse`]; which
/// bytes decode is for the `image` crate to say.
pub fn decode_artwork(input_bytes: &[u8]) -> (r: Result<DynamicImage, SyncError>)
    ensures
        r matches Err(e) ==> e@.kind == ErrorKind::Parse,
{
    match load_image(input_bytes) {
        Ok(img) => Ok(img),
        Err(e) => Err(SyncError::new(ErrorKind::Parse, image_error_text(&e))),
    }
}

/// Makes the cover of a decoded image: cuts out its largest centered square,
/// resizes it to `size` by `size` with a Lanczos filter and encodes it as
/// JPEG at `quality`.
///
/// Succeeds exactly when a cover of that size can be made of the image. A
/// `size` that no JPEG can have is refused before any memory is taken for
/// it; so is an image whose resize buffers could not be addressed.
pub fn cover_from_image(img: &DynamicImage, size: u32, quality: u8) -> (r: Result<
    Vec<u8>,
    SyncError,
>)
    ensures
        r is Ok <==> can_make_cover(*img, size),
        r matches Ok(out) ==> is_cover_of(out@, *img, size, quality) && starts_as_jpeg(out@),
        r matches Err(e) ==> e@ == spec_cover_refusal(size),
{
    if size == 0 || size > MAX_JPEG_SIDE {
        return Err(SyncError::new(ErrorKind::Parse, "invalid cover size".to_owned()));
    }
    let crop = center_crop(img);
    let (side, _) = image_dimensions(&crop);
    if !resize_fits(side, size) {
        return Err(SyncError::new(ErrorKind::Parse, "image too large to resize".to_owned()));
    }
    let resized = resize_image(&crop, size, size);
    match encode_jpeg(&resized, quality) {
        Ok(bytes) => {
            assert(may_be_resize_of(resized, crop, size));
            Ok(bytes)
        },
        Err(e) => {
            // A `size` by `size` image is never refused by the encoder.
            Err(SyncError::new(ErrorKind::Parse, image_error_text(&e)))
        },
    }
}

/// Turns raw artwork into a square JPEG cover: decodes `input_bytes`, cuts
/// out the largest centered square, resizes it to `size` by `size` with a
/// Lanczos filter and encodes it at `quality`.
///
/// Every failure is of kind [`ErrorKind::Parse`]. Which bytes decode is for
/// the `image` crate to say; for what the bytes decode to, the result is
/// that of [`cover_from_image`].
pub fn square_and_resize_cover_jpeg(input_bytes: &[u8], size: u32, quality: u8) -> (r: Result<
    Vec<u8>,
    SyncError,
>)
    ensures
        r matches Ok(out) ==> is_cover(out@, size, quality) && starts_as_jpeg(out@),
        r is Ok ==> 1 <= size <= MAX_JPEG_SIDE,
        r matches Err(e) ==> e@.kind == ErrorKind::Parse,
{
    match decode_artwork(input_bytes) {
        Ok(img) => {
            let r = cover_from_image(&img, size, quality);
            proof {
                if r is Ok {
                    assert(is_cover_of(r->Ok_0@, img, size, quality));
                }
            }
            r
        },
        Err(e) => Err(e),
    }
}

} // verus!
