use vstd::prelude::*;
use image::imageops::FilterType;
use image::DynamicImage;
use crate::img::PixelMap;

verus! {

#[verifier::external_type_specification]
#[verifier::external_body]
pub struct ExDynamicImage(DynamicImage);

/// The resampling filters: a plain enum of unit variants, so Verus reads it whole.
#[verifier::external_type_specification]
pub struct ExFilterType(FilterType);

/// The width and height, in pixels, of a decoded image.
pub uninterp spec fn image_dims(img: DynamicImage) -> (u32, u32);

/// Relies on `DynamicImage::width`: the image's width in pixels.
pub assume_specification[ DynamicImage::width ](img: &DynamicImage) -> (r: u32)
    ensures
        r == image_dims(*img).0,
;

/// Relies on `DynamicImage::height`: the image's height in pixels.
pub assume_specification[ DynamicImage::height ](img: &DynamicImage) -> (r: u32)
    ensures
        r == image_dims(*img).1,
;

/// The image that `DynamicImage::resize` makes of `img` for the requested
/// bounds and filter.
pub uninterp spec fn resized(img: DynamicImage, nwidth: u32, nheight: u32, filter: FilterType) -> DynamicImage;

/// The 8-bit RGB bytes of an image, three per pixel, row-major, as
/// `DynamicImage::to_rgb8` gives them.
pub uninterp spec fn rgb8_bytes(img: DynamicImage) -> Seq<u8>;

/// Relies on `DynamicImage::resize`: the result depends on the image, the
/// bounds and the filter alone. When the request equals the source's size
/// the result is a copy of the source; otherwise its size comes from
/// `resize_dimensions`, which never gives less than one pixel. The
/// resamplers index into the source, so it must not be empty.
pub assume_specification[ DynamicImage::resize ](
    img: &DynamicImage,
    nwidth: u32,
    nheight: u32,
    filter: FilterType,
) -> (r: DynamicImage)
    requires
        image_dims(*img).0 >= 1,
        image_dims(*img).1 >= 1,
    ensures
        r == resized(*img, nwidth, nheight, filter),
        image_dims(r).0 >= 1,
        image_dims(r).1 >= 1,
        (nwidth, nheight) == image_dims(*img) ==> image_dims(r) == image_dims(*img) && rgb8_bytes(r)
            == rgb8_bytes(*img),
;

/// Relies on `DynamicImage::to_rgb8`: the image converted to 8-bit RGB, of the
/// same size, whose bytes are `rgb8_bytes(img)`. Its buffer (`ImageBuffer::new` in the crate's source) holds
/// three bytes for each of its `width * height` pixels.
#[verifier::external_body]
pub(crate) fn to_rgb8(img: &DynamicImage) -> (r: PixelMap)
    ensures
        r@.wf(),
        r@.width == image_dims(*img).0,
        r@.height == image_dims(*img).1,
        r@.pixels == rgb8_bytes(*img),
{
    let rgb = img.to_rgb8();
    PixelMap { width: rgb.width() as usize, height: rgb.height() as usize, pixels: rgb.into_raw() }
}

} // verus!
