use vstd::prelude::*;
use image::imageops::FilterType;
use image::DynamicImage;
use crate::img::PixelMap;
use crate::raster::{image_dims, resized, rgb8_bytes, to_rgb8};
use super::GenError;

verus! {

/// Resizes an image to a target width with a chosen resampling filter,
/// keeping its aspect ratio, and hands out its RGB pixels.
pub struct FilterImagePreprocessor {
    width: usize,
    filter: FilterType,
}

impl Default for FilterImagePreprocessor {
    /// Width zero (to be set), Catmull-Rom resampling.
    fn default() -> (r: Self)
        ensures
            r.target_width() == 0,
            r.resample_filter() == FilterType::CatmullRom,
    {
        FilterImagePreprocessor { width: 0, filter: FilterType::CatmullRom }
    }
}

impl FilterImagePreprocessor {
    /// The width that images are resized to.
    pub closed spec fn target_width(&self) -> usize {
        self.width
    }

    /// The filter that images are resampled with.
    pub closed spec fn resample_filter(&self) -> FilterType {
        self.filter
    }

    /// Set the width that images are resized to; the filter stays.
    pub fn width(self, width: usize) -> (r: Self)
        ensures
            r.target_width() == width,
            r.resample_filter() == self.resample_filter(),
    {
        FilterImagePreprocessor { width, filter: self.filter }
    }

    /// Set the resampling filter; the target width stays.
    pub fn filter(self, filter: FilterType) -> (r: Self)
        ensures
            r.target_width() == self.target_width(),
            r.resample_filter() == filter,
    {
        FilterImagePreprocessor { width: self.width, filter }
    }

    /// The image resized to the target width (the height follows the aspect
    /// ratio) with the chosen filter, as 8-bit RGB pixels.
    pub fn transform(self, image: &DynamicImage) -> (r: Result<PixelMap, GenError>)
        ensures
            (self.target_width() == 0 || image_dims(*image).0 == 0 || image_dims(*image).1 == 0)
                ==> r == Err::<PixelMap, GenError>(GenError::Degenerate),
            (self.target_width() > u32::MAX && image_dims(*image).0 > 0 && image_dims(*image).1
                > 0) ==> r == Err::<PixelMap, GenError>(GenError::TooLarge),
            (0 < self.target_width() <= u32::MAX && image_dims(*image).0 > 0 && image_dims(
                *image,
            ).1 > 0) ==> (r matches Ok(m) && m@.wf() && m@.width >= 1 && m@.height >= 1 && {
                let out = resized(
                    *image,
                    self.target_width() as u32,
                    image_dims(*image).1,
                    self.resample_filter(),
                );
                &&& m@.width == image_dims(out).0
                &&& m@.height == image_dims(out).1
                &&& m@.pixels == rgb8_bytes(out)
            }),
    {
        if self.width == 0 || image.width() == 0 || image.height() == 0 {
            return Err(GenError::Degenerate);
        }
        if self.width > u32::MAX as usize {
            return Err(GenError::TooLarge);
        }
        let resized = image.resize(self.width as u32, image.height(), self.filter);
        Ok(to_rgb8(&resized))
    }
}

} // verus!
