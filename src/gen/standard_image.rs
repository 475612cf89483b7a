use vstd::prelude::*;
use image::imageops::FilterType;
use image::DynamicImage;
use crate::img::PixelMap;
use crate::raster::{image_dims, resized, rgb8_bytes, to_rgb8};
use super::GenError;

verus! {

/// Resizes an image to a target width with Catmull-Rom resampling, keeping
/// its aspect ratio, and hands out its RGB pixels.
pub struct StandardImagePreprocessor {
    width: usize,
}

impl Default for StandardImagePreprocessor {
    fn default() -> (r: Self)
        ensures
            r.target_width() == 0,
    {
        StandardImagePreprocessor { width: 0 }
    }
}

impl StandardImagePreprocessor {
    /// The width that images are resized to.
    pub closed spec fn target_width(&self) -> usize {
        self.width
    }

    /// Set the width that images are resized to.
    pub fn width(self, width: usize) -> (r: Self)
        ensures
            r.target_width() == width,
    {
        StandardImagePreprocessor { width }
    }

    /// The image resized to the target width (the height follows the aspect
    /// ratio), as 8-bit RGB pixels.
    pub fn transform(self, image: &DynamicImage) -> (r: Result<PixelMap, GenError>)
        ensures
            (self.target_width() == 0 || image_dims(*image).0 == 0 || image_dims(*image).1 == 0)
                ==> r == Err::<PixelMap, GenError>(GenError::Degenerate),
            (self.target_width() > u32::MAX && image_dims(*image).0 > 0 && image_dims(*image).1
                > 0) ==> r == Err::<PixelMap, GenError>(GenError::TooLarge),
            (0 < self.target_width() <= u32::MAX && image_dims(*image).0 > 0 && image_dims(
                *image,
            ).1 > 0) ==> (r matches Ok(m) && m@.wf() && m@.width >= 1 && m@.height >= 1 && {
                let out = resized(
                    *image,
                    self.target_width() as u32,
                    image_dims(*image).1,
                    FilterType::CatmullRom,
                );
                &&& m@.width == image_dims(out).0
                &&& m@.height == image_dims(out).1
                &&& m@.pixels == rgb8_bytes(out)
            }),
    {
        if self.width == 0 || image.width() == 0 || image.height() == 0 {
            return Err(GenError::Degenerate);
        }
        if self.width > u32::MAX as usize {
            return Err(GenError::TooLarge);
        }
        let resized = image.resize(self.width as u32, image.height(), FilterType::CatmullRom);
        Ok(to_rgb8(&resized))
    }
}

} // verus!
