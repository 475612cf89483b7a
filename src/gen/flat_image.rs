use vstd::prelude::*;
use image::imageops::FilterType;
use image::DynamicImage;
use crate::geo::Mesh;
use crate::img::PixelMap;
use crate::raster::{image_dims, resized, rgb8_bytes, to_rgb8};
use super::flat_mesh::{flat_corners, flat_triangle_count, generate_flat};
use super::{GenError, VertexGrid};

verus! {

/// A flat lithophane generator that owns its source image and resizes it
/// itself. It triangulates exactly as the grid variant does.
pub struct FlatImageGenerator {
    source: DynamicImage,
    width: usize,
    height: usize,
}

/// The height bound that the source is resized with for a target width:
/// `source_height * source_width / width`, capped at `u32::MAX` (the resize
/// keeps the aspect ratio, so a larger bound changes nothing).
pub open spec fn target_height_spec(source_width: u32, source_height: u32, width: u32) -> u32 {
    let h = (source_height as int * source_width as int) / width as int;
    if h > u32::MAX {
        u32::MAX
    } else {
        h as u32
    }
}

/// The height bound that a source of the given size is resized with.
pub fn target_height(source_width: u32, source_height: u32, width: u32) -> (r: u32)
    requires
        width > 0,
    ensures
        r == target_height_spec(source_width, source_height, width),
{
    proof {
        assert(source_height as int * source_width as int <= u64::MAX) by (nonlinear_arith)
            requires
                source_height <= u32::MAX,
                source_width <= u32::MAX,
        ;
    }
    let h = (source_height as u64 * source_width as u64) / width as u64;
    if h > u32::MAX as u64 {
        u32::MAX
    } else {
        h as u32
    }
}

impl FlatImageGenerator {
    /// The dimensions the generator is set up for; zero until a width is set.
    pub closed spec fn dims(&self) -> (usize, usize) {
        (self.width, self.height)
    }

    /// The source image, as it stands.
    pub closed spec fn source(&self) -> DynamicImage {
        self.source
    }

    /// The size of the source image, as it stands.
    pub open spec fn source_dims(&self) -> (u32, u32) {
        image_dims(self.source())
    }

    /// A generator for `source`, with no target width yet.
    pub fn new(source: DynamicImage) -> (r: Self)
        ensures
            r.dims() == (0usize, 0usize),
            r.source() == source,
    {
        FlatImageGenerator { source, width: 0, height: 0 }
    }

    /// Set the target width: the source is resized (Catmull-Rom) to fit
    /// `width` by `target_height(..)`, and the generator takes on the
    /// resized image's dimensions.
    pub fn width(self, width: usize) -> (r: Result<Self, GenError>)
        ensures
            (width == 0 || self.source_dims().0 == 0 || self.source_dims().1 == 0) ==> (r matches Err(
                e,
            ) && e == GenError::Degenerate),
            (width > u32::MAX && self.source_dims().0 > 0 && self.source_dims().1 > 0) ==> (
            r matches Err(e) && e == GenError::TooLarge),
            (0 < width <= u32::MAX && self.source_dims().0 > 0 && self.source_dims().1 > 0) ==> (
            r matches Ok(g) && g.dims().0 >= 1 && g.dims().1 >= 1 && g.dims() == (
                g.source_dims().0 as usize,
                g.source_dims().1 as usize,
            ) && g.source() == resized(
                self.source(),
                width as u32,
                target_height_spec(self.source_dims().0, self.source_dims().1, width as u32),
                FilterType::CatmullRom,
            )),
    {
        if width == 0 || self.source.width() == 0 || self.source.height() == 0 {
            return Err(GenError::Degenerate);
        }
        if width > u32::MAX as usize {
            return Err(GenError::TooLarge);
        }
        let new_height = target_height(self.source.width(), self.source.height(), width as u32);
        let img = self.source.resize(width as u32, new_height, FilterType::CatmullRom);
        let w = img.width() as usize;
        let h = img.height() as usize;
        Ok(FlatImageGenerator { source: img, width: w, height: h })
    }

    /// The (resized) source as 8-bit RGB pixels.
    pub fn pixels(&self) -> (r: PixelMap)
        ensures
            r@.wf(),
            (r@.width, r@.height) == (self.source_dims().0 as nat, self.source_dims().1 as nat),
            r@.pixels == rgb8_bytes(self.source()),
    {
        to_rgb8(&self.source)
    }

    /// Triangulate a vertex grid made from this generator's image.
    pub fn generate(&self, grid: &VertexGrid) -> (r: Result<Mesh, GenError>)
        requires
            grid@.wf(),
        ensures
            (self.dims().0 == 0 || self.dims().1 == 0) ==> (r matches Err(e) && e
                == GenError::Degenerate),
            (self.dims().0 > 0 && self.dims().1 > 0 && (grid@.width, grid@.height) != (
                self.dims().0 as nat,
                self.dims().1 as nat,
            )) ==> (r matches Err(e) && e == GenError::SizeMismatch),
            (grid@.width, grid@.height) == (self.dims().0 as nat, self.dims().1 as nat) ==> (
            r matches Ok(m) && m@ == grid@.render(flat_corners(grid@.width, grid@.height))),
            r matches Ok(m) ==> m@.len() == 3 * flat_triangle_count(
                grid@.width as int,
                grid@.height as int,
            ) && m@.len() % 3 == 0,
    {
        if self.width == 0 || self.height == 0 {
            return Err(GenError::Degenerate);
        }
        if grid.width() != self.width || grid.height() != self.height {
            return Err(GenError::SizeMismatch);
        }
        Ok(generate_flat(grid))
    }
}

} // verus!
