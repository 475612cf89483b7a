use vstd::prelude::*;

verus! {

/// Why pixel data was refused.
#[derive(Clone, Copy, Debug, PartialEq, Eq, Structural)]
pub enum PixelError {
    /// A pixel does not hold exactly three channel values, or a buffer does not
    /// hold exactly three bytes per pixel.
    InvalidPixelLength,
}

/// The red, green and blue channels of one pixel.
pub fn rgb_channels(pixel: &[u8]) -> (r: Result<(u8, u8, u8), PixelError>)
    ensures
        pixel@.len() == 3 <==> r is Ok,
        r matches Ok(c) ==> c == (pixel@[0], pixel@[1], pixel@[2]),
        r matches Err(e) ==> e == PixelError::InvalidPixelLength,
{
    if pixel.len() != 3 {
        return Err(PixelError::InvalidPixelLength);
    }
    Ok((pixel[0], pixel[1], pixel[2]))
}

/// A decoded 8-bit RGB image: three bytes per pixel, row-major.
pub struct PixelMap {
    pub(crate) width: usize,
    pub(crate) height: usize,
    pub(crate) pixels: Vec<u8>,
}

/// What a `PixelMap` holds.
pub ghost struct PixelModel {
    pub width: nat,
    pub height: nat,
    pub pixels: Seq<u8>,
}

impl PixelModel {
    pub open spec fn wf(self) -> bool {
        self.pixels.len() == 3 * self.width * self.height
    }
}

impl View for PixelMap {
    type V = PixelModel;

    closed spec fn view(&self) -> PixelModel {
        PixelModel { width: self.width as nat, height: self.height as nat, pixels: self.pixels@ }
    }
}

impl PixelMap {
    /// A pixel map of `width` by `height` pixels over `pixels`, which must hold
    /// exactly three bytes per pixel.
    pub fn new(width: usize, height: usize, pixels: Vec<u8>) -> (r: Result<PixelMap, PixelError>)
        ensures
            pixels@.len() == 3 * width * height <==> r is Ok,
            r matches Ok(m) ==> m@ == (PixelModel {
                width: width as nat,
                height: height as nat,
                pixels: pixels@,
            }),
            r matches Err(e) ==> e == PixelError::InvalidPixelLength,
    {
        let plen = pixels.len();
        let n = match width.checked_mul(height) {
            Some(n) => n,
            None => {
                proof {
                    assert(3 * width * height > usize::MAX) by (nonlinear_arith)
                        requires
                            width * height > usize::MAX,
                    ;
                }
                return Err(PixelError::InvalidPixelLength);
            },
        };
        proof {
            assert(3 * width * height == n * 3) by (nonlinear_arith)
                requires
                    n == width * height,
            ;
        }
        match n.checked_mul(3) {
            Some(len) => {
                if pixels.len() != len {
                    return Err(PixelError::InvalidPixelLength);
                }
                Ok(PixelMap { width, height, pixels })
            },
            None => Err(PixelError::InvalidPixelLength),
        }
    }

    pub fn width(&self) -> (r: usize)
        ensures
            r == self@.width,
    {
        self.width
    }

    pub fn height(&self) -> (r: usize)
        ensures
            r == self@.height,
    {
        self.height
    }

    /// The raw bytes, three per pixel, row-major.
    pub fn pixels(&self) -> (r: &Vec<u8>)
        ensures
            r@ == self@.pixels,
    {
        &self.pixels
    }
}

} // verus!
