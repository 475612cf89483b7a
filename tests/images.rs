use image::imageops::FilterType;
use image::DynamicImage;
use lith::gen::filter_image::FilterImagePreprocessor;
use lith::gen::flat_image::{target_height, FlatImageGenerator};
use lith::gen::standard_image::StandardImagePreprocessor;
use lith::gen::{GenError, VertexGrid};
use lith::geo::Vec3;
use lith::img::{rgb_channels, PixelError, PixelMap};

#[test]
fn pixel_needs_three_channels() {
    assert_eq!(rgb_channels(&[1, 2, 3]), Ok((1, 2, 3)));
    assert_eq!(rgb_channels(&[1, 2]), Err(PixelError::InvalidPixelLength));
    assert_eq!(rgb_channels(&[1, 2, 3, 4]), Err(PixelError::InvalidPixelLength));
}

#[test]
fn pixel_map_needs_three_bytes_per_pixel() {
    assert!(PixelMap::new(2, 1, vec![0; 6]).is_ok());
    assert_eq!(PixelMap::new(2, 1, vec![0; 5]).err(), Some(PixelError::InvalidPixelLength));
    assert_eq!(PixelMap::new(usize::MAX, 2, vec![]).err(), Some(PixelError::InvalidPixelLength));
}

#[test]
fn target_height_formula() {
    assert_eq!(target_height(400, 300, 80), 1500);
    assert_eq!(target_height(7, 3, 2), 10);
    assert_eq!(target_height(u32::MAX, u32::MAX, 1), u32::MAX);
}

#[test]
fn standard_preprocessor_resizes_to_width() {
    let img = DynamicImage::new_rgb8(8, 4);
    let map = StandardImagePreprocessor::default().width(4).transform(&img).unwrap();
    assert_eq!((map.width(), map.height()), (4, 2));
    assert_eq!(map.pixels().len(), 3 * 4 * 2);
}

#[test]
fn standard_preprocessor_refuses_zero_width() {
    let img = DynamicImage::new_rgb8(8, 4);
    let r = StandardImagePreprocessor::default().transform(&img);
    assert_eq!(r.err(), Some(GenError::Degenerate));
}

#[test]
fn filter_preprocessor_resizes_to_width() {
    let img = DynamicImage::new_rgb8(6, 6);
    let pre = FilterImagePreprocessor::default().width(3).filter(FilterType::Nearest);
    let map = pre.transform(&img).unwrap();
    assert_eq!((map.width(), map.height()), (3, 3));
    assert_eq!(map.pixels().len(), 27);
    let r = FilterImagePreprocessor::default().transform(&img);
    assert_eq!(r.err(), Some(GenError::Degenerate));
}

#[test]
fn flat_image_generator_needs_a_width() {
    let img = DynamicImage::new_rgb8(4, 2);
    assert_eq!(FlatImageGenerator::new(img.clone()).width(0).err(), Some(GenError::Degenerate));
    let v = Vec3 { x: 0, y: 0, z: 0 };
    let grid = VertexGrid::new(2, 1, vec![v; 2], vec![v; 2]).unwrap();
    let unset = FlatImageGenerator::new(img);
    assert_eq!(unset.generate(&grid).err(), Some(GenError::Degenerate));
}

#[test]
fn flat_image_generator_takes_resized_dimensions() {
    let img = DynamicImage::new_rgb8(4, 2);
    let gen = FlatImageGenerator::new(img).width(2).unwrap();
    let pixels = gen.pixels();
    assert_eq!((pixels.width(), pixels.height()), (2, 1));
    let v = Vec3 { x: 0, y: 0, z: 0 };
    let wrong = VertexGrid::new(3, 1, vec![v; 3], vec![v; 3]).unwrap();
    assert_eq!(gen.generate(&wrong).err(), Some(GenError::SizeMismatch));
    let grid = VertexGrid::new(2, 1, vec![v; 2], vec![v; 2]).unwrap();
    assert_eq!(gen.generate(&grid).unwrap().triangle_count(), 2 * 0 + 4 * 0 + 4 * 1 + 2);
}

#[test]
fn empty_source_image_is_degenerate() {
    let empty = DynamicImage::new_rgb8(0, 4);
    let r = StandardImagePreprocessor::default().width(3).transform(&empty);
    assert_eq!(r.err(), Some(GenError::Degenerate));
    let r = FilterImagePreprocessor::default().width(3).transform(&DynamicImage::new_rgb8(5, 0));
    assert_eq!(r.err(), Some(GenError::Degenerate));
    let r = FlatImageGenerator::new(DynamicImage::new_rgb8(0, 0)).width(2);
    assert_eq!(r.err(), Some(GenError::Degenerate));
}

#[test]
fn preprocessor_keeps_aspect_ratio_when_enlarging() {
    let img = DynamicImage::new_rgb8(2, 3);
    let map = StandardImagePreprocessor::default().width(4).transform(&img).unwrap();
    // the height bound is the source height, so the image cannot grow
    assert_eq!((map.width(), map.height()), (2, 3));
}

fn gradient(w: u32, h: u32) -> DynamicImage {
    let mut img = image::RgbImage::new(w, h);
    for (x, y, p) in img.enumerate_pixels_mut() {
        *p = image::Rgb([(x * 37 % 256) as u8, (y * 91 % 256) as u8, ((x * y) % 256) as u8]);
    }
    DynamicImage::ImageRgb8(img)
}

#[test]
fn standard_preprocessor_gives_the_resized_image_bytes() {
    let img = gradient(9, 6);
    let map = StandardImagePreprocessor::default().width(4).transform(&img).unwrap();
    let expected = img.resize(4, 6, FilterType::CatmullRom).to_rgb8();
    assert_eq!((map.width() as u32, map.height() as u32), expected.dimensions());
    assert_eq!(map.pixels(), &expected.into_raw());
}

#[test]
fn filter_preprocessor_uses_its_filter() {
    let img = gradient(9, 6);
    let near = FilterImagePreprocessor::default().width(4).filter(FilterType::Nearest);
    let map = near.transform(&img).unwrap();
    let expected = img.resize(4, 6, FilterType::Nearest).to_rgb8().into_raw();
    assert_eq!(map.pixels(), &expected);
    let cubic = FilterImagePreprocessor::default().width(4).transform(&img).unwrap();
    let expected = img.resize(4, 6, FilterType::CatmullRom).to_rgb8().into_raw();
    assert_eq!(cubic.pixels(), &expected);
}

#[test]
fn flat_image_generator_resizes_with_the_height_formula() {
    let img = gradient(6, 4);
    let gen = FlatImageGenerator::new(img.clone()).width(3).unwrap();
    let expected = img.resize(3, 4 * 6 / 3, FilterType::CatmullRom).to_rgb8();
    let pixels = gen.pixels();
    assert_eq!((pixels.width() as u32, pixels.height() as u32), expected.dimensions());
    assert_eq!(pixels.pixels(), &expected.into_raw());
}
