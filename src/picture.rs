//! A decoded raster together with its size as plain values.

use vstd::prelude::*;

use image::imageops::FilterType;
use image::DynamicImage;

verus! {

#[verifier::external_type_specification]
#[verifier::external_body]
pub struct ExDynamicImage(DynamicImage);

/// Relies on DynamicImage::width: the raster's width in pixels.
pub assume_specification[ DynamicImage::width ](img: &DynamicImage) -> u32;

/// Relies on DynamicImage::height: the raster's height in pixels.
pub assume_specification[ DynamicImage::height ](img: &DynamicImage) -> u32;

/// A decoded image. `width` and `height` are read from the raster when the
/// value is made and are never changed afterwards.
pub struct Picture {
    image: DynamicImage,
    width: u32,
    height: u32,
}

impl Picture {
    pub closed spec fn spec_width(&self) -> u32 {
        self.width
    }

    pub closed spec fn spec_height(&self) -> u32 {
        self.height
    }

    /// Wraps a decoded raster.
    pub fn from_image(image: DynamicImage) -> (r: Picture) {
        let width = image.width();
        let height = image.height();
        Picture { image, width, height }
    }

    pub fn width(&self) -> (r: u32)
        ensures
            r == self.spec_width(),
    {
        self.width
    }

    pub fn height(&self) -> (r: u32)
        ensures
            r == self.spec_height(),
    {
        self.height
    }

    /// The raster, for encoding.
    pub fn image(&self) -> (r: &DynamicImage) {
        &self.image
    }

    /// Gives the raster back, for encoding.
    pub fn into_image(self) -> (r: DynamicImage) {
        self.image
    }
}

/// Relies on DynamicImage::resize_exact with the three-lobe Lanczos filter:
/// the result has exactly the requested size, whatever the source's size.
#[verifier::external_body]
pub(crate) fn resample(p: &Picture, width: u32, height: u32) -> (r: Picture)
    ensures
        r.spec_width() == width,
        r.spec_height() == height,
{
    let image = p.image.resize_exact(width, height, FilterType::Lanczos3);
    let (w, h) = (image.width(), image.height());
    Picture { image, width: w, height: h }
}

/// Relies on DynamicImage::crop_imm: the cut-out is the requested rectangle,
/// with its origin and its size clamped to the source's bounds; no resampling.
#[verifier::external_body]
pub(crate) fn cut(p: &Picture, x: u32, y: u32, width: u32, height: u32) -> (r: Picture)
    ensures
        r.spec_width() == clamped_extent(p.spec_width(), x, width),
        r.spec_height() == clamped_extent(p.spec_height(), y, height),
{
    let image = p.image.crop_imm(x, y, width, height);
    let (w, h) = (image.width(), image.height());
    Picture { image, width: w, height: h }
}

/// How much of a span of `len` starting at `start` lies inside `0..total`.
pub open spec fn clamped_extent(total: u32, start: u32, len: u32) -> u32 {
    let s = if start <= total { start } else { total };
    let room = (total - s) as u32;
    if len <= room { len } else { room }
}

} // verus!
