//! Decoded raster images held through the `image` crate, and the crop and
//! resize transforms applied to them before encoding.
use image::{DynamicImage, ImageError};
use vstd::prelude::*;

use crate::geometry::{
    calc_dimension, clamp_crop, crop_region, output_size, resize_percent_dimensions,
    CropConfig, GeometrySpec,
};

verus! {

/// `image::DynamicImage`, held opaquely: its size is read once and kept
/// beside it in `Raster`.
#[verifier::external_type_specification]
#[verifier::external_body]
pub struct ExDynamicImage(DynamicImage);

/// `image::ImageError`, the failure of `image::load_from_memory`, held
/// opaquely until it is turned into text.
#[verifier::external_type_specification]
#[verifier::external_body]
pub struct ExImageError(ImageError);

/// Width and height of the raster that `image::load_from_memory` decodes
/// from `data`; `None` where it refuses the bytes.
pub uninterp spec fn loaded_size(data: Seq<u8>) -> Option<(u32, u32)>;

/// A decoded picture together with its size in pixels and whether its
/// pixels are 8-bit RGBA.
pub struct Raster {
    image: DynamicImage,
    width: u32,
    height: u32,
    rgba: bool,
}

/// Why an encode request produced no image to compress.
#[derive(Clone, Debug)]
pub enum EncodeError {
    /// The input bytes are no raster format that can be read; the text says why.
    UnreadableInput(String),
    /// A resize asked for a side of zero pixels, or for more pixels than fit in memory.
    InvalidGeometry,
    /// The codec could not set up its configuration.
    ConfigCreationFailed,
    /// The codec refused the image; the text is its diagnostic.
    EncodeFailed(String),
    /// The output buffer could not be allocated.
    AllocationFailed,
}

/// A resize target that the resampler can fill: both sides positive and
/// within `u32`, and the RGBA buffer's length within `usize`.
pub open spec fn valid_target(w: int, h: int) -> bool {
    &&& 1 <= w <= u32::MAX as int
    &&& 1 <= h <= u32::MAX as int
    &&& 4 * w * h <= usize::MAX as int
}

/// Size of the image that `spec` makes out of a `src_w` by `src_h` source,
/// or `None` where a resize target is not valid; crops and no-ops always
/// succeed.
pub open spec fn transformed_size(src_w: int, src_h: int, spec: GeometrySpec) -> Option<(int, int)> {
    let s = output_size(src_w, src_h, spec);
    match spec {
        GeometrySpec::Crop(_) => Some(s),
        GeometrySpec::NoOp => Some(s),
        _ => if valid_target(s.0, s.1) {
            Some(s)
        } else {
            None
        },
    }
}

impl Raster {
    pub closed spec fn spec_width(&self) -> u32 {
        self.width
    }

    pub closed spec fn spec_height(&self) -> u32 {
        self.height
    }

    pub closed spec fn spec_is_rgba(&self) -> bool {
        self.rgba
    }

    /// Width in pixels.
    pub fn width(&self) -> (r: u32)
        ensures
            r == self.spec_width(),
    {
        self.width
    }

    /// Height in pixels.
    pub fn height(&self) -> (r: u32)
        ensures
            r == self.spec_height(),
    {
        self.height
    }

    /// Whether the pixels are 8-bit RGBA.
    pub fn is_rgba(&self) -> (r: bool)
        ensures
            r == self.spec_is_rgba(),
    {
        self.rgba
    }

    /// Hands the picture over to the encoder.
    pub fn into_image(self) -> (r: DynamicImage) {
        self.image
    }
}

/// Relies on `image::load_from_memory`: it guesses the format from the bytes
/// and decodes them, so what comes back depends on the bytes alone.
#[verifier::external_body]
fn load_from_memory(data: &[u8]) -> (r: Result<Raster, ImageError>)
    ensures
        r matches Ok(img) ==> loaded_size(data@) == Some((img.spec_width(), img.spec_height())),
        r is Err ==> loaded_size(data@) is None,
{
    match image::load_from_memory(data) {
        Ok(image) => {
            let (width, height) = (image.width(), image.height());
            let rgba = matches!(image, DynamicImage::ImageRgba8(_));
            Ok(Raster { image, width, height, rgba })
        },
        Err(e) => Err(e),
    }
}

/// Relies on `ImageError`'s `Display` impl for a diagnostic text.
#[verifier::external_body]
fn image_error_text(e: &ImageError) -> (r: String) {
    e.to_string()
}

/// Relies on `image::imageops::crop_imm`, which clamps the origin into the
/// image and cuts the size to what remains right of and below it, and on
/// `SubImage::to_image`, which copies that region into an RGBA buffer.
#[verifier::external_body]
fn crop_imm(src: &Raster, c: CropConfig) -> (r: Raster)
    ensures
        r.spec_width() == crop_region(src.spec_width() as int, src.spec_height() as int, c).2,
        r.spec_height() == crop_region(src.spec_width() as int, src.spec_height() as int, c).3,
        r.spec_is_rgba(),
{
    let buf = image::imageops::crop_imm(&src.image, c.x, c.y, c.width, c.height).to_image();
    let (width, height) = buf.dimensions();
    Raster { image: DynamicImage::ImageRgba8(buf), width, height, rgba: true }
}

/// Relies on `image::imageops::thumbnail`, a box-filter resample into a new
/// RGBA buffer of exactly the requested size; that buffer's constructor
/// panics when its length overflows `usize`, which `requires` rules out.
#[verifier::external_body]
fn thumbnail(src: &Raster, width: u32, height: u32) -> (r: Raster)
    requires
        4 * (width as int) * (height as int) <= usize::MAX as int,
    ensures
        r.spec_width() == width,
        r.spec_height() == height,
        r.spec_is_rgba(),
{
    let buf = image::imageops::thumbnail(&src.image, width, height);
    let (width, height) = buf.dimensions();
    Raster { image: DynamicImage::ImageRgba8(buf), width, height, rgba: true }
}

/// Decodes a raster in any format the `image` crate reads.
pub fn load_raster(data: &[u8]) -> (r: Result<Raster, EncodeError>)
    ensures
        r matches Ok(img) ==> loaded_size(data@) == Some((img.spec_width(), img.spec_height())),
        r is Err ==> loaded_size(data@) is None && r matches Err(EncodeError::UnreadableInput(_)),
{
    match load_from_memory(data) {
        Ok(img) => Ok(img),
        Err(e) => Err(EncodeError::UnreadableInput(image_error_text(&e))),
    }
}

/// Cuts the requested rectangle out of `image`, clamping it into the image;
/// the result is RGBA and never fails.
pub fn crop(image: &Raster, c: CropConfig) -> (r: Raster)
    ensures
        r.spec_width() == crop_region(image.spec_width() as int, image.spec_height() as int, c).2,
        r.spec_height() == crop_region(image.spec_width() as int, image.spec_height() as int, c).3,
        r.spec_is_rgba(),
{
    let clamped = clamp_crop(image.width(), image.height(), c);
    crop_imm(image, clamped)
}

/// Checks that a resize target can be filled.
fn check_target(w: u64, h: u64) -> (r: bool)
    ensures
        r == valid_target(w as int, h as int),
{
    if w == 0 || h == 0 || w > 0xffff_ffff || h > 0xffff_ffff {
        return false;
    }
    assert(4 * (w as int) * (h as int) <= 4 * 0xffff_ffffint * 0xffff_ffffint) by (nonlinear_arith)
        requires w <= 0xffff_ffffint, h <= 0xffff_ffffint, w >= 0, h >= 0;
    let area: u128 = 4 * (w as u128) * (h as u128);
    area <= usize::MAX as u128
}

/// Box-filter resample to `percent_bp` basis points of the source size.
pub fn resize_percent(image: &Raster, percent_bp: u32) -> (r: Result<Raster, EncodeError>)
    ensures
        transformed_size(image.spec_width() as int, image.spec_height() as int, GeometrySpec::Percent(percent_bp))
            matches Some(s) ==> (r matches Ok(img) && img.spec_width() == s.0 && img.spec_height() == s.1 && img.spec_is_rgba()),
        transformed_size(image.spec_width() as int, image.spec_height() as int, GeometrySpec::Percent(percent_bp))
            is None ==> r matches Err(EncodeError::InvalidGeometry),
{
    let (w, h) = resize_percent_dimensions(image.width(), image.height(), percent_bp);
    if !check_target(w, h) {
        return Err(EncodeError::InvalidGeometry);
    }
    Ok(thumbnail(image, w as u32, h as u32))
}

/// Box-filter resample to the requested size, keeping the source's aspect
/// ratio: one requested side is kept and the other derived.
pub fn resize_dimensions(image: &Raster, width: u32, height: u32) -> (r: Result<Raster, EncodeError>)
    ensures
        transformed_size(image.spec_width() as int, image.spec_height() as int, GeometrySpec::Dimensions(width, height))
            matches Some(s) ==> (r matches Ok(img) && img.spec_width() == s.0 && img.spec_height() == s.1 && img.spec_is_rgba()),
        transformed_size(image.spec_width() as int, image.spec_height() as int, GeometrySpec::Dimensions(width, height))
            is None ==> r matches Err(EncodeError::InvalidGeometry),
{
    let (w, h) = calc_dimension(image.width(), image.height(), width, height);
    if !check_target(w as u64, h as u64) {
        return Err(EncodeError::InvalidGeometry);
    }
    Ok(thumbnail(image, w, h))
}

/// Applies one transform to `image`; a crop or resize yields RGBA pixels.
pub fn transform(image: Raster, spec: GeometrySpec) -> (r: Result<Raster, EncodeError>)
    ensures
        transformed_size(image.spec_width() as int, image.spec_height() as int, spec)
            matches Some(s) ==> (r matches Ok(img) && img.spec_width() == s.0 && img.spec_height() == s.1),
        transformed_size(image.spec_width() as int, image.spec_height() as int, spec)
            is None ==> r matches Err(EncodeError::InvalidGeometry),
        r matches Ok(img) ==> img.spec_is_rgba() == (image.spec_is_rgba() || !(spec is NoOp)),
{
    match spec {
        GeometrySpec::Crop(c) => Ok(crop(&image, c)),
        GeometrySpec::Percent(bp) => resize_percent(&image, bp),
        GeometrySpec::Dimensions(w, h) => resize_dimensions(&image, w, h),
        GeometrySpec::NoOp => Ok(image),
    }
}

} // verus!
