//! The encode pipeline up to the codec: read the input raster, apply the one
//! transform that the request selects, and resolve the codec settings.
use vstd::prelude::*;

use crate::codec::{codec_config_of, webp_config, CodecConfig, ContentHint};
use crate::geometry::{select_geometry, select_spec, CropConfig, GeometrySpec};
use crate::raster::{load_raster, loaded_size, transform, transformed_size, EncodeError, Raster};

verus! {

/// A full encode request. Absent options are zero or `None`: a resize by
/// `resize_percent_bp` basis points when positive, a fit to `width` by
/// `height` when both are positive, and quality 60.0 when `quality_hundredths`
/// is `None`.
pub struct EncodeConfig {
    pub width: u32,
    pub height: u32,
    pub resize_percent_bp: u32,
    pub crop: Option<CropConfig>,
    pub lossless: i32,
    pub quality_hundredths: Option<u32>,
}

impl EncodeConfig {
    /// The one transform this request asks for: crop, then percentage, then
    /// size, then none.
    pub fn geometry(&self) -> (r: GeometrySpec)
        ensures
            r == select_spec(self.width, self.height, self.resize_percent_bp, self.crop),
    {
        select_geometry(self.width, self.height, self.resize_percent_bp, self.crop)
    }
}

/// A transformed picture with the settings to compress it with.
pub struct EncodeJob {
    pub image: Raster,
    pub config: CodecConfig,
}

/// The outcome of reading `body` and applying `spec` to it: `None` for
/// unreadable input, `Some(None)` for an invalid resize, and
/// `Some(Some(size))` for the size of the picture to compress.
pub open spec fn prepared_size(body: Seq<u8>, spec: GeometrySpec) -> Option<Option<(int, int)>> {
    match loaded_size(body) {
        None => None,
        Some(s) => Some(transformed_size(s.0 as int, s.1 as int, spec)),
    }
}

/// `r` is what preparing `body` with transform `spec` and settings `config`
/// owes: the error that `prepared_size` names, or a picture of its size
/// paired with `config`.
pub open spec fn prepared_as(body: Seq<u8>, spec: GeometrySpec, config: CodecConfig, r: Result<EncodeJob, EncodeError>) -> bool {
    match prepared_size(body, spec) {
        None => r matches Err(EncodeError::UnreadableInput(_)),
        Some(None) => r matches Err(EncodeError::InvalidGeometry),
        Some(Some(s)) => r matches Ok(job) && job.image.spec_width() == s.0
            && job.image.spec_height() == s.1 && job.config == config,
    }
}

/// Reads `body`, applies `spec` and pairs the result with `config`.
pub fn prepare(body: &[u8], spec: GeometrySpec, config: CodecConfig) -> (r: Result<EncodeJob, EncodeError>)
    ensures
        prepared_as(body@, spec, config, r),
{
    let image = match load_raster(body) {
        Ok(img) => img,
        Err(e) => return Err(e),
    };
    match transform(image, spec) {
        Ok(image) => Ok(EncodeJob { image, config }),
        Err(e) => Err(e),
    }
}

/// Prepares an encode from a full request, with the codec tuned for
/// digital pictures.
pub fn prepare_encode(body: &[u8], config: &EncodeConfig) -> (r: Result<EncodeJob, EncodeError>)
    ensures
        prepared_as(
            body@,
            select_spec(config.width, config.height, config.resize_percent_bp, config.crop),
            codec_config_of(config.lossless, config.quality_hundredths, ContentHint::Picture),
            r,
        ),
{
    let spec = config.geometry();
    let codec = webp_config(config.lossless, config.quality_hundredths, ContentHint::Picture);
    prepare(body, spec, codec)
}

/// Prepares an encode that fits the picture to `width` by `height` keeping
/// its aspect ratio, with the codec tuned for photographs. One requested side
/// is always kept and the other derived, so a zero there is ignored.
pub fn prepare_encode_resize(
    body: &[u8],
    width: u32,
    height: u32,
    lossless: i32,
    quality_hundredths: Option<u32>,
) -> (r: Result<EncodeJob, EncodeError>)
    ensures
        prepared_as(
            body@,
            GeometrySpec::Dimensions(width, height),
            codec_config_of(lossless, quality_hundredths, ContentHint::Photo),
            r,
        ),
{
    let codec = webp_config(lossless, quality_hundredths, ContentHint::Photo);
    prepare(body, GeometrySpec::Dimensions(width, height), codec)
}

} // verus!
