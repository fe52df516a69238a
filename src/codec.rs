//! Codec settings resolved from a sparse request: the fixed tuning of this
//! engine, the lossless flag, the quality and the content hint.
use vstd::prelude::*;

verus! {

/// Quality used when a request gives none, in hundredths (60.0).
pub const DEFAULT_QUALITY_HUNDREDTHS: u32 = 6000;

/// Compression effort, from 0 (fast) to 6 (slow).
pub const METHOD: i32 = 2;

/// Spatial noise shaping strength.
pub const SNS_STRENGTH: i32 = 70;

/// Deblocking filter sharpness.
pub const FILTER_SHARPNESS: i32 = 0;

/// Deblocking filter strength.
pub const FILTER_STRENGTH: i32 = 25;

/// What kind of picture the encoder should tune for.
#[derive(Clone, Copy, Debug, PartialEq, Eq, Structural)]
pub enum ContentHint {
    /// Outdoor photograph, natural lighting.
    Photo,
    /// Digital picture, such as a portrait or an indoor shot.
    Picture,
}

/// A complete encoder configuration. Quality is kept in hundredths of a
/// point on the codec's 0 to 100 scale.
#[derive(Clone, Copy, Debug, PartialEq, Eq, Structural)]
pub struct CodecConfig {
    pub lossless: i32,
    pub quality_hundredths: u32,
    pub method: i32,
    pub image_hint: ContentHint,
    pub sns_strength: i32,
    pub filter_sharpness: i32,
    pub filter_strength: i32,
}

/// The quality asked for, or the default where none was.
pub open spec fn resolved_quality(quality_hundredths: Option<u32>) -> u32 {
    match quality_hundredths {
        Some(q) => q,
        None => DEFAULT_QUALITY_HUNDREDTHS,
    }
}

/// The configuration that a request resolves to.
pub open spec fn codec_config_of(lossless: i32, quality_hundredths: Option<u32>, hint: ContentHint) -> CodecConfig {
    CodecConfig {
        lossless,
        quality_hundredths: resolved_quality(quality_hundredths),
        method: METHOD,
        image_hint: hint,
        sns_strength: SNS_STRENGTH,
        filter_sharpness: FILTER_SHARPNESS,
        filter_strength: FILTER_STRENGTH,
    }
}

/// Resolves a request's codec options into a complete configuration.
pub fn webp_config(lossless: i32, quality_hundredths: Option<u32>, hint: ContentHint) -> (r: CodecConfig)
    ensures
        r == codec_config_of(lossless, quality_hundredths, hint),
{
    let quality = match quality_hundredths {
        Some(q) => q,
        None => DEFAULT_QUALITY_HUNDREDTHS,
    };
    CodecConfig {
        lossless,
        quality_hundredths: quality,
        method: METHOD,
        image_hint: hint,
        sns_strength: SNS_STRENGTH,
        filter_sharpness: FILTER_SHARPNESS,
        filter_strength: FILTER_STRENGTH,
    }
}

/// Leaving out the quality configures the codec exactly as asking for 60.0.
pub proof fn omitted_quality_is_sixty(lossless: i32, hint: ContentHint)
    ensures
        codec_config_of(lossless, None, hint) == codec_config_of(lossless, Some(6000), hint),
        codec_config_of(lossless, None, hint).quality_hundredths == 6000,
{
}

} // verus!
