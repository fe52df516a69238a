//! WebP bitstreams: header inspection and the whole-buffer decode to raw
//! interleaved RGB or RGBA bytes.
use vstd::prelude::*;

verus! {

/// How a bitstream's image data is coded.
#[derive(Clone, Copy, Debug, PartialEq, Eq, Structural)]
pub enum BitstreamFormat {
    /// Mixed, or not stated.
    Undefined,
    Lossy,
    Lossless,
}

/// What a bitstream's header says about its image.
#[derive(Clone, Copy, Debug, PartialEq, Eq, Structural)]
pub struct BitstreamFeatures {
    pub width: u32,
    pub height: u32,
    pub has_alpha: bool,
    pub has_animation: bool,
    pub format: Option<BitstreamFormat>,
}

/// Why a decode produced no pixels.
#[derive(Clone, Copy, Debug, PartialEq, Eq, Structural)]
pub enum DecodeError {
    /// The header cannot be read as a WebP bitstream.
    UnreadableInput,
    /// The bitstream is animated; nothing was decoded.
    AnimationUnsupported,
    /// The header reads but the codec returned no image.
    DecodeProducedNoImage,
    /// The output buffer could not be allocated.
    AllocationFailed,
}

/// The features that libwebp's `WebPGetFeatures` reads from the header of
/// `data`; `None` where it does not report success.
pub uninterp spec fn header_of(data: Seq<u8>) -> Option<BitstreamFeatures>;

/// The raw pixels that libwebp decodes from `data`; `None` where it decodes
/// nothing.
pub uninterp spec fn pixels_of(data: Seq<u8>) -> Option<Seq<u8>>;

/// Bytes per pixel: four with alpha, three without.
pub open spec fn channel_count(has_alpha: bool) -> nat {
    if has_alpha {
        4
    } else {
        3
    }
}

/// Length of a decoded buffer: every pixel of the image, no padding.
pub open spec fn buffer_len(f: BitstreamFeatures) -> int {
    channel_count(f.has_alpha) * f.width * f.height
}

/// Relies on `webp::BitstreamFeatures::new`, which calls libwebp's
/// `WebPGetFeatures` on the header and reads its fields.
#[verifier::external_body]
fn read_header(data: &[u8]) -> (r: Option<BitstreamFeatures>)
    ensures
        r == header_of(data@),
{
    let f = webp::BitstreamFeatures::new(data)?;
    let format = match f.format() {
        Some(webp::BitstreamFormat::Undefined) => Some(BitstreamFormat::Undefined),
        Some(webp::BitstreamFormat::Lossy) => Some(BitstreamFormat::Lossy),
        Some(webp::BitstreamFormat::Lossless) => Some(BitstreamFormat::Lossless),
        None => None,
    };
    Some(BitstreamFeatures {
        width: f.width(),
        height: f.height(),
        has_alpha: f.has_alpha(),
        has_animation: f.has_animation(),
        format,
    })
}

/// Relies on `webp::Decoder::decode`: it reads the features as
/// `read_header` does, returns nothing for an unreadable header, an animation
/// or a null result of `WebPDecodeRGBA` / `WebPDecodeRGB`, and otherwise hands
/// the codec's buffer of `channels * width * height` bytes to a `WebPImage`,
/// whose drop frees it with `WebPFree` after the bytes are copied out here.
#[verifier::external_body]
fn decode_webp(data: &[u8]) -> (r: Option<Vec<u8>>)
    ensures
        r matches Some(v) ==> pixels_of(data@) == Some(v@),
        r is None ==> pixels_of(data@) is None,
        r matches Some(v) ==> (header_of(data@) matches Some(f) && !f.has_animation
            && v@.len() == buffer_len(f)),
{
    match webp::Decoder::new(data).decode() {
        Some(image) => Some(image.to_vec()),
        None => None,
    }
}

impl BitstreamFeatures {
    /// Reads the header of a WebP bitstream without decoding its pixels.
    pub fn new(data: &[u8]) -> (r: Option<Self>)
        ensures
            r == header_of(data@),
    {
        read_header(data)
    }

    /// Returns the width of the image as described by the bitstream in pixels.
    pub fn width(&self) -> (r: u32)
        ensures
            r == self.width,
    {
        self.width
    }

    /// Returns the height of the image as described by the bitstream in pixels.
    pub fn height(&self) -> (r: u32)
        ensures
            r == self.height,
    {
        self.height
    }

    /// Returns true if the image as described by the bitstream has an alpha channel.
    pub fn has_alpha(&self) -> (r: bool)
        ensures
            r == self.has_alpha,
    {
        self.has_alpha
    }

    /// Returns true if the image as described by the bitstream is animated.
    pub fn has_animation(&self) -> (r: bool)
        ensures
            r == self.has_animation,
    {
        self.has_animation
    }

    /// Returns the format of the image as described by the bitstream.
    pub fn format(&self) -> (r: Option<BitstreamFormat>)
        ensures
            r == self.format,
    {
        self.format
    }

    /// Bytes per pixel of the decoded image.
    pub fn channel_count(&self) -> (r: u32)
        ensures
            r == channel_count(self.has_alpha),
    {
        if self.has_alpha {
            4
        } else {
            3
        }
    }
}

/// What `decode` owes on `data`.
pub open spec fn decoded_as(data: Seq<u8>, r: Result<Vec<u8>, DecodeError>) -> bool {
    match header_of(data) {
        None => r == Err::<Vec<u8>, DecodeError>(DecodeError::UnreadableInput),
        Some(f) => if f.has_animation {
            r == Err::<Vec<u8>, DecodeError>(DecodeError::AnimationUnsupported)
        } else {
            match pixels_of(data) {
                None => r == Err::<Vec<u8>, DecodeError>(DecodeError::DecodeProducedNoImage),
                Some(p) => r matches Ok(v) && v@ == p && p.len() == buffer_len(f),
            }
        },
    }
}

/// Decodes a whole WebP bitstream to raw interleaved pixels, RGBA where the
/// header signals alpha and RGB otherwise. Animations are refused after
/// reading the header alone.
pub fn decode(data: &[u8]) -> (r: Result<Vec<u8>, DecodeError>)
    ensures
        decoded_as(data@, r),
{
    let features = match BitstreamFeatures::new(data) {
        Some(f) => f,
        None => return Err(DecodeError::UnreadableInput),
    };
    if features.has_animation() {
        return Err(DecodeError::AnimationUnsupported);
    }
    match decode_webp(data) {
        Some(pixels) => Ok(pixels),
        None => Err(DecodeError::DecodeProducedNoImage),
    }
}

/// Every successful decode returns exactly one buffer's worth of bytes for
/// the header's size and alpha, and only for a still image.
pub proof fn decoded_length(data: Seq<u8>, r: Result<Vec<u8>, DecodeError>)
    requires
        decoded_as(data, r),
        r is Ok,
    ensures
        header_of(data) matches Some(f) && !f.has_animation && r->Ok_0@.len() == buffer_len(f),
{
}

/// A header that signals animation always gives `AnimationUnsupported`.
pub proof fn animation_refused(data: Seq<u8>, r: Result<Vec<u8>, DecodeError>)
    requires
        decoded_as(data, r),
        header_of(data) matches Some(f) && f.has_animation,
    ensures
        r == Err::<Vec<u8>, DecodeError>(DecodeError::AnimationUnsupported),
{
}

} // verus!
