//! Transcoding between raster images and WebP: geometry of resizes and
//! crops, codec settings, and the decode pipeline over libwebp.
pub mod geometry;
pub mod raster;
pub mod codec;
pub mod encode;
pub mod bitstream;
