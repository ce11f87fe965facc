//! Decoded-image classification for atlas and font initialization.
//!
//! Image decoding itself happens outside this core (the decoder is a foreign
//! library); the decoded pixels arrive here as plain values.  This module
//! holds the verified acceptance rule: only an 8-bit RGBA layout is accepted,
//! anything else is an initialization error.

use vstd::prelude::*;

use crate::error::EngineError;

verus! {

/// An image decoded to 8-bit channel data: `data` holds
/// `width * height * channels` bytes, row-major, channels interleaved.
pub struct DecodedImage {
    /// Width in pixels.
    pub width: u32,
    /// Height in pixels.
    pub height: u32,
    /// Channels per pixel: 1 grayscale, 3 RGB (also a palette image expanded
    /// by the decoder), 4 RGBA.
    pub channels: u32,
    /// Raw channel bytes.
    pub data: Vec<u8>,
}

/// Whether a decode outcome is an acceptable atlas: decoding succeeded and
/// the pixel layout is RGBA.  Dimensions are unconstrained.
pub open spec fn rgba_accepted(img: Option<DecodedImage>) -> bool {
    match img {
        Some(i) => i.channels == 4,
        None => false,
    }
}

/// The exact error a decode outcome is rejected with.
pub open spec fn rgba_rejection(img: Option<DecodedImage>) -> EngineError {
    match img {
        Some(_) => EngineError::AtlasNotRgba,
        None => EngineError::AtlasDecodeFailed,
    }
}

/// Accept an atlas or font image if and only if it decoded to RGBA: a failed
/// decode and a non-RGBA layout (grayscale, palette-expanded RGB) are
/// initialization errors; an RGBA image of any dimensions is accepted whole.
pub fn check_rgba(img: Option<DecodedImage>) -> (r: Result<DecodedImage, EngineError>)
    ensures
        r is Ok <==> rgba_accepted(img),
        r matches Ok(i) ==> img == Some(i),
        r matches Err(e) ==> e == rgba_rejection(img),
{
    match img {
        None => Err(EngineError::AtlasDecodeFailed),
        Some(i) => {
            if i.channels == 4 {
                Ok(i)
            } else {
                Err(EngineError::AtlasNotRgba)
            }
        },
    }
}

} // verus!
