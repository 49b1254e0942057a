//! The image encodings that a capture can ask for.

use crate::c;
use vstd::prelude::*;

verus! {

/// Image encoding format.
#[derive(Debug, Copy, Clone, PartialEq, Eq)]
pub enum Encoding {
    I420,
    Jpeg,
    RawBayer,
    Bmp,
    Png,
}

impl Encoding {
    /// The tag by which the native library knows the encoding.
    pub open spec fn spec_code(self) -> u32 {
        match self {
            Encoding::I420 => c::IMAGE_ENCODING_I420,
            Encoding::Jpeg => c::IMAGE_ENCODING_JPEG,
            Encoding::RawBayer => c::IMAGE_ENCODING_RAW_BAYER,
            Encoding::Bmp => c::IMAGE_ENCODING_BMP,
            Encoding::Png => c::IMAGE_ENCODING_PNG,
        }
    }

    /// The tag by which the native library knows the encoding.
    #[verifier::when_used_as_spec(spec_code)]
    pub fn code(self) -> (res: u32)
        ensures
            res == self.spec_code(),
    {
        match self {
            Encoding::I420 => c::IMAGE_ENCODING_I420,
            Encoding::Jpeg => c::IMAGE_ENCODING_JPEG,
            Encoding::RawBayer => c::IMAGE_ENCODING_RAW_BAYER,
            Encoding::Bmp => c::IMAGE_ENCODING_BMP,
            Encoding::Png => c::IMAGE_ENCODING_PNG,
        }
    }

    /// No two encodings share a tag.
    pub proof fn lemma_code_is_injective(a: Encoding, b: Encoding)
        requires
            a.code() == b.code(),
        ensures
            a == b,
    {
    }
}

} // verus!
