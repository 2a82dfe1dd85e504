//! Why a detection call fails.

use vstd::prelude::*;

verus! {

/// The error of `base64::decode`; nothing of it is read here.
#[verifier::external_type_specification]
#[verifier::external_body]
pub struct ExBase64Error(base64::DecodeError);

/// Why a detection call fails. Each failure ends the whole call.
#[derive(Debug)]
pub enum DetectError {
    /// The request's image text is not base64.
    Base64(base64::DecodeError),
    /// A pixel buffer that does not hold one byte for each pixel.
    RasterLayout { width: u32, height: u32, len: usize },
    /// A landmark shape that does not have exactly five points.
    ShapeContract { len: usize },
}

} // verus!
