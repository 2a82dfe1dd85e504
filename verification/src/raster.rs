//! The image of a request: its bytes, and the grayscale raster that they
//! decode to.

use vstd::prelude::*;
use crate::error::DetectError;

verus! {

/// What `base64::decode` makes of a text: the bytes, or `None` where it
/// reports an error.
pub uninterp spec fn base64_decoding(text: Seq<char>) -> Option<Seq<u8>>;

/// Calls `base64::decode`, the standard alphabet with padding. The contract
/// only gives the outcome its name: equal texts decode alike.
#[verifier::external_body]
#[allow(deprecated)]
fn base64_decode(text: &str) -> (r: Result<Vec<u8>, base64::DecodeError>)
    ensures
        match r {
            Ok(bytes) => base64_decoding(text@) == Some(bytes@),
            Err(_) => base64_decoding(text@) is None,
        },
{
    base64::decode(text)
}

/// The bytes of the image file that a request carries as base64 text.
pub fn image_file(img: &str) -> (r: Result<Vec<u8>, DetectError>)
    ensures
        match r {
            Ok(bytes) => base64_decoding(img@) == Some(bytes@),
            Err(DetectError::Base64(_)) => base64_decoding(img@) is None,
            Err(_) => false,
        },
{
    match base64_decode(img) {
        Ok(bytes) => Ok(bytes),
        Err(e) => Err(DetectError::Base64(e)),
    }
}

/// A grayscale image: one byte for each pixel, row after row from the top.
#[derive(Debug)]
pub struct Raster {
    width: u32,
    height: u32,
    pixels: Vec<u8>,
}

impl Raster {
    #[verifier::type_invariant]
    spec fn well_formed(self) -> bool {
        self.pixels@.len() == self.width * self.height
    }

    /// Pixels in a row.
    pub closed spec fn spec_width(self) -> u32 {
        self.width
    }

    /// Number of rows.
    pub closed spec fn spec_height(self) -> u32 {
        self.height
    }

    /// The pixels, row after row.
    pub closed spec fn spec_pixels(self) -> Seq<u8> {
        self.pixels@
    }

    /// The raster of the given size over `pixels`, as a decoder hands them
    /// out. Pixels that are not one byte for each pixel are refused.
    pub fn from_parts(width: u32, height: u32, pixels: Vec<u8>) -> (r: Result<Raster, DetectError>)
        ensures
            match r {
                Ok(raster) => {
                    &&& pixels@.len() == width * height
                    &&& raster.spec_width() == width
                    &&& raster.spec_height() == height
                    &&& raster.spec_pixels() == pixels@
                },
                Err(DetectError::RasterLayout { width: w, height: h, len }) => {
                    &&& w == width
                    &&& h == height
                    &&& len == pixels@.len()
                    &&& len != width * height
                },
                Err(_) => false,
            },
    {
        assert(width * height <= u64::MAX) by (nonlinear_arith)
            requires
                width <= u32::MAX,
                height <= u32::MAX,
        ;
        let area: u64 = width as u64 * height as u64;
        let len = pixels.len();
        if len as u64 == area {
            Ok(Raster { width, height, pixels })
        } else {
            Err(DetectError::RasterLayout { width, height, len })
        }
    }

    /// Pixels in a row.
    pub fn width(&self) -> (w: u32)
        ensures
            w == self.spec_width(),
    {
        self.width
    }

    /// Number of rows.
    pub fn height(&self) -> (h: u32)
        ensures
            h == self.spec_height(),
    {
        self.height
    }

    /// The pixels, row after row: `width * height` of them.
    pub fn pixels(&self) -> (p: &[u8])
        ensures
            p@ == self.spec_pixels(),
            p@.len() == self.spec_width() * self.spec_height(),
    {
        proof {
            use_type_invariant(self);
        }
        self.pixels.as_slice()
    }

    /// Gives the pixels up: `width * height` of them.
    pub fn into_pixels(self) -> (p: Vec<u8>)
        ensures
            p@ == self.spec_pixels(),
            p@.len() == self.spec_width() * self.spec_height(),
    {
        proof {
            use_type_invariant(&self);
        }
        self.pixels
    }

    /// The pixel in column `x` of row `y`, where the raster has one.
    pub fn get(&self, x: u32, y: u32) -> (r: Option<u8>)
        ensures
            x < self.spec_width() && y < self.spec_height() ==> r == Some(
                self.spec_pixels()[y * self.spec_width() + x],
            ),
            !(x < self.spec_width() && y < self.spec_height()) ==> r is None,
    {
        proof {
            use_type_invariant(self);
        }
        if x < self.width && y < self.height {
            let (col, row): (u64, u64) = (x as u64, y as u64);
            let (w, h): (u64, u64) = (self.width as u64, self.height as u64);
            assert(0 <= row * w && row * w + col < w * h) by (nonlinear_arith)
                requires
                    col < w,
                    row < h,
            ;
            assert(w * h == self.pixels.len());
            let at: u64 = row * w + col;
            Some(self.pixels[at as usize])
        } else {
            None
        }
    }
}

} // verus!
