//! The options of a detection call, and the request that may override them.

use vstd::prelude::*;
use vstd::arithmetic::power2::{pow2, lemma2_to64, lemma_pow2_pos};
use crate::single::{Single, lemma_rounds_normal};

verus! {

/// Options of one detection call.
#[derive(Clone, Copy, Debug)]
pub struct Opt {
    /// Edge of the smallest window that the scan tries, in pixels.
    pub min_size: u32,
    /// Growth of the window's edge from one pass of the scan to the next.
    pub scale_factor: Single,
    /// Step of the scan, as a fraction of the window's edge.
    pub shift_factor: Single,
    /// Two detections whose overlap ratio is above this join one cluster.
    pub threshold: Single,
}

impl Opt {
    /// The options used where a request names none.
    pub open spec fn defaults() -> Opt {
        Opt {
            min_size: 100,
            scale_factor: Single { bits: 0x3F8C_CCCD },
            shift_factor: Single { bits: 0x3DCC_CCCD },
            threshold: Single { bits: 0x3E4C_CCCD },
        }
    }

    /// What a detection call asks of its options: `min_size >= 1`,
    /// `scale_factor > 1`, `0 < shift_factor <= 1` and `0 <= threshold <= 1`.
    pub open spec fn valid(self) -> bool {
        &&& self.min_size >= 1
        &&& !self.scale_factor.nan() && self.scale_factor.scaled() > pow2(149)
        &&& !self.shift_factor.nan() && 0 < self.shift_factor.scaled() <= pow2(149)
        &&& !self.threshold.nan() && 0 <= self.threshold.scaled() <= pow2(149)
    }

    /// A scan can run with these options: they are valid, and the shift
    /// factor is below 1, as the scanner asks beyond that.
    pub open spec fn fit_to_scan(self) -> bool {
        self.valid() && self.shift_factor.scaled() < pow2(149)
    }

    /// Whether a scan can run with these options.
    pub fn scannable(&self) -> (r: bool)
        ensures
            r == self.fit_to_scan(),
            r == (self.valid() && self.shift_factor.less(Single { bits: 0x3F80_0000 })),
    {
        self.is_valid() && self.shift_factor.lt(Single::one())
    }

    /// Whether the options are such as a detection call asks for.
    pub fn is_valid(&self) -> (r: bool)
        ensures
            r == self.valid(),
    {
        let zero = Single::zero();
        let one = Single::one();
        self.min_size >= 1 && one.lt(self.scale_factor) && zero.lt(self.shift_factor)
            && self.shift_factor.le(one) && zero.le(self.threshold) && self.threshold.le(one)
    }
}

/// The default options are a smallest window of 100 pixels and the single
/// precision numbers nearest to 1.1, 0.1 and 0.2; they are valid options.
pub proof fn lemma_defaults()
    ensures
        Opt::defaults().min_size == 100,
        Opt::defaults().scale_factor.rounds(11, 10),
        Opt::defaults().shift_factor.rounds(1, 10),
        Opt::defaults().threshold.rounds(1, 5),
        Opt::defaults().valid(),
{
    lemma2_to64();
    lemma_rounds_normal(0x3F8C_CCCD, 127, 0x0C_CCCD, 11, 10, 0x80_0000);
    lemma_rounds_normal(0x3DCC_CCCD, 123, 0x4C_CCCD, 1, 10, 0x800_0000);
    lemma_rounds_normal(0x3E4C_CCCD, 124, 0x4C_CCCD, 1, 5, 0x400_0000);
    lemma_pow2_pos(126);
    lemma_pow2_pos(122);
    lemma_pow2_pos(123);
}

impl Default for Opt {
    fn default() -> (r: Opt)
        ensures
            r == Opt::defaults(),
            r.min_size == 100,
            r.scale_factor.rounds(11, 10),
            r.shift_factor.rounds(1, 10),
            r.threshold.rounds(1, 5),
            r.valid(),
    {
        proof {
            lemma_defaults();
        }
        Opt {
            min_size: 100,
            scale_factor: Single::from_bits(0x3F8C_CCCD),
            shift_factor: Single::from_bits(0x3DCC_CCCD),
            threshold: Single::from_bits(0x3E4C_CCCD),
        }
    }
}

/// A detection request: the image, and the options that it sets itself.
#[derive(Clone, Debug)]
pub struct PostData {
    /// The image file, in base64.
    pub img: String,
    pub min_size: Option<u32>,
    pub shift_factor: Option<Single>,
    pub scale_factor: Option<Single>,
    pub threshold: Option<Single>,
}

impl PostData {
    /// The options of this request: each one that it names, and the default
    /// for each that it leaves out.
    pub open spec fn options(&self) -> Opt {
        Opt {
            min_size: match self.min_size {
                Some(v) => v,
                None => Opt::defaults().min_size,
            },
            scale_factor: match self.scale_factor {
                Some(v) => v,
                None => Opt::defaults().scale_factor,
            },
            shift_factor: match self.shift_factor {
                Some(v) => v,
                None => Opt::defaults().shift_factor,
            },
            threshold: match self.threshold {
                Some(v) => v,
                None => Opt::defaults().threshold,
            },
        }
    }

    /// The options of this request.
    pub fn opt(&self) -> (r: Opt)
        ensures
            r == self.options(),
    {
        let mut opt = Opt::default();
        if let Some(min_size) = self.min_size {
            opt.min_size = min_size;
        }
        if let Some(scale_factor) = self.scale_factor {
            opt.scale_factor = scale_factor;
        }
        if let Some(shift_factor) = self.shift_factor {
            opt.shift_factor = shift_factor;
        }
        if let Some(threshold) = self.threshold {
            opt.threshold = threshold;
        }
        opt
    }
}

} // verus!
