//! Detections, and the confidence floor that a cluster has to reach.

use vstd::prelude::*;
use vstd::arithmetic::power2::{pow2, lemma2_to64};
use crate::single::{Single, lemma_rounds_normal};

verus! {

/// Seed of the random source that the pupil search draws from. Each
/// detection call starts the source anew from it.
pub const PUPIL_SEED: u64 = 42;

/// Number of perturbed searches that one pupil estimate is taken from.
pub const PUPIL_PERTURBATIONS: usize = 31;

/// A point of the image.
#[derive(Clone, Copy, Debug)]
pub struct Point {
    pub x: Single,
    pub y: Single,
}

/// A square region that the detector took for a face, or a cluster of such.
#[derive(Clone, Copy, Debug)]
pub struct Detection {
    pub center: Point,
    /// Edge of the square.
    pub size: Single,
    pub score: Single,
}

/// `score < 40`.
pub open spec fn below_floor(score: Single) -> bool {
    !score.nan() && score.scaled() < 40 * pow2(149)
}

/// The detections that stay: those whose score is not below the floor.
pub open spec fn staying() -> spec_fn(Detection) -> bool {
    |d: Detection| d.survives()
}

/// The confidence floor, 40.
pub fn score_floor() -> (r: Single)
    ensures
        r.bits == 0x4220_0000,
        !r.nan(),
        r.scaled() == 40 * pow2(149),
{
    proof {
        lemma2_to64();
        lemma_rounds_normal(0x4220_0000, 132, 0x20_0000, 40, 1, 0x4_0000);
    }
    Single::from_bits(0x4220_0000)
}

impl Detection {
    /// The score is not below the floor.
    pub open spec fn survives(self) -> bool {
        !below_floor(self.score)
    }

    /// Whether the score is not below the floor.
    pub fn passes_floor(&self) -> (r: bool)
        ensures
            r == self.survives(),
    {
        !self.score.lt(score_floor())
    }
}

/// The clusters whose score is not below the floor, in the order given.
pub fn survivors(clusters: &Vec<Detection>) -> (kept: Vec<Detection>)
    ensures
        kept@ == clusters@.filter(staying()),
{
    let mut kept: Vec<Detection> = Vec::new();
    let mut i: usize = 0;
    proof {
        reveal(Seq::filter);
        assert(clusters@.take(0) =~= Seq::empty());
    }
    while i < clusters.len()
        invariant
            i <= clusters.len(),
            kept@ == clusters@.take(i as int).filter(staying()),
        decreases clusters.len() - i,
    {
        let d = clusters[i];
        proof {
            reveal(Seq::filter);
            let next = clusters@.take(i + 1);
            assert(next.drop_last() =~= clusters@.take(i as int));
            assert(next.last() == d);
        }
        if d.passes_floor() {
            kept.push(d);
        }
        i += 1;
    }
    proof {
        assert(clusters@.take(i as int) =~= clusters@);
    }
    kept
}

} // verus!
