//! The first step of a detection call: from the decoded image to what the
//! detector is to scan.

use vstd::prelude::*;
use crate::opt::Opt;
use crate::raster::Raster;
use crate::scan::{has_room, scan_range, SizeRange};

verus! {

/// What a detection call does with the image of a request.
#[derive(Debug)]
pub enum Plan {
    /// No window of the scan has a place in the image: the call finds no
    /// face, and no model runs.
    Nothing,
    /// The detector scans the raster with windows of the sizes in `range`.
    Scan { raster: Raster, range: SizeRange },
}

/// Settles the window sizes of the scan of a raster: from the options'
/// `min_size` to the width of the raster. An image too small for the
/// smallest window is no failure: the call then has nothing to find.
pub fn plan(opt: &Opt, raster: Raster) -> (r: Plan)
    ensures
        match r {
            Plan::Scan { raster: scanned, range } => {
                &&& scanned == raster
                &&& range.min_size == opt.min_size
                &&& range.max_size == raster.spec_width()
                &&& has_room(opt.min_size as nat, raster.spec_width() as nat)
                &&& has_room(opt.min_size as nat, raster.spec_height() as nat)
            },
            Plan::Nothing => !(has_room(opt.min_size as nat, raster.spec_width() as nat)
                && has_room(opt.min_size as nat, raster.spec_height() as nat)),
        },
{
    match scan_range(opt.min_size, raster.width(), raster.height()) {
        Some(range) => Plan::Scan { raster, range },
        None => Plan::Nothing,
    }
}

} // verus!
