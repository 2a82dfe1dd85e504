//! Which window sizes a multiscale scan of an image can use.
//!
//! A scan tries square windows of growing edge. A window of edge `size` is
//! placed by its centre, and the centre keeps a margin of `size / 2 + 1`
//! pixels to each edge of the image. Where the smallest window already has
//! no place, no larger one has, and the scan has nothing to try.

use vstd::prelude::*;

verus! {

/// The window sizes of a scan: from `min_size` up to `max_size`.
#[derive(Clone, Copy, Debug, PartialEq, Eq, Structural)]
pub struct SizeRange {
    pub min_size: u32,
    pub max_size: u32,
}

/// Distance that the centre of a window of edge `size` keeps to the edges of
/// the image.
pub open spec fn margin(size: nat) -> nat {
    size / 2 + 1
}

/// Along an axis of `extent` pixels, a window of edge `size` may be centred
/// at `at`.
pub open spec fn tried(size: nat, at: int, extent: nat) -> bool {
    margin(size) <= at < extent - margin(size)
}

/// An axis of `extent` pixels has a place for a window of edge `size`.
pub open spec fn has_room(size: nat, extent: nat) -> bool {
    2 * margin(size) < extent
}

/// An axis has room for a window exactly when some centre may be tried.
pub proof fn lemma_room_is_a_place(size: nat, extent: nat)
    ensures
        has_room(size, extent) <==> exists|at: int| tried(size, at, extent),
{
    if has_room(size, extent) {
        assert(tried(size, margin(size) as int, extent));
    }
}

/// Where a window has room, each smaller one has.
pub proof fn lemma_room_for_smaller(small: nat, large: nat, extent: nat)
    requires
        small <= large,
        has_room(large, extent),
    ensures
        has_room(small, extent),
{
}

/// With a smallest window larger than an edge of the image, no window of
/// the scan has a place, and `scan_range` says so.
pub proof fn lemma_oversized_min_size(min_size: u32, width: u32, height: u32)
    requires
        min_size > width || min_size > height,
    ensures
        !(has_room(min_size as nat, width as nat) && has_room(min_size as nat, height as nat)),
        forall|size: nat, x: int, y: int|
            size >= min_size ==> !(#[trigger] tried(size, x, width as nat) && #[trigger] tried(
                size,
                y,
                height as nat,
            )),
{
}

/// The size range to scan an image of `width` by `height` pixels with, from
/// `min_size` to the image's width; `None` where no window of the scan has a
/// place in the image, so that the scan finds nothing.
pub fn scan_range(min_size: u32, width: u32, height: u32) -> (r: Option<SizeRange>)
    ensures
        r is Some <==> has_room(min_size as nat, width as nat) && has_room(
            min_size as nat,
            height as nat,
        ),
        r is None <==> forall|size: nat, x: int, y: int|
            size >= min_size ==> !(#[trigger] tried(size, x, width as nat) && #[trigger] tried(
                size,
                y,
                height as nat,
            )),
        r matches Some(range) ==> range.min_size == min_size && range.max_size == width
            && range.min_size < range.max_size,
{
    let twice: u64 = 2 * (min_size as u64 / 2 + 1);
    if twice < width as u64 && twice < height as u64 {
        proof {
            let at = margin(min_size as nat) as int;
            assert(tried(min_size as nat, at, width as nat) && tried(
                min_size as nat,
                at,
                height as nat,
            ));
        }
        Some(SizeRange { min_size, max_size: width })
    } else {
        None
    }
}

} // verus!
