//! Grid shape validation.
//!
//! A grid is an ordered sequence of columns, each an ordered sequence of
//! cells. The encoder accepts a grid only if both axes are non-empty and
//! every column has the same height.

use vstd::prelude::*;

use crate::error::Error;

verus! {

/// The number of columns of a grid.
pub open spec fn grid_width<T>(g: Seq<Vec<T>>) -> int {
    g.len() as int
}

/// The height of the first column; the height every other column must match.
pub open spec fn grid_height<T>(g: Seq<Vec<T>>) -> int {
    if g.len() > 0 {
        g[0]@.len() as int
    } else {
        0
    }
}

/// Every column has the height of the first column.
pub open spec fn grid_uniform<T>(g: Seq<Vec<T>>) -> bool {
    forall|i: int| 0 <= i < g.len() ==> (#[trigger] g[i])@.len() == grid_height(g)
}

/// A grid the encoder accepts: both axes positive, all columns equal.
pub open spec fn grid_ok<T>(g: Seq<Vec<T>>) -> bool {
    grid_width(g) >= 1 && grid_height(g) >= 1 && grid_uniform(g)
}

/// Checks a submitted grid's shape against the encoder invariants.
///
/// `frame_index` is the session's current frame count; it identifies the
/// offending frame when columns disagree. No side effects.
pub fn validate<T>(grid: &[Vec<T>], frame_index: usize) -> (r: Result<(), Error>)
    ensures
        r is Ok <==> grid_ok(grid@),
        (r matches Err(Error::InvalidFrameDimensions(p)) <==> grid_width(grid@) == 0
            || grid_height(grid@) == 0),
        (r matches Err(Error::InvalidFrameDimensions(p)) ==> p.0 as int == grid_width(grid@)
            && p.1 as int == grid_height(grid@)),
        (r matches Err(Error::InconsistentGridHeight(i)) <==> grid_width(grid@) >= 1
            && grid_height(grid@) >= 1 && !grid_uniform(grid@)),
        (r matches Err(Error::InconsistentGridHeight(i)) ==> i == frame_index),
{
    let width = grid.len();
    let height = if width > 0 {
        grid[0].len()
    } else {
        0
    };
    if width == 0 || height == 0 {
        return Err(Error::InvalidFrameDimensions((width, height)));
    }
    let mut i: usize = 1;
    while i < width
        invariant
            1 <= i <= width,
            width == grid@.len(),
            height >= 1,
            height as int == grid_height(grid@),
            forall|j: int| 0 <= j < i ==> (#[trigger] grid@[j])@.len() == height,
        decreases width - i,
    {
        if grid[i].len() != height {
            proof {
                assert((grid@[i as int])@.len() != grid_height(grid@));
            }
            return Err(Error::InconsistentGridHeight(frame_index));
        }
        i += 1;
    }
    Ok(())
}

} // verus!
