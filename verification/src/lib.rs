//! A recursive directory search library: walk a directory tree, admit files
//! by extension, count non-overlapping occurrences of a search term in each
//! admitted file's text, and render an aggregate report.

use vstd::prelude::*;

pub mod count;
pub mod filter;
pub mod notices;
pub mod options;
pub mod result;
pub mod render;
pub mod walk;

verus! {

/// Returns `min` when `nbr` is below it, `max` when `nbr` is above it, and
/// `nbr` itself otherwise.
pub fn clamp(nbr: usize, min: usize, max: usize) -> (r: usize)
    ensures
        nbr < min ==> r == min,
        !(nbr < min) && nbr > max ==> r == max,
        !(nbr < min) && !(nbr > max) ==> r == nbr,
{
    if nbr < min {
        min
    } else if nbr > max {
        max
    } else {
        nbr
    }
}

} // verus!
