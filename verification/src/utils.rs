//! Resolving a raw terminal-size measurement into usable dimensions.

use vstd::prelude::*;

verus! {

/// Resolves a raw terminal measurement (`None` when none could be taken): a
/// measured size with positive extents is taken as is; a failed or
/// degenerate measurement (either extent zero) falls back to the 80-by-24
/// default.
pub fn get_terminal_size_or_default(measured: Option<(u16, u16)>) -> (size: (u16, u16))
    ensures
        size == (match measured {
            Some(wh) => if wh.0 > 0 && wh.1 > 0 { wh } else { (80u16, 24u16) },
            None => (80u16, 24u16),
        }),
        size.0 > 0,
        size.1 > 0,
{
    match measured {
        Some((w, h)) => {
            if w > 0 && h > 0 {
                (w, h)
            } else {
                (80, 24)
            }
        },
        None => (80, 24),
    }
}

} // verus!
