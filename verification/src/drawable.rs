//! A minimal drawing abstraction: a value that can render itself given
//! some per-frame context, reporting a recoverable error instead of
//! crashing the frame.

use vstd::prelude::*;

verus! {

/// Something drawable against a caller-supplied context.
pub trait Drawable<ExtraData, Error> {
    /// Draw `self`, or report why it was skipped.
    fn draw(&self, extra_data: &mut ExtraData) -> Result<(), Error>;
}

} // verus!
