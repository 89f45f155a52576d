//! Reusable widgets of the front end.
//!
//! Drawing is the front end's work; the library fixes the widget state.

use vstd::prelude::*;

verus! {

/// The widget that renders one row of the surface table.
#[derive(Debug, Clone, Copy, PartialEq, Eq, Structural)]
pub struct SurfaceRow;

impl SurfaceRow {
    /// A surface-row widget.
    pub fn new() -> (r: SurfaceRow)
        ensures
            r == SurfaceRow,
    {
        SurfaceRow
    }
}

} // verus!
