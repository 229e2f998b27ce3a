//! The size bookkeeping of the full-screen layers: a 3D canvas, a 2D canvas
//! above it, and an HTML layer on top.
use vstd::prelude::*;

verus! {

/// Stacking order of the 3D canvas.
pub const MAIN_3D_Z_INDEX: i64 = 0;

/// Stacking order of the 2D canvas.
pub const MAIN_2D_Z_INDEX: i64 = 1;

/// Stacking order of the HTML layer.
pub const HTML_Z_INDEX: i64 = 2;

/// The size, in pixels, that the canvases are given.
#[derive(Clone, Copy, Debug, PartialEq, Eq)]
pub struct LayerSize {
    pub width: i64,
    pub height: i64,
}

impl LayerSize {
    /// The size before the window has been measured.
    pub fn new() -> (r: LayerSize)
        ensures
            r == (LayerSize { width: 0, height: 0 }),
    {
        LayerSize { width: 0, height: 0 }
    }

    /// Takes each window dimension that could be measured. Returns whether
    /// either was, in which case the canvases are to be resized to the new size.
    pub fn check_resized(&mut self, inner_width: Option<i64>, inner_height: Option<i64>) -> (updated: bool)
        ensures
            updated == (inner_width is Some || inner_height is Some),
            final(self).width == match inner_width {
                Some(w) => w,
                None => old(self).width,
            },
            final(self).height == match inner_height {
                Some(h) => h,
                None => old(self).height,
            },
    {
        let mut updated = false;
        if let Some(width) = inner_width {
            self.width = width;
            updated = true;
        }
        if let Some(height) = inner_height {
            self.height = height;
            updated = true;
        }
        updated
    }
}

} // verus!
