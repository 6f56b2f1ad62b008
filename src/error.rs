use vstd::prelude::*;

verus! {

/// Errors reported by the header decoder and the layout calculator.
#[derive(Clone, Copy, Debug, PartialEq, Eq, Structural)]
pub enum RomError {
    /// The buffer holds `length` bytes where at least `required` are needed.
    OutOfBounds { length: usize, required: usize },
    /// Fewer than one tile fits in a row of the canvas.
    InvalidConfiguration { canvas_width: u64, tile_pixel_width: u64 },
}

} // verus!
