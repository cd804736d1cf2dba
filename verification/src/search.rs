use vstd::prelude::*;

verus! {

/// One match of a terminal text search: the span from the start cell to the
/// end cell, columns and rows counted from the top of the screen.
#[derive(Debug, Default, Copy, Clone)]
pub struct GhosttyTerminalSearchMatch {
    /// Column of the first matched cell.
    pub start_x: u16,
    /// Row of the first matched cell.
    pub start_y: u32,
    /// Column of the last matched cell.
    pub end_x: u16,
    /// Row of the last matched cell.
    pub end_y: u32,
}

} // verus!
