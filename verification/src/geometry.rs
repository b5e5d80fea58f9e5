//! Terminal geometry as the windowing ioctl reports it.
use vstd::prelude::*;

verus! {

/// Column/row geometry of a terminal. Pixel sizes are always zero in this
/// system and are therefore not modelled.
#[derive(Clone, Copy, PartialEq, Eq, Structural, Debug)]
pub struct PositionAndSize {
    pub columns: u16,
    pub rows: u16,
}

impl PositionAndSize {
    pub fn new(columns: u16, rows: u16) -> (r: PositionAndSize)
        ensures
            r.columns == columns,
            r.rows == rows,
    {
        PositionAndSize { columns, rows }
    }
}

} // verus!
