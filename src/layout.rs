use vstd::prelude::*;

verus! {

/// A rectangle of terminal cells.
#[derive(Clone, Copy, Debug, PartialEq, Eq, Structural)]
pub struct Rect {
    pub x: u16,
    pub y: u16,
    pub width: u16,
    pub height: u16,
}

/// Whether the editor fits: at least 30 columns and 15 rows.
pub fn check_size(rect: &Rect) -> (r: bool)
    ensures
        r == (rect.width >= 30 && rect.height >= 15),
{
    !(rect.width < 30 || rect.height < 15)
}

} // verus!
