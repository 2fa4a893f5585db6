use vstd::prelude::*;

verus! {

/// An integer 2D grid coordinate, with `y` increasing upward.
///
/// Coordinates may be negative or otherwise out of range; the level
/// treats every cell outside its bounds as blocked rather than as an
/// error, so a `Cell` carries no invariant of its own.
#[derive(Debug, Clone, Copy, PartialEq, Eq, Structural)]
pub struct Cell {
    pub x: i32,
    pub y: i32,
}

impl View for Cell {
    type V = (int, int);

    open spec fn view(&self) -> (int, int) {
        (self.x as int, self.y as int)
    }
}

impl Cell {
    pub fn new(x: i32, y: i32) -> (c: Cell)
        ensures
            c == (Cell { x, y }),
    {
        Cell { x, y }
    }
}

} // verus!
