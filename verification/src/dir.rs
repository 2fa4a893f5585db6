use vstd::prelude::*;

verus! {

use crate::cell::Cell;

/// One of the four compass headings the agent can face.
#[derive(Debug, Clone, Copy, PartialEq, Eq, Structural)]
pub enum Dir {
    East,
    North,
    West,
    South,
}

/// One quarter turn counterclockwise.
pub open spec fn spec_rotate_ccw(d: Dir) -> Dir {
    match d {
        Dir::East => Dir::North,
        Dir::North => Dir::West,
        Dir::West => Dir::South,
        Dir::South => Dir::East,
    }
}

/// One quarter turn clockwise.
pub open spec fn spec_rotate_cw(d: Dir) -> Dir {
    match d {
        Dir::East => Dir::South,
        Dir::North => Dir::East,
        Dir::West => Dir::North,
        Dir::South => Dir::West,
    }
}

/// The unit step vector of a heading, as mathematical integers.
pub open spec fn spec_dir_vec(d: Dir) -> (int, int) {
    match d {
        Dir::East => (1int, 0int),
        Dir::North => (0int, 1int),
        Dir::West => (-1int, 0int),
        Dir::South => (0int, -1int),
    }
}

impl Dir {
    pub fn rotate_ccw(self) -> (r: Dir)
        ensures
            r == spec_rotate_ccw(self),
    {
        match self {
            Dir::East => Dir::North,
            Dir::North => Dir::West,
            Dir::West => Dir::South,
            Dir::South => Dir::East,
        }
    }

    pub fn rotate_cw(self) -> (r: Dir)
        ensures
            r == spec_rotate_cw(self),
    {
        match self {
            Dir::East => Dir::South,
            Dir::North => Dir::East,
            Dir::West => Dir::North,
            Dir::South => Dir::West,
        }
    }

    /// The unit step vector of this heading as a grid cell offset.
    pub fn to_ivec(self) -> (v: Cell)
        ensures
            v@ == spec_dir_vec(self),
    {
        match self {
            Dir::East => Cell { x: 1, y: 0 },
            Dir::North => Cell { x: 0, y: 1 },
            Dir::West => Cell { x: -1, y: 0 },
            Dir::South => Cell { x: 0, y: -1 },
        }
    }
}

/// Law: the two quarter turns are mutually inverse, and four quarter
/// turns in either direction return every heading to itself.
pub proof fn lemma_rotations(d: Dir)
    ensures
        spec_rotate_cw(spec_rotate_ccw(d)) == d,
        spec_rotate_ccw(spec_rotate_cw(d)) == d,
        spec_rotate_cw(spec_rotate_cw(spec_rotate_cw(spec_rotate_cw(d)))) == d,
        spec_rotate_ccw(spec_rotate_ccw(spec_rotate_ccw(spec_rotate_ccw(d)))) == d,
{
}

} // verus!
