//! Modules of a station laid out on a square grid, and the four directions
//! in which one module borders another.

use vstd::prelude::*;

verus! {

/// A step in space, in whole units along the three axes.
#[derive(Clone, Copy, Debug, PartialEq, Eq, Structural)]
pub struct Step {
    pub x: i32,
    pub y: i32,
    pub z: i32,
}

/// A place on the square grid of modules.
#[derive(Clone, Copy, Debug, PartialEq, Eq, Structural)]
pub struct GridPoint {
    pub x: i32,
    pub y: i32,
}

/// One of the four directions on the grid of modules.
#[derive(Clone, Copy, Debug, PartialEq, Eq, Structural)]
pub enum Dir {
    North,
    South,
    East,
    West,
}

impl Dir {
    /// The unit step in this direction: north is `+z`, south `-z`, east
    /// `-x` and west `+x`.
    pub open spec fn spec_to_vec(&self) -> Step {
        match self {
            Dir::North => Step { x: 0, y: 0, z: 1 },
            Dir::South => Step { x: 0, y: 0, z: -1i32 },
            Dir::East => Step { x: -1i32, y: 0, z: 0 },
            Dir::West => Step { x: 1, y: 0, z: 0 },
        }
    }

    /// The unit step in this direction.
    #[verifier::when_used_as_spec(spec_to_vec)]
    pub fn to_vec(&self) -> (step: Step)
        ensures
            step == self.spec_to_vec(),
    {
        match self {
            Dir::North => Step { x: 0, y: 0, z: 1 },
            Dir::South => Step { x: 0, y: 0, z: -1 },
            Dir::East => Step { x: -1, y: 0, z: 0 },
            Dir::West => Step { x: 1, y: 0, z: 0 },
        }
    }

    /// The four directions, clockwise from north.
    pub fn all() -> (dirs: Vec<Dir>)
        ensures
            dirs@ == seq![Dir::North, Dir::East, Dir::South, Dir::West],
    {
        let mut dirs: Vec<Dir> = Vec::new();
        dirs.push(Dir::North);
        dirs.push(Dir::East);
        dirs.push(Dir::South);
        dirs.push(Dir::West);
        dirs
    }
}

/// A module of the station.
#[derive(Clone, Copy, Debug, PartialEq, Eq, Structural)]
pub struct Module {
    pub position: GridPoint,
}

impl Module {
    /// The module at `(x, y)`.
    pub fn new(x: i32, y: i32) -> (module: Self)
        ensures
            module.position == (GridPoint { x, y }),
    {
        Module { position: GridPoint { x, y } }
    }
}

} // verus!
