//! The two time-slices that the leapfrog scheme reads.

use vstd::prelude::*;
use crate::error::{accepted, refused, SimulationError};
use crate::field::{is_grid, uniform, with_cell, Field};

verus! {

/// The smallest extent along an axis that leaves an interior cell.
pub const MIN_EXTENT: usize = 3;

/// Two consecutive time-slices of one grid, the older first. However long
/// the run, no third slice is kept.
pub struct GridBuffer<T> {
    previous: Field<T>,
    current: Field<T>,
}

impl<T> View for GridBuffer<T> {
    type V = Seq<Seq<Seq<T>>>;

    /// The retained slices, oldest first.
    closed spec fn view(&self) -> Seq<Seq<Seq<T>>> {
        seq![self.previous@, self.current@]
    }
}

impl<T: Copy> GridBuffer<T> {
    /// The number of columns of the grid.
    pub closed spec fn spec_nx(&self) -> usize {
        self.current.nx()
    }

    /// The number of samples in a column of the grid.
    pub closed spec fn spec_ny(&self) -> usize {
        self.current.ny()
    }

    /// Exactly two slices are held, both of the grid's dimensions, and the
    /// grid has an interior cell.
    pub closed spec fn wf(&self) -> bool {
        &&& self.previous.wf()
        &&& self.current.wf()
        &&& self.previous.nx() == self.current.nx()
        &&& self.previous.ny() == self.current.ny()
        &&& self.current.nx() >= MIN_EXTENT
        &&& self.current.ny() >= MIN_EXTENT
    }

    /// What well-formedness means for the view.
    pub proof fn lemma_shape(&self)
        requires
            self.wf(),
        ensures
            self@.len() == 2,
            is_grid(self@[0], self.spec_nx() as nat, self.spec_ny() as nat),
            is_grid(self@[1], self.spec_nx() as nat, self.spec_ny() as nat),
            self.spec_nx() >= MIN_EXTENT,
            self.spec_ny() >= MIN_EXTENT,
    {
    }

    /// A buffer for a grid of `nx` by `ny` cells whose two slices hold `fill`
    /// everywhere. A grid with fewer than three cells along an axis is
    /// refused.
    pub fn new(nx: usize, ny: usize, fill: T) -> (made: Result<Self, SimulationError>)
        ensures
            match made {
                Ok(buffer) => {
                    &&& nx >= MIN_EXTENT
                    &&& ny >= MIN_EXTENT
                    &&& buffer.wf()
                    &&& buffer.spec_nx() == nx
                    &&& buffer.spec_ny() == ny
                    &&& buffer@ == seq![
                        uniform(nx as nat, ny as nat, fill),
                        uniform(nx as nat, ny as nat, fill),
                    ]
                },
                Err(error) => {
                    &&& error == SimulationError::InvalidDimensions
                    &&& (nx < MIN_EXTENT || ny < MIN_EXTENT)
                },
            },
    {
        if nx < MIN_EXTENT || ny < MIN_EXTENT {
            return Err(SimulationError::InvalidDimensions);
        }
        let previous = Field::filled(nx, ny, fill);
        let current = Field::filled(nx, ny, fill);
        Ok(GridBuffer { previous, current })
    }

    /// The number of columns of the grid.
    #[verifier::when_used_as_spec(spec_nx)]
    pub fn nx(&self) -> (n: usize)
        ensures
            n == self.spec_nx(),
    {
        self.current.nx()
    }

    /// The number of samples in a column of the grid.
    #[verifier::when_used_as_spec(spec_ny)]
    pub fn ny(&self) -> (n: usize)
        ensures
            n == self.spec_ny(),
    {
        self.current.ny()
    }

    /// The latest slice.
    pub fn current(&self) -> (slice: &Field<T>)
        requires
            self.wf(),
        ensures
            slice@ == self@[1],
            slice.wf(),
            slice.nx() == self.nx(),
            slice.ny() == self.ny(),
    {
        &self.current
    }

    /// The slice one step back.
    pub fn previous(&self) -> (slice: &Field<T>)
        requires
            self.wf(),
        ensures
            slice@ == self@[0],
            slice.wf(),
            slice.nx() == self.nx(),
            slice.ny() == self.ny(),
    {
        &self.previous
    }

    /// Makes `new_slice` the latest slice: the oldest slice is dropped and
    /// the former latest becomes the slice one step back. A slice of other
    /// dimensions than the grid's is refused, and the buffer stays as it was.
    pub fn commit(&mut self, new_slice: Field<T>) -> (done: Result<(), SimulationError>)
        requires
            old(self).wf(),
            new_slice.wf(),
        ensures
            final(self).wf(),
            final(self).nx() == old(self).nx(),
            final(self).ny() == old(self).ny(),
            new_slice.nx() == old(self).nx() && new_slice.ny() == old(self).ny() ==> done == accepted() && final(self)@ == seq![old(self)@[1], new_slice@],
            new_slice.nx() != old(self).nx() || new_slice.ny() != old(self).ny() ==> done == refused(SimulationError::InvalidDimensions) && final(self)@ == old(self)@,
    {
        if new_slice.nx() != self.current.nx() || new_slice.ny() != self.current.ny() {
            return Err(SimulationError::InvalidDimensions);
        }
        std::mem::swap(&mut self.previous, &mut self.current);
        self.current = new_slice;
        Ok(())
    }

    /// Replaces the sample at `(x, y)` of the latest slice.
    pub fn store(&mut self, x: usize, y: usize, value: T)
        requires
            old(self).wf(),
            x < old(self).nx(),
            y < old(self).ny(),
        ensures
            final(self).wf(),
            final(self).nx() == old(self).nx(),
            final(self).ny() == old(self).ny(),
            final(self)@ == seq![old(self)@[0], with_cell(old(self)@[1], x as int, y as int, value)],
    {
        self.current.set(x, y, value);
    }

    /// Makes both slices equal to `slice`. A slice of other dimensions than
    /// the grid's is refused, and the buffer stays as it was.
    pub fn reset(&mut self, slice: Field<T>) -> (done: Result<(), SimulationError>)
        requires
            old(self).wf(),
            slice.wf(),
        ensures
            final(self).wf(),
            final(self).nx() == old(self).nx(),
            final(self).ny() == old(self).ny(),
            slice.nx() == old(self).nx() && slice.ny() == old(self).ny() ==> done == accepted() && final(self)@ == seq![slice@, slice@],
            slice.nx() != old(self).nx() || slice.ny() != old(self).ny() ==> done == refused(SimulationError::InvalidDimensions) && final(self)@ == old(self)@,
    {
        if slice.nx() != self.current.nx() || slice.ny() != self.current.ny() {
            return Err(SimulationError::InvalidDimensions);
        }
        self.previous = slice.duplicate();
        self.current = slice;
        Ok(())
    }
}

} // verus!
