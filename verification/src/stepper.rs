//! One step of the scheme: from the two retained slices to the next one.

use vstd::prelude::*;
use crate::arithmetic::{answers, functional, total, SimulationParameters, Update};
use crate::boundary::{absorb_boundary, absorbed, Boundaries};
use crate::field::{before, uniform, Field, Region};
use crate::obstacle::{apply_obstacles, masked, Obstacle};
use crate::registry::Registry;
use crate::rule::{apply_stencil, stenciled, Stencil};

verus! {

/// The cells of a grid of `nx` by `ny` cells that have four neighbours: all
/// but the outermost ring.
pub open spec fn spec_interior_region(nx: usize, ny: usize) -> Region {
    Region { x0: 1, y0: 1, x1: before(nx), y1: before(ny) }
}

/// Computes the cells of a grid of `nx` by `ny` cells that have four
/// neighbours.
#[verifier::when_used_as_spec(spec_interior_region)]
pub fn interior_region(nx: usize, ny: usize) -> (region: Region)
    ensures
        region == spec_interior_region(nx, ny),
{
    Region { x0: 1, y0: 1, x1: before(nx), y1: before(ny) }
}

/// The slice that the leapfrog rule makes of the slice one step back and
/// the latest slice, on a grid of `nx` by `ny` cells: the rule's answer in
/// every cell that has four neighbours, and `zero` in the outermost ring.
pub open spec fn interior_stepped<T>(
    arith: spec_fn(SimulationParameters<T>, Update<T>) -> T,
    params: SimulationParameters<T>,
    zero: T,
    nx: usize,
    ny: usize,
    previous: Seq<Seq<T>>,
    current: Seq<Seq<T>>,
) -> Seq<Seq<T>> {
    stenciled(
        arith,
        params,
        Stencil::Interior,
        interior_region(nx, ny),
        previous,
        current,
        uniform(nx as nat, ny as nat, zero),
    )
}

/// The next slice: the leapfrog rule on the two retained slices, then the
/// obstacles in registration order, then the four bands.
pub open spec fn next_slice<T>(
    arith: spec_fn(SimulationParameters<T>, Update<T>) -> T,
    params: SimulationParameters<T>,
    zero: T,
    obstacles: Seq<Option<Obstacle<T>>>,
    bands: Boundaries<T>,
    nx: usize,
    ny: usize,
    previous: Seq<Seq<T>>,
    current: Seq<Seq<T>>,
) -> Seq<Seq<T>> {
    absorbed(
        arith,
        params,
        bands,
        nx,
        ny,
        current,
        masked(
            arith,
            params,
            zero,
            obstacles,
            interior_stepped(arith, params, zero, nx, ny, previous, current),
        ),
    )
}

/// Computes the slice that the leapfrog rule makes of the slice one step
/// back and the latest slice.
pub fn interior_step<T: Copy, E: Fn(SimulationParameters<T>, Update<T>) -> T>(
    previous: &Field<T>,
    current: &Field<T>,
    zero: T,
    params: SimulationParameters<T>,
    eval: &E,
) -> (next: Field<T>)
    requires
        previous.wf(),
        current.wf(),
        previous.nx() == current.nx(),
        previous.ny() == current.ny(),
        total(eval),
        functional(eval),
    ensures
        next.wf(),
        next.nx() == current.nx(),
        next.ny() == current.ny(),
        next@ == interior_stepped(
            answers(eval),
            params,
            zero,
            current.nx(),
            current.ny(),
            previous@,
            current@,
        ),
{
    let nx = current.nx();
    let ny = current.ny();
    let mut next = Field::filled(nx, ny, zero);
    let region = interior_region(nx, ny);
    apply_stencil(&mut next, Stencil::Interior, region, previous, current, params, eval);
    next
}

/// Computes the next slice from the two retained slices: the leapfrog rule,
/// then the obstacles in registration order, then the four bands.
pub fn calculate_next_step<T: Copy, E: Fn(SimulationParameters<T>, Update<T>) -> T>(
    previous: &Field<T>,
    current: &Field<T>,
    zero: T,
    obstacles: &Registry<Obstacle<T>>,
    bands: Boundaries<T>,
    params: SimulationParameters<T>,
    eval: &E,
) -> (next: Field<T>)
    requires
        previous.wf(),
        current.wf(),
        previous.nx() == current.nx(),
        previous.ny() == current.ny(),
        total(eval),
        functional(eval),
    ensures
        next.wf(),
        next.nx() == current.nx(),
        next.ny() == current.ny(),
        next@ == next_slice(
            answers(eval),
            params,
            zero,
            obstacles@,
            bands,
            current.nx(),
            current.ny(),
            previous@,
            current@,
        ),
{
    let mut next = interior_step(previous, current, zero, params, eval);
    apply_obstacles(&mut next, obstacles, zero, params, eval);
    absorb_boundary(&mut next, bands, current, params, eval);
    next
}

} // verus!
