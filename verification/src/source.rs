//! Point sources: cells that are driven by a forcing function.

use vstd::prelude::*;
use crate::arithmetic::{answers, evaluate, functional, total, SimulationParameters, Update};
use crate::field::{is_grid, with_cell};
use crate::grid_buffer::GridBuffer;
use crate::registry::Registry;

verus! {

/// A point source: the cell it drives and the three constants of its
/// forcing function, an amplitude, an angular frequency and a phase.
#[derive(Debug, PartialEq)]
pub struct Source<T> {
    pub x: usize,
    pub y: usize,
    pub amplitude: T,
    pub frequency: T,
    pub phase: T,
}

impl<T: Copy> Clone for Source<T> {
    fn clone(&self) -> (copy: Self)
        ensures
            copy == *self,
    {
        *self
    }
}

impl<T: Copy> Copy for Source<T> {
}

/// The handle under which a source is registered.
#[derive(Clone, Copy, Debug, PartialEq, Eq, Structural)]
pub struct SourceId(pub usize);

/// `field` after one source has been injected at `time`: the cell that the
/// source drives holds the answer of `arith` to the source's amplitude, in
/// place of what it held. A source that drives no cell of the grid, or a
/// vacated position of the registry, changes nothing.
pub open spec fn injected_one<T>(
    arith: spec_fn(SimulationParameters<T>, Update<T>) -> T,
    params: SimulationParameters<T>,
    entry: Option<Source<T>>,
    time: T,
    field: Seq<Seq<T>>,
) -> Seq<Seq<T>> {
    match entry {
        Some(source) => if source.x < field.len() && source.y < field[source.x as int].len() {
            with_cell(
                field,
                source.x as int,
                source.y as int,
                arith(params, Update::Emit { source, time }),
            )
        } else {
            field
        },
        None => field,
    }
}

/// `field` after the sources have been injected at `time`, one after the
/// other in registration order: where two sources drive one cell, the later
/// one is left standing.
pub open spec fn injected<T>(
    arith: spec_fn(SimulationParameters<T>, Update<T>) -> T,
    params: SimulationParameters<T>,
    sources: Seq<Option<Source<T>>>,
    time: T,
    field: Seq<Seq<T>>,
) -> Seq<Seq<T>>
    decreases sources.len(),
{
    if sources.len() == 0 {
        field
    } else {
        injected_one(
            arith,
            params,
            sources.last(),
            time,
            injected(arith, params, sources.drop_last(), time, field),
        )
    }
}

/// Injection keeps the dimensions of the field.
pub proof fn lemma_injected_shape<T>(
    arith: spec_fn(SimulationParameters<T>, Update<T>) -> T,
    params: SimulationParameters<T>,
    sources: Seq<Option<Source<T>>>,
    time: T,
    field: Seq<Seq<T>>,
    nx: nat,
    ny: nat,
)
    requires
        is_grid(field, nx, ny),
    ensures
        is_grid(injected(arith, params, sources, time, field), nx, ny),
    decreases sources.len(),
{
    if sources.len() > 0 {
        lemma_injected_shape(arith, params, sources.drop_last(), time, field, nx, ny);
    }
}

/// Overwrites, in the latest slice of `grid`, the cell of each registered
/// source with the source's amplitude at `time`.
pub fn inject_sources<T: Copy, E: Fn(SimulationParameters<T>, Update<T>) -> T>(
    grid: &mut GridBuffer<T>,
    sources: &Registry<Source<T>>,
    time: T,
    params: SimulationParameters<T>,
    eval: &E,
)
    requires
        old(grid).wf(),
        total(eval),
        functional(eval),
    ensures
        final(grid).wf(),
        final(grid).nx() == old(grid).nx(),
        final(grid).ny() == old(grid).ny(),
        final(grid)@ == seq![old(grid)@[0], injected(answers(eval), params, sources@, time, old(grid)@[1])],
{
    let count = sources.len();
    let mut k: usize = 0;
    proof {
        old(grid).lemma_shape();
    }
    while k < count
        invariant
            grid.wf(),
            grid.nx() == old(grid).nx(),
            grid.ny() == old(grid).ny(),
            total(eval),
            functional(eval),
            count == sources@.len(),
            k <= count,
            grid@ == seq![
                old(grid)@[0],
                injected(answers(eval), params, sources@.take(k as int), time, old(grid)@[1]),
            ],
        decreases count - k,
    {
        proof {
            grid.lemma_shape();
            assert(sources@.take(k as int + 1).drop_last() =~= sources@.take(k as int));
        }
        match sources.get(k) {
            Some(source) => {
                if source.x < grid.nx() && source.y < grid.ny() {
                    let value = evaluate(eval, params, Update::Emit { source, time });
                    grid.store(source.x, source.y, value);
                }
            },
            None => {},
        }
        k += 1;
    }
    proof {
        assert(sources@.take(count as int) =~= sources@);
    }
}

} // verus!
