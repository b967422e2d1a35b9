//! Obstacles: rectangles of cells in which the wave is blocked or damped.

use vstd::prelude::*;
use crate::arithmetic::{answers, functional, total, SimulationParameters, Update};
use crate::field::{is_grid, with_rect, Field, Region};
use crate::registry::Registry;
use crate::rule::{scale_rect, scaled};

verus! {

/// What an obstacle does to the samples in its rectangle.
#[derive(Debug, PartialEq)]
pub enum ObstaclePolicy<T> {
    /// Every sample becomes zero.
    Block,
    /// Every sample is multiplied by the factor.
    Attenuate(T),
}

impl<T: Copy> Clone for ObstaclePolicy<T> {
    fn clone(&self) -> (copy: Self)
        ensures
            copy == *self,
    {
        *self
    }
}

impl<T: Copy> Copy for ObstaclePolicy<T> {
}

/// An obstacle: a rectangle of cells and the policy that holds there.
#[derive(Debug, PartialEq)]
pub struct Obstacle<T> {
    pub region: Region,
    pub policy: ObstaclePolicy<T>,
}

impl<T: Copy> Clone for Obstacle<T> {
    fn clone(&self) -> (copy: Self)
        ensures
            copy == *self,
    {
        *self
    }
}

impl<T: Copy> Copy for Obstacle<T> {
}

/// The handle under which an obstacle is registered.
#[derive(Clone, Copy, Debug, PartialEq, Eq, Structural)]
pub struct ObstacleId(pub usize);

/// `field` after one obstacle has been applied: in the obstacle's rectangle
/// a `Block` leaves `zero`, an `Attenuate` the answer of `arith` to the
/// product of the sample and the factor. A vacated position of the registry
/// changes nothing.
pub open spec fn masked_one<T>(
    arith: spec_fn(SimulationParameters<T>, Update<T>) -> T,
    params: SimulationParameters<T>,
    zero: T,
    entry: Option<Obstacle<T>>,
    field: Seq<Seq<T>>,
) -> Seq<Seq<T>> {
    match entry {
        Some(obstacle) => match obstacle.policy {
            ObstaclePolicy::Block => with_rect(field, obstacle.region, zero),
            ObstaclePolicy::Attenuate(factor) => scaled(arith, params, factor, obstacle.region, field),
        },
        None => field,
    }
}

/// `field` after the obstacles have been applied, one after the other in
/// registration order: where rectangles overlap, a later `Block` undoes what
/// came before it, and attenuations multiply.
pub open spec fn masked<T>(
    arith: spec_fn(SimulationParameters<T>, Update<T>) -> T,
    params: SimulationParameters<T>,
    zero: T,
    obstacles: Seq<Option<Obstacle<T>>>,
    field: Seq<Seq<T>>,
) -> Seq<Seq<T>>
    decreases obstacles.len(),
{
    if obstacles.len() == 0 {
        field
    } else {
        masked_one(
            arith,
            params,
            zero,
            obstacles.last(),
            masked(arith, params, zero, obstacles.drop_last(), field),
        )
    }
}

/// Masking keeps the dimensions of the field.
pub proof fn lemma_masked_shape<T>(
    arith: spec_fn(SimulationParameters<T>, Update<T>) -> T,
    params: SimulationParameters<T>,
    zero: T,
    obstacles: Seq<Option<Obstacle<T>>>,
    field: Seq<Seq<T>>,
    nx: nat,
    ny: nat,
)
    requires
        is_grid(field, nx, ny),
    ensures
        is_grid(masked(arith, params, zero, obstacles, field), nx, ny),
    decreases obstacles.len(),
{
    if obstacles.len() > 0 {
        lemma_masked_shape(arith, params, zero, obstacles.drop_last(), field, nx, ny);
    }
}

/// Applies one obstacle to `field`.
pub fn apply_obstacle<T: Copy, E: Fn(SimulationParameters<T>, Update<T>) -> T>(
    field: &mut Field<T>,
    obstacle: Obstacle<T>,
    zero: T,
    params: SimulationParameters<T>,
    eval: &E,
)
    requires
        old(field).wf(),
        total(eval),
        functional(eval),
    ensures
        final(field).wf(),
        final(field).nx() == old(field).nx(),
        final(field).ny() == old(field).ny(),
        final(field)@ == masked_one(answers(eval), params, zero, Some(obstacle), old(field)@),
{
    match obstacle.policy {
        ObstaclePolicy::Block => field.fill_rect(obstacle.region, zero),
        ObstaclePolicy::Attenuate(factor) => scale_rect(field, factor, obstacle.region, params, eval),
    }
}

/// Applies the registered obstacles to `field`, in registration order.
pub fn apply_obstacles<T: Copy, E: Fn(SimulationParameters<T>, Update<T>) -> T>(
    field: &mut Field<T>,
    obstacles: &Registry<Obstacle<T>>,
    zero: T,
    params: SimulationParameters<T>,
    eval: &E,
)
    requires
        old(field).wf(),
        total(eval),
        functional(eval),
    ensures
        final(field).wf(),
        final(field).nx() == old(field).nx(),
        final(field).ny() == old(field).ny(),
        final(field)@ == masked(answers(eval), params, zero, obstacles@, old(field)@),
{
    let count = obstacles.len();
    let mut k: usize = 0;
    while k < count
        invariant
            field.wf(),
            field.nx() == old(field).nx(),
            field.ny() == old(field).ny(),
            total(eval),
            functional(eval),
            count == obstacles@.len(),
            k <= count,
            field@ == masked(answers(eval), params, zero, obstacles@.take(k as int), old(field)@),
        decreases count - k,
    {
        proof {
            assert(obstacles@.take(k as int + 1).drop_last() =~= obstacles@.take(k as int));
        }
        match obstacles.get(k) {
            Some(obstacle) => apply_obstacle(field, obstacle, zero, params, eval),
            None => {},
        }
        k += 1;
    }
    proof {
        assert(obstacles@.take(count as int) =~= obstacles@);
    }
}

/// The three walls of a double slit on a grid of `width` by `height` cells:
/// a barrier five cells thick across the middle of the grid, open between a
/// third and four tenths of the width, and again between six tenths and two
/// thirds of it.
pub open spec fn spec_double_slit(width: usize, height: usize) -> Seq<Region> {
    seq![
        Region { x0: 0, y0: height / 2, x1: width / 3, y1: (height / 2 + 5) as usize },
        Region {
            x0: ((width / 3) * 2) as usize,
            y0: height / 2,
            x1: width,
            y1: (height / 2 + 5) as usize,
        },
        Region {
            x0: ((width / 10) * 4) as usize,
            y0: height / 2,
            x1: ((width / 10) * 6) as usize,
            y1: (height / 2 + 5) as usize,
        },
    ]
}

/// Computes the three walls of a double slit on a grid of `width` by
/// `height` cells.
pub fn double_slit(width: usize, height: usize) -> (walls: Vec<Region>)
    ensures
        walls@ == spec_double_slit(width, height),
{
    let middle = height / 2;
    let mut walls: Vec<Region> = Vec::new();
    walls.push(Region { x0: 0, y0: middle, x1: width / 3, y1: middle + 5 });
    walls.push(Region { x0: (width / 3) * 2, y0: middle, x1: width, y1: middle + 5 });
    walls.push(Region { x0: (width / 10) * 4, y0: middle, x1: (width / 10) * 6, y1: middle + 5 });
    walls
}

} // verus!
