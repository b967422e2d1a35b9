//! The arithmetic on samples, as the solver sees it.
//!
//! The solver never computes on a sample. Where a new sample is due it
//! builds an [`Update`], which names the operation and holds its operands,
//! and hands it to an evaluator: any function from the parameters and an
//! update to a sample. The model of the solver takes the arithmetic as a
//! mathematical function of the same shape; the contracts of the solver
//! apply the model to the [`answers`] of the evaluator.

use vstd::prelude::*;
use crate::source::Source;

verus! {

/// The constants of the scheme: wave speed `c`, grid spacings `dx` and `dy`,
/// time step `dt` and damping coefficient `f`.
#[derive(Debug, PartialEq)]
pub struct SimulationParameters<T> {
    pub c: T,
    pub dx: T,
    pub dy: T,
    pub dt: T,
    pub f: T,
}

impl<T> SimulationParameters<T> {
    /// These parameters with another wave speed.
    pub open spec fn with_c(self, c: T) -> Self {
        SimulationParameters { c, ..self }
    }

    /// These parameters with another damping coefficient.
    pub open spec fn with_f(self, f: T) -> Self {
        SimulationParameters { f, ..self }
    }
}

impl<T: Copy> Clone for SimulationParameters<T> {
    fn clone(&self) -> (copy: Self)
        ensures
            copy == *self,
    {
        *self
    }
}

impl<T: Copy> Copy for SimulationParameters<T> {
}

/// A grid axis.
#[derive(Clone, Copy, Debug, PartialEq, Eq, Structural)]
pub enum Axis {
    X,
    Y,
}

/// One operation on samples that the solver asks an evaluator for. Each
/// variant holds the operands and names, in words, the answer that the
/// scheme asks for; computing it is the evaluator's part.
#[derive(Debug, PartialEq)]
pub enum Update<T> {
    /// The leapfrog rule at a cell with four neighbours: the cell's sample,
    /// those of its neighbours at `x - 1`, `x + 1`, `y - 1` and `y + 1`, and
    /// the cell's sample one step back. With
    /// `ddx = (x_plus - 2 center + x_minus) / dx^2` and `ddy` alike along
    /// `y`, the scheme asks for
    /// `c^2 dt^2 (ddx + ddy) + 2 center - previous - f (center - previous)`.
    Interior { center: T, x_minus: T, x_plus: T, y_minus: T, y_plus: T, previous: T },
    /// The one-way outgoing-wave rule at an edge that is crossed along
    /// `axis`: the cell's sample and that of its neighbour one step into the
    /// domain. With `h` the grid spacing along `axis`, the scheme asks for
    /// `center - c (dt / h) (center - inward)`.
    Outflow { axis: Axis, center: T, inward: T },
    /// The product `value * factor` of a sample and a factor: a sponge's
    /// decay, an obstacle's attenuation.
    Scale { value: T, factor: T },
    /// The amplitude of a source at a time: the source's forcing function,
    /// such as `amplitude * sin(frequency * time + phase)`.
    Emit { source: Source<T>, time: T },
}

impl<T: Copy> Clone for Update<T> {
    fn clone(&self) -> (copy: Self)
        ensures
            copy == *self,
    {
        *self
    }
}

impl<T: Copy> Copy for Update<T> {
}

/// The evaluator accepts every update.
pub open spec fn total<T, E: Fn(SimulationParameters<T>, Update<T>) -> T>(eval: &E) -> bool {
    forall|p: SimulationParameters<T>, u: Update<T>| call_requires(eval, (p, u))
}

/// The evaluator has at most one answer to an update.
pub open spec fn functional<T, E: Fn(SimulationParameters<T>, Update<T>) -> T>(eval: &E) -> bool {
    forall|p: SimulationParameters<T>, u: Update<T>, a: T, b: T|
        call_ensures(eval, (p, u), a) && call_ensures(eval, (p, u), b) ==> a == b
}

/// The evaluator's answer to `update` under `params`.
pub open spec fn value_of<T, E: Fn(SimulationParameters<T>, Update<T>) -> T>(
    eval: &E,
    params: SimulationParameters<T>,
    update: Update<T>,
) -> T {
    choose|r: T| call_ensures(eval, (params, update), r)
}

/// The evaluator's answers as a function: the arithmetic that the solver
/// works with.
pub open spec fn answers<T, E: Fn(SimulationParameters<T>, Update<T>) -> T>(eval: &E) -> spec_fn(
    SimulationParameters<T>,
    Update<T>,
) -> T {
    |params: SimulationParameters<T>, update: Update<T>| value_of(eval, params, update)
}

/// Two evaluators give the same answer to every update.
pub open spec fn agree<
    T,
    E1: Fn(SimulationParameters<T>, Update<T>) -> T,
    E2: Fn(SimulationParameters<T>, Update<T>) -> T,
>(first: &E1, second: &E2) -> bool {
    forall|p: SimulationParameters<T>, u: Update<T>| #[trigger]
        value_of(first, p, u) == value_of(second, p, u)
}

/// Asks the evaluator for one update.
pub fn evaluate<T: Copy, E: Fn(SimulationParameters<T>, Update<T>) -> T>(
    eval: &E,
    params: SimulationParameters<T>,
    update: Update<T>,
) -> (value: T)
    requires
        total(eval),
        functional(eval),
    ensures
        value == value_of(eval, params, update),
        call_ensures(eval, (params, update), value),
{
    eval(params, update)
}

} // verus!
