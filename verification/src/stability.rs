//! The stability guard: the check that parameters must pass before the
//! scheme may run with them.
//!
//! The explicit scheme is stable only while a wave crosses no more than a
//! cell's diagonal in one time step, `c dt <= sqrt(dx^2 + dy^2)`. The check
//! itself is arithmetic on the parameters, and so it is the caller's: any
//! function from a parameter set to a verdict. What is fixed here is when
//! the check is consulted and what follows from its verdict.

use vstd::prelude::*;
use crate::arithmetic::SimulationParameters;
use crate::error::SimulationError;

verus! {

/// The stability check accepts every parameter set.
pub open spec fn guard_total<T, G: Fn(SimulationParameters<T>) -> bool>(guard: &G) -> bool {
    forall|p: SimulationParameters<T>| call_requires(guard, (p,))
}

/// The stability check has at most one verdict on a parameter set.
pub open spec fn guard_functional<T, G: Fn(SimulationParameters<T>) -> bool>(guard: &G) -> bool {
    forall|p: SimulationParameters<T>, a: bool, b: bool|
        call_ensures(guard, (p,), a) && call_ensures(guard, (p,), b) ==> a == b
}

/// The stability check's verdict on `params`: whether they are stable.
pub open spec fn verdict_of<T, G: Fn(SimulationParameters<T>) -> bool>(
    guard: &G,
    params: SimulationParameters<T>,
) -> bool {
    choose|stable: bool| call_ensures(guard, (params,), stable)
}

/// What a verdict of the stability check means for a parameter set.
pub open spec fn spec_judged(stable: bool) -> Result<(), SimulationError> {
    if stable {
        Ok(())
    } else {
        Err(SimulationError::UnstableParameters)
    }
}

/// Turns a verdict of the stability check into an acceptance or the error
/// `UnstableParameters`.
#[verifier::when_used_as_spec(spec_judged)]
pub fn judged(stable: bool) -> (outcome: Result<(), SimulationError>)
    ensures
        outcome == spec_judged(stable),
{
    if stable {
        Ok(())
    } else {
        Err(SimulationError::UnstableParameters)
    }
}

/// Puts `params` to the stability check `guard`.
pub fn check<T: Copy, G: Fn(SimulationParameters<T>) -> bool>(
    params: SimulationParameters<T>,
    guard: &G,
) -> (outcome: Result<(), SimulationError>)
    requires
        guard_total(guard),
        guard_functional(guard),
    ensures
        outcome == judged(verdict_of(guard, params)),
        call_ensures(guard, (params,), outcome.is_ok()),
{
    judged(guard(params))
}

} // verus!
