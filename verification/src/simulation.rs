//! The simulation: the grid, its configuration, and the life cycle that
//! decides which operations are accepted.

use vstd::prelude::*;
use crate::arithmetic::{answers, functional, total, SimulationParameters, Update};
use crate::boundary::{Boundaries, BoundaryBand, BoundaryPolicy, Edge};
use crate::error::{accepted, refused, SimulationError};
use crate::field::{is_grid, uniform, Field};
use crate::grid_buffer::{GridBuffer, MIN_EXTENT};
use crate::obstacle::{Obstacle, ObstacleId};
use crate::registry::Registry;
use crate::source::{inject_sources, injected, Source, SourceId};
use crate::stability::{check, guard_functional, guard_total, verdict_of};
use crate::stepper::{calculate_next_step, next_slice};

verus! {

/// Where a simulation stands in its life cycle. Before its construction
/// there is no simulation; from then on it is `Ready`, but for the time that
/// a tick runs, when it is `Stepping`; and it is `Stopped` for good once it
/// has been shut down. Only a ready simulation accepts a tick or a change.
#[derive(Clone, Copy, Debug, PartialEq, Eq, Structural)]
pub enum SimulationState {
    Ready,
    Stepping,
    Stopped,
}

/// What a simulation is, as its contracts see it.
pub struct SimulationView<T> {
    /// The number of columns of the grid.
    pub nx: usize,
    /// The number of samples in a column of the grid.
    pub ny: usize,
    /// The slice one step back.
    pub previous: Seq<Seq<T>>,
    /// The latest slice.
    pub current: Seq<Seq<T>>,
    /// The constants of the scheme.
    pub params: SimulationParameters<T>,
    /// The sample that stands for no displacement.
    pub zero: T,
    /// The sources by handle, in registration order.
    pub sources: Seq<Option<Source<T>>>,
    /// The obstacles by handle, in registration order.
    pub obstacles: Seq<Option<Obstacle<T>>>,
    /// The bands of the four edges.
    pub bands: Boundaries<T>,
    /// The place in the life cycle.
    pub state: SimulationState,
}

impl<T> SimulationView<T> {
    /// This simulation with other parameters.
    pub open spec fn with_params(self, params: SimulationParameters<T>) -> Self {
        SimulationView { params, ..self }
    }

    /// This simulation with other sources.
    pub open spec fn with_sources(self, sources: Seq<Option<Source<T>>>) -> Self {
        SimulationView { sources, ..self }
    }

    /// This simulation with other obstacles.
    pub open spec fn with_obstacles(self, obstacles: Seq<Option<Obstacle<T>>>) -> Self {
        SimulationView { obstacles, ..self }
    }

    /// This simulation with another band along `edge`.
    pub open spec fn with_band(self, edge: Edge, band: BoundaryBand<T>) -> Self {
        SimulationView {
            bands: match edge {
                Edge::Left => Boundaries { left: band, ..self.bands },
                Edge::Right => Boundaries { right: band, ..self.bands },
                Edge::Top => Boundaries { top: band, ..self.bands },
                Edge::Bottom => Boundaries { bottom: band, ..self.bands },
            },
            ..self
        }
    }

    /// This simulation with both slices equal to `slice`.
    pub open spec fn with_slices(self, slice: Seq<Seq<T>>) -> Self {
        SimulationView { previous: slice, current: slice, ..self }
    }

    /// This simulation at another place in its life cycle.
    pub open spec fn with_state(self, state: SimulationState) -> Self {
        SimulationView { state, ..self }
    }
}

/// The band that a new simulation has along each edge: none.
pub open spec fn no_band<T>() -> BoundaryBand<T> {
    BoundaryBand { width: 0, policy: BoundaryPolicy::Absorbing }
}

/// A new simulation on a grid of `nx` by `ny` cells: both slices hold
/// `zero` everywhere, nothing is registered, no edge has a band, and the
/// simulation is ready.
pub open spec fn initial<T>(
    nx: usize,
    ny: usize,
    params: SimulationParameters<T>,
    zero: T,
) -> SimulationView<T> {
    SimulationView {
        nx,
        ny,
        previous: uniform(nx as nat, ny as nat, zero),
        current: uniform(nx as nat, ny as nat, zero),
        params,
        zero,
        sources: Seq::empty(),
        obstacles: Seq::empty(),
        bands: Boundaries { left: no_band(), right: no_band(), top: no_band(), bottom: no_band() },
        state: SimulationState::Ready,
    }
}

/// The simulation after one tick at `time`: the sources are injected into
/// the latest slice, the next slice is computed from the slice one step
/// back and the injected one, and the injected slice becomes the slice one
/// step back. The configuration stays as it is.
pub open spec fn ticked<T>(
    arith: spec_fn(SimulationParameters<T>, Update<T>) -> T,
    before: SimulationView<T>,
    time: T,
) -> SimulationView<T> {
    let driven = injected(arith, before.params, before.sources, time, before.current);
    SimulationView {
        previous: driven,
        current: next_slice(
            arith,
            before.params,
            before.zero,
            before.obstacles,
            before.bands,
            before.nx,
            before.ny,
            before.previous,
            driven,
        ),
        ..before
    }
}

/// The simulation after a call of `tick` at `time`: a ready simulation has
/// ticked, any other is as it was.
pub open spec fn after_tick<T>(
    arith: spec_fn(SimulationParameters<T>, Update<T>) -> T,
    before: SimulationView<T>,
    time: T,
) -> SimulationView<T> {
    if before.state == SimulationState::Ready {
        ticked(arith, before, time)
    } else {
        before
    }
}

/// The simulation after a call of `tick` at each of `times`, in their
/// order.
pub open spec fn run<T>(
    arith: spec_fn(SimulationParameters<T>, Update<T>) -> T,
    start: SimulationView<T>,
    times: Seq<T>,
) -> SimulationView<T>
    decreases times.len(),
{
    if times.len() == 0 {
        start
    } else {
        after_tick(arith, run(arith, start, times.drop_last()), times.last())
    }
}

/// A wave simulation on a fixed grid.
pub struct Simulation<T> {
    grid: GridBuffer<T>,
    params: SimulationParameters<T>,
    zero: T,
    sources: Registry<Source<T>>,
    obstacles: Registry<Obstacle<T>>,
    bands: Boundaries<T>,
    state: SimulationState,
}

impl<T: Copy> View for Simulation<T> {
    type V = SimulationView<T>;

    closed spec fn view(&self) -> SimulationView<T> {
        SimulationView {
            nx: self.grid.nx(),
            ny: self.grid.ny(),
            previous: self.grid@[0],
            current: self.grid@[1],
            params: self.params,
            zero: self.zero,
            sources: self.sources@,
            obstacles: self.obstacles@,
            bands: self.bands,
            state: self.state,
        }
    }
}

impl<T: Copy> Simulation<T> {
    /// The two slices have the grid's dimensions, and the grid has an
    /// interior cell.
    pub closed spec fn wf(&self) -> bool {
        self.grid.wf()
    }

    /// What well-formedness means for the view.
    pub proof fn lemma_shape(&self)
        requires
            self.wf(),
        ensures
            self@.nx >= MIN_EXTENT,
            self@.ny >= MIN_EXTENT,
            is_grid(self@.previous, self@.nx as nat, self@.ny as nat),
            is_grid(self@.current, self@.nx as nat, self@.ny as nat),
    {
        self.grid.lemma_shape();
    }

    /// Builds a simulation on a grid of `nx` by `ny` cells, given the
    /// verdict of the stability check on `params`. The dimensions are
    /// examined first: a grid without an interior cell is refused as
    /// `InvalidDimensions`, whatever the verdict; unstable parameters are
    /// refused as `UnstableParameters`.
    pub fn with_verdict(
        nx: usize,
        ny: usize,
        params: SimulationParameters<T>,
        zero: T,
        stable: bool,
    ) -> (made: Result<Self, SimulationError>)
        ensures
            match made {
                Ok(simulation) => {
                    &&& nx >= MIN_EXTENT
                    &&& ny >= MIN_EXTENT
                    &&& stable
                    &&& simulation.wf()
                    &&& simulation@ == initial(nx, ny, params, zero)
                },
                Err(error) => {
                    &&& nx < MIN_EXTENT || ny < MIN_EXTENT || !stable
                    &&& error == if nx < MIN_EXTENT || ny < MIN_EXTENT {
                        SimulationError::InvalidDimensions
                    } else {
                        SimulationError::UnstableParameters
                    }
                },
            },
    {
        match GridBuffer::new(nx, ny, zero) {
            Err(error) => Err(error),
            Ok(grid) => {
                if !stable {
                    return Err(SimulationError::UnstableParameters);
                }
                let none = BoundaryBand { width: 0, policy: BoundaryPolicy::Absorbing };
                Ok(
                    Simulation {
                        grid,
                        params,
                        zero,
                        sources: Registry::new(),
                        obstacles: Registry::new(),
                        bands: Boundaries { left: none, right: none, top: none, bottom: none },
                        state: SimulationState::Ready,
                    },
                )
            },
        }
    }

    /// Builds a simulation on a grid of `nx` by `ny` cells, after putting
    /// `params` to the stability check `guard`. The check is not consulted
    /// about a grid that is refused for its dimensions.
    pub fn new<G: Fn(SimulationParameters<T>) -> bool>(
        nx: usize,
        ny: usize,
        params: SimulationParameters<T>,
        zero: T,
        guard: &G,
    ) -> (made: Result<Self, SimulationError>)
        requires
            guard_total(guard),
            guard_functional(guard),
        ensures
            match made {
                Ok(simulation) => {
                    &&& nx >= MIN_EXTENT
                    &&& ny >= MIN_EXTENT
                    &&& verdict_of(guard, params)
                    &&& simulation.wf()
                    &&& simulation@ == initial(nx, ny, params, zero)
                },
                Err(error) => {
                    &&& nx < MIN_EXTENT || ny < MIN_EXTENT || !verdict_of(guard, params)
                    &&& error == if nx < MIN_EXTENT || ny < MIN_EXTENT {
                        SimulationError::InvalidDimensions
                    } else {
                        SimulationError::UnstableParameters
                    }
                },
            },
    {
        if nx < MIN_EXTENT || ny < MIN_EXTENT {
            return Err(SimulationError::InvalidDimensions);
        }
        let stable = check(params, guard).is_ok();
        Self::with_verdict(nx, ny, params, zero, stable)
    }

    /// The number of columns of the grid.
    pub fn nx(&self) -> (n: usize)
        ensures
            n == self@.nx,
    {
        self.grid.nx()
    }

    /// The number of samples in a column of the grid.
    pub fn ny(&self) -> (n: usize)
        ensures
            n == self@.ny,
    {
        self.grid.ny()
    }

    /// The place in the life cycle.
    pub fn state(&self) -> (state: SimulationState)
        ensures
            state == self@.state,
    {
        self.state
    }

    /// The constants of the scheme.
    pub fn parameters(&self) -> (params: SimulationParameters<T>)
        ensures
            params == self@.params,
    {
        self.params
    }

    /// The latest slice, to read.
    pub fn current_field(&self) -> (slice: &Field<T>)
        requires
            self.wf(),
        ensures
            slice.wf(),
            slice.nx() == self@.nx,
            slice.ny() == self@.ny,
            slice@ == self@.current,
    {
        self.grid.current()
    }

    /// The slice one step back, to read.
    pub fn previous_field(&self) -> (slice: &Field<T>)
        requires
            self.wf(),
        ensures
            slice.wf(),
            slice.nx() == self@.nx,
            slice.ny() == self@.ny,
            slice@ == self@.previous,
    {
        self.grid.previous()
    }

    /// Advances the simulation by one step: injects the sources at `time`,
    /// computes the next slice and commits it. Only a ready simulation
    /// steps; any other is left as it is.
    pub fn tick<E: Fn(SimulationParameters<T>, Update<T>) -> T>(&mut self, time: T, eval: &E) -> (done:
        Result<(), SimulationError>)
        requires
            old(self).wf(),
            total(eval),
            functional(eval),
        ensures
            final(self).wf(),
            done == if old(self)@.state == SimulationState::Ready {
                accepted()
            } else {
                refused(SimulationError::InvalidState)
            },
            final(self)@ == after_tick(answers(eval), old(self)@, time),
    {
        if self.state != SimulationState::Ready {
            return Err(SimulationError::InvalidState);
        }
        self.state = SimulationState::Stepping;
        inject_sources(&mut self.grid, &self.sources, time, self.params, eval);
        let next = calculate_next_step(
            self.grid.previous(),
            self.grid.current(),
            self.zero,
            &self.obstacles,
            self.bands,
            self.params,
            eval,
        );
        let _ = self.grid.commit(next);
        self.state = SimulationState::Ready;
        Ok(())
    }

    /// Shuts the simulation down. From here on it accepts no tick and no
    /// change.
    pub fn stop(&mut self)
        requires
            old(self).wf(),
        ensures
            final(self).wf(),
            final(self)@ == old(self)@.with_state(SimulationState::Stopped),
    {
        self.state = SimulationState::Stopped;
    }

    /// Replaces the parameters, given the verdict of the stability check
    /// on the new ones. A simulation that is not ready refuses the change
    /// as `InvalidState`; unstable parameters are refused as
    /// `UnstableParameters`. A refused change leaves the parameters as they
    /// were.
    pub fn apply_parameters(&mut self, params: SimulationParameters<T>, stable: bool) -> (done:
        Result<(), SimulationError>)
        requires
            old(self).wf(),
        ensures
            final(self).wf(),
            done == if old(self)@.state != SimulationState::Ready {
                refused(SimulationError::InvalidState)
            } else if !stable {
                refused(SimulationError::UnstableParameters)
            } else {
                accepted()
            },
            final(self)@ == if done.is_ok() {
                old(self)@.with_params(params)
            } else {
                old(self)@
            },
    {
        if self.state != SimulationState::Ready {
            return Err(SimulationError::InvalidState);
        }
        if !stable {
            return Err(SimulationError::UnstableParameters);
        }
        self.params = params;
        Ok(())
    }

    /// Replaces the parameters, after putting the new ones to the stability
    /// check `guard`. The check is not consulted by a simulation that is
    /// not ready.
    pub fn set_parameters<G: Fn(SimulationParameters<T>) -> bool>(
        &mut self,
        params: SimulationParameters<T>,
        guard: &G,
    ) -> (done: Result<(), SimulationError>)
        requires
            old(self).wf(),
            guard_total(guard),
            guard_functional(guard),
        ensures
            final(self).wf(),
            done == if old(self)@.state != SimulationState::Ready {
                refused(SimulationError::InvalidState)
            } else if !verdict_of(guard, params) {
                refused(SimulationError::UnstableParameters)
            } else {
                accepted()
            },
            final(self)@ == if done.is_ok() {
                old(self)@.with_params(params)
            } else {
                old(self)@
            },
    {
        if self.state != SimulationState::Ready {
            return Err(SimulationError::InvalidState);
        }
        let stable = check(params, guard).is_ok();
        self.apply_parameters(params, stable)
    }

    /// Replaces the wave speed, under the rules of `set_parameters`.
    pub fn set_wave_speed<G: Fn(SimulationParameters<T>) -> bool>(&mut self, c: T, guard: &G) -> (done:
        Result<(), SimulationError>)
        requires
            old(self).wf(),
            guard_total(guard),
            guard_functional(guard),
        ensures
            final(self).wf(),
            done == if old(self)@.state != SimulationState::Ready {
                refused(SimulationError::InvalidState)
            } else if !verdict_of(guard, old(self)@.params.with_c(c)) {
                refused(SimulationError::UnstableParameters)
            } else {
                accepted()
            },
            final(self)@ == if done.is_ok() {
                old(self)@.with_params(old(self)@.params.with_c(c))
            } else {
                old(self)@
            },
    {
        let params = SimulationParameters {
            c,
            dx: self.params.dx,
            dy: self.params.dy,
            dt: self.params.dt,
            f: self.params.f,
        };
        self.set_parameters(params, guard)
    }

    /// Replaces the damping coefficient, under the rules of
    /// `set_parameters`.
    pub fn set_damping<G: Fn(SimulationParameters<T>) -> bool>(&mut self, f: T, guard: &G) -> (done:
        Result<(), SimulationError>)
        requires
            old(self).wf(),
            guard_total(guard),
            guard_functional(guard),
        ensures
            final(self).wf(),
            done == if old(self)@.state != SimulationState::Ready {
                refused(SimulationError::InvalidState)
            } else if !verdict_of(guard, old(self)@.params.with_f(f)) {
                refused(SimulationError::UnstableParameters)
            } else {
                accepted()
            },
            final(self)@ == if done.is_ok() {
                old(self)@.with_params(old(self)@.params.with_f(f))
            } else {
                old(self)@
            },
    {
        let params = SimulationParameters {
            c: self.params.c,
            dx: self.params.dx,
            dy: self.params.dy,
            dt: self.params.dt,
            f,
        };
        self.set_parameters(params, guard)
    }

    /// Registers a source behind all earlier ones and returns its handle.
    /// A source whose cell is off the grid is registered too, and drives
    /// nothing.
    pub fn add_source(&mut self, source: Source<T>) -> (added: Result<SourceId, SimulationError>)
        requires
            old(self).wf(),
        ensures
            final(self).wf(),
            match added {
                Ok(id) => old(self)@.state == SimulationState::Ready && id.0 == old(self)@.sources.len(),
                Err(error) => old(self)@.state != SimulationState::Ready && error
                    == SimulationError::InvalidState,
            },
            final(self)@ == if added.is_ok() {
                old(self)@.with_sources(old(self)@.sources.push(Some(source)))
            } else {
                old(self)@
            },
    {
        if self.state != SimulationState::Ready {
            return Err(SimulationError::InvalidState);
        }
        let handle = self.sources.add(source);
        Ok(SourceId(handle))
    }

    /// The source registered under `id`, if there is one.
    pub fn source(&self, id: SourceId) -> (found: Option<Source<T>>)
        ensures
            found == if id.0 < self@.sources.len() {
                self@.sources[id.0 as int]
            } else {
                None
            },
    {
        self.sources.get(id.0)
    }

    /// Puts `source` in place of the source registered under `id`; the
    /// handle and its place in the order stay. A handle that holds no
    /// source is left alone.
    pub fn replace_source(&mut self, id: SourceId, source: Source<T>) -> (done: Result<
        (),
        SimulationError,
    >)
        requires
            old(self).wf(),
        ensures
            final(self).wf(),
            done == if old(self)@.state == SimulationState::Ready {
                accepted()
            } else {
                refused(SimulationError::InvalidState)
            },
            final(self)@ == if done.is_ok() && id.0 < old(self)@.sources.len() && old(
                self,
            )@.sources[id.0 as int].is_some() {
                old(self)@.with_sources(old(self)@.sources.update(id.0 as int, Some(source)))
            } else {
                old(self)@
            },
    {
        if self.state != SimulationState::Ready {
            return Err(SimulationError::InvalidState);
        }
        let _ = self.sources.replace(id.0, source);
        Ok(())
    }

    /// Removes the source registered under `id`. A handle that holds no
    /// source is left alone.
    pub fn remove_source(&mut self, id: SourceId) -> (done: Result<(), SimulationError>)
        requires
            old(self).wf(),
        ensures
            final(self).wf(),
            done == if old(self)@.state == SimulationState::Ready {
                accepted()
            } else {
                refused(SimulationError::InvalidState)
            },
            final(self)@ == if done.is_ok() && id.0 < old(self)@.sources.len() {
                old(self)@.with_sources(old(self)@.sources.update(id.0 as int, None))
            } else {
                old(self)@
            },
    {
        if self.state != SimulationState::Ready {
            return Err(SimulationError::InvalidState);
        }
        self.sources.remove(id.0);
        Ok(())
    }

    /// Registers an obstacle behind all earlier ones and returns its
    /// handle. What of its rectangle lies off the grid masks nothing.
    pub fn add_obstacle(&mut self, obstacle: Obstacle<T>) -> (added: Result<
        ObstacleId,
        SimulationError,
    >)
        requires
            old(self).wf(),
        ensures
            final(self).wf(),
            match added {
                Ok(id) => old(self)@.state == SimulationState::Ready && id.0 == old(
                    self,
                )@.obstacles.len(),
                Err(error) => old(self)@.state != SimulationState::Ready && error
                    == SimulationError::InvalidState,
            },
            final(self)@ == if added.is_ok() {
                old(self)@.with_obstacles(old(self)@.obstacles.push(Some(obstacle)))
            } else {
                old(self)@
            },
    {
        if self.state != SimulationState::Ready {
            return Err(SimulationError::InvalidState);
        }
        let handle = self.obstacles.add(obstacle);
        Ok(ObstacleId(handle))
    }

    /// The obstacle registered under `id`, if there is one.
    pub fn obstacle(&self, id: ObstacleId) -> (found: Option<Obstacle<T>>)
        ensures
            found == if id.0 < self@.obstacles.len() {
                self@.obstacles[id.0 as int]
            } else {
                None
            },
    {
        self.obstacles.get(id.0)
    }

    /// Removes the obstacle registered under `id`. A handle that holds no
    /// obstacle is left alone.
    pub fn remove_obstacle(&mut self, id: ObstacleId) -> (done: Result<(), SimulationError>)
        requires
            old(self).wf(),
        ensures
            final(self).wf(),
            done == if old(self)@.state == SimulationState::Ready {
                accepted()
            } else {
                refused(SimulationError::InvalidState)
            },
            final(self)@ == if done.is_ok() && id.0 < old(self)@.obstacles.len() {
                old(self)@.with_obstacles(old(self)@.obstacles.update(id.0 as int, None))
            } else {
                old(self)@
            },
    {
        if self.state != SimulationState::Ready {
            return Err(SimulationError::InvalidState);
        }
        self.obstacles.remove(id.0);
        Ok(())
    }

    /// Replaces the band along `edge`; the other three edges keep theirs.
    pub fn set_boundary(&mut self, edge: Edge, band: BoundaryBand<T>) -> (done: Result<
        (),
        SimulationError,
    >)
        requires
            old(self).wf(),
        ensures
            final(self).wf(),
            done == if old(self)@.state == SimulationState::Ready {
                accepted()
            } else {
                refused(SimulationError::InvalidState)
            },
            final(self)@ == if done.is_ok() {
                old(self)@.with_band(edge, band)
            } else {
                old(self)@
            },
    {
        if self.state != SimulationState::Ready {
            return Err(SimulationError::InvalidState);
        }
        match edge {
            Edge::Left => self.bands.left = band,
            Edge::Right => self.bands.right = band,
            Edge::Top => self.bands.top = band,
            Edge::Bottom => self.bands.bottom = band,
        }
        Ok(())
    }

    /// The band along `edge`.
    pub fn boundary(&self, edge: Edge) -> (band: BoundaryBand<T>)
        ensures
            band == match edge {
                Edge::Left => self@.bands.left,
                Edge::Right => self@.bands.right,
                Edge::Top => self@.bands.top,
                Edge::Bottom => self@.bands.bottom,
            },
    {
        match edge {
            Edge::Left => self.bands.left,
            Edge::Right => self.bands.right,
            Edge::Top => self.bands.top,
            Edge::Bottom => self.bands.bottom,
        }
    }

    /// Makes both slices equal to `field`, so that the simulation starts
    /// from it at rest. A simulation that is not ready refuses as
    /// `InvalidState`; a field of other dimensions than the grid's is
    /// refused as `InvalidDimensions`.
    pub fn load(&mut self, field: Field<T>) -> (done: Result<(), SimulationError>)
        requires
            old(self).wf(),
            field.wf(),
        ensures
            final(self).wf(),
            done == if old(self)@.state != SimulationState::Ready {
                refused(SimulationError::InvalidState)
            } else if field.nx() != old(self)@.nx || field.ny() != old(self)@.ny {
                refused(SimulationError::InvalidDimensions)
            } else {
                accepted()
            },
            final(self)@ == if done.is_ok() {
                old(self)@.with_slices(field@)
            } else {
                old(self)@
            },
    {
        if self.state != SimulationState::Ready {
            return Err(SimulationError::InvalidState);
        }
        self.grid.reset(field)
    }

    /// Makes both slices hold zero everywhere. A simulation that is not
    /// ready refuses as `InvalidState`.
    pub fn clear(&mut self) -> (done: Result<(), SimulationError>)
        requires
            old(self).wf(),
        ensures
            final(self).wf(),
            done == if old(self)@.state == SimulationState::Ready {
                accepted()
            } else {
                refused(SimulationError::InvalidState)
            },
            final(self)@ == if done.is_ok() {
                old(self)@.with_slices(uniform(old(self)@.nx as nat, old(self)@.ny as nat, old(self)@.zero))
            } else {
                old(self)@
            },
    {
        let blank = Field::filled(self.grid.nx(), self.grid.ny(), self.zero);
        self.load(blank)
    }
}

} // verus!
