//! Laws of the simulation: what holds of every run.
//!
//! The laws speak of the model of a simulation, [`SimulationView`], and of
//! the functions [`ticked`] and [`run`] by which `tick` is specified. The
//! arithmetic on samples enters them as a function `arith` from the
//! parameters and an update to a sample; for an evaluator `eval` it is
//! `answers(eval)`. Each law is a proof function; the lemmas between them
//! carry the law through the stages of a tick.

use vstd::prelude::*;
use crate::arithmetic::{agree, answers, SimulationParameters, Update};
use crate::boundary::{
    absorbed,
    band_applied,
    band_region,
    lemma_band_fits,
    Boundaries,
    BoundaryBand,
    BoundaryPolicy,
    Edge,
};
use crate::field::{is_grid, uniform, Region};
use crate::obstacle::{lemma_masked_shape, masked, masked_one, Obstacle, ObstaclePolicy};
use crate::rule::{reads_fit, scaled, stenciled, Stencil};
use crate::simulation::{run, ticked, SimulationState, SimulationView};
use crate::source::{injected, lemma_injected_shape, Source};
use crate::stepper::{interior_region, interior_stepped};

verus! {

// Determinism

/// Determinism. A run is decided by the simulation it starts from, the
/// times of its ticks and the answers of its evaluator: two runs from one
/// start, at the same times, with evaluators that give the same answers,
/// end in the same simulation, sample for sample.
pub proof fn lemma_runs_agree<
    T,
    E1: Fn(SimulationParameters<T>, Update<T>) -> T,
    E2: Fn(SimulationParameters<T>, Update<T>) -> T,
>(first: &E1, second: &E2, start: SimulationView<T>, times: Seq<T>)
    requires
        agree(first, second),
    ensures
        run(answers(first), start, times) == run(answers(second), start, times),
{
    assert(answers(first) =~= answers(second));
}

/// Two simulations differ in their slices at most.
pub open spec fn same_configuration<T>(one: SimulationView<T>, other: SimulationView<T>) -> bool {
    &&& one.nx == other.nx
    &&& one.ny == other.ny
    &&& one.params == other.params
    &&& one.zero == other.zero
    &&& one.sources == other.sources
    &&& one.obstacles == other.obstacles
    &&& one.bands == other.bands
    &&& one.state == other.state
}

/// Ticks change the two slices and nothing else: after any number of
/// ticks the dimensions, the parameters, the registered sources and
/// obstacles, the bands and the place in the life cycle are those of the
/// start. A simulation that is not ready is not changed at all.
pub proof fn lemma_run_keeps_configuration<T>(
    arith: spec_fn(SimulationParameters<T>, Update<T>) -> T,
    start: SimulationView<T>,
    times: Seq<T>,
)
    ensures
        same_configuration(run(arith, start, times), start),
        start.state != SimulationState::Ready ==> run(arith, start, times) == start,
    decreases times.len(),
{
    if times.len() > 0 {
        lemma_run_keeps_configuration(arith, start, times.drop_last());
    }
}

// Rest

/// Under `params`, the arithmetic answers `zero` to the leapfrog rule on
/// zeros.
pub open spec fn step_keeps_zero<T>(
    arith: spec_fn(SimulationParameters<T>, Update<T>) -> T,
    params: SimulationParameters<T>,
    zero: T,
) -> bool {
    arith(params,
        Update::Interior {
            center: zero,
            x_minus: zero,
            x_plus: zero,
            y_minus: zero,
            y_plus: zero,
            previous: zero,
        },
    ) == zero
}

/// Under `params`, the arithmetic answers `zero` to the product of `zero`
/// and `factor`.
pub open spec fn scale_keeps_zero<T>(
    arith: spec_fn(SimulationParameters<T>, Update<T>) -> T,
    params: SimulationParameters<T>,
    zero: T,
    factor: T,
) -> bool {
    arith(params, Update::Scale { value: zero, factor }) == zero
}

/// Under `params`, the arithmetic answers `zero` to every attenuation of
/// `zero` that one of the obstacles asks for.
pub open spec fn obstacles_keep_zero<T>(
    arith: spec_fn(SimulationParameters<T>, Update<T>) -> T,
    params: SimulationParameters<T>,
    zero: T,
    obstacles: Seq<Option<Obstacle<T>>>,
) -> bool {
    forall|i: int|
        0 <= i < obstacles.len() ==> match #[trigger] obstacles[i] {
            Some(obstacle) => match obstacle.policy {
                ObstaclePolicy::Block => true,
                ObstaclePolicy::Attenuate(factor) => scale_keeps_zero(arith, params, zero, factor),
            },
            None => true,
        }
}

/// Under `params`, the arithmetic answers `zero` to what the band along
/// `edge` asks for on zeros: the decay of `zero` for a sponge, the
/// outgoing-wave rule across the edge for an absorbing band.
pub open spec fn band_keeps_zero<T>(
    arith: spec_fn(SimulationParameters<T>, Update<T>) -> T,
    params: SimulationParameters<T>,
    zero: T,
    edge: Edge,
    band: BoundaryBand<T>,
) -> bool {
    match band.policy {
        BoundaryPolicy::Sponge(decay) => scale_keeps_zero(arith, params, zero, decay),
        BoundaryPolicy::Absorbing => arith(params,
            Update::Outflow { axis: edge.axis(), center: zero, inward: zero },
        ) == zero,
    }
}

/// Under `params`, the arithmetic answers `zero` to what each of the four
/// bands asks for on zeros.
pub open spec fn bands_keep_zero<T>(
    arith: spec_fn(SimulationParameters<T>, Update<T>) -> T,
    params: SimulationParameters<T>,
    zero: T,
    bands: Boundaries<T>,
) -> bool {
    &&& band_keeps_zero(arith, params, zero, Edge::Left, bands.left)
    &&& band_keeps_zero(arith, params, zero, Edge::Right, bands.right)
    &&& band_keeps_zero(arith, params, zero, Edge::Top, bands.top)
    &&& band_keeps_zero(arith, params, zero, Edge::Bottom, bands.bottom)
}

/// The arithmetic answers zero to zeros, as far as this simulation can ask:
/// under its parameters, to the leapfrog rule on zeros, to the attenuations
/// of its obstacles and to what its bands ask for.
pub open spec fn keeps_zero<T>(
    arith: spec_fn(SimulationParameters<T>, Update<T>) -> T,
    view: SimulationView<T>,
) -> bool {
    &&& step_keeps_zero(arith, view.params, view.zero)
    &&& obstacles_keep_zero(arith, view.params, view.zero, view.obstacles)
    &&& bands_keep_zero(arith, view.params, view.zero, view.bands)
}

/// Both slices hold zero everywhere.
pub open spec fn at_rest<T>(view: SimulationView<T>) -> bool {
    &&& view.previous == uniform(view.nx as nat, view.ny as nat, view.zero)
    &&& view.current == uniform(view.nx as nat, view.ny as nat, view.zero)
}

/// No source is registered.
pub open spec fn silent<T>(view: SimulationView<T>) -> bool {
    forall|i: int| 0 <= i < view.sources.len() ==> view.sources[i].is_none()
}

/// Without a source, injection changes nothing.
proof fn lemma_silent_injection<T>(
    arith: spec_fn(SimulationParameters<T>, Update<T>) -> T,
    params: SimulationParameters<T>,
    sources: Seq<Option<Source<T>>>,
    time: T,
    field: Seq<Seq<T>>,
)
    requires
        forall|i: int| 0 <= i < sources.len() ==> sources[i].is_none(),
    ensures
        injected(arith, params, sources, time, field) == field,
    decreases sources.len(),
{
    if sources.len() > 0 {
        lemma_silent_injection(arith, params, sources.drop_last(), time, field);
    }
}

/// Obstacles leave a slice of zeros as it is.
proof fn lemma_mask_keeps_rest<T>(
    arith: spec_fn(SimulationParameters<T>, Update<T>) -> T,
    params: SimulationParameters<T>,
    zero: T,
    obstacles: Seq<Option<Obstacle<T>>>,
    nx: nat,
    ny: nat,
)
    requires
        obstacles_keep_zero(arith, params, zero, obstacles),
    ensures
        masked(arith, params, zero, obstacles, uniform(nx, ny, zero)) == uniform(nx, ny, zero),
    decreases obstacles.len(),
{
    if obstacles.len() > 0 {
        assert(obstacles_keep_zero(arith, params, zero, obstacles.drop_last()));
        assert(obstacles.last() == obstacles[obstacles.len() - 1]);
        lemma_mask_keeps_rest(arith, params, zero, obstacles.drop_last(), nx, ny);
        assert(masked_one(arith, params, zero, obstacles.last(), uniform(nx, ny, zero)) =~~= uniform(
            nx,
            ny,
            zero,
        ));
    }
}

/// A band leaves a slice of zeros as it is, where the latest slice holds
/// zeros too.
proof fn lemma_band_keeps_rest<T>(
    arith: spec_fn(SimulationParameters<T>, Update<T>) -> T,
    params: SimulationParameters<T>,
    zero: T,
    edge: Edge,
    band: BoundaryBand<T>,
    nx: usize,
    ny: usize,
)
    requires
        band_keeps_zero(arith, params, zero, edge, band),
    ensures
        band_applied(
            arith,
            params,
            edge,
            band,
            nx,
            ny,
            uniform(nx as nat, ny as nat, zero),
            uniform(nx as nat, ny as nat, zero),
        ) == uniform(nx as nat, ny as nat, zero),
{
    let rest = uniform(nx as nat, ny as nat, zero);
    lemma_band_fits(edge, band.width, nx, ny);
    assert(band_applied(arith, params, edge, band, nx, ny, rest, rest) =~~= rest);
}

/// A tick of a simulation at rest without sources leaves it so.
proof fn lemma_tick_keeps_rest<T>(
    arith: spec_fn(SimulationParameters<T>, Update<T>) -> T,
    before: SimulationView<T>,
    time: T,
)
    requires
        keeps_zero(arith, before),
        at_rest(before),
        silent(before),
    ensures
        at_rest(ticked(arith, before, time)),
{
    let params = before.params;
    let zero = before.zero;
    let (nx, ny) = (before.nx, before.ny);
    let rest = uniform(nx as nat, ny as nat, zero);
    lemma_silent_injection(arith, params, before.sources, time, before.current);
    assert(interior_stepped(arith, params, zero, nx, ny, rest, rest) =~~= rest);
    lemma_mask_keeps_rest(arith, params, zero, before.obstacles, nx as nat, ny as nat);
    lemma_band_keeps_rest(arith, params, zero, Edge::Right, before.bands.right, nx, ny);
    lemma_band_keeps_rest(arith, params, zero, Edge::Left, before.bands.left, nx, ny);
    lemma_band_keeps_rest(arith, params, zero, Edge::Bottom, before.bands.bottom, nx, ny);
    lemma_band_keeps_rest(arith, params, zero, Edge::Top, before.bands.top, nx, ny);
}

/// Zero in, zero out. Where the arithmetic answers zero to zeros as far as
/// the simulation can ask, a simulation that holds zero everywhere and has
/// no source holds zero everywhere after any number of ticks, whatever its
/// obstacles and bands.
pub proof fn lemma_rest_is_kept<T>(
    arith: spec_fn(SimulationParameters<T>, Update<T>) -> T,
    start: SimulationView<T>,
    times: Seq<T>,
)
    requires
        keeps_zero(arith, start),
        at_rest(start),
        silent(start),
    ensures
        at_rest(run(arith, start, times)),
    decreases times.len(),
{
    if times.len() > 0 {
        let before = run(arith, start, times.drop_last());
        lemma_rest_is_kept(arith, start, times.drop_last());
        lemma_run_keeps_configuration(arith, start, times.drop_last());
        if before.state == SimulationState::Ready {
            lemma_tick_keeps_rest(arith, before, times.last());
        }
    }
}

// Blocking

/// The cell `(x, y)` lies in none of the four bands.
pub open spec fn outside_bands<T>(bands: Boundaries<T>, nx: usize, ny: usize, x: int, y: int) -> bool {
    &&& !band_region(Edge::Left, bands.left.width, nx, ny).covers(x, y)
    &&& !band_region(Edge::Right, bands.right.width, nx, ny).covers(x, y)
    &&& !band_region(Edge::Top, bands.top.width, nx, ny).covers(x, y)
    &&& !band_region(Edge::Bottom, bands.bottom.width, nx, ny).covers(x, y)
}

/// No obstacle registered at position `from` or later covers the cell
/// `(x, y)`.
pub open spec fn uncovered_from<T>(obstacles: Seq<Option<Obstacle<T>>>, from: int, x: int, y: int) -> bool {
    forall|j: int|
        from <= j < obstacles.len() ==> match #[trigger] obstacles[j] {
            Some(later) => !later.region.covers(x, y),
            None => true,
        }
}

/// After masking, a cell holds zero where a `Block` covers it that no
/// later obstacle covers.
proof fn lemma_masked_blocked<T>(
    arith: spec_fn(SimulationParameters<T>, Update<T>) -> T,
    params: SimulationParameters<T>,
    zero: T,
    obstacles: Seq<Option<Obstacle<T>>>,
    field: Seq<Seq<T>>,
    nx: nat,
    ny: nat,
    k: int,
    x: int,
    y: int,
)
    requires
        is_grid(field, nx, ny),
        0 <= x < nx,
        0 <= y < ny,
        0 <= k < obstacles.len(),
        obstacles[k] matches Some(wall) && wall.policy is Block && wall.region.covers(x, y),
        uncovered_from(obstacles, k + 1, x, y),
    ensures
        masked(arith, params, zero, obstacles, field)[x][y] == zero,
    decreases obstacles.len(),
{
    let earlier = obstacles.drop_last();
    lemma_masked_shape(arith, params, zero, earlier, field, nx, ny);
    if k < obstacles.len() - 1 {
        assert(uncovered_from(earlier, k + 1, x, y));
        lemma_masked_blocked(arith, params, zero, earlier, field, nx, ny, k, x, y);
    }
}

/// The four bands leave a cell that lies in none of them as it is.
proof fn lemma_absorbed_passes<T>(
    arith: spec_fn(SimulationParameters<T>, Update<T>) -> T,
    params: SimulationParameters<T>,
    bands: Boundaries<T>,
    nx: usize,
    ny: usize,
    current: Seq<Seq<T>>,
    field: Seq<Seq<T>>,
    x: int,
    y: int,
)
    requires
        is_grid(field, nx as nat, ny as nat),
        0 <= x < nx,
        0 <= y < ny,
        outside_bands(bands, nx, ny, x, y),
    ensures
        absorbed(arith, params, bands, nx, ny, current, field)[x][y] == field[x][y],
{
}

/// Blocking. A cell of the grid that a `Block` obstacle covers, that no
/// obstacle registered after it covers, and that lies in no band, holds
/// zero after a tick, whatever the sources and the slices before it.
pub proof fn lemma_blocked_cell_is_zero<T>(
    arith: spec_fn(SimulationParameters<T>, Update<T>) -> T,
    before: SimulationView<T>,
    time: T,
    k: int,
    x: int,
    y: int,
)
    requires
        0 <= x < before.nx,
        0 <= y < before.ny,
        0 <= k < before.obstacles.len(),
        before.obstacles[k] matches Some(wall) && wall.policy is Block && wall.region.covers(x, y),
        uncovered_from(before.obstacles, k + 1, x, y),
        outside_bands(before.bands, before.nx, before.ny, x, y),
    ensures
        ticked(arith, before, time).current[x][y] == before.zero,
{
    let params = before.params;
    let zero = before.zero;
    let (nx, ny) = (before.nx, before.ny);
    let driven = injected(arith, params, before.sources, time, before.current);
    let stepped = interior_stepped(arith, params, zero, nx, ny, before.previous, driven);
    let after_mask = masked(arith, params, zero, before.obstacles, stepped);
    lemma_masked_blocked(arith, params, zero, before.obstacles, stepped, nx as nat, ny as nat, k, x, y);
    lemma_masked_shape(arith, params, zero, before.obstacles, stepped, nx as nat, ny as nat);
    lemma_absorbed_passes(arith, params, before.bands, nx, ny, driven, after_mask, x, y);
}

// Sources

/// No source registered at position `from` or later drives the cell
/// `(x, y)`.
pub open spec fn undriven_from<T>(sources: Seq<Option<Source<T>>>, from: int, x: int, y: int) -> bool {
    forall|i: int|
        from <= i < sources.len() ==> match #[trigger] sources[i] {
            Some(source) => !(source.x == x && source.y == y),
            None => true,
        }
}

/// No source drives the cell `(x, y)` or one of its four neighbours.
pub open spec fn quiet_around<T>(sources: Seq<Option<Source<T>>>, x: int, y: int) -> bool {
    &&& undriven_from(sources, 0, x, y)
    &&& undriven_from(sources, 0, x - 1, y)
    &&& undriven_from(sources, 0, x + 1, y)
    &&& undriven_from(sources, 0, x, y - 1)
    &&& undriven_from(sources, 0, x, y + 1)
}

/// Injection leaves a cell that no source drives as it is.
proof fn lemma_undriven_cell<T>(
    arith: spec_fn(SimulationParameters<T>, Update<T>) -> T,
    params: SimulationParameters<T>,
    sources: Seq<Option<Source<T>>>,
    time: T,
    field: Seq<Seq<T>>,
    nx: nat,
    ny: nat,
    x: int,
    y: int,
)
    requires
        is_grid(field, nx, ny),
        0 <= x < nx,
        0 <= y < ny,
        undriven_from(sources, 0, x, y),
    ensures
        injected(arith, params, sources, time, field)[x][y] == field[x][y],
    decreases sources.len(),
{
    if sources.len() > 0 {
        let earlier = sources.drop_last();
        assert(undriven_from(earlier, 0, x, y));
        lemma_undriven_cell(arith, params, earlier, time, field, nx, ny, x, y);
        lemma_injected_shape(arith, params, earlier, time, field, nx, ny);
    }
}

/// Injection leaves, in the cell of a source that no later source drives,
/// that source's amplitude.
proof fn lemma_last_driver<T>(
    arith: spec_fn(SimulationParameters<T>, Update<T>) -> T,
    params: SimulationParameters<T>,
    sources: Seq<Option<Source<T>>>,
    time: T,
    field: Seq<Seq<T>>,
    nx: nat,
    ny: nat,
    k: int,
)
    requires
        is_grid(field, nx, ny),
        0 <= k < sources.len(),
        sources[k] matches Some(source) && source.x < nx && source.y < ny && undriven_from(
            sources,
            k + 1,
            source.x as int,
            source.y as int,
        ),
    ensures
        injected(arith, params, sources, time, field)[sources[k].unwrap().x as int][sources[k].unwrap().y as int]
            == arith(params, (Update::Emit { source: sources[k].unwrap(), time })),
    decreases sources.len(),
{
    let source = sources[k].unwrap();
    let earlier = sources.drop_last();
    lemma_injected_shape(arith, params, earlier, time, field, nx, ny);
    if k < sources.len() - 1 {
        assert(undriven_from(earlier, k + 1, source.x as int, source.y as int));
        lemma_last_driver(arith, params, earlier, time, field, nx, ny, k);
    }
}

/// Injection touches the cells of sources only. After a tick, the slice
/// one step back holds, in a cell of the grid that no source drives, what
/// the latest slice held there before the tick.
pub proof fn lemma_undriven_cell_is_kept<T>(
    arith: spec_fn(SimulationParameters<T>, Update<T>) -> T,
    before: SimulationView<T>,
    time: T,
    x: int,
    y: int,
)
    requires
        is_grid(before.current, before.nx as nat, before.ny as nat),
        0 <= x < before.nx,
        0 <= y < before.ny,
        undriven_from(before.sources, 0, x, y),
    ensures
        ticked(arith, before, time).previous[x][y] == before.current[x][y],
{
    lemma_undriven_cell(
        arith,
        before.params,
        before.sources,
        time,
        before.current,
        before.nx as nat,
        before.ny as nat,
        x,
        y,
    );
}

/// Injection overwrites. After a tick at `time`, the slice one step back
/// holds, in the cell of a source on the grid that no source registered
/// after it drives too, the arithmetic's answer to that source's amplitude
/// at `time`, whatever the cell held.
pub proof fn lemma_source_cell_holds_amplitude<T>(
    arith: spec_fn(SimulationParameters<T>, Update<T>) -> T,
    before: SimulationView<T>,
    time: T,
    k: int,
)
    requires
        is_grid(before.current, before.nx as nat, before.ny as nat),
        0 <= k < before.sources.len(),
        before.sources[k] matches Some(source) && source.x < before.nx && source.y < before.ny
            && undriven_from(before.sources, k + 1, source.x as int, source.y as int),
    ensures
        ticked(arith, before, time).previous[before.sources[k].unwrap().x as int][before.sources[k].unwrap().y as int]
            == arith(before.params,
            (Update::Emit { source: before.sources[k].unwrap(), time }),
        ),
{
    lemma_last_driver(
        arith,
        before.params,
        before.sources,
        time,
        before.current,
        before.nx as nat,
        before.ny as nat,
        k,
    );
}

// Locality

/// Obstacles leave zero in a cell that holds zero.
proof fn lemma_mask_keeps_zero_cell<T>(
    arith: spec_fn(SimulationParameters<T>, Update<T>) -> T,
    params: SimulationParameters<T>,
    zero: T,
    obstacles: Seq<Option<Obstacle<T>>>,
    field: Seq<Seq<T>>,
    nx: nat,
    ny: nat,
    x: int,
    y: int,
)
    requires
        obstacles_keep_zero(arith, params, zero, obstacles),
        is_grid(field, nx, ny),
        0 <= x < nx,
        0 <= y < ny,
        field[x][y] == zero,
    ensures
        masked(arith, params, zero, obstacles, field)[x][y] == zero,
    decreases obstacles.len(),
{
    if obstacles.len() > 0 {
        assert(obstacles_keep_zero(arith, params, zero, obstacles.drop_last()));
        assert(obstacles.last() == obstacles[obstacles.len() - 1]);
        lemma_mask_keeps_zero_cell(arith, params, zero, obstacles.drop_last(), field, nx, ny, x, y);
        lemma_masked_shape(arith, params, zero, obstacles.drop_last(), field, nx, ny);
    }
}

/// A band leaves zero in a cell that holds zero, where the latest slice
/// holds zero at the cell and at its neighbours.
proof fn lemma_band_keeps_zero_cell<T>(
    arith: spec_fn(SimulationParameters<T>, Update<T>) -> T,
    params: SimulationParameters<T>,
    zero: T,
    edge: Edge,
    band: BoundaryBand<T>,
    nx: usize,
    ny: usize,
    current: Seq<Seq<T>>,
    field: Seq<Seq<T>>,
    x: int,
    y: int,
)
    requires
        band_keeps_zero(arith, params, zero, edge, band),
        is_grid(field, nx as nat, ny as nat),
        0 <= x < nx,
        0 <= y < ny,
        field[x][y] == zero,
        zero_around(current, zero, nx, ny, x, y),
    ensures
        is_grid(band_applied(arith, params, edge, band, nx, ny, current, field), nx as nat, ny as nat),
        band_applied(arith, params, edge, band, nx, ny, current, field)[x][y] == zero,
{
    lemma_band_fits(edge, band.width, nx, ny);
    if band_region(edge, band.width, nx, ny).covers(x, y) {
        assert(reads_fit(Stencil::Outflow(edge), x, y, nx as int, ny as int));
    }
}

/// The slice holds zero at `(x, y)` and at those of its four neighbours
/// that are on the grid.
spec fn zero_around<T>(slice: Seq<Seq<T>>, zero: T, nx: usize, ny: usize, x: int, y: int) -> bool {
    &&& slice[x][y] == zero
    &&& 0 <= x - 1 ==> slice[x - 1][y] == zero
    &&& x + 1 < nx ==> slice[x + 1][y] == zero
    &&& 0 <= y - 1 ==> slice[x][y - 1] == zero
    &&& y + 1 < ny ==> slice[x][y + 1] == zero
}

/// The cell `(x, y)` lies on the outermost ring of the grid.
pub open spec fn on_ring(nx: usize, ny: usize, x: int, y: int) -> bool {
    &&& 0 <= x < nx
    &&& 0 <= y < ny
    &&& (x == 0 || x == nx - 1 || y == 0 || y == ny - 1)
}

/// The four corners of the grid lie in no band, however wide the bands.
pub proof fn lemma_corners_lie_in_no_band<T>(bands: Boundaries<T>, nx: usize, ny: usize, x: int, y: int)
    requires
        x == 0 || x == nx - 1,
        y == 0 || y == ny - 1,
    ensures
        outside_bands(bands, nx, ny, x, y),
{
}

/// Hard walls. Where the arithmetic answers zero to the attenuations of
/// zero, a tick leaves zero in every cell of the outermost ring that lies
/// in no band: an edge without a band is a wall at which the field is held
/// at zero.
pub proof fn lemma_wall_is_zero<T>(
    arith: spec_fn(SimulationParameters<T>, Update<T>) -> T,
    before: SimulationView<T>,
    time: T,
    x: int,
    y: int,
)
    requires
        obstacles_keep_zero(arith, before.params, before.zero, before.obstacles),
        on_ring(before.nx, before.ny, x, y),
        outside_bands(before.bands, before.nx, before.ny, x, y),
    ensures
        ticked(arith, before, time).current[x][y] == before.zero,
{
    let params = before.params;
    let zero = before.zero;
    let (nx, ny) = (before.nx, before.ny);
    let driven = injected(arith, params, before.sources, time, before.current);
    let stepped = interior_stepped(arith, params, zero, nx, ny, before.previous, driven);
    let after_mask = masked(arith, params, zero, before.obstacles, stepped);
    lemma_mask_keeps_zero_cell(arith, params, zero, before.obstacles, stepped, nx as nat, ny as nat, x, y);
    lemma_masked_shape(arith, params, zero, before.obstacles, stepped, nx as nat, ny as nat);
    lemma_absorbed_passes(arith, params, before.bands, nx, ny, driven, after_mask, x, y);
}

/// One cell per tick. Where the arithmetic answers zero to zeros as far as
/// the simulation can ask, a tick of a simulation that holds zero
/// everywhere leaves zero in every cell of the grid that no source drives
/// and none of whose four neighbours a source drives.
pub proof fn lemma_disturbance_is_local<T>(
    arith: spec_fn(SimulationParameters<T>, Update<T>) -> T,
    before: SimulationView<T>,
    time: T,
    x: int,
    y: int,
)
    requires
        keeps_zero(arith, before),
        at_rest(before),
        0 <= x < before.nx,
        0 <= y < before.ny,
        quiet_around(before.sources, x, y),
    ensures
        ticked(arith, before, time).current[x][y] == before.zero,
        ticked(arith, before, time).previous[x][y] == before.zero,
{
    let params = before.params;
    let zero = before.zero;
    let (nx, ny) = (before.nx, before.ny);
    let rest = uniform(nx as nat, ny as nat, zero);
    let driven = injected(arith, params, before.sources, time, rest);
    lemma_injected_shape(arith, params, before.sources, time, rest, nx as nat, ny as nat);
    lemma_undriven_cell(arith, params, before.sources, time, rest, nx as nat, ny as nat, x, y);
    if 0 <= x - 1 {
        lemma_undriven_cell(arith, params, before.sources, time, rest, nx as nat, ny as nat, x - 1, y);
    }
    if x + 1 < nx {
        lemma_undriven_cell(arith, params, before.sources, time, rest, nx as nat, ny as nat, x + 1, y);
    }
    if 0 <= y - 1 {
        lemma_undriven_cell(arith, params, before.sources, time, rest, nx as nat, ny as nat, x, y - 1);
    }
    if y + 1 < ny {
        lemma_undriven_cell(arith, params, before.sources, time, rest, nx as nat, ny as nat, x, y + 1);
    }
    assert(zero_around(driven, zero, nx, ny, x, y));
    let stepped = interior_stepped(arith, params, zero, nx, ny, rest, driven);
    let after_mask = masked(arith, params, zero, before.obstacles, stepped);
    lemma_mask_keeps_zero_cell(arith, params, zero, before.obstacles, stepped, nx as nat, ny as nat, x, y);
    lemma_masked_shape(arith, params, zero, before.obstacles, stepped, nx as nat, ny as nat);
    let right = band_applied(arith, params, Edge::Right, before.bands.right, nx, ny, driven, after_mask);
    let left = band_applied(arith, params, Edge::Left, before.bands.left, nx, ny, driven, right);
    let bottom = band_applied(arith, params, Edge::Bottom, before.bands.bottom, nx, ny, driven, left);
    lemma_band_keeps_zero_cell(
        arith,
        params,
        zero,
        Edge::Right,
        before.bands.right,
        nx,
        ny,
        driven,
        after_mask,
        x,
        y,
    );
    lemma_band_keeps_zero_cell(arith, params, zero, Edge::Left, before.bands.left, nx, ny, driven, right, x, y);
    lemma_band_keeps_zero_cell(
        arith,
        params,
        zero,
        Edge::Bottom,
        before.bands.bottom,
        nx,
        ny,
        driven,
        left,
        x,
        y,
    );
    lemma_band_keeps_zero_cell(arith, params, zero, Edge::Top, before.bands.top, nx, ny, driven, bottom, x, y);
}

} // verus!
