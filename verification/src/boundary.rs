//! The bands along the four edges and what is done to the waves that reach
//! them.

use vstd::prelude::*;
use crate::arithmetic::{answers, functional, total, Axis, SimulationParameters, Update};
use crate::field::{before, least, Field, Region};
use crate::rule::{apply_stencil, fits, scale_rect, scaled, stenciled, Stencil};

verus! {

/// One of the four edges of the grid. `Left` is the column `x = 0`, `Right`
/// the column `x = nx - 1`, `Top` the row `y = 0` and `Bottom` the row
/// `y = ny - 1`.
#[derive(Clone, Copy, Debug, PartialEq, Eq, Structural)]
pub enum Edge {
    Left,
    Right,
    Top,
    Bottom,
}

impl Edge {
    /// The axis along which a wave crosses the edge.
    pub open spec fn spec_axis(self) -> Axis {
        match self {
            Edge::Left | Edge::Right => Axis::X,
            Edge::Top | Edge::Bottom => Axis::Y,
        }
    }

    /// The axis along which a wave crosses the edge.
    #[verifier::when_used_as_spec(spec_axis)]
    pub fn axis(self) -> (axis: Axis)
        ensures
            axis == self.spec_axis(),
    {
        match self {
            Edge::Left | Edge::Right => Axis::X,
            Edge::Top | Edge::Bottom => Axis::Y,
        }
    }

    /// The neighbour of `(x, y)` one step away from the edge, into the
    /// domain.
    pub open spec fn inward(self, x: int, y: int) -> (int, int) {
        match self {
            Edge::Left => (x + 1, y),
            Edge::Right => (x - 1, y),
            Edge::Top => (x, y + 1),
            Edge::Bottom => (x, y - 1),
        }
    }
}

/// What a band does to the samples in it.
#[derive(Debug, PartialEq)]
pub enum BoundaryPolicy<T> {
    /// Every sample in the band is multiplied by the decay.
    Sponge(T),
    /// Every sample in the band is replaced by the one-way outgoing-wave
    /// rule, taken across the band's edge.
    Absorbing,
}

impl<T: Copy> Clone for BoundaryPolicy<T> {
    fn clone(&self) -> (copy: Self)
        ensures
            copy == *self,
    {
        *self
    }
}

impl<T: Copy> Copy for BoundaryPolicy<T> {
}

/// A band along one edge: its width in cells and its policy. A band of
/// width 0 leaves the edge a hard wall.
#[derive(Debug, PartialEq)]
pub struct BoundaryBand<T> {
    pub width: usize,
    pub policy: BoundaryPolicy<T>,
}

impl<T: Copy> Clone for BoundaryBand<T> {
    fn clone(&self) -> (copy: Self)
        ensures
            copy == *self,
    {
        *self
    }
}

impl<T: Copy> Copy for BoundaryBand<T> {
}

/// The bands of the four edges.
#[derive(Debug, PartialEq)]
pub struct Boundaries<T> {
    pub left: BoundaryBand<T>,
    pub right: BoundaryBand<T>,
    pub top: BoundaryBand<T>,
    pub bottom: BoundaryBand<T>,
}

impl<T: Copy> Clone for Boundaries<T> {
    fn clone(&self) -> (copy: Self)
        ensures
            copy == *self,
    {
        *self
    }
}

impl<T: Copy> Copy for Boundaries<T> {
}

/// The cells of the band of `width` along `edge`, on a grid of `nx` by `ny`
/// cells. A band holds the `width` lines next to its edge, but never the
/// line at the opposite edge, and of each line it leaves out the two end
/// cells: so every cell of a band has a neighbour one step into the domain,
/// and the four corners of the grid lie in no band.
pub open spec fn spec_band_region(edge: Edge, width: usize, nx: usize, ny: usize) -> Region {
    match edge {
        Edge::Left => Region { x0: 0, y0: 1, x1: least(width, before(nx)), y1: before(ny) },
        Edge::Right => Region {
            x0: (nx - least(width, before(nx))) as usize,
            y0: 1,
            x1: nx,
            y1: before(ny),
        },
        Edge::Top => Region { x0: 1, y0: 0, x1: before(nx), y1: least(width, before(ny)) },
        Edge::Bottom => Region {
            x0: 1,
            y0: (ny - least(width, before(ny))) as usize,
            x1: before(nx),
            y1: ny,
        },
    }
}

/// Computes the cells of the band of `width` along `edge`.
#[verifier::when_used_as_spec(spec_band_region)]
pub fn band_region(edge: Edge, width: usize, nx: usize, ny: usize) -> (region: Region)
    ensures
        region == spec_band_region(edge, width, nx, ny),
{
    match edge {
        Edge::Left => Region { x0: 0, y0: 1, x1: least(width, before(nx)), y1: before(ny) },
        Edge::Right => Region { x0: nx - least(width, before(nx)), y0: 1, x1: nx, y1: before(ny) },
        Edge::Top => Region { x0: 1, y0: 0, x1: before(nx), y1: least(width, before(ny)) },
        Edge::Bottom => Region { x0: 1, y0: ny - least(width, before(ny)), x1: before(nx), y1: ny },
    }
}

/// `field` after the band along `edge` has been applied on a grid of `nx`
/// by `ny` cells whose latest slice is `current`: a `Sponge` multiplies
/// what the band's cells hold by the decay, an `Absorbing` band replaces it
/// by the outgoing-wave rule on `current`.
pub open spec fn band_applied<T>(
    arith: spec_fn(SimulationParameters<T>, Update<T>) -> T,
    params: SimulationParameters<T>,
    edge: Edge,
    band: BoundaryBand<T>,
    nx: usize,
    ny: usize,
    current: Seq<Seq<T>>,
    field: Seq<Seq<T>>,
) -> Seq<Seq<T>> {
    match band.policy {
        BoundaryPolicy::Sponge(decay) => scaled(
            arith,
            params,
            decay,
            band_region(edge, band.width, nx, ny),
            field,
        ),
        BoundaryPolicy::Absorbing => stenciled(
            arith,
            params,
            Stencil::Outflow(edge),
            band_region(edge, band.width, nx, ny),
            current,
            current,
            field,
        ),
    }
}

/// `field` after the four bands have been applied, in the order right,
/// left, bottom, top: where two bands overlap, the later one works on what
/// the earlier one left.
pub open spec fn absorbed<T>(
    arith: spec_fn(SimulationParameters<T>, Update<T>) -> T,
    params: SimulationParameters<T>,
    bands: Boundaries<T>,
    nx: usize,
    ny: usize,
    current: Seq<Seq<T>>,
    field: Seq<Seq<T>>,
) -> Seq<Seq<T>> {
    let after_right = band_applied(arith, params, Edge::Right, bands.right, nx, ny, current, field);
    let after_left = band_applied(arith, params, Edge::Left, bands.left, nx, ny, current, after_right);
    let after_bottom = band_applied(
        arith,
        params,
        Edge::Bottom,
        bands.bottom,
        nx,
        ny,
        current,
        after_left,
    );
    band_applied(arith, params, Edge::Top, bands.top, nx, ny, current, after_bottom)
}

/// Every cell of a band is on the grid, and so is its inward neighbour.
pub proof fn lemma_band_fits(edge: Edge, width: usize, nx: usize, ny: usize)
    ensures
        fits(Stencil::Outflow(edge), band_region(edge, width, nx, ny), nx as int, ny as int),
{
}

/// Applies the band along `edge` to `field`, reading the latest slice.
pub fn absorb_edge<T: Copy, E: Fn(SimulationParameters<T>, Update<T>) -> T>(
    field: &mut Field<T>,
    edge: Edge,
    band: BoundaryBand<T>,
    current: &Field<T>,
    params: SimulationParameters<T>,
    eval: &E,
)
    requires
        old(field).wf(),
        current.wf(),
        current.nx() == old(field).nx(),
        current.ny() == old(field).ny(),
        total(eval),
        functional(eval),
    ensures
        final(field).wf(),
        final(field).nx() == old(field).nx(),
        final(field).ny() == old(field).ny(),
        final(field)@ == band_applied(
            answers(eval),
            params,
            edge,
            band,
            old(field).nx(),
            old(field).ny(),
            current@,
            old(field)@,
        ),
{
    let region = band_region(edge, band.width, field.nx(), field.ny());
    match band.policy {
        BoundaryPolicy::Sponge(decay) => scale_rect(field, decay, region, params, eval),
        BoundaryPolicy::Absorbing => {
            proof {
                lemma_band_fits(edge, band.width, field.nx(), field.ny());
            }
            apply_stencil(field, Stencil::Outflow(edge), region, current, current, params, eval)
        },
    }
}

/// Applies the four bands to `field`, reading the latest slice.
pub fn absorb_boundary<T: Copy, E: Fn(SimulationParameters<T>, Update<T>) -> T>(
    field: &mut Field<T>,
    bands: Boundaries<T>,
    current: &Field<T>,
    params: SimulationParameters<T>,
    eval: &E,
)
    requires
        old(field).wf(),
        current.wf(),
        current.nx() == old(field).nx(),
        current.ny() == old(field).ny(),
        total(eval),
        functional(eval),
    ensures
        final(field).wf(),
        final(field).nx() == old(field).nx(),
        final(field).ny() == old(field).ny(),
        final(field)@ == absorbed(
            answers(eval),
            params,
            bands,
            old(field).nx(),
            old(field).ny(),
            current@,
            old(field)@,
        ),
{
    absorb_edge(field, Edge::Right, bands.right, current, params, eval);
    absorb_edge(field, Edge::Left, bands.left, current, params, eval);
    absorb_edge(field, Edge::Bottom, bands.bottom, current, params, eval);
    absorb_edge(field, Edge::Top, bands.top, current, params, eval);
}

} // verus!
