//! The update rules, and the loops that apply a rule to a rectangle of
//! cells.

use vstd::prelude::*;
use crate::arithmetic::{answers, evaluate, functional, total, value_of, SimulationParameters, Update};
use crate::boundary::Edge;
use crate::field::{least, Field, Region};

verus! {

/// A rule that gives a cell its next sample from the samples around it.
#[derive(Clone, Copy, Debug, PartialEq, Eq, Structural)]
pub enum Stencil {
    /// The leapfrog rule: from the latest slice at the cell and at its four
    /// neighbours, and from the slice one step back at the cell.
    Interior,
    /// The one-way outgoing-wave rule across an edge: from the latest slice
    /// at the cell and at its neighbour one step into the domain.
    Outflow(Edge),
}

/// The update that `stencil` asks for at the cell `(x, y)`, where `previous`
/// and `current` are the slice one step back and the latest slice.
pub open spec fn stencil_update<T>(
    stencil: Stencil,
    previous: Seq<Seq<T>>,
    current: Seq<Seq<T>>,
    x: int,
    y: int,
) -> Update<T> {
    match stencil {
        Stencil::Interior => Update::Interior {
            center: current[x][y],
            x_minus: current[x - 1][y],
            x_plus: current[x + 1][y],
            y_minus: current[x][y - 1],
            y_plus: current[x][y + 1],
            previous: previous[x][y],
        },
        Stencil::Outflow(edge) => Update::Outflow {
            axis: edge.axis(),
            center: current[x][y],
            inward: current[edge.inward(x, y).0][edge.inward(x, y).1],
        },
    }
}

/// `field` after `stencil` has been applied to every cell of `region`: each
/// such cell holds the answer of `arith` to the stencil's update, every
/// other cell what it held.
pub open spec fn stenciled<T>(
    arith: spec_fn(SimulationParameters<T>, Update<T>) -> T,
    params: SimulationParameters<T>,
    stencil: Stencil,
    region: Region,
    previous: Seq<Seq<T>>,
    current: Seq<Seq<T>>,
    field: Seq<Seq<T>>,
) -> Seq<Seq<T>> {
    Seq::new(
        field.len(),
        |x: int|
            Seq::new(
                field[x].len(),
                |y: int|
                    if region.covers(x, y) {
                        arith(params, stencil_update(stencil, previous, current, x, y))
                    } else {
                        field[x][y]
                    },
            ),
    )
}

/// `field` after every sample in `region` has been multiplied by `factor`:
/// each cell of the region holds the answer of `arith` to the product,
/// every other cell what it held.
pub open spec fn scaled<T>(
    arith: spec_fn(SimulationParameters<T>, Update<T>) -> T,
    params: SimulationParameters<T>,
    factor: T,
    region: Region,
    field: Seq<Seq<T>>,
) -> Seq<Seq<T>> {
    Seq::new(
        field.len(),
        |x: int|
            Seq::new(
                field[x].len(),
                |y: int|
                    if region.covers(x, y) {
                        arith(params, Update::Scale { value: field[x][y], factor })
                    } else {
                        field[x][y]
                    },
            ),
    )
}

/// The cell `(x, y)` is on the grid of `nx` by `ny` cells, and so is every
/// neighbour that `stencil` reads there.
pub open spec fn reads_fit(stencil: Stencil, x: int, y: int, nx: int, ny: int) -> bool {
    &&& 0 <= x < nx
    &&& 0 <= y < ny
    &&& match stencil {
        Stencil::Interior => 1 <= x && x + 1 < nx && 1 <= y && y + 1 < ny,
        Stencil::Outflow(edge) => 0 <= edge.inward(x, y).0 < nx && 0 <= edge.inward(x, y).1 < ny,
    }
}

/// `stencil` can be applied to every cell of `region` on the grid of `nx` by
/// `ny` cells.
pub open spec fn fits(stencil: Stencil, region: Region, nx: int, ny: int) -> bool {
    forall|x: int, y: int| region.covers(x, y) ==> #[trigger] reads_fit(stencil, x, y, nx, ny)
}

/// Builds the update that `stencil` asks for at `(x, y)`.
fn update_at<T: Copy>(
    stencil: Stencil,
    previous: &Field<T>,
    current: &Field<T>,
    x: usize,
    y: usize,
) -> (update: Update<T>)
    requires
        previous.wf(),
        current.wf(),
        previous.nx() == current.nx(),
        previous.ny() == current.ny(),
        reads_fit(stencil, x as int, y as int, current.nx() as int, current.ny() as int),
    ensures
        update == stencil_update(stencil, previous@, current@, x as int, y as int),
{
    match stencil {
        Stencil::Interior => Update::Interior {
            center: current.at(x, y),
            x_minus: current.at(x - 1, y),
            x_plus: current.at(x + 1, y),
            y_minus: current.at(x, y - 1),
            y_plus: current.at(x, y + 1),
            previous: previous.at(x, y),
        },
        Stencil::Outflow(edge) => {
            let inward = match edge {
                Edge::Left => current.at(x + 1, y),
                Edge::Right => current.at(x - 1, y),
                Edge::Top => current.at(x, y + 1),
                Edge::Bottom => current.at(x, y - 1),
            };
            Update::Outflow { axis: edge.axis(), center: current.at(x, y), inward }
        },
    }
}

/// Applies `stencil` to every cell of `region`: reads the slice one step
/// back and the latest slice, and writes the answers of `eval` into `field`.
pub fn apply_stencil<T: Copy, E: Fn(SimulationParameters<T>, Update<T>) -> T>(
    field: &mut Field<T>,
    stencil: Stencil,
    region: Region,
    previous: &Field<T>,
    current: &Field<T>,
    params: SimulationParameters<T>,
    eval: &E,
)
    requires
        old(field).wf(),
        previous.wf(),
        current.wf(),
        previous.nx() == old(field).nx(),
        previous.ny() == old(field).ny(),
        current.nx() == old(field).nx(),
        current.ny() == old(field).ny(),
        fits(stencil, region, old(field).nx() as int, old(field).ny() as int),
        total(eval),
        functional(eval),
    ensures
        final(field).wf(),
        final(field).nx() == old(field).nx(),
        final(field).ny() == old(field).ny(),
        final(field)@ == stenciled(answers(eval), params, stencil, region, previous@, current@, old(field)@),
{
    let mut x = region.x0;
    while x < region.x1
        invariant
            field.wf(),
            previous.wf(),
            current.wf(),
            field.nx() == old(field).nx(),
            field.ny() == old(field).ny(),
            previous.nx() == field.nx(),
            previous.ny() == field.ny(),
            current.nx() == field.nx(),
            current.ny() == field.ny(),
            fits(stencil, region, field.nx() as int, field.ny() as int),
            total(eval),
            functional(eval),
            region.x0 <= x,
            forall|i: int, j: int|
                0 <= i < field.nx() && 0 <= j < field.ny() ==> #[trigger] field@[i][j] == if i < x
                    && region.covers(i, j) {
                    value_of(eval, params, stencil_update(stencil, previous@, current@, i, j))
                } else {
                    old(field)@[i][j]
                },
        decreases region.x1 - x,
    {
        let mut y = region.y0;
        while y < region.y1
            invariant
                field.wf(),
                previous.wf(),
                current.wf(),
                field.nx() == old(field).nx(),
                field.ny() == old(field).ny(),
                previous.nx() == field.nx(),
                previous.ny() == field.ny(),
                current.nx() == field.nx(),
                current.ny() == field.ny(),
                fits(stencil, region, field.nx() as int, field.ny() as int),
                total(eval),
                functional(eval),
                region.x0 <= x < region.x1,
                region.y0 <= y,
                forall|i: int, j: int|
                    0 <= i < field.nx() && 0 <= j < field.ny() ==> #[trigger] field@[i][j] == if (i < x
                        || (i == x && j < y)) && region.covers(i, j) {
                        value_of(eval, params, stencil_update(stencil, previous@, current@, i, j))
                    } else {
                        old(field)@[i][j]
                    },
            decreases region.y1 - y,
        {
            assert(reads_fit(stencil, x as int, y as int, field.nx() as int, field.ny() as int));
            let update = update_at(stencil, previous, current, x, y);
            let value = evaluate(eval, params, update);
            field.set(x, y, value);
            y += 1;
        }
        x += 1;
    }
    assert(field@ =~~= stenciled(answers(eval), params, stencil, region, previous@, current@, old(field)@));
}

/// Multiplies every sample of `region` that lies on the grid by `factor`;
/// what of the rectangle lies off the grid is ignored.
pub fn scale_rect<T: Copy, E: Fn(SimulationParameters<T>, Update<T>) -> T>(
    field: &mut Field<T>,
    factor: T,
    region: Region,
    params: SimulationParameters<T>,
    eval: &E,
)
    requires
        old(field).wf(),
        total(eval),
        functional(eval),
    ensures
        final(field).wf(),
        final(field).nx() == old(field).nx(),
        final(field).ny() == old(field).ny(),
        final(field)@ == scaled(answers(eval), params, factor, region, old(field)@),
{
    let x_end = least(region.x1, field.nx());
    let y_end = least(region.y1, field.ny());
    let mut x = region.x0;
    while x < x_end
        invariant
            field.wf(),
            field.nx() == old(field).nx(),
            field.ny() == old(field).ny(),
            x_end == least(region.x1, field.nx()),
            y_end == least(region.y1, field.ny()),
            total(eval),
            functional(eval),
            region.x0 <= x,
            forall|i: int, j: int|
                0 <= i < field.nx() && 0 <= j < field.ny() ==> #[trigger] field@[i][j] == if i < x
                    && region.covers(i, j) {
                    value_of(eval, params, Update::Scale { value: old(field)@[i][j], factor })
                } else {
                    old(field)@[i][j]
                },
        decreases x_end - x,
    {
        let mut y = region.y0;
        while y < y_end
            invariant
                field.wf(),
                field.nx() == old(field).nx(),
                field.ny() == old(field).ny(),
                x_end == least(region.x1, field.nx()),
                y_end == least(region.y1, field.ny()),
                total(eval),
                functional(eval),
                region.x0 <= x < x_end,
                region.y0 <= y,
                forall|i: int, j: int|
                    0 <= i < field.nx() && 0 <= j < field.ny() ==> #[trigger] field@[i][j] == if (i < x
                        || (i == x && j < y)) && region.covers(i, j) {
                        value_of(eval, params, Update::Scale { value: old(field)@[i][j], factor })
                    } else {
                        old(field)@[i][j]
                    },
            decreases y_end - y,
        {
            let own = field.at(x, y);
            let value = evaluate(eval, params, Update::Scale { value: own, factor });
            field.set(x, y, value);
            y += 1;
        }
        x += 1;
    }
    assert(field@ =~~= scaled(answers(eval), params, factor, region, old(field)@));
}

} // verus!
