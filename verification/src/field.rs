//! One time-slice of the field: a rectangular grid of samples.

use vstd::prelude::*;

verus! {

/// Whether `g` is a grid of `nx` columns with `ny` samples each.
pub open spec fn is_grid<T>(g: Seq<Seq<T>>, nx: nat, ny: nat) -> bool {
    &&& g.len() == nx
    &&& forall|x: int| 0 <= x < nx ==> (#[trigger] g[x]).len() == ny
}

/// The grid of `nx` by `ny` samples that all equal `value`.
pub open spec fn uniform<T>(nx: nat, ny: nat, value: T) -> Seq<Seq<T>> {
    Seq::new(nx, |x: int| Seq::new(ny, |y: int| value))
}

/// `g` with the sample at `(x, y)` replaced by `value`.
pub open spec fn with_cell<T>(g: Seq<Seq<T>>, x: int, y: int, value: T) -> Seq<Seq<T>> {
    g.update(x, g[x].update(y, value))
}

/// The smaller of two lengths.
pub open spec fn spec_least(a: usize, b: usize) -> usize {
    if a < b {
        a
    } else {
        b
    }
}

/// The smaller of two lengths.
#[verifier::when_used_as_spec(spec_least)]
pub fn least(a: usize, b: usize) -> (m: usize)
    ensures
        m == spec_least(a, b),
{
    if a < b {
        a
    } else {
        b
    }
}

/// The length one short of `n`, and 0 for 0.
pub open spec fn spec_before(n: usize) -> usize {
    if n > 0 {
        (n - 1) as usize
    } else {
        0
    }
}

/// The length one short of `n`, and 0 for 0.
#[verifier::when_used_as_spec(spec_before)]
pub fn before(n: usize) -> (m: usize)
    ensures
        m == spec_before(n),
{
    if n > 0 {
        n - 1
    } else {
        0
    }
}

/// A half-open rectangle of cells: `x0 <= x < x1` and `y0 <= y < y1`.
#[derive(Clone, Copy, Debug, PartialEq, Eq, Structural)]
pub struct Region {
    pub x0: usize,
    pub y0: usize,
    pub x1: usize,
    pub y1: usize,
}

impl Region {
    /// Whether the cell `(x, y)` lies in the rectangle.
    pub open spec fn covers(self, x: int, y: int) -> bool {
        self.x0 <= x < self.x1 && self.y0 <= y < self.y1
    }

    /// Tests whether the cell `(x, y)` lies in the rectangle.
    pub fn contains(&self, x: usize, y: usize) -> (inside: bool)
        ensures
            inside == self.covers(x as int, y as int),
    {
        self.x0 <= x && x < self.x1 && self.y0 <= y && y < self.y1
    }
}

/// `g` with every cell of `region` that lies on the grid replaced by `value`.
pub open spec fn with_rect<T>(g: Seq<Seq<T>>, region: Region, value: T) -> Seq<Seq<T>> {
    Seq::new(
        g.len(),
        |x: int|
            Seq::new(
                g[x].len(),
                |y: int|
                    if region.covers(x, y) {
                        value
                    } else {
                        g[x][y]
                    },
            ),
    )
}

/// A grid of `nx` by `ny` samples, addressed as `(x, y)` with
/// `x < nx` and `y < ny`.
pub struct Field<T> {
    nx: usize,
    ny: usize,
    cells: Vec<Vec<T>>,
}

impl<T> View for Field<T> {
    type V = Seq<Seq<T>>;

    /// The samples by column: `self@[x][y]` is the sample at `(x, y)`.
    closed spec fn view(&self) -> Seq<Seq<T>> {
        Seq::new(self.cells@.len(), |x: int| self.cells@[x]@)
    }
}

impl<T: Copy> Field<T> {
    /// The number of columns.
    pub closed spec fn spec_nx(&self) -> usize {
        self.nx
    }

    /// The number of samples in a column.
    pub closed spec fn spec_ny(&self) -> usize {
        self.ny
    }

    /// The stored samples form a grid of the recorded dimensions.
    pub open spec fn wf(&self) -> bool {
        is_grid(self@, self.spec_nx() as nat, self.spec_ny() as nat)
    }

    /// A field of `nx` by `ny` samples, each equal to `value`.
    pub fn filled(nx: usize, ny: usize, value: T) -> (field: Self)
        ensures
            field.wf(),
            field.spec_nx() == nx,
            field.spec_ny() == ny,
            field@ == uniform(nx as nat, ny as nat, value),
    {
        let mut cells: Vec<Vec<T>> = Vec::new();
        let mut x: usize = 0;
        while x < nx
            invariant
                x <= nx,
                cells@.len() == x,
                forall|i: int| 0 <= i < x ==> (#[trigger] cells@[i])@ == Seq::new(ny as nat, |y: int| value),
            decreases nx - x,
        {
            let mut column: Vec<T> = Vec::new();
            let mut y: usize = 0;
            while y < ny
                invariant
                    y <= ny,
                    column@.len() == y,
                    forall|j: int| 0 <= j < y ==> #[trigger] column@[j] == value,
                decreases ny - y,
            {
                column.push(value);
                y += 1;
            }
            cells.push(column);
            x += 1;
        }
        Field { nx, ny, cells }
    }

    /// The number of columns.
    #[verifier::when_used_as_spec(spec_nx)]
    pub fn nx(&self) -> (n: usize)
        ensures
            n == self.spec_nx(),
    {
        self.nx
    }

    /// The number of samples in a column.
    #[verifier::when_used_as_spec(spec_ny)]
    pub fn ny(&self) -> (n: usize)
        ensures
            n == self.spec_ny(),
    {
        self.ny
    }

    /// The sample at `(x, y)`.
    pub fn at(&self, x: usize, y: usize) -> (value: T)
        requires
            self.wf(),
            x < self.nx(),
            y < self.ny(),
        ensures
            value == self@[x as int][y as int],
    {
        assert(self@[x as int] == self.cells@[x as int]@);
        self.cells[x][y]
    }

    /// The sample at `(x, y)`, or `None` where `(x, y)` is off the grid.
    pub fn get(&self, x: usize, y: usize) -> (value: Option<T>)
        requires
            self.wf(),
        ensures
            value == if x < self.nx() && y < self.ny() {
                Some(self@[x as int][y as int])
            } else {
                None
            },
    {
        if x < self.nx && y < self.ny {
            Some(self.at(x, y))
        } else {
            None
        }
    }

    /// Replaces the sample at `(x, y)`.
    pub fn set(&mut self, x: usize, y: usize, value: T)
        requires
            old(self).wf(),
            x < old(self).nx(),
            y < old(self).ny(),
        ensures
            final(self).wf(),
            final(self).nx() == old(self).nx(),
            final(self).ny() == old(self).ny(),
            final(self)@ == with_cell(old(self)@, x as int, y as int, value),
    {
        assert(self@[x as int] == self.cells@[x as int]@);
        self.cells[x][y] = value;
        assert(self@ =~~= with_cell(old(self)@, x as int, y as int, value));
    }

    /// Replaces every sample of `region` that lies on the grid by `value`;
    /// what of the rectangle lies off the grid is ignored.
    pub fn fill_rect(&mut self, region: Region, value: T)
        requires
            old(self).wf(),
        ensures
            final(self).wf(),
            final(self).nx() == old(self).nx(),
            final(self).ny() == old(self).ny(),
            final(self)@ == with_rect(old(self)@, region, value),
    {
        let x_end = least(region.x1, self.nx);
        let y_end = least(region.y1, self.ny);
        let mut x = region.x0;
        while x < x_end
            invariant
                self.wf(),
                self.nx() == old(self).nx(),
                self.ny() == old(self).ny(),
                x_end <= self.nx(),
                x_end <= region.x1,
                y_end <= self.ny(),
                y_end == least(region.y1, self.ny()),
                region.x0 <= x,
                forall|i: int, j: int|
                    0 <= i < self.nx() && 0 <= j < self.ny() ==> #[trigger] self@[i][j] == if i < x
                        && region.covers(i, j) {
                        value
                    } else {
                        old(self)@[i][j]
                    },
            decreases x_end - x,
        {
            let mut y = region.y0;
            while y < y_end
                invariant
                    self.wf(),
                    self.nx() == old(self).nx(),
                    self.ny() == old(self).ny(),
                    x < x_end <= self.nx(),
                    x_end <= region.x1,
                    y_end <= self.ny(),
                    y_end <= region.y1,
                    region.x0 <= x,
                    region.y0 <= y,
                    forall|i: int, j: int|
                        0 <= i < self.nx() && 0 <= j < self.ny() ==> #[trigger] self@[i][j] == if (i
                            < x || (i == x && j < y)) && region.covers(i, j) {
                            value
                        } else {
                            old(self)@[i][j]
                        },
                decreases y_end - y,
            {
                self.set(x, y, value);
                y += 1;
            }
            x += 1;
        }
        assert(self@ =~~= with_rect(old(self)@, region, value));
    }

    /// A field with the same samples.
    pub fn duplicate(&self) -> (copy: Self)
        requires
            self.wf(),
        ensures
            copy.wf(),
            copy.nx() == self.nx(),
            copy.ny() == self.ny(),
            copy@ == self@,
    {
        let mut cells: Vec<Vec<T>> = Vec::new();
        let mut x: usize = 0;
        while x < self.nx
            invariant
                self.wf(),
                x <= self.nx(),
                cells@.len() == x,
                forall|i: int| 0 <= i < x ==> (#[trigger] cells@[i])@ == self@[i],
            decreases self.nx() - x,
        {
            let mut column: Vec<T> = Vec::new();
            let mut y: usize = 0;
            while y < self.ny
                invariant
                    self.wf(),
                    x < self.nx(),
                    y <= self.ny(),
                    column@.len() == y,
                    forall|j: int| 0 <= j < y ==> #[trigger] column@[j] == self@[x as int][j],
                decreases self.ny() - y,
            {
                column.push(self.at(x, y));
                y += 1;
            }
            cells.push(column);
            x += 1;
        }
        Field { nx: self.nx, ny: self.ny, cells }
    }
}

} // verus!
