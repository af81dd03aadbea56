use vstd::prelude::*;

verus! {

/// Width and height of a grid.
pub type Size = (usize, usize);

/// A cell's coordinates, `(x, y)`.
pub type Location = (usize, usize);

/// Row-major index of `loc` in a grid of the given width.
pub open spec fn linear_index(loc: Location, width: nat) -> int {
    loc.1 * width + loc.0
}

/// Distinct in-bounds locations have distinct row-major indices, and every
/// in-bounds index lies below `width * height`.
pub proof fn lemma_linear_index(a: Location, b: Location, width: nat, height: nat)
    requires
        a.0 < width,
        a.1 < height,
        b.0 < width,
        b.1 < height,
    ensures
        0 <= linear_index(a, width) < width * height,
        linear_index(a, width) == linear_index(b, width) <==> a == b,
{
    let (x1, y1) = (a.0 as int, a.1 as int);
    let (x2, y2) = (b.0 as int, b.1 as int);
    let w = width as int;
    assert(y1 * w + x1 < (y1 + 1) * w) by (nonlinear_arith)
        requires x1 < w;
    assert((y1 + 1) * w <= height * w) by (nonlinear_arith)
        requires y1 + 1 <= height, w >= 0;
    assert(0 <= y1 * w) by (nonlinear_arith)
        requires y1 >= 0, w >= 0;
    if y1 < y2 {
        assert((y1 + 1) * w <= y2 * w) by (nonlinear_arith)
            requires y1 + 1 <= y2, w >= 0;
        assert(0 <= y2 * w) by (nonlinear_arith)
            requires y2 >= 0, w >= 0;
    } else if y2 < y1 {
        assert(y2 * w + x2 < (y2 + 1) * w) by (nonlinear_arith)
            requires x2 < w;
        assert((y2 + 1) * w <= y1 * w) by (nonlinear_arith)
            requires y2 + 1 <= y1, w >= 0;
    }
}

/// A `width` x `height` grid of cells, stored row by row.
pub struct Grid2D<T> {
    data: Vec<T>,
    width: usize,
    height: usize,
}

impl<T> View for Grid2D<T> {
    type V = Seq<T>;

    /// The cells in row-major order.
    closed spec fn view(&self) -> Seq<T> {
        self.data@
    }
}

impl<T> Grid2D<T> {
    pub closed spec fn width(&self) -> nat {
        self.width as nat
    }

    pub closed spec fn height(&self) -> nat {
        self.height as nat
    }

    /// The grid holds exactly one cell per location.
    pub open spec fn wf(&self) -> bool {
        self@.len() == self.width() * self.height()
    }

    pub open spec fn in_bounds(&self, loc: Location) -> bool {
        loc.0 < self.width() && loc.1 < self.height()
    }

    /// The cell at an in-bounds location.
    pub open spec fn cell(&self, loc: Location) -> T {
        self@[linear_index(loc, self.width())]
    }

    /// Fills a `width` x `height` grid by calling `generator` once per cell.
    pub fn new_with<F>(size: Size, generator: F) -> (r: Self)
        where
            F: Fn() -> T,
        requires
            size.0 * size.1 <= usize::MAX,
            call_requires(generator, ()),
            forall|c: T| #[trigger] call_ensures(generator, (), c) ==> call_requires(generator, ()),
        ensures
            r.wf(),
            r.width() == size.0,
            r.height() == size.1,
            forall|i: int| 0 <= i < r@.len() ==> call_ensures(generator, (), #[trigger] r@[i]),
    {
        let count = size.0 * size.1;
        let mut data: Vec<T> = Vec::new();
        let mut i: usize = 0;
        while i < count
            invariant
                i <= count,
                data@.len() == i,
                call_requires(generator, ()),
                forall|c: T| #[trigger] call_ensures(generator, (), c) ==> call_requires(generator, ()),
                forall|j: int| 0 <= j < data@.len() ==> call_ensures(generator, (), #[trigger] data@[j]),
            decreases count - i,
        {
            let cell = generator();
            data.push(cell);
            i = i + 1;
        }
        Grid2D { data, width: size.0, height: size.1 }
    }

    /// Builds a grid from its cells in row-major order; `None` unless there
    /// is exactly one cell per location.
    pub fn from_cells(size: Size, cells: Vec<T>) -> (r: Option<Self>)
        ensures
            r is Some <==> cells@.len() == size.0 * size.1,
            r matches Some(g) ==> g.wf() && g.width() == size.0 && g.height() == size.1 && g@
                == cells@,
    {
        let (width, height) = size;
        let len = cells.len();
        match width.checked_mul(height) {
            Some(n) => {
                if len != n {
                    return None;
                }
            },
            None => {
                return None;
            },
        }
        Some(Grid2D { data: cells, width, height })
    }

    /// The cell at `location`, or `None` where it lies outside the grid.
    pub fn get(&self, location: Location) -> (r: Option<&T>)
        requires
            self.wf(),
        ensures
            r is Some <==> self.in_bounds(location),
            r matches Some(c) ==> *c == self.cell(location),
    {
        let n = self.data.len();
        if location.0 < self.width && location.1 < self.height {
            proof {
                lemma_linear_index(location, location, self.width(), self.height());
            }
            assert(location.1 * self.width + location.0 < n);
            Some(&self.data[location.1 * self.width + location.0])
        } else {
            None
        }
    }

    /// Two independent mutable references, to the cells at `first` and
    /// `second`; `None` where either lies outside the grid or both are the
    /// same location.
    pub fn get_pair_mut(&mut self, first: Location, second: Location) -> (r: Option<(&mut T, &mut T)>)
        requires
            old(self).wf(),
        ensures
            r is Some <==> old(self).in_bounds(first) && old(self).in_bounds(second) && first
                != second,
            final(self).width() == old(self).width(),
            final(self).height() == old(self).height(),
            r is None ==> final(self)@ == old(self)@,
            r matches Some(p) ==> {
                &&& *p.0 == old(self).cell(first)
                &&& *p.1 == old(self).cell(second)
                &&& final(self)@ == old(self)@.update(
                    linear_index(first, old(self).width()),
                    *final(p.0),
                ).update(linear_index(second, old(self).width()), *final(p.1))
            },
    {
        let w = self.width;
        let h = self.height;
        let n = self.data.len();
        if first.0 >= w || first.1 >= h || second.0 >= w || second.1 >= h {
            return None;
        }
        proof {
            lemma_linear_index(first, second, self.width(), self.height());
            lemma_linear_index(second, first, self.width(), self.height());
        }
        assert(first.1 * w + first.0 < n);
        assert(second.1 * w + second.0 < n);
        let i1 = first.1 * w + first.0;
        let i2 = second.1 * w + second.0;
        if i1 == i2 {
            return None;
        }
        let lo = if i1 < i2 { i1 } else { i2 };
        let hi = if i1 < i2 { i2 } else { i1 };
        let (head, tail) = self.data.as_mut_slice().split_at_mut(hi);
        let (_, mid) = head.split_at_mut(lo);
        let lo_ref = mid.first_mut();
        let hi_ref = tail.first_mut();
        match (lo_ref, hi_ref) {
            (Some(a), Some(b)) => {
                if i1 < i2 {
                    Some((a, b))
                } else {
                    Some((b, a))
                }
            },
            _ => None,
        }
    }

    /// The grid's width and height.
    pub fn size(&self) -> (r: Size)
        ensures
            r.0 == self.width(),
            r.1 == self.height(),
    {
        (self.width, self.height)
    }

    /// The number of cells.
    pub fn count(&self) -> (r: usize)
        requires
            self.wf(),
        ensures
            r == self.width() * self.height(),
    {
        self.data.len()
    }
}

} // verus!
