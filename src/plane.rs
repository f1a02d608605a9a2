use vstd::prelude::*;

verus! {

/// The dimensions of a plane: `rows` lines of `cols` samples.
#[derive(Clone, Copy, Debug, PartialEq, Eq, Structural)]
pub struct Size {
    pub rows: usize,
    pub cols: usize,
}

/// A position on a plane: `x` is the row, `y` the column.
#[derive(Clone, Copy, Debug, PartialEq, Eq, Structural)]
pub struct GridPoint {
    pub x: usize,
    pub y: usize,
}

/// What a plane holds: its dimensions and its samples, row after row.
pub struct PlaneView {
    pub rows: nat,
    pub cols: nat,
    pub samples: Seq<u8>,
}

impl PlaneView {
    /// The sample at row `x`, column `y`.
    pub open spec fn at(self, x: int, y: int) -> u8 {
        self.samples[x * self.cols + y]
    }
}

/// A single-component plane of 8-bit samples.
pub struct Plane {
    rows: usize,
    cols: usize,
    samples: Vec<u8>,
}

impl View for Plane {
    type V = PlaneView;

    closed spec fn view(&self) -> PlaneView {
        PlaneView { rows: self.rows as nat, cols: self.cols as nat, samples: self.samples@ }
    }
}

/// The linear index of row `x`, column `y` lies in a plane of that size.
pub proof fn lemma_index_in_bounds(x: int, y: int, rows: int, cols: int)
    requires
        0 <= x < rows,
        0 <= y < cols,
    ensures
        0 <= x * cols + y < rows * cols,
{
    assert(0 <= x * cols + y < rows * cols) by (nonlinear_arith)
        requires
            0 <= x < rows,
            0 <= y < cols,
    ;
}

impl Plane {
    /// There is one sample for each position.
    pub open spec fn wf(&self) -> bool {
        self@.samples.len() == self@.rows * self@.cols
    }

    /// The dimensions of the plane.
    pub open spec fn size_spec(&self) -> Size {
        Size { rows: self@.rows as usize, cols: self@.cols as usize }
    }

    /// Makes a plane from its samples, row after row; `None` where their
    /// number is not `rows * cols`.
    pub fn new(rows: usize, cols: usize, samples: Vec<u8>) -> (r: Option<Plane>)
        ensures
            r is Some <==> samples@.len() == rows * cols,
            r matches Some(p) ==> p.wf() && p@ == (PlaneView {
                rows: rows as nat,
                cols: cols as nat,
                samples: samples@,
            }),
    {
        match rows.checked_mul(cols) {
            Some(n) => {
                if samples.len() == n {
                    Some(Plane { rows, cols, samples })
                } else {
                    None
                }
            },
            None => {
                proof {
                    let len = samples.len();
                    assert(samples@.len() == len);
                }
                None
            },
        }
    }

    /// Makes a plane of the given size in which every sample is `value`;
    /// `None` where `rows * cols` does not fit in `usize`.
    pub fn filled(size: Size, value: u8) -> (r: Option<Plane>)
        ensures
            r is Some <==> size.rows * size.cols <= usize::MAX,
            r matches Some(p) ==> p.wf() && p@.rows == size.rows && p@.cols == size.cols
                && forall|i: int| 0 <= i < p@.samples.len() ==> p@.samples[i] == value,
    {
        match size.rows.checked_mul(size.cols) {
            Some(n) => {
                let mut samples: Vec<u8> = Vec::new();
                let mut i: usize = 0;
                while i < n
                    invariant
                        i <= n,
                        samples@.len() == i,
                        forall|k: int| 0 <= k < i ==> samples@[k] == value,
                    decreases n - i,
                {
                    samples.push(value);
                    i = i + 1;
                }
                Some(Plane { rows: size.rows, cols: size.cols, samples })
            },
            None => None,
        }
    }

    /// The number of rows.
    pub fn rows(&self) -> (r: usize)
        ensures
            r == self@.rows,
    {
        self.rows
    }

    /// The number of columns.
    pub fn cols(&self) -> (r: usize)
        ensures
            r == self@.cols,
    {
        self.cols
    }

    /// The dimensions of the plane.
    pub fn size(&self) -> (r: Size)
        ensures
            r == self.size_spec(),
    {
        Size { rows: self.rows, cols: self.cols }
    }

    /// The samples, row after row.
    pub fn samples(&self) -> (r: &Vec<u8>)
        ensures
            r@ == self@.samples,
    {
        &self.samples
    }

    /// The sample at row `x`, column `y`.
    pub fn get(&self, x: usize, y: usize) -> (r: u8)
        requires
            self.wf(),
            x < self@.rows,
            y < self@.cols,
        ensures
            r == self@.at(x as int, y as int),
    {
        let n = self.samples.len();
        proof {
            lemma_index_in_bounds(x as int, y as int, self.rows as int, self.cols as int);
            assert(x * self.cols + y < n);
        }
        self.samples[x * self.cols + y]
    }
}

} // verus!
