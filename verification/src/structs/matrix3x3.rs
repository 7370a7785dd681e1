//! 3 by 3 matrix in column-major order over exact integer cells.
//!
//! The matrix algebra of this library is stated and proved over exact
//! integer arithmetic; cells are bounded by [`CELL_LIMIT`] so that every
//! determinant and cofactor fits the cell type with room to spare.

use vstd::prelude::*;

verus! {

/// Largest cell magnitude the exact matrix algebra accepts.
pub const CELL_LIMIT: i64 = 16384;

/// Largest magnitude a 3 by 3 determinant of bounded cells can take.
pub const DET3_LIMIT: i64 = 26388279066624;

/// True when every cell of `s` is bounded by [`CELL_LIMIT`].
pub open spec fn cells_in_range(s: Seq<i64>) -> bool {
    forall|k: int| 0 <= k < s.len() ==> -(CELL_LIMIT as int) <= #[trigger] s[k] <= CELL_LIMIT as int
}

/// The determinant of the 3 by 3 cell sequence `m` (column-major), by
/// expansion along the first column.
pub open spec fn spec_det3(m: Seq<i64>) -> int {
    m[0] * (m[4] * m[8] - m[7] * m[5]) - m[3] * (m[1] * m[8] - m[7] * m[2]) + m[6] * (m[1]
        * m[5] - m[4] * m[2])
}

/// A product of two bounded factors is bounded by the product of the bounds.
pub proof fn lemma_mul_bound(a: int, b: int, am: int, bm: int)
    requires
        -am <= a <= am,
        -bm <= b <= bm,
    ensures
        -(am * bm) <= a * b <= am * bm,
{
    assert(-am <= a <= am && -bm <= b <= bm ==> -(am * bm) <= a * b <= am * bm)
        by (nonlinear_arith);
}

/// The determinant of a bounded 3 by 3 cell sequence is bounded by
/// [`DET3_LIMIT`].
pub proof fn lemma_det3_bound(m: Seq<i64>)
    requires
        m.len() == 9,
        cells_in_range(m),
    ensures
        -(DET3_LIMIT as int) <= spec_det3(m) <= DET3_LIMIT as int,
{
    let lim = CELL_LIMIT as int;
    lemma_mul_bound(m[4] as int, m[8] as int, lim, lim);
    lemma_mul_bound(m[7] as int, m[5] as int, lim, lim);
    lemma_mul_bound(m[1] as int, m[8] as int, lim, lim);
    lemma_mul_bound(m[7] as int, m[2] as int, lim, lim);
    lemma_mul_bound(m[1] as int, m[5] as int, lim, lim);
    lemma_mul_bound(m[4] as int, m[2] as int, lim, lim);
    lemma_mul_bound(m[0] as int, m[4] * m[8] - m[7] * m[5], lim, 2 * lim * lim);
    lemma_mul_bound(m[3] as int, m[1] * m[8] - m[7] * m[2], lim, 2 * lim * lim);
    lemma_mul_bound(m[6] as int, m[1] * m[5] - m[4] * m[2], lim, 2 * lim * lim);
}

/// Computes the determinant of a 3 by 3 cell array in column-major order.
pub fn determinant3x3(m: &[i64; 9]) -> (r: i64)
    requires
        cells_in_range(m@),
    ensures
        r == spec_det3(m@),
{
    proof {
        let lim = CELL_LIMIT as int;
        lemma_mul_bound(m@[4] as int, m@[8] as int, lim, lim);
        lemma_mul_bound(m@[7] as int, m@[5] as int, lim, lim);
        lemma_mul_bound(m@[1] as int, m@[8] as int, lim, lim);
        lemma_mul_bound(m@[7] as int, m@[2] as int, lim, lim);
        lemma_mul_bound(m@[1] as int, m@[5] as int, lim, lim);
        lemma_mul_bound(m@[4] as int, m@[2] as int, lim, lim);
        lemma_mul_bound(m@[0] as int, m@[4] * m@[8] - m@[7] * m@[5], lim, 2 * lim * lim);
        lemma_mul_bound(m@[3] as int, m@[1] * m@[8] - m@[7] * m@[2], lim, 2 * lim * lim);
        lemma_mul_bound(m@[6] as int, m@[1] * m@[5] - m@[4] * m@[2], lim, 2 * lim * lim);
    }
    (m[0] * ((m[4] * m[8]) - (m[7] * m[5]))) - (m[3] * ((m[1] * m[8]) - (m[7] * m[2]))) + (m[6]
        * ((m[1] * m[5]) - (m[4] * m[2])))
}

/// 3 by 3 matrix in column-major order: the cell at row `r` and column `c`
/// sits at the flat index `r + 3 * c`.
#[derive(Copy, Clone, Debug)]
pub struct Matrix3x3 {
    pub(crate) cells: [i64; 9],
}

impl View for Matrix3x3 {
    type V = Seq<i64>;

    closed spec fn view(&self) -> Seq<i64> {
        self.cells@
    }
}

impl Matrix3x3 {
    /// Creates a new `Matrix3x3` with all cells set to 0.
    pub fn new_zero() -> (m: Self)
        ensures
            m@ =~= seq![0i64, 0, 0, 0, 0, 0, 0, 0, 0],
    {
        Self { cells: [0; 9] }
    }

    /// Creates a new `Matrix3x3` with diagonal cells set to 1.
    pub fn new_identity() -> (m: Self)
        ensures
            m@ =~= identity3(),
    {
        Self { cells: [1, 0, 0, 0, 1, 0, 0, 0, 1] }
    }

    /// Sets all cells to 0.
    pub fn clear(&mut self)
        ensures
            final(self)@ =~= seq![0i64, 0, 0, 0, 0, 0, 0, 0, 0],
    {
        self.cells = [0; 9];
    }

    /// Creates a `Matrix3x3` from an array in column-major order.
    pub fn from_array(array: [i64; 9]) -> (m: Self)
        ensures
            m@ == array@,
    {
        Self { cells: array }
    }

    /// Creates a `Matrix3x3` in column-major order from an array in
    /// row-major order.
    pub fn from_array_row_major(array: [i64; 9]) -> (m: Self)
        ensures
            m@ =~= transposed3(array@),
    {
        Self {
            cells: [
                array[0], array[3], array[6],
                array[1], array[4], array[7],
                array[2], array[5], array[8],
            ],
        }
    }

    /// Returns a reference to the cell array in column-major order.
    pub fn as_array(&self) -> (r: &[i64; 9])
        ensures
            r@ == self@,
    {
        &self.cells
    }

    /// Returns a new array of the cells in row-major order.
    pub fn as_array_row_major(&self) -> (r: [i64; 9])
        ensures
            r@ =~= transposed3(self@),
    {
        [
            self.cells[0], self.cells[3], self.cells[6],
            self.cells[1], self.cells[4], self.cells[7],
            self.cells[2], self.cells[5], self.cells[8],
        ]
    }

    /// Switches columns with rows in place.
    pub fn transpose_self(&mut self)
        ensures
            final(self)@ =~= transposed3(old(self)@),
    {
        self.cells = self.as_array_row_major();
    }

    /// Returns a new `Matrix3x3` with columns and rows switched.
    pub fn transpose(m: Self) -> (r: Self)
        ensures
            r@ =~= transposed3(m@),
    {
        Self::from_array(m.as_array_row_major())
    }

    /// Returns the cell at the given row and column.
    pub fn nm_index(&self, row: usize, column: usize) -> (r: i64)
        requires
            row < 3,
            column < 3,
        ensures
            r == self@[row + 3 * column],
    {
        self.cells[row + (column * 3)]
    }

    /// Multiplies a 3-component column vector by this matrix.
    pub fn mul_vector3(&self, v: &[i64; 3]) -> (r: [i64; 3])
        requires
            cells_in_range(self@),
            cells_in_range(v@),
        ensures
            r@[0] == mul3_vector(self@, v@)[0],
            r@[1] == mul3_vector(self@, v@)[1],
            r@[2] == mul3_vector(self@, v@)[2],
    {
        proof {
            lemma_pairwise_products(self@, v@);
        }
        [
            (self.cells[0] * v[0]) + (self.cells[3] * v[1]) + (self.cells[6] * v[2]),
            (self.cells[1] * v[0]) + (self.cells[4] * v[1]) + (self.cells[7] * v[2]),
            (self.cells[2] * v[0]) + (self.cells[5] * v[1]) + (self.cells[8] * v[2]),
        ]
    }

    /// Multiplies this matrix by `rhs`: the result applies `rhs` first, this
    /// matrix after.
    pub fn multiply(&self, rhs: &Self) -> (r: Self)
        requires
            cells_in_range(self@),
            cells_in_range(rhs@),
        ensures
            forall|idx: int| 0 <= idx < 9 ==> #[trigger] r@[idx] == mul3_cell(
                self@,
                rhs@,
                idx % 3,
                idx / 3,
            ),
    {
        proof {
            lemma_pairwise_products(self@, rhs@);
        }
        Self {
            cells: [
                // column 0
                (self.cells[0] * rhs.cells[0]) + (self.cells[3] * rhs.cells[1]) + (self.cells[6]
                    * rhs.cells[2]),
                (self.cells[1] * rhs.cells[0]) + (self.cells[4] * rhs.cells[1]) + (self.cells[7]
                    * rhs.cells[2]),
                (self.cells[2] * rhs.cells[0]) + (self.cells[5] * rhs.cells[1]) + (self.cells[8]
                    * rhs.cells[2]),
                // column 1
                (self.cells[0] * rhs.cells[3]) + (self.cells[3] * rhs.cells[4]) + (self.cells[6]
                    * rhs.cells[5]),
                (self.cells[1] * rhs.cells[3]) + (self.cells[4] * rhs.cells[4]) + (self.cells[7]
                    * rhs.cells[5]),
                (self.cells[2] * rhs.cells[3]) + (self.cells[5] * rhs.cells[4]) + (self.cells[8]
                    * rhs.cells[5]),
                // column 2
                (self.cells[0] * rhs.cells[6]) + (self.cells[3] * rhs.cells[7]) + (self.cells[6]
                    * rhs.cells[8]),
                (self.cells[1] * rhs.cells[6]) + (self.cells[4] * rhs.cells[7]) + (self.cells[7]
                    * rhs.cells[8]),
                (self.cells[2] * rhs.cells[6]) + (self.cells[5] * rhs.cells[7]) + (self.cells[8]
                    * rhs.cells[8]),
            ],
        }
    }

    /// Computes the determinant of this matrix.
    pub fn determinant(&self) -> (r: i64)
        requires
            cells_in_range(self@),
        ensures
            r == spec_det3(self@),
    {
        determinant3x3(self.as_array())
    }
}

/// The cells of the identity matrix.
pub open spec fn identity3() -> Seq<i64> {
    seq![1i64, 0, 0, 0, 1, 0, 0, 0, 1]
}

/// The cell sequence `m` with rows and columns switched.
pub open spec fn transposed3(m: Seq<i64>) -> Seq<i64> {
    Seq::new(9, |idx: int| m[3 * (idx % 3) + idx / 3])
}

/// Cell (`r`, `c`) of the column-major product of the 3 by 3 cell sequences
/// `a` and `b`.
pub open spec fn mul3_cell(a: Seq<i64>, b: Seq<i64>, r: int, c: int) -> int {
    a[r] * b[3 * c] + a[r + 3] * b[1 + 3 * c] + a[r + 6] * b[2 + 3 * c]
}

/// The product of the 3 by 3 cell sequence `m` and the column vector `v`.
pub open spec fn mul3_vector(m: Seq<i64>, v: Seq<i64>) -> Seq<int> {
    seq![
        m[0] * v[0] + m[3] * v[1] + m[6] * v[2],
        m[1] * v[0] + m[4] * v[1] + m[7] * v[2],
        m[2] * v[0] + m[5] * v[1] + m[8] * v[2],
    ]
}

/// Every pairwise product of cells drawn from two bounded sequences is
/// bounded by the square of [`CELL_LIMIT`].
pub(crate) proof fn lemma_pairwise_products(a: Seq<i64>, b: Seq<i64>)
    requires
        cells_in_range(a),
        cells_in_range(b),
    ensures
        forall|i: int, j: int|
            0 <= i < a.len() && 0 <= j < b.len() ==> -((CELL_LIMIT as int) * (CELL_LIMIT
                as int)) <= #[trigger] (a[i] * b[j]) <= (CELL_LIMIT as int) * (CELL_LIMIT
                as int),
{
    let lim = CELL_LIMIT as int;
    assert forall|i: int, j: int| 0 <= i < a.len() && 0 <= j < b.len() implies -(lim * lim)
        <= #[trigger] (a[i] * b[j]) <= lim * lim by {
        lemma_mul_bound(a[i] as int, b[j] as int, lim, lim);
    }
}

/// The determinant of the identity matrix is 1.
pub proof fn lemma_det3_identity()
    ensures
        spec_det3(identity3()) == 1,
{
    let m = identity3();
    let (x0, x1, x2) = (m[0] as int, m[1] as int, m[2] as int);
    let (x3, x4, x5) = (m[3] as int, m[4] as int, m[5] as int);
    let (x6, x7, x8) = (m[6] as int, m[7] as int, m[8] as int);
    assert(x0 == 1 && x4 == 1 && x8 == 1 && x1 == 0 && x2 == 0 && x3 == 0 && x5 == 0 && x6 == 0
        && x7 == 0 ==> x0 * (x4 * x8 - x7 * x5) - x3 * (x1 * x8 - x7 * x2) + x6 * (x1 * x5 - x4
        * x2) == 1) by (nonlinear_arith);
}

/// A 3 by 3 matrix with two equal rows has determinant 0.
pub proof fn lemma_det3_equal_rows(m: Seq<i64>, i: int, j: int)
    requires
        m.len() == 9,
        0 <= i < 3,
        0 <= j < 3,
        i != j,
        m[i] == m[j],
        m[i + 3] == m[j + 3],
        m[i + 6] == m[j + 6],
    ensures
        spec_det3(m) == 0,
{
    let (x0, x1, x2) = (m[0] as int, m[1] as int, m[2] as int);
    let (x3, x4, x5) = (m[3] as int, m[4] as int, m[5] as int);
    let (x6, x7, x8) = (m[6] as int, m[7] as int, m[8] as int);
    if (i == 0 && j == 1) || (i == 1 && j == 0) {
        assert(x0 == x1 && x3 == x4 && x6 == x7 ==> x0 * (x4 * x8 - x7 * x5) - x3 * (x1 * x8
            - x7 * x2) + x6 * (x1 * x5 - x4 * x2) == 0) by (nonlinear_arith);
    } else if (i == 0 && j == 2) || (i == 2 && j == 0) {
        assert(x0 == x2 && x3 == x5 && x6 == x8 ==> x0 * (x4 * x8 - x7 * x5) - x3 * (x1 * x8
            - x7 * x2) + x6 * (x1 * x5 - x4 * x2) == 0) by (nonlinear_arith);
    } else {
        assert(x1 == x2 && x4 == x5 && x7 == x8 ==> x0 * (x4 * x8 - x7 * x5) - x3 * (x1 * x8
            - x7 * x2) + x6 * (x1 * x5 - x4 * x2) == 0) by (nonlinear_arith);
    }
}

/// A 3 by 3 matrix with two equal columns has determinant 0.
pub proof fn lemma_det3_equal_columns(m: Seq<i64>, i: int, j: int)
    requires
        m.len() == 9,
        0 <= i < 3,
        0 <= j < 3,
        i != j,
        m[3 * i] == m[3 * j],
        m[3 * i + 1] == m[3 * j + 1],
        m[3 * i + 2] == m[3 * j + 2],
    ensures
        spec_det3(m) == 0,
{
    let (x0, x1, x2) = (m[0] as int, m[1] as int, m[2] as int);
    let (x3, x4, x5) = (m[3] as int, m[4] as int, m[5] as int);
    let (x6, x7, x8) = (m[6] as int, m[7] as int, m[8] as int);
    if (i == 0 && j == 1) || (i == 1 && j == 0) {
        assert(x0 == x3 && x1 == x4 && x2 == x5 ==> x0 * (x4 * x8 - x7 * x5) - x3 * (x1 * x8
            - x7 * x2) + x6 * (x1 * x5 - x4 * x2) == 0) by (nonlinear_arith);
    } else if (i == 0 && j == 2) || (i == 2 && j == 0) {
        assert(x0 == x6 && x1 == x7 && x2 == x8 ==> x0 * (x4 * x8 - x7 * x5) - x3 * (x1 * x8
            - x7 * x2) + x6 * (x1 * x5 - x4 * x2) == 0) by (nonlinear_arith);
    } else {
        assert(x3 == x6 && x4 == x7 && x5 == x8 ==> x0 * (x4 * x8 - x7 * x5) - x3 * (x1 * x8
            - x7 * x2) + x6 * (x1 * x5 - x4 * x2) == 0) by (nonlinear_arith);
    }
}

/// A factor distributes over a difference.
pub proof fn lemma_mul_sub(x: int, a: int, b: int)
    ensures
        x * (a - b) == x * a - x * b,
{
    assert(x * (a - b) == x * a - x * b) by (nonlinear_arith);
}

/// The determinant does not change under transposition.
pub proof fn lemma_det3_transpose(m: Seq<i64>)
    requires
        m.len() == 9,
    ensures
        spec_det3(transposed3(m)) == spec_det3(m),
{
    let (x0, x1, x2) = (m[0] as int, m[1] as int, m[2] as int);
    let (x3, x4, x5) = (m[3] as int, m[4] as int, m[5] as int);
    let (x6, x7, x8) = (m[6] as int, m[7] as int, m[8] as int);
    lemma_mul_sub(x0, x4 * x8, x5 * x7);
    lemma_mul_sub(x1, x3 * x8, x5 * x6);
    lemma_mul_sub(x2, x3 * x7, x4 * x6);
    lemma_mul_sub(x0, x4 * x8, x7 * x5);
    lemma_mul_sub(x3, x1 * x8, x7 * x2);
    lemma_mul_sub(x6, x1 * x5, x4 * x2);
    assert(x0 * (x5 * x7) == x0 * (x7 * x5)) by (nonlinear_arith);
    assert(x1 * (x3 * x8) == x3 * (x1 * x8)) by (nonlinear_arith);
    assert(x1 * (x5 * x6) == x6 * (x1 * x5)) by (nonlinear_arith);
    assert(x2 * (x3 * x7) == x3 * (x7 * x2)) by (nonlinear_arith);
    assert(x2 * (x4 * x6) == x6 * (x4 * x2)) by (nonlinear_arith);
}

} // verus!
