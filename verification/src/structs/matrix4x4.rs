//! 4 by 4 matrix in column-major order over exact integer cells, with the
//! general cofactor-expansion machinery: submatrix extraction, minors,
//! cofactors, the cofactor matrix, the adjoint and the determinant.

use vstd::prelude::*;
use crate::structs::matrix3x3::{
    cells_in_range, lemma_det3_bound, lemma_mul_bound, lemma_pairwise_products,
    spec_det3, CELL_LIMIT, DET3_LIMIT, Matrix3x3,
};

verus! {

/// The flat index that `k` maps to when the row or column `deleted` is
/// removed: indices below `deleted` keep their place, the rest move up one.
pub open spec fn skip_index(k: int, deleted: int) -> int {
    if k < deleted {
        k
    } else {
        k + 1
    }
}

/// The 3 by 3 cell sequence left when the given row and column are deleted
/// from the 4 by 4 cell sequence `m`.
pub open spec fn spec_submatrix4(m: Seq<i64>, row: int, col: int) -> Seq<i64> {
    Seq::new(9, |j: int| m[skip_index(j % 3, row) + 4 * skip_index(j / 3, col)])
}

/// The minor of cell (`row`, `col`): the determinant of the submatrix that
/// deletes that row and column.
pub open spec fn spec_minor4(m: Seq<i64>, row: int, col: int) -> int {
    spec_det3(spec_submatrix4(m, row, col))
}

/// The cofactor of cell (`row`, `col`): the signed minor.
pub open spec fn spec_cofactor4(m: Seq<i64>, row: int, col: int) -> int {
    if (row + col) % 2 == 0 {
        spec_minor4(m, row, col)
    } else {
        -spec_minor4(m, row, col)
    }
}

/// The determinant of the 4 by 4 cell sequence `m`, by expansion along the
/// first row with alternating signs.
pub open spec fn spec_det4(m: Seq<i64>) -> int {
    m[0] * spec_minor4(m, 0, 0) - m[4] * spec_minor4(m, 0, 1) + m[8] * spec_minor4(m, 0, 2)
        - m[12] * spec_minor4(m, 0, 3)
}

/// The cells of the cofactor matrix: cell (`r`, `c`) holds the cofactor of
/// cell (`r`, `c`) of `m`.
pub open spec fn spec_cofactor_matrix4(m: Seq<i64>) -> Seq<i64> {
    Seq::new(16, |idx: int| spec_cofactor4(m, idx % 4, idx / 4) as i64)
}

/// The cells of the adjoint: the transpose of the cofactor matrix.
pub open spec fn spec_adjoint4(m: Seq<i64>) -> Seq<i64> {
    Seq::new(16, |idx: int| spec_cofactor4(m, idx / 4, idx % 4) as i64)
}

/// The cell sequence `m` with rows and columns switched.
pub open spec fn transposed4(m: Seq<i64>) -> Seq<i64> {
    Seq::new(16, |idx: int| m[4 * (idx % 4) + idx / 4])
}

/// Cell (`r`, `c`) of the column-major product of the 4 by 4 cell sequences
/// `a` and `b`.
pub open spec fn mul4_cell(a: Seq<i64>, b: Seq<i64>, r: int, c: int) -> int {
    a[r] * b[4 * c] + a[r + 4] * b[4 * c + 1] + a[r + 8] * b[4 * c + 2] + a[r + 12] * b[4 * c
        + 3]
}

/// The product of the 4 by 4 cell sequence `m` and the 4-component column
/// vector `v`.
pub open spec fn mul4_vector(m: Seq<i64>, v: Seq<i64>) -> Seq<int> {
    seq![
        m[0] * v[0] + m[4] * v[1] + m[8] * v[2] + m[12] * v[3],
        m[1] * v[0] + m[5] * v[1] + m[9] * v[2] + m[13] * v[3],
        m[2] * v[0] + m[6] * v[1] + m[10] * v[2] + m[14] * v[3],
        m[3] * v[0] + m[7] * v[1] + m[11] * v[2] + m[15] * v[3],
    ]
}

/// The cells of the identity matrix.
pub open spec fn identity4() -> Seq<i64> {
    seq![1i64, 0, 0, 0, 0, 1, 0, 0, 0, 0, 1, 0, 0, 0, 0, 1]
}

/// Every cell of a submatrix is a cell of the matrix it was taken from, so a
/// bounded matrix has bounded submatrices.
pub proof fn lemma_submatrix4_in_range(m: Seq<i64>, row: int, col: int)
    requires
        m.len() == 16,
        cells_in_range(m),
        0 <= row < 4,
        0 <= col < 4,
    ensures
        cells_in_range(spec_submatrix4(m, row, col)),
{
    assert forall|k: int| 0 <= k < 9 implies -(CELL_LIMIT as int)
        <= #[trigger] spec_submatrix4(m, row, col)[k] <= CELL_LIMIT as int by {
        let src = skip_index(k % 3, row) + 4 * skip_index(k / 3, col);
        assert(0 <= src < 16);
        assert(spec_submatrix4(m, row, col)[k] == m[src]);
    }
}

/// The cofactors of a bounded matrix are bounded by [`DET3_LIMIT`].
pub proof fn lemma_cofactor4_bound(m: Seq<i64>, row: int, col: int)
    requires
        m.len() == 16,
        cells_in_range(m),
        0 <= row < 4,
        0 <= col < 4,
    ensures
        -(DET3_LIMIT as int) <= spec_cofactor4(m, row, col) <= DET3_LIMIT as int,
        -(DET3_LIMIT as int) <= spec_minor4(m, row, col) <= DET3_LIMIT as int,
{
    lemma_submatrix4_in_range(m, row, col);
    lemma_det3_bound(spec_submatrix4(m, row, col));
}

/// 4 by 4 matrix in column-major order: the cell at row `r` and column `c`
/// sits at the flat index `r + 4 * c`.
#[derive(Copy, Clone, Debug)]
pub struct Matrix4x4 {
    pub(crate) cells: [i64; 16],
}

impl View for Matrix4x4 {
    type V = Seq<i64>;

    closed spec fn view(&self) -> Seq<i64> {
        self.cells@
    }
}

impl Matrix4x4 {
    /// Creates a new `Matrix4x4` with all cells set to 0.
    pub fn new_zero() -> (m: Self)
        ensures
            m@ =~= seq![0i64, 0, 0, 0, 0, 0, 0, 0, 0, 0, 0, 0, 0, 0, 0, 0],
    {
        Self { cells: [0; 16] }
    }

    /// Creates a new `Matrix4x4` with diagonal cells set to 1.
    pub fn new_identity() -> (m: Self)
        ensures
            m@ =~= identity4(),
    {
        Self { cells: [1, 0, 0, 0, 0, 1, 0, 0, 0, 0, 1, 0, 0, 0, 0, 1] }
    }

    /// Sets all cells to 0.
    pub fn clear(&mut self)
        ensures
            final(self)@ =~= seq![0i64, 0, 0, 0, 0, 0, 0, 0, 0, 0, 0, 0, 0, 0, 0, 0],
    {
        self.cells = [0; 16];
    }

    /// Creates a new `Matrix4x4` that translates coordinates: the identity
    /// with the translation in the last column.
    pub fn new_translate_from_array(t: &[i64; 3]) -> (m: Self)
        ensures
            m@ =~= identity4().update(12, t@[0]).update(13, t@[1]).update(14, t@[2]),
    {
        let mut result = Self::new_identity();
        // cells 12, 13 and 14 are where the translation values go
        result.cells[12] = t[0];
        result.cells[13] = t[1];
        result.cells[14] = t[2];
        result
    }

    /// Creates a new `Matrix4x4` that scales coordinates: the scale values
    /// on the diagonal.
    pub fn new_scale_from_array(s: &[i64; 3]) -> (m: Self)
        ensures
            m@ =~= identity4().update(0, s@[0]).update(5, s@[1]).update(10, s@[2]),
    {
        let mut result = Self::new_identity();
        // cells 0, 5 and 10 are where the scale values go
        result.cells[0] = s[0];
        result.cells[5] = s[1];
        result.cells[10] = s[2];
        result
    }

    /// Creates a `Matrix4x4` from an array in column-major order.
    pub fn from_array(array: [i64; 16]) -> (m: Self)
        ensures
            m@ == array@,
    {
        Self { cells: array }
    }

    /// Creates a `Matrix4x4` in column-major order from an array in
    /// row-major order.
    pub fn from_array_row_major(array: [i64; 16]) -> (m: Self)
        ensures
            m@ =~= transposed4(array@),
    {
        Self {
            cells: [
                array[0], array[4], array[8], array[12],
                array[1], array[5], array[9], array[13],
                array[2], array[6], array[10], array[14],
                array[3], array[7], array[11], array[15],
            ],
        }
    }

    /// Returns a reference to the cell array in column-major order.
    pub fn as_array(&self) -> (r: &[i64; 16])
        ensures
            r@ == self@,
    {
        &self.cells
    }

    /// Returns a new array of the cells in row-major order.
    pub fn as_array_row_major(&self) -> (r: [i64; 16])
        ensures
            r@ =~= transposed4(self@),
    {
        [
            self.cells[0], self.cells[4], self.cells[8], self.cells[12],
            self.cells[1], self.cells[5], self.cells[9], self.cells[13],
            self.cells[2], self.cells[6], self.cells[10], self.cells[14],
            self.cells[3], self.cells[7], self.cells[11], self.cells[15],
        ]
    }

    /// Creates a `Matrix3x3` from the upper-left block; the last column and
    /// row are lost.
    pub fn as_matrix3x3(&self) -> (r: Matrix3x3)
        ensures
            r@ =~= seq![
                self@[0], self@[1], self@[2],
                self@[4], self@[5], self@[6],
                self@[8], self@[9], self@[10],
            ],
    {
        Matrix3x3::from_array([
            self.cells[0], self.cells[1], self.cells[2],
            self.cells[4], self.cells[5], self.cells[6],
            self.cells[8], self.cells[9], self.cells[10],
        ])
    }

    /// Returns the slice of rows at the given column index.
    pub fn get_column(&self, idx: usize) -> (r: &[i64])
        requires
            idx < 4,
        ensures
            r@ =~= self@.subrange(4 * idx as int, 4 * idx as int + 4),
    {
        let i = 4 * idx;
        &self.cells[i..i + 4]
    }

    /// Switches columns with rows in place.
    pub fn transpose_self(&mut self)
        ensures
            final(self)@ =~= transposed4(old(self)@),
    {
        self.cells = self.as_array_row_major();
    }

    /// Returns a new `Matrix4x4` with columns and rows switched.
    pub fn transpose(m: Self) -> (r: Self)
        ensures
            r@ =~= transposed4(m@),
    {
        Self::from_array(m.as_array_row_major())
    }

    /// Returns the cell at the given row and column.
    pub fn nm_index(&self, row: usize, column: usize) -> (r: i64)
        requires
            row < 4,
            column < 4,
        ensures
            r == self@[row + 4 * column],
    {
        self.cells[row + (column * 4)]
    }

    /// Multiplies a 4-component column vector by this matrix.
    pub fn mul_vector4(&self, v: &[i64; 4]) -> (r: [i64; 4])
        requires
            cells_in_range(self@),
            cells_in_range(v@),
        ensures
            r@[0] == mul4_vector(self@, v@)[0],
            r@[1] == mul4_vector(self@, v@)[1],
            r@[2] == mul4_vector(self@, v@)[2],
            r@[3] == mul4_vector(self@, v@)[3],
    {
        proof {
            lemma_pairwise_products(self@, v@);
        }
        [
            (self.cells[0] * v[0]) + (self.cells[4] * v[1]) + (self.cells[8] * v[2]) + (
            self.cells[12] * v[3]),
            (self.cells[1] * v[0]) + (self.cells[5] * v[1]) + (self.cells[9] * v[2]) + (
            self.cells[13] * v[3]),
            (self.cells[2] * v[0]) + (self.cells[6] * v[1]) + (self.cells[10] * v[2]) + (
            self.cells[14] * v[3]),
            (self.cells[3] * v[0]) + (self.cells[7] * v[1]) + (self.cells[11] * v[2]) + (
            self.cells[15] * v[3]),
        ]
    }

    /// Multiplies a 3-component column vector by this matrix, reading the
    /// vector as a point with homogeneous coordinate 1.
    pub fn mul_vector3(&self, v: &[i64; 3]) -> (r: [i64; 3])
        requires
            cells_in_range(self@),
            cells_in_range(v@),
        ensures
            r@[0] == self@[0] * v@[0] + self@[4] * v@[1] + self@[8] * v@[2] + self@[12],
            r@[1] == self@[1] * v@[0] + self@[5] * v@[1] + self@[9] * v@[2] + self@[13],
            r@[2] == self@[2] * v@[0] + self@[6] * v@[1] + self@[10] * v@[2] + self@[14],
    {
        proof {
            lemma_pairwise_products(self@, v@);
        }
        [
            (self.cells[0] * v[0]) + (self.cells[4] * v[1]) + (self.cells[8] * v[2])
                + self.cells[12],
            (self.cells[1] * v[0]) + (self.cells[5] * v[1]) + (self.cells[9] * v[2])
                + self.cells[13],
            (self.cells[2] * v[0]) + (self.cells[6] * v[1]) + (self.cells[10] * v[2])
                + self.cells[14],
        ]
    }

    /// Computes the determinant, by expansion along the first row over the
    /// four minors of that row.
    pub fn determinant(&self) -> (r: i64)
        requires
            cells_in_range(self@),
        ensures
            r == spec_det4(self@),
    {
        proof {
            let lim = CELL_LIMIT as int;
            let det3lim = DET3_LIMIT as int;
            lemma_cofactor4_bound(self@, 0, 0);
            lemma_cofactor4_bound(self@, 0, 1);
            lemma_cofactor4_bound(self@, 0, 2);
            lemma_cofactor4_bound(self@, 0, 3);
            lemma_mul_bound(self@[0] as int, spec_minor4(self@, 0, 0), lim, det3lim);
            lemma_mul_bound(self@[4] as int, spec_minor4(self@, 0, 1), lim, det3lim);
            lemma_mul_bound(self@[8] as int, spec_minor4(self@, 0, 2), lim, det3lim);
            lemma_mul_bound(self@[12] as int, spec_minor4(self@, 0, 3), lim, det3lim);
        }
        (self.cells[0] * self.nm_minor(0, 0)) - (self.cells[4] * self.nm_minor(0, 1)) + (
        self.cells[8] * self.nm_minor(0, 2)) - (self.cells[12] * self.nm_minor(0, 3))
    }

    /// Returns the submatrix that deletes the given row and column, by
    /// walking all columns and rows and skipping the deleted ones.
    pub fn nm_submatrix(&self, row: usize, column: usize) -> (r: Matrix3x3)
        requires
            row < 4,
            column < 4,
        ensures
            r@ =~= spec_submatrix4(self@, row as int, column as int),
    {
        let mut buffer: Vec<i64> = Vec::new();
        let ghost sub = spec_submatrix4(self@, row as int, column as int);
        let mut col: usize = 0;
        while col < 4
            invariant
                row < 4,
                column < 4,
                col <= 4,
                sub == spec_submatrix4(self@, row as int, column as int),
                buffer@.len() == 3 * (col - (if col > column as int { 1int } else { 0int })),
                forall|j: int| 0 <= j < buffer@.len() ==> #[trigger] buffer@[j] == sub[j],
            decreases 4 - col,
        {
            if col != column {
                let ghost kept = col - (if col > column as int { 1int } else { 0int });
                let mut r: usize = 0;
                while r < 4
                    invariant
                        row < 4,
                        column < 4,
                        col < 4,
                        col != column,
                        r <= 4,
                        sub == spec_submatrix4(self@, row as int, column as int),
                        kept == col - (if col > column as int { 1int } else { 0int }),
                        buffer@.len() == 3 * kept + (r - (if r > row as int {
                            1int
                        } else {
                            0int
                        })),
                        forall|j: int| 0 <= j < buffer@.len() ==> #[trigger] buffer@[j] == sub[j],
                    decreases 4 - r,
                {
                    if r != row {
                        buffer.push(self.cells[r + 4 * col]);
                        proof {
                            let j = buffer@.len() - 1;
                            assert(j % 3 == r - (if r > row as int { 1int } else { 0int }));
                            assert(j / 3 == kept);
                            assert(skip_index(j % 3, row as int) == r);
                            assert(skip_index(j / 3, column as int) == col);
                            assert(buffer@[j] == sub[j]);
                        }
                    }
                    r += 1;
                }
            }
            col += 1;
        }
        Matrix3x3::from_array([
            buffer[0], buffer[1], buffer[2],
            buffer[3], buffer[4], buffer[5],
            buffer[6], buffer[7], buffer[8],
        ])
    }

    /// Returns the submatrix of the given flat cell index.
    pub fn submatrix(&self, idx: usize) -> (r: Matrix3x3)
        requires
            idx < 16,
        ensures
            r@ =~= spec_submatrix4(self@, idx as int / 4, idx as int % 4),
    {
        self.nm_submatrix(idx / 4, idx % 4)
    }

    /// Returns the minor of the given row and column.
    pub fn nm_minor(&self, row: usize, column: usize) -> (r: i64)
        requires
            cells_in_range(self@),
            row < 4,
            column < 4,
        ensures
            r == spec_minor4(self@, row as int, column as int),
    {
        proof {
            lemma_submatrix4_in_range(self@, row as int, column as int);
        }
        self.nm_submatrix(row, column).determinant()
    }

    /// Returns the minor of the given flat cell index.
    pub fn minor(&self, idx: usize) -> (r: i64)
        requires
            cells_in_range(self@),
            idx < 16,
        ensures
            r == spec_minor4(self@, idx as int / 4, idx as int % 4),
    {
        self.nm_minor(idx / 4, idx % 4)
    }

    /// Returns the cofactor of the given row and column: the minor with the
    /// sign of the cell's position.
    pub fn nm_cofactor_idx(&self, row: usize, column: usize) -> (r: i64)
        requires
            cells_in_range(self@),
            row < 4,
            column < 4,
        ensures
            r == spec_cofactor4(self@, row as int, column as int),
    {
        proof {
            lemma_cofactor4_bound(self@, row as int, column as int);
        }
        let minor = self.nm_minor(row, column);
        if (row + column) % 2 == 0 {
            minor
        } else {
            -minor
        }
    }

    /// Returns the cofactor of the given flat cell index.
    pub fn cofactor_idx(&self, idx: usize) -> (r: i64)
        requires
            cells_in_range(self@),
            idx < 16,
        ensures
            r == spec_cofactor4(self@, idx as int / 4, idx as int % 4),
    {
        self.nm_cofactor_idx(idx / 4, idx % 4)
    }

    /// Returns the matrix of all 16 cofactors, assembled in row-major order
    /// and stored column-major.
    pub fn cofactor_matrix(&self) -> (r: Self)
        requires
            cells_in_range(self@),
        ensures
            r@ =~= spec_cofactor_matrix4(self@),
    {
        let mut cofactor_buffer: [i64; 16] = [0; 16];
        let mut idx: usize = 0;
        while idx < 16
            invariant
                cells_in_range(self@),
                idx <= 16,
                forall|j: int| 0 <= j < idx ==> #[trigger] cofactor_buffer@[j] == spec_cofactor4(
                    self@,
                    j / 4,
                    j % 4,
                ),
            decreases 16 - idx,
        {
            let (row, column) = (idx / 4, idx % 4);
            cofactor_buffer[idx] = self.nm_cofactor_idx(row, column);
            idx += 1;
        }
        Self::from_array_row_major(cofactor_buffer)
    }

    /// Returns the adjoint: the transpose of the cofactor matrix.
    pub fn adjoint(&self) -> (r: Self)
        requires
            cells_in_range(self@),
        ensures
            r@ =~= spec_adjoint4(self@),
    {
        let r = Self::transpose(self.cofactor_matrix());
        proof {
            assert forall|idx: int| 0 <= idx < 16 implies r@[idx] == spec_adjoint4(self@)[idx] by {
                assert(r@[idx] == spec_cofactor_matrix4(self@)[4 * (idx % 4) + idx / 4]);
            }
        }
        r
    }

    /// Multiplies this matrix by `rhs`: the result applies `rhs` first, this
    /// matrix after.
    pub fn multiply(&self, rhs: &Self) -> (r: Self)
        requires
            cells_in_range(self@),
            cells_in_range(rhs@),
        ensures
            forall|idx: int| 0 <= idx < 16 ==> #[trigger] r@[idx] == mul4_cell(
                self@,
                rhs@,
                idx % 4,
                idx / 4,
            ),
    {
        proof {
            lemma_pairwise_products(self@, rhs@);
        }
        let a = &self.cells;
        let b = &rhs.cells;
        Self {
            cells: [
                // column 0
                (a[0] * b[0]) + (a[4] * b[1]) + (a[8] * b[2]) + (a[12] * b[3]),
                (a[1] * b[0]) + (a[5] * b[1]) + (a[9] * b[2]) + (a[13] * b[3]),
                (a[2] * b[0]) + (a[6] * b[1]) + (a[10] * b[2]) + (a[14] * b[3]),
                (a[3] * b[0]) + (a[7] * b[1]) + (a[11] * b[2]) + (a[15] * b[3]),
                // column 1
                (a[0] * b[4]) + (a[4] * b[5]) + (a[8] * b[6]) + (a[12] * b[7]),
                (a[1] * b[4]) + (a[5] * b[5]) + (a[9] * b[6]) + (a[13] * b[7]),
                (a[2] * b[4]) + (a[6] * b[5]) + (a[10] * b[6]) + (a[14] * b[7]),
                (a[3] * b[4]) + (a[7] * b[5]) + (a[11] * b[6]) + (a[15] * b[7]),
                // column 2
                (a[0] * b[8]) + (a[4] * b[9]) + (a[8] * b[10]) + (a[12] * b[11]),
                (a[1] * b[8]) + (a[5] * b[9]) + (a[9] * b[10]) + (a[13] * b[11]),
                (a[2] * b[8]) + (a[6] * b[9]) + (a[10] * b[10]) + (a[14] * b[11]),
                (a[3] * b[8]) + (a[7] * b[9]) + (a[11] * b[10]) + (a[15] * b[11]),
                // column 3
                (a[0] * b[12]) + (a[4] * b[13]) + (a[8] * b[14]) + (a[12] * b[15]),
                (a[1] * b[12]) + (a[5] * b[13]) + (a[9] * b[14]) + (a[13] * b[15]),
                (a[2] * b[12]) + (a[6] * b[13]) + (a[10] * b[14]) + (a[14] * b[15]),
                (a[3] * b[12]) + (a[7] * b[13]) + (a[11] * b[14]) + (a[15] * b[15]),
            ],
        }
    }
}

/// The determinant of the identity matrix is 1.
pub proof fn lemma_det4_identity()
    ensures
        spec_det4(identity4()) == 1,
{
    let m = identity4();
    assert(spec_submatrix4(m, 0, 0) =~= crate::structs::matrix3x3::identity3());
    crate::structs::matrix3x3::lemma_det3_identity();
    assert(spec_det4(m) == 1 * spec_minor4(m, 0, 0) - 0 * spec_minor4(m, 0, 1) + 0
        * spec_minor4(m, 0, 2) - 0 * spec_minor4(m, 0, 3));
}

} // verus!
