//! The adjugate law over exact integer cells: the adjoint multiplied by
//! the matrix it came from is the determinant times the identity. Every
//! cell identity is proved by expanding both sides into their signed
//! degree-four monomials, one small step at a time.

use vstd::prelude::*;
use crate::structs::matrix3x3::{cells_in_range, lemma_mul_sub};
use crate::structs::matrix4x4::{
    lemma_cofactor4_bound, mul4_cell, spec_adjoint4, spec_cofactor4, spec_det4,
    spec_minor4, spec_submatrix4,
};

verus! {

/// Cell (`r`, `c`) of the product of the adjoint of `m` and `m` itself,
/// written over exact cofactor values.
pub open spec fn adjoint_product_cell(m: Seq<i64>, r: int, c: int) -> int {
    spec_cofactor4(m, 0, r) * m[4 * c] + spec_cofactor4(m, 1, r) * m[4 * c + 1]
        + spec_cofactor4(m, 2, r) * m[4 * c + 2] + spec_cofactor4(m, 3, r) * m[4 * c
        + 3]
}

/// Multiplication commutes.
proof fn lemma_mul_comm(a: int, b: int)
    ensures
        a * b == b * a,
{
    assert(a * b == b * a) by (nonlinear_arith);
}

/// A negated factor negates the product.
proof fn lemma_mul_neg(a: int, b: int)
    ensures
        (-a) * b == -(a * b),
{
    assert((-a) * b == -(a * b)) by (nonlinear_arith);
}

/// A factor distributes over a three-term alternating sum.
proof fn lemma_mul_sub_add(x: int, a: int, b: int, c: int)
    ensures
        (a - b + c) * x == a * x - b * x + c * x,
{
    assert((a - b + c) * x == a * x - b * x + c * x) by (nonlinear_arith);
}

/// A three-by-three determinant shape times a factor expands into six
/// nested degree-four products.
proof fn lemma_expand_minor_product(
    x: int, y0: int, y1: int, y2: int, y3: int, y4: int, y5: int, y6: int, y7: int,
    y8: int,
)
    ensures
        (y0 * (y4 * y8 - y7 * y5) - y3 * (y1 * y8 - y7 * y2) + y6 * (y1 * y5 - y4 * y2)) * x == x * (y0 * (y4 * y8)) - x * (y0 * (y7 * y5)) - x * (y3 * (y1 * y8)) + x * (y3 * (y7 * y2)) + x * (y6 * (y1 * y5)) - x * (y6 * (y4 * y2)),
{
    lemma_mul_sub_add(x, y0 * (y4 * y8 - y7 * y5), y3 * (y1 * y8 - y7 * y2), y6 * (y1
        * y5 - y4 * y2));
    lemma_mul_sub(y0, y4 * y8, y7 * y5);
    lemma_mul_comm(y0 * (y4 * y8) - y0 * (y7 * y5), x);
    lemma_mul_sub(x, y0 * (y4 * y8), y0 * (y7 * y5));
    lemma_mul_sub(y3, y1 * y8, y7 * y2);
    lemma_mul_comm(y3 * (y1 * y8) - y3 * (y7 * y2), x);
    lemma_mul_sub(x, y3 * (y1 * y8), y3 * (y7 * y2));
    lemma_mul_sub(y6, y1 * y5, y4 * y2);
    lemma_mul_comm(y6 * (y1 * y5) - y6 * (y4 * y2), x);
    lemma_mul_sub(x, y6 * (y1 * y5), y6 * (y4 * y2));
}

/// The 24 signed degree-four monomials of the determinant, each with its
/// factors in cell order.
spec fn det4_monomial_sum(m: Seq<i64>) -> int {
    m[0] * (m[5] * (m[10] * m[15])) - m[0] * (m[5] * (m[11] * m[14])) - m[0] * (m[6] * (m[9] * m[15])) + m[0] * (m[7] * (m[9] * m[14])) + m[0] * (m[6] * (m[11] * m[13])) - m[0] * (m[7] * (m[10] * m[13])) - m[1] * (m[4] * (m[10] * m[15])) + m[1] * (m[4] * (m[11] * m[14])) + m[2] * (m[4] * (m[9] * m[15])) - m[3] * (m[4] * (m[9] * m[14])) - m[2] * (m[4] * (m[11] * m[13])) + m[3] * (m[4] * (m[10] * m[13])) + m[1] * (m[6] * (m[8] * m[15])) - m[1] * (m[7] * (m[8] * m[14])) - m[2] * (m[5] * (m[8] * m[15])) + m[3] * (m[5] * (m[8] * m[14])) + m[2] * (m[7] * (m[8] * m[13])) - m[3] * (m[6] * (m[8] * m[13])) - m[1] * (m[6] * (m[11] * m[12])) + m[1] * (m[7] * (m[10] * m[12])) + m[2] * (m[5] * (m[11] * m[12])) - m[3] * (m[5] * (m[10] * m[12])) - m[2] * (m[7] * (m[9] * m[12])) + m[3] * (m[6] * (m[9] * m[12]))
}

/// The determinant expanded into its 24 signed degree-four monomials.
proof fn lemma_det4_expanded(m: Seq<i64>)
    requires
        m.len() == 16,
    ensures
        spec_det4(m) == det4_monomial_sum(m),
{
    let (x0, x1, x2, x3) = (m[0] as int, m[1] as int, m[2] as int, m[3] as int);
    let (x4, x5, x6, x7) = (m[4] as int, m[5] as int, m[6] as int, m[7] as int);
    let (x8, x9, x10, x11) = (m[8] as int, m[9] as int, m[10] as int, m[11] as int);
    let (x12, x13, x14, x15) = (m[12] as int, m[13] as int, m[14] as int, m[15] as int);
    assert(spec_submatrix4(m, 0, 0) =~= seq![m[5], m[6], m[7], m[9], m[10], m[11], m[13], m[14], m[15]]);
    assert(spec_minor4(m, 0, 0) == x5 * (x10 * x15 - x14 * x11) - x9 * (x6 * x15 - x14 * x7) + x13 * (x6 * x11 - x10 * x7));
    assert(spec_submatrix4(m, 0, 1) =~= seq![m[1], m[2], m[3], m[9], m[10], m[11], m[13], m[14], m[15]]);
    assert(spec_minor4(m, 0, 1) == x1 * (x10 * x15 - x14 * x11) - x9 * (x2 * x15 - x14 * x3) + x13 * (x2 * x11 - x10 * x3));
    assert(spec_submatrix4(m, 0, 2) =~= seq![m[1], m[2], m[3], m[5], m[6], m[7], m[13], m[14], m[15]]);
    assert(spec_minor4(m, 0, 2) == x1 * (x6 * x15 - x14 * x7) - x5 * (x2 * x15 - x14 * x3) + x13 * (x2 * x7 - x6 * x3));
    assert(spec_submatrix4(m, 0, 3) =~= seq![m[1], m[2], m[3], m[5], m[6], m[7], m[9], m[10], m[11]]);
    assert(spec_minor4(m, 0, 3) == x1 * (x6 * x11 - x10 * x7) - x5 * (x2 * x11 - x10 * x3) + x9 * (x2 * x7 - x6 * x3));
    lemma_expand_minor_product(x0, x5, x6, x7, x9, x10, x11, x13, x14, x15);
    lemma_mul_comm(x0, spec_minor4(m, 0, 0));
    lemma_expand_minor_product(x4, x1, x2, x3, x9, x10, x11, x13, x14, x15);
    lemma_mul_comm(x4, spec_minor4(m, 0, 1));
    lemma_expand_minor_product(x8, x1, x2, x3, x5, x6, x7, x13, x14, x15);
    lemma_mul_comm(x8, spec_minor4(m, 0, 2));
    lemma_expand_minor_product(x12, x1, x2, x3, x5, x6, x7, x9, x10, x11);
    lemma_mul_comm(x12, spec_minor4(m, 0, 3));
    assert(x0 * (x5 * (x14 * x11)) == x0 * (x5 * (x11 * x14))) by (nonlinear_arith);
    assert(x0 * (x9 * (x6 * x15)) == x0 * (x6 * (x9 * x15))) by (nonlinear_arith);
    assert(x0 * (x9 * (x14 * x7)) == x0 * (x7 * (x9 * x14))) by (nonlinear_arith);
    assert(x0 * (x13 * (x6 * x11)) == x0 * (x6 * (x11 * x13))) by (nonlinear_arith);
    assert(x0 * (x13 * (x10 * x7)) == x0 * (x7 * (x10 * x13))) by (nonlinear_arith);
    assert(x4 * (x1 * (x10 * x15)) == x1 * (x4 * (x10 * x15))) by (nonlinear_arith);
    assert(x4 * (x1 * (x14 * x11)) == x1 * (x4 * (x11 * x14))) by (nonlinear_arith);
    assert(x4 * (x9 * (x2 * x15)) == x2 * (x4 * (x9 * x15))) by (nonlinear_arith);
    assert(x4 * (x9 * (x14 * x3)) == x3 * (x4 * (x9 * x14))) by (nonlinear_arith);
    assert(x4 * (x13 * (x2 * x11)) == x2 * (x4 * (x11 * x13))) by (nonlinear_arith);
    assert(x4 * (x13 * (x10 * x3)) == x3 * (x4 * (x10 * x13))) by (nonlinear_arith);
    assert(x8 * (x1 * (x6 * x15)) == x1 * (x6 * (x8 * x15))) by (nonlinear_arith);
    assert(x8 * (x1 * (x14 * x7)) == x1 * (x7 * (x8 * x14))) by (nonlinear_arith);
    assert(x8 * (x5 * (x2 * x15)) == x2 * (x5 * (x8 * x15))) by (nonlinear_arith);
    assert(x8 * (x5 * (x14 * x3)) == x3 * (x5 * (x8 * x14))) by (nonlinear_arith);
    assert(x8 * (x13 * (x2 * x7)) == x2 * (x7 * (x8 * x13))) by (nonlinear_arith);
    assert(x8 * (x13 * (x6 * x3)) == x3 * (x6 * (x8 * x13))) by (nonlinear_arith);
    assert(x12 * (x1 * (x6 * x11)) == x1 * (x6 * (x11 * x12))) by (nonlinear_arith);
    assert(x12 * (x1 * (x10 * x7)) == x1 * (x7 * (x10 * x12))) by (nonlinear_arith);
    assert(x12 * (x5 * (x2 * x11)) == x2 * (x5 * (x11 * x12))) by (nonlinear_arith);
    assert(x12 * (x5 * (x10 * x3)) == x3 * (x5 * (x10 * x12))) by (nonlinear_arith);
    assert(x12 * (x9 * (x2 * x7)) == x2 * (x7 * (x9 * x12))) by (nonlinear_arith);
    assert(x12 * (x9 * (x6 * x3)) == x3 * (x6 * (x9 * x12))) by (nonlinear_arith);
}

/// Cell (0, 0) of the adjugate law.
proof fn lemma_adjoint_cell_0_0(m: Seq<i64>)
    requires
        m.len() == 16,
    ensures
        adjoint_product_cell(m, 0, 0) == spec_det4(m),
{
    let (x0, x1, x2, x3) = (m[0] as int, m[1] as int, m[2] as int, m[3] as int);
    let (x4, x5, x6, x7) = (m[4] as int, m[5] as int, m[6] as int, m[7] as int);
    let (x8, x9, x10, x11) = (m[8] as int, m[9] as int, m[10] as int, m[11] as int);
    let (x12, x13, x14, x15) = (m[12] as int, m[13] as int, m[14] as int, m[15] as int);
    assert(spec_submatrix4(m, 0, 0) =~= seq![m[5], m[6], m[7], m[9], m[10], m[11], m[13], m[14], m[15]]);
    assert(spec_minor4(m, 0, 0) == x5 * (x10 * x15 - x14 * x11) - x9 * (x6 * x15 - x14 * x7) + x13 * (x6 * x11 - x10 * x7));
    assert(spec_submatrix4(m, 1, 0) =~= seq![m[4], m[6], m[7], m[8], m[10], m[11], m[12], m[14], m[15]]);
    assert(spec_minor4(m, 1, 0) == x4 * (x10 * x15 - x14 * x11) - x8 * (x6 * x15 - x14 * x7) + x12 * (x6 * x11 - x10 * x7));
    assert(spec_submatrix4(m, 2, 0) =~= seq![m[4], m[5], m[7], m[8], m[9], m[11], m[12], m[13], m[15]]);
    assert(spec_minor4(m, 2, 0) == x4 * (x9 * x15 - x13 * x11) - x8 * (x5 * x15 - x13 * x7) + x12 * (x5 * x11 - x9 * x7));
    assert(spec_submatrix4(m, 3, 0) =~= seq![m[4], m[5], m[6], m[8], m[9], m[10], m[12], m[13], m[14]]);
    assert(spec_minor4(m, 3, 0) == x4 * (x9 * x14 - x13 * x10) - x8 * (x5 * x14 - x13 * x6) + x12 * (x5 * x10 - x9 * x6));
    lemma_expand_minor_product(x0, x5, x6, x7, x9, x10, x11, x13, x14, x15);
    lemma_expand_minor_product(x1, x4, x6, x7, x8, x10, x11, x12, x14, x15);
    lemma_mul_neg(spec_minor4(m, 1, 0), x1);
    lemma_expand_minor_product(x2, x4, x5, x7, x8, x9, x11, x12, x13, x15);
    lemma_expand_minor_product(x3, x4, x5, x6, x8, x9, x10, x12, x13, x14);
    lemma_mul_neg(spec_minor4(m, 3, 0), x3);
    assert(x0 * (x5 * (x14 * x11)) == x0 * (x5 * (x11 * x14))) by (nonlinear_arith);
    assert(x0 * (x9 * (x6 * x15)) == x0 * (x6 * (x9 * x15))) by (nonlinear_arith);
    assert(x0 * (x9 * (x14 * x7)) == x0 * (x7 * (x9 * x14))) by (nonlinear_arith);
    assert(x0 * (x13 * (x6 * x11)) == x0 * (x6 * (x11 * x13))) by (nonlinear_arith);
    assert(x0 * (x13 * (x10 * x7)) == x0 * (x7 * (x10 * x13))) by (nonlinear_arith);
    assert(x1 * (x4 * (x14 * x11)) == x1 * (x4 * (x11 * x14))) by (nonlinear_arith);
    assert(x1 * (x8 * (x6 * x15)) == x1 * (x6 * (x8 * x15))) by (nonlinear_arith);
    assert(x1 * (x8 * (x14 * x7)) == x1 * (x7 * (x8 * x14))) by (nonlinear_arith);
    assert(x1 * (x12 * (x6 * x11)) == x1 * (x6 * (x11 * x12))) by (nonlinear_arith);
    assert(x1 * (x12 * (x10 * x7)) == x1 * (x7 * (x10 * x12))) by (nonlinear_arith);
    assert(x2 * (x4 * (x13 * x11)) == x2 * (x4 * (x11 * x13))) by (nonlinear_arith);
    assert(x2 * (x8 * (x5 * x15)) == x2 * (x5 * (x8 * x15))) by (nonlinear_arith);
    assert(x2 * (x8 * (x13 * x7)) == x2 * (x7 * (x8 * x13))) by (nonlinear_arith);
    assert(x2 * (x12 * (x5 * x11)) == x2 * (x5 * (x11 * x12))) by (nonlinear_arith);
    assert(x2 * (x12 * (x9 * x7)) == x2 * (x7 * (x9 * x12))) by (nonlinear_arith);
    assert(x3 * (x4 * (x13 * x10)) == x3 * (x4 * (x10 * x13))) by (nonlinear_arith);
    assert(x3 * (x8 * (x5 * x14)) == x3 * (x5 * (x8 * x14))) by (nonlinear_arith);
    assert(x3 * (x8 * (x13 * x6)) == x3 * (x6 * (x8 * x13))) by (nonlinear_arith);
    assert(x3 * (x12 * (x5 * x10)) == x3 * (x5 * (x10 * x12))) by (nonlinear_arith);
    assert(x3 * (x12 * (x9 * x6)) == x3 * (x6 * (x9 * x12))) by (nonlinear_arith);
    lemma_det4_expanded(m);
}

/// Cell (0, 1) of the adjugate law.
proof fn lemma_adjoint_cell_0_1(m: Seq<i64>)
    requires
        m.len() == 16,
    ensures
        adjoint_product_cell(m, 0, 1) == 0,
{
    let (x0, x1, x2, x3) = (m[0] as int, m[1] as int, m[2] as int, m[3] as int);
    let (x4, x5, x6, x7) = (m[4] as int, m[5] as int, m[6] as int, m[7] as int);
    let (x8, x9, x10, x11) = (m[8] as int, m[9] as int, m[10] as int, m[11] as int);
    let (x12, x13, x14, x15) = (m[12] as int, m[13] as int, m[14] as int, m[15] as int);
    assert(spec_submatrix4(m, 0, 0) =~= seq![m[5], m[6], m[7], m[9], m[10], m[11], m[13], m[14], m[15]]);
    assert(spec_minor4(m, 0, 0) == x5 * (x10 * x15 - x14 * x11) - x9 * (x6 * x15 - x14 * x7) + x13 * (x6 * x11 - x10 * x7));
    assert(spec_submatrix4(m, 1, 0) =~= seq![m[4], m[6], m[7], m[8], m[10], m[11], m[12], m[14], m[15]]);
    assert(spec_minor4(m, 1, 0) == x4 * (x10 * x15 - x14 * x11) - x8 * (x6 * x15 - x14 * x7) + x12 * (x6 * x11 - x10 * x7));
    assert(spec_submatrix4(m, 2, 0) =~= seq![m[4], m[5], m[7], m[8], m[9], m[11], m[12], m[13], m[15]]);
    assert(spec_minor4(m, 2, 0) == x4 * (x9 * x15 - x13 * x11) - x8 * (x5 * x15 - x13 * x7) + x12 * (x5 * x11 - x9 * x7));
    assert(spec_submatrix4(m, 3, 0) =~= seq![m[4], m[5], m[6], m[8], m[9], m[10], m[12], m[13], m[14]]);
    assert(spec_minor4(m, 3, 0) == x4 * (x9 * x14 - x13 * x10) - x8 * (x5 * x14 - x13 * x6) + x12 * (x5 * x10 - x9 * x6));
    lemma_expand_minor_product(x4, x5, x6, x7, x9, x10, x11, x13, x14, x15);
    lemma_expand_minor_product(x5, x4, x6, x7, x8, x10, x11, x12, x14, x15);
    lemma_mul_neg(spec_minor4(m, 1, 0), x5);
    lemma_expand_minor_product(x6, x4, x5, x7, x8, x9, x11, x12, x13, x15);
    lemma_expand_minor_product(x7, x4, x5, x6, x8, x9, x10, x12, x13, x14);
    lemma_mul_neg(spec_minor4(m, 3, 0), x7);
    assert(x4 * (x5 * (x14 * x11)) == x4 * (x5 * (x11 * x14))) by (nonlinear_arith);
    assert(x4 * (x9 * (x6 * x15)) == x4 * (x6 * (x9 * x15))) by (nonlinear_arith);
    assert(x4 * (x9 * (x14 * x7)) == x4 * (x7 * (x9 * x14))) by (nonlinear_arith);
    assert(x4 * (x13 * (x6 * x11)) == x4 * (x6 * (x11 * x13))) by (nonlinear_arith);
    assert(x4 * (x13 * (x10 * x7)) == x4 * (x7 * (x10 * x13))) by (nonlinear_arith);
    assert(x5 * (x4 * (x10 * x15)) == x4 * (x5 * (x10 * x15))) by (nonlinear_arith);
    assert(x5 * (x4 * (x14 * x11)) == x4 * (x5 * (x11 * x14))) by (nonlinear_arith);
    assert(x5 * (x8 * (x6 * x15)) == x5 * (x6 * (x8 * x15))) by (nonlinear_arith);
    assert(x5 * (x8 * (x14 * x7)) == x5 * (x7 * (x8 * x14))) by (nonlinear_arith);
    assert(x5 * (x12 * (x6 * x11)) == x5 * (x6 * (x11 * x12))) by (nonlinear_arith);
    assert(x5 * (x12 * (x10 * x7)) == x5 * (x7 * (x10 * x12))) by (nonlinear_arith);
    assert(x6 * (x4 * (x9 * x15)) == x4 * (x6 * (x9 * x15))) by (nonlinear_arith);
    assert(x6 * (x4 * (x13 * x11)) == x4 * (x6 * (x11 * x13))) by (nonlinear_arith);
    assert(x6 * (x8 * (x5 * x15)) == x5 * (x6 * (x8 * x15))) by (nonlinear_arith);
    assert(x6 * (x8 * (x13 * x7)) == x6 * (x7 * (x8 * x13))) by (nonlinear_arith);
    assert(x6 * (x12 * (x5 * x11)) == x5 * (x6 * (x11 * x12))) by (nonlinear_arith);
    assert(x6 * (x12 * (x9 * x7)) == x6 * (x7 * (x9 * x12))) by (nonlinear_arith);
    assert(x7 * (x4 * (x9 * x14)) == x4 * (x7 * (x9 * x14))) by (nonlinear_arith);
    assert(x7 * (x4 * (x13 * x10)) == x4 * (x7 * (x10 * x13))) by (nonlinear_arith);
    assert(x7 * (x8 * (x5 * x14)) == x5 * (x7 * (x8 * x14))) by (nonlinear_arith);
    assert(x7 * (x8 * (x13 * x6)) == x6 * (x7 * (x8 * x13))) by (nonlinear_arith);
    assert(x7 * (x12 * (x5 * x10)) == x5 * (x7 * (x10 * x12))) by (nonlinear_arith);
    assert(x7 * (x12 * (x9 * x6)) == x6 * (x7 * (x9 * x12))) by (nonlinear_arith);
}

/// Cell (0, 2) of the adjugate law.
proof fn lemma_adjoint_cell_0_2(m: Seq<i64>)
    requires
        m.len() == 16,
    ensures
        adjoint_product_cell(m, 0, 2) == 0,
{
    let (x0, x1, x2, x3) = (m[0] as int, m[1] as int, m[2] as int, m[3] as int);
    let (x4, x5, x6, x7) = (m[4] as int, m[5] as int, m[6] as int, m[7] as int);
    let (x8, x9, x10, x11) = (m[8] as int, m[9] as int, m[10] as int, m[11] as int);
    let (x12, x13, x14, x15) = (m[12] as int, m[13] as int, m[14] as int, m[15] as int);
    assert(spec_submatrix4(m, 0, 0) =~= seq![m[5], m[6], m[7], m[9], m[10], m[11], m[13], m[14], m[15]]);
    assert(spec_minor4(m, 0, 0) == x5 * (x10 * x15 - x14 * x11) - x9 * (x6 * x15 - x14 * x7) + x13 * (x6 * x11 - x10 * x7));
    assert(spec_submatrix4(m, 1, 0) =~= seq![m[4], m[6], m[7], m[8], m[10], m[11], m[12], m[14], m[15]]);
    assert(spec_minor4(m, 1, 0) == x4 * (x10 * x15 - x14 * x11) - x8 * (x6 * x15 - x14 * x7) + x12 * (x6 * x11 - x10 * x7));
    assert(spec_submatrix4(m, 2, 0) =~= seq![m[4], m[5], m[7], m[8], m[9], m[11], m[12], m[13], m[15]]);
    assert(spec_minor4(m, 2, 0) == x4 * (x9 * x15 - x13 * x11) - x8 * (x5 * x15 - x13 * x7) + x12 * (x5 * x11 - x9 * x7));
    assert(spec_submatrix4(m, 3, 0) =~= seq![m[4], m[5], m[6], m[8], m[9], m[10], m[12], m[13], m[14]]);
    assert(spec_minor4(m, 3, 0) == x4 * (x9 * x14 - x13 * x10) - x8 * (x5 * x14 - x13 * x6) + x12 * (x5 * x10 - x9 * x6));
    lemma_expand_minor_product(x8, x5, x6, x7, x9, x10, x11, x13, x14, x15);
    lemma_expand_minor_product(x9, x4, x6, x7, x8, x10, x11, x12, x14, x15);
    lemma_mul_neg(spec_minor4(m, 1, 0), x9);
    lemma_expand_minor_product(x10, x4, x5, x7, x8, x9, x11, x12, x13, x15);
    lemma_expand_minor_product(x11, x4, x5, x6, x8, x9, x10, x12, x13, x14);
    lemma_mul_neg(spec_minor4(m, 3, 0), x11);
    assert(x8 * (x5 * (x10 * x15)) == x5 * (x8 * (x10 * x15))) by (nonlinear_arith);
    assert(x8 * (x5 * (x14 * x11)) == x5 * (x8 * (x11 * x14))) by (nonlinear_arith);
    assert(x8 * (x9 * (x6 * x15)) == x6 * (x8 * (x9 * x15))) by (nonlinear_arith);
    assert(x8 * (x9 * (x14 * x7)) == x7 * (x8 * (x9 * x14))) by (nonlinear_arith);
    assert(x8 * (x13 * (x6 * x11)) == x6 * (x8 * (x11 * x13))) by (nonlinear_arith);
    assert(x8 * (x13 * (x10 * x7)) == x7 * (x8 * (x10 * x13))) by (nonlinear_arith);
    assert(x9 * (x4 * (x10 * x15)) == x4 * (x9 * (x10 * x15))) by (nonlinear_arith);
    assert(x9 * (x4 * (x14 * x11)) == x4 * (x9 * (x11 * x14))) by (nonlinear_arith);
    assert(x9 * (x8 * (x6 * x15)) == x6 * (x8 * (x9 * x15))) by (nonlinear_arith);
    assert(x9 * (x8 * (x14 * x7)) == x7 * (x8 * (x9 * x14))) by (nonlinear_arith);
    assert(x9 * (x12 * (x6 * x11)) == x6 * (x9 * (x11 * x12))) by (nonlinear_arith);
    assert(x9 * (x12 * (x10 * x7)) == x7 * (x9 * (x10 * x12))) by (nonlinear_arith);
    assert(x10 * (x4 * (x9 * x15)) == x4 * (x9 * (x10 * x15))) by (nonlinear_arith);
    assert(x10 * (x4 * (x13 * x11)) == x4 * (x10 * (x11 * x13))) by (nonlinear_arith);
    assert(x10 * (x8 * (x5 * x15)) == x5 * (x8 * (x10 * x15))) by (nonlinear_arith);
    assert(x10 * (x8 * (x13 * x7)) == x7 * (x8 * (x10 * x13))) by (nonlinear_arith);
    assert(x10 * (x12 * (x5 * x11)) == x5 * (x10 * (x11 * x12))) by (nonlinear_arith);
    assert(x10 * (x12 * (x9 * x7)) == x7 * (x9 * (x10 * x12))) by (nonlinear_arith);
    assert(x11 * (x4 * (x9 * x14)) == x4 * (x9 * (x11 * x14))) by (nonlinear_arith);
    assert(x11 * (x4 * (x13 * x10)) == x4 * (x10 * (x11 * x13))) by (nonlinear_arith);
    assert(x11 * (x8 * (x5 * x14)) == x5 * (x8 * (x11 * x14))) by (nonlinear_arith);
    assert(x11 * (x8 * (x13 * x6)) == x6 * (x8 * (x11 * x13))) by (nonlinear_arith);
    assert(x11 * (x12 * (x5 * x10)) == x5 * (x10 * (x11 * x12))) by (nonlinear_arith);
    assert(x11 * (x12 * (x9 * x6)) == x6 * (x9 * (x11 * x12))) by (nonlinear_arith);
}

/// Cell (0, 3) of the adjugate law.
proof fn lemma_adjoint_cell_0_3(m: Seq<i64>)
    requires
        m.len() == 16,
    ensures
        adjoint_product_cell(m, 0, 3) == 0,
{
    let (x0, x1, x2, x3) = (m[0] as int, m[1] as int, m[2] as int, m[3] as int);
    let (x4, x5, x6, x7) = (m[4] as int, m[5] as int, m[6] as int, m[7] as int);
    let (x8, x9, x10, x11) = (m[8] as int, m[9] as int, m[10] as int, m[11] as int);
    let (x12, x13, x14, x15) = (m[12] as int, m[13] as int, m[14] as int, m[15] as int);
    assert(spec_submatrix4(m, 0, 0) =~= seq![m[5], m[6], m[7], m[9], m[10], m[11], m[13], m[14], m[15]]);
    assert(spec_minor4(m, 0, 0) == x5 * (x10 * x15 - x14 * x11) - x9 * (x6 * x15 - x14 * x7) + x13 * (x6 * x11 - x10 * x7));
    assert(spec_submatrix4(m, 1, 0) =~= seq![m[4], m[6], m[7], m[8], m[10], m[11], m[12], m[14], m[15]]);
    assert(spec_minor4(m, 1, 0) == x4 * (x10 * x15 - x14 * x11) - x8 * (x6 * x15 - x14 * x7) + x12 * (x6 * x11 - x10 * x7));
    assert(spec_submatrix4(m, 2, 0) =~= seq![m[4], m[5], m[7], m[8], m[9], m[11], m[12], m[13], m[15]]);
    assert(spec_minor4(m, 2, 0) == x4 * (x9 * x15 - x13 * x11) - x8 * (x5 * x15 - x13 * x7) + x12 * (x5 * x11 - x9 * x7));
    assert(spec_submatrix4(m, 3, 0) =~= seq![m[4], m[5], m[6], m[8], m[9], m[10], m[12], m[13], m[14]]);
    assert(spec_minor4(m, 3, 0) == x4 * (x9 * x14 - x13 * x10) - x8 * (x5 * x14 - x13 * x6) + x12 * (x5 * x10 - x9 * x6));
    lemma_expand_minor_product(x12, x5, x6, x7, x9, x10, x11, x13, x14, x15);
    lemma_expand_minor_product(x13, x4, x6, x7, x8, x10, x11, x12, x14, x15);
    lemma_mul_neg(spec_minor4(m, 1, 0), x13);
    lemma_expand_minor_product(x14, x4, x5, x7, x8, x9, x11, x12, x13, x15);
    lemma_expand_minor_product(x15, x4, x5, x6, x8, x9, x10, x12, x13, x14);
    lemma_mul_neg(spec_minor4(m, 3, 0), x15);
    assert(x12 * (x5 * (x10 * x15)) == x5 * (x10 * (x12 * x15))) by (nonlinear_arith);
    assert(x12 * (x5 * (x14 * x11)) == x5 * (x11 * (x12 * x14))) by (nonlinear_arith);
    assert(x12 * (x9 * (x6 * x15)) == x6 * (x9 * (x12 * x15))) by (nonlinear_arith);
    assert(x12 * (x9 * (x14 * x7)) == x7 * (x9 * (x12 * x14))) by (nonlinear_arith);
    assert(x12 * (x13 * (x6 * x11)) == x6 * (x11 * (x12 * x13))) by (nonlinear_arith);
    assert(x12 * (x13 * (x10 * x7)) == x7 * (x10 * (x12 * x13))) by (nonlinear_arith);
    assert(x13 * (x4 * (x10 * x15)) == x4 * (x10 * (x13 * x15))) by (nonlinear_arith);
    assert(x13 * (x4 * (x14 * x11)) == x4 * (x11 * (x13 * x14))) by (nonlinear_arith);
    assert(x13 * (x8 * (x6 * x15)) == x6 * (x8 * (x13 * x15))) by (nonlinear_arith);
    assert(x13 * (x8 * (x14 * x7)) == x7 * (x8 * (x13 * x14))) by (nonlinear_arith);
    assert(x13 * (x12 * (x6 * x11)) == x6 * (x11 * (x12 * x13))) by (nonlinear_arith);
    assert(x13 * (x12 * (x10 * x7)) == x7 * (x10 * (x12 * x13))) by (nonlinear_arith);
    assert(x14 * (x4 * (x9 * x15)) == x4 * (x9 * (x14 * x15))) by (nonlinear_arith);
    assert(x14 * (x4 * (x13 * x11)) == x4 * (x11 * (x13 * x14))) by (nonlinear_arith);
    assert(x14 * (x8 * (x5 * x15)) == x5 * (x8 * (x14 * x15))) by (nonlinear_arith);
    assert(x14 * (x8 * (x13 * x7)) == x7 * (x8 * (x13 * x14))) by (nonlinear_arith);
    assert(x14 * (x12 * (x5 * x11)) == x5 * (x11 * (x12 * x14))) by (nonlinear_arith);
    assert(x14 * (x12 * (x9 * x7)) == x7 * (x9 * (x12 * x14))) by (nonlinear_arith);
    assert(x15 * (x4 * (x9 * x14)) == x4 * (x9 * (x14 * x15))) by (nonlinear_arith);
    assert(x15 * (x4 * (x13 * x10)) == x4 * (x10 * (x13 * x15))) by (nonlinear_arith);
    assert(x15 * (x8 * (x5 * x14)) == x5 * (x8 * (x14 * x15))) by (nonlinear_arith);
    assert(x15 * (x8 * (x13 * x6)) == x6 * (x8 * (x13 * x15))) by (nonlinear_arith);
    assert(x15 * (x12 * (x5 * x10)) == x5 * (x10 * (x12 * x15))) by (nonlinear_arith);
    assert(x15 * (x12 * (x9 * x6)) == x6 * (x9 * (x12 * x15))) by (nonlinear_arith);
}

/// Cell (1, 0) of the adjugate law.
proof fn lemma_adjoint_cell_1_0(m: Seq<i64>)
    requires
        m.len() == 16,
    ensures
        adjoint_product_cell(m, 1, 0) == 0,
{
    let (x0, x1, x2, x3) = (m[0] as int, m[1] as int, m[2] as int, m[3] as int);
    let (x4, x5, x6, x7) = (m[4] as int, m[5] as int, m[6] as int, m[7] as int);
    let (x8, x9, x10, x11) = (m[8] as int, m[9] as int, m[10] as int, m[11] as int);
    let (x12, x13, x14, x15) = (m[12] as int, m[13] as int, m[14] as int, m[15] as int);
    assert(spec_submatrix4(m, 0, 1) =~= seq![m[1], m[2], m[3], m[9], m[10], m[11], m[13], m[14], m[15]]);
    assert(spec_minor4(m, 0, 1) == x1 * (x10 * x15 - x14 * x11) - x9 * (x2 * x15 - x14 * x3) + x13 * (x2 * x11 - x10 * x3));
    assert(spec_submatrix4(m, 1, 1) =~= seq![m[0], m[2], m[3], m[8], m[10], m[11], m[12], m[14], m[15]]);
    assert(spec_minor4(m, 1, 1) == x0 * (x10 * x15 - x14 * x11) - x8 * (x2 * x15 - x14 * x3) + x12 * (x2 * x11 - x10 * x3));
    assert(spec_submatrix4(m, 2, 1) =~= seq![m[0], m[1], m[3], m[8], m[9], m[11], m[12], m[13], m[15]]);
    assert(spec_minor4(m, 2, 1) == x0 * (x9 * x15 - x13 * x11) - x8 * (x1 * x15 - x13 * x3) + x12 * (x1 * x11 - x9 * x3));
    assert(spec_submatrix4(m, 3, 1) =~= seq![m[0], m[1], m[2], m[8], m[9], m[10], m[12], m[13], m[14]]);
    assert(spec_minor4(m, 3, 1) == x0 * (x9 * x14 - x13 * x10) - x8 * (x1 * x14 - x13 * x2) + x12 * (x1 * x10 - x9 * x2));
    lemma_expand_minor_product(x0, x1, x2, x3, x9, x10, x11, x13, x14, x15);
    lemma_mul_neg(spec_minor4(m, 0, 1), x0);
    lemma_expand_minor_product(x1, x0, x2, x3, x8, x10, x11, x12, x14, x15);
    lemma_expand_minor_product(x2, x0, x1, x3, x8, x9, x11, x12, x13, x15);
    lemma_mul_neg(spec_minor4(m, 2, 1), x2);
    lemma_expand_minor_product(x3, x0, x1, x2, x8, x9, x10, x12, x13, x14);
    assert(x0 * (x1 * (x14 * x11)) == x0 * (x1 * (x11 * x14))) by (nonlinear_arith);
    assert(x0 * (x9 * (x2 * x15)) == x0 * (x2 * (x9 * x15))) by (nonlinear_arith);
    assert(x0 * (x9 * (x14 * x3)) == x0 * (x3 * (x9 * x14))) by (nonlinear_arith);
    assert(x0 * (x13 * (x2 * x11)) == x0 * (x2 * (x11 * x13))) by (nonlinear_arith);
    assert(x0 * (x13 * (x10 * x3)) == x0 * (x3 * (x10 * x13))) by (nonlinear_arith);
    assert(x1 * (x0 * (x10 * x15)) == x0 * (x1 * (x10 * x15))) by (nonlinear_arith);
    assert(x1 * (x0 * (x14 * x11)) == x0 * (x1 * (x11 * x14))) by (nonlinear_arith);
    assert(x1 * (x8 * (x2 * x15)) == x1 * (x2 * (x8 * x15))) by (nonlinear_arith);
    assert(x1 * (x8 * (x14 * x3)) == x1 * (x3 * (x8 * x14))) by (nonlinear_arith);
    assert(x1 * (x12 * (x2 * x11)) == x1 * (x2 * (x11 * x12))) by (nonlinear_arith);
    assert(x1 * (x12 * (x10 * x3)) == x1 * (x3 * (x10 * x12))) by (nonlinear_arith);
    assert(x2 * (x0 * (x9 * x15)) == x0 * (x2 * (x9 * x15))) by (nonlinear_arith);
    assert(x2 * (x0 * (x13 * x11)) == x0 * (x2 * (x11 * x13))) by (nonlinear_arith);
    assert(x2 * (x8 * (x1 * x15)) == x1 * (x2 * (x8 * x15))) by (nonlinear_arith);
    assert(x2 * (x8 * (x13 * x3)) == x2 * (x3 * (x8 * x13))) by (nonlinear_arith);
    assert(x2 * (x12 * (x1 * x11)) == x1 * (x2 * (x11 * x12))) by (nonlinear_arith);
    assert(x2 * (x12 * (x9 * x3)) == x2 * (x3 * (x9 * x12))) by (nonlinear_arith);
    assert(x3 * (x0 * (x9 * x14)) == x0 * (x3 * (x9 * x14))) by (nonlinear_arith);
    assert(x3 * (x0 * (x13 * x10)) == x0 * (x3 * (x10 * x13))) by (nonlinear_arith);
    assert(x3 * (x8 * (x1 * x14)) == x1 * (x3 * (x8 * x14))) by (nonlinear_arith);
    assert(x3 * (x8 * (x13 * x2)) == x2 * (x3 * (x8 * x13))) by (nonlinear_arith);
    assert(x3 * (x12 * (x1 * x10)) == x1 * (x3 * (x10 * x12))) by (nonlinear_arith);
    assert(x3 * (x12 * (x9 * x2)) == x2 * (x3 * (x9 * x12))) by (nonlinear_arith);
}

/// Cell (1, 1) of the adjugate law.
proof fn lemma_adjoint_cell_1_1(m: Seq<i64>)
    requires
        m.len() == 16,
    ensures
        adjoint_product_cell(m, 1, 1) == spec_det4(m),
{
    let (x0, x1, x2, x3) = (m[0] as int, m[1] as int, m[2] as int, m[3] as int);
    let (x4, x5, x6, x7) = (m[4] as int, m[5] as int, m[6] as int, m[7] as int);
    let (x8, x9, x10, x11) = (m[8] as int, m[9] as int, m[10] as int, m[11] as int);
    let (x12, x13, x14, x15) = (m[12] as int, m[13] as int, m[14] as int, m[15] as int);
    assert(spec_submatrix4(m, 0, 1) =~= seq![m[1], m[2], m[3], m[9], m[10], m[11], m[13], m[14], m[15]]);
    assert(spec_minor4(m, 0, 1) == x1 * (x10 * x15 - x14 * x11) - x9 * (x2 * x15 - x14 * x3) + x13 * (x2 * x11 - x10 * x3));
    assert(spec_submatrix4(m, 1, 1) =~= seq![m[0], m[2], m[3], m[8], m[10], m[11], m[12], m[14], m[15]]);
    assert(spec_minor4(m, 1, 1) == x0 * (x10 * x15 - x14 * x11) - x8 * (x2 * x15 - x14 * x3) + x12 * (x2 * x11 - x10 * x3));
    assert(spec_submatrix4(m, 2, 1) =~= seq![m[0], m[1], m[3], m[8], m[9], m[11], m[12], m[13], m[15]]);
    assert(spec_minor4(m, 2, 1) == x0 * (x9 * x15 - x13 * x11) - x8 * (x1 * x15 - x13 * x3) + x12 * (x1 * x11 - x9 * x3));
    assert(spec_submatrix4(m, 3, 1) =~= seq![m[0], m[1], m[2], m[8], m[9], m[10], m[12], m[13], m[14]]);
    assert(spec_minor4(m, 3, 1) == x0 * (x9 * x14 - x13 * x10) - x8 * (x1 * x14 - x13 * x2) + x12 * (x1 * x10 - x9 * x2));
    lemma_expand_minor_product(x4, x1, x2, x3, x9, x10, x11, x13, x14, x15);
    lemma_mul_neg(spec_minor4(m, 0, 1), x4);
    lemma_expand_minor_product(x5, x0, x2, x3, x8, x10, x11, x12, x14, x15);
    lemma_expand_minor_product(x6, x0, x1, x3, x8, x9, x11, x12, x13, x15);
    lemma_mul_neg(spec_minor4(m, 2, 1), x6);
    lemma_expand_minor_product(x7, x0, x1, x2, x8, x9, x10, x12, x13, x14);
    assert(x4 * (x1 * (x10 * x15)) == x1 * (x4 * (x10 * x15))) by (nonlinear_arith);
    assert(x4 * (x1 * (x14 * x11)) == x1 * (x4 * (x11 * x14))) by (nonlinear_arith);
    assert(x4 * (x9 * (x2 * x15)) == x2 * (x4 * (x9 * x15))) by (nonlinear_arith);
    assert(x4 * (x9 * (x14 * x3)) == x3 * (x4 * (x9 * x14))) by (nonlinear_arith);
    assert(x4 * (x13 * (x2 * x11)) == x2 * (x4 * (x11 * x13))) by (nonlinear_arith);
    assert(x4 * (x13 * (x10 * x3)) == x3 * (x4 * (x10 * x13))) by (nonlinear_arith);
    assert(x5 * (x0 * (x10 * x15)) == x0 * (x5 * (x10 * x15))) by (nonlinear_arith);
    assert(x5 * (x0 * (x14 * x11)) == x0 * (x5 * (x11 * x14))) by (nonlinear_arith);
    assert(x5 * (x8 * (x2 * x15)) == x2 * (x5 * (x8 * x15))) by (nonlinear_arith);
    assert(x5 * (x8 * (x14 * x3)) == x3 * (x5 * (x8 * x14))) by (nonlinear_arith);
    assert(x5 * (x12 * (x2 * x11)) == x2 * (x5 * (x11 * x12))) by (nonlinear_arith);
    assert(x5 * (x12 * (x10 * x3)) == x3 * (x5 * (x10 * x12))) by (nonlinear_arith);
    assert(x6 * (x0 * (x9 * x15)) == x0 * (x6 * (x9 * x15))) by (nonlinear_arith);
    assert(x6 * (x0 * (x13 * x11)) == x0 * (x6 * (x11 * x13))) by (nonlinear_arith);
    assert(x6 * (x8 * (x1 * x15)) == x1 * (x6 * (x8 * x15))) by (nonlinear_arith);
    assert(x6 * (x8 * (x13 * x3)) == x3 * (x6 * (x8 * x13))) by (nonlinear_arith);
    assert(x6 * (x12 * (x1 * x11)) == x1 * (x6 * (x11 * x12))) by (nonlinear_arith);
    assert(x6 * (x12 * (x9 * x3)) == x3 * (x6 * (x9 * x12))) by (nonlinear_arith);
    assert(x7 * (x0 * (x9 * x14)) == x0 * (x7 * (x9 * x14))) by (nonlinear_arith);
    assert(x7 * (x0 * (x13 * x10)) == x0 * (x7 * (x10 * x13))) by (nonlinear_arith);
    assert(x7 * (x8 * (x1 * x14)) == x1 * (x7 * (x8 * x14))) by (nonlinear_arith);
    assert(x7 * (x8 * (x13 * x2)) == x2 * (x7 * (x8 * x13))) by (nonlinear_arith);
    assert(x7 * (x12 * (x1 * x10)) == x1 * (x7 * (x10 * x12))) by (nonlinear_arith);
    assert(x7 * (x12 * (x9 * x2)) == x2 * (x7 * (x9 * x12))) by (nonlinear_arith);
    lemma_det4_expanded(m);
}

/// Cell (1, 2) of the adjugate law.
proof fn lemma_adjoint_cell_1_2(m: Seq<i64>)
    requires
        m.len() == 16,
    ensures
        adjoint_product_cell(m, 1, 2) == 0,
{
    let (x0, x1, x2, x3) = (m[0] as int, m[1] as int, m[2] as int, m[3] as int);
    let (x4, x5, x6, x7) = (m[4] as int, m[5] as int, m[6] as int, m[7] as int);
    let (x8, x9, x10, x11) = (m[8] as int, m[9] as int, m[10] as int, m[11] as int);
    let (x12, x13, x14, x15) = (m[12] as int, m[13] as int, m[14] as int, m[15] as int);
    assert(spec_submatrix4(m, 0, 1) =~= seq![m[1], m[2], m[3], m[9], m[10], m[11], m[13], m[14], m[15]]);
    assert(spec_minor4(m, 0, 1) == x1 * (x10 * x15 - x14 * x11) - x9 * (x2 * x15 - x14 * x3) + x13 * (x2 * x11 - x10 * x3));
    assert(spec_submatrix4(m, 1, 1) =~= seq![m[0], m[2], m[3], m[8], m[10], m[11], m[12], m[14], m[15]]);
    assert(spec_minor4(m, 1, 1) == x0 * (x10 * x15 - x14 * x11) - x8 * (x2 * x15 - x14 * x3) + x12 * (x2 * x11 - x10 * x3));
    assert(spec_submatrix4(m, 2, 1) =~= seq![m[0], m[1], m[3], m[8], m[9], m[11], m[12], m[13], m[15]]);
    assert(spec_minor4(m, 2, 1) == x0 * (x9 * x15 - x13 * x11) - x8 * (x1 * x15 - x13 * x3) + x12 * (x1 * x11 - x9 * x3));
    assert(spec_submatrix4(m, 3, 1) =~= seq![m[0], m[1], m[2], m[8], m[9], m[10], m[12], m[13], m[14]]);
    assert(spec_minor4(m, 3, 1) == x0 * (x9 * x14 - x13 * x10) - x8 * (x1 * x14 - x13 * x2) + x12 * (x1 * x10 - x9 * x2));
    lemma_expand_minor_product(x8, x1, x2, x3, x9, x10, x11, x13, x14, x15);
    lemma_mul_neg(spec_minor4(m, 0, 1), x8);
    lemma_expand_minor_product(x9, x0, x2, x3, x8, x10, x11, x12, x14, x15);
    lemma_expand_minor_product(x10, x0, x1, x3, x8, x9, x11, x12, x13, x15);
    lemma_mul_neg(spec_minor4(m, 2, 1), x10);
    lemma_expand_minor_product(x11, x0, x1, x2, x8, x9, x10, x12, x13, x14);
    assert(x8 * (x1 * (x10 * x15)) == x1 * (x8 * (x10 * x15))) by (nonlinear_arith);
    assert(x8 * (x1 * (x14 * x11)) == x1 * (x8 * (x11 * x14))) by (nonlinear_arith);
    assert(x8 * (x9 * (x2 * x15)) == x2 * (x8 * (x9 * x15))) by (nonlinear_arith);
    assert(x8 * (x9 * (x14 * x3)) == x3 * (x8 * (x9 * x14))) by (nonlinear_arith);
    assert(x8 * (x13 * (x2 * x11)) == x2 * (x8 * (x11 * x13))) by (nonlinear_arith);
    assert(x8 * (x13 * (x10 * x3)) == x3 * (x8 * (x10 * x13))) by (nonlinear_arith);
    assert(x9 * (x0 * (x10 * x15)) == x0 * (x9 * (x10 * x15))) by (nonlinear_arith);
    assert(x9 * (x0 * (x14 * x11)) == x0 * (x9 * (x11 * x14))) by (nonlinear_arith);
    assert(x9 * (x8 * (x2 * x15)) == x2 * (x8 * (x9 * x15))) by (nonlinear_arith);
    assert(x9 * (x8 * (x14 * x3)) == x3 * (x8 * (x9 * x14))) by (nonlinear_arith);
    assert(x9 * (x12 * (x2 * x11)) == x2 * (x9 * (x11 * x12))) by (nonlinear_arith);
    assert(x9 * (x12 * (x10 * x3)) == x3 * (x9 * (x10 * x12))) by (nonlinear_arith);
    assert(x10 * (x0 * (x9 * x15)) == x0 * (x9 * (x10 * x15))) by (nonlinear_arith);
    assert(x10 * (x0 * (x13 * x11)) == x0 * (x10 * (x11 * x13))) by (nonlinear_arith);
    assert(x10 * (x8 * (x1 * x15)) == x1 * (x8 * (x10 * x15))) by (nonlinear_arith);
    assert(x10 * (x8 * (x13 * x3)) == x3 * (x8 * (x10 * x13))) by (nonlinear_arith);
    assert(x10 * (x12 * (x1 * x11)) == x1 * (x10 * (x11 * x12))) by (nonlinear_arith);
    assert(x10 * (x12 * (x9 * x3)) == x3 * (x9 * (x10 * x12))) by (nonlinear_arith);
    assert(x11 * (x0 * (x9 * x14)) == x0 * (x9 * (x11 * x14))) by (nonlinear_arith);
    assert(x11 * (x0 * (x13 * x10)) == x0 * (x10 * (x11 * x13))) by (nonlinear_arith);
    assert(x11 * (x8 * (x1 * x14)) == x1 * (x8 * (x11 * x14))) by (nonlinear_arith);
    assert(x11 * (x8 * (x13 * x2)) == x2 * (x8 * (x11 * x13))) by (nonlinear_arith);
    assert(x11 * (x12 * (x1 * x10)) == x1 * (x10 * (x11 * x12))) by (nonlinear_arith);
    assert(x11 * (x12 * (x9 * x2)) == x2 * (x9 * (x11 * x12))) by (nonlinear_arith);
}

/// Cell (1, 3) of the adjugate law.
proof fn lemma_adjoint_cell_1_3(m: Seq<i64>)
    requires
        m.len() == 16,
    ensures
        adjoint_product_cell(m, 1, 3) == 0,
{
    let (x0, x1, x2, x3) = (m[0] as int, m[1] as int, m[2] as int, m[3] as int);
    let (x4, x5, x6, x7) = (m[4] as int, m[5] as int, m[6] as int, m[7] as int);
    let (x8, x9, x10, x11) = (m[8] as int, m[9] as int, m[10] as int, m[11] as int);
    let (x12, x13, x14, x15) = (m[12] as int, m[13] as int, m[14] as int, m[15] as int);
    assert(spec_submatrix4(m, 0, 1) =~= seq![m[1], m[2], m[3], m[9], m[10], m[11], m[13], m[14], m[15]]);
    assert(spec_minor4(m, 0, 1) == x1 * (x10 * x15 - x14 * x11) - x9 * (x2 * x15 - x14 * x3) + x13 * (x2 * x11 - x10 * x3));
    assert(spec_submatrix4(m, 1, 1) =~= seq![m[0], m[2], m[3], m[8], m[10], m[11], m[12], m[14], m[15]]);
    assert(spec_minor4(m, 1, 1) == x0 * (x10 * x15 - x14 * x11) - x8 * (x2 * x15 - x14 * x3) + x12 * (x2 * x11 - x10 * x3));
    assert(spec_submatrix4(m, 2, 1) =~= seq![m[0], m[1], m[3], m[8], m[9], m[11], m[12], m[13], m[15]]);
    assert(spec_minor4(m, 2, 1) == x0 * (x9 * x15 - x13 * x11) - x8 * (x1 * x15 - x13 * x3) + x12 * (x1 * x11 - x9 * x3));
    assert(spec_submatrix4(m, 3, 1) =~= seq![m[0], m[1], m[2], m[8], m[9], m[10], m[12], m[13], m[14]]);
    assert(spec_minor4(m, 3, 1) == x0 * (x9 * x14 - x13 * x10) - x8 * (x1 * x14 - x13 * x2) + x12 * (x1 * x10 - x9 * x2));
    lemma_expand_minor_product(x12, x1, x2, x3, x9, x10, x11, x13, x14, x15);
    lemma_mul_neg(spec_minor4(m, 0, 1), x12);
    lemma_expand_minor_product(x13, x0, x2, x3, x8, x10, x11, x12, x14, x15);
    lemma_expand_minor_product(x14, x0, x1, x3, x8, x9, x11, x12, x13, x15);
    lemma_mul_neg(spec_minor4(m, 2, 1), x14);
    lemma_expand_minor_product(x15, x0, x1, x2, x8, x9, x10, x12, x13, x14);
    assert(x12 * (x1 * (x10 * x15)) == x1 * (x10 * (x12 * x15))) by (nonlinear_arith);
    assert(x12 * (x1 * (x14 * x11)) == x1 * (x11 * (x12 * x14))) by (nonlinear_arith);
    assert(x12 * (x9 * (x2 * x15)) == x2 * (x9 * (x12 * x15))) by (nonlinear_arith);
    assert(x12 * (x9 * (x14 * x3)) == x3 * (x9 * (x12 * x14))) by (nonlinear_arith);
    assert(x12 * (x13 * (x2 * x11)) == x2 * (x11 * (x12 * x13))) by (nonlinear_arith);
    assert(x12 * (x13 * (x10 * x3)) == x3 * (x10 * (x12 * x13))) by (nonlinear_arith);
    assert(x13 * (x0 * (x10 * x15)) == x0 * (x10 * (x13 * x15))) by (nonlinear_arith);
    assert(x13 * (x0 * (x14 * x11)) == x0 * (x11 * (x13 * x14))) by (nonlinear_arith);
    assert(x13 * (x8 * (x2 * x15)) == x2 * (x8 * (x13 * x15))) by (nonlinear_arith);
    assert(x13 * (x8 * (x14 * x3)) == x3 * (x8 * (x13 * x14))) by (nonlinear_arith);
    assert(x13 * (x12 * (x2 * x11)) == x2 * (x11 * (x12 * x13))) by (nonlinear_arith);
    assert(x13 * (x12 * (x10 * x3)) == x3 * (x10 * (x12 * x13))) by (nonlinear_arith);
    assert(x14 * (x0 * (x9 * x15)) == x0 * (x9 * (x14 * x15))) by (nonlinear_arith);
    assert(x14 * (x0 * (x13 * x11)) == x0 * (x11 * (x13 * x14))) by (nonlinear_arith);
    assert(x14 * (x8 * (x1 * x15)) == x1 * (x8 * (x14 * x15))) by (nonlinear_arith);
    assert(x14 * (x8 * (x13 * x3)) == x3 * (x8 * (x13 * x14))) by (nonlinear_arith);
    assert(x14 * (x12 * (x1 * x11)) == x1 * (x11 * (x12 * x14))) by (nonlinear_arith);
    assert(x14 * (x12 * (x9 * x3)) == x3 * (x9 * (x12 * x14))) by (nonlinear_arith);
    assert(x15 * (x0 * (x9 * x14)) == x0 * (x9 * (x14 * x15))) by (nonlinear_arith);
    assert(x15 * (x0 * (x13 * x10)) == x0 * (x10 * (x13 * x15))) by (nonlinear_arith);
    assert(x15 * (x8 * (x1 * x14)) == x1 * (x8 * (x14 * x15))) by (nonlinear_arith);
    assert(x15 * (x8 * (x13 * x2)) == x2 * (x8 * (x13 * x15))) by (nonlinear_arith);
    assert(x15 * (x12 * (x1 * x10)) == x1 * (x10 * (x12 * x15))) by (nonlinear_arith);
    assert(x15 * (x12 * (x9 * x2)) == x2 * (x9 * (x12 * x15))) by (nonlinear_arith);
}

/// Cell (2, 0) of the adjugate law.
proof fn lemma_adjoint_cell_2_0(m: Seq<i64>)
    requires
        m.len() == 16,
    ensures
        adjoint_product_cell(m, 2, 0) == 0,
{
    let (x0, x1, x2, x3) = (m[0] as int, m[1] as int, m[2] as int, m[3] as int);
    let (x4, x5, x6, x7) = (m[4] as int, m[5] as int, m[6] as int, m[7] as int);
    let (x8, x9, x10, x11) = (m[8] as int, m[9] as int, m[10] as int, m[11] as int);
    let (x12, x13, x14, x15) = (m[12] as int, m[13] as int, m[14] as int, m[15] as int);
    assert(spec_submatrix4(m, 0, 2) =~= seq![m[1], m[2], m[3], m[5], m[6], m[7], m[13], m[14], m[15]]);
    assert(spec_minor4(m, 0, 2) == x1 * (x6 * x15 - x14 * x7) - x5 * (x2 * x15 - x14 * x3) + x13 * (x2 * x7 - x6 * x3));
    assert(spec_submatrix4(m, 1, 2) =~= seq![m[0], m[2], m[3], m[4], m[6], m[7], m[12], m[14], m[15]]);
    assert(spec_minor4(m, 1, 2) == x0 * (x6 * x15 - x14 * x7) - x4 * (x2 * x15 - x14 * x3) + x12 * (x2 * x7 - x6 * x3));
    assert(spec_submatrix4(m, 2, 2) =~= seq![m[0], m[1], m[3], m[4], m[5], m[7], m[12], m[13], m[15]]);
    assert(spec_minor4(m, 2, 2) == x0 * (x5 * x15 - x13 * x7) - x4 * (x1 * x15 - x13 * x3) + x12 * (x1 * x7 - x5 * x3));
    assert(spec_submatrix4(m, 3, 2) =~= seq![m[0], m[1], m[2], m[4], m[5], m[6], m[12], m[13], m[14]]);
    assert(spec_minor4(m, 3, 2) == x0 * (x5 * x14 - x13 * x6) - x4 * (x1 * x14 - x13 * x2) + x12 * (x1 * x6 - x5 * x2));
    lemma_expand_minor_product(x0, x1, x2, x3, x5, x6, x7, x13, x14, x15);
    lemma_expand_minor_product(x1, x0, x2, x3, x4, x6, x7, x12, x14, x15);
    lemma_mul_neg(spec_minor4(m, 1, 2), x1);
    lemma_expand_minor_product(x2, x0, x1, x3, x4, x5, x7, x12, x13, x15);
    lemma_expand_minor_product(x3, x0, x1, x2, x4, x5, x6, x12, x13, x14);
    lemma_mul_neg(spec_minor4(m, 3, 2), x3);
    assert(x0 * (x1 * (x14 * x7)) == x0 * (x1 * (x7 * x14))) by (nonlinear_arith);
    assert(x0 * (x5 * (x2 * x15)) == x0 * (x2 * (x5 * x15))) by (nonlinear_arith);
    assert(x0 * (x5 * (x14 * x3)) == x0 * (x3 * (x5 * x14))) by (nonlinear_arith);
    assert(x0 * (x13 * (x2 * x7)) == x0 * (x2 * (x7 * x13))) by (nonlinear_arith);
    assert(x0 * (x13 * (x6 * x3)) == x0 * (x3 * (x6 * x13))) by (nonlinear_arith);
    assert(x1 * (x0 * (x6 * x15)) == x0 * (x1 * (x6 * x15))) by (nonlinear_arith);
    assert(x1 * (x0 * (x14 * x7)) == x0 * (x1 * (x7 * x14))) by (nonlinear_arith);
    assert(x1 * (x4 * (x2 * x15)) == x1 * (x2 * (x4 * x15))) by (nonlinear_arith);
    assert(x1 * (x4 * (x14 * x3)) == x1 * (x3 * (x4 * x14))) by (nonlinear_arith);
    assert(x1 * (x12 * (x2 * x7)) == x1 * (x2 * (x7 * x12))) by (nonlinear_arith);
    assert(x1 * (x12 * (x6 * x3)) == x1 * (x3 * (x6 * x12))) by (nonlinear_arith);
    assert(x2 * (x0 * (x5 * x15)) == x0 * (x2 * (x5 * x15))) by (nonlinear_arith);
    assert(x2 * (x0 * (x13 * x7)) == x0 * (x2 * (x7 * x13))) by (nonlinear_arith);
    assert(x2 * (x4 * (x1 * x15)) == x1 * (x2 * (x4 * x15))) by (nonlinear_arith);
    assert(x2 * (x4 * (x13 * x3)) == x2 * (x3 * (x4 * x13))) by (nonlinear_arith);
    assert(x2 * (x12 * (x1 * x7)) == x1 * (x2 * (x7 * x12))) by (nonlinear_arith);
    assert(x2 * (x12 * (x5 * x3)) == x2 * (x3 * (x5 * x12))) by (nonlinear_arith);
    assert(x3 * (x0 * (x5 * x14)) == x0 * (x3 * (x5 * x14))) by (nonlinear_arith);
    assert(x3 * (x0 * (x13 * x6)) == x0 * (x3 * (x6 * x13))) by (nonlinear_arith);
    assert(x3 * (x4 * (x1 * x14)) == x1 * (x3 * (x4 * x14))) by (nonlinear_arith);
    assert(x3 * (x4 * (x13 * x2)) == x2 * (x3 * (x4 * x13))) by (nonlinear_arith);
    assert(x3 * (x12 * (x1 * x6)) == x1 * (x3 * (x6 * x12))) by (nonlinear_arith);
    assert(x3 * (x12 * (x5 * x2)) == x2 * (x3 * (x5 * x12))) by (nonlinear_arith);
}

/// Cell (2, 1) of the adjugate law.
proof fn lemma_adjoint_cell_2_1(m: Seq<i64>)
    requires
        m.len() == 16,
    ensures
        adjoint_product_cell(m, 2, 1) == 0,
{
    let (x0, x1, x2, x3) = (m[0] as int, m[1] as int, m[2] as int, m[3] as int);
    let (x4, x5, x6, x7) = (m[4] as int, m[5] as int, m[6] as int, m[7] as int);
    let (x8, x9, x10, x11) = (m[8] as int, m[9] as int, m[10] as int, m[11] as int);
    let (x12, x13, x14, x15) = (m[12] as int, m[13] as int, m[14] as int, m[15] as int);
    assert(spec_submatrix4(m, 0, 2) =~= seq![m[1], m[2], m[3], m[5], m[6], m[7], m[13], m[14], m[15]]);
    assert(spec_minor4(m, 0, 2) == x1 * (x6 * x15 - x14 * x7) - x5 * (x2 * x15 - x14 * x3) + x13 * (x2 * x7 - x6 * x3));
    assert(spec_submatrix4(m, 1, 2) =~= seq![m[0], m[2], m[3], m[4], m[6], m[7], m[12], m[14], m[15]]);
    assert(spec_minor4(m, 1, 2) == x0 * (x6 * x15 - x14 * x7) - x4 * (x2 * x15 - x14 * x3) + x12 * (x2 * x7 - x6 * x3));
    assert(spec_submatrix4(m, 2, 2) =~= seq![m[0], m[1], m[3], m[4], m[5], m[7], m[12], m[13], m[15]]);
    assert(spec_minor4(m, 2, 2) == x0 * (x5 * x15 - x13 * x7) - x4 * (x1 * x15 - x13 * x3) + x12 * (x1 * x7 - x5 * x3));
    assert(spec_submatrix4(m, 3, 2) =~= seq![m[0], m[1], m[2], m[4], m[5], m[6], m[12], m[13], m[14]]);
    assert(spec_minor4(m, 3, 2) == x0 * (x5 * x14 - x13 * x6) - x4 * (x1 * x14 - x13 * x2) + x12 * (x1 * x6 - x5 * x2));
    lemma_expand_minor_product(x4, x1, x2, x3, x5, x6, x7, x13, x14, x15);
    lemma_expand_minor_product(x5, x0, x2, x3, x4, x6, x7, x12, x14, x15);
    lemma_mul_neg(spec_minor4(m, 1, 2), x5);
    lemma_expand_minor_product(x6, x0, x1, x3, x4, x5, x7, x12, x13, x15);
    lemma_expand_minor_product(x7, x0, x1, x2, x4, x5, x6, x12, x13, x14);
    lemma_mul_neg(spec_minor4(m, 3, 2), x7);
    assert(x4 * (x1 * (x6 * x15)) == x1 * (x4 * (x6 * x15))) by (nonlinear_arith);
    assert(x4 * (x1 * (x14 * x7)) == x1 * (x4 * (x7 * x14))) by (nonlinear_arith);
    assert(x4 * (x5 * (x2 * x15)) == x2 * (x4 * (x5 * x15))) by (nonlinear_arith);
    assert(x4 * (x5 * (x14 * x3)) == x3 * (x4 * (x5 * x14))) by (nonlinear_arith);
    assert(x4 * (x13 * (x2 * x7)) == x2 * (x4 * (x7 * x13))) by (nonlinear_arith);
    assert(x4 * (x13 * (x6 * x3)) == x3 * (x4 * (x6 * x13))) by (nonlinear_arith);
    assert(x5 * (x0 * (x6 * x15)) == x0 * (x5 * (x6 * x15))) by (nonlinear_arith);
    assert(x5 * (x0 * (x14 * x7)) == x0 * (x5 * (x7 * x14))) by (nonlinear_arith);
    assert(x5 * (x4 * (x2 * x15)) == x2 * (x4 * (x5 * x15))) by (nonlinear_arith);
    assert(x5 * (x4 * (x14 * x3)) == x3 * (x4 * (x5 * x14))) by (nonlinear_arith);
    assert(x5 * (x12 * (x2 * x7)) == x2 * (x5 * (x7 * x12))) by (nonlinear_arith);
    assert(x5 * (x12 * (x6 * x3)) == x3 * (x5 * (x6 * x12))) by (nonlinear_arith);
    assert(x6 * (x0 * (x5 * x15)) == x0 * (x5 * (x6 * x15))) by (nonlinear_arith);
    assert(x6 * (x0 * (x13 * x7)) == x0 * (x6 * (x7 * x13))) by (nonlinear_arith);
    assert(x6 * (x4 * (x1 * x15)) == x1 * (x4 * (x6 * x15))) by (nonlinear_arith);
    assert(x6 * (x4 * (x13 * x3)) == x3 * (x4 * (x6 * x13))) by (nonlinear_arith);
    assert(x6 * (x12 * (x1 * x7)) == x1 * (x6 * (x7 * x12))) by (nonlinear_arith);
    assert(x6 * (x12 * (x5 * x3)) == x3 * (x5 * (x6 * x12))) by (nonlinear_arith);
    assert(x7 * (x0 * (x5 * x14)) == x0 * (x5 * (x7 * x14))) by (nonlinear_arith);
    assert(x7 * (x0 * (x13 * x6)) == x0 * (x6 * (x7 * x13))) by (nonlinear_arith);
    assert(x7 * (x4 * (x1 * x14)) == x1 * (x4 * (x7 * x14))) by (nonlinear_arith);
    assert(x7 * (x4 * (x13 * x2)) == x2 * (x4 * (x7 * x13))) by (nonlinear_arith);
    assert(x7 * (x12 * (x1 * x6)) == x1 * (x6 * (x7 * x12))) by (nonlinear_arith);
    assert(x7 * (x12 * (x5 * x2)) == x2 * (x5 * (x7 * x12))) by (nonlinear_arith);
}

/// Cell (2, 2) of the adjugate law.
proof fn lemma_adjoint_cell_2_2(m: Seq<i64>)
    requires
        m.len() == 16,
    ensures
        adjoint_product_cell(m, 2, 2) == spec_det4(m),
{
    let (x0, x1, x2, x3) = (m[0] as int, m[1] as int, m[2] as int, m[3] as int);
    let (x4, x5, x6, x7) = (m[4] as int, m[5] as int, m[6] as int, m[7] as int);
    let (x8, x9, x10, x11) = (m[8] as int, m[9] as int, m[10] as int, m[11] as int);
    let (x12, x13, x14, x15) = (m[12] as int, m[13] as int, m[14] as int, m[15] as int);
    assert(spec_submatrix4(m, 0, 2) =~= seq![m[1], m[2], m[3], m[5], m[6], m[7], m[13], m[14], m[15]]);
    assert(spec_minor4(m, 0, 2) == x1 * (x6 * x15 - x14 * x7) - x5 * (x2 * x15 - x14 * x3) + x13 * (x2 * x7 - x6 * x3));
    assert(spec_submatrix4(m, 1, 2) =~= seq![m[0], m[2], m[3], m[4], m[6], m[7], m[12], m[14], m[15]]);
    assert(spec_minor4(m, 1, 2) == x0 * (x6 * x15 - x14 * x7) - x4 * (x2 * x15 - x14 * x3) + x12 * (x2 * x7 - x6 * x3));
    assert(spec_submatrix4(m, 2, 2) =~= seq![m[0], m[1], m[3], m[4], m[5], m[7], m[12], m[13], m[15]]);
    assert(spec_minor4(m, 2, 2) == x0 * (x5 * x15 - x13 * x7) - x4 * (x1 * x15 - x13 * x3) + x12 * (x1 * x7 - x5 * x3));
    assert(spec_submatrix4(m, 3, 2) =~= seq![m[0], m[1], m[2], m[4], m[5], m[6], m[12], m[13], m[14]]);
    assert(spec_minor4(m, 3, 2) == x0 * (x5 * x14 - x13 * x6) - x4 * (x1 * x14 - x13 * x2) + x12 * (x1 * x6 - x5 * x2));
    lemma_expand_minor_product(x8, x1, x2, x3, x5, x6, x7, x13, x14, x15);
    lemma_expand_minor_product(x9, x0, x2, x3, x4, x6, x7, x12, x14, x15);
    lemma_mul_neg(spec_minor4(m, 1, 2), x9);
    lemma_expand_minor_product(x10, x0, x1, x3, x4, x5, x7, x12, x13, x15);
    lemma_expand_minor_product(x11, x0, x1, x2, x4, x5, x6, x12, x13, x14);
    lemma_mul_neg(spec_minor4(m, 3, 2), x11);
    assert(x8 * (x1 * (x6 * x15)) == x1 * (x6 * (x8 * x15))) by (nonlinear_arith);
    assert(x8 * (x1 * (x14 * x7)) == x1 * (x7 * (x8 * x14))) by (nonlinear_arith);
    assert(x8 * (x5 * (x2 * x15)) == x2 * (x5 * (x8 * x15))) by (nonlinear_arith);
    assert(x8 * (x5 * (x14 * x3)) == x3 * (x5 * (x8 * x14))) by (nonlinear_arith);
    assert(x8 * (x13 * (x2 * x7)) == x2 * (x7 * (x8 * x13))) by (nonlinear_arith);
    assert(x8 * (x13 * (x6 * x3)) == x3 * (x6 * (x8 * x13))) by (nonlinear_arith);
    assert(x9 * (x0 * (x6 * x15)) == x0 * (x6 * (x9 * x15))) by (nonlinear_arith);
    assert(x9 * (x0 * (x14 * x7)) == x0 * (x7 * (x9 * x14))) by (nonlinear_arith);
    assert(x9 * (x4 * (x2 * x15)) == x2 * (x4 * (x9 * x15))) by (nonlinear_arith);
    assert(x9 * (x4 * (x14 * x3)) == x3 * (x4 * (x9 * x14))) by (nonlinear_arith);
    assert(x9 * (x12 * (x2 * x7)) == x2 * (x7 * (x9 * x12))) by (nonlinear_arith);
    assert(x9 * (x12 * (x6 * x3)) == x3 * (x6 * (x9 * x12))) by (nonlinear_arith);
    assert(x10 * (x0 * (x5 * x15)) == x0 * (x5 * (x10 * x15))) by (nonlinear_arith);
    assert(x10 * (x0 * (x13 * x7)) == x0 * (x7 * (x10 * x13))) by (nonlinear_arith);
    assert(x10 * (x4 * (x1 * x15)) == x1 * (x4 * (x10 * x15))) by (nonlinear_arith);
    assert(x10 * (x4 * (x13 * x3)) == x3 * (x4 * (x10 * x13))) by (nonlinear_arith);
    assert(x10 * (x12 * (x1 * x7)) == x1 * (x7 * (x10 * x12))) by (nonlinear_arith);
    assert(x10 * (x12 * (x5 * x3)) == x3 * (x5 * (x10 * x12))) by (nonlinear_arith);
    assert(x11 * (x0 * (x5 * x14)) == x0 * (x5 * (x11 * x14))) by (nonlinear_arith);
    assert(x11 * (x0 * (x13 * x6)) == x0 * (x6 * (x11 * x13))) by (nonlinear_arith);
    assert(x11 * (x4 * (x1 * x14)) == x1 * (x4 * (x11 * x14))) by (nonlinear_arith);
    assert(x11 * (x4 * (x13 * x2)) == x2 * (x4 * (x11 * x13))) by (nonlinear_arith);
    assert(x11 * (x12 * (x1 * x6)) == x1 * (x6 * (x11 * x12))) by (nonlinear_arith);
    assert(x11 * (x12 * (x5 * x2)) == x2 * (x5 * (x11 * x12))) by (nonlinear_arith);
    lemma_det4_expanded(m);
}

/// Cell (2, 3) of the adjugate law.
proof fn lemma_adjoint_cell_2_3(m: Seq<i64>)
    requires
        m.len() == 16,
    ensures
        adjoint_product_cell(m, 2, 3) == 0,
{
    let (x0, x1, x2, x3) = (m[0] as int, m[1] as int, m[2] as int, m[3] as int);
    let (x4, x5, x6, x7) = (m[4] as int, m[5] as int, m[6] as int, m[7] as int);
    let (x8, x9, x10, x11) = (m[8] as int, m[9] as int, m[10] as int, m[11] as int);
    let (x12, x13, x14, x15) = (m[12] as int, m[13] as int, m[14] as int, m[15] as int);
    assert(spec_submatrix4(m, 0, 2) =~= seq![m[1], m[2], m[3], m[5], m[6], m[7], m[13], m[14], m[15]]);
    assert(spec_minor4(m, 0, 2) == x1 * (x6 * x15 - x14 * x7) - x5 * (x2 * x15 - x14 * x3) + x13 * (x2 * x7 - x6 * x3));
    assert(spec_submatrix4(m, 1, 2) =~= seq![m[0], m[2], m[3], m[4], m[6], m[7], m[12], m[14], m[15]]);
    assert(spec_minor4(m, 1, 2) == x0 * (x6 * x15 - x14 * x7) - x4 * (x2 * x15 - x14 * x3) + x12 * (x2 * x7 - x6 * x3));
    assert(spec_submatrix4(m, 2, 2) =~= seq![m[0], m[1], m[3], m[4], m[5], m[7], m[12], m[13], m[15]]);
    assert(spec_minor4(m, 2, 2) == x0 * (x5 * x15 - x13 * x7) - x4 * (x1 * x15 - x13 * x3) + x12 * (x1 * x7 - x5 * x3));
    assert(spec_submatrix4(m, 3, 2) =~= seq![m[0], m[1], m[2], m[4], m[5], m[6], m[12], m[13], m[14]]);
    assert(spec_minor4(m, 3, 2) == x0 * (x5 * x14 - x13 * x6) - x4 * (x1 * x14 - x13 * x2) + x12 * (x1 * x6 - x5 * x2));
    lemma_expand_minor_product(x12, x1, x2, x3, x5, x6, x7, x13, x14, x15);
    lemma_expand_minor_product(x13, x0, x2, x3, x4, x6, x7, x12, x14, x15);
    lemma_mul_neg(spec_minor4(m, 1, 2), x13);
    lemma_expand_minor_product(x14, x0, x1, x3, x4, x5, x7, x12, x13, x15);
    lemma_expand_minor_product(x15, x0, x1, x2, x4, x5, x6, x12, x13, x14);
    lemma_mul_neg(spec_minor4(m, 3, 2), x15);
    assert(x12 * (x1 * (x6 * x15)) == x1 * (x6 * (x12 * x15))) by (nonlinear_arith);
    assert(x12 * (x1 * (x14 * x7)) == x1 * (x7 * (x12 * x14))) by (nonlinear_arith);
    assert(x12 * (x5 * (x2 * x15)) == x2 * (x5 * (x12 * x15))) by (nonlinear_arith);
    assert(x12 * (x5 * (x14 * x3)) == x3 * (x5 * (x12 * x14))) by (nonlinear_arith);
    assert(x12 * (x13 * (x2 * x7)) == x2 * (x7 * (x12 * x13))) by (nonlinear_arith);
    assert(x12 * (x13 * (x6 * x3)) == x3 * (x6 * (x12 * x13))) by (nonlinear_arith);
    assert(x13 * (x0 * (x6 * x15)) == x0 * (x6 * (x13 * x15))) by (nonlinear_arith);
    assert(x13 * (x0 * (x14 * x7)) == x0 * (x7 * (x13 * x14))) by (nonlinear_arith);
    assert(x13 * (x4 * (x2 * x15)) == x2 * (x4 * (x13 * x15))) by (nonlinear_arith);
    assert(x13 * (x4 * (x14 * x3)) == x3 * (x4 * (x13 * x14))) by (nonlinear_arith);
    assert(x13 * (x12 * (x2 * x7)) == x2 * (x7 * (x12 * x13))) by (nonlinear_arith);
    assert(x13 * (x12 * (x6 * x3)) == x3 * (x6 * (x12 * x13))) by (nonlinear_arith);
    assert(x14 * (x0 * (x5 * x15)) == x0 * (x5 * (x14 * x15))) by (nonlinear_arith);
    assert(x14 * (x0 * (x13 * x7)) == x0 * (x7 * (x13 * x14))) by (nonlinear_arith);
    assert(x14 * (x4 * (x1 * x15)) == x1 * (x4 * (x14 * x15))) by (nonlinear_arith);
    assert(x14 * (x4 * (x13 * x3)) == x3 * (x4 * (x13 * x14))) by (nonlinear_arith);
    assert(x14 * (x12 * (x1 * x7)) == x1 * (x7 * (x12 * x14))) by (nonlinear_arith);
    assert(x14 * (x12 * (x5 * x3)) == x3 * (x5 * (x12 * x14))) by (nonlinear_arith);
    assert(x15 * (x0 * (x5 * x14)) == x0 * (x5 * (x14 * x15))) by (nonlinear_arith);
    assert(x15 * (x0 * (x13 * x6)) == x0 * (x6 * (x13 * x15))) by (nonlinear_arith);
    assert(x15 * (x4 * (x1 * x14)) == x1 * (x4 * (x14 * x15))) by (nonlinear_arith);
    assert(x15 * (x4 * (x13 * x2)) == x2 * (x4 * (x13 * x15))) by (nonlinear_arith);
    assert(x15 * (x12 * (x1 * x6)) == x1 * (x6 * (x12 * x15))) by (nonlinear_arith);
    assert(x15 * (x12 * (x5 * x2)) == x2 * (x5 * (x12 * x15))) by (nonlinear_arith);
}

/// Cell (3, 0) of the adjugate law.
proof fn lemma_adjoint_cell_3_0(m: Seq<i64>)
    requires
        m.len() == 16,
    ensures
        adjoint_product_cell(m, 3, 0) == 0,
{
    let (x0, x1, x2, x3) = (m[0] as int, m[1] as int, m[2] as int, m[3] as int);
    let (x4, x5, x6, x7) = (m[4] as int, m[5] as int, m[6] as int, m[7] as int);
    let (x8, x9, x10, x11) = (m[8] as int, m[9] as int, m[10] as int, m[11] as int);
    let (x12, x13, x14, x15) = (m[12] as int, m[13] as int, m[14] as int, m[15] as int);
    assert(spec_submatrix4(m, 0, 3) =~= seq![m[1], m[2], m[3], m[5], m[6], m[7], m[9], m[10], m[11]]);
    assert(spec_minor4(m, 0, 3) == x1 * (x6 * x11 - x10 * x7) - x5 * (x2 * x11 - x10 * x3) + x9 * (x2 * x7 - x6 * x3));
    assert(spec_submatrix4(m, 1, 3) =~= seq![m[0], m[2], m[3], m[4], m[6], m[7], m[8], m[10], m[11]]);
    assert(spec_minor4(m, 1, 3) == x0 * (x6 * x11 - x10 * x7) - x4 * (x2 * x11 - x10 * x3) + x8 * (x2 * x7 - x6 * x3));
    assert(spec_submatrix4(m, 2, 3) =~= seq![m[0], m[1], m[3], m[4], m[5], m[7], m[8], m[9], m[11]]);
    assert(spec_minor4(m, 2, 3) == x0 * (x5 * x11 - x9 * x7) - x4 * (x1 * x11 - x9 * x3) + x8 * (x1 * x7 - x5 * x3));
    assert(spec_submatrix4(m, 3, 3) =~= seq![m[0], m[1], m[2], m[4], m[5], m[6], m[8], m[9], m[10]]);
    assert(spec_minor4(m, 3, 3) == x0 * (x5 * x10 - x9 * x6) - x4 * (x1 * x10 - x9 * x2) + x8 * (x1 * x6 - x5 * x2));
    lemma_expand_minor_product(x0, x1, x2, x3, x5, x6, x7, x9, x10, x11);
    lemma_mul_neg(spec_minor4(m, 0, 3), x0);
    lemma_expand_minor_product(x1, x0, x2, x3, x4, x6, x7, x8, x10, x11);
    lemma_expand_minor_product(x2, x0, x1, x3, x4, x5, x7, x8, x9, x11);
    lemma_mul_neg(spec_minor4(m, 2, 3), x2);
    lemma_expand_minor_product(x3, x0, x1, x2, x4, x5, x6, x8, x9, x10);
    assert(x0 * (x1 * (x10 * x7)) == x0 * (x1 * (x7 * x10))) by (nonlinear_arith);
    assert(x0 * (x5 * (x2 * x11)) == x0 * (x2 * (x5 * x11))) by (nonlinear_arith);
    assert(x0 * (x5 * (x10 * x3)) == x0 * (x3 * (x5 * x10))) by (nonlinear_arith);
    assert(x0 * (x9 * (x2 * x7)) == x0 * (x2 * (x7 * x9))) by (nonlinear_arith);
    assert(x0 * (x9 * (x6 * x3)) == x0 * (x3 * (x6 * x9))) by (nonlinear_arith);
    assert(x1 * (x0 * (x6 * x11)) == x0 * (x1 * (x6 * x11))) by (nonlinear_arith);
    assert(x1 * (x0 * (x10 * x7)) == x0 * (x1 * (x7 * x10))) by (nonlinear_arith);
    assert(x1 * (x4 * (x2 * x11)) == x1 * (x2 * (x4 * x11))) by (nonlinear_arith);
    assert(x1 * (x4 * (x10 * x3)) == x1 * (x3 * (x4 * x10))) by (nonlinear_arith);
    assert(x1 * (x8 * (x2 * x7)) == x1 * (x2 * (x7 * x8))) by (nonlinear_arith);
    assert(x1 * (x8 * (x6 * x3)) == x1 * (x3 * (x6 * x8))) by (nonlinear_arith);
    assert(x2 * (x0 * (x5 * x11)) == x0 * (x2 * (x5 * x11))) by (nonlinear_arith);
    assert(x2 * (x0 * (x9 * x7)) == x0 * (x2 * (x7 * x9))) by (nonlinear_arith);
    assert(x2 * (x4 * (x1 * x11)) == x1 * (x2 * (x4 * x11))) by (nonlinear_arith);
    assert(x2 * (x4 * (x9 * x3)) == x2 * (x3 * (x4 * x9))) by (nonlinear_arith);
    assert(x2 * (x8 * (x1 * x7)) == x1 * (x2 * (x7 * x8))) by (nonlinear_arith);
    assert(x2 * (x8 * (x5 * x3)) == x2 * (x3 * (x5 * x8))) by (nonlinear_arith);
    assert(x3 * (x0 * (x5 * x10)) == x0 * (x3 * (x5 * x10))) by (nonlinear_arith);
    assert(x3 * (x0 * (x9 * x6)) == x0 * (x3 * (x6 * x9))) by (nonlinear_arith);
    assert(x3 * (x4 * (x1 * x10)) == x1 * (x3 * (x4 * x10))) by (nonlinear_arith);
    assert(x3 * (x4 * (x9 * x2)) == x2 * (x3 * (x4 * x9))) by (nonlinear_arith);
    assert(x3 * (x8 * (x1 * x6)) == x1 * (x3 * (x6 * x8))) by (nonlinear_arith);
    assert(x3 * (x8 * (x5 * x2)) == x2 * (x3 * (x5 * x8))) by (nonlinear_arith);
}

/// Cell (3, 1) of the adjugate law.
proof fn lemma_adjoint_cell_3_1(m: Seq<i64>)
    requires
        m.len() == 16,
    ensures
        adjoint_product_cell(m, 3, 1) == 0,
{
    let (x0, x1, x2, x3) = (m[0] as int, m[1] as int, m[2] as int, m[3] as int);
    let (x4, x5, x6, x7) = (m[4] as int, m[5] as int, m[6] as int, m[7] as int);
    let (x8, x9, x10, x11) = (m[8] as int, m[9] as int, m[10] as int, m[11] as int);
    let (x12, x13, x14, x15) = (m[12] as int, m[13] as int, m[14] as int, m[15] as int);
    assert(spec_submatrix4(m, 0, 3) =~= seq![m[1], m[2], m[3], m[5], m[6], m[7], m[9], m[10], m[11]]);
    assert(spec_minor4(m, 0, 3) == x1 * (x6 * x11 - x10 * x7) - x5 * (x2 * x11 - x10 * x3) + x9 * (x2 * x7 - x6 * x3));
    assert(spec_submatrix4(m, 1, 3) =~= seq![m[0], m[2], m[3], m[4], m[6], m[7], m[8], m[10], m[11]]);
    assert(spec_minor4(m, 1, 3) == x0 * (x6 * x11 - x10 * x7) - x4 * (x2 * x11 - x10 * x3) + x8 * (x2 * x7 - x6 * x3));
    assert(spec_submatrix4(m, 2, 3) =~= seq![m[0], m[1], m[3], m[4], m[5], m[7], m[8], m[9], m[11]]);
    assert(spec_minor4(m, 2, 3) == x0 * (x5 * x11 - x9 * x7) - x4 * (x1 * x11 - x9 * x3) + x8 * (x1 * x7 - x5 * x3));
    assert(spec_submatrix4(m, 3, 3) =~= seq![m[0], m[1], m[2], m[4], m[5], m[6], m[8], m[9], m[10]]);
    assert(spec_minor4(m, 3, 3) == x0 * (x5 * x10 - x9 * x6) - x4 * (x1 * x10 - x9 * x2) + x8 * (x1 * x6 - x5 * x2));
    lemma_expand_minor_product(x4, x1, x2, x3, x5, x6, x7, x9, x10, x11);
    lemma_mul_neg(spec_minor4(m, 0, 3), x4);
    lemma_expand_minor_product(x5, x0, x2, x3, x4, x6, x7, x8, x10, x11);
    lemma_expand_minor_product(x6, x0, x1, x3, x4, x5, x7, x8, x9, x11);
    lemma_mul_neg(spec_minor4(m, 2, 3), x6);
    lemma_expand_minor_product(x7, x0, x1, x2, x4, x5, x6, x8, x9, x10);
    assert(x4 * (x1 * (x6 * x11)) == x1 * (x4 * (x6 * x11))) by (nonlinear_arith);
    assert(x4 * (x1 * (x10 * x7)) == x1 * (x4 * (x7 * x10))) by (nonlinear_arith);
    assert(x4 * (x5 * (x2 * x11)) == x2 * (x4 * (x5 * x11))) by (nonlinear_arith);
    assert(x4 * (x5 * (x10 * x3)) == x3 * (x4 * (x5 * x10))) by (nonlinear_arith);
    assert(x4 * (x9 * (x2 * x7)) == x2 * (x4 * (x7 * x9))) by (nonlinear_arith);
    assert(x4 * (x9 * (x6 * x3)) == x3 * (x4 * (x6 * x9))) by (nonlinear_arith);
    assert(x5 * (x0 * (x6 * x11)) == x0 * (x5 * (x6 * x11))) by (nonlinear_arith);
    assert(x5 * (x0 * (x10 * x7)) == x0 * (x5 * (x7 * x10))) by (nonlinear_arith);
    assert(x5 * (x4 * (x2 * x11)) == x2 * (x4 * (x5 * x11))) by (nonlinear_arith);
    assert(x5 * (x4 * (x10 * x3)) == x3 * (x4 * (x5 * x10))) by (nonlinear_arith);
    assert(x5 * (x8 * (x2 * x7)) == x2 * (x5 * (x7 * x8))) by (nonlinear_arith);
    assert(x5 * (x8 * (x6 * x3)) == x3 * (x5 * (x6 * x8))) by (nonlinear_arith);
    assert(x6 * (x0 * (x5 * x11)) == x0 * (x5 * (x6 * x11))) by (nonlinear_arith);
    assert(x6 * (x0 * (x9 * x7)) == x0 * (x6 * (x7 * x9))) by (nonlinear_arith);
    assert(x6 * (x4 * (x1 * x11)) == x1 * (x4 * (x6 * x11))) by (nonlinear_arith);
    assert(x6 * (x4 * (x9 * x3)) == x3 * (x4 * (x6 * x9))) by (nonlinear_arith);
    assert(x6 * (x8 * (x1 * x7)) == x1 * (x6 * (x7 * x8))) by (nonlinear_arith);
    assert(x6 * (x8 * (x5 * x3)) == x3 * (x5 * (x6 * x8))) by (nonlinear_arith);
    assert(x7 * (x0 * (x5 * x10)) == x0 * (x5 * (x7 * x10))) by (nonlinear_arith);
    assert(x7 * (x0 * (x9 * x6)) == x0 * (x6 * (x7 * x9))) by (nonlinear_arith);
    assert(x7 * (x4 * (x1 * x10)) == x1 * (x4 * (x7 * x10))) by (nonlinear_arith);
    assert(x7 * (x4 * (x9 * x2)) == x2 * (x4 * (x7 * x9))) by (nonlinear_arith);
    assert(x7 * (x8 * (x1 * x6)) == x1 * (x6 * (x7 * x8))) by (nonlinear_arith);
    assert(x7 * (x8 * (x5 * x2)) == x2 * (x5 * (x7 * x8))) by (nonlinear_arith);
}

/// Cell (3, 2) of the adjugate law.
proof fn lemma_adjoint_cell_3_2(m: Seq<i64>)
    requires
        m.len() == 16,
    ensures
        adjoint_product_cell(m, 3, 2) == 0,
{
    let (x0, x1, x2, x3) = (m[0] as int, m[1] as int, m[2] as int, m[3] as int);
    let (x4, x5, x6, x7) = (m[4] as int, m[5] as int, m[6] as int, m[7] as int);
    let (x8, x9, x10, x11) = (m[8] as int, m[9] as int, m[10] as int, m[11] as int);
    let (x12, x13, x14, x15) = (m[12] as int, m[13] as int, m[14] as int, m[15] as int);
    assert(spec_submatrix4(m, 0, 3) =~= seq![m[1], m[2], m[3], m[5], m[6], m[7], m[9], m[10], m[11]]);
    assert(spec_minor4(m, 0, 3) == x1 * (x6 * x11 - x10 * x7) - x5 * (x2 * x11 - x10 * x3) + x9 * (x2 * x7 - x6 * x3));
    assert(spec_submatrix4(m, 1, 3) =~= seq![m[0], m[2], m[3], m[4], m[6], m[7], m[8], m[10], m[11]]);
    assert(spec_minor4(m, 1, 3) == x0 * (x6 * x11 - x10 * x7) - x4 * (x2 * x11 - x10 * x3) + x8 * (x2 * x7 - x6 * x3));
    assert(spec_submatrix4(m, 2, 3) =~= seq![m[0], m[1], m[3], m[4], m[5], m[7], m[8], m[9], m[11]]);
    assert(spec_minor4(m, 2, 3) == x0 * (x5 * x11 - x9 * x7) - x4 * (x1 * x11 - x9 * x3) + x8 * (x1 * x7 - x5 * x3));
    assert(spec_submatrix4(m, 3, 3) =~= seq![m[0], m[1], m[2], m[4], m[5], m[6], m[8], m[9], m[10]]);
    assert(spec_minor4(m, 3, 3) == x0 * (x5 * x10 - x9 * x6) - x4 * (x1 * x10 - x9 * x2) + x8 * (x1 * x6 - x5 * x2));
    lemma_expand_minor_product(x8, x1, x2, x3, x5, x6, x7, x9, x10, x11);
    lemma_mul_neg(spec_minor4(m, 0, 3), x8);
    lemma_expand_minor_product(x9, x0, x2, x3, x4, x6, x7, x8, x10, x11);
    lemma_expand_minor_product(x10, x0, x1, x3, x4, x5, x7, x8, x9, x11);
    lemma_mul_neg(spec_minor4(m, 2, 3), x10);
    lemma_expand_minor_product(x11, x0, x1, x2, x4, x5, x6, x8, x9, x10);
    assert(x8 * (x1 * (x6 * x11)) == x1 * (x6 * (x8 * x11))) by (nonlinear_arith);
    assert(x8 * (x1 * (x10 * x7)) == x1 * (x7 * (x8 * x10))) by (nonlinear_arith);
    assert(x8 * (x5 * (x2 * x11)) == x2 * (x5 * (x8 * x11))) by (nonlinear_arith);
    assert(x8 * (x5 * (x10 * x3)) == x3 * (x5 * (x8 * x10))) by (nonlinear_arith);
    assert(x8 * (x9 * (x2 * x7)) == x2 * (x7 * (x8 * x9))) by (nonlinear_arith);
    assert(x8 * (x9 * (x6 * x3)) == x3 * (x6 * (x8 * x9))) by (nonlinear_arith);
    assert(x9 * (x0 * (x6 * x11)) == x0 * (x6 * (x9 * x11))) by (nonlinear_arith);
    assert(x9 * (x0 * (x10 * x7)) == x0 * (x7 * (x9 * x10))) by (nonlinear_arith);
    assert(x9 * (x4 * (x2 * x11)) == x2 * (x4 * (x9 * x11))) by (nonlinear_arith);
    assert(x9 * (x4 * (x10 * x3)) == x3 * (x4 * (x9 * x10))) by (nonlinear_arith);
    assert(x9 * (x8 * (x2 * x7)) == x2 * (x7 * (x8 * x9))) by (nonlinear_arith);
    assert(x9 * (x8 * (x6 * x3)) == x3 * (x6 * (x8 * x9))) by (nonlinear_arith);
    assert(x10 * (x0 * (x5 * x11)) == x0 * (x5 * (x10 * x11))) by (nonlinear_arith);
    assert(x10 * (x0 * (x9 * x7)) == x0 * (x7 * (x9 * x10))) by (nonlinear_arith);
    assert(x10 * (x4 * (x1 * x11)) == x1 * (x4 * (x10 * x11))) by (nonlinear_arith);
    assert(x10 * (x4 * (x9 * x3)) == x3 * (x4 * (x9 * x10))) by (nonlinear_arith);
    assert(x10 * (x8 * (x1 * x7)) == x1 * (x7 * (x8 * x10))) by (nonlinear_arith);
    assert(x10 * (x8 * (x5 * x3)) == x3 * (x5 * (x8 * x10))) by (nonlinear_arith);
    assert(x11 * (x0 * (x5 * x10)) == x0 * (x5 * (x10 * x11))) by (nonlinear_arith);
    assert(x11 * (x0 * (x9 * x6)) == x0 * (x6 * (x9 * x11))) by (nonlinear_arith);
    assert(x11 * (x4 * (x1 * x10)) == x1 * (x4 * (x10 * x11))) by (nonlinear_arith);
    assert(x11 * (x4 * (x9 * x2)) == x2 * (x4 * (x9 * x11))) by (nonlinear_arith);
    assert(x11 * (x8 * (x1 * x6)) == x1 * (x6 * (x8 * x11))) by (nonlinear_arith);
    assert(x11 * (x8 * (x5 * x2)) == x2 * (x5 * (x8 * x11))) by (nonlinear_arith);
}

/// Cell (3, 3) of the adjugate law.
proof fn lemma_adjoint_cell_3_3(m: Seq<i64>)
    requires
        m.len() == 16,
    ensures
        adjoint_product_cell(m, 3, 3) == spec_det4(m),
{
    let (x0, x1, x2, x3) = (m[0] as int, m[1] as int, m[2] as int, m[3] as int);
    let (x4, x5, x6, x7) = (m[4] as int, m[5] as int, m[6] as int, m[7] as int);
    let (x8, x9, x10, x11) = (m[8] as int, m[9] as int, m[10] as int, m[11] as int);
    let (x12, x13, x14, x15) = (m[12] as int, m[13] as int, m[14] as int, m[15] as int);
    assert(spec_submatrix4(m, 0, 3) =~= seq![m[1], m[2], m[3], m[5], m[6], m[7], m[9], m[10], m[11]]);
    assert(spec_minor4(m, 0, 3) == x1 * (x6 * x11 - x10 * x7) - x5 * (x2 * x11 - x10 * x3) + x9 * (x2 * x7 - x6 * x3));
    assert(spec_submatrix4(m, 1, 3) =~= seq![m[0], m[2], m[3], m[4], m[6], m[7], m[8], m[10], m[11]]);
    assert(spec_minor4(m, 1, 3) == x0 * (x6 * x11 - x10 * x7) - x4 * (x2 * x11 - x10 * x3) + x8 * (x2 * x7 - x6 * x3));
    assert(spec_submatrix4(m, 2, 3) =~= seq![m[0], m[1], m[3], m[4], m[5], m[7], m[8], m[9], m[11]]);
    assert(spec_minor4(m, 2, 3) == x0 * (x5 * x11 - x9 * x7) - x4 * (x1 * x11 - x9 * x3) + x8 * (x1 * x7 - x5 * x3));
    assert(spec_submatrix4(m, 3, 3) =~= seq![m[0], m[1], m[2], m[4], m[5], m[6], m[8], m[9], m[10]]);
    assert(spec_minor4(m, 3, 3) == x0 * (x5 * x10 - x9 * x6) - x4 * (x1 * x10 - x9 * x2) + x8 * (x1 * x6 - x5 * x2));
    lemma_expand_minor_product(x12, x1, x2, x3, x5, x6, x7, x9, x10, x11);
    lemma_mul_neg(spec_minor4(m, 0, 3), x12);
    lemma_expand_minor_product(x13, x0, x2, x3, x4, x6, x7, x8, x10, x11);
    lemma_expand_minor_product(x14, x0, x1, x3, x4, x5, x7, x8, x9, x11);
    lemma_mul_neg(spec_minor4(m, 2, 3), x14);
    lemma_expand_minor_product(x15, x0, x1, x2, x4, x5, x6, x8, x9, x10);
    assert(x12 * (x1 * (x6 * x11)) == x1 * (x6 * (x11 * x12))) by (nonlinear_arith);
    assert(x12 * (x1 * (x10 * x7)) == x1 * (x7 * (x10 * x12))) by (nonlinear_arith);
    assert(x12 * (x5 * (x2 * x11)) == x2 * (x5 * (x11 * x12))) by (nonlinear_arith);
    assert(x12 * (x5 * (x10 * x3)) == x3 * (x5 * (x10 * x12))) by (nonlinear_arith);
    assert(x12 * (x9 * (x2 * x7)) == x2 * (x7 * (x9 * x12))) by (nonlinear_arith);
    assert(x12 * (x9 * (x6 * x3)) == x3 * (x6 * (x9 * x12))) by (nonlinear_arith);
    assert(x13 * (x0 * (x6 * x11)) == x0 * (x6 * (x11 * x13))) by (nonlinear_arith);
    assert(x13 * (x0 * (x10 * x7)) == x0 * (x7 * (x10 * x13))) by (nonlinear_arith);
    assert(x13 * (x4 * (x2 * x11)) == x2 * (x4 * (x11 * x13))) by (nonlinear_arith);
    assert(x13 * (x4 * (x10 * x3)) == x3 * (x4 * (x10 * x13))) by (nonlinear_arith);
    assert(x13 * (x8 * (x2 * x7)) == x2 * (x7 * (x8 * x13))) by (nonlinear_arith);
    assert(x13 * (x8 * (x6 * x3)) == x3 * (x6 * (x8 * x13))) by (nonlinear_arith);
    assert(x14 * (x0 * (x5 * x11)) == x0 * (x5 * (x11 * x14))) by (nonlinear_arith);
    assert(x14 * (x0 * (x9 * x7)) == x0 * (x7 * (x9 * x14))) by (nonlinear_arith);
    assert(x14 * (x4 * (x1 * x11)) == x1 * (x4 * (x11 * x14))) by (nonlinear_arith);
    assert(x14 * (x4 * (x9 * x3)) == x3 * (x4 * (x9 * x14))) by (nonlinear_arith);
    assert(x14 * (x8 * (x1 * x7)) == x1 * (x7 * (x8 * x14))) by (nonlinear_arith);
    assert(x14 * (x8 * (x5 * x3)) == x3 * (x5 * (x8 * x14))) by (nonlinear_arith);
    assert(x15 * (x0 * (x5 * x10)) == x0 * (x5 * (x10 * x15))) by (nonlinear_arith);
    assert(x15 * (x0 * (x9 * x6)) == x0 * (x6 * (x9 * x15))) by (nonlinear_arith);
    assert(x15 * (x4 * (x1 * x10)) == x1 * (x4 * (x10 * x15))) by (nonlinear_arith);
    assert(x15 * (x4 * (x9 * x2)) == x2 * (x4 * (x9 * x15))) by (nonlinear_arith);
    assert(x15 * (x8 * (x1 * x6)) == x1 * (x6 * (x8 * x15))) by (nonlinear_arith);
    assert(x15 * (x8 * (x5 * x2)) == x2 * (x5 * (x8 * x15))) by (nonlinear_arith);
    lemma_det4_expanded(m);
}

/// The adjugate law: each cell of the product of the adjoint of `m` and
/// `m` itself is the determinant on the diagonal and 0 elsewhere. An
/// invertible matrix times its inverse is therefore the identity, since
/// the inverse is the adjoint divided by the determinant.
pub proof fn lemma_adjoint_multiply(m: Seq<i64>)
    requires
        m.len() == 16,
    ensures
        forall|r: int, c: int|
            0 <= r < 4 && 0 <= c < 4 ==> #[trigger] adjoint_product_cell(m, r, c)
                == if r == c {
                spec_det4(m)
            } else {
                0
            },
{
    assert forall|r: int, c: int| 0 <= r < 4 && 0 <= c < 4 implies
        #[trigger] adjoint_product_cell(m, r, c) == if r == c {
        spec_det4(m)
    } else {
        0
    } by {
        if r == 0 && c == 0 {
            lemma_adjoint_cell_0_0(m);
        }
        if r == 0 && c == 1 {
            lemma_adjoint_cell_0_1(m);
        }
        if r == 0 && c == 2 {
            lemma_adjoint_cell_0_2(m);
        }
        if r == 0 && c == 3 {
            lemma_adjoint_cell_0_3(m);
        }
        if r == 1 && c == 0 {
            lemma_adjoint_cell_1_0(m);
        }
        if r == 1 && c == 1 {
            lemma_adjoint_cell_1_1(m);
        }
        if r == 1 && c == 2 {
            lemma_adjoint_cell_1_2(m);
        }
        if r == 1 && c == 3 {
            lemma_adjoint_cell_1_3(m);
        }
        if r == 2 && c == 0 {
            lemma_adjoint_cell_2_0(m);
        }
        if r == 2 && c == 1 {
            lemma_adjoint_cell_2_1(m);
        }
        if r == 2 && c == 2 {
            lemma_adjoint_cell_2_2(m);
        }
        if r == 2 && c == 3 {
            lemma_adjoint_cell_2_3(m);
        }
        if r == 3 && c == 0 {
            lemma_adjoint_cell_3_0(m);
        }
        if r == 3 && c == 1 {
            lemma_adjoint_cell_3_1(m);
        }
        if r == 3 && c == 2 {
            lemma_adjoint_cell_3_2(m);
        }
        if r == 3 && c == 3 {
            lemma_adjoint_cell_3_3(m);
        }
    }
}

/// The adjugate law restated over the stored adjoint cells: for bounded
/// cells every cofactor fits the cell type, so the product of the stored
/// adjoint and the matrix is the determinant times the identity.
pub proof fn lemma_adjoint_matrix_product(m: Seq<i64>)
    requires
        m.len() == 16,
        cells_in_range(m),
    ensures
        forall|r: int, c: int|
            0 <= r < 4 && 0 <= c < 4 ==> #[trigger] mul4_cell(spec_adjoint4(m), m, r, c)
                == if r == c {
                spec_det4(m)
            } else {
                0
            },
{
    lemma_adjoint_multiply(m);
    assert forall|r: int, c: int| 0 <= r < 4 && 0 <= c < 4 implies
        #[trigger] mul4_cell(spec_adjoint4(m), m, r, c) == if r == c {
        spec_det4(m)
    } else {
        0
    } by {
        lemma_cofactor4_bound(m, 0, r);
        lemma_cofactor4_bound(m, 1, r);
        lemma_cofactor4_bound(m, 2, r);
        lemma_cofactor4_bound(m, 3, r);
        assert(spec_adjoint4(m)[r] == spec_cofactor4(m, 0, r));
        assert(spec_adjoint4(m)[r + 4] == spec_cofactor4(m, 1, r));
        assert(spec_adjoint4(m)[r + 8] == spec_cofactor4(m, 2, r));
        assert(spec_adjoint4(m)[r + 12] == spec_cofactor4(m, 3, r));
        assert(mul4_cell(spec_adjoint4(m), m, r, c) == adjoint_product_cell(m, r, c));
    }
}

/// Cell (`r`, `c`) of the product of `m` and its adjoint, written over
/// exact cofactor values.
pub open spec fn matrix_adjoint_cell(m: Seq<i64>, r: int, c: int) -> int {
    m[r] * spec_cofactor4(m, c, 0) + m[r + 4] * spec_cofactor4(m, c, 1) + m[r + 8]
        * spec_cofactor4(m, c, 2) + m[r + 12] * spec_cofactor4(m, c, 3)
}

/// Cell (0, 0) of the law taken from the other side.
proof fn lemma_matrix_adjoint_cell_0_0(m: Seq<i64>)
    requires
        m.len() == 16,
    ensures
        matrix_adjoint_cell(m, 0, 0) == spec_det4(m),
{
    let (x0, x1, x2, x3) = (m[0] as int, m[1] as int, m[2] as int, m[3] as int);
    let (x4, x5, x6, x7) = (m[4] as int, m[5] as int, m[6] as int, m[7] as int);
    let (x8, x9, x10, x11) = (m[8] as int, m[9] as int, m[10] as int, m[11] as int);
    let (x12, x13, x14, x15) = (m[12] as int, m[13] as int, m[14] as int, m[15] as int);
    assert(spec_submatrix4(m, 0, 0) =~= seq![m[5], m[6], m[7], m[9], m[10], m[11], m[13], m[14], m[15]]);
    assert(spec_minor4(m, 0, 0) == x5 * (x10 * x15 - x14 * x11) - x9 * (x6 * x15 - x14 * x7) + x13 * (x6 * x11 - x10 * x7));
    assert(spec_submatrix4(m, 0, 1) =~= seq![m[1], m[2], m[3], m[9], m[10], m[11], m[13], m[14], m[15]]);
    assert(spec_minor4(m, 0, 1) == x1 * (x10 * x15 - x14 * x11) - x9 * (x2 * x15 - x14 * x3) + x13 * (x2 * x11 - x10 * x3));
    assert(spec_submatrix4(m, 0, 2) =~= seq![m[1], m[2], m[3], m[5], m[6], m[7], m[13], m[14], m[15]]);
    assert(spec_minor4(m, 0, 2) == x1 * (x6 * x15 - x14 * x7) - x5 * (x2 * x15 - x14 * x3) + x13 * (x2 * x7 - x6 * x3));
    assert(spec_submatrix4(m, 0, 3) =~= seq![m[1], m[2], m[3], m[5], m[6], m[7], m[9], m[10], m[11]]);
    assert(spec_minor4(m, 0, 3) == x1 * (x6 * x11 - x10 * x7) - x5 * (x2 * x11 - x10 * x3) + x9 * (x2 * x7 - x6 * x3));
    lemma_expand_minor_product(x0, x5, x6, x7, x9, x10, x11, x13, x14, x15);
    lemma_mul_comm(x0, spec_cofactor4(m, 0, 0));
    lemma_expand_minor_product(x4, x1, x2, x3, x9, x10, x11, x13, x14, x15);
    lemma_mul_comm(x4, spec_cofactor4(m, 0, 1));
    lemma_mul_neg(spec_minor4(m, 0, 1), x4);
    lemma_expand_minor_product(x8, x1, x2, x3, x5, x6, x7, x13, x14, x15);
    lemma_mul_comm(x8, spec_cofactor4(m, 0, 2));
    lemma_expand_minor_product(x12, x1, x2, x3, x5, x6, x7, x9, x10, x11);
    lemma_mul_comm(x12, spec_cofactor4(m, 0, 3));
    lemma_mul_neg(spec_minor4(m, 0, 3), x12);
    assert(x0 * (x5 * (x14 * x11)) == x0 * (x5 * (x11 * x14))) by (nonlinear_arith);
    assert(x0 * (x9 * (x6 * x15)) == x0 * (x6 * (x9 * x15))) by (nonlinear_arith);
    assert(x0 * (x9 * (x14 * x7)) == x0 * (x7 * (x9 * x14))) by (nonlinear_arith);
    assert(x0 * (x13 * (x6 * x11)) == x0 * (x6 * (x11 * x13))) by (nonlinear_arith);
    assert(x0 * (x13 * (x10 * x7)) == x0 * (x7 * (x10 * x13))) by (nonlinear_arith);
    assert(x4 * (x1 * (x10 * x15)) == x1 * (x4 * (x10 * x15))) by (nonlinear_arith);
    assert(x4 * (x1 * (x14 * x11)) == x1 * (x4 * (x11 * x14))) by (nonlinear_arith);
    assert(x4 * (x9 * (x2 * x15)) == x2 * (x4 * (x9 * x15))) by (nonlinear_arith);
    assert(x4 * (x9 * (x14 * x3)) == x3 * (x4 * (x9 * x14))) by (nonlinear_arith);
    assert(x4 * (x13 * (x2 * x11)) == x2 * (x4 * (x11 * x13))) by (nonlinear_arith);
    assert(x4 * (x13 * (x10 * x3)) == x3 * (x4 * (x10 * x13))) by (nonlinear_arith);
    assert(x8 * (x1 * (x6 * x15)) == x1 * (x6 * (x8 * x15))) by (nonlinear_arith);
    assert(x8 * (x1 * (x14 * x7)) == x1 * (x7 * (x8 * x14))) by (nonlinear_arith);
    assert(x8 * (x5 * (x2 * x15)) == x2 * (x5 * (x8 * x15))) by (nonlinear_arith);
    assert(x8 * (x5 * (x14 * x3)) == x3 * (x5 * (x8 * x14))) by (nonlinear_arith);
    assert(x8 * (x13 * (x2 * x7)) == x2 * (x7 * (x8 * x13))) by (nonlinear_arith);
    assert(x8 * (x13 * (x6 * x3)) == x3 * (x6 * (x8 * x13))) by (nonlinear_arith);
    assert(x12 * (x1 * (x6 * x11)) == x1 * (x6 * (x11 * x12))) by (nonlinear_arith);
    assert(x12 * (x1 * (x10 * x7)) == x1 * (x7 * (x10 * x12))) by (nonlinear_arith);
    assert(x12 * (x5 * (x2 * x11)) == x2 * (x5 * (x11 * x12))) by (nonlinear_arith);
    assert(x12 * (x5 * (x10 * x3)) == x3 * (x5 * (x10 * x12))) by (nonlinear_arith);
    assert(x12 * (x9 * (x2 * x7)) == x2 * (x7 * (x9 * x12))) by (nonlinear_arith);
    assert(x12 * (x9 * (x6 * x3)) == x3 * (x6 * (x9 * x12))) by (nonlinear_arith);
    lemma_det4_expanded(m);
}

/// Cell (0, 1) of the law taken from the other side.
proof fn lemma_matrix_adjoint_cell_0_1(m: Seq<i64>)
    requires
        m.len() == 16,
    ensures
        matrix_adjoint_cell(m, 0, 1) == 0,
{
    let (x0, x1, x2, x3) = (m[0] as int, m[1] as int, m[2] as int, m[3] as int);
    let (x4, x5, x6, x7) = (m[4] as int, m[5] as int, m[6] as int, m[7] as int);
    let (x8, x9, x10, x11) = (m[8] as int, m[9] as int, m[10] as int, m[11] as int);
    let (x12, x13, x14, x15) = (m[12] as int, m[13] as int, m[14] as int, m[15] as int);
    assert(spec_submatrix4(m, 1, 0) =~= seq![m[4], m[6], m[7], m[8], m[10], m[11], m[12], m[14], m[15]]);
    assert(spec_minor4(m, 1, 0) == x4 * (x10 * x15 - x14 * x11) - x8 * (x6 * x15 - x14 * x7) + x12 * (x6 * x11 - x10 * x7));
    assert(spec_submatrix4(m, 1, 1) =~= seq![m[0], m[2], m[3], m[8], m[10], m[11], m[12], m[14], m[15]]);
    assert(spec_minor4(m, 1, 1) == x0 * (x10 * x15 - x14 * x11) - x8 * (x2 * x15 - x14 * x3) + x12 * (x2 * x11 - x10 * x3));
    assert(spec_submatrix4(m, 1, 2) =~= seq![m[0], m[2], m[3], m[4], m[6], m[7], m[12], m[14], m[15]]);
    assert(spec_minor4(m, 1, 2) == x0 * (x6 * x15 - x14 * x7) - x4 * (x2 * x15 - x14 * x3) + x12 * (x2 * x7 - x6 * x3));
    assert(spec_submatrix4(m, 1, 3) =~= seq![m[0], m[2], m[3], m[4], m[6], m[7], m[8], m[10], m[11]]);
    assert(spec_minor4(m, 1, 3) == x0 * (x6 * x11 - x10 * x7) - x4 * (x2 * x11 - x10 * x3) + x8 * (x2 * x7 - x6 * x3));
    lemma_expand_minor_product(x0, x4, x6, x7, x8, x10, x11, x12, x14, x15);
    lemma_mul_comm(x0, spec_cofactor4(m, 1, 0));
    lemma_mul_neg(spec_minor4(m, 1, 0), x0);
    lemma_expand_minor_product(x4, x0, x2, x3, x8, x10, x11, x12, x14, x15);
    lemma_mul_comm(x4, spec_cofactor4(m, 1, 1));
    lemma_expand_minor_product(x8, x0, x2, x3, x4, x6, x7, x12, x14, x15);
    lemma_mul_comm(x8, spec_cofactor4(m, 1, 2));
    lemma_mul_neg(spec_minor4(m, 1, 2), x8);
    lemma_expand_minor_product(x12, x0, x2, x3, x4, x6, x7, x8, x10, x11);
    lemma_mul_comm(x12, spec_cofactor4(m, 1, 3));
    assert(x0 * (x4 * (x14 * x11)) == x0 * (x4 * (x11 * x14))) by (nonlinear_arith);
    assert(x0 * (x8 * (x6 * x15)) == x0 * (x6 * (x8 * x15))) by (nonlinear_arith);
    assert(x0 * (x8 * (x14 * x7)) == x0 * (x7 * (x8 * x14))) by (nonlinear_arith);
    assert(x0 * (x12 * (x6 * x11)) == x0 * (x6 * (x11 * x12))) by (nonlinear_arith);
    assert(x0 * (x12 * (x10 * x7)) == x0 * (x7 * (x10 * x12))) by (nonlinear_arith);
    assert(x4 * (x0 * (x10 * x15)) == x0 * (x4 * (x10 * x15))) by (nonlinear_arith);
    assert(x4 * (x0 * (x14 * x11)) == x0 * (x4 * (x11 * x14))) by (nonlinear_arith);
    assert(x4 * (x8 * (x2 * x15)) == x2 * (x4 * (x8 * x15))) by (nonlinear_arith);
    assert(x4 * (x8 * (x14 * x3)) == x3 * (x4 * (x8 * x14))) by (nonlinear_arith);
    assert(x4 * (x12 * (x2 * x11)) == x2 * (x4 * (x11 * x12))) by (nonlinear_arith);
    assert(x4 * (x12 * (x10 * x3)) == x3 * (x4 * (x10 * x12))) by (nonlinear_arith);
    assert(x8 * (x0 * (x6 * x15)) == x0 * (x6 * (x8 * x15))) by (nonlinear_arith);
    assert(x8 * (x0 * (x14 * x7)) == x0 * (x7 * (x8 * x14))) by (nonlinear_arith);
    assert(x8 * (x4 * (x2 * x15)) == x2 * (x4 * (x8 * x15))) by (nonlinear_arith);
    assert(x8 * (x4 * (x14 * x3)) == x3 * (x4 * (x8 * x14))) by (nonlinear_arith);
    assert(x8 * (x12 * (x2 * x7)) == x2 * (x7 * (x8 * x12))) by (nonlinear_arith);
    assert(x8 * (x12 * (x6 * x3)) == x3 * (x6 * (x8 * x12))) by (nonlinear_arith);
    assert(x12 * (x0 * (x6 * x11)) == x0 * (x6 * (x11 * x12))) by (nonlinear_arith);
    assert(x12 * (x0 * (x10 * x7)) == x0 * (x7 * (x10 * x12))) by (nonlinear_arith);
    assert(x12 * (x4 * (x2 * x11)) == x2 * (x4 * (x11 * x12))) by (nonlinear_arith);
    assert(x12 * (x4 * (x10 * x3)) == x3 * (x4 * (x10 * x12))) by (nonlinear_arith);
    assert(x12 * (x8 * (x2 * x7)) == x2 * (x7 * (x8 * x12))) by (nonlinear_arith);
    assert(x12 * (x8 * (x6 * x3)) == x3 * (x6 * (x8 * x12))) by (nonlinear_arith);
}

/// Cell (0, 2) of the law taken from the other side.
proof fn lemma_matrix_adjoint_cell_0_2(m: Seq<i64>)
    requires
        m.len() == 16,
    ensures
        matrix_adjoint_cell(m, 0, 2) == 0,
{
    let (x0, x1, x2, x3) = (m[0] as int, m[1] as int, m[2] as int, m[3] as int);
    let (x4, x5, x6, x7) = (m[4] as int, m[5] as int, m[6] as int, m[7] as int);
    let (x8, x9, x10, x11) = (m[8] as int, m[9] as int, m[10] as int, m[11] as int);
    let (x12, x13, x14, x15) = (m[12] as int, m[13] as int, m[14] as int, m[15] as int);
    assert(spec_submatrix4(m, 2, 0) =~= seq![m[4], m[5], m[7], m[8], m[9], m[11], m[12], m[13], m[15]]);
    assert(spec_minor4(m, 2, 0) == x4 * (x9 * x15 - x13 * x11) - x8 * (x5 * x15 - x13 * x7) + x12 * (x5 * x11 - x9 * x7));
    assert(spec_submatrix4(m, 2, 1) =~= seq![m[0], m[1], m[3], m[8], m[9], m[11], m[12], m[13], m[15]]);
    assert(spec_minor4(m, 2, 1) == x0 * (x9 * x15 - x13 * x11) - x8 * (x1 * x15 - x13 * x3) + x12 * (x1 * x11 - x9 * x3));
    assert(spec_submatrix4(m, 2, 2) =~= seq![m[0], m[1], m[3], m[4], m[5], m[7], m[12], m[13], m[15]]);
    assert(spec_minor4(m, 2, 2) == x0 * (x5 * x15 - x13 * x7) - x4 * (x1 * x15 - x13 * x3) + x12 * (x1 * x7 - x5 * x3));
    assert(spec_submatrix4(m, 2, 3) =~= seq![m[0], m[1], m[3], m[4], m[5], m[7], m[8], m[9], m[11]]);
    assert(spec_minor4(m, 2, 3) == x0 * (x5 * x11 - x9 * x7) - x4 * (x1 * x11 - x9 * x3) + x8 * (x1 * x7 - x5 * x3));
    lemma_expand_minor_product(x0, x4, x5, x7, x8, x9, x11, x12, x13, x15);
    lemma_mul_comm(x0, spec_cofactor4(m, 2, 0));
    lemma_expand_minor_product(x4, x0, x1, x3, x8, x9, x11, x12, x13, x15);
    lemma_mul_comm(x4, spec_cofactor4(m, 2, 1));
    lemma_mul_neg(spec_minor4(m, 2, 1), x4);
    lemma_expand_minor_product(x8, x0, x1, x3, x4, x5, x7, x12, x13, x15);
    lemma_mul_comm(x8, spec_cofactor4(m, 2, 2));
    lemma_expand_minor_product(x12, x0, x1, x3, x4, x5, x7, x8, x9, x11);
    lemma_mul_comm(x12, spec_cofactor4(m, 2, 3));
    lemma_mul_neg(spec_minor4(m, 2, 3), x12);
    assert(x0 * (x4 * (x13 * x11)) == x0 * (x4 * (x11 * x13))) by (nonlinear_arith);
    assert(x0 * (x8 * (x5 * x15)) == x0 * (x5 * (x8 * x15))) by (nonlinear_arith);
    assert(x0 * (x8 * (x13 * x7)) == x0 * (x7 * (x8 * x13))) by (nonlinear_arith);
    assert(x0 * (x12 * (x5 * x11)) == x0 * (x5 * (x11 * x12))) by (nonlinear_arith);
    assert(x0 * (x12 * (x9 * x7)) == x0 * (x7 * (x9 * x12))) by (nonlinear_arith);
    assert(x4 * (x0 * (x9 * x15)) == x0 * (x4 * (x9 * x15))) by (nonlinear_arith);
    assert(x4 * (x0 * (x13 * x11)) == x0 * (x4 * (x11 * x13))) by (nonlinear_arith);
    assert(x4 * (x8 * (x1 * x15)) == x1 * (x4 * (x8 * x15))) by (nonlinear_arith);
    assert(x4 * (x8 * (x13 * x3)) == x3 * (x4 * (x8 * x13))) by (nonlinear_arith);
    assert(x4 * (x12 * (x1 * x11)) == x1 * (x4 * (x11 * x12))) by (nonlinear_arith);
    assert(x4 * (x12 * (x9 * x3)) == x3 * (x4 * (x9 * x12))) by (nonlinear_arith);
    assert(x8 * (x0 * (x5 * x15)) == x0 * (x5 * (x8 * x15))) by (nonlinear_arith);
    assert(x8 * (x0 * (x13 * x7)) == x0 * (x7 * (x8 * x13))) by (nonlinear_arith);
    assert(x8 * (x4 * (x1 * x15)) == x1 * (x4 * (x8 * x15))) by (nonlinear_arith);
    assert(x8 * (x4 * (x13 * x3)) == x3 * (x4 * (x8 * x13))) by (nonlinear_arith);
    assert(x8 * (x12 * (x1 * x7)) == x1 * (x7 * (x8 * x12))) by (nonlinear_arith);
    assert(x8 * (x12 * (x5 * x3)) == x3 * (x5 * (x8 * x12))) by (nonlinear_arith);
    assert(x12 * (x0 * (x5 * x11)) == x0 * (x5 * (x11 * x12))) by (nonlinear_arith);
    assert(x12 * (x0 * (x9 * x7)) == x0 * (x7 * (x9 * x12))) by (nonlinear_arith);
    assert(x12 * (x4 * (x1 * x11)) == x1 * (x4 * (x11 * x12))) by (nonlinear_arith);
    assert(x12 * (x4 * (x9 * x3)) == x3 * (x4 * (x9 * x12))) by (nonlinear_arith);
    assert(x12 * (x8 * (x1 * x7)) == x1 * (x7 * (x8 * x12))) by (nonlinear_arith);
    assert(x12 * (x8 * (x5 * x3)) == x3 * (x5 * (x8 * x12))) by (nonlinear_arith);
}

/// Cell (0, 3) of the law taken from the other side.
proof fn lemma_matrix_adjoint_cell_0_3(m: Seq<i64>)
    requires
        m.len() == 16,
    ensures
        matrix_adjoint_cell(m, 0, 3) == 0,
{
    let (x0, x1, x2, x3) = (m[0] as int, m[1] as int, m[2] as int, m[3] as int);
    let (x4, x5, x6, x7) = (m[4] as int, m[5] as int, m[6] as int, m[7] as int);
    let (x8, x9, x10, x11) = (m[8] as int, m[9] as int, m[10] as int, m[11] as int);
    let (x12, x13, x14, x15) = (m[12] as int, m[13] as int, m[14] as int, m[15] as int);
    assert(spec_submatrix4(m, 3, 0) =~= seq![m[4], m[5], m[6], m[8], m[9], m[10], m[12], m[13], m[14]]);
    assert(spec_minor4(m, 3, 0) == x4 * (x9 * x14 - x13 * x10) - x8 * (x5 * x14 - x13 * x6) + x12 * (x5 * x10 - x9 * x6));
    assert(spec_submatrix4(m, 3, 1) =~= seq![m[0], m[1], m[2], m[8], m[9], m[10], m[12], m[13], m[14]]);
    assert(spec_minor4(m, 3, 1) == x0 * (x9 * x14 - x13 * x10) - x8 * (x1 * x14 - x13 * x2) + x12 * (x1 * x10 - x9 * x2));
    assert(spec_submatrix4(m, 3, 2) =~= seq![m[0], m[1], m[2], m[4], m[5], m[6], m[12], m[13], m[14]]);
    assert(spec_minor4(m, 3, 2) == x0 * (x5 * x14 - x13 * x6) - x4 * (x1 * x14 - x13 * x2) + x12 * (x1 * x6 - x5 * x2));
    assert(spec_submatrix4(m, 3, 3) =~= seq![m[0], m[1], m[2], m[4], m[5], m[6], m[8], m[9], m[10]]);
    assert(spec_minor4(m, 3, 3) == x0 * (x5 * x10 - x9 * x6) - x4 * (x1 * x10 - x9 * x2) + x8 * (x1 * x6 - x5 * x2));
    lemma_expand_minor_product(x0, x4, x5, x6, x8, x9, x10, x12, x13, x14);
    lemma_mul_comm(x0, spec_cofactor4(m, 3, 0));
    lemma_mul_neg(spec_minor4(m, 3, 0), x0);
    lemma_expand_minor_product(x4, x0, x1, x2, x8, x9, x10, x12, x13, x14);
    lemma_mul_comm(x4, spec_cofactor4(m, 3, 1));
    lemma_expand_minor_product(x8, x0, x1, x2, x4, x5, x6, x12, x13, x14);
    lemma_mul_comm(x8, spec_cofactor4(m, 3, 2));
    lemma_mul_neg(spec_minor4(m, 3, 2), x8);
    lemma_expand_minor_product(x12, x0, x1, x2, x4, x5, x6, x8, x9, x10);
    lemma_mul_comm(x12, spec_cofactor4(m, 3, 3));
    assert(x0 * (x4 * (x13 * x10)) == x0 * (x4 * (x10 * x13))) by (nonlinear_arith);
    assert(x0 * (x8 * (x5 * x14)) == x0 * (x5 * (x8 * x14))) by (nonlinear_arith);
    assert(x0 * (x8 * (x13 * x6)) == x0 * (x6 * (x8 * x13))) by (nonlinear_arith);
    assert(x0 * (x12 * (x5 * x10)) == x0 * (x5 * (x10 * x12))) by (nonlinear_arith);
    assert(x0 * (x12 * (x9 * x6)) == x0 * (x6 * (x9 * x12))) by (nonlinear_arith);
    assert(x4 * (x0 * (x9 * x14)) == x0 * (x4 * (x9 * x14))) by (nonlinear_arith);
    assert(x4 * (x0 * (x13 * x10)) == x0 * (x4 * (x10 * x13))) by (nonlinear_arith);
    assert(x4 * (x8 * (x1 * x14)) == x1 * (x4 * (x8 * x14))) by (nonlinear_arith);
    assert(x4 * (x8 * (x13 * x2)) == x2 * (x4 * (x8 * x13))) by (nonlinear_arith);
    assert(x4 * (x12 * (x1 * x10)) == x1 * (x4 * (x10 * x12))) by (nonlinear_arith);
    assert(x4 * (x12 * (x9 * x2)) == x2 * (x4 * (x9 * x12))) by (nonlinear_arith);
    assert(x8 * (x0 * (x5 * x14)) == x0 * (x5 * (x8 * x14))) by (nonlinear_arith);
    assert(x8 * (x0 * (x13 * x6)) == x0 * (x6 * (x8 * x13))) by (nonlinear_arith);
    assert(x8 * (x4 * (x1 * x14)) == x1 * (x4 * (x8 * x14))) by (nonlinear_arith);
    assert(x8 * (x4 * (x13 * x2)) == x2 * (x4 * (x8 * x13))) by (nonlinear_arith);
    assert(x8 * (x12 * (x1 * x6)) == x1 * (x6 * (x8 * x12))) by (nonlinear_arith);
    assert(x8 * (x12 * (x5 * x2)) == x2 * (x5 * (x8 * x12))) by (nonlinear_arith);
    assert(x12 * (x0 * (x5 * x10)) == x0 * (x5 * (x10 * x12))) by (nonlinear_arith);
    assert(x12 * (x0 * (x9 * x6)) == x0 * (x6 * (x9 * x12))) by (nonlinear_arith);
    assert(x12 * (x4 * (x1 * x10)) == x1 * (x4 * (x10 * x12))) by (nonlinear_arith);
    assert(x12 * (x4 * (x9 * x2)) == x2 * (x4 * (x9 * x12))) by (nonlinear_arith);
    assert(x12 * (x8 * (x1 * x6)) == x1 * (x6 * (x8 * x12))) by (nonlinear_arith);
    assert(x12 * (x8 * (x5 * x2)) == x2 * (x5 * (x8 * x12))) by (nonlinear_arith);
}

/// Cell (1, 0) of the law taken from the other side.
proof fn lemma_matrix_adjoint_cell_1_0(m: Seq<i64>)
    requires
        m.len() == 16,
    ensures
        matrix_adjoint_cell(m, 1, 0) == 0,
{
    let (x0, x1, x2, x3) = (m[0] as int, m[1] as int, m[2] as int, m[3] as int);
    let (x4, x5, x6, x7) = (m[4] as int, m[5] as int, m[6] as int, m[7] as int);
    let (x8, x9, x10, x11) = (m[8] as int, m[9] as int, m[10] as int, m[11] as int);
    let (x12, x13, x14, x15) = (m[12] as int, m[13] as int, m[14] as int, m[15] as int);
    assert(spec_submatrix4(m, 0, 0) =~= seq![m[5], m[6], m[7], m[9], m[10], m[11], m[13], m[14], m[15]]);
    assert(spec_minor4(m, 0, 0) == x5 * (x10 * x15 - x14 * x11) - x9 * (x6 * x15 - x14 * x7) + x13 * (x6 * x11 - x10 * x7));
    assert(spec_submatrix4(m, 0, 1) =~= seq![m[1], m[2], m[3], m[9], m[10], m[11], m[13], m[14], m[15]]);
    assert(spec_minor4(m, 0, 1) == x1 * (x10 * x15 - x14 * x11) - x9 * (x2 * x15 - x14 * x3) + x13 * (x2 * x11 - x10 * x3));
    assert(spec_submatrix4(m, 0, 2) =~= seq![m[1], m[2], m[3], m[5], m[6], m[7], m[13], m[14], m[15]]);
    assert(spec_minor4(m, 0, 2) == x1 * (x6 * x15 - x14 * x7) - x5 * (x2 * x15 - x14 * x3) + x13 * (x2 * x7 - x6 * x3));
    assert(spec_submatrix4(m, 0, 3) =~= seq![m[1], m[2], m[3], m[5], m[6], m[7], m[9], m[10], m[11]]);
    assert(spec_minor4(m, 0, 3) == x1 * (x6 * x11 - x10 * x7) - x5 * (x2 * x11 - x10 * x3) + x9 * (x2 * x7 - x6 * x3));
    lemma_expand_minor_product(x1, x5, x6, x7, x9, x10, x11, x13, x14, x15);
    lemma_mul_comm(x1, spec_cofactor4(m, 0, 0));
    lemma_expand_minor_product(x5, x1, x2, x3, x9, x10, x11, x13, x14, x15);
    lemma_mul_comm(x5, spec_cofactor4(m, 0, 1));
    lemma_mul_neg(spec_minor4(m, 0, 1), x5);
    lemma_expand_minor_product(x9, x1, x2, x3, x5, x6, x7, x13, x14, x15);
    lemma_mul_comm(x9, spec_cofactor4(m, 0, 2));
    lemma_expand_minor_product(x13, x1, x2, x3, x5, x6, x7, x9, x10, x11);
    lemma_mul_comm(x13, spec_cofactor4(m, 0, 3));
    lemma_mul_neg(spec_minor4(m, 0, 3), x13);
    assert(x1 * (x5 * (x14 * x11)) == x1 * (x5 * (x11 * x14))) by (nonlinear_arith);
    assert(x1 * (x9 * (x6 * x15)) == x1 * (x6 * (x9 * x15))) by (nonlinear_arith);
    assert(x1 * (x9 * (x14 * x7)) == x1 * (x7 * (x9 * x14))) by (nonlinear_arith);
    assert(x1 * (x13 * (x6 * x11)) == x1 * (x6 * (x11 * x13))) by (nonlinear_arith);
    assert(x1 * (x13 * (x10 * x7)) == x1 * (x7 * (x10 * x13))) by (nonlinear_arith);
    assert(x5 * (x1 * (x10 * x15)) == x1 * (x5 * (x10 * x15))) by (nonlinear_arith);
    assert(x5 * (x1 * (x14 * x11)) == x1 * (x5 * (x11 * x14))) by (nonlinear_arith);
    assert(x5 * (x9 * (x2 * x15)) == x2 * (x5 * (x9 * x15))) by (nonlinear_arith);
    assert(x5 * (x9 * (x14 * x3)) == x3 * (x5 * (x9 * x14))) by (nonlinear_arith);
    assert(x5 * (x13 * (x2 * x11)) == x2 * (x5 * (x11 * x13))) by (nonlinear_arith);
    assert(x5 * (x13 * (x10 * x3)) == x3 * (x5 * (x10 * x13))) by (nonlinear_arith);
    assert(x9 * (x1 * (x6 * x15)) == x1 * (x6 * (x9 * x15))) by (nonlinear_arith);
    assert(x9 * (x1 * (x14 * x7)) == x1 * (x7 * (x9 * x14))) by (nonlinear_arith);
    assert(x9 * (x5 * (x2 * x15)) == x2 * (x5 * (x9 * x15))) by (nonlinear_arith);
    assert(x9 * (x5 * (x14 * x3)) == x3 * (x5 * (x9 * x14))) by (nonlinear_arith);
    assert(x9 * (x13 * (x2 * x7)) == x2 * (x7 * (x9 * x13))) by (nonlinear_arith);
    assert(x9 * (x13 * (x6 * x3)) == x3 * (x6 * (x9 * x13))) by (nonlinear_arith);
    assert(x13 * (x1 * (x6 * x11)) == x1 * (x6 * (x11 * x13))) by (nonlinear_arith);
    assert(x13 * (x1 * (x10 * x7)) == x1 * (x7 * (x10 * x13))) by (nonlinear_arith);
    assert(x13 * (x5 * (x2 * x11)) == x2 * (x5 * (x11 * x13))) by (nonlinear_arith);
    assert(x13 * (x5 * (x10 * x3)) == x3 * (x5 * (x10 * x13))) by (nonlinear_arith);
    assert(x13 * (x9 * (x2 * x7)) == x2 * (x7 * (x9 * x13))) by (nonlinear_arith);
    assert(x13 * (x9 * (x6 * x3)) == x3 * (x6 * (x9 * x13))) by (nonlinear_arith);
}

/// Cell (1, 1) of the law taken from the other side.
proof fn lemma_matrix_adjoint_cell_1_1(m: Seq<i64>)
    requires
        m.len() == 16,
    ensures
        matrix_adjoint_cell(m, 1, 1) == spec_det4(m),
{
    let (x0, x1, x2, x3) = (m[0] as int, m[1] as int, m[2] as int, m[3] as int);
    let (x4, x5, x6, x7) = (m[4] as int, m[5] as int, m[6] as int, m[7] as int);
    let (x8, x9, x10, x11) = (m[8] as int, m[9] as int, m[10] as int, m[11] as int);
    let (x12, x13, x14, x15) = (m[12] as int, m[13] as int, m[14] as int, m[15] as int);
    assert(spec_submatrix4(m, 1, 0) =~= seq![m[4], m[6], m[7], m[8], m[10], m[11], m[12], m[14], m[15]]);
    assert(spec_minor4(m, 1, 0) == x4 * (x10 * x15 - x14 * x11) - x8 * (x6 * x15 - x14 * x7) + x12 * (x6 * x11 - x10 * x7));
    assert(spec_submatrix4(m, 1, 1) =~= seq![m[0], m[2], m[3], m[8], m[10], m[11], m[12], m[14], m[15]]);
    assert(spec_minor4(m, 1, 1) == x0 * (x10 * x15 - x14 * x11) - x8 * (x2 * x15 - x14 * x3) + x12 * (x2 * x11 - x10 * x3));
    assert(spec_submatrix4(m, 1, 2) =~= seq![m[0], m[2], m[3], m[4], m[6], m[7], m[12], m[14], m[15]]);
    assert(spec_minor4(m, 1, 2) == x0 * (x6 * x15 - x14 * x7) - x4 * (x2 * x15 - x14 * x3) + x12 * (x2 * x7 - x6 * x3));
    assert(spec_submatrix4(m, 1, 3) =~= seq![m[0], m[2], m[3], m[4], m[6], m[7], m[8], m[10], m[11]]);
    assert(spec_minor4(m, 1, 3) == x0 * (x6 * x11 - x10 * x7) - x4 * (x2 * x11 - x10 * x3) + x8 * (x2 * x7 - x6 * x3));
    lemma_expand_minor_product(x1, x4, x6, x7, x8, x10, x11, x12, x14, x15);
    lemma_mul_comm(x1, spec_cofactor4(m, 1, 0));
    lemma_mul_neg(spec_minor4(m, 1, 0), x1);
    lemma_expand_minor_product(x5, x0, x2, x3, x8, x10, x11, x12, x14, x15);
    lemma_mul_comm(x5, spec_cofactor4(m, 1, 1));
    lemma_expand_minor_product(x9, x0, x2, x3, x4, x6, x7, x12, x14, x15);
    lemma_mul_comm(x9, spec_cofactor4(m, 1, 2));
    lemma_mul_neg(spec_minor4(m, 1, 2), x9);
    lemma_expand_minor_product(x13, x0, x2, x3, x4, x6, x7, x8, x10, x11);
    lemma_mul_comm(x13, spec_cofactor4(m, 1, 3));
    assert(x1 * (x4 * (x14 * x11)) == x1 * (x4 * (x11 * x14))) by (nonlinear_arith);
    assert(x1 * (x8 * (x6 * x15)) == x1 * (x6 * (x8 * x15))) by (nonlinear_arith);
    assert(x1 * (x8 * (x14 * x7)) == x1 * (x7 * (x8 * x14))) by (nonlinear_arith);
    assert(x1 * (x12 * (x6 * x11)) == x1 * (x6 * (x11 * x12))) by (nonlinear_arith);
    assert(x1 * (x12 * (x10 * x7)) == x1 * (x7 * (x10 * x12))) by (nonlinear_arith);
    assert(x5 * (x0 * (x10 * x15)) == x0 * (x5 * (x10 * x15))) by (nonlinear_arith);
    assert(x5 * (x0 * (x14 * x11)) == x0 * (x5 * (x11 * x14))) by (nonlinear_arith);
    assert(x5 * (x8 * (x2 * x15)) == x2 * (x5 * (x8 * x15))) by (nonlinear_arith);
    assert(x5 * (x8 * (x14 * x3)) == x3 * (x5 * (x8 * x14))) by (nonlinear_arith);
    assert(x5 * (x12 * (x2 * x11)) == x2 * (x5 * (x11 * x12))) by (nonlinear_arith);
    assert(x5 * (x12 * (x10 * x3)) == x3 * (x5 * (x10 * x12))) by (nonlinear_arith);
    assert(x9 * (x0 * (x6 * x15)) == x0 * (x6 * (x9 * x15))) by (nonlinear_arith);
    assert(x9 * (x0 * (x14 * x7)) == x0 * (x7 * (x9 * x14))) by (nonlinear_arith);
    assert(x9 * (x4 * (x2 * x15)) == x2 * (x4 * (x9 * x15))) by (nonlinear_arith);
    assert(x9 * (x4 * (x14 * x3)) == x3 * (x4 * (x9 * x14))) by (nonlinear_arith);
    assert(x9 * (x12 * (x2 * x7)) == x2 * (x7 * (x9 * x12))) by (nonlinear_arith);
    assert(x9 * (x12 * (x6 * x3)) == x3 * (x6 * (x9 * x12))) by (nonlinear_arith);
    assert(x13 * (x0 * (x6 * x11)) == x0 * (x6 * (x11 * x13))) by (nonlinear_arith);
    assert(x13 * (x0 * (x10 * x7)) == x0 * (x7 * (x10 * x13))) by (nonlinear_arith);
    assert(x13 * (x4 * (x2 * x11)) == x2 * (x4 * (x11 * x13))) by (nonlinear_arith);
    assert(x13 * (x4 * (x10 * x3)) == x3 * (x4 * (x10 * x13))) by (nonlinear_arith);
    assert(x13 * (x8 * (x2 * x7)) == x2 * (x7 * (x8 * x13))) by (nonlinear_arith);
    assert(x13 * (x8 * (x6 * x3)) == x3 * (x6 * (x8 * x13))) by (nonlinear_arith);
    lemma_det4_expanded(m);
}

/// Cell (1, 2) of the law taken from the other side.
proof fn lemma_matrix_adjoint_cell_1_2(m: Seq<i64>)
    requires
        m.len() == 16,
    ensures
        matrix_adjoint_cell(m, 1, 2) == 0,
{
    let (x0, x1, x2, x3) = (m[0] as int, m[1] as int, m[2] as int, m[3] as int);
    let (x4, x5, x6, x7) = (m[4] as int, m[5] as int, m[6] as int, m[7] as int);
    let (x8, x9, x10, x11) = (m[8] as int, m[9] as int, m[10] as int, m[11] as int);
    let (x12, x13, x14, x15) = (m[12] as int, m[13] as int, m[14] as int, m[15] as int);
    assert(spec_submatrix4(m, 2, 0) =~= seq![m[4], m[5], m[7], m[8], m[9], m[11], m[12], m[13], m[15]]);
    assert(spec_minor4(m, 2, 0) == x4 * (x9 * x15 - x13 * x11) - x8 * (x5 * x15 - x13 * x7) + x12 * (x5 * x11 - x9 * x7));
    assert(spec_submatrix4(m, 2, 1) =~= seq![m[0], m[1], m[3], m[8], m[9], m[11], m[12], m[13], m[15]]);
    assert(spec_minor4(m, 2, 1) == x0 * (x9 * x15 - x13 * x11) - x8 * (x1 * x15 - x13 * x3) + x12 * (x1 * x11 - x9 * x3));
    assert(spec_submatrix4(m, 2, 2) =~= seq![m[0], m[1], m[3], m[4], m[5], m[7], m[12], m[13], m[15]]);
    assert(spec_minor4(m, 2, 2) == x0 * (x5 * x15 - x13 * x7) - x4 * (x1 * x15 - x13 * x3) + x12 * (x1 * x7 - x5 * x3));
    assert(spec_submatrix4(m, 2, 3) =~= seq![m[0], m[1], m[3], m[4], m[5], m[7], m[8], m[9], m[11]]);
    assert(spec_minor4(m, 2, 3) == x0 * (x5 * x11 - x9 * x7) - x4 * (x1 * x11 - x9 * x3) + x8 * (x1 * x7 - x5 * x3));
    lemma_expand_minor_product(x1, x4, x5, x7, x8, x9, x11, x12, x13, x15);
    lemma_mul_comm(x1, spec_cofactor4(m, 2, 0));
    lemma_expand_minor_product(x5, x0, x1, x3, x8, x9, x11, x12, x13, x15);
    lemma_mul_comm(x5, spec_cofactor4(m, 2, 1));
    lemma_mul_neg(spec_minor4(m, 2, 1), x5);
    lemma_expand_minor_product(x9, x0, x1, x3, x4, x5, x7, x12, x13, x15);
    lemma_mul_comm(x9, spec_cofactor4(m, 2, 2));
    lemma_expand_minor_product(x13, x0, x1, x3, x4, x5, x7, x8, x9, x11);
    lemma_mul_comm(x13, spec_cofactor4(m, 2, 3));
    lemma_mul_neg(spec_minor4(m, 2, 3), x13);
    assert(x1 * (x4 * (x13 * x11)) == x1 * (x4 * (x11 * x13))) by (nonlinear_arith);
    assert(x1 * (x8 * (x5 * x15)) == x1 * (x5 * (x8 * x15))) by (nonlinear_arith);
    assert(x1 * (x8 * (x13 * x7)) == x1 * (x7 * (x8 * x13))) by (nonlinear_arith);
    assert(x1 * (x12 * (x5 * x11)) == x1 * (x5 * (x11 * x12))) by (nonlinear_arith);
    assert(x1 * (x12 * (x9 * x7)) == x1 * (x7 * (x9 * x12))) by (nonlinear_arith);
    assert(x5 * (x0 * (x9 * x15)) == x0 * (x5 * (x9 * x15))) by (nonlinear_arith);
    assert(x5 * (x0 * (x13 * x11)) == x0 * (x5 * (x11 * x13))) by (nonlinear_arith);
    assert(x5 * (x8 * (x1 * x15)) == x1 * (x5 * (x8 * x15))) by (nonlinear_arith);
    assert(x5 * (x8 * (x13 * x3)) == x3 * (x5 * (x8 * x13))) by (nonlinear_arith);
    assert(x5 * (x12 * (x1 * x11)) == x1 * (x5 * (x11 * x12))) by (nonlinear_arith);
    assert(x5 * (x12 * (x9 * x3)) == x3 * (x5 * (x9 * x12))) by (nonlinear_arith);
    assert(x9 * (x0 * (x5 * x15)) == x0 * (x5 * (x9 * x15))) by (nonlinear_arith);
    assert(x9 * (x0 * (x13 * x7)) == x0 * (x7 * (x9 * x13))) by (nonlinear_arith);
    assert(x9 * (x4 * (x1 * x15)) == x1 * (x4 * (x9 * x15))) by (nonlinear_arith);
    assert(x9 * (x4 * (x13 * x3)) == x3 * (x4 * (x9 * x13))) by (nonlinear_arith);
    assert(x9 * (x12 * (x1 * x7)) == x1 * (x7 * (x9 * x12))) by (nonlinear_arith);
    assert(x9 * (x12 * (x5 * x3)) == x3 * (x5 * (x9 * x12))) by (nonlinear_arith);
    assert(x13 * (x0 * (x5 * x11)) == x0 * (x5 * (x11 * x13))) by (nonlinear_arith);
    assert(x13 * (x0 * (x9 * x7)) == x0 * (x7 * (x9 * x13))) by (nonlinear_arith);
    assert(x13 * (x4 * (x1 * x11)) == x1 * (x4 * (x11 * x13))) by (nonlinear_arith);
    assert(x13 * (x4 * (x9 * x3)) == x3 * (x4 * (x9 * x13))) by (nonlinear_arith);
    assert(x13 * (x8 * (x1 * x7)) == x1 * (x7 * (x8 * x13))) by (nonlinear_arith);
    assert(x13 * (x8 * (x5 * x3)) == x3 * (x5 * (x8 * x13))) by (nonlinear_arith);
}

/// Cell (1, 3) of the law taken from the other side.
proof fn lemma_matrix_adjoint_cell_1_3(m: Seq<i64>)
    requires
        m.len() == 16,
    ensures
        matrix_adjoint_cell(m, 1, 3) == 0,
{
    let (x0, x1, x2, x3) = (m[0] as int, m[1] as int, m[2] as int, m[3] as int);
    let (x4, x5, x6, x7) = (m[4] as int, m[5] as int, m[6] as int, m[7] as int);
    let (x8, x9, x10, x11) = (m[8] as int, m[9] as int, m[10] as int, m[11] as int);
    let (x12, x13, x14, x15) = (m[12] as int, m[13] as int, m[14] as int, m[15] as int);
    assert(spec_submatrix4(m, 3, 0) =~= seq![m[4], m[5], m[6], m[8], m[9], m[10], m[12], m[13], m[14]]);
    assert(spec_minor4(m, 3, 0) == x4 * (x9 * x14 - x13 * x10) - x8 * (x5 * x14 - x13 * x6) + x12 * (x5 * x10 - x9 * x6));
    assert(spec_submatrix4(m, 3, 1) =~= seq![m[0], m[1], m[2], m[8], m[9], m[10], m[12], m[13], m[14]]);
    assert(spec_minor4(m, 3, 1) == x0 * (x9 * x14 - x13 * x10) - x8 * (x1 * x14 - x13 * x2) + x12 * (x1 * x10 - x9 * x2));
    assert(spec_submatrix4(m, 3, 2) =~= seq![m[0], m[1], m[2], m[4], m[5], m[6], m[12], m[13], m[14]]);
    assert(spec_minor4(m, 3, 2) == x0 * (x5 * x14 - x13 * x6) - x4 * (x1 * x14 - x13 * x2) + x12 * (x1 * x6 - x5 * x2));
    assert(spec_submatrix4(m, 3, 3) =~= seq![m[0], m[1], m[2], m[4], m[5], m[6], m[8], m[9], m[10]]);
    assert(spec_minor4(m, 3, 3) == x0 * (x5 * x10 - x9 * x6) - x4 * (x1 * x10 - x9 * x2) + x8 * (x1 * x6 - x5 * x2));
    lemma_expand_minor_product(x1, x4, x5, x6, x8, x9, x10, x12, x13, x14);
    lemma_mul_comm(x1, spec_cofactor4(m, 3, 0));
    lemma_mul_neg(spec_minor4(m, 3, 0), x1);
    lemma_expand_minor_product(x5, x0, x1, x2, x8, x9, x10, x12, x13, x14);
    lemma_mul_comm(x5, spec_cofactor4(m, 3, 1));
    lemma_expand_minor_product(x9, x0, x1, x2, x4, x5, x6, x12, x13, x14);
    lemma_mul_comm(x9, spec_cofactor4(m, 3, 2));
    lemma_mul_neg(spec_minor4(m, 3, 2), x9);
    lemma_expand_minor_product(x13, x0, x1, x2, x4, x5, x6, x8, x9, x10);
    lemma_mul_comm(x13, spec_cofactor4(m, 3, 3));
    assert(x1 * (x4 * (x13 * x10)) == x1 * (x4 * (x10 * x13))) by (nonlinear_arith);
    assert(x1 * (x8 * (x5 * x14)) == x1 * (x5 * (x8 * x14))) by (nonlinear_arith);
    assert(x1 * (x8 * (x13 * x6)) == x1 * (x6 * (x8 * x13))) by (nonlinear_arith);
    assert(x1 * (x12 * (x5 * x10)) == x1 * (x5 * (x10 * x12))) by (nonlinear_arith);
    assert(x1 * (x12 * (x9 * x6)) == x1 * (x6 * (x9 * x12))) by (nonlinear_arith);
    assert(x5 * (x0 * (x9 * x14)) == x0 * (x5 * (x9 * x14))) by (nonlinear_arith);
    assert(x5 * (x0 * (x13 * x10)) == x0 * (x5 * (x10 * x13))) by (nonlinear_arith);
    assert(x5 * (x8 * (x1 * x14)) == x1 * (x5 * (x8 * x14))) by (nonlinear_arith);
    assert(x5 * (x8 * (x13 * x2)) == x2 * (x5 * (x8 * x13))) by (nonlinear_arith);
    assert(x5 * (x12 * (x1 * x10)) == x1 * (x5 * (x10 * x12))) by (nonlinear_arith);
    assert(x5 * (x12 * (x9 * x2)) == x2 * (x5 * (x9 * x12))) by (nonlinear_arith);
    assert(x9 * (x0 * (x5 * x14)) == x0 * (x5 * (x9 * x14))) by (nonlinear_arith);
    assert(x9 * (x0 * (x13 * x6)) == x0 * (x6 * (x9 * x13))) by (nonlinear_arith);
    assert(x9 * (x4 * (x1 * x14)) == x1 * (x4 * (x9 * x14))) by (nonlinear_arith);
    assert(x9 * (x4 * (x13 * x2)) == x2 * (x4 * (x9 * x13))) by (nonlinear_arith);
    assert(x9 * (x12 * (x1 * x6)) == x1 * (x6 * (x9 * x12))) by (nonlinear_arith);
    assert(x9 * (x12 * (x5 * x2)) == x2 * (x5 * (x9 * x12))) by (nonlinear_arith);
    assert(x13 * (x0 * (x5 * x10)) == x0 * (x5 * (x10 * x13))) by (nonlinear_arith);
    assert(x13 * (x0 * (x9 * x6)) == x0 * (x6 * (x9 * x13))) by (nonlinear_arith);
    assert(x13 * (x4 * (x1 * x10)) == x1 * (x4 * (x10 * x13))) by (nonlinear_arith);
    assert(x13 * (x4 * (x9 * x2)) == x2 * (x4 * (x9 * x13))) by (nonlinear_arith);
    assert(x13 * (x8 * (x1 * x6)) == x1 * (x6 * (x8 * x13))) by (nonlinear_arith);
    assert(x13 * (x8 * (x5 * x2)) == x2 * (x5 * (x8 * x13))) by (nonlinear_arith);
}

/// Cell (2, 0) of the law taken from the other side.
proof fn lemma_matrix_adjoint_cell_2_0(m: Seq<i64>)
    requires
        m.len() == 16,
    ensures
        matrix_adjoint_cell(m, 2, 0) == 0,
{
    let (x0, x1, x2, x3) = (m[0] as int, m[1] as int, m[2] as int, m[3] as int);
    let (x4, x5, x6, x7) = (m[4] as int, m[5] as int, m[6] as int, m[7] as int);
    let (x8, x9, x10, x11) = (m[8] as int, m[9] as int, m[10] as int, m[11] as int);
    let (x12, x13, x14, x15) = (m[12] as int, m[13] as int, m[14] as int, m[15] as int);
    assert(spec_submatrix4(m, 0, 0) =~= seq![m[5], m[6], m[7], m[9], m[10], m[11], m[13], m[14], m[15]]);
    assert(spec_minor4(m, 0, 0) == x5 * (x10 * x15 - x14 * x11) - x9 * (x6 * x15 - x14 * x7) + x13 * (x6 * x11 - x10 * x7));
    assert(spec_submatrix4(m, 0, 1) =~= seq![m[1], m[2], m[3], m[9], m[10], m[11], m[13], m[14], m[15]]);
    assert(spec_minor4(m, 0, 1) == x1 * (x10 * x15 - x14 * x11) - x9 * (x2 * x15 - x14 * x3) + x13 * (x2 * x11 - x10 * x3));
    assert(spec_submatrix4(m, 0, 2) =~= seq![m[1], m[2], m[3], m[5], m[6], m[7], m[13], m[14], m[15]]);
    assert(spec_minor4(m, 0, 2) == x1 * (x6 * x15 - x14 * x7) - x5 * (x2 * x15 - x14 * x3) + x13 * (x2 * x7 - x6 * x3));
    assert(spec_submatrix4(m, 0, 3) =~= seq![m[1], m[2], m[3], m[5], m[6], m[7], m[9], m[10], m[11]]);
    assert(spec_minor4(m, 0, 3) == x1 * (x6 * x11 - x10 * x7) - x5 * (x2 * x11 - x10 * x3) + x9 * (x2 * x7 - x6 * x3));
    lemma_expand_minor_product(x2, x5, x6, x7, x9, x10, x11, x13, x14, x15);
    lemma_mul_comm(x2, spec_cofactor4(m, 0, 0));
    lemma_expand_minor_product(x6, x1, x2, x3, x9, x10, x11, x13, x14, x15);
    lemma_mul_comm(x6, spec_cofactor4(m, 0, 1));
    lemma_mul_neg(spec_minor4(m, 0, 1), x6);
    lemma_expand_minor_product(x10, x1, x2, x3, x5, x6, x7, x13, x14, x15);
    lemma_mul_comm(x10, spec_cofactor4(m, 0, 2));
    lemma_expand_minor_product(x14, x1, x2, x3, x5, x6, x7, x9, x10, x11);
    lemma_mul_comm(x14, spec_cofactor4(m, 0, 3));
    lemma_mul_neg(spec_minor4(m, 0, 3), x14);
    assert(x2 * (x5 * (x14 * x11)) == x2 * (x5 * (x11 * x14))) by (nonlinear_arith);
    assert(x2 * (x9 * (x6 * x15)) == x2 * (x6 * (x9 * x15))) by (nonlinear_arith);
    assert(x2 * (x9 * (x14 * x7)) == x2 * (x7 * (x9 * x14))) by (nonlinear_arith);
    assert(x2 * (x13 * (x6 * x11)) == x2 * (x6 * (x11 * x13))) by (nonlinear_arith);
    assert(x2 * (x13 * (x10 * x7)) == x2 * (x7 * (x10 * x13))) by (nonlinear_arith);
    assert(x6 * (x1 * (x10 * x15)) == x1 * (x6 * (x10 * x15))) by (nonlinear_arith);
    assert(x6 * (x1 * (x14 * x11)) == x1 * (x6 * (x11 * x14))) by (nonlinear_arith);
    assert(x6 * (x9 * (x2 * x15)) == x2 * (x6 * (x9 * x15))) by (nonlinear_arith);
    assert(x6 * (x9 * (x14 * x3)) == x3 * (x6 * (x9 * x14))) by (nonlinear_arith);
    assert(x6 * (x13 * (x2 * x11)) == x2 * (x6 * (x11 * x13))) by (nonlinear_arith);
    assert(x6 * (x13 * (x10 * x3)) == x3 * (x6 * (x10 * x13))) by (nonlinear_arith);
    assert(x10 * (x1 * (x6 * x15)) == x1 * (x6 * (x10 * x15))) by (nonlinear_arith);
    assert(x10 * (x1 * (x14 * x7)) == x1 * (x7 * (x10 * x14))) by (nonlinear_arith);
    assert(x10 * (x5 * (x2 * x15)) == x2 * (x5 * (x10 * x15))) by (nonlinear_arith);
    assert(x10 * (x5 * (x14 * x3)) == x3 * (x5 * (x10 * x14))) by (nonlinear_arith);
    assert(x10 * (x13 * (x2 * x7)) == x2 * (x7 * (x10 * x13))) by (nonlinear_arith);
    assert(x10 * (x13 * (x6 * x3)) == x3 * (x6 * (x10 * x13))) by (nonlinear_arith);
    assert(x14 * (x1 * (x6 * x11)) == x1 * (x6 * (x11 * x14))) by (nonlinear_arith);
    assert(x14 * (x1 * (x10 * x7)) == x1 * (x7 * (x10 * x14))) by (nonlinear_arith);
    assert(x14 * (x5 * (x2 * x11)) == x2 * (x5 * (x11 * x14))) by (nonlinear_arith);
    assert(x14 * (x5 * (x10 * x3)) == x3 * (x5 * (x10 * x14))) by (nonlinear_arith);
    assert(x14 * (x9 * (x2 * x7)) == x2 * (x7 * (x9 * x14))) by (nonlinear_arith);
    assert(x14 * (x9 * (x6 * x3)) == x3 * (x6 * (x9 * x14))) by (nonlinear_arith);
}

/// Cell (2, 1) of the law taken from the other side.
proof fn lemma_matrix_adjoint_cell_2_1(m: Seq<i64>)
    requires
        m.len() == 16,
    ensures
        matrix_adjoint_cell(m, 2, 1) == 0,
{
    let (x0, x1, x2, x3) = (m[0] as int, m[1] as int, m[2] as int, m[3] as int);
    let (x4, x5, x6, x7) = (m[4] as int, m[5] as int, m[6] as int, m[7] as int);
    let (x8, x9, x10, x11) = (m[8] as int, m[9] as int, m[10] as int, m[11] as int);
    let (x12, x13, x14, x15) = (m[12] as int, m[13] as int, m[14] as int, m[15] as int);
    assert(spec_submatrix4(m, 1, 0) =~= seq![m[4], m[6], m[7], m[8], m[10], m[11], m[12], m[14], m[15]]);
    assert(spec_minor4(m, 1, 0) == x4 * (x10 * x15 - x14 * x11) - x8 * (x6 * x15 - x14 * x7) + x12 * (x6 * x11 - x10 * x7));
    assert(spec_submatrix4(m, 1, 1) =~= seq![m[0], m[2], m[3], m[8], m[10], m[11], m[12], m[14], m[15]]);
    assert(spec_minor4(m, 1, 1) == x0 * (x10 * x15 - x14 * x11) - x8 * (x2 * x15 - x14 * x3) + x12 * (x2 * x11 - x10 * x3));
    assert(spec_submatrix4(m, 1, 2) =~= seq![m[0], m[2], m[3], m[4], m[6], m[7], m[12], m[14], m[15]]);
    assert(spec_minor4(m, 1, 2) == x0 * (x6 * x15 - x14 * x7) - x4 * (x2 * x15 - x14 * x3) + x12 * (x2 * x7 - x6 * x3));
    assert(spec_submatrix4(m, 1, 3) =~= seq![m[0], m[2], m[3], m[4], m[6], m[7], m[8], m[10], m[11]]);
    assert(spec_minor4(m, 1, 3) == x0 * (x6 * x11 - x10 * x7) - x4 * (x2 * x11 - x10 * x3) + x8 * (x2 * x7 - x6 * x3));
    lemma_expand_minor_product(x2, x4, x6, x7, x8, x10, x11, x12, x14, x15);
    lemma_mul_comm(x2, spec_cofactor4(m, 1, 0));
    lemma_mul_neg(spec_minor4(m, 1, 0), x2);
    lemma_expand_minor_product(x6, x0, x2, x3, x8, x10, x11, x12, x14, x15);
    lemma_mul_comm(x6, spec_cofactor4(m, 1, 1));
    lemma_expand_minor_product(x10, x0, x2, x3, x4, x6, x7, x12, x14, x15);
    lemma_mul_comm(x10, spec_cofactor4(m, 1, 2));
    lemma_mul_neg(spec_minor4(m, 1, 2), x10);
    lemma_expand_minor_product(x14, x0, x2, x3, x4, x6, x7, x8, x10, x11);
    lemma_mul_comm(x14, spec_cofactor4(m, 1, 3));
    assert(x2 * (x4 * (x14 * x11)) == x2 * (x4 * (x11 * x14))) by (nonlinear_arith);
    assert(x2 * (x8 * (x6 * x15)) == x2 * (x6 * (x8 * x15))) by (nonlinear_arith);
    assert(x2 * (x8 * (x14 * x7)) == x2 * (x7 * (x8 * x14))) by (nonlinear_arith);
    assert(x2 * (x12 * (x6 * x11)) == x2 * (x6 * (x11 * x12))) by (nonlinear_arith);
    assert(x2 * (x12 * (x10 * x7)) == x2 * (x7 * (x10 * x12))) by (nonlinear_arith);
    assert(x6 * (x0 * (x10 * x15)) == x0 * (x6 * (x10 * x15))) by (nonlinear_arith);
    assert(x6 * (x0 * (x14 * x11)) == x0 * (x6 * (x11 * x14))) by (nonlinear_arith);
    assert(x6 * (x8 * (x2 * x15)) == x2 * (x6 * (x8 * x15))) by (nonlinear_arith);
    assert(x6 * (x8 * (x14 * x3)) == x3 * (x6 * (x8 * x14))) by (nonlinear_arith);
    assert(x6 * (x12 * (x2 * x11)) == x2 * (x6 * (x11 * x12))) by (nonlinear_arith);
    assert(x6 * (x12 * (x10 * x3)) == x3 * (x6 * (x10 * x12))) by (nonlinear_arith);
    assert(x10 * (x0 * (x6 * x15)) == x0 * (x6 * (x10 * x15))) by (nonlinear_arith);
    assert(x10 * (x0 * (x14 * x7)) == x0 * (x7 * (x10 * x14))) by (nonlinear_arith);
    assert(x10 * (x4 * (x2 * x15)) == x2 * (x4 * (x10 * x15))) by (nonlinear_arith);
    assert(x10 * (x4 * (x14 * x3)) == x3 * (x4 * (x10 * x14))) by (nonlinear_arith);
    assert(x10 * (x12 * (x2 * x7)) == x2 * (x7 * (x10 * x12))) by (nonlinear_arith);
    assert(x10 * (x12 * (x6 * x3)) == x3 * (x6 * (x10 * x12))) by (nonlinear_arith);
    assert(x14 * (x0 * (x6 * x11)) == x0 * (x6 * (x11 * x14))) by (nonlinear_arith);
    assert(x14 * (x0 * (x10 * x7)) == x0 * (x7 * (x10 * x14))) by (nonlinear_arith);
    assert(x14 * (x4 * (x2 * x11)) == x2 * (x4 * (x11 * x14))) by (nonlinear_arith);
    assert(x14 * (x4 * (x10 * x3)) == x3 * (x4 * (x10 * x14))) by (nonlinear_arith);
    assert(x14 * (x8 * (x2 * x7)) == x2 * (x7 * (x8 * x14))) by (nonlinear_arith);
    assert(x14 * (x8 * (x6 * x3)) == x3 * (x6 * (x8 * x14))) by (nonlinear_arith);
}

/// Cell (2, 2) of the law taken from the other side.
proof fn lemma_matrix_adjoint_cell_2_2(m: Seq<i64>)
    requires
        m.len() == 16,
    ensures
        matrix_adjoint_cell(m, 2, 2) == spec_det4(m),
{
    let (x0, x1, x2, x3) = (m[0] as int, m[1] as int, m[2] as int, m[3] as int);
    let (x4, x5, x6, x7) = (m[4] as int, m[5] as int, m[6] as int, m[7] as int);
    let (x8, x9, x10, x11) = (m[8] as int, m[9] as int, m[10] as int, m[11] as int);
    let (x12, x13, x14, x15) = (m[12] as int, m[13] as int, m[14] as int, m[15] as int);
    assert(spec_submatrix4(m, 2, 0) =~= seq![m[4], m[5], m[7], m[8], m[9], m[11], m[12], m[13], m[15]]);
    assert(spec_minor4(m, 2, 0) == x4 * (x9 * x15 - x13 * x11) - x8 * (x5 * x15 - x13 * x7) + x12 * (x5 * x11 - x9 * x7));
    assert(spec_submatrix4(m, 2, 1) =~= seq![m[0], m[1], m[3], m[8], m[9], m[11], m[12], m[13], m[15]]);
    assert(spec_minor4(m, 2, 1) == x0 * (x9 * x15 - x13 * x11) - x8 * (x1 * x15 - x13 * x3) + x12 * (x1 * x11 - x9 * x3));
    assert(spec_submatrix4(m, 2, 2) =~= seq![m[0], m[1], m[3], m[4], m[5], m[7], m[12], m[13], m[15]]);
    assert(spec_minor4(m, 2, 2) == x0 * (x5 * x15 - x13 * x7) - x4 * (x1 * x15 - x13 * x3) + x12 * (x1 * x7 - x5 * x3));
    assert(spec_submatrix4(m, 2, 3) =~= seq![m[0], m[1], m[3], m[4], m[5], m[7], m[8], m[9], m[11]]);
    assert(spec_minor4(m, 2, 3) == x0 * (x5 * x11 - x9 * x7) - x4 * (x1 * x11 - x9 * x3) + x8 * (x1 * x7 - x5 * x3));
    lemma_expand_minor_product(x2, x4, x5, x7, x8, x9, x11, x12, x13, x15);
    lemma_mul_comm(x2, spec_cofactor4(m, 2, 0));
    lemma_expand_minor_product(x6, x0, x1, x3, x8, x9, x11, x12, x13, x15);
    lemma_mul_comm(x6, spec_cofactor4(m, 2, 1));
    lemma_mul_neg(spec_minor4(m, 2, 1), x6);
    lemma_expand_minor_product(x10, x0, x1, x3, x4, x5, x7, x12, x13, x15);
    lemma_mul_comm(x10, spec_cofactor4(m, 2, 2));
    lemma_expand_minor_product(x14, x0, x1, x3, x4, x5, x7, x8, x9, x11);
    lemma_mul_comm(x14, spec_cofactor4(m, 2, 3));
    lemma_mul_neg(spec_minor4(m, 2, 3), x14);
    assert(x2 * (x4 * (x13 * x11)) == x2 * (x4 * (x11 * x13))) by (nonlinear_arith);
    assert(x2 * (x8 * (x5 * x15)) == x2 * (x5 * (x8 * x15))) by (nonlinear_arith);
    assert(x2 * (x8 * (x13 * x7)) == x2 * (x7 * (x8 * x13))) by (nonlinear_arith);
    assert(x2 * (x12 * (x5 * x11)) == x2 * (x5 * (x11 * x12))) by (nonlinear_arith);
    assert(x2 * (x12 * (x9 * x7)) == x2 * (x7 * (x9 * x12))) by (nonlinear_arith);
    assert(x6 * (x0 * (x9 * x15)) == x0 * (x6 * (x9 * x15))) by (nonlinear_arith);
    assert(x6 * (x0 * (x13 * x11)) == x0 * (x6 * (x11 * x13))) by (nonlinear_arith);
    assert(x6 * (x8 * (x1 * x15)) == x1 * (x6 * (x8 * x15))) by (nonlinear_arith);
    assert(x6 * (x8 * (x13 * x3)) == x3 * (x6 * (x8 * x13))) by (nonlinear_arith);
    assert(x6 * (x12 * (x1 * x11)) == x1 * (x6 * (x11 * x12))) by (nonlinear_arith);
    assert(x6 * (x12 * (x9 * x3)) == x3 * (x6 * (x9 * x12))) by (nonlinear_arith);
    assert(x10 * (x0 * (x5 * x15)) == x0 * (x5 * (x10 * x15))) by (nonlinear_arith);
    assert(x10 * (x0 * (x13 * x7)) == x0 * (x7 * (x10 * x13))) by (nonlinear_arith);
    assert(x10 * (x4 * (x1 * x15)) == x1 * (x4 * (x10 * x15))) by (nonlinear_arith);
    assert(x10 * (x4 * (x13 * x3)) == x3 * (x4 * (x10 * x13))) by (nonlinear_arith);
    assert(x10 * (x12 * (x1 * x7)) == x1 * (x7 * (x10 * x12))) by (nonlinear_arith);
    assert(x10 * (x12 * (x5 * x3)) == x3 * (x5 * (x10 * x12))) by (nonlinear_arith);
    assert(x14 * (x0 * (x5 * x11)) == x0 * (x5 * (x11 * x14))) by (nonlinear_arith);
    assert(x14 * (x0 * (x9 * x7)) == x0 * (x7 * (x9 * x14))) by (nonlinear_arith);
    assert(x14 * (x4 * (x1 * x11)) == x1 * (x4 * (x11 * x14))) by (nonlinear_arith);
    assert(x14 * (x4 * (x9 * x3)) == x3 * (x4 * (x9 * x14))) by (nonlinear_arith);
    assert(x14 * (x8 * (x1 * x7)) == x1 * (x7 * (x8 * x14))) by (nonlinear_arith);
    assert(x14 * (x8 * (x5 * x3)) == x3 * (x5 * (x8 * x14))) by (nonlinear_arith);
    lemma_det4_expanded(m);
}

/// Cell (2, 3) of the law taken from the other side.
proof fn lemma_matrix_adjoint_cell_2_3(m: Seq<i64>)
    requires
        m.len() == 16,
    ensures
        matrix_adjoint_cell(m, 2, 3) == 0,
{
    let (x0, x1, x2, x3) = (m[0] as int, m[1] as int, m[2] as int, m[3] as int);
    let (x4, x5, x6, x7) = (m[4] as int, m[5] as int, m[6] as int, m[7] as int);
    let (x8, x9, x10, x11) = (m[8] as int, m[9] as int, m[10] as int, m[11] as int);
    let (x12, x13, x14, x15) = (m[12] as int, m[13] as int, m[14] as int, m[15] as int);
    assert(spec_submatrix4(m, 3, 0) =~= seq![m[4], m[5], m[6], m[8], m[9], m[10], m[12], m[13], m[14]]);
    assert(spec_minor4(m, 3, 0) == x4 * (x9 * x14 - x13 * x10) - x8 * (x5 * x14 - x13 * x6) + x12 * (x5 * x10 - x9 * x6));
    assert(spec_submatrix4(m, 3, 1) =~= seq![m[0], m[1], m[2], m[8], m[9], m[10], m[12], m[13], m[14]]);
    assert(spec_minor4(m, 3, 1) == x0 * (x9 * x14 - x13 * x10) - x8 * (x1 * x14 - x13 * x2) + x12 * (x1 * x10 - x9 * x2));
    assert(spec_submatrix4(m, 3, 2) =~= seq![m[0], m[1], m[2], m[4], m[5], m[6], m[12], m[13], m[14]]);
    assert(spec_minor4(m, 3, 2) == x0 * (x5 * x14 - x13 * x6) - x4 * (x1 * x14 - x13 * x2) + x12 * (x1 * x6 - x5 * x2));
    assert(spec_submatrix4(m, 3, 3) =~= seq![m[0], m[1], m[2], m[4], m[5], m[6], m[8], m[9], m[10]]);
    assert(spec_minor4(m, 3, 3) == x0 * (x5 * x10 - x9 * x6) - x4 * (x1 * x10 - x9 * x2) + x8 * (x1 * x6 - x5 * x2));
    lemma_expand_minor_product(x2, x4, x5, x6, x8, x9, x10, x12, x13, x14);
    lemma_mul_comm(x2, spec_cofactor4(m, 3, 0));
    lemma_mul_neg(spec_minor4(m, 3, 0), x2);
    lemma_expand_minor_product(x6, x0, x1, x2, x8, x9, x10, x12, x13, x14);
    lemma_mul_comm(x6, spec_cofactor4(m, 3, 1));
    lemma_expand_minor_product(x10, x0, x1, x2, x4, x5, x6, x12, x13, x14);
    lemma_mul_comm(x10, spec_cofactor4(m, 3, 2));
    lemma_mul_neg(spec_minor4(m, 3, 2), x10);
    lemma_expand_minor_product(x14, x0, x1, x2, x4, x5, x6, x8, x9, x10);
    lemma_mul_comm(x14, spec_cofactor4(m, 3, 3));
    assert(x2 * (x4 * (x13 * x10)) == x2 * (x4 * (x10 * x13))) by (nonlinear_arith);
    assert(x2 * (x8 * (x5 * x14)) == x2 * (x5 * (x8 * x14))) by (nonlinear_arith);
    assert(x2 * (x8 * (x13 * x6)) == x2 * (x6 * (x8 * x13))) by (nonlinear_arith);
    assert(x2 * (x12 * (x5 * x10)) == x2 * (x5 * (x10 * x12))) by (nonlinear_arith);
    assert(x2 * (x12 * (x9 * x6)) == x2 * (x6 * (x9 * x12))) by (nonlinear_arith);
    assert(x6 * (x0 * (x9 * x14)) == x0 * (x6 * (x9 * x14))) by (nonlinear_arith);
    assert(x6 * (x0 * (x13 * x10)) == x0 * (x6 * (x10 * x13))) by (nonlinear_arith);
    assert(x6 * (x8 * (x1 * x14)) == x1 * (x6 * (x8 * x14))) by (nonlinear_arith);
    assert(x6 * (x8 * (x13 * x2)) == x2 * (x6 * (x8 * x13))) by (nonlinear_arith);
    assert(x6 * (x12 * (x1 * x10)) == x1 * (x6 * (x10 * x12))) by (nonlinear_arith);
    assert(x6 * (x12 * (x9 * x2)) == x2 * (x6 * (x9 * x12))) by (nonlinear_arith);
    assert(x10 * (x0 * (x5 * x14)) == x0 * (x5 * (x10 * x14))) by (nonlinear_arith);
    assert(x10 * (x0 * (x13 * x6)) == x0 * (x6 * (x10 * x13))) by (nonlinear_arith);
    assert(x10 * (x4 * (x1 * x14)) == x1 * (x4 * (x10 * x14))) by (nonlinear_arith);
    assert(x10 * (x4 * (x13 * x2)) == x2 * (x4 * (x10 * x13))) by (nonlinear_arith);
    assert(x10 * (x12 * (x1 * x6)) == x1 * (x6 * (x10 * x12))) by (nonlinear_arith);
    assert(x10 * (x12 * (x5 * x2)) == x2 * (x5 * (x10 * x12))) by (nonlinear_arith);
    assert(x14 * (x0 * (x5 * x10)) == x0 * (x5 * (x10 * x14))) by (nonlinear_arith);
    assert(x14 * (x0 * (x9 * x6)) == x0 * (x6 * (x9 * x14))) by (nonlinear_arith);
    assert(x14 * (x4 * (x1 * x10)) == x1 * (x4 * (x10 * x14))) by (nonlinear_arith);
    assert(x14 * (x4 * (x9 * x2)) == x2 * (x4 * (x9 * x14))) by (nonlinear_arith);
    assert(x14 * (x8 * (x1 * x6)) == x1 * (x6 * (x8 * x14))) by (nonlinear_arith);
    assert(x14 * (x8 * (x5 * x2)) == x2 * (x5 * (x8 * x14))) by (nonlinear_arith);
}

/// Cell (3, 0) of the law taken from the other side.
proof fn lemma_matrix_adjoint_cell_3_0(m: Seq<i64>)
    requires
        m.len() == 16,
    ensures
        matrix_adjoint_cell(m, 3, 0) == 0,
{
    let (x0, x1, x2, x3) = (m[0] as int, m[1] as int, m[2] as int, m[3] as int);
    let (x4, x5, x6, x7) = (m[4] as int, m[5] as int, m[6] as int, m[7] as int);
    let (x8, x9, x10, x11) = (m[8] as int, m[9] as int, m[10] as int, m[11] as int);
    let (x12, x13, x14, x15) = (m[12] as int, m[13] as int, m[14] as int, m[15] as int);
    assert(spec_submatrix4(m, 0, 0) =~= seq![m[5], m[6], m[7], m[9], m[10], m[11], m[13], m[14], m[15]]);
    assert(spec_minor4(m, 0, 0) == x5 * (x10 * x15 - x14 * x11) - x9 * (x6 * x15 - x14 * x7) + x13 * (x6 * x11 - x10 * x7));
    assert(spec_submatrix4(m, 0, 1) =~= seq![m[1], m[2], m[3], m[9], m[10], m[11], m[13], m[14], m[15]]);
    assert(spec_minor4(m, 0, 1) == x1 * (x10 * x15 - x14 * x11) - x9 * (x2 * x15 - x14 * x3) + x13 * (x2 * x11 - x10 * x3));
    assert(spec_submatrix4(m, 0, 2) =~= seq![m[1], m[2], m[3], m[5], m[6], m[7], m[13], m[14], m[15]]);
    assert(spec_minor4(m, 0, 2) == x1 * (x6 * x15 - x14 * x7) - x5 * (x2 * x15 - x14 * x3) + x13 * (x2 * x7 - x6 * x3));
    assert(spec_submatrix4(m, 0, 3) =~= seq![m[1], m[2], m[3], m[5], m[6], m[7], m[9], m[10], m[11]]);
    assert(spec_minor4(m, 0, 3) == x1 * (x6 * x11 - x10 * x7) - x5 * (x2 * x11 - x10 * x3) + x9 * (x2 * x7 - x6 * x3));
    lemma_expand_minor_product(x3, x5, x6, x7, x9, x10, x11, x13, x14, x15);
    lemma_mul_comm(x3, spec_cofactor4(m, 0, 0));
    lemma_expand_minor_product(x7, x1, x2, x3, x9, x10, x11, x13, x14, x15);
    lemma_mul_comm(x7, spec_cofactor4(m, 0, 1));
    lemma_mul_neg(spec_minor4(m, 0, 1), x7);
    lemma_expand_minor_product(x11, x1, x2, x3, x5, x6, x7, x13, x14, x15);
    lemma_mul_comm(x11, spec_cofactor4(m, 0, 2));
    lemma_expand_minor_product(x15, x1, x2, x3, x5, x6, x7, x9, x10, x11);
    lemma_mul_comm(x15, spec_cofactor4(m, 0, 3));
    lemma_mul_neg(spec_minor4(m, 0, 3), x15);
    assert(x3 * (x5 * (x14 * x11)) == x3 * (x5 * (x11 * x14))) by (nonlinear_arith);
    assert(x3 * (x9 * (x6 * x15)) == x3 * (x6 * (x9 * x15))) by (nonlinear_arith);
    assert(x3 * (x9 * (x14 * x7)) == x3 * (x7 * (x9 * x14))) by (nonlinear_arith);
    assert(x3 * (x13 * (x6 * x11)) == x3 * (x6 * (x11 * x13))) by (nonlinear_arith);
    assert(x3 * (x13 * (x10 * x7)) == x3 * (x7 * (x10 * x13))) by (nonlinear_arith);
    assert(x7 * (x1 * (x10 * x15)) == x1 * (x7 * (x10 * x15))) by (nonlinear_arith);
    assert(x7 * (x1 * (x14 * x11)) == x1 * (x7 * (x11 * x14))) by (nonlinear_arith);
    assert(x7 * (x9 * (x2 * x15)) == x2 * (x7 * (x9 * x15))) by (nonlinear_arith);
    assert(x7 * (x9 * (x14 * x3)) == x3 * (x7 * (x9 * x14))) by (nonlinear_arith);
    assert(x7 * (x13 * (x2 * x11)) == x2 * (x7 * (x11 * x13))) by (nonlinear_arith);
    assert(x7 * (x13 * (x10 * x3)) == x3 * (x7 * (x10 * x13))) by (nonlinear_arith);
    assert(x11 * (x1 * (x6 * x15)) == x1 * (x6 * (x11 * x15))) by (nonlinear_arith);
    assert(x11 * (x1 * (x14 * x7)) == x1 * (x7 * (x11 * x14))) by (nonlinear_arith);
    assert(x11 * (x5 * (x2 * x15)) == x2 * (x5 * (x11 * x15))) by (nonlinear_arith);
    assert(x11 * (x5 * (x14 * x3)) == x3 * (x5 * (x11 * x14))) by (nonlinear_arith);
    assert(x11 * (x13 * (x2 * x7)) == x2 * (x7 * (x11 * x13))) by (nonlinear_arith);
    assert(x11 * (x13 * (x6 * x3)) == x3 * (x6 * (x11 * x13))) by (nonlinear_arith);
    assert(x15 * (x1 * (x6 * x11)) == x1 * (x6 * (x11 * x15))) by (nonlinear_arith);
    assert(x15 * (x1 * (x10 * x7)) == x1 * (x7 * (x10 * x15))) by (nonlinear_arith);
    assert(x15 * (x5 * (x2 * x11)) == x2 * (x5 * (x11 * x15))) by (nonlinear_arith);
    assert(x15 * (x5 * (x10 * x3)) == x3 * (x5 * (x10 * x15))) by (nonlinear_arith);
    assert(x15 * (x9 * (x2 * x7)) == x2 * (x7 * (x9 * x15))) by (nonlinear_arith);
    assert(x15 * (x9 * (x6 * x3)) == x3 * (x6 * (x9 * x15))) by (nonlinear_arith);
}

/// Cell (3, 1) of the law taken from the other side.
proof fn lemma_matrix_adjoint_cell_3_1(m: Seq<i64>)
    requires
        m.len() == 16,
    ensures
        matrix_adjoint_cell(m, 3, 1) == 0,
{
    let (x0, x1, x2, x3) = (m[0] as int, m[1] as int, m[2] as int, m[3] as int);
    let (x4, x5, x6, x7) = (m[4] as int, m[5] as int, m[6] as int, m[7] as int);
    let (x8, x9, x10, x11) = (m[8] as int, m[9] as int, m[10] as int, m[11] as int);
    let (x12, x13, x14, x15) = (m[12] as int, m[13] as int, m[14] as int, m[15] as int);
    assert(spec_submatrix4(m, 1, 0) =~= seq![m[4], m[6], m[7], m[8], m[10], m[11], m[12], m[14], m[15]]);
    assert(spec_minor4(m, 1, 0) == x4 * (x10 * x15 - x14 * x11) - x8 * (x6 * x15 - x14 * x7) + x12 * (x6 * x11 - x10 * x7));
    assert(spec_submatrix4(m, 1, 1) =~= seq![m[0], m[2], m[3], m[8], m[10], m[11], m[12], m[14], m[15]]);
    assert(spec_minor4(m, 1, 1) == x0 * (x10 * x15 - x14 * x11) - x8 * (x2 * x15 - x14 * x3) + x12 * (x2 * x11 - x10 * x3));
    assert(spec_submatrix4(m, 1, 2) =~= seq![m[0], m[2], m[3], m[4], m[6], m[7], m[12], m[14], m[15]]);
    assert(spec_minor4(m, 1, 2) == x0 * (x6 * x15 - x14 * x7) - x4 * (x2 * x15 - x14 * x3) + x12 * (x2 * x7 - x6 * x3));
    assert(spec_submatrix4(m, 1, 3) =~= seq![m[0], m[2], m[3], m[4], m[6], m[7], m[8], m[10], m[11]]);
    assert(spec_minor4(m, 1, 3) == x0 * (x6 * x11 - x10 * x7) - x4 * (x2 * x11 - x10 * x3) + x8 * (x2 * x7 - x6 * x3));
    lemma_expand_minor_product(x3, x4, x6, x7, x8, x10, x11, x12, x14, x15);
    lemma_mul_comm(x3, spec_cofactor4(m, 1, 0));
    lemma_mul_neg(spec_minor4(m, 1, 0), x3);
    lemma_expand_minor_product(x7, x0, x2, x3, x8, x10, x11, x12, x14, x15);
    lemma_mul_comm(x7, spec_cofactor4(m, 1, 1));
    lemma_expand_minor_product(x11, x0, x2, x3, x4, x6, x7, x12, x14, x15);
    lemma_mul_comm(x11, spec_cofactor4(m, 1, 2));
    lemma_mul_neg(spec_minor4(m, 1, 2), x11);
    lemma_expand_minor_product(x15, x0, x2, x3, x4, x6, x7, x8, x10, x11);
    lemma_mul_comm(x15, spec_cofactor4(m, 1, 3));
    assert(x3 * (x4 * (x14 * x11)) == x3 * (x4 * (x11 * x14))) by (nonlinear_arith);
    assert(x3 * (x8 * (x6 * x15)) == x3 * (x6 * (x8 * x15))) by (nonlinear_arith);
    assert(x3 * (x8 * (x14 * x7)) == x3 * (x7 * (x8 * x14))) by (nonlinear_arith);
    assert(x3 * (x12 * (x6 * x11)) == x3 * (x6 * (x11 * x12))) by (nonlinear_arith);
    assert(x3 * (x12 * (x10 * x7)) == x3 * (x7 * (x10 * x12))) by (nonlinear_arith);
    assert(x7 * (x0 * (x10 * x15)) == x0 * (x7 * (x10 * x15))) by (nonlinear_arith);
    assert(x7 * (x0 * (x14 * x11)) == x0 * (x7 * (x11 * x14))) by (nonlinear_arith);
    assert(x7 * (x8 * (x2 * x15)) == x2 * (x7 * (x8 * x15))) by (nonlinear_arith);
    assert(x7 * (x8 * (x14 * x3)) == x3 * (x7 * (x8 * x14))) by (nonlinear_arith);
    assert(x7 * (x12 * (x2 * x11)) == x2 * (x7 * (x11 * x12))) by (nonlinear_arith);
    assert(x7 * (x12 * (x10 * x3)) == x3 * (x7 * (x10 * x12))) by (nonlinear_arith);
    assert(x11 * (x0 * (x6 * x15)) == x0 * (x6 * (x11 * x15))) by (nonlinear_arith);
    assert(x11 * (x0 * (x14 * x7)) == x0 * (x7 * (x11 * x14))) by (nonlinear_arith);
    assert(x11 * (x4 * (x2 * x15)) == x2 * (x4 * (x11 * x15))) by (nonlinear_arith);
    assert(x11 * (x4 * (x14 * x3)) == x3 * (x4 * (x11 * x14))) by (nonlinear_arith);
    assert(x11 * (x12 * (x2 * x7)) == x2 * (x7 * (x11 * x12))) by (nonlinear_arith);
    assert(x11 * (x12 * (x6 * x3)) == x3 * (x6 * (x11 * x12))) by (nonlinear_arith);
    assert(x15 * (x0 * (x6 * x11)) == x0 * (x6 * (x11 * x15))) by (nonlinear_arith);
    assert(x15 * (x0 * (x10 * x7)) == x0 * (x7 * (x10 * x15))) by (nonlinear_arith);
    assert(x15 * (x4 * (x2 * x11)) == x2 * (x4 * (x11 * x15))) by (nonlinear_arith);
    assert(x15 * (x4 * (x10 * x3)) == x3 * (x4 * (x10 * x15))) by (nonlinear_arith);
    assert(x15 * (x8 * (x2 * x7)) == x2 * (x7 * (x8 * x15))) by (nonlinear_arith);
    assert(x15 * (x8 * (x6 * x3)) == x3 * (x6 * (x8 * x15))) by (nonlinear_arith);
}

/// Cell (3, 2) of the law taken from the other side.
proof fn lemma_matrix_adjoint_cell_3_2(m: Seq<i64>)
    requires
        m.len() == 16,
    ensures
        matrix_adjoint_cell(m, 3, 2) == 0,
{
    let (x0, x1, x2, x3) = (m[0] as int, m[1] as int, m[2] as int, m[3] as int);
    let (x4, x5, x6, x7) = (m[4] as int, m[5] as int, m[6] as int, m[7] as int);
    let (x8, x9, x10, x11) = (m[8] as int, m[9] as int, m[10] as int, m[11] as int);
    let (x12, x13, x14, x15) = (m[12] as int, m[13] as int, m[14] as int, m[15] as int);
    assert(spec_submatrix4(m, 2, 0) =~= seq![m[4], m[5], m[7], m[8], m[9], m[11], m[12], m[13], m[15]]);
    assert(spec_minor4(m, 2, 0) == x4 * (x9 * x15 - x13 * x11) - x8 * (x5 * x15 - x13 * x7) + x12 * (x5 * x11 - x9 * x7));
    assert(spec_submatrix4(m, 2, 1) =~= seq![m[0], m[1], m[3], m[8], m[9], m[11], m[12], m[13], m[15]]);
    assert(spec_minor4(m, 2, 1) == x0 * (x9 * x15 - x13 * x11) - x8 * (x1 * x15 - x13 * x3) + x12 * (x1 * x11 - x9 * x3));
    assert(spec_submatrix4(m, 2, 2) =~= seq![m[0], m[1], m[3], m[4], m[5], m[7], m[12], m[13], m[15]]);
    assert(spec_minor4(m, 2, 2) == x0 * (x5 * x15 - x13 * x7) - x4 * (x1 * x15 - x13 * x3) + x12 * (x1 * x7 - x5 * x3));
    assert(spec_submatrix4(m, 2, 3) =~= seq![m[0], m[1], m[3], m[4], m[5], m[7], m[8], m[9], m[11]]);
    assert(spec_minor4(m, 2, 3) == x0 * (x5 * x11 - x9 * x7) - x4 * (x1 * x11 - x9 * x3) + x8 * (x1 * x7 - x5 * x3));
    lemma_expand_minor_product(x3, x4, x5, x7, x8, x9, x11, x12, x13, x15);
    lemma_mul_comm(x3, spec_cofactor4(m, 2, 0));
    lemma_expand_minor_product(x7, x0, x1, x3, x8, x9, x11, x12, x13, x15);
    lemma_mul_comm(x7, spec_cofactor4(m, 2, 1));
    lemma_mul_neg(spec_minor4(m, 2, 1), x7);
    lemma_expand_minor_product(x11, x0, x1, x3, x4, x5, x7, x12, x13, x15);
    lemma_mul_comm(x11, spec_cofactor4(m, 2, 2));
    lemma_expand_minor_product(x15, x0, x1, x3, x4, x5, x7, x8, x9, x11);
    lemma_mul_comm(x15, spec_cofactor4(m, 2, 3));
    lemma_mul_neg(spec_minor4(m, 2, 3), x15);
    assert(x3 * (x4 * (x13 * x11)) == x3 * (x4 * (x11 * x13))) by (nonlinear_arith);
    assert(x3 * (x8 * (x5 * x15)) == x3 * (x5 * (x8 * x15))) by (nonlinear_arith);
    assert(x3 * (x8 * (x13 * x7)) == x3 * (x7 * (x8 * x13))) by (nonlinear_arith);
    assert(x3 * (x12 * (x5 * x11)) == x3 * (x5 * (x11 * x12))) by (nonlinear_arith);
    assert(x3 * (x12 * (x9 * x7)) == x3 * (x7 * (x9 * x12))) by (nonlinear_arith);
    assert(x7 * (x0 * (x9 * x15)) == x0 * (x7 * (x9 * x15))) by (nonlinear_arith);
    assert(x7 * (x0 * (x13 * x11)) == x0 * (x7 * (x11 * x13))) by (nonlinear_arith);
    assert(x7 * (x8 * (x1 * x15)) == x1 * (x7 * (x8 * x15))) by (nonlinear_arith);
    assert(x7 * (x8 * (x13 * x3)) == x3 * (x7 * (x8 * x13))) by (nonlinear_arith);
    assert(x7 * (x12 * (x1 * x11)) == x1 * (x7 * (x11 * x12))) by (nonlinear_arith);
    assert(x7 * (x12 * (x9 * x3)) == x3 * (x7 * (x9 * x12))) by (nonlinear_arith);
    assert(x11 * (x0 * (x5 * x15)) == x0 * (x5 * (x11 * x15))) by (nonlinear_arith);
    assert(x11 * (x0 * (x13 * x7)) == x0 * (x7 * (x11 * x13))) by (nonlinear_arith);
    assert(x11 * (x4 * (x1 * x15)) == x1 * (x4 * (x11 * x15))) by (nonlinear_arith);
    assert(x11 * (x4 * (x13 * x3)) == x3 * (x4 * (x11 * x13))) by (nonlinear_arith);
    assert(x11 * (x12 * (x1 * x7)) == x1 * (x7 * (x11 * x12))) by (nonlinear_arith);
    assert(x11 * (x12 * (x5 * x3)) == x3 * (x5 * (x11 * x12))) by (nonlinear_arith);
    assert(x15 * (x0 * (x5 * x11)) == x0 * (x5 * (x11 * x15))) by (nonlinear_arith);
    assert(x15 * (x0 * (x9 * x7)) == x0 * (x7 * (x9 * x15))) by (nonlinear_arith);
    assert(x15 * (x4 * (x1 * x11)) == x1 * (x4 * (x11 * x15))) by (nonlinear_arith);
    assert(x15 * (x4 * (x9 * x3)) == x3 * (x4 * (x9 * x15))) by (nonlinear_arith);
    assert(x15 * (x8 * (x1 * x7)) == x1 * (x7 * (x8 * x15))) by (nonlinear_arith);
    assert(x15 * (x8 * (x5 * x3)) == x3 * (x5 * (x8 * x15))) by (nonlinear_arith);
}

/// Cell (3, 3) of the law taken from the other side.
proof fn lemma_matrix_adjoint_cell_3_3(m: Seq<i64>)
    requires
        m.len() == 16,
    ensures
        matrix_adjoint_cell(m, 3, 3) == spec_det4(m),
{
    let (x0, x1, x2, x3) = (m[0] as int, m[1] as int, m[2] as int, m[3] as int);
    let (x4, x5, x6, x7) = (m[4] as int, m[5] as int, m[6] as int, m[7] as int);
    let (x8, x9, x10, x11) = (m[8] as int, m[9] as int, m[10] as int, m[11] as int);
    let (x12, x13, x14, x15) = (m[12] as int, m[13] as int, m[14] as int, m[15] as int);
    assert(spec_submatrix4(m, 3, 0) =~= seq![m[4], m[5], m[6], m[8], m[9], m[10], m[12], m[13], m[14]]);
    assert(spec_minor4(m, 3, 0) == x4 * (x9 * x14 - x13 * x10) - x8 * (x5 * x14 - x13 * x6) + x12 * (x5 * x10 - x9 * x6));
    assert(spec_submatrix4(m, 3, 1) =~= seq![m[0], m[1], m[2], m[8], m[9], m[10], m[12], m[13], m[14]]);
    assert(spec_minor4(m, 3, 1) == x0 * (x9 * x14 - x13 * x10) - x8 * (x1 * x14 - x13 * x2) + x12 * (x1 * x10 - x9 * x2));
    assert(spec_submatrix4(m, 3, 2) =~= seq![m[0], m[1], m[2], m[4], m[5], m[6], m[12], m[13], m[14]]);
    assert(spec_minor4(m, 3, 2) == x0 * (x5 * x14 - x13 * x6) - x4 * (x1 * x14 - x13 * x2) + x12 * (x1 * x6 - x5 * x2));
    assert(spec_submatrix4(m, 3, 3) =~= seq![m[0], m[1], m[2], m[4], m[5], m[6], m[8], m[9], m[10]]);
    assert(spec_minor4(m, 3, 3) == x0 * (x5 * x10 - x9 * x6) - x4 * (x1 * x10 - x9 * x2) + x8 * (x1 * x6 - x5 * x2));
    lemma_expand_minor_product(x3, x4, x5, x6, x8, x9, x10, x12, x13, x14);
    lemma_mul_comm(x3, spec_cofactor4(m, 3, 0));
    lemma_mul_neg(spec_minor4(m, 3, 0), x3);
    lemma_expand_minor_product(x7, x0, x1, x2, x8, x9, x10, x12, x13, x14);
    lemma_mul_comm(x7, spec_cofactor4(m, 3, 1));
    lemma_expand_minor_product(x11, x0, x1, x2, x4, x5, x6, x12, x13, x14);
    lemma_mul_comm(x11, spec_cofactor4(m, 3, 2));
    lemma_mul_neg(spec_minor4(m, 3, 2), x11);
    lemma_expand_minor_product(x15, x0, x1, x2, x4, x5, x6, x8, x9, x10);
    lemma_mul_comm(x15, spec_cofactor4(m, 3, 3));
    assert(x3 * (x4 * (x13 * x10)) == x3 * (x4 * (x10 * x13))) by (nonlinear_arith);
    assert(x3 * (x8 * (x5 * x14)) == x3 * (x5 * (x8 * x14))) by (nonlinear_arith);
    assert(x3 * (x8 * (x13 * x6)) == x3 * (x6 * (x8 * x13))) by (nonlinear_arith);
    assert(x3 * (x12 * (x5 * x10)) == x3 * (x5 * (x10 * x12))) by (nonlinear_arith);
    assert(x3 * (x12 * (x9 * x6)) == x3 * (x6 * (x9 * x12))) by (nonlinear_arith);
    assert(x7 * (x0 * (x9 * x14)) == x0 * (x7 * (x9 * x14))) by (nonlinear_arith);
    assert(x7 * (x0 * (x13 * x10)) == x0 * (x7 * (x10 * x13))) by (nonlinear_arith);
    assert(x7 * (x8 * (x1 * x14)) == x1 * (x7 * (x8 * x14))) by (nonlinear_arith);
    assert(x7 * (x8 * (x13 * x2)) == x2 * (x7 * (x8 * x13))) by (nonlinear_arith);
    assert(x7 * (x12 * (x1 * x10)) == x1 * (x7 * (x10 * x12))) by (nonlinear_arith);
    assert(x7 * (x12 * (x9 * x2)) == x2 * (x7 * (x9 * x12))) by (nonlinear_arith);
    assert(x11 * (x0 * (x5 * x14)) == x0 * (x5 * (x11 * x14))) by (nonlinear_arith);
    assert(x11 * (x0 * (x13 * x6)) == x0 * (x6 * (x11 * x13))) by (nonlinear_arith);
    assert(x11 * (x4 * (x1 * x14)) == x1 * (x4 * (x11 * x14))) by (nonlinear_arith);
    assert(x11 * (x4 * (x13 * x2)) == x2 * (x4 * (x11 * x13))) by (nonlinear_arith);
    assert(x11 * (x12 * (x1 * x6)) == x1 * (x6 * (x11 * x12))) by (nonlinear_arith);
    assert(x11 * (x12 * (x5 * x2)) == x2 * (x5 * (x11 * x12))) by (nonlinear_arith);
    assert(x15 * (x0 * (x5 * x10)) == x0 * (x5 * (x10 * x15))) by (nonlinear_arith);
    assert(x15 * (x0 * (x9 * x6)) == x0 * (x6 * (x9 * x15))) by (nonlinear_arith);
    assert(x15 * (x4 * (x1 * x10)) == x1 * (x4 * (x10 * x15))) by (nonlinear_arith);
    assert(x15 * (x4 * (x9 * x2)) == x2 * (x4 * (x9 * x15))) by (nonlinear_arith);
    assert(x15 * (x8 * (x1 * x6)) == x1 * (x6 * (x8 * x15))) by (nonlinear_arith);
    assert(x15 * (x8 * (x5 * x2)) == x2 * (x5 * (x8 * x15))) by (nonlinear_arith);
    lemma_det4_expanded(m);
}

/// The adjugate law taken from the other side: each cell of the product
/// of `m` and its adjoint is the determinant on the diagonal and 0
/// elsewhere.
pub proof fn lemma_multiply_adjoint(m: Seq<i64>)
    requires
        m.len() == 16,
    ensures
        forall|r: int, c: int|
            0 <= r < 4 && 0 <= c < 4 ==> #[trigger] matrix_adjoint_cell(m, r, c)
                == if r == c {
                spec_det4(m)
            } else {
                0
            },
{
    assert forall|r: int, c: int| 0 <= r < 4 && 0 <= c < 4 implies
        #[trigger] matrix_adjoint_cell(m, r, c) == if r == c {
        spec_det4(m)
    } else {
        0
    } by {
        if r == 0 && c == 0 {
            lemma_matrix_adjoint_cell_0_0(m);
        }
        if r == 0 && c == 1 {
            lemma_matrix_adjoint_cell_0_1(m);
        }
        if r == 0 && c == 2 {
            lemma_matrix_adjoint_cell_0_2(m);
        }
        if r == 0 && c == 3 {
            lemma_matrix_adjoint_cell_0_3(m);
        }
        if r == 1 && c == 0 {
            lemma_matrix_adjoint_cell_1_0(m);
        }
        if r == 1 && c == 1 {
            lemma_matrix_adjoint_cell_1_1(m);
        }
        if r == 1 && c == 2 {
            lemma_matrix_adjoint_cell_1_2(m);
        }
        if r == 1 && c == 3 {
            lemma_matrix_adjoint_cell_1_3(m);
        }
        if r == 2 && c == 0 {
            lemma_matrix_adjoint_cell_2_0(m);
        }
        if r == 2 && c == 1 {
            lemma_matrix_adjoint_cell_2_1(m);
        }
        if r == 2 && c == 2 {
            lemma_matrix_adjoint_cell_2_2(m);
        }
        if r == 2 && c == 3 {
            lemma_matrix_adjoint_cell_2_3(m);
        }
        if r == 3 && c == 0 {
            lemma_matrix_adjoint_cell_3_0(m);
        }
        if r == 3 && c == 1 {
            lemma_matrix_adjoint_cell_3_1(m);
        }
        if r == 3 && c == 2 {
            lemma_matrix_adjoint_cell_3_2(m);
        }
        if r == 3 && c == 3 {
            lemma_matrix_adjoint_cell_3_3(m);
        }
    }
}

/// A 4 by 4 matrix with two equal columns has determinant 0: summing the
/// cofactors of one of the two columns against the other gives the
/// determinant and gives 0 at the same time.
pub proof fn lemma_det4_equal_columns(m: Seq<i64>, i: int, j: int)
    requires
        m.len() == 16,
        0 <= i < 4,
        0 <= j < 4,
        i != j,
        m[4 * i] == m[4 * j],
        m[4 * i + 1] == m[4 * j + 1],
        m[4 * i + 2] == m[4 * j + 2],
        m[4 * i + 3] == m[4 * j + 3],
    ensures
        spec_det4(m) == 0,
{
    lemma_adjoint_multiply(m);
    assert(adjoint_product_cell(m, i, i) == adjoint_product_cell(m, i, j));
}

/// A 4 by 4 matrix with two equal rows has determinant 0, by the same
/// argument against the law taken from the other side.
pub proof fn lemma_det4_equal_rows(m: Seq<i64>, i: int, j: int)
    requires
        m.len() == 16,
        0 <= i < 4,
        0 <= j < 4,
        i != j,
        m[i] == m[j],
        m[i + 4] == m[j + 4],
        m[i + 8] == m[j + 8],
        m[i + 12] == m[j + 12],
    ensures
        spec_det4(m) == 0,
{
    lemma_multiply_adjoint(m);
    assert(matrix_adjoint_cell(m, i, i) == matrix_adjoint_cell(m, j, i));
}

} // verus!
