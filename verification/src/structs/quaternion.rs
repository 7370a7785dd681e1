//! Quaternions over exact integer components: the polynomial core of the
//! rotation algebra — the Hamilton product, the conjugate, the dot product
//! and the sandwich rotation — with its laws. The parts that need square
//! roots or trigonometry (normalization, interpolation, euler and
//! angle-axis conversion) run on floating point, which the verifier
//! refuses, and live in the unverified layer around the library.

use vstd::prelude::*;
use crate::structs::matrix3x3::{cells_in_range, lemma_mul_bound, lemma_pairwise_products, CELL_LIMIT};

verus! {

/// The components of `s` read as unbounded integers.
pub open spec fn quat_ints(s: Seq<i64>) -> Seq<int> {
    Seq::new(s.len(), |i: int| s[i] as int)
}

/// The Hamilton product of `x` and `y`: the composition of the two
/// rotations, applying `y` first and `x` after. Not commutative.
pub open spec fn quat_mul(x: Seq<int>, y: Seq<int>) -> Seq<int> {
    seq![
        x[0] * y[0] - (x[1] * y[1] + x[2] * y[2] + x[3] * y[3]),
        x[0] * y[1] + y[0] * x[1] + (x[2] * y[3] - x[3] * y[2]),
        x[0] * y[2] + y[0] * x[2] + (x[3] * y[1] - x[1] * y[3]),
        x[0] * y[3] + y[0] * x[3] + (x[1] * y[2] - x[2] * y[1]),
    ]
}

/// The conjugate: the same scalar with the sign of the imaginary
/// components flipped.
pub open spec fn quat_conjugate(q: Seq<int>) -> Seq<int> {
    seq![q[0], -q[1], -q[2], -q[3]]
}

/// The squared norm: the sum of the squares of the four components.
pub open spec fn quat_sqr_norm(q: Seq<int>) -> int {
    q[0] * q[0] + q[1] * q[1] + q[2] * q[2] + q[3] * q[3]
}

/// Every component scaled by `s`.
pub open spec fn quat_scale(s: int, q: Seq<int>) -> Seq<int> {
    Seq::new(q.len(), |i: int| s * q[i])
}

/// The pure quaternion of a 3-component vector: zero scalar part.
pub open spec fn quat_pure(v: Seq<int>) -> Seq<int> {
    seq![0, v[0], v[1], v[2]]
}

/// The vector `v` rotated by `q`: the vector part of the sandwich
/// `q * (0, v) * conjugate(q)`. A pure rotation when `q` has unit norm;
/// in general the result carries the squared norm as a factor.
pub open spec fn quat_rotate(q: Seq<int>, v: Seq<int>) -> Seq<int> {
    let r = quat_mul(quat_mul(q, quat_pure(v)), quat_conjugate(q));
    seq![r[1], r[2], r[3]]
}

/// 4-component rotation representation over exact integer components:
/// `w` `x` `y` `z`. Components are bounded by [`CELL_LIMIT`] where an
/// operation multiplies them, so that every product fits the component
/// type with room to spare.
#[derive(Clone, Copy, PartialEq, Debug)]
pub struct Quaternion {
    components: [i64; 4],
}

impl View for Quaternion {
    type V = Seq<i64>;

    closed spec fn view(&self) -> Seq<i64> {
        self.components@
    }
}

impl Quaternion {
    /// Creates a new `Quaternion`.
    pub fn new(w: i64, x: i64, y: i64, z: i64) -> (q: Self)
        ensures
            q@ =~= seq![w, x, y, z],
    {
        Self { components: [w, x, y, z] }
    }

    /// Creates a new identity `Quaternion`.
    pub fn new_identity() -> (q: Self)
        ensures
            q@ =~= seq![1i64, 0, 0, 0],
    {
        Self::new(1, 0, 0, 0)
    }

    /// Creates a new `Quaternion` from an array: scalar first.
    pub fn from_array(components: [i64; 4]) -> (q: Self)
        ensures
            q@ == components@,
    {
        Self { components }
    }

    /// The components as an array: scalar first.
    pub fn as_array(&self) -> (r: &[i64; 4])
        ensures
            r@ == self@,
    {
        &self.components
    }

    /// The squared norm.
    pub fn sqr_norm(&self) -> (r: i64)
        requires
            cells_in_range(self@),
        ensures
            r == quat_sqr_norm(quat_ints(self@)),
    {
        proof {
            lemma_pairwise_products(self@, self@);
        }
        (self.components[0] * self.components[0]) + (self.components[1] * self.components[1])
            + (self.components[2] * self.components[2]) + (self.components[3]
            * self.components[3])
    }

    /// The squared magnitude.
    pub fn sqr_magnitude(&self) -> (r: i64)
        requires
            cells_in_range(self@),
        ensures
            r == quat_sqr_norm(quat_ints(self@)),
    {
        self.sqr_norm()
    }

    /// The conjugate: the same scalar with the sign of the imaginary
    /// components flipped.
    pub fn conjugate(&self) -> (r: Self)
        requires
            cells_in_range(self@),
        ensures
            quat_ints(r@) =~= quat_conjugate(quat_ints(self@)),
    {
        proof {
            assert(-(CELL_LIMIT as int) <= self@[1] <= CELL_LIMIT as int && -(CELL_LIMIT
                as int) <= self@[2] <= CELL_LIMIT as int && -(CELL_LIMIT as int) <= self@[3]
                <= CELL_LIMIT as int);
        }
        Self::new(
            self.components[0],
            -self.components[1],
            -self.components[2],
            -self.components[3],
        )
    }

    /// The dot product of `a` and `b`.
    pub fn dot_product(a: Self, b: Self) -> (r: i64)
        requires
            cells_in_range(a@),
            cells_in_range(b@),
        ensures
            r == (a@[0] * b@[0] + a@[1] * b@[1] + a@[2] * b@[2] + a@[3] * b@[3]),
    {
        proof {
            lemma_pairwise_products(a@, b@);
        }
        (a.components[0] * b.components[0]) + (a.components[1] * b.components[1]) + (
        a.components[2] * b.components[2]) + (a.components[3] * b.components[3])
    }

    /// The dot product of this quaternion and `b`.
    pub fn dot(&self, b: Self) -> (r: i64)
        requires
            cells_in_range(self@),
            cells_in_range(b@),
        ensures
            r == (self@[0] * b@[0] + self@[1] * b@[1] + self@[2] * b@[2] + self@[3] * b@[3]),
    {
        Self::dot_product(*self, b)
    }

    /// The sum of `a` and `b`.
    pub fn sum(a: Self, b: Self) -> (r: Self)
        requires
            cells_in_range(a@),
            cells_in_range(b@),
        ensures
            r@ =~= seq![
                (a@[0] + b@[0]) as i64,
                (a@[1] + b@[1]) as i64,
                (a@[2] + b@[2]) as i64,
                (a@[3] + b@[3]) as i64,
            ],
    {
        proof {
            assert(-(CELL_LIMIT as int) <= a@[0] <= CELL_LIMIT as int && -(CELL_LIMIT as int)
                <= a@[1] <= CELL_LIMIT as int && -(CELL_LIMIT as int) <= a@[2] <= CELL_LIMIT
                as int && -(CELL_LIMIT as int) <= a@[3] <= CELL_LIMIT as int);
            assert(-(CELL_LIMIT as int) <= b@[0] <= CELL_LIMIT as int && -(CELL_LIMIT as int)
                <= b@[1] <= CELL_LIMIT as int && -(CELL_LIMIT as int) <= b@[2] <= CELL_LIMIT
                as int && -(CELL_LIMIT as int) <= b@[3] <= CELL_LIMIT as int);
        }
        Self::new(
            a.components[0] + b.components[0],
            a.components[1] + b.components[1],
            a.components[2] + b.components[2],
            a.components[3] + b.components[3],
        )
    }

    /// The difference of `a` and `b`.
    pub fn subtract(a: Self, b: Self) -> (r: Self)
        requires
            cells_in_range(a@),
            cells_in_range(b@),
        ensures
            r@ =~= seq![
                (a@[0] - b@[0]) as i64,
                (a@[1] - b@[1]) as i64,
                (a@[2] - b@[2]) as i64,
                (a@[3] - b@[3]) as i64,
            ],
    {
        proof {
            assert(-(CELL_LIMIT as int) <= a@[0] <= CELL_LIMIT as int && -(CELL_LIMIT as int)
                <= a@[1] <= CELL_LIMIT as int && -(CELL_LIMIT as int) <= a@[2] <= CELL_LIMIT
                as int && -(CELL_LIMIT as int) <= a@[3] <= CELL_LIMIT as int);
            assert(-(CELL_LIMIT as int) <= b@[0] <= CELL_LIMIT as int && -(CELL_LIMIT as int)
                <= b@[1] <= CELL_LIMIT as int && -(CELL_LIMIT as int) <= b@[2] <= CELL_LIMIT
                as int && -(CELL_LIMIT as int) <= b@[3] <= CELL_LIMIT as int);
        }
        Self::new(
            a.components[0] - b.components[0],
            a.components[1] - b.components[1],
            a.components[2] - b.components[2],
            a.components[3] - b.components[3],
        )
    }

    /// `a` scaled by `scalar`.
    pub fn scale(a: Self, scalar: i64) -> (r: Self)
        requires
            cells_in_range(a@),
            -CELL_LIMIT <= scalar <= CELL_LIMIT,
        ensures
            quat_ints(r@) =~= quat_scale(scalar as int, quat_ints(a@)),
    {
        proof {
            lemma_mul_bound(scalar as int, a@[0] as int, CELL_LIMIT as int, CELL_LIMIT as int);
            lemma_mul_bound(scalar as int, a@[1] as int, CELL_LIMIT as int, CELL_LIMIT as int);
            lemma_mul_bound(scalar as int, a@[2] as int, CELL_LIMIT as int, CELL_LIMIT as int);
            lemma_mul_bound(scalar as int, a@[3] as int, CELL_LIMIT as int, CELL_LIMIT as int);
        }
        Self::new(
            scalar * a.components[0],
            scalar * a.components[1],
            scalar * a.components[2],
            scalar * a.components[3],
        )
    }

    /// The negation of the given quaternion.
    pub fn negate(quaternion: Self) -> (r: Self)
        requires
            cells_in_range(quaternion@),
        ensures
            quat_ints(r@) =~= quat_scale(-1, quat_ints(quaternion@)),
    {
        proof {
            assert(-(CELL_LIMIT as int) <= quaternion@[0] <= CELL_LIMIT as int && -(CELL_LIMIT
                as int) <= quaternion@[1] <= CELL_LIMIT as int && -(CELL_LIMIT as int)
                <= quaternion@[2] <= CELL_LIMIT as int && -(CELL_LIMIT as int)
                <= quaternion@[3] <= CELL_LIMIT as int);
        }
        Self::new(
            -quaternion.components[0],
            -quaternion.components[1],
            -quaternion.components[2],
            -quaternion.components[3],
        )
    }

    /// The Hamilton product: the result applies `rotator` first, the left
    /// quaternion after.
    pub fn rotate_quaternion(quaternion: Self, rotator: Self) -> (r: Self)
        requires
            cells_in_range(quaternion@),
            cells_in_range(rotator@),
        ensures
            quat_ints(r@) =~= quat_mul(quat_ints(quaternion@), quat_ints(rotator@)),
    {
        proof {
            lemma_pairwise_products(quaternion@, rotator@);
            lemma_pairwise_products(rotator@, quaternion@);
        }
        let a = &quaternion.components;
        let b = &rotator.components;
        Self::new(
            (a[0] * b[0]) - (a[1] * b[1] + a[2] * b[2] + a[3] * b[3]),
            (a[0] * b[1]) + (b[0] * a[1]) + ((a[2] * b[3]) - (a[3] * b[2])),
            (a[0] * b[2]) + (b[0] * a[2]) + ((a[3] * b[1]) - (a[1] * b[3])),
            (a[0] * b[3]) + (b[0] * a[3]) + ((a[1] * b[2]) - (a[2] * b[1])),
        )
    }

    /// Rotates a vector by this quaternion: the vector part of the sandwich
    /// of the pure quaternion of the vector. A pure rotation when the
    /// quaternion has unit norm.
    pub fn rotate_vector(quaternion: Self, vector: &[i64; 3]) -> (r: [i64; 3])
        requires
            cells_in_range(quaternion@),
            cells_in_range(vector@),
        ensures
            r@[0] == quat_rotate(quat_ints(quaternion@), quat_ints(vector@))[0],
            r@[1] == quat_rotate(quat_ints(quaternion@), quat_ints(vector@))[1],
            r@[2] == quat_rotate(quat_ints(quaternion@), quat_ints(vector@))[2],
    {
        let p = Self::new(0, vector[0], vector[1], vector[2]);
        proof {
            assert(-(CELL_LIMIT as int) <= vector@[0] <= CELL_LIMIT as int && -(CELL_LIMIT
                as int) <= vector@[1] <= CELL_LIMIT as int && -(CELL_LIMIT as int)
                <= vector@[2] <= CELL_LIMIT as int);
            assert(cells_in_range(p@));
            assert(quat_ints(p@) =~= quat_pure(quat_ints(vector@)));
        }
        let t = Self::rotate_quaternion(quaternion, p);
        let qc = quaternion.conjugate();
        proof {
            let lim = CELL_LIMIT as int;
            lemma_pairwise_products(quaternion@, p@);
            lemma_pairwise_products(p@, quaternion@);
            assert(forall|k: int|
                0 <= k < 4 ==> -(4 * lim * lim) <= #[trigger] quat_ints(t@)[k] <= 4 * lim
                    * lim);
            assert(cells_in_range(qc@));
            lemma_mul_bound(t@[0] as int, qc@[1] as int, 4 * lim * lim, lim);
            lemma_mul_bound(t@[1] as int, qc@[0] as int, 4 * lim * lim, lim);
            lemma_mul_bound(t@[0] as int, qc@[2] as int, 4 * lim * lim, lim);
            lemma_mul_bound(t@[2] as int, qc@[0] as int, 4 * lim * lim, lim);
            lemma_mul_bound(t@[0] as int, qc@[3] as int, 4 * lim * lim, lim);
            lemma_mul_bound(t@[3] as int, qc@[0] as int, 4 * lim * lim, lim);
            lemma_mul_bound(t@[1] as int, qc@[2] as int, 4 * lim * lim, lim);
            lemma_mul_bound(t@[2] as int, qc@[1] as int, 4 * lim * lim, lim);
            lemma_mul_bound(t@[1] as int, qc@[3] as int, 4 * lim * lim, lim);
            lemma_mul_bound(t@[3] as int, qc@[1] as int, 4 * lim * lim, lim);
            lemma_mul_bound(t@[2] as int, qc@[3] as int, 4 * lim * lim, lim);
            lemma_mul_bound(t@[3] as int, qc@[2] as int, 4 * lim * lim, lim);
        }
        let a = &t.components;
        let b = &qc.components;
        let r: [i64; 3] = [
            (a[0] * b[1]) + (b[0] * a[1]) + ((a[2] * b[3]) - (a[3] * b[2])),
            (a[0] * b[2]) + (b[0] * a[2]) + ((a[3] * b[1]) - (a[1] * b[3])),
            (a[0] * b[3]) + (b[0] * a[3]) + ((a[1] * b[2]) - (a[2] * b[1])),
        ];
        proof {
            let qi = quat_ints(quaternion@);
            let vi = quat_ints(vector@);
            assert(quat_ints(t@) =~= quat_mul(qi, quat_pure(vi)));
            assert(quat_ints(qc@) =~= quat_conjugate(qi));
            assert(r@[0] == quat_mul(quat_mul(qi, quat_pure(vi)), quat_conjugate(qi))[1]);
            assert(r@[1] == quat_mul(quat_mul(qi, quat_pure(vi)), quat_conjugate(qi))[2]);
            assert(r@[2] == quat_mul(quat_mul(qi, quat_pure(vi)), quat_conjugate(qi))[3]);
        }
        r
    }
}

/// The Hamilton product is associative.
pub proof fn lemma_quat_mul_assoc(a: Seq<int>, b: Seq<int>, c: Seq<int>)
    requires
        a.len() == 4,
        b.len() == 4,
        c.len() == 4,
    ensures
        quat_mul(quat_mul(a, b), c) =~= quat_mul(a, quat_mul(b, c)),
{
    let (a0, a1, a2, a3) = (a[0], a[1], a[2], a[3]);
    let (b0, b1, b2, b3) = (b[0], b[1], b[2], b[3]);
    let (c0, c1, c2, c3) = (c[0], c[1], c[2], c[3]);
    assert((a0 * b0 - (a1 * b1 + a2 * b2 + a3 * b3)) * c0 == (a0 * b0) * c0 - (a1 * b1) * c0 - (a2 * b2) * c0 - (a3 * b3) * c0) by (nonlinear_arith);
    assert((a0 * b1 + b0 * a1 + (a2 * b3 - a3 * b2)) * c1 == (a0 * b1) * c1 + (a1 * b0) * c1 + (a2 * b3) * c1 - (a3 * b2) * c1) by (nonlinear_arith);
    assert((a0 * b2 + b0 * a2 + (a3 * b1 - a1 * b3)) * c2 == (a0 * b2) * c2 + (a2 * b0) * c2 + (a3 * b1) * c2 - (a1 * b3) * c2) by (nonlinear_arith);
    assert((a0 * b3 + b0 * a3 + (a1 * b2 - a2 * b1)) * c3 == (a0 * b3) * c3 + (a3 * b0) * c3 + (a1 * b2) * c3 - (a2 * b1) * c3) by (nonlinear_arith);
    assert(a0 * (b0 * c0 - (b1 * c1 + b2 * c2 + b3 * c3)) == a0 * (b0 * c0) - a0 * (b1 * c1) - a0 * (b2 * c2) - a0 * (b3 * c3)) by (nonlinear_arith);
    assert(a1 * (b0 * c1 + c0 * b1 + (b2 * c3 - b3 * c2)) == a1 * (b0 * c1) + a1 * (b1 * c0) + a1 * (b2 * c3) - a1 * (b3 * c2)) by (nonlinear_arith);
    assert(a2 * (b0 * c2 + c0 * b2 + (b3 * c1 - b1 * c3)) == a2 * (b0 * c2) + a2 * (b2 * c0) + a2 * (b3 * c1) - a2 * (b1 * c3)) by (nonlinear_arith);
    assert(a3 * (b0 * c3 + c0 * b3 + (b1 * c2 - b2 * c1)) == a3 * (b0 * c3) + a3 * (b3 * c0) + a3 * (b1 * c2) - a3 * (b2 * c1)) by (nonlinear_arith);
    assert((a0 * b0 - (a1 * b1 + a2 * b2 + a3 * b3)) * c1 == (a0 * b0) * c1 - (a1 * b1) * c1 - (a2 * b2) * c1 - (a3 * b3) * c1) by (nonlinear_arith);
    assert(c0 * (a0 * b1 + b0 * a1 + (a2 * b3 - a3 * b2)) == c0 * (a0 * b1) + c0 * (a1 * b0) + c0 * (a2 * b3) - c0 * (a3 * b2)) by (nonlinear_arith);
    assert((a0 * b2 + b0 * a2 + (a3 * b1 - a1 * b3)) * c3 == (a0 * b2) * c3 + (a2 * b0) * c3 + (a3 * b1) * c3 - (a1 * b3) * c3) by (nonlinear_arith);
    assert((a0 * b3 + b0 * a3 + (a1 * b2 - a2 * b1)) * c2 == (a0 * b3) * c2 + (a3 * b0) * c2 + (a1 * b2) * c2 - (a2 * b1) * c2) by (nonlinear_arith);
    assert(a0 * (b0 * c1 + c0 * b1 + (b2 * c3 - b3 * c2)) == a0 * (b0 * c1) + a0 * (b1 * c0) + a0 * (b2 * c3) - a0 * (b3 * c2)) by (nonlinear_arith);
    assert((b0 * c0 - (b1 * c1 + b2 * c2 + b3 * c3)) * a1 == a1 * (b0 * c0) - a1 * (b1 * c1) - a1 * (b2 * c2) - a1 * (b3 * c3)) by (nonlinear_arith);
    assert(a2 * (b0 * c3 + c0 * b3 + (b1 * c2 - b2 * c1)) == a2 * (b0 * c3) + a2 * (b3 * c0) + a2 * (b1 * c2) - a2 * (b2 * c1)) by (nonlinear_arith);
    assert(a3 * (b0 * c2 + c0 * b2 + (b3 * c1 - b1 * c3)) == a3 * (b0 * c2) + a3 * (b2 * c0) + a3 * (b3 * c1) - a3 * (b1 * c3)) by (nonlinear_arith);
    assert((a0 * b0 - (a1 * b1 + a2 * b2 + a3 * b3)) * c2 == (a0 * b0) * c2 - (a1 * b1) * c2 - (a2 * b2) * c2 - (a3 * b3) * c2) by (nonlinear_arith);
    assert(c0 * (a0 * b2 + b0 * a2 + (a3 * b1 - a1 * b3)) == c0 * (a0 * b2) + c0 * (a2 * b0) + c0 * (a3 * b1) - c0 * (a1 * b3)) by (nonlinear_arith);
    assert((a0 * b3 + b0 * a3 + (a1 * b2 - a2 * b1)) * c1 == (a0 * b3) * c1 + (a3 * b0) * c1 + (a1 * b2) * c1 - (a2 * b1) * c1) by (nonlinear_arith);
    assert((a0 * b1 + b0 * a1 + (a2 * b3 - a3 * b2)) * c3 == (a0 * b1) * c3 + (a1 * b0) * c3 + (a2 * b3) * c3 - (a3 * b2) * c3) by (nonlinear_arith);
    assert(a0 * (b0 * c2 + c0 * b2 + (b3 * c1 - b1 * c3)) == a0 * (b0 * c2) + a0 * (b2 * c0) + a0 * (b3 * c1) - a0 * (b1 * c3)) by (nonlinear_arith);
    assert((b0 * c0 - (b1 * c1 + b2 * c2 + b3 * c3)) * a2 == a2 * (b0 * c0) - a2 * (b1 * c1) - a2 * (b2 * c2) - a2 * (b3 * c3)) by (nonlinear_arith);
    assert(a3 * (b0 * c1 + c0 * b1 + (b2 * c3 - b3 * c2)) == a3 * (b0 * c1) + a3 * (b1 * c0) + a3 * (b2 * c3) - a3 * (b3 * c2)) by (nonlinear_arith);
    assert(a1 * (b0 * c3 + c0 * b3 + (b1 * c2 - b2 * c1)) == a1 * (b0 * c3) + a1 * (b3 * c0) + a1 * (b1 * c2) - a1 * (b2 * c1)) by (nonlinear_arith);
    assert((a0 * b0 - (a1 * b1 + a2 * b2 + a3 * b3)) * c3 == (a0 * b0) * c3 - (a1 * b1) * c3 - (a2 * b2) * c3 - (a3 * b3) * c3) by (nonlinear_arith);
    assert(c0 * (a0 * b3 + b0 * a3 + (a1 * b2 - a2 * b1)) == c0 * (a0 * b3) + c0 * (a3 * b0) + c0 * (a1 * b2) - c0 * (a2 * b1)) by (nonlinear_arith);
    assert((a0 * b1 + b0 * a1 + (a2 * b3 - a3 * b2)) * c2 == (a0 * b1) * c2 + (a1 * b0) * c2 + (a2 * b3) * c2 - (a3 * b2) * c2) by (nonlinear_arith);
    assert((a0 * b2 + b0 * a2 + (a3 * b1 - a1 * b3)) * c1 == (a0 * b2) * c1 + (a2 * b0) * c1 + (a3 * b1) * c1 - (a1 * b3) * c1) by (nonlinear_arith);
    assert(a0 * (b0 * c3 + c0 * b3 + (b1 * c2 - b2 * c1)) == a0 * (b0 * c3) + a0 * (b3 * c0) + a0 * (b1 * c2) - a0 * (b2 * c1)) by (nonlinear_arith);
    assert((b0 * c0 - (b1 * c1 + b2 * c2 + b3 * c3)) * a3 == a3 * (b0 * c0) - a3 * (b1 * c1) - a3 * (b2 * c2) - a3 * (b3 * c3)) by (nonlinear_arith);
    assert(a1 * (b0 * c2 + c0 * b2 + (b3 * c1 - b1 * c3)) == a1 * (b0 * c2) + a1 * (b2 * c0) + a1 * (b3 * c1) - a1 * (b1 * c3)) by (nonlinear_arith);
    assert(a2 * (b0 * c1 + c0 * b1 + (b2 * c3 - b3 * c2)) == a2 * (b0 * c1) + a2 * (b1 * c0) + a2 * (b2 * c3) - a2 * (b3 * c2)) by (nonlinear_arith);
    assert((a0 * b0) * c0 == a0 * (b0 * c0)) by (nonlinear_arith);
    assert((a1 * b1) * c0 == a1 * (b1 * c0)) by (nonlinear_arith);
    assert((a2 * b2) * c0 == a2 * (b2 * c0)) by (nonlinear_arith);
    assert((a3 * b3) * c0 == a3 * (b3 * c0)) by (nonlinear_arith);
    assert((a0 * b1) * c1 == a0 * (b1 * c1)) by (nonlinear_arith);
    assert((a1 * b0) * c1 == a1 * (b0 * c1)) by (nonlinear_arith);
    assert((a2 * b3) * c1 == a2 * (b3 * c1)) by (nonlinear_arith);
    assert((a3 * b2) * c1 == a3 * (b2 * c1)) by (nonlinear_arith);
    assert((a0 * b2) * c2 == a0 * (b2 * c2)) by (nonlinear_arith);
    assert((a2 * b0) * c2 == a2 * (b0 * c2)) by (nonlinear_arith);
    assert((a3 * b1) * c2 == a3 * (b1 * c2)) by (nonlinear_arith);
    assert((a1 * b3) * c2 == a1 * (b3 * c2)) by (nonlinear_arith);
    assert((a0 * b3) * c3 == a0 * (b3 * c3)) by (nonlinear_arith);
    assert((a3 * b0) * c3 == a3 * (b0 * c3)) by (nonlinear_arith);
    assert((a1 * b2) * c3 == a1 * (b2 * c3)) by (nonlinear_arith);
    assert((a2 * b1) * c3 == a2 * (b1 * c3)) by (nonlinear_arith);
    assert((a0 * b0) * c1 == a0 * (b0 * c1)) by (nonlinear_arith);
    assert((a1 * b1) * c1 == a1 * (b1 * c1)) by (nonlinear_arith);
    assert((a2 * b2) * c1 == a2 * (b2 * c1)) by (nonlinear_arith);
    assert((a3 * b3) * c1 == a3 * (b3 * c1)) by (nonlinear_arith);
    assert(c0 * (a0 * b1) == a0 * (b1 * c0)) by (nonlinear_arith);
    assert(c0 * (a1 * b0) == a1 * (b0 * c0)) by (nonlinear_arith);
    assert(c0 * (a2 * b3) == a2 * (b3 * c0)) by (nonlinear_arith);
    assert(c0 * (a3 * b2) == a3 * (b2 * c0)) by (nonlinear_arith);
    assert((a0 * b2) * c3 == a0 * (b2 * c3)) by (nonlinear_arith);
    assert((a2 * b0) * c3 == a2 * (b0 * c3)) by (nonlinear_arith);
    assert((a3 * b1) * c3 == a3 * (b1 * c3)) by (nonlinear_arith);
    assert((a1 * b3) * c3 == a1 * (b3 * c3)) by (nonlinear_arith);
    assert((a0 * b3) * c2 == a0 * (b3 * c2)) by (nonlinear_arith);
    assert((a3 * b0) * c2 == a3 * (b0 * c2)) by (nonlinear_arith);
    assert((a1 * b2) * c2 == a1 * (b2 * c2)) by (nonlinear_arith);
    assert((a2 * b1) * c2 == a2 * (b1 * c2)) by (nonlinear_arith);
    assert((a0 * b0) * c2 == a0 * (b0 * c2)) by (nonlinear_arith);
    assert((a1 * b1) * c2 == a1 * (b1 * c2)) by (nonlinear_arith);
    assert((a2 * b2) * c2 == a2 * (b2 * c2)) by (nonlinear_arith);
    assert((a3 * b3) * c2 == a3 * (b3 * c2)) by (nonlinear_arith);
    assert(c0 * (a0 * b2) == a0 * (b2 * c0)) by (nonlinear_arith);
    assert(c0 * (a2 * b0) == a2 * (b0 * c0)) by (nonlinear_arith);
    assert(c0 * (a3 * b1) == a3 * (b1 * c0)) by (nonlinear_arith);
    assert(c0 * (a1 * b3) == a1 * (b3 * c0)) by (nonlinear_arith);
    assert((a0 * b3) * c1 == a0 * (b3 * c1)) by (nonlinear_arith);
    assert((a3 * b0) * c1 == a3 * (b0 * c1)) by (nonlinear_arith);
    assert((a1 * b2) * c1 == a1 * (b2 * c1)) by (nonlinear_arith);
    assert((a2 * b1) * c1 == a2 * (b1 * c1)) by (nonlinear_arith);
    assert((a0 * b1) * c3 == a0 * (b1 * c3)) by (nonlinear_arith);
    assert((a1 * b0) * c3 == a1 * (b0 * c3)) by (nonlinear_arith);
    assert((a2 * b3) * c3 == a2 * (b3 * c3)) by (nonlinear_arith);
    assert((a3 * b2) * c3 == a3 * (b2 * c3)) by (nonlinear_arith);
    assert((a0 * b0) * c3 == a0 * (b0 * c3)) by (nonlinear_arith);
    assert((a1 * b1) * c3 == a1 * (b1 * c3)) by (nonlinear_arith);
    assert((a2 * b2) * c3 == a2 * (b2 * c3)) by (nonlinear_arith);
    assert((a3 * b3) * c3 == a3 * (b3 * c3)) by (nonlinear_arith);
    assert(c0 * (a0 * b3) == a0 * (b3 * c0)) by (nonlinear_arith);
    assert(c0 * (a3 * b0) == a3 * (b0 * c0)) by (nonlinear_arith);
    assert(c0 * (a1 * b2) == a1 * (b2 * c0)) by (nonlinear_arith);
    assert(c0 * (a2 * b1) == a2 * (b1 * c0)) by (nonlinear_arith);
    assert((a0 * b1) * c2 == a0 * (b1 * c2)) by (nonlinear_arith);
    assert((a1 * b0) * c2 == a1 * (b0 * c2)) by (nonlinear_arith);
    assert((a2 * b3) * c2 == a2 * (b3 * c2)) by (nonlinear_arith);
    assert((a3 * b2) * c2 == a3 * (b2 * c2)) by (nonlinear_arith);
    assert((a0 * b2) * c1 == a0 * (b2 * c1)) by (nonlinear_arith);
    assert((a2 * b0) * c1 == a2 * (b0 * c1)) by (nonlinear_arith);
    assert((a3 * b1) * c1 == a3 * (b1 * c1)) by (nonlinear_arith);
    assert((a1 * b3) * c1 == a1 * (b3 * c1)) by (nonlinear_arith);
    assert(quat_mul(quat_mul(a, b), c) =~= quat_mul(a, quat_mul(b, c)));
}

/// A quaternion multiplied by its conjugate, from either side, is the
/// squared norm as a scalar quaternion.
pub proof fn lemma_quat_mul_conjugate(q: Seq<int>)
    requires
        q.len() == 4,
    ensures
        quat_mul(q, quat_conjugate(q)) =~= seq![quat_sqr_norm(q), 0, 0, 0],
        quat_mul(quat_conjugate(q), q) =~= seq![quat_sqr_norm(q), 0, 0, 0],
{
    let (q0, q1, q2, q3) = (q[0], q[1], q[2], q[3]);
    assert(q0 * q0 - (q1 * (-q1) + q2 * (-q2) + q3 * (-q3)) == q0 * q0 + q1 * q1 + q2 * q2
        + q3 * q3) by (nonlinear_arith);
    assert(q0 * (-q1) + q0 * q1 + (q2 * (-q3) - q3 * (-q2)) == 0) by (nonlinear_arith);
    assert(q0 * (-q2) + q0 * q2 + (q3 * (-q1) - q1 * (-q3)) == 0) by (nonlinear_arith);
    assert(q0 * (-q3) + q0 * q3 + (q1 * (-q2) - q2 * (-q1)) == 0) by (nonlinear_arith);
    assert((-q1) * q1 + (-q2) * q2 + (-q3) * q3 == -(q1 * q1) - (q2 * q2) - (q3 * q3))
        by (nonlinear_arith);
    assert(q0 * q1 + q0 * (-q1) + ((-q2) * q3 - (-q3) * q2) == 0) by (nonlinear_arith);
    assert(q0 * q2 + q0 * (-q2) + ((-q3) * q1 - (-q1) * q3) == 0) by (nonlinear_arith);
    assert(q0 * q3 + q0 * (-q3) + ((-q1) * q2 - (-q2) * q1) == 0) by (nonlinear_arith);
    assert(q0 * q0 - ((-q1) * q1 + (-q2) * q2 + (-q3) * q3) == quat_sqr_norm(q));
}

/// Multiplying by a scalar quaternion, from either side, scales every
/// component.
pub proof fn lemma_quat_mul_scalar(s: int, q: Seq<int>)
    requires
        q.len() == 4,
    ensures
        quat_mul(seq![s, 0, 0, 0], q) =~= quat_scale(s, q),
        quat_mul(q, seq![s, 0, 0, 0]) =~= quat_scale(s, q),
{
    let t = seq![s, 0, 0, 0];
    let (q0, q1, q2, q3) = (q[0], q[1], q[2], q[3]);
    assert(t[0] == s && t[1] == 0 && t[2] == 0 && t[3] == 0);
    assert(q0 * s == s * q0) by (nonlinear_arith);
    assert(q1 * s == s * q1) by (nonlinear_arith);
    assert(q2 * s == s * q2) by (nonlinear_arith);
    assert(q3 * s == s * q3) by (nonlinear_arith);
    assert(quat_mul(t, q)[0] == s * q0);
    assert(quat_mul(t, q)[1] == s * q1);
    assert(quat_mul(t, q)[2] == s * q2);
    assert(quat_mul(t, q)[3] == s * q3);
    assert(quat_mul(q, t)[0] == s * q0);
    assert(quat_mul(q, t)[1] == s * q1);
    assert(quat_mul(q, t)[2] == s * q2);
    assert(quat_mul(q, t)[3] == s * q3);
}

/// Scaling twice is scaling by the product.
pub proof fn lemma_quat_scale_scale(s: int, t: int, q: Seq<int>)
    ensures
        quat_scale(s, quat_scale(t, q)) =~= quat_scale(s * t, q),
{
    assert forall|i: int| 0 <= i < q.len() implies quat_scale(s, quat_scale(t, q))[i]
        == quat_scale(s * t, q)[i] by {
        let x = q[i];
        assert(s * (t * x) == (s * t) * x) by (nonlinear_arith);
    }
}

/// The sandwich of a pure quaternion has zero scalar part.
pub proof fn lemma_sandwich_pure_scalar(q: Seq<int>, p: Seq<int>)
    requires
        q.len() == 4,
        p.len() == 4,
        p[0] == 0,
    ensures
        quat_mul(quat_mul(q, p), quat_conjugate(q))[0] == 0,
{
    let (q0, q1, q2, q3) = (q[0], q[1], q[2], q[3]);
    let (p0, p1, p2, p3) = (p[0], p[1], p[2], p[3]);
    assert((q0 * p0 - (q1 * p1 + q2 * p2 + q3 * p3)) * q0 == (q0 * p0) * q0 - (q1 * p1) * q0 - (q2 * p2) * q0 - (q3 * p3) * q0) by (nonlinear_arith);
    assert((q0 * p1 + p0 * q1 + (q2 * p3 - q3 * p2)) * (-q1) == -((q0 * p1 + p0 * q1 + (q2 * p3 - q3 * p2)) * q1)) by (nonlinear_arith);
    assert((q0 * p1 + p0 * q1 + (q2 * p3 - q3 * p2)) * q1 == (q0 * p1) * q1 + (q1 * p0) * q1 + (q2 * p3) * q1 - (q3 * p2) * q1) by (nonlinear_arith);
    assert((q0 * p2 + p0 * q2 + (q3 * p1 - q1 * p3)) * (-q2) == -((q0 * p2 + p0 * q2 + (q3 * p1 - q1 * p3)) * q2)) by (nonlinear_arith);
    assert((q0 * p2 + p0 * q2 + (q3 * p1 - q1 * p3)) * q2 == (q0 * p2) * q2 + (q2 * p0) * q2 + (q3 * p1) * q2 - (q1 * p3) * q2) by (nonlinear_arith);
    assert((q0 * p3 + p0 * q3 + (q1 * p2 - q2 * p1)) * (-q3) == -((q0 * p3 + p0 * q3 + (q1 * p2 - q2 * p1)) * q3)) by (nonlinear_arith);
    assert((q0 * p3 + p0 * q3 + (q1 * p2 - q2 * p1)) * q3 == (q0 * p3) * q3 + (q3 * p0) * q3 + (q1 * p2) * q3 - (q2 * p1) * q3) by (nonlinear_arith);
    assert((q0 * p0) * q0 == q0 * (p0 * q0)) by (nonlinear_arith);
    assert((q0 * p1) * q1 == q0 * (p1 * q1)) by (nonlinear_arith);
    assert((q0 * p2) * q2 == q0 * (p2 * q2)) by (nonlinear_arith);
    assert((q0 * p3) * q3 == q0 * (p3 * q3)) by (nonlinear_arith);
    assert((q1 * p0) * q1 == q1 * (p0 * q1)) by (nonlinear_arith);
    assert((q1 * p1) * q0 == q0 * (p1 * q1)) by (nonlinear_arith);
    assert((q1 * p2) * q3 == q1 * (p2 * q3)) by (nonlinear_arith);
    assert((q1 * p3) * q2 == q1 * (p3 * q2)) by (nonlinear_arith);
    assert((q2 * p0) * q2 == q2 * (p0 * q2)) by (nonlinear_arith);
    assert((q2 * p1) * q3 == q2 * (p1 * q3)) by (nonlinear_arith);
    assert((q2 * p2) * q0 == q0 * (p2 * q2)) by (nonlinear_arith);
    assert((q2 * p3) * q1 == q1 * (p3 * q2)) by (nonlinear_arith);
    assert((q3 * p0) * q3 == q3 * (p0 * q3)) by (nonlinear_arith);
    assert((q3 * p1) * q2 == q2 * (p1 * q3)) by (nonlinear_arith);
    assert((q3 * p2) * q1 == q1 * (p2 * q3)) by (nonlinear_arith);
    assert((q3 * p3) * q0 == q0 * (p3 * q3)) by (nonlinear_arith);
    assert(quat_mul(quat_mul(q, p), quat_conjugate(q))[0] == 0);
}

/// Rotating a vector by the conjugate and rotating the result back by the
/// quaternion returns the vector scaled by the squared norm twice over:
/// for a unit quaternion the round trip gives the vector back exactly.
pub proof fn lemma_rotate_conjugate_round_trip(q: Seq<int>, v: Seq<int>)
    requires
        q.len() == 4,
        v.len() == 3,
    ensures
        quat_rotate(q, quat_rotate(quat_conjugate(q), v)) =~= quat_scale(
            quat_sqr_norm(q) * quat_sqr_norm(q),
            v,
        ),
{
    let n = quat_sqr_norm(q);
    let qc = quat_conjugate(q);
    let p = quat_pure(v);
    assert(quat_conjugate(qc) =~= q);
    assert(quat_sqr_norm(qc) == n) by {
        let (q1, q2, q3) = (q[1], q[2], q[3]);
        assert((-q1) * (-q1) == q1 * q1) by (nonlinear_arith);
        assert((-q2) * (-q2) == q2 * q2) by (nonlinear_arith);
        assert((-q3) * (-q3) == q3 * q3) by (nonlinear_arith);
    }
    // the inner sandwich, as a full quaternion
    let inner = quat_mul(quat_mul(qc, p), q);
    assert(quat_mul(quat_mul(qc, p), quat_conjugate(qc)) == inner);
    lemma_sandwich_pure_scalar(qc, p);
    assert(inner[0] == 0);
    // the inner rotation result, re-embedded as a pure quaternion, is the
    // inner sandwich itself
    let inner3 = quat_rotate(qc, v);
    assert(quat_pure(inner3) =~= inner);
    // the outer sandwich, re-associated so the conjugate pairs meet
    let y = quat_mul(qc, p);
    let outer = quat_mul(quat_mul(q, inner), qc);
    assert(quat_rotate(q, inner3) =~= seq![outer[1], outer[2], outer[3]]);
    lemma_quat_mul_assoc(q, y, q);
    assert(quat_mul(q, inner) == quat_mul(quat_mul(q, y), q));
    lemma_quat_mul_assoc(q, qc, p);
    lemma_quat_mul_conjugate(q);
    lemma_quat_mul_scalar(n, p);
    assert(quat_mul(quat_mul(q, qc), p) == quat_mul(seq![n, 0, 0, 0], p));
    assert(quat_mul(q, y) == quat_scale(n, p));
    lemma_quat_mul_assoc(quat_mul(q, y), q, qc);
    assert(outer == quat_mul(quat_mul(quat_mul(q, y), q), qc));
    assert(outer == quat_mul(quat_mul(q, y), quat_mul(q, qc)));
    assert(outer == quat_mul(quat_scale(n, p), seq![n, 0, 0, 0]));
    lemma_quat_mul_scalar(n, quat_scale(n, p));
    lemma_quat_scale_scale(n, n, p);
    assert(outer =~= quat_scale(n * n, p));
    assert(quat_rotate(q, quat_rotate(qc, v)) =~= quat_scale(n * n, v));
}

} // verus!
