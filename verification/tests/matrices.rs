use vmath::structs::matrix3x3::{determinant3x3, Matrix3x3};
use vmath::structs::matrix4x4::Matrix4x4;

#[test]
fn determinant3x3_of_identity_is_one() {
    assert_eq!(Matrix3x3::new_identity().determinant(), 1);
    assert_eq!(determinant3x3(&[1, 0, 0, 0, 1, 0, 0, 0, 1]), 1);
}

#[test]
fn determinant3x3_of_equal_rows_is_zero() {
    // rows 0 and 1 equal (column-major storage)
    let m = Matrix3x3::from_array([5, 5, 1, -2, -2, 7, 9, 9, 3]);
    assert_eq!(m.determinant(), 0);
    // columns 0 and 2 equal
    let m = Matrix3x3::from_array([1, 2, 3, 4, 5, 6, 1, 2, 3]);
    assert_eq!(m.determinant(), 0);
}

#[test]
fn determinant3x3_known_value() {
    // column-major: columns (1,4,7), (2,5,8), (3,6,10)
    let m = Matrix3x3::from_array([1, 4, 7, 2, 5, 8, 3, 6, 10]);
    assert_eq!(m.determinant(), -3);
}

#[test]
fn matrix3x3_transpose_and_rows() {
    let m = Matrix3x3::from_array([1, 2, 3, 4, 5, 6, 7, 8, 9]);
    let t = Matrix3x3::transpose(m);
    assert_eq!(*t.as_array(), [1, 4, 7, 2, 5, 8, 3, 6, 9]);
    assert_eq!(m.as_array_row_major(), *t.as_array());
    let mut m2 = m;
    m2.transpose_self();
    assert_eq!(*m2.as_array(), *t.as_array());
    assert_eq!(m.nm_index(1, 2), 8);
    // the determinant is transpose-invariant
    assert_eq!(m.determinant(), t.determinant());
}

#[test]
fn matrix3x3_products() {
    let id = Matrix3x3::new_identity();
    let m = Matrix3x3::from_array([2, 0, 0, 0, 3, 0, 0, 0, 4]);
    assert_eq!(*m.multiply(&id).as_array(), *m.as_array());
    assert_eq!(*id.multiply(&m).as_array(), *m.as_array());
    assert_eq!(m.mul_vector3(&[1, 1, 1]), [2, 3, 4]);
    let mut z = m;
    z.clear();
    assert_eq!(*z.as_array(), [0; 9]);
    assert_eq!(*Matrix3x3::new_zero().as_array(), [0; 9]);
}

#[test]
fn matrix4x4_identity_and_zero() {
    let id = Matrix4x4::new_identity();
    assert_eq!(id.determinant(), 1);
    assert_eq!(*Matrix4x4::new_zero().as_array(), [0; 16]);
    let mut m = id;
    m.clear();
    assert_eq!(*m.as_array(), [0; 16]);
}

#[test]
fn translate_moves_the_origin() {
    // a transform with position (1,2,3) applied to the point (0,0,0)
    // lands on (1,2,3)
    let t = Matrix4x4::new_translate_from_array(&[1, 2, 3]);
    assert_eq!(t.mul_vector3(&[0, 0, 0]), [1, 2, 3]);
    assert_eq!(t.mul_vector4(&[0, 0, 0, 1]), [1, 2, 3, 1]);
    // direction vectors (homogeneous coordinate 0) are unmoved
    assert_eq!(t.mul_vector4(&[5, 6, 7, 0]), [5, 6, 7, 0]);
}

#[test]
fn scale_determinant_is_the_product() {
    let s = Matrix4x4::new_scale_from_array(&[2, 3, 4]);
    assert_eq!(s.determinant(), 24);
    assert_eq!(s.mul_vector3(&[1, 1, 1]), [2, 3, 4]);
}

#[test]
fn scale_adjoint_undoes_the_scale_up_to_the_determinant() {
    // the inverse of a scale by (2,3,4) maps (2,3,4) back to (1,1,1);
    // over exact cells: adjoint . (2,3,4) == determinant . (1,1,1)
    let s = Matrix4x4::new_scale_from_array(&[2, 3, 4]);
    let det = s.determinant();
    let adj = s.adjoint();
    assert_eq!(adj.mul_vector4(&[2, 3, 4, 1]), [det, det, det, det]);
}

#[test]
fn submatrix_deletes_row_and_column() {
    let m = Matrix4x4::from_array_row_major([
        1, 2, 3, 4,
        5, 6, 7, 8,
        9, 10, 11, 12,
        13, 14, 15, 16,
    ]);
    // deleting row 0 and column 0 keeps the lower-right block
    let sub = m.nm_submatrix(0, 0);
    assert_eq!(sub.as_array_row_major(), [6, 7, 8, 10, 11, 12, 14, 15, 16]);
    // deleting row 2 and column 1
    let sub = m.nm_submatrix(2, 1);
    assert_eq!(sub.as_array_row_major(), [1, 3, 4, 5, 7, 8, 13, 15, 16]);
    assert_eq!(
        *m.submatrix(9).as_array(),
        *m.nm_submatrix(2, 1).as_array()
    );
}

#[test]
fn cofactor_signs_alternate() {
    let id = Matrix4x4::new_identity();
    assert_eq!(id.nm_cofactor_idx(0, 0), 1);
    assert_eq!(id.nm_minor(0, 0), 1);
    assert_eq!(id.minor(0), 1);
    assert_eq!(id.cofactor_idx(0), 1);
    // an off-diagonal one: build a matrix where the minor is nonzero
    let m = Matrix4x4::from_array_row_major([
        0, 1, 0, 0,
        1, 0, 0, 0,
        0, 0, 1, 0,
        0, 0, 0, 1,
    ]);
    assert_eq!(m.determinant(), -1);
    assert_eq!(m.nm_minor(0, 1), 1);
    assert_eq!(m.nm_cofactor_idx(0, 1), -1);
}

#[test]
fn adjoint_times_matrix_is_determinant_times_identity() {
    // cells stay small so the adjoint cells stay within the exact range
    let m = Matrix4x4::from_array_row_major([
        2, 0, 1, 3,
        1, 1, 0, 2,
        0, 2, 1, 1,
        3, 1, 2, 0,
    ]);
    let det = m.determinant();
    assert_ne!(det, 0);
    let product = m.adjoint().multiply(&m);
    let cells = product.as_array();
    for r in 0..4 {
        for c in 0..4 {
            let expected = if r == c { det } else { 0 };
            assert_eq!(cells[r + 4 * c], expected);
        }
    }
}

#[test]
fn matrix_times_adjoint_is_also_diagonal() {
    let m = Matrix4x4::from_array_row_major([
        1, 2, 0, 1,
        0, 1, 1, 2,
        2, 0, 1, 1,
        1, 1, 2, 0,
    ]);
    let det = m.determinant();
    assert_ne!(det, 0);
    let product = m.multiply(&m.adjoint());
    let cells = product.as_array();
    for r in 0..4 {
        for c in 0..4 {
            let expected = if r == c { det } else { 0 };
            assert_eq!(cells[r + 4 * c], expected);
        }
    }
}

#[test]
fn determinant4x4_of_equal_columns_is_zero() {
    // columns 1 and 3 equal (column-major storage)
    let m = Matrix4x4::from_array([
        1, 2, 3, 4,
        5, 6, 7, 8,
        9, 10, 11, 12,
        5, 6, 7, 8,
    ]);
    assert_eq!(m.determinant(), 0);
}

#[test]
fn adjoint_of_identity_is_identity() {
    let id = Matrix4x4::new_identity();
    assert_eq!(*id.adjoint().as_array(), *id.as_array());
    assert_eq!(*id.cofactor_matrix().as_array(), *id.as_array());
}

#[test]
fn matrix4x4_transpose_and_indexing() {
    let m = Matrix4x4::from_array_row_major([
        1, 2, 3, 4,
        5, 6, 7, 8,
        9, 10, 11, 12,
        13, 14, 15, 16,
    ]);
    assert_eq!(m.nm_index(0, 1), 2);
    assert_eq!(m.nm_index(3, 0), 13);
    assert_eq!(m.get_column(1), &[2, 6, 10, 14]);
    let t = Matrix4x4::transpose(m);
    assert_eq!(t.nm_index(1, 0), 2);
    let mut m2 = m;
    m2.transpose_self();
    assert_eq!(*m2.as_array(), *t.as_array());
    assert_eq!(m.as_array_row_major(), *t.as_array());
    let block = m.as_matrix3x3();
    assert_eq!(block.as_array_row_major(), [1, 2, 3, 5, 6, 7, 9, 10, 11]);
}

#[test]
fn matrix4x4_product_with_identity() {
    let m = Matrix4x4::from_array_row_major([
        2, 0, 1, 3,
        1, 1, 0, 2,
        0, 2, 1, 1,
        3, 1, 2, 0,
    ]);
    let id = Matrix4x4::new_identity();
    assert_eq!(*m.multiply(&id).as_array(), *m.as_array());
    assert_eq!(*id.multiply(&m).as_array(), *m.as_array());
}

#[test]
fn determinant4x4_of_equal_rows_is_zero() {
    let m = Matrix4x4::from_array_row_major([
        1, 2, 3, 4,
        1, 2, 3, 4,
        5, 6, 7, 8,
        9, 10, 11, 12,
    ]);
    assert_eq!(m.determinant(), 0);
}

#[test]
fn trs_order_scale_then_translate() {
    // Translate . Scale applied to a point scales first, then translates
    let t = Matrix4x4::new_translate_from_array(&[1, 2, 3]);
    let s = Matrix4x4::new_scale_from_array(&[2, 2, 2]);
    let ts = t.multiply(&s);
    assert_eq!(ts.mul_vector3(&[1, 1, 1]), [3, 4, 5]);
    // the other order translates first, then scales
    let st = s.multiply(&t);
    assert_eq!(st.mul_vector3(&[1, 1, 1]), [4, 6, 8]);
}
