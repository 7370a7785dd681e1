use vmath::structs::quaternion::Quaternion;

#[test]
fn identity_composition() {
    let id = Quaternion::new_identity();
    let q = Quaternion::new(1, 2, 3, 4);
    assert_eq!(Quaternion::rotate_quaternion(q, id), q);
    assert_eq!(Quaternion::rotate_quaternion(id, q), q);
}

#[test]
fn hamilton_product_of_units() {
    // i * j == k, and i * i == -1
    let i = Quaternion::new(0, 1, 0, 0);
    let j = Quaternion::new(0, 0, 1, 0);
    let k = Quaternion::new(0, 0, 0, 1);
    assert_eq!(Quaternion::rotate_quaternion(i, j), k);
    assert_eq!(
        Quaternion::rotate_quaternion(i, i),
        Quaternion::new(-1, 0, 0, 0)
    );
    // the product is not commutative: j * i == -k
    assert_eq!(
        Quaternion::rotate_quaternion(j, i),
        Quaternion::new(0, 0, 0, -1)
    );
}

#[test]
fn conjugate_and_norm() {
    let q = Quaternion::new(1, 2, 3, 4);
    assert_eq!(q.conjugate(), Quaternion::new(1, -2, -3, -4));
    assert_eq!(q.sqr_norm(), 30);
    assert_eq!(q.sqr_magnitude(), 30);
    assert_eq!(q.dot(q), 30);
    // a quaternion times its conjugate is the squared norm as a scalar
    assert_eq!(
        Quaternion::rotate_quaternion(q, q.conjugate()),
        Quaternion::new(30, 0, 0, 0)
    );
}

#[test]
fn arithmetic_components() {
    let a = Quaternion::new(1, 2, 3, 4);
    let b = Quaternion::new(10, 20, 30, 40);
    assert_eq!(Quaternion::sum(a, b), Quaternion::new(11, 22, 33, 44));
    assert_eq!(Quaternion::subtract(b, a), Quaternion::new(9, 18, 27, 36));
    assert_eq!(Quaternion::scale(a, 3), Quaternion::new(3, 6, 9, 12));
    assert_eq!(Quaternion::negate(a), Quaternion::new(-1, -2, -3, -4));
    assert_eq!(*a.as_array(), [1, 2, 3, 4]);
    assert_eq!(Quaternion::from_array([5, 6, 7, 8]).as_array(), &[5, 6, 7, 8]);
}

#[test]
fn unit_rotation_about_an_axis() {
    // the unit quaternion (0, 0, 1, 0) is a half turn about the y axis:
    // it sends (x, y, z) to (-x, y, -z)
    let half_turn_y = Quaternion::new(0, 0, 1, 0);
    assert_eq!(
        Quaternion::rotate_vector(half_turn_y, &[5, 6, 7]),
        [-5, 6, -7]
    );
    // the identity rotation leaves every vector alone
    let id = Quaternion::new_identity();
    assert_eq!(Quaternion::rotate_vector(id, &[5, 6, 7]), [5, 6, 7]);
}

#[test]
fn rotate_by_conjugate_round_trip() {
    // rotating by the conjugate and back scales by the squared norm twice:
    // for a unit quaternion the round trip is exact
    let q = Quaternion::new(1, 2, 3, 4);
    let n = q.sqr_norm();
    let v = [5i64, -6, 7];
    let there = Quaternion::rotate_vector(q.conjugate(), &v);
    let back = Quaternion::rotate_vector(q, &there);
    assert_eq!(back, [n * n * v[0], n * n * v[1], n * n * v[2]]);
}
