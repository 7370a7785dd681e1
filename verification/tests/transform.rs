use vmath::structs::transform::Transform;

fn bits3(x: f32, y: f32, z: f32) -> [u32; 3] {
    [x.to_bits(), y.to_bits(), z.to_bits()]
}

fn bits4(w: f32, x: f32, y: f32, z: f32) -> [u32; 4] {
    [w.to_bits(), x.to_bits(), y.to_bits(), z.to_bits()]
}

#[test]
fn new_transform_starts_stale() {
    let t = Transform::new(bits3(1.0, 2.0, 3.0), bits4(1.0, 0.0, 0.0, 0.0), bits3(1.0, 1.0, 1.0));
    assert!(t.matrix_dirty());
    assert!(t.normal_dirty());
    assert!(t.forward_dirty());
    assert!(t.right_dirty());
    assert!(t.up_dirty());
    assert_eq!(t.position(), bits3(1.0, 2.0, 3.0));
    assert_eq!(t.rotation(), bits4(1.0, 0.0, 0.0, 0.0));
    assert_eq!(t.scale(), bits3(1.0, 1.0, 1.0));
}

#[test]
fn refresh_marks_clean_and_reads_back() {
    let mut t = Transform::new(bits3(0.0, 0.0, 0.0), bits4(1.0, 0.0, 0.0, 0.0), bits3(1.0, 1.0, 1.0));
    let matrix = [7u32; 16];
    let normal = [9u32; 9];
    t.refresh_matrix(matrix);
    t.refresh_normal_matrix(normal);
    assert!(!t.matrix_dirty());
    assert!(!t.normal_dirty());
    assert_eq!(t.matrix(), matrix);
    assert_eq!(t.normal_matrix(), normal);
}

#[test]
fn any_setter_invalidates_the_matrix_domain() {
    let mut t = Transform::new(bits3(0.0, 0.0, 0.0), bits4(1.0, 0.0, 0.0, 0.0), bits3(1.0, 1.0, 1.0));
    t.refresh_matrix([1; 16]);
    t.refresh_normal_matrix([1; 9]);
    t.set_position(bits3(5.0, 0.0, 0.0));
    assert!(t.matrix_dirty() && t.normal_dirty());

    t.refresh_matrix([2; 16]);
    t.refresh_normal_matrix([2; 9]);
    t.set_scale(bits3(2.0, 2.0, 2.0));
    assert!(t.matrix_dirty() && t.normal_dirty());

    t.refresh_matrix([3; 16]);
    t.refresh_normal_matrix([3; 9]);
    t.set_rotation(bits4(0.0, 1.0, 0.0, 0.0));
    assert!(t.matrix_dirty() && t.normal_dirty());
}

#[test]
fn position_change_keeps_basis_vectors() {
    // selective invalidation: moving or scaling must not touch the cached
    // basis vectors, which depend on the rotation alone
    let mut t = Transform::new(bits3(0.0, 0.0, 0.0), bits4(1.0, 0.0, 0.0, 0.0), bits3(1.0, 1.0, 1.0));
    let forward = bits3(0.0, 0.0, 1.0);
    let right = bits3(1.0, 0.0, 0.0);
    let up = bits3(0.0, 1.0, 0.0);
    t.refresh_forward(forward);
    t.refresh_right(right);
    t.refresh_up(up);

    t.set_position(bits3(10.0, 20.0, 30.0));
    assert!(!t.forward_dirty() && !t.right_dirty() && !t.up_dirty());
    assert_eq!(t.forward(), forward);
    assert_eq!(t.right(), right);
    assert_eq!(t.up(), up);

    t.set_scale(bits3(4.0, 4.0, 4.0));
    assert!(!t.forward_dirty());
    assert_eq!(t.forward(), forward);
}

#[test]
fn rotation_change_clears_basis_vectors() {
    let mut t = Transform::new(bits3(0.0, 0.0, 0.0), bits4(1.0, 0.0, 0.0, 0.0), bits3(1.0, 1.0, 1.0));
    t.refresh_forward(bits3(0.0, 0.0, 1.0));
    t.refresh_right(bits3(1.0, 0.0, 0.0));
    t.refresh_up(bits3(0.0, 1.0, 0.0));
    t.set_rotation(bits4(0.0, 0.0, 1.0, 0.0));
    assert!(t.forward_dirty());
    assert!(t.right_dirty());
    assert!(t.up_dirty());
}

#[test]
fn rotation_change_then_refresh_matches_fresh_transform() {
    // cache invalidation correctness: after setting the rotation, a refresh
    // from the new rotation gives the same state a fresh transform reaches
    let rotation = bits4(0.0, 0.0, 1.0, 0.0);
    let rotated_forward = bits3(0.0, 0.0, -1.0);

    let mut mutated = Transform::new(
        bits3(0.0, 0.0, 0.0),
        bits4(1.0, 0.0, 0.0, 0.0),
        bits3(1.0, 1.0, 1.0),
    );
    mutated.set_rotation(rotation);
    mutated.refresh_forward(rotated_forward);

    let mut fresh = Transform::new(bits3(0.0, 0.0, 0.0), rotation, bits3(1.0, 1.0, 1.0));
    fresh.refresh_forward(rotated_forward);

    assert_eq!(mutated.rotation(), fresh.rotation());
    assert_eq!(mutated.forward(), fresh.forward());
}

#[test]
fn mutable_accessors_invalidate_like_setters() {
    let mut t = Transform::new(bits3(0.0, 0.0, 0.0), bits4(1.0, 0.0, 0.0, 0.0), bits3(1.0, 1.0, 1.0));
    t.refresh_matrix([1; 16]);
    t.refresh_forward(bits3(0.0, 0.0, 1.0));

    *t.position_mut() = bits3(1.0, 1.0, 1.0);
    assert!(t.matrix_dirty());
    assert!(!t.forward_dirty());
    assert_eq!(t.position(), bits3(1.0, 1.0, 1.0));

    t.refresh_matrix([2; 16]);
    *t.scale_mut() = bits3(2.0, 1.0, 1.0);
    assert!(t.matrix_dirty());
    assert!(!t.forward_dirty());

    t.refresh_matrix([3; 16]);
    *t.rotation_mut() = bits4(0.0, 1.0, 0.0, 0.0);
    assert!(t.matrix_dirty());
    assert!(t.forward_dirty());
    assert_eq!(t.rotation(), bits4(0.0, 1.0, 0.0, 0.0));
}
