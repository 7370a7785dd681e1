use vmath::structs::vector2::{Vector2Bool, Vector2Int};
use vmath::structs::vector3::{Vector3Bool, Vector3Int};
use vmath::structs::vector4::{Vector4Bool, Vector4Int};

#[test]
fn bool_vectors_constants_and_conversions() {
    assert_eq!(Vector2Bool::new_true().to_int_bool(), [1, 1]);
    assert_eq!(Vector2Bool::new_false().to_char_bool(), [0, 0]);
    assert_eq!(Vector3Bool::new_true().to_int_bool(), [1, 1, 1]);
    assert_eq!(Vector3Bool::new_false().to_char_bool(), [0, 0, 0]);
    assert_eq!(Vector4Bool::new_true().to_int_bool(), [1, 1, 1, 1]);
    assert_eq!(Vector4Bool::new_false().to_char_bool(), [0, 0, 0, 0]);
    let mixed = Vector3Bool::new(true, false, true);
    assert_eq!(mixed.to_int_bool(), [1, 0, 1]);
    assert_eq!(mixed.to_char_bool(), [1, 0, 1]);
    assert!(mixed.x());
    assert!(!mixed.y());
    assert!(mixed.z());
}

#[test]
fn bool_vector_set_and_equals() {
    let mut v = Vector4Bool::new(false, false, false, false);
    v.set(true, false, true, false);
    assert!(v.equals(Vector4Bool::from_array([true, false, true, false])));
    assert!(!v.equals(Vector4Bool::new_true()));
    assert!(v.w() == false);
}

#[test]
fn int_vector_sqr_magnitude() {
    assert_eq!(Vector2Int::new(3, 4).sqr_magnitude(), 25);
    assert_eq!(Vector3Int::new(1, 2, 2).sqr_magnitude(), 9);
    assert_eq!(Vector4Int::new(1, -2, 3, -4).sqr_magnitude(), 30);
    assert_eq!(Vector3Int::new(0, 0, 0).sqr_magnitude(), 0);
}

#[test]
fn int_vector_clamp() {
    let mut v = Vector3Int::new(-5, 10, 2);
    v.clamp(Vector3Int::new(0, 0, 0), Vector3Int::new(4, 4, 4));
    assert!(v.equals(Vector3Int::new(0, 4, 2)));

    let mut v = Vector2Int::new(-7, 7);
    v.clamp(Vector2Int::new(-1, -1), Vector2Int::new(1, 1));
    assert!(v.equals(Vector2Int::new(-1, 1)));

    let mut v = Vector4Int::new(9, -9, 0, 5);
    v.clamp(Vector4Int::new(-2, -2, -2, -2), Vector4Int::new(2, 2, 2, 2));
    assert!(v.equals(Vector4Int::new(2, -2, 0, 2)));
}

#[test]
fn int_vector_truncating_casts() {
    let v = Vector3Int::new(-1, 256, 255);
    assert_eq!(v.to_u8_array(), [255, 0, 255]);
    assert_eq!(v.to_i8_array(), [-1, 0, -1]);
    assert_eq!(v.to_u16_array(), [65535, 256, 255]);
    assert_eq!(v.to_i16_array(), [-1, 256, 255]);
    assert_eq!(v.to_u32_array(), [u32::MAX, 256, 255]);

    let v = Vector2Int::new(-300, 70000);
    assert_eq!(v.to_u8_array(), [(-300i32) as u8, 70000i32 as u8]);
    assert_eq!(v.to_i16_array(), [(-300i32) as i16, 70000i32 as i16]);

    let v = Vector4Int::new(1, 2, 3, 4);
    assert_eq!(v.to_u32_array(), [1, 2, 3, 4]);
    assert_eq!(v.to_i8_array(), [1, 2, 3, 4]);
}

#[test]
fn int_vector_accessors() {
    let mut v = Vector4Int::new(1, 2, 3, 4);
    assert_eq!((v.x(), v.y(), v.z(), v.w()), (1, 2, 3, 4));
    v.set(4, 3, 2, 1);
    assert_eq!(v.as_slice(), &[4, 3, 2, 1]);
    let v3 = Vector3Int::from_array([7, 8, 9]);
    assert_eq!((v3.x(), v3.y(), v3.z()), (7, 8, 9));
    let v2 = Vector2Int::new(5, 6);
    assert_eq!((v2.x(), v2.y()), (5, 6));
    assert_eq!(v2.as_slice(), &[5, 6]);
}
