use fixed_vectors::{IntegerVector, TuplableVector, Vector, Vector2, Vector3, Vector4, VectorError};

use std::collections::hash_map::DefaultHasher;
use std::hash::{Hash, Hasher};

#[test]
fn round_trip_array() {
    let v = Vector2::new(7, -3);
    assert_eq!(Vector2::from(v.to_array()), v);
    let v = Vector3::new(7, -3, 11);
    assert_eq!(Vector3::from(v.to_array()), v);
    let v = Vector4::new(7, -3, 11, 0);
    assert_eq!(Vector4::from(v.to_array()), v);
}

#[test]
fn round_trip_tuple() {
    let v = Vector2::new(7, -3);
    assert_eq!(Vector2::from(v.to_tuple()), v);
    let v = Vector3::new(7, -3, 11);
    assert_eq!(Vector3::from(v.to_tuple()), v);
    let v = Vector4::new(7, -3, 11, 0);
    assert_eq!(Vector4::from(v.to_tuple()), v);
}

#[test]
fn round_trip_vec() {
    let v = Vector2::new(7, -3);
    assert_eq!(Vector2::try_from(v.to_vec()), Ok(v));
    let v = Vector3::new(7, -3, 11);
    assert_eq!(Vector3::try_from(v.to_vec()), Ok(v));
    let v = Vector4::new(7, -3, 11, 0);
    assert_eq!(Vector4::try_from(v.to_vec()), Ok(v));
}

#[test]
fn order_preservation() {
    let v = Vector4::new(10, 20, 30, 40);
    assert_eq!(v.to_array(), [10, 20, 30, 40]);
    assert_eq!(v.to_vec(), vec![10, 20, 30, 40]);
    assert_eq!(v.as_tuple(), (10, 20, 30, 40));
    assert_eq!(*v.index(0), 10);
    assert_eq!(*v.index(1), 20);
    assert_eq!(*v.index(2), 30);
    assert_eq!(*v.index(3), 40);
    let v = Vector3::new(10, 20, 30);
    assert_eq!(v.to_array(), [10, 20, 30]);
    assert_eq!(*v.index(2), 30);
}

#[test]
fn arithmetic_identity() {
    let v = Vector2::new(5, -9);
    let zero = Vector2::new(0, 0);
    assert_eq!(v + zero, v);
    assert_eq!(v - v, zero);
    assert_eq!(v * 1, v);
    let v = Vector3::new(5, -9, 17);
    let zero = Vector3::new(0, 0, 0);
    assert_eq!(v + zero, v);
    assert_eq!(v - v, zero);
    assert_eq!(v * 1, v);
    let v = Vector4::new(5, -9, 17, 2);
    let zero = Vector4::new(0, 0, 0, 0);
    assert_eq!(v + zero, v);
    assert_eq!(v - v, zero);
    assert_eq!(v * 1, v);
}

fn hash_of<T: Hash>(value: &T) -> u64 {
    let mut hasher = DefaultHasher::new();
    value.hash(&mut hasher);
    hasher.finish()
}

#[test]
fn eq_hash_consistency() {
    let a = Vector3::new(4, -2, 8);
    let b = Vector3::new(4, -2, 8);
    assert_eq!(a, b);
    assert_eq!(hash_of(&a), hash_of(&b));
    let c = Vector2::new("x", "y");
    let d = Vector2::new("x", "y");
    assert_eq!(c, d);
    assert_eq!(hash_of(&c), hash_of(&d));
}

#[test]
fn conversion_failure_short() {
    assert_eq!(
        Vector2::<i32>::try_from(vec![1]),
        Err(VectorError::CannotConvertFromImproperlySizedCollection)
    );
    assert_eq!(
        Vector3::<i32>::try_from(vec![1, 2]),
        Err(VectorError::CannotConvertFromImproperlySizedCollection)
    );
    assert_eq!(
        Vector4::<i32>::try_from(vec![1, 2, 3]),
        Err(VectorError::CannotConvertFromImproperlySizedCollection)
    );
    assert_eq!(
        Vector2::<i32>::try_from(vec![]),
        Err(VectorError::CannotConvertFromImproperlySizedCollection)
    );
}

#[test]
fn conversion_ignores_trailing() {
    assert_eq!(Vector2::try_from(vec![1]), Err(VectorError::CannotConvertFromImproperlySizedCollection));
    assert_eq!(Vector2::try_from(vec![1, 2]), Ok(Vector2::new(1, 2)));
    assert_eq!(Vector2::try_from(vec![1, 2, 3]), Ok(Vector2::new(1, 2)));
    assert_eq!(Vector3::try_from(vec![1, 2, 3, 9, 9]), Ok(Vector3::new(1, 2, 3)));
    assert_eq!(Vector4::try_from(vec![1, 2, 3, 4, 9]), Ok(Vector4::new(1, 2, 3, 4)));
}

#[test]
fn display_format() {
    assert_eq!(Vector2::new(4, 2).to_display_string(), "(4, 2)");
    assert_eq!(Vector3::new(1, -2, 3).to_display_string(), "(1, -2, 3)");
    assert_eq!(Vector4::new(0, 0, 0, 0).to_display_string(), "(0, 0, 0, 0)");
}

#[test]
fn debug_format() {
    assert_eq!(Vector2::new(0, 1).to_debug_string(), "Vector2 { x: 0, y: 1 }");
    assert_eq!(format!("{:?}", Vector2::new(0, 1)), "Vector2 { x: 0, y: 1 }");
    assert_eq!(
        Vector3::new(-5, 6, 7).to_debug_string(),
        "Vector3 { x: -5, y: 6, z: 7 }"
    );
    assert_eq!(
        Vector4::new(1, 2, 3, 4).to_debug_string(),
        "Vector4 { x: 1, y: 2, z: 3, w: 4 }"
    );
}

#[test]
fn display_format_extremes() {
    assert_eq!(
        Vector2::new(i64::MIN, i64::MAX).to_display_string(),
        "(-9223372036854775808, 9223372036854775807)"
    );
}

#[test]
fn sum_components() {
    let total: i32 = Vector3::new(1, 2, 3).to_vec().into_iter().sum();
    assert_eq!(total, 6);
}

#[test]
fn dot_product() {
    assert_eq!(Vector2::new(2, 4).dot(&Vector2::new(2, 4)), 20);
    assert_eq!(Vector3::new(1, 2, 3).dot(&Vector3::new(4, 5, 6)), 32);
    assert_eq!(Vector4::new(1, 1, 1, 1).dot(&Vector4::new(1, 2, 3, 4)), 10);
}

#[test]
fn length_squared_values() {
    assert_eq!(Vector2::new(3, 4).length_squared(), 25);
    assert_eq!(Vector3::new(-1, 2, -2).length_squared(), 9);
    assert_eq!(Vector4::new(0, 0, 0, 0).length_squared(), 0);
}

#[test]
fn integer_pow() {
    assert_eq!(
        IntegerVector::pow(Vector3::new(2, 4, 6), 2),
        Vector3::new(4, 16, 36)
    );
    assert_eq!(IntegerVector::pow(Vector2::new(-3, 5), 3), Vector2::new(-27, 125));
    assert_eq!(IntegerVector::pow(Vector2::new(9, 9), 0), Vector2::new(1, 1));
}

#[test]
fn min_max_reduction() {
    let v = Vector4::new(3, 9, -4, 9);
    assert_eq!(v.max(), 9);
    assert_eq!(v.min(), -4);
    let v = Vector2::new(7, 7);
    assert_eq!(v.max(), 7);
    assert_eq!(v.min(), 7);
}

#[test]
fn trait_name_len_size() {
    let v2 = Vector2::new(0u8, 0u8);
    let v3 = Vector3::new(0u16, 0u16, 0u16);
    let v4 = Vector4::new(0, 0, 0, 0);
    assert_eq!(Vector::name(&v2), "Vector2");
    assert_eq!(Vector::name(&v3), "Vector3");
    assert_eq!(Vector::name(&v4), "Vector4");
    assert_eq!(Vector::len(&v2), 2);
    assert_eq!(Vector::len(&v3), 3);
    assert_eq!(Vector::len(&v4), 4);
    assert_eq!(Vector::size(&v2), 2);
    assert_eq!(Vector::size(&v3), 6);
}

#[test]
fn trait_conversions() {
    let v = Vector3::new(1, 2, 3);
    assert_eq!(Vector::to_array(v), [1, 2, 3]);
    let v = Vector3::new(1, 2, 3);
    assert_eq!(Vector::to_vec(v), vec![1, 2, 3]);
    let v = Vector3::new(1, 2, 3);
    assert_eq!(TuplableVector::to_tuple(v), (1, 2, 3));
}

#[test]
fn accessors() {
    let mut v = Vector3::new(1, 2, 3);
    assert_eq!(*v.get_x(), 1);
    assert_eq!(*v.get_y(), 2);
    assert_eq!(*v.get_z(), 3);
    v.set_x(10);
    v.set_y(20);
    v.set_z(30);
    assert_eq!(v, Vector3::new(10, 20, 30));
    *v.get_x_mut() += 1;
    *v.get_y_mut() += 1;
    *v.get_z_mut() += 1;
    assert_eq!(v, Vector3::new(11, 21, 31));
}

#[test]
fn from_value_broadcast() {
    assert_eq!(Vector2::from_value(7), Vector2::new(7, 7));
    assert_eq!(Vector3::from_value(7), Vector3::new(7, 7, 7));
    assert_eq!(Vector4::from_value(7), Vector4::new(7, 7, 7, 7));
}

#[test]
fn negation_and_bit_ops() {
    assert_eq!(-Vector2::new(3, -4), Vector2::new(-3, 4));
    assert_eq!(Vector2::new(0b1100, 0b1010) & Vector2::new(0b1010, 0b1010), Vector2::new(0b1000, 0b1010));
    assert_eq!(Vector2::new(0b1100, 0b0001) | Vector2::new(0b0011, 0b0010), Vector2::new(0b1111, 0b0011));
    assert_eq!(Vector2::new(0b1100, 0b0110) ^ Vector2::new(0b1010, 0b0110), Vector2::new(0b0110, 0b0000));
    let mut v = Vector2::new(0b1100, 0b1010);
    v.bitand_assign(Vector2::new(0b1010, 0b1010));
    assert_eq!(v, Vector2::new(0b1000, 0b1010));
    let mut v = Vector2::new(0b1100, 0b0001);
    v.bitor_assign(Vector2::new(0b0011, 0b0010));
    assert_eq!(v, Vector2::new(0b1111, 0b0011));
    let mut v = Vector2::new(0b1100, 0b0110);
    v.bitxor_assign(Vector2::new(0b1010, 0b0110));
    assert_eq!(v, Vector2::new(0b0110, 0b0000));
}

#[test]
fn truncating_division() {
    assert_eq!(Vector2::new(-7, 7) / Vector2::new(2, -2), Vector2::new(-3, -3));
    assert_eq!(Vector2::new(-7, 7) % Vector2::new(2, -2), Vector2::new(-1, 1));
}
