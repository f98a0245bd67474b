use fixed_vectors::Vector2;

#[test]
fn vector2_new() {
    let vec: Vector2<f32> = Vector2::new(0.5, 0.5);
    assert!(vec.x == 0.5 && vec.y == 0.5);
}

#[test]
fn vector2_default() {
    assert_eq!(Vector2::default(), Vector2::new(i32::default(), i32::default()));
}

#[test]
fn vector2_eq() {
    assert_eq!(Vector2::new(0, 1), Vector2::new(0, 1));
}

#[test]
fn vector2_ne() {
    assert_ne!(Vector2::new(0, 1), Vector2::new(0, 0));
}

#[test]
fn vector2_add() {
    let v = Vector2::new(0, 1) + Vector2::new(1, 0);
    assert_eq!(v, Vector2::new(1, 1));

    let mut v = Vector2::new(2, 1);
    v.add_assign(Vector2::new(0, 1));
    assert_eq!(v, Vector2::new(2, 2));
}

#[test]
fn vector2_sub() {
    let v = Vector2::new(3, 2) - Vector2::new(1, 1);
    assert_eq!(v, Vector2::new(2, 1));

    let mut v = Vector2::new(6, 4);
    v.sub_assign(Vector2::new(3, 2));
    assert_eq!(v, Vector2::new(3, 2));
}

#[test]
fn vector2_mul() {
    let v = Vector2::new(6, 3) * Vector2::new(2, 2);
    assert_eq!(v, Vector2::new(12, 6));

    let mut v = Vector2::new(7, 4);
    v.mul_assign(Vector2::new(3, 5));
    assert_eq!(v, Vector2::new(21, 20));
}

#[test]
fn vector2_div() {
    let v = Vector2::new(12, 6) / Vector2::new(2, 2);
    assert_eq!(v, Vector2::new(6, 3));

    let mut v = Vector2::new(32, 50);
    v.div_assign(Vector2::new(4, 25));
    assert_eq!(v, Vector2::new(8, 2));
}

#[test]
fn vector2_rem() {
    let v = Vector2::new(12, 6) % Vector2::new(2, 2);
    assert_eq!(v, Vector2::new(0, 0));

    let mut v = Vector2::new(32, 50);
    v.rem_assign(Vector2::new(5, 9));
    assert_eq!(v, Vector2::new(2, 5));
}

#[test]
fn vector2_from() {
    assert_eq!(Vector2::from((5, 3)), Vector2::new(5, 3));
    assert_eq!(Vector2::from([4, 2]), Vector2::new(4, 2));
}

#[test]
fn vector2_as_tuple() {
    assert_eq!(Vector2::new(13, 37).as_tuple(), (13, 37));
}

#[test]
fn vector2_as_array() {
    assert_eq!(Vector2::new(13, 37).as_array(), [13, 37]);
}

#[test]
fn vector2_index() {
    let mut vec: Vector2<&str> = Vector2::new("vector", "2");
    assert_eq!(*vec.index(0), "vector");
    assert_eq!(*vec.index(1), "2");

    *vec.index_mut(0) = "new";
    *vec.index_mut(1) = "values";
    assert_eq!(*vec.index(0), "new");
    assert_eq!(*vec.index(1), "values");
}
