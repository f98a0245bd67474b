use fixed_vectors::Vector3;

#[test]
fn vector3_new() {
    let vec: Vector3<f32> = Vector3::new(0.5, 0.5, 0.6);
    assert!(vec.x == 0.5 && vec.y == 0.5 && vec.z == 0.6);
}

#[test]
fn vector3_default() {
    assert_eq!(
        Vector3::default(),
        Vector3::new(i32::default(), i32::default(), i32::default())
    );
}

#[test]
fn vector3_eq() {
    assert_eq!(Vector3::new(0, 1, 2), Vector3::new(0, 1, 2));
}

#[test]
fn vector3_ne() {
    assert_ne!(Vector3::new(0, 1, 3), Vector3::new(0, 0, 2));
}

#[test]
fn vector3_add() {
    let v = Vector3::new(0, 1, 2) + Vector3::new(1, 0, 2);
    assert_eq!(v, Vector3::new(1, 1, 4));

    let mut v = Vector3::new(2, 1, 3);
    v.add_assign(Vector3::new(0, 1, 3));
    assert_eq!(v, Vector3::new(2, 2, 6));
}

#[test]
fn vector3_sub() {
    let v = Vector3::new(3, 2, 5) - Vector3::new(1, 1, 4);
    assert_eq!(v, Vector3::new(2, 1, 1));

    let mut v = Vector3::new(6, 4, 7);
    v.sub_assign(Vector3::new(3, 2, 4));
    assert_eq!(v, Vector3::new(3, 2, 3));
}

#[test]
fn vector3_mul() {
    let v = Vector3::new(6, 3, 8) * Vector3::new(2, 2, 2);
    assert_eq!(v, Vector3::new(12, 6, 16));

    let mut v = Vector3::new(7, 4, 9);
    v.mul_assign(Vector3::new(3, 5, 3));
    assert_eq!(v, Vector3::new(21, 20, 27));
}

#[test]
fn vector3_div() {
    let v = Vector3::new(12, 6, 18) / Vector3::new(2, 2, 2);
    assert_eq!(v, Vector3::new(6, 3, 9));

    let mut v = Vector3::new(32, 50, 96);
    v.div_assign(Vector3::new(4, 25, 8));
    assert_eq!(v, Vector3::new(8, 2, 12));
}

#[test]
fn vector3_rem() {
    let v = Vector3::new(12, 6, 19) % Vector3::new(2, 2, 11);
    assert_eq!(v, Vector3::new(0, 0, 8));

    let mut v = Vector3::new(32, 50, 27);
    v.rem_assign(Vector3::new(5, 9, 3));
    assert_eq!(v, Vector3::new(2, 5, 0));
}

#[test]
fn vector3_from() {
    assert_eq!(Vector3::from((5, 3, 7)), Vector3::new(5, 3, 7));
    assert_eq!(Vector3::from([4, 2, 9]), Vector3::new(4, 2, 9));
}

#[test]
fn vector3_as_tuple() {
    assert_eq!(Vector3::new(13, 37, 0).as_tuple(), (13, 37, 0));
}

#[test]
fn vector3_as_array() {
    assert_eq!(Vector3::new(13, 37, 0).as_array(), [13, 37, 0]);
}

#[test]
fn vector3_index() {
    let mut vec: Vector3<&str> = Vector3::new("we", "big", "chillin");
    assert_eq!(*vec.index(0), "we");
    assert_eq!(*vec.index(1), "big");
    assert_eq!(*vec.index(2), "chillin");

    *vec.index_mut(0) = "some";
    *vec.index_mut(1) = "new";
    *vec.index_mut(2) = "values";
    assert_eq!(*vec.index(0), "some");
    assert_eq!(*vec.index(1), "new");
    assert_eq!(*vec.index(2), "values");
}
