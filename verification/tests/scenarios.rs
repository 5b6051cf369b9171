use static_vector::vector::OutOfRange;
use static_vector::Vector;

#[test]
fn construct_read_and_render() {
    let v = Vector::from([1, 2, 3]);
    assert_eq!(v[0], 1);
    assert_eq!(v[1], 2);
    assert_eq!(v[2], 3);
    assert_eq!(v.fmt(), Ok(String::from("(1; 2; 3)")));
}

#[test]
fn add_and_subtract_give_new_vectors() {
    let a = Vector::from([10, 20, 30]);
    let b = Vector::from([1, 2, 3]);
    assert_eq!(a + b, Vector::from([11, 22, 33]));
    assert_eq!(a - b, Vector::from([9, 18, 27]));
    assert_eq!(a, Vector::from([10, 20, 30]));
    assert_eq!(b, Vector::from([1, 2, 3]));
}

#[test]
fn add_in_place_then_subtract_in_place() {
    let mut a = Vector::from([5, 5]);
    let b = Vector::from([1, 2]);
    a += b;
    assert_eq!(a, Vector::from([6, 7]));
    a -= b;
    assert_eq!(a, Vector::from([5, 5]));
}

#[test]
fn empty_vector_renders_and_has_no_first_element() {
    let e: Vector<i32, 0> = Vector::from([]);
    assert_eq!(e.fmt(), Ok(String::from("()")));
    assert_eq!(e.get(0), Err(OutOfRange { index: 0, count: 0 }));
}

#[test]
fn write_at_one_position() {
    let mut v = Vector::from([7, 8, 9]);
    v[1] = 0;
    assert_eq!(v, Vector::from([7, 0, 9]));
}

#[test]
fn equal_and_unequal_vectors() {
    let a = Vector::from([1, 2]);
    let b = Vector::from([1, 2]);
    let c = Vector::from([2, 1]);
    assert!(a == b);
    assert!(a != c);
}
