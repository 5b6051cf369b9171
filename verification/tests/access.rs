use static_vector::vector::OutOfRange;
use static_vector::Vector;

#[test]
fn construction_keeps_every_element_in_place() {
    let values = [4u8, 8, 15, 16, 23, 42];
    let v = Vector::from(values);
    for i in 0..values.len() {
        assert_eq!(v[i], values[i]);
        assert_eq!(v.get(i), Ok(&values[i]));
    }
}

#[test]
fn construction_of_one_element() {
    let v = Vector::from([-7i64]);
    assert_eq!(v[0], -7);
}

#[test]
fn get_past_the_end_reports_the_position() {
    let v = Vector::from([1, 2, 3]);
    assert_eq!(v.get(3), Err(OutOfRange { index: 3, count: 3 }));
    assert_eq!(v.get(usize::MAX), Err(OutOfRange { index: usize::MAX, count: 3 }));
}

#[test]
fn get_at_the_last_position() {
    let v = Vector::from([1, 2, 3]);
    assert_eq!(v.get(2), Ok(&3));
}

#[test]
fn set_replaces_one_element() {
    let mut v = Vector::from([7, 8, 9]);
    assert_eq!(v.set(1, 0), Ok(()));
    assert_eq!(v, Vector::from([7, 0, 9]));
}

#[test]
fn set_past_the_end_changes_nothing() {
    let mut v = Vector::from([7, 8, 9]);
    assert_eq!(v.set(3, 0), Err(OutOfRange { index: 3, count: 3 }));
    assert_eq!(v, Vector::from([7, 8, 9]));
}

#[test]
fn nothing_can_be_read_or_written_in_an_empty_vector() {
    let mut e: Vector<i32, 0> = Vector::from([]);
    assert_eq!(e.get(0), Err(OutOfRange { index: 0, count: 0 }));
    assert_eq!(e.set(0, 1), Err(OutOfRange { index: 0, count: 0 }));
}

#[test]
fn index_operator_writes_in_place() {
    let mut v = Vector::from([7, 8, 9]);
    v[1] = 0;
    assert_eq!(v[0], 7);
    assert_eq!(v[1], 0);
    assert_eq!(v[2], 9);
}

#[test]
fn index_operator_updates_through_the_old_value() {
    let mut v = Vector::from([1u32, 2]);
    v[0] += 10;
    v[1] *= 3;
    assert_eq!(v, Vector::from([11, 6]));
}

#[test]
fn equal_vectors_have_equal_elements_in_order() {
    let a = Vector::from([1, 2]);
    let b = Vector::from([1, 2]);
    let c = Vector::from([2, 1]);
    assert!(a == b);
    assert!(a != c);
    assert!(!(a == c));
}

#[test]
fn vectors_that_differ_in_the_last_element_are_unequal() {
    let a = Vector::from([1, 2, 3, 4]);
    let b = Vector::from([1, 2, 3, 5]);
    assert!(a != b);
}

#[test]
fn empty_vectors_are_equal() {
    let a: Vector<u8, 0> = Vector::from([]);
    let b: Vector<u8, 0> = Vector::from([]);
    assert!(a == b);
}

#[test]
fn a_copy_is_independent_of_its_origin() {
    let first = Vector::from([1, 2, 3]);
    let mut copy = first;
    copy[0] = 100;
    assert_eq!(copy.set(2, 300), Ok(()));
    assert_eq!(first, Vector::from([1, 2, 3]));
    assert_eq!(copy, Vector::from([100, 2, 300]));
}

#[test]
fn a_clone_is_equal_and_independent() {
    let first = Vector::from([5u16, 6]);
    let mut clone = first.clone();
    assert_eq!(clone, first);
    clone[1] = 0;
    assert_eq!(first, Vector::from([5, 6]));
    assert_eq!(clone, Vector::from([5, 0]));
}

#[test]
fn debug_text_names_the_type_and_lists_the_elements() {
    let v = Vector::from([1, 2, 3]);
    assert_eq!(format!("{:?}", v), "Vector { values: [1, 2, 3] }");
}

#[test]
fn out_of_range_can_be_copied_and_compared() {
    let e = OutOfRange { index: 4, count: 2 };
    let f = e;
    assert_eq!(e, f);
    assert_ne!(e, OutOfRange { index: 5, count: 2 });
    assert_eq!(e.index, 4);
    assert_eq!(e.count, 2);
}
