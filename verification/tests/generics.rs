use rust_basics::generics::{add, some_fn, some_fn1, Point2};

#[test]
fn add_of_one_and_two_is_three() {
    let a = 1;
    let b = 2;
    let c = add(a, b);
    assert_eq!(c, 3);
}

#[test]
fn add_works_on_other_integer_types() {
    assert_eq!(add(200u8, 55u8), 255u8);
    assert_eq!(add(-3i64, 10i64), 7i64);
    assert_eq!(add(usize::MAX - 1, 1usize), usize::MAX);
    assert_eq!(add(i32::MIN, i32::MAX), -1);
}

#[test]
fn point_x_borrows_the_first_coordinate() {
    let p4 = Point2 { x: 1, y: 2 };
    assert_eq!(*p4.x(), 1);
    assert_eq!(p4.y, 2);
}

#[test]
fn point_x_on_other_types() {
    let words = Point2 { x: String::from("left"), y: String::from("right") };
    assert_eq!(words.x(), "left");
    assert_eq!(words.x, "left");
    let flags = Point2 { x: true, y: false };
    assert!(*flags.x());
}

#[test]
fn some_fn_answers_zero() {
    assert_eq!(some_fn(&1, &"text"), 0);
    assert_eq!(some_fn(&String::from("shown"), &vec![1u8, 2, 3]), 0);
}

#[test]
fn some_fn1_answers_zero() {
    assert_eq!(some_fn1(&1, &"text"), 0);
    assert_eq!(some_fn1(&'c', &Some(3u64)), 0);
}
