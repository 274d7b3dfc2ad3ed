use rust_basics::arith::{add_two, add_with_extra, plus_five};

#[test]
fn add_with_extra_of_one_and_two_is_five() {
    assert_eq!(add_with_extra(1, 2), 5);
}

#[test]
fn add_with_extra_on_other_values() {
    assert_eq!(add_with_extra(0, 0), 2);
    assert_eq!(add_with_extra(-1, -1), 0);
    assert_eq!(add_with_extra(-10, 3), -5);
    assert_eq!(add_with_extra(i32::MAX - 1, i32::MIN), 0);
    assert_eq!(add_with_extra(i32::MAX - 2, 0), i32::MAX);
}

#[test]
fn add_two_of_one_and_two_is_three() {
    assert_eq!(add_two(1, 2), 3);
}

#[test]
fn add_two_on_other_values() {
    assert_eq!(add_two(0, 0), 0);
    assert_eq!(add_two(-5, 5), 0);
    assert_eq!(add_two(i32::MAX, i32::MIN), -1);
    assert_eq!(add_two(i32::MAX - 1, 1), i32::MAX);
    assert_eq!(add_two(i32::MIN + 1, -1), i32::MIN);
}

#[test]
fn plus_five_of_one_is_six() {
    assert_eq!(plus_five(1), 6);
}

#[test]
fn plus_five_on_other_values() {
    assert_eq!(plus_five(0), 5);
    assert_eq!(plus_five(-5), 0);
    assert_eq!(plus_five(i32::MIN), i32::MIN + 5);
    assert_eq!(plus_five(i32::MAX - 5), i32::MAX);
}
