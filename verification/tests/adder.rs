use memo_cache::adder::{add_two, internal_adder};

#[test]
fn internal() {
    assert_eq!(4, internal_adder(2, 2));
}

#[test]
fn it_adds_two() {
    assert_eq!(4, add_two(2));
}

#[test]
fn adds_negative_numbers() {
    assert_eq!(-5, internal_adder(-2, -3));
    assert_eq!(0, add_two(-2));
}
