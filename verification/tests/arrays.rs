use memo_cache::arrays::{largest, split_at_mut};

#[test]
fn largest_of_number_list() {
    let number_list = vec![34, 50, 25, 100, 65];
    assert_eq!(largest(&number_list), 100);
}

#[test]
fn largest_of_single_element() {
    assert_eq!(largest(&vec![-7]), -7);
}

#[test]
fn largest_with_duplicates() {
    assert_eq!(largest(&vec![3, 9, 9, 1]), 9);
}

#[test]
fn split_in_the_middle() {
    let v = vec![1, 2, 3, 4, 5, 6];
    let (a, b) = split_at_mut(&v, 3);
    assert_eq!(a, vec![1, 2, 3]);
    assert_eq!(b, vec![4, 5, 6]);
}

#[test]
fn split_at_the_ends() {
    let v = vec![1, 2, 3];
    let (a, b) = split_at_mut(&v, 0);
    assert_eq!(a, Vec::<i32>::new());
    assert_eq!(b, vec![1, 2, 3]);

    let (a, b) = split_at_mut(&v, 3);
    assert_eq!(a, vec![1, 2, 3]);
    assert_eq!(b, Vec::<i32>::new());
}
