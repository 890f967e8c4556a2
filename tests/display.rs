use std::iter::{empty, once, successors};

use scooby::tools::joined;

#[test]
fn no_items() {
    let items: Vec<String> = empty::<usize>().map(|x| x.to_string()).collect();
    assert_eq!(joined(&items, ", "), "");
}

#[test]
fn one_item() {
    let items: Vec<String> = once("asdf").map(|x| x.to_string()).collect();
    assert_eq!(joined(&items, ", "), "asdf");
}

#[test]
fn two_items() {
    let items: Vec<String> = successors(Some(0), |x| Some(x + 1))
        .take(2)
        .map(|x: i32| x.to_string())
        .collect();
    assert_eq!(joined(&items, ", "), "0, 1");
}

#[test]
fn a_few_items() {
    let items: Vec<String> = successors(Some(0), |x| Some(x + 1))
        .take(10)
        .map(|x: i32| x.to_string())
        .collect();
    assert_eq!(joined(&items, ", "), "0, 1, 2, 3, 4, 5, 6, 7, 8, 9");
}

#[test]
fn joined_with_other_separator() {
    let items = vec!["a".to_string(), "".to_string(), "c".to_string()];
    assert_eq!(joined(&items, " AND "), "a AND  AND c");
}
