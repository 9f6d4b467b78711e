//! The crate's documented examples.

use tuple_join::{Append, Appended, Join, Joined};

#[test]
fn join_pair_with_four() {
    assert_eq!((1, 2).join((3, 4, 5, 6)), (1, 2, 3, 4, 5, 6));
}

#[test]
fn split_six_into_pair_and_four() {
    assert_eq!((1, 2, 3, 4, 5, 6).split(), ((1, 2), (3, 4, 5, 6)));
}

#[test]
fn push_str_onto_triple() {
    assert_eq!((1, 2, 3).push("hello"), (1, 2, 3, "hello"));
}

#[test]
fn pop_last_str() {
    assert_eq!(("ferris", "the", "rustacean").pop(), (("ferris", "the"), "rustacean"));
}

#[test]
fn join_empty_with_pair() {
    assert_eq!(().join((1, 2)), (1, 2));
}

#[test]
fn join_pair_with_empty() {
    assert_eq!((1, 2).join(()), (1, 2));
}

#[test]
fn same_six_splits_at_every_position() {
    let six = (1, 2, 3, 4, 5, 6);
    assert_eq!(six.split(), ((), (1, 2, 3, 4, 5, 6)));
    assert_eq!(six.split(), ((1,), (2, 3, 4, 5, 6)));
    assert_eq!(six.split(), ((1, 2), (3, 4, 5, 6)));
    assert_eq!(six.split(), ((1, 2, 3), (4, 5, 6)));
    assert_eq!(six.split(), ((1, 2, 3, 4), (5, 6)));
    assert_eq!(six.split(), ((1, 2, 3, 4, 5), (6,)));
    assert_eq!(six.split(), ((1, 2, 3, 4, 5, 6), ()));
}

#[test]
fn split_by_the_relation() {
    let parts = <(i32, i32) as Join<(i32, i32, i32, i32)>>::split((1, 2, 3, 4, 5, 6));
    assert_eq!(parts, ((1, 2), (3, 4, 5, 6)));
}

#[test]
fn pop_by_the_relation() {
    let parts = <(&str, &str) as Append<&str>>::pop(("ferris", "the", "rustacean"));
    assert_eq!(parts, (("ferris", "the"), "rustacean"));
}
