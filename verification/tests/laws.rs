//! The laws of joining and appending, on chosen values.

use tuple_join::{Append, Appended, Join, Joined};

#[test]
fn split_undoes_join() {
    let left = (1u8, "two", 3.5f64);
    let right = ('4', false);
    let parts: ((u8, &str, f64), (char, bool)) = left.join(right).split();
    assert_eq!(parts, (left, right));
}

#[test]
fn split_undoes_join_of_owned_values() {
    let left = (String::from("one"), vec![2u8, 2]);
    let right = (Some(String::from("three")),);
    let joined = left.clone().join(right.clone());
    assert_eq!(joined, (String::from("one"), vec![2u8, 2], Some(String::from("three"))));
    let parts: ((String, Vec<u8>), (Option<String>,)) = joined.split();
    assert_eq!(parts, (left, right));
}

#[test]
fn join_undoes_split() {
    let tuple = (1i64, 'b', "c", 4u16, [5u8; 2]);
    let (left, right): ((i64, char), (&str, u16, [u8; 2])) = tuple.split();
    assert_eq!(left, (1i64, 'b'));
    assert_eq!(right, ("c", 4u16, [5u8; 2]));
    assert_eq!(left.join(right), tuple);
}

#[test]
fn join_undoes_split_at_every_position() {
    let tuple = (1, 2, 3);
    let (a, b): ((), (i32, i32, i32)) = tuple.split();
    assert_eq!(a.join(b), tuple);
    let (a, b): ((i32,), (i32, i32)) = tuple.split();
    assert_eq!(a.join(b), tuple);
    let (a, b): ((i32, i32), (i32,)) = tuple.split();
    assert_eq!(a.join(b), tuple);
    let (a, b): ((i32, i32, i32), ()) = tuple.split();
    assert_eq!(a.join(b), tuple);
}

#[test]
fn empty_on_the_left_changes_nothing() {
    assert_eq!(().join(()), ());
    assert_eq!(().join((1,)), (1,));
    assert_eq!(().join(("a", 2u8, 'c')), ("a", 2u8, 'c'));
    assert_eq!(().join((1, 2, 3, 4, 5, 6, 7, 8, 9, 10, 11, 12)), (1, 2, 3, 4, 5, 6, 7, 8, 9, 10, 11, 12));
}

#[test]
fn empty_on_the_right_changes_nothing() {
    assert_eq!(().join(()), ());
    assert_eq!((1,).join(()), (1,));
    assert_eq!(("a", 2u8, 'c').join(()), ("a", 2u8, 'c'));
    assert_eq!((1, 2, 3, 4, 5, 6, 7, 8, 9, 10, 11, 12).join(()), (1, 2, 3, 4, 5, 6, 7, 8, 9, 10, 11, 12));
}

#[test]
fn split_against_empty_gives_the_tuple_and_empty() {
    let tuple = ("a", 2u8, 'c');
    let parts: ((&str, u8, char), ()) = tuple.split();
    assert_eq!(parts, (tuple, ()));
    let parts: ((), (&str, u8, char)) = tuple.split();
    assert_eq!(parts, ((), tuple));
    let parts: ((), ()) = ().split();
    assert_eq!(parts, ((), ()));
}

#[test]
fn pop_undoes_push() {
    let tuple = (1u8, "two");
    let parts: ((u8, &str), char) = tuple.push('3').pop();
    assert_eq!(parts, (tuple, '3'));
}

#[test]
fn pop_undoes_push_of_owned_values() {
    let tuple = (String::from("one"), vec![2u8]);
    let last = Some(3u32);
    let pushed = tuple.clone().push(last);
    assert_eq!(pushed, (String::from("one"), vec![2u8], Some(3u32)));
    assert_eq!(<(String, Vec<u8>) as Append<Option<u32>>>::pop(pushed), (tuple, last));
}

#[test]
fn push_undoes_pop() {
    let tuple = ('a', 2u64, "c", 4.0f32);
    let (init, last): ((char, u64, &str), f32) = tuple.pop();
    assert_eq!(init, ('a', 2u64, "c"));
    assert_eq!(last, 4.0f32);
    assert_eq!(init.push(last), tuple);
}

#[test]
fn push_onto_empty_makes_a_one_tuple() {
    assert_eq!(().push(7), (7,));
    let parts: ((), i32) = (7,).pop();
    assert_eq!(parts, ((), 7));
}

#[test]
fn push_is_join_with_a_one_tuple() {
    assert_eq!((1, 2).push(3), (1, 2).join((3,)));
    assert_eq!((1, "b").push('c'), (1, "b").join(('c',)));
}

#[test]
fn pop_is_split_against_a_one_tuple() {
    let tuple = (1, "b", 'c');
    let (init, last): ((i32, &str), char) = tuple.pop();
    let (left, right): ((i32, &str), (char,)) = tuple.split();
    assert_eq!(init, left);
    assert_eq!((last,), right);
}

#[test]
fn a_tuple_as_an_element_stays_one_element() {
    assert_eq!((1, 2).push((3, 4)), (1, 2, (3, 4)));
    assert_eq!(((1, 2), 3).join(((4, 5),)), ((1, 2), 3, (4, 5)));
    let parts: ((i32,), (i32, i32)) = (1, (2, 3)).pop();
    assert_eq!(parts, ((1,), (2, 3)));
}

#[test]
fn elements_keep_their_order() {
    assert_ne!((1, 2).join((3, 4)), (3, 4, 1, 2));
    assert_eq!((3, 4).join((1, 2)), (3, 4, 1, 2));
}
