//! Operands of the greatest arity, 13.

use tuple_join::{Append, Appended, Join, Joined};

type Thirteen = (u8, u8, u8, u8, u8, u8, u8, u8, u8, u8, u8, u8, u8);

const LOW: Thirteen = (1, 2, 3, 4, 5, 6, 7, 8, 9, 10, 11, 12, 13);

const HIGH: Thirteen = (14, 15, 16, 17, 18, 19, 20, 21, 22, 23, 24, 25, 26);

fn items(tuple: Thirteen) -> [u8; 13] {
    [
        tuple.0, tuple.1, tuple.2, tuple.3, tuple.4, tuple.5, tuple.6, tuple.7, tuple.8, tuple.9,
        tuple.10, tuple.11, tuple.12,
    ]
}

#[test]
fn thirteen_joins_with_thirteen() {
    let t = LOW.join(HIGH);
    assert_eq!(
        [
            t.0, t.1, t.2, t.3, t.4, t.5, t.6, t.7, t.8, t.9, t.10, t.11, t.12, t.13, t.14, t.15,
            t.16, t.17, t.18, t.19, t.20, t.21, t.22, t.23, t.24, t.25,
        ],
        [
            1, 2, 3, 4, 5, 6, 7, 8, 9, 10, 11, 12, 13, 14, 15, 16, 17, 18, 19, 20, 21, 22, 23, 24,
            25, 26,
        ],
    );
}

#[test]
fn twenty_six_splits_into_thirteen_and_thirteen() {
    let tuple =
        (1, 2, 3, 4, 5, 6, 7, 8, 9, 10, 11, 12, 13, 14, 15, 16, 17, 18, 19, 20, 21, 22, 23, 24, 25, 26);
    let (left, right): (Thirteen, Thirteen) = tuple.split();
    assert_eq!(items(left), items(LOW));
    assert_eq!(items(right), items(HIGH));
}

#[test]
fn split_undoes_join_at_thirteen() {
    let (left, right): (Thirteen, Thirteen) = LOW.join(HIGH).split();
    assert_eq!(items(left), items(LOW));
    assert_eq!(items(right), items(HIGH));
}

#[test]
fn join_undoes_split_at_thirteen() {
    let tuple =
        (1, 2, 3, 4, 5, 6, 7, 8, 9, 10, 11, 12, 13, 14, 15, 16, 17, 18, 19, 20, 21, 22, 23, 24, 25, 26);
    let (left, right): (Thirteen, Thirteen) = tuple.split();
    let t = left.join(right);
    assert_eq!(
        [
            t.0, t.1, t.2, t.3, t.4, t.5, t.6, t.7, t.8, t.9, t.10, t.11, t.12, t.13, t.14, t.15,
            t.16, t.17, t.18, t.19, t.20, t.21, t.22, t.23, t.24, t.25,
        ],
        [
            tuple.0, tuple.1, tuple.2, tuple.3, tuple.4, tuple.5, tuple.6, tuple.7, tuple.8,
            tuple.9, tuple.10, tuple.11, tuple.12, tuple.13, tuple.14, tuple.15, tuple.16,
            tuple.17, tuple.18, tuple.19, tuple.20, tuple.21, tuple.22, tuple.23, tuple.24,
            tuple.25,
        ],
    );
}

#[test]
fn thirteen_joins_with_empty_on_either_side() {
    assert_eq!(items(LOW.join(())), items(LOW));
    assert_eq!(items(().join(LOW)), items(LOW));
    let (left, right): (Thirteen, ()) = LOW.split();
    assert_eq!(items(left), items(LOW));
    assert_eq!(right, ());
    let (left, right): ((), Thirteen) = LOW.split();
    assert_eq!(left, ());
    assert_eq!(items(right), items(LOW));
}

#[test]
fn thirteen_takes_one_more_element() {
    let t = LOW.push("last");
    assert_eq!(
        [t.0, t.1, t.2, t.3, t.4, t.5, t.6, t.7, t.8, t.9, t.10, t.11, t.12],
        [1, 2, 3, 4, 5, 6, 7, 8, 9, 10, 11, 12, 13],
    );
    assert_eq!(t.13, "last");
    let (init, last): (Thirteen, &str) = t.pop();
    assert_eq!(items(init), items(LOW));
    assert_eq!(last, "last");
}

#[test]
fn twelve_takes_one_more_element() {
    let (init, last): ((u8, u8, u8, u8, u8, u8, u8, u8, u8, u8, u8, u8), u8) = LOW.pop();
    assert_eq!(init, (1, 2, 3, 4, 5, 6, 7, 8, 9, 10, 11, 12));
    assert_eq!(last, 13);
    assert_eq!(items(init.push(last)), items(LOW));
}

#[test]
fn one_joins_with_thirteen_on_either_side() {
    let t = ('a',).join(LOW);
    assert_eq!(t.0, 'a');
    assert_eq!(
        [t.1, t.2, t.3, t.4, t.5, t.6, t.7, t.8, t.9, t.10, t.11, t.12, t.13],
        items(LOW),
    );
    let t = LOW.join(('z',));
    assert_eq!(
        [t.0, t.1, t.2, t.3, t.4, t.5, t.6, t.7, t.8, t.9, t.10, t.11, t.12],
        items(LOW),
    );
    assert_eq!(t.13, 'z');
}

#[test]
fn every_position_keeps_its_type_at_thirteen() {
    let left = (1u8, 2u16, 3u32, 4u64, 5i8, 6i16, 7i32, 8i64, 'i', "j", true, [12u8; 1], Some(13));
    let right = ((), 1.5f32, 2.5f64, "q", 'r', false, 7usize, 8isize, None::<u8>, (1, 2), [0i8; 0], 12u128, "z");
    let t = left.join(right);
    assert_eq!((t.0, t.1, t.2, t.3, t.4, t.5, t.6), (1u8, 2u16, 3u32, 4u64, 5i8, 6i16, 7i32));
    assert_eq!((t.7, t.8, t.9, t.10, t.11, t.12), (8i64, 'i', "j", true, [12u8; 1], Some(13)));
    assert_eq!((t.13, t.14, t.15, t.16, t.17, t.18, t.19), ((), 1.5f32, 2.5f64, "q", 'r', false, 7usize));
    assert_eq!((t.20, t.21, t.22, t.23, t.24, t.25), (8isize, None::<u8>, (1, 2), [0i8; 0], 12u128, "z"));
}
