//! Every relation of the table, by the arity of its left operand: the joined tuple holds the
//! left operand's elements and then the right operand's, and splits back into the two.

use tuple_join::Join;

/// The elements of a tuple of integers, in their order.
trait Items {
    fn items(self) -> Vec<i32>;
}

impl Items for () {
    fn items(self) -> Vec<i32> {
        Vec::new()
    }
}

impl Items for (i32,) {
    fn items(self) -> Vec<i32> {
        vec![self.0]
    }
}

impl Items for (i32, i32) {
    fn items(self) -> Vec<i32> {
        vec![self.0, self.1]
    }
}

impl Items for (i32, i32, i32) {
    fn items(self) -> Vec<i32> {
        vec![self.0, self.1, self.2]
    }
}

impl Items for (i32, i32, i32, i32) {
    fn items(self) -> Vec<i32> {
        vec![self.0, self.1, self.2, self.3]
    }
}

impl Items for (i32, i32, i32, i32, i32) {
    fn items(self) -> Vec<i32> {
        vec![self.0, self.1, self.2, self.3, self.4]
    }
}

impl Items for (i32, i32, i32, i32, i32, i32) {
    fn items(self) -> Vec<i32> {
        vec![self.0, self.1, self.2, self.3, self.4, self.5]
    }
}

impl Items for (i32, i32, i32, i32, i32, i32, i32) {
    fn items(self) -> Vec<i32> {
        vec![self.0, self.1, self.2, self.3, self.4, self.5, self.6]
    }
}

impl Items for (i32, i32, i32, i32, i32, i32, i32, i32) {
    fn items(self) -> Vec<i32> {
        vec![self.0, self.1, self.2, self.3, self.4, self.5, self.6, self.7]
    }
}

impl Items for (i32, i32, i32, i32, i32, i32, i32, i32, i32) {
    fn items(self) -> Vec<i32> {
        vec![self.0, self.1, self.2, self.3, self.4, self.5, self.6, self.7, self.8]
    }
}

impl Items for (i32, i32, i32, i32, i32, i32, i32, i32, i32, i32) {
    fn items(self) -> Vec<i32> {
        vec![self.0, self.1, self.2, self.3, self.4, self.5, self.6, self.7, self.8, self.9]
    }
}

impl Items for (i32, i32, i32, i32, i32, i32, i32, i32, i32, i32, i32) {
    fn items(self) -> Vec<i32> {
        vec![
            self.0, self.1, self.2, self.3, self.4, self.5, self.6, self.7, self.8, self.9, self.10,
        ]
    }
}

impl Items for (i32, i32, i32, i32, i32, i32, i32, i32, i32, i32, i32, i32) {
    fn items(self) -> Vec<i32> {
        vec![
            self.0, self.1, self.2, self.3, self.4, self.5, self.6, self.7, self.8, self.9, self.10,
            self.11,
        ]
    }
}

impl Items for (i32, i32, i32, i32, i32, i32, i32, i32, i32, i32, i32, i32, i32) {
    fn items(self) -> Vec<i32> {
        vec![
            self.0, self.1, self.2, self.3, self.4, self.5, self.6, self.7, self.8, self.9, self.10,
            self.11, self.12,
        ]
    }
}

impl Items for (i32, i32, i32, i32, i32, i32, i32, i32, i32, i32, i32, i32, i32, i32) {
    fn items(self) -> Vec<i32> {
        vec![
            self.0, self.1, self.2, self.3, self.4, self.5, self.6, self.7, self.8, self.9, self.10,
            self.11, self.12, self.13,
        ]
    }
}

impl Items for (i32, i32, i32, i32, i32, i32, i32, i32, i32, i32, i32, i32, i32, i32, i32) {
    fn items(self) -> Vec<i32> {
        vec![
            self.0, self.1, self.2, self.3, self.4, self.5, self.6, self.7, self.8, self.9, self.10,
            self.11, self.12, self.13, self.14,
        ]
    }
}

impl Items for (i32, i32, i32, i32, i32, i32, i32, i32, i32, i32, i32, i32, i32, i32, i32, i32) {
    fn items(self) -> Vec<i32> {
        vec![
            self.0, self.1, self.2, self.3, self.4, self.5, self.6, self.7, self.8, self.9, self.10,
            self.11, self.12, self.13, self.14, self.15,
        ]
    }
}

impl Items for (
    i32, i32, i32, i32, i32, i32, i32, i32, i32, i32, i32, i32, i32, i32, i32, i32, i32,
) {
    fn items(self) -> Vec<i32> {
        vec![
            self.0, self.1, self.2, self.3, self.4, self.5, self.6, self.7, self.8, self.9, self.10,
            self.11, self.12, self.13, self.14, self.15, self.16,
        ]
    }
}

impl Items for (
    i32, i32, i32, i32, i32, i32, i32, i32, i32, i32, i32, i32, i32, i32, i32, i32, i32, i32,
) {
    fn items(self) -> Vec<i32> {
        vec![
            self.0, self.1, self.2, self.3, self.4, self.5, self.6, self.7, self.8, self.9, self.10,
            self.11, self.12, self.13, self.14, self.15, self.16, self.17,
        ]
    }
}

impl Items for (
    i32, i32, i32, i32, i32, i32, i32, i32, i32, i32, i32, i32, i32, i32, i32, i32, i32, i32, i32,
) {
    fn items(self) -> Vec<i32> {
        vec![
            self.0, self.1, self.2, self.3, self.4, self.5, self.6, self.7, self.8, self.9, self.10,
            self.11, self.12, self.13, self.14, self.15, self.16, self.17, self.18,
        ]
    }
}

impl Items for (
    i32, i32, i32, i32, i32, i32, i32, i32, i32, i32, i32, i32, i32, i32, i32, i32, i32, i32, i32,
    i32,
) {
    fn items(self) -> Vec<i32> {
        vec![
            self.0, self.1, self.2, self.3, self.4, self.5, self.6, self.7, self.8, self.9, self.10,
            self.11, self.12, self.13, self.14, self.15, self.16, self.17, self.18, self.19,
        ]
    }
}

impl Items for (
    i32, i32, i32, i32, i32, i32, i32, i32, i32, i32, i32, i32, i32, i32, i32, i32, i32, i32, i32,
    i32, i32,
) {
    fn items(self) -> Vec<i32> {
        vec![
            self.0, self.1, self.2, self.3, self.4, self.5, self.6, self.7, self.8, self.9, self.10,
            self.11, self.12, self.13, self.14, self.15, self.16, self.17, self.18, self.19,
            self.20,
        ]
    }
}

impl Items for (
    i32, i32, i32, i32, i32, i32, i32, i32, i32, i32, i32, i32, i32, i32, i32, i32, i32, i32, i32,
    i32, i32, i32,
) {
    fn items(self) -> Vec<i32> {
        vec![
            self.0, self.1, self.2, self.3, self.4, self.5, self.6, self.7, self.8, self.9, self.10,
            self.11, self.12, self.13, self.14, self.15, self.16, self.17, self.18, self.19,
            self.20, self.21,
        ]
    }
}

impl Items for (
    i32, i32, i32, i32, i32, i32, i32, i32, i32, i32, i32, i32, i32, i32, i32, i32, i32, i32, i32,
    i32, i32, i32, i32,
) {
    fn items(self) -> Vec<i32> {
        vec![
            self.0, self.1, self.2, self.3, self.4, self.5, self.6, self.7, self.8, self.9, self.10,
            self.11, self.12, self.13, self.14, self.15, self.16, self.17, self.18, self.19,
            self.20, self.21, self.22,
        ]
    }
}

impl Items for (
    i32, i32, i32, i32, i32, i32, i32, i32, i32, i32, i32, i32, i32, i32, i32, i32, i32, i32, i32,
    i32, i32, i32, i32, i32,
) {
    fn items(self) -> Vec<i32> {
        vec![
            self.0, self.1, self.2, self.3, self.4, self.5, self.6, self.7, self.8, self.9, self.10,
            self.11, self.12, self.13, self.14, self.15, self.16, self.17, self.18, self.19,
            self.20, self.21, self.22, self.23,
        ]
    }
}

impl Items for (
    i32, i32, i32, i32, i32, i32, i32, i32, i32, i32, i32, i32, i32, i32, i32, i32, i32, i32, i32,
    i32, i32, i32, i32, i32, i32,
) {
    fn items(self) -> Vec<i32> {
        vec![
            self.0, self.1, self.2, self.3, self.4, self.5, self.6, self.7, self.8, self.9, self.10,
            self.11, self.12, self.13, self.14, self.15, self.16, self.17, self.18, self.19,
            self.20, self.21, self.22, self.23, self.24,
        ]
    }
}

impl Items for (
    i32, i32, i32, i32, i32, i32, i32, i32, i32, i32, i32, i32, i32, i32, i32, i32, i32, i32, i32,
    i32, i32, i32, i32, i32, i32, i32,
) {
    fn items(self) -> Vec<i32> {
        vec![
            self.0, self.1, self.2, self.3, self.4, self.5, self.6, self.7, self.8, self.9, self.10,
            self.11, self.12, self.13, self.14, self.15, self.16, self.17, self.18, self.19,
            self.20, self.21, self.22, self.23, self.24, self.25,
        ]
    }
}

/// Joins `left` and `right`, compares the joined tuple with `expected`, splits it and compares
/// the two parts with the operands.
fn check<L, R>(left: L, right: R, expected: Vec<i32>)
where
    L: Join<R> + Items + Copy,
    R: Items + Copy,
    L::Out: Items + Copy,
{
    let joined = left.join(right);
    assert_eq!(joined.items(), expected);
    let (first, second) = L::split(joined);
    assert_eq!(first.items(), left.items());
    assert_eq!(second.items(), right.items());
    assert_eq!(first.join(second).items(), expected);
}

#[test]
fn left_empty_with_every_right_arity() {
    check((), (), vec![]);
    check((), (101,), vec![101]);
    check((), (101, 102), vec![101, 102]);
    check((), (101, 102, 103), vec![101, 102, 103]);
    check((), (101, 102, 103, 104), vec![101, 102, 103, 104]);
    check((), (101, 102, 103, 104, 105), vec![101, 102, 103, 104, 105]);
    check((), (101, 102, 103, 104, 105, 106), vec![101, 102, 103, 104, 105, 106]);
    check((), (101, 102, 103, 104, 105, 106, 107), vec![101, 102, 103, 104, 105, 106, 107]);
    check(
        (),
        (101, 102, 103, 104, 105, 106, 107, 108),
        vec![101, 102, 103, 104, 105, 106, 107, 108],
    );
    check(
        (),
        (101, 102, 103, 104, 105, 106, 107, 108, 109),
        vec![101, 102, 103, 104, 105, 106, 107, 108, 109],
    );
    check(
        (),
        (101, 102, 103, 104, 105, 106, 107, 108, 109, 110),
        vec![101, 102, 103, 104, 105, 106, 107, 108, 109, 110],
    );
    check(
        (),
        (101, 102, 103, 104, 105, 106, 107, 108, 109, 110, 111),
        vec![101, 102, 103, 104, 105, 106, 107, 108, 109, 110, 111],
    );
    check(
        (),
        (101, 102, 103, 104, 105, 106, 107, 108, 109, 110, 111, 112),
        vec![101, 102, 103, 104, 105, 106, 107, 108, 109, 110, 111, 112],
    );
    check(
        (),
        (101, 102, 103, 104, 105, 106, 107, 108, 109, 110, 111, 112, 113),
        vec![101, 102, 103, 104, 105, 106, 107, 108, 109, 110, 111, 112, 113],
    );
}

#[test]
fn left_one_with_every_right_arity() {
    check((1,), (), vec![1]);
    check((1,), (101,), vec![1, 101]);
    check((1,), (101, 102), vec![1, 101, 102]);
    check((1,), (101, 102, 103), vec![1, 101, 102, 103]);
    check((1,), (101, 102, 103, 104), vec![1, 101, 102, 103, 104]);
    check((1,), (101, 102, 103, 104, 105), vec![1, 101, 102, 103, 104, 105]);
    check((1,), (101, 102, 103, 104, 105, 106), vec![1, 101, 102, 103, 104, 105, 106]);
    check((1,), (101, 102, 103, 104, 105, 106, 107), vec![1, 101, 102, 103, 104, 105, 106, 107]);
    check(
        (1,),
        (101, 102, 103, 104, 105, 106, 107, 108),
        vec![1, 101, 102, 103, 104, 105, 106, 107, 108],
    );
    check(
        (1,),
        (101, 102, 103, 104, 105, 106, 107, 108, 109),
        vec![1, 101, 102, 103, 104, 105, 106, 107, 108, 109],
    );
    check(
        (1,),
        (101, 102, 103, 104, 105, 106, 107, 108, 109, 110),
        vec![1, 101, 102, 103, 104, 105, 106, 107, 108, 109, 110],
    );
    check(
        (1,),
        (101, 102, 103, 104, 105, 106, 107, 108, 109, 110, 111),
        vec![1, 101, 102, 103, 104, 105, 106, 107, 108, 109, 110, 111],
    );
    check(
        (1,),
        (101, 102, 103, 104, 105, 106, 107, 108, 109, 110, 111, 112),
        vec![1, 101, 102, 103, 104, 105, 106, 107, 108, 109, 110, 111, 112],
    );
    check(
        (1,),
        (101, 102, 103, 104, 105, 106, 107, 108, 109, 110, 111, 112, 113),
        vec![1, 101, 102, 103, 104, 105, 106, 107, 108, 109, 110, 111, 112, 113],
    );
}

#[test]
fn left_two_with_every_right_arity() {
    check((1, 2), (), vec![1, 2]);
    check((1, 2), (101,), vec![1, 2, 101]);
    check((1, 2), (101, 102), vec![1, 2, 101, 102]);
    check((1, 2), (101, 102, 103), vec![1, 2, 101, 102, 103]);
    check((1, 2), (101, 102, 103, 104), vec![1, 2, 101, 102, 103, 104]);
    check((1, 2), (101, 102, 103, 104, 105), vec![1, 2, 101, 102, 103, 104, 105]);
    check((1, 2), (101, 102, 103, 104, 105, 106), vec![1, 2, 101, 102, 103, 104, 105, 106]);
    check(
        (1, 2),
        (101, 102, 103, 104, 105, 106, 107),
        vec![1, 2, 101, 102, 103, 104, 105, 106, 107],
    );
    check(
        (1, 2),
        (101, 102, 103, 104, 105, 106, 107, 108),
        vec![1, 2, 101, 102, 103, 104, 105, 106, 107, 108],
    );
    check(
        (1, 2),
        (101, 102, 103, 104, 105, 106, 107, 108, 109),
        vec![1, 2, 101, 102, 103, 104, 105, 106, 107, 108, 109],
    );
    check(
        (1, 2),
        (101, 102, 103, 104, 105, 106, 107, 108, 109, 110),
        vec![1, 2, 101, 102, 103, 104, 105, 106, 107, 108, 109, 110],
    );
    check(
        (1, 2),
        (101, 102, 103, 104, 105, 106, 107, 108, 109, 110, 111),
        vec![1, 2, 101, 102, 103, 104, 105, 106, 107, 108, 109, 110, 111],
    );
    check(
        (1, 2),
        (101, 102, 103, 104, 105, 106, 107, 108, 109, 110, 111, 112),
        vec![1, 2, 101, 102, 103, 104, 105, 106, 107, 108, 109, 110, 111, 112],
    );
    check(
        (1, 2),
        (101, 102, 103, 104, 105, 106, 107, 108, 109, 110, 111, 112, 113),
        vec![1, 2, 101, 102, 103, 104, 105, 106, 107, 108, 109, 110, 111, 112, 113],
    );
}

#[test]
fn left_three_with_every_right_arity() {
    check((1, 2, 3), (), vec![1, 2, 3]);
    check((1, 2, 3), (101,), vec![1, 2, 3, 101]);
    check((1, 2, 3), (101, 102), vec![1, 2, 3, 101, 102]);
    check((1, 2, 3), (101, 102, 103), vec![1, 2, 3, 101, 102, 103]);
    check((1, 2, 3), (101, 102, 103, 104), vec![1, 2, 3, 101, 102, 103, 104]);
    check((1, 2, 3), (101, 102, 103, 104, 105), vec![1, 2, 3, 101, 102, 103, 104, 105]);
    check((1, 2, 3), (101, 102, 103, 104, 105, 106), vec![1, 2, 3, 101, 102, 103, 104, 105, 106]);
    check(
        (1, 2, 3),
        (101, 102, 103, 104, 105, 106, 107),
        vec![1, 2, 3, 101, 102, 103, 104, 105, 106, 107],
    );
    check(
        (1, 2, 3),
        (101, 102, 103, 104, 105, 106, 107, 108),
        vec![1, 2, 3, 101, 102, 103, 104, 105, 106, 107, 108],
    );
    check(
        (1, 2, 3),
        (101, 102, 103, 104, 105, 106, 107, 108, 109),
        vec![1, 2, 3, 101, 102, 103, 104, 105, 106, 107, 108, 109],
    );
    check(
        (1, 2, 3),
        (101, 102, 103, 104, 105, 106, 107, 108, 109, 110),
        vec![1, 2, 3, 101, 102, 103, 104, 105, 106, 107, 108, 109, 110],
    );
    check(
        (1, 2, 3),
        (101, 102, 103, 104, 105, 106, 107, 108, 109, 110, 111),
        vec![1, 2, 3, 101, 102, 103, 104, 105, 106, 107, 108, 109, 110, 111],
    );
    check(
        (1, 2, 3),
        (101, 102, 103, 104, 105, 106, 107, 108, 109, 110, 111, 112),
        vec![1, 2, 3, 101, 102, 103, 104, 105, 106, 107, 108, 109, 110, 111, 112],
    );
    check(
        (1, 2, 3),
        (101, 102, 103, 104, 105, 106, 107, 108, 109, 110, 111, 112, 113),
        vec![1, 2, 3, 101, 102, 103, 104, 105, 106, 107, 108, 109, 110, 111, 112, 113],
    );
}

#[test]
fn left_four_with_every_right_arity() {
    check((1, 2, 3, 4), (), vec![1, 2, 3, 4]);
    check((1, 2, 3, 4), (101,), vec![1, 2, 3, 4, 101]);
    check((1, 2, 3, 4), (101, 102), vec![1, 2, 3, 4, 101, 102]);
    check((1, 2, 3, 4), (101, 102, 103), vec![1, 2, 3, 4, 101, 102, 103]);
    check((1, 2, 3, 4), (101, 102, 103, 104), vec![1, 2, 3, 4, 101, 102, 103, 104]);
    check((1, 2, 3, 4), (101, 102, 103, 104, 105), vec![1, 2, 3, 4, 101, 102, 103, 104, 105]);
    check(
        (1, 2, 3, 4),
        (101, 102, 103, 104, 105, 106),
        vec![1, 2, 3, 4, 101, 102, 103, 104, 105, 106],
    );
    check(
        (1, 2, 3, 4),
        (101, 102, 103, 104, 105, 106, 107),
        vec![1, 2, 3, 4, 101, 102, 103, 104, 105, 106, 107],
    );
    check(
        (1, 2, 3, 4),
        (101, 102, 103, 104, 105, 106, 107, 108),
        vec![1, 2, 3, 4, 101, 102, 103, 104, 105, 106, 107, 108],
    );
    check(
        (1, 2, 3, 4),
        (101, 102, 103, 104, 105, 106, 107, 108, 109),
        vec![1, 2, 3, 4, 101, 102, 103, 104, 105, 106, 107, 108, 109],
    );
    check(
        (1, 2, 3, 4),
        (101, 102, 103, 104, 105, 106, 107, 108, 109, 110),
        vec![1, 2, 3, 4, 101, 102, 103, 104, 105, 106, 107, 108, 109, 110],
    );
    check(
        (1, 2, 3, 4),
        (101, 102, 103, 104, 105, 106, 107, 108, 109, 110, 111),
        vec![1, 2, 3, 4, 101, 102, 103, 104, 105, 106, 107, 108, 109, 110, 111],
    );
    check(
        (1, 2, 3, 4),
        (101, 102, 103, 104, 105, 106, 107, 108, 109, 110, 111, 112),
        vec![1, 2, 3, 4, 101, 102, 103, 104, 105, 106, 107, 108, 109, 110, 111, 112],
    );
    check(
        (1, 2, 3, 4),
        (101, 102, 103, 104, 105, 106, 107, 108, 109, 110, 111, 112, 113),
        vec![1, 2, 3, 4, 101, 102, 103, 104, 105, 106, 107, 108, 109, 110, 111, 112, 113],
    );
}

#[test]
fn left_five_with_every_right_arity() {
    check((1, 2, 3, 4, 5), (), vec![1, 2, 3, 4, 5]);
    check((1, 2, 3, 4, 5), (101,), vec![1, 2, 3, 4, 5, 101]);
    check((1, 2, 3, 4, 5), (101, 102), vec![1, 2, 3, 4, 5, 101, 102]);
    check((1, 2, 3, 4, 5), (101, 102, 103), vec![1, 2, 3, 4, 5, 101, 102, 103]);
    check((1, 2, 3, 4, 5), (101, 102, 103, 104), vec![1, 2, 3, 4, 5, 101, 102, 103, 104]);
    check((1, 2, 3, 4, 5), (101, 102, 103, 104, 105), vec![1, 2, 3, 4, 5, 101, 102, 103, 104, 105]);
    check(
        (1, 2, 3, 4, 5),
        (101, 102, 103, 104, 105, 106),
        vec![1, 2, 3, 4, 5, 101, 102, 103, 104, 105, 106],
    );
    check(
        (1, 2, 3, 4, 5),
        (101, 102, 103, 104, 105, 106, 107),
        vec![1, 2, 3, 4, 5, 101, 102, 103, 104, 105, 106, 107],
    );
    check(
        (1, 2, 3, 4, 5),
        (101, 102, 103, 104, 105, 106, 107, 108),
        vec![1, 2, 3, 4, 5, 101, 102, 103, 104, 105, 106, 107, 108],
    );
    check(
        (1, 2, 3, 4, 5),
        (101, 102, 103, 104, 105, 106, 107, 108, 109),
        vec![1, 2, 3, 4, 5, 101, 102, 103, 104, 105, 106, 107, 108, 109],
    );
    check(
        (1, 2, 3, 4, 5),
        (101, 102, 103, 104, 105, 106, 107, 108, 109, 110),
        vec![1, 2, 3, 4, 5, 101, 102, 103, 104, 105, 106, 107, 108, 109, 110],
    );
    check(
        (1, 2, 3, 4, 5),
        (101, 102, 103, 104, 105, 106, 107, 108, 109, 110, 111),
        vec![1, 2, 3, 4, 5, 101, 102, 103, 104, 105, 106, 107, 108, 109, 110, 111],
    );
    check(
        (1, 2, 3, 4, 5),
        (101, 102, 103, 104, 105, 106, 107, 108, 109, 110, 111, 112),
        vec![1, 2, 3, 4, 5, 101, 102, 103, 104, 105, 106, 107, 108, 109, 110, 111, 112],
    );
    check(
        (1, 2, 3, 4, 5),
        (101, 102, 103, 104, 105, 106, 107, 108, 109, 110, 111, 112, 113),
        vec![1, 2, 3, 4, 5, 101, 102, 103, 104, 105, 106, 107, 108, 109, 110, 111, 112, 113],
    );
}

#[test]
fn left_six_with_every_right_arity() {
    check((1, 2, 3, 4, 5, 6), (), vec![1, 2, 3, 4, 5, 6]);
    check((1, 2, 3, 4, 5, 6), (101,), vec![1, 2, 3, 4, 5, 6, 101]);
    check((1, 2, 3, 4, 5, 6), (101, 102), vec![1, 2, 3, 4, 5, 6, 101, 102]);
    check((1, 2, 3, 4, 5, 6), (101, 102, 103), vec![1, 2, 3, 4, 5, 6, 101, 102, 103]);
    check((1, 2, 3, 4, 5, 6), (101, 102, 103, 104), vec![1, 2, 3, 4, 5, 6, 101, 102, 103, 104]);
    check(
        (1, 2, 3, 4, 5, 6),
        (101, 102, 103, 104, 105),
        vec![1, 2, 3, 4, 5, 6, 101, 102, 103, 104, 105],
    );
    check(
        (1, 2, 3, 4, 5, 6),
        (101, 102, 103, 104, 105, 106),
        vec![1, 2, 3, 4, 5, 6, 101, 102, 103, 104, 105, 106],
    );
    check(
        (1, 2, 3, 4, 5, 6),
        (101, 102, 103, 104, 105, 106, 107),
        vec![1, 2, 3, 4, 5, 6, 101, 102, 103, 104, 105, 106, 107],
    );
    check(
        (1, 2, 3, 4, 5, 6),
        (101, 102, 103, 104, 105, 106, 107, 108),
        vec![1, 2, 3, 4, 5, 6, 101, 102, 103, 104, 105, 106, 107, 108],
    );
    check(
        (1, 2, 3, 4, 5, 6),
        (101, 102, 103, 104, 105, 106, 107, 108, 109),
        vec![1, 2, 3, 4, 5, 6, 101, 102, 103, 104, 105, 106, 107, 108, 109],
    );
    check(
        (1, 2, 3, 4, 5, 6),
        (101, 102, 103, 104, 105, 106, 107, 108, 109, 110),
        vec![1, 2, 3, 4, 5, 6, 101, 102, 103, 104, 105, 106, 107, 108, 109, 110],
    );
    check(
        (1, 2, 3, 4, 5, 6),
        (101, 102, 103, 104, 105, 106, 107, 108, 109, 110, 111),
        vec![1, 2, 3, 4, 5, 6, 101, 102, 103, 104, 105, 106, 107, 108, 109, 110, 111],
    );
    check(
        (1, 2, 3, 4, 5, 6),
        (101, 102, 103, 104, 105, 106, 107, 108, 109, 110, 111, 112),
        vec![1, 2, 3, 4, 5, 6, 101, 102, 103, 104, 105, 106, 107, 108, 109, 110, 111, 112],
    );
    check(
        (1, 2, 3, 4, 5, 6),
        (101, 102, 103, 104, 105, 106, 107, 108, 109, 110, 111, 112, 113),
        vec![1, 2, 3, 4, 5, 6, 101, 102, 103, 104, 105, 106, 107, 108, 109, 110, 111, 112, 113],
    );
}

#[test]
fn left_seven_with_every_right_arity() {
    check((1, 2, 3, 4, 5, 6, 7), (), vec![1, 2, 3, 4, 5, 6, 7]);
    check((1, 2, 3, 4, 5, 6, 7), (101,), vec![1, 2, 3, 4, 5, 6, 7, 101]);
    check((1, 2, 3, 4, 5, 6, 7), (101, 102), vec![1, 2, 3, 4, 5, 6, 7, 101, 102]);
    check((1, 2, 3, 4, 5, 6, 7), (101, 102, 103), vec![1, 2, 3, 4, 5, 6, 7, 101, 102, 103]);
    check(
        (1, 2, 3, 4, 5, 6, 7),
        (101, 102, 103, 104),
        vec![1, 2, 3, 4, 5, 6, 7, 101, 102, 103, 104],
    );
    check(
        (1, 2, 3, 4, 5, 6, 7),
        (101, 102, 103, 104, 105),
        vec![1, 2, 3, 4, 5, 6, 7, 101, 102, 103, 104, 105],
    );
    check(
        (1, 2, 3, 4, 5, 6, 7),
        (101, 102, 103, 104, 105, 106),
        vec![1, 2, 3, 4, 5, 6, 7, 101, 102, 103, 104, 105, 106],
    );
    check(
        (1, 2, 3, 4, 5, 6, 7),
        (101, 102, 103, 104, 105, 106, 107),
        vec![1, 2, 3, 4, 5, 6, 7, 101, 102, 103, 104, 105, 106, 107],
    );
    check(
        (1, 2, 3, 4, 5, 6, 7),
        (101, 102, 103, 104, 105, 106, 107, 108),
        vec![1, 2, 3, 4, 5, 6, 7, 101, 102, 103, 104, 105, 106, 107, 108],
    );
    check(
        (1, 2, 3, 4, 5, 6, 7),
        (101, 102, 103, 104, 105, 106, 107, 108, 109),
        vec![1, 2, 3, 4, 5, 6, 7, 101, 102, 103, 104, 105, 106, 107, 108, 109],
    );
    check(
        (1, 2, 3, 4, 5, 6, 7),
        (101, 102, 103, 104, 105, 106, 107, 108, 109, 110),
        vec![1, 2, 3, 4, 5, 6, 7, 101, 102, 103, 104, 105, 106, 107, 108, 109, 110],
    );
    check(
        (1, 2, 3, 4, 5, 6, 7),
        (101, 102, 103, 104, 105, 106, 107, 108, 109, 110, 111),
        vec![1, 2, 3, 4, 5, 6, 7, 101, 102, 103, 104, 105, 106, 107, 108, 109, 110, 111],
    );
    check(
        (1, 2, 3, 4, 5, 6, 7),
        (101, 102, 103, 104, 105, 106, 107, 108, 109, 110, 111, 112),
        vec![1, 2, 3, 4, 5, 6, 7, 101, 102, 103, 104, 105, 106, 107, 108, 109, 110, 111, 112],
    );
    check(
        (1, 2, 3, 4, 5, 6, 7),
        (101, 102, 103, 104, 105, 106, 107, 108, 109, 110, 111, 112, 113),
        vec![1, 2, 3, 4, 5, 6, 7, 101, 102, 103, 104, 105, 106, 107, 108, 109, 110, 111, 112, 113],
    );
}

#[test]
fn left_eight_with_every_right_arity() {
    check((1, 2, 3, 4, 5, 6, 7, 8), (), vec![1, 2, 3, 4, 5, 6, 7, 8]);
    check((1, 2, 3, 4, 5, 6, 7, 8), (101,), vec![1, 2, 3, 4, 5, 6, 7, 8, 101]);
    check((1, 2, 3, 4, 5, 6, 7, 8), (101, 102), vec![1, 2, 3, 4, 5, 6, 7, 8, 101, 102]);
    check((1, 2, 3, 4, 5, 6, 7, 8), (101, 102, 103), vec![1, 2, 3, 4, 5, 6, 7, 8, 101, 102, 103]);
    check(
        (1, 2, 3, 4, 5, 6, 7, 8),
        (101, 102, 103, 104),
        vec![1, 2, 3, 4, 5, 6, 7, 8, 101, 102, 103, 104],
    );
    check(
        (1, 2, 3, 4, 5, 6, 7, 8),
        (101, 102, 103, 104, 105),
        vec![1, 2, 3, 4, 5, 6, 7, 8, 101, 102, 103, 104, 105],
    );
    check(
        (1, 2, 3, 4, 5, 6, 7, 8),
        (101, 102, 103, 104, 105, 106),
        vec![1, 2, 3, 4, 5, 6, 7, 8, 101, 102, 103, 104, 105, 106],
    );
    check(
        (1, 2, 3, 4, 5, 6, 7, 8),
        (101, 102, 103, 104, 105, 106, 107),
        vec![1, 2, 3, 4, 5, 6, 7, 8, 101, 102, 103, 104, 105, 106, 107],
    );
    check(
        (1, 2, 3, 4, 5, 6, 7, 8),
        (101, 102, 103, 104, 105, 106, 107, 108),
        vec![1, 2, 3, 4, 5, 6, 7, 8, 101, 102, 103, 104, 105, 106, 107, 108],
    );
    check(
        (1, 2, 3, 4, 5, 6, 7, 8),
        (101, 102, 103, 104, 105, 106, 107, 108, 109),
        vec![1, 2, 3, 4, 5, 6, 7, 8, 101, 102, 103, 104, 105, 106, 107, 108, 109],
    );
    check(
        (1, 2, 3, 4, 5, 6, 7, 8),
        (101, 102, 103, 104, 105, 106, 107, 108, 109, 110),
        vec![1, 2, 3, 4, 5, 6, 7, 8, 101, 102, 103, 104, 105, 106, 107, 108, 109, 110],
    );
    check(
        (1, 2, 3, 4, 5, 6, 7, 8),
        (101, 102, 103, 104, 105, 106, 107, 108, 109, 110, 111),
        vec![1, 2, 3, 4, 5, 6, 7, 8, 101, 102, 103, 104, 105, 106, 107, 108, 109, 110, 111],
    );
    check(
        (1, 2, 3, 4, 5, 6, 7, 8),
        (101, 102, 103, 104, 105, 106, 107, 108, 109, 110, 111, 112),
        vec![1, 2, 3, 4, 5, 6, 7, 8, 101, 102, 103, 104, 105, 106, 107, 108, 109, 110, 111, 112],
    );
    check(
        (1, 2, 3, 4, 5, 6, 7, 8),
        (101, 102, 103, 104, 105, 106, 107, 108, 109, 110, 111, 112, 113),
        vec![
            1, 2, 3, 4, 5, 6, 7, 8, 101, 102, 103, 104, 105, 106, 107, 108, 109, 110, 111, 112, 113,
        ],
    );
}

#[test]
fn left_nine_with_every_right_arity() {
    check((1, 2, 3, 4, 5, 6, 7, 8, 9), (), vec![1, 2, 3, 4, 5, 6, 7, 8, 9]);
    check((1, 2, 3, 4, 5, 6, 7, 8, 9), (101,), vec![1, 2, 3, 4, 5, 6, 7, 8, 9, 101]);
    check((1, 2, 3, 4, 5, 6, 7, 8, 9), (101, 102), vec![1, 2, 3, 4, 5, 6, 7, 8, 9, 101, 102]);
    check(
        (1, 2, 3, 4, 5, 6, 7, 8, 9),
        (101, 102, 103),
        vec![1, 2, 3, 4, 5, 6, 7, 8, 9, 101, 102, 103],
    );
    check(
        (1, 2, 3, 4, 5, 6, 7, 8, 9),
        (101, 102, 103, 104),
        vec![1, 2, 3, 4, 5, 6, 7, 8, 9, 101, 102, 103, 104],
    );
    check(
        (1, 2, 3, 4, 5, 6, 7, 8, 9),
        (101, 102, 103, 104, 105),
        vec![1, 2, 3, 4, 5, 6, 7, 8, 9, 101, 102, 103, 104, 105],
    );
    check(
        (1, 2, 3, 4, 5, 6, 7, 8, 9),
        (101, 102, 103, 104, 105, 106),
        vec![1, 2, 3, 4, 5, 6, 7, 8, 9, 101, 102, 103, 104, 105, 106],
    );
    check(
        (1, 2, 3, 4, 5, 6, 7, 8, 9),
        (101, 102, 103, 104, 105, 106, 107),
        vec![1, 2, 3, 4, 5, 6, 7, 8, 9, 101, 102, 103, 104, 105, 106, 107],
    );
    check(
        (1, 2, 3, 4, 5, 6, 7, 8, 9),
        (101, 102, 103, 104, 105, 106, 107, 108),
        vec![1, 2, 3, 4, 5, 6, 7, 8, 9, 101, 102, 103, 104, 105, 106, 107, 108],
    );
    check(
        (1, 2, 3, 4, 5, 6, 7, 8, 9),
        (101, 102, 103, 104, 105, 106, 107, 108, 109),
        vec![1, 2, 3, 4, 5, 6, 7, 8, 9, 101, 102, 103, 104, 105, 106, 107, 108, 109],
    );
    check(
        (1, 2, 3, 4, 5, 6, 7, 8, 9),
        (101, 102, 103, 104, 105, 106, 107, 108, 109, 110),
        vec![1, 2, 3, 4, 5, 6, 7, 8, 9, 101, 102, 103, 104, 105, 106, 107, 108, 109, 110],
    );
    check(
        (1, 2, 3, 4, 5, 6, 7, 8, 9),
        (101, 102, 103, 104, 105, 106, 107, 108, 109, 110, 111),
        vec![1, 2, 3, 4, 5, 6, 7, 8, 9, 101, 102, 103, 104, 105, 106, 107, 108, 109, 110, 111],
    );
    check(
        (1, 2, 3, 4, 5, 6, 7, 8, 9),
        (101, 102, 103, 104, 105, 106, 107, 108, 109, 110, 111, 112),
        vec![1, 2, 3, 4, 5, 6, 7, 8, 9, 101, 102, 103, 104, 105, 106, 107, 108, 109, 110, 111, 112],
    );
    check(
        (1, 2, 3, 4, 5, 6, 7, 8, 9),
        (101, 102, 103, 104, 105, 106, 107, 108, 109, 110, 111, 112, 113),
        vec![
            1, 2, 3, 4, 5, 6, 7, 8, 9, 101, 102, 103, 104, 105, 106, 107, 108, 109, 110, 111, 112,
            113,
        ],
    );
}

#[test]
fn left_ten_with_every_right_arity() {
    check((1, 2, 3, 4, 5, 6, 7, 8, 9, 10), (), vec![1, 2, 3, 4, 5, 6, 7, 8, 9, 10]);
    check((1, 2, 3, 4, 5, 6, 7, 8, 9, 10), (101,), vec![1, 2, 3, 4, 5, 6, 7, 8, 9, 10, 101]);
    check(
        (1, 2, 3, 4, 5, 6, 7, 8, 9, 10),
        (101, 102),
        vec![1, 2, 3, 4, 5, 6, 7, 8, 9, 10, 101, 102],
    );
    check(
        (1, 2, 3, 4, 5, 6, 7, 8, 9, 10),
        (101, 102, 103),
        vec![1, 2, 3, 4, 5, 6, 7, 8, 9, 10, 101, 102, 103],
    );
    check(
        (1, 2, 3, 4, 5, 6, 7, 8, 9, 10),
        (101, 102, 103, 104),
        vec![1, 2, 3, 4, 5, 6, 7, 8, 9, 10, 101, 102, 103, 104],
    );
    check(
        (1, 2, 3, 4, 5, 6, 7, 8, 9, 10),
        (101, 102, 103, 104, 105),
        vec![1, 2, 3, 4, 5, 6, 7, 8, 9, 10, 101, 102, 103, 104, 105],
    );
    check(
        (1, 2, 3, 4, 5, 6, 7, 8, 9, 10),
        (101, 102, 103, 104, 105, 106),
        vec![1, 2, 3, 4, 5, 6, 7, 8, 9, 10, 101, 102, 103, 104, 105, 106],
    );
    check(
        (1, 2, 3, 4, 5, 6, 7, 8, 9, 10),
        (101, 102, 103, 104, 105, 106, 107),
        vec![1, 2, 3, 4, 5, 6, 7, 8, 9, 10, 101, 102, 103, 104, 105, 106, 107],
    );
    check(
        (1, 2, 3, 4, 5, 6, 7, 8, 9, 10),
        (101, 102, 103, 104, 105, 106, 107, 108),
        vec![1, 2, 3, 4, 5, 6, 7, 8, 9, 10, 101, 102, 103, 104, 105, 106, 107, 108],
    );
    check(
        (1, 2, 3, 4, 5, 6, 7, 8, 9, 10),
        (101, 102, 103, 104, 105, 106, 107, 108, 109),
        vec![1, 2, 3, 4, 5, 6, 7, 8, 9, 10, 101, 102, 103, 104, 105, 106, 107, 108, 109],
    );
    check(
        (1, 2, 3, 4, 5, 6, 7, 8, 9, 10),
        (101, 102, 103, 104, 105, 106, 107, 108, 109, 110),
        vec![1, 2, 3, 4, 5, 6, 7, 8, 9, 10, 101, 102, 103, 104, 105, 106, 107, 108, 109, 110],
    );
    check(
        (1, 2, 3, 4, 5, 6, 7, 8, 9, 10),
        (101, 102, 103, 104, 105, 106, 107, 108, 109, 110, 111),
        vec![1, 2, 3, 4, 5, 6, 7, 8, 9, 10, 101, 102, 103, 104, 105, 106, 107, 108, 109, 110, 111],
    );
    check(
        (1, 2, 3, 4, 5, 6, 7, 8, 9, 10),
        (101, 102, 103, 104, 105, 106, 107, 108, 109, 110, 111, 112),
        vec![
            1, 2, 3, 4, 5, 6, 7, 8, 9, 10, 101, 102, 103, 104, 105, 106, 107, 108, 109, 110, 111,
            112,
        ],
    );
    check(
        (1, 2, 3, 4, 5, 6, 7, 8, 9, 10),
        (101, 102, 103, 104, 105, 106, 107, 108, 109, 110, 111, 112, 113),
        vec![
            1, 2, 3, 4, 5, 6, 7, 8, 9, 10, 101, 102, 103, 104, 105, 106, 107, 108, 109, 110, 111,
            112, 113,
        ],
    );
}

#[test]
fn left_eleven_with_every_right_arity() {
    check((1, 2, 3, 4, 5, 6, 7, 8, 9, 10, 11), (), vec![1, 2, 3, 4, 5, 6, 7, 8, 9, 10, 11]);
    check(
        (1, 2, 3, 4, 5, 6, 7, 8, 9, 10, 11),
        (101,),
        vec![1, 2, 3, 4, 5, 6, 7, 8, 9, 10, 11, 101],
    );
    check(
        (1, 2, 3, 4, 5, 6, 7, 8, 9, 10, 11),
        (101, 102),
        vec![1, 2, 3, 4, 5, 6, 7, 8, 9, 10, 11, 101, 102],
    );
    check(
        (1, 2, 3, 4, 5, 6, 7, 8, 9, 10, 11),
        (101, 102, 103),
        vec![1, 2, 3, 4, 5, 6, 7, 8, 9, 10, 11, 101, 102, 103],
    );
    check(
        (1, 2, 3, 4, 5, 6, 7, 8, 9, 10, 11),
        (101, 102, 103, 104),
        vec![1, 2, 3, 4, 5, 6, 7, 8, 9, 10, 11, 101, 102, 103, 104],
    );
    check(
        (1, 2, 3, 4, 5, 6, 7, 8, 9, 10, 11),
        (101, 102, 103, 104, 105),
        vec![1, 2, 3, 4, 5, 6, 7, 8, 9, 10, 11, 101, 102, 103, 104, 105],
    );
    check(
        (1, 2, 3, 4, 5, 6, 7, 8, 9, 10, 11),
        (101, 102, 103, 104, 105, 106),
        vec![1, 2, 3, 4, 5, 6, 7, 8, 9, 10, 11, 101, 102, 103, 104, 105, 106],
    );
    check(
        (1, 2, 3, 4, 5, 6, 7, 8, 9, 10, 11),
        (101, 102, 103, 104, 105, 106, 107),
        vec![1, 2, 3, 4, 5, 6, 7, 8, 9, 10, 11, 101, 102, 103, 104, 105, 106, 107],
    );
    check(
        (1, 2, 3, 4, 5, 6, 7, 8, 9, 10, 11),
        (101, 102, 103, 104, 105, 106, 107, 108),
        vec![1, 2, 3, 4, 5, 6, 7, 8, 9, 10, 11, 101, 102, 103, 104, 105, 106, 107, 108],
    );
    check(
        (1, 2, 3, 4, 5, 6, 7, 8, 9, 10, 11),
        (101, 102, 103, 104, 105, 106, 107, 108, 109),
        vec![1, 2, 3, 4, 5, 6, 7, 8, 9, 10, 11, 101, 102, 103, 104, 105, 106, 107, 108, 109],
    );
    check(
        (1, 2, 3, 4, 5, 6, 7, 8, 9, 10, 11),
        (101, 102, 103, 104, 105, 106, 107, 108, 109, 110),
        vec![1, 2, 3, 4, 5, 6, 7, 8, 9, 10, 11, 101, 102, 103, 104, 105, 106, 107, 108, 109, 110],
    );
    check(
        (1, 2, 3, 4, 5, 6, 7, 8, 9, 10, 11),
        (101, 102, 103, 104, 105, 106, 107, 108, 109, 110, 111),
        vec![
            1, 2, 3, 4, 5, 6, 7, 8, 9, 10, 11, 101, 102, 103, 104, 105, 106, 107, 108, 109, 110,
            111,
        ],
    );
    check(
        (1, 2, 3, 4, 5, 6, 7, 8, 9, 10, 11),
        (101, 102, 103, 104, 105, 106, 107, 108, 109, 110, 111, 112),
        vec![
            1, 2, 3, 4, 5, 6, 7, 8, 9, 10, 11, 101, 102, 103, 104, 105, 106, 107, 108, 109, 110,
            111, 112,
        ],
    );
    check(
        (1, 2, 3, 4, 5, 6, 7, 8, 9, 10, 11),
        (101, 102, 103, 104, 105, 106, 107, 108, 109, 110, 111, 112, 113),
        vec![
            1, 2, 3, 4, 5, 6, 7, 8, 9, 10, 11, 101, 102, 103, 104, 105, 106, 107, 108, 109, 110,
            111, 112, 113,
        ],
    );
}

#[test]
fn left_twelve_with_every_right_arity() {
    check((1, 2, 3, 4, 5, 6, 7, 8, 9, 10, 11, 12), (), vec![1, 2, 3, 4, 5, 6, 7, 8, 9, 10, 11, 12]);
    check(
        (1, 2, 3, 4, 5, 6, 7, 8, 9, 10, 11, 12),
        (101,),
        vec![1, 2, 3, 4, 5, 6, 7, 8, 9, 10, 11, 12, 101],
    );
    check(
        (1, 2, 3, 4, 5, 6, 7, 8, 9, 10, 11, 12),
        (101, 102),
        vec![1, 2, 3, 4, 5, 6, 7, 8, 9, 10, 11, 12, 101, 102],
    );
    check(
        (1, 2, 3, 4, 5, 6, 7, 8, 9, 10, 11, 12),
        (101, 102, 103),
        vec![1, 2, 3, 4, 5, 6, 7, 8, 9, 10, 11, 12, 101, 102, 103],
    );
    check(
        (1, 2, 3, 4, 5, 6, 7, 8, 9, 10, 11, 12),
        (101, 102, 103, 104),
        vec![1, 2, 3, 4, 5, 6, 7, 8, 9, 10, 11, 12, 101, 102, 103, 104],
    );
    check(
        (1, 2, 3, 4, 5, 6, 7, 8, 9, 10, 11, 12),
        (101, 102, 103, 104, 105),
        vec![1, 2, 3, 4, 5, 6, 7, 8, 9, 10, 11, 12, 101, 102, 103, 104, 105],
    );
    check(
        (1, 2, 3, 4, 5, 6, 7, 8, 9, 10, 11, 12),
        (101, 102, 103, 104, 105, 106),
        vec![1, 2, 3, 4, 5, 6, 7, 8, 9, 10, 11, 12, 101, 102, 103, 104, 105, 106],
    );
    check(
        (1, 2, 3, 4, 5, 6, 7, 8, 9, 10, 11, 12),
        (101, 102, 103, 104, 105, 106, 107),
        vec![1, 2, 3, 4, 5, 6, 7, 8, 9, 10, 11, 12, 101, 102, 103, 104, 105, 106, 107],
    );
    check(
        (1, 2, 3, 4, 5, 6, 7, 8, 9, 10, 11, 12),
        (101, 102, 103, 104, 105, 106, 107, 108),
        vec![1, 2, 3, 4, 5, 6, 7, 8, 9, 10, 11, 12, 101, 102, 103, 104, 105, 106, 107, 108],
    );
    check(
        (1, 2, 3, 4, 5, 6, 7, 8, 9, 10, 11, 12),
        (101, 102, 103, 104, 105, 106, 107, 108, 109),
        vec![1, 2, 3, 4, 5, 6, 7, 8, 9, 10, 11, 12, 101, 102, 103, 104, 105, 106, 107, 108, 109],
    );
    check(
        (1, 2, 3, 4, 5, 6, 7, 8, 9, 10, 11, 12),
        (101, 102, 103, 104, 105, 106, 107, 108, 109, 110),
        vec![
            1, 2, 3, 4, 5, 6, 7, 8, 9, 10, 11, 12, 101, 102, 103, 104, 105, 106, 107, 108, 109, 110,
        ],
    );
    check(
        (1, 2, 3, 4, 5, 6, 7, 8, 9, 10, 11, 12),
        (101, 102, 103, 104, 105, 106, 107, 108, 109, 110, 111),
        vec![
            1, 2, 3, 4, 5, 6, 7, 8, 9, 10, 11, 12, 101, 102, 103, 104, 105, 106, 107, 108, 109, 110,
            111,
        ],
    );
    check(
        (1, 2, 3, 4, 5, 6, 7, 8, 9, 10, 11, 12),
        (101, 102, 103, 104, 105, 106, 107, 108, 109, 110, 111, 112),
        vec![
            1, 2, 3, 4, 5, 6, 7, 8, 9, 10, 11, 12, 101, 102, 103, 104, 105, 106, 107, 108, 109, 110,
            111, 112,
        ],
    );
    check(
        (1, 2, 3, 4, 5, 6, 7, 8, 9, 10, 11, 12),
        (101, 102, 103, 104, 105, 106, 107, 108, 109, 110, 111, 112, 113),
        vec![
            1, 2, 3, 4, 5, 6, 7, 8, 9, 10, 11, 12, 101, 102, 103, 104, 105, 106, 107, 108, 109, 110,
            111, 112, 113,
        ],
    );
}

#[test]
fn left_thirteen_with_every_right_arity() {
    check(
        (1, 2, 3, 4, 5, 6, 7, 8, 9, 10, 11, 12, 13),
        (),
        vec![1, 2, 3, 4, 5, 6, 7, 8, 9, 10, 11, 12, 13],
    );
    check(
        (1, 2, 3, 4, 5, 6, 7, 8, 9, 10, 11, 12, 13),
        (101,),
        vec![1, 2, 3, 4, 5, 6, 7, 8, 9, 10, 11, 12, 13, 101],
    );
    check(
        (1, 2, 3, 4, 5, 6, 7, 8, 9, 10, 11, 12, 13),
        (101, 102),
        vec![1, 2, 3, 4, 5, 6, 7, 8, 9, 10, 11, 12, 13, 101, 102],
    );
    check(
        (1, 2, 3, 4, 5, 6, 7, 8, 9, 10, 11, 12, 13),
        (101, 102, 103),
        vec![1, 2, 3, 4, 5, 6, 7, 8, 9, 10, 11, 12, 13, 101, 102, 103],
    );
    check(
        (1, 2, 3, 4, 5, 6, 7, 8, 9, 10, 11, 12, 13),
        (101, 102, 103, 104),
        vec![1, 2, 3, 4, 5, 6, 7, 8, 9, 10, 11, 12, 13, 101, 102, 103, 104],
    );
    check(
        (1, 2, 3, 4, 5, 6, 7, 8, 9, 10, 11, 12, 13),
        (101, 102, 103, 104, 105),
        vec![1, 2, 3, 4, 5, 6, 7, 8, 9, 10, 11, 12, 13, 101, 102, 103, 104, 105],
    );
    check(
        (1, 2, 3, 4, 5, 6, 7, 8, 9, 10, 11, 12, 13),
        (101, 102, 103, 104, 105, 106),
        vec![1, 2, 3, 4, 5, 6, 7, 8, 9, 10, 11, 12, 13, 101, 102, 103, 104, 105, 106],
    );
    check(
        (1, 2, 3, 4, 5, 6, 7, 8, 9, 10, 11, 12, 13),
        (101, 102, 103, 104, 105, 106, 107),
        vec![1, 2, 3, 4, 5, 6, 7, 8, 9, 10, 11, 12, 13, 101, 102, 103, 104, 105, 106, 107],
    );
    check(
        (1, 2, 3, 4, 5, 6, 7, 8, 9, 10, 11, 12, 13),
        (101, 102, 103, 104, 105, 106, 107, 108),
        vec![1, 2, 3, 4, 5, 6, 7, 8, 9, 10, 11, 12, 13, 101, 102, 103, 104, 105, 106, 107, 108],
    );
    check(
        (1, 2, 3, 4, 5, 6, 7, 8, 9, 10, 11, 12, 13),
        (101, 102, 103, 104, 105, 106, 107, 108, 109),
        vec![
            1, 2, 3, 4, 5, 6, 7, 8, 9, 10, 11, 12, 13, 101, 102, 103, 104, 105, 106, 107, 108, 109,
        ],
    );
    check(
        (1, 2, 3, 4, 5, 6, 7, 8, 9, 10, 11, 12, 13),
        (101, 102, 103, 104, 105, 106, 107, 108, 109, 110),
        vec![
            1, 2, 3, 4, 5, 6, 7, 8, 9, 10, 11, 12, 13, 101, 102, 103, 104, 105, 106, 107, 108, 109,
            110,
        ],
    );
    check(
        (1, 2, 3, 4, 5, 6, 7, 8, 9, 10, 11, 12, 13),
        (101, 102, 103, 104, 105, 106, 107, 108, 109, 110, 111),
        vec![
            1, 2, 3, 4, 5, 6, 7, 8, 9, 10, 11, 12, 13, 101, 102, 103, 104, 105, 106, 107, 108, 109,
            110, 111,
        ],
    );
    check(
        (1, 2, 3, 4, 5, 6, 7, 8, 9, 10, 11, 12, 13),
        (101, 102, 103, 104, 105, 106, 107, 108, 109, 110, 111, 112),
        vec![
            1, 2, 3, 4, 5, 6, 7, 8, 9, 10, 11, 12, 13, 101, 102, 103, 104, 105, 106, 107, 108, 109,
            110, 111, 112,
        ],
    );
    check(
        (1, 2, 3, 4, 5, 6, 7, 8, 9, 10, 11, 12, 13),
        (101, 102, 103, 104, 105, 106, 107, 108, 109, 110, 111, 112, 113),
        vec![
            1, 2, 3, 4, 5, 6, 7, 8, 9, 10, 11, 12, 13, 101, 102, 103, 104, 105, 106, 107, 108, 109,
            110, 111, 112, 113,
        ],
    );
}
