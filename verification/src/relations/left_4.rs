//! The relations whose left operand is a 4-tuple, one for each arity of the right operand.

use crate::join::Join;
use vstd::prelude::*;

verus! {

/// Joins a 4-tuple and the empty tuple into a 4-tuple.
impl<A, B, C, D> Join<()> for (A, B, C, D) {
    type Out = (A, B, C, D);

    open spec fn join_spec(self, other: ()) -> Self::Out {
        (self.0, self.1, self.2, self.3)
    }

    open spec fn split_spec(tuple: Self::Out) -> (Self, ()) {
        ((tuple.0, tuple.1, tuple.2, tuple.3), ())
    }

    proof fn lemma_split_join(left: Self, right: ()) {
    }

    proof fn lemma_join_split(tuple: Self::Out) {
    }

    fn join(self, other: ()) -> Self::Out
        returns
            self,
    {
        self
    }

    fn split(tuple: Self::Out) -> (Self, ())
        returns
            (tuple, ()),
    {
        (tuple, ())
    }
}

/// Joins a 4-tuple and a 1-tuple into a 5-tuple.
impl<A, B, C, D, N> Join<(N,)> for (A, B, C, D) {
    type Out = (A, B, C, D, N);

    open spec fn join_spec(self, other: (N,)) -> Self::Out {
        (self.0, self.1, self.2, self.3, other.0)
    }

    open spec fn split_spec(tuple: Self::Out) -> (Self, (N,)) {
        ((tuple.0, tuple.1, tuple.2, tuple.3), (tuple.4,))
    }

    proof fn lemma_split_join(left: Self, right: (N,)) {
    }

    proof fn lemma_join_split(tuple: Self::Out) {
    }

    fn join(self, other: (N,)) -> Self::Out
        returns
            (self.0, self.1, self.2, self.3, other.0),
    {
        let (a, b, c, d) = self;
        let (n,) = other;
        (a, b, c, d, n)
    }

    fn split(tuple: Self::Out) -> (Self, (N,))
        returns
            ((tuple.0, tuple.1, tuple.2, tuple.3), (tuple.4,)),
    {
        let (a, b, c, d, n) = tuple;
        ((a, b, c, d), (n,))
    }
}

/// Joins a 4-tuple and a pair into a 6-tuple.
impl<A, B, C, D, N, O> Join<(N, O)> for (A, B, C, D) {
    type Out = (A, B, C, D, N, O);

    open spec fn join_spec(self, other: (N, O)) -> Self::Out {
        (self.0, self.1, self.2, self.3, other.0, other.1)
    }

    open spec fn split_spec(tuple: Self::Out) -> (Self, (N, O)) {
        ((tuple.0, tuple.1, tuple.2, tuple.3), (tuple.4, tuple.5))
    }

    proof fn lemma_split_join(left: Self, right: (N, O)) {
    }

    proof fn lemma_join_split(tuple: Self::Out) {
    }

    fn join(self, other: (N, O)) -> Self::Out
        returns
            (self.0, self.1, self.2, self.3, other.0, other.1),
    {
        let (a, b, c, d) = self;
        let (n, o) = other;
        (a, b, c, d, n, o)
    }

    fn split(tuple: Self::Out) -> (Self, (N, O))
        returns
            ((tuple.0, tuple.1, tuple.2, tuple.3), (tuple.4, tuple.5)),
    {
        let (a, b, c, d, n, o) = tuple;
        ((a, b, c, d), (n, o))
    }
}

/// Joins a 4-tuple and a triple into a 7-tuple.
impl<A, B, C, D, N, O, P> Join<(N, O, P)> for (A, B, C, D) {
    type Out = (A, B, C, D, N, O, P);

    open spec fn join_spec(self, other: (N, O, P)) -> Self::Out {
        (self.0, self.1, self.2, self.3, other.0, other.1, other.2)
    }

    open spec fn split_spec(tuple: Self::Out) -> (Self, (N, O, P)) {
        ((tuple.0, tuple.1, tuple.2, tuple.3), (tuple.4, tuple.5, tuple.6))
    }

    proof fn lemma_split_join(left: Self, right: (N, O, P)) {
    }

    proof fn lemma_join_split(tuple: Self::Out) {
    }

    fn join(self, other: (N, O, P)) -> Self::Out
        returns
            (self.0, self.1, self.2, self.3, other.0, other.1, other.2),
    {
        let (a, b, c, d) = self;
        let (n, o, p) = other;
        (a, b, c, d, n, o, p)
    }

    fn split(tuple: Self::Out) -> (Self, (N, O, P))
        returns
            ((tuple.0, tuple.1, tuple.2, tuple.3), (tuple.4, tuple.5, tuple.6)),
    {
        let (a, b, c, d, n, o, p) = tuple;
        ((a, b, c, d), (n, o, p))
    }
}

/// Joins a 4-tuple and a 4-tuple into an 8-tuple.
impl<A, B, C, D, N, O, P, Q> Join<(N, O, P, Q)> for (A, B, C, D) {
    type Out = (A, B, C, D, N, O, P, Q);

    open spec fn join_spec(self, other: (N, O, P, Q)) -> Self::Out {
        (self.0, self.1, self.2, self.3, other.0, other.1, other.2, other.3)
    }

    open spec fn split_spec(tuple: Self::Out) -> (Self, (N, O, P, Q)) {
        ((tuple.0, tuple.1, tuple.2, tuple.3), (tuple.4, tuple.5, tuple.6, tuple.7))
    }

    proof fn lemma_split_join(left: Self, right: (N, O, P, Q)) {
    }

    proof fn lemma_join_split(tuple: Self::Out) {
    }

    fn join(self, other: (N, O, P, Q)) -> Self::Out
        returns
            (self.0, self.1, self.2, self.3, other.0, other.1, other.2, other.3),
    {
        let (a, b, c, d) = self;
        let (n, o, p, q) = other;
        (a, b, c, d, n, o, p, q)
    }

    fn split(tuple: Self::Out) -> (Self, (N, O, P, Q))
        returns
            ((tuple.0, tuple.1, tuple.2, tuple.3), (tuple.4, tuple.5, tuple.6, tuple.7)),
    {
        let (a, b, c, d, n, o, p, q) = tuple;
        ((a, b, c, d), (n, o, p, q))
    }
}

/// Joins a 4-tuple and a 5-tuple into a 9-tuple.
impl<A, B, C, D, N, O, P, Q, R> Join<(N, O, P, Q, R)> for (A, B, C, D) {
    type Out = (A, B, C, D, N, O, P, Q, R);

    open spec fn join_spec(self, other: (N, O, P, Q, R)) -> Self::Out {
        (self.0, self.1, self.2, self.3, other.0, other.1, other.2, other.3, other.4)
    }

    open spec fn split_spec(tuple: Self::Out) -> (Self, (N, O, P, Q, R)) {
        ((tuple.0, tuple.1, tuple.2, tuple.3), (tuple.4, tuple.5, tuple.6, tuple.7, tuple.8))
    }

    proof fn lemma_split_join(left: Self, right: (N, O, P, Q, R)) {
    }

    proof fn lemma_join_split(tuple: Self::Out) {
    }

    fn join(self, other: (N, O, P, Q, R)) -> Self::Out
        returns
            (self.0, self.1, self.2, self.3, other.0, other.1, other.2, other.3, other.4),
    {
        let (a, b, c, d) = self;
        let (n, o, p, q, r) = other;
        (a, b, c, d, n, o, p, q, r)
    }

    fn split(tuple: Self::Out) -> (Self, (N, O, P, Q, R))
        returns
            ((tuple.0, tuple.1, tuple.2, tuple.3), (tuple.4, tuple.5, tuple.6, tuple.7, tuple.8)),
    {
        let (a, b, c, d, n, o, p, q, r) = tuple;
        ((a, b, c, d), (n, o, p, q, r))
    }
}

/// Joins a 4-tuple and a 6-tuple into a 10-tuple.
impl<A, B, C, D, N, O, P, Q, R, S> Join<(N, O, P, Q, R, S)> for (A, B, C, D) {
    type Out = (A, B, C, D, N, O, P, Q, R, S);

    open spec fn join_spec(self, other: (N, O, P, Q, R, S)) -> Self::Out {
        (self.0, self.1, self.2, self.3, other.0, other.1, other.2, other.3, other.4, other.5)
    }

    open spec fn split_spec(tuple: Self::Out) -> (Self, (N, O, P, Q, R, S)) {
        (
            (tuple.0, tuple.1, tuple.2, tuple.3),
            (tuple.4, tuple.5, tuple.6, tuple.7, tuple.8, tuple.9),
        )
    }

    proof fn lemma_split_join(left: Self, right: (N, O, P, Q, R, S)) {
    }

    proof fn lemma_join_split(tuple: Self::Out) {
    }

    fn join(self, other: (N, O, P, Q, R, S)) -> Self::Out
        returns
            (self.0, self.1, self.2, self.3, other.0, other.1, other.2, other.3, other.4, other.5),
    {
        let (a, b, c, d) = self;
        let (n, o, p, q, r, s) = other;
        (a, b, c, d, n, o, p, q, r, s)
    }

    fn split(tuple: Self::Out) -> (Self, (N, O, P, Q, R, S))
        returns
            (
                (tuple.0, tuple.1, tuple.2, tuple.3),
                (tuple.4, tuple.5, tuple.6, tuple.7, tuple.8, tuple.9),
            ),
    {
        let (a, b, c, d, n, o, p, q, r, s) = tuple;
        ((a, b, c, d), (n, o, p, q, r, s))
    }
}

/// Joins a 4-tuple and a 7-tuple into an 11-tuple.
impl<A, B, C, D, N, O, P, Q, R, S, T> Join<(N, O, P, Q, R, S, T)> for (A, B, C, D) {
    type Out = (A, B, C, D, N, O, P, Q, R, S, T);

    open spec fn join_spec(self, other: (N, O, P, Q, R, S, T)) -> Self::Out {
        (
            self.0, self.1, self.2, self.3,
            other.0, other.1, other.2, other.3, other.4, other.5, other.6,
        )
    }

    open spec fn split_spec(tuple: Self::Out) -> (Self, (N, O, P, Q, R, S, T)) {
        (
            (tuple.0, tuple.1, tuple.2, tuple.3),
            (tuple.4, tuple.5, tuple.6, tuple.7, tuple.8, tuple.9, tuple.10),
        )
    }

    proof fn lemma_split_join(left: Self, right: (N, O, P, Q, R, S, T)) {
    }

    proof fn lemma_join_split(tuple: Self::Out) {
    }

    fn join(self, other: (N, O, P, Q, R, S, T)) -> Self::Out
        returns
            (
                self.0, self.1, self.2, self.3,
                other.0, other.1, other.2, other.3, other.4, other.5, other.6,
            ),
    {
        let (a, b, c, d) = self;
        let (n, o, p, q, r, s, t) = other;
        (a, b, c, d, n, o, p, q, r, s, t)
    }

    fn split(tuple: Self::Out) -> (Self, (N, O, P, Q, R, S, T))
        returns
            (
                (tuple.0, tuple.1, tuple.2, tuple.3),
                (tuple.4, tuple.5, tuple.6, tuple.7, tuple.8, tuple.9, tuple.10),
            ),
    {
        let (a, b, c, d, n, o, p, q, r, s, t) = tuple;
        ((a, b, c, d), (n, o, p, q, r, s, t))
    }
}

/// Joins a 4-tuple and an 8-tuple into a 12-tuple.
impl<A, B, C, D, N, O, P, Q, R, S, T, U> Join<(N, O, P, Q, R, S, T, U)> for (A, B, C, D) {
    type Out = (A, B, C, D, N, O, P, Q, R, S, T, U);

    open spec fn join_spec(self, other: (N, O, P, Q, R, S, T, U)) -> Self::Out {
        (
            self.0, self.1, self.2, self.3,
            other.0, other.1, other.2, other.3, other.4, other.5, other.6, other.7,
        )
    }

    open spec fn split_spec(tuple: Self::Out) -> (Self, (N, O, P, Q, R, S, T, U)) {
        (
            (tuple.0, tuple.1, tuple.2, tuple.3),
            (tuple.4, tuple.5, tuple.6, tuple.7, tuple.8, tuple.9, tuple.10, tuple.11),
        )
    }

    proof fn lemma_split_join(left: Self, right: (N, O, P, Q, R, S, T, U)) {
    }

    proof fn lemma_join_split(tuple: Self::Out) {
    }

    fn join(self, other: (N, O, P, Q, R, S, T, U)) -> Self::Out
        returns
            (
                self.0, self.1, self.2, self.3,
                other.0, other.1, other.2, other.3, other.4, other.5, other.6, other.7,
            ),
    {
        let (a, b, c, d) = self;
        let (n, o, p, q, r, s, t, u) = other;
        (a, b, c, d, n, o, p, q, r, s, t, u)
    }

    fn split(tuple: Self::Out) -> (Self, (N, O, P, Q, R, S, T, U))
        returns
            (
                (tuple.0, tuple.1, tuple.2, tuple.3),
                (tuple.4, tuple.5, tuple.6, tuple.7, tuple.8, tuple.9, tuple.10, tuple.11),
            ),
    {
        let (a, b, c, d, n, o, p, q, r, s, t, u) = tuple;
        ((a, b, c, d), (n, o, p, q, r, s, t, u))
    }
}

/// Joins a 4-tuple and a 9-tuple into a 13-tuple.
impl<A, B, C, D, N, O, P, Q, R, S, T, U, V> Join<(N, O, P, Q, R, S, T, U, V)> for (A, B, C, D) {
    type Out = (A, B, C, D, N, O, P, Q, R, S, T, U, V);

    open spec fn join_spec(self, other: (N, O, P, Q, R, S, T, U, V)) -> Self::Out {
        (
            self.0, self.1, self.2, self.3,
            other.0, other.1, other.2, other.3, other.4, other.5, other.6, other.7, other.8,
        )
    }

    open spec fn split_spec(tuple: Self::Out) -> (Self, (N, O, P, Q, R, S, T, U, V)) {
        (
            (tuple.0, tuple.1, tuple.2, tuple.3),
            (tuple.4, tuple.5, tuple.6, tuple.7, tuple.8, tuple.9, tuple.10, tuple.11, tuple.12),
        )
    }

    proof fn lemma_split_join(left: Self, right: (N, O, P, Q, R, S, T, U, V)) {
    }

    proof fn lemma_join_split(tuple: Self::Out) {
    }

    fn join(self, other: (N, O, P, Q, R, S, T, U, V)) -> Self::Out
        returns
            (
                self.0, self.1, self.2, self.3,
                other.0, other.1, other.2, other.3, other.4, other.5, other.6, other.7, other.8,
            ),
    {
        let (a, b, c, d) = self;
        let (n, o, p, q, r, s, t, u, v) = other;
        (a, b, c, d, n, o, p, q, r, s, t, u, v)
    }

    fn split(tuple: Self::Out) -> (Self, (N, O, P, Q, R, S, T, U, V))
        returns
            (
                (tuple.0, tuple.1, tuple.2, tuple.3),
                (tuple.4, tuple.5, tuple.6, tuple.7, tuple.8, tuple.9, tuple.10, tuple.11, tuple.12),
            ),
    {
        let (a, b, c, d, n, o, p, q, r, s, t, u, v) = tuple;
        ((a, b, c, d), (n, o, p, q, r, s, t, u, v))
    }
}

/// Joins a 4-tuple and a 10-tuple into a 14-tuple.
impl<A, B, C, D, N, O, P, Q, R, S, T, U, V, W>
    Join<(N, O, P, Q, R, S, T, U, V, W)> for (A, B, C, D)
{
    type Out = (A, B, C, D, N, O, P, Q, R, S, T, U, V, W);

    open spec fn join_spec(self, other: (N, O, P, Q, R, S, T, U, V, W)) -> Self::Out {
        (
            self.0, self.1, self.2, self.3,
            other.0, other.1, other.2, other.3, other.4, other.5, other.6, other.7, other.8,
            other.9,
        )
    }

    open spec fn split_spec(tuple: Self::Out) -> (Self, (N, O, P, Q, R, S, T, U, V, W)) {
        (
            (tuple.0, tuple.1, tuple.2, tuple.3),
            (
                tuple.4, tuple.5, tuple.6, tuple.7, tuple.8, tuple.9, tuple.10, tuple.11, tuple.12,
                tuple.13,
            ),
        )
    }

    proof fn lemma_split_join(left: Self, right: (N, O, P, Q, R, S, T, U, V, W)) {
    }

    proof fn lemma_join_split(tuple: Self::Out) {
    }

    fn join(self, other: (N, O, P, Q, R, S, T, U, V, W)) -> Self::Out
        returns
            (
                self.0, self.1, self.2, self.3,
                other.0, other.1, other.2, other.3, other.4, other.5, other.6, other.7, other.8,
                other.9,
            ),
    {
        let (a, b, c, d) = self;
        let (n, o, p, q, r, s, t, u, v, w) = other;
        (a, b, c, d, n, o, p, q, r, s, t, u, v, w)
    }

    fn split(tuple: Self::Out) -> (Self, (N, O, P, Q, R, S, T, U, V, W))
        returns
            (
                (tuple.0, tuple.1, tuple.2, tuple.3),
                (
                    tuple.4, tuple.5, tuple.6, tuple.7, tuple.8, tuple.9, tuple.10, tuple.11,
                    tuple.12, tuple.13,
                ),
            ),
    {
        let (a, b, c, d, n, o, p, q, r, s, t, u, v, w) = tuple;
        ((a, b, c, d), (n, o, p, q, r, s, t, u, v, w))
    }
}

/// Joins a 4-tuple and an 11-tuple into a 15-tuple.
impl<A, B, C, D, N, O, P, Q, R, S, T, U, V, W, X>
    Join<(N, O, P, Q, R, S, T, U, V, W, X)> for (A, B, C, D)
{
    type Out = (A, B, C, D, N, O, P, Q, R, S, T, U, V, W, X);

    open spec fn join_spec(self, other: (N, O, P, Q, R, S, T, U, V, W, X)) -> Self::Out {
        (
            self.0, self.1, self.2, self.3,
            other.0, other.1, other.2, other.3, other.4, other.5, other.6, other.7, other.8,
            other.9, other.10,
        )
    }

    open spec fn split_spec(tuple: Self::Out) -> (Self, (N, O, P, Q, R, S, T, U, V, W, X)) {
        (
            (tuple.0, tuple.1, tuple.2, tuple.3),
            (
                tuple.4, tuple.5, tuple.6, tuple.7, tuple.8, tuple.9, tuple.10, tuple.11, tuple.12,
                tuple.13, tuple.14,
            ),
        )
    }

    proof fn lemma_split_join(left: Self, right: (N, O, P, Q, R, S, T, U, V, W, X)) {
    }

    proof fn lemma_join_split(tuple: Self::Out) {
    }

    fn join(self, other: (N, O, P, Q, R, S, T, U, V, W, X)) -> Self::Out
        returns
            (
                self.0, self.1, self.2, self.3,
                other.0, other.1, other.2, other.3, other.4, other.5, other.6, other.7, other.8,
                other.9, other.10,
            ),
    {
        let (a, b, c, d) = self;
        let (n, o, p, q, r, s, t, u, v, w, x) = other;
        (a, b, c, d, n, o, p, q, r, s, t, u, v, w, x)
    }

    fn split(tuple: Self::Out) -> (Self, (N, O, P, Q, R, S, T, U, V, W, X))
        returns
            (
                (tuple.0, tuple.1, tuple.2, tuple.3),
                (
                    tuple.4, tuple.5, tuple.6, tuple.7, tuple.8, tuple.9, tuple.10, tuple.11,
                    tuple.12, tuple.13, tuple.14,
                ),
            ),
    {
        let (a, b, c, d, n, o, p, q, r, s, t, u, v, w, x) = tuple;
        ((a, b, c, d), (n, o, p, q, r, s, t, u, v, w, x))
    }
}

/// Joins a 4-tuple and a 12-tuple into a 16-tuple.
impl<A, B, C, D, N, O, P, Q, R, S, T, U, V, W, X, Y>
    Join<(N, O, P, Q, R, S, T, U, V, W, X, Y)> for (A, B, C, D)
{
    type Out = (A, B, C, D, N, O, P, Q, R, S, T, U, V, W, X, Y);

    open spec fn join_spec(self, other: (N, O, P, Q, R, S, T, U, V, W, X, Y)) -> Self::Out {
        (
            self.0, self.1, self.2, self.3,
            other.0, other.1, other.2, other.3, other.4, other.5, other.6, other.7, other.8,
            other.9, other.10, other.11,
        )
    }

    open spec fn split_spec(tuple: Self::Out) -> (Self, (N, O, P, Q, R, S, T, U, V, W, X, Y)) {
        (
            (tuple.0, tuple.1, tuple.2, tuple.3),
            (
                tuple.4, tuple.5, tuple.6, tuple.7, tuple.8, tuple.9, tuple.10, tuple.11, tuple.12,
                tuple.13, tuple.14, tuple.15,
            ),
        )
    }

    proof fn lemma_split_join(left: Self, right: (N, O, P, Q, R, S, T, U, V, W, X, Y)) {
    }

    proof fn lemma_join_split(tuple: Self::Out) {
    }

    fn join(self, other: (N, O, P, Q, R, S, T, U, V, W, X, Y)) -> Self::Out
        returns
            (
                self.0, self.1, self.2, self.3,
                other.0, other.1, other.2, other.3, other.4, other.5, other.6, other.7, other.8,
                other.9, other.10, other.11,
            ),
    {
        let (a, b, c, d) = self;
        let (n, o, p, q, r, s, t, u, v, w, x, y) = other;
        (a, b, c, d, n, o, p, q, r, s, t, u, v, w, x, y)
    }

    fn split(tuple: Self::Out) -> (Self, (N, O, P, Q, R, S, T, U, V, W, X, Y))
        returns
            (
                (tuple.0, tuple.1, tuple.2, tuple.3),
                (
                    tuple.4, tuple.5, tuple.6, tuple.7, tuple.8, tuple.9, tuple.10, tuple.11,
                    tuple.12, tuple.13, tuple.14, tuple.15,
                ),
            ),
    {
        let (a, b, c, d, n, o, p, q, r, s, t, u, v, w, x, y) = tuple;
        ((a, b, c, d), (n, o, p, q, r, s, t, u, v, w, x, y))
    }
}

/// Joins a 4-tuple and a 13-tuple into a 17-tuple.
impl<A, B, C, D, N, O, P, Q, R, S, T, U, V, W, X, Y, Z>
    Join<(N, O, P, Q, R, S, T, U, V, W, X, Y, Z)> for (A, B, C, D)
{
    type Out = (A, B, C, D, N, O, P, Q, R, S, T, U, V, W, X, Y, Z);

    open spec fn join_spec(self, other: (N, O, P, Q, R, S, T, U, V, W, X, Y, Z)) -> Self::Out {
        (
            self.0, self.1, self.2, self.3,
            other.0, other.1, other.2, other.3, other.4, other.5, other.6, other.7, other.8,
            other.9, other.10, other.11, other.12,
        )
    }

    open spec fn split_spec(tuple: Self::Out) -> (Self, (N, O, P, Q, R, S, T, U, V, W, X, Y, Z)) {
        (
            (tuple.0, tuple.1, tuple.2, tuple.3),
            (
                tuple.4, tuple.5, tuple.6, tuple.7, tuple.8, tuple.9, tuple.10, tuple.11, tuple.12,
                tuple.13, tuple.14, tuple.15, tuple.16,
            ),
        )
    }

    proof fn lemma_split_join(left: Self, right: (N, O, P, Q, R, S, T, U, V, W, X, Y, Z)) {
    }

    proof fn lemma_join_split(tuple: Self::Out) {
    }

    fn join(self, other: (N, O, P, Q, R, S, T, U, V, W, X, Y, Z)) -> Self::Out
        returns
            (
                self.0, self.1, self.2, self.3,
                other.0, other.1, other.2, other.3, other.4, other.5, other.6, other.7, other.8,
                other.9, other.10, other.11, other.12,
            ),
    {
        let (a, b, c, d) = self;
        let (n, o, p, q, r, s, t, u, v, w, x, y, z) = other;
        (a, b, c, d, n, o, p, q, r, s, t, u, v, w, x, y, z)
    }

    fn split(tuple: Self::Out) -> (Self, (N, O, P, Q, R, S, T, U, V, W, X, Y, Z))
        returns
            (
                (tuple.0, tuple.1, tuple.2, tuple.3),
                (
                    tuple.4, tuple.5, tuple.6, tuple.7, tuple.8, tuple.9, tuple.10, tuple.11,
                    tuple.12, tuple.13, tuple.14, tuple.15, tuple.16,
                ),
            ),
    {
        let (a, b, c, d, n, o, p, q, r, s, t, u, v, w, x, y, z) = tuple;
        ((a, b, c, d), (n, o, p, q, r, s, t, u, v, w, x, y, z))
    }
}

} // verus!
