//! The relations whose left operand is a 1-tuple, one for each arity of the right operand.

use crate::join::Join;
use vstd::prelude::*;

verus! {

/// Joins a 1-tuple and the empty tuple into a 1-tuple.
impl<A> Join<()> for (A,) {
    type Out = (A,);

    open spec fn join_spec(self, other: ()) -> Self::Out {
        (self.0,)
    }

    open spec fn split_spec(tuple: Self::Out) -> (Self, ()) {
        ((tuple.0,), ())
    }

    proof fn lemma_split_join(left: Self, right: ()) {
    }

    proof fn lemma_join_split(tuple: Self::Out) {
    }

    fn join(self, other: ()) -> Self::Out
        returns
            self,
    {
        self
    }

    fn split(tuple: Self::Out) -> (Self, ())
        returns
            (tuple, ()),
    {
        (tuple, ())
    }
}

/// Joins a 1-tuple and a 1-tuple into a pair.
impl<A, N> Join<(N,)> for (A,) {
    type Out = (A, N);

    open spec fn join_spec(self, other: (N,)) -> Self::Out {
        (self.0, other.0)
    }

    open spec fn split_spec(tuple: Self::Out) -> (Self, (N,)) {
        ((tuple.0,), (tuple.1,))
    }

    proof fn lemma_split_join(left: Self, right: (N,)) {
    }

    proof fn lemma_join_split(tuple: Self::Out) {
    }

    fn join(self, other: (N,)) -> Self::Out
        returns
            (self.0, other.0),
    {
        let (a,) = self;
        let (n,) = other;
        (a, n)
    }

    fn split(tuple: Self::Out) -> (Self, (N,))
        returns
            ((tuple.0,), (tuple.1,)),
    {
        let (a, n) = tuple;
        ((a,), (n,))
    }
}

/// Joins a 1-tuple and a pair into a triple.
impl<A, N, O> Join<(N, O)> for (A,) {
    type Out = (A, N, O);

    open spec fn join_spec(self, other: (N, O)) -> Self::Out {
        (self.0, other.0, other.1)
    }

    open spec fn split_spec(tuple: Self::Out) -> (Self, (N, O)) {
        ((tuple.0,), (tuple.1, tuple.2))
    }

    proof fn lemma_split_join(left: Self, right: (N, O)) {
    }

    proof fn lemma_join_split(tuple: Self::Out) {
    }

    fn join(self, other: (N, O)) -> Self::Out
        returns
            (self.0, other.0, other.1),
    {
        let (a,) = self;
        let (n, o) = other;
        (a, n, o)
    }

    fn split(tuple: Self::Out) -> (Self, (N, O))
        returns
            ((tuple.0,), (tuple.1, tuple.2)),
    {
        let (a, n, o) = tuple;
        ((a,), (n, o))
    }
}

/// Joins a 1-tuple and a triple into a 4-tuple.
impl<A, N, O, P> Join<(N, O, P)> for (A,) {
    type Out = (A, N, O, P);

    open spec fn join_spec(self, other: (N, O, P)) -> Self::Out {
        (self.0, other.0, other.1, other.2)
    }

    open spec fn split_spec(tuple: Self::Out) -> (Self, (N, O, P)) {
        ((tuple.0,), (tuple.1, tuple.2, tuple.3))
    }

    proof fn lemma_split_join(left: Self, right: (N, O, P)) {
    }

    proof fn lemma_join_split(tuple: Self::Out) {
    }

    fn join(self, other: (N, O, P)) -> Self::Out
        returns
            (self.0, other.0, other.1, other.2),
    {
        let (a,) = self;
        let (n, o, p) = other;
        (a, n, o, p)
    }

    fn split(tuple: Self::Out) -> (Self, (N, O, P))
        returns
            ((tuple.0,), (tuple.1, tuple.2, tuple.3)),
    {
        let (a, n, o, p) = tuple;
        ((a,), (n, o, p))
    }
}

/// Joins a 1-tuple and a 4-tuple into a 5-tuple.
impl<A, N, O, P, Q> Join<(N, O, P, Q)> for (A,) {
    type Out = (A, N, O, P, Q);

    open spec fn join_spec(self, other: (N, O, P, Q)) -> Self::Out {
        (self.0, other.0, other.1, other.2, other.3)
    }

    open spec fn split_spec(tuple: Self::Out) -> (Self, (N, O, P, Q)) {
        ((tuple.0,), (tuple.1, tuple.2, tuple.3, tuple.4))
    }

    proof fn lemma_split_join(left: Self, right: (N, O, P, Q)) {
    }

    proof fn lemma_join_split(tuple: Self::Out) {
    }

    fn join(self, other: (N, O, P, Q)) -> Self::Out
        returns
            (self.0, other.0, other.1, other.2, other.3),
    {
        let (a,) = self;
        let (n, o, p, q) = other;
        (a, n, o, p, q)
    }

    fn split(tuple: Self::Out) -> (Self, (N, O, P, Q))
        returns
            ((tuple.0,), (tuple.1, tuple.2, tuple.3, tuple.4)),
    {
        let (a, n, o, p, q) = tuple;
        ((a,), (n, o, p, q))
    }
}

/// Joins a 1-tuple and a 5-tuple into a 6-tuple.
impl<A, N, O, P, Q, R> Join<(N, O, P, Q, R)> for (A,) {
    type Out = (A, N, O, P, Q, R);

    open spec fn join_spec(self, other: (N, O, P, Q, R)) -> Self::Out {
        (self.0, other.0, other.1, other.2, other.3, other.4)
    }

    open spec fn split_spec(tuple: Self::Out) -> (Self, (N, O, P, Q, R)) {
        ((tuple.0,), (tuple.1, tuple.2, tuple.3, tuple.4, tuple.5))
    }

    proof fn lemma_split_join(left: Self, right: (N, O, P, Q, R)) {
    }

    proof fn lemma_join_split(tuple: Self::Out) {
    }

    fn join(self, other: (N, O, P, Q, R)) -> Self::Out
        returns
            (self.0, other.0, other.1, other.2, other.3, other.4),
    {
        let (a,) = self;
        let (n, o, p, q, r) = other;
        (a, n, o, p, q, r)
    }

    fn split(tuple: Self::Out) -> (Self, (N, O, P, Q, R))
        returns
            ((tuple.0,), (tuple.1, tuple.2, tuple.3, tuple.4, tuple.5)),
    {
        let (a, n, o, p, q, r) = tuple;
        ((a,), (n, o, p, q, r))
    }
}

/// Joins a 1-tuple and a 6-tuple into a 7-tuple.
impl<A, N, O, P, Q, R, S> Join<(N, O, P, Q, R, S)> for (A,) {
    type Out = (A, N, O, P, Q, R, S);

    open spec fn join_spec(self, other: (N, O, P, Q, R, S)) -> Self::Out {
        (self.0, other.0, other.1, other.2, other.3, other.4, other.5)
    }

    open spec fn split_spec(tuple: Self::Out) -> (Self, (N, O, P, Q, R, S)) {
        ((tuple.0,), (tuple.1, tuple.2, tuple.3, tuple.4, tuple.5, tuple.6))
    }

    proof fn lemma_split_join(left: Self, right: (N, O, P, Q, R, S)) {
    }

    proof fn lemma_join_split(tuple: Self::Out) {
    }

    fn join(self, other: (N, O, P, Q, R, S)) -> Self::Out
        returns
            (self.0, other.0, other.1, other.2, other.3, other.4, other.5),
    {
        let (a,) = self;
        let (n, o, p, q, r, s) = other;
        (a, n, o, p, q, r, s)
    }

    fn split(tuple: Self::Out) -> (Self, (N, O, P, Q, R, S))
        returns
            ((tuple.0,), (tuple.1, tuple.2, tuple.3, tuple.4, tuple.5, tuple.6)),
    {
        let (a, n, o, p, q, r, s) = tuple;
        ((a,), (n, o, p, q, r, s))
    }
}

/// Joins a 1-tuple and a 7-tuple into an 8-tuple.
impl<A, N, O, P, Q, R, S, T> Join<(N, O, P, Q, R, S, T)> for (A,) {
    type Out = (A, N, O, P, Q, R, S, T);

    open spec fn join_spec(self, other: (N, O, P, Q, R, S, T)) -> Self::Out {
        (self.0, other.0, other.1, other.2, other.3, other.4, other.5, other.6)
    }

    open spec fn split_spec(tuple: Self::Out) -> (Self, (N, O, P, Q, R, S, T)) {
        ((tuple.0,), (tuple.1, tuple.2, tuple.3, tuple.4, tuple.5, tuple.6, tuple.7))
    }

    proof fn lemma_split_join(left: Self, right: (N, O, P, Q, R, S, T)) {
    }

    proof fn lemma_join_split(tuple: Self::Out) {
    }

    fn join(self, other: (N, O, P, Q, R, S, T)) -> Self::Out
        returns
            (self.0, other.0, other.1, other.2, other.3, other.4, other.5, other.6),
    {
        let (a,) = self;
        let (n, o, p, q, r, s, t) = other;
        (a, n, o, p, q, r, s, t)
    }

    fn split(tuple: Self::Out) -> (Self, (N, O, P, Q, R, S, T))
        returns
            ((tuple.0,), (tuple.1, tuple.2, tuple.3, tuple.4, tuple.5, tuple.6, tuple.7)),
    {
        let (a, n, o, p, q, r, s, t) = tuple;
        ((a,), (n, o, p, q, r, s, t))
    }
}

/// Joins a 1-tuple and an 8-tuple into a 9-tuple.
impl<A, N, O, P, Q, R, S, T, U> Join<(N, O, P, Q, R, S, T, U)> for (A,) {
    type Out = (A, N, O, P, Q, R, S, T, U);

    open spec fn join_spec(self, other: (N, O, P, Q, R, S, T, U)) -> Self::Out {
        (self.0, other.0, other.1, other.2, other.3, other.4, other.5, other.6, other.7)
    }

    open spec fn split_spec(tuple: Self::Out) -> (Self, (N, O, P, Q, R, S, T, U)) {
        ((tuple.0,), (tuple.1, tuple.2, tuple.3, tuple.4, tuple.5, tuple.6, tuple.7, tuple.8))
    }

    proof fn lemma_split_join(left: Self, right: (N, O, P, Q, R, S, T, U)) {
    }

    proof fn lemma_join_split(tuple: Self::Out) {
    }

    fn join(self, other: (N, O, P, Q, R, S, T, U)) -> Self::Out
        returns
            (self.0, other.0, other.1, other.2, other.3, other.4, other.5, other.6, other.7),
    {
        let (a,) = self;
        let (n, o, p, q, r, s, t, u) = other;
        (a, n, o, p, q, r, s, t, u)
    }

    fn split(tuple: Self::Out) -> (Self, (N, O, P, Q, R, S, T, U))
        returns
            ((tuple.0,), (tuple.1, tuple.2, tuple.3, tuple.4, tuple.5, tuple.6, tuple.7, tuple.8)),
    {
        let (a, n, o, p, q, r, s, t, u) = tuple;
        ((a,), (n, o, p, q, r, s, t, u))
    }
}

/// Joins a 1-tuple and a 9-tuple into a 10-tuple.
impl<A, N, O, P, Q, R, S, T, U, V> Join<(N, O, P, Q, R, S, T, U, V)> for (A,) {
    type Out = (A, N, O, P, Q, R, S, T, U, V);

    open spec fn join_spec(self, other: (N, O, P, Q, R, S, T, U, V)) -> Self::Out {
        (self.0, other.0, other.1, other.2, other.3, other.4, other.5, other.6, other.7, other.8)
    }

    open spec fn split_spec(tuple: Self::Out) -> (Self, (N, O, P, Q, R, S, T, U, V)) {
        (
            (tuple.0,),
            (tuple.1, tuple.2, tuple.3, tuple.4, tuple.5, tuple.6, tuple.7, tuple.8, tuple.9),
        )
    }

    proof fn lemma_split_join(left: Self, right: (N, O, P, Q, R, S, T, U, V)) {
    }

    proof fn lemma_join_split(tuple: Self::Out) {
    }

    fn join(self, other: (N, O, P, Q, R, S, T, U, V)) -> Self::Out
        returns
            (
                self.0,
                other.0, other.1, other.2, other.3, other.4, other.5, other.6, other.7, other.8,
            ),
    {
        let (a,) = self;
        let (n, o, p, q, r, s, t, u, v) = other;
        (a, n, o, p, q, r, s, t, u, v)
    }

    fn split(tuple: Self::Out) -> (Self, (N, O, P, Q, R, S, T, U, V))
        returns
            (
                (tuple.0,),
                (tuple.1, tuple.2, tuple.3, tuple.4, tuple.5, tuple.6, tuple.7, tuple.8, tuple.9),
            ),
    {
        let (a, n, o, p, q, r, s, t, u, v) = tuple;
        ((a,), (n, o, p, q, r, s, t, u, v))
    }
}

/// Joins a 1-tuple and a 10-tuple into an 11-tuple.
impl<A, N, O, P, Q, R, S, T, U, V, W> Join<(N, O, P, Q, R, S, T, U, V, W)> for (A,) {
    type Out = (A, N, O, P, Q, R, S, T, U, V, W);

    open spec fn join_spec(self, other: (N, O, P, Q, R, S, T, U, V, W)) -> Self::Out {
        (
            self.0,
            other.0, other.1, other.2, other.3, other.4, other.5, other.6, other.7, other.8,
            other.9,
        )
    }

    open spec fn split_spec(tuple: Self::Out) -> (Self, (N, O, P, Q, R, S, T, U, V, W)) {
        (
            (tuple.0,),
            (
                tuple.1, tuple.2, tuple.3, tuple.4, tuple.5, tuple.6, tuple.7, tuple.8, tuple.9,
                tuple.10,
            ),
        )
    }

    proof fn lemma_split_join(left: Self, right: (N, O, P, Q, R, S, T, U, V, W)) {
    }

    proof fn lemma_join_split(tuple: Self::Out) {
    }

    fn join(self, other: (N, O, P, Q, R, S, T, U, V, W)) -> Self::Out
        returns
            (
                self.0,
                other.0, other.1, other.2, other.3, other.4, other.5, other.6, other.7, other.8,
                other.9,
            ),
    {
        let (a,) = self;
        let (n, o, p, q, r, s, t, u, v, w) = other;
        (a, n, o, p, q, r, s, t, u, v, w)
    }

    fn split(tuple: Self::Out) -> (Self, (N, O, P, Q, R, S, T, U, V, W))
        returns
            (
                (tuple.0,),
                (
                    tuple.1, tuple.2, tuple.3, tuple.4, tuple.5, tuple.6, tuple.7, tuple.8, tuple.9,
                    tuple.10,
                ),
            ),
    {
        let (a, n, o, p, q, r, s, t, u, v, w) = tuple;
        ((a,), (n, o, p, q, r, s, t, u, v, w))
    }
}

/// Joins a 1-tuple and an 11-tuple into a 12-tuple.
impl<A, N, O, P, Q, R, S, T, U, V, W, X> Join<(N, O, P, Q, R, S, T, U, V, W, X)> for (A,) {
    type Out = (A, N, O, P, Q, R, S, T, U, V, W, X);

    open spec fn join_spec(self, other: (N, O, P, Q, R, S, T, U, V, W, X)) -> Self::Out {
        (
            self.0,
            other.0, other.1, other.2, other.3, other.4, other.5, other.6, other.7, other.8,
            other.9, other.10,
        )
    }

    open spec fn split_spec(tuple: Self::Out) -> (Self, (N, O, P, Q, R, S, T, U, V, W, X)) {
        (
            (tuple.0,),
            (
                tuple.1, tuple.2, tuple.3, tuple.4, tuple.5, tuple.6, tuple.7, tuple.8, tuple.9,
                tuple.10, tuple.11,
            ),
        )
    }

    proof fn lemma_split_join(left: Self, right: (N, O, P, Q, R, S, T, U, V, W, X)) {
    }

    proof fn lemma_join_split(tuple: Self::Out) {
    }

    fn join(self, other: (N, O, P, Q, R, S, T, U, V, W, X)) -> Self::Out
        returns
            (
                self.0,
                other.0, other.1, other.2, other.3, other.4, other.5, other.6, other.7, other.8,
                other.9, other.10,
            ),
    {
        let (a,) = self;
        let (n, o, p, q, r, s, t, u, v, w, x) = other;
        (a, n, o, p, q, r, s, t, u, v, w, x)
    }

    fn split(tuple: Self::Out) -> (Self, (N, O, P, Q, R, S, T, U, V, W, X))
        returns
            (
                (tuple.0,),
                (
                    tuple.1, tuple.2, tuple.3, tuple.4, tuple.5, tuple.6, tuple.7, tuple.8, tuple.9,
                    tuple.10, tuple.11,
                ),
            ),
    {
        let (a, n, o, p, q, r, s, t, u, v, w, x) = tuple;
        ((a,), (n, o, p, q, r, s, t, u, v, w, x))
    }
}

/// Joins a 1-tuple and a 12-tuple into a 13-tuple.
impl<A, N, O, P, Q, R, S, T, U, V, W, X, Y> Join<(N, O, P, Q, R, S, T, U, V, W, X, Y)> for (A,) {
    type Out = (A, N, O, P, Q, R, S, T, U, V, W, X, Y);

    open spec fn join_spec(self, other: (N, O, P, Q, R, S, T, U, V, W, X, Y)) -> Self::Out {
        (
            self.0,
            other.0, other.1, other.2, other.3, other.4, other.5, other.6, other.7, other.8,
            other.9, other.10, other.11,
        )
    }

    open spec fn split_spec(tuple: Self::Out) -> (Self, (N, O, P, Q, R, S, T, U, V, W, X, Y)) {
        (
            (tuple.0,),
            (
                tuple.1, tuple.2, tuple.3, tuple.4, tuple.5, tuple.6, tuple.7, tuple.8, tuple.9,
                tuple.10, tuple.11, tuple.12,
            ),
        )
    }

    proof fn lemma_split_join(left: Self, right: (N, O, P, Q, R, S, T, U, V, W, X, Y)) {
    }

    proof fn lemma_join_split(tuple: Self::Out) {
    }

    fn join(self, other: (N, O, P, Q, R, S, T, U, V, W, X, Y)) -> Self::Out
        returns
            (
                self.0,
                other.0, other.1, other.2, other.3, other.4, other.5, other.6, other.7, other.8,
                other.9, other.10, other.11,
            ),
    {
        let (a,) = self;
        let (n, o, p, q, r, s, t, u, v, w, x, y) = other;
        (a, n, o, p, q, r, s, t, u, v, w, x, y)
    }

    fn split(tuple: Self::Out) -> (Self, (N, O, P, Q, R, S, T, U, V, W, X, Y))
        returns
            (
                (tuple.0,),
                (
                    tuple.1, tuple.2, tuple.3, tuple.4, tuple.5, tuple.6, tuple.7, tuple.8, tuple.9,
                    tuple.10, tuple.11, tuple.12,
                ),
            ),
    {
        let (a, n, o, p, q, r, s, t, u, v, w, x, y) = tuple;
        ((a,), (n, o, p, q, r, s, t, u, v, w, x, y))
    }
}

/// Joins a 1-tuple and a 13-tuple into a 14-tuple.
impl<A, N, O, P, Q, R, S, T, U, V, W, X, Y, Z>
    Join<(N, O, P, Q, R, S, T, U, V, W, X, Y, Z)> for (A,)
{
    type Out = (A, N, O, P, Q, R, S, T, U, V, W, X, Y, Z);

    open spec fn join_spec(self, other: (N, O, P, Q, R, S, T, U, V, W, X, Y, Z)) -> Self::Out {
        (
            self.0,
            other.0, other.1, other.2, other.3, other.4, other.5, other.6, other.7, other.8,
            other.9, other.10, other.11, other.12,
        )
    }

    open spec fn split_spec(tuple: Self::Out) -> (Self, (N, O, P, Q, R, S, T, U, V, W, X, Y, Z)) {
        (
            (tuple.0,),
            (
                tuple.1, tuple.2, tuple.3, tuple.4, tuple.5, tuple.6, tuple.7, tuple.8, tuple.9,
                tuple.10, tuple.11, tuple.12, tuple.13,
            ),
        )
    }

    proof fn lemma_split_join(left: Self, right: (N, O, P, Q, R, S, T, U, V, W, X, Y, Z)) {
    }

    proof fn lemma_join_split(tuple: Self::Out) {
    }

    fn join(self, other: (N, O, P, Q, R, S, T, U, V, W, X, Y, Z)) -> Self::Out
        returns
            (
                self.0,
                other.0, other.1, other.2, other.3, other.4, other.5, other.6, other.7, other.8,
                other.9, other.10, other.11, other.12,
            ),
    {
        let (a,) = self;
        let (n, o, p, q, r, s, t, u, v, w, x, y, z) = other;
        (a, n, o, p, q, r, s, t, u, v, w, x, y, z)
    }

    fn split(tuple: Self::Out) -> (Self, (N, O, P, Q, R, S, T, U, V, W, X, Y, Z))
        returns
            (
                (tuple.0,),
                (
                    tuple.1, tuple.2, tuple.3, tuple.4, tuple.5, tuple.6, tuple.7, tuple.8, tuple.9,
                    tuple.10, tuple.11, tuple.12, tuple.13,
                ),
            ),
    {
        let (a, n, o, p, q, r, s, t, u, v, w, x, y, z) = tuple;
        ((a,), (n, o, p, q, r, s, t, u, v, w, x, y, z))
    }
}

} // verus!
