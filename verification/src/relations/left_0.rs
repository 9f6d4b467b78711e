//! The relations whose left operand is the empty tuple, one for each arity of the right operand.

use crate::join::Join;
use vstd::prelude::*;

verus! {

/// Joins the empty tuple and the empty tuple into the empty tuple.
impl Join<()> for () {
    type Out = ();

    open spec fn join_spec(self, other: ()) -> Self::Out {
        ()
    }

    open spec fn split_spec(tuple: Self::Out) -> (Self, ()) {
        ((), ())
    }

    proof fn lemma_split_join(left: Self, right: ()) {
    }

    proof fn lemma_join_split(tuple: Self::Out) {
    }

    fn join(self, other: ()) -> Self::Out
        returns
            (),
    {
        self
    }

    fn split(tuple: Self::Out) -> (Self, ())
        returns
            (tuple, ()),
    {
        (tuple, ())
    }
}

/// Joins the empty tuple and a 1-tuple into a 1-tuple.
impl<N> Join<(N,)> for () {
    type Out = (N,);

    open spec fn join_spec(self, other: (N,)) -> Self::Out {
        (other.0,)
    }

    open spec fn split_spec(tuple: Self::Out) -> (Self, (N,)) {
        ((), (tuple.0,))
    }

    proof fn lemma_split_join(left: Self, right: (N,)) {
    }

    proof fn lemma_join_split(tuple: Self::Out) {
    }

    fn join(self, other: (N,)) -> Self::Out
        returns
            other,
    {
        other
    }

    fn split(tuple: Self::Out) -> (Self, (N,))
        returns
            ((), tuple),
    {
        ((), tuple)
    }
}

/// Joins the empty tuple and a pair into a pair.
impl<N, O> Join<(N, O)> for () {
    type Out = (N, O);

    open spec fn join_spec(self, other: (N, O)) -> Self::Out {
        (other.0, other.1)
    }

    open spec fn split_spec(tuple: Self::Out) -> (Self, (N, O)) {
        ((), (tuple.0, tuple.1))
    }

    proof fn lemma_split_join(left: Self, right: (N, O)) {
    }

    proof fn lemma_join_split(tuple: Self::Out) {
    }

    fn join(self, other: (N, O)) -> Self::Out
        returns
            other,
    {
        other
    }

    fn split(tuple: Self::Out) -> (Self, (N, O))
        returns
            ((), tuple),
    {
        ((), tuple)
    }
}

/// Joins the empty tuple and a triple into a triple.
impl<N, O, P> Join<(N, O, P)> for () {
    type Out = (N, O, P);

    open spec fn join_spec(self, other: (N, O, P)) -> Self::Out {
        (other.0, other.1, other.2)
    }

    open spec fn split_spec(tuple: Self::Out) -> (Self, (N, O, P)) {
        ((), (tuple.0, tuple.1, tuple.2))
    }

    proof fn lemma_split_join(left: Self, right: (N, O, P)) {
    }

    proof fn lemma_join_split(tuple: Self::Out) {
    }

    fn join(self, other: (N, O, P)) -> Self::Out
        returns
            other,
    {
        other
    }

    fn split(tuple: Self::Out) -> (Self, (N, O, P))
        returns
            ((), tuple),
    {
        ((), tuple)
    }
}

/// Joins the empty tuple and a 4-tuple into a 4-tuple.
impl<N, O, P, Q> Join<(N, O, P, Q)> for () {
    type Out = (N, O, P, Q);

    open spec fn join_spec(self, other: (N, O, P, Q)) -> Self::Out {
        (other.0, other.1, other.2, other.3)
    }

    open spec fn split_spec(tuple: Self::Out) -> (Self, (N, O, P, Q)) {
        ((), (tuple.0, tuple.1, tuple.2, tuple.3))
    }

    proof fn lemma_split_join(left: Self, right: (N, O, P, Q)) {
    }

    proof fn lemma_join_split(tuple: Self::Out) {
    }

    fn join(self, other: (N, O, P, Q)) -> Self::Out
        returns
            other,
    {
        other
    }

    fn split(tuple: Self::Out) -> (Self, (N, O, P, Q))
        returns
            ((), tuple),
    {
        ((), tuple)
    }
}

/// Joins the empty tuple and a 5-tuple into a 5-tuple.
impl<N, O, P, Q, R> Join<(N, O, P, Q, R)> for () {
    type Out = (N, O, P, Q, R);

    open spec fn join_spec(self, other: (N, O, P, Q, R)) -> Self::Out {
        (other.0, other.1, other.2, other.3, other.4)
    }

    open spec fn split_spec(tuple: Self::Out) -> (Self, (N, O, P, Q, R)) {
        ((), (tuple.0, tuple.1, tuple.2, tuple.3, tuple.4))
    }

    proof fn lemma_split_join(left: Self, right: (N, O, P, Q, R)) {
    }

    proof fn lemma_join_split(tuple: Self::Out) {
    }

    fn join(self, other: (N, O, P, Q, R)) -> Self::Out
        returns
            other,
    {
        other
    }

    fn split(tuple: Self::Out) -> (Self, (N, O, P, Q, R))
        returns
            ((), tuple),
    {
        ((), tuple)
    }
}

/// Joins the empty tuple and a 6-tuple into a 6-tuple.
impl<N, O, P, Q, R, S> Join<(N, O, P, Q, R, S)> for () {
    type Out = (N, O, P, Q, R, S);

    open spec fn join_spec(self, other: (N, O, P, Q, R, S)) -> Self::Out {
        (other.0, other.1, other.2, other.3, other.4, other.5)
    }

    open spec fn split_spec(tuple: Self::Out) -> (Self, (N, O, P, Q, R, S)) {
        ((), (tuple.0, tuple.1, tuple.2, tuple.3, tuple.4, tuple.5))
    }

    proof fn lemma_split_join(left: Self, right: (N, O, P, Q, R, S)) {
    }

    proof fn lemma_join_split(tuple: Self::Out) {
    }

    fn join(self, other: (N, O, P, Q, R, S)) -> Self::Out
        returns
            other,
    {
        other
    }

    fn split(tuple: Self::Out) -> (Self, (N, O, P, Q, R, S))
        returns
            ((), tuple),
    {
        ((), tuple)
    }
}

/// Joins the empty tuple and a 7-tuple into a 7-tuple.
impl<N, O, P, Q, R, S, T> Join<(N, O, P, Q, R, S, T)> for () {
    type Out = (N, O, P, Q, R, S, T);

    open spec fn join_spec(self, other: (N, O, P, Q, R, S, T)) -> Self::Out {
        (other.0, other.1, other.2, other.3, other.4, other.5, other.6)
    }

    open spec fn split_spec(tuple: Self::Out) -> (Self, (N, O, P, Q, R, S, T)) {
        ((), (tuple.0, tuple.1, tuple.2, tuple.3, tuple.4, tuple.5, tuple.6))
    }

    proof fn lemma_split_join(left: Self, right: (N, O, P, Q, R, S, T)) {
    }

    proof fn lemma_join_split(tuple: Self::Out) {
    }

    fn join(self, other: (N, O, P, Q, R, S, T)) -> Self::Out
        returns
            other,
    {
        other
    }

    fn split(tuple: Self::Out) -> (Self, (N, O, P, Q, R, S, T))
        returns
            ((), tuple),
    {
        ((), tuple)
    }
}

/// Joins the empty tuple and an 8-tuple into an 8-tuple.
impl<N, O, P, Q, R, S, T, U> Join<(N, O, P, Q, R, S, T, U)> for () {
    type Out = (N, O, P, Q, R, S, T, U);

    open spec fn join_spec(self, other: (N, O, P, Q, R, S, T, U)) -> Self::Out {
        (other.0, other.1, other.2, other.3, other.4, other.5, other.6, other.7)
    }

    open spec fn split_spec(tuple: Self::Out) -> (Self, (N, O, P, Q, R, S, T, U)) {
        ((), (tuple.0, tuple.1, tuple.2, tuple.3, tuple.4, tuple.5, tuple.6, tuple.7))
    }

    proof fn lemma_split_join(left: Self, right: (N, O, P, Q, R, S, T, U)) {
    }

    proof fn lemma_join_split(tuple: Self::Out) {
    }

    fn join(self, other: (N, O, P, Q, R, S, T, U)) -> Self::Out
        returns
            other,
    {
        other
    }

    fn split(tuple: Self::Out) -> (Self, (N, O, P, Q, R, S, T, U))
        returns
            ((), tuple),
    {
        ((), tuple)
    }
}

/// Joins the empty tuple and a 9-tuple into a 9-tuple.
impl<N, O, P, Q, R, S, T, U, V> Join<(N, O, P, Q, R, S, T, U, V)> for () {
    type Out = (N, O, P, Q, R, S, T, U, V);

    open spec fn join_spec(self, other: (N, O, P, Q, R, S, T, U, V)) -> Self::Out {
        (other.0, other.1, other.2, other.3, other.4, other.5, other.6, other.7, other.8)
    }

    open spec fn split_spec(tuple: Self::Out) -> (Self, (N, O, P, Q, R, S, T, U, V)) {
        ((), (tuple.0, tuple.1, tuple.2, tuple.3, tuple.4, tuple.5, tuple.6, tuple.7, tuple.8))
    }

    proof fn lemma_split_join(left: Self, right: (N, O, P, Q, R, S, T, U, V)) {
    }

    proof fn lemma_join_split(tuple: Self::Out) {
    }

    fn join(self, other: (N, O, P, Q, R, S, T, U, V)) -> Self::Out
        returns
            other,
    {
        other
    }

    fn split(tuple: Self::Out) -> (Self, (N, O, P, Q, R, S, T, U, V))
        returns
            ((), tuple),
    {
        ((), tuple)
    }
}

/// Joins the empty tuple and a 10-tuple into a 10-tuple.
impl<N, O, P, Q, R, S, T, U, V, W> Join<(N, O, P, Q, R, S, T, U, V, W)> for () {
    type Out = (N, O, P, Q, R, S, T, U, V, W);

    open spec fn join_spec(self, other: (N, O, P, Q, R, S, T, U, V, W)) -> Self::Out {
        (other.0, other.1, other.2, other.3, other.4, other.5, other.6, other.7, other.8, other.9)
    }

    open spec fn split_spec(tuple: Self::Out) -> (Self, (N, O, P, Q, R, S, T, U, V, W)) {
        (
            (),
            (
                tuple.0, tuple.1, tuple.2, tuple.3, tuple.4, tuple.5, tuple.6, tuple.7, tuple.8,
                tuple.9,
            ),
        )
    }

    proof fn lemma_split_join(left: Self, right: (N, O, P, Q, R, S, T, U, V, W)) {
    }

    proof fn lemma_join_split(tuple: Self::Out) {
    }

    fn join(self, other: (N, O, P, Q, R, S, T, U, V, W)) -> Self::Out
        returns
            other,
    {
        other
    }

    fn split(tuple: Self::Out) -> (Self, (N, O, P, Q, R, S, T, U, V, W))
        returns
            ((), tuple),
    {
        ((), tuple)
    }
}

/// Joins the empty tuple and an 11-tuple into an 11-tuple.
impl<N, O, P, Q, R, S, T, U, V, W, X> Join<(N, O, P, Q, R, S, T, U, V, W, X)> for () {
    type Out = (N, O, P, Q, R, S, T, U, V, W, X);

    open spec fn join_spec(self, other: (N, O, P, Q, R, S, T, U, V, W, X)) -> Self::Out {
        (
            other.0, other.1, other.2, other.3, other.4, other.5, other.6, other.7, other.8,
            other.9, other.10,
        )
    }

    open spec fn split_spec(tuple: Self::Out) -> (Self, (N, O, P, Q, R, S, T, U, V, W, X)) {
        (
            (),
            (
                tuple.0, tuple.1, tuple.2, tuple.3, tuple.4, tuple.5, tuple.6, tuple.7, tuple.8,
                tuple.9, tuple.10,
            ),
        )
    }

    proof fn lemma_split_join(left: Self, right: (N, O, P, Q, R, S, T, U, V, W, X)) {
    }

    proof fn lemma_join_split(tuple: Self::Out) {
    }

    fn join(self, other: (N, O, P, Q, R, S, T, U, V, W, X)) -> Self::Out
        returns
            other,
    {
        other
    }

    fn split(tuple: Self::Out) -> (Self, (N, O, P, Q, R, S, T, U, V, W, X))
        returns
            ((), tuple),
    {
        ((), tuple)
    }
}

/// Joins the empty tuple and a 12-tuple into a 12-tuple.
impl<N, O, P, Q, R, S, T, U, V, W, X, Y> Join<(N, O, P, Q, R, S, T, U, V, W, X, Y)> for () {
    type Out = (N, O, P, Q, R, S, T, U, V, W, X, Y);

    open spec fn join_spec(self, other: (N, O, P, Q, R, S, T, U, V, W, X, Y)) -> Self::Out {
        (
            other.0, other.1, other.2, other.3, other.4, other.5, other.6, other.7, other.8,
            other.9, other.10, other.11,
        )
    }

    open spec fn split_spec(tuple: Self::Out) -> (Self, (N, O, P, Q, R, S, T, U, V, W, X, Y)) {
        (
            (),
            (
                tuple.0, tuple.1, tuple.2, tuple.3, tuple.4, tuple.5, tuple.6, tuple.7, tuple.8,
                tuple.9, tuple.10, tuple.11,
            ),
        )
    }

    proof fn lemma_split_join(left: Self, right: (N, O, P, Q, R, S, T, U, V, W, X, Y)) {
    }

    proof fn lemma_join_split(tuple: Self::Out) {
    }

    fn join(self, other: (N, O, P, Q, R, S, T, U, V, W, X, Y)) -> Self::Out
        returns
            other,
    {
        other
    }

    fn split(tuple: Self::Out) -> (Self, (N, O, P, Q, R, S, T, U, V, W, X, Y))
        returns
            ((), tuple),
    {
        ((), tuple)
    }
}

/// Joins the empty tuple and a 13-tuple into a 13-tuple.
impl<N, O, P, Q, R, S, T, U, V, W, X, Y, Z> Join<(N, O, P, Q, R, S, T, U, V, W, X, Y, Z)> for () {
    type Out = (N, O, P, Q, R, S, T, U, V, W, X, Y, Z);

    open spec fn join_spec(self, other: (N, O, P, Q, R, S, T, U, V, W, X, Y, Z)) -> Self::Out {
        (
            other.0, other.1, other.2, other.3, other.4, other.5, other.6, other.7, other.8,
            other.9, other.10, other.11, other.12,
        )
    }

    open spec fn split_spec(tuple: Self::Out) -> (Self, (N, O, P, Q, R, S, T, U, V, W, X, Y, Z)) {
        (
            (),
            (
                tuple.0, tuple.1, tuple.2, tuple.3, tuple.4, tuple.5, tuple.6, tuple.7, tuple.8,
                tuple.9, tuple.10, tuple.11, tuple.12,
            ),
        )
    }

    proof fn lemma_split_join(left: Self, right: (N, O, P, Q, R, S, T, U, V, W, X, Y, Z)) {
    }

    proof fn lemma_join_split(tuple: Self::Out) {
    }

    fn join(self, other: (N, O, P, Q, R, S, T, U, V, W, X, Y, Z)) -> Self::Out
        returns
            other,
    {
        other
    }

    fn split(tuple: Self::Out) -> (Self, (N, O, P, Q, R, S, T, U, V, W, X, Y, Z))
        returns
            ((), tuple),
    {
        ((), tuple)
    }
}

} // verus!
