//! The join relation: two tuple types and the tuple type that holds the elements of both.

use vstd::prelude::*;

verus! {

/// Join 2 tuple types as the associated type.
///
/// `Self` is the left operand, `A` the right operand, and `Out` the tuple type whose elements
/// are those of `Self`, in their order, followed by those of `A`, in their order. Every element
/// keeps its type and its value.
///
/// An implementation states what joining and splitting mean as two spec functions, and proves
/// that each undoes the other.
pub trait Join<A> {
    type Out;

    /// The concatenation of `self` and `other`.
    spec fn join_spec(self, other: A) -> Self::Out where Self: Sized, A: Sized;

    /// The left and the right operand that `tuple` is the concatenation of.
    spec fn split_spec(tuple: Self::Out) -> (Self, A) where Self: Sized, A: Sized;

    /// Splitting the concatenation of two operands gives the two operands back.
    proof fn lemma_split_join(left: Self, right: A) where Self: Sized, A: Sized
        ensures
            Self::split_spec(left.join_spec(right)) == (left, right),
    ;

    /// Joining the two parts that a tuple splits into gives the tuple back.
    proof fn lemma_join_split(tuple: Self::Out) where Self: Sized, A: Sized
        ensures
            ({
                let (left, right) = Self::split_spec(tuple);
                left.join_spec(right) == tuple
            }),
    ;

    /// Concatenates `self` and `other`.
    fn join(self, other: A) -> (out: Self::Out) where Self: Sized, A: Sized
        ensures
            out == self.join_spec(other),
    ;

    /// Takes `tuple` apart into its left and its right operand.
    fn split(tuple: Self::Out) -> (parts: (Self, A)) where Self: Sized, A: Sized
        ensures
            parts == Self::split_spec(tuple),
    ;
}

/// Split two tuple types from a tuple type.
///
/// `Self` is a joined tuple, `A` its left operand and `B` its right operand, so that a caller
/// who knows the joined type and the type of the parts writes `tuple.split()`.
pub trait Joined<A, B> {
    /// The left and the right operand that `self` is the concatenation of.
    spec fn parted(self) -> (A, B);

    /// Takes `self` apart into its left and its right operand.
    fn split(self) -> (parts: (A, B))
        ensures
            parts == self.parted(),
    ;
}

impl<A, B, T> Joined<A, B> for T where A: Join<B, Out = T> {
    open spec fn parted(self) -> (A, B) {
        A::split_spec(self)
    }

    fn split(self) -> (A, B)
        returns
            A::split_spec(self),
    {
        A::split(self)
    }
}

/// Parting a tuple is splitting it by the relation between its two operands.
pub proof fn lemma_parted_is_split<L: Join<R>, R>(tuple: L::Out)
    ensures
        Joined::<L, R>::parted(tuple) == L::split_spec(tuple),
{
}

/// Parting the concatenation of two operands gives the two operands back.
pub proof fn lemma_parted_join<L: Join<R>, R>(left: L, right: R)
    ensures
        Joined::<L, R>::parted(left.join_spec(right)) == (left, right),
{
    L::lemma_split_join(left, right);
}

/// Joining the two parts that a tuple parts into gives the tuple back.
pub proof fn lemma_join_parted<L: Join<R>, R>(tuple: L::Out)
    ensures
        ({
            let (left, right) = Joined::<L, R>::parted(tuple);
            left.join_spec(right) == tuple
        }),
{
    L::lemma_join_split(tuple);
}

} // verus!
