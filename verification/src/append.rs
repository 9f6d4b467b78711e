//! Appending one element to a tuple, and taking the last element off again.

use crate::join::Join;
use vstd::prelude::*;

verus! {

/// `tuple` with `last` appended: the concatenation of `tuple` and the 1-tuple of `last`.
pub open spec fn push_spec<T: Join<(A,)>, A>(tuple: T, last: A) -> T::Out {
    tuple.join_spec((last,))
}

/// `tuple` without its last element, and that element.
pub open spec fn pop_spec<T: Join<(A,)>, A>(tuple: T::Out) -> (T, A) {
    let (init, last) = T::split_spec(tuple);
    (init, last.0)
}

/// Append a regular type to a tuple type.
///
/// Every type that joins with the 1-tuple of `A` has it: appending joins with a 1-tuple, and
/// popping splits one off.
pub trait Append<A>: Join<(A,)> {
    /// Appends `other` to `self`.
    fn push(self, other: A) -> (out: Self::Out) where Self: Sized, A: Sized
        ensures
            out == push_spec(self, other),
    ;

    /// Takes the last element off `tuple`.
    fn pop(tuple: Self::Out) -> (parts: (Self, A)) where Self: Sized, A: Sized
        ensures
            parts == pop_spec::<Self, A>(tuple),
    ;
}

impl<A, T> Append<A> for T where T: Join<(A,)> {
    fn push(self, other: A) -> Self::Out where Self: Sized, A: Sized
        returns
            self.join_spec((other,)),
    {
        self.join((other,))
    }

    fn pop(tuple: Self::Out) -> (Self, A) where Self: Sized, A: Sized
        returns
            (Self::split_spec(tuple).0, Self::split_spec(tuple).1.0),
    {
        let (a, (b,)) = Self::split(tuple);
        (a, b)
    }
}

/// Split a regular type from a tuple type.
///
/// `Self` is a tuple, `A` the tuple of all its elements but the last and `B` the type of the
/// last, so that a caller who knows the tuple's type and the type of the parts writes
/// `tuple.pop()`.
pub trait Appended<A, B> {
    /// `self` without its last element, and that element.
    spec fn popped(self) -> (A, B);

    /// Takes the last element off `self`.
    fn pop(self) -> (parts: (A, B))
        ensures
            parts == self.popped(),
    ;
}

impl<A, B, T> Appended<A, B> for T where A: Append<B, Out = T> {
    open spec fn popped(self) -> (A, B) {
        pop_spec::<A, B>(self)
    }

    fn pop(self) -> (A, B)
        returns
            pop_spec::<A, B>(self),
    {
        A::pop(self)
    }
}

/// Popping after a push gives back the tuple and the element that was appended.
pub proof fn lemma_pop_push<T: Join<(A,)>, A>(tuple: T, last: A)
    ensures
        pop_spec::<T, A>(push_spec(tuple, last)) == (tuple, last),
{
    T::lemma_split_join(tuple, (last,));
}

/// Pushing the element that a pop took off gives the tuple back.
pub proof fn lemma_push_pop<T: Join<(A,)>, A>(tuple: T::Out)
    ensures
        ({
            let (init, last) = pop_spec::<T, A>(tuple);
            push_spec(init, last) == tuple
        }),
{
    T::lemma_join_split(tuple);
}

/// Popping a tuple, by its own type, is popping it by the relation between its two parts.
pub proof fn lemma_popped_is_pop<T: Join<(A,)>, A>(tuple: T::Out)
    ensures
        Appended::<T, A>::popped(tuple) == pop_spec::<T, A>(tuple),
{
}

/// Popping, by its own type, a tuple that a push made gives back the tuple and the element
/// that was appended.
pub proof fn lemma_popped_push<T: Join<(A,)>, A>(tuple: T, last: A)
    ensures
        Appended::<T, A>::popped(push_spec(tuple, last)) == (tuple, last),
{
    lemma_pop_push(tuple, last);
}

} // verus!
