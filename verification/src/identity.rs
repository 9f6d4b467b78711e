//! The identity of joining is the empty tuple: on either side it changes nothing.

use crate::join::Join;
use vstd::prelude::*;

verus! {

/// Joining the empty tuple with itself gives the empty tuple, and splitting it gives it twice.
pub proof fn lemma_identity_0()
    ensures
        ().join_spec(()) == (),
        <() as Join<()>>::split_spec(()) == ((), ()),
{
}

/// Joining a 1-tuple with the empty tuple, on either side, gives the 1-tuple back; splitting it
/// against the empty tuple, on either side, gives it and the empty tuple.
pub proof fn lemma_identity_1<A>(tuple: (A,))
    ensures
        tuple.join_spec(()) == tuple,
        ().join_spec(tuple) == tuple,
        <(A,) as Join<()>>::split_spec(tuple) == (tuple, ()),
        <() as Join<(A,)>>::split_spec(tuple) == ((), tuple),
{
}

/// Joining a pair with the empty tuple, on either side, gives the pair back; splitting it
/// against the empty tuple, on either side, gives it and the empty tuple.
pub proof fn lemma_identity_2<A, B>(tuple: (A, B))
    ensures
        tuple.join_spec(()) == tuple,
        ().join_spec(tuple) == tuple,
        <(A, B) as Join<()>>::split_spec(tuple) == (tuple, ()),
        <() as Join<(A, B)>>::split_spec(tuple) == ((), tuple),
{
}

/// Joining a triple with the empty tuple, on either side, gives the triple back; splitting it
/// against the empty tuple, on either side, gives it and the empty tuple.
pub proof fn lemma_identity_3<A, B, C>(tuple: (A, B, C))
    ensures
        tuple.join_spec(()) == tuple,
        ().join_spec(tuple) == tuple,
        <(A, B, C) as Join<()>>::split_spec(tuple) == (tuple, ()),
        <() as Join<(A, B, C)>>::split_spec(tuple) == ((), tuple),
{
}

/// Joining a 4-tuple with the empty tuple, on either side, gives the 4-tuple back; splitting it
/// against the empty tuple, on either side, gives it and the empty tuple.
pub proof fn lemma_identity_4<A, B, C, D>(tuple: (A, B, C, D))
    ensures
        tuple.join_spec(()) == tuple,
        ().join_spec(tuple) == tuple,
        <(A, B, C, D) as Join<()>>::split_spec(tuple) == (tuple, ()),
        <() as Join<(A, B, C, D)>>::split_spec(tuple) == ((), tuple),
{
}

/// Joining a 5-tuple with the empty tuple, on either side, gives the 5-tuple back; splitting it
/// against the empty tuple, on either side, gives it and the empty tuple.
pub proof fn lemma_identity_5<A, B, C, D, E>(tuple: (A, B, C, D, E))
    ensures
        tuple.join_spec(()) == tuple,
        ().join_spec(tuple) == tuple,
        <(A, B, C, D, E) as Join<()>>::split_spec(tuple) == (tuple, ()),
        <() as Join<(A, B, C, D, E)>>::split_spec(tuple) == ((), tuple),
{
}

/// Joining a 6-tuple with the empty tuple, on either side, gives the 6-tuple back; splitting it
/// against the empty tuple, on either side, gives it and the empty tuple.
pub proof fn lemma_identity_6<A, B, C, D, E, F>(tuple: (A, B, C, D, E, F))
    ensures
        tuple.join_spec(()) == tuple,
        ().join_spec(tuple) == tuple,
        <(A, B, C, D, E, F) as Join<()>>::split_spec(tuple) == (tuple, ()),
        <() as Join<(A, B, C, D, E, F)>>::split_spec(tuple) == ((), tuple),
{
}

/// Joining a 7-tuple with the empty tuple, on either side, gives the 7-tuple back; splitting it
/// against the empty tuple, on either side, gives it and the empty tuple.
pub proof fn lemma_identity_7<A, B, C, D, E, F, G>(tuple: (A, B, C, D, E, F, G))
    ensures
        tuple.join_spec(()) == tuple,
        ().join_spec(tuple) == tuple,
        <(A, B, C, D, E, F, G) as Join<()>>::split_spec(tuple) == (tuple, ()),
        <() as Join<(A, B, C, D, E, F, G)>>::split_spec(tuple) == ((), tuple),
{
}

/// Joining an 8-tuple with the empty tuple, on either side, gives the 8-tuple back; splitting it
/// against the empty tuple, on either side, gives it and the empty tuple.
pub proof fn lemma_identity_8<A, B, C, D, E, F, G, H>(tuple: (A, B, C, D, E, F, G, H))
    ensures
        tuple.join_spec(()) == tuple,
        ().join_spec(tuple) == tuple,
        <(A, B, C, D, E, F, G, H) as Join<()>>::split_spec(tuple) == (tuple, ()),
        <() as Join<(A, B, C, D, E, F, G, H)>>::split_spec(tuple) == ((), tuple),
{
}

/// Joining a 9-tuple with the empty tuple, on either side, gives the 9-tuple back; splitting it
/// against the empty tuple, on either side, gives it and the empty tuple.
pub proof fn lemma_identity_9<A, B, C, D, E, F, G, H, I>(tuple: (A, B, C, D, E, F, G, H, I))
    ensures
        tuple.join_spec(()) == tuple,
        ().join_spec(tuple) == tuple,
        <(A, B, C, D, E, F, G, H, I) as Join<()>>::split_spec(tuple) == (tuple, ()),
        <() as Join<(A, B, C, D, E, F, G, H, I)>>::split_spec(tuple) == ((), tuple),
{
}

/// Joining a 10-tuple with the empty tuple, on either side, gives the 10-tuple back; splitting it
/// against the empty tuple, on either side, gives it and the empty tuple.
pub proof fn lemma_identity_10<A, B, C, D, E, F, G, H, I, J>(tuple: (A, B, C, D, E, F, G, H, I, J))
    ensures
        tuple.join_spec(()) == tuple,
        ().join_spec(tuple) == tuple,
        <(A, B, C, D, E, F, G, H, I, J) as Join<()>>::split_spec(tuple) == (tuple, ()),
        <() as Join<(A, B, C, D, E, F, G, H, I, J)>>::split_spec(tuple) == ((), tuple),
{
}

/// Joining an 11-tuple with the empty tuple, on either side, gives the 11-tuple back; splitting it
/// against the empty tuple, on either side, gives it and the empty tuple.
pub proof fn lemma_identity_11<A, B, C, D, E, F, G, H, I, J, K>(tuple: (A, B, C, D, E, F, G, H, I, J, K))
    ensures
        tuple.join_spec(()) == tuple,
        ().join_spec(tuple) == tuple,
        <(A, B, C, D, E, F, G, H, I, J, K) as Join<()>>::split_spec(tuple) == (tuple, ()),
        <() as Join<(A, B, C, D, E, F, G, H, I, J, K)>>::split_spec(tuple) == ((), tuple),
{
}

/// Joining a 12-tuple with the empty tuple, on either side, gives the 12-tuple back; splitting it
/// against the empty tuple, on either side, gives it and the empty tuple.
pub proof fn lemma_identity_12<A, B, C, D, E, F, G, H, I, J, K, L>(tuple: (A, B, C, D, E, F, G, H, I, J, K, L))
    ensures
        tuple.join_spec(()) == tuple,
        ().join_spec(tuple) == tuple,
        <(A, B, C, D, E, F, G, H, I, J, K, L) as Join<()>>::split_spec(tuple) == (tuple, ()),
        <() as Join<(A, B, C, D, E, F, G, H, I, J, K, L)>>::split_spec(tuple) == ((), tuple),
{
}

/// Joining a 13-tuple with the empty tuple, on either side, gives the 13-tuple back; splitting it
/// against the empty tuple, on either side, gives it and the empty tuple.
pub proof fn lemma_identity_13<A, B, C, D, E, F, G, H, I, J, K, L, M>(tuple: (A, B, C, D, E, F, G, H, I, J, K, L, M))
    ensures
        tuple.join_spec(()) == tuple,
        ().join_spec(tuple) == tuple,
        <(A, B, C, D, E, F, G, H, I, J, K, L, M) as Join<()>>::split_spec(tuple) == (tuple, ()),
        <() as Join<(A, B, C, D, E, F, G, H, I, J, K, L, M)>>::split_spec(tuple) == ((), tuple),
{
}

} // verus!
