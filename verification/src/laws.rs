use crate::store::{stored_value, Stored};
use vstd::prelude::*;

verus! {

// The laws of the store, stated over the map model that the operations'
// contracts use: an operation's effect on a `State<C>` is, by its `ensures`,
// an `insert` or `remove` on the view, and a lookup reads `stored_value` of
// the view.

/// After a value of type `T` is put, an entry under `T`'s key exists and the
/// stored value of type `T` is exactly the value that was put.
pub proof fn lemma_put_then_present<C, T: Stored<C>>(m: Map<u64, C>, t: T)
    ensures
        m.insert(T::spec_key(), t.spec_erase()).contains_key(T::spec_key()),
        stored_value::<C, T>(m.insert(T::spec_key(), t.spec_erase())) == Some(t),
{
    T::lemma_downcast_erase(t);
}

/// An empty store holds nothing: no entry under any type's key, and no
/// stored value of any type.
pub proof fn lemma_empty_absent<C, T: Stored<C>>()
    ensures
        !Map::<u64, C>::empty().contains_key(T::spec_key()),
        stored_value::<C, T>(Map::<u64, C>::empty()) is None,
{
}

/// Putting a value of type `T` and then another of the same type leaves
/// exactly the store that putting only the second would leave: one entry
/// for `T`, whose value is the second one; the first is discarded.
pub proof fn lemma_put_replaces<C, T: Stored<C>>(m: Map<u64, C>, t1: T, t2: T)
    ensures
        m.insert(T::spec_key(), t1.spec_erase()).insert(T::spec_key(), t2.spec_erase()) == m.insert(
            T::spec_key(),
            t2.spec_erase(),
        ),
        stored_value::<C, T>(
            m.insert(T::spec_key(), t1.spec_erase()).insert(T::spec_key(), t2.spec_erase()),
        ) == Some(t2),
{
    T::lemma_downcast_erase(t2);
    assert(m.insert(T::spec_key(), t1.spec_erase()).insert(T::spec_key(), t2.spec_erase())
        =~= m.insert(T::spec_key(), t2.spec_erase()));
}

/// Putting values of two types with distinct keys leaves both present, each
/// readable as the value that was put for it, and the outcome does not
/// depend on the order of the two puts.
pub proof fn lemma_distinct_types_isolated<C, A: Stored<C>, B: Stored<C>>(
    m: Map<u64, C>,
    a: A,
    b: B,
)
    requires
        A::spec_key() != B::spec_key(),
    ensures
        ({
            let m2 = m.insert(A::spec_key(), a.spec_erase()).insert(B::spec_key(), b.spec_erase());
            &&& m2.contains_key(A::spec_key())
            &&& m2.contains_key(B::spec_key())
            &&& stored_value::<C, A>(m2) == Some(a)
            &&& stored_value::<C, B>(m2) == Some(b)
        }),
        m.insert(A::spec_key(), a.spec_erase()).insert(B::spec_key(), b.spec_erase()) == m.insert(
            B::spec_key(),
            b.spec_erase(),
        ).insert(A::spec_key(), a.spec_erase()),
{
    A::lemma_downcast_erase(a);
    B::lemma_downcast_erase(b);
    assert(m.insert(A::spec_key(), a.spec_erase()).insert(B::spec_key(), b.spec_erase())
        =~= m.insert(B::spec_key(), b.spec_erase()).insert(A::spec_key(), a.spec_erase()));
}

/// Queries are idempotent: the contracts of `has` and `try_borrow` determine
/// their results from the store's view alone, so any two outcomes those
/// contracts allow on one and the same view coincide.
pub proof fn lemma_query_idempotent<C, T: Stored<C>>(
    m: Map<u64, C>,
    h1: bool,
    h2: bool,
    r1: Option<T>,
    r2: Option<T>,
)
    requires
        h1 == m.contains_key(T::spec_key()),
        h2 == m.contains_key(T::spec_key()),
        match r1 {
            Some(t) => stored_value::<C, T>(m) == Some(t),
            None => stored_value::<C, T>(m) is None,
        },
        match r2 {
            Some(t) => stored_value::<C, T>(m) == Some(t),
            None => stored_value::<C, T>(m) is None,
        },
    ensures
        h1 == h2,
        r1 == r2,
{
}

/// After the entry for `T` is taken, no entry under `T`'s key remains, so a
/// further lookup or take of `T` finds nothing.
pub proof fn lemma_take_removes<C, T: Stored<C>>(m: Map<u64, C>)
    ensures
        !m.remove(T::spec_key()).contains_key(T::spec_key()),
        stored_value::<C, T>(m.remove(T::spec_key())) is None,
{
}

} // verus!
