use std::collections::BTreeMap;
use vstd::prelude::*;

verus! {

/// A type that can live in a [`State`] whose cells are of type `C`.
///
/// `C` is the type-erased cell: a value of an implementing type is erased
/// into a `C` when stored, and recovered from the cell by downcast. Each
/// implementing type fixes one key, which stands for the type's identity;
/// the store keeps at most one cell per key. Distinct types that share one
/// cell type `C` must choose distinct keys: the key alone decides which
/// entry an operation touches, so two types with one key would overwrite
/// each other's entries.
pub trait Stored<C>: Sized {
    /// The key that identifies `Self` among the types stored in `C` cells.
    spec fn spec_key() -> u64;

    /// The cell that `self` erases to.
    spec fn spec_erase(self) -> C;

    /// The value a cell holds, seen as a `Self`: `Some` exactly on cells
    /// that were made by erasing a `Self`.
    spec fn spec_downcast(c: C) -> Option<Self>;

    /// Downcast recovers exactly the value that was erased.
    proof fn lemma_downcast_erase(t: Self)
        ensures
            Self::spec_downcast(t.spec_erase()) == Some(t),
    ;

    fn key() -> (k: u64)
        ensures
            k == Self::spec_key(),
    ;

    fn erase(self) -> (c: C)
        ensures
            c == self.spec_erase(),
    ;

    fn downcast_ref(c: &C) -> (r: Option<&Self>)
        ensures
            match r {
                Some(t) => Self::spec_downcast(*c) == Some(*t),
                None => Self::spec_downcast(*c) is None,
            },
    ;

    fn downcast_mut(c: &mut C) -> (r: Option<&mut Self>)
        ensures
            match r {
                Some(t) => Self::spec_downcast(*old(c)) == Some(*t) && *final(c) == (
                *final(t)).spec_erase(),
                None => Self::spec_downcast(*old(c)) is None && *final(c) == *old(c),
            },
    ;

    fn downcast_owned(c: C) -> (r: Result<Self, C>)
        ensures
            match r {
                Ok(t) => Self::spec_downcast(c) == Some(t),
                Err(c2) => Self::spec_downcast(c) is None && c2 == c,
            },
    ;
}

/// The value of type `T` that a store with entry map `m` holds, if any.
pub open spec fn stored_value<C, T: Stored<C>>(m: Map<u64, C>) -> Option<T> {
    if m.contains_key(T::spec_key()) {
        T::spec_downcast(m[T::spec_key()])
    } else {
        None
    }
}

/// A heterogeneous store: a mapping from type keys to type-erased cells,
/// holding at most one value per storable type. Its view is the map from
/// keys to cells.
///
/// The store is a plain single-owner value for sequential use; the
/// shared-versus-exclusive discipline on what `borrow` and `borrow_mut`
/// hand out is Rust's own borrow discipline on the store itself.
#[derive(Debug)]
pub struct State<C> {
    data: BTreeMap<u64, C>,
}

impl<C> View for State<C> {
    type V = Map<u64, C>;

    closed spec fn view(&self) -> Map<u64, C> {
        self.data@
    }
}

impl<C> State<C> {
    /// Creates an empty store.
    pub fn new() -> (s: Self)
        ensures
            s@ == Map::<u64, C>::empty(),
    {
        State { data: BTreeMap::new() }
    }

    /// Puts a value into the store, keyed by its type. At most one value of
    /// each type is retained: a later `put` of the same type replaces the
    /// earlier value.
    pub fn put<T: Stored<C>>(&mut self, t: T)
        ensures
            final(self)@ == old(self)@.insert(T::spec_key(), t.spec_erase()),
    {
        let k = T::key();
        let c = t.erase();
        self.data.insert(k, c);
    }

    /// Returns whether an entry under `T`'s key currently exists.
    pub fn has<T: Stored<C>>(&self) -> (r: bool)
        ensures
            r == self@.contains_key(T::spec_key()),
    {
        let k = T::key();
        self.data.contains_key(&k)
    }

    /// Tries to borrow the stored value of type `T`: a shared reference to
    /// it if the store holds one, `None` otherwise. The store is not
    /// changed.
    pub fn try_borrow<T: Stored<C>>(&self) -> (r: Option<&T>)
        ensures
            match r {
                Some(t) => stored_value::<C, T>(self@) == Some(*t),
                None => stored_value::<C, T>(self@) is None,
            },
    {
        let k = T::key();
        match self.data.get(&k) {
            Some(c) => T::downcast_ref(c),
            None => None,
        }
    }

    /// Borrows the stored value of type `T`. Call sites use this where the
    /// value must be present and absence would be a programming defect; the
    /// precondition rules absence out.
    pub fn borrow<T: Stored<C>>(&self) -> (r: &T)
        requires
            stored_value::<C, T>(self@) is Some,
        ensures
            stored_value::<C, T>(self@) == Some(*r),
    {
        self.try_borrow::<T>().unwrap()
    }

    /// Tries to borrow the stored value of type `T` mutably: an exclusive
    /// reference to it if the store holds one, `None` otherwise. Whatever
    /// the caller writes through the reference is what the store then holds
    /// under `T`'s key; nothing else changes.
    pub fn try_borrow_mut<T: Stored<C>>(&mut self) -> (r: Option<&mut T>)
        ensures
            match r {
                Some(t) => stored_value::<C, T>(old(self)@) == Some(*t) && final(self)@ == old(
                self)@.insert(T::spec_key(), (*final(t)).spec_erase()),
                None => stored_value::<C, T>(old(self)@) is None && final(self)@ == old(self)@,
            },
    {
        let k = T::key();
        match map_get_mut(&mut self.data, k) {
            Some(c) => {
                let r = T::downcast_mut(c);
                proof {
                    if r is None {
                        assert(old(self)@.insert(k, old(self)@[k]) =~= old(self)@);
                    }
                }
                r
            },
            None => None,
        }
    }

    /// Mutably borrows the stored value of type `T`. Call sites use this
    /// where the value must be present and absence would be a programming
    /// defect; the precondition rules absence out.
    pub fn borrow_mut<T: Stored<C>>(&mut self) -> (r: &mut T)
        requires
            stored_value::<C, T>(old(self)@) is Some,
        ensures
            stored_value::<C, T>(old(self)@) == Some(*r),
            final(self)@ == old(self)@.insert(T::spec_key(), (*final(r)).spec_erase()),
    {
        self.try_borrow_mut::<T>().unwrap()
    }

    /// Tries to move the stored value of type `T` out of the store: the
    /// value, with its entry removed, if the store holds one; `None`, with
    /// the store unchanged, otherwise.
    pub fn try_take<T: Stored<C>>(&mut self) -> (r: Option<T>)
        ensures
            match r {
                Some(t) => stored_value::<C, T>(old(self)@) == Some(t) && final(self)@ == old(
                self)@.remove(T::spec_key()),
                None => stored_value::<C, T>(old(self)@) is None && final(self)@ == old(self)@,
            },
    {
        let k = T::key();
        match self.data.remove(&k) {
            Some(c) => match T::downcast_owned(c) {
                Ok(t) => Some(t),
                Err(c) => {
                    self.data.insert(k, c);
                    proof {
                        assert(old(self)@.remove(k).insert(k, old(self)@[k]) =~= old(self)@);
                    }
                    None
                },
            },
            None => None,
        }
    }

    /// Moves the stored value of type `T` out of the store and returns
    /// ownership. Call sites use this where the value must be present and
    /// absence would be a programming defect; the precondition rules
    /// absence out.
    pub fn take<T: Stored<C>>(&mut self) -> (r: T)
        requires
            stored_value::<C, T>(old(self)@) is Some,
        ensures
            stored_value::<C, T>(old(self)@) == Some(r),
            final(self)@ == old(self)@.remove(T::spec_key()),
    {
        self.try_take::<T>().unwrap()
    }
}

impl<C> Default for State<C> {
    /// Creates an empty store.
    fn default() -> (s: Self)
        ensures
            s@ == Map::<u64, C>::empty(),
    {
        State { data: BTreeMap::new() }
    }
}

/// Relies on `BTreeMap::get_mut`: it returns a mutable reference to the
/// value at `key`, or `None` when the map holds no entry for `key`; the map
/// afterwards holds, at `key`, whatever the caller leaves behind the
/// reference.
#[verifier::external_body]
fn map_get_mut<C>(m: &mut BTreeMap<u64, C>, key: u64) -> (r: Option<&mut C>)
    ensures
        match r {
            Some(c) => old(m)@.contains_key(key) && *c == old(m)@[key] && final(m)@ == old(
            m)@.insert(key, *final(c)),
            None => !old(m)@.contains_key(key) && final(m)@ == old(m)@,
        },
{
    m.get_mut(&key)
}

} // verus!
