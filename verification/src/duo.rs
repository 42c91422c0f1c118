use crate::store::Stored;
use vstd::prelude::*;

verus! {

/// A ready-made two-slot cell type: with it, a `State<Duo<A, B>>` stores one
/// value of type `A` and one of type `B`, under the marker types [`First`]
/// and [`Second`]. Applications that store more kinds of values define a
/// cell enum of their own and implement [`Stored`] for each kind.
#[derive(Debug)]
pub enum Duo<A, B> {
    /// A cell made by erasing a [`First`].
    Fst(First<A>),
    /// A cell made by erasing a [`Second`].
    Snd(Second<B>),
}

/// The first slot of a [`Duo`]: wraps the stored `A`.
#[derive(Debug)]
pub struct First<A>(pub A);

/// The second slot of a [`Duo`]: wraps the stored `B`.
#[derive(Debug)]
pub struct Second<B>(pub B);

impl<A, B> Stored<Duo<A, B>> for First<A> {
    open spec fn spec_key() -> u64 {
        0
    }

    open spec fn spec_erase(self) -> Duo<A, B> {
        Duo::Fst(self)
    }

    open spec fn spec_downcast(c: Duo<A, B>) -> Option<First<A>> {
        match c {
            Duo::Fst(t) => Some(t),
            Duo::Snd(_) => None,
        }
    }

    proof fn lemma_downcast_erase(t: Self) {
    }

    fn key() -> u64 {
        0
    }

    fn erase(self) -> Duo<A, B> {
        Duo::Fst(self)
    }

    fn downcast_ref(c: &Duo<A, B>) -> Option<&First<A>> {
        match c {
            Duo::Fst(t) => Some(t),
            Duo::Snd(_) => None,
        }
    }

    fn downcast_mut(c: &mut Duo<A, B>) -> Option<&mut First<A>> {
        match c {
            Duo::Fst(t) => Some(t),
            Duo::Snd(_) => None,
        }
    }

    fn downcast_owned(c: Duo<A, B>) -> Result<First<A>, Duo<A, B>> {
        match c {
            Duo::Fst(t) => Ok(t),
            Duo::Snd(s) => Err(Duo::Snd(s)),
        }
    }
}

impl<A, B> Stored<Duo<A, B>> for Second<B> {
    open spec fn spec_key() -> u64 {
        1
    }

    open spec fn spec_erase(self) -> Duo<A, B> {
        Duo::Snd(self)
    }

    open spec fn spec_downcast(c: Duo<A, B>) -> Option<Second<B>> {
        match c {
            Duo::Fst(_) => None,
            Duo::Snd(t) => Some(t),
        }
    }

    proof fn lemma_downcast_erase(t: Self) {
    }

    fn key() -> u64 {
        1
    }

    fn erase(self) -> Duo<A, B> {
        Duo::Snd(self)
    }

    fn downcast_ref(c: &Duo<A, B>) -> Option<&Second<B>> {
        match c {
            Duo::Fst(_) => None,
            Duo::Snd(t) => Some(t),
        }
    }

    fn downcast_mut(c: &mut Duo<A, B>) -> Option<&mut Second<B>> {
        match c {
            Duo::Fst(_) => None,
            Duo::Snd(t) => Some(t),
        }
    }

    fn downcast_owned(c: Duo<A, B>) -> Result<Second<B>, Duo<A, B>> {
        match c {
            Duo::Fst(f) => Err(Duo::Fst(f)),
            Duo::Snd(t) => Ok(t),
        }
    }
}

} // verus!
