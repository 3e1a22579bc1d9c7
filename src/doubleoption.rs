use vstd::prelude::*;

use crate::clone_in_place;

verus! {

use self::DoubleOption::{First, Second, Empty};

/// Unopinionated extension of `Option` by a second kind of value.
#[derive(Copy, PartialEq, Eq, PartialOrd, Ord, Hash, Debug)]
pub enum DoubleOption<T, U> {
    First(T),
    Second(U),
    Empty,
}

impl<T, U> DoubleOption<T, U> {
    /////////////////////////////////////////////////////////////////////////
    // Querying the contained values
    /////////////////////////////////////////////////////////////////////////

    /// Returns `true` if this is a `First`.
    pub fn is_first(&self) -> (r: bool)
        ensures
            r == (*self is First),
    {
        match *self {
            First(_) => true,
            _ => false,
        }
    }

    /// Returns `true` if this is a `First`; another name for
    /// [`DoubleOption::is_first`].
    pub fn is_fist(&self) -> (r: bool)
        ensures
            r == (*self is First),
    {
        self.is_first()
    }

    /// Returns `true` if this is a `Second`.
    pub fn is_second(&self) -> (r: bool)
        ensures
            r == (*self is Second),
    {
        match *self {
            Second(_) => true,
            _ => false,
        }
    }

    /// Returns `true` if this is a `First` whose payload satisfies `f`.
    /// `f` is called on a `First` only.
    pub fn is_first_and<F>(self, f: F) -> (r: bool)
        where
            F: FnOnce(T) -> bool,
        requires
            self matches First(t) ==> f.requires((t,)),
        ensures
            self matches First(t) ==> f.ensures((t,), r),
            self !is First ==> !r,
    {
        match self {
            First(first) => f(first),
            _ => false,
        }
    }

    /// Returns `true` if this is a `Second` whose payload satisfies `f`.
    /// `f` is called on a `Second` only.
    pub fn is_second_and<F>(self, f: F) -> (r: bool)
        where
            F: FnOnce(U) -> bool,
        requires
            self matches Second(u) ==> f.requires((u,)),
        ensures
            self matches Second(u) ==> f.ensures((u,), r),
            self !is Second ==> !r,
    {
        match self {
            Second(sec) => f(sec),
            _ => false,
        }
    }

    /// Returns `true` if this is `Empty`.
    pub fn is_empty(&self) -> (r: bool)
        ensures
            r == (*self is Empty),
    {
        match *self {
            Empty => true,
            _ => false,
        }
    }

    /////////////////////////////////////////////////////////////////////////
    // Adapter for working with references
    /////////////////////////////////////////////////////////////////////////

    /// A `DoubleOption` of shared references into the payload.
    pub fn as_ref(&self) -> (r: DoubleOption<&T, &U>)
        ensures
            *self matches First(t) ==> r matches First(rt) && *rt == t,
            *self matches Second(u) ==> r matches Second(ru) && *ru == u,
            *self is Empty ==> r is Empty,
    {
        match self {
            First(ref first) => First(first),
            Second(ref sec) => Second(sec),
            Empty => Empty,
        }
    }

    /// A `DoubleOption` of mutable references into the payload; what is
    /// written through it lands in `self`, whose variant stays as it is.
    pub fn as_mut(&mut self) -> (r: DoubleOption<&mut T, &mut U>)
        ensures
            *old(self) matches First(t) ==> r matches First(rt) && *rt == t && *final(self)
                == First::<T, U>(*final(rt)),
            *old(self) matches Second(u) ==> r matches Second(ru) && *ru == u && *final(self)
                == Second::<T, U>(*final(ru)),
            *old(self) is Empty ==> r is Empty && *final(self) == Empty::<T, U>,
    {
        match self {
            First(ref mut first) => First(first),
            Second(ref mut sec) => Second(sec),
            Empty => Empty,
        }
    }
}

/// Each variant answers `true` to its own predicate (`is_first`,
/// `is_second`, `is_empty`) and `false` to the two others.
pub proof fn lemma_variant_predicates<T, U>(t: T, u: U)
    ensures
        First::<T, U>(t) is First,
        !(First::<T, U>(t) is Second),
        !(First::<T, U>(t) is Empty),
        Second::<T, U>(u) is Second,
        !(Second::<T, U>(u) is First),
        !(Second::<T, U>(u) is Empty),
        Empty::<T, U> is Empty,
        !(Empty::<T, U> is First),
        !(Empty::<T, U> is Second),
{
}

impl<T, U> Default for DoubleOption<T, U> {
    /// `Empty`.
    fn default() -> (r: DoubleOption<T, U>)
        ensures
            r is Empty,
    {
        Empty
    }
}

impl<T: Clone, U: Clone> Clone for DoubleOption<T, U> {
    /// Clones whichever payload is present; `Empty` stays `Empty`.
    fn clone(&self) -> (r: Self)
        ensures
            *self matches First(t) ==> r matches First(c) && cloned::<T>(t, c),
            *self matches Second(u) ==> r matches Second(c) && cloned::<U>(u, c),
            *self is Empty ==> r is Empty,
    {
        match self {
            First(first) => First(first.clone()),
            Second(second) => Second(second.clone()),
            Empty => Empty,
        }
    }

    /// Clones `source` into `self`, reusing the payload in place where both
    /// hold the same variant.
    fn clone_from(&mut self, source: &Self)
        ensures
            *source matches First(s) ==> *final(self) matches First(d) && cloned::<T>(s, d),
            *source matches Second(s) ==> *final(self) matches Second(d) && cloned::<U>(s, d),
            *source is Empty ==> *final(self) is Empty,
    {
        match (self, source) {
            (First(destination), First(source)) => clone_in_place(destination, source),
            (Second(destination), Second(source)) => clone_in_place(destination, source),
            (destination, source) => *destination = source.clone(),
        }
    }
}

} // verus!
