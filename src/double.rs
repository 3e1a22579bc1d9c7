use vstd::prelude::*;

use crate::clone_in_place;

verus! {

use self::Double::{This, That};

/// Unopinionated version of `Result` with variants `This` and `That`.
/// Every function that exists for `This` also exists for `That`.
#[derive(Copy, PartialEq, Eq, PartialOrd, Ord, Hash, Debug)]
pub enum Double<T, U> {
    This(T),
    That(U),
}

impl<T, U> Double<T, U> {
    /// The same payload with the two sides swapped.
    pub open spec fn flipped(self) -> Double<U, T> {
        match self {
            This(t) => That(t),
            That(u) => This(u),
        }
    }

    /// `This` read as success and `That` as failure.
    pub open spec fn this_result(self) -> Result<T, U> {
        match self {
            This(t) => Ok(t),
            That(u) => Err(u),
        }
    }

    /// `That` read as success and `This` as failure.
    pub open spec fn that_result(self) -> Result<U, T> {
        match self {
            This(t) => Err(t),
            That(u) => Ok(u),
        }
    }

    /////////////////////////////////////////////////////////////////////////
    // Querying the contained values
    /////////////////////////////////////////////////////////////////////////

    /// Returns `true` if this is a `This`.
    pub fn is_this(&self) -> (r: bool)
        ensures
            r == (*self is This),
    {
        match *self {
            This(_) => true,
            That(_) => false,
        }
    }

    /// Returns `true` if this is a `That`.
    pub fn is_that(&self) -> (r: bool)
        ensures
            r == (*self is That),
    {
        match *self {
            This(_) => false,
            That(_) => true,
        }
    }

    /// Returns `true` if this is a `This` whose payload satisfies `f`.
    /// `f` is not called on a `That`.
    pub fn is_this_and<F>(self, f: F) -> (r: bool)
        where
            F: FnOnce(T) -> bool,
        requires
            self matches This(t) ==> f.requires((t,)),
        ensures
            self matches This(t) ==> f.ensures((t,), r),
            self is That ==> !r,
    {
        match self {
            This(this) => f(this),
            That(_) => false,
        }
    }

    /// Returns `true` if this is a `That` whose payload satisfies `f`.
    /// `f` is not called on a `This`.
    pub fn is_that_and<F>(self, f: F) -> (r: bool)
        where
            F: FnOnce(U) -> bool,
        requires
            self matches That(u) ==> f.requires((u,)),
        ensures
            self matches That(u) ==> f.ensures((u,), r),
            self is This ==> !r,
    {
        match self {
            This(_) => false,
            That(that) => f(that),
        }
    }

    /////////////////////////////////////////////////////////////////////////
    // Adapter for each variant
    /////////////////////////////////////////////////////////////////////////

    /// The `This` payload, if there is one; a `That` payload is dropped.
    pub fn this(self) -> (r: Option<T>)
        ensures
            r == match self {
                This(t) => Some(t),
                That(_) => None,
            },
    {
        match self {
            This(this) => Some(this),
            That(_) => None,
        }
    }

    /// The `That` payload, if there is one; a `This` payload is dropped.
    pub fn that(self) -> (r: Option<U>)
        ensures
            r == match self {
                This(_) => None,
                That(u) => Some(u),
            },
    {
        match self {
            This(_) => None,
            That(that) => Some(that),
        }
    }

    /// `This` becomes `Ok`, `That` becomes `Err`.
    #[must_use]
    pub fn this_as_result<E>(self) -> (r: Result<T, U>)
        ensures
            r == self.this_result(),
    {
        match self {
            This(this) => Ok(this),
            That(that) => Err(that),
        }
    }

    /// `That` becomes `Ok`, `This` becomes `Err`.
    #[must_use]
    pub fn that_as_result<E>(self) -> (r: Result<U, T>)
        ensures
            r == self.that_result(),
    {
        match self {
            This(this) => Err(this),
            That(that) => Ok(that),
        }
    }

    /// `Ok` with the `This` payload, or `Err(err)` on a `That`.
    pub fn this_or<E>(self, err: E) -> (r: Result<T, E>)
        ensures
            r == match self {
                This(t) => Ok(t),
                That(_) => Err(err),
            },
    {
        match self {
            This(this) => Ok(this),
            _ => Err(err),
        }
    }

    /// `Ok` with the `That` payload, or `Err(err)` on a `This`.
    #[must_use]
    pub fn that_or<E>(self, err: E) -> (r: Result<U, E>)
        ensures
            r == match self {
                This(_) => Err(err),
                That(u) => Ok(u),
            },
    {
        match self {
            That(that) => Ok(that),
            _ => Err(err),
        }
    }

    /// `Ok` with the `This` payload, or `Err` with the result of `f` on a
    /// `That`. `f` is called only in that case.
    #[must_use]
    pub fn this_or_else<F, E>(self, f: F) -> (r: Result<T, E>)
        where
            F: FnOnce() -> E,
        requires
            self is That ==> f.requires(()),
        ensures
            self matches This(t) ==> r == Ok::<T, E>(t),
            self is That ==> (r matches Err(e) && f.ensures((), e)),
    {
        match self {
            This(this) => Ok(this),
            _ => Err(f()),
        }
    }

    /// `Ok` with the `That` payload, or `Err` with the result of `f` on a
    /// `This`. `f` is called only in that case.
    pub fn that_or_else<F, E>(self, f: F) -> (r: Result<U, E>)
        where
            F: FnOnce() -> E,
        requires
            self is This ==> f.requires(()),
        ensures
            self matches That(u) ==> r == Ok::<U, E>(u),
            self is This ==> (r matches Err(e) && f.ensures((), e)),
    {
        match self {
            That(that) => Ok(that),
            _ => Err(f()),
        }
    }

    /// Swaps the two sides, keeping the payload.
    pub fn flip(self) -> (r: Double<U, T>)
        ensures
            r == self.flipped(),
    {
        match self {
            This(this) => That(this),
            That(that) => This(that),
        }
    }

    /// Swaps the two sides, keeping the payload; the same as [`Double::flip`].
    pub fn switch(self) -> (r: Double<U, T>)
        ensures
            r == self.flipped(),
    {
        match self {
            This(this) => That(this),
            That(that) => This(that),
        }
    }

    /////////////////////////////////////////////////////////////////////////
    // Adapter for working with references
    /////////////////////////////////////////////////////////////////////////

    /// A `Double` of shared references into the payload.
    pub fn as_ref(&self) -> (r: Double<&T, &U>)
        ensures
            *self matches This(t) ==> r matches This(rt) && *rt == t,
            *self matches That(u) ==> r matches That(ru) && *ru == u,
    {
        match *self {
            This(ref this) => This(this),
            That(ref that) => That(that),
        }
    }

    /// A `Double` of mutable references into the payload; what is written
    /// through it lands in `self`, whose variant stays as it is.
    pub fn as_mut(&mut self) -> (r: Double<&mut T, &mut U>)
        ensures
            *old(self) matches This(t) ==> r matches This(rt) && *rt == t && *final(self)
                == This::<T, U>(*final(rt)),
            *old(self) matches That(u) ==> r matches That(ru) && *ru == u && *final(self)
                == That::<T, U>(*final(ru)),
    {
        match *self {
            This(ref mut this) => This(this),
            That(ref mut that) => That(that),
        }
    }

    /////////////////////////////////////////////////////////////////////////
    // Getting to contained values
    /////////////////////////////////////////////////////////////////////////

    /// The `This` payload. Only to be called on a `This`; `msg` describes
    /// the broken expectation.
    #[allow(unused_variables)]
    pub fn expect_this(self, msg: &str) -> (r: T)
        requires
            self is This,
        ensures
            r == self->This_0,
    {
        match self {
            This(this) => this,
            _ => unreached(),
        }
    }

    /// The `That` payload. Only to be called on a `That`; `msg` describes
    /// the broken expectation.
    #[allow(unused_variables)]
    pub fn expect_that(self, msg: &str) -> (r: U)
        requires
            self is That,
        ensures
            r == self->That_0,
    {
        match self {
            That(that) => that,
            _ => unreached(),
        }
    }

    /// The `This` payload. Only to be called on a `This`.
    pub fn unwrap_this(self) -> (r: T)
        requires
            self is This,
        ensures
            r == self->This_0,
    {
        match self {
            This(this) => this,
            _ => unreached(),
        }
    }

    /// The `That` payload. Only to be called on a `That`.
    pub fn unwrap_that(self) -> (r: U)
        requires
            self is That,
        ensures
            r == self->That_0,
    {
        match self {
            That(that) => that,
            _ => unreached(),
        }
    }

    /// The `This` payload, or `default` on a `That`.
    pub fn unwrap_this_or(self, default: T) -> (r: T)
        ensures
            r == match self {
                This(t) => t,
                That(_) => default,
            },
    {
        match self {
            This(this) => this,
            _ => default,
        }
    }

    /// The `That` payload, or `default` on a `This`.
    pub fn unwrap_that_or(self, default: U) -> (r: U)
        ensures
            r == match self {
                This(_) => default,
                That(u) => u,
            },
    {
        match self {
            That(that) => that,
            _ => default,
        }
    }

    /// The `This` payload, or the result of `f` on a `That`.
    pub fn unwrap_this_or_else<F>(self, f: F) -> (r: T)
        where
            F: FnOnce() -> T,
        requires
            self is That ==> f.requires(()),
        ensures
            self matches This(t) ==> r == t,
            self is That ==> f.ensures((), r),
    {
        match self {
            This(this) => this,
            _ => f(),
        }
    }

    /// The `That` payload, or the result of `f` on a `This`.
    pub fn unwrap_that_or_else<F>(self, f: F) -> (r: U)
        where
            F: FnOnce() -> U,
        requires
            self is This ==> f.requires(()),
        ensures
            self matches That(u) ==> r == u,
            self is This ==> f.ensures((), r),
    {
        match self {
            That(that) => that,
            _ => f(),
        }
    }

    /// The `This` payload, or the `That` payload turned into a `T` by `f`.
    pub fn unwrap_this_with<F>(self, f: F) -> (r: T)
        where
            F: FnOnce(U) -> T,
        requires
            self matches That(u) ==> f.requires((u,)),
        ensures
            self matches This(t) ==> r == t,
            self matches That(u) ==> f.ensures((u,), r),
    {
        match self {
            This(this) => this,
            That(that) => f(that),
        }
    }

    /// The `That` payload, or the `This` payload turned into a `U` by `f`.
    pub fn unwrap_that_with<F>(self, f: F) -> (r: U)
        where
            F: FnOnce(T) -> U,
        requires
            self matches This(t) ==> f.requires((t,)),
        ensures
            self matches That(u) ==> r == u,
            self matches This(t) ==> f.ensures((t,), r),
    {
        match self {
            That(that) => that,
            This(this) => f(this),
        }
    }

    /// The `This` payload, or `T::default()` on a `That`.
    pub fn unwrap_this_or_default(self) -> (r: T)
        where
            T: Default,
        ensures
            self matches This(t) ==> r == t,
            self is That ==> call_ensures(T::default, (), r),
    {
        match self {
            This(this) => this,
            _ => T::default(),
        }
    }

    /// The `That` payload, or `U::default()` on a `This`.
    pub fn unwrap_that_or_default(self) -> (r: U)
        where
            U: Default,
        ensures
            self matches That(u) ==> r == u,
            self is This ==> call_ensures(U::default, (), r),
    {
        match self {
            That(that) => that,
            _ => U::default(),
        }
    }

    /// Collapses either side to an `O`: `f` on a `This` payload, `g` on a
    /// `That` payload.
    pub fn unwrap_to<F, G, O>(self, f: F, g: G) -> (r: O)
        where
            F: FnOnce(T) -> O,
            G: FnOnce(U) -> O,
        requires
            self matches This(t) ==> f.requires((t,)),
            self matches That(u) ==> g.requires((u,)),
        ensures
            self matches This(t) ==> f.ensures((t,), r),
            self matches That(u) ==> g.ensures((u,), r),
    {
        match self {
            This(this) => f(this),
            That(that) => g(that),
        }
    }

    /// Collapses either side to an `O` through its `Into<O>`.
    pub fn unwrap_into<O>(self) -> (r: O)
        where
            T: Into<O>,
            U: Into<O>,
        ensures
            self matches This(t) ==> call_ensures(T::into, (t,), r),
            self matches That(u) ==> call_ensures(U::into, (u,), r),
    {
        match self {
            This(this) => this.into(),
            That(that) => that.into(),
        }
    }

    /// Combines the payloads of two `Double`s that hold opposite sides:
    /// `f(this, that)`, whichever of the two held the `This`. Only to be
    /// called where one is a `This` and the other a `That`.
    pub fn unwrap_union<F, O, V, R>(self, other: Self, f: F) -> (r: O)
        where
            F: FnOnce(T, U) -> O,
        requires
            self is This <==> other is That,
            self matches This(a) ==> (other matches That(b) ==> f.requires((a, b))),
            self matches That(b) ==> (other matches This(a) ==> f.requires((a, b))),
        ensures
            self matches This(a) ==> (other matches That(b) ==> f.ensures((a, b), r)),
            self matches That(b) ==> (other matches This(a) ==> f.ensures((a, b), r)),
    {
        match (self, other) {
            (This(a), That(b)) => f(a, b),
            (That(a), This(b)) => f(b, a),
            _ => unreached(),
        }
    }

    /////////////////////////////////////////////////////////////////////////
    // Transforming contained values
    /////////////////////////////////////////////////////////////////////////

    /// Applies `f` to a `This` payload; a `That` is kept as it is.
    pub fn map_this<F, O>(self, f: F) -> (r: Double<O, U>)
        where
            F: FnOnce(T) -> O,
        requires
            self matches This(t) ==> f.requires((t,)),
        ensures
            self matches This(t) ==> r matches This(o) && f.ensures((t,), o),
            self matches That(u) ==> r == That::<O, U>(u),
    {
        match self {
            This(this) => This(f(this)),
            That(that) => That(that),
        }
    }

    /// Applies `f` to a `That` payload; a `This` is kept as it is.
    pub fn map_that<F, O>(self, f: F) -> (r: Double<T, O>)
        where
            F: FnOnce(U) -> O,
        requires
            self matches That(u) ==> f.requires((u,)),
        ensures
            self matches This(t) ==> r == This::<T, O>(t),
            self matches That(u) ==> r matches That(o) && f.ensures((u,), o),
    {
        match self {
            This(this) => This(this),
            That(that) => That(f(that)),
        }
    }

    /// Applies `f` to a `This` payload and `g` to a `That` payload.
    pub fn map<F, G, O, R>(self, f: F, g: G) -> (r: Double<O, R>)
        where
            F: FnOnce(T) -> O,
            G: FnOnce(U) -> R,
        requires
            self matches This(t) ==> f.requires((t,)),
            self matches That(u) ==> g.requires((u,)),
        ensures
            self matches This(t) ==> r matches This(o) && f.ensures((t,), o),
            self matches That(u) ==> r matches That(o) && g.ensures((u,), o),
    {
        match self {
            This(this) => This(f(this)),
            That(that) => That(g(that)),
        }
    }
}

/// A `This` is a `This` and not a `That`, and a `That` the reverse, whatever
/// the payload: `is_this` and `is_that` answer accordingly.
pub proof fn lemma_variant_predicates<T, U>(t: T, u: U)
    ensures
        This::<T, U>(t) is This,
        !(This::<T, U>(t) is That),
        That::<T, U>(u) is That,
        !(That::<T, U>(u) is This),
{
}

/// Flipping twice gives back the original `Double`.
pub proof fn lemma_flip_flip<T, U>(x: Double<T, U>)
    ensures
        x.flipped().flipped() == x,
{
}

/// Reading a `Double` as a `Result` (either side as success) and building it
/// back from that `Result` gives the original; the success side carries its
/// payload unchanged.
pub proof fn lemma_result_round_trip<T, U>(x: Double<T, U>)
    ensures
        match x.this_result() {
            Ok(t) => This(t),
            Err(u) => That(u),
        } == x,
        match x.that_result() {
            Ok(u) => That(u),
            Err(t) => This(t),
        } == x,
        x matches This(t) ==> x.this_result() == Ok::<T, U>(t),
        x matches That(u) ==> x.that_result() == Ok::<U, T>(u),
{
}

impl<T: Clone, U: Clone> Clone for Double<T, U> {
    /// Clones whichever payload is present.
    fn clone(&self) -> (r: Self)
        ensures
            *self matches This(t) ==> r matches This(c) && cloned::<T>(t, c),
            *self matches That(u) ==> r matches That(c) && cloned::<U>(u, c),
    {
        match self {
            This(this) => This(this.clone()),
            That(that) => That(that.clone()),
        }
    }

    /// Clones `source` into `self`, reusing the payload in place where both
    /// hold the same variant.
    fn clone_from(&mut self, source: &Self)
        ensures
            *source matches This(s) ==> *final(self) matches This(d) && cloned::<T>(s, d),
            *source matches That(s) ==> *final(self) matches That(d) && cloned::<U>(s, d),
    {
        match (self, source) {
            (This(destination), This(source)) => clone_in_place(destination, source),
            (That(destination), That(source)) => clone_in_place(destination, source),
            (destination, source) => *destination = source.clone(),
        }
    }
}

} // verus!
