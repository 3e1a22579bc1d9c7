use vstd::prelude::*;

use crate::clone_in_place;

verus! {

use self::ErrorOption::{Value, Empty, Error};

/// `Result` and `Option` in one: a `Value`, nothing (`Empty`), or an `Error`.
///
/// `Value` is the primary path; `Error` is a failure channel apart from the
/// mere absence of a value.
#[must_use]
#[derive(Copy, PartialEq, Eq, PartialOrd, Ord, Hash, Debug)]
pub enum ErrorOption<T, E> {
    Value(T),
    Empty,
    Error(E),
}

impl<T, E> ErrorOption<T, E> {
    /// The value, if there is one; `Empty` and `Error` both give `None`.
    pub open spec fn value_opt(self) -> Option<T> {
        match self {
            Value(t) => Some(t),
            _ => None,
        }
    }

    /// The three outcomes as a `Result` of an `Option`: `Empty` is success
    /// without a value.
    pub open spec fn outcome(self) -> Result<Option<T>, E> {
        match self {
            Value(t) => Ok(Some(t)),
            Empty => Ok(None),
            Error(e) => Err(e),
        }
    }

    /// The same payload with the roles of value and error swapped.
    pub open spec fn switched(self) -> ErrorOption<E, T> {
        match self {
            Value(t) => Error(t),
            Empty => Empty,
            Error(e) => Value(e),
        }
    }

    /// `self` where it holds a value, else `Value(value)`.
    pub open spec fn value_or_put(self, value: T) -> Self {
        match self {
            Value(_) => self,
            _ => Value(value),
        }
    }

    /////////////////////////////////////////////////////////////////////////
    // Querying the contained values
    /////////////////////////////////////////////////////////////////////////

    /// Returns `true` if this is a `Value`.
    pub fn is_value(&self) -> (r: bool)
        ensures
            r == (*self is Value),
    {
        match self {
            Value(_) => true,
            _ => false,
        }
    }

    /// Returns `true` if this is a `Value` whose payload satisfies `f`.
    /// `f` is called on a `Value` only.
    pub fn is_value_and<F>(self, f: F) -> (r: bool)
        where
            F: FnOnce(T) -> bool,
        requires
            self matches Value(t) ==> f.requires((t,)),
        ensures
            self matches Value(t) ==> f.ensures((t,), r),
            self !is Value ==> !r,
    {
        match self {
            Value(value) => f(value),
            _ => false,
        }
    }

    /// Returns `true` if this is `Empty`.
    pub fn is_empty(&self) -> (r: bool)
        ensures
            r == (*self is Empty),
    {
        match self {
            Empty => true,
            _ => false,
        }
    }

    /// Returns `true` if this is an `Error`.
    pub fn is_error(&self) -> (r: bool)
        ensures
            r == (*self is Error),
    {
        match self {
            Error(_) => true,
            _ => false,
        }
    }

    /// Returns `true` if this is an `Error` whose payload satisfies `f`.
    /// `f` is called on an `Error` only.
    pub fn is_error_and<F>(self, f: F) -> (r: bool)
        where
            F: FnOnce(E) -> bool,
        requires
            self matches Error(e) ==> f.requires((e,)),
        ensures
            self matches Error(e) ==> f.ensures((e,), r),
            self !is Error ==> !r,
    {
        match self {
            Error(error) => f(error),
            _ => false,
        }
    }

    /////////////////////////////////////////////////////////////////////////
    // Adapter for each variant
    /////////////////////////////////////////////////////////////////////////

    /// `Some` with the value, `None` for both `Empty` and `Error`; an error
    /// is dropped.
    pub fn as_option(self) -> (r: Option<T>)
        ensures
            r == self.value_opt(),
    {
        match self {
            Value(value) => Some(value),
            _ => None,
        }
    }

    /// `Ok` with the value, `Ok(T::default())` for `Empty`, `Err` with the
    /// error.
    ///
    /// Note that `Empty` counts as success here, with the default value
    /// standing in for the missing one. [`ErrorOption::result`] keeps the
    /// two apart.
    pub fn as_result(self) -> (r: Result<T, E>)
        where
            T: Default,
        ensures
            self matches Value(t) ==> r == Ok::<T, E>(t),
            self is Empty ==> (r matches Ok(d) && call_ensures(T::default, (), d)),
            self matches Error(e) ==> r == Err::<T, E>(e),
    {
        match self {
            Value(value) => Ok(value),
            Empty => Ok(T::default()),
            Error(error) => Err(error),
        }
    }

    /// `Some` with the error, `None` for `Value` and `Empty`.
    pub fn error(self) -> (r: Option<E>)
        ensures
            r == match self {
                Error(e) => Some(e),
                _ => None,
            },
    {
        match self {
            Error(error) => Some(error),
            _ => None,
        }
    }

    /// `Ok` with the value, or `Err(err)` for both `Empty` and `Error`; an
    /// error held is dropped in favour of `err`.
    pub fn value_or<O>(self, err: O) -> (r: Result<T, O>)
        ensures
            r == match self {
                Value(t) => Ok(t),
                _ => Err(err),
            },
    {
        match self {
            Value(value) => Ok(value),
            _ => Err(err),
        }
    }

    /// `Ok` with the value, `Err(err)` for `Empty`, and `Err` with the error
    /// held for `Error`: unlike [`ErrorOption::value_or`], an error already
    /// present is kept and `err` only fills in for `Empty`.
    pub fn value_or_default(self, err: E) -> (r: Result<T, E>)
        ensures
            r == match self {
                Value(t) => Ok(t),
                Empty => Err(err),
                Error(e) => Err(e),
            },
    {
        match self {
            Value(value) => Ok(value),
            Empty => Err(err),
            Error(error) => Err(error),
        }
    }

    /// `Ok` with the value, or `Err` with the result of `f` for both `Empty`
    /// and `Error`. `f` is called only when there is no value.
    pub fn value_or_else<F, O>(self, f: F) -> (r: Result<T, O>)
        where
            F: FnOnce() -> O,
        requires
            self !is Value ==> f.requires(()),
        ensures
            self matches Value(t) ==> r == Ok::<T, O>(t),
            self !is Value ==> (r matches Err(o) && f.ensures((), o)),
    {
        match self {
            Value(value) => Ok(value),
            _ => Err(f()),
        }
    }

    /// `Ok(Some(value))` for `Value`, `Ok(None)` for `Empty`, `Err` with the
    /// error for `Error`.
    pub fn result(self) -> (r: Result<Option<T>, E>)
        ensures
            r == self.outcome(),
    {
        match self {
            Value(value) => Ok(Some(value)),
            Empty => Ok(None),
            Error(error) => Err(error),
        }
    }

    /// Swaps the roles of value and error; `Empty` stays `Empty`.
    ///
    /// The type is biased towards its value, so a swap seldom reads well;
    /// [`crate::double::Double::flip`] is the unbiased way to swap sides.
    pub fn switch(self) -> (r: ErrorOption<E, T>)
        ensures
            r == self.switched(),
    {
        match self {
            Value(value) => Error(value),
            Empty => Empty,
            Error(error) => Value(error),
        }
    }

    /////////////////////////////////////////////////////////////////////////
    // Adapter for working with references
    /////////////////////////////////////////////////////////////////////////

    /// An `ErrorOption` of shared references into the payload.
    pub fn as_ref(&self) -> (r: ErrorOption<&T, &E>)
        ensures
            *self matches Value(t) ==> r matches Value(rt) && *rt == t,
            *self is Empty ==> r is Empty,
            *self matches Error(e) ==> r matches Error(re) && *re == e,
    {
        match self {
            Value(ref value) => Value(value),
            Empty => Empty,
            Error(ref error) => Error(error),
        }
    }

    /// An `ErrorOption` of mutable references into the payload; what is
    /// written through it lands in `self`, whose variant stays as it is.
    pub fn as_mut(&mut self) -> (r: ErrorOption<&mut T, &mut E>)
        ensures
            *old(self) matches Value(t) ==> r matches Value(rt) && *rt == t && *final(self)
                == Value::<T, E>(*final(rt)),
            *old(self) is Empty ==> r is Empty && *final(self) == Empty::<T, E>,
            *old(self) matches Error(e) ==> r matches Error(re) && *re == e && *final(self)
                == Error::<T, E>(*final(re)),
    {
        match self {
            Value(ref mut value) => Value(value),
            Empty => Empty,
            Error(ref mut error) => Error(error),
        }
    }

    /////////////////////////////////////////////////////////////////////////
    // Getting to contained values
    /////////////////////////////////////////////////////////////////////////

    /// The value. Only to be called on a `Value`; `msg` describes the
    /// broken expectation.
    #[allow(unused_variables)]
    pub fn expect(self, msg: &str) -> (r: T)
        where
            E: core::fmt::Debug,
        requires
            self is Value,
        ensures
            r == self->Value_0,
    {
        match self {
            Value(value) => value,
            _ => unreached(),
        }
    }

    /// The error. Only to be called on an `Error`; `msg` describes the
    /// broken expectation.
    #[allow(unused_variables)]
    pub fn expect_error(self, msg: &str) -> (r: E)
        where
            T: core::fmt::Debug,
        requires
            self is Error,
        ensures
            r == self->Error_0,
    {
        match self {
            Error(error) => error,
            _ => unreached(),
        }
    }

    /// The value. Only to be called on a `Value`.
    pub fn unwrap(self) -> (r: T)
        requires
            self is Value,
        ensures
            r == self->Value_0,
    {
        match self {
            Value(value) => value,
            _ => unreached(),
        }
    }

    /// The error. Only to be called on an `Error`.
    pub fn unwrap_error(self) -> (r: E)
        requires
            self is Error,
        ensures
            r == self->Error_0,
    {
        match self {
            Error(error) => error,
            _ => unreached(),
        }
    }

    /// The value, or `default` for `Empty` and `Error`.
    pub fn unwrap_or(self, default: T) -> (r: T)
        ensures
            r == match self {
                Value(t) => t,
                _ => default,
            },
    {
        match self {
            Value(value) => value,
            _ => default,
        }
    }

    /// The value, or the result of `f` for `Empty` and `Error`.
    pub fn unwrap_or_else<F>(self, f: F) -> (r: T)
        where
            F: FnOnce() -> T,
        requires
            self !is Value ==> f.requires(()),
        ensures
            self matches Value(t) ==> r == t,
            self !is Value ==> f.ensures((), r),
    {
        match self {
            Value(value) => value,
            _ => f(),
        }
    }

    /// The value, or `T::default()` for `Empty` and `Error`.
    pub fn unwrap_or_default(self) -> (r: T)
        where
            T: Default,
        ensures
            self matches Value(t) ==> r == t,
            self !is Value ==> call_ensures(T::default, (), r),
    {
        match self {
            Value(value) => value,
            _ => T::default(),
        }
    }

    /// The value, for a caller that has established `is_value()`; nothing
    /// is checked at run time beyond that precondition.
    pub fn unwrap_unchecked(self) -> (r: T)
        requires
            self is Value,
        ensures
            r == self->Value_0,
    {
        match self {
            Value(value) => value,
            _ => unreached(),
        }
    }

    /////////////////////////////////////////////////////////////////////////
    // Transforming contained values
    /////////////////////////////////////////////////////////////////////////

    /// Applies `f` to a value; `Empty` and `Error` pass through unchanged.
    pub fn map<M, F>(self, f: F) -> (r: ErrorOption<M, E>)
        where
            F: FnOnce(T) -> M,
        requires
            self matches Value(t) ==> f.requires((t,)),
        ensures
            self matches Value(t) ==> r matches Value(m) && f.ensures((t,), m),
            self is Empty ==> r is Empty,
            self matches Error(e) ==> r == Error::<M, E>(e),
    {
        match self {
            Value(value) => Value(f(value)),
            Empty => Empty,
            Error(error) => Error(error),
        }
    }

    /// `f` applied to a value, or `default` for `Empty` and `Error`.
    pub fn map_or<M, F>(self, default: M, f: F) -> (r: M)
        where
            F: FnOnce(T) -> M,
        requires
            self matches Value(t) ==> f.requires((t,)),
        ensures
            self matches Value(t) ==> f.ensures((t,), r),
            self !is Value ==> r == default,
    {
        match self {
            Value(value) => f(value),
            _ => default,
        }
    }

    /// `f` applied to a value, or the result of `default` for `Empty` and
    /// `Error`.
    pub fn map_or_else<M, D, F>(self, default: D, f: F) -> (r: M)
        where
            D: FnOnce() -> M,
            F: FnOnce(T) -> M,
        requires
            self matches Value(t) ==> f.requires((t,)),
            self !is Value ==> default.requires(()),
        ensures
            self matches Value(t) ==> f.ensures((t,), r),
            self !is Value ==> default.ensures((), r),
    {
        match self {
            Value(value) => f(value),
            _ => default(),
        }
    }

    /// One handler per variant: `f` for a value, `default` for `Empty`,
    /// `default_error` for an error.
    pub fn map_or_error<M, DE, D, F>(self, default_error: DE, default: D, f: F) -> (r: M)
        where
            DE: FnOnce(E) -> M,
            D: FnOnce() -> M,
            F: FnOnce(T) -> M,
        requires
            self matches Value(t) ==> f.requires((t,)),
            self is Empty ==> default.requires(()),
            self matches Error(e) ==> default_error.requires((e,)),
        ensures
            self matches Value(t) ==> f.ensures((t,), r),
            self is Empty ==> default.ensures((), r),
            self matches Error(e) ==> default_error.ensures((e,), r),
    {
        match self {
            Value(value) => f(value),
            Empty => default(),
            Error(error) => default_error(error),
        }
    }

    /// Applies `f` to an error; `Value` and `Empty` pass through unchanged.
    pub fn map_error<F, O>(self, f: F) -> (r: ErrorOption<T, O>)
        where
            F: FnOnce(E) -> O,
        requires
            self matches Error(e) ==> f.requires((e,)),
        ensures
            self matches Value(t) ==> r == Value::<T, O>(t),
            self is Empty ==> r is Empty,
            self matches Error(e) ==> r matches Error(o) && f.ensures((e,), o),
    {
        match self {
            Value(value) => Value(value),
            Empty => Empty,
            Error(error) => Error(f(error)),
        }
    }

    /// Calls `f` on a reference to the value, if there is one, and returns
    /// `self` unchanged.
    pub fn inspect<F>(self, f: F) -> (r: Self)
        where
            F: FnOnce(&T),
        requires
            self matches Value(t) ==> f.requires((&t,)),
        ensures
            r == self,
            self matches Value(t) ==> f.ensures((&t,), ()),
    {
        if let Value(ref value) = self {
            f(value)
        }
        self
    }

    /// Calls `f` on a reference to the error, if there is one, and returns
    /// `self` unchanged.
    pub fn inspect_err<F>(self, f: F) -> (r: Self)
        where
            F: FnOnce(&E),
        requires
            self matches Error(e) ==> f.requires((&e,)),
        ensures
            r == self,
            self matches Error(e) ==> f.ensures((&e,), ()),
    {
        if let Error(ref error) = self {
            f(error)
        }
        self
    }

    /// Borrows through the value's `Deref`; an error is borrowed as it is.
    pub fn as_deref(&self) -> (r: ErrorOption<&T::Target, &E>)
        where
            T: core::ops::Deref,
        ensures
            *self matches Value(t) ==> r matches Value(d) && call_ensures(T::deref, (&t,), d),
            *self is Empty ==> r is Empty,
            *self matches Error(e) ==> r matches Error(re) && *re == e,
    {
        match self {
            Value(ref value) => Value(value.deref()),
            Empty => Empty,
            Error(ref error) => Error(error),
        }
    }

    /// Borrows mutably through the value's `DerefMut`; an error is borrowed
    /// as it is.
    pub fn as_deref_mut(&mut self) -> (r: ErrorOption<&mut T::Target, &mut E>)
        where
            T: core::ops::DerefMut,
        ensures
            *old(self) is Value ==> r is Value && *final(self) is Value,
            *old(self) is Empty ==> r is Empty && *final(self) == Empty::<T, E>,
            *old(self) matches Error(e) ==> r matches Error(re) && *re == e && *final(self)
                == Error::<T, E>(*final(re)),
    {
        match self {
            Value(ref mut value) => Value(value.deref_mut()),
            Empty => Empty,
            Error(ref mut error) => Error(error),
        }
    }

    /////////////////////////////////////////////////////////////////////////
    // Iterating over the value
    /////////////////////////////////////////////////////////////////////////

    /// An iterator over a reference to the value: one item for a `Value`,
    /// none for `Empty` or `Error`.
    pub fn iter(&self) -> (r: Iter<'_, T>)
        ensures
            *self matches Value(t) ==> r@ matches Some(rt) && *rt == t,
            *self !is Value ==> r@ is None,
    {
        Iter { inner: self.as_ref().as_option() }
    }

    /// An iterator over a mutable reference to the value: one item for a
    /// `Value`, none for `Empty` or `Error`. What is written through the
    /// item lands in `self`.
    pub fn iter_mut(&mut self) -> (r: IterMut<'_, T>)
        ensures
            *old(self) matches Value(t) ==> r@ matches Some(rt) && *rt == t && *final(self)
                == Value::<T, E>(*final(rt)),
            *old(self) !is Value ==> r@ is None && *final(self) == *old(self),
    {
        match self {
            Value(ref mut value) => IterMut { inner: Some(value) },
            _ => IterMut { inner: None },
        }
    }

    /// An iterator that moves the value out: one item for a `Value`, none
    /// for `Empty` or `Error`.
    pub fn into_iter(self) -> (r: IntoIter<T>)
        ensures
            r@ == self.value_opt(),
    {
        IntoIter { inner: self.as_option() }
    }

    /////////////////////////////////////////////////////////////////////////
    // Boolean operations on the values
    /////////////////////////////////////////////////////////////////////////

    /// `optb` if this holds a value; otherwise `Empty` or the error, as
    /// they are.
    pub fn and<M>(self, optb: ErrorOption<M, E>) -> (r: ErrorOption<M, E>)
        ensures
            r == match self {
                Value(_) => optb,
                Empty => Empty,
                Error(e) => Error(e),
            },
    {
        match self {
            Value(_) => optb,
            Empty => Empty,
            Error(error) => Error(error),
        }
    }

    /// The result of `f` on the value, if there is one; otherwise `Empty` or
    /// the error, as they are.
    pub fn and_then<M, F>(self, f: F) -> (r: ErrorOption<M, E>)
        where
            F: FnOnce(T) -> ErrorOption<M, E>,
        requires
            self matches Value(t) ==> f.requires((t,)),
        ensures
            self matches Value(t) ==> f.ensures((t,), r),
            self is Empty ==> r is Empty,
            self matches Error(e) ==> r == Error::<M, E>(e),
    {
        match self {
            Value(value) => f(value),
            Empty => Empty,
            Error(error) => Error(error),
        }
    }

    /// Keeps a value that satisfies `predicate`; everything else, an error
    /// too, becomes `Empty`.
    pub fn filter<P>(self, predicate: P) -> (r: Self)
        where
            P: FnOnce(&T) -> bool,
        requires
            self matches Value(t) ==> predicate.requires((&t,)),
        ensures
            self matches Value(t) ==> (r == self && predicate.ensures((&t,), true)) || (r is Empty
                && predicate.ensures((&t,), false)),
            self !is Value ==> r is Empty,
    {
        if let Value(value) = self {
            if predicate(&value) {
                return Value(value);
            }
        }
        Empty
    }

    /// Keeps a value that satisfies `predicate`; everything else becomes
    /// `default`.
    pub fn filter_or<P>(self, predicate: P, default: Self) -> (r: Self)
        where
            P: FnOnce(&T) -> bool,
        requires
            self matches Value(t) ==> predicate.requires((&t,)),
        ensures
            self matches Value(t) ==> (r == self && predicate.ensures((&t,), true)) || (r
                == default && predicate.ensures((&t,), false)),
            self !is Value ==> r == default,
    {
        if let Value(value) = self {
            if predicate(&value) {
                return Value(value);
            }
        }
        default
    }

    /// Keeps a value that satisfies `predicate`; everything else becomes
    /// the result of `default`, which is called only then.
    pub fn filter_or_else<P, F>(self, predicate: P, default: F) -> (r: Self)
        where
            P: FnOnce(&T) -> bool,
            F: FnOnce() -> Self,
        requires
            self matches Value(t) ==> predicate.requires((&t,)),
            default.requires(()),
        ensures
            self matches Value(t) ==> (r == self && predicate.ensures((&t,), true)) || (
            predicate.ensures((&t,), false) && default.ensures((), r)),
            self !is Value ==> default.ensures((), r),
    {
        if let Value(value) = self {
            if predicate(&value) {
                return Value(value);
            }
        }
        default()
    }

    /// Keeps `self`, whatever its variant, if `predicate` holds of it;
    /// otherwise `Empty`.
    pub fn filter_predicate<P>(self, predicate: P) -> (r: Self)
        where
            P: FnOnce(&Self) -> bool,
        requires
            predicate.requires((&self,)),
        ensures
            (r == self && predicate.ensures((&self,), true)) || (r is Empty && predicate.ensures(
                (&self,),
                false,
            )),
    {
        if predicate(&self) {
            return self;
        }
        Empty
    }

    /// Keeps `self`, whatever its variant, if `predicate` holds of it;
    /// otherwise `default`.
    pub fn filter_predicate_or<P>(self, predicate: P, default: Self) -> (r: Self)
        where
            P: FnOnce(&Self) -> bool,
        requires
            predicate.requires((&self,)),
        ensures
            (r == self && predicate.ensures((&self,), true)) || (r == default
                && predicate.ensures((&self,), false)),
    {
        if predicate(&self) {
            return self;
        }
        default
    }

    /// Keeps `self`, whatever its variant, if `predicate` holds of it;
    /// otherwise what `default` makes of it.
    pub fn filter_predicate_or_else<P, D>(self, predicate: P, default: D) -> (r: Self)
        where
            P: FnOnce(&Self) -> bool,
            D: FnOnce(&Self) -> Self,
        requires
            predicate.requires((&self,)),
            default.requires((&self,)),
        ensures
            (r == self && predicate.ensures((&self,), true)) || (predicate.ensures(
                (&self,),
                false,
            ) && default.ensures((&self,), r)),
    {
        if predicate(&self) {
            return self;
        }
        default(&self)
    }

    /// Keeps a value; otherwise `optb`. `Empty` and `Error` are alike here:
    /// an error held is dropped.
    pub fn or(self, optb: Self) -> (r: Self)
        ensures
            r == match self {
                Value(_) => self,
                _ => optb,
            },
    {
        match self {
            Value(value) => Value(value),
            _ => optb,
        }
    }

    /// Keeps a value; otherwise the result of `f`, which is called only
    /// then. An error held is dropped.
    pub fn or_else<F>(self, f: F) -> (r: Self)
        where
            F: FnOnce() -> Self,
        requires
            self !is Value ==> f.requires(()),
        ensures
            self is Value ==> r == self,
            self !is Value ==> f.ensures((), r),
    {
        match self {
            Value(value) => Value(value),
            _ => f(),
        }
    }

    /// Whichever of the two holds a value, if exactly one does; otherwise
    /// `Empty`, also where both hold one.
    pub fn xor(self, optb: Self) -> (r: Self)
        ensures
            r == if self is Value && optb !is Value {
                self
            } else if self !is Value && optb is Value {
                optb
            } else {
                Empty
            },
    {
        match (self, optb) {
            (Value(value), Error(_)) | (Value(value), Empty) => Value(value),
            (Error(_), Value(value)) | (Empty, Value(value)) => Value(value),
            _ => Empty,
        }
    }

    /////////////////////////////////////////////////////////////////////////
    // Replacing the whole value
    /////////////////////////////////////////////////////////////////////////

    /// Sets `self` to `Value(value)`, whatever it held, and returns a
    /// mutable reference to the new value.
    #[must_use]
    pub fn insert(&mut self, value: T) -> (r: &mut T)
        ensures
            *r == value,
            *final(self) == Value::<T, E>(*final(r)),
    {
        *self = Value(value);
        match self {
            Value(v) => v,
            _ => unreached(),
        }
    }

    /// A mutable reference to the value, after setting `self` to
    /// `Value(value)` where it held none.
    pub fn get_or_insert(&mut self, value: T) -> (r: &mut T)
        ensures
            Value::<T, E>(*r) == old(self).value_or_put(value),
            *final(self) == Value::<T, E>(*final(r)),
    {
        if !self.is_value() {
            *self = Value(value);
        }
        match self {
            Value(v) => v,
            _ => unreached(),
        }
    }

    /// A mutable reference to the value, after setting `self` to
    /// `Value(T::default())` where it held none.
    pub fn get_or_insert_default(&mut self) -> (r: &mut T)
        where
            T: Default,
        ensures
            *old(self) matches Value(t) ==> *r == t,
            *old(self) !is Value ==> call_ensures(T::default, (), *r),
            *final(self) == Value::<T, E>(*final(r)),
    {
        if !self.is_value() {
            *self = Value(T::default());
        }
        match self {
            Value(v) => v,
            _ => unreached(),
        }
    }

    /// A mutable reference to the value, after setting `self` to
    /// `Value(f())` where it held none. `f` is called only then.
    pub fn get_or_insert_with<F>(&mut self, f: F) -> (r: &mut T)
        where
            F: FnOnce() -> T,
        requires
            *old(self) !is Value ==> f.requires(()),
        ensures
            *old(self) matches Value(t) ==> *r == t,
            *old(self) !is Value ==> f.ensures((), *r),
            *final(self) == Value::<T, E>(*final(r)),
    {
        if !self.is_value() {
            *self = Value(f());
        }
        match self {
            Value(v) => v,
            _ => unreached(),
        }
    }

    /// Takes the whole of `self` out, leaving `Empty` behind.
    pub fn take(&mut self) -> (r: Self)
        ensures
            r == *old(self),
            *final(self) is Empty,
    {
        let mut taken = Empty;
        core::mem::swap(self, &mut taken);
        taken
    }

    /// Puts `Value(value)` in place of `self` and returns what was there,
    /// an error included.
    pub fn replace(&mut self, value: T) -> (r: Self)
        ensures
            r == *old(self),
            *final(self) == Value::<T, E>(value),
    {
        let mut previous = Value(value);
        core::mem::swap(self, &mut previous);
        previous
    }

    /////////////////////////////////////////////////////////////////////////
    // Pairing
    /////////////////////////////////////////////////////////////////////////
    // Where one side is not a value the pair is `Empty`, and an error on
    // either side is dropped. Whether an error should travel through instead
    // (and which one, where both sides hold one) is an open question; until
    // it is settled, the errors are dropped.

    /// `Value((a, b))` where both hold a value; `Empty` otherwise.
    pub fn zip<U>(self, other: ErrorOption<U, E>) -> (r: ErrorOption<(T, U), E>)
        ensures
            r == match (self, other) {
                (Value(a), Value(b)) => Value::<(T, U), E>((a, b)),
                _ => Empty,
            },
    {
        match (self, other) {
            (Value(a), Value(b)) => Value((a, b)),
            _ => Empty,
        }
    }

    /// `Some((a, b))` where both hold a value; `None` otherwise.
    pub fn zip_to_option<U>(self, other: ErrorOption<U, E>) -> (r: Option<(T, U)>)
        ensures
            r == match (self, other) {
                (Value(a), Value(b)) => Some((a, b)),
                _ => None,
            },
    {
        match (self, other) {
            (Value(a), Value(b)) => Some((a, b)),
            _ => None,
        }
    }

    /// `Some((a, b))` where this holds a value and `other` is `Some`; `None`
    /// otherwise.
    pub fn zip_with_option<U>(self, other: Option<U>) -> (r: Option<(T, U)>)
        ensures
            r == match (self, other) {
                (Value(a), Some(b)) => Some((a, b)),
                _ => None,
            },
    {
        match (self, other) {
            (Value(a), Some(b)) => Some((a, b)),
            _ => None,
        }
    }

    /// `Value(f(a, b))` where both hold a value; `Empty` otherwise.
    pub fn zip_with<U, F, R>(self, other: ErrorOption<U, T>, f: F) -> (r: ErrorOption<R, E>)
        where
            F: FnOnce(T, U) -> R,
        requires
            self matches Value(a) ==> (other matches Value(b) ==> f.requires((a, b))),
        ensures
            self matches Value(a) ==> (other matches Value(b) ==> (r matches Value(c)
                && f.ensures((a, b), c))),
            self !is Value || other !is Value ==> r is Empty,
    {
        match (self, other) {
            (Value(a), Value(b)) => Value(f(a, b)),
            _ => Empty,
        }
    }

    /// `Some(f(a, b))` where both hold a value; `None` otherwise.
    pub fn zip_to_option_with<U, F, R>(self, other: ErrorOption<U, T>, f: F) -> (r: Option<R>)
        where
            F: FnOnce(T, U) -> R,
        requires
            self matches Value(a) ==> (other matches Value(b) ==> f.requires((a, b))),
        ensures
            self matches Value(a) ==> (other matches Value(b) ==> (r matches Some(c)
                && f.ensures((a, b), c))),
            self !is Value || other !is Value ==> r is None,
    {
        match (self, other) {
            (Value(a), Value(b)) => Some(f(a, b)),
            _ => None,
        }
    }
}

impl<T, U, E> ErrorOption<(T, U), E> {
    /// Splits a value that is a pair into two `ErrorOption`s; `Empty` and
    /// `Error` give `(Empty, Empty)`.
    pub fn unzip(self) -> (r: (ErrorOption<T, E>, ErrorOption<U, E>))
        ensures
            r == match self {
                Value((a, b)) => (Value::<T, E>(a), Value::<U, E>(b)),
                _ => (Empty, Empty),
            },
    {
        match self {
            Value((a, b)) => (Value(a), Value(b)),
            _ => (Empty, Empty),
        }
    }
}

impl<T, E> ErrorOption<&T, E> {
    /// Copies a borrowed value out.
    pub fn copied(self) -> (r: ErrorOption<T, E>)
        where
            T: Copy,
        ensures
            self matches Value(t) ==> r == Value::<T, E>(*t),
            self is Empty ==> r is Empty,
            self matches Error(e) ==> r == Error::<T, E>(e),
    {
        match self {
            Value(value) => Value(*value),
            Empty => Empty,
            Error(error) => Error(error),
        }
    }

    /// Clones a borrowed value out.
    pub fn cloned(self) -> (r: ErrorOption<T, E>)
        where
            T: Clone,
        ensures
            self matches Value(t) ==> r matches Value(c) && cloned::<T>(*t, c),
            self is Empty ==> r is Empty,
            self matches Error(e) ==> r == Error::<T, E>(e),
    {
        match self {
            Value(value) => Value(value.clone()),
            Empty => Empty,
            Error(error) => Error(error),
        }
    }
}

impl<T, E> ErrorOption<&mut T, E> {
    /// Copies a mutably borrowed value out.
    pub fn copied(self) -> (r: ErrorOption<T, E>)
        where
            T: Copy,
        ensures
            self matches Value(t) ==> r == Value::<T, E>(*t),
            self is Empty ==> r is Empty,
            self matches Error(e) ==> r == Error::<T, E>(e),
    {
        match self {
            Value(value) => Value(*value),
            Empty => Empty,
            Error(error) => Error(error),
        }
    }

    /// Clones a mutably borrowed value out.
    pub fn cloned(self) -> (r: ErrorOption<T, E>)
        where
            T: Clone,
        ensures
            self matches Value(t) ==> r matches Value(c) && cloned::<T>(*t, c),
            self is Empty ==> r is Empty,
            self matches Error(e) ==> r == Error::<T, E>(e),
    {
        match self {
            Value(value) => Value(value.clone()),
            Empty => Empty,
            Error(error) => Error(error),
        }
    }
}

/// Each variant answers `true` to its own predicate (`is_value`,
/// `is_empty`, `is_error`) and `false` to the two others.
pub proof fn lemma_variant_predicates<T, E>(t: T, e: E)
    ensures
        Value::<T, E>(t) is Value,
        !(Value::<T, E>(t) is Empty),
        !(Value::<T, E>(t) is Error),
        Empty::<T, E> is Empty,
        !(Empty::<T, E> is Value),
        !(Empty::<T, E> is Error),
        Error::<T, E>(e) is Error,
        !(Error::<T, E>(e) is Value),
        !(Error::<T, E>(e) is Empty),
{
}

/// A value taken out as an `Option` and put back with `get_or_insert` into
/// any `ErrorOption` without a value gives back the original.
pub proof fn lemma_option_round_trip<T, E>(x: ErrorOption<T, E>, y: ErrorOption<T, E>)
    requires
        x is Value,
        y !is Value,
    ensures
        x.value_opt() matches Some(t) && y.value_or_put(t) == x,
{
}

/// Reading an `ErrorOption` as a `Result` of an `Option` (as `result` does)
/// and building it back from that gives the original.
pub proof fn lemma_result_round_trip<T, E>(x: ErrorOption<T, E>)
    ensures
        match x.outcome() {
            Ok(Some(t)) => Value(t),
            Ok(None) => Empty,
            Err(e) => Error(e),
        } == x,
{
}

/// `switch` twice gives back the original.
pub proof fn lemma_switch_switch<T, E>(x: ErrorOption<T, E>)
    ensures
        x.switched().switched() == x,
{
}

impl<T: Clone, E: Clone> Clone for ErrorOption<T, E> {
    /// Clones whichever payload is present; `Empty` stays `Empty`.
    fn clone(&self) -> (r: Self)
        ensures
            *self matches Value(t) ==> r matches Value(c) && cloned::<T>(t, c),
            *self is Empty ==> r is Empty,
            *self matches Error(e) ==> r matches Error(c) && cloned::<E>(e, c),
    {
        match self {
            Value(value) => Value(value.clone()),
            Error(error) => Error(error.clone()),
            Empty => Empty,
        }
    }

    /// Clones `source` into `self`, reusing the payload in place where both
    /// hold the same variant.
    fn clone_from(&mut self, source: &Self)
        ensures
            *source matches Value(s) ==> *final(self) matches Value(d) && cloned::<T>(s, d),
            *source is Empty ==> *final(self) is Empty,
            *source matches Error(s) ==> *final(self) matches Error(d) && cloned::<E>(s, d),
    {
        match (self, source) {
            (Value(destination), Value(source)) => clone_in_place(destination, source),
            (Error(destination), Error(source)) => clone_in_place(destination, source),
            (destination, source) => *destination = source.clone(),
        }
    }
}

impl<T, E> Default for ErrorOption<T, E> {
    /// `Empty`.
    fn default() -> (r: ErrorOption<T, E>)
        ensures
            r is Empty,
    {
        Empty
    }
}

/// Iterator over a reference to the value of an [`ErrorOption`]; it yields
/// at most one item and then stays exhausted.
#[derive(Debug)]
pub struct Iter<'a, T: 'a> {
    inner: Option<&'a T>,
}

impl<'a, T> View for Iter<'a, T> {
    type V = Option<&'a T>;

    /// The item not yet yielded, if any.
    closed spec fn view(&self) -> Option<&'a T> {
        self.inner
    }
}

impl<'a, T> Iter<'a, T> {
    /// The item, if it has not been yielded yet; `None` from then on.
    pub fn next(&mut self) -> (r: Option<&'a T>)
        ensures
            r == old(self)@,
            final(self)@ is None,
    {
        self.inner.take()
    }

    /// The same as [`Iter::next`]: with at most one item, both ends meet.
    pub fn next_back(&mut self) -> (r: Option<&'a T>)
        ensures
            r == old(self)@,
            final(self)@ is None,
    {
        self.inner.take()
    }

    /// The exact number of items left, as lower and upper bound.
    pub fn size_hint(&self) -> (r: (usize, Option<usize>))
        ensures
            r == (if self@ is Some {
                (1usize, Some(1usize))
            } else {
                (0usize, Some(0usize))
            }),
    {
        let n: usize = if self.inner.is_some() {
            1
        } else {
            0
        };
        (n, Some(n))
    }
}

impl<T> Clone for Iter<'_, T> {
    /// An iterator with the same item left.
    fn clone(&self) -> (r: Self)
        ensures
            r@ == self@,
    {
        Iter { inner: self.inner }
    }
}

/// Iterator over a mutable reference to the value of an [`ErrorOption`]; it
/// yields at most one item and then stays exhausted.
#[derive(Debug)]
pub struct IterMut<'a, T: 'a> {
    inner: Option<&'a mut T>,
}

impl<'a, T> View for IterMut<'a, T> {
    type V = Option<&'a mut T>;

    /// The item not yet yielded, if any.
    closed spec fn view(&self) -> Option<&'a mut T> {
        self.inner
    }
}

impl<'a, T> IterMut<'a, T> {
    /// The item, if it has not been yielded yet; `None` from then on.
    pub fn next(&mut self) -> (r: Option<&'a mut T>)
        ensures
            r == old(self)@,
            final(self)@ is None,
    {
        self.inner.take()
    }

    /// The same as [`IterMut::next`]: with at most one item, both ends meet.
    pub fn next_back(&mut self) -> (r: Option<&'a mut T>)
        ensures
            r == old(self)@,
            final(self)@ is None,
    {
        self.inner.take()
    }

    /// The exact number of items left, as lower and upper bound.
    pub fn size_hint(&self) -> (r: (usize, Option<usize>))
        ensures
            r == (if self@ is Some {
                (1usize, Some(1usize))
            } else {
                (0usize, Some(0usize))
            }),
    {
        let n: usize = if self.inner.is_some() {
            1
        } else {
            0
        };
        (n, Some(n))
    }
}

/// Iterator that moves the value out of an [`ErrorOption`]; it yields at
/// most one item and then stays exhausted.
#[derive(Debug)]
pub struct IntoIter<T> {
    inner: Option<T>,
}

impl<T> View for IntoIter<T> {
    type V = Option<T>;

    /// The item not yet yielded, if any.
    closed spec fn view(&self) -> Option<T> {
        self.inner
    }
}

impl<T> IntoIter<T> {
    /// The item, if it has not been yielded yet; `None` from then on.
    pub fn next(&mut self) -> (r: Option<T>)
        ensures
            r == old(self)@,
            final(self)@ is None,
    {
        self.inner.take()
    }

    /// The same as [`IntoIter::next`]: with at most one item, both ends
    /// meet.
    pub fn next_back(&mut self) -> (r: Option<T>)
        ensures
            r == old(self)@,
            final(self)@ is None,
    {
        self.inner.take()
    }

    /// The exact number of items left, as lower and upper bound.
    pub fn size_hint(&self) -> (r: (usize, Option<usize>))
        ensures
            r == (if self@ is Some {
                (1usize, Some(1usize))
            } else {
                (0usize, Some(0usize))
            }),
    {
        let n: usize = if self.inner.is_some() {
            1
        } else {
            0
        };
        (n, Some(n))
    }
}

impl<T: Clone> Clone for IntoIter<T> {
    /// An iterator with a clone of the item left, if any.
    fn clone(&self) -> (r: Self)
        ensures
            self@ is None ==> r@ is None,
            self@ matches Some(t) ==> r@ matches Some(c) && cloned::<T>(t, c),
    {
        match &self.inner {
            Some(item) => IntoIter { inner: Some(item.clone()) },
            None => IntoIter { inner: None },
        }
    }
}

} // verus!
