//! Unambiguous result types: sum types that extend `Option` and `Result`.
//!
//! - [`double::Double`]: one of two values, with no side preferred.
//! - [`doubleoption::DoubleOption`]: one of two values, or nothing.
//! - [`erroroption::ErrorOption`]: a value, nothing, or an error.

use vstd::prelude::*;

/// The `ErrorOption` enum: `Result` and `Option` in one, with variants
/// `Value`, `Empty` and `Error`.
pub mod erroroption;
/// The `Double` enum: an unopinionated `Result` with variants `This` and `That`.
pub mod double;
/// The `DoubleOption` enum: an `Option` with a second kind of value.
pub mod doubleoption;

verus! {

/// Relies on `Clone::clone_from`, which std documents as equivalent to
/// `*dst = src.clone()` while it may reuse the resources of `dst`.
#[verifier::external_body]
pub(crate) fn clone_in_place<T: Clone>(dst: &mut T, src: &T)
    ensures
        cloned::<T>(*src, *final(dst)),
{
    dst.clone_from(src)
}

} // verus!
