//! A type-equality witness.
//!
//! A value of `Id<S, T>` certifies that `S` and `T` are the same type: the
//! only constructor, [`refl`], produces `Id<T, T>`, and [`Id::sym`] swaps
//! the two sides. The generated builder code stores such a witness next to
//! a default value whose type mentions a generic parameter that may later
//! be re-instantiated.

use vstd::prelude::*;

verus! {

/// A witness that the types `S` and `T` are equal.
pub struct Id<S: ?Sized, T: ?Sized> {
    _s: core::marker::PhantomData<S>,
    _t: core::marker::PhantomData<T>,
}

/// The reflexivity witness: every type equals itself.
pub fn refl<T: ?Sized>() -> Id<T, T> {
    Id { _s: core::marker::PhantomData, _t: core::marker::PhantomData }
}

impl<S: ?Sized, T: ?Sized> Id<S, T> {
    /// Type equality is symmetric.
    pub fn sym(self) -> Id<T, S> {
        Id { _s: core::marker::PhantomData, _t: core::marker::PhantomData }
    }
}

} // verus!
