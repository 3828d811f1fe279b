//! Type-level lists.
//!
//! A unary counter at the type level: `Nil` is zero, `Cons<T>` the
//! successor of `T`, and `Append` steps a list one element further. The
//! generated builder can use such a list to give every record a slot
//! tuple of its own length.

use vstd::prelude::*;

verus! {

/// The empty type-level list.
pub struct Nil;

/// A type-level list one element longer than `T`.
pub struct Cons<T>(pub T);

/// Extends a type-level list by one element.
pub trait Append: Sized {
    type Out;
}

impl Append for Nil {
    type Out = Cons<Nil>;
}

impl<T: Append> Append for Cons<T> {
    type Out = Cons<<T as Append>::Out>;
}

} // verus!
