//! Stored value representations.
//!
//! Between a setter call and construction, the builder stores, for each
//! field, how its value will eventually be obtained. Deferred and
//! asynchronous producers are represented here by their outcome: the
//! value the producer will return, or, for a producer composed with a
//! validator, the verdict the validator will reach. The construction
//! protocol consumes each representation exactly once, in field order.

use vstd::prelude::*;

verus! {

/// How one field's value is eventually obtained: `T` is the field's
/// type, `E` the error type of its validator.
pub enum Setter<T, E> {
    /// An immediate default, stored when the builder is created.
    Default(T),
    /// A default whose type is only known at construction time; it is
    /// re-evaluated there.
    LateBoundDefault(T),
    /// A value supplied by a setter call.
    Value(T),
    /// A deferred producer, represented by the value it will return.
    Lazy(T),
    /// A deferred producer composed with a validator, represented by the
    /// validator's verdict on the produced value.
    LazyValidated(Result<T, E>),
    /// An asynchronous producer, represented by the value it will
    /// resolve to.
    Async(T),
    /// An asynchronous producer composed with a validator, represented
    /// by the validator's verdict on the resolved value.
    AsyncValidated(Result<T, E>),
}

impl<T, E> Setter<T, E> {
    /// Whether construction must suspend on this representation.
    pub open spec fn spec_is_async(self) -> bool {
        self is Async || self is AsyncValidated
    }
}

/// The marker type carried by a builder that stores at least one
/// asynchronous producer: only the asynchronous construction entry point
/// accepts it.
pub struct AsyncBuilderMarker {}

/// The marker type carried by a builder that stores at least one
/// deferred validator: only the fallible construction entry point
/// accepts it.
pub struct HavingLazyValidator {}

} // verus!
