//! Worked records.
//!
//! Two records with hand-written companion builders, shaped exactly as
//! the generator describes them: required slots start empty, optional
//! slots start pre-filled with their defaults, each setter consumes the
//! builder and rewrites its own slot, and construction demands that
//! every required slot is filled — here as a verified precondition, so
//! that an incomplete construction is rejected before the program runs.

use vstd::prelude::*;

verus! {

/// A record with two required fields (`a`, `d`) and two optional ones
/// (`b`, `c`).
pub struct Test {
    pub a: i32,
    pub b: String,
    pub c: Option<i32>,
    pub d: Option<String>,
}

/// The companion builder of [`Test`]: one slot per field in canonical
/// order.
pub struct TestBuilder {
    pub a: Option<i32>,
    pub b: Option<String>,
    pub c: Option<Option<i32>>,
    pub d: Option<Option<String>>,
}

impl Test {
    /// Creates the empty builder: required slots empty, optional slots
    /// pre-filled with their defaults (`b` an empty string, `c`
    /// nothing).
    pub fn new() -> (r: TestBuilder)
        ensures
            r.a is None,
            r.b matches Some(b) && b@ == Seq::<char>::empty(),
            r.c == Some(None::<i32>),
            r.d is None,
    {
        TestBuilder { a: None, b: Some(String::new()), c: Some(None), d: None }
    }
}

impl TestBuilder {
    /// Supplies the required field `a`.
    pub fn a(self, value: i32) -> (r: TestBuilder)
        ensures
            r.a == Some(value),
            r.b == self.b,
            r.c == self.c,
            r.d == self.d,
    {
        TestBuilder { a: Some(value), b: self.b, c: self.c, d: self.d }
    }

    /// Supplies the optional field `b`.
    pub fn b(self, value: String) -> (r: TestBuilder)
        ensures
            r.a == self.a,
            r.b == Some(value),
            r.c == self.c,
            r.d == self.d,
    {
        TestBuilder { a: self.a, b: Some(value), c: self.c, d: self.d }
    }

    /// Supplies the optional field `c`.
    pub fn c(self, value: Option<i32>) -> (r: TestBuilder)
        ensures
            r.a == self.a,
            r.b == self.b,
            r.c == Some(value),
            r.d == self.d,
    {
        TestBuilder { a: self.a, b: self.b, c: Some(value), d: self.d }
    }

    /// Supplies the required field `d`.
    pub fn d(self, value: Option<String>) -> (r: TestBuilder)
        ensures
            r.a == self.a,
            r.b == self.b,
            r.c == self.c,
            r.d == Some(value),
    {
        TestBuilder { a: self.a, b: self.b, c: self.c, d: Some(value) }
    }

    /// Assembles the record. Only a builder whose every slot is filled
    /// can be built: omitting a required field is rejected at
    /// verification time.
    pub fn build(self) -> (r: Test)
        requires
            self.a is Some,
            self.b is Some,
            self.c is Some,
            self.d is Some,
        ensures
            r.a == self.a->0,
            r.b == self.b->0,
            r.c == self.c->0,
            r.d == self.d->0,
    {
        Test {
            a: self.a.unwrap(),
            b: self.b.unwrap(),
            c: self.c.unwrap(),
            d: self.d.unwrap(),
        }
    }
}

/// Builds two records through the builder, in different field orders;
/// both constructions verify because every required slot is filled.
pub fn test() {
    let _t1 = Test::new().a(3).d(Some("foo".to_owned())).build();
    let _t2 = Test::new().a(3).d(Some("foo".to_owned())).c(Some(3)).build();
}

/// A small payload enumeration.
#[derive(PartialEq, Eq, Structural, Debug)]
pub enum MyEnum {
    A,
    B(i32),
}

/// A public record with two required fields (`a`, `d`) and two optional
/// ones (`b`, `c`).
#[derive(Debug)]
pub struct PublicTest {
    pub a: i32,
    pub b: String,
    pub c: Option<i32>,
    pub d: MyEnum,
}

/// The companion builder of [`PublicTest`].
pub struct PublicTestBuilder {
    pub a: Option<i32>,
    pub b: Option<String>,
    pub c: Option<Option<i32>>,
    pub d: Option<MyEnum>,
}

impl PublicTest {
    /// Creates the empty builder: `b` defaults to the empty string, `c`
    /// to three.
    pub fn new() -> (r: PublicTestBuilder)
        ensures
            r.a is None,
            r.b matches Some(b) && b@ == Seq::<char>::empty(),
            r.c == Some(Some(3i32)),
            r.d is None,
    {
        PublicTestBuilder { a: None, b: Some(String::new()), c: Some(Some(3)), d: None }
    }
}

impl PublicTestBuilder {
    /// Supplies the required field `a`.
    pub fn a(self, value: i32) -> (r: PublicTestBuilder)
        ensures
            r.a == Some(value),
            r.b == self.b,
            r.c == self.c,
            r.d == self.d,
    {
        PublicTestBuilder { a: Some(value), b: self.b, c: self.c, d: self.d }
    }

    /// Supplies the optional field `b`.
    pub fn b(self, value: String) -> (r: PublicTestBuilder)
        ensures
            r.a == self.a,
            r.b == Some(value),
            r.c == self.c,
            r.d == self.d,
    {
        PublicTestBuilder { a: self.a, b: Some(value), c: self.c, d: self.d }
    }

    /// Supplies the optional field `c`.
    pub fn c(self, value: Option<i32>) -> (r: PublicTestBuilder)
        ensures
            r.a == self.a,
            r.b == self.b,
            r.c == Some(value),
            r.d == self.d,
    {
        PublicTestBuilder { a: self.a, b: self.b, c: Some(value), d: self.d }
    }

    /// Supplies the required field `d`.
    pub fn d(self, value: MyEnum) -> (r: PublicTestBuilder)
        ensures
            r.a == self.a,
            r.b == self.b,
            r.c == self.c,
            r.d == Some(value),
    {
        PublicTestBuilder { a: self.a, b: self.b, c: self.c, d: Some(value) }
    }

    /// Assembles the record; every slot must be filled.
    pub fn build(self) -> (r: PublicTest)
        requires
            self.a is Some,
            self.b is Some,
            self.c is Some,
            self.d is Some,
        ensures
            r.a == self.a->0,
            r.b == self.b->0,
            r.c == self.c->0,
            r.d == self.d->0,
    {
        PublicTest {
            a: self.a.unwrap(),
            b: self.b.unwrap(),
            c: self.c.unwrap(),
            d: self.d.unwrap(),
        }
    }
}

} // verus!
