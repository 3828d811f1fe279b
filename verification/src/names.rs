//! Synthesised identifiers.
//!
//! The generated companion type and its methods are named after the record
//! and its fields: the builder type appends `Builder` to the record's
//! name, the deferred and asynchronous setters append `_lazy` and `_async`
//! to the field's name, and each type-state slot gets a numbered generic
//! parameter.

use vstd::prelude::*;

verus! {

/// The character of the decimal digit `d`.
pub open spec fn spec_digit_char(d: nat) -> char {
    if d == 0 {
        '0'
    } else if d == 1 {
        '1'
    } else if d == 2 {
        '2'
    } else if d == 3 {
        '3'
    } else if d == 4 {
        '4'
    } else if d == 5 {
        '5'
    } else if d == 6 {
        '6'
    } else if d == 7 {
        '7'
    } else if d == 8 {
        '8'
    } else {
        '9'
    }
}

/// The decimal form of `n`, most significant digit first.
pub open spec fn spec_decimal(n: nat) -> Seq<char>
    decreases n,
{
    if n < 10 {
        seq![spec_digit_char(n)]
    } else {
        spec_decimal(n / 10).push(spec_digit_char(n % 10))
    }
}

fn digit_str(d: usize) -> (r: &'static str)
    requires
        d < 10,
    ensures
        r@ == seq![spec_digit_char(d as nat)],
{
    proof {
        reveal_strlit("0");
        reveal_strlit("1");
        reveal_strlit("2");
        reveal_strlit("3");
        reveal_strlit("4");
        reveal_strlit("5");
        reveal_strlit("6");
        reveal_strlit("7");
        reveal_strlit("8");
        reveal_strlit("9");
    }
    let r: &'static str = if d == 0 {
        "0"
    } else if d == 1 {
        "1"
    } else if d == 2 {
        "2"
    } else if d == 3 {
        "3"
    } else if d == 4 {
        "4"
    } else if d == 5 {
        "5"
    } else if d == 6 {
        "6"
    } else if d == 7 {
        "7"
    } else if d == 8 {
        "8"
    } else {
        "9"
    };
    proof {
        assert(r@ =~= seq![spec_digit_char(d as nat)]);
    }
    r
}

/// Renders `n` in decimal.
pub fn decimal_string(n: usize) -> (r: String)
    ensures
        r@ == spec_decimal(n as nat),
    decreases n,
{
    if n < 10 {
        digit_str(n).to_owned()
    } else {
        let rest = decimal_string(n / 10);
        let r = rest.concat(digit_str(n % 10));
        proof {
            assert(r@ =~= spec_decimal((n / 10) as nat).push(spec_digit_char((n % 10) as nat)));
        }
        r
    }
}

/// The name of the companion builder type for a record named `ident`.
pub open spec fn spec_builder_name(ident: Seq<char>) -> Seq<char> {
    ident + "Builder"@
}

/// Appends `Builder` to the record's name.
pub fn builder_name_of(ident: &String) -> (r: String)
    ensures
        r@ == spec_builder_name(ident@),
{
    ident.as_str().to_owned().concat("Builder")
}

/// The name of the deferred setter for a field named `ident`.
pub open spec fn spec_lazy_setter_name(ident: Seq<char>) -> Seq<char> {
    ident + "_lazy"@
}

/// Appends `_lazy` to the field's name.
pub fn lazy_setter_name(ident: &String) -> (r: String)
    ensures
        r@ == spec_lazy_setter_name(ident@),
{
    ident.as_str().to_owned().concat("_lazy")
}

/// The name of the asynchronous setter for a field named `ident`.
pub open spec fn spec_async_setter_name(ident: Seq<char>) -> Seq<char> {
    ident + "_async"@
}

/// Appends `_async` to the field's name.
pub fn async_setter_name(ident: &String) -> (r: String)
    ensures
        r@ == spec_async_setter_name(ident@),
{
    ident.as_str().to_owned().concat("_async")
}

/// The generic parameter standing for type-state slot `i` (the first slot
/// is numbered 1).
pub open spec fn spec_slot_param_name(i: nat) -> Seq<char> {
    "TyBuilderPattern"@ + spec_decimal(i)
}

/// Renders the name of the generic parameter of type-state slot `i`.
pub fn slot_param_name(i: usize) -> (r: String)
    ensures
        r@ == spec_slot_param_name(i as nat),
{
    let digits = decimal_string(i);
    let r = String::from_str("TyBuilderPattern").concat(digits.as_str());
    r
}

} // verus!
