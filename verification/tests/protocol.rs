//! The construction protocol: resolution order, validator gates,
//! defaults.

use builder_pattern::protocol::build_record;
use builder_pattern::protocol::build_record_async;
use builder_pattern::protocol::resolve_setter;
use builder_pattern::protocol::set_slot;
use builder_pattern::protocol::set_value_validated;
use builder_pattern::setter::Setter;

type S = Setter<String, &'static str>;

#[test]
fn values_and_lazy_producers_resolve_in_field_order() {
    let slots: Vec<S> = vec![
        Setter::LazyValidated(Ok(String::from("New York"))),
        Setter::Value(String::from("50")),
        Setter::Lazy(String::from("Jane Johanson")),
    ];
    let r = build_record(slots);
    assert_eq!(
        r,
        Ok(vec![
            String::from("New York"),
            String::from("50"),
            String::from("Jane Johanson"),
        ])
    );
}

#[test]
fn deferred_validator_failure_surfaces_at_build() {
    let slots: Vec<S> = vec![
        Setter::LazyValidated(Err("Name cannot be empty.")),
        Setter::Value(String::from("50")),
        Setter::Lazy(String::from("Jessica")),
    ];
    let r = build_record(slots);
    assert_eq!(r, Err("Name cannot be empty."));
}

#[test]
fn immediate_validator_failure_surfaces_at_the_setter() {
    let slots: Vec<Option<S>> = vec![None, None];
    let r = set_value_validated(slots, 0, Err("Value is empty"));
    assert!(r.is_err());
    assert_eq!(r.err(), Some("Value is empty"));
}

#[test]
fn immediate_validator_success_advances_the_slot() {
    let slots: Vec<Option<S>> = vec![None, None];
    let r = set_value_validated(slots, 0, Ok(String::from("foo"))).unwrap();
    assert!(matches!(r[0], Some(Setter::Value(ref v)) if v == "foo"));
    assert!(r[1].is_none());
}

#[test]
fn a_setter_rewrites_exactly_its_own_slot() {
    let slots: Vec<Option<S>> = vec![None, Some(Setter::Default(String::from("d"))), None];
    let slots = set_slot(slots, 2, Setter::Value(String::from("z")));
    assert!(slots[0].is_none());
    assert!(matches!(slots[1], Some(Setter::Default(ref v)) if v == "d"));
    assert!(matches!(slots[2], Some(Setter::Value(ref v)) if v == "z"));
}

#[test]
fn async_producers_resolve_in_declaration_order() {
    let slots: Vec<S> = vec![
        Setter::Async(String::from("x")),
        Setter::Value(String::from("mid")),
        Setter::Async(String::from("y")),
    ];
    let (r, trace) = build_record_async(slots);
    assert_eq!(
        r,
        Ok(vec![String::from("x"), String::from("mid"), String::from("y")])
    );
    assert_eq!(trace, vec![0, 2]);
}

#[test]
fn async_validator_failure_aborts_construction() {
    let slots: Vec<S> = vec![
        Setter::Value(String::from("4")),
        Setter::AsyncValidated(Err("Value is negative or zero.")),
        Setter::Value(String::from("1")),
    ];
    let (r, trace) = build_record_async(slots);
    assert_eq!(r, Err("Value is negative or zero."));
    assert_eq!(trace, vec![1]);
}

#[test]
fn late_bound_defaults_resolve_like_immediate_ones() {
    let slots: Vec<S> = vec![
        Setter::LateBoundDefault(String::from("|x| x")),
        Setter::Value(String::from("200")),
    ];
    let r = build_record(slots);
    assert_eq!(r, Ok(vec![String::from("|x| x"), String::from("200")]));
}

#[test]
fn each_representation_resolves_to_its_value() {
    let ok: Result<String, &'static str> = resolve_setter::<String, &'static str>(
        Setter::Default(String::from("v")),
    );
    assert_eq!(ok, Ok(String::from("v")));
    let err: Result<String, &'static str> = resolve_setter::<String, &'static str>(
        Setter::AsyncValidated(Err("no")),
    );
    assert_eq!(err, Err("no"));
}

#[test]
fn a_record_with_no_fields_builds_to_nothing() {
    let slots: Vec<S> = Vec::new();
    assert_eq!(build_record(slots), Ok(Vec::new()));
    let (r, trace) = build_record_async(Vec::<S>::new());
    assert_eq!(r, Ok(Vec::new()));
    assert!(trace.is_empty());
}
