//! The generator: attribute folding, classification, names, and plans.

use builder_pattern::builder_impl::DefaultResolution;
use builder_pattern::functions::SetterKind;
use builder_pattern::functions::StoredKind;
use builder_pattern::infer::resolve_param;
use builder_pattern::infer::InferCall;
use builder_pattern::names::builder_name_of;
use builder_pattern::names::decimal_string;
use builder_pattern::names::slot_param_name;
use builder_pattern::schema::Attr;
use builder_pattern::schema::DefaultRule;
use builder_pattern::schema::FieldAttributes;
use builder_pattern::schema::FieldVisibility;
use builder_pattern::schema::SchemaError;
use builder_pattern::schema::Setters;
use builder_pattern::struct_input::GenericsDef;
use builder_pattern::struct_input::RawField;
use builder_pattern::struct_input::StructInput;
use builder_pattern::tokens::ident_add_underscore;
use builder_pattern::tokens::join_space;
use builder_pattern::tokens::replace_params_underscore;
use builder_pattern::tokens::Tok;

fn ident(s: &str) -> Tok {
    Tok::Ident(String::from(s))
}

fn other(s: &str) -> Tok {
    Tok::Other(String::from(s))
}

fn no_generics() -> GenericsDef {
    GenericsDef { params: Vec::new(), where_predicates: Vec::new() }
}

fn raw_field(name: &str, ty: Vec<Tok>, attrs: Vec<Attr>) -> RawField {
    RawField { vis: true, ident: String::from(name), ty, attrs }
}

fn tok_texts(toks: &[Tok]) -> Vec<String> {
    toks.iter()
        .map(|t| match t {
            Tok::Ident(s) => s.clone(),
            Tok::Other(s) => s.clone(),
        })
        .collect()
}

#[test]
fn empty_attribute_list_folds_to_the_defaults() {
    let a = FieldAttributes::from_attrs(&Vec::<Attr>::new()).unwrap();
    assert!(a.default.is_none());
    assert!(!a.use_into);
    assert!(a.validator.is_none());
    assert_eq!(
        a.setters,
        Setters { value: true, lazy: false, asynchronous: false }
    );
    assert_eq!(a.vis, FieldVisibility::Default);
    assert!(!a.late_bound_default);
}

#[test]
fn two_default_rules_are_a_schema_error() {
    let attrs = vec![Attr::Default(vec![other("5")]), Attr::DefaultLazy(vec![other("f")])];
    assert_eq!(
        FieldAttributes::from_attrs(&attrs).err(),
        Some(SchemaError::DuplicatedDefault)
    );
}

#[test]
fn an_async_default_is_rejected() {
    let attrs = vec![Attr::DefaultAsync(vec![other("f")])];
    assert_eq!(
        FieldAttributes::from_attrs(&attrs).err(),
        Some(SchemaError::AsyncDefaultUnsupported)
    );
}

#[test]
fn hidden_requires_a_default() {
    let attrs = vec![Attr::Hidden];
    assert_eq!(
        FieldAttributes::from_attrs(&attrs).err(),
        Some(SchemaError::HiddenWithoutDefault)
    );
    let attrs = vec![Attr::Hidden, Attr::Default(vec![other("5")])];
    let a = FieldAttributes::from_attrs(&attrs).unwrap();
    assert_eq!(a.vis, FieldVisibility::Hidden);
    assert!(a.late_bound_default);
}

#[test]
fn repeated_visibility_overrides_are_schema_errors() {
    let attrs = vec![Attr::Public, Attr::Public];
    assert_eq!(
        FieldAttributes::from_attrs(&attrs).err(),
        Some(SchemaError::DuplicatedPublic)
    );
    let attrs = vec![Attr::Public, Attr::Hidden];
    assert_eq!(
        FieldAttributes::from_attrs(&attrs).err(),
        Some(SchemaError::DuplicatedHidden)
    );
}

#[test]
fn doc_lines_are_collected_in_order() {
    let attrs = vec![
        Attr::Doc(String::from(" one")),
        Attr::Into,
        Attr::Doc(String::from(" two")),
    ];
    let a = FieldAttributes::from_attrs(&attrs).unwrap();
    assert!(a.use_into);
    assert_eq!(a.documents, vec![String::from(" one"), String::from(" two")]);
}

#[test]
fn fields_are_partitioned_and_sorted() {
    let fields = vec![
        raw_field("name", vec![ident("String")], vec![Attr::Into]),
        raw_field("age", vec![ident("u8")], vec![Attr::Default(vec![other("19")])]),
        raw_field("city", vec![ident("String")], vec![]),
    ];
    let input = StructInput::new(true, String::from("Person"), no_generics(), fields).unwrap();
    let required: Vec<String> = input.required_fields.iter().map(|f| f.ident.clone()).collect();
    let optional: Vec<String> = input.optional_fields.iter().map(|f| f.ident.clone()).collect();
    assert_eq!(required, vec![String::from("city"), String::from("name")]);
    assert_eq!(optional, vec![String::from("age")]);
}

#[test]
fn a_field_schema_error_aborts_the_record() {
    let fields = vec![
        raw_field("a", vec![ident("i32")], vec![]),
        raw_field("b", vec![ident("i32")], vec![Attr::Hidden]),
    ];
    let r = StructInput::new(true, String::from("Broken"), no_generics(), fields);
    assert_eq!(r.err(), Some(SchemaError::HiddenWithoutDefault));
}

#[test]
fn names_are_synthesised_from_the_record() {
    assert_eq!(builder_name_of(&String::from("Person")).as_str(), "PersonBuilder");
    assert_eq!(decimal_string(0).as_str(), "0");
    assert_eq!(decimal_string(12).as_str(), "12");
    assert_eq!(decimal_string(90210).as_str(), "90210");
    assert_eq!(slot_param_name(1).as_str(), "TyBuilderPattern1");
    assert_eq!(slot_param_name(12).as_str(), "TyBuilderPattern12");
    assert_eq!(ident_add_underscore(&String::from("T")).as_str(), "T_");
}

#[test]
fn identifier_replacement_marks_only_the_listed_names() {
    let stream = vec![ident("Option"), other("<"), ident("T"), other(">")];
    let replaced = replace_params_underscore(&stream, &vec![String::from("T")]);
    assert_eq!(tok_texts(&replaced), vec!["Option", "<", "T_", ">"]);
    assert_eq!(join_space(&replaced).as_str(), "Option < T_ >");
}

#[test]
fn setter_variants_follow_the_mode_list() {
    // a field accepting conversion, with a validator, in all three modes
    let fields = vec![raw_field(
        "a",
        vec![ident("String")],
        vec![
            Attr::Into,
            Attr::Validator(vec![ident("is_empty")]),
            Attr::Setter(Setters { value: true, lazy: true, asynchronous: true }),
        ],
    )];
    let input = StructInput::new(true, String::from("Test"), no_generics(), fields).unwrap();
    let methods = input.setter_methods();
    assert_eq!(methods.len(), 3);

    assert_eq!(methods[0].method_ident.as_str(), "a");
    assert_eq!(methods[0].kind, SetterKind::Value);
    assert!(methods[0].fallible);
    assert_eq!(methods[0].stores, StoredKind::Value);
    assert!(methods[0].use_into);
    assert!(!methods[0].sets_lazy_validator_marker);

    assert_eq!(methods[1].method_ident.as_str(), "a_lazy");
    assert_eq!(methods[1].kind, SetterKind::Lazy);
    assert!(!methods[1].fallible);
    assert_eq!(methods[1].stores, StoredKind::LazyValidated);
    assert!(methods[1].sets_lazy_validator_marker);

    assert_eq!(methods[2].method_ident.as_str(), "a_async");
    assert_eq!(methods[2].kind, SetterKind::Async);
    assert_eq!(methods[2].stores, StoredKind::AsyncValidated);
    assert!(methods[2].sets_async_marker);
    assert!(methods[2].sets_lazy_validator_marker);
}

#[test]
fn a_hidden_field_gets_no_setter() {
    let fields = vec![
        raw_field("id", vec![ident("u64")], vec![
            Attr::Default(vec![other("0")]),
            Attr::Hidden,
        ]),
        raw_field("name", vec![ident("String")], vec![]),
    ];
    let input = StructInput::new(true, String::from("Test"), no_generics(), fields).unwrap();
    let methods = input.setter_methods();
    assert_eq!(methods.len(), 1);
    assert_eq!(methods[0].method_ident.as_str(), "name");
    assert_eq!(methods[0].slot_index, 0);
}

#[test]
fn build_plan_decides_the_entry_points() {
    // one required field settable by value or asynchronously, two
    // optional validated fields, one of them async-only
    let fields = vec![
        raw_field("a", vec![ident("i32")], vec![Attr::Setter(Setters {
            value: true,
            lazy: false,
            asynchronous: true,
        })]),
        raw_field("b", vec![ident("i32")], vec![
            Attr::Default(vec![other("-"), other("5")]),
            Attr::Validator(vec![ident("is_positive")]),
            Attr::Setter(Setters { value: false, lazy: false, asynchronous: true }),
        ]),
        raw_field("c", vec![ident("i32")], vec![
            Attr::Default(vec![other("-"), other("1")]),
            Attr::Validator(vec![ident("is_positive")]),
            Attr::Setter(Setters { value: true, lazy: false, asynchronous: true }),
        ]),
    ];
    let input = StructInput::new(true, String::from("Test"), no_generics(), fields).unwrap();
    let plan = input.build_plan();
    assert!(plan.emit_sync);
    assert!(plan.emit_async);
    assert!(plan.fallible);
    assert_eq!(plan.resolutions.len(), 3);
    assert_eq!(plan.resolutions[0].ident.as_str(), "a");
    assert!(plan.resolutions[0].default.is_none());
    assert!(plan.resolutions[0].is_async);
    assert!(!plan.resolutions[0].deferred_validated);
    assert_eq!(plan.resolutions[1].ident.as_str(), "b");
    assert!(matches!(plan.resolutions[1].default, Some(DefaultResolution::Immediate(_))));
    assert!(plan.resolutions[1].deferred_validated);
}

#[test]
fn a_record_without_sync_setters_builds_only_asynchronously() {
    let fields = vec![raw_field("a", vec![ident("i32")], vec![Attr::Setter(Setters {
        value: false,
        lazy: false,
        asynchronous: true,
    })])];
    let input = StructInput::new(true, String::from("Test"), no_generics(), fields).unwrap();
    let plan = input.build_plan();
    assert!(!plan.emit_sync);
    assert!(plan.emit_async);
    assert!(!plan.fallible);
}

#[test]
fn a_lazy_default_with_a_validator_makes_construction_fallible() {
    let fields = vec![raw_field("address", vec![ident("str")], vec![
        Attr::DefaultLazy(vec![other("||"), other("\"Seoul\"")]),
        Attr::Setter(Setters { value: false, lazy: true, asynchronous: false }),
        Attr::Validator(vec![ident("is_not_empty")]),
    ])];
    let input = StructInput::new(true, String::from("Person"), no_generics(), fields).unwrap();
    let plan = input.build_plan();
    assert!(plan.emit_sync);
    assert!(!plan.emit_async);
    assert!(plan.fallible);
    assert!(matches!(plan.resolutions[0].default, Some(DefaultResolution::Invoke(_))));
}

#[test]
fn inference_takes_the_last_call_on_an_inferring_field() {
    // a record with one inferable field and one ordinary field
    let fields = vec![
        raw_field("a", vec![ident("Option"), other("<"), ident("T"), other(">")], vec![
            Attr::Infer(vec![String::from("T")]),
        ]),
        raw_field("b", vec![ident("i32")], vec![]),
    ];
    let input = StructInput::new(true, String::from("Op"), no_generics(), fields).unwrap();
    let default_ty = vec![ident("f64")];
    let p = String::from("T");

    // no call on the inferring field: the default stands
    let calls = vec![InferCall { field_index: 1, arg_ty: vec![ident("i32")] }];
    let r = resolve_param(&input.required_fields, &default_ty, &p, &calls);
    assert_eq!(tok_texts(&r), vec!["f64"]);

    // the inferring field is set: its argument type wins, in any order
    let calls1 = vec![
        InferCall { field_index: 0, arg_ty: vec![ident("i32")] },
        InferCall { field_index: 1, arg_ty: vec![ident("u8")] },
    ];
    let calls2 = vec![
        InferCall { field_index: 1, arg_ty: vec![ident("u8")] },
        InferCall { field_index: 0, arg_ty: vec![ident("i32")] },
    ];
    let r1 = resolve_param(&input.required_fields, &default_ty, &p, &calls1);
    let r2 = resolve_param(&input.required_fields, &default_ty, &p, &calls2);
    assert_eq!(tok_texts(&r1), vec!["i32"]);
    assert_eq!(tok_texts(&r2), vec!["i32"]);

    // re-setting the inferring field changes the type again
    let calls3 = vec![
        InferCall { field_index: 0, arg_ty: vec![ident("i32")] },
        InferCall { field_index: 0, arg_ty: vec![ident("u16")] },
    ];
    let r3 = resolve_param(&input.required_fields, &default_ty, &p, &calls3);
    assert_eq!(tok_texts(&r3), vec!["u16"]);
}

#[test]
fn default_rules_survive_the_fold() {
    let attrs = vec![Attr::DefaultLazy(vec![ident("some_heavy_task")])];
    let a = FieldAttributes::from_attrs(&attrs).unwrap();
    assert!(matches!(a.default, Some(DefaultRule::Lazy(_))));
    let attrs = vec![Attr::Default(vec![other("5")])];
    let a = FieldAttributes::from_attrs(&attrs).unwrap();
    assert!(matches!(a.default, Some(DefaultRule::Immediate(_))));
}
