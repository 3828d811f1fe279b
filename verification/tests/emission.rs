//! Rendering: generic parameter lists, builder fields, documentation.

use builder_pattern::schema::Attr;
use builder_pattern::struct_input::ConstParamDef;
use builder_pattern::struct_input::GenericParamDef;
use builder_pattern::struct_input::GenericsDef;
use builder_pattern::struct_input::LifetimeDef;
use builder_pattern::struct_input::RawField;
use builder_pattern::struct_input::StructInput;
use builder_pattern::struct_input::TypeParamDef;
use builder_pattern::struct_input::WherePredicateDef;
use builder_pattern::tokens::join_space;
use builder_pattern::tokens::Tok;
use builder_pattern::typestate::SlotTy;

fn ident(s: &str) -> Tok {
    Tok::Ident(String::from(s))
}

fn other(s: &str) -> Tok {
    Tok::Other(String::from(s))
}

fn texts(toks: &[Tok]) -> String {
    join_space(&toks.to_vec())
}

fn sample_generics() -> GenericsDef {
    GenericsDef {
        params: vec![
            GenericParamDef::Lifetime(LifetimeDef {
                name: String::from("'a"),
                bounds: Vec::new(),
            }),
            GenericParamDef::Type(TypeParamDef {
                ident: String::from("T"),
                bounds: vec![ident("Sized")],
                default: None,
            }),
            GenericParamDef::Type(TypeParamDef {
                ident: String::from("U"),
                bounds: Vec::new(),
                default: Some(vec![ident("f64")]),
            }),
            GenericParamDef::Const(ConstParamDef {
                ident: String::from("N"),
                ty: vec![ident("usize")],
            }),
        ],
        where_predicates: vec![WherePredicateDef {
            bounded: vec![ident("U")],
            bounds: vec![ident("Clone")],
        }],
    }
}

fn sample_input() -> StructInput {
    let fields = vec![
        RawField {
            vis: true,
            ident: String::from("a"),
            ty: vec![ident("T")],
            attrs: Vec::new(),
        },
        RawField {
            vis: true,
            ident: String::from("b"),
            ty: vec![ident("U")],
            attrs: vec![Attr::Default(vec![other("5")])],
        },
    ];
    StructInput::new(true, String::from("Wide"), sample_generics(), fields).unwrap()
}

#[test]
fn type_positions_keep_type_and_const_parameters() {
    let input = sample_input();
    let rendered = input.tokenize_types(&Vec::new(), false);
    assert_eq!(texts(&rendered).as_str(), "T , U , N ,");
}

#[test]
fn replaced_type_parameters_are_renamed_or_omitted() {
    let input = sample_input();
    let replace = vec![String::from("U")];
    let renamed = input.tokenize_types(&replace, false);
    assert_eq!(texts(&renamed).as_str(), "T , U_ , N ,");
    let omitted = input.tokenize_types(&replace, true);
    assert_eq!(texts(&omitted).as_str(), "T , N ,");
}

#[test]
fn impl_headers_keep_lifetimes_and_bounds() {
    let input = sample_input();
    let rendered = input.tokenize_impl(&Vec::new());
    assert_eq!(texts(&rendered).as_str(), "'a , T : Sized , U , const N : usize ,");
    let filtered = input.tokenize_impl(&vec![String::from("U")]);
    assert_eq!(texts(&filtered).as_str(), "'a , T : Sized , const N : usize ,");
}

#[test]
fn setter_where_clauses_restate_single_identifier_predicates() {
    let input = sample_input();
    let rendered = input.setter_where_clause(&vec![String::from("U")]);
    assert_eq!(texts(&rendered).as_str(), "where U_ : Clone ,");
    let empty = input.setter_where_clause(&Vec::new());
    assert_eq!(texts(&empty).as_str(), "");
}

#[test]
fn defaulted_parameters_resolve_left_to_right() {
    let input = sample_input();
    let names = input.defaulted_generics();
    assert_eq!(names.len(), 1);
    assert_eq!(names[0].as_str(), "U");
    let bindings = input.defaulted_bindings();
    assert_eq!(bindings.len(), 1);
    assert_eq!(bindings[0].name.as_str(), "U");
    assert_eq!(texts(&bindings[0].replacement).as_str(), "f64");
    let target = input.new_fn_target_types();
    assert_eq!(texts(&target).as_str(), "T , f64 , N ,");
}

#[test]
fn builder_fields_carry_the_defaulted_storage_type() {
    let input = sample_input();
    let fields = input.builder_fields();
    assert_eq!(fields.len(), 2);
    assert_eq!(fields[0].ident.as_str(), "a");
    assert_eq!(texts(&fields[0].ty).as_str(), "T");
    assert_eq!(texts(&fields[0].default_ty).as_str(), "T");
    assert_eq!(fields[1].ident.as_str(), "b");
    assert_eq!(texts(&fields[1].ty).as_str(), "U");
    assert_eq!(texts(&fields[1].default_ty).as_str(), "f64");
}

#[test]
fn slot_lists_encode_the_type_state() {
    let input = sample_input();
    let empty = input.empty_generics();
    assert_eq!(empty.len(), 2);
    assert!(matches!(empty[0], SlotTy::Unset));
    assert!(matches!(empty[1], SlotTy::Unset));

    let satisfied = input.satisfied_generics();
    assert!(matches!(satisfied[0], SlotTy::Concrete(ref t) if texts(t).as_str() == "T"));
    assert!(matches!(satisfied[1], SlotTy::Var(ref n) if n.as_str() == "TyBuilderPattern2"));

    let optional = input.optional_generics();
    assert_eq!(optional.len(), 1);
    assert!(matches!(optional[0], SlotTy::Var(ref n) if n.as_str() == "TyBuilderPattern2"));

    let (o, b, a) = input.get_generics(0, vec![ident("T")]);
    assert_eq!(o.len(), 1);
    assert!(matches!(o[0], SlotTy::Var(ref n) if n.as_str() == "TyBuilderPattern2"));
    assert!(matches!(b[0], SlotTy::Unset));
    assert!(matches!(b[1], SlotTy::Var(ref n) if n.as_str() == "TyBuilderPattern2"));
    assert!(matches!(a[0], SlotTy::Concrete(ref t) if texts(t).as_str() == "T"));
}

#[test]
fn setter_documentation_summarises_type_and_default() {
    let fields = vec![RawField {
        vis: true,
        ident: String::from("age"),
        ty: vec![ident("u8")],
        attrs: vec![
            Attr::Doc(String::from(" Age of the person.")),
            Attr::Default(vec![other("19")]),
        ],
    }];
    let input = StructInput::new(true, String::from("Person"), GenericsDef {
        params: Vec::new(),
        where_predicates: Vec::new(),
    }, fields)
        .unwrap();
    let docs = input.optional_fields[0].setter_documents();
    assert_eq!(docs[0].as_str(), " # age\n - Type: `u8`\n - Default: `19`\n\n");
    assert_eq!(docs[1].as_str(), " Age of the person.");
}

#[test]
fn new_documentation_lists_both_partitions() {
    let input = sample_input();
    let docs = input.new_documents();
    assert_eq!(docs[0].as_str(), " Creating a builder.");
    assert_eq!(docs[1].as_str(), " ## Required Fields");
    assert_eq!(docs[2].as_str(), " ### `a`\n - Type: `T`\n\n");
    assert_eq!(docs[3].as_str(), " ## Optional Fields");
    assert_eq!(docs[4].as_str(), " ### `b`\n - Type: `U`\n - Default: `5`\n\n");
}

#[test]
fn into_fields_document_the_conversion() {
    let fields = vec![RawField {
        vis: true,
        ident: String::from("name"),
        ty: vec![ident("String")],
        attrs: vec![Attr::Into],
    }];
    let input = StructInput::new(true, String::from("Test"), GenericsDef {
        params: Vec::new(),
        where_predicates: Vec::new(),
    }, fields)
        .unwrap();
    assert_eq!(
        input.required_fields[0].type_documents().as_str(),
        "Into<String>"
    );
}

#[test]
fn the_generator_runs_end_to_end() {
    let input = sample_input();
    let generated = builder_pattern::generate::generate(&input);
    assert_eq!(generated.builder_ident.as_str(), "WideBuilder");
    assert_eq!(generated.builder_fields.len(), 2);
    assert_eq!(generated.setters.len(), 2);
    assert_eq!(generated.init_args.len(), 2);
    assert!(generated.build.emit_sync);
    assert!(!generated.build.emit_async);
    assert!(!generated.build.fallible);
}

#[test]
fn an_empty_record_still_gets_a_builder() {
    let input = StructInput::new(true, String::from("Unit"), GenericsDef {
        params: Vec::new(),
        where_predicates: Vec::new(),
    }, Vec::new())
        .unwrap();
    assert_eq!(input.builder_name().as_str(), "UnitBuilder");
    assert_eq!(input.all_generics().len(), 0);
    assert_eq!(input.setter_methods().len(), 0);
    let plan = input.build_plan();
    assert!(plan.emit_sync);
    assert!(!plan.emit_async);
    assert!(!plan.fallible);
    assert_eq!(plan.resolutions.len(), 0);
}

#[test]
fn fields_with_equal_names_are_all_kept() {
    let fields = vec![
        RawField { vis: true, ident: String::from("x"), ty: vec![ident("i32")], attrs: Vec::new() },
        RawField { vis: true, ident: String::from("x"), ty: vec![ident("u8")], attrs: Vec::new() },
    ];
    let input = StructInput::new(true, String::from("Twice"), GenericsDef {
        params: Vec::new(),
        where_predicates: Vec::new(),
    }, fields)
        .unwrap();
    assert_eq!(input.required_fields.len(), 2);
    assert_eq!(input.required_fields[0].ident.as_str(), "x");
    assert_eq!(input.required_fields[1].ident.as_str(), "x");
}

#[test]
fn lifetimes_are_listed_without_their_bounds() {
    let input = sample_input();
    let lifetimes = input.lifetimes();
    assert_eq!(lifetimes, vec![String::from("'a")]);
    assert_eq!(input.fn_lifetime().as_str(), "'fn_lifetime");
}
