use nap::compile::{compile_schema, compile_variant, BindOp};
use nap::descriptor::{ParamRole, ParamShape};
use nap::schema::{Arg, ArgKind, ArgType, DeclaredType, FieldSpec, SchemaError, VariantSpec};

fn plain(leaf: &str) -> DeclaredType {
    DeclaredType { optional: false, leaf: leaf.to_string() }
}

fn wrapped(leaf: &str) -> DeclaredType {
    DeclaredType { optional: true, leaf: leaf.to_string() }
}

fn field(
    name: &str,
    ty: DeclaredType,
    tag_required: bool,
    tag_optional: bool,
    tag_flag: bool,
) -> FieldSpec {
    FieldSpec {
        name: name.to_string(),
        ty,
        tag_required,
        tag_optional,
        tag_flag,
        usage: None,
    }
}

fn variant(name: &str, fields: Vec<FieldSpec>) -> VariantSpec {
    VariantSpec { name: Some(name.to_string()), usage: None, fields }
}

#[test]
fn resolver_maps_supported_leaves() {
    assert_eq!(ArgType::from_type(&plain("String")), Some(ArgType::String));
    assert_eq!(ArgType::from_type(&plain("bool")), Some(ArgType::Bool));
    assert_eq!(ArgType::from_type(&plain("u32")), None);
    assert_eq!(ArgType::from_type(&wrapped("String")), Some(ArgType::String));
}

#[test]
fn resolver_wraps_optionality() {
    assert_eq!(ArgKind::from_type(&plain("String")), Some(ArgKind::Required(ArgType::String)));
    assert_eq!(ArgKind::from_type(&wrapped("bool")), Some(ArgKind::Optional(ArgType::Bool)));
    assert_eq!(ArgKind::from_type(&plain("f64")), None);
}

#[test]
fn classify_required_field() {
    let f = field("a", plain("String"), true, false, false);
    assert_eq!(ArgKind::from_field(&f), Ok(ArgKind::Required(ArgType::String)));
}

#[test]
fn classify_optional_field() {
    let f = field("a", wrapped("String"), false, true, false);
    assert_eq!(ArgKind::from_field(&f), Ok(ArgKind::Optional(ArgType::String)));
}

#[test]
fn classify_switch_and_value_flag() {
    let f = field("a", plain("bool"), false, false, true);
    assert_eq!(ArgKind::from_field(&f), Ok(ArgKind::Flag(None)));
    let g = field("b", wrapped("String"), false, false, true);
    assert_eq!(ArgKind::from_field(&g), Ok(ArgKind::Flag(Some(ArgType::String))));
}

#[test]
fn classify_precedence_required_over_flag() {
    // A field carrying both a required tag and a flag tag, with a plain
    // bool type, classifies as required of bool: required > optional > flag.
    let f = field("both", plain("bool"), true, false, true);
    assert_eq!(ArgKind::from_field(&f), Ok(ArgKind::Required(ArgType::Bool)));
}

#[test]
fn classify_precedence_all_three_tags() {
    let f = field("all", plain("String"), true, true, true);
    assert_eq!(ArgKind::from_field(&f), Ok(ArgKind::Required(ArgType::String)));
    let g = field("two", wrapped("bool"), false, true, true);
    assert_eq!(ArgKind::from_field(&g), Ok(ArgKind::Optional(ArgType::Bool)));
}

#[test]
fn classify_role_type_mismatches() {
    let f = field("a", wrapped("String"), true, false, false);
    assert_eq!(
        ArgKind::from_field(&f),
        Err(SchemaError::RequiredOptionalWrapped { field: "a".to_string() })
    );
    let g = field("b", plain("String"), false, true, false);
    assert_eq!(
        ArgKind::from_field(&g),
        Err(SchemaError::OptionalNotWrapped { field: "b".to_string() })
    );
    let h = field("c", plain("String"), false, false, true);
    assert_eq!(ArgKind::from_field(&h), Err(SchemaError::FlagBadType { field: "c".to_string() }));
}

#[test]
fn classify_unsupported_leaf_type() {
    let f = field("num", plain("u64"), true, false, false);
    assert_eq!(ArgKind::from_field(&f), Err(SchemaError::UnsupportedType { field: "num".to_string() }));
}

#[test]
fn classify_missing_role_tag() {
    let f = field("bare", plain("String"), false, false, false);
    assert_eq!(ArgKind::from_field(&f), Err(SchemaError::MissingRoleTag { field: "bare".to_string() }));
}

#[test]
fn arg_from_field_keeps_name_and_usage() {
    let mut f = field("card", plain("String"), true, false, false);
    f.usage = Some("the card".to_string());
    let a: Arg = Arg::from_field(&f).unwrap();
    assert_eq!(a.name, "card");
    assert_eq!(a.kind, ArgKind::Required(ArgType::String));
    assert_eq!(a.usage, Some("the card".to_string()));
}

#[test]
fn variant_compiles_in_declaration_order() {
    let v = variant(
        "demo",
        vec![
            field("first", plain("String"), true, false, false),
            field("second", wrapped("String"), false, true, false),
            field("loud", plain("bool"), false, false, true),
            field("tag", wrapped("String"), false, false, true),
        ],
    );
    let cv = compile_variant(&v).unwrap();
    assert_eq!(cv.signature.name, "demo");
    let roles: Vec<ParamRole> = cv.signature.params.iter().map(|p| p.role).collect();
    assert_eq!(
        roles,
        vec![
            ParamRole::RequiredPositional,
            ParamRole::OptionalPositional,
            ParamRole::Switch,
            ParamRole::NamedValueFlag,
        ]
    );
    let shapes: Vec<ParamShape> = cv.signature.params.iter().map(|p| p.shape).collect();
    assert_eq!(
        shapes,
        vec![ParamShape::String, ParamShape::String, ParamShape::Boolean, ParamShape::String]
    );
    assert_eq!(cv.binding.name, "demo");
    assert_eq!(cv.binding.steps.len(), 4);
    assert!(matches!(
        cv.binding.steps[0].op,
        BindOp::ReqPositional { ty: ArgType::String, index: 0 }
    ));
    assert!(matches!(
        cv.binding.steps[1].op,
        BindOp::OptPositional { ty: ArgType::String, index: 1 }
    ));
    assert!(matches!(cv.binding.steps[2].op, BindOp::Switch));
    assert!(matches!(cv.binding.steps[3].op, BindOp::NamedValue { ty: ArgType::String }));
}

#[test]
fn required_positionals_precede_all_others() {
    // Every required positional must come before every optional positional,
    // switch, and named-value flag in the compiled signature.
    let v = variant(
        "ordered",
        vec![
            field("a", plain("String"), true, false, false),
            field("b", plain("bool"), true, false, false),
            field("c", wrapped("String"), false, true, false),
            field("d", plain("bool"), false, false, true),
        ],
    );
    let cv = compile_variant(&v).unwrap();
    let first_non_required = cv
        .signature
        .params
        .iter()
        .position(|p| p.role != ParamRole::RequiredPositional)
        .unwrap();
    for (i, p) in cv.signature.params.iter().enumerate() {
        if p.role == ParamRole::RequiredPositional {
            assert!(i < first_non_required);
        }
    }
}

#[test]
fn required_after_optional_is_rejected() {
    // Declaring an optional field before a required one is an ordering
    // violation naming the required field.
    let v = variant(
        "bad",
        vec![
            field("name", wrapped("String"), false, true, false),
            field("id", plain("String"), true, false, false),
        ],
    );
    let errs = compile_variant(&v).unwrap_err();
    assert_eq!(errs, vec![SchemaError::OrderingViolation { field: "id".to_string() }]);
}

#[test]
fn required_after_flag_is_rejected() {
    let v = variant(
        "bad",
        vec![
            field("loud", plain("bool"), false, false, true),
            field("id", plain("String"), true, false, false),
        ],
    );
    let errs = compile_variant(&v).unwrap_err();
    assert_eq!(errs, vec![SchemaError::OrderingViolation { field: "id".to_string() }]);
}

#[test]
fn all_errors_are_collected() {
    let v = variant(
        "bad",
        vec![
            field("one", wrapped("String"), false, true, false),
            field("two", plain("String"), true, false, false),
            field("three", plain("u8"), true, false, false),
            field("four", plain("String"), false, false, false),
        ],
    );
    let errs = compile_variant(&v).unwrap_err();
    assert_eq!(
        errs,
        vec![
            SchemaError::OrderingViolation { field: "two".to_string() },
            SchemaError::UnsupportedType { field: "three".to_string() },
            SchemaError::MissingRoleTag { field: "four".to_string() },
        ]
    );
}

#[test]
fn missing_command_name_is_reported() {
    let v = VariantSpec {
        name: None,
        usage: None,
        fields: vec![field("a", plain("String"), true, false, false)],
    };
    let errs = compile_variant(&v).unwrap_err();
    assert_eq!(errs, vec![SchemaError::MissingCommandName]);
}

#[test]
fn duplicate_command_names_fail_compilation() {
    // Two variants named "x" must be rejected, not silently overwritten.
    let schema = vec![variant("x", vec![]), variant("x", vec![])];
    let errs = compile_schema(&schema).unwrap_err();
    assert_eq!(errs, vec![SchemaError::DuplicateCommandName { name: "x".to_string() }]);
}

#[test]
fn schema_reports_errors_across_variants() {
    let schema = vec![
        variant("good", vec![field("a", plain("String"), true, false, false)]),
        variant("bad", vec![field("b", plain("char"), true, false, false)]),
        variant("good", vec![]),
    ];
    let errs = compile_schema(&schema).unwrap_err();
    assert_eq!(
        errs,
        vec![
            SchemaError::UnsupportedType { field: "b".to_string() },
            SchemaError::DuplicateCommandName { name: "good".to_string() },
        ]
    );
}

#[test]
fn schema_signature_order_is_declaration_order() {
    let schema = vec![variant("zeta", vec![]), variant("alpha", vec![]), variant("mid", vec![])];
    let compiled = compile_schema(&schema).unwrap();
    let names: Vec<String> = compiled.signatures.iter().map(|s| s.name.clone()).collect();
    assert_eq!(names, vec!["zeta", "alpha", "mid"]);
    let binding_names: Vec<String> = compiled.bindings.iter().map(|b| b.name.clone()).collect();
    assert_eq!(binding_names, vec!["zeta", "alpha", "mid"]);
}

#[test]
fn usage_texts_carry_into_descriptors() {
    let mut f = field("who", plain("String"), true, false, false);
    f.usage = Some("who to greet".to_string());
    let v = VariantSpec {
        name: Some("greet".to_string()),
        usage: Some("Greets someone.".to_string()),
        fields: vec![f],
    };
    let cv = compile_variant(&v).unwrap();
    assert_eq!(cv.signature.usage, "Greets someone.");
    assert_eq!(cv.signature.params[0].usage, "who to greet");
    assert_eq!(cv.signature.params[0].name, "who");
}

#[test]
fn missing_usage_becomes_empty_text() {
    let v = variant("quiet", vec![field("a", plain("String"), true, false, false)]);
    let cv = compile_variant(&v).unwrap();
    assert_eq!(cv.signature.usage, "");
    assert_eq!(cv.signature.params[0].usage, "");
}
