use nap::call::{parse, BoundValue, CallError, FlagInput, ParsedCall, RawValue};
use nap::compile::{compile_schema, CompiledSchema};
use nap::dispatch::{CommandHandler, HandlerError, RunError, RuntimeDispatcher};
use nap::plugins::{mtg_schema, syn_schema, MtgPlugin, SynPlugin};
use nap::schema::{DeclaredType, FieldSpec, VariantSpec};
use nap::values::DataValue;

fn field(
    name: &str,
    optional: bool,
    leaf: &str,
    tag_required: bool,
    tag_optional: bool,
    tag_flag: bool,
) -> FieldSpec {
    FieldSpec {
        name: name.to_string(),
        ty: DeclaredType { optional, leaf: leaf.to_string() },
        tag_required,
        tag_optional,
        tag_flag,
        usage: None,
    }
}

fn demo_schema() -> CompiledSchema {
    let schema = vec![VariantSpec {
        name: Some("demo".to_string()),
        usage: None,
        fields: vec![
            field("first", false, "String", true, false, false),
            field("second", true, "String", false, true, false),
            field("loud", false, "bool", false, false, true),
            field("tag", true, "String", false, false, true),
        ],
    }];
    compile_schema(&schema).unwrap()
}

fn str_raw(s: &str) -> RawValue {
    RawValue::Str(s.to_string())
}

fn flag(name: &str, value: Option<RawValue>) -> FlagInput {
    FlagInput { name: name.to_string(), value }
}

fn arg_values(p: &ParsedCall) -> Vec<(String, BoundValue)> {
    p.args.iter().map(|a| (a.name.clone(), a.value.clone())).collect()
}

#[test]
fn unknown_command_name_is_a_call_error() {
    // An unknown name yields a call error, never a fatal abort.
    let compiled = compile_schema(&vec![]).unwrap();
    let r = parse(&compiled, &"nonexistent".to_string(), &vec![], &vec![]);
    assert_eq!(r.unwrap_err(), CallError::UnknownCommandName);

    let compiled = demo_schema();
    let r = parse(&compiled, &"nonexistent".to_string(), &vec![], &vec![]);
    assert_eq!(r.unwrap_err(), CallError::UnknownCommandName);
}

#[test]
fn parse_binds_all_argument_kinds() {
    let compiled = demo_schema();
    let p = parse(
        &compiled,
        &"demo".to_string(),
        &vec![str_raw("alpha"), str_raw("beta")],
        &vec![flag("loud", Some(RawValue::Bool(true))), flag("tag", Some(str_raw("blue")))],
    )
    .unwrap();
    assert_eq!(p.name, "demo");
    assert_eq!(
        arg_values(&p),
        vec![
            ("first".to_string(), BoundValue::Str("alpha".to_string())),
            ("second".to_string(), BoundValue::MaybeStr(Some("beta".to_string()))),
            ("loud".to_string(), BoundValue::Bool(true)),
            ("tag".to_string(), BoundValue::MaybeStr(Some("blue".to_string()))),
        ]
    );
}

#[test]
fn parse_defaults_absent_values() {
    let compiled = demo_schema();
    let p = parse(&compiled, &"demo".to_string(), &vec![str_raw("alpha")], &vec![]).unwrap();
    assert_eq!(
        arg_values(&p),
        vec![
            ("first".to_string(), BoundValue::Str("alpha".to_string())),
            ("second".to_string(), BoundValue::MaybeStr(None)),
            ("loud".to_string(), BoundValue::Bool(false)),
            ("tag".to_string(), BoundValue::MaybeStr(None)),
        ]
    );
}

#[test]
fn parse_reports_missing_required_positional() {
    let compiled = demo_schema();
    let r = parse(&compiled, &"demo".to_string(), &vec![], &vec![]);
    assert_eq!(r.unwrap_err(), CallError::MissingRequiredPositional { field: "first".to_string() });
}

#[test]
fn parse_reports_positional_type_mismatch() {
    let compiled = demo_schema();
    let r = parse(&compiled, &"demo".to_string(), &vec![RawValue::Bool(true)], &vec![]);
    assert_eq!(r.unwrap_err(), CallError::PositionalTypeMismatch { field: "first".to_string() });
}

#[test]
fn parse_reports_flag_type_mismatch() {
    let compiled = demo_schema();
    // A switch given a string value fails its type check.
    let r = parse(
        &compiled,
        &"demo".to_string(),
        &vec![str_raw("alpha")],
        &vec![flag("loud", Some(str_raw("yes")))],
    );
    assert_eq!(r.unwrap_err(), CallError::FlagTypeMismatch { field: "loud".to_string() });
    // A value-carrying flag given a boolean fails its type check.
    let r = parse(
        &compiled,
        &"demo".to_string(),
        &vec![str_raw("alpha")],
        &vec![flag("tag", Some(RawValue::Bool(true)))],
    );
    assert_eq!(r.unwrap_err(), CallError::FlagTypeMismatch { field: "tag".to_string() });
    // A value-carrying flag supplied bare fails its type check.
    let r = parse(
        &compiled,
        &"demo".to_string(),
        &vec![str_raw("alpha")],
        &vec![flag("tag", None)],
    );
    assert_eq!(r.unwrap_err(), CallError::FlagTypeMismatch { field: "tag".to_string() });
}

#[test]
fn bare_switch_means_true() {
    let compiled = demo_schema();
    let p = parse(
        &compiled,
        &"demo".to_string(),
        &vec![str_raw("alpha")],
        &vec![flag("loud", None)],
    )
    .unwrap();
    assert_eq!(arg_values(&p)[2], ("loud".to_string(), BoundValue::Bool(true)));
}

#[test]
fn round_trip_recovers_the_typed_value() {
    // Parsing a call built from a typed value's fields in canonical
    // positional/flag order recovers an identical typed value.
    let compiled = demo_schema();
    let positional = vec![str_raw("alpha"), str_raw("beta")];
    let flags = vec![
        flag("loud", Some(RawValue::Bool(false))),
        flag("tag", Some(str_raw("blue"))),
    ];
    let first = parse(&compiled, &"demo".to_string(), &positional, &flags).unwrap();
    // Rebuild the canonical call from the typed value and parse it again.
    let mut positional2: Vec<RawValue> = Vec::new();
    let mut flags2: Vec<FlagInput> = Vec::new();
    for a in &first.args {
        match &a.value {
            BoundValue::Str(s) => positional2.push(str_raw(s)),
            BoundValue::MaybeStr(Some(s)) if a.name == "second" => positional2.push(str_raw(s)),
            BoundValue::MaybeStr(Some(s)) => flags2.push(flag(&a.name, Some(str_raw(s)))),
            BoundValue::MaybeStr(None) => {}
            BoundValue::Bool(b) => flags2.push(flag(&a.name, Some(RawValue::Bool(*b)))),
            BoundValue::MaybeBool(Some(b)) => flags2.push(flag(&a.name, Some(RawValue::Bool(*b)))),
            BoundValue::MaybeBool(None) => {}
        }
    }
    let second = parse(&compiled, &"demo".to_string(), &positional2, &flags2).unwrap();
    assert_eq!(second.name, first.name);
    assert_eq!(arg_values(&second), arg_values(&first));
}

#[test]
fn tutor_example_compiles_and_parses() {
    // The "mtg tutor" variant compiles to a required String positional and
    // a switch, and a call with a card name and the fuzzy switch parses to
    // exactly those values.
    let compiled = compile_schema(&mtg_schema()).unwrap();
    let sig = &compiled.signatures[0];
    assert_eq!(sig.name, "mtg tutor");
    assert_eq!(sig.params.len(), 2);
    assert_eq!(sig.params[0].name, "card_name");
    assert_eq!(sig.params[0].role, nap::descriptor::ParamRole::RequiredPositional);
    assert_eq!(sig.params[0].shape, nap::descriptor::ParamShape::String);
    assert_eq!(sig.params[1].name, "fuzzy");
    assert_eq!(sig.params[1].role, nap::descriptor::ParamRole::Switch);

    let p = parse(
        &compiled,
        &"mtg tutor".to_string(),
        &vec![str_raw("Black Lotus")],
        &vec![flag("fuzzy", Some(RawValue::Bool(true)))],
    )
    .unwrap();
    assert_eq!(
        arg_values(&p),
        vec![
            ("card_name".to_string(), BoundValue::Str("Black Lotus".to_string())),
            ("fuzzy".to_string(), BoundValue::Bool(true)),
        ]
    );
    match MtgPlugin::from_call(&p) {
        Some(MtgPlugin::Tutor { card_name, fuzzy }) => {
            assert_eq!(card_name, "Black Lotus");
            assert!(fuzzy);
        }
        _ => panic!("expected the tutor command"),
    }
}

#[test]
fn search_command_parses_with_set_flag() {
    let compiled = compile_schema(&mtg_schema()).unwrap();
    let p = parse(
        &compiled,
        &"mtg search".to_string(),
        &vec![str_raw("Swamp")],
        &vec![flag("set", Some(str_raw("mh2")))],
    )
    .unwrap();
    match MtgPlugin::from_call(&p) {
        Some(MtgPlugin::Search { name, set }) => {
            assert_eq!(name, "Swamp");
            assert_eq!(set, Some("mh2".to_string()));
        }
        _ => panic!("expected the search command"),
    }
}

#[test]
fn note_commands_parse_to_typed_values() {
    let compiled = compile_schema(&syn_schema()).unwrap();
    let p = parse(&compiled, &"syn login".to_string(), &vec![str_raw("nas.home")], &vec![])
        .unwrap();
    match SynPlugin::from_call(&p) {
        Some(SynPlugin::Login { name }) => assert_eq!(name, "nas.home"),
        _ => panic!("expected the login command"),
    }
    let p = parse(&compiled, &"syn note info".to_string(), &vec![], &vec![]).unwrap();
    assert!(matches!(SynPlugin::from_call(&p), Some(SynPlugin::Info {})));
    let p = parse(&compiled, &"syn note list".to_string(), &vec![], &vec![]).unwrap();
    assert!(matches!(SynPlugin::from_call(&p), Some(SynPlugin::NoteList {})));
    let p = parse(&compiled, &"syn note get".to_string(), &vec![str_raw("n-7")], &vec![])
        .unwrap();
    match SynPlugin::from_call(&p) {
        Some(SynPlugin::NoteGet { id }) => assert_eq!(id, Some("n-7".to_string())),
        _ => panic!("expected the note-get command"),
    }
    let p = parse(&compiled, &"syn note get".to_string(), &vec![], &vec![]).unwrap();
    match SynPlugin::from_call(&p) {
        Some(SynPlugin::NoteGet { id }) => assert_eq!(id, None),
        _ => panic!("expected the note-get command"),
    }
}

#[test]
fn from_call_rejects_foreign_calls() {
    let compiled = demo_schema();
    let p = parse(&compiled, &"demo".to_string(), &vec![str_raw("a")], &vec![]).unwrap();
    assert!(MtgPlugin::from_call(&p).is_none());
    assert!(SynPlugin::from_call(&p).is_none());
}

#[test]
fn call_error_labels() {
    assert_eq!(CallError::UnknownCommandName.label(), "unknown command name");
    assert_eq!(
        CallError::MissingRequiredPositional { field: "x".to_string() }.label(),
        "missing required positional value"
    );
    assert_eq!(
        CallError::PositionalTypeMismatch { field: "x".to_string() }.label(),
        "positional value failing type-check"
    );
    assert_eq!(
        CallError::FlagTypeMismatch { field: "x".to_string() }.label(),
        "flag value failing type-check"
    );
}

struct EchoHandler {
    calls: usize,
}

impl CommandHandler for EchoHandler {
    fn handle(&mut self, command: ParsedCall, _input: &DataValue) -> Result<DataValue, HandlerError> {
        self.calls += 1;
        if command.name == "demo" {
            Ok(DataValue::Str(command.name))
        } else {
            Err(HandlerError { label: "nope".to_string(), msg: "unhandled".to_string() })
        }
    }
}

#[test]
fn dispatcher_serves_calls_one_at_a_time() {
    let mut d = RuntimeDispatcher::new(demo_schema(), EchoHandler { calls: 0 });
    assert_eq!(d.signatures().len(), 1);
    assert_eq!(d.signatures()[0].name, "demo");

    // A call error surfaces unmodified and never reaches the handler.
    let r = d.run(&"nonexistent".to_string(), &vec![], &vec![], &DataValue::Nothing);
    assert!(matches!(r, Err(RunError::Call(CallError::UnknownCommandName))));
    assert_eq!(d.handler.calls, 0);

    // An accepted call reaches the handler and its result passes through.
    let r = d.run(&"demo".to_string(), &vec![str_raw("a")], &vec![], &DataValue::Nothing);
    match r {
        Ok(DataValue::Str(s)) => assert_eq!(s, "demo"),
        _ => panic!("expected the handler's value"),
    }
    assert_eq!(d.handler.calls, 1);

    // The dispatcher keeps serving after a failed call.
    let r = d.run(&"demo".to_string(), &vec![], &vec![], &DataValue::Nothing);
    assert!(matches!(
        r,
        Err(RunError::Call(CallError::MissingRequiredPositional { .. }))
    ));
    let r = d.run(&"demo".to_string(), &vec![str_raw("b")], &vec![], &DataValue::Nothing);
    assert!(r.is_ok());
    assert_eq!(d.handler.calls, 2);
}

#[test]
fn duplicate_flag_name_first_occurrence_wins() {
    let compiled = demo_schema();
    let p = parse(
        &compiled,
        &"demo".to_string(),
        &vec![str_raw("a")],
        &vec![flag("tag", Some(str_raw("one"))), flag("tag", Some(str_raw("two")))],
    )
    .unwrap();
    assert_eq!(arg_values(&p)[3], ("tag".to_string(), BoundValue::MaybeStr(Some("one".to_string()))));
}
