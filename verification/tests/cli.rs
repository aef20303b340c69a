use phosphor_core::registry::cli::{
    assemble, parse_scalar, verb, verbs, CliError, FlagValue, Occurrence, Requirement,
};
use phosphor_core::registry::{capabilities, lookup, ParamType};
use phosphor_core::action::Action;
use phosphor_core::value::{Call, Value};

fn call(name: &str, occurrences: &[Occurrence]) -> Result<Call, CliError> {
    assemble(&lookup(name).expect("registered"), occurrences)
}

fn is_scalar(ty: &ParamType) -> bool {
    matches!(
        ty,
        ParamType::Bool
            | ParamType::Int
            | ParamType::Uint
            | ParamType::Text
            | ParamType::Char
            | ParamType::Path
            | ParamType::Choice(_)
            | ParamType::Id(_)
    )
}

/// Whether a shape contains, anywhere inside it, something with no flag
/// form: a list of non-scalars, or an open record.
fn has_no_flag_form(ty: &ParamType) -> bool {
    match ty {
        ParamType::Any => true,
        ParamType::List(inner) => !is_scalar(inner) || has_no_flag_form(inner),
        ParamType::Record(fields) => fields.iter().any(|field| has_no_flag_form(&field.ty)),
        ParamType::Union(variants) => variants
            .iter()
            .flat_map(|variant| variant.fields.iter())
            .any(|field| has_no_flag_form(&field.ty)),
        ParamType::Bool
        | ParamType::Int
        | ParamType::Uint
        | ParamType::Text
        | ParamType::Char
        | ParamType::Path
        | ParamType::Choice(_)
        | ParamType::Id(_) => false,
    }
}

#[test]
fn a_union_flattens_into_a_tag_and_its_fields() {
    let mark_seen = verb(&lookup("mark-seen").expect("registered"));
    let target = mark_seen.flag("target").expect("the tag flag exists");
    assert!(matches!(target.value, FlagValue::Arm(_)));
    assert_eq!(target.requirement, Requirement::Always);

    let path = mark_seen
        .flag("target.path")
        .expect("two arms share a path field");
    let Requirement::WithArm { flag, tags } = &path.requirement else {
        panic!("an arm's field is conditionally required");
    };
    assert_eq!(flag, "target");
    assert!(
        tags.contains(&"file") && tags.contains(&"explicit"),
        "{tags:?}"
    );

    assert!(mark_seen.flag("target.id").is_none());
    assert!(mark_seen.flag("target.region.id").is_some());
    assert!(mark_seen.flag("target.buffer.id").is_some());
}

#[test]
fn a_flattened_call_round_trips_into_an_action() {
    let call = call(
        "mark-seen",
        &[
            Occurrence::valued("target", "region"),
            Occurrence::valued("target.region.id", "3"),
        ],
    )
    .expect("a region target is expressible as flags");
    let action = Action::from_call(&call.name, &call.args).expect("it decodes");
    assert_eq!(action.to_call(), call);
}

#[test]
fn a_record_flattens_by_dotted_flags() {
    let insert = verb(&lookup("insert").expect("registered"));
    assert!(insert.flag("at.line").is_some(), "{:?}", insert.flags);
    let call = call(
        "insert",
        &[
            Occurrence::valued("at.line", "4"),
            Occurrence::valued("at.column", "0"),
            Occurrence::valued("text", "hello"),
        ],
    )
    .expect("a position is expressible as flags");
    let Some(Value::Record(at)) = call.args.get("at") else {
        panic!("a position is a record");
    };
    assert_eq!(at.get("line"), Some(&Value::Int(4)));
    assert_eq!(at.get("column"), Some(&Value::Int(0)));
    assert_eq!(call.args.get("text"), Some(&Value::Text("hello".to_owned())));
    Action::from_call(&call.name, &call.args).expect("it decodes");
}

#[test]
fn a_missing_required_flag_names_itself() {
    let error = call("mark-seen", &[]).expect_err("target is required");
    assert_eq!(
        error,
        CliError::MissingFlag {
            flag: "target".to_owned()
        }
    );
}

#[test]
fn an_unknown_arm_lists_the_arms() {
    let error = call("mark-seen", &[Occurrence::valued("target", "nowhere")])
        .expect_err("`nowhere` is not an arm");
    assert!(matches!(error, CliError::UnknownArm { .. }), "{error:?}");
}

#[test]
fn an_unknown_flag_is_refused_rather_than_ignored() {
    let error = call("mark-seen", &[Occurrence::valued("targt", "region")])
        .expect_err("a typo is not a silent no-op");
    assert!(matches!(error, CliError::UnknownFlag { .. }), "{error:?}");
}

#[test]
fn a_switch_absent_is_false() {
    let call = call("paste", &[Occurrence::valued("at", "cursor")])
        .expect("paste's optional register may be omitted");
    assert_eq!(call.args.get("before"), Some(&Value::Bool(false)));
    assert_eq!(call.args.get("register"), Some(&Value::Null));
    Action::from_call(&call.name, &call.args).expect("it decodes");
}

#[test]
fn a_switch_present_is_true() {
    let call = call(
        "paste",
        &[
            Occurrence::valued("at", "cursor"),
            Occurrence::switch("before"),
        ],
    )
    .expect("before is a switch");
    assert_eq!(call.args.get("before"), Some(&Value::Bool(true)));
}

#[test]
fn every_capability_has_a_verb_with_unique_flags() {
    for capability in capabilities() {
        let generated = verb(&capability);
        assert_eq!(generated.verb, capability.name);
        let mut seen: Vec<&str> = Vec::new();
        for flag in &generated.flags {
            assert!(
                !seen.contains(&flag.long.as_str()),
                "`{}` declares `--{}` twice",
                generated.verb,
                flag.long
            );
            seen.push(&flag.long);
            assert!(!flag.help.trim().is_empty());
        }
    }
}

#[test]
fn the_eval_only_hole_is_structural_rather_than_arbitrary() {
    for capability in capabilities() {
        let generated = verb(&capability);
        for name in &generated.unreachable {
            let param = capability
                .params
                .iter()
                .find(|param| param.name == *name)
                .expect("an unreachable parameter is one of the declared ones");
            assert!(
                has_no_flag_form(&param.ty),
                "`{}`'s `{name}` has no flag form for no structural reason",
                generated.verb
            );
        }
    }
}

#[test]
fn an_eval_only_parameter_says_so() {
    let apply = lookup("apply-edits").expect("registered");
    let generated = verb(&apply);
    assert!(generated.needs_eval());
    let error = assemble(&apply, &[]).expect_err("a list of records has no flag form");
    assert!(matches!(error, CliError::NeedsEval { .. }), "{error:?}");
}

#[test]
fn every_verb_is_listed_in_registry_order() {
    let all = verbs();
    let caps = capabilities();
    assert_eq!(all.len(), caps.len());
    for (generated, capability) in all.iter().zip(caps.iter()) {
        assert_eq!(generated.verb, capability.name);
    }
}

#[test]
fn scalars_read_as_the_standard_library_reads_them() {
    assert_eq!(parse_scalar(&ParamType::Int, "-42"), Ok(Value::Int(-42)));
    assert_eq!(parse_scalar(&ParamType::Int, "+7"), Ok(Value::Int(7)));
    assert_eq!(
        parse_scalar(&ParamType::Int, "-9223372036854775808"),
        Ok(Value::Int(i64::MIN))
    );
    assert_eq!(parse_scalar(&ParamType::Int, "9223372036854775808"), Err("an integer"));
    assert_eq!(parse_scalar(&ParamType::Int, "-"), Err("an integer"));
    assert_eq!(parse_scalar(&ParamType::Uint, "12"), Ok(Value::Int(12)));
    assert_eq!(parse_scalar(&ParamType::Uint, "-1"), Err("a non-negative integer"));
    assert_eq!(
        parse_scalar(&ParamType::Uint, "9223372036854775808"),
        Err("a non-negative integer")
    );
    assert_eq!(parse_scalar(&ParamType::Bool, "yes"), Err("`true` or `false`"));
    assert_eq!(parse_scalar(&ParamType::Char, "ab"), Err("exactly one character"));
    assert_eq!(parse_scalar(&ParamType::Path, ""), Err("a path"));
    assert_eq!(
        parse_scalar(&ParamType::Choice(vec!["a", "b"]), "c"),
        Err("one of the listed choices")
    );
    assert_eq!(
        parse_scalar(&ParamType::Choice(vec!["a", "b"]), "b"),
        Ok(Value::Text("b".to_owned()))
    );
    assert_eq!(parse_scalar(&ParamType::Any, "x"), Err("a value with a flag form"));
}

#[test]
fn a_bad_value_names_its_flag_and_what_it_wanted() {
    let error = call(
        "insert",
        &[
            Occurrence::valued("at.line", "four"),
            Occurrence::valued("at.column", "0"),
            Occurrence::valued("text", "hello"),
        ],
    )
    .expect_err("four is not a number");
    assert_eq!(
        error,
        CliError::BadValue {
            flag: "at.line".to_owned(),
            expected: "a non-negative integer",
            got: "four".to_owned(),
        }
    );
    assert_eq!(
        error.message(),
        "`--at.line` wants a non-negative integer, got `four`"
    );
}

#[test]
fn a_valued_flag_without_its_value_is_refused() {
    let error = call("mark-seen", &[Occurrence::switch("target")]).expect_err("no tag");
    assert_eq!(
        error,
        CliError::MissingValue {
            flag: "target".to_owned()
        }
    );
}

#[test]
fn a_flag_value_names_its_placeholder() {
    for generated in verbs() {
        for flag in &generated.flags {
            assert!(!flag.long.contains('_'), "{}", flag.long);
        }
    }
    let placeholder = FlagValue::One(ParamType::Uint).value_name();
    assert_eq!(placeholder.as_deref(), Some("UINT"));
    assert_eq!(FlagValue::Switch.value_name(), None);
    assert_eq!(
        FlagValue::Arm(vec!["file", "region"]).value_name().as_deref(),
        Some("file|region")
    );
}

#[test]
fn a_command_line_of_declared_flags_is_never_refused_as_unknown() {
    for capability in capabilities() {
        let generated = verb(&capability);
        let occurrences: Vec<Occurrence> = generated
            .flags
            .iter()
            .map(|flag| Occurrence::valued(&flag.long, "1"))
            .collect();
        if let Err(error) = assemble(&capability, &occurrences) {
            assert!(
                !matches!(error, CliError::UnknownFlag { .. }),
                "`{}` refused its own flag: {error:?}",
                generated.verb
            );
        }
    }
}

#[test]
fn a_call_carries_every_declared_argument_in_order() {
    let call = call("paste", &[Occurrence::valued("at", "cursor")]).expect("paste reads");
    let names: Vec<String> = call.args.into_pairs().into_iter().map(|(name, _)| name).collect();
    assert_eq!(names, vec!["at", "register", "before"]);
}
