use phosphor_core::request::{target_from_text, BufferId, CharRange, Completion, Direction, PaneRef, Position, RegionId, Signature, Span, Target};
use phosphor_core::value::{Args, Value, Wire, WireError};

#[test]
fn focus_relative_targets_are_the_four_we_refuse() {
    assert!(Target::Cursor {}.focus_relative());
    assert!(Target::Selection {}.focus_relative());
    assert!(Target::PickerRow {}.focus_relative());
    assert!(Target::FloatRow {}.focus_relative());
    assert!(!Target::Region { id: RegionId(1) }.focus_relative());
    assert!(!Target::Explicit {
        path: "src/retry.rs".to_owned(),
        span: Span {
            start: Position { line: 6, column: 1 },
            end: Position {
                line: 10,
                column: 1
            },
        },
    }
    .focus_relative());
}

#[test]
fn the_spelling_6b_draws_decodes_to_an_explicit_target() {
    let target = target_from_text("src/retry.rs:24").unwrap();
    assert_eq!(
        target,
        Target::Explicit {
            path: "src/retry.rs".to_owned(),
            span: Span {
                start: Position {
                    line: 24,
                    column: 1
                },
                end: Position {
                    line: 25,
                    column: 1
                },
            },
        }
    );
}

#[test]
fn a_range_spells_first_and_last_and_the_span_stays_half_open() {
    let target = target_from_text("src/fetch.rs:3-7").unwrap();
    let Target::Explicit { span, .. } = target else {
        panic!("a range is an explicit target");
    };
    assert_eq!(span.start.line, 3);
    assert_eq!(span.end.line, 8);
}

#[test]
fn a_bare_tag_name_is_not_quietly_a_file() {
    for text in ["cursor", "selection", "region"] {
        assert!(
            target_from_text(text).is_none(),
            "`{text}` is a tag, and a spelling that made it a file target \
             would turn a typo into a different request"
        );
    }
}

#[test]
fn a_location_that_is_not_one_is_refused_rather_than_guessed_at() {
    for text in [
        "src/retry.rs:",
        "src/retry.rs:0",
        "src/retry.rs:9-2",
        ":24",
        "src/retry.rs:2.5",
        "src/retry.rs:-4",
        "src/retry.rs:1-",
        "src/retry.rs:1-1x",
    ] {
        assert!(
            target_from_text(text).is_none(),
            "`{text}` is not a location and must not decode as one"
        );
    }
}

#[test]
fn a_target_round_trips_through_the_wire() {
    let target = Target::Explicit {
        path: "src/retry.rs".to_owned(),
        span: Span {
            start: Position { line: 6, column: 1 },
            end: Position { line: 10, column: 1 },
        },
    };
    let encoded = target.to_value();
    assert_eq!(encoded.tag(), Some("explicit"));
    assert_eq!(Target::from_value(&encoded).unwrap(), target);
}

#[test]
fn an_unknown_tag_names_what_it_accepts() {
    let bogus = Value::tagged("everything", Args::new());
    let error = Target::from_value(&bogus).unwrap_err();
    let WireError::Tag { got, expected } = error else {
        panic!("expected a tag error");
    };
    assert_eq!(got, "everything");
    assert!(expected.contains(&"region"));
}

#[test]
fn the_text_spelling_is_an_input_and_never_an_encoding() {
    let target = Target::from_value(&Value::Text("a.rs:1".to_owned())).unwrap();
    let encoded = target.to_value();
    assert_eq!(encoded.tag(), Some("explicit"));
    assert_eq!(Target::from_value(&encoded).unwrap(), target);
}

#[test]
fn a_character_range_refuses_a_negative_offset() {
    let backwards = Value::Record(Args::new().with("start", Value::Int(-1)).with("end", Value::Int(4)));
    let error = CharRange::from_value(&backwards).unwrap_err();
    assert!(
        matches!(error, WireError::Field { field: "start", .. }),
        "the error has to name the field, not just the range: {error:?}"
    );
}

#[test]
fn a_completion_without_a_detail_omits_it_rather_than_requiring_it() {
    let terse = Value::Record(
        Args::new()
            .with("label", Value::Text("default".to_owned()))
            .with("documentation", Value::List(vec![Value::Text("Returns the policy.".to_owned())]))
            .with("insert", Value::Text("default()".to_owned())),
    );
    let completion = Completion::from_value(&terse).unwrap();
    assert_eq!(completion.detail, None);
    assert_eq!(completion.documentation.len(), 1);
    assert_eq!(completion.insert, "default()");
}

#[test]
fn a_signature_round_trips_with_and_without_an_active_parameter() {
    let emphasised = Signature {
        label: "fn fetch_json(url: &str) -> Result<Value, FetchError>".to_owned(),
        active: Some(CharRange { start: 14, end: 22 }),
        documentation: vec!["The URL to fetch.".to_owned()],
    };
    let plain = Signature { active: None, ..emphasised.clone() };
    assert_eq!(Signature::from_value(&emphasised.to_value()).unwrap(), emphasised);
    assert_eq!(Signature::from_value(&plain.to_value()).unwrap(), plain);
    assert_ne!(
        emphasised.to_value(),
        plain.to_value(),
        "an absent active parameter must not encode as the same record as a present one"
    );
}

#[test]
fn a_union_without_a_spelling_still_refuses_text() {
    let error = PaneRef::from_value(&Value::Text("focused".to_owned()));
    assert!(
        error.is_err(),
        "only `Target` opted into a text spelling; every other union takes the tagged record"
    );
}

#[test]
fn a_choice_is_its_tag_and_an_unknown_one_lists_the_rest() {
    assert_eq!(Direction::Left.to_value(), Value::Text("left".to_owned()));
    assert_eq!(Direction::from_value(&Value::Text("up".to_owned())).unwrap(), Direction::Up);
    let WireError::Tag { got, expected } = Direction::from_value(&Value::Text("sideways".to_owned())).unwrap_err() else {
        panic!("expected a tag error");
    };
    assert_eq!(got, "sideways");
    assert_eq!(expected, vec!["up", "down", "left", "right"]);
    assert_eq!(BufferId(7).to_value(), Value::Int(7));
    assert_eq!(BufferId(u64::MAX).to_value(), Value::Int(i64::MAX));
}
