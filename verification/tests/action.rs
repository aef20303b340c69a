use phosphor_core::action::{actions, aliases, Action, ActionError, AppAction, InputAction, LspAction, Receipt, Refusal, RegionAction, RuntimeAction, Raised};
use phosphor_core::registry::{Door, McpPolicy, Phase};
use phosphor_core::request::{BufferId, Completion, KeySeq, Position, RegionId, Target};
use phosphor_core::value::{Args, Value, Wire, WireError};

#[test]
fn every_variant_knows_its_own_row() {
    let action = Action::App(AppAction::Quit { force: false });
    assert_eq!(action.name(), "quit");
    assert_eq!(action.domain(), "app");
    assert_eq!(action.spec().since.phase, Phase::S1);
    assert_eq!(action.spec().since.task, "T090");
}

#[test]
fn the_keyboard_is_denied_by_default() {
    let feed = Action::Input(InputAction::FeedKeys { keys: KeySeq("<C-q>".to_owned()) });
    assert!(feed.feeds_the_keyboard());
    assert_eq!(feed.spec().mcp, McpPolicy::Deny);

    let eval = Action::Runtime(RuntimeAction::Eval { source: "(quit!)".to_owned() });
    assert!(eval.feeds_the_keyboard());
    assert_eq!(eval.spec().mcp, McpPolicy::Deny);
}

#[test]
fn an_lsp_answer_is_exactly_as_open_as_the_request_it_answers() {
    let rows = actions();
    let policy = |name: &str| {
        rows.iter()
            .find(|spec| spec.name == name)
            .unwrap_or_else(|| panic!("`{name}` is registered"))
            .mcp
    };
    for (request, answer) in [
        ("request-completion", "ingest-completions"),
        ("request-signature-help", "ingest-signature-help"),
        ("request-hover", "ingest-hover"),
    ] {
        assert_eq!(
            policy(answer),
            policy(request),
            "`{answer}` answers `{request}`; their MCP defaults move together"
        );
    }
}

#[test]
fn aliases_resolve_and_are_documented() {
    assert_eq!(Action::canonical_name("watch-place"), "place-watch");
    assert_eq!(Action::canonical_name("place-watch"), "place-watch");
    let rows = actions();
    for alias in aliases() {
        assert!(
            rows.iter().any(|spec| spec.name == alias.canonical),
            "alias `{}` points at nothing",
            alias.alias
        );
        assert!(!alias.reason.is_empty(), "alias `{}` has no recorded reason", alias.alias);
    }
}

#[test]
fn every_row_names_a_distinct_capability() {
    let rows = actions();
    assert_eq!(rows.len(), 170);
    for (i, a) in rows.iter().enumerate() {
        for b in &rows[i + 1..] {
            assert_ne!(a.name, b.name);
        }
    }
}

#[test]
fn a_refusal_says_what_to_do() {
    assert_eq!(
        Refusal::DoorDenied { door: Door::Mcp }.why(),
        "the mcp door refuses this — open it in init.scm"
    );
    assert_eq!(
        Refusal::NotYetImplemented { task: "T041" }.why(),
        "not built yet — T041 builds it"
    );
    assert_eq!(Refusal::Declined { reason: "no".to_owned() }.why(), "no");
    assert_eq!(
        Raised { kind: Some("read-error"), message: "unbalanced".to_owned() }.why(),
        "read-error — unbalanced"
    );
    assert_eq!(Raised { kind: None, message: "oops".to_owned() }.why(), "oops");
    let receipt = Receipt::ok("quit");
    assert_eq!(receipt.capability, "quit");
    assert_eq!(receipt.value, Value::Null);
    assert_eq!(receipt.note, None);
}

#[test]
fn a_call_round_trips() {
    let action = Action::Region(RegionAction::MarkSeen {
        target: Target::Region { id: RegionId(3) },
    });
    let call = action.to_call();
    assert_eq!(call.name, "mark-seen");
    assert_eq!(Action::from_call(&call.name, &call.args).unwrap(), action);
}

#[test]
fn an_unknown_name_says_so() {
    let error = Action::from_call("mark-read", &Args::new()).unwrap_err();
    assert_eq!(
        error,
        ActionError::Unknown {
            name: "mark-read".to_owned()
        }
    );
}

#[test]
fn a_missing_argument_names_the_capability_and_the_argument() {
    let error = Action::from_call("mark-seen", &Args::new()).unwrap_err();
    let ActionError::Argument { name, source } = error else {
        panic!("expected an argument error");
    };
    assert_eq!(name, "mark-seen");
    assert_eq!(source, WireError::Missing { field: "target" });
}

#[test]
fn the_empty_answer_is_a_call_each_of_the_three_can_make() {
    let at = Position { line: 12, column: 1 };
    let nothing = [
        Action::Lsp(LspAction::IngestCompletions { items: Vec::new(), at, buffer: None }),
        Action::Lsp(LspAction::IngestSignatureHelp { signature: None, at, buffer: None }),
        Action::Lsp(LspAction::IngestHover { prose: Vec::new(), at, buffer: None }),
    ];
    for action in nothing {
        let call = action.to_call();
        assert_eq!(
            Action::from_call(&call.name, &call.args).unwrap(),
            action,
            "`{}` must round-trip its empty answer",
            call.name
        );
    }
    let omitted = Args::new().with("at", Wire::to_value(&at));
    assert_eq!(
        Action::from_call("ingest-signature-help", &omitted).unwrap(),
        Action::Lsp(LspAction::IngestSignatureHelp { signature: None, at, buffer: None }),
    );
}

#[test]
fn each_completion_carries_its_own_documentation_through_the_wire() {
    let action = Action::Lsp(LspAction::IngestCompletions {
        items: vec![
            Completion {
                label: "default".to_owned(),
                detail: Some("fn() -> RetryPolicy".to_owned()),
                documentation: vec!["Returns the policy with 3 attempts.".to_owned()],
                insert: "default()".to_owned(),
            },
            Completion {
                label: "default_delay".to_owned(),
                detail: Some("Duration".to_owned()),
                documentation: vec!["The base delay between attempts.".to_owned()],
                insert: "default_delay".to_owned(),
            },
        ],
        at: Position { line: 24, column: 9 },
        buffer: Some(BufferId(3)),
    });
    let call = action.to_call();
    let Action::Lsp(LspAction::IngestCompletions { items, .. }) = Action::from_call(&call.name, &call.args).unwrap()
    else {
        panic!("`ingest-completions` decodes to its own variant");
    };
    assert_eq!(items.len(), 2);
    assert_ne!(
        items[0].documentation, items[1].documentation,
        "two items' prose must survive one call as two different things"
    );
    assert_eq!(items[0].label, "default");
    assert_eq!(items[1].insert, "default_delay");
}

#[test]
fn a_malformed_argument_names_the_argument_and_what_it_needs() {
    let args = Args::new().with("target", Value::Int(7));
    let ActionError::Argument { name, source } = Action::from_call("mark-seen", &args).unwrap_err() else {
        panic!("expected an argument error");
    };
    assert_eq!(name, "mark-seen");
    assert_eq!(
        source,
        WireError::Field { field: "target", source: Box::new(WireError::Shape { expected: "tagged record" }) }
    );
}
