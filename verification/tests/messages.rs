use phosphor_core::journal::{DecodeError, Error, FoldError, Stream};
use phosphor_core::registry::cli::CliError;
use phosphor_core::registry::mcp::Malformed;
use phosphor_core::registry::steel::{Arity, ArityError};
use phosphor_core::registry::{capabilities, registrations};
use phosphor_core::request::{target_from_text, Position, Span, Target};

#[test]
fn a_decode_error_says_what_went_wrong() {
    assert_eq!(DecodeError::UnexpectedEnd.message(), "record ended mid-value");
    assert_eq!(
        DecodeError::BadBool { byte: 7 }.message(),
        "expected 0 or 1, found 7"
    );
    assert_eq!(
        DecodeError::TooLong {
            want: 300,
            remaining: 12
        }
        .message(),
        "sequence of 300 in a record with 12 bytes left"
    );
    assert_eq!(
        DecodeError::Trailing { extra: 3 }.message(),
        "3 bytes left after the record"
    );
}

#[test]
fn a_fold_error_names_the_nodes() {
    assert_eq!(
        FoldError::OutOfOrder {
            found: 4,
            expected: 2
        }
        .message(),
        "node 4 arrived where node 2 was due"
    );
    assert_eq!(
        FoldError::BadRedoChild { id: 1, child: 9 }.message(),
        "node 1 claims redo child 9, which is not its child"
    );
    assert_eq!(
        FoldError::WrongOrigin.message(),
        "this journal belongs to a different file"
    );
}

#[test]
fn a_journal_error_leads_with_its_file() {
    let error = Error::WrongStream {
        path: "/s/undo.log".to_owned(),
        found: Stream::seen(),
        expected: Stream::undo(),
    };
    assert_eq!(error.message(), "/s/undo.log: holds seen/1, expected undo/1");
    let error = Error::Decode {
        path: "/s/undo.log".to_owned(),
        source: DecodeError::Overflow,
    };
    assert_eq!(error.message(), "/s/undo.log: integer does not fit");
    assert_eq!(
        Error::RecordTooLarge { len: 10 }.message(),
        "record of 10 bytes is past the frame limit"
    );
}

#[test]
fn an_arity_error_says_what_was_accepted() {
    let fixed = ArityError {
        capability: "insert",
        expected: Arity { min: 2, max: 2 },
        got: 1,
    };
    assert_eq!(fixed.message(), "`insert` takes 2 argument(s), got 1");
    let ranged = ArityError {
        capability: "paste",
        expected: Arity { min: 1, max: 3 },
        got: 5,
    };
    assert_eq!(ranged.message(), "`paste` takes 1 to 3 arguments, got 5");
}

#[test]
fn a_malformation_names_where() {
    let m = Malformed::DuplicateArm {
        at: "phosphor/yank::target".to_owned(),
        tag: "file",
    };
    assert_eq!(
        m.message(),
        "`phosphor/yank::target` declares the arm `file` twice"
    );
    assert_eq!(
        Malformed::InputNotAnObject.message(),
        "the input schema is not an object"
    );
}

#[test]
fn a_cli_error_speaks_in_flags() {
    let e = CliError::UnknownArm {
        flag: "target".to_owned(),
        got: "nowhere".to_owned(),
        expected: vec!["cursor", "file"],
    };
    assert_eq!(
        e.message(),
        "`--target` has no `nowhere`; it is one of cursor, file"
    );
    let e = CliError::NeedsEval {
        at: "edits".to_owned(),
    };
    assert_eq!(
        e.message(),
        "`--edits` has no flag form \u{2014} call it with `--eval`"
    );
}

#[test]
fn a_location_reads_as_an_explicit_target() {
    assert_eq!(
        target_from_text("src/retry.rs:24"),
        Some(Target::Explicit {
            path: "src/retry.rs".to_owned(),
            span: Span {
                start: Position { line: 24, column: 1 },
                end: Position { line: 25, column: 1 },
            },
        })
    );
    assert_eq!(
        target_from_text("a:b:3-5"),
        Some(Target::Explicit {
            path: "a:b".to_owned(),
            span: Span {
                start: Position { line: 3, column: 1 },
                end: Position { line: 6, column: 1 },
            },
        })
    );
    assert_eq!(
        target_from_text("f:4294967295"),
        Some(Target::Explicit {
            path: "f".to_owned(),
            span: Span {
                start: Position {
                    line: 4294967295,
                    column: 1
                },
                end: Position {
                    line: 4294967295,
                    column: 1
                },
            },
        })
    );
}

#[test]
fn a_bare_word_or_a_bad_range_is_not_a_location() {
    assert_eq!(target_from_text("cursor"), None);
    assert_eq!(target_from_text(":3"), None);
    assert_eq!(target_from_text("f:0"), None);
    assert_eq!(target_from_text("f:5-3"), None);
    assert_eq!(target_from_text("f:x"), None);
    assert_eq!(target_from_text("f:3-"), None);
    assert_eq!(target_from_text("f:4294967296"), None);
}

#[test]
fn every_capability_registers_at_all_three_doors() {
    let all = registrations();
    let caps = capabilities();
    assert_eq!(all.len(), caps.len());
    for (registration, capability) in all.iter().zip(caps.iter()) {
        assert_eq!(registration.capability.name, capability.name);
        assert_eq!(registration.cli.verb, capability.name);
        assert_eq!(registration.mcp.name, format!("phosphor/{}", capability.name));
        assert!(registration.steel.name.starts_with(capability.name));
    }
}
