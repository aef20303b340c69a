use phosphor_core::action::{Action, BufferAction, HistoryAction, InputAction, MotionAction};
use phosphor_core::input::key::Key;
use phosphor_core::input::text::Lines;
use phosphor_core::input::vim::table;
use phosphor_core::input::Machine;
use phosphor_core::request::{EditMode, Motion, Position, RegisterName, SelectionKind, Span, Target};

fn at(line: u32, column: u32) -> Position {
    Position { line, column }
}

fn feed_all(machine: &mut Machine, keys: &str, text: &Lines) -> Vec<Action> {
    let mut keymap = table();
    let mut out = Vec::new();
    for c in keys.chars() {
        out.extend(machine.feed(Key::char(c), &mut keymap, text));
    }
    out
}

#[test]
fn dw_is_select_yank_delete_land_clear() {
    let text = Lines::new("alpha beta", 1, 1);
    let mut machine = Machine::new();
    let mut keymap = table();
    let first = machine.feed(Key::char('d'), &mut keymap, &text);
    assert_eq!(
        first,
        vec![Action::Input(InputAction::SetMode { mode: EditMode::OperatorPending })]
    );
    assert_eq!(machine.mode(), EditMode::OperatorPending);
    let span = Span { start: at(1, 1), end: at(1, 7) };
    let second = machine.feed(Key::char('w'), &mut keymap, &text);
    assert_eq!(
        second,
        vec![
            Action::Motion(MotionAction::SelectRange { span, kind: SelectionKind::Char }),
            Action::Buffer(BufferAction::Yank { target: Target::Selection {}, register: None }),
            Action::Buffer(BufferAction::Delete { span }),
            Action::Motion(MotionAction::SetCursor { position: at(1, 1), buffer: None }),
            Action::Motion(MotionAction::ClearSelection {}),
            Action::Input(InputAction::SetMode { mode: EditMode::Normal }),
            Action::History(HistoryAction::CommitUndoGroup {}),
        ]
    );
    assert_eq!(machine.mode(), EditMode::Normal);
    assert!(machine.pending().is_clear());
    assert!(machine.last_change().is_some());
}

#[test]
fn a_count_folds_into_one_linewise_delete() {
    let text = Lines::new("one\ntwo\nthree\nfour", 1, 1);
    let mut machine = Machine::new();
    let out = feed_all(&mut machine, "3dd", &text);
    assert_eq!(out[0], Action::Input(InputAction::SetCount { count: 3 }));
    let deletes: Vec<&Action> = out
        .iter()
        .filter(|a| matches!(a, Action::Buffer(BufferAction::Delete { .. })))
        .collect();
    assert_eq!(
        deletes,
        vec![&Action::Buffer(BufferAction::Delete { span: Span { start: at(1, 1), end: at(4, 1) } })]
    );
    assert!(out.contains(&Action::Motion(MotionAction::MoveCursor { motion: Motion::FirstNonBlank, count: 1 })));
}

#[test]
fn a_motion_alone_moves_the_cursor() {
    let text = Lines::new("alpha beta", 1, 1);
    let mut machine = Machine::new();
    let out = feed_all(&mut machine, "2w", &text);
    assert_eq!(
        out,
        vec![
            Action::Input(InputAction::SetCount { count: 2 }),
            Action::Motion(MotionAction::MoveCursor { motion: Motion::WordForward, count: 2 }),
        ]
    );
    assert!(machine.last_change().is_none());
}

#[test]
fn a_register_is_named_by_the_key_after_the_quote() {
    let text = Lines::new("alpha", 1, 1);
    let mut machine = Machine::new();
    let out = feed_all(&mut machine, "\"a", &text);
    assert_eq!(
        out,
        vec![Action::Input(InputAction::SelectRegister { register: RegisterName("a".to_owned()) })]
    );
    assert_eq!(machine.pending().register, Some(RegisterName("a".to_owned())));
}

#[test]
fn insert_mode_types_what_no_binding_wants() {
    let text = Lines::new("", 1, 1);
    let mut machine = Machine::new();
    let out = feed_all(&mut machine, "iq", &text);
    assert_eq!(machine.mode(), EditMode::Insert);
    assert_eq!(
        out.last(),
        Some(&Action::Buffer(BufferAction::Insert { at: at(1, 1), text: "q".to_owned() }))
    );
}

#[test]
fn an_unbound_key_is_hinted_and_cancels() {
    let text = Lines::new("alpha", 1, 1);
    let mut machine = Machine::new();
    let out = feed_all(&mut machine, "Q", &text);
    assert!(matches!(out[0], Action::App(_)));
    assert_eq!(out[1], Action::Input(InputAction::CancelPending {}));
}

#[test]
fn a_door_sets_the_same_state_a_key_does() {
    let mut machine = Machine::new();
    machine.apply(&InputAction::SetCount { count: 4 });
    assert_eq!(machine.pending().count(), 4);
    machine.apply(&InputAction::SetMode { mode: EditMode::Insert });
    assert_eq!(machine.mode(), EditMode::Insert);
    machine.apply(&InputAction::CancelPending {});
    assert!(machine.pending().is_clear());
}
