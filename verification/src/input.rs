//! The input machine: keystrokes in, `Action`s out, no terminal.
//!
//! Counts and registers are state in this machine, and the keymap is asked at
//! runtime. Nothing here draws, reads a terminal or applies anything: the
//! host applies what comes out, which is what lets a scripted keystroke
//! sequence be checked against the Action stream it produces.
//!
//! * `3dd` is one Action: the count folds into the operand, so one keystroke
//!   sequence is one edit and one undo step.
//! * Counts and registers are state, and their transitions are Actions too, so
//!   the statusline sees them; `apply` is the same transition from a door.
//! * An operator lowers to select-then-act: `SelectRange`, the act over the
//!   selection, where the cursor lands, then `ClearSelection`.
//! * The machine never scrolls except for the scroll keys.
//! * `.` is a re-entry: the host feeds the last change's keys back through
//!   `feed`, one at a time.
//! * An unbound key is an Action too: `ShowUnknownKeyHint`.
//!
//! Three keys are followed by a keystroke the keymap must not see: `"` names a
//! register, `f`/`F`/`t`/`T` name a character to find, and `r` names the
//! character to write. That is one state (`Awaiting`) and one branch at the
//! top of a step.

pub mod key;
pub mod table;
pub mod vim;
pub mod text;

use vstd::prelude::*;

use crate::action::{
    Action, AppAction, BufferAction, HistoryAction, InputAction, MotionAction, RegionAction, ViewAction,
};
use crate::request::{
    CaseChange, EditMode, KeySeq, Motion, PaneRef, Position, RegisterName, ScrollRequest, SelectionKind, Span,
    Target, TextObject,
};
use crate::text_util::{push_char, push_chars, spec_decimal};
use crate::language::indent_of;

use key::{notation_of, spec_key_new, spec_notation_of, spec_typed, Code, Key, Mods, Named, Protocol};
use table::{spec_scope_of, Entry, Goto, Keymap, Operator, Resolution, Role, Scope};
use text::{
    before, clamp_int, cursor_after_with_target, end_of_line, find_in_reach, first_non_blank, line_count,
    line_count_of, line_span,
    motion_span_with_target, object_span, pos, spec_clamp, spec_cursor_after, spec_end_of_line,
    spec_first_non_blank, spec_is_find, spec_line_span, spec_motion_span, spec_object_span, spec_width, text_wf,
    Text, Viewport, clamp, row_of, row_chars, width, spec_end_of_line as eol,
};

verus! {

// ---------------------------------------------------------------------------
// What comes out
// ---------------------------------------------------------------------------

/// One Action the machine emits, with any text in it as characters.
pub enum Out {
    /// An Action with no text in it, exactly.
    Plain(Action),
    /// `Input::SelectRegister` naming this register.
    SelectRegister(Seq<char>),
    /// `Buffer::Paste` at the cursor from this register, before or after.
    Paste { register: Option<Seq<char>>, before: bool },
    /// `Buffer::Yank` of the selection into this register.
    Yank { register: Option<Seq<char>> },
    /// `App::ShowUnknownKeyHint` naming these keys.
    UnknownKey(Seq<char>),
    /// `Buffer::Replace` of a span with this text.
    Replace { span: Span, text: Seq<char> },
    /// `Buffer::Insert` of this text.
    Insert { at: Position, text: Seq<char> },
}

/// A register's name as characters.
pub open spec fn register_view(r: Option<RegisterName>) -> Option<Seq<char>> {
    match r {
        Some(n) => Some(n.0@),
        None => None,
    }
}

/// Whether `a` is the Action `o` describes.
pub open spec fn out_matches(a: Action, o: Out) -> bool {
    match o {
        Out::Plain(x) => a == x,
        Out::SelectRegister(r) => a matches Action::Input(InputAction::SelectRegister { register }) && register.0@ == r,
        Out::Paste { register, before } => a matches Action::Buffer(BufferAction::Paste { at, register: reg, before: b })
            && at == (Target::Cursor {}) && b == before && register_view(reg) == register,
        Out::Yank { register } => a matches Action::Buffer(BufferAction::Yank { target, register: reg })
            && target == (Target::Selection {}) && register_view(reg) == register,
        Out::UnknownKey(k) => a matches Action::App(AppAction::ShowUnknownKeyHint { key }) && key.0@ == k,
        Out::Replace { span, text } => a matches Action::Buffer(BufferAction::Replace { span: s, text: t })
            && s == span && t@ == text,
        Out::Insert { at, text } => a matches Action::Buffer(BufferAction::Insert { at: p, text: t }) && p == at
            && t@ == text,
    }
}

/// `after` is `before` followed by Actions matching `outs`.
pub open spec fn emitted(before: Seq<Action>, after: Seq<Action>, outs: Seq<Out>) -> bool {
    &&& after.len() == before.len() + outs.len()
    &&& after.take(before.len() as int) == before
    &&& forall|i: int| 0 <= i < outs.len() ==> out_matches(#[trigger] after[before.len() + i], outs[i])
}

proof fn lemma_emitted_nothing(a: Seq<Action>)
    ensures
        emitted(a, a, Seq::empty()),
{
    assert(a.take(a.len() as int) =~= a);
}

proof fn lemma_emitted_trans(a: Seq<Action>, b: Seq<Action>, c: Seq<Action>, o1: Seq<Out>, o2: Seq<Out>)
    requires
        emitted(a, b, o1),
        emitted(b, c, o2),
    ensures
        emitted(a, c, o1 + o2),
{
    assert(c.take(a.len() as int) =~= a) by {
        assert forall|i: int| 0 <= i < a.len() implies c[i] == a[i] by {
            assert(c.take(b.len() as int)[i] == b[i]);
            assert(b.take(a.len() as int)[i] == a[i]);
        }
    }
    assert forall|i: int| 0 <= i < (o1 + o2).len() implies out_matches(#[trigger] c[a.len() + i], (o1 + o2)[i]) by {
        if i < o1.len() {
            assert(c.take(b.len() as int)[a.len() + i] == b[a.len() + i]);
            assert(out_matches(b[a.len() + i], o1[i]));
        } else {
            assert(out_matches(c[b.len() + (i - o1.len())], o2[i - o1.len()]));
        }
    }
}

proof fn lemma_emitted_push(a: Seq<Action>, x: Action, o: Out)
    requires
        out_matches(x, o),
    ensures
        emitted(a, a.push(x), seq![o]),
{
    assert(a.push(x).take(a.len() as int) =~= a);
    assert(a.push(x)[a.len() + 0int] == x);
}

fn push_out(out: &mut Vec<Action>, a: Action, o: Ghost<Out>)
    requires
        out_matches(a, o@),
    ensures
        emitted(old(out)@, final(out)@, seq![o@]),
{
    let ghost before = out@;
    out.push(a);
    proof {
        lemma_emitted_push(before, a, o@);
    }
}

// ---------------------------------------------------------------------------
// The pending state
// ---------------------------------------------------------------------------

/// The pending state: the 3 in `3dd`, the `"a` in `"ayy`. The statusline
/// reads it.
#[derive(Debug)]
pub struct Pending {
    /// The count typed before the operator.
    pub count: Option<u32>,
    /// The count typed after it: `2d3w` is six words.
    pub operator_count: Option<u32>,
    /// The register named by `"`.
    pub register: Option<RegisterName>,
    /// The operator waiting for an operand.
    pub operator: Option<Operator>,
    /// Keys typed so far in an unfinished sequence.
    pub keys: Vec<Key>,
}

/// A count as typed: absent or zero means one.
pub open spec fn count_or_one(c: Option<u32>) -> int {
    match c {
        Some(n) => if n >= 1 { n as int } else { 1 },
        None => 1,
    }
}

/// The count that applies: both halves multiplied, saturating, at least one.
pub open spec fn spec_pending_count(count: Option<u32>, operator_count: Option<u32>) -> u32 {
    let p = count_or_one(count) * count_or_one(operator_count);
    if p > u32::MAX { u32::MAX } else { p as u32 }
}

fn u32_saturating_mul(a: u32, b: u32) -> (r: u32)
    ensures
        r == (if a * b > u32::MAX { u32::MAX as int } else { a * b }),
{
    match a.checked_mul(b) {
        Some(v) => v,
        None => u32::MAX,
    }
}

impl Pending {
    /// Nothing pending.
    pub fn new() -> (r: Self)
        ensures
            r.count is None,
            r.operator_count is None,
            r.register is None,
            r.operator is None,
            r.keys@ == Seq::<Key>::empty(),
    {
        Pending { count: None, operator_count: None, register: None, operator: None, keys: Vec::new() }
    }

    /// The count that applies, with both halves multiplied: vim's rule.
    pub fn count(&self) -> (r: u32)
        ensures
            r == spec_pending_count(self.count, self.operator_count),
            r >= 1,
    {
        let first = match self.count {
            Some(n) => if n >= 1 { n } else { 1 },
            None => 1,
        };
        let second = match self.operator_count {
            Some(n) => if n >= 1 { n } else { 1 },
            None => 1,
        };
        proof {
            assert(first * second >= 1) by (nonlinear_arith)
                requires
                    first >= 1,
                    second >= 1,
            ;
        }
        u32_saturating_mul(first, second)
    }

    /// Whether nothing was typed and left unused.
    pub fn is_clear(&self) -> (r: bool)
        ensures
            r == (self.count is None && self.operator_count is None && self.register is None
                && self.operator is None && self.keys@.len() == 0),
    {
        self.count.is_none() && self.operator_count.is_none() && self.register.is_none() && self.operator.is_none()
            && self.keys.len() == 0
    }
}

/// What the next keystroke means, when it does not mean a binding.
#[derive(Debug, Clone, Copy, PartialEq, Eq, Structural)]
pub enum Awaiting {
    /// `"`: the next key names a register.
    Register,
    /// `f`, `F`, `t`, `T`: the next key is the character to find.
    FindTarget(Motion),
    /// `r`: the next key is the character to write.
    ReplaceChar,
}

/// Everything the machine holds, as values.
pub struct MachineView {
    pub protocol: Protocol,
    pub mode: EditMode,
    pub count: Option<u32>,
    pub operator_count: Option<u32>,
    pub register: Option<Seq<char>>,
    pub operator: Option<Operator>,
    pub keys: Seq<Key>,
    pub object: Option<bool>,
    pub fused_advance: bool,
    pub awaiting: Option<Awaiting>,
    pub last_find: Option<(Motion, char)>,
    pub anchor: Option<Position>,
    pub record: Seq<Key>,
    pub record_changed: bool,
    pub last_change: Option<Seq<Key>>,
}

/// Modes, counts, registers, operator-pending and text objects.
#[derive(Debug)]
pub struct Machine {
    protocol: Protocol,
    mode: EditMode,
    pending: Pending,
    object: Option<bool>,
    fused_advance: bool,
    awaiting: Option<Awaiting>,
    last_find: Option<(Motion, char)>,
    anchor: Option<Position>,
    record: Vec<Key>,
    record_changed: bool,
    last_change: Option<Vec<Key>>,
}

impl View for Machine {
    type V = MachineView;

    closed spec fn view(&self) -> MachineView {
        MachineView {
            protocol: self.protocol,
            mode: self.mode,
            count: self.pending.count,
            operator_count: self.pending.operator_count,
            register: register_view(self.pending.register),
            operator: self.pending.operator,
            keys: self.pending.keys@,
            object: self.object,
            fused_advance: self.fused_advance,
            awaiting: self.awaiting,
            last_find: self.last_find,
            anchor: self.anchor,
            record: self.record@,
            record_changed: self.record_changed,
            last_change: match self.last_change {
                Some(v) => Some(v@),
                None => None,
            },
        }
    }
}

/// A machine in normal mode with nothing pending, on a terminal that loses
/// nothing.
pub open spec fn initial_machine() -> MachineView {
    MachineView {
        protocol: Protocol::Kitty,
        mode: EditMode::Normal,
        count: None,
        operator_count: None,
        register: None,
        operator: None,
        keys: Seq::empty(),
        object: None,
        fused_advance: false,
        awaiting: None,
        last_find: None,
        anchor: None,
        record: Seq::empty(),
        record_changed: false,
        last_change: None,
    }
}

/// `m` with nothing pending.
pub open spec fn no_pending(m: MachineView) -> MachineView {
    MachineView { count: None, operator_count: None, register: None, operator: None, keys: Seq::empty(), ..m }
}

/// Whether nothing was typed and left unused.
pub open spec fn pending_clear(m: MachineView) -> bool {
    m.count is None && m.operator_count is None && m.register is None && m.operator is None && m.keys.len() == 0
}

/// The count that applies.
pub open spec fn m_count(m: MachineView) -> u32 {
    spec_pending_count(m.count, m.operator_count)
}

/// Switching mode, said out loud when it changes anything.
pub open spec fn spec_set_mode(m: MachineView, mode: EditMode) -> (MachineView, Seq<Out>) {
    if m.mode == mode {
        (m, Seq::empty())
    } else {
        (MachineView { mode, ..m }, seq![Out::Plain(Action::Input(InputAction::SetMode { mode }))])
    }
}

/// What a completed command consumed, cleared without an Action.
pub open spec fn spec_clear(m: MachineView) -> (MachineView, Seq<Out>) {
    let (m1, o1) = if m.mode == EditMode::OperatorPending {
        spec_set_mode(m, EditMode::Normal)
    } else {
        (m, Seq::empty())
    };
    (MachineView { object: None, fused_advance: false, ..no_pending(m1) }, o1)
}

/// Everything half-typed dropped, with the Action the statusline reads.
pub open spec fn spec_cancel(m: MachineView) -> (MachineView, Seq<Out>) {
    let m1 = MachineView { object: None, awaiting: None, fused_advance: false, ..no_pending(m) };
    let o1 = seq![Out::Plain(Action::Input(InputAction::CancelPending {}))];
    if m1.mode == EditMode::OperatorPending {
        let (m2, o2) = spec_set_mode(m1, EditMode::Normal);
        (m2, o1 + o2)
    } else {
        (m1, o1)
    }
}

/// `<esc>`: out of insert, out of visual, or out of a half-typed command.
pub open spec fn spec_escape(m: MachineView) -> (MachineView, Seq<Out>) {
    match m.mode {
        EditMode::Insert | EditMode::Replace => {
            let (m1, o1) = spec_set_mode(m, EditMode::Normal);
            (m1, o1 + seq![
                Out::Plain(Action::Motion(MotionAction::MoveCursor { motion: Motion::CharLeft, count: 1 })),
                Out::Plain(Action::History(HistoryAction::CommitUndoGroup {})),
            ])
        },
        EditMode::VisualChar | EditMode::VisualLine | EditMode::VisualBlock => {
            let (m1, o1) = spec_set_mode(MachineView { anchor: None, ..m }, EditMode::Normal);
            (m1, seq![Out::Plain(Action::Motion(MotionAction::ClearSelection {}))] + o1)
        },
        EditMode::OperatorPending => spec_cancel(m),
        EditMode::Normal => if !pending_clear(m) || m.object is Some || m.awaiting is Some {
            spec_cancel(m)
        } else {
            (m, Seq::empty())
        },
    }
}

impl Machine {
    /// A machine in normal mode with nothing pending.
    pub fn new() -> (r: Self)
        ensures
            r@ == initial_machine(),
    {
        let r = Machine {
            protocol: Protocol::Kitty,
            mode: EditMode::Normal,
            pending: Pending::new(),
            object: None,
            fused_advance: false,
            awaiting: None,
            last_find: None,
            anchor: None,
            record: Vec::new(),
            record_changed: false,
            last_change: None,
        };
        assert(r@.record =~= Seq::<Key>::empty());
        r
    }

    /// The mode the statusline's chip reads.
    pub fn mode(&self) -> (r: EditMode)
        ensures
            r == self@.mode,
    {
        self.mode
    }

    /// Tells the machine what the terminal can say.
    pub fn set_protocol(&mut self, protocol: Protocol)
        ensures
            final(self)@ == (MachineView { protocol, ..old(self)@ }),
    {
        self.protocol = protocol;
    }

    /// What the machine believes the terminal can say.
    pub fn protocol(&self) -> (r: Protocol)
        ensures
            r == self@.protocol,
    {
        self.protocol
    }

    /// The pending count, register, operator and keys.
    pub fn pending(&self) -> (r: &Pending)
        ensures
            r.count == self@.count,
            r.operator_count == self@.operator_count,
            register_view(r.register) == self@.register,
            r.operator == self@.operator,
            r.keys@ == self@.keys,
    {
        &self.pending
    }

    /// The keys of the last command that changed the buffer: what
    /// `Input::RepeatLast` feeds back.
    pub fn last_change(&self) -> (r: Option<KeySeq>)
        ensures
            match self@.last_change {
                Some(keys) => r matches Some(k) && k.0@ == spec_notation_of(keys),
                None => r is None,
            },
    {
        match &self.last_change {
            Some(keys) => Some(notation_of(keys.as_slice())),
            None => None,
        }
    }

    fn reset_pending(&mut self)
        ensures
            final(self)@ == no_pending(old(self)@),
    {
        self.pending = Pending::new();
    }

    fn set_mode(&mut self, mode: EditMode, out: &mut Vec<Action>)
        ensures
            final(self)@ == spec_set_mode(old(self)@, mode).0,
            emitted(old(out)@, final(out)@, spec_set_mode(old(self)@, mode).1),
    {
        if self.mode == mode {
            proof {
                lemma_emitted_nothing(out@);
            }
            return;
        }
        self.mode = mode;
        push_out(out, Action::Input(InputAction::SetMode { mode }), Ghost(Out::Plain(Action::Input(InputAction::SetMode { mode }))));
    }

    fn clear(&mut self, out: &mut Vec<Action>)
        ensures
            final(self)@ == spec_clear(old(self)@).0,
            emitted(old(out)@, final(out)@, spec_clear(old(self)@).1),
    {
        if self.mode == EditMode::OperatorPending {
            self.set_mode(EditMode::Normal, out);
        } else {
            proof {
                lemma_emitted_nothing(out@);
            }
        }
        self.reset_pending();
        self.object = None;
        self.fused_advance = false;
    }

    fn cancel(&mut self, out: &mut Vec<Action>)
        ensures
            final(self)@ == spec_cancel(old(self)@).0,
            emitted(old(out)@, final(out)@, spec_cancel(old(self)@).1),
    {
        let ghost o0 = out@;
        push_out(out, Action::Input(InputAction::CancelPending {}), Ghost(Out::Plain(Action::Input(InputAction::CancelPending {}))));
        self.reset_pending();
        self.object = None;
        self.awaiting = None;
        self.fused_advance = false;
        if self.mode == EditMode::OperatorPending {
            let ghost o1 = out@;
            let ghost m1 = self@;
            self.set_mode(EditMode::Normal, out);
            proof {
                lemma_emitted_trans(o0, o1, out@, seq![Out::Plain(Action::Input(InputAction::CancelPending {}))], spec_set_mode(m1, EditMode::Normal).1);
            }
        }
    }

    fn escape(&mut self, out: &mut Vec<Action>)
        ensures
            final(self)@ == spec_escape(old(self)@).0,
            emitted(old(out)@, final(out)@, spec_escape(old(self)@).1),
    {
        let ghost o0 = out@;
        let ghost m0 = self@;
        match self.mode {
            EditMode::Insert | EditMode::Replace => {
                self.set_mode(EditMode::Normal, out);
                let ghost o1 = out@;
                let a1 = Action::Motion(MotionAction::MoveCursor { motion: Motion::CharLeft, count: 1 });
                push_out(out, a1, Ghost(Out::Plain(a1)));
                let ghost o2 = out@;
                let a2 = Action::History(HistoryAction::CommitUndoGroup {});
                push_out(out, a2, Ghost(Out::Plain(a2)));
                proof {
                    let s = spec_set_mode(m0, EditMode::Normal).1;
                    lemma_emitted_trans(o0, o1, o2, s, seq![Out::Plain(a1)]);
                    lemma_emitted_trans(o0, o2, out@, s + seq![Out::Plain(a1)], seq![Out::Plain(a2)]);
                    assert(s + seq![Out::Plain(a1)] + seq![Out::Plain(a2)] =~= s + seq![Out::Plain(a1), Out::Plain(a2)]);
                }
            },
            EditMode::VisualChar | EditMode::VisualLine | EditMode::VisualBlock => {
                let a1 = Action::Motion(MotionAction::ClearSelection {});
                push_out(out, a1, Ghost(Out::Plain(a1)));
                let ghost o1 = out@;
                self.anchor = None;
                let ghost m1 = self@;
                self.set_mode(EditMode::Normal, out);
                proof {
                    lemma_emitted_trans(o0, o1, out@, seq![Out::Plain(a1)], spec_set_mode(m1, EditMode::Normal).1);
                }
            },
            EditMode::OperatorPending => self.cancel(out),
            EditMode::Normal => {
                if !self.pending.is_clear() || self.object.is_some() || self.awaiting.is_some() {
                    self.cancel(out);
                } else {
                    proof {
                        lemma_emitted_nothing(out@);
                    }
                }
            },
        }
    }
}

// ---------------------------------------------------------------------------
// The buffer, as a step reads it
// ---------------------------------------------------------------------------

/// What a step reads of the buffer.
pub struct Env {
    pub rows: Seq<Seq<char>>,
    pub view: Viewport,
    pub cursor: Position,
    pub unseen: Option<Span>,
}

/// What a step reads of `t`.
pub open spec fn env_of<T: Text>(t: &T) -> Env {
    Env { rows: t.rows(), view: t.shown(), cursor: t.cursor_at(), unseen: t.unseen_region(t.cursor_at()) }
}

/// A buffer the machine can read.
pub open spec fn env_ok(e: Env) -> bool {
    text_wf(e.rows)
}

/// What a keystroke needs of the cursor for the finds it may run: a backward
/// find looks left of the cursor, which must then be at most one past the end
/// of its line. A find runs when the key names the character an `F` or `T`
/// awaits, or when it repeats the last find, in either direction.
pub open spec fn finds_in_reach(m: MachineView, e: Env) -> bool {
    &&& (m.awaiting matches Some(Awaiting::FindTarget(motion)) ==> find_in_reach(e.rows, e.cursor, motion))
    &&& (m.last_find is Some ==> find_in_reach(e.rows, e.cursor, Motion::FindCharBackward))
}

/// One more, held at `u32::MAX`.
pub open spec fn sat_inc(c: u32) -> int {
    if c < u32::MAX { c + 1 } else { u32::MAX as int }
}

fn inc(c: u32) -> (r: u32)
    ensures
        r == sat_inc(c),
{
    if c < u32::MAX { c + 1 } else { u32::MAX }
}

/// `SetCursor`, which is how an absolute position is asked for.
pub open spec fn set_cursor_out(p: Position) -> Out {
    Out::Plain(Action::Motion(MotionAction::SetCursor { position: p, buffer: None }))
}

fn set_cursor(p: Position) -> (r: Action)
    ensures
        out_matches(r, set_cursor_out(p)),
{
    Action::Motion(MotionAction::SetCursor { position: p, buffer: None })
}

/// The span from `anchor` to `cursor`, taking the character under the later
/// of the two: what visual mode means by selected.
pub open spec fn spec_span_between(anchor: Position, cursor: Position, rows: Seq<Seq<char>>) -> Span {
    let start = if before(cursor, anchor) { cursor } else { anchor };
    let end = if before(cursor, anchor) { anchor } else { cursor };
    let e1 = spec_clamp(rows, pos(end.line as int, sat_inc(end.column)));
    let e2 = if e1.column <= start.column && e1.line == start.line {
        pos(start.line as int, sat_inc(start.column))
    } else {
        e1
    };
    Span { start, end: e2 }
}

fn span_between<T: Text>(anchor: Position, cursor: Position, text: &T) -> (r: Span)
    requires
        text_wf(text.rows()),
    ensures
        r == spec_span_between(anchor, cursor, text.rows()),
{
    let earlier = cursor.line < anchor.line || (cursor.line == anchor.line && cursor.column < anchor.column);
    let start = if earlier { cursor } else { anchor };
    let end = if earlier { anchor } else { cursor };
    let e1 = clamp(text, Position { line: end.line, column: inc(end.column) });
    if e1.column <= start.column && e1.line == start.line {
        Span { start, end: Position { line: start.line, column: inc(start.column) } }
    } else {
        Span { start, end: e1 }
    }
}

/// One character back, crossing a line boundary: `<bs>`.
pub open spec fn spec_back_span(rows: Seq<Seq<char>>, cursor: Position) -> Option<Span> {
    if cursor.column > 1 {
        Some(Span { start: pos(cursor.line as int, cursor.column - 1), end: cursor })
    } else if cursor.line > 1 {
        Some(Span { start: eol(rows, (cursor.line - 1) as u32), end: cursor })
    } else {
        None
    }
}

fn back_span<T: Text>(text: &T, cursor: Position) -> (r: Option<Span>)
    requires
        text_wf(text.rows()),
    ensures
        r == spec_back_span(text.rows(), cursor),
{
    if cursor.column > 1 {
        Some(Span { start: Position { line: cursor.line, column: cursor.column - 1 }, end: cursor })
    } else if cursor.line > 1 {
        Some(Span { start: end_of_line(text, cursor.line - 1), end: cursor })
    } else {
        None
    }
}

/// `a * b`, held inside `i64`.
pub open spec fn sat_mul_i64(a: i64, b: u32) -> i64 {
    let p = a * b;
    if p > i64::MAX { i64::MAX } else if p < i64::MIN { i64::MIN } else { p as i64 }
}

fn i64_saturating_mul(a: i64, b: u32) -> (r: i64)
    ensures
        r == sat_mul_i64(a, b),
{
    match a.checked_mul(b as i64) {
        Some(v) => v,
        None => {
            proof {
                if a >= 0 {
                    assert(a * b >= 0) by (nonlinear_arith)
                        requires
                            a >= 0,
                            b >= 0,
                    ;
                } else {
                    assert(a * b <= 0) by (nonlinear_arith)
                        requires
                            a < 0,
                            b >= 0,
                    ;
                }
            }
            if a < 0 { i64::MIN } else { i64::MAX }
        },
    }
}

/// A scroll request repeated `count` times as one request.
pub open spec fn spec_scaled(request: ScrollRequest, count: u32) -> ScrollRequest {
    match request {
        ScrollRequest::Rows { rows } => ScrollRequest::Rows { rows: sat_mul_i64(rows, count) },
        ScrollRequest::Pages { pages } => ScrollRequest::Pages { pages: sat_mul_i64(pages, count) },
        ScrollRequest::Columns { columns } => ScrollRequest::Columns { columns: sat_mul_i64(columns, count) },
        other => other,
    }
}

/// A scroll request repeated `count` times, without repeating the Action:
/// the viewport has one writer.
fn scaled(request: ScrollRequest, count: u32) -> (r: ScrollRequest)
    ensures
        r == spec_scaled(request, count),
{
    match request {
        ScrollRequest::Rows { rows } => ScrollRequest::Rows { rows: i64_saturating_mul(rows, count) },
        ScrollRequest::Pages { pages } => ScrollRequest::Pages { pages: i64_saturating_mul(pages, count) },
        ScrollRequest::Columns { columns } => ScrollRequest::Columns { columns: i64_saturating_mul(columns, count) },
        other => other,
    }
}

/// A find in the other direction: the whole of what `,` means.
pub open spec fn spec_reversed(motion: Motion) -> Motion {
    match motion {
        Motion::FindCharForward => Motion::FindCharBackward,
        Motion::FindCharBackward => Motion::FindCharForward,
        Motion::TillCharForward => Motion::TillCharBackward,
        Motion::TillCharBackward => Motion::TillCharForward,
        other => other,
    }
}

fn reversed(motion: Motion) -> (r: Motion)
    ensures
        r == spec_reversed(motion),
{
    match motion {
        Motion::FindCharForward => Motion::FindCharBackward,
        Motion::FindCharBackward => Motion::FindCharForward,
        Motion::TillCharForward => Motion::TillCharBackward,
        Motion::TillCharBackward => Motion::TillCharForward,
        other => other,
    }
}

/// The selection a visual mode makes.
pub open spec fn spec_selection_kind(m: MachineView) -> SelectionKind {
    match m.mode {
        EditMode::VisualLine => SelectionKind::Line,
        EditMode::VisualBlock => SelectionKind::Block,
        _ => SelectionKind::Char,
    }
}

// ---------------------------------------------------------------------------
// The grammar, as values
// ---------------------------------------------------------------------------

/// A move to a position the machine worked out itself, extending a live
/// selection in the same breath.
pub open spec fn spec_jump(m: MachineView, p: Position, e: Env) -> (MachineView, Seq<Out>) {
    let o1 = match m.anchor {
        Some(a) => seq![Out::Plain(Action::Motion(MotionAction::SelectRange {
            span: spec_span_between(a, p, e.rows),
            kind: spec_selection_kind(m),
        }))],
        None => Seq::empty(),
    };
    let (m2, o2) = spec_clear(m);
    (m2, o1 + seq![set_cursor_out(p)] + o2)
}

/// What an operator does over its operand, before the cursor lands.
pub open spec fn spec_act(m: MachineView, op: Operator, span: Span) -> Seq<Out> {
    let sel = Target::Selection {};
    match op {
        Operator::Delete | Operator::Change => seq![
            Out::Yank { register: m.register },
            Out::Plain(Action::Buffer(BufferAction::Delete { span })),
        ],
        Operator::Yank => seq![Out::Yank { register: m.register }],
        Operator::Indent => seq![Out::Plain(Action::Buffer(BufferAction::Indent { target: sel, delta: 1 }))],
        Operator::Dedent => seq![Out::Plain(Action::Buffer(BufferAction::Indent { target: sel, delta: -1i64 }))],
        Operator::ToggleComment => seq![Out::Plain(Action::Buffer(BufferAction::ToggleComment { target: sel }))],
        Operator::Upper => seq![Out::Plain(Action::Buffer(BufferAction::SetCase { target: sel, case: CaseChange::Upper }))],
        Operator::Lower => seq![Out::Plain(Action::Buffer(BufferAction::SetCase { target: sel, case: CaseChange::Lower }))],
        Operator::ToggleCase => seq![Out::Plain(Action::Buffer(BufferAction::SetCase { target: sel, case: CaseChange::Toggle }))],
        Operator::MarkSeen => seq![Out::Plain(Action::Region(RegionAction::MarkSeen { target: sel }))],
    }
}

/// Where an operator leaves the cursor: mostly at the start of what it
/// operated on. A linewise yank keeps its column, `~` moves right, and a
/// linewise delete, indent or dedent then goes to the first non-blank.
/// Marking seen moves nothing.
pub open spec fn spec_land(m: MachineView, op: Operator, span: Span, kind: SelectionKind, e: Env) -> Seq<Out> {
    if op == Operator::MarkSeen {
        Seq::empty()
    } else if m.fused_advance {
        seq![set_cursor_out(spec_clamp(e.rows, span.end))]
    } else {
        let p = if op == Operator::Yank && kind == SelectionKind::Line {
            Position { line: span.start.line, column: e.cursor.column }
        } else {
            span.start
        };
        let tail = if kind == SelectionKind::Line && (op == Operator::Delete || op == Operator::Indent
            || op == Operator::Dedent) {
            seq![Out::Plain(Action::Motion(MotionAction::MoveCursor { motion: Motion::FirstNonBlank, count: 1 }))]
        } else {
            Seq::empty()
        };
        seq![set_cursor_out(p)] + tail
    }
}

/// Select, act, land, clear: the one path an operator takes. `c` leaves the
/// undo group open for what is typed next; a yank and a mark-seen close none.
pub open spec fn spec_operate(m: MachineView, op: Operator, span: Span, kind: SelectionKind, e: Env) -> (MachineView, Seq<Out>) {
    let head = seq![Out::Plain(Action::Motion(MotionAction::SelectRange { span, kind }))] + spec_act(m, op, span)
        + spec_land(m, op, span, kind, e) + seq![Out::Plain(Action::Motion(MotionAction::ClearSelection {}))];
    let m1 = MachineView { anchor: None, ..m };
    let (m2, o2) = if op == Operator::Change {
        spec_set_mode(m1, EditMode::Insert)
    } else {
        let (mm, oo) = spec_set_mode(m1, EditMode::Normal);
        if op == Operator::Yank || op == Operator::MarkSeen {
            (mm, oo)
        } else {
            (mm, oo + seq![Out::Plain(Action::History(HistoryAction::CommitUndoGroup {}))])
        }
    };
    (MachineView { object: None, fused_advance: false, ..no_pending(m2) }, head + o2)
}

/// A motion: the operand of a pending operator, a find resolved here, an
/// extension of a live selection, or a cursor move.
pub open spec fn spec_motion(m: MachineView, motion: Motion, count: u32, target: Option<char>, e: Env) -> (MachineView, Seq<Out>) {
    match m.operator {
        Some(op) => match spec_motion_span(e.rows, e.view, e.cursor, motion, count, target) {
            Some((span, kind)) => spec_operate(m, op, span, kind, e),
            None => spec_cancel(m),
        },
        None => if target is Some {
            spec_jump(m, spec_cursor_after(e.rows, e.view, e.cursor, motion, count, target), e)
        } else {
            let a = if m.anchor is Some {
                Action::Motion(MotionAction::ExtendSelection { motion, count })
            } else {
                Action::Motion(MotionAction::MoveCursor { motion, count })
            };
            let (m2, o2) = spec_clear(m);
            (m2, seq![Out::Plain(a)] + o2)
        },
    }
}

/// `gg` / `G`: a count names a line rather than repeating.
pub open spec fn spec_goto(m: MachineView, g: Goto, e: Env) -> (MachineView, Seq<Out>) {
    let counted = m.count is Some || m.operator_count is Some;
    let lines = line_count(e.rows);
    let line: int = if counted {
        m_count(m) as int
    } else {
        match g {
            Goto::First => 1,
            Goto::Last => lines,
        }
    };
    match m.operator {
        Some(op) => {
            let c = e.cursor.line as int;
            let first = if c <= line { c } else { line };
            let last = if c <= line { line } else { c };
            spec_operate(m, op, spec_line_span(e.rows, first as u32, last as u32), SelectionKind::Line, e)
        },
        None => spec_jump(m, spec_first_non_blank(e.rows, clamp_int(line, 1, lines) as u32), e),
    }
}

/// `r{char}`: `count` characters under the cursor become `c`, and the cursor
/// stays on the last one written; refused when the line is too short.
pub open spec fn spec_replace_char(m: MachineView, c: char, e: Env) -> (MachineView, Seq<Out>) {
    let count = m_count(m);
    let w = spec_width(e.rows, e.cursor.line);
    if e.cursor.column + count > w + 1 {
        spec_cancel(m)
    } else {
        let span = Span { start: e.cursor, end: pos(e.cursor.line as int, e.cursor.column + count) };
        let landing = spec_clamp(e.rows, pos(e.cursor.line as int, e.cursor.column + count - 1));
        let (m2, o2) = spec_clear(m);
        (m2, seq![
            Out::Replace { span, text: Seq::new(count as nat, |i: int| c) },
            set_cursor_out(landing),
            Out::Plain(Action::History(HistoryAction::CommitUndoGroup {})),
        ] + o2)
    }
}

/// An operator key: doubled it is linewise over `count` lines, in visual mode
/// it takes the selection, and otherwise it waits for an operand.
pub open spec fn spec_operator(m: MachineView, op: Operator, e: Env) -> (MachineView, Seq<Out>) {
    if m.operator == Some(op) {
        let first = e.cursor.line;
        let last = first + m_count(m) - 1;
        let last = if last > u32::MAX { u32::MAX as int } else { last };
        spec_operate(m, op, spec_line_span(e.rows, first, last as u32), SelectionKind::Line, e)
    } else {
        match m.anchor {
            Some(a) => {
                let kind = spec_selection_kind(m);
                let span = if kind == SelectionKind::Line {
                    let lo = if a.line <= e.cursor.line { a.line } else { e.cursor.line };
                    let hi = if a.line <= e.cursor.line { e.cursor.line } else { a.line };
                    spec_line_span(e.rows, lo, hi)
                } else {
                    spec_span_between(a, e.cursor, e.rows)
                };
                spec_operate(m, op, span, kind, e)
            },
            None => spec_set_mode(MachineView { operator: Some(op), ..m }, EditMode::OperatorPending),
        }
    }
}

/// A text object as an operand: the request is recorded, then resolved.
pub open spec fn spec_object_operand(m: MachineView, object: TextObject, delimiter: Option<char>, e: Env) -> (MachineView, Seq<Out>) {
    let inner = match m.object {
        Some(b) => b,
        None => true,
    };
    let m1 = MachineView { object: None, ..m };
    let count = m_count(m1);
    let o1 = seq![Out::Plain(Action::Motion(MotionAction::SelectObject { object, inner, count, delimiter }))];
    match spec_object_span(e.rows, e.unseen, e.cursor, object, inner, delimiter) {
        Some((span, kind)) => match m1.operator {
            Some(op) => {
                let (m2, o2) = spec_operate(m1, op, span, kind, e);
                (m2, o1 + o2)
            },
            None => {
                let sel = if m1.anchor is Some {
                    seq![Out::Plain(Action::Motion(MotionAction::SelectRange { span, kind }))]
                } else {
                    Seq::empty()
                };
                let (m2, o2) = spec_clear(m1);
                (m2, o1 + sel + o2)
            },
        },
        None => if m1.operator is Some {
            let (m2, o2) = spec_cancel(m1);
            (m2, o1 + o2)
        } else {
            let (m2, o2) = spec_clear(m1);
            (m2, o1 + o2)
        },
    }
}

/// `i`, `a`, `I`, `A`, `o`, `O`, `R`.
pub open spec fn spec_enter(m: MachineView, entry: Entry, e: Env) -> (MachineView, Seq<Out>) {
    let c = e.cursor;
    let row = row_of(e.rows, c.line);
    let indent = row.take(indent_of(row) as int);
    let o1 = match entry {
        Entry::Before => Seq::empty(),
        Entry::After => seq![set_cursor_out(pos(c.line as int, sat_inc(c.column)))],
        Entry::LineStart => seq![set_cursor_out(spec_first_non_blank(e.rows, c.line))],
        Entry::LineEnd => seq![set_cursor_out(eol(e.rows, c.line))],
        Entry::OpenBelow => seq![Out::Insert { at: eol(e.rows, c.line), text: seq!['\n'] + indent }],
        Entry::OpenAbove => seq![
            Out::Insert { at: pos(c.line as int, 1), text: indent + seq!['\n'] },
            set_cursor_out(pos(c.line as int, indent.len() + 1int)),
        ],
        Entry::Replace => Seq::empty(),
    };
    let (m2, o2) = spec_set_mode(m, if entry == Entry::Replace { EditMode::Replace } else { EditMode::Insert });
    (no_pending(m2), o1 + o2)
}

/// `v`, `V`, `<C-v>`, and the same key again leaves.
pub open spec fn spec_select(m: MachineView, kind: SelectionKind, e: Env) -> (MachineView, Seq<Out>) {
    let wanted = match kind {
        SelectionKind::Char => EditMode::VisualChar,
        SelectionKind::Line => EditMode::VisualLine,
        SelectionKind::Block => EditMode::VisualBlock,
    };
    if m.mode == wanted {
        let (m2, o2) = spec_set_mode(MachineView { anchor: None, ..m }, EditMode::Normal);
        let (m3, o3) = spec_clear(m2);
        (m3, seq![Out::Plain(Action::Motion(MotionAction::ClearSelection {}))] + o2 + o3)
    } else {
        let (m2, o2) = spec_set_mode(MachineView { anchor: Some(e.cursor), ..m }, wanted);
        (no_pending(m2), o2 + seq![Out::Plain(Action::Motion(MotionAction::SelectRange {
            span: spec_span_between(e.cursor, e.cursor, e.rows),
            kind,
        }))])
    }
}

/// A key in insert or replace mode that no binding wanted: text, or a
/// deletion for `<bs>` and `<del>`.
pub open spec fn spec_insert_key(m: MachineView, k: Key, e: Env) -> Seq<Out> {
    let c = e.cursor;
    let one = Span { start: c, end: pos(c.line as int, sat_inc(c.column)) };
    let typed: Option<Seq<char>> = match k.code {
        Code::Named(Named::Enter) => Some(seq!['\n']),
        Code::Named(Named::Tab) => Some(seq!['\t']),
        Code::Named(Named::Backspace) => None,
        Code::Named(Named::Delete) => None,
        _ => match spec_typed(k) {
            Some(ch) => Some(seq![ch]),
            None => None,
        },
    };
    let deleted: Seq<Out> = match k.code {
        Code::Named(Named::Backspace) => match spec_back_span(e.rows, c) {
            Some(span) => seq![Out::Plain(Action::Buffer(BufferAction::Delete { span }))],
            None => Seq::empty(),
        },
        Code::Named(Named::Delete) => seq![Out::Plain(Action::Buffer(BufferAction::Delete { span: one }))],
        _ => Seq::empty(),
    };
    match typed {
        None => deleted,
        Some(t) => if m.mode == EditMode::Replace {
            seq![Out::Replace { span: one, text: t }]
        } else {
            seq![Out::Insert { at: c, text: t }]
        },
    }
}

proof fn lemma_emitted_more(a: Seq<Action>, b: Seq<Action>, o1: Seq<Out>, x: Action, o: Out)
    requires
        emitted(a, b, o1),
        out_matches(x, o),
    ensures
        emitted(a, b.push(x), o1.push(o)),
{
    lemma_emitted_push(b, x, o);
    lemma_emitted_trans(a, b, b.push(x), o1, seq![o]);
    assert(o1 + seq![o] =~= o1.push(o));
}

/// Pushes `a`, which `o` describes, onto a run that began at `start`.
fn emit(out: &mut Vec<Action>, a: Action, start: Ghost<Seq<Action>>, acc: Ghost<Seq<Out>>, o: Ghost<Out>)
    requires
        emitted(start@, old(out)@, acc@),
        out_matches(a, o@),
    ensures
        emitted(start@, final(out)@, acc@.push(o@)),
{
    let ghost b = out@;
    out.push(a);
    proof {
        lemma_emitted_more(start@, b, acc@, a, o@);
    }
}

fn clone_register(r: &Option<RegisterName>) -> (c: Option<RegisterName>)
    ensures
        register_view(c) == register_view(*r),
{
    match r {
        Some(n) => Some(RegisterName(n.0.clone())),
        None => None,
    }
}

impl Machine {
    fn jump<T: Text>(&mut self, p: Position, text: &T, out: &mut Vec<Action>)
        requires
            text_wf(text.rows()),
        ensures
            final(self)@ == spec_jump(old(self)@, p, env_of(text)).0,
            emitted(old(out)@, final(out)@, spec_jump(old(self)@, p, env_of(text)).1),
    {
        let ghost o0 = out@;
        let ghost m0 = self@;
        let ghost mut acc = Seq::<Out>::empty();
        proof {
            lemma_emitted_nothing(o0);
        }
        match self.anchor {
            Some(a) => {
                let kind = self.selection_kind();
                let x = Action::Motion(MotionAction::SelectRange { span: span_between(a, p, text), kind });
                emit(out, x, Ghost(o0), Ghost(acc), Ghost(Out::Plain(x)));
                proof {
                    acc = acc.push(Out::Plain(x));
                }
            },
            None => {},
        }
        let x = set_cursor(p);
        emit(out, x, Ghost(o0), Ghost(acc), Ghost(set_cursor_out(p)));
        proof {
            acc = acc.push(set_cursor_out(p));
        }
        let ghost o1 = out@;
        let ghost m1 = self@;
        self.clear(out);
        proof {
            lemma_emitted_trans(o0, o1, out@, acc, spec_clear(m1).1);
            let expect = spec_jump(m0, p, env_of(text)).1;
            assert(acc + spec_clear(m1).1 =~= expect);
        }
    }

    fn selection_kind(&self) -> (r: SelectionKind)
        ensures
            r == spec_selection_kind(self@),
    {
        match self.mode {
            EditMode::VisualLine => SelectionKind::Line,
            EditMode::VisualBlock => SelectionKind::Block,
            _ => SelectionKind::Char,
        }
    }

    fn act(&self, op: Operator, span: Span, out: &mut Vec<Action>)
        ensures
            emitted(old(out)@, final(out)@, spec_act(self@, op, span)),
    {
        let ghost o0 = out@;
        proof {
            lemma_emitted_nothing(o0);
        }
        let ghost e = Seq::<Out>::empty();
        match op {
            Operator::Delete | Operator::Change => {
                let y = Action::Buffer(BufferAction::Yank { target: Target::Selection {}, register: clone_register(&self.pending.register) });
                emit(out, y, Ghost(o0), Ghost(e), Ghost(Out::Yank { register: self@.register }));
                let d = Action::Buffer(BufferAction::Delete { span });
                emit(out, d, Ghost(o0), Ghost(e.push(Out::Yank { register: self@.register })), Ghost(Out::Plain(d)));
                assert(e.push(Out::Yank { register: self@.register }).push(Out::Plain(d)) =~= spec_act(self@, op, span));
            },
            Operator::Yank => {
                let y = Action::Buffer(BufferAction::Yank { target: Target::Selection {}, register: clone_register(&self.pending.register) });
                emit(out, y, Ghost(o0), Ghost(e), Ghost(Out::Yank { register: self@.register }));
                assert(e.push(Out::Yank { register: self@.register }) =~= spec_act(self@, op, span));
            },
            _ => {
                let x = match op {
                    Operator::Indent => Action::Buffer(BufferAction::Indent { target: Target::Selection {}, delta: 1 }),
                    Operator::Dedent => Action::Buffer(BufferAction::Indent { target: Target::Selection {}, delta: -1 }),
                    Operator::ToggleComment => Action::Buffer(BufferAction::ToggleComment { target: Target::Selection {} }),
                    Operator::Upper => Action::Buffer(BufferAction::SetCase { target: Target::Selection {}, case: CaseChange::Upper }),
                    Operator::Lower => Action::Buffer(BufferAction::SetCase { target: Target::Selection {}, case: CaseChange::Lower }),
                    Operator::ToggleCase => Action::Buffer(BufferAction::SetCase { target: Target::Selection {}, case: CaseChange::Toggle }),
                    _ => Action::Region(RegionAction::MarkSeen { target: Target::Selection {} }),
                };
                emit(out, x, Ghost(o0), Ghost(e), Ghost(Out::Plain(x)));
                assert(e.push(Out::Plain(x)) =~= spec_act(self@, op, span));
            },
        }
    }

    fn land<T: Text>(&self, op: Operator, span: Span, kind: SelectionKind, text: &T, out: &mut Vec<Action>)
        requires
            text_wf(text.rows()),
        ensures
            emitted(old(out)@, final(out)@, spec_land(self@, op, span, kind, env_of(text))),
    {
        let ghost o0 = out@;
        proof {
            lemma_emitted_nothing(o0);
        }
        let ghost e = Seq::<Out>::empty();
        if op == Operator::MarkSeen {
            return;
        }
        if self.fused_advance {
            let p = clamp(text, span.end);
            emit(out, set_cursor(p), Ghost(o0), Ghost(e), Ghost(set_cursor_out(p)));
            assert(e.push(set_cursor_out(p)) =~= spec_land(self@, op, span, kind, env_of(text)));
            return;
        }
        let p = if op == Operator::Yank && kind == SelectionKind::Line {
            Position { line: span.start.line, column: text.cursor().column }
        } else {
            span.start
        };
        emit(out, set_cursor(p), Ghost(o0), Ghost(e), Ghost(set_cursor_out(p)));
        if kind == SelectionKind::Line && (op == Operator::Delete || op == Operator::Indent || op == Operator::Dedent) {
            let x = Action::Motion(MotionAction::MoveCursor { motion: Motion::FirstNonBlank, count: 1 });
            emit(out, x, Ghost(o0), Ghost(e.push(set_cursor_out(p))), Ghost(Out::Plain(x)));
            assert(e.push(set_cursor_out(p)).push(Out::Plain(x)) =~= spec_land(self@, op, span, kind, env_of(text)));
        } else {
            assert(e.push(set_cursor_out(p)) =~= spec_land(self@, op, span, kind, env_of(text)));
        }
    }

    fn operate<T: Text>(&mut self, op: Operator, span: Span, kind: SelectionKind, text: &T, out: &mut Vec<Action>)
        requires
            text_wf(text.rows()),
        ensures
            final(self)@ == spec_operate(old(self)@, op, span, kind, env_of(text)).0,
            emitted(old(out)@, final(out)@, spec_operate(old(self)@, op, span, kind, env_of(text)).1),
    {
        let ghost o0 = out@;
        let ghost m0 = self@;
        proof {
            lemma_emitted_nothing(o0);
        }
        let sr = Action::Motion(MotionAction::SelectRange { span, kind });
        emit(out, sr, Ghost(o0), Ghost(Seq::empty()), Ghost(Out::Plain(sr)));
        let ghost acc = Seq::<Out>::empty().push(Out::Plain(sr));
        let ghost o1 = out@;
        self.act(op, span, out);
        proof {
            lemma_emitted_trans(o0, o1, out@, acc, spec_act(m0, op, span));
        }
        let ghost acc = acc + spec_act(m0, op, span);
        let ghost o2 = out@;
        self.land(op, span, kind, text, out);
        proof {
            lemma_emitted_trans(o0, o2, out@, acc, spec_land(m0, op, span, kind, env_of(text)));
        }
        let ghost acc = acc + spec_land(m0, op, span, kind, env_of(text));
        let cs = Action::Motion(MotionAction::ClearSelection {});
        emit(out, cs, Ghost(o0), Ghost(acc), Ghost(Out::Plain(cs)));
        let ghost acc = acc.push(Out::Plain(cs));
        self.anchor = None;
        let ghost m1 = self@;
        let ghost o3 = out@;
        if op == Operator::Change {
            self.set_mode(EditMode::Insert, out);
            proof {
                lemma_emitted_trans(o0, o3, out@, acc, spec_set_mode(m1, EditMode::Insert).1);
            }
        } else {
            self.set_mode(EditMode::Normal, out);
            proof {
                lemma_emitted_trans(o0, o3, out@, acc, spec_set_mode(m1, EditMode::Normal).1);
            }
            if !(op == Operator::Yank || op == Operator::MarkSeen) {
                let c = Action::History(HistoryAction::CommitUndoGroup {});
                emit(out, c, Ghost(o0), Ghost(acc + spec_set_mode(m1, EditMode::Normal).1), Ghost(Out::Plain(c)));
            }
        }
        self.reset_pending();
        self.object = None;
        self.fused_advance = false;
        proof {
            let expect = spec_operate(m0, op, span, kind, env_of(text)).1;
            let head = seq![Out::Plain(sr)] + spec_act(m0, op, span) + spec_land(m0, op, span, kind, env_of(text))
                + seq![Out::Plain(cs)];
            assert(acc =~= head);
            if op == Operator::Change {
                assert(acc + spec_set_mode(m1, EditMode::Insert).1 =~= expect);
            } else if op == Operator::Yank || op == Operator::MarkSeen {
                assert(acc + spec_set_mode(m1, EditMode::Normal).1 =~= expect);
            } else {
                assert((acc + spec_set_mode(m1, EditMode::Normal).1).push(
                    Out::Plain(Action::History(HistoryAction::CommitUndoGroup {})),
                ) =~= expect);
            }
        }
    }
}

proof fn lemma_reach_any(rows: Seq<Seq<char>>, c: Position, motion: Motion)
    requires
        find_in_reach(rows, c, Motion::FindCharBackward),
    ensures
        find_in_reach(rows, c, motion),
{
}

impl Machine {
    fn motion<T: Text>(&mut self, motion: Motion, count: u32, target: Option<char>, text: &T, out: &mut Vec<Action>)
        requires
            env_ok(env_of(text)),
            target is Some ==> find_in_reach(text.rows(), text.cursor_at(), motion),
        ensures
            final(self)@ == spec_motion(old(self)@, motion, count, target, env_of(text)).0,
            emitted(old(out)@, final(out)@, spec_motion(old(self)@, motion, count, target, env_of(text)).1),
    {
        let cursor = text.cursor();
        match self.pending.operator {
            Some(op) => {
                match motion_span_with_target(text, cursor, motion, count, target) {
                    Some((span, kind)) => self.operate(op, span, kind, text, out),
                    None => self.cancel(out),
                }
                return;
            },
            None => {},
        }
        if target.is_some() {
            let p = cursor_after_with_target(text, cursor, motion, count, target);
            self.jump(p, text, out);
            return;
        }
        let ghost o0 = out@;
        let ghost m0 = self@;
        let a = if self.anchor.is_some() {
            Action::Motion(MotionAction::ExtendSelection { motion, count })
        } else {
            Action::Motion(MotionAction::MoveCursor { motion, count })
        };
        push_out(out, a, Ghost(Out::Plain(a)));
        let ghost o1 = out@;
        self.clear(out);
        proof {
            lemma_emitted_trans(o0, o1, out@, seq![Out::Plain(a)], spec_clear(m0).1);
        }
    }

    fn goto<T: Text>(&mut self, g: Goto, text: &T, out: &mut Vec<Action>)
        requires
            env_ok(env_of(text)),
        ensures
            final(self)@ == spec_goto(old(self)@, g, env_of(text)).0,
            emitted(old(out)@, final(out)@, spec_goto(old(self)@, g, env_of(text)).1),
    {
        let counted = self.pending.count.is_some() || self.pending.operator_count.is_some();
        let lines = line_count_of(text);
        let line: u32 = if counted {
            self.pending.count()
        } else {
            match g {
                Goto::First => 1,
                Goto::Last => lines,
            }
        };
        let cursor = text.cursor();
        match self.pending.operator {
            Some(op) => {
                let first = if cursor.line <= line { cursor.line } else { line };
                let last = if cursor.line <= line { line } else { cursor.line };
                let span = line_span(text, first, last);
                self.operate(op, span, SelectionKind::Line, text, out);
            },
            None => {
                let target = if line < 1 {
                    1
                } else if line > lines {
                    lines
                } else {
                    line
                };
                let p = first_non_blank(text, target);
                self.jump(p, text, out);
            },
        }
    }

    fn replace_char<T: Text>(&mut self, c: char, text: &T, out: &mut Vec<Action>)
        requires
            env_ok(env_of(text)),
        ensures
            final(self)@ == spec_replace_char(old(self)@, c, env_of(text)).0,
            emitted(old(out)@, final(out)@, spec_replace_char(old(self)@, c, env_of(text)).1),
    {
        let count = self.pending.count();
        let cursor = text.cursor();
        let w = width(text, cursor.line);
        if cursor.column as u64 + count as u64 > w as u64 + 1 {
            self.cancel(out);
            return;
        }
        let ghost o0 = out@;
        let ghost m0 = self@;
        proof {
            lemma_emitted_nothing(o0);
        }
        let mut written = String::new();
        let mut i: u32 = 0;
        while i < count
            invariant
                i <= count,
                written@ == Seq::new(i as nat, |k: int| c),
            decreases count - i,
        {
            push_char(&mut written, c);
            i = i + 1;
            assert(written@ =~= Seq::new(i as nat, |k: int| c));
        }
        let span = Span { start: cursor, end: Position { line: cursor.line, column: cursor.column + count } };
        let r = Action::Buffer(BufferAction::Replace { span, text: written });
        let ghost ro = Out::Replace { span, text: Seq::new(count as nat, |k: int| c) };
        emit(out, r, Ghost(o0), Ghost(Seq::empty()), Ghost(ro));
        let landing = clamp(text, Position { line: cursor.line, column: cursor.column + count - 1 });
        let ghost s1 = seq![ro];
        emit(out, set_cursor(landing), Ghost(o0), Ghost(s1), Ghost(set_cursor_out(landing)));
        let commit = Action::History(HistoryAction::CommitUndoGroup {});
        let ghost s2 = seq![ro, set_cursor_out(landing)];
        assert(s1.push(set_cursor_out(landing)) =~= s2);
        emit(out, commit, Ghost(o0), Ghost(s2), Ghost(Out::Plain(commit)));
        let ghost o1 = out@;
        self.clear(out);
        proof {
            let acc = seq![ro, set_cursor_out(landing)].push(Out::Plain(commit));
            lemma_emitted_trans(o0, o1, out@, acc, spec_clear(m0).1);
            assert(acc + spec_clear(m0).1 =~= spec_replace_char(m0, c, env_of(text)).1);
        }
    }

    fn operator<T: Text>(&mut self, op: Operator, text: &T, out: &mut Vec<Action>)
        requires
            env_ok(env_of(text)),
        ensures
            final(self)@ == spec_operator(old(self)@, op, env_of(text)).0,
            emitted(old(out)@, final(out)@, spec_operator(old(self)@, op, env_of(text)).1),
    {
        let cursor = text.cursor();
        if self.pending.operator == Some(op) {
            let first = cursor.line;
            let n = self.pending.count();
            let last64: u64 = first as u64 + n as u64 - 1;
            let last: u32 = if last64 > u32::MAX as u64 { u32::MAX } else { last64 as u32 };
            let span = line_span(text, first, last);
            self.operate(op, span, SelectionKind::Line, text, out);
            return;
        }
        match self.anchor {
            Some(a) => {
                let kind = self.selection_kind();
                let span = if kind == SelectionKind::Line {
                    let lo = if a.line <= cursor.line { a.line } else { cursor.line };
                    let hi = if a.line <= cursor.line { cursor.line } else { a.line };
                    line_span(text, lo, hi)
                } else {
                    span_between(a, cursor, text)
                };
                self.operate(op, span, kind, text, out);
            },
            None => {
                self.pending.operator = Some(op);
                self.set_mode(EditMode::OperatorPending, out);
            },
        }
    }

    fn object_operand<T: Text>(&mut self, object: TextObject, delimiter: Option<char>, text: &T, out: &mut Vec<Action>)
        requires
            env_ok(env_of(text)),
        ensures
            final(self)@ == spec_object_operand(old(self)@, object, delimiter, env_of(text)).0,
            emitted(old(out)@, final(out)@, spec_object_operand(old(self)@, object, delimiter, env_of(text)).1),
    {
        let ghost o0 = out@;
        let ghost m0 = self@;
        let inner = match self.object {
            Some(b) => b,
            None => true,
        };
        self.object = None;
        let ghost m1 = self@;
        let count = self.pending.count();
        let so = Action::Motion(MotionAction::SelectObject { object, inner, count, delimiter });
        push_out(out, so, Ghost(Out::Plain(so)));
        let ghost o1 = out@;
        let ghost acc = seq![Out::Plain(so)];
        let cursor = text.cursor();
        let resolved = object_span(text, cursor, object, inner, count, delimiter);
        match resolved {
            Some((span, kind)) => match self.pending.operator {
                Some(op) => {
                    self.operate(op, span, kind, text, out);
                    proof {
                        lemma_emitted_trans(o0, o1, out@, acc, spec_operate(m1, op, span, kind, env_of(text)).1);
                    }
                },
                None => {
                    let ghost mut acc2 = acc;
                    if self.anchor.is_some() {
                        let x = Action::Motion(MotionAction::SelectRange { span, kind });
                        emit(out, x, Ghost(o0), Ghost(acc), Ghost(Out::Plain(x)));
                        proof {
                            acc2 = acc.push(Out::Plain(x));
                        }
                    }
                    let ghost o2 = out@;
                    self.clear(out);
                    proof {
                        lemma_emitted_trans(o0, o2, out@, acc2, spec_clear(m1).1);
                        let sel = if m1.anchor is Some {
                            seq![Out::Plain(Action::Motion(MotionAction::SelectRange { span, kind }))]
                        } else {
                            Seq::empty()
                        };
                        assert(acc2 =~= acc + sel);
                    }
                },
            },
            None => {
                if self.pending.operator.is_some() {
                    self.cancel(out);
                    proof {
                        lemma_emitted_trans(o0, o1, out@, acc, spec_cancel(m1).1);
                    }
                } else {
                    self.clear(out);
                    proof {
                        lemma_emitted_trans(o0, o1, out@, acc, spec_clear(m1).1);
                    }
                }
            },
        }
    }

    fn enter<T: Text>(&mut self, entry: Entry, text: &T, out: &mut Vec<Action>)
        requires
            env_ok(env_of(text)),
        ensures
            final(self)@ == spec_enter(old(self)@, entry, env_of(text)).0,
            emitted(old(out)@, final(out)@, spec_enter(old(self)@, entry, env_of(text)).1),
    {
        let ghost o0 = out@;
        let ghost m0 = self@;
        proof {
            lemma_emitted_nothing(o0);
        }
        let cursor = text.cursor();
        let row = row_chars(text, cursor.line);
        let k = indent_chars_of(&row);
        let mut indent: Vec<char> = Vec::new();
        let mut i: usize = 0;
        while i < k
            invariant
                k <= row@.len(),
                i <= k,
                indent@ == row@.take(i as int),
            decreases k - i,
        {
            indent.push(row[i]);
            i = i + 1;
            assert(indent@ =~= row@.take(i as int));
        }
        let ghost e = Seq::<Out>::empty();
        let ghost mut acc = e;
        match entry {
            Entry::Before | Entry::Replace => {},
            Entry::After => {
                let p = Position { line: cursor.line, column: inc(cursor.column) };
                emit(out, set_cursor(p), Ghost(o0), Ghost(e), Ghost(set_cursor_out(p)));
                proof {
                    acc = e.push(set_cursor_out(p));
                }
            },
            Entry::LineStart => {
                let p = first_non_blank(text, cursor.line);
                emit(out, set_cursor(p), Ghost(o0), Ghost(e), Ghost(set_cursor_out(p)));
                proof {
                    acc = e.push(set_cursor_out(p));
                }
            },
            Entry::LineEnd => {
                let p = end_of_line(text, cursor.line);
                emit(out, set_cursor(p), Ghost(o0), Ghost(e), Ghost(set_cursor_out(p)));
                proof {
                    acc = e.push(set_cursor_out(p));
                }
            },
            Entry::OpenBelow => {
                let at = end_of_line(text, cursor.line);
                let mut t = String::new();
                push_char(&mut t, '\n');
                push_chars(&mut t, &indent);
                let ghost o = Out::Insert { at, text: seq!['\n'] + indent@ };
                emit(out, Action::Buffer(BufferAction::Insert { at, text: t }), Ghost(o0), Ghost(e), Ghost(o));
                proof {
                    acc = e.push(o);
                }
            },
            Entry::OpenAbove => {
                let at = Position { line: cursor.line, column: 1 };
                let mut t = String::new();
                push_chars(&mut t, &indent);
                push_char(&mut t, '\n');
                assert(t@ =~= indent@ + seq!['\n']);
                let ghost o = Out::Insert { at, text: indent@ + seq!['\n'] };
                emit(out, Action::Buffer(BufferAction::Insert { at, text: t }), Ghost(o0), Ghost(e), Ghost(o));
                let p = Position { line: cursor.line, column: k as u32 + 1 };
                emit(out, set_cursor(p), Ghost(o0), Ghost(e.push(o)), Ghost(set_cursor_out(p)));
                proof {
                    acc = e.push(o).push(set_cursor_out(p));
                }
            },
        }
        let ghost o1 = out@;
        let ghost m1 = self@;
        let mode = if entry == Entry::Replace { EditMode::Replace } else { EditMode::Insert };
        self.set_mode(mode, out);
        self.reset_pending();
        proof {
            lemma_emitted_trans(o0, o1, out@, acc, spec_set_mode(m1, mode).1);
            let row_s = row_of(text.rows(), cursor.line);
            assert(indent@ == row_s.take(indent_of(row_s) as int));
            let expect = spec_enter(m0, entry, env_of(text)).1;
            assert(acc + spec_set_mode(m1, mode).1 =~= expect);
        }
    }

    fn select<T: Text>(&mut self, kind: SelectionKind, text: &T, out: &mut Vec<Action>)
        requires
            env_ok(env_of(text)),
        ensures
            final(self)@ == spec_select(old(self)@, kind, env_of(text)).0,
            emitted(old(out)@, final(out)@, spec_select(old(self)@, kind, env_of(text)).1),
    {
        let ghost o0 = out@;
        let ghost m0 = self@;
        let wanted = match kind {
            SelectionKind::Char => EditMode::VisualChar,
            SelectionKind::Line => EditMode::VisualLine,
            SelectionKind::Block => EditMode::VisualBlock,
        };
        if self.mode == wanted {
            let cs = Action::Motion(MotionAction::ClearSelection {});
            push_out(out, cs, Ghost(Out::Plain(cs)));
            self.anchor = None;
            let ghost o1 = out@;
            let ghost m1 = self@;
            self.set_mode(EditMode::Normal, out);
            let ghost o2 = out@;
            let ghost m2 = self@;
            self.clear(out);
            proof {
                lemma_emitted_trans(o0, o1, o2, seq![Out::Plain(cs)], spec_set_mode(m1, EditMode::Normal).1);
                lemma_emitted_trans(o0, o2, out@, seq![Out::Plain(cs)] + spec_set_mode(m1, EditMode::Normal).1, spec_clear(m2).1);
            }
            return;
        }
        let cursor = text.cursor();
        self.anchor = Some(cursor);
        let ghost m1 = self@;
        self.set_mode(wanted, out);
        let ghost o1 = out@;
        let sr = Action::Motion(MotionAction::SelectRange { span: span_between(cursor, cursor, text), kind });
        push_out(out, sr, Ghost(Out::Plain(sr)));
        self.reset_pending();
        proof {
            lemma_emitted_trans(o0, o1, out@, spec_set_mode(m1, wanted).1, seq![Out::Plain(sr)]);
        }
    }

    fn insert_key<T: Text>(&self, k: Key, text: &T, out: &mut Vec<Action>)
        requires
            env_ok(env_of(text)),
        ensures
            emitted(old(out)@, final(out)@, spec_insert_key(self@, k, env_of(text))),
    {
        let ghost o0 = out@;
        proof {
            lemma_emitted_nothing(o0);
        }
        let ghost e = Seq::<Out>::empty();
        let cursor = text.cursor();
        let one = Span { start: cursor, end: Position { line: cursor.line, column: inc(cursor.column) } };
        let typed: Option<char> = match k.code {
            Code::Named(Named::Enter) => Some('\n'),
            Code::Named(Named::Tab) => Some('\t'),
            Code::Named(Named::Backspace) => {
                match back_span(text, cursor) {
                    Some(span) => {
                        let d = Action::Buffer(BufferAction::Delete { span });
                        emit(out, d, Ghost(o0), Ghost(e), Ghost(Out::Plain(d)));
                        assert(e.push(Out::Plain(d)) =~= spec_insert_key(self@, k, env_of(text)));
                    },
                    None => {},
                }
                None
            },
            Code::Named(Named::Delete) => {
                let d = Action::Buffer(BufferAction::Delete { span: one });
                emit(out, d, Ghost(o0), Ghost(e), Ghost(Out::Plain(d)));
                assert(e.push(Out::Plain(d)) =~= spec_insert_key(self@, k, env_of(text)));
                None
            },
            _ => k.typed(),
        };
        match typed {
            None => {},
            Some(ch) => {
                let mut t = String::new();
                push_char(&mut t, ch);
                if self.mode == EditMode::Replace {
                    let ghost o = Out::Replace { span: one, text: seq![ch] };
                    emit(out, Action::Buffer(BufferAction::Replace { span: one, text: t }), Ghost(o0), Ghost(e), Ghost(o));
                    assert(e.push(o) =~= spec_insert_key(self@, k, env_of(text)));
                } else {
                    let ghost o = Out::Insert { at: cursor, text: seq![ch] };
                    emit(out, Action::Buffer(BufferAction::Insert { at: cursor, text: t }), Ghost(o0), Ghost(e), Ghost(o));
                    assert(e.push(o) =~= spec_insert_key(self@, k, env_of(text)));
                }
            },
        }
    }
}

fn indent_chars_of(row: &Vec<char>) -> (r: usize)
    ensures
        r == indent_of(row@),
        r <= row@.len(),
{
    let r = crate::language::indent_chars(row);
    proof {
        crate::language::lemma_indent_bound(row@);
    }
    r
}

// ---------------------------------------------------------------------------
// A keystroke
// ---------------------------------------------------------------------------

/// The scope the next key is looked up in.
pub open spec fn spec_scope(m: MachineView) -> Scope {
    if m.object is Some {
        Scope::Object
    } else {
        spec_scope_of(m.mode)
    }
}

/// `n`, held at `u32::MAX`.
pub open spec fn sat_u32(n: int) -> u32 {
    if n > u32::MAX { u32::MAX } else { n as u32 }
}

/// A digit that is part of a count rather than a binding, and what it does;
/// `None` when the key is not one. `0` is a motion until a count is under way.
pub open spec fn spec_count_digit(m: MachineView, k: Key, scope: Scope) -> Option<(MachineView, Seq<Out>)> {
    if !(scope == Scope::Normal || scope == Scope::Visual || scope == Scope::OperatorPending) || m.keys.len() != 0 {
        None
    } else {
        match spec_typed(k) {
            None => None,
            Some(c) => if !('0' <= c && c <= '9') {
                None
            } else {
                let d = (c as u32) - 48;
                let after = m.operator is Some;
                let slot = if after { m.operator_count } else { m.count };
                if d == 0 && slot is None {
                    None
                } else {
                    let before = match slot {
                        Some(v) => v as int,
                        None => 0,
                    };
                    let v = sat_u32(sat_u32(before * 10) + d);
                    let m1 = if after {
                        MachineView { operator_count: Some(v), ..m }
                    } else {
                        MachineView { count: Some(v), ..m }
                    };
                    Some((m1, seq![Out::Plain(Action::Input(InputAction::SetCount { count: m_count(m1) }))]))
                }
            },
        }
    }
}

/// The machine after each of `digits` is typed as a plain key, if every one
/// of them is taken as a count digit.
pub open spec fn typed_digits(m: MachineView, digits: Seq<char>, scope: Scope) -> Option<MachineView>
    decreases digits.len(),
{
    if digits.len() == 0 {
        Some(m)
    } else {
        match typed_digits(m, digits.drop_last(), scope) {
            Some(m1) => match spec_count_digit(m1, Key { code: Code::Char(digits.last()), mods: Mods::from_bits(0) }, scope) {
                Some((m2, _)) => Some(m2),
                None => None,
            },
            None => None,
        }
    }
}

/// **A count is read in decimal**: typing the digits of `n`, with nothing
/// pending, makes `n` the pending count, for every `n` from `1` up to
/// `u32::MAX`; the operator, the keys and the mode stay as they were.
pub proof fn lemma_typed_count(m: MachineView, n: nat, scope: Scope)
    requires
        0 < n <= u32::MAX,
        m.keys.len() == 0,
        m.operator is None,
        m.count is None,
        scope == Scope::Normal || scope == Scope::Visual || scope == Scope::OperatorPending,
    ensures
        typed_digits(m, spec_decimal(n), scope) matches Some(m2) && m2.count == Some(n as u32) && m2.operator is None
            && m2.keys == m.keys && m2.mode == m.mode,
    decreases n,
{
    Mods::lemma_from_bits(0);
    assert(0u8 & 1 == 0 && 0u8 & 2 == 0 && 0u8 & 8 == 0) by (bit_vector);
    let ds = spec_decimal(n);
    if n < 10 {
        let c = ((n as u32) + ('0' as u32)) as char;
        assert(ds.drop_last() =~= Seq::<char>::empty());
        assert(ds.last() == c);
        assert(c as u32 == n + 48);
        let k = Key { code: Code::Char(c), mods: Mods::from_bits(0) };
        assert(spec_typed(k) == Some(c));
        assert(typed_digits(m, ds.drop_last(), scope) == Some(m));
        let r = spec_count_digit(m, k, scope);
        assert(r matches Some((m2, _)) && m2.count == Some(n as u32));
    } else {
        lemma_typed_count(m, n / 10, scope);
        let c = (((n % 10) as u32) + ('0' as u32)) as char;
        assert(ds.drop_last() == spec_decimal(n / 10));
        assert(ds.last() == c);
        assert(c as u32 == (n % 10) + 48);
        assert((n / 10) * 10 + n % 10 == n);
        let m1 = typed_digits(m, spec_decimal(n / 10), scope).unwrap();
        let k = Key { code: Code::Char(c), mods: Mods::from_bits(0) };
        assert(spec_typed(k) == Some(c));
        assert((n / 10) * 10 <= u32::MAX);
        let r = spec_count_digit(m1, k, scope);
        assert(r matches Some((m2, _)) && m2.count == Some(n as u32));
    }
}

/// The same sequence with shift held on the key just pressed, when the
/// terminal could not have said whether it was: a legacy terminal, a ctrl
/// chord without shift, and a key that shift changes.
pub open spec fn spec_legacy_chord(m: MachineView, keys: Seq<Key>) -> Option<Seq<Key>> {
    if m.protocol != Protocol::Legacy || keys.len() == 0 {
        None
    } else {
        let last = keys.last();
        if last.mods.bits() & 1 != 1 || last.mods.bits() & 4 == 4 {
            None
        } else {
            let shifted = spec_key_new(last.code, Mods::from_bits(last.mods.bits() | 4));
            if shifted == last {
                None
            } else {
                Some(keys.drop_last().push(shifted))
            }
        }
    }
}

/// Each Action of a list, as it is.
pub open spec fn plain_all(actions: Seq<Action>) -> Seq<Out> {
    actions.map_values(|a: Action| Out::Plain(a))
}

/// One arm per role.
pub open spec fn spec_role(m: MachineView, role: Role, e: Env) -> (MachineView, Seq<Out>) {
    let count = m_count(m);
    match role {
        Role::Motion(motion) => if spec_is_find(motion) {
            (MachineView { awaiting: Some(Awaiting::FindTarget(motion)), ..m }, Seq::empty())
        } else if motion is RepeatFind || motion is RepeatFindReverse {
            match m.last_find {
                Some((last, c)) => spec_motion(
                    m,
                    if motion is RepeatFindReverse { spec_reversed(last) } else { last },
                    count,
                    Some(c),
                    e,
                ),
                None => spec_cancel(m),
            }
        } else {
            spec_motion(m, motion, count, None, e)
        },
        Role::Goto(g) => spec_goto(m, g, e),
        Role::Operator(op) => spec_operator(m, op, e),
        Role::Fused { operator, motion } => {
            let m1 = MachineView {
                operator: Some(operator),
                fused_advance: operator == Operator::ToggleCase && motion == Motion::CharRight,
                ..m
            };
            if spec_is_find(motion) {
                (MachineView { awaiting: Some(Awaiting::FindTarget(motion)), ..m1 }, Seq::empty())
            } else {
                spec_motion(m1, motion, count, None, e)
            }
        },
        Role::Object { object, delimiter } => spec_object_operand(m, object, delimiter, e),
        Role::Inner => (MachineView { object: Some(true), ..m }, Seq::empty()),
        Role::Around => (MachineView { object: Some(false), ..m }, Seq::empty()),
        Role::Enter(entry) => spec_enter(m, entry, e),
        Role::Select(kind) => spec_select(m, kind, e),
        Role::Paste { before } => {
            let (m2, o2) = spec_clear(m);
            (m2, Seq::new(count as nat, |i: int| Out::Paste { register: m.register, before }) + seq![
                Out::Plain(Action::History(HistoryAction::CommitUndoGroup {})),
            ] + o2)
        },
        Role::History { redo } => {
            let (m2, o2) = spec_clear(m);
            let a = if redo {
                Action::History(HistoryAction::Redo { count })
            } else {
                Action::History(HistoryAction::Undo { count })
            };
            (m2, seq![Out::Plain(a)] + o2)
        },
        Role::Scroll(request) => {
            let (m2, o2) = spec_clear(m);
            (m2, seq![Out::Plain(Action::View(ViewAction::Scroll {
                request: spec_scaled(request, count),
                pane: PaneRef::Focused {},
            }))] + o2)
        },
        Role::Repeat => {
            let (m2, o2) = spec_clear(m);
            (m2, seq![Out::Plain(Action::Input(InputAction::RepeatLast { count }))] + o2)
        },
        Role::Escape => spec_escape(m),
        Role::Register => (MachineView { awaiting: Some(Awaiting::Register), ..m }, Seq::empty()),
        Role::ReplaceChar => (MachineView { awaiting: Some(Awaiting::ReplaceChar), ..m }, Seq::empty()),
        Role::Run(actions) => {
            let (m2, o2) = spec_clear(m);
            (m2, plain_all(actions@) + o2)
        },
    }
}

/// Text typed for each of `keys`, in order.
pub open spec fn spec_insert_keys(m: MachineView, keys: Seq<Key>, e: Env) -> Seq<Out>
    decreases keys.len(),
{
    if keys.len() == 0 {
        Seq::empty()
    } else {
        spec_insert_keys(m, keys.drop_last(), e) + spec_insert_key(m, keys.last(), e)
    }
}

/// What the machine does with the keymap's answer for `keys` in `scope`.
pub open spec fn spec_respond(m: MachineView, scope: Scope, keys: Seq<Key>, answer: Resolution, e: Env) -> (MachineView, Seq<Out>) {
    let m1 = MachineView { keys: Seq::empty(), ..m };
    match answer {
        Resolution::Pending => (m, Seq::empty()),
        Resolution::Ran => (MachineView { count: None, operator_count: None, ..m1 }, Seq::empty()),
        Resolution::Role(role) => spec_role(m1, role, e),
        Resolution::Unbound => if scope == Scope::Insert {
            (m1, spec_insert_keys(m1, keys, e))
        } else {
            let (m2, o2) = spec_cancel(m1);
            (m2, seq![Out::UnknownKey(spec_notation_of(keys))] + o2)
        },
    }
}

/// One keystroke, given what the keymap answered for the sequence (`first`)
/// and, on a legacy terminal, for the sequence with shift held (`retried`).
pub open spec fn spec_step(m: MachineView, k: Key, e: Env, first: Resolution, retried: Resolution) -> (MachineView, Seq<Out>) {
    match m.awaiting {
        Some(aw) => {
            let m0 = MachineView { awaiting: None, ..m };
            match spec_typed(k) {
                None => spec_cancel(m0),
                Some(c) => match aw {
                    Awaiting::Register => (MachineView { register: Some(seq![c]), ..m0 }, seq![Out::SelectRegister(seq![c])]),
                    Awaiting::FindTarget(motion) => {
                        let m1 = MachineView { last_find: Some((motion, c)), ..m0 };
                        spec_motion(m1, motion, m_count(m1), Some(c), e)
                    },
                    Awaiting::ReplaceChar => spec_replace_char(m0, c, e),
                },
            }
        },
        None => {
            let scope = spec_scope(m);
            match spec_count_digit(m, k, scope) {
                Some(r) => r,
                None => {
                    let keys = m.keys.push(k);
                    let chord = spec_legacy_chord(m, keys);
                    let (keys2, answer) = if first is Unbound && chord is Some && !(retried is Unbound) {
                        (chord.unwrap(), retried)
                    } else {
                        (keys, first)
                    };
                    spec_respond(MachineView { keys: keys2, ..m }, scope, keys2, answer, e)
                },
            }
        },
    }
}

/// Whether a keystroke is put to the keymap: nothing awaited, and not a
/// count digit.
pub open spec fn spec_asks(m: MachineView, k: Key) -> bool {
    m.awaiting is None && spec_count_digit(m, k, spec_scope(m)) is None
}

/// The sequence the keymap is asked about first: the pending keys and this one.
pub open spec fn spec_asked(m: MachineView, k: Key) -> Seq<Key> {
    m.keys.push(k)
}

/// Whether the keymap is asked a second time, with shift held: the first
/// answer was `Unbound` and the terminal could not tell shift apart.
pub open spec fn spec_retries(m: MachineView, k: Key, first: Resolution) -> bool {
    spec_asks(m, k) && first is Unbound && spec_legacy_chord(m, spec_asked(m, k)) is Some
}

/// Whether an Action changes the buffer: what makes a command worth repeating.
pub open spec fn spec_is_edit(a: Action) -> bool {
    match a {
        Action::Buffer(b) => b is Insert || b is Delete || b is Replace || b is Paste || b is Indent || b is JoinLines
            || b is ToggleComment || b is SetCase || b is ApplyEdits,
        _ => false,
    }
}

/// Whether what `o` describes changes the buffer.
pub open spec fn out_is_edit(o: Out) -> bool {
    match o {
        Out::Plain(a) => spec_is_edit(a),
        Out::Paste { .. } | Out::Replace { .. } | Out::Insert { .. } => true,
        _ => false,
    }
}

/// Whether any of `outs` changes the buffer.
pub open spec fn any_edit(outs: Seq<Out>) -> bool {
    exists|i: int| 0 <= i < outs.len() && out_is_edit(#[trigger] outs[i])
}

/// One keystroke fed: the step, then the bookkeeping for `.`: a command is
/// over when the machine is back in normal mode with nothing pending, and it
/// is remembered only if it changed something.
pub open spec fn spec_feed(m: MachineView, k: Key, e: Env, first: Resolution, retried: Resolution) -> (MachineView, Seq<Out>) {
    let m0 = MachineView { record: m.record.push(k), ..m };
    let (m1, outs) = spec_step(m0, k, e, first, retried);
    let m2 = if any_edit(outs) { MachineView { record_changed: true, ..m1 } } else { m1 };
    let done = m2.mode == EditMode::Normal && pending_clear(m2) && m2.object is None && m2.awaiting is None;
    let m3 = if !done {
        m2
    } else if m2.record_changed {
        MachineView { last_change: Some(m2.record), record: Seq::empty(), record_changed: false, ..m2 }
    } else {
        MachineView { record: Seq::empty(), record_changed: false, ..m2 }
    };
    (m3, outs)
}

/// The same transitions, arriving from a door rather than a keyboard.
pub open spec fn spec_apply(m: MachineView, a: InputAction) -> MachineView {
    match a {
        InputAction::SetMode { mode } => MachineView { mode, ..m },
        InputAction::SetCount { count } => MachineView { count: Some(count), ..m },
        InputAction::SelectRegister { register } => MachineView { register: Some(register.0@), ..m },
        InputAction::CancelPending {} => MachineView { object: None, awaiting: None, ..no_pending(m) },
        _ => m,
    }
}

fn is_edit(a: &Action) -> (r: bool)
    ensures
        r == spec_is_edit(*a),
{
    match a {
        Action::Buffer(b) => match b {
            BufferAction::Insert { .. } | BufferAction::Delete { .. } | BufferAction::Replace { .. }
            | BufferAction::Paste { .. } | BufferAction::Indent { .. } | BufferAction::JoinLines { .. }
            | BufferAction::ToggleComment { .. } | BufferAction::SetCase { .. } | BufferAction::ApplyEdits { .. } => true,
            _ => false,
        },
        _ => false,
    }
}

proof fn lemma_edit_matches(a: Action, o: Out)
    requires
        out_matches(a, o),
    ensures
        spec_is_edit(a) == out_is_edit(o),
{
}

fn is_digit(c: char) -> (r: Option<u32>)
    ensures
        r == (if '0' <= c && c <= '9' { Some(((c as u32) - 48) as u32) } else { None::<u32> }),
{
    if c >= '0' && c <= '9' {
        Some((c as u32) - 48)
    } else {
        None
    }
}

impl Machine {
    fn scope(&self) -> (r: Scope)
        ensures
            r == spec_scope(self@),
    {
        if self.object.is_some() {
            Scope::Object
        } else {
            Scope::of(self.mode)
        }
    }

    fn count_digit(&mut self, k: Key, scope: Scope, out: &mut Vec<Action>) -> (r: bool)
        ensures
            r == (spec_count_digit(old(self)@, k, scope) is Some),
            r ==> final(self)@ == spec_count_digit(old(self)@, k, scope).unwrap().0,
            r ==> emitted(old(out)@, final(out)@, spec_count_digit(old(self)@, k, scope).unwrap().1),
            !r ==> final(self)@ == old(self)@ && final(out)@ == old(out)@,
    {
        if !(scope == Scope::Normal || scope == Scope::Visual || scope == Scope::OperatorPending)
            || self.pending.keys.len() != 0 {
            return false;
        }
        let c = match k.typed() {
            Some(c) => c,
            None => {
                return false;
            },
        };
        let d = match is_digit(c) {
            Some(d) => d,
            None => {
                return false;
            },
        };
        let after = self.pending.operator.is_some();
        let slot = if after { self.pending.operator_count } else { self.pending.count };
        if d == 0 && slot.is_none() {
            return false;
        }
        let before: u32 = match slot {
            Some(v) => v,
            None => 0,
        };
        let tens = u32_saturating_mul(before, 10);
        let v = tens.saturating_add(d);
        if after {
            self.pending.operator_count = Some(v);
        } else {
            self.pending.count = Some(v);
        }
        let n = self.pending.count();
        push_out(out, Action::Input(InputAction::SetCount { count: n }), Ghost(Out::Plain(Action::Input(InputAction::SetCount { count: n }))));
        true
    }

    fn legacy_chord(&self, keys: &Vec<Key>) -> (r: Option<Vec<Key>>)
        ensures
            match spec_legacy_chord(self@, keys@) {
                Some(c) => r matches Some(v) && v@ == c,
                None => r is None,
            },
    {
        if self.protocol != Protocol::Legacy || keys.len() == 0 {
            return None;
        }
        let last = keys[keys.len() - 1];
        if !last.mods.has(Mods::ctrl_bit()) || last.mods.has(Mods::shift_bit()) {
            proof {
                let b = last.mods.bits();
                assert((b & 1 == 1) == (b & 1 == 1));
            }
            return None;
        }
        let shifted = last.shifted();
        if shifted == last {
            return None;
        }
        let mut chord: Vec<Key> = Vec::new();
        let mut i: usize = 0;
        while i + 1 < keys.len()
            invariant
                keys@.len() >= 1,
                i + 1 <= keys@.len(),
                chord@ == keys@.take(i as int),
            decreases keys.len() - i,
        {
            chord.push(keys[i]);
            i = i + 1;
            assert(chord@ =~= keys@.take(i as int));
        }
        chord.push(shifted);
        assert(chord@ =~= keys@.drop_last().push(shifted));
        Some(chord)
    }
}

impl Machine {
    fn role<T: Text>(&mut self, role: Role, text: &T, out: &mut Vec<Action>)
        requires
            env_ok(env_of(text)),
            old(self)@.last_find is Some ==> find_in_reach(text.rows(), text.cursor_at(), Motion::FindCharBackward),
        ensures
            final(self)@ == spec_role(old(self)@, role, env_of(text)).0,
            emitted(old(out)@, final(out)@, spec_role(old(self)@, role, env_of(text)).1),
    {
        let ghost o0 = out@;
        let ghost m0 = self@;
        let count = self.pending.count();
        match role {
            Role::Motion(motion) => {
                if text::is_find(motion) {
                    self.awaiting = Some(Awaiting::FindTarget(motion));
                    proof {
                        lemma_emitted_nothing(o0);
                    }
                } else if motion == Motion::RepeatFind || motion == Motion::RepeatFindReverse {
                    match self.last_find {
                        Some((last, c)) => {
                            let repeated = if motion == Motion::RepeatFindReverse { reversed(last) } else { last };
                            proof {
                                lemma_reach_any(text.rows(), text.cursor_at(), repeated);
                            }
                            self.motion(repeated, count, Some(c), text, out);
                        },
                        None => self.cancel(out),
                    }
                } else {
                    self.motion(motion, count, None, text, out);
                }
            },
            Role::Goto(g) => self.goto(g, text, out),
            Role::Operator(op) => self.operator(op, text, out),
            Role::Fused { operator, motion } => {
                self.pending.operator = Some(operator);
                self.fused_advance = operator == Operator::ToggleCase && motion == Motion::CharRight;
                if text::is_find(motion) {
                    self.awaiting = Some(Awaiting::FindTarget(motion));
                    proof {
                        lemma_emitted_nothing(o0);
                    }
                } else {
                    self.motion(motion, count, None, text, out);
                }
            },
            Role::Object { object, delimiter } => self.object_operand(object, delimiter, text, out),
            Role::Inner => {
                self.object = Some(true);
                proof {
                    lemma_emitted_nothing(o0);
                }
            },
            Role::Around => {
                self.object = Some(false);
                proof {
                    lemma_emitted_nothing(o0);
                }
            },
            Role::Enter(entry) => self.enter(entry, text, out),
            Role::Select(kind) => self.select(kind, text, out),
            Role::Paste { before } => {
                let ghost po = Out::Paste { register: m0.register, before };
                let mut i: u32 = 0;
                proof {
                    lemma_emitted_nothing(o0);
                }
                while i < count
                    invariant
                        i <= count,
                        self@ == m0,
                        emitted(o0, out@, Seq::new(i as nat, |k: int| po)),
                        po == (Out::Paste { register: m0.register, before }),
                    decreases count - i,
                {
                    let a = Action::Buffer(BufferAction::Paste {
                        at: Target::Cursor {},
                        register: clone_register(&self.pending.register),
                        before,
                    });
                    emit(out, a, Ghost(o0), Ghost(Seq::new(i as nat, |k: int| po)), Ghost(po));
                    assert(Seq::new(i as nat, |k: int| po).push(po) =~= Seq::new((i + 1) as nat, |k: int| po));
                    i = i + 1;
                }
                let c = Action::History(HistoryAction::CommitUndoGroup {});
                emit(out, c, Ghost(o0), Ghost(Seq::new(count as nat, |k: int| po)), Ghost(Out::Plain(c)));
                let ghost o1 = out@;
                self.clear(out);
                proof {
                    let acc = Seq::new(count as nat, |k: int| po).push(Out::Plain(c));
                    lemma_emitted_trans(o0, o1, out@, acc, spec_clear(m0).1);
                    assert(acc + spec_clear(m0).1 =~= spec_role(m0, role, env_of(text)).1);
                }
            },
            Role::History { redo } => {
                let a = if redo {
                    Action::History(HistoryAction::Redo { count })
                } else {
                    Action::History(HistoryAction::Undo { count })
                };
                push_out(out, a, Ghost(Out::Plain(a)));
                let ghost o1 = out@;
                self.clear(out);
                proof {
                    lemma_emitted_trans(o0, o1, out@, seq![Out::Plain(a)], spec_clear(m0).1);
                }
            },
            Role::Scroll(request) => {
                let a = Action::View(ViewAction::Scroll { request: scaled(request, count), pane: PaneRef::Focused {} });
                push_out(out, a, Ghost(Out::Plain(a)));
                let ghost o1 = out@;
                self.clear(out);
                proof {
                    lemma_emitted_trans(o0, o1, out@, seq![Out::Plain(a)], spec_clear(m0).1);
                }
            },
            Role::Repeat => {
                let a = Action::Input(InputAction::RepeatLast { count });
                push_out(out, a, Ghost(Out::Plain(a)));
                let ghost o1 = out@;
                self.clear(out);
                proof {
                    lemma_emitted_trans(o0, o1, out@, seq![Out::Plain(a)], spec_clear(m0).1);
                }
            },
            Role::Escape => self.escape(out),
            Role::Register => {
                self.awaiting = Some(Awaiting::Register);
                proof {
                    lemma_emitted_nothing(o0);
                }
            },
            Role::ReplaceChar => {
                self.awaiting = Some(Awaiting::ReplaceChar);
                proof {
                    lemma_emitted_nothing(o0);
                }
            },
            Role::Run(actions) => {
                let ghost acts = actions@;
                let mut moved = actions;
                out.append(&mut moved);
                proof {
                    assert(out@.take(o0.len() as int) =~= o0);
                    assert forall|i: int| 0 <= i < plain_all(acts).len() implies out_matches(
                        #[trigger] out@[o0.len() + i],
                        plain_all(acts)[i],
                    ) by {
                        assert(out@[o0.len() + i] == acts[i]);
                    }
                }
                let ghost o1 = out@;
                self.clear(out);
                proof {
                    lemma_emitted_trans(o0, o1, out@, plain_all(acts), spec_clear(m0).1);
                }
            },
        }
    }

    /// What the machine does with the keymap's answer for `keys`, looked up
    /// in `scope`: wait, forget the count a binding consumed, play the role,
    /// or, unbound, type the keys in insert mode and otherwise say so.
    pub fn respond<T: Text>(&mut self, scope: Scope, keys: Vec<Key>, answer: Resolution, text: &T, out: &mut Vec<Action>)
        requires
            env_ok(env_of(text)),
            old(self)@.last_find is Some ==> find_in_reach(text.rows(), text.cursor_at(), Motion::FindCharBackward),
        ensures
            final(self)@ == spec_respond(old(self)@, scope, keys@, answer, env_of(text)).0,
            emitted(old(out)@, final(out)@, spec_respond(old(self)@, scope, keys@, answer, env_of(text)).1),
    {
        let ghost o0 = out@;
        let ghost m0 = self@;
        match answer {
            Resolution::Pending => {
                proof {
                    lemma_emitted_nothing(o0);
                }
            },
            Resolution::Ran => {
                self.pending.keys = Vec::new();
                self.pending.count = None;
                self.pending.operator_count = None;
                proof {
                    lemma_emitted_nothing(o0);
                    assert(self@ == spec_respond(m0, scope, keys@, answer, env_of(text)).0);
                }
            },
            Resolution::Role(role) => {
                self.pending.keys = Vec::new();
                self.role(role, text, out);
            },
            Resolution::Unbound => {
                self.pending.keys = Vec::new();
                let ghost m1 = self@;
                if scope == Scope::Insert {
                    proof {
                        lemma_emitted_nothing(o0);
                    }
                    let mut i: usize = 0;
                    while i < keys.len()
                        invariant
                            i <= keys@.len(),
                            self@ == m1,
                            env_ok(env_of(text)),
                            emitted(o0, out@, spec_insert_keys(m1, keys@.take(i as int), env_of(text))),
                        decreases keys.len() - i,
                    {
                        let ghost o1 = out@;
                        self.insert_key(keys[i], text, out);
                        proof {
                            lemma_emitted_trans(o0, o1, out@, spec_insert_keys(m1, keys@.take(i as int), env_of(text)), spec_insert_key(m1, keys@[i as int], env_of(text)));
                            assert(keys@.take(i + 1).drop_last() =~= keys@.take(i as int));
                        }
                        i = i + 1;
                    }
                    assert(keys@.take(i as int) =~= keys@);
                } else {
                    let hint = Action::App(AppAction::ShowUnknownKeyHint { key: notation_of(keys.as_slice()) });
                    push_out(out, hint, Ghost(Out::UnknownKey(spec_notation_of(keys@))));
                    let ghost o1 = out@;
                    self.cancel(out);
                    proof {
                        lemma_emitted_trans(o0, o1, out@, seq![Out::UnknownKey(spec_notation_of(keys@))], spec_cancel(m1).1);
                    }
                }
            },
        }
    }
}

fn is_unbound(r: &Resolution) -> (b: bool)
    ensures
        b == (*r is Unbound),
{
    match r {
        Resolution::Unbound => true,
        _ => false,
    }
}

fn copy_keys(keys: &Vec<Key>) -> (r: Vec<Key>)
    ensures
        r@ == keys@,
{
    let mut out: Vec<Key> = Vec::new();
    let mut i: usize = 0;
    while i < keys.len()
        invariant
            i <= keys@.len(),
            out@ == keys@.take(i as int),
        decreases keys.len() - i,
    {
        out.push(keys[i]);
        i = i + 1;
        assert(out@ =~= keys@.take(i as int));
    }
    assert(keys@.take(i as int) =~= keys@);
    out
}

proof fn lemma_any_edit(before: Seq<Action>, after: Seq<Action>, outs: Seq<Out>)
    requires
        emitted(before, after, outs),
        before.len() == 0,
    ensures
        (exists|j: int| 0 <= j < after.len() && spec_is_edit(#[trigger] after[j])) == any_edit(outs),
{
    if exists|j: int| 0 <= j < after.len() && spec_is_edit(#[trigger] after[j]) {
        let j = choose|j: int| 0 <= j < after.len() && spec_is_edit(#[trigger] after[j]);
        assert(out_matches(after[before.len() + j], outs[j]));
        lemma_edit_matches(after[j], outs[j]);
        assert(out_is_edit(outs[j]));
    }
    if any_edit(outs) {
        let j = choose|j: int| 0 <= j < outs.len() && out_is_edit(#[trigger] outs[j]);
        assert(out_matches(after[before.len() + j], outs[j]));
        lemma_edit_matches(after[j], outs[j]);
        assert(spec_is_edit(after[j]));
    }
}

impl Machine {
    fn step<T: Text, K: Keymap>(&mut self, pressed: Key, keymap: &mut K, text: &T, out: &mut Vec<Action>) -> (answers: Ghost<(Resolution, Resolution)>)
        requires
            env_ok(env_of(text)),
            finds_in_reach(old(self)@, env_of(text)),
        ensures
            final(self)@ == spec_step(old(self)@, pressed, env_of(text), answers@.0, answers@.1).0,
            emitted(old(out)@, final(out)@, spec_step(old(self)@, pressed, env_of(text), answers@.0, answers@.1).1),
            spec_asks(old(self)@, pressed) ==> old(keymap).answers(
                spec_scope(old(self)@),
                spec_asked(old(self)@, pressed),
                answers@.0,
            ),
            !spec_asks(old(self)@, pressed) ==> *final(keymap) == *old(keymap),
            spec_asks(old(self)@, pressed) && !spec_retries(old(self)@, pressed, answers@.0) ==> old(keymap).keeps(
                &*final(keymap),
            ),
            spec_retries(old(self)@, pressed, answers@.0) ==> exists|mid: K|
                old(keymap).keeps(&mid) && #[trigger] mid.answers(
                    spec_scope(old(self)@),
                    spec_legacy_chord(old(self)@, spec_asked(old(self)@, pressed)).unwrap(),
                    answers@.1,
                ) && mid.keeps(&*final(keymap)),
    {
        let ghost o0 = out@;
        let ghost m0 = self@;
        match self.awaiting {
            Some(aw) => {
                self.awaiting = None;
                match pressed.typed() {
                    None => self.cancel(out),
                    Some(c) => match aw {
                        Awaiting::Register => {
                            let mut name = String::new();
                            push_char(&mut name, c);
                            let mut again = String::new();
                            push_char(&mut again, c);
                            self.pending.register = Some(RegisterName(name));
                            let a = Action::Input(InputAction::SelectRegister { register: RegisterName(again) });
                            push_out(out, a, Ghost(Out::SelectRegister(seq![c])));
                            proof {
                                assert(self@.register == Some(seq![c]));
                                assert(self@ == spec_step(m0, pressed, env_of(text), Resolution::Unbound, Resolution::Unbound).0);
                            }
                        },
                        Awaiting::FindTarget(motion) => {
                            self.last_find = Some((motion, c));
                            let count = self.pending.count();
                            self.motion(motion, count, Some(c), text, out);
                        },
                        Awaiting::ReplaceChar => self.replace_char(c, text, out),
                    },
                }
                return Ghost((Resolution::Unbound, Resolution::Unbound));
            },
            None => {},
        }
        let scope = self.scope();
        if self.count_digit(pressed, scope, out) {
            return Ghost((Resolution::Unbound, Resolution::Unbound));
        }
        self.pending.keys.push(pressed);
        let keys = copy_keys(&self.pending.keys);
        let ghost k0 = *keymap;
        let first = keymap.resolve(scope, keys.as_slice());
        let ghost k1 = *keymap;
        let ghost g1 = first;
        let ghost mut g2 = Resolution::Unbound;
        let (keys2, answer) = if is_unbound(&first) {
            match self.legacy_chord(&keys) {
                Some(chord) => {
                    let retried = keymap.resolve(scope, chord.as_slice());
                    proof {
                        g2 = retried;
                        assert(k1.answers(scope, chord@, retried));
                    }
                    if is_unbound(&retried) {
                        (keys, first)
                    } else {
                        self.pending.keys = copy_keys(&chord);
                        (chord, retried)
                    }
                },
                None => (keys, first),
            }
        } else {
            (keys, first)
        };
        proof {
            assert(self@ == MachineView { keys: keys2@, ..m0 });
        }
        self.respond(scope, keys2, answer, text, out);
        Ghost((g1, g2))
    }

    /// One keystroke.
    ///
    /// The Actions come back in the order they must be applied. What the
    /// keymap answers is the keymap's: whatever it answered for the sequence
    /// and, on a legacy terminal, for the same sequence with shift held, the
    /// machine's state and its Actions are what `spec_feed` makes of those
    /// answers. The first is an answer the keymap gives for the pending keys
    /// and this one in the machine's scope; the second, one it gives for the
    /// shifted sequence once the first question has left it as it may. The
    /// keymap is asked once, twice only for that retry, and is left as those
    /// answers leave it; a keystroke that names an awaited character or adds
    /// to a count does not ask it at all.
    pub fn feed<T: Text, K: Keymap>(&mut self, pressed: Key, keymap: &mut K, text: &T) -> (r: Vec<Action>)
        requires
            env_ok(env_of(text)),
            finds_in_reach(old(self)@, env_of(text)),
        ensures
            exists|first: Resolution, retried: Resolution|
                final(self)@ == (#[trigger] spec_feed(old(self)@, pressed, env_of(text), first, retried)).0
                    && emitted(Seq::empty(), r@, spec_feed(old(self)@, pressed, env_of(text), first, retried).1)
                    && (spec_asks(old(self)@, pressed) ==> old(keymap).answers(
                    spec_scope(old(self)@),
                    spec_asked(old(self)@, pressed),
                    first,
                )) && (!spec_asks(old(self)@, pressed) ==> *final(keymap) == *old(keymap)) && (spec_asks(
                    old(self)@,
                    pressed,
                ) && !spec_retries(old(self)@, pressed, first) ==> old(keymap).keeps(&*final(keymap))) && (spec_retries(
                    old(self)@,
                    pressed,
                    first,
                ) ==> exists|mid: K|
                    old(keymap).keeps(&mid) && #[trigger] mid.answers(
                        spec_scope(old(self)@),
                        spec_legacy_chord(old(self)@, spec_asked(old(self)@, pressed)).unwrap(),
                        retried,
                    ) && mid.keeps(&*final(keymap))),
    {
        let ghost m = self@;
        let mut out: Vec<Action> = Vec::new();
        self.record.push(pressed);
        let answers = self.step(pressed, keymap, text, &mut out);
        let ghost outs = spec_step(MachineView { record: m.record.push(pressed), ..m }, pressed, env_of(text), answers@.0, answers@.1).1;
        let mut any = false;
        let mut i: usize = 0;
        while i < out.len()
            invariant
                i <= out@.len(),
                any == (exists|j: int| 0 <= j < i && spec_is_edit(#[trigger] out@[j])),
            decreases out.len() - i,
        {
            if is_edit(&out[i]) {
                any = true;
            }
            i = i + 1;
        }
        proof {
            lemma_any_edit(Seq::empty(), out@, outs);
            assert(any == any_edit(outs));
        }
        if any {
            self.record_changed = true;
        }
        if self.mode == EditMode::Normal && self.pending.is_clear() && self.object.is_none() && self.awaiting.is_none() {
            if self.record_changed {
                let mut taken: Vec<Key> = Vec::new();
                std::mem::swap(&mut taken, &mut self.record);
                self.last_change = Some(taken);
            } else {
                self.record = Vec::new();
            }
            self.record_changed = false;
        }
        proof {
            let f = spec_feed(m, pressed, env_of(text), answers@.0, answers@.1);
            assert(self@ == f.0);
            assert(emitted(Seq::empty(), out@, f.1));
        }
        out
    }

    /// The same transitions, arriving from a door rather than a keyboard.
    /// Feeding keys and repeating are the host's to drive; macro recording is
    /// not built and changes nothing.
    pub fn apply(&mut self, action: &InputAction)
        ensures
            final(self)@ == spec_apply(old(self)@, *action),
    {
        match action {
            InputAction::SetMode { mode } => {
                self.mode = *mode;
            },
            InputAction::SetCount { count } => {
                self.pending.count = Some(*count);
            },
            InputAction::SelectRegister { register } => {
                self.pending.register = Some(RegisterName(register.0.clone()));
            },
            InputAction::CancelPending {} => {
                self.reset_pending();
                self.object = None;
                self.awaiting = None;
            },
            InputAction::FeedKeys { .. } | InputAction::RepeatLast { .. } | InputAction::SetMacroRecording { .. } => {},
        }
    }
}

impl Default for Machine {
    fn default() -> (r: Self)
        ensures
            r@ == initial_machine(),
    {
        Machine::new()
    }
}

} // verus!
