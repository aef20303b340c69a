//! The seed keymap: vim's grammar, as [`Table`] rows.
//!
//! Motions, operators and objects are bound in every scope that can use
//! them; the fused edits (`x`, `D`, `C`) are their own rows; `J` and the quit
//! keys run actions directly. What is not here (the leader, `:`) belongs to
//! the editor layer, which is asked first.

use vstd::prelude::*;

use crate::action::{Action, AppAction, BufferAction};
use crate::request::{Motion, ScrollRequest, SelectionKind, Target, TextObject};

use super::key::{lemma_parsed_char_is_written, spec_char_key, spec_parse_from, spelled_as_itself, Code, Key};
use super::table::{bind_v, bindings_unique, bindings_view, bound_role, lemma_bind_v_lookup, role_view, BindingV, Entry, Goto, Operator, Role, RoleV, Scope, Table};

verus! {

/// Binding `text` to `role` in normal, visual and operator-pending, in that
/// order.
pub open spec fn bind3(b: Seq<BindingV>, text: Seq<char>, role: RoleV) -> Seq<BindingV> {
    bind_v(bind_v(bind_v(b, Scope::Normal, text, role), Scope::Visual, text, role), Scope::OperatorPending, text, role)
}

/// Binding `text` to `role` in normal, then in visual.
pub open spec fn bind2(b: Seq<BindingV>, text: Seq<char>, role: RoleV) -> Seq<BindingV> {
    bind_v(bind_v(b, Scope::Normal, text, role), Scope::Visual, text, role)
}

/// Each row bound by [`bind3`], in order.
pub open spec fn bind_rows3(b: Seq<BindingV>, rows: Seq<(Seq<char>, RoleV)>) -> Seq<BindingV>
    decreases rows.len(),
{
    if rows.len() == 0 {
        b
    } else {
        bind3(bind_rows3(b, rows.drop_last()), rows.last().0, rows.last().1)
    }
}

/// Each row bound by [`bind2`], in order.
pub open spec fn bind_rows2(b: Seq<BindingV>, rows: Seq<(Seq<char>, RoleV)>) -> Seq<BindingV>
    decreases rows.len(),
{
    if rows.len() == 0 {
        b
    } else {
        bind2(bind_rows2(b, rows.drop_last()), rows.last().0, rows.last().1)
    }
}

/// Each row bound in `scope`, in order.
pub open spec fn bind_rows1(b: Seq<BindingV>, scope: Scope, rows: Seq<(Seq<char>, RoleV)>) -> Seq<BindingV>
    decreases rows.len(),
{
    if rows.len() == 0 {
        b
    } else {
        bind_v(bind_rows1(b, scope, rows.drop_last()), scope, rows.last().0, rows.last().1)
    }
}

/// Every motion, bound alike in normal, visual and operator-pending.
pub open spec fn seed_motions() -> Seq<(Seq<char>, RoleV)> {
    seq![
        ("h"@, RoleV::Plain(Role::Motion(Motion::CharLeft))),
        ("<left>"@, RoleV::Plain(Role::Motion(Motion::CharLeft))),
        ("l"@, RoleV::Plain(Role::Motion(Motion::CharRight))),
        ("<right>"@, RoleV::Plain(Role::Motion(Motion::CharRight))),
        ("k"@, RoleV::Plain(Role::Motion(Motion::LineUp))),
        ("<up>"@, RoleV::Plain(Role::Motion(Motion::LineUp))),
        ("j"@, RoleV::Plain(Role::Motion(Motion::LineDown))),
        ("<down>"@, RoleV::Plain(Role::Motion(Motion::LineDown))),
        ("w"@, RoleV::Plain(Role::Motion(Motion::WordForward))),
        ("b"@, RoleV::Plain(Role::Motion(Motion::WordBackward))),
        ("e"@, RoleV::Plain(Role::Motion(Motion::WordEnd))),
        ("0"@, RoleV::Plain(Role::Motion(Motion::LineStart))),
        ("^"@, RoleV::Plain(Role::Motion(Motion::FirstNonBlank))),
        ("<home>"@, RoleV::Plain(Role::Motion(Motion::FirstNonBlank))),
        ("$"@, RoleV::Plain(Role::Motion(Motion::LineEnd))),
        ("<end>"@, RoleV::Plain(Role::Motion(Motion::LineEnd))),
        ("{"@, RoleV::Plain(Role::Motion(Motion::ParagraphBackward))),
        ("}"@, RoleV::Plain(Role::Motion(Motion::ParagraphForward))),
        ("%"@, RoleV::Plain(Role::Motion(Motion::MatchingBracket))),
        ("H"@, RoleV::Plain(Role::Motion(Motion::ScreenTop))),
        ("M"@, RoleV::Plain(Role::Motion(Motion::ScreenMiddle))),
        ("L"@, RoleV::Plain(Role::Motion(Motion::ScreenBottom))),
        ("<C-d>"@, RoleV::Plain(Role::Motion(Motion::HalfPageDown))),
        ("<C-u>"@, RoleV::Plain(Role::Motion(Motion::HalfPageUp))),
    ]
}

/// The operators, bound alike in normal, visual and operator-pending.
pub open spec fn seed_operators() -> Seq<(Seq<char>, RoleV)> {
    seq![
        ("d"@, RoleV::Plain(Role::Operator(Operator::Delete))),
        ("c"@, RoleV::Plain(Role::Operator(Operator::Change))),
        ("y"@, RoleV::Plain(Role::Operator(Operator::Yank))),
        (">"@, RoleV::Plain(Role::Operator(Operator::Indent))),
        ("<"@, RoleV::Plain(Role::Operator(Operator::Dedent))),
        ("gc"@, RoleV::Plain(Role::Operator(Operator::ToggleComment))),
    ]
}

/// The text objects, named after `i` or `a`.
pub open spec fn seed_objects() -> Seq<(Seq<char>, RoleV)> {
    seq![
        ("w"@, RoleV::Plain(Role::Object { object: TextObject::Word, delimiter: None })),
        ("W"@, RoleV::Plain(Role::Object { object: TextObject::BigWord, delimiter: None })),
        ("s"@, RoleV::Plain(Role::Object { object: TextObject::Sentence, delimiter: None })),
        ("p"@, RoleV::Plain(Role::Object { object: TextObject::Paragraph, delimiter: None })),
        ("("@, RoleV::Plain(Role::Object { object: TextObject::Delimited, delimiter: Some('(') })),
        (")"@, RoleV::Plain(Role::Object { object: TextObject::Delimited, delimiter: Some('(') })),
        ("{"@, RoleV::Plain(Role::Object { object: TextObject::Delimited, delimiter: Some('{') })),
        ("}"@, RoleV::Plain(Role::Object { object: TextObject::Delimited, delimiter: Some('{') })),
        ("["@, RoleV::Plain(Role::Object { object: TextObject::Delimited, delimiter: Some('[') })),
        ("]"@, RoleV::Plain(Role::Object { object: TextObject::Delimited, delimiter: Some('[') })),
        ("<"@, RoleV::Plain(Role::Object { object: TextObject::Delimited, delimiter: Some('<') })),
        (">"@, RoleV::Plain(Role::Object { object: TextObject::Delimited, delimiter: Some('<') })),
        ("\""@, RoleV::Plain(Role::Object { object: TextObject::Delimited, delimiter: Some('"') })),
        ("'"@, RoleV::Plain(Role::Object { object: TextObject::Delimited, delimiter: Some('\'') })),
        ("`"@, RoleV::Plain(Role::Object { object: TextObject::Delimited, delimiter: Some('`') })),
        ("u"@, RoleV::Plain(Role::Object { object: TextObject::UnseenRegion, delimiter: None })),
        ("h"@, RoleV::Plain(Role::Object { object: TextObject::Hunk, delimiter: None })),
        ("t"@, RoleV::Plain(Role::Object { object: TextObject::Thread, delimiter: None })),
        ("b"@, RoleV::Plain(Role::Object { object: TextObject::Block, delimiter: None })),
    ]
}

/// vim's one-key spellings of an operator and its motion, in normal.
pub open spec fn seed_fused() -> Seq<(Seq<char>, RoleV)> {
    seq![
        ("x"@, RoleV::Plain(Role::Fused { operator: Operator::Delete, motion: Motion::CharRight })),
        ("<del>"@, RoleV::Plain(Role::Fused { operator: Operator::Delete, motion: Motion::CharRight })),
        ("X"@, RoleV::Plain(Role::Fused { operator: Operator::Delete, motion: Motion::CharLeft })),
        ("D"@, RoleV::Plain(Role::Fused { operator: Operator::Delete, motion: Motion::LineEnd })),
        ("C"@, RoleV::Plain(Role::Fused { operator: Operator::Change, motion: Motion::LineEnd })),
        ("s"@, RoleV::Plain(Role::Fused { operator: Operator::Change, motion: Motion::CharRight })),
        ("Y"@, RoleV::Plain(Role::Fused { operator: Operator::Yank, motion: Motion::LineEnd })),
    ]
}

/// The ways into insert mode, in normal.
pub open spec fn seed_entries() -> Seq<(Seq<char>, RoleV)> {
    seq![
        ("i"@, RoleV::Plain(Role::Enter(Entry::Before))),
        ("a"@, RoleV::Plain(Role::Enter(Entry::After))),
        ("I"@, RoleV::Plain(Role::Enter(Entry::LineStart))),
        ("A"@, RoleV::Plain(Role::Enter(Entry::LineEnd))),
        ("o"@, RoleV::Plain(Role::Enter(Entry::OpenBelow))),
        ("O"@, RoleV::Plain(Role::Enter(Entry::OpenAbove))),
        ("R"@, RoleV::Plain(Role::Enter(Entry::Replace))),
    ]
}

/// Visual entries and exits, in normal and visual: the same key toggles.
pub open spec fn seed_kinds() -> Seq<(Seq<char>, RoleV)> {
    seq![
        ("v"@, RoleV::Plain(Role::Select(SelectionKind::Char))),
        ("V"@, RoleV::Plain(Role::Select(SelectionKind::Line))),
        ("<C-v>"@, RoleV::Plain(Role::Select(SelectionKind::Block))),
    ]
}

/// The viewport's keys, in normal and visual.
pub open spec fn seed_scrolls() -> Seq<(Seq<char>, RoleV)> {
    seq![
        ("<C-e>"@, RoleV::Plain(Role::Scroll(ScrollRequest::Rows { rows: 1i64 }))),
        ("<C-y>"@, RoleV::Plain(Role::Scroll(ScrollRequest::Rows { rows: -1i64 }))),
        ("<C-f>"@, RoleV::Plain(Role::Scroll(ScrollRequest::Pages { pages: 1i64 }))),
        ("<C-b>"@, RoleV::Plain(Role::Scroll(ScrollRequest::Pages { pages: -1i64 }))),
    ]
}

/// `J`'s actions in `scope`'s sense: join at the cursor, or over the selection.
pub open spec fn join_lines(target: Target) -> RoleV {
    RoleV::Run(seq![Action::Buffer(BufferAction::JoinLines { target })])
}

/// Quitting without a save.
pub open spec fn quit() -> RoleV {
    RoleV::Run(seq![Action::App(AppAction::Quit { force: true })])
}

/// The seed table, binding by binding, in the order it is built.
pub open spec fn seed_bindings() -> Seq<BindingV> {
    let b = bind_rows3(Seq::empty(), seed_motions());
    let b = bind_rows3(b, seed_operators());
    let b = bind_rows1(b, Scope::Object, seed_objects());
    let b = bind3(b, "gg"@, RoleV::Plain(Role::Goto(Goto::First)));
    let b = bind3(b, "G"@, RoleV::Plain(Role::Goto(Goto::Last)));
    let b = bind_rows1(b, Scope::Normal, seed_fused());
    let b = bind_v(b, Scope::Visual, "x"@, RoleV::Plain(Role::Operator(Operator::Delete)));
    let b = bind_v(b, Scope::Visual, "s"@, RoleV::Plain(Role::Operator(Operator::Change)));
    let b = bind_rows1(b, Scope::Normal, seed_entries());
    let b = bind_rows2(b, seed_kinds());
    let b = bind_v(b, Scope::OperatorPending, "i"@, RoleV::Plain(Role::Inner));
    let b = bind_v(b, Scope::OperatorPending, "a"@, RoleV::Plain(Role::Around));
    let b = bind_v(b, Scope::Visual, "i"@, RoleV::Plain(Role::Inner));
    let b = bind_v(b, Scope::Visual, "a"@, RoleV::Plain(Role::Around));
    let b = bind_v(b, Scope::Normal, "p"@, RoleV::Plain(Role::Paste { before: false }));
    let b = bind_v(b, Scope::Normal, "P"@, RoleV::Plain(Role::Paste { before: true }));
    let b = bind_v(b, Scope::Visual, "p"@, RoleV::Plain(Role::Paste { before: false }));
    let b = bind_v(b, Scope::Normal, "u"@, RoleV::Plain(Role::History { redo: false }));
    let b = bind_v(b, Scope::Normal, "<C-r>"@, RoleV::Plain(Role::History { redo: true }));
    let b = bind_v(b, Scope::Normal, "."@, RoleV::Plain(Role::Repeat));
    let b = bind_v(b, Scope::Normal, "\""@, RoleV::Plain(Role::Register));
    let b = bind_v(b, Scope::Visual, "\""@, RoleV::Plain(Role::Register));
    let b = bind_rows2(b, seed_scrolls());
    let b = bind_v(b, Scope::Normal, "J"@, join_lines(Target::Cursor {  }));
    let b = bind_v(b, Scope::Visual, "J"@, join_lines(Target::Selection {  }));
    let b = bind_v(b, Scope::Normal, "<C-c>"@, quit());
    let b = bind_v(b, Scope::Normal, "ZQ"@, quit());
    let b = bind_v(b, Scope::Normal, "<esc>"@, RoleV::Plain(Role::Escape));
    let b = bind_v(b, Scope::Insert, "<esc>"@, RoleV::Plain(Role::Escape));
    let b = bind_v(b, Scope::Visual, "<esc>"@, RoleV::Plain(Role::Escape));
    let b = bind_v(b, Scope::OperatorPending, "<esc>"@, RoleV::Plain(Role::Escape));
    let b = bind_v(b, Scope::Object, "<esc>"@, RoleV::Plain(Role::Escape));
    let b = bind_v(b, Scope::Insert, "<left>"@, RoleV::Plain(Role::Motion(Motion::CharLeft)));
    let b = bind_v(b, Scope::Insert, "<right>"@, RoleV::Plain(Role::Motion(Motion::CharRight)));
    let b = bind_v(b, Scope::Insert, "<up>"@, RoleV::Plain(Role::Motion(Motion::LineUp)));
    bind_v(b, Scope::Insert, "<down>"@, RoleV::Plain(Role::Motion(Motion::LineDown)))
}

/// The seed table.
pub fn table() -> (r: Table)
    ensures
        bindings_unique(r@),
        bindings_view(r@) == seed_bindings(),
{
    let mut table = Table::new();
    assert(bindings_view(table@) =~= Seq::<BindingV>::empty());
    let motions: [(&str, Motion); 24] = [
        ("h", Motion::CharLeft),
        ("<left>", Motion::CharLeft),
        ("l", Motion::CharRight),
        ("<right>", Motion::CharRight),
        ("k", Motion::LineUp),
        ("<up>", Motion::LineUp),
        ("j", Motion::LineDown),
        ("<down>", Motion::LineDown),
        ("w", Motion::WordForward),
        ("b", Motion::WordBackward),
        ("e", Motion::WordEnd),
        ("0", Motion::LineStart),
        ("^", Motion::FirstNonBlank),
        ("<home>", Motion::FirstNonBlank),
        ("$", Motion::LineEnd),
        ("<end>", Motion::LineEnd),
        ("{", Motion::ParagraphBackward),
        ("}", Motion::ParagraphForward),
        ("%", Motion::MatchingBracket),
        ("H", Motion::ScreenTop),
        ("M", Motion::ScreenMiddle),
        ("L", Motion::ScreenBottom),
        ("<C-d>", Motion::HalfPageDown),
        ("<C-u>", Motion::HalfPageUp),
    ];
    let ghost start = bindings_view(table@);
    assert(motions@.map_values(|p: (&'static str, Motion)| (p.0@, RoleV::Plain(Role::Motion(p.1)))) =~= seed_motions());
    assert(seed_motions().take(0) =~= Seq::<(Seq<char>, RoleV)>::empty());
    let mut i: usize = 0;
    while i < 24
        invariant
            i <= 24,
            bindings_unique(table@),
            motions@.map_values(|p: (&'static str, Motion)| (p.0@, RoleV::Plain(Role::Motion(p.1)))) == seed_motions(),
            bindings_view(table@) == bind_rows3(start, seed_motions().take(i as int)),
        decreases 24 - i,
    {
        assert(seed_motions().take(i + 1).drop_last() =~= seed_motions().take(i as int));
        assert(seed_motions().take(i + 1).last() == seed_motions()[i as int]);
        let (keys, motion) = motions[i];
        table.bind(Scope::Normal, keys, Role::Motion(motion));
        table.bind(Scope::Visual, keys, Role::Motion(motion));
        table.bind(Scope::OperatorPending, keys, Role::Motion(motion));
        i = i + 1;
    }
    assert(seed_motions().take(i as int) =~= seed_motions());
    let operators: [(&str, Operator); 6] = [
        ("d", Operator::Delete),
        ("c", Operator::Change),
        ("y", Operator::Yank),
        (">", Operator::Indent),
        ("<", Operator::Dedent),
        ("gc", Operator::ToggleComment),
    ];
    let ghost start = bindings_view(table@);
    assert(operators@.map_values(|p: (&'static str, Operator)| (p.0@, RoleV::Plain(Role::Operator(p.1)))) =~= seed_operators());
    assert(seed_operators().take(0) =~= Seq::<(Seq<char>, RoleV)>::empty());
    let mut i: usize = 0;
    while i < 6
        invariant
            i <= 6,
            bindings_unique(table@),
            operators@.map_values(|p: (&'static str, Operator)| (p.0@, RoleV::Plain(Role::Operator(p.1)))) == seed_operators(),
            bindings_view(table@) == bind_rows3(start, seed_operators().take(i as int)),
        decreases 6 - i,
    {
        assert(seed_operators().take(i + 1).drop_last() =~= seed_operators().take(i as int));
        assert(seed_operators().take(i + 1).last() == seed_operators()[i as int]);
        let (keys, operator) = operators[i];
        table.bind(Scope::Normal, keys, Role::Operator(operator));
        table.bind(Scope::Visual, keys, Role::Operator(operator));
        table.bind(Scope::OperatorPending, keys, Role::Operator(operator));
        i = i + 1;
    }
    assert(seed_operators().take(i as int) =~= seed_operators());
    let objects: [(&str, TextObject, Option<char>); 19] = [
        ("w", TextObject::Word, None),
        ("W", TextObject::BigWord, None),
        ("s", TextObject::Sentence, None),
        ("p", TextObject::Paragraph, None),
        ("(", TextObject::Delimited, Some('(')),
        (")", TextObject::Delimited, Some('(')),
        ("{", TextObject::Delimited, Some('{')),
        ("}", TextObject::Delimited, Some('{')),
        ("[", TextObject::Delimited, Some('[')),
        ("]", TextObject::Delimited, Some('[')),
        ("<", TextObject::Delimited, Some('<')),
        (">", TextObject::Delimited, Some('<')),
        ("\"", TextObject::Delimited, Some('"')),
        ("'", TextObject::Delimited, Some('\'')),
        ("`", TextObject::Delimited, Some('`')),
        ("u", TextObject::UnseenRegion, None),
        ("h", TextObject::Hunk, None),
        ("t", TextObject::Thread, None),
        ("b", TextObject::Block, None),
    ];
    let ghost start = bindings_view(table@);
    assert(objects@.map_values(|p: (&'static str, TextObject, Option<char>)| (p.0@, RoleV::Plain(Role::Object { object: p.1, delimiter: p.2 }))) =~= seed_objects());
    assert(seed_objects().take(0) =~= Seq::<(Seq<char>, RoleV)>::empty());
    let mut i: usize = 0;
    while i < 19
        invariant
            i <= 19,
            bindings_unique(table@),
            objects@.map_values(|p: (&'static str, TextObject, Option<char>)| (p.0@, RoleV::Plain(Role::Object { object: p.1, delimiter: p.2 }))) == seed_objects(),
            bindings_view(table@) == bind_rows1(start, Scope::Object, seed_objects().take(i as int)),
        decreases 19 - i,
    {
        assert(seed_objects().take(i + 1).drop_last() =~= seed_objects().take(i as int));
        assert(seed_objects().take(i + 1).last() == seed_objects()[i as int]);
        let (keys, object, delimiter) = objects[i];
        table.bind(Scope::Object, keys, Role::Object { object, delimiter });
        i = i + 1;
    }
    assert(seed_objects().take(i as int) =~= seed_objects());

    // Line addresses: with a count these name a line, so they are not motions.
    table.bind(Scope::Normal, "gg", Role::Goto(Goto::First));
    table.bind(Scope::Visual, "gg", Role::Goto(Goto::First));
    table.bind(Scope::OperatorPending, "gg", Role::Goto(Goto::First));
    table.bind(Scope::Normal, "G", Role::Goto(Goto::Last));
    table.bind(Scope::Visual, "G", Role::Goto(Goto::Last));
    table.bind(Scope::OperatorPending, "G", Role::Goto(Goto::Last));

    // The fused edits: vim's one-key spellings of an operator and its operand.
    let fused: [(&str, Operator, Motion); 7] = [
        ("x", Operator::Delete, Motion::CharRight),
        ("<del>", Operator::Delete, Motion::CharRight),
        ("X", Operator::Delete, Motion::CharLeft),
        ("D", Operator::Delete, Motion::LineEnd),
        ("C", Operator::Change, Motion::LineEnd),
        ("s", Operator::Change, Motion::CharRight),
        ("Y", Operator::Yank, Motion::LineEnd),
    ];
    let ghost start = bindings_view(table@);
    assert(fused@.map_values(|p: (&'static str, Operator, Motion)| (p.0@, RoleV::Plain(Role::Fused { operator: p.1, motion: p.2 }))) =~= seed_fused());
    assert(seed_fused().take(0) =~= Seq::<(Seq<char>, RoleV)>::empty());
    let mut i: usize = 0;
    while i < 7
        invariant
            i <= 7,
            bindings_unique(table@),
            fused@.map_values(|p: (&'static str, Operator, Motion)| (p.0@, RoleV::Plain(Role::Fused { operator: p.1, motion: p.2 }))) == seed_fused(),
            bindings_view(table@) == bind_rows1(start, Scope::Normal, seed_fused().take(i as int)),
        decreases 7 - i,
    {
        assert(seed_fused().take(i + 1).drop_last() =~= seed_fused().take(i as int));
        assert(seed_fused().take(i + 1).last() == seed_fused()[i as int]);
        let (keys, operator, motion) = fused[i];
        table.bind(Scope::Normal, keys, Role::Fused { operator, motion });
        i = i + 1;
    }
    assert(seed_fused().take(i as int) =~= seed_fused());
    // In visual, these act on the selection, so they are the operator itself.
    table.bind(Scope::Visual, "x", Role::Operator(Operator::Delete));
    table.bind(Scope::Visual, "s", Role::Operator(Operator::Change));

    // Insert-mode entries.
    let entries: [(&str, Entry); 7] = [
        ("i", Entry::Before),
        ("a", Entry::After),
        ("I", Entry::LineStart),
        ("A", Entry::LineEnd),
        ("o", Entry::OpenBelow),
        ("O", Entry::OpenAbove),
        ("R", Entry::Replace),
    ];
    let ghost start = bindings_view(table@);
    assert(entries@.map_values(|p: (&'static str, Entry)| (p.0@, RoleV::Plain(Role::Enter(p.1)))) =~= seed_entries());
    assert(seed_entries().take(0) =~= Seq::<(Seq<char>, RoleV)>::empty());
    let mut i: usize = 0;
    while i < 7
        invariant
            i <= 7,
            bindings_unique(table@),
            entries@.map_values(|p: (&'static str, Entry)| (p.0@, RoleV::Plain(Role::Enter(p.1)))) == seed_entries(),
            bindings_view(table@) == bind_rows1(start, Scope::Normal, seed_entries().take(i as int)),
        decreases 7 - i,
    {
        assert(seed_entries().take(i + 1).drop_last() =~= seed_entries().take(i as int));
        assert(seed_entries().take(i + 1).last() == seed_entries()[i as int]);
        let (keys, entry) = entries[i];
        table.bind(Scope::Normal, keys, Role::Enter(entry));
        i = i + 1;
    }
    assert(seed_entries().take(i as int) =~= seed_entries());

    // Visual entries and exits: the same key toggles.
    let kinds: [(&str, SelectionKind); 3] = [
        ("v", SelectionKind::Char),
        ("V", SelectionKind::Line),
        ("<C-v>", SelectionKind::Block),
    ];
    let ghost start = bindings_view(table@);
    assert(kinds@.map_values(|p: (&'static str, SelectionKind)| (p.0@, RoleV::Plain(Role::Select(p.1)))) =~= seed_kinds());
    assert(seed_kinds().take(0) =~= Seq::<(Seq<char>, RoleV)>::empty());
    let mut i: usize = 0;
    while i < 3
        invariant
            i <= 3,
            bindings_unique(table@),
            kinds@.map_values(|p: (&'static str, SelectionKind)| (p.0@, RoleV::Plain(Role::Select(p.1)))) == seed_kinds(),
            bindings_view(table@) == bind_rows2(start, seed_kinds().take(i as int)),
        decreases 3 - i,
    {
        assert(seed_kinds().take(i + 1).drop_last() =~= seed_kinds().take(i as int));
        assert(seed_kinds().take(i + 1).last() == seed_kinds()[i as int]);
        let (keys, kind) = kinds[i];
        table.bind(Scope::Normal, keys, Role::Select(kind));
        table.bind(Scope::Visual, keys, Role::Select(kind));
        i = i + 1;
    }
    assert(seed_kinds().take(i as int) =~= seed_kinds());
    // `i`/`a` name an object inside an operator and inside a selection.
    table.bind(Scope::OperatorPending, "i", Role::Inner);
    table.bind(Scope::OperatorPending, "a", Role::Around);
    table.bind(Scope::Visual, "i", Role::Inner);
    table.bind(Scope::Visual, "a", Role::Around);

    table.bind(Scope::Normal, "p", Role::Paste { before: false });
    table.bind(Scope::Normal, "P", Role::Paste { before: true });
    table.bind(Scope::Visual, "p", Role::Paste { before: false });
    table.bind(Scope::Normal, "u", Role::History { redo: false });
    table.bind(Scope::Normal, "<C-r>", Role::History { redo: true });
    table.bind(Scope::Normal, ".", Role::Repeat);
    table.bind(Scope::Normal, "\"", Role::Register);
    table.bind(Scope::Visual, "\"", Role::Register);

    // The viewport's only keys.
    let scrolls: [(&str, ScrollRequest); 4] = [
        ("<C-e>", ScrollRequest::Rows { rows: 1 }),
        ("<C-y>", ScrollRequest::Rows { rows: -1 }),
        ("<C-f>", ScrollRequest::Pages { pages: 1 }),
        ("<C-b>", ScrollRequest::Pages { pages: -1 }),
    ];
    let ghost start = bindings_view(table@);
    assert(scrolls@.map_values(|p: (&'static str, ScrollRequest)| (p.0@, RoleV::Plain(Role::Scroll(p.1)))) =~= seed_scrolls());
    assert(seed_scrolls().take(0) =~= Seq::<(Seq<char>, RoleV)>::empty());
    let mut i: usize = 0;
    while i < 4
        invariant
            i <= 4,
            bindings_unique(table@),
            scrolls@.map_values(|p: (&'static str, ScrollRequest)| (p.0@, RoleV::Plain(Role::Scroll(p.1)))) == seed_scrolls(),
            bindings_view(table@) == bind_rows2(start, seed_scrolls().take(i as int)),
        decreases 4 - i,
    {
        assert(seed_scrolls().take(i + 1).drop_last() =~= seed_scrolls().take(i as int));
        assert(seed_scrolls().take(i + 1).last() == seed_scrolls()[i as int]);
        let (keys, request) = scrolls[i];
        table.bind(Scope::Normal, keys, Role::Scroll(request));
        table.bind(Scope::Visual, keys, Role::Scroll(request));
        i = i + 1;
    }
    assert(seed_scrolls().take(i as int) =~= seed_scrolls());

    // `J` takes a target rather than a span, so it runs as it is.
    let join_here = vec![Action::Buffer(BufferAction::JoinLines { target: Target::Cursor {  } })];
    assert(join_here@ =~= seq![Action::Buffer(BufferAction::JoinLines { target: Target::Cursor {  } })]);
    assert(role_view(Role::Run(join_here)) == join_lines(Target::Cursor {  }));
    table.bind(Scope::Normal, "J", Role::Run(join_here));
    let join_selection = vec![Action::Buffer(BufferAction::JoinLines { target: Target::Selection {  } })];
    assert(join_selection@ =~= seq![Action::Buffer(BufferAction::JoinLines { target: Target::Selection {  } })]);
    assert(role_view(Role::Run(join_selection)) == join_lines(Target::Selection {  }));
    table.bind(Scope::Visual, "J", Role::Run(join_selection));

    // Leaving: `<C-c>` is the safety valve raw mode needs, `ZQ` is vim's.
    let quit_now = vec![Action::App(AppAction::Quit { force: true })];
    assert(quit_now@ =~= seq![Action::App(AppAction::Quit { force: true })]);
    assert(role_view(Role::Run(quit_now)) == quit());
    table.bind(Scope::Normal, "<C-c>", Role::Run(quit_now));
    let quit_vim = vec![Action::App(AppAction::Quit { force: true })];
    assert(quit_vim@ =~= seq![Action::App(AppAction::Quit { force: true })]);
    assert(role_view(Role::Run(quit_vim)) == quit());
    table.bind(Scope::Normal, "ZQ", Role::Run(quit_vim));

    // `<esc>` is a mode key in every scope, insert included.
    table.bind(Scope::Normal, "<esc>", Role::Escape);
    table.bind(Scope::Insert, "<esc>", Role::Escape);
    table.bind(Scope::Visual, "<esc>", Role::Escape);
    table.bind(Scope::OperatorPending, "<esc>", Role::Escape);
    table.bind(Scope::Object, "<esc>", Role::Escape);

    // Insert mode: arrows move, everything else is text.
    table.bind(Scope::Insert, "<left>", Role::Motion(Motion::CharLeft));
    table.bind(Scope::Insert, "<right>", Role::Motion(Motion::CharRight));
    table.bind(Scope::Insert, "<up>", Role::Motion(Motion::LineUp));
    table.bind(Scope::Insert, "<down>", Role::Motion(Motion::LineDown));

    table
}


/// `t` holds no `c`.
pub open spec fn lacks(t: Seq<char>, c: char) -> bool {
    forall|j: int| 0 <= j < t.len() ==> t[j] != c
}

/// No row's spelling holds a `c`.
pub open spec fn rows_lack(rows: Seq<(Seq<char>, RoleV)>, c: char) -> bool {
    forall|j: int| 0 <= j < rows.len() ==> lacks(#[trigger] rows[j].0, c)
}

/// A spelling with no `c` in it does not read as the plain key `c`.
proof fn lemma_lacks_parse(t: Seq<char>, c: char)
    requires
        lacks(t, c),
        spelled_as_itself(c),
    ensures
        spec_parse_from(t, 0) != Some(seq![spec_char_key(c)]),
{
    lemma_parsed_char_is_written(t, 0, c);
    if spec_parse_from(t, 0) == Some(seq![spec_char_key(c)]) {
        let keys = seq![spec_char_key(c)];
        assert(keys[0].code == Code::Char(c));
    }
}

proof fn lemma_keep1(b: Seq<BindingV>, s: Scope, text: Seq<char>, role: RoleV, scope: Scope, c: char)
    requires
        s != scope || lacks(text, c),
        spelled_as_itself(c),
    ensures
        bound_role(bind_v(b, s, text, role), scope, seq![spec_char_key(c)]) == bound_role(b, scope, seq![spec_char_key(c)]),
{
    if s == scope {
        lemma_lacks_parse(text, c);
    }
    lemma_bind_v_lookup(b, s, text, role, scope, seq![spec_char_key(c)]);
}

proof fn lemma_keep3(b: Seq<BindingV>, text: Seq<char>, role: RoleV, scope: Scope, c: char)
    requires
        lacks(text, c),
        spelled_as_itself(c),
    ensures
        bound_role(bind3(b, text, role), scope, seq![spec_char_key(c)]) == bound_role(b, scope, seq![spec_char_key(c)]),
{
    lemma_keep1(b, Scope::Normal, text, role, scope, c);
    let b1 = bind_v(b, Scope::Normal, text, role);
    lemma_keep1(b1, Scope::Visual, text, role, scope, c);
    let b2 = bind_v(b1, Scope::Visual, text, role);
    lemma_keep1(b2, Scope::OperatorPending, text, role, scope, c);
}

proof fn lemma_rows3_keep(b: Seq<BindingV>, rows: Seq<(Seq<char>, RoleV)>, scope: Scope, c: char)
    requires
        rows_lack(rows, c),
        spelled_as_itself(c),
    ensures
        bound_role(bind_rows3(b, rows), scope, seq![spec_char_key(c)]) == bound_role(b, scope, seq![spec_char_key(c)]),
    decreases rows.len(),
{
    if rows.len() > 0 {
        assert forall|j: int| 0 <= j < rows.drop_last().len() implies lacks(#[trigger] rows.drop_last()[j].0, c) by {
            assert(rows.drop_last()[j] == rows[j]);
        }
        lemma_rows3_keep(b, rows.drop_last(), scope, c);
        lemma_keep3(bind_rows3(b, rows.drop_last()), rows.last().0, rows.last().1, scope, c);
    }
}

proof fn lemma_rows2_keep(b: Seq<BindingV>, rows: Seq<(Seq<char>, RoleV)>, scope: Scope, c: char)
    requires
        rows_lack(rows, c),
        spelled_as_itself(c),
    ensures
        bound_role(bind_rows2(b, rows), scope, seq![spec_char_key(c)]) == bound_role(b, scope, seq![spec_char_key(c)]),
    decreases rows.len(),
{
    if rows.len() > 0 {
        assert forall|j: int| 0 <= j < rows.drop_last().len() implies lacks(#[trigger] rows.drop_last()[j].0, c) by {
            assert(rows.drop_last()[j] == rows[j]);
        }
        lemma_rows2_keep(b, rows.drop_last(), scope, c);
        let b0 = bind_rows2(b, rows.drop_last());
        lemma_keep1(b0, Scope::Normal, rows.last().0, rows.last().1, scope, c);
        lemma_keep1(bind_v(b0, Scope::Normal, rows.last().0, rows.last().1), Scope::Visual, rows.last().0, rows.last().1, scope, c);
    }
}

proof fn lemma_rows1_keep(b: Seq<BindingV>, s: Scope, rows: Seq<(Seq<char>, RoleV)>, scope: Scope, c: char)
    requires
        s != scope || rows_lack(rows, c),
        spelled_as_itself(c),
    ensures
        bound_role(bind_rows1(b, s, rows), scope, seq![spec_char_key(c)]) == bound_role(b, scope, seq![spec_char_key(c)]),
    decreases rows.len(),
{
    if rows.len() > 0 {
        if s == scope {
            assert forall|j: int| 0 <= j < rows.drop_last().len() implies lacks(#[trigger] rows.drop_last()[j].0, c) by {
                assert(rows.drop_last()[j] == rows[j]);
            }
        }
        lemma_rows1_keep(b, s, rows.drop_last(), scope, c);
        lemma_keep1(bind_rows1(b, s, rows.drop_last()), s, rows.last().0, rows.last().1, scope, c);
    }
}

/// Binding the rows one after another is binding a first part of them, then
/// the rest.
proof fn lemma_rows3_split(b: Seq<BindingV>, rows: Seq<(Seq<char>, RoleV)>, k: int)
    requires
        0 <= k <= rows.len(),
    ensures
        bind_rows3(b, rows) == bind_rows3(bind_rows3(b, rows.take(k)), rows.skip(k)),
    decreases rows.len(),
{
    if rows.len() == k {
        assert(rows.take(k) =~= rows);
        assert(rows.skip(k) =~= Seq::<(Seq<char>, RoleV)>::empty());
    } else {
        lemma_rows3_split(b, rows.drop_last(), k);
        assert(rows.drop_last().take(k) =~= rows.take(k));
        assert(rows.drop_last().skip(k) =~= rows.skip(k).drop_last());
        assert(rows.skip(k).last() == rows.last());
    }
}

/// No operator row spells `{` or `}`.
proof fn lemma_operators_lack(c: char)
    requires
        c == '{' || c == '}',
    ensures
        rows_lack(seed_operators(), c),
{
    reveal_strlit("d");
    reveal_strlit("c");
    reveal_strlit("y");
    reveal_strlit(">");
    reveal_strlit("<");
    reveal_strlit("gc");
    let rows = seed_operators();
    assert forall|j: int| 0 <= j < rows.len() implies lacks(#[trigger] rows[j].0, c) by {}
}

/// No fused row spells `{` or `}`.
proof fn lemma_fused_lack(c: char)
    requires
        c == '{' || c == '}',
    ensures
        rows_lack(seed_fused(), c),
{
    reveal_strlit("x");
    reveal_strlit("<del>");
    reveal_strlit("X");
    reveal_strlit("D");
    reveal_strlit("C");
    reveal_strlit("s");
    reveal_strlit("Y");
    let rows = seed_fused();
    assert forall|j: int| 0 <= j < rows.len() implies lacks(#[trigger] rows[j].0, c) by {}
}

/// No entry row spells `{` or `}`.
proof fn lemma_entries_lack(c: char)
    requires
        c == '{' || c == '}',
    ensures
        rows_lack(seed_entries(), c),
{
    reveal_strlit("i");
    reveal_strlit("a");
    reveal_strlit("I");
    reveal_strlit("A");
    reveal_strlit("o");
    reveal_strlit("O");
    reveal_strlit("R");
    let rows = seed_entries();
    assert forall|j: int| 0 <= j < rows.len() implies lacks(#[trigger] rows[j].0, c) by {}
}

/// No visual-kind row spells `{` or `}`.
proof fn lemma_kinds_lack(c: char)
    requires
        c == '{' || c == '}',
    ensures
        rows_lack(seed_kinds(), c),
{
    reveal_strlit("v");
    reveal_strlit("V");
    reveal_strlit("<C-v>");
    let rows = seed_kinds();
    assert forall|j: int| 0 <= j < rows.len() implies lacks(#[trigger] rows[j].0, c) by {}
}

/// No scroll row spells `{` or `}`.
proof fn lemma_scrolls_lack(c: char)
    requires
        c == '{' || c == '}',
    ensures
        rows_lack(seed_scrolls(), c),
{
    reveal_strlit("<C-e>");
    reveal_strlit("<C-y>");
    reveal_strlit("<C-f>");
    reveal_strlit("<C-b>");
    let rows = seed_scrolls();
    assert forall|j: int| 0 <= j < rows.len() implies lacks(#[trigger] rows[j].0, c) by {}
}

/// Everything the seed binds after its motions leaves the plain keys `{`
/// and `}` alone.
#[verifier::spinoff_prover]
#[verifier::rlimit(100)]
proof fn lemma_seed_keeps(scope: Scope, c: char)
    requires
        c == '{' || c == '}',
        scope != Scope::Object,
    ensures
        bound_role(seed_bindings(), scope, seq![spec_char_key(c)])
            == bound_role(bind_rows3(Seq::empty(), seed_motions()), scope, seq![spec_char_key(c)]),
{
    reveal_strlit(".");
    reveal_strlit("<C-c>");
    reveal_strlit("<C-r>");
    reveal_strlit("<down>");
    reveal_strlit("<esc>");
    reveal_strlit("<left>");
    reveal_strlit("<right>");
    reveal_strlit("<up>");
    reveal_strlit("G");
    reveal_strlit("J");
    reveal_strlit("P");
    reveal_strlit("ZQ");
    reveal_strlit("\"");
    reveal_strlit("a");
    reveal_strlit("gg");
    reveal_strlit("i");
    reveal_strlit("p");
    reveal_strlit("s");
    reveal_strlit("u");
    reveal_strlit("x");
    assert(spelled_as_itself(c));
    let b = bind_rows3(Seq::empty(), seed_motions());
    lemma_operators_lack(c);
    lemma_rows3_keep(b, seed_operators(), scope, c);
    let b = bind_rows3(b, seed_operators());
    lemma_rows1_keep(b, Scope::Object, seed_objects(), scope, c);
    let b = bind_rows1(b, Scope::Object, seed_objects());
    lemma_keep3(b, "gg"@, RoleV::Plain(Role::Goto(Goto::First)), scope, c);
    let b = bind3(b, "gg"@, RoleV::Plain(Role::Goto(Goto::First)));
    lemma_keep3(b, "G"@, RoleV::Plain(Role::Goto(Goto::Last)), scope, c);
    let b = bind3(b, "G"@, RoleV::Plain(Role::Goto(Goto::Last)));
    lemma_fused_lack(c);
    lemma_rows1_keep(b, Scope::Normal, seed_fused(), scope, c);
    let b = bind_rows1(b, Scope::Normal, seed_fused());
    lemma_keep1(b, Scope::Visual, "x"@, RoleV::Plain(Role::Operator(Operator::Delete)), scope, c);
    let b = bind_v(b, Scope::Visual, "x"@, RoleV::Plain(Role::Operator(Operator::Delete)));
    lemma_keep1(b, Scope::Visual, "s"@, RoleV::Plain(Role::Operator(Operator::Change)), scope, c);
    let b = bind_v(b, Scope::Visual, "s"@, RoleV::Plain(Role::Operator(Operator::Change)));
    lemma_entries_lack(c);
    lemma_rows1_keep(b, Scope::Normal, seed_entries(), scope, c);
    let b = bind_rows1(b, Scope::Normal, seed_entries());
    lemma_kinds_lack(c);
    lemma_rows2_keep(b, seed_kinds(), scope, c);
    let b = bind_rows2(b, seed_kinds());
    lemma_keep1(b, Scope::OperatorPending, "i"@, RoleV::Plain(Role::Inner), scope, c);
    let b = bind_v(b, Scope::OperatorPending, "i"@, RoleV::Plain(Role::Inner));
    lemma_keep1(b, Scope::OperatorPending, "a"@, RoleV::Plain(Role::Around), scope, c);
    let b = bind_v(b, Scope::OperatorPending, "a"@, RoleV::Plain(Role::Around));
    lemma_keep1(b, Scope::Visual, "i"@, RoleV::Plain(Role::Inner), scope, c);
    let b = bind_v(b, Scope::Visual, "i"@, RoleV::Plain(Role::Inner));
    lemma_keep1(b, Scope::Visual, "a"@, RoleV::Plain(Role::Around), scope, c);
    let b = bind_v(b, Scope::Visual, "a"@, RoleV::Plain(Role::Around));
    lemma_keep1(b, Scope::Normal, "p"@, RoleV::Plain(Role::Paste { before: false }), scope, c);
    let b = bind_v(b, Scope::Normal, "p"@, RoleV::Plain(Role::Paste { before: false }));
    lemma_keep1(b, Scope::Normal, "P"@, RoleV::Plain(Role::Paste { before: true }), scope, c);
    let b = bind_v(b, Scope::Normal, "P"@, RoleV::Plain(Role::Paste { before: true }));
    lemma_keep1(b, Scope::Visual, "p"@, RoleV::Plain(Role::Paste { before: false }), scope, c);
    let b = bind_v(b, Scope::Visual, "p"@, RoleV::Plain(Role::Paste { before: false }));
    lemma_keep1(b, Scope::Normal, "u"@, RoleV::Plain(Role::History { redo: false }), scope, c);
    let b = bind_v(b, Scope::Normal, "u"@, RoleV::Plain(Role::History { redo: false }));
    lemma_keep1(b, Scope::Normal, "<C-r>"@, RoleV::Plain(Role::History { redo: true }), scope, c);
    let b = bind_v(b, Scope::Normal, "<C-r>"@, RoleV::Plain(Role::History { redo: true }));
    lemma_keep1(b, Scope::Normal, "."@, RoleV::Plain(Role::Repeat), scope, c);
    let b = bind_v(b, Scope::Normal, "."@, RoleV::Plain(Role::Repeat));
    lemma_keep1(b, Scope::Normal, "\""@, RoleV::Plain(Role::Register), scope, c);
    let b = bind_v(b, Scope::Normal, "\""@, RoleV::Plain(Role::Register));
    lemma_keep1(b, Scope::Visual, "\""@, RoleV::Plain(Role::Register), scope, c);
    let b = bind_v(b, Scope::Visual, "\""@, RoleV::Plain(Role::Register));
    lemma_scrolls_lack(c);
    lemma_rows2_keep(b, seed_scrolls(), scope, c);
    let b = bind_rows2(b, seed_scrolls());
    lemma_keep1(b, Scope::Normal, "J"@, join_lines(Target::Cursor {  }), scope, c);
    let b = bind_v(b, Scope::Normal, "J"@, join_lines(Target::Cursor {  }));
    lemma_keep1(b, Scope::Visual, "J"@, join_lines(Target::Selection {  }), scope, c);
    let b = bind_v(b, Scope::Visual, "J"@, join_lines(Target::Selection {  }));
    lemma_keep1(b, Scope::Normal, "<C-c>"@, quit(), scope, c);
    let b = bind_v(b, Scope::Normal, "<C-c>"@, quit());
    lemma_keep1(b, Scope::Normal, "ZQ"@, quit(), scope, c);
    let b = bind_v(b, Scope::Normal, "ZQ"@, quit());
    lemma_keep1(b, Scope::Normal, "<esc>"@, RoleV::Plain(Role::Escape), scope, c);
    let b = bind_v(b, Scope::Normal, "<esc>"@, RoleV::Plain(Role::Escape));
    lemma_keep1(b, Scope::Insert, "<esc>"@, RoleV::Plain(Role::Escape), scope, c);
    let b = bind_v(b, Scope::Insert, "<esc>"@, RoleV::Plain(Role::Escape));
    lemma_keep1(b, Scope::Visual, "<esc>"@, RoleV::Plain(Role::Escape), scope, c);
    let b = bind_v(b, Scope::Visual, "<esc>"@, RoleV::Plain(Role::Escape));
    lemma_keep1(b, Scope::OperatorPending, "<esc>"@, RoleV::Plain(Role::Escape), scope, c);
    let b = bind_v(b, Scope::OperatorPending, "<esc>"@, RoleV::Plain(Role::Escape));
    lemma_keep1(b, Scope::Object, "<esc>"@, RoleV::Plain(Role::Escape), scope, c);
    let b = bind_v(b, Scope::Object, "<esc>"@, RoleV::Plain(Role::Escape));
    lemma_keep1(b, Scope::Insert, "<left>"@, RoleV::Plain(Role::Motion(Motion::CharLeft)), scope, c);
    let b = bind_v(b, Scope::Insert, "<left>"@, RoleV::Plain(Role::Motion(Motion::CharLeft)));
    lemma_keep1(b, Scope::Insert, "<right>"@, RoleV::Plain(Role::Motion(Motion::CharRight)), scope, c);
    let b = bind_v(b, Scope::Insert, "<right>"@, RoleV::Plain(Role::Motion(Motion::CharRight)));
    lemma_keep1(b, Scope::Insert, "<up>"@, RoleV::Plain(Role::Motion(Motion::LineUp)), scope, c);
    let b = bind_v(b, Scope::Insert, "<up>"@, RoleV::Plain(Role::Motion(Motion::LineUp)));
    lemma_keep1(b, Scope::Insert, "<down>"@, RoleV::Plain(Role::Motion(Motion::LineDown)), scope, c);
    let b = bind_v(b, Scope::Insert, "<down>"@, RoleV::Plain(Role::Motion(Motion::LineDown)));
}

/// What the seed's motion rows bind `{` and `}` to, in each scope they bind.
#[verifier::spinoff_prover]
#[verifier::rlimit(100)]
proof fn lemma_seed_motion_braces(scope: Scope)
    requires
        scope == Scope::Normal || scope == Scope::Visual || scope == Scope::OperatorPending,
    ensures
        bound_role(bind_rows3(Seq::empty(), seed_motions()), scope, seq![spec_char_key('}')])
            == Some(RoleV::Plain(Role::Motion(Motion::ParagraphForward))),
        bound_role(bind_rows3(Seq::empty(), seed_motions()), scope, seq![spec_char_key('{')])
            == Some(RoleV::Plain(Role::Motion(Motion::ParagraphBackward))),
{
    reveal_strlit("h");
    reveal_strlit("<left>");
    reveal_strlit("l");
    reveal_strlit("<right>");
    reveal_strlit("k");
    reveal_strlit("<up>");
    reveal_strlit("j");
    reveal_strlit("<down>");
    reveal_strlit("w");
    reveal_strlit("b");
    reveal_strlit("e");
    reveal_strlit("0");
    reveal_strlit("^");
    reveal_strlit("<home>");
    reveal_strlit("$");
    reveal_strlit("<end>");
    reveal_strlit("{");
    reveal_strlit("}");
    reveal_strlit("%");
    reveal_strlit("H");
    reveal_strlit("M");
    reveal_strlit("L");
    reveal_strlit("<C-d>");
    reveal_strlit("<C-u>");
    let rows = seed_motions();
    let close = seq![spec_char_key('}')];
    let open = seq![spec_char_key('{')];
    assert(spec_parse_from("}"@, 1) == Some(Seq::<Key>::empty()));
    assert(spec_parse_from("}"@, 0) == Some(close)) by {
        assert(seq![spec_char_key('}')] + Seq::<Key>::empty() =~= close);
    }
    assert(spec_parse_from("{"@, 1) == Some(Seq::<Key>::empty()));
    assert(spec_parse_from("{"@, 0) == Some(open)) by {
        assert(seq![spec_char_key('{')] + Seq::<Key>::empty() =~= open);
    }
    // `}` is the eighteenth row, and no later row spells it.
    lemma_rows3_split(Seq::empty(), rows, 18);
    let front = rows.take(18);
    assert(front.last() == ("}"@, RoleV::Plain(Role::Motion(Motion::ParagraphForward))));
    assert(rows.skip(18) =~= seq![
        ("%"@, RoleV::Plain(Role::Motion(Motion::MatchingBracket))),
        ("H"@, RoleV::Plain(Role::Motion(Motion::ScreenTop))),
        ("M"@, RoleV::Plain(Role::Motion(Motion::ScreenMiddle))),
        ("L"@, RoleV::Plain(Role::Motion(Motion::ScreenBottom))),
        ("<C-d>"@, RoleV::Plain(Role::Motion(Motion::HalfPageDown))),
        ("<C-u>"@, RoleV::Plain(Role::Motion(Motion::HalfPageUp))),
    ]);
    lemma_rows3_keep(bind_rows3(Seq::empty(), front), rows.skip(18), scope, '}');
    let f0 = bind_rows3(Seq::empty(), front.drop_last());
    let r = RoleV::Plain(Role::Motion(Motion::ParagraphForward));
    lemma_bind_v_lookup(f0, Scope::Normal, "}"@, r, scope, close);
    let f1 = bind_v(f0, Scope::Normal, "}"@, r);
    lemma_bind_v_lookup(f1, Scope::Visual, "}"@, r, scope, close);
    let f2 = bind_v(f1, Scope::Visual, "}"@, r);
    lemma_bind_v_lookup(f2, Scope::OperatorPending, "}"@, r, scope, close);
    // `{` is the seventeenth, and the later rows, `}` among them, do not spell it.
    lemma_rows3_split(Seq::empty(), rows, 17);
    let front = rows.take(17);
    assert(front.last() == ("{"@, RoleV::Plain(Role::Motion(Motion::ParagraphBackward))));
    assert(rows.skip(17) =~= seq![
        ("}"@, RoleV::Plain(Role::Motion(Motion::ParagraphForward))),
        ("%"@, RoleV::Plain(Role::Motion(Motion::MatchingBracket))),
        ("H"@, RoleV::Plain(Role::Motion(Motion::ScreenTop))),
        ("M"@, RoleV::Plain(Role::Motion(Motion::ScreenMiddle))),
        ("L"@, RoleV::Plain(Role::Motion(Motion::ScreenBottom))),
        ("<C-d>"@, RoleV::Plain(Role::Motion(Motion::HalfPageDown))),
        ("<C-u>"@, RoleV::Plain(Role::Motion(Motion::HalfPageUp))),
    ]);
    lemma_rows3_keep(bind_rows3(Seq::empty(), front), rows.skip(17), scope, '{');
    let g0 = bind_rows3(Seq::empty(), front.drop_last());
    let q = RoleV::Plain(Role::Motion(Motion::ParagraphBackward));
    lemma_bind_v_lookup(g0, Scope::Normal, "{"@, q, scope, open);
    let g1 = bind_v(g0, Scope::Normal, "{"@, q);
    lemma_bind_v_lookup(g1, Scope::Visual, "{"@, q, scope, open);
    let g2 = bind_v(g1, Scope::Visual, "{"@, q);
    lemma_bind_v_lookup(g2, Scope::OperatorPending, "{"@, q, scope, open);
}

/// **The seed's paragraph keys**: in normal, visual and operator-pending the
/// seed table binds the plain key `}` to moving a paragraph forward and `{`
/// to moving one backward.
pub proof fn lemma_seed_paragraph_keys(scope: Scope)
    requires
        scope == Scope::Normal || scope == Scope::Visual || scope == Scope::OperatorPending,
    ensures
        bound_role(seed_bindings(), scope, seq![spec_char_key('}')])
            == Some(RoleV::Plain(Role::Motion(Motion::ParagraphForward))),
        bound_role(seed_bindings(), scope, seq![spec_char_key('{')])
            == Some(RoleV::Plain(Role::Motion(Motion::ParagraphBackward))),
{
    lemma_seed_motion_braces(scope);
    lemma_seed_keeps(scope, '}');
    lemma_seed_keeps(scope, '{');
}

} // verus!
