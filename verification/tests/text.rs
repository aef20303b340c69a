use phosphor_core::input::text::{
    cased, clamp, cursor_after, cursor_after_with_target, end_of_line, first_non_blank, is_find, line_span,
    motion_span, motion_span_with_target, object_span, Lines,
};
use phosphor_core::request::{CaseChange, Motion, Position, SelectionKind, TextObject};

fn at_position(line: u32, column: u32) -> Position {
    Position { line, column }
}

#[test]
fn word_motions_walk_runs_of_one_class() {
    let text = Lines::new("let value = foo_bar(1);\nnext line", 1, 1);
    assert_eq!(
        cursor_after(&text, at_position(1, 1), Motion::WordForward, 1),
        at_position(1, 5)
    );
    // Punctuation is its own run: `=` then `foo_bar` then `(`.
    assert_eq!(
        cursor_after(&text, at_position(1, 5), Motion::WordForward, 2),
        at_position(1, 13)
    );
    assert_eq!(
        cursor_after(&text, at_position(1, 1), Motion::WordEnd, 1),
        at_position(1, 3)
    );
    assert_eq!(
        cursor_after(&text, at_position(1, 5), Motion::WordBackward, 1),
        at_position(1, 1)
    );
    // A word motion crosses the line boundary rather than stopping at it.
    assert_eq!(
        cursor_after(&text, at_position(1, 23), Motion::WordForward, 1),
        at_position(2, 1)
    );
}

#[test]
fn a_vertical_motion_keeps_the_column_and_clamps_it() {
    let text = Lines::new("a longer line\nshort\nanother long line", 1, 9);
    assert_eq!(
        cursor_after(&text, at_position(1, 9), Motion::LineDown, 1),
        at_position(2, 5),
        "the column clamps to the shorter line"
    );
}

#[test]
fn the_bracket_motion_matches_across_lines() {
    let text = Lines::new("fn f(a: u8) {\n    g(a);\n}", 1, 13);
    assert_eq!(
        cursor_after(&text, at_position(1, 13), Motion::MatchingBracket, 1),
        at_position(3, 1)
    );
    assert_eq!(
        cursor_after(&text, at_position(3, 1), Motion::MatchingBracket, 1),
        at_position(1, 13)
    );
    // `%` finds the first bracket after the cursor on the line.
    assert_eq!(
        cursor_after(&text, at_position(2, 1), Motion::MatchingBracket, 1),
        at_position(2, 8)
    );
}

#[test]
fn an_operators_span_is_inclusive_only_where_vim_says_so() {
    let text = Lines::new("alpha beta gamma", 1, 1);
    // `dw` stops short of the character it lands on…
    let (span, kind) = motion_span(&text, at_position(1, 1), Motion::WordForward, 1).unwrap();
    assert_eq!(span.end, at_position(1, 7));
    assert_eq!(kind, SelectionKind::Char);
    // …`de` takes it.
    let (span, _) = motion_span(&text, at_position(1, 1), Motion::WordEnd, 1).unwrap();
    assert_eq!(span.end, at_position(1, 6));
    // `d$` takes the last character too.
    let (span, _) = motion_span(&text, at_position(1, 12), Motion::LineEnd, 1).unwrap();
    assert_eq!(span.end, at_position(1, 17));
}

#[test]
fn a_linewise_span_swallows_the_whole_line_and_its_newline() {
    let text = Lines::new("one\ntwo\nthree\nfour\nfive", 2, 1);
    let (span, kind) = motion_span(&text, at_position(2, 1), Motion::LineDown, 2).unwrap();
    assert_eq!(kind, SelectionKind::Line);
    assert_eq!(span.start, at_position(2, 1));
    assert_eq!(
        span.end,
        at_position(5, 1),
        "a linewise span ends at the start of the line after it, so the newline goes too"
    );
    // The last line has no newline to take, so the span ends at its end.
    let (span, _) = motion_span(&text, at_position(5, 1), Motion::LineDown, 1).unwrap();
    assert_eq!(span.end, at_position(5, 5));
}

#[test]
fn a_delimited_object_is_inner_or_around() {
    let text = Lines::new("call(alpha, beta)", 1, 8);
    let (inner, _) = object_span(
        &text,
        at_position(1, 8),
        TextObject::Delimited,
        true,
        1,
        Some('('),
    )
    .unwrap();
    assert_eq!(inner.start, at_position(1, 6));
    assert_eq!(inner.end, at_position(1, 17));
    let (around, _) = object_span(
        &text,
        at_position(1, 8),
        TextObject::Delimited,
        false,
        1,
        Some('('),
    )
    .unwrap();
    assert_eq!(around.start, at_position(1, 5));
    assert_eq!(around.end, at_position(1, 18));
}

#[test]
fn a_quoted_object_does_not_wrap_to_the_next_line() {
    let text = Lines::new("let s = \"hello\";\nlet t = 1;", 1, 11);
    let (inner, _) = object_span(
        &text,
        at_position(1, 11),
        TextObject::Delimited,
        true,
        1,
        Some('"'),
    )
    .unwrap();
    assert_eq!(inner.start, at_position(1, 10));
    assert_eq!(inner.end, at_position(1, 15));
}

#[test]
fn a_word_object_is_the_run_under_the_cursor() {
    let text = Lines::new("alpha beta gamma", 1, 8);
    let (inner, _) =
        object_span(&text, at_position(1, 8), TextObject::Word, true, 1, None).unwrap();
    assert_eq!(
        (inner.start, inner.end),
        (at_position(1, 7), at_position(1, 11))
    );
    let (around, _) =
        object_span(&text, at_position(1, 8), TextObject::Word, false, 1, None).unwrap();
    assert_eq!(around.end, at_position(1, 12), "aw takes the space after");
}

#[test]
fn the_agent_nouns_answer_nothing_rather_than_guessing() {
    let text = Lines::new("anything", 1, 1);
    for object in [
        TextObject::UnseenRegion,
        TextObject::Hunk,
        TextObject::Thread,
        TextObject::Block,
    ] {
        assert!(object_span(&text, at_position(1, 1), object, true, 1, None).is_none());
    }
}

#[test]
fn a_paragraph_object_stops_at_the_blank_line() {
    let text = Lines::new("one\ntwo\n\nthree", 1, 1);
    let (span, kind) = object_span(
        &text,
        at_position(1, 1),
        TextObject::Paragraph,
        true,
        1,
        None,
    )
    .unwrap();
    assert_eq!(kind, SelectionKind::Line);
    assert_eq!(span.start, at_position(1, 1));
    assert_eq!(span.end, at_position(3, 1));
}

#[test]
fn a_find_lands_on_the_counted_character_and_till_stops_short() {
    let text = Lines::new("a,b,c,d", 1, 1);
    assert!(is_find(Motion::FindCharForward));
    assert!(!is_find(Motion::RepeatFind));
    assert_eq!(
        cursor_after_with_target(&text, at_position(1, 1), Motion::FindCharForward, 2, Some(',')),
        at_position(1, 4)
    );
    assert_eq!(
        cursor_after_with_target(&text, at_position(1, 1), Motion::TillCharForward, 1, Some(',')),
        at_position(1, 1)
    );
    assert_eq!(
        cursor_after_with_target(&text, at_position(1, 7), Motion::FindCharBackward, 1, Some(',')),
        at_position(1, 6)
    );
    assert_eq!(
        cursor_after_with_target(&text, at_position(1, 7), Motion::TillCharBackward, 1, Some(',')),
        at_position(1, 7)
    );
    // A count that cannot be met stays put, and with no character a find does nothing.
    assert_eq!(
        cursor_after_with_target(&text, at_position(1, 1), Motion::FindCharForward, 9, Some(',')),
        at_position(1, 1)
    );
    assert_eq!(cursor_after(&text, at_position(1, 1), Motion::FindCharForward, 1), at_position(1, 1));
    // `dfx` with no `x` ahead deletes nothing; `df,` takes the comma.
    assert!(motion_span_with_target(&text, at_position(1, 1), Motion::FindCharForward, 1, Some('x')).is_none());
    let (span, _) =
        motion_span_with_target(&text, at_position(1, 1), Motion::FindCharForward, 1, Some(',')).unwrap();
    assert_eq!((span.start, span.end), (at_position(1, 1), at_position(1, 3)));
}

#[test]
fn x_on_a_short_line_takes_only_what_is_there() {
    let text = Lines::new("abc\nnext", 1, 2);
    let (span, _) = motion_span(&text, at_position(1, 2), Motion::CharRight, 5).unwrap();
    assert_eq!((span.start, span.end), (at_position(1, 2), at_position(1, 4)));
    let empty = Lines::new("", 1, 1);
    assert!(motion_span(&empty, at_position(1, 1), Motion::CharRight, 1).is_none());
    assert!(motion_span(&text, at_position(1, 1), Motion::LineStart, 1).is_none());
    assert!(motion_span(&text, at_position(1, 1), Motion::SearchNext, 1).is_none());
}

#[test]
fn positions_clamp_into_the_buffer() {
    let text = Lines::new("abc\n\nlonger", 1, 1);
    assert_eq!(clamp(&text, at_position(9, 9)), at_position(3, 6));
    assert_eq!(clamp(&text, at_position(2, 4)), at_position(2, 1));
    assert_eq!(clamp(&text, at_position(0, 0)), at_position(1, 1));
    assert_eq!(end_of_line(&text, 1), at_position(1, 4));
    assert_eq!(first_non_blank(&Lines::new("   x", 1, 1), 1), at_position(1, 4));
    assert_eq!(first_non_blank(&Lines::new("   ", 1, 1), 1), at_position(1, 1));
    let span = line_span(&text, 3, 1);
    assert_eq!((span.start, span.end), (at_position(3, 1), at_position(3, 7)));
}

#[test]
fn paragraph_motions_stop_at_blank_lines() {
    let text = Lines::new("one\ntwo\n\nthree\nfour", 1, 1);
    assert_eq!(cursor_after(&text, at_position(1, 1), Motion::ParagraphForward, 1), at_position(3, 1));
    assert_eq!(cursor_after(&text, at_position(4, 1), Motion::ParagraphForward, 1), at_position(5, 1));
    assert_eq!(cursor_after(&text, at_position(5, 1), Motion::ParagraphBackward, 1), at_position(3, 1));
    assert_eq!(cursor_after(&text, at_position(2, 1), Motion::ParagraphBackward, 1), at_position(1, 1));
}

#[test]
fn a_sentence_object_ends_after_its_stop() {
    let text = Lines::new("One. Two words. Three", 1, 7);
    let (inner, _) = object_span(&text, at_position(1, 7), TextObject::Sentence, true, 1, None).unwrap();
    assert_eq!((inner.start, inner.end), (at_position(1, 6), at_position(1, 16)));
    let (around, _) = object_span(&text, at_position(1, 7), TextObject::Sentence, false, 1, None).unwrap();
    assert_eq!(around.end, at_position(1, 17));
}

#[test]
fn case_changes_touch_only_letters() {
    assert_eq!(cased("aB1_ß", CaseChange::Upper), "AB1_SS");
    assert_eq!(cased("aB1", CaseChange::Lower), "ab1");
    assert_eq!(cased("aB1", CaseChange::Toggle), "Ab1");
}

#[test]
fn every_motion_lands_inside_the_buffer() {
    let text = Lines::new("fn main() {\n\n    let (a, b) = [1, 2];\n}", 1, 3);
    let widths = [11u32, 0, 24, 1];
    let motions = [
        Motion::CharLeft, Motion::CharRight, Motion::LineUp, Motion::LineDown, Motion::WordForward,
        Motion::WordBackward, Motion::WordEnd, Motion::BigWordForward, Motion::BigWordBackward,
        Motion::BigWordEnd, Motion::LineStart, Motion::FirstNonBlank, Motion::LineEnd, Motion::BufferStart,
        Motion::BufferEnd, Motion::ParagraphForward, Motion::ParagraphBackward, Motion::MatchingBracket,
        Motion::ScreenTop, Motion::ScreenMiddle, Motion::ScreenBottom, Motion::HalfPageDown, Motion::HalfPageUp,
    ];
    for (index, width) in widths.iter().enumerate() {
        let line = index as u32 + 1;
        for column in 1..=width + 1 {
            for motion in motions {
                let p = cursor_after(&text, at_position(line, column), motion, 1);
                assert!(1 <= p.line && p.line <= 4 && p.column >= 1, "{motion:?} from {line}:{column} gave {p:?}");
            }
        }
    }
}
