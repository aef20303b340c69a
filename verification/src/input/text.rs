//! The buffer as the input machine reads it, and where every motion and text
//! object is resolved.
//!
//! `Buffer::Delete` takes a span and `Buffer::Insert` takes a position, so
//! "delete a word" is only sayable as "delete these two positions apart".
//! The machine turns `dw` into a span here, and the host applying
//! `MoveCursor` asks the same functions, so `w` and `dw` cannot disagree on
//! where a word ends.
//!
//! Every function is total: a motion that cannot be resolved answers where it
//! started, and an object that cannot be resolved answers `None`. The four
//! agent nouns other than the unseen region are store queries, not syntax, and
//! answer `None` here.
//!
//! Positions are 1-based in both axes. A column may be one past the last
//! character of a line: that is the newline boundary, and it reads as `\n`.

use vstd::prelude::*;

use crate::language::{blank, indent_chars, indent_of, is_blank};
use crate::request::{CaseChange, Motion, Position, SelectionKind, Span, TextObject};
use crate::text_util::{chars_of, is_white_space, push_char, spec_ascii_lower, spec_is_white_space};

verus! {

// ---------------------------------------------------------------------------
// The buffer
// ---------------------------------------------------------------------------

/// What is on screen, in buffer lines.
#[derive(Debug, Clone, Copy, PartialEq, Eq, Structural)]
pub struct Viewport {
    /// 1-based line at the top of the text area.
    pub top: u32,
    /// Rows of text area.
    pub height: u32,
}

/// A buffer the machine can read: every count fits in a `u32` with room for
/// the newline boundary.
pub open spec fn text_wf(rows: Seq<Seq<char>>) -> bool {
    &&& rows.len() < u32::MAX
    &&& forall|i: int| 0 <= i < rows.len() ==> (#[trigger] rows[i]).len() < u32::MAX
}

/// How many lines the buffer counts as having: at least one, since a
/// buffer with no lines is one empty line.
pub open spec fn line_count(rows: Seq<Seq<char>>) -> int {
    if rows.len() >= 1 {
        rows.len() as int
    } else {
        1
    }
}

/// [`Text::lines`], counting a buffer with no lines as one.
pub(crate) fn line_count_of<T: Text>(text: &T) -> (r: u32)
    requires
        text_wf(text.rows()),
    ensures
        r == line_count(text.rows()),
        r >= 1,
{
    let n = text.lines();
    if n >= 1 {
        n
    } else {
        1
    }
}

/// One buffer, read-only, as the input machine sees it.
pub trait Text {
    /// Its lines, without their newlines.
    spec fn rows(&self) -> Seq<Seq<char>>;

    /// Where its cursor is.
    spec fn cursor_at(&self) -> Position;

    /// What it shows.
    spec fn shown(&self) -> Viewport;

    /// The unseen region covering a position, if the store holds one.
    spec fn unseen_region(&self, at: Position) -> Option<Span>;

    /// How many lines the buffer has.
    fn lines(&self) -> (r: u32)
        requires
            text_wf(self.rows()),
        ensures
            r == self.rows().len(),
    ;

    /// One line's text, without its newline; `None` past the end.
    fn line(&self, line: u32) -> (r: Option<String>)
        requires
            text_wf(self.rows()),
        ensures
            match r {
                Some(s) => 1 <= line <= self.rows().len() && s@ == self.rows()[line - 1],
                None => !(1 <= line <= self.rows().len()),
            },
    ;

    /// Where the cursor is.
    fn cursor(&self) -> (r: Position)
        ensures
            r == self.cursor_at(),
    ;

    /// The first line drawn, and how many rows the text area has.
    fn viewport(&self) -> (r: Viewport)
        ensures
            r == self.shown(),
    ;

    /// The unseen region covering a position, if any.
    fn unseen_at(&self, at: Position) -> (r: Option<Span>)
        ensures
            r == self.unseen_region(at),
    ;
}

/// The lines of `s`, split at each newline; an empty text is one empty line.
pub open spec fn spec_split_lines(s: Seq<char>) -> Seq<Seq<char>>
    decreases s.len(),
{
    if s.len() == 0 {
        seq![Seq::<char>::empty()]
    } else {
        let prev = spec_split_lines(s.drop_last());
        if s.last() == '\n' {
            prev.push(Seq::empty())
        } else {
            prev.update(prev.len() - 1, prev.last().push(s.last()))
        }
    }
}

proof fn lemma_split_lines_bounds(s: Seq<char>)
    ensures
        1 <= spec_split_lines(s).len() <= s.len() + 1,
        forall|i: int| 0 <= i < spec_split_lines(s).len() ==> (#[trigger] spec_split_lines(s)[i]).len() <= s.len(),
    decreases s.len(),
{
    if s.len() > 0 {
        lemma_split_lines_bounds(s.drop_last());
    }
}

/// A buffer of lines with a cursor, the whole screen in view and no store
/// behind it.
#[derive(Debug)]
pub struct Lines {
    rows: Vec<String>,
    cursor: Position,
}

impl Lines {
    /// The lines of `text`, split at each newline, with the cursor at `line`
    /// and `column`.
    pub fn new(text: &str, line: u32, column: u32) -> (r: Self)
        requires
            text@.len() < u32::MAX - 1,
        ensures
            r.rows() == spec_split_lines(text@),
            r.cursor_at() == (Position { line, column }),
            text_wf(r.rows()),
    {
        let chars = chars_of(text);
        let mut rows: Vec<String> = Vec::new();
        let mut current = String::new();
        let mut i: usize = 0;
        while i < chars.len()
            invariant
                i <= chars@.len(),
                chars@ == text@,
                rows@.map_values(|r: String| r@).push(current@) == spec_split_lines(text@.take(i as int)),
            decreases chars.len() - i,
        {
            let ghost before = rows@.map_values(|r: String| r@).push(current@);
            let c = chars[i];
            assert(text@.take(i + 1).drop_last() =~= text@.take(i as int));
            assert(text@.take(i + 1).last() == c);
            if c == '\n' {
                let done = current;
                rows.push(done);
                current = String::new();
                assert(rows@.map_values(|r: String| r@).push(current@) =~= before.push(Seq::empty()));
            } else {
                push_char(&mut current, c);
                assert(rows@.map_values(|r: String| r@).push(current@) =~= before.update(
                    before.len() - 1,
                    before.last().push(c),
                ));
            }
            i = i + 1;
        }
        rows.push(current);
        assert(text@.take(i as int) =~= text@);
        let r = Lines { rows, cursor: Position { line, column } };
        assert(r.rows() =~= spec_split_lines(text@));
        proof {
            lemma_split_lines_bounds(text@);
        }
        r
    }
}

impl Text for Lines {
    closed spec fn rows(&self) -> Seq<Seq<char>> {
        self.rows@.map_values(|r: String| r@)
    }

    closed spec fn cursor_at(&self) -> Position {
        self.cursor
    }

    closed spec fn shown(&self) -> Viewport {
        Viewport { top: 1, height: self.rows@.len() as u32 }
    }

    open spec fn unseen_region(&self, at: Position) -> Option<Span> {
        None
    }

    fn lines(&self) -> (r: u32) {
        self.rows.len() as u32
    }

    fn line(&self, line: u32) -> (r: Option<String>) {
        if line >= 1 && (line as usize) <= self.rows.len() {
            Some(self.rows[(line - 1) as usize].clone())
        } else {
            None
        }
    }

    fn cursor(&self) -> (r: Position) {
        self.cursor
    }

    fn viewport(&self) -> (r: Viewport) {
        Viewport { top: 1, height: self.rows.len() as u32 }
    }

    fn unseen_at(&self, at: Position) -> (r: Option<Span>) {
        None
    }
}

// ---------------------------------------------------------------------------
// Characters
// ---------------------------------------------------------------------------

/// Whether `c` is a letter or a digit (`char::is_alphanumeric`).
pub uninterp spec fn char_is_alphanumeric(c: char) -> bool;

/// Whether `c` is a lower-case letter (`char::is_lowercase`).
pub uninterp spec fn char_is_lowercase(c: char) -> bool;

/// Whether `c` is an upper-case letter (`char::is_uppercase`).
pub uninterp spec fn char_is_uppercase(c: char) -> bool;

/// What `char::to_uppercase` yields for `c`.
pub uninterp spec fn upper_case_of(c: char) -> Seq<char>;

/// What `char::to_lowercase` yields for `c`.
pub uninterp spec fn lower_case_of(c: char) -> Seq<char>;

/// Calls `char::is_alphanumeric`: Unicode's Alphabetic or Numeric property.
/// Claimed: the answer depends on `c` alone, and ASCII letters and digits
/// have it. What other characters answer is left unsaid.
#[verifier::external_body]
fn is_alphanumeric(c: char) -> (r: bool)
    ensures
        r == char_is_alphanumeric(c),
        ('a' <= c <= 'z' || 'A' <= c <= 'Z' || '0' <= c <= '9') ==> r,
{
    c.is_alphanumeric()
}

/// Calls `char::is_lowercase`: Unicode's Lowercase property. Claimed: the
/// answer depends on `c` alone, `a` to `z` have it and `A` to `Z` do not.
/// What other characters answer is left unsaid.
#[verifier::external_body]
fn is_lowercase(c: char) -> (r: bool)
    ensures
        r == char_is_lowercase(c),
        'a' <= c <= 'z' ==> r,
        'A' <= c <= 'Z' ==> !r,
{
    c.is_lowercase()
}

/// Calls `char::is_uppercase`: Unicode's Uppercase property. Claimed: the
/// answer depends on `c` alone, `A` to `Z` have it and `a` to `z` do not.
/// What other characters answer is left unsaid.
#[verifier::external_body]
fn is_uppercase(c: char) -> (r: bool)
    ensures
        r == char_is_uppercase(c),
        'A' <= c <= 'Z' ==> r,
        'a' <= c <= 'z' ==> !r,
{
    c.is_uppercase()
}

/// Calls `char::to_uppercase` and collects the characters it yields.
/// Claimed: they depend on `c` alone; `a` to `z` give their capital, and a
/// character with no upper-case mapping, such as `A` to `Z` and the digits,
/// gives itself. What other characters give is left unsaid.
#[verifier::external_body]
pub(crate) fn to_upper(c: char) -> (r: Vec<char>)
    ensures
        r@ == upper_case_of(c),
        'a' <= c <= 'z' ==> r@ == seq![((c as u32) - 32) as char],
        ('A' <= c <= 'Z' || '0' <= c <= '9') ==> r@ == seq![c],
{
    c.to_uppercase().collect()
}

/// Calls `char::to_lowercase` and collects the characters it yields.
/// Claimed: they depend on `c` alone; `A` to `Z` give their small letter,
/// and a character with no lower-case mapping, such as `a` to `z` and the
/// digits, gives itself. What other characters give is left unsaid.
#[verifier::external_body]
fn to_lower(c: char) -> (r: Vec<char>)
    ensures
        r@ == lower_case_of(c),
        'A' <= c <= 'Z' ==> r@ == seq![spec_ascii_lower(c)],
        ('a' <= c <= 'z' || '0' <= c <= '9') ==> r@ == seq![c],
{
    c.to_lowercase().collect()
}

/// What a character counts as, for word motions.
#[derive(Debug, Clone, Copy, PartialEq, Eq, Structural)]
pub enum Class {
    /// Letters, digits and `_`.
    Word,
    /// Anything else that is not blank.
    Punct,
    /// White space, including the newline at the end of a line.
    Blank,
}

/// The class of a character.
pub open spec fn spec_class(c: char) -> Class {
    if char_is_alphanumeric(c) || c == '_' {
        Class::Word
    } else if spec_is_white_space(c) {
        Class::Blank
    } else {
        Class::Punct
    }
}

/// The class of a character, with `W`'s coarser reading when `big`: a big
/// word is anything not blank.
pub open spec fn spec_classify(c: char, big: bool) -> Class {
    if big && spec_class(c) == Class::Punct {
        Class::Word
    } else {
        spec_class(c)
    }
}

fn class(c: char) -> (r: Class)
    ensures
        r == spec_class(c),
{
    if is_alphanumeric(c) || c == '_' {
        Class::Word
    } else if is_white_space(c) {
        Class::Blank
    } else {
        Class::Punct
    }
}

fn classify(c: char, big: bool) -> (r: Class)
    ensures
        r == spec_classify(c, big),
{
    let k = class(c);
    if big && k == Class::Punct {
        Class::Word
    } else {
        k
    }
}

// ---------------------------------------------------------------------------
// Positions
// ---------------------------------------------------------------------------

/// A position from its two coordinates.
pub open spec fn pos(line: int, column: int) -> Position {
    Position { line: line as u32, column: column as u32 }
}

/// Characters on a line, not counting the newline; zero past the end.
pub open spec fn spec_width(rows: Seq<Seq<char>>, line: u32) -> nat {
    if 1 <= line <= rows.len() {
        rows[line - 1].len()
    } else {
        0
    }
}

/// The character at a position; the newline boundary and anything past it
/// on the line read as `\n`.
pub open spec fn spec_at(rows: Seq<Seq<char>>, p: Position) -> Option<char> {
    if 1 <= p.line <= rows.len() && p.column >= 1 {
        let row = rows[p.line - 1];
        Some(if p.column - 1 < row.len() { row[p.column - 1] } else { '\n' })
    } else {
        None
    }
}

/// The class of the character at a position.
pub open spec fn spec_class_at(rows: Seq<Seq<char>>, p: Position, big: bool) -> Option<Class> {
    match spec_at(rows, p) {
        Some(c) => Some(spec_classify(c, big)),
        None => None,
    }
}

/// The next character boundary, crossing lines.
pub open spec fn spec_forward(rows: Seq<Seq<char>>, p: Position) -> Option<Position> {
    if p.column <= spec_width(rows, p.line) {
        Some(pos(p.line as int, p.column + 1))
    } else if p.line < rows.len() {
        Some(pos(p.line + 1, 1))
    } else {
        None
    }
}

/// The previous character boundary, crossing lines.
pub open spec fn spec_backward(rows: Seq<Seq<char>>, p: Position) -> Option<Position> {
    if p.column > 1 {
        Some(pos(p.line as int, p.column - 1))
    } else if p.line > 1 {
        Some(pos(p.line - 1, spec_width(rows, (p.line - 1) as u32) + 1int))
    } else {
        None
    }
}

/// How many lines lie below a position, for walks that go forward.
pub open spec fn lines_below(rows: Seq<Seq<char>>, p: Position) -> nat {
    if p.line <= rows.len() {
        (rows.len() - p.line) as nat
    } else {
        0
    }
}

/// How many boundaries lie right of a position on its line.
pub open spec fn columns_right(rows: Seq<Seq<char>>, p: Position) -> nat {
    if p.column <= spec_width(rows, p.line) + 1 {
        (spec_width(rows, p.line) + 1 - p.column) as nat
    } else {
        0
    }
}

pub(crate) fn width<T: Text>(text: &T, line: u32) -> (r: u32)
    requires
        text_wf(text.rows()),
    ensures
        r == spec_width(text.rows(), line),
{
    match text.line(line) {
        Some(row) => row.as_str().unicode_len() as u32,
        None => 0,
    }
}

fn at<T: Text>(text: &T, p: Position) -> (r: Option<char>)
    requires
        text_wf(text.rows()),
    ensures
        r == spec_at(text.rows(), p),
{
    match text.line(p.line) {
        None => None,
        Some(row) => {
            if p.column == 0 {
                None
            } else {
                let i = (p.column - 1) as usize;
                if i < row.as_str().unicode_len() {
                    Some(row.as_str().get_char(i))
                } else {
                    Some('\n')
                }
            }
        },
    }
}

fn class_at<T: Text>(text: &T, p: Position, big: bool) -> (r: Option<Class>)
    requires
        text_wf(text.rows()),
    ensures
        r == spec_class_at(text.rows(), p, big),
{
    match at(text, p) {
        Some(c) => Some(classify(c, big)),
        None => None,
    }
}

fn forward<T: Text>(text: &T, p: Position) -> (r: Option<Position>)
    requires
        text_wf(text.rows()),
    ensures
        r == spec_forward(text.rows(), p),
{
    if p.column <= width(text, p.line) {
        Some(Position { line: p.line, column: p.column + 1 })
    } else if p.line < text.lines() {
        Some(Position { line: p.line + 1, column: 1 })
    } else {
        None
    }
}

fn backward<T: Text>(text: &T, p: Position) -> (r: Option<Position>)
    requires
        text_wf(text.rows()),
    ensures
        r == spec_backward(text.rows(), p),
{
    if p.column > 1 {
        Some(Position { line: p.line, column: p.column - 1 })
    } else if p.line > 1 {
        Some(Position { line: p.line - 1, column: width(text, p.line - 1) + 1 })
    } else {
        None
    }
}

/// `v` held between `lo` and `hi`.
pub open spec fn clamp_int(v: int, lo: int, hi: int) -> int {
    if v < lo {
        lo
    } else if v > hi {
        hi
    } else {
        v
    }
}

/// A position inside the buffer, with the column on a character.
pub open spec fn spec_clamp(rows: Seq<Seq<char>>, p: Position) -> Position {
    let line = clamp_int(p.line as int, 1, line_count(rows));
    let w = spec_width(rows, line as u32);
    let last = if w >= 1 { w as int } else { 1 };
    pos(line, clamp_int(p.column as int, 1, last))
}

/// Puts a position inside the buffer, with the column on a character.
///
/// The newline boundary is legal for insertion and not for a normal-mode
/// cursor, so this clamps to the last character.
pub fn clamp<T: Text>(text: &T, position: Position) -> (r: Position)
    requires
        text_wf(text.rows()),
    ensures
        r == spec_clamp(text.rows(), position),
{
    let lines = line_count_of(text);
    let line = if position.line < 1 {
        1
    } else if position.line > lines {
        lines
    } else {
        position.line
    };
    let w = width(text, line);
    let last = if w >= 1 { w } else { 1 };
    let column = if position.column < 1 {
        1
    } else if position.column > last {
        last
    } else {
        position.column
    };
    Position { line, column }
}

/// The newline boundary of a line.
pub open spec fn spec_end_of_line(rows: Seq<Seq<char>>, line: u32) -> Position {
    pos(clamp_int(line as int, 1, line_count(rows)), spec_width(rows, line) + 1int)
}

/// The newline boundary of a line: where `A` and `o` insert.
pub fn end_of_line<T: Text>(text: &T, line: u32) -> (r: Position)
    requires
        text_wf(text.rows()),
    ensures
        r == spec_end_of_line(text.rows(), line),
{
    let lines = line_count_of(text);
    let clamped = if line < 1 {
        1
    } else if line > lines {
        lines
    } else {
        line
    };
    Position { line: clamped, column: width(text, line) + 1 }
}

/// The text of a line, or nothing past the end.
pub open spec fn row_of(rows: Seq<Seq<char>>, line: u32) -> Seq<char> {
    if 1 <= line <= rows.len() {
        rows[line - 1]
    } else {
        Seq::empty()
    }
}

/// The first non-blank column of a line, or the first column when it has
/// none.
pub open spec fn spec_first_non_blank(rows: Seq<Seq<char>>, line: u32) -> Position {
    let row = row_of(rows, line);
    pos(line as int, if indent_of(row) < row.len() { indent_of(row) + 1int } else { 1int })
}

pub(crate) fn row_chars<T: Text>(text: &T, line: u32) -> (r: Vec<char>)
    requires
        text_wf(text.rows()),
    ensures
        r@ == row_of(text.rows(), line),
{
    match text.line(line) {
        Some(row) => chars_of(row.as_str()),
        None => Vec::new(),
    }
}

/// The first non-blank column of a line, 1-based.
pub fn first_non_blank<T: Text>(text: &T, line: u32) -> (r: Position)
    requires
        text_wf(text.rows()),
    ensures
        r == spec_first_non_blank(text.rows(), line),
{
    let row = row_chars(text, line);
    let k = indent_chars(&row);
    let column = if k < row.len() { k as u32 + 1 } else { 1 };
    Position { line, column }
}

/// A line with nothing but white space on it, or past the end.
pub open spec fn spec_is_blank_line(rows: Seq<Seq<char>>, line: u32) -> bool {
    blank(row_of(rows, line))
}

fn is_blank_line<T: Text>(text: &T, line: u32) -> (r: bool)
    requires
        text_wf(text.rows()),
    ensures
        r == spec_is_blank_line(text.rows(), line),
{
    let row = row_chars(text, line);
    is_blank(&row)
}

// ---------------------------------------------------------------------------
// Walks
// ---------------------------------------------------------------------------

/// A measure that every forward step lowers.
pub open spec fn fwd_rank(rows: Seq<Seq<char>>, p: Position) -> nat {
    lines_below(rows, p) * 0x2_0000_0000 + columns_right(rows, p)
}

/// A measure that every backward step lowers.
pub open spec fn bwd_rank(p: Position) -> nat {
    p.line as nat * 0x2_0000_0000 + p.column as nat
}

/// A step forward lowers the forward measure.
pub proof fn lemma_forward_rank(rows: Seq<Seq<char>>, p: Position)
    requires
        text_wf(rows),
    ensures
        spec_forward(rows, p) matches Some(n) ==> fwd_rank(rows, n) < fwd_rank(rows, p),
{
    if p.column <= spec_width(rows, p.line) {
        assert(1 <= p.line <= rows.len() ==> rows[p.line - 1].len() < u32::MAX);
    } else if p.line < rows.len() {
        let n = pos(p.line + 1, 1);
        assert(rows[n.line - 1].len() < u32::MAX);
        assert(columns_right(rows, n) <= 0x1_0000_0000);
    }
}

/// A step backward lowers the backward measure.
pub proof fn lemma_backward_rank(rows: Seq<Seq<char>>, p: Position)
    ensures
        spec_backward(rows, p) matches Some(q) ==> bwd_rank(q) < bwd_rank(p),
{
}

/// From inside a run of class `k`, the first position past it, or where the
/// buffer ends.
pub open spec fn spec_skip_run(rows: Seq<Seq<char>>, p: Position, k: Class, big: bool) -> Position
    decreases fwd_rank(rows, p),
    when text_wf(rows)
{
    match spec_forward(rows, p) {
        Some(n) => {
            proof {
                lemma_forward_rank(rows, p);
            }
            if spec_class_at(rows, n, big) == Some(k) {
                spec_skip_run(rows, n, k, big)
            } else {
                n
            }
        },
        None => p,
    }
}

/// Forward past blanks, stopping where the buffer ends.
pub open spec fn spec_skip_blank(rows: Seq<Seq<char>>, p: Position, big: bool) -> Position
    decreases fwd_rank(rows, p),
    when text_wf(rows)
{
    if spec_class_at(rows, p, big) == Some(Class::Blank) {
        match spec_forward(rows, p) {
            Some(n) => {
                proof {
                    lemma_forward_rank(rows, p);
                }
                spec_skip_blank(rows, n, big)
            },
            None => p,
        }
    } else {
        p
    }
}

/// Forward while the next position is of class `run`: the last position of
/// the run.
pub open spec fn spec_fwd_run(rows: Seq<Seq<char>>, p: Position, run: Option<Class>, big: bool) -> Position
    decreases fwd_rank(rows, p),
    when text_wf(rows)
{
    match spec_forward(rows, p) {
        Some(n) => {
            proof {
                lemma_forward_rank(rows, p);
            }
            if spec_class_at(rows, n, big) == run {
                spec_fwd_run(rows, n, run, big)
            } else {
                p
            }
        },
        None => p,
    }
}

/// Backward past blanks, stopping where the buffer starts.
pub open spec fn spec_back_blank(rows: Seq<Seq<char>>, p: Position, big: bool) -> Position
    decreases bwd_rank(p),
{
    if spec_class_at(rows, p, big) == Some(Class::Blank) {
        match spec_backward(rows, p) {
            Some(q) => {
                proof {
                    lemma_backward_rank(rows, p);
                }
                spec_back_blank(rows, q, big)
            },
            None => p,
        }
    } else {
        p
    }
}

/// Backward while the previous position is of class `run`: the first
/// position of the run.
pub open spec fn spec_back_run(rows: Seq<Seq<char>>, p: Position, run: Option<Class>, big: bool) -> Position
    decreases bwd_rank(p),
{
    match spec_backward(rows, p) {
        Some(q) => {
            proof {
                lemma_backward_rank(rows, p);
            }
            if spec_class_at(rows, q, big) == run {
                spec_back_run(rows, q, run, big)
            } else {
                p
            }
        },
        None => p,
    }
}

/// `w` (`W` when `big`): past the run under the cursor, then past blanks.
pub open spec fn spec_word_forward(rows: Seq<Seq<char>>, from: Position, big: bool) -> Position {
    let p = match spec_at(rows, from) {
        Some(c) => if spec_classify(c, big) != Class::Blank {
            spec_skip_run(rows, from, spec_classify(c, big), big)
        } else {
            from
        },
        None => from,
    };
    spec_skip_blank(rows, p, big)
}

/// `b` (`B` when `big`): back one, back past blanks, then to the start of
/// that run.
pub open spec fn spec_word_backward(rows: Seq<Seq<char>>, from: Position, big: bool) -> Position {
    match spec_backward(rows, from) {
        None => from,
        Some(p) => {
            let q = spec_back_blank(rows, p, big);
            spec_back_run(rows, q, spec_class_at(rows, q, big), big)
        },
    }
}

/// `e` (`E` when `big`): forward one, forward past blanks, then to the end
/// of that run.
pub open spec fn spec_word_end(rows: Seq<Seq<char>>, from: Position, big: bool) -> Position {
    match spec_forward(rows, from) {
        None => from,
        Some(p) => {
            let q = spec_skip_blank(rows, p, big);
            spec_fwd_run(rows, q, spec_class_at(rows, q, big), big)
        },
    }
}

fn skip_run<T: Text>(text: &T, from: Position, k: Class, big: bool) -> (r: Position)
    requires
        text_wf(text.rows()),
    ensures
        r == spec_skip_run(text.rows(), from, k, big),
{
    let ghost rows = text.rows();
    let mut position = from;
    loop
        invariant
            rows == text.rows(),
            text_wf(rows),
            spec_skip_run(rows, position, k, big) == spec_skip_run(rows, from, k, big),
        decreases fwd_rank(rows, position),
    {
        proof {
            lemma_forward_rank(rows, position);
        }
        match forward(text, position) {
            Some(next) => {
                if class_at(text, next, big) == Some(k) {
                    position = next;
                } else {
                    return next;
                }
            },
            None => {
                return position;
            },
        }
    }
}

fn skip_blank<T: Text>(text: &T, from: Position, big: bool) -> (r: Position)
    requires
        text_wf(text.rows()),
    ensures
        r == spec_skip_blank(text.rows(), from, big),
{
    let ghost rows = text.rows();
    let mut position = from;
    loop
        invariant
            rows == text.rows(),
            text_wf(rows),
            spec_skip_blank(rows, position, big) == spec_skip_blank(rows, from, big),
        decreases fwd_rank(rows, position),
    {
        proof {
            lemma_forward_rank(rows, position);
        }
        if class_at(text, position, big) != Some(Class::Blank) {
            return position;
        }
        match forward(text, position) {
            Some(next) => {
                position = next;
            },
            None => {
                return position;
            },
        }
    }
}

fn fwd_run<T: Text>(text: &T, from: Position, run: Option<Class>, big: bool) -> (r: Position)
    requires
        text_wf(text.rows()),
    ensures
        r == spec_fwd_run(text.rows(), from, run, big),
{
    let ghost rows = text.rows();
    let mut position = from;
    loop
        invariant
            rows == text.rows(),
            text_wf(rows),
            spec_fwd_run(rows, position, run, big) == spec_fwd_run(rows, from, run, big),
        decreases fwd_rank(rows, position),
    {
        proof {
            lemma_forward_rank(rows, position);
        }
        match forward(text, position) {
            Some(next) => {
                if class_at(text, next, big) == run {
                    position = next;
                } else {
                    return position;
                }
            },
            None => {
                return position;
            },
        }
    }
}

fn back_blank<T: Text>(text: &T, from: Position, big: bool) -> (r: Position)
    requires
        text_wf(text.rows()),
    ensures
        r == spec_back_blank(text.rows(), from, big),
{
    let ghost rows = text.rows();
    let mut position = from;
    loop
        invariant
            rows == text.rows(),
            text_wf(rows),
            spec_back_blank(rows, position, big) == spec_back_blank(rows, from, big),
        decreases bwd_rank(position),
    {
        if class_at(text, position, big) != Some(Class::Blank) {
            return position;
        }
        match backward(text, position) {
            Some(previous) => {
                position = previous;
            },
            None => {
                return position;
            },
        }
    }
}

fn back_run<T: Text>(text: &T, from: Position, run: Option<Class>, big: bool) -> (r: Position)
    requires
        text_wf(text.rows()),
    ensures
        r == spec_back_run(text.rows(), from, run, big),
{
    let ghost rows = text.rows();
    let mut position = from;
    loop
        invariant
            rows == text.rows(),
            text_wf(rows),
            spec_back_run(rows, position, run, big) == spec_back_run(rows, from, run, big),
        decreases bwd_rank(position),
    {
        match backward(text, position) {
            Some(previous) => {
                if class_at(text, previous, big) == run {
                    position = previous;
                } else {
                    return position;
                }
            },
            None => {
                return position;
            },
        }
    }
}

fn word_forward<T: Text>(text: &T, from: Position, big: bool) -> (r: Position)
    requires
        text_wf(text.rows()),
    ensures
        r == spec_word_forward(text.rows(), from, big),
{
    let mut position = from;
    match at(text, from) {
        Some(c) => {
            let start = classify(c, big);
            if start != Class::Blank {
                position = skip_run(text, from, start, big);
            }
        },
        None => {},
    }
    skip_blank(text, position, big)
}

fn word_backward<T: Text>(text: &T, from: Position, big: bool) -> (r: Position)
    requires
        text_wf(text.rows()),
    ensures
        r == spec_word_backward(text.rows(), from, big),
{
    match backward(text, from) {
        None => from,
        Some(p) => {
            let q = back_blank(text, p, big);
            let run = class_at(text, q, big);
            back_run(text, q, run, big)
        },
    }
}

fn word_end<T: Text>(text: &T, from: Position, big: bool) -> (r: Position)
    requires
        text_wf(text.rows()),
    ensures
        r == spec_word_end(text.rows(), from, big),
{
    match forward(text, from) {
        None => from,
        Some(p) => {
            let q = skip_blank(text, p, big);
            let run = class_at(text, q, big);
            fwd_run(text, q, run, big)
        },
    }
}

// ---------------------------------------------------------------------------
// Paragraphs and brackets
// ---------------------------------------------------------------------------

/// `}`: forward to the first blank line after some text, or the last line.
pub open spec fn spec_para_fwd(rows: Seq<Seq<char>>, line: int, seen: bool) -> Position
    decreases line_count(rows) - line,
{
    if line >= line_count(rows) {
        pos(line_count(rows), 1)
    } else {
        let next = line + 1;
        if spec_is_blank_line(rows, next as u32) {
            if seen {
                pos(next, 1)
            } else {
                spec_para_fwd(rows, next, seen)
            }
        } else {
            spec_para_fwd(rows, next, true)
        }
    }
}

/// `{`: backward to the first blank line before some text, or the first line.
pub open spec fn spec_para_bwd(rows: Seq<Seq<char>>, line: int, seen: bool) -> Position
    decreases line,
{
    if line <= 1 {
        pos(1, 1)
    } else {
        let next = line - 1;
        if spec_is_blank_line(rows, next as u32) {
            if seen {
                pos(next, 1)
            } else {
                spec_para_bwd(rows, next, seen)
            }
        } else {
            spec_para_bwd(rows, next, true)
        }
    }
}

fn paragraph<T: Text>(text: &T, from: Position, forwards: bool) -> (r: Position)
    requires
        text_wf(text.rows()),
    ensures
        r == if forwards {
            spec_para_fwd(text.rows(), from.line as int, false)
        } else {
            spec_para_bwd(text.rows(), from.line as int, false)
        },
{
    let ghost rows = text.rows();
    let lines = line_count_of(text);
    let mut line = from.line;
    let mut seen = false;
    loop
        invariant
            rows == text.rows(),
            text_wf(rows),
            lines == line_count(rows),
            forwards ==> spec_para_fwd(rows, line as int, seen) == spec_para_fwd(rows, from.line as int, false),
            !forwards ==> spec_para_bwd(rows, line as int, seen) == spec_para_bwd(rows, from.line as int, false),
        decreases if forwards { line_count(rows) - line } else { line as int },
    {
        let next = if forwards {
            if line >= lines {
                return Position { line: lines, column: 1 };
            }
            line + 1
        } else {
            if line <= 1 {
                return Position { line: 1, column: 1 };
            }
            line - 1
        };
        line = next;
        if is_blank_line(text, line) {
            if seen {
                return Position { line, column: 1 };
            }
        } else {
            seen = true;
        }
    }
}

/// The bracket family of a character: its opener, its closer, and whether it
/// opens.
pub open spec fn spec_bracket(c: char) -> Option<(char, char, bool)> {
    if c == '(' {
        Some(('(', ')', true))
    } else if c == ')' {
        Some(('(', ')', false))
    } else if c == '[' {
        Some(('[', ']', true))
    } else if c == ']' {
        Some(('[', ']', false))
    } else if c == '{' {
        Some(('{', '}', true))
    } else if c == '}' {
        Some(('{', '}', false))
    } else if c == '<' {
        Some(('<', '>', true))
    } else if c == '>' {
        Some(('<', '>', false))
    } else {
        None
    }
}

fn bracket(c: char) -> (r: Option<(char, char, bool)>)
    ensures
        r == spec_bracket(c),
{
    match c {
        '(' => Some(('(', ')', true)),
        ')' => Some(('(', ')', false)),
        '[' => Some(('[', ']', true)),
        ']' => Some(('[', ']', false)),
        '{' => Some(('{', '}', true)),
        '}' => Some(('{', '}', false)),
        '<' => Some(('<', '>', true)),
        '>' => Some(('<', '>', false)),
        _ => None,
    }
}

/// The bracket `%` starts from: the first at or after the cursor on its line.
pub open spec fn spec_find_bracket(rows: Seq<Seq<char>>, p: Position) -> Option<Position>
    decreases columns_right(rows, p),
    when text_wf(rows)
{
    let found = match spec_at(rows, p) {
        Some(c) => spec_bracket(c) is Some,
        None => false,
    };
    if found {
        Some(p)
    } else if p.column > spec_width(rows, p.line) {
        None
    } else {
        proof {
            assert(1 <= p.line <= rows.len() ==> rows[p.line - 1].len() < u32::MAX);
        }
        spec_find_bracket(rows, pos(p.line as int, p.column + 1))
    }
}

/// One step of a bracket search, in its direction.
pub open spec fn spec_walk_step(rows: Seq<Seq<char>>, p: Position, fwd: bool) -> Option<Position> {
    if fwd {
        spec_forward(rows, p)
    } else {
        spec_backward(rows, p)
    }
}

/// The measure a bracket search in direction `fwd` lowers.
pub open spec fn walk_rank(rows: Seq<Seq<char>>, p: Position, fwd: bool) -> nat {
    if fwd {
        fwd_rank(rows, p)
    } else {
        bwd_rank(p)
    }
}

/// From `p` at `depth`, where the `want` that closes the first `mine` is.
pub open spec fn spec_bracket_walk(
    rows: Seq<Seq<char>>,
    p: Position,
    mine: char,
    want: char,
    depth: nat,
    fwd: bool,
) -> Option<Position>
    decreases walk_rank(rows, p, fwd),
    when text_wf(rows)
{
    match spec_at(rows, p) {
        None => None,
        Some(c) => {
            if c == want && c != mine && depth <= 1 {
                Some(p)
            } else {
                let d: nat = if c == mine {
                    depth + 1
                } else if c == want {
                    (depth - 1) as nat
                } else {
                    depth
                };
                match spec_walk_step(rows, p, fwd) {
                    Some(q) => {
                        proof {
                            lemma_forward_rank(rows, p);
                            lemma_backward_rank(rows, p);
                        }
                        spec_bracket_walk(rows, q, mine, want, d, fwd)
                    },
                    None => None,
                }
            }
        },
    }
}

/// `%`: the bracket matching the first one at or after the cursor on its line.
pub open spec fn spec_matching_bracket(rows: Seq<Seq<char>>, from: Position) -> Option<Position> {
    match spec_find_bracket(rows, from) {
        None => None,
        Some(start) => {
            let (open, close, opening) = spec_bracket(spec_at(rows, start).unwrap()).unwrap();
            let (mine, want) = if opening { (open, close) } else { (close, open) };
            spec_bracket_walk(rows, start, mine, want, 0, opening)
        },
    }
}

fn find_bracket<T: Text>(text: &T, from: Position) -> (r: Option<Position>)
    requires
        text_wf(text.rows()),
    ensures
        r == spec_find_bracket(text.rows(), from),
        r matches Some(p) ==> spec_at(text.rows(), p) matches Some(c) && spec_bracket(c) is Some,
{
    let ghost rows = text.rows();
    let mut start = from;
    loop
        invariant
            rows == text.rows(),
            text_wf(rows),
            spec_find_bracket(rows, start) == spec_find_bracket(rows, from),
        decreases columns_right(rows, start),
    {
        match at(text, start) {
            Some(c) => {
                if bracket(c).is_some() {
                    return Some(start);
                }
            },
            None => {},
        }
        if start.column > width(text, start.line) {
            return None;
        }
        proof {
            assert(1 <= start.line <= rows.len() ==> rows[start.line - 1].len() < u32::MAX);
        }
        start = Position { line: start.line, column: start.column + 1 };
    }
}

fn matching_bracket<T: Text>(text: &T, from: Position) -> (r: Option<Position>)
    requires
        text_wf(text.rows()),
    ensures
        r == spec_matching_bracket(text.rows(), from),
{
    let start = match find_bracket(text, from) {
        None => {
            return None;
        },
        Some(p) => p,
    };
    let c = match at(text, start) {
        Some(c) => c,
        None => {
            return None;
        },
    };
    let (open, close, opening) = match bracket(c) {
        Some(b) => b,
        None => {
            return None;
        },
    };
    let (mine, want) = if opening { (open, close) } else { (close, open) };
    bracket_walk(text, start, mine, want, opening)
}

/// From `start`, which holds `mine`, where the `want` that closes it is,
/// counting nested pairs on the way.
fn bracket_walk<T: Text>(text: &T, start: Position, mine: char, want: char, fwd: bool) -> (r: Option<Position>)
    requires
        text_wf(text.rows()),
        spec_at(text.rows(), start) == Some(mine),
        mine != want,
    ensures
        r == spec_bracket_walk(text.rows(), start, mine, want, 0, fwd),
{
    let ghost rows = text.rows();
    let mut depth: u128 = 0;
    let mut position = start;
    loop
        invariant
            rows == text.rows(),
            text_wf(rows),
            spec_at(rows, start) == Some(mine),
            mine != want,
            spec_bracket_walk(rows, position, mine, want, depth as nat, fwd)
                == spec_bracket_walk(rows, start, mine, want, 0, fwd),
            (position == start && depth == 0) || depth >= 1,
            depth + walk_rank(rows, position, fwd) <= walk_rank(rows, start, fwd),
            walk_rank(rows, start, fwd) <= 0x10_0000_0000_0000_0000_0000,
        decreases walk_rank(rows, position, fwd),
    {
        let character = match at(text, position) {
            Some(ch) => ch,
            None => {
                return None;
            },
        };
        if character == mine {
            depth = depth + 1;
        } else if character == want {
            depth = depth - 1;
            if depth == 0 {
                return Some(position);
            }
        }
        proof {
            lemma_forward_rank(rows, position);
            lemma_backward_rank(rows, position);
        }
        let step = if fwd { forward(text, position) } else { backward(text, position) };
        match step {
            Some(next) => {
                position = next;
            },
            None => {
                return None;
            },
        }
    }
}

// ---------------------------------------------------------------------------
// Finds
// ---------------------------------------------------------------------------

/// Whether this motion is one of the four that need a character.
pub open spec fn spec_is_find(motion: Motion) -> bool {
    motion is FindCharForward || motion is FindCharBackward || motion is TillCharForward
        || motion is TillCharBackward
}

/// Whether this motion is one of the four that need a character.
///
/// `;` and `,` are not among them: the machine resolves them to the find they
/// repeat before asking.
pub fn is_find(motion: Motion) -> (r: bool)
    ensures
        r == spec_is_find(motion),
{
    match motion {
        Motion::FindCharForward | Motion::FindCharBackward | Motion::TillCharForward
        | Motion::TillCharBackward => true,
        _ => false,
    }
}

/// The first index from `i` on holding `target`.
pub open spec fn spec_next_fwd(row: Seq<char>, i: int, target: char) -> Option<int>
    decreases row.len() - i,
{
    if i >= row.len() {
        None
    } else if row[i] == target {
        Some(i)
    } else {
        spec_next_fwd(row, i + 1, target)
    }
}

/// The last index below `i` holding `target`.
pub open spec fn spec_next_bwd(row: Seq<char>, i: int, target: char) -> Option<int>
    decreases i,
{
    if i <= 0 {
        None
    } else if row[i - 1] == target {
        Some(i - 1)
    } else {
        spec_next_bwd(row, i - 1, target)
    }
}

/// The index of the `n`-th `target` after (or before) index `at`.
pub open spec fn spec_find_repeat(row: Seq<char>, at: int, target: char, n: nat, fwd: bool) -> Option<int>
    decreases n,
{
    if n == 0 {
        Some(at)
    } else {
        let next = if fwd { spec_next_fwd(row, at + 1, target) } else { spec_next_bwd(row, at, target) };
        match next {
            None => None,
            Some(j) => spec_find_repeat(row, j, target, (n - 1) as nat, fwd),
        }
    }
}

/// A count as the motions read it: zero means one.
pub open spec fn at_least_one(count: u32) -> nat {
    if count >= 1 {
        count as nat
    } else {
        1
    }
}

/// `f`, `F`, `t`, `T` on the cursor's own line: the `count`-th `target`, and
/// `t` stops one short of it. A count that cannot be met stays put.
pub open spec fn spec_find_char(
    rows: Seq<Seq<char>>,
    from: Position,
    motion: Motion,
    target: char,
    count: u32,
) -> Position {
    if !(1 <= from.line <= rows.len()) {
        from
    } else {
        let row = rows[from.line - 1];
        let fwd = motion is FindCharForward || motion is TillCharForward;
        let start = if from.column >= 1 { from.column - 1 } else { 0 };
        match spec_find_repeat(row, start, target, at_least_one(count), fwd) {
            None => from,
            Some(at) => {
                let column = if motion is TillCharForward {
                    at
                } else if motion is TillCharBackward {
                    at + 2
                } else {
                    at + 1
                };
                pos(from.line as int, if column >= 1 { column } else { 1 })
            },
        }
    }
}

/// A backward find reads the line below the cursor's column, so the column
/// may be at most the newline boundary.
pub open spec fn find_in_reach(rows: Seq<Seq<char>>, from: Position, motion: Motion) -> bool {
    (motion is FindCharBackward || motion is TillCharBackward) && 1 <= from.line <= rows.len()
        ==> from.column <= spec_width(rows, from.line) + 1
}

fn next_fwd(row: &Vec<char>, i: usize, target: char) -> (r: Option<usize>)
    ensures
        r == (match spec_next_fwd(row@, i as int, target) {
            Some(j) => Some(j as usize),
            None => None,
        }),
        r matches Some(j) ==> i <= j < row@.len(),
{
    let mut k = i;
    while k < row.len()
        invariant
            i <= k,
            spec_next_fwd(row@, k as int, target) == spec_next_fwd(row@, i as int, target),
            forall|j: int| i <= j < k ==> row@[j] != target,
        decreases row.len() - k,
    {
        if row[k] == target {
            return Some(k);
        }
        k = k + 1;
    }
    None
}

proof fn lemma_next_fwd_bounds(row: Seq<char>, i: int, target: char)
    ensures
        spec_next_fwd(row, i, target) matches Some(j) ==> i <= j < row.len(),
    decreases row.len() - i,
{
    if i < row.len() && row[i] != target {
        lemma_next_fwd_bounds(row, i + 1, target);
    }
}

proof fn lemma_next_bwd_bounds(row: Seq<char>, i: int, target: char)
    ensures
        spec_next_bwd(row, i, target) matches Some(j) ==> 0 <= j < i,
    decreases i,
{
    if i > 0 && row[i - 1] != target {
        lemma_next_bwd_bounds(row, i - 1, target);
    }
}

fn next_bwd(row: &Vec<char>, i: usize, target: char) -> (r: Option<usize>)
    requires
        i <= row@.len(),
    ensures
        r == (match spec_next_bwd(row@, i as int, target) {
            Some(j) => Some(j as usize),
            None => None,
        }),
{
    let mut k = i;
    while k > 0
        invariant
            k <= i <= row@.len(),
            spec_next_bwd(row@, k as int, target) == spec_next_bwd(row@, i as int, target),
        decreases k,
    {
        if row[k - 1] == target {
            return Some(k - 1);
        }
        k = k - 1;
    }
    None
}

fn find_char<T: Text>(text: &T, from: Position, motion: Motion, target: char, count: u32) -> (r: Position)
    requires
        text_wf(text.rows()),
        spec_is_find(motion),
        find_in_reach(text.rows(), from, motion),
    ensures
        r == spec_find_char(text.rows(), from, motion, target, count),
{
    let ghost rows = text.rows();
    let row: Vec<char> = match text.line(from.line) {
        Some(row) => chars_of(row.as_str()),
        None => {
            return from;
        },
    };
    let forwards = match motion {
        Motion::FindCharForward | Motion::TillCharForward => true,
        _ => false,
    };
    let n: u32 = if count >= 1 { count } else { 1 };
    let start: usize = if from.column >= 1 { (from.column - 1) as usize } else { 0 };
    let mut at: usize = start;
    let mut i: u32 = 0;
    while i < n
        invariant
            rows == text.rows(),
            start as int == (if from.column >= 1 { from.column - 1 } else { 0 }),
            row@ == rows[from.line - 1],
            text_wf(rows),
            1 <= from.line <= rows.len(),
            i <= n,
            n == at_least_one(count),
            forwards == (motion is FindCharForward || motion is TillCharForward),
            !forwards ==> at <= row@.len(),
            i > 0 ==> at < row@.len(),
            row@.len() < u32::MAX,
            spec_find_repeat(row@, start as int, target, n as nat, forwards)
                == spec_find_repeat(row@, at as int, target, (n - i) as nat, forwards),
        decreases n - i,
    {
        let found = if forwards {
            if at < usize::MAX {
                next_fwd(&row, at + 1, target)
            } else {
                None
            }
        } else {
            next_bwd(&row, at, target)
        };
        proof {
            lemma_next_fwd_bounds(row@, at + 1, target);
            lemma_next_bwd_bounds(row@, at as int, target);
            if forwards && at == usize::MAX {
                assert(spec_next_fwd(row@, at + 1, target) is None);
            }
        }
        match found {
            Some(index) => {
                at = index;
            },
            None => {
                assert(spec_find_repeat(row@, at as int, target, (n - i) as nat, forwards) is None);
                return from;
            },
        }
        i = i + 1;
    }
    let column: usize = match motion {
        Motion::TillCharForward => at,
        Motion::TillCharBackward => at + 2,
        _ => at + 1,
    };
    let column = column as u32;
    Position { line: from.line, column: if column >= 1 { column } else { 1 } }
}

// ---------------------------------------------------------------------------
// One step of a motion
// ---------------------------------------------------------------------------

/// `v` held between `lo` and `hi`, on `u32`s widened so nothing overflows.
fn clamp_u64(v: u64, lo: u64, hi: u64) -> (r: u64)
    requires
        lo <= hi,
    ensures
        r == clamp_int(v as int, lo as int, hi as int),
{
    if v < lo {
        lo
    } else if v > hi {
        hi
    } else {
        v
    }
}

/// One application of a motion.
pub open spec fn spec_step(rows: Seq<Seq<char>>, view: Viewport, from: Position, motion: Motion) -> Position {
    let lines = line_count(rows);
    let half = if view.height / 2 >= 1 { (view.height / 2) as int } else { 1 };
    match motion {
        Motion::CharLeft => pos(from.line as int, if from.column >= 2 { from.column - 1 } else { 1 }),
        Motion::CharRight => {
            let line = clamp_int(from.line as int, 1, lines);
            let w = spec_width(rows, line as u32);
            let last = if w >= 1 { w as int } else { 1 };
            pos(line, clamp_int(from.column + 1, 1, last))
        },
        Motion::LineUp => pos(if from.line >= 2 { from.line - 1 } else { 1 }, from.column as int),
        Motion::LineDown => pos(if from.line + 1 <= lines { from.line + 1 } else { lines }, from.column as int),
        Motion::WordForward => spec_word_forward(rows, from, false),
        Motion::WordBackward => spec_word_backward(rows, from, false),
        Motion::WordEnd => spec_word_end(rows, from, false),
        Motion::BigWordForward => spec_word_forward(rows, from, true),
        Motion::BigWordBackward => spec_word_backward(rows, from, true),
        Motion::BigWordEnd => spec_word_end(rows, from, true),
        Motion::LineStart => pos(from.line as int, 1),
        Motion::FirstNonBlank => spec_first_non_blank(rows, from.line),
        Motion::LineEnd => {
            let w = spec_width(rows, from.line);
            pos(from.line as int, if w >= 1 { w as int } else { 1 })
        },
        Motion::BufferStart => spec_first_non_blank(rows, 1),
        Motion::BufferEnd => spec_first_non_blank(rows, lines as u32),
        Motion::ParagraphForward => spec_para_fwd(rows, from.line as int, false),
        Motion::ParagraphBackward => spec_para_bwd(rows, from.line as int, false),
        Motion::MatchingBracket => match spec_matching_bracket(rows, from) {
            Some(p) => p,
            None => from,
        },
        Motion::ScreenTop => spec_first_non_blank(rows, clamp_int(view.top as int, 1, lines) as u32),
        Motion::ScreenMiddle => spec_first_non_blank(
            rows,
            clamp_int(view.top + view.height / 2, 1, lines) as u32,
        ),
        Motion::ScreenBottom => spec_first_non_blank(
            rows,
            clamp_int(view.top + if view.height >= 1 { view.height - 1 } else { 0 }, 1, lines) as u32,
        ),
        Motion::HalfPageDown => pos(if from.line + half <= lines { from.line + half } else { lines }, from.column as int),
        Motion::HalfPageUp => pos(if from.line - half >= 1 { from.line - half } else { 1 }, from.column as int),
        _ => from,
    }
}

fn step<T: Text>(text: &T, from: Position, motion: Motion) -> (r: Position)
    requires
        text_wf(text.rows()),
    ensures
        r == spec_step(text.rows(), text.shown(), from, motion),
{
    let lines = line_count_of(text);
    let view = text.viewport();
    let half: u32 = if view.height / 2 >= 1 { view.height / 2 } else { 1 };
    match motion {
        Motion::CharLeft => Position { line: from.line, column: if from.column >= 2 { from.column - 1 } else { 1 } },
        Motion::CharRight => {
            let line = if from.line < 1 {
                1
            } else if from.line > lines {
                lines
            } else {
                from.line
            };
            let w = width(text, line);
            let last = if w >= 1 { w } else { 1 };
            let column = clamp_u64(from.column as u64 + 1, 1, last as u64) as u32;
            Position { line, column }
        },
        Motion::LineUp => Position { line: if from.line >= 2 { from.line - 1 } else { 1 }, column: from.column },
        Motion::LineDown => Position {
            line: if from.line < lines { from.line + 1 } else { lines },
            column: from.column,
        },
        Motion::WordForward => word_forward(text, from, false),
        Motion::WordBackward => word_backward(text, from, false),
        Motion::WordEnd => word_end(text, from, false),
        Motion::BigWordForward => word_forward(text, from, true),
        Motion::BigWordBackward => word_backward(text, from, true),
        Motion::BigWordEnd => word_end(text, from, true),
        Motion::LineStart => Position { line: from.line, column: 1 },
        Motion::FirstNonBlank => first_non_blank(text, from.line),
        Motion::LineEnd => {
            let w = width(text, from.line);
            Position { line: from.line, column: if w >= 1 { w } else { 1 } }
        },
        Motion::BufferStart => first_non_blank(text, 1),
        Motion::BufferEnd => first_non_blank(text, lines),
        Motion::ParagraphForward => paragraph(text, from, true),
        Motion::ParagraphBackward => paragraph(text, from, false),
        Motion::MatchingBracket => match matching_bracket(text, from) {
            Some(p) => p,
            None => from,
        },
        Motion::ScreenTop => first_non_blank(text, clamp_u64(view.top as u64, 1, lines as u64) as u32),
        Motion::ScreenMiddle => first_non_blank(
            text,
            clamp_u64(view.top as u64 + (view.height / 2) as u64, 1, lines as u64) as u32,
        ),
        Motion::ScreenBottom => {
            let below: u32 = if view.height >= 1 { view.height - 1 } else { 0 };
            first_non_blank(text, clamp_u64(view.top as u64 + below as u64, 1, lines as u64) as u32)
        },
        Motion::HalfPageDown => Position {
            line: if (from.line as u64) + (half as u64) <= lines as u64 { from.line + half } else { lines },
            column: from.column,
        },
        Motion::HalfPageUp => Position {
            line: if from.line > half { from.line - half } else { 1 },
            column: from.column,
        },
        _ => from,
    }
}

// ---------------------------------------------------------------------------
// Where a motion leaves the cursor
// ---------------------------------------------------------------------------

/// `n` applications of a motion.
pub open spec fn spec_steps(rows: Seq<Seq<char>>, view: Viewport, from: Position, motion: Motion, n: nat) -> Position
    decreases n,
{
    if n == 0 {
        from
    } else {
        spec_step(rows, view, spec_steps(rows, view, from, motion, (n - 1) as nat), motion)
    }
}

/// Whether a motion keeps the column and moves lines.
pub open spec fn is_vertical(motion: Motion) -> bool {
    motion is LineUp || motion is LineDown || motion is HalfPageUp || motion is HalfPageDown
}

/// Where `motion`, repeated `count` times, leaves the cursor; a find moves to
/// the `count`-th `target`, and stays put with no target.
pub open spec fn spec_cursor_after(
    rows: Seq<Seq<char>>,
    view: Viewport,
    from: Position,
    motion: Motion,
    count: u32,
    target: Option<char>,
) -> Position {
    if spec_is_find(motion) {
        match target {
            Some(c) => spec_find_char(rows, from, motion, c, count),
            None => from,
        }
    } else {
        let p = spec_steps(rows, view, from, motion, at_least_one(count));
        if is_vertical(motion) {
            spec_clamp(rows, p)
        } else {
            p
        }
    }
}

/// Where `motion`, repeated `count` times, leaves the cursor.
///
/// Both the host applying `MoveCursor` and the machine building an
/// operator's span ask this. Total: an unresolvable motion answers where it
/// started. The four finds need a character and stay put here; they answer
/// through `cursor_after_with_target`.
pub fn cursor_after<T: Text>(text: &T, from: Position, motion: Motion, count: u32) -> (r: Position)
    requires
        text_wf(text.rows()),
    ensures
        r == spec_cursor_after(text.rows(), text.shown(), from, motion, count, None),
{
    cursor_after_with_target(text, from, motion, count, None)
}

/// `cursor_after`, with the character `f`, `F`, `t` and `T` search for.
pub fn cursor_after_with_target<T: Text>(
    text: &T,
    from: Position,
    motion: Motion,
    count: u32,
    target: Option<char>,
) -> (r: Position)
    requires
        text_wf(text.rows()),
        target is Some ==> find_in_reach(text.rows(), from, motion),
    ensures
        r == spec_cursor_after(text.rows(), text.shown(), from, motion, count, target),
{
    let n: u32 = if count >= 1 { count } else { 1 };
    if is_find(motion) {
        return match target {
            Some(c) => find_char(text, from, motion, c, count),
            None => from,
        };
    }
    let ghost rows = text.rows();
    let ghost view = text.shown();
    let mut position = from;
    let mut i: u32 = 0;
    while i < n
        invariant
            rows == text.rows(),
            view == text.shown(),
            text_wf(rows),
            i <= n,
            position == spec_steps(rows, view, from, motion, i as nat),
        decreases n - i,
    {
        position = step(text, position, motion);
        i = i + 1;
    }
    match motion {
        Motion::LineUp | Motion::LineDown | Motion::HalfPageUp | Motion::HalfPageDown => clamp(text, position),
        _ => position,
    }
}

// ---------------------------------------------------------------------------
// Case
// ---------------------------------------------------------------------------

/// What a case change makes of one character.
pub open spec fn spec_case_of(c: char, case: CaseChange) -> Seq<char> {
    match case {
        CaseChange::Upper => upper_case_of(c),
        CaseChange::Lower => lower_case_of(c),
        CaseChange::Toggle => if char_is_lowercase(c) {
            upper_case_of(c)
        } else if char_is_uppercase(c) {
            lower_case_of(c)
        } else {
            seq![c]
        },
    }
}

/// `s` with each character's case changed, in order.
pub open spec fn spec_cased(s: Seq<char>, case: CaseChange) -> Seq<char>
    decreases s.len(),
{
    if s.len() == 0 {
        Seq::empty()
    } else {
        spec_cased(s.drop_last(), case) + spec_case_of(s.last(), case)
    }
}

/// `text` with its letters upper-cased, lower-cased or toggled.
///
/// One definition of what `~` means. Non-letters are untouched, and a letter
/// with no other case is itself.
pub fn cased(text: &str, case: CaseChange) -> (r: String)
    ensures
        r@ == spec_cased(text@, case),
{
    let chars = chars_of(text);
    let mut out = String::new();
    let mut i: usize = 0;
    while i < chars.len()
        invariant
            i <= chars@.len(),
            chars@ == text@,
            out@ == spec_cased(text@.take(i as int), case),
        decreases chars.len() - i,
    {
        let c = chars[i];
        let piece: Vec<char> = match case {
            CaseChange::Upper => to_upper(c),
            CaseChange::Lower => to_lower(c),
            CaseChange::Toggle => if is_lowercase(c) {
                to_upper(c)
            } else if is_uppercase(c) {
                to_lower(c)
            } else {
                vec![c]
            },
        };
        let ghost before = out@;
        let mut k: usize = 0;
        while k < piece.len()
            invariant
                k <= piece@.len(),
                out@ == before + piece@.take(k as int),
            decreases piece.len() - k,
        {
            push_char(&mut out, piece[k]);
            k = k + 1;
            assert(out@ =~= before + piece@.take(k as int));
        }
        assert(piece@.take(k as int) =~= piece@);
        assert(piece@ == spec_case_of(c, case));
        assert(text@.take(i + 1).drop_last() =~= text@.take(i as int));
        i = i + 1;
    }
    assert(text@.take(i as int) =~= text@);
    out
}

// ---------------------------------------------------------------------------
// Operator spans
// ---------------------------------------------------------------------------

/// `l` as an operand: up to the newline boundary, on this line only.
pub open spec fn spec_char_right_operand(rows: Seq<Seq<char>>, from: Position, count: u32) -> Position {
    let reach = from.column + at_least_one(count);
    let limit: int = spec_width(rows, from.line) + 1int;
    pos(from.line as int, if reach <= limit { reach } else { limit })
}

/// `l` as an operand, which reaches the newline boundary where `l` as a
/// motion stops on the last character: `3x` on a three-character line takes
/// all three, and `5x` two from the end takes those two and stays on the line.
fn char_right_operand<T: Text>(text: &T, from: Position, count: u32) -> (r: Position)
    requires
        text_wf(text.rows()),
    ensures
        r == spec_char_right_operand(text.rows(), from, count),
{
    let n: u64 = if count >= 1 { count as u64 } else { 1 };
    let reach: u64 = from.column as u64 + n;
    let limit: u64 = width(text, from.line) as u64 + 1;
    Position { line: from.line, column: if reach <= limit { reach as u32 } else { limit as u32 } }
}

/// A whole-line span, `first..=last`, ending at the start of the line after
/// or, for the last line, at its end.
pub open spec fn spec_line_span(rows: Seq<Seq<char>>, first: u32, last: u32) -> Span {
    let lines = line_count(rows);
    let f = clamp_int(first as int, 1, lines);
    let l = clamp_int(last as int, f, lines);
    let end = if l < lines { pos(l + 1, 1) } else { spec_end_of_line(rows, l as u32) };
    Span { start: pos(f, 1), end }
}

/// A whole-line span, `first..=last`, ending at the start of the line after.
pub fn line_span<T: Text>(text: &T, first: u32, last: u32) -> (r: Span)
    requires
        text_wf(text.rows()),
    ensures
        r == spec_line_span(text.rows(), first, last),
{
    let lines = line_count_of(text);
    let f = if first < 1 {
        1
    } else if first > lines {
        lines
    } else {
        first
    };
    let l = if last < f {
        f
    } else if last > lines {
        lines
    } else {
        last
    };
    let end = if l < lines {
        Position { line: l + 1, column: 1 }
    } else {
        end_of_line(text, l)
    };
    Span { start: Position { line: f, column: 1 }, end }
}

/// Whether a motion's operand is whole lines.
pub open spec fn spec_linewise(motion: Motion) -> SelectionKind {
    match motion {
        Motion::LineUp | Motion::LineDown | Motion::BufferStart | Motion::BufferEnd
        | Motion::ParagraphForward | Motion::ParagraphBackward | Motion::ScreenTop
        | Motion::ScreenMiddle | Motion::ScreenBottom | Motion::HalfPageUp
        | Motion::HalfPageDown => SelectionKind::Line,
        _ => SelectionKind::Char,
    }
}

fn linewise(motion: Motion) -> (r: SelectionKind)
    ensures
        r == spec_linewise(motion),
{
    match motion {
        Motion::LineUp | Motion::LineDown | Motion::BufferStart | Motion::BufferEnd
        | Motion::ParagraphForward | Motion::ParagraphBackward | Motion::ScreenTop
        | Motion::ScreenMiddle | Motion::ScreenBottom | Motion::HalfPageUp
        | Motion::HalfPageDown => SelectionKind::Line,
        _ => SelectionKind::Char,
    }
}

/// Whether an operator takes the character its motion lands on: the forward
/// finds are inclusive and the backward ones are not.
pub open spec fn spec_inclusive(motion: Motion) -> bool {
    motion is WordEnd || motion is BigWordEnd || motion is LineEnd || motion is MatchingBracket
        || motion is FindCharForward || motion is TillCharForward
}

fn inclusive(motion: Motion) -> (r: bool)
    ensures
        r == spec_inclusive(motion),
{
    match motion {
        Motion::WordEnd | Motion::BigWordEnd | Motion::LineEnd | Motion::MatchingBracket
        | Motion::FindCharForward | Motion::TillCharForward => true,
        _ => false,
    }
}

/// Whether `a` comes before `b`.
pub open spec fn before(a: Position, b: Position) -> bool {
    a.line < b.line || (a.line == b.line && a.column < b.column)
}

/// The span an operator covers when `motion` is its operand, or `None` when
/// the motion has no span.
pub open spec fn spec_motion_span(
    rows: Seq<Seq<char>>,
    view: Viewport,
    from: Position,
    motion: Motion,
    count: u32,
    target: Option<char>,
) -> Option<(Span, SelectionKind)> {
    if motion is SearchNext || motion is SearchPrev || motion is RepeatFind || motion is RepeatFindReverse {
        None
    } else {
        let to = if motion is CharRight {
            spec_char_right_operand(rows, from, count)
        } else {
            spec_cursor_after(rows, view, from, motion, count, target)
        };
        if spec_is_find(motion) && to == from {
            None
        } else if spec_linewise(motion) == SelectionKind::Line {
            let first = if from.line <= to.line { from.line } else { to.line };
            let last = if from.line <= to.line { to.line } else { from.line };
            Some((spec_line_span(rows, first, last), SelectionKind::Line))
        } else {
            let start = if before(to, from) { to } else { from };
            let end0 = if before(to, from) { from } else { to };
            let end = if spec_inclusive(motion) {
                match spec_forward(rows, end0) {
                    Some(n) => n,
                    None => end0,
                }
            } else {
                end0
            };
            if start == end {
                None
            } else {
                Some((Span { start, end }, SelectionKind::Char))
            }
        }
    }
}

/// The span an operator covers when `motion` is its operand.
///
/// `None` when the motion has no span: a search with no search state, a
/// repeat the machine should have resolved, a find that does not land, and a
/// span of no characters (`x` on an empty line, `d0` in column 1).
pub fn motion_span<T: Text>(text: &T, from: Position, motion: Motion, count: u32) -> (r: Option<(Span, SelectionKind)>)
    requires
        text_wf(text.rows()),
    ensures
        r == spec_motion_span(text.rows(), text.shown(), from, motion, count, None),
{
    motion_span_with_target(text, from, motion, count, None)
}

/// `motion_span`, with the character `f`, `F`, `t` and `T` search for.
pub fn motion_span_with_target<T: Text>(
    text: &T,
    from: Position,
    motion: Motion,
    count: u32,
    target: Option<char>,
) -> (r: Option<(Span, SelectionKind)>)
    requires
        text_wf(text.rows()),
        target is Some ==> find_in_reach(text.rows(), from, motion),
    ensures
        r == spec_motion_span(text.rows(), text.shown(), from, motion, count, target),
{
    match motion {
        Motion::SearchNext | Motion::SearchPrev | Motion::RepeatFind | Motion::RepeatFindReverse => {
            return None;
        },
        _ => {},
    }
    let to = if motion == Motion::CharRight {
        char_right_operand(text, from, count)
    } else {
        cursor_after_with_target(text, from, motion, count, target)
    };
    if is_find(motion) && to == from {
        return None;
    }
    let kind = linewise(motion);
    if kind == SelectionKind::Line {
        let first = if from.line <= to.line { from.line } else { to.line };
        let last = if from.line <= to.line { to.line } else { from.line };
        return Some((line_span(text, first, last), SelectionKind::Line));
    }
    let earlier = to.line < from.line || (to.line == from.line && to.column < from.column);
    let start = if earlier { to } else { from };
    let end0 = if earlier { from } else { to };
    let end = if inclusive(motion) {
        match forward(text, end0) {
            Some(n) => n,
            None => end0,
        }
    } else {
        end0
    };
    if start == end {
        return None;
    }
    Some((Span { start, end }, SelectionKind::Char))
}

// ---------------------------------------------------------------------------
// Text objects
// ---------------------------------------------------------------------------

/// Back along a line while the previous position is of class `run`.
pub open spec fn spec_run_start(rows: Seq<Seq<char>>, p: Position, run: Class, big: bool) -> Position
    decreases bwd_rank(p),
{
    match spec_backward(rows, p) {
        Some(q) => {
            proof {
                lemma_backward_rank(rows, p);
            }
            if q.line == p.line && spec_class_at(rows, q, big) == Some(run) {
                spec_run_start(rows, q, run, big)
            } else {
                p
            }
        },
        None => p,
    }
}

/// Forward along a line while the next position is of class `run`.
pub open spec fn spec_run_end(rows: Seq<Seq<char>>, p: Position, run: Class, big: bool) -> Position
    decreases fwd_rank(rows, p),
    when text_wf(rows)
{
    match spec_forward(rows, p) {
        Some(n) => {
            proof {
                lemma_forward_rank(rows, p);
            }
            if n.line == p.line && spec_class_at(rows, n, big) == Some(run) {
                spec_run_end(rows, n, run, big)
            } else {
                p
            }
        },
        None => p,
    }
}

/// Forward over blanks on `line`: the white space `aw` takes after a word.
pub open spec fn spec_blank_tail(rows: Seq<Seq<char>>, p: Position, line: u32) -> Position
    decreases fwd_rank(rows, p),
    when text_wf(rows)
{
    if spec_class_at(rows, p, false) == Some(Class::Blank) && p.line == line {
        match spec_forward(rows, p) {
            Some(n) => {
                proof {
                    lemma_forward_rank(rows, p);
                }
                spec_blank_tail(rows, n, line)
            },
            None => p,
        }
    } else {
        p
    }
}

/// `iw` and `aw` (`iW`, `aW` when `big`): the run under the cursor on its
/// line, and for `aw` the blanks after it.
pub open spec fn spec_word_object(rows: Seq<Seq<char>>, from: Position, inner: bool, big: bool) -> Option<(Span, SelectionKind)> {
    match spec_at(rows, from) {
        None => None,
        Some(c) => {
            let run = spec_classify(c, big);
            let start = spec_run_start(rows, from, run, big);
            let last = spec_run_end(rows, from, run, big);
            let end = match spec_forward(rows, last) {
                Some(n) => n,
                None => last,
            };
            let end = if inner { end } else { spec_blank_tail(rows, end, from.line) };
            Some((Span { start, end }, SelectionKind::Char))
        },
    }
}

fn run_start<T: Text>(text: &T, from: Position, run: Class, big: bool) -> (r: Position)
    requires
        text_wf(text.rows()),
    ensures
        r == spec_run_start(text.rows(), from, run, big),
{
    let ghost rows = text.rows();
    let mut position = from;
    loop
        invariant
            rows == text.rows(),
            text_wf(rows),
            spec_run_start(rows, position, run, big) == spec_run_start(rows, from, run, big),
        decreases bwd_rank(position),
    {
        match backward(text, position) {
            Some(previous) => {
                if previous.line == position.line && class_at(text, previous, big) == Some(run) {
                    position = previous;
                } else {
                    return position;
                }
            },
            None => {
                return position;
            },
        }
    }
}

fn run_end<T: Text>(text: &T, from: Position, run: Class, big: bool) -> (r: Position)
    requires
        text_wf(text.rows()),
    ensures
        r == spec_run_end(text.rows(), from, run, big),
{
    let ghost rows = text.rows();
    let mut position = from;
    loop
        invariant
            rows == text.rows(),
            text_wf(rows),
            spec_run_end(rows, position, run, big) == spec_run_end(rows, from, run, big),
        decreases fwd_rank(rows, position),
    {
        proof {
            lemma_forward_rank(rows, position);
        }
        match forward(text, position) {
            Some(next) => {
                if next.line == position.line && class_at(text, next, big) == Some(run) {
                    position = next;
                } else {
                    return position;
                }
            },
            None => {
                return position;
            },
        }
    }
}

fn blank_tail<T: Text>(text: &T, from: Position, line: u32) -> (r: Position)
    requires
        text_wf(text.rows()),
    ensures
        r == spec_blank_tail(text.rows(), from, line),
{
    let ghost rows = text.rows();
    let mut position = from;
    loop
        invariant
            rows == text.rows(),
            text_wf(rows),
            spec_blank_tail(rows, position, line) == spec_blank_tail(rows, from, line),
        decreases fwd_rank(rows, position),
    {
        proof {
            lemma_forward_rank(rows, position);
        }
        if !(class_at(text, position, false) == Some(Class::Blank) && position.line == line) {
            return position;
        }
        match forward(text, position) {
            Some(next) => {
                position = next;
            },
            None => {
                return position;
            },
        }
    }
}

fn word_object<T: Text>(text: &T, from: Position, inner: bool, big: bool) -> (r: Option<(Span, SelectionKind)>)
    requires
        text_wf(text.rows()),
    ensures
        r == spec_word_object(text.rows(), from, inner, big),
{
    let c = match at(text, from) {
        Some(c) => c,
        None => {
            return None;
        },
    };
    let run = classify(c, big);
    let start = run_start(text, from, run, big);
    let last = run_end(text, from, run, big);
    let end = match forward(text, last) {
        Some(n) => n,
        None => last,
    };
    let end = if inner { end } else { blank_tail(text, end, from.line) };
    Some((Span { start, end }, SelectionKind::Char))
}

/// Up from `l` while the line above is not blank.
pub open spec fn spec_par_first(rows: Seq<Seq<char>>, l: int) -> int
    decreases l,
{
    if l > 1 && !spec_is_blank_line(rows, (l - 1) as u32) {
        spec_par_first(rows, l - 1)
    } else {
        l
    }
}

/// Down from `l` while the line below is blank (`blanks`) or not.
pub open spec fn spec_par_last(rows: Seq<Seq<char>>, l: int, blanks: bool) -> int
    decreases line_count(rows) - l,
{
    if l < line_count(rows) && spec_is_blank_line(rows, (l + 1) as u32) == blanks {
        spec_par_last(rows, l + 1, blanks)
    } else {
        l
    }
}

/// `ip` and `ap`: the lines around the cursor up to the blank lines, and for
/// `ap` the blank lines after them.
pub open spec fn spec_paragraph_object(rows: Seq<Seq<char>>, from: Position, inner: bool) -> (Span, SelectionKind) {
    let first = spec_par_first(rows, from.line as int);
    let last = spec_par_last(rows, from.line as int, false);
    let last = if inner { last } else { spec_par_last(rows, last, true) };
    (spec_line_span(rows, first as u32, last as u32), SelectionKind::Line)
}

fn paragraph_object<T: Text>(text: &T, from: Position, inner: bool) -> (r: (Span, SelectionKind))
    requires
        text_wf(text.rows()),
    ensures
        r == spec_paragraph_object(text.rows(), from, inner),
{
    let ghost rows = text.rows();
    let lines = line_count_of(text);
    let mut first = from.line;
    while first > 1 && !is_blank_line(text, first - 1)
        invariant
            rows == text.rows(),
            text_wf(rows),
            first <= from.line,
            spec_par_first(rows, first as int) == spec_par_first(rows, from.line as int),
        decreases first,
    {
        first = first - 1;
    }
    let mut last = from.line;
    while last < lines && !is_blank_line(text, last + 1)
        invariant
            rows == text.rows(),
            text_wf(rows),
            lines == line_count(rows),
            spec_par_last(rows, last as int, false) == spec_par_last(rows, from.line as int, false),
        decreases lines - last,
    {
        last = last + 1;
    }
    let ghost mid = last;
    if !inner {
        while last < lines && is_blank_line(text, last + 1)
            invariant
                rows == text.rows(),
                text_wf(rows),
                lines == line_count(rows),
                spec_par_last(rows, last as int, true) == spec_par_last(rows, mid as int, true),
            decreases lines - last,
        {
            last = last + 1;
        }
    }
    (line_span(text, first, last), SelectionKind::Line)
}

/// Whether index `i` of `row` ends a sentence.
pub open spec fn ends_sentence(row: Seq<char>, i: int) -> bool {
    0 <= i < row.len() && (row[i] == '.' || row[i] == '!' || row[i] == '?')
}

/// Whether index `i` of `row` is white space.
pub open spec fn white_at(row: Seq<char>, i: int) -> bool {
    0 <= i < row.len() && spec_is_white_space(row[i])
}

/// Back from `s` to just after a sentence end followed by white space.
pub open spec fn spec_sentence_back(row: Seq<char>, s: int) -> int
    decreases s,
{
    if s > 0 && !(ends_sentence(row, s - 1) && white_at(row, s)) {
        spec_sentence_back(row, s - 1)
    } else {
        s
    }
}

/// Forward from `s` past white space.
pub open spec fn spec_skip_white(row: Seq<char>, s: int) -> int
    decreases row.len() - s,
{
    if white_at(row, s) {
        spec_skip_white(row, s + 1)
    } else {
        s
    }
}

/// Forward from `e` to the next sentence end.
pub open spec fn spec_sentence_forward(row: Seq<char>, e: int) -> int
    decreases row.len() - e,
{
    if e < row.len() && !ends_sentence(row, e) {
        spec_sentence_forward(row, e + 1)
    } else {
        e
    }
}

/// `is` and `as`, on the cursor's line: from after the previous sentence end
/// to just after the next, and for `as` the white space after it.
pub open spec fn spec_sentence_object(rows: Seq<Seq<char>>, from: Position, inner: bool) -> Option<(Span, SelectionKind)> {
    if !(1 <= from.line <= rows.len()) {
        None
    } else {
        let row = rows[from.line - 1];
        let c = if from.column >= 1 { from.column - 1 } else { 0 };
        let index = if c <= row.len() { c } else { row.len() as int };
        let start = spec_skip_white(row, spec_sentence_back(row, index));
        let e = spec_sentence_forward(row, index);
        let e = if e < row.len() { e + 1 } else { e };
        let end = if inner { e } else { spec_skip_white(row, e) };
        Some((Span { start: pos(from.line as int, start + 1), end: pos(from.line as int, end + 1) }, SelectionKind::Char))
    }
}

fn is_sentence_end(c: char) -> (r: bool)
    ensures
        r == (c == '.' || c == '!' || c == '?'),
{
    c == '.' || c == '!' || c == '?'
}

fn sentence_object<T: Text>(text: &T, from: Position, inner: bool) -> (r: Option<(Span, SelectionKind)>)
    requires
        text_wf(text.rows()),
    ensures
        r == spec_sentence_object(text.rows(), from, inner),
{
    let ghost rows = text.rows();
    let row: Vec<char> = match text.line(from.line) {
        Some(row) => chars_of(row.as_str()),
        None => {
            return None;
        },
    };
    let ghost r = row@;
    let n = row.len();
    let c: usize = if from.column >= 1 { (from.column - 1) as usize } else { 0 };
    let index = if c <= n { c } else { n };
    let mut start = index;
    while start > 0 && !(is_sentence_end(row[start - 1]) && start < n && is_white_space(row[start]))
        invariant
            n == r.len(),
            r == row@,
            start <= index <= n,
            spec_sentence_back(r, start as int) == spec_sentence_back(r, index as int),
        decreases start,
    {
        start = start - 1;
    }
    let ghost back = start;
    while start < n && is_white_space(row[start])
        invariant
            n == r.len(),
            r == row@,
            back <= start <= n,
            spec_skip_white(r, start as int) == spec_skip_white(r, back as int),
        decreases n - start,
    {
        start = start + 1;
    }
    let mut end = index;
    while end < n && !is_sentence_end(row[end])
        invariant
            n == r.len(),
            r == row@,
            index <= end <= n,
            spec_sentence_forward(r, end as int) == spec_sentence_forward(r, index as int),
        decreases n - end,
    {
        end = end + 1;
    }
    if end < n {
        end = end + 1;
    }
    if !inner {
        let ghost e = end;
        while end < n && is_white_space(row[end])
            invariant
                n == r.len(),
                r == row@,
                e <= end <= n,
                spec_skip_white(r, end as int) == spec_skip_white(r, e as int),
            decreases n - end,
        {
            end = end + 1;
        }
    }
    Some((
        Span {
            start: Position { line: from.line, column: start as u32 + 1 },
            end: Position { line: from.line, column: end as u32 + 1 },
        },
        SelectionKind::Char,
    ))
}

/// The pair a delimiter stands for: a bracket's family, or a quote twice.
pub open spec fn spec_delimiter_pair(d: char) -> (char, char) {
    if d == '(' || d == ')' {
        ('(', ')')
    } else if d == '[' || d == ']' {
        ('[', ']')
    } else if d == '{' || d == '}' {
        ('{', '}')
    } else if d == '<' || d == '>' {
        ('<', '>')
    } else {
        (d, d)
    }
}

/// Back from `p` to the `open` that no `close` after it (other than at the
/// cursor) matches.
pub open spec fn spec_enclosing_back(
    rows: Seq<Seq<char>>,
    p: Position,
    from: Position,
    open: char,
    close: char,
    depth: nat,
) -> Option<Position>
    decreases bwd_rank(p),
{
    let c = spec_at(rows, p);
    if c == Some(open) && depth == 0 {
        Some(p)
    } else {
        let d: nat = if c == Some(open) {
            (depth - 1) as nat
        } else if c == Some(close) && p != from {
            depth + 1
        } else {
            depth
        };
        match spec_backward(rows, p) {
            Some(q) => {
                proof {
                    lemma_backward_rank(rows, p);
                }
                spec_enclosing_back(rows, q, from, open, close, d)
            },
            None => None,
        }
    }
}

/// The innermost `open`/`close` pair containing, or starting at, the cursor.
pub open spec fn spec_enclosing(rows: Seq<Seq<char>>, from: Position, open: char, close: char) -> Option<(Position, Position)> {
    match spec_enclosing_back(rows, from, from, open, close, 0) {
        None => None,
        Some(start) => match spec_bracket_walk(rows, start, open, close, 0, true) {
            None => None,
            Some(end) => Some((start, end)),
        },
    }
}

/// The 1-based columns of `row` that hold `q`, in order.
pub open spec fn spec_quote_columns(row: Seq<char>, q: char) -> Seq<u32>
    decreases row.len(),
{
    if row.len() == 0 {
        Seq::empty()
    } else {
        let rest = spec_quote_columns(row.drop_last(), q);
        if row.last() == q {
            rest.push(row.len() as u32)
        } else {
            rest
        }
    }
}

/// Of the quotes taken two by two from pair `k` on, the first whose closing
/// quote is at or after `column`.
pub open spec fn spec_quote_pair(cols: Seq<u32>, column: u32, k: nat) -> Option<(u32, u32)>
    decreases cols.len() - 2 * k,
{
    if 2 * k + 1 >= cols.len() {
        None
    } else if column <= cols[2 * k + 1int] {
        Some((cols[2 * k as int], cols[2 * k + 1int]))
    } else {
        spec_quote_pair(cols, column, k + 1)
    }
}

/// A quoted run on the cursor's own line: quotes do not nest and do not wrap.
pub open spec fn spec_quoted(rows: Seq<Seq<char>>, from: Position, q: char) -> Option<(Position, Position)> {
    if !(1 <= from.line <= rows.len()) {
        None
    } else {
        match spec_quote_pair(spec_quote_columns(rows[from.line - 1], q), from.column, 0) {
            None => None,
            Some((a, b)) => Some((pos(from.line as int, a as int), pos(from.line as int, b as int))),
        }
    }
}

/// `i(`, `a"` and the like: inside the delimiters, or with them.
pub open spec fn spec_delimited_object(rows: Seq<Seq<char>>, from: Position, inner: bool, delimiter: char) -> Option<(Span, SelectionKind)> {
    let (open, close) = spec_delimiter_pair(delimiter);
    let found = if open == close { spec_quoted(rows, from, open) } else { spec_enclosing(rows, from, open, close) };
    match found {
        None => None,
        Some((start, end)) => if inner {
            match spec_forward(rows, start) {
                None => None,
                Some(s) => Some((Span { start: s, end }, SelectionKind::Char)),
            }
        } else {
            match spec_forward(rows, end) {
                None => None,
                Some(e) => Some((Span { start, end: e }, SelectionKind::Char)),
            }
        },
    }
}

fn enclosing_back<T: Text>(text: &T, from: Position, open: char, close: char) -> (r: Option<Position>)
    requires
        text_wf(text.rows()),
    ensures
        r == spec_enclosing_back(text.rows(), from, from, open, close, 0),
        r matches Some(p) ==> spec_at(text.rows(), p) == Some(open),
{
    let ghost rows = text.rows();
    let mut start = from;
    let mut depth: u128 = 0;
    loop
        invariant
            rows == text.rows(),
            text_wf(rows),
            spec_enclosing_back(rows, start, from, open, close, depth as nat)
                == spec_enclosing_back(rows, from, from, open, close, 0),
            depth + bwd_rank(start) <= bwd_rank(from),
            bwd_rank(from) <= 0x10_0000_0000_0000_0000_0000,
        decreases bwd_rank(start),
    {
        let c = at(text, start);
        if c == Some(open) && depth == 0 {
            return Some(start);
        }
        if c == Some(open) {
            depth = depth - 1;
        } else if c == Some(close) && start != from {
            depth = depth + 1;
        }
        proof {
            lemma_backward_rank(rows, start);
        }
        match backward(text, start) {
            Some(previous) => {
                start = previous;
            },
            None => {
                return None;
            },
        }
    }
}

fn enclosing<T: Text>(text: &T, from: Position, open: char, close: char) -> (r: Option<(Position, Position)>)
    requires
        text_wf(text.rows()),
        open != close,
    ensures
        r == spec_enclosing(text.rows(), from, open, close),
{
    let start = match enclosing_back(text, from, open, close) {
        None => {
            return None;
        },
        Some(s) => s,
    };
    match bracket_walk(text, start, open, close, true) {
        None => None,
        Some(end) => Some((start, end)),
    }
}

fn quote_columns(row: &Vec<char>, q: char) -> (r: Vec<u32>)
    requires
        row@.len() < u32::MAX,
    ensures
        r@ == spec_quote_columns(row@, q),
{
    let mut out: Vec<u32> = Vec::new();
    let mut i: usize = 0;
    while i < row.len()
        invariant
            i <= row@.len() < u32::MAX,
            out@ == spec_quote_columns(row@.take(i as int), q),
        decreases row.len() - i,
    {
        assert(row@.take(i + 1).drop_last() =~= row@.take(i as int));
        if row[i] == q {
            out.push((i + 1) as u32);
        }
        i = i + 1;
    }
    assert(row@.take(i as int) =~= row@);
    out
}

fn quoted<T: Text>(text: &T, from: Position, q: char) -> (r: Option<(Position, Position)>)
    requires
        text_wf(text.rows()),
    ensures
        r == spec_quoted(text.rows(), from, q),
{
    let row: Vec<char> = match text.line(from.line) {
        Some(row) => chars_of(row.as_str()),
        None => {
            return None;
        },
    };
    let ghost rows = text.rows();
    let cols = quote_columns(&row, q);
    let mut k: usize = 0;
    while k < cols.len() / 2
        invariant
            rows == text.rows(),
            1 <= from.line <= rows.len(),
            row@ == rows[from.line - 1],
            cols@ == spec_quote_columns(row@, q),
            k <= cols@.len() / 2,
            spec_quote_pair(cols@, from.column, k as nat) == spec_quote_pair(cols@, from.column, 0),
        decreases cols.len() / 2 - k,
    {
        let (a, b) = (cols[2 * k], cols[2 * k + 1]);
        if from.column <= b {
            return Some((Position { line: from.line, column: a }, Position { line: from.line, column: b }));
        }
        k = k + 1;
    }
    None
}

fn delimiter_pair(d: char) -> (r: (char, char))
    ensures
        r == spec_delimiter_pair(d),
{
    match d {
        '(' | ')' => ('(', ')'),
        '[' | ']' => ('[', ']'),
        '{' | '}' => ('{', '}'),
        '<' | '>' => ('<', '>'),
        quote => (quote, quote),
    }
}

fn delimited_object<T: Text>(text: &T, from: Position, inner: bool, delimiter: char) -> (r: Option<(Span, SelectionKind)>)
    requires
        text_wf(text.rows()),
    ensures
        r == spec_delimited_object(text.rows(), from, inner, delimiter),
{
    let (open, close) = delimiter_pair(delimiter);
    let found = if open == close { quoted(text, from, open) } else { enclosing(text, from, open, close) };
    let (start, end) = match found {
        None => {
            return None;
        },
        Some(pair) => pair,
    };
    if inner {
        match forward(text, start) {
            None => None,
            Some(s) => Some((Span { start: s, end }, SelectionKind::Char)),
        }
    } else {
        match forward(text, end) {
            None => None,
            Some(e) => Some((Span { start, end: e }, SelectionKind::Char)),
        }
    }
}

/// The span a text object covers, or `None` if this object cannot answer.
pub open spec fn spec_object_span(
    rows: Seq<Seq<char>>,
    unseen: Option<Span>,
    at_position: Position,
    object: TextObject,
    inner: bool,
    delimiter: Option<char>,
) -> Option<(Span, SelectionKind)> {
    match object {
        TextObject::Word => spec_word_object(rows, at_position, inner, false),
        TextObject::BigWord => spec_word_object(rows, at_position, inner, true),
        TextObject::Sentence => spec_sentence_object(rows, at_position, inner),
        TextObject::Paragraph => Some(spec_paragraph_object(rows, at_position, inner)),
        TextObject::Delimited => match delimiter {
            Some(d) => spec_delimited_object(rows, at_position, inner, d),
            None => None,
        },
        TextObject::UnseenRegion => match unseen {
            Some(span) => Some((span, SelectionKind::Line)),
            None => None,
        },
        _ => None,
    }
}

/// The span a text object covers, or `None` if this object cannot answer.
///
/// The unseen region is linewise, and `inner` and `around` are the same span
/// of it. A markup tag, a hunk, a thread and a review block answer `None`:
/// they need stores this file does not read. The count is not used.
pub fn object_span<T: Text>(
    text: &T,
    at_position: Position,
    object: TextObject,
    inner: bool,
    count: u32,
    delimiter: Option<char>,
) -> (r: Option<(Span, SelectionKind)>)
    requires
        text_wf(text.rows()),
    ensures
        r == spec_object_span(text.rows(), text.unseen_region(at_position), at_position, object, inner, delimiter),
{
    match object {
        TextObject::Word => word_object(text, at_position, inner, false),
        TextObject::BigWord => word_object(text, at_position, inner, true),
        TextObject::Sentence => sentence_object(text, at_position, inner),
        TextObject::Paragraph => Some(paragraph_object(text, at_position, inner)),
        TextObject::Delimited => match delimiter {
            Some(d) => delimited_object(text, at_position, inner, d),
            None => None,
        },
        TextObject::UnseenRegion => match text.unseen_at(at_position) {
            Some(span) => Some((span, SelectionKind::Line)),
            None => None,
        },
        TextObject::Tag | TextObject::Hunk | TextObject::Thread | TextObject::Block => None,
    }
}

// ---------------------------------------------------------------------------
// Motions stay in the buffer
// ---------------------------------------------------------------------------

/// A position on a line of the buffer, at a column from the first on.
pub open spec fn in_buffer(rows: Seq<Seq<char>>, p: Position) -> bool {
    1 <= p.line <= rows.len() && p.column >= 1
}

proof fn lemma_skip_run_in(rows: Seq<Seq<char>>, p: Position, k: Class, big: bool)
    requires
        text_wf(rows),
        in_buffer(rows, p),
    ensures
        in_buffer(rows, spec_skip_run(rows, p, k, big)),
    decreases fwd_rank(rows, p),
{
    if let Some(n) = spec_forward(rows, p) {
        lemma_forward_rank(rows, p);
        if spec_class_at(rows, n, big) == Some(k) {
            lemma_skip_run_in(rows, n, k, big);
        }
    }
}

proof fn lemma_skip_blank_in(rows: Seq<Seq<char>>, p: Position, big: bool)
    requires
        text_wf(rows),
        in_buffer(rows, p),
    ensures
        in_buffer(rows, spec_skip_blank(rows, p, big)),
    decreases fwd_rank(rows, p),
{
    if spec_class_at(rows, p, big) == Some(Class::Blank) {
        if let Some(n) = spec_forward(rows, p) {
            lemma_forward_rank(rows, p);
            lemma_skip_blank_in(rows, n, big);
        }
    }
}

proof fn lemma_fwd_run_in(rows: Seq<Seq<char>>, p: Position, run: Option<Class>, big: bool)
    requires
        text_wf(rows),
        in_buffer(rows, p),
    ensures
        in_buffer(rows, spec_fwd_run(rows, p, run, big)),
    decreases fwd_rank(rows, p),
{
    if let Some(n) = spec_forward(rows, p) {
        lemma_forward_rank(rows, p);
        if spec_class_at(rows, n, big) == run {
            lemma_fwd_run_in(rows, n, run, big);
        }
    }
}

proof fn lemma_back_blank_in(rows: Seq<Seq<char>>, p: Position, big: bool)
    requires
        text_wf(rows),
        in_buffer(rows, p),
    ensures
        in_buffer(rows, spec_back_blank(rows, p, big)),
    decreases bwd_rank(p),
{
    if spec_class_at(rows, p, big) == Some(Class::Blank) {
        if let Some(q) = spec_backward(rows, p) {
            lemma_backward_rank(rows, p);
            assert(rows[q.line - 1].len() < u32::MAX);
            lemma_back_blank_in(rows, q, big);
        }
    }
}

proof fn lemma_back_run_in(rows: Seq<Seq<char>>, p: Position, run: Option<Class>, big: bool)
    requires
        text_wf(rows),
        in_buffer(rows, p),
    ensures
        in_buffer(rows, spec_back_run(rows, p, run, big)),
    decreases bwd_rank(p),
{
    if let Some(q) = spec_backward(rows, p) {
        lemma_backward_rank(rows, p);
        assert(rows[q.line - 1].len() < u32::MAX);
        if spec_class_at(rows, q, big) == run {
            lemma_back_run_in(rows, q, run, big);
        }
    }
}

proof fn lemma_para_fwd_in(rows: Seq<Seq<char>>, line: int, seen: bool)
    requires
        text_wf(rows),
        rows.len() >= 1,
        1 <= line,
    ensures
        in_buffer(rows, spec_para_fwd(rows, line, seen)),
    decreases rows.len() - line,
{
    if line < rows.len() {
        lemma_para_fwd_in(rows, line + 1, true);
        lemma_para_fwd_in(rows, line + 1, seen);
    }
}

proof fn lemma_para_bwd_in(rows: Seq<Seq<char>>, line: int, seen: bool)
    requires
        text_wf(rows),
        rows.len() >= 1,
        line <= rows.len(),
    ensures
        in_buffer(rows, spec_para_bwd(rows, line, seen)),
    decreases line,
{
    if line > 1 {
        lemma_para_bwd_in(rows, line - 1, true);
        lemma_para_bwd_in(rows, line - 1, seen);
    }
}

proof fn lemma_bracket_walk_in(rows: Seq<Seq<char>>, p: Position, mine: char, want: char, depth: nat, fwd: bool)
    requires
        text_wf(rows),
    ensures
        spec_bracket_walk(rows, p, mine, want, depth, fwd) matches Some(q) ==> in_buffer(rows, q),
    decreases walk_rank(rows, p, fwd),
{
    if let Some(c) = spec_at(rows, p) {
        if !(c == want && c != mine && depth <= 1) {
            let d: nat = if c == mine {
                depth + 1
            } else if c == want {
                (depth - 1) as nat
            } else {
                depth
            };
            if let Some(q) = spec_walk_step(rows, p, fwd) {
                lemma_forward_rank(rows, p);
                lemma_backward_rank(rows, p);
                lemma_bracket_walk_in(rows, q, mine, want, d, fwd);
            }
        }
    }
}

proof fn lemma_first_non_blank_in(rows: Seq<Seq<char>>, line: u32)
    requires
        text_wf(rows),
        1 <= line <= rows.len(),
    ensures
        in_buffer(rows, spec_first_non_blank(rows, line)),
{
    let row = row_of(rows, line);
    assert(row.len() < u32::MAX);
}

/// A motion never leaves the buffer: from a position on one of its lines,
/// at a column from the first on, every motion lands on one of its lines, at
/// a column from the first on.
pub proof fn lemma_step_in_buffer(rows: Seq<Seq<char>>, view: Viewport, from: Position, motion: Motion)
    requires
        text_wf(rows),
        in_buffer(rows, from),
    ensures
        in_buffer(rows, spec_step(rows, view, from, motion)),
{
    let lines = line_count(rows);
    match motion {
        Motion::CharRight => {
            let line = clamp_int(from.line as int, 1, lines);
            assert(rows[line - 1].len() < u32::MAX);
        },
        Motion::LineEnd => {
            assert(rows[from.line - 1].len() < u32::MAX);
        },
        Motion::WordForward | Motion::BigWordForward => {
            let big = motion is BigWordForward;
            let p = match spec_at(rows, from) {
                Some(c) => if spec_classify(c, big) != Class::Blank {
                    spec_skip_run(rows, from, spec_classify(c, big), big)
                } else {
                    from
                },
                None => from,
            };
            if let Some(c) = spec_at(rows, from) {
                lemma_skip_run_in(rows, from, spec_classify(c, big), big);
            }
            lemma_skip_blank_in(rows, p, big);
        },
        Motion::WordBackward | Motion::BigWordBackward => {
            let big = motion is BigWordBackward;
            if let Some(p) = spec_backward(rows, from) {
                assert(rows[p.line - 1].len() < u32::MAX);
                lemma_back_blank_in(rows, p, big);
                let q = spec_back_blank(rows, p, big);
                lemma_back_run_in(rows, q, spec_class_at(rows, q, big), big);
            }
        },
        Motion::WordEnd | Motion::BigWordEnd => {
            let big = motion is BigWordEnd;
            if let Some(p) = spec_forward(rows, from) {
                assert(rows[from.line - 1].len() < u32::MAX);
                lemma_skip_blank_in(rows, p, big);
                let q = spec_skip_blank(rows, p, big);
                lemma_fwd_run_in(rows, q, spec_class_at(rows, q, big), big);
            }
        },
        Motion::FirstNonBlank => {
            lemma_first_non_blank_in(rows, from.line);
        },
        Motion::BufferStart => {
            lemma_first_non_blank_in(rows, 1);
        },
        Motion::BufferEnd => {
            lemma_first_non_blank_in(rows, lines as u32);
        },
        Motion::ParagraphForward => {
            lemma_para_fwd_in(rows, from.line as int, false);
        },
        Motion::ParagraphBackward => {
            lemma_para_bwd_in(rows, from.line as int, false);
        },
        Motion::MatchingBracket => {
            if let Some(start) = spec_find_bracket(rows, from) {
                let (open, close, opening) = spec_bracket(spec_at(rows, start).unwrap()).unwrap();
                let (mine, want) = if opening { (open, close) } else { (close, open) };
                lemma_bracket_walk_in(rows, start, mine, want, 0, opening);
            }
        },
        Motion::ScreenTop => {
            lemma_first_non_blank_in(rows, clamp_int(view.top as int, 1, lines) as u32);
        },
        Motion::ScreenMiddle => {
            lemma_first_non_blank_in(rows, clamp_int(view.top + view.height / 2, 1, lines) as u32);
        },
        Motion::ScreenBottom => {
            lemma_first_non_blank_in(
                rows,
                clamp_int(view.top + if view.height >= 1 { view.height - 1 } else { 0 }, 1, lines) as u32,
            );
        },
        _ => {},
    }
}


/// Backward past blanks stops on a non-blank, or where the buffer starts.
proof fn lemma_back_blank_stops(rows: Seq<Seq<char>>, p: Position, big: bool)
    ensures
        ({
            let r = spec_back_blank(rows, p, big);
            &&& spec_class_at(rows, r, big) != Some(Class::Blank) || spec_backward(rows, r) is None
            &&& bwd_rank(r) <= bwd_rank(p)
        }),
    decreases bwd_rank(p),
{
    if spec_class_at(rows, p, big) == Some(Class::Blank) {
        if let Some(q) = spec_backward(rows, p) {
            lemma_backward_rank(rows, p);
            lemma_back_blank_stops(rows, q, big);
        }
    }
}

/// Backward through a run stops on its first position: one whose
/// predecessor, if any, is of another class.
proof fn lemma_back_run_stops(rows: Seq<Seq<char>>, p: Position, run: Option<Class>, big: bool)
    requires
        spec_class_at(rows, p, big) == run,
    ensures
        ({
            let r = spec_back_run(rows, p, run, big);
            &&& spec_class_at(rows, r, big) == run
            &&& spec_backward(rows, r) matches Some(q) ==> spec_class_at(rows, q, big) != run
            &&& bwd_rank(r) <= bwd_rank(p)
        }),
    decreases bwd_rank(p),
{
    if let Some(q) = spec_backward(rows, p) {
        lemma_backward_rank(rows, p);
        if spec_class_at(rows, q, big) == run {
            lemma_back_run_stops(rows, q, run, big);
        }
    }
}

/// **`b` and `B` land on the start of a word**: the position they answer is
/// the first of its run, its predecessor (if there is one) being of another
/// class, where for `B` every non-blank character is of one class; it lies
/// before the position they started from unless that is where the buffer
/// starts; and it is blank only where the buffer starts.
pub proof fn lemma_word_backward_starts_a_word(rows: Seq<Seq<char>>, view: Viewport, from: Position, big: bool)
    ensures
        ({
            let p = spec_step(rows, view, from, if big { Motion::BigWordBackward } else { Motion::WordBackward });
            &&& spec_backward(rows, p) matches Some(q) ==> spec_class_at(rows, q, big) != spec_class_at(rows, p, big)
            &&& spec_class_at(rows, p, big) == Some(Class::Blank) ==> spec_backward(rows, p) is None
            &&& spec_backward(rows, from) is Some ==> bwd_rank(p) < bwd_rank(from)
            &&& spec_backward(rows, from) is None ==> p == from
        }),
{
    if let Some(p0) = spec_backward(rows, from) {
        lemma_backward_rank(rows, from);
        lemma_back_blank_stops(rows, p0, big);
        let q = spec_back_blank(rows, p0, big);
        lemma_back_run_stops(rows, q, spec_class_at(rows, q, big), big);
        let p = spec_back_run(rows, q, spec_class_at(rows, q, big), big);
        if spec_class_at(rows, p, big) == Some(Class::Blank) {
            assert(spec_class_at(rows, q, big) == Some(Class::Blank));
            assert(spec_backward(rows, q) is None);
        }
    }
}

} // verus!
