//! The payload vocabulary: the nouns every action and query is parameterised
//! by — positions, spans, targets, modes, motions and the records the store and
//! the language server hand over.
//!
//! Paths are carried as workspace-relative text.

use vstd::prelude::*;

use crate::registry::cli::{lemma_shape_arms_index, lemma_shape_fields_index, shape, shape_arms, shape_fields, ArmShapeV, FieldV, ShapeV};
use crate::registry::{arm, param, strs_view, ParamType};

use crate::input::key::{all_digits, digits_value};
use crate::text_util::{chars_of, digits_at_most, string_of};
use crate::value::Args;

verus! {

/// An open buffer. Not a path: the same file can be open once and renamed.
#[derive(Debug, Clone, Copy, PartialEq, Eq, PartialOrd, Ord, Hash, Structural)]
pub struct BufferId(pub u64);

/// A pane in the split tree.
#[derive(Debug, Clone, Copy, PartialEq, Eq, PartialOrd, Ord, Hash, Structural)]
pub struct PaneId(pub u64);

/// A region — one agent-authored span.
#[derive(Debug, Clone, Copy, PartialEq, Eq, PartialOrd, Ord, Hash, Structural)]
pub struct RegionId(pub u64);

/// A resolved anchor.
#[derive(Debug, Clone, Copy, PartialEq, Eq, PartialOrd, Ord, Hash, Structural)]
pub struct AnchorId(pub u64);

/// An anchored exchange.
#[derive(Debug, Clone, Copy, PartialEq, Eq, PartialOrd, Ord, Hash, Structural)]
pub struct ThreadId(pub u64);

/// A placed watch.
#[derive(Debug, Clone, Copy, PartialEq, Eq, PartialOrd, Ord, Hash, Structural)]
pub struct WatchId(pub u64);

/// A queued question or permission ask.
#[derive(Debug, Clone, Copy, PartialEq, Eq, PartialOrd, Ord, Hash, Structural)]
pub struct AskId(pub u64);

/// One hunk of a diff.
#[derive(Debug, Clone, Copy, PartialEq, Eq, PartialOrd, Ord, Hash, Structural)]
pub struct HunkId(pub u64);

/// An agent-declared review block.
#[derive(Debug, Clone, Copy, PartialEq, Eq, PartialOrd, Ord, Hash, Structural)]
pub struct BlockId(pub u64);

/// A group inside a review block.
#[derive(Debug, Clone, Copy, PartialEq, Eq, PartialOrd, Ord, Hash, Structural)]
pub struct GroupId(pub u64);

/// One inbox item.
#[derive(Debug, Clone, Copy, PartialEq, Eq, PartialOrd, Ord, Hash, Structural)]
pub struct InboxId(pub u64);

/// One agent turn.
#[derive(Debug, Clone, Copy, PartialEq, Eq, PartialOrd, Ord, Hash, Structural)]
pub struct TurnId(pub u64);

/// One tool call inside a turn.
#[derive(Debug, Clone, Copy, PartialEq, Eq, PartialOrd, Ord, Hash, Structural)]
pub struct ToolCallId(pub u64);

/// A point in a buffer's undo tree.
#[derive(Debug, Clone, Copy, PartialEq, Eq, PartialOrd, Ord, Hash, Structural)]
pub struct CheckpointId(pub u64);

/// A picker source, defined by the editor layer.
#[derive(Debug, Clone, PartialEq, Eq, PartialOrd, Ord, Hash)]
pub struct SourceId(pub String);

/// A language, as `define-language` names it.
#[derive(Debug, Clone, PartialEq, Eq, PartialOrd, Ord, Hash)]
pub struct LanguageId(pub String);

/// A theme slug.
#[derive(Debug, Clone, PartialEq, Eq, PartialOrd, Ord, Hash)]
pub struct ThemeSlug(pub String);

/// A float surface — a registry key, not a closed set.
#[derive(Debug, Clone, PartialEq, Eq, PartialOrd, Ord, Hash)]
pub struct SurfaceId(pub String);

/// A version-control change, as the backend spells it.
#[derive(Debug, Clone, PartialEq, Eq, PartialOrd, Ord, Hash)]
pub struct ChangeId(pub String);

/// A named register: `a` in `"ayy`. Text, because `+` and `*` exist.
#[derive(Debug, Clone, PartialEq, Eq, PartialOrd, Ord, Hash)]
pub struct RegisterName(pub String);

/// A key sequence in vim notation — `<C-q>`, `SPC f`, `]u`.
#[derive(Debug, Clone, PartialEq, Eq, PartialOrd, Ord, Hash)]
pub struct KeySeq(pub String);

/// A point in a buffer, 1-based in both axes; the column counts characters.
#[derive(Debug, Clone, Copy, PartialEq, Eq, PartialOrd, Ord, Hash, Structural)]
pub struct Position {
    /// 1-based line.
    pub line: u32,
    /// 1-based column, in characters.
    pub column: u32,
}

/// A half-open span between two positions.
#[derive(Debug, Clone, Copy, PartialEq, Eq, PartialOrd, Ord, Hash, Structural)]
pub struct Span {
    /// First position inside the span.
    pub start: Position,
    /// First position after it.
    pub end: Position,
}

/// A file, optionally narrowed to a span.
#[derive(Debug, Clone, PartialEq, Eq)]
pub struct FileSpan {
    /// Workspace-relative path.
    pub path: String,
    /// The span, or the whole file.
    pub span: Option<Span>,
}

/// Who is asking.
#[derive(Debug, Clone, Copy, PartialEq, Eq, Hash, Structural)]
pub enum Actor {
    /// The person at the keyboard.
    You,
    /// The agent — the only author whose writes create regions.
    Claude,
    /// The editor layer acting on its own behalf.
    Steel,
    /// A shell invocation.
    Cli,
    /// The editor itself: disk watchers, language-server pushes, the session.
    System,
}

/// What an action applies to. Four arms are relative to focus.
#[derive(Debug, Clone, PartialEq, Eq)]
pub enum Target {
    /// Wherever the cursor is. Focus-relative.
    Cursor {},
    /// The live visual selection. Focus-relative.
    Selection {},
    /// The highlighted picker row. Focus-relative.
    PickerRow {},
    /// The highlighted row of the focused float. Focus-relative.
    FloatRow {},
    /// A buffer, whole.
    Buffer {
        /// Which buffer.
        id: BufferId,
    },
    /// A file on disk, whether or not it is open.
    File {
        /// Workspace-relative path.
        path: String,
    },
    /// A path and a span, named outright.
    Explicit {
        /// Workspace-relative path.
        path: String,
        /// The span.
        span: Span,
    },
    /// One region.
    Region {
        /// Which region.
        id: RegionId,
    },
    /// One anchor and whatever hangs off it.
    Anchor {
        /// Which anchor.
        id: AnchorId,
    },
    /// One diff hunk.
    Hunk {
        /// Which hunk.
        id: HunkId,
    },
    /// A whole review block.
    Block {
        /// Which block.
        id: BlockId,
    },
    /// A group inside a block.
    Group {
        /// Which group.
        id: GroupId,
    },
    /// One thread.
    Thread {
        /// Which thread.
        id: ThreadId,
    },
    /// One inbox item.
    InboxItem {
        /// Which item.
        id: InboxId,
    },
    /// One watch.
    Watch {
        /// Which watch.
        id: WatchId,
    },
}

impl Target {
    /// Whether the target is one of the four arms whose meaning depends on
    /// focus.
    pub open spec fn spec_focus_relative(&self) -> bool {
        self is Cursor || self is Selection || self is PickerRow || self is FloatRow
    }

    /// Whether this target means something different depending on where focus
    /// is. An agent has no cursor, so the agent door refuses these.
    pub fn focus_relative(&self) -> (r: bool)
        ensures
            r == self.spec_focus_relative(),
    {
        match self {
            Target::Cursor {} | Target::Selection {} | Target::PickerRow {} | Target::FloatRow {} => true,
            _ => false,
        }
    }
}

/// Which pane an action lands in.
#[derive(Debug, Clone, Copy, PartialEq, Eq, Structural)]
pub enum PaneRef {
    /// The pane that has focus.
    Focused {},
    /// A named pane.
    Id {
        /// Which pane.
        id: PaneId,
    },
    /// The pane in a compass direction from the focused one.
    Direction {
        /// Which way.
        direction: Direction,
    },
    /// The next pane in cycle order.
    Next {},
    /// The previous pane in cycle order.
    Prev {},
}

/// A compass direction.
#[derive(Debug, Clone, Copy, PartialEq, Eq, Structural)]
pub enum Direction {
    /// Up.
    Up,
    /// Down.
    Down,
    /// Left.
    Left,
    /// Right.
    Right,
}

/// Which way a sequence is walked.
#[derive(Debug, Clone, Copy, PartialEq, Eq, Structural)]
pub enum Seek {
    /// The next one after here.
    Next,
    /// The previous one before here.
    Prev,
    /// The first.
    First,
    /// The last.
    Last,
}

/// The only thing that can move a viewport.
#[derive(Debug, Clone, Copy, PartialEq, Eq, Structural)]
pub enum ScrollRequest {
    /// Relative, in rows. Negative scrolls towards the top.
    Rows {
        /// How many rows.
        rows: i64,
    },
    /// Relative, in screenfuls.
    Pages {
        /// How many screenfuls.
        pages: i64,
    },
    /// Relative, in columns. Negative scrolls left.
    Columns {
        /// How many columns.
        columns: i64,
    },
    /// Absolute: put this visual row at the top.
    ToRow {
        /// 1-based visual row.
        row: u32,
    },
    /// The first screenful.
    ToTop {},
    /// The last screenful.
    ToBottom {},
    /// Bring a row into view with some margin, moving as little as possible.
    RevealRow {
        /// 1-based visual row.
        row: u32,
        /// Rows of context to keep.
        margin: u32,
    },
}

/// The input machine's mode.
#[derive(Debug, Clone, Copy, PartialEq, Eq, Structural)]
pub enum EditMode {
    /// Keys are commands.
    Normal,
    /// Keys are text.
    Insert,
    /// Characterwise selection.
    VisualChar,
    /// Linewise selection.
    VisualLine,
    /// Blockwise selection.
    VisualBlock,
    /// Replace.
    Replace,
    /// An operator is waiting for its operand.
    OperatorPending,
}

/// A cursor motion. Counts ride on the action; the character the four find
/// motions look for rides beside it.
#[derive(Debug, Clone, Copy, PartialEq, Eq, Structural)]
pub enum Motion {
    /// One character left.
    CharLeft,
    /// One character right.
    CharRight,
    /// One line up.
    LineUp,
    /// One line down.
    LineDown,
    /// Start of the next word.
    WordForward,
    /// Start of the previous word.
    WordBackward,
    /// End of the current word.
    WordEnd,
    /// Start of the next blank-separated word.
    BigWordForward,
    /// Start of the previous blank-separated word.
    BigWordBackward,
    /// End of the current blank-separated word.
    BigWordEnd,
    /// `f` — forward to the next occurrence of a character.
    FindCharForward,
    /// `F` — back to the previous occurrence.
    FindCharBackward,
    /// `t` — forward to just before the next occurrence.
    TillCharForward,
    /// `T` — back to just after the previous occurrence.
    TillCharBackward,
    /// `;` — the last find again.
    RepeatFind,
    /// `,` — the last find again, the other way.
    RepeatFindReverse,
    /// First column.
    LineStart,
    /// First non-blank column.
    FirstNonBlank,
    /// Last column.
    LineEnd,
    /// First line of the buffer.
    BufferStart,
    /// Last line of the buffer.
    BufferEnd,
    /// Next paragraph.
    ParagraphForward,
    /// Previous paragraph.
    ParagraphBackward,
    /// The bracket matching the one under the cursor.
    MatchingBracket,
    /// Top row of the viewport.
    ScreenTop,
    /// Middle row of the viewport.
    ScreenMiddle,
    /// Bottom row of the viewport.
    ScreenBottom,
    /// Half a screen down.
    HalfPageDown,
    /// Half a screen up.
    HalfPageUp,
    /// The next search match.
    SearchNext,
    /// The previous search match.
    SearchPrev,
}

/// A text object — what `i` and `a` select over.
#[derive(Debug, Clone, Copy, PartialEq, Eq, Structural)]
pub enum TextObject {
    /// `w`.
    Word,
    /// `W`.
    BigWord,
    /// `s`.
    Sentence,
    /// `p`.
    Paragraph,
    /// A delimited run; the delimiter rides in the action.
    Delimited,
    /// A markup tag.
    Tag,
    /// The unseen region under the cursor.
    UnseenRegion,
    /// The diff hunk under the cursor.
    Hunk,
    /// The thread anchored here.
    Thread,
    /// The review block this file belongs to.
    Block,
}

/// Characterwise, linewise or blockwise.
#[derive(Debug, Clone, Copy, PartialEq, Eq, Structural)]
pub enum SelectionKind {
    /// Characterwise.
    Char,
    /// Linewise.
    Line,
    /// Blockwise.
    Block,
}

/// What a case change does to the letters it covers.
#[derive(Debug, Clone, Copy, PartialEq, Eq, Structural)]
pub enum CaseChange {
    /// Every letter upper-cased.
    Upper,
    /// Every letter lower-cased.
    Lower,
    /// Each letter to its other case.
    Toggle,
}

/// What a key is bound to: a named capability with its arguments, or source
/// text the editor layer evaluates.
#[derive(Debug, Clone, PartialEq, Eq)]
pub enum Binding {
    /// A registered capability, by door name, with its arguments.
    Capability {
        /// The door name.
        name: String,
        /// Its arguments.
        args: Args,
    },
    /// Scheme source, evaluated when the key fires.
    Source {
        /// The source text.
        source: String,
    },
}

/// A region as it is declared, before the store gives it an id.
#[derive(Debug, Clone, PartialEq, Eq)]
pub struct RegionSpec {
    /// Workspace-relative path.
    pub path: String,
    /// The span it covers.
    pub span: Span,
    /// Who is claimed to have written it.
    pub author: Actor,
}

/// One file's contribution to a review block.
#[derive(Debug, Clone, PartialEq, Eq)]
pub struct FileGroup {
    /// Workspace-relative path.
    pub path: String,
    /// The spans that changed.
    pub spans: Vec<Span>,
    /// The agent's note about this group.
    pub annotation: Option<String>,
}

/// One option in a queued ask.
#[derive(Debug, Clone, PartialEq, Eq)]
pub struct AskOption {
    /// The digit that answers it, 1-based.
    pub digit: u32,
    /// The label.
    pub label: String,
}

/// How urgently an inbox item wants to be read.
#[derive(Debug, Clone, Copy, PartialEq, Eq, Structural)]
pub enum Severity {
    /// Something happened.
    Info,
    /// Worth your eyes.
    Attention,
    /// Something is wrong.
    Trouble,
}

/// A diagnostic, as a language server hands it over.
#[derive(Debug, Clone, PartialEq, Eq)]
pub struct Diagnostic {
    /// Where.
    pub span: Span,
    /// How bad.
    pub severity: Severity,
    /// What the server said.
    pub message: String,
    /// Which server or linter said it.
    pub source: Option<String>,
}

/// A half-open range of characters inside one piece of text, 0-based.
#[derive(Debug, Clone, Copy, PartialEq, Eq, PartialOrd, Ord, Hash, Structural)]
pub struct CharRange {
    /// First character inside the range.
    pub start: u32,
    /// First character after it.
    pub end: u32,
}

/// One completion a server offered.
#[derive(Debug, Clone, PartialEq, Eq)]
pub struct Completion {
    /// What the list shows.
    pub label: String,
    /// The type or shape.
    pub detail: Option<String>,
    /// Documentation for this item, one row per line.
    pub documentation: Vec<String>,
    /// What to type when it is accepted.
    pub insert: String,
}

/// One signature, as signature help gives it.
#[derive(Debug, Clone, PartialEq, Eq)]
pub struct Signature {
    /// The callable as the server spells it.
    pub label: String,
    /// The parameter the cursor is inside, as characters into the label.
    pub active: Option<CharRange>,
    /// Documentation, one row per line.
    pub documentation: Vec<String>,
}

/// One edit in a replayable batch.
#[derive(Debug, Clone, PartialEq, Eq)]
pub struct Edit {
    /// What it replaces.
    pub span: Span,
    /// What replaces it. Empty is a deletion.
    pub text: String,
}

/// How a diff is drawn.
#[derive(Debug, Clone, Copy, PartialEq, Eq, Structural)]
pub enum DiffMode {
    /// One column.
    Unified,
    /// Two columns.
    SideBySide,
}

/// How a review block's files are grouped.
#[derive(Debug, Clone, Copy, PartialEq, Eq, Structural)]
pub enum Grouping {
    /// By directory.
    Directory,
    /// One flat list.
    Flat,
}

/// A fold's new state.
#[derive(Debug, Clone, Copy, PartialEq, Eq, Structural)]
pub enum FoldState {
    /// Collapsed.
    Folded,
    /// Expanded.
    Unfolded,
    /// The other one.
    Toggle,
}

/// How far a permission grant reaches.
#[derive(Debug, Clone, Copy, PartialEq, Eq, Structural)]
pub enum GrantScope {
    /// This invocation only.
    Once,
    /// Write a legible rule for next time.
    Always,
}

/// What a picker row does when accepted.
#[derive(Debug, Clone, Copy, PartialEq, Eq, Structural)]
pub enum AcceptHow {
    /// Open it in the focused pane.
    Open,
    /// Open it in a new split.
    Split,
    /// Every row, into the quickfix list.
    Quickfix,
}

/// What a session seam is.
#[derive(Debug, Clone, Copy, PartialEq, Eq, Structural)]
pub enum SeamKind {
    /// The turn paused at a tool boundary.
    Paused,
    /// The transport dropped.
    Lost,
    /// It came back.
    Resumed,
}

/// How a disk conflict is resolved. There is no automatic merge.
#[derive(Debug, Clone, Copy, PartialEq, Eq, Structural)]
pub enum DiskExit {
    /// Take what is on disk.
    TakeDisk,
    /// Keep the buffer.
    KeepMine,
    /// Hand both to the agent and ask.
    AskClaude,
}

/// What a pane holds.
#[derive(Debug, Clone, Copy, PartialEq, Eq, Structural)]
pub enum PaneKind {
    /// A buffer.
    Buffer,
    /// The transcript.
    Transcript,
    /// A pane whose contents the agent emitted as a view tree.
    Custom,
}

/// Which sequence a navigation action walks.
#[derive(Debug, Clone, Copy, PartialEq, Eq, Structural)]
pub enum Sequence {
    /// Unseen regions.
    UnseenRegion,
    /// Diff hunks.
    Hunk,
    /// Files inside a review block.
    BlockFile,
    /// Diagnostics.
    Diagnostic,
    /// Threads.
    Thread,
    /// Pending asks.
    Ask,
    /// Search matches.
    SearchMatch,
    /// Jumplist entries.
    Jump,
}

/// Which prompt the `:` line is.
#[derive(Debug, Clone, Copy, PartialEq, Eq, Structural)]
pub enum PromptKind {
    /// The ex line.
    Ex,
    /// A message to the agent.
    Claude,
    /// Search.
    Search,
}

/// One file's worth of edits, applied together.
#[derive(Debug, Clone, PartialEq, Eq)]
pub struct FileEdits {
    /// Workspace-relative path.
    pub path: String,
    /// The edits, in the order the server gave them.
    pub edits: Vec<Edit>,
}

/// What `define-language` declares.
#[derive(Debug, Clone, PartialEq, Eq)]
pub struct LanguageSpec {
    /// File extensions, without the dot.
    pub extensions: Vec<String>,
    /// The grammar's name; absent, or unknown to the host, means second tier.
    pub grammar: Option<String>,
    /// The language server command and its arguments; empty means none.
    pub lsp_command: Vec<String>,
    /// The line-comment prefix, for `toggle-comment`.
    pub comment_prefix: Option<String>,
}

/// How much of the promise a language gets: whether the host can parse it.
#[derive(Debug, Clone, Copy, PartialEq, Eq, Structural)]
pub enum Tier {
    /// A grammar the host can load.
    FirstClass,
    /// Plain text with line-based regions.
    SecondTier,
}

/// Narrows a query or a navigation action to a subset of regions.
#[derive(Debug, Clone, PartialEq, Eq)]
pub struct RegionFilter {
    /// Only regions by this author.
    pub author: Option<Actor>,
    /// Only unseen ones.
    pub unseen_only: bool,
    /// Only inside this target.
    pub within: Option<Target>,
}

impl Position {
    /// The declared shape every door renders this as.
    pub fn wire_type() -> (r: ParamType)
        ensures
            shape(r) == position_shape(),
    {
        let r = ParamType::Record(vec![
            param("line", "1-based line number", ParamType::Uint, true),
            param("column", "1-based column, counted in characters", ParamType::Uint, true),
        ]);
        proof {
            lemma_shape_fields_index(r->Record_0@);
            assert(shape_fields(r->Record_0@) =~= seq![
                FieldV { name: "line"@, doc: "1-based line number"@, shape: ShapeV::Uint, required: true },
                FieldV { name: "column"@, doc: "1-based column, counted in characters"@, shape: ShapeV::Uint, required: true },
            ]);
        }
        r
    }
}

impl Span {
    /// The declared shape every door renders this as.
    pub fn wire_type() -> (r: ParamType)
        ensures
            shape(r) == span_shape(),
    {
        let r = ParamType::Record(vec![
            param("start", "first position inside the span", Position::wire_type(), true),
            param("end", "first position after the span", Position::wire_type(), true),
        ]);
        proof {
            lemma_shape_fields_index(r->Record_0@);
            assert(shape_fields(r->Record_0@) =~= seq![
                FieldV { name: "start"@, doc: "first position inside the span"@, shape: position_shape(), required: true },
                FieldV { name: "end"@, doc: "first position after the span"@, shape: position_shape(), required: true },
            ]);
        }
        r
    }
}

impl FileSpan {
    /// The declared shape every door renders this as.
    pub fn wire_type() -> (r: ParamType)
        ensures
            shape(r) == file_span_shape(),
    {
        let r = ParamType::Record(vec![
            param("path", "workspace-relative path", ParamType::Path, true),
            param("span", "the span, or absent for the whole file", Span::wire_type(), false),
        ]);
        proof {
            lemma_shape_fields_index(r->Record_0@);
            assert(shape_fields(r->Record_0@) =~= seq![
                FieldV { name: "path"@, doc: "workspace-relative path"@, shape: ShapeV::Path, required: true },
                FieldV { name: "span"@, doc: "the span, or absent for the whole file"@, shape: span_shape(), required: false },
            ]);
        }
        r
    }
}

impl Actor {
    /// The declared shape every door renders this as.
    pub fn wire_type() -> (r: ParamType)
        ensures
            shape(r) == actor_shape(),
    {
        let r = ParamType::Choice(vec!["you", "agent", "steel", "cli", "system"]);
        proof {
            assert(strs_view(r->Choice_0@) =~= seq!["you"@, "agent"@, "steel"@, "cli"@, "system"@]);
        }
        r
    }
}

impl Target {
    /// The declared shape every door renders this as.
    pub fn wire_type() -> (r: ParamType)
        ensures
            shape(r) == target_shape(),
    {
        let r = ParamType::Union(vec![
            arm("cursor", "wherever the cursor is — focus-relative, refused over MCP", Vec::new()),
            arm("selection", "the live visual selection — focus-relative, refused over MCP", Vec::new()),
            arm("picker-row", "the highlighted picker row — focus-relative, refused over MCP", Vec::new()),
            arm("float-row", "the highlighted row of the focused float — focus-relative, refused over MCP", Vec::new()),
            arm("buffer", "a whole open buffer", vec![
                param("id", "which buffer", ParamType::Id("buffer"), true),
            ]),
            arm("file", "a file on disk, open or not", vec![
                param("path", "workspace-relative path", ParamType::Path, true),
            ]),
            arm("explicit", "a path and a span, named outright", vec![
                param("path", "workspace-relative path", ParamType::Path, true),
                param("span", "the span", Span::wire_type(), true),
            ]),
            arm("region", "one region", vec![
                param("id", "which region", ParamType::Id("region"), true),
            ]),
            arm("anchor", "one anchor and what hangs off it", vec![
                param("id", "which anchor", ParamType::Id("anchor"), true),
            ]),
            arm("hunk", "one diff hunk", vec![
                param("id", "which hunk", ParamType::Id("hunk"), true),
            ]),
            arm("block", "a whole review block", vec![
                param("id", "which block", ParamType::Id("block"), true),
            ]),
            arm("group", "a group inside a review block", vec![
                param("id", "which group", ParamType::Id("group"), true),
            ]),
            arm("thread", "one anchored exchange", vec![
                param("id", "which thread", ParamType::Id("thread"), true),
            ]),
            arm("inbox-item", "one inbox item", vec![
                param("id", "which item", ParamType::Id("inbox-item"), true),
            ]),
            arm("watch", "one placed watch", vec![
                param("id", "which watch", ParamType::Id("watch"), true),
            ]),
        ]);
        proof {
            lemma_shape_arms_index(r->Union_0@);
            lemma_shape_fields_index(r->Union_0@[0].fields@);
            assert(shape_fields(r->Union_0@[0].fields@) =~= Seq::empty());
            lemma_shape_fields_index(r->Union_0@[1].fields@);
            assert(shape_fields(r->Union_0@[1].fields@) =~= Seq::empty());
            lemma_shape_fields_index(r->Union_0@[2].fields@);
            assert(shape_fields(r->Union_0@[2].fields@) =~= Seq::empty());
            lemma_shape_fields_index(r->Union_0@[3].fields@);
            assert(shape_fields(r->Union_0@[3].fields@) =~= Seq::empty());
            lemma_shape_fields_index(r->Union_0@[4].fields@);
            assert(shape_fields(r->Union_0@[4].fields@) =~= seq![
                FieldV { name: "id"@, doc: "which buffer"@, shape: ShapeV::Id("buffer"@), required: true },
            ]);
            lemma_shape_fields_index(r->Union_0@[5].fields@);
            assert(shape_fields(r->Union_0@[5].fields@) =~= seq![
                FieldV { name: "path"@, doc: "workspace-relative path"@, shape: ShapeV::Path, required: true },
            ]);
            lemma_shape_fields_index(r->Union_0@[6].fields@);
            assert(shape_fields(r->Union_0@[6].fields@) =~= seq![
                FieldV { name: "path"@, doc: "workspace-relative path"@, shape: ShapeV::Path, required: true },
                FieldV { name: "span"@, doc: "the span"@, shape: span_shape(), required: true },
            ]);
            lemma_shape_fields_index(r->Union_0@[7].fields@);
            assert(shape_fields(r->Union_0@[7].fields@) =~= seq![
                FieldV { name: "id"@, doc: "which region"@, shape: ShapeV::Id("region"@), required: true },
            ]);
            lemma_shape_fields_index(r->Union_0@[8].fields@);
            assert(shape_fields(r->Union_0@[8].fields@) =~= seq![
                FieldV { name: "id"@, doc: "which anchor"@, shape: ShapeV::Id("anchor"@), required: true },
            ]);
            lemma_shape_fields_index(r->Union_0@[9].fields@);
            assert(shape_fields(r->Union_0@[9].fields@) =~= seq![
                FieldV { name: "id"@, doc: "which hunk"@, shape: ShapeV::Id("hunk"@), required: true },
            ]);
            lemma_shape_fields_index(r->Union_0@[10].fields@);
            assert(shape_fields(r->Union_0@[10].fields@) =~= seq![
                FieldV { name: "id"@, doc: "which block"@, shape: ShapeV::Id("block"@), required: true },
            ]);
            lemma_shape_fields_index(r->Union_0@[11].fields@);
            assert(shape_fields(r->Union_0@[11].fields@) =~= seq![
                FieldV { name: "id"@, doc: "which group"@, shape: ShapeV::Id("group"@), required: true },
            ]);
            lemma_shape_fields_index(r->Union_0@[12].fields@);
            assert(shape_fields(r->Union_0@[12].fields@) =~= seq![
                FieldV { name: "id"@, doc: "which thread"@, shape: ShapeV::Id("thread"@), required: true },
            ]);
            lemma_shape_fields_index(r->Union_0@[13].fields@);
            assert(shape_fields(r->Union_0@[13].fields@) =~= seq![
                FieldV { name: "id"@, doc: "which item"@, shape: ShapeV::Id("inbox-item"@), required: true },
            ]);
            lemma_shape_fields_index(r->Union_0@[14].fields@);
            assert(shape_fields(r->Union_0@[14].fields@) =~= seq![
                FieldV { name: "id"@, doc: "which watch"@, shape: ShapeV::Id("watch"@), required: true },
            ]);
            assert(shape_arms(r->Union_0@) =~= seq![
                ArmShapeV { tag: "cursor"@, doc: "wherever the cursor is — focus-relative, refused over MCP"@, fields: Seq::empty() },
                ArmShapeV { tag: "selection"@, doc: "the live visual selection — focus-relative, refused over MCP"@, fields: Seq::empty() },
                ArmShapeV { tag: "picker-row"@, doc: "the highlighted picker row — focus-relative, refused over MCP"@, fields: Seq::empty() },
                ArmShapeV { tag: "float-row"@, doc: "the highlighted row of the focused float — focus-relative, refused over MCP"@, fields: Seq::empty() },
                ArmShapeV { tag: "buffer"@, doc: "a whole open buffer"@, fields: seq![
                    FieldV { name: "id"@, doc: "which buffer"@, shape: ShapeV::Id("buffer"@), required: true },
                ] },
                ArmShapeV { tag: "file"@, doc: "a file on disk, open or not"@, fields: seq![
                    FieldV { name: "path"@, doc: "workspace-relative path"@, shape: ShapeV::Path, required: true },
                ] },
                ArmShapeV { tag: "explicit"@, doc: "a path and a span, named outright"@, fields: seq![
                    FieldV { name: "path"@, doc: "workspace-relative path"@, shape: ShapeV::Path, required: true },
                    FieldV { name: "span"@, doc: "the span"@, shape: span_shape(), required: true },
                ] },
                ArmShapeV { tag: "region"@, doc: "one region"@, fields: seq![
                    FieldV { name: "id"@, doc: "which region"@, shape: ShapeV::Id("region"@), required: true },
                ] },
                ArmShapeV { tag: "anchor"@, doc: "one anchor and what hangs off it"@, fields: seq![
                    FieldV { name: "id"@, doc: "which anchor"@, shape: ShapeV::Id("anchor"@), required: true },
                ] },
                ArmShapeV { tag: "hunk"@, doc: "one diff hunk"@, fields: seq![
                    FieldV { name: "id"@, doc: "which hunk"@, shape: ShapeV::Id("hunk"@), required: true },
                ] },
                ArmShapeV { tag: "block"@, doc: "a whole review block"@, fields: seq![
                    FieldV { name: "id"@, doc: "which block"@, shape: ShapeV::Id("block"@), required: true },
                ] },
                ArmShapeV { tag: "group"@, doc: "a group inside a review block"@, fields: seq![
                    FieldV { name: "id"@, doc: "which group"@, shape: ShapeV::Id("group"@), required: true },
                ] },
                ArmShapeV { tag: "thread"@, doc: "one anchored exchange"@, fields: seq![
                    FieldV { name: "id"@, doc: "which thread"@, shape: ShapeV::Id("thread"@), required: true },
                ] },
                ArmShapeV { tag: "inbox-item"@, doc: "one inbox item"@, fields: seq![
                    FieldV { name: "id"@, doc: "which item"@, shape: ShapeV::Id("inbox-item"@), required: true },
                ] },
                ArmShapeV { tag: "watch"@, doc: "one placed watch"@, fields: seq![
                    FieldV { name: "id"@, doc: "which watch"@, shape: ShapeV::Id("watch"@), required: true },
                ] },
            ]);
        }
        r
    }
}

impl PaneRef {
    /// The declared shape every door renders this as.
    pub fn wire_type() -> (r: ParamType)
        ensures
            shape(r) == pane_ref_shape(),
    {
        let r = ParamType::Union(vec![
            arm("focused", "the pane that has focus", Vec::new()),
            arm("id", "a named pane", vec![
                param("id", "which pane", ParamType::Id("pane"), true),
            ]),
            arm("direction", "the pane in a compass direction from the focused one", vec![
                param("direction", "which way", Direction::wire_type(), true),
            ]),
            arm("next", "the next pane in cycle order", Vec::new()),
            arm("prev", "the previous pane in cycle order", Vec::new()),
        ]);
        proof {
            lemma_shape_arms_index(r->Union_0@);
            lemma_shape_fields_index(r->Union_0@[0].fields@);
            assert(shape_fields(r->Union_0@[0].fields@) =~= Seq::empty());
            lemma_shape_fields_index(r->Union_0@[1].fields@);
            assert(shape_fields(r->Union_0@[1].fields@) =~= seq![
                FieldV { name: "id"@, doc: "which pane"@, shape: ShapeV::Id("pane"@), required: true },
            ]);
            lemma_shape_fields_index(r->Union_0@[2].fields@);
            assert(shape_fields(r->Union_0@[2].fields@) =~= seq![
                FieldV { name: "direction"@, doc: "which way"@, shape: direction_shape(), required: true },
            ]);
            lemma_shape_fields_index(r->Union_0@[3].fields@);
            assert(shape_fields(r->Union_0@[3].fields@) =~= Seq::empty());
            lemma_shape_fields_index(r->Union_0@[4].fields@);
            assert(shape_fields(r->Union_0@[4].fields@) =~= Seq::empty());
            assert(shape_arms(r->Union_0@) =~= seq![
                ArmShapeV { tag: "focused"@, doc: "the pane that has focus"@, fields: Seq::empty() },
                ArmShapeV { tag: "id"@, doc: "a named pane"@, fields: seq![
                    FieldV { name: "id"@, doc: "which pane"@, shape: ShapeV::Id("pane"@), required: true },
                ] },
                ArmShapeV { tag: "direction"@, doc: "the pane in a compass direction from the focused one"@, fields: seq![
                    FieldV { name: "direction"@, doc: "which way"@, shape: direction_shape(), required: true },
                ] },
                ArmShapeV { tag: "next"@, doc: "the next pane in cycle order"@, fields: Seq::empty() },
                ArmShapeV { tag: "prev"@, doc: "the previous pane in cycle order"@, fields: Seq::empty() },
            ]);
        }
        r
    }
}

impl Direction {
    /// The declared shape every door renders this as.
    pub fn wire_type() -> (r: ParamType)
        ensures
            shape(r) == direction_shape(),
    {
        let r = ParamType::Choice(vec!["up", "down", "left", "right"]);
        proof {
            assert(strs_view(r->Choice_0@) =~= seq!["up"@, "down"@, "left"@, "right"@]);
        }
        r
    }
}

impl Seek {
    /// The declared shape every door renders this as.
    pub fn wire_type() -> (r: ParamType)
        ensures
            shape(r) == seek_shape(),
    {
        let r = ParamType::Choice(vec!["next", "prev", "first", "last"]);
        proof {
            assert(strs_view(r->Choice_0@) =~= seq!["next"@, "prev"@, "first"@, "last"@]);
        }
        r
    }
}

impl ScrollRequest {
    /// The declared shape every door renders this as.
    pub fn wire_type() -> (r: ParamType)
        ensures
            shape(r) == scroll_request_shape(),
    {
        let r = ParamType::Union(vec![
            arm("rows", "relative, in rows; negative scrolls towards the top", vec![
                param("rows", "how many rows", ParamType::Int, true),
            ]),
            arm("pages", "relative, in screenfuls", vec![
                param("pages", "how many screenfuls", ParamType::Int, true),
            ]),
            arm("columns", "relative, in columns; negative scrolls left", vec![
                param("columns", "how many columns", ParamType::Int, true),
            ]),
            arm("to-row", "absolute: put this visual row at the top", vec![
                param("row", "1-based visual row", ParamType::Uint, true),
            ]),
            arm("to-top", "the first screenful", Vec::new()),
            arm("to-bottom", "the last screenful", Vec::new()),
            arm("reveal-row", "bring a row into view, moving as little as possible", vec![
                param("row", "1-based visual row", ParamType::Uint, true),
                param("margin", "rows of context to keep", ParamType::Uint, true),
            ]),
        ]);
        proof {
            lemma_shape_arms_index(r->Union_0@);
            lemma_shape_fields_index(r->Union_0@[0].fields@);
            assert(shape_fields(r->Union_0@[0].fields@) =~= seq![
                FieldV { name: "rows"@, doc: "how many rows"@, shape: ShapeV::Int, required: true },
            ]);
            lemma_shape_fields_index(r->Union_0@[1].fields@);
            assert(shape_fields(r->Union_0@[1].fields@) =~= seq![
                FieldV { name: "pages"@, doc: "how many screenfuls"@, shape: ShapeV::Int, required: true },
            ]);
            lemma_shape_fields_index(r->Union_0@[2].fields@);
            assert(shape_fields(r->Union_0@[2].fields@) =~= seq![
                FieldV { name: "columns"@, doc: "how many columns"@, shape: ShapeV::Int, required: true },
            ]);
            lemma_shape_fields_index(r->Union_0@[3].fields@);
            assert(shape_fields(r->Union_0@[3].fields@) =~= seq![
                FieldV { name: "row"@, doc: "1-based visual row"@, shape: ShapeV::Uint, required: true },
            ]);
            lemma_shape_fields_index(r->Union_0@[4].fields@);
            assert(shape_fields(r->Union_0@[4].fields@) =~= Seq::empty());
            lemma_shape_fields_index(r->Union_0@[5].fields@);
            assert(shape_fields(r->Union_0@[5].fields@) =~= Seq::empty());
            lemma_shape_fields_index(r->Union_0@[6].fields@);
            assert(shape_fields(r->Union_0@[6].fields@) =~= seq![
                FieldV { name: "row"@, doc: "1-based visual row"@, shape: ShapeV::Uint, required: true },
                FieldV { name: "margin"@, doc: "rows of context to keep"@, shape: ShapeV::Uint, required: true },
            ]);
            assert(shape_arms(r->Union_0@) =~= seq![
                ArmShapeV { tag: "rows"@, doc: "relative, in rows; negative scrolls towards the top"@, fields: seq![
                    FieldV { name: "rows"@, doc: "how many rows"@, shape: ShapeV::Int, required: true },
                ] },
                ArmShapeV { tag: "pages"@, doc: "relative, in screenfuls"@, fields: seq![
                    FieldV { name: "pages"@, doc: "how many screenfuls"@, shape: ShapeV::Int, required: true },
                ] },
                ArmShapeV { tag: "columns"@, doc: "relative, in columns; negative scrolls left"@, fields: seq![
                    FieldV { name: "columns"@, doc: "how many columns"@, shape: ShapeV::Int, required: true },
                ] },
                ArmShapeV { tag: "to-row"@, doc: "absolute: put this visual row at the top"@, fields: seq![
                    FieldV { name: "row"@, doc: "1-based visual row"@, shape: ShapeV::Uint, required: true },
                ] },
                ArmShapeV { tag: "to-top"@, doc: "the first screenful"@, fields: Seq::empty() },
                ArmShapeV { tag: "to-bottom"@, doc: "the last screenful"@, fields: Seq::empty() },
                ArmShapeV { tag: "reveal-row"@, doc: "bring a row into view, moving as little as possible"@, fields: seq![
                    FieldV { name: "row"@, doc: "1-based visual row"@, shape: ShapeV::Uint, required: true },
                    FieldV { name: "margin"@, doc: "rows of context to keep"@, shape: ShapeV::Uint, required: true },
                ] },
            ]);
        }
        r
    }
}

impl EditMode {
    /// The declared shape every door renders this as.
    pub fn wire_type() -> (r: ParamType)
        ensures
            shape(r) == edit_mode_shape(),
    {
        let r = ParamType::Choice(vec!["normal", "insert", "visual-char", "visual-line", "visual-block", "replace", "operator-pending"]);
        proof {
            assert(strs_view(r->Choice_0@) =~= seq!["normal"@, "insert"@, "visual-char"@, "visual-line"@, "visual-block"@, "replace"@, "operator-pending"@]);
        }
        r
    }
}

impl Motion {
    /// The declared shape every door renders this as.
    pub fn wire_type() -> (r: ParamType)
        ensures
            shape(r) == motion_shape(),
    {
        let r = ParamType::Choice(vec!["char-left", "char-right", "line-up", "line-down", "word-forward", "word-backward", "word-end", "big-word-forward", "big-word-backward", "big-word-end", "find-char-forward", "find-char-backward", "till-char-forward", "till-char-backward", "repeat-find", "repeat-find-reverse", "line-start", "first-non-blank", "line-end", "buffer-start", "buffer-end", "paragraph-forward", "paragraph-backward", "matching-bracket", "screen-top", "screen-middle", "screen-bottom", "half-page-down", "half-page-up", "search-next", "search-prev"]);
        proof {
            assert(strs_view(r->Choice_0@) =~= seq!["char-left"@, "char-right"@, "line-up"@, "line-down"@, "word-forward"@, "word-backward"@, "word-end"@, "big-word-forward"@, "big-word-backward"@, "big-word-end"@, "find-char-forward"@, "find-char-backward"@, "till-char-forward"@, "till-char-backward"@, "repeat-find"@, "repeat-find-reverse"@, "line-start"@, "first-non-blank"@, "line-end"@, "buffer-start"@, "buffer-end"@, "paragraph-forward"@, "paragraph-backward"@, "matching-bracket"@, "screen-top"@, "screen-middle"@, "screen-bottom"@, "half-page-down"@, "half-page-up"@, "search-next"@, "search-prev"@]);
        }
        r
    }
}

impl TextObject {
    /// The declared shape every door renders this as.
    pub fn wire_type() -> (r: ParamType)
        ensures
            shape(r) == text_object_shape(),
    {
        let r = ParamType::Choice(vec!["word", "big-word", "sentence", "paragraph", "delimited", "tag", "unseen-region", "hunk", "thread", "block"]);
        proof {
            assert(strs_view(r->Choice_0@) =~= seq!["word"@, "big-word"@, "sentence"@, "paragraph"@, "delimited"@, "tag"@, "unseen-region"@, "hunk"@, "thread"@, "block"@]);
        }
        r
    }
}

impl SelectionKind {
    /// The declared shape every door renders this as.
    pub fn wire_type() -> (r: ParamType)
        ensures
            shape(r) == selection_kind_shape(),
    {
        let r = ParamType::Choice(vec!["char", "line", "block"]);
        proof {
            assert(strs_view(r->Choice_0@) =~= seq!["char"@, "line"@, "block"@]);
        }
        r
    }
}

impl CaseChange {
    /// The declared shape every door renders this as.
    pub fn wire_type() -> (r: ParamType)
        ensures
            shape(r) == case_change_shape(),
    {
        let r = ParamType::Choice(vec!["upper", "lower", "toggle"]);
        proof {
            assert(strs_view(r->Choice_0@) =~= seq!["upper"@, "lower"@, "toggle"@]);
        }
        r
    }
}

impl Binding {
    /// The declared shape every door renders this as.
    pub fn wire_type() -> (r: ParamType)
        ensures
            shape(r) == binding_shape(),
    {
        let r = ParamType::Union(vec![
            arm("capability", "a registered capability, by door name", vec![
                param("name", "the door name", ParamType::Text, true),
                param("args", "its arguments", ParamType::Any, true),
            ]),
            arm("source", "scheme source text, evaluated when the key fires", vec![
                param("source", "the source text", ParamType::Text, true),
            ]),
        ]);
        proof {
            lemma_shape_arms_index(r->Union_0@);
            lemma_shape_fields_index(r->Union_0@[0].fields@);
            assert(shape_fields(r->Union_0@[0].fields@) =~= seq![
                FieldV { name: "name"@, doc: "the door name"@, shape: ShapeV::Text, required: true },
                FieldV { name: "args"@, doc: "its arguments"@, shape: ShapeV::Any, required: true },
            ]);
            lemma_shape_fields_index(r->Union_0@[1].fields@);
            assert(shape_fields(r->Union_0@[1].fields@) =~= seq![
                FieldV { name: "source"@, doc: "the source text"@, shape: ShapeV::Text, required: true },
            ]);
            assert(shape_arms(r->Union_0@) =~= seq![
                ArmShapeV { tag: "capability"@, doc: "a registered capability, by door name"@, fields: seq![
                    FieldV { name: "name"@, doc: "the door name"@, shape: ShapeV::Text, required: true },
                    FieldV { name: "args"@, doc: "its arguments"@, shape: ShapeV::Any, required: true },
                ] },
                ArmShapeV { tag: "source"@, doc: "scheme source text, evaluated when the key fires"@, fields: seq![
                    FieldV { name: "source"@, doc: "the source text"@, shape: ShapeV::Text, required: true },
                ] },
            ]);
        }
        r
    }
}

impl RegionSpec {
    /// The declared shape every door renders this as.
    pub fn wire_type() -> (r: ParamType)
        ensures
            shape(r) == region_spec_shape(),
    {
        let r = ParamType::Record(vec![
            param("path", "workspace-relative path", ParamType::Path, true),
            param("span", "the span the region covers", Span::wire_type(), true),
            param("author", "who is claimed to have written it", Actor::wire_type(), true),
        ]);
        proof {
            lemma_shape_fields_index(r->Record_0@);
            assert(shape_fields(r->Record_0@) =~= seq![
                FieldV { name: "path"@, doc: "workspace-relative path"@, shape: ShapeV::Path, required: true },
                FieldV { name: "span"@, doc: "the span the region covers"@, shape: span_shape(), required: true },
                FieldV { name: "author"@, doc: "who is claimed to have written it"@, shape: actor_shape(), required: true },
            ]);
        }
        r
    }
}

impl FileGroup {
    /// The declared shape every door renders this as.
    pub fn wire_type() -> (r: ParamType)
        ensures
            shape(r) == file_group_shape(),
    {
        let r = ParamType::Record(vec![
            param("path", "workspace-relative path", ParamType::Path, true),
            param("spans", "the spans that changed", ParamType::List(Box::new(Span::wire_type())), true),
            param("annotation", "the agent's note about this group", ParamType::Text, false),
        ]);
        proof {
            lemma_shape_fields_index(r->Record_0@);
            assert(shape_fields(r->Record_0@) =~= seq![
                FieldV { name: "path"@, doc: "workspace-relative path"@, shape: ShapeV::Path, required: true },
                FieldV { name: "spans"@, doc: "the spans that changed"@, shape: ShapeV::List(Box::new(span_shape())), required: true },
                FieldV { name: "annotation"@, doc: "the agent's note about this group"@, shape: ShapeV::Text, required: false },
            ]);
        }
        r
    }
}

impl AskOption {
    /// The declared shape every door renders this as.
    pub fn wire_type() -> (r: ParamType)
        ensures
            shape(r) == ask_option_shape(),
    {
        let r = ParamType::Record(vec![
            param("digit", "the digit that answers it, 1-based", ParamType::Uint, true),
            param("label", "the option's label", ParamType::Text, true),
        ]);
        proof {
            lemma_shape_fields_index(r->Record_0@);
            assert(shape_fields(r->Record_0@) =~= seq![
                FieldV { name: "digit"@, doc: "the digit that answers it, 1-based"@, shape: ShapeV::Uint, required: true },
                FieldV { name: "label"@, doc: "the option's label"@, shape: ShapeV::Text, required: true },
            ]);
        }
        r
    }
}

impl Severity {
    /// The declared shape every door renders this as.
    pub fn wire_type() -> (r: ParamType)
        ensures
            shape(r) == severity_shape(),
    {
        let r = ParamType::Choice(vec!["info", "attention", "trouble"]);
        proof {
            assert(strs_view(r->Choice_0@) =~= seq!["info"@, "attention"@, "trouble"@]);
        }
        r
    }
}

impl Diagnostic {
    /// The declared shape every door renders this as.
    pub fn wire_type() -> (r: ParamType)
        ensures
            shape(r) == diagnostic_shape(),
    {
        let r = ParamType::Record(vec![
            param("span", "where the diagnostic applies", Span::wire_type(), true),
            param("severity", "how bad it is", Severity::wire_type(), true),
            param("message", "what the server said", ParamType::Text, true),
            param("source", "which server or linter said it", ParamType::Text, false),
        ]);
        proof {
            lemma_shape_fields_index(r->Record_0@);
            assert(shape_fields(r->Record_0@) =~= seq![
                FieldV { name: "span"@, doc: "where the diagnostic applies"@, shape: span_shape(), required: true },
                FieldV { name: "severity"@, doc: "how bad it is"@, shape: severity_shape(), required: true },
                FieldV { name: "message"@, doc: "what the server said"@, shape: ShapeV::Text, required: true },
                FieldV { name: "source"@, doc: "which server or linter said it"@, shape: ShapeV::Text, required: false },
            ]);
        }
        r
    }
}

impl CharRange {
    /// The declared shape every door renders this as.
    pub fn wire_type() -> (r: ParamType)
        ensures
            shape(r) == char_range_shape(),
    {
        let r = ParamType::Record(vec![
            param("start", "first character inside the range, 0-based", ParamType::Uint, true),
            param("end", "first character after the range", ParamType::Uint, true),
        ]);
        proof {
            lemma_shape_fields_index(r->Record_0@);
            assert(shape_fields(r->Record_0@) =~= seq![
                FieldV { name: "start"@, doc: "first character inside the range, 0-based"@, shape: ShapeV::Uint, required: true },
                FieldV { name: "end"@, doc: "first character after the range"@, shape: ShapeV::Uint, required: true },
            ]);
        }
        r
    }
}

impl Completion {
    /// The declared shape every door renders this as.
    pub fn wire_type() -> (r: ParamType)
        ensures
            shape(r) == completion_shape(),
    {
        let r = ParamType::Record(vec![
            param("label", "what the list shows", ParamType::Text, true),
            param("detail", "the type or shape, drawn right of the label", ParamType::Text, false),
            param("documentation", "this item's documentation, one row per line", ParamType::List(Box::new(ParamType::Text)), true),
            param("insert", "what to type when it is accepted", ParamType::Text, true),
        ]);
        proof {
            assert(shape(ParamType::Text) == ShapeV::Text);
            lemma_shape_fields_index(r->Record_0@);
            assert(shape_fields(r->Record_0@) =~= seq![
                FieldV { name: "label"@, doc: "what the list shows"@, shape: ShapeV::Text, required: true },
                FieldV { name: "detail"@, doc: "the type or shape, drawn right of the label"@, shape: ShapeV::Text, required: false },
                FieldV { name: "documentation"@, doc: "this item's documentation, one row per line"@, shape: ShapeV::List(Box::new(ShapeV::Text)), required: true },
                FieldV { name: "insert"@, doc: "what to type when it is accepted"@, shape: ShapeV::Text, required: true },
            ]);
        }
        r
    }
}

impl Signature {
    /// The declared shape every door renders this as.
    pub fn wire_type() -> (r: ParamType)
        ensures
            shape(r) == signature_shape(),
    {
        let r = ParamType::Record(vec![
            param("label", "the callable as the server spells it", ParamType::Text, true),
            param("active", "the parameter the cursor is inside, as characters into the label", CharRange::wire_type(), false),
            param("documentation", "documentation, one row per line", ParamType::List(Box::new(ParamType::Text)), true),
        ]);
        proof {
            assert(shape(ParamType::Text) == ShapeV::Text);
            lemma_shape_fields_index(r->Record_0@);
            assert(shape_fields(r->Record_0@) =~= seq![
                FieldV { name: "label"@, doc: "the callable as the server spells it"@, shape: ShapeV::Text, required: true },
                FieldV { name: "active"@, doc: "the parameter the cursor is inside, as characters into the label"@, shape: char_range_shape(), required: false },
                FieldV { name: "documentation"@, doc: "documentation, one row per line"@, shape: ShapeV::List(Box::new(ShapeV::Text)), required: true },
            ]);
        }
        r
    }
}

impl Edit {
    /// The declared shape every door renders this as.
    pub fn wire_type() -> (r: ParamType)
        ensures
            shape(r) == edit_shape(),
    {
        let r = ParamType::Record(vec![
            param("span", "the span being replaced", Span::wire_type(), true),
            param("text", "the replacement; empty deletes", ParamType::Text, true),
        ]);
        proof {
            lemma_shape_fields_index(r->Record_0@);
            assert(shape_fields(r->Record_0@) =~= seq![
                FieldV { name: "span"@, doc: "the span being replaced"@, shape: span_shape(), required: true },
                FieldV { name: "text"@, doc: "the replacement; empty deletes"@, shape: ShapeV::Text, required: true },
            ]);
        }
        r
    }
}

impl DiffMode {
    /// The declared shape every door renders this as.
    pub fn wire_type() -> (r: ParamType)
        ensures
            shape(r) == diff_mode_shape(),
    {
        let r = ParamType::Choice(vec!["unified", "side-by-side"]);
        proof {
            assert(strs_view(r->Choice_0@) =~= seq!["unified"@, "side-by-side"@]);
        }
        r
    }
}

impl Grouping {
    /// The declared shape every door renders this as.
    pub fn wire_type() -> (r: ParamType)
        ensures
            shape(r) == grouping_shape(),
    {
        let r = ParamType::Choice(vec!["directory", "flat"]);
        proof {
            assert(strs_view(r->Choice_0@) =~= seq!["directory"@, "flat"@]);
        }
        r
    }
}

impl FoldState {
    /// The declared shape every door renders this as.
    pub fn wire_type() -> (r: ParamType)
        ensures
            shape(r) == fold_state_shape(),
    {
        let r = ParamType::Choice(vec!["folded", "unfolded", "toggle"]);
        proof {
            assert(strs_view(r->Choice_0@) =~= seq!["folded"@, "unfolded"@, "toggle"@]);
        }
        r
    }
}

impl GrantScope {
    /// The declared shape every door renders this as.
    pub fn wire_type() -> (r: ParamType)
        ensures
            shape(r) == grant_scope_shape(),
    {
        let r = ParamType::Choice(vec!["once", "always"]);
        proof {
            assert(strs_view(r->Choice_0@) =~= seq!["once"@, "always"@]);
        }
        r
    }
}

impl AcceptHow {
    /// The declared shape every door renders this as.
    pub fn wire_type() -> (r: ParamType)
        ensures
            shape(r) == accept_how_shape(),
    {
        let r = ParamType::Choice(vec!["open", "split", "quickfix"]);
        proof {
            assert(strs_view(r->Choice_0@) =~= seq!["open"@, "split"@, "quickfix"@]);
        }
        r
    }
}

impl SeamKind {
    /// The declared shape every door renders this as.
    pub fn wire_type() -> (r: ParamType)
        ensures
            shape(r) == seam_kind_shape(),
    {
        let r = ParamType::Choice(vec!["paused", "lost", "resumed"]);
        proof {
            assert(strs_view(r->Choice_0@) =~= seq!["paused"@, "lost"@, "resumed"@]);
        }
        r
    }
}

impl DiskExit {
    /// The declared shape every door renders this as.
    pub fn wire_type() -> (r: ParamType)
        ensures
            shape(r) == disk_exit_shape(),
    {
        let r = ParamType::Choice(vec!["take-disk", "keep-mine", "ask-agent"]);
        proof {
            assert(strs_view(r->Choice_0@) =~= seq!["take-disk"@, "keep-mine"@, "ask-agent"@]);
        }
        r
    }
}

impl PaneKind {
    /// The declared shape every door renders this as.
    pub fn wire_type() -> (r: ParamType)
        ensures
            shape(r) == pane_kind_shape(),
    {
        let r = ParamType::Choice(vec!["buffer", "transcript", "custom"]);
        proof {
            assert(strs_view(r->Choice_0@) =~= seq!["buffer"@, "transcript"@, "custom"@]);
        }
        r
    }
}

impl Sequence {
    /// The declared shape every door renders this as.
    pub fn wire_type() -> (r: ParamType)
        ensures
            shape(r) == sequence_shape(),
    {
        let r = ParamType::Choice(vec!["unseen-region", "hunk", "block-file", "diagnostic", "thread", "ask", "search-match", "jump"]);
        proof {
            assert(strs_view(r->Choice_0@) =~= seq!["unseen-region"@, "hunk"@, "block-file"@, "diagnostic"@, "thread"@, "ask"@, "search-match"@, "jump"@]);
        }
        r
    }
}

impl PromptKind {
    /// The declared shape every door renders this as.
    pub fn wire_type() -> (r: ParamType)
        ensures
            shape(r) == prompt_kind_shape(),
    {
        let r = ParamType::Choice(vec!["ex", "agent", "search"]);
        proof {
            assert(strs_view(r->Choice_0@) =~= seq!["ex"@, "agent"@, "search"@]);
        }
        r
    }
}

impl FileEdits {
    /// The declared shape every door renders this as.
    pub fn wire_type() -> (r: ParamType)
        ensures
            shape(r) == file_edits_shape(),
    {
        let r = ParamType::Record(vec![
            param("path", "workspace-relative path", ParamType::Path, true),
            param("edits", "the edits, in order", ParamType::List(Box::new(Edit::wire_type())), true),
        ]);
        proof {
            lemma_shape_fields_index(r->Record_0@);
            assert(shape_fields(r->Record_0@) =~= seq![
                FieldV { name: "path"@, doc: "workspace-relative path"@, shape: ShapeV::Path, required: true },
                FieldV { name: "edits"@, doc: "the edits, in order"@, shape: ShapeV::List(Box::new(edit_shape())), required: true },
            ]);
        }
        r
    }
}

impl LanguageSpec {
    /// The declared shape every door renders this as.
    pub fn wire_type() -> (r: ParamType)
        ensures
            shape(r) == language_spec_shape(),
    {
        let r = ParamType::Record(vec![
            param("extensions", "file extensions, without the dot", ParamType::List(Box::new(ParamType::Text)), true),
            param("grammar", "tree-sitter grammar name; absent, or unknown to this build, means second tier", ParamType::Text, false),
            param("lsp_command", "language server command and arguments; empty means none", ParamType::List(Box::new(ParamType::Text)), true),
            param("comment_prefix", "line-comment prefix, for toggle-comment", ParamType::Text, false),
        ]);
        proof {
            assert(shape(ParamType::Text) == ShapeV::Text);
            lemma_shape_fields_index(r->Record_0@);
            assert(shape_fields(r->Record_0@) =~= seq![
                FieldV { name: "extensions"@, doc: "file extensions, without the dot"@, shape: ShapeV::List(Box::new(ShapeV::Text)), required: true },
                FieldV { name: "grammar"@, doc: "tree-sitter grammar name; absent, or unknown to this build, means second tier"@, shape: ShapeV::Text, required: false },
                FieldV { name: "lsp_command"@, doc: "language server command and arguments; empty means none"@, shape: ShapeV::List(Box::new(ShapeV::Text)), required: true },
                FieldV { name: "comment_prefix"@, doc: "line-comment prefix, for toggle-comment"@, shape: ShapeV::Text, required: false },
            ]);
        }
        r
    }
}

impl Tier {
    /// The declared shape every door renders this as.
    pub fn wire_type() -> (r: ParamType)
        ensures
            shape(r) == tier_shape(),
    {
        let r = ParamType::Choice(vec!["first-class", "second-tier"]);
        proof {
            assert(strs_view(r->Choice_0@) =~= seq!["first-class"@, "second-tier"@]);
        }
        r
    }
}

impl RegionFilter {
    /// The declared shape every door renders this as.
    pub fn wire_type() -> (r: ParamType)
        ensures
            shape(r) == region_filter_shape(),
    {
        let r = ParamType::Record(vec![
            param("author", "only regions by this author", Actor::wire_type(), false),
            param("unseen_only", "only unseen regions", ParamType::Bool, true),
            param("within", "only regions inside this target", Target::wire_type(), false),
        ]);
        proof {
            lemma_shape_fields_index(r->Record_0@);
            assert(shape_fields(r->Record_0@) =~= seq![
                FieldV { name: "author"@, doc: "only regions by this author"@, shape: actor_shape(), required: false },
                FieldV { name: "unseen_only"@, doc: "only unseen regions"@, shape: ShapeV::Bool, required: true },
                FieldV { name: "within"@, doc: "only regions inside this target"@, shape: target_shape(), required: false },
            ]);
        }
        r
    }
}


// ---------------------------------------------------------------------------
// Shapes on the wire
// ---------------------------------------------------------------------------

/// The shape of [`Position`] on the wire.
pub open spec fn position_shape() -> ShapeV {
    ShapeV::Record(seq![
        FieldV { name: "line"@, doc: "1-based line number"@, shape: ShapeV::Uint, required: true },
        FieldV { name: "column"@, doc: "1-based column, counted in characters"@, shape: ShapeV::Uint, required: true },
    ])
}

/// The shape of [`Span`] on the wire.
pub open spec fn span_shape() -> ShapeV {
    ShapeV::Record(seq![
        FieldV { name: "start"@, doc: "first position inside the span"@, shape: position_shape(), required: true },
        FieldV { name: "end"@, doc: "first position after the span"@, shape: position_shape(), required: true },
    ])
}

/// The shape of [`FileSpan`] on the wire.
pub open spec fn file_span_shape() -> ShapeV {
    ShapeV::Record(seq![
        FieldV { name: "path"@, doc: "workspace-relative path"@, shape: ShapeV::Path, required: true },
        FieldV { name: "span"@, doc: "the span, or absent for the whole file"@, shape: span_shape(), required: false },
    ])
}

/// The shape of [`Actor`] on the wire.
pub open spec fn actor_shape() -> ShapeV {
    ShapeV::Choice(seq!["you"@, "agent"@, "steel"@, "cli"@, "system"@])
}

/// The shape of [`Target`] on the wire.
pub open spec fn target_shape() -> ShapeV {
    ShapeV::Union(seq![
        ArmShapeV { tag: "cursor"@, doc: "wherever the cursor is — focus-relative, refused over MCP"@, fields: Seq::empty() },
        ArmShapeV { tag: "selection"@, doc: "the live visual selection — focus-relative, refused over MCP"@, fields: Seq::empty() },
        ArmShapeV { tag: "picker-row"@, doc: "the highlighted picker row — focus-relative, refused over MCP"@, fields: Seq::empty() },
        ArmShapeV { tag: "float-row"@, doc: "the highlighted row of the focused float — focus-relative, refused over MCP"@, fields: Seq::empty() },
        ArmShapeV { tag: "buffer"@, doc: "a whole open buffer"@, fields: seq![
            FieldV { name: "id"@, doc: "which buffer"@, shape: ShapeV::Id("buffer"@), required: true },
        ] },
        ArmShapeV { tag: "file"@, doc: "a file on disk, open or not"@, fields: seq![
            FieldV { name: "path"@, doc: "workspace-relative path"@, shape: ShapeV::Path, required: true },
        ] },
        ArmShapeV { tag: "explicit"@, doc: "a path and a span, named outright"@, fields: seq![
            FieldV { name: "path"@, doc: "workspace-relative path"@, shape: ShapeV::Path, required: true },
            FieldV { name: "span"@, doc: "the span"@, shape: span_shape(), required: true },
        ] },
        ArmShapeV { tag: "region"@, doc: "one region"@, fields: seq![
            FieldV { name: "id"@, doc: "which region"@, shape: ShapeV::Id("region"@), required: true },
        ] },
        ArmShapeV { tag: "anchor"@, doc: "one anchor and what hangs off it"@, fields: seq![
            FieldV { name: "id"@, doc: "which anchor"@, shape: ShapeV::Id("anchor"@), required: true },
        ] },
        ArmShapeV { tag: "hunk"@, doc: "one diff hunk"@, fields: seq![
            FieldV { name: "id"@, doc: "which hunk"@, shape: ShapeV::Id("hunk"@), required: true },
        ] },
        ArmShapeV { tag: "block"@, doc: "a whole review block"@, fields: seq![
            FieldV { name: "id"@, doc: "which block"@, shape: ShapeV::Id("block"@), required: true },
        ] },
        ArmShapeV { tag: "group"@, doc: "a group inside a review block"@, fields: seq![
            FieldV { name: "id"@, doc: "which group"@, shape: ShapeV::Id("group"@), required: true },
        ] },
        ArmShapeV { tag: "thread"@, doc: "one anchored exchange"@, fields: seq![
            FieldV { name: "id"@, doc: "which thread"@, shape: ShapeV::Id("thread"@), required: true },
        ] },
        ArmShapeV { tag: "inbox-item"@, doc: "one inbox item"@, fields: seq![
            FieldV { name: "id"@, doc: "which item"@, shape: ShapeV::Id("inbox-item"@), required: true },
        ] },
        ArmShapeV { tag: "watch"@, doc: "one placed watch"@, fields: seq![
            FieldV { name: "id"@, doc: "which watch"@, shape: ShapeV::Id("watch"@), required: true },
        ] },
    ])
}

/// The shape of [`PaneRef`] on the wire.
pub open spec fn pane_ref_shape() -> ShapeV {
    ShapeV::Union(seq![
        ArmShapeV { tag: "focused"@, doc: "the pane that has focus"@, fields: Seq::empty() },
        ArmShapeV { tag: "id"@, doc: "a named pane"@, fields: seq![
            FieldV { name: "id"@, doc: "which pane"@, shape: ShapeV::Id("pane"@), required: true },
        ] },
        ArmShapeV { tag: "direction"@, doc: "the pane in a compass direction from the focused one"@, fields: seq![
            FieldV { name: "direction"@, doc: "which way"@, shape: direction_shape(), required: true },
        ] },
        ArmShapeV { tag: "next"@, doc: "the next pane in cycle order"@, fields: Seq::empty() },
        ArmShapeV { tag: "prev"@, doc: "the previous pane in cycle order"@, fields: Seq::empty() },
    ])
}

/// The shape of [`Direction`] on the wire.
pub open spec fn direction_shape() -> ShapeV {
    ShapeV::Choice(seq!["up"@, "down"@, "left"@, "right"@])
}

/// The shape of [`Seek`] on the wire.
pub open spec fn seek_shape() -> ShapeV {
    ShapeV::Choice(seq!["next"@, "prev"@, "first"@, "last"@])
}

/// The shape of [`ScrollRequest`] on the wire.
pub open spec fn scroll_request_shape() -> ShapeV {
    ShapeV::Union(seq![
        ArmShapeV { tag: "rows"@, doc: "relative, in rows; negative scrolls towards the top"@, fields: seq![
            FieldV { name: "rows"@, doc: "how many rows"@, shape: ShapeV::Int, required: true },
        ] },
        ArmShapeV { tag: "pages"@, doc: "relative, in screenfuls"@, fields: seq![
            FieldV { name: "pages"@, doc: "how many screenfuls"@, shape: ShapeV::Int, required: true },
        ] },
        ArmShapeV { tag: "columns"@, doc: "relative, in columns; negative scrolls left"@, fields: seq![
            FieldV { name: "columns"@, doc: "how many columns"@, shape: ShapeV::Int, required: true },
        ] },
        ArmShapeV { tag: "to-row"@, doc: "absolute: put this visual row at the top"@, fields: seq![
            FieldV { name: "row"@, doc: "1-based visual row"@, shape: ShapeV::Uint, required: true },
        ] },
        ArmShapeV { tag: "to-top"@, doc: "the first screenful"@, fields: Seq::empty() },
        ArmShapeV { tag: "to-bottom"@, doc: "the last screenful"@, fields: Seq::empty() },
        ArmShapeV { tag: "reveal-row"@, doc: "bring a row into view, moving as little as possible"@, fields: seq![
            FieldV { name: "row"@, doc: "1-based visual row"@, shape: ShapeV::Uint, required: true },
            FieldV { name: "margin"@, doc: "rows of context to keep"@, shape: ShapeV::Uint, required: true },
        ] },
    ])
}

/// The shape of [`EditMode`] on the wire.
pub open spec fn edit_mode_shape() -> ShapeV {
    ShapeV::Choice(seq!["normal"@, "insert"@, "visual-char"@, "visual-line"@, "visual-block"@, "replace"@, "operator-pending"@])
}

/// The shape of [`Motion`] on the wire.
pub open spec fn motion_shape() -> ShapeV {
    ShapeV::Choice(seq!["char-left"@, "char-right"@, "line-up"@, "line-down"@, "word-forward"@, "word-backward"@, "word-end"@, "big-word-forward"@, "big-word-backward"@, "big-word-end"@, "find-char-forward"@, "find-char-backward"@, "till-char-forward"@, "till-char-backward"@, "repeat-find"@, "repeat-find-reverse"@, "line-start"@, "first-non-blank"@, "line-end"@, "buffer-start"@, "buffer-end"@, "paragraph-forward"@, "paragraph-backward"@, "matching-bracket"@, "screen-top"@, "screen-middle"@, "screen-bottom"@, "half-page-down"@, "half-page-up"@, "search-next"@, "search-prev"@])
}

/// The shape of [`TextObject`] on the wire.
pub open spec fn text_object_shape() -> ShapeV {
    ShapeV::Choice(seq!["word"@, "big-word"@, "sentence"@, "paragraph"@, "delimited"@, "tag"@, "unseen-region"@, "hunk"@, "thread"@, "block"@])
}

/// The shape of [`SelectionKind`] on the wire.
pub open spec fn selection_kind_shape() -> ShapeV {
    ShapeV::Choice(seq!["char"@, "line"@, "block"@])
}

/// The shape of [`CaseChange`] on the wire.
pub open spec fn case_change_shape() -> ShapeV {
    ShapeV::Choice(seq!["upper"@, "lower"@, "toggle"@])
}

/// The shape of [`Binding`] on the wire.
pub open spec fn binding_shape() -> ShapeV {
    ShapeV::Union(seq![
        ArmShapeV { tag: "capability"@, doc: "a registered capability, by door name"@, fields: seq![
            FieldV { name: "name"@, doc: "the door name"@, shape: ShapeV::Text, required: true },
            FieldV { name: "args"@, doc: "its arguments"@, shape: ShapeV::Any, required: true },
        ] },
        ArmShapeV { tag: "source"@, doc: "scheme source text, evaluated when the key fires"@, fields: seq![
            FieldV { name: "source"@, doc: "the source text"@, shape: ShapeV::Text, required: true },
        ] },
    ])
}

/// The shape of [`RegionSpec`] on the wire.
pub open spec fn region_spec_shape() -> ShapeV {
    ShapeV::Record(seq![
        FieldV { name: "path"@, doc: "workspace-relative path"@, shape: ShapeV::Path, required: true },
        FieldV { name: "span"@, doc: "the span the region covers"@, shape: span_shape(), required: true },
        FieldV { name: "author"@, doc: "who is claimed to have written it"@, shape: actor_shape(), required: true },
    ])
}

/// The shape of [`FileGroup`] on the wire.
pub open spec fn file_group_shape() -> ShapeV {
    ShapeV::Record(seq![
        FieldV { name: "path"@, doc: "workspace-relative path"@, shape: ShapeV::Path, required: true },
        FieldV { name: "spans"@, doc: "the spans that changed"@, shape: ShapeV::List(Box::new(span_shape())), required: true },
        FieldV { name: "annotation"@, doc: "the agent's note about this group"@, shape: ShapeV::Text, required: false },
    ])
}

/// The shape of [`AskOption`] on the wire.
pub open spec fn ask_option_shape() -> ShapeV {
    ShapeV::Record(seq![
        FieldV { name: "digit"@, doc: "the digit that answers it, 1-based"@, shape: ShapeV::Uint, required: true },
        FieldV { name: "label"@, doc: "the option's label"@, shape: ShapeV::Text, required: true },
    ])
}

/// The shape of [`Severity`] on the wire.
pub open spec fn severity_shape() -> ShapeV {
    ShapeV::Choice(seq!["info"@, "attention"@, "trouble"@])
}

/// The shape of [`Diagnostic`] on the wire.
pub open spec fn diagnostic_shape() -> ShapeV {
    ShapeV::Record(seq![
        FieldV { name: "span"@, doc: "where the diagnostic applies"@, shape: span_shape(), required: true },
        FieldV { name: "severity"@, doc: "how bad it is"@, shape: severity_shape(), required: true },
        FieldV { name: "message"@, doc: "what the server said"@, shape: ShapeV::Text, required: true },
        FieldV { name: "source"@, doc: "which server or linter said it"@, shape: ShapeV::Text, required: false },
    ])
}

/// The shape of [`CharRange`] on the wire.
pub open spec fn char_range_shape() -> ShapeV {
    ShapeV::Record(seq![
        FieldV { name: "start"@, doc: "first character inside the range, 0-based"@, shape: ShapeV::Uint, required: true },
        FieldV { name: "end"@, doc: "first character after the range"@, shape: ShapeV::Uint, required: true },
    ])
}

/// The shape of [`Completion`] on the wire.
pub open spec fn completion_shape() -> ShapeV {
    ShapeV::Record(seq![
        FieldV { name: "label"@, doc: "what the list shows"@, shape: ShapeV::Text, required: true },
        FieldV { name: "detail"@, doc: "the type or shape, drawn right of the label"@, shape: ShapeV::Text, required: false },
        FieldV { name: "documentation"@, doc: "this item's documentation, one row per line"@, shape: ShapeV::List(Box::new(ShapeV::Text)), required: true },
        FieldV { name: "insert"@, doc: "what to type when it is accepted"@, shape: ShapeV::Text, required: true },
    ])
}

/// The shape of [`Signature`] on the wire.
pub open spec fn signature_shape() -> ShapeV {
    ShapeV::Record(seq![
        FieldV { name: "label"@, doc: "the callable as the server spells it"@, shape: ShapeV::Text, required: true },
        FieldV { name: "active"@, doc: "the parameter the cursor is inside, as characters into the label"@, shape: char_range_shape(), required: false },
        FieldV { name: "documentation"@, doc: "documentation, one row per line"@, shape: ShapeV::List(Box::new(ShapeV::Text)), required: true },
    ])
}

/// The shape of [`Edit`] on the wire.
pub open spec fn edit_shape() -> ShapeV {
    ShapeV::Record(seq![
        FieldV { name: "span"@, doc: "the span being replaced"@, shape: span_shape(), required: true },
        FieldV { name: "text"@, doc: "the replacement; empty deletes"@, shape: ShapeV::Text, required: true },
    ])
}

/// The shape of [`DiffMode`] on the wire.
pub open spec fn diff_mode_shape() -> ShapeV {
    ShapeV::Choice(seq!["unified"@, "side-by-side"@])
}

/// The shape of [`Grouping`] on the wire.
pub open spec fn grouping_shape() -> ShapeV {
    ShapeV::Choice(seq!["directory"@, "flat"@])
}

/// The shape of [`FoldState`] on the wire.
pub open spec fn fold_state_shape() -> ShapeV {
    ShapeV::Choice(seq!["folded"@, "unfolded"@, "toggle"@])
}

/// The shape of [`GrantScope`] on the wire.
pub open spec fn grant_scope_shape() -> ShapeV {
    ShapeV::Choice(seq!["once"@, "always"@])
}

/// The shape of [`AcceptHow`] on the wire.
pub open spec fn accept_how_shape() -> ShapeV {
    ShapeV::Choice(seq!["open"@, "split"@, "quickfix"@])
}

/// The shape of [`SeamKind`] on the wire.
pub open spec fn seam_kind_shape() -> ShapeV {
    ShapeV::Choice(seq!["paused"@, "lost"@, "resumed"@])
}

/// The shape of [`DiskExit`] on the wire.
pub open spec fn disk_exit_shape() -> ShapeV {
    ShapeV::Choice(seq!["take-disk"@, "keep-mine"@, "ask-agent"@])
}

/// The shape of [`PaneKind`] on the wire.
pub open spec fn pane_kind_shape() -> ShapeV {
    ShapeV::Choice(seq!["buffer"@, "transcript"@, "custom"@])
}

/// The shape of [`Sequence`] on the wire.
pub open spec fn sequence_shape() -> ShapeV {
    ShapeV::Choice(seq!["unseen-region"@, "hunk"@, "block-file"@, "diagnostic"@, "thread"@, "ask"@, "search-match"@, "jump"@])
}

/// The shape of [`PromptKind`] on the wire.
pub open spec fn prompt_kind_shape() -> ShapeV {
    ShapeV::Choice(seq!["ex"@, "agent"@, "search"@])
}

/// The shape of [`FileEdits`] on the wire.
pub open spec fn file_edits_shape() -> ShapeV {
    ShapeV::Record(seq![
        FieldV { name: "path"@, doc: "workspace-relative path"@, shape: ShapeV::Path, required: true },
        FieldV { name: "edits"@, doc: "the edits, in order"@, shape: ShapeV::List(Box::new(edit_shape())), required: true },
    ])
}

/// The shape of [`LanguageSpec`] on the wire.
pub open spec fn language_spec_shape() -> ShapeV {
    ShapeV::Record(seq![
        FieldV { name: "extensions"@, doc: "file extensions, without the dot"@, shape: ShapeV::List(Box::new(ShapeV::Text)), required: true },
        FieldV { name: "grammar"@, doc: "tree-sitter grammar name; absent, or unknown to this build, means second tier"@, shape: ShapeV::Text, required: false },
        FieldV { name: "lsp_command"@, doc: "language server command and arguments; empty means none"@, shape: ShapeV::List(Box::new(ShapeV::Text)), required: true },
        FieldV { name: "comment_prefix"@, doc: "line-comment prefix, for toggle-comment"@, shape: ShapeV::Text, required: false },
    ])
}

/// The shape of [`Tier`] on the wire.
pub open spec fn tier_shape() -> ShapeV {
    ShapeV::Choice(seq!["first-class"@, "second-tier"@])
}

/// The shape of [`RegionFilter`] on the wire.
pub open spec fn region_filter_shape() -> ShapeV {
    ShapeV::Record(seq![
        FieldV { name: "author"@, doc: "only regions by this author"@, shape: actor_shape(), required: false },
        FieldV { name: "unseen_only"@, doc: "only unseen regions"@, shape: ShapeV::Bool, required: true },
        FieldV { name: "within"@, doc: "only regions inside this target"@, shape: target_shape(), required: false },
    ])
}

// ---------------------------------------------------------------------------
// `path:line` and `path:first-last`
// ---------------------------------------------------------------------------

/// The last index of `c` in `s`, or `-1`.
pub open spec fn last_index_of(s: Seq<char>, c: char) -> int
    decreases s.len(),
{
    if s.len() == 0 {
        -1
    } else if s.last() == c {
        s.len() - 1
    } else {
        last_index_of(s.drop_last(), c)
    }
}

/// The first index of `c` in `s`, or `-1`.
pub open spec fn first_index_of(s: Seq<char>, c: char) -> int
    decreases s.len(),
{
    if s.len() == 0 {
        -1
    } else if s[0] == c {
        0
    } else {
        let r = first_index_of(s.drop_first(), c);
        if r < 0 {
            -1
        } else {
            r + 1
        }
    }
}

/// A `u32` as the standard library reads one: an optional `+`, then one or
/// more decimal digits whose value fits.
pub open spec fn spec_parse_u32(t: Seq<char>) -> Option<u32> {
    let d = if t.len() > 0 && t[0] == '+' { t.drop_first() } else { t };
    if d.len() > 0 && all_digits(d) && digits_value(d) <= u32::MAX {
        Some(digits_value(d) as u32)
    } else {
        None
    }
}

/// `first-last`, split at its first `-`, or one line `n` as `n-n`.
pub open spec fn spec_line_range(lines: Seq<char>) -> Option<(u32, u32)> {
    let j = first_index_of(lines, '-');
    if j >= 0 {
        match (spec_parse_u32(lines.take(j)), spec_parse_u32(lines.skip(j + 1))) {
            (Some(a), Some(b)) => Some((a, b)),
            _ => None,
        }
    } else {
        match spec_parse_u32(lines) {
            Some(a) => Some((a, a)),
            None => None,
        }
    }
}

/// `"path:line"` or `"path:first-last"` as a path and a half-open,
/// whole-line span: split at the last colon, a non-empty path, lines from 1
/// with the last not before the first.
pub open spec fn spec_target_from_text(text: Seq<char>) -> Option<(Seq<char>, Span)> {
    let k = last_index_of(text, ':');
    if k < 0 {
        None
    } else {
        let path = text.take(k);
        if path.len() == 0 {
            None
        } else {
            match spec_line_range(text.skip(k + 1)) {
                None => None,
                Some((first, last)) => if first == 0 || last < first {
                    None
                } else {
                    Some(
                        (
                            path,
                            Span {
                                start: Position { line: first, column: 1 },
                                end: Position { line: if last == u32::MAX { last } else { (last + 1) as u32 }, column: 1 },
                            },
                        ),
                    )
                },
            }
        }
    }
}

proof fn lemma_first_index_found(s: Seq<char>, c: char, i: int)
    requires
        0 <= i < s.len(),
        s[i] == c,
        forall|j: int| 0 <= j < i ==> s[j] != c,
    ensures
        first_index_of(s, c) == i,
    decreases i,
{
    if i > 0 {
        lemma_first_index_found(s.drop_first(), c, i - 1);
    }
}

proof fn lemma_first_index_absent(s: Seq<char>, c: char)
    requires
        forall|j: int| 0 <= j < s.len() ==> s[j] != c,
    ensures
        first_index_of(s, c) == -1,
    decreases s.len(),
{
    if s.len() > 0 {
        lemma_first_index_absent(s.drop_first(), c);
    }
}

/// The characters of `chars` from `a` up to `b`.
fn chars_between(chars: &Vec<char>, a: usize, b: usize) -> (r: Vec<char>)
    requires
        a <= b <= chars@.len(),
    ensures
        r@ == chars@.subrange(a as int, b as int),
{
    let mut out: Vec<char> = Vec::new();
    let mut i: usize = a;
    while i < b
        invariant
            a <= i <= b,
            b <= chars@.len(),
            out@ == chars@.subrange(a as int, i as int),
        decreases b - i,
    {
        out.push(chars[i]);
        i = i + 1;
        assert(out@ =~= chars@.subrange(a as int, i as int));
    }
    out
}

/// Reads a `u32` as the standard library does.
fn parse_u32(t: &Vec<char>) -> (r: Option<u32>)
    ensures
        r == spec_parse_u32(t@),
{
    let start: usize = if t.len() > 0 && t[0] == '+' { 1 } else { 0 };
    let ghost d = if t@.len() > 0 && t@[0] == '+' { t@.drop_first() } else { t@ };
    assert(d =~= t@.skip(start as int));
    match digits_at_most(t, start, 4294967295) {
        Some(n) => Some(n as u32),
        None => None,
    }
}

/// `first-last`, or one line.
fn line_range(lines: &Vec<char>) -> (r: Option<(u32, u32)>)
    ensures
        r == spec_line_range(lines@),
{
    let mut j: usize = 0;
    while j < lines.len()
        invariant
            j <= lines@.len(),
            forall|k: int| 0 <= k < j ==> lines@[k] != '-',
        decreases lines.len() - j,
    {
        if lines[j] == '-' {
            proof {
                lemma_first_index_found(lines@, '-', j as int);
            }
            let first = chars_between(lines, 0, j);
            let last = chars_between(lines, j + 1, lines.len());
            assert(first@ =~= lines@.take(j as int));
            assert(last@ =~= lines@.skip(j + 1));
            return match (parse_u32(&first), parse_u32(&last)) {
                (Some(a), Some(b)) => Some((a, b)),
                _ => None,
            };
        }
        j = j + 1;
    }
    proof {
        lemma_first_index_absent(lines@, '-');
    }
    match parse_u32(lines) {
        Some(a) => Some((a, a)),
        None => None,
    }
}

/// `"path:line"` and `"path:first-last"`, the way a person writes a
/// location, as an explicit target.
pub fn target_from_text(text: &str) -> (r: Option<Target>)
    ensures
        match spec_target_from_text(text@) {
            None => r is None,
            Some((path, span)) => r matches Some(Target::Explicit { path: p, span: s }) && p@ == path && s == span,
        },
{
    let chars = chars_of(text);
    let mut i: usize = chars.len();
    assert(chars@.take(i as int) =~= chars@);
    while i > 0 && chars[i - 1] != ':'
        invariant
            i <= chars@.len(),
            chars@ == text@,
            last_index_of(text@, ':') == last_index_of(chars@.take(i as int), ':'),
        decreases i,
    {
        assert(chars@.take(i as int).drop_last() =~= chars@.take(i - 1));
        i = i - 1;
    }
    if i == 0 {
        assert(chars@.take(0) =~= Seq::<char>::empty());
        return None;
    }
    let k = i - 1;
    assert(last_index_of(text@, ':') == k);
    if k == 0 {
        return None;
    }
    let path = chars_between(&chars, 0, k);
    let lines = chars_between(&chars, k + 1, chars.len());
    assert(path@ =~= text@.take(k as int));
    assert(lines@ =~= text@.skip(k + 1));
    match line_range(&lines) {
        None => None,
        Some((first, last)) => {
            if first == 0 || last < first {
                None
            } else {
                let end = if last == u32::MAX { last } else { last + 1 };
                Some(Target::Explicit {
                    path: string_of(&path),
                    span: Span { start: Position { line: first, column: 1 }, end: Position { line: end, column: 1 } },
                })
            }
        },
    }
}

} // verus!
