//! The single mutation API: every change anywhere in the editor is one of
//! these, whichever door it came through.
//!
//! Each capability has one row in [`actions`]: its door name, domain, phase,
//! MCP default and arguments. [`Action::spec`] finds a variant's row, and
//! [`lemma_every_action_has_its_row`] proves the two never disagree.

use vstd::prelude::*;

use crate::registry::cli::{lemma_shape_fields_index, shape, shape_fields, FieldV, ShapeV};
use crate::request::{accept_how_shape, actor_shape, ask_option_shape, binding_shape, case_change_shape, completion_shape, diagnostic_shape, diff_mode_shape, direction_shape, disk_exit_shape, edit_mode_shape, edit_shape, file_edits_shape, file_group_shape, fold_state_shape, grant_scope_shape, grouping_shape, language_spec_shape, motion_shape, pane_kind_shape, pane_ref_shape, position_shape, prompt_kind_shape, region_filter_shape, region_spec_shape, scroll_request_shape, seam_kind_shape, seek_shape, selection_kind_shape, sequence_shape, severity_shape, signature_shape, span_shape, target_shape, text_object_shape};

use crate::registry::{param, Door, McpPolicy, Param, ParamType, Phase, Since, spec_door_str};
use crate::request::{AcceptHow, Actor, AnchorId, AskId, AskOption, Binding, BlockId, BufferId, CaseChange, ChangeId, CheckpointId, Completion, Diagnostic, DiffMode, Direction, DiskExit, Edit, EditMode, FileEdits, FileGroup, FoldState, GrantScope, GroupId, Grouping, HunkId, InboxId, KeySeq, LanguageId, LanguageSpec, Motion, PaneKind, PaneRef, Position, PromptKind, RegionFilter, RegionSpec, RegisterName, ScrollRequest, SeamKind, Seek, SelectionKind, Sequence, Severity, Signature, SourceId, Span, SurfaceId, Target, TextObject, ThemeSlug, ThreadId, ToolCallId, TurnId, WatchId};
use crate::text_util::{push_str, str_eq};
use crate::value::{Args, Value, WireError};

verus! {

/// One Action's row in the registry.
#[derive(Debug, Clone, PartialEq, Eq)]
pub struct ActionSpec {
    /// The globally unique door name, kebab-case.
    pub name: &'static str,
    /// The domain enum it lives in.
    pub domain: &'static str,
    /// One line, in the product's voice.
    pub doc: &'static str,
    /// The phase and task that implement it.
    pub since: Since,
    /// The MCP door's default policy.
    pub mcp: McpPolicy,
    /// Its arguments, in declaration order.
    pub params: Vec<Param>,
}

#[derive(Debug, Clone, PartialEq, Eq)]
pub enum BufferAction {
    /// inserts text at a position
    Insert {
        /// where to insert
        at: Position,
        /// what to insert
        text: String,
    },
    /// removes a span
    Delete {
        /// the span to remove
        span: Span,
    },
    /// replaces a span with text, in one edit
    Replace {
        /// the span to replace
        span: Span,
        /// what replaces it
        text: String,
    },
    /// applies a batch of edits as one undo group; the primitive T029's log replays
    ApplyEdits {
        /// the edits, in order
        edits: Vec<Edit>,
    },
    /// copies a target into a register — "ay ib
    Yank {
        /// what to copy
        target: Target,
        /// which register; absent means the unnamed one
        register: Option<RegisterName>,
    },
    /// puts a register's contents at a target
    Paste {
        /// where to put it
        at: Target,
        /// which register; absent means the unnamed one
        register: Option<RegisterName>,
        /// put it before the target rather than after
        before: bool,
    },
    /// sets a named register's contents outright
    SetRegister {
        /// which register
        register: RegisterName,
        /// the contents
        text: String,
    },
    /// shifts a target by whole indent levels; negative dedents
    Indent {
        /// what to shift
        target: Target,
        /// levels, negative to dedent
        delta: i64,
    },
    /// types one indent level at the cursor, advancing to the next tabstop
    InsertIndent {},
    /// joins the lines of a target onto one
    JoinLines {
        /// what to join
        target: Target,
    },
    /// upper-cases, lower-cases or toggles the letters of a target — gU, gu, ~
    SetCase {
        /// whose letters
        target: Target,
        /// upper, lower or toggle
        case: CaseChange,
    },
    /// comments or uncomments a target, using the language's own prefix
    ToggleComment {
        /// what to toggle
        target: Target,
    },
    /// re-aligns a delimited file's columns — CSV's bespoke surface, no grammar involved
    AlignColumns {
        /// what to align
        target: Target,
    },
}

#[derive(Debug, Clone, PartialEq, Eq)]
pub enum MotionAction {
    /// moves the cursor by a motion, count times
    MoveCursor {
        /// which motion
        motion: Motion,
        /// how many times; 1 is the plain form
        count: u32,
    },
    /// puts the cursor at an absolute position — what a click and a jump both lower to
    SetCursor {
        /// where
        position: Position,
        /// which buffer; absent means the focused one
        buffer: Option<BufferId>,
    },
    /// selects a span characterwise, linewise or blockwise
    SelectRange {
        /// the span
        span: Span,
        /// characterwise, linewise or blockwise
        kind: SelectionKind,
    },
    /// selects a text object — including the agent nouns u, h, t and b
    SelectObject {
        /// which object
        object: TextObject,
        /// inner (i) rather than around (a)
        inner: bool,
        /// how many, for nesting
        count: u32,
        /// the delimiter, for a delimited object
        delimiter: Option<char>,
    },
    /// extends the live selection by a motion
    ExtendSelection {
        /// which motion
        motion: Motion,
        /// how many times
        count: u32,
    },
    /// drops the selection
    ClearSelection {},
    /// walks a sequence — ]u unseen regions, ]] block files, ]! the ask queue
    GotoSequence {
        /// which sequence
        sequence: Sequence,
        /// next, prev, first or last
        seek: Seek,
        /// narrow it, e.g. to the agent's regions
        filter: Option<RegionFilter>,
    },
    /// opens a file at a position — a picker accept, a transcript tool row, an OSC 8 link
    GotoLocation {
        /// workspace-relative path
        path: String,
        /// where in it; absent means where you last were
        position: Option<Position>,
        /// which pane it lands in
        pane: PaneRef,
    },
    /// jumps to an anchor, which survives the rewrite that moved it
    GotoAnchor {
        /// which anchor, by id
        anchor: Option<AnchorId>,
        /// or by the label place-anchor wrote — m's a-z
        label: Option<String>,
        /// backtick lands on the column, quote lands on the line
        exact: bool,
    },
    /// walks the jumplist
    Jump {
        /// next (forward) or prev (back)
        seek: Seek,
    },
}

#[derive(Debug, Clone, PartialEq, Eq)]
pub enum ViewAction {
    /// moves a viewport, and is the only thing that may — invariant 3's single writer
    Scroll {
        /// what to move, and how far
        request: ScrollRequest,
        /// which pane
        pane: PaneRef,
    },
    /// turns soft wrap on or off; off is the default and ↪ marks continuations
    SetSoftWrap {
        /// which buffer
        target: Target,
        /// on or off
        on: bool,
    },
    /// folds or unfolds at a target — za, a diff hunk, a transcript turn
    SetFold {
        /// what to fold
        target: Target,
        /// folded, unfolded or toggle
        state: FoldState,
    },
    /// folds every foldable node to a depth
    FoldAll {
        /// depth to fold to
        level: u32,
    },
    /// unfolds everything in the focused buffer
    UnfoldAll {},
    /// collapses or expands a virtual-text rail — a thread's ┊ rows, a watch's values
    SetVirtualTextVisible {
        /// whose rows
        owner: Target,
        /// shown or collapsed
        on: bool,
    },
}

#[derive(Debug, Clone, PartialEq, Eq)]
pub enum InputAction {
    /// sets the edit mode; PAUSED is a session state and is not one of these
    SetMode {
        /// which mode
        mode: EditMode,
    },
    /// sets the pending numeric count — the 3 in 3dd
    SetCount {
        /// the count
        count: u32,
    },
    /// sets the pending register — the "a in "ayy
    SelectRegister {
        /// which register
        register: RegisterName,
    },
    /// drops the pending count, register and operator — esc out of SPC pending
    CancelPending {},
    /// feeds a key sequence to the input machine, exactly as if typed
    FeedKeys {
        /// vim notation, e.g. `<C-q>` or `SPC f`
        keys: KeySeq,
    },
    /// repeats the last change — .
    RepeatLast {
        /// how many times
        count: u32,
    },
    /// records the keys you type into a register, or stops — q's other half, replayed by feed-keys
    SetMacroRecording {
        /// which register the keys land in
        register: RegisterName,
        /// start recording into it, or stop and keep what it holds
        on: bool,
    },
}

#[derive(Debug, Clone, PartialEq, Eq)]
pub enum HistoryAction {
    /// steps back through the buffer's undo tree
    Undo {
        /// how many steps
        count: u32,
    },
    /// steps forward again
    Redo {
        /// how many steps
        count: u32,
    },
    /// returns the buffer to a named point in its undo tree
    UndoToCheckpoint {
        /// which point
        checkpoint: CheckpointId,
    },
    /// closes the current undo group explicitly, so the next edit starts a new one
    CommitUndoGroup {},
    /// compacts persisted history for a target — the periodic sweep Q1 and Q2 share
    CompactHistory {
        /// whose history
        target: Target,
    },
}

#[derive(Debug, Clone, PartialEq, Eq)]
pub enum FileAction {
    /// opens a file in a pane
    OpenFile {
        /// workspace-relative path
        path: String,
        /// where to put the cursor
        at: Option<Position>,
        /// which pane it lands in
        pane: PaneRef,
    },
    /// opens the file you were in before this one — vim's `CTRL-^`
    OpenAlternate {
        /// which pane it lands in
        pane: PaneRef,
    },
    /// writes a buffer to disk, optionally under a new name
    SaveBuffer {
        /// which buffer
        target: Target,
        /// write here instead
        path: Option<String>,
    },
    /// writes every dirty buffer
    SaveAll {},
    /// closes a buffer; refuses a dirty one unless forced
    CloseBuffer {
        /// which buffer
        target: Target,
        /// close even if it is dirty
        force: bool,
    },
    /// re-reads a buffer from disk — invariant 3's explicit consent, never automatic
    ReloadFromDisk {
        /// which buffer
        target: Target,
    },
    /// records that a file changed underneath us; sets ✱ and moves nothing else
    NoteDiskChange {
        /// which file
        path: String,
        /// who is claimed to have changed it
        changed_by: Actor,
    },
    /// shows your unsaved buffer against what is on disk — :diff-disk
    OpenDiskDiff {
        /// which buffer
        target: Target,
    },
    /// takes one of the three manual exits from a disk conflict; there is no auto-merge
    ResolveDiskDiff {
        /// which buffer
        target: Target,
        /// take disk, keep mine, or ask the agent
        exit: DiskExit,
    },
    /// starts or stops watching a path for changes
    SetFileWatch {
        /// which path
        path: String,
        /// watching or not
        on: bool,
    },
}

#[derive(Debug, Clone, PartialEq, Eq)]
pub enum FloatAction {
    /// opens a float by surface id, with that surface's own arguments
    OpenFloat {
        /// which surface — a registry key, not a Rust variant
        surface: SurfaceId,
        /// the surface's own arguments
        args: Args,
    },
    /// closes the focused float
    CloseFloat {},
    /// closes every open float
    CloseAllFloats {},
    /// defines or redefines a float surface; open-float names one by id
    DefineFloatSurface {
        /// the surface id open-float will name
        surface: SurfaceId,
        /// scheme source producing the float — a procedure of one argument
        body: String,
    },
    /// moves the highlighted row of the focused float
    FloatSelect {
        /// rows to move; negative goes up
        delta: i64,
    },
    /// highlights an absolute row of the focused float
    FloatSelectRow {
        /// 1-based row
        row: u32,
    },
    /// runs the focused float's primary verb — ↵
    FloatAccept {},
    /// answers the focused ask by digit — 4a's amber option digits
    FloatAnswer {
        /// which option, 1-based
        digit: u32,
    },
    /// folds or unfolds a row inside a float body — za in a diff or a group list
    FloatToggleFold {
        /// 1-based row
        row: u32,
    },
}

#[derive(Debug, Clone, PartialEq, Eq)]
pub enum PaneAction {
    /// splits a pane and puts something in the new half
    SplitPane {
        /// which pane to split
        pane: PaneRef,
        /// which way
        direction: Direction,
        /// what the new pane holds
        kind: PaneKind,
    },
    /// moves focus to a pane; survives float churn (Design Language §9)
    FocusPane {
        /// which pane
        pane: PaneRef,
    },
    /// closes a pane
    ClosePane {
        /// which pane
        pane: PaneRef,
    },
    /// resizes a pane by whole cells
    ResizePane {
        /// which pane
        pane: PaneRef,
        /// cells, negative to shrink
        delta: i64,
    },
    /// changes what a pane holds — :transcript is this, not a separate capability
    SetPaneContent {
        /// which pane
        pane: PaneRef,
        /// what it holds
        kind: PaneKind,
    },
    /// fills a pane from a view tree the agent emitted — v1.5's agent-built pane (Q12)
    CreatePaneFromView {
        /// which pane
        pane: PaneRef,
        /// the view tree, as plain data
        tree: Value,
    },
}

#[derive(Debug, Clone, PartialEq, Eq)]
pub enum PickerAction {
    /// opens the picker over a source
    OpenPicker {
        /// which source
        source: SourceId,
        /// seed the filter with this
        query: Option<String>,
    },
    /// replaces the picker's filter text
    SetPickerQuery {
        /// the filter
        text: String,
    },
    /// cycles the picker's source — tab, 8a's grep/files/symbols
    CyclePickerSource {
        /// how many, negative goes back
        delta: i64,
    },
    /// accepts the highlighted row — ↵ open, or every row into the quickfix list
    PickerAccept {
        /// open, split, or quickfix
        how: AcceptHow,
    },
    /// shows or hides the preview pane; it drops below 100 columns regardless
    TogglePickerPreview {},
    /// defines or redefines a picker source; an open picker re-derives from it
    DefinePickerSource {
        /// the source id
        source: SourceId,
        /// scheme source producing the rows
        body: String,
    },
    /// drops a source's cached rows, so the next open recomputes them
    InvalidatePickerSource {
        /// which source
        source: SourceId,
    },
}

#[derive(Debug, Clone, PartialEq, Eq)]
pub enum PromptAction {
    /// opens the prompt line; a live visual selection rides along as an anchor (1c)
    OpenPrompt {
        /// ex, the agent, or search
        kind: PromptKind,
        /// prefill
        seed: Option<String>,
        /// what the message is about
        anchor: Option<Target>,
    },
    /// replaces the prompt's text
    SetPromptText {
        /// the text
        text: String,
    },
    /// submits the prompt
    SubmitPrompt {},
    /// closes the prompt without submitting
    CancelPrompt {},
    /// walks prompt history; prompts to the agent are ex history too (6d's q:)
    PromptHistory {
        /// how far back, negative goes forward
        delta: i64,
    },
}

#[derive(Debug, Clone, PartialEq, Eq)]
pub enum RegionAction {
    /// marks a target seen — s, and S over a whole group, file or block
    MarkSeen {
        /// what to mark; a hunk and an inbox item are targets too
        target: Target,
    },
    /// marks a target unseen again — what the agent revising a region does
    MarkUnseen {
        /// what to mark
        target: Target,
    },
    /// records agent-authored spans as regions; your own edits never create one
    DeclareRegions {
        /// the spans, each with its claimed author
        regions: Vec<RegionSpec>,
    },
    /// anchors a target and answers the id — m writes one, goto-anchor reads it back
    PlaceAnchor {
        /// what to anchor to
        at: Target,
        /// a name to find it by — m's a-z, or a caller's own
        label: Option<String>,
    },
    /// re-resolves a file's anchors after a rewrite — node tier, then line+content
    Reanchor {
        /// which file
        path: String,
    },
    /// forgets the regions under a target — a deleted file, a stale span
    DropRegions {
        /// which regions
        target: Target,
    },
}

#[derive(Debug, Clone, PartialEq, Eq)]
pub enum ThreadAction {
    /// starts a thread anchored to a target — your comment in the margin
    StartThread {
        /// what it is about
        anchor: Target,
        /// what you said
        body: String,
    },
    /// adds a reply; the agent's side arrives the same way yours does
    ReplyToThread {
        /// which thread
        thread: ThreadId,
        /// the reply
        body: String,
    },
    /// marks a thread done without deleting it
    ResolveThread {
        /// which thread
        thread: ThreadId,
    },
    /// deletes a thread outright
    DeleteThread {
        /// which thread
        thread: ThreadId,
    },
    /// posts one message against every match of a pattern — :g/TODO/c, many anchors
    BroadcastThread {
        /// the pattern to match
        pattern: String,
        /// the message
        body: String,
    },
}

#[derive(Debug, Clone, PartialEq, Eq)]
pub enum ReviewAction {
    /// declares a review block — files, spans and the agent's own annotations
    DeclareReviewBlock {
        /// what this block is
        title: String,
        /// the files and spans it covers
        files: Vec<FileGroup>,
        /// the agent's note about the block as a whole
        annotation: Option<String>,
    },
    /// opens a review block
    OpenReviewBlock {
        /// which block
        block: BlockId,
    },
    /// switches a diff between unified and side-by-side
    SetDiffMode {
        /// which mode
        mode: DiffMode,
    },
    /// expands a folded context run — 4b's ⋯ 13 lines
    ExpandDiffContext {
        /// which hunk
        hunk: HunkId,
        /// how many more lines
        lines: u32,
    },
    /// groups a block's files by directory or flat; scale is grouping, not scrolling
    SetDiffGrouping {
        /// directory or flat
        grouping: Grouping,
    },
    /// annotates a group — 8b's "mechanical" against "the meat"
    AnnotateGroup {
        /// which group
        group: GroupId,
        /// the annotation
        text: String,
    },
    /// reverts one hunk; it lowers to edits, so your undo tree has it
    RevertHunk {
        /// which hunk
        hunk: HunkId,
    },
    /// opens 2b's anchored peek at a hunk, without leaving the buffer
    OpenHunkPeek {
        /// which hunk or region
        target: Target,
    },
}

#[derive(Debug, Clone, PartialEq, Eq)]
pub enum InboxAction {
    /// opens the inbox
    OpenInbox {},
    /// opens one item, jumping to whatever it is anchored to
    OpenInboxItem {
        /// which item
        item: InboxId,
    },
    /// posts a note to the inbox; severity is one flag
    Notify {
        /// info, attention or trouble
        severity: Severity,
        /// one line
        title: String,
        /// the rest
        body: Option<String>,
        /// what it is about
        anchor: Option<Target>,
    },
}

#[derive(Debug, Clone, PartialEq, Eq)]
pub enum AskAction {
    /// queues a question for you; it never steals focus
    EnqueueAsk {
        /// what the agent is asking
        prose: String,
        /// the numbered options, if any
        options: Vec<AskOption>,
    },
    /// answers a queued ask, by digit or in prose
    AnswerAsk {
        /// which ask
        ask: AskId,
        /// which option, 1-based
        digit: Option<u32>,
        /// a prose answer instead
        prose: Option<String>,
    },
    /// puts an ask back in the queue — esc later
    DeferAsk {
        /// which ask; absent means the one on screen
        ask: Option<AskId>,
    },
    /// asks to run something, showing the exact invocation (7a)
    RequestPermission {
        /// the exact command, as it will run
        invocation: String,
        /// the files it touches, if it is a file operation
        files: Vec<String>,
    },
    /// grants a permission ask; always also writes a legible rule to init.scm
    GrantPermission {
        /// which ask
        ask: AskId,
        /// once, or always
        scope: GrantScope,
    },
    /// denies a permission ask
    DenyPermission {
        /// which ask
        ask: AskId,
    },
}

#[derive(Debug, Clone, PartialEq, Eq)]
pub enum SessionAction {
    /// starts an agent session
    StartSession {
        /// which agent binary or endpoint
        agent: String,
        /// working directory; absent means the workspace root
        cwd: Option<String>,
    },
    /// looks for sessions already running — 5d's adopt-without-restarting
    DiscoverSessions {},
    /// adopts a discovered session as-is
    AdoptSession {
        /// the discovered session's handle
        handle: String,
    },
    /// attaches to a session endpoint
    AttachSession {
        /// where it is
        endpoint: String,
    },
    /// reattaches after a seam — :reattach
    ReattachSession {},
    /// detaches, leaving the session running
    DetachSession {},
    /// ends the session
    EndSession {
        /// end it even mid-turn
        force: bool,
    },
    /// sends a message to the agent, with whatever it is anchored to — :ask
    SendMessage {
        /// the message
        body: String,
        /// what it is about; a selection, a region, many of them
        anchors: Vec<Target>,
    },
    /// pauses the turn at the next tool boundary — esc, and 7e's seam
    InterruptSession {},
    /// sends a correction and resumes — ↵ steer & resume
    SteerSession {
        /// the correction
        body: String,
    },
    /// resumes a paused turn — :resume
    ResumeSession {},
    /// abandons the current turn — :abort
    AbortTurn {},
    /// records that a turn started
    TurnBegan {
        /// which turn
        turn: TurnId,
        /// what started it
        prompt: Option<String>,
    },
    /// records that a turn finished
    TurnEnded {
        /// which turn
        turn: TurnId,
        /// how it ended
        summary: Option<String>,
    },
    /// appends a chunk of the agent's prose to the transcript
    SessionProse {
        /// which turn
        turn: TurnId,
        /// the text
        chunk: String,
    },
    /// records a tool call starting — the transcript's verb + target row
    ToolCallStarted {
        /// which turn
        turn: TurnId,
        /// the call's id
        call: ToolCallId,
        /// what it is doing — read, edit, run
        verb: String,
        /// what it is doing it to
        target: Option<String>,
        /// the absolute path this call touches, for the jump link
        path: Option<String>,
        /// one-based line within that file, when the agent named one
        line: Option<u32>,
    },
    /// adds progress to a running tool call
    ToolCallProgress {
        /// which call
        call: ToolCallId,
        /// the progress line
        note: String,
    },
    /// completes a tool call, with the counts the transcript row shows
    ToolCallCompleted {
        /// which call
        call: ToolCallId,
        /// one line
        summary: String,
        /// lines added
        added: u32,
        /// lines removed
        removed: u32,
    },
    /// records a seam — paused, lost, or resumed (7b, 7e)
    SessionSeam {
        /// which seam
        kind: SeamKind,
        /// what to say about it
        note: Option<String>,
    },
}

#[derive(Debug, Clone, PartialEq, Eq)]
pub enum WatchAction {
    /// places a watch on an anchor — gw, and (watch-place …) from the REPL
    PlaceWatch {
        /// what to watch
        anchor: Target,
        /// the expression to evaluate
        expr: String,
    },
    /// removes a watch
    RemoveWatch {
        /// which watch
        watch: WatchId,
    },
    /// shows or collapses a watch's value rows
    SetWatchVisible {
        /// which watch
        watch: WatchId,
        /// shown or collapsed
        on: bool,
    },
    /// delivers values from a real run; they arrive over ACP, not MCP (Q6)
    PushWatchValues {
        /// which watch
        watch: WatchId,
        /// the value sequence, in order
        values: Vec<String>,
        /// where they came from — 5a's "cargo test · … · 40s ago"
        provenance: Option<String>,
    },
    /// clears a watch's values without removing it
    ClearWatchValues {
        /// which watch
        watch: WatchId,
    },
}

#[derive(Debug, Clone, PartialEq, Eq)]
pub enum LspAction {
    /// asks for completions at the cursor
    RequestCompletion {},
    /// moves the completion selection
    MoveCompletion {
        /// rows, negative goes up
        delta: i64,
        /// the capability to run when no completion list is open; present is what makes a key step the list and still do its ordinary job when there is no list
        otherwise: Option<Binding>,
    },
    /// accepts a completion
    AcceptCompletion {
        /// which item, 1-based; 0 is whichever row is selected, which is the only thing a keymap can name
        index: u32,
        /// text to type after the accepted item — the space the `<space>` key leaves behind
        then: Option<String>,
        /// text to type when no row has been chosen; present is what makes a key fall through instead of accepting
        otherwise: Option<String>,
    },
    /// dismisses the completion float
    CancelCompletion {},
    /// asks for hover at the cursor
    RequestHover {},
    /// asks for signature help at the cursor
    RequestSignatureHelp {},
    /// asks where the symbol at the cursor is defined
    RequestDefinition {},
    /// asks what references the symbol at the cursor
    RequestReferences {},
    /// delivers the answer to a completion request; an empty list closes the float
    IngestCompletions {
        /// the items, in the order the server ranked them; empty means it had nothing
        items: Vec<Completion>,
        /// the cursor the request was made at, so an answer the cursor has left is dropped rather than drawn in the wrong place
        at: Position,
        /// which buffer asked; absent means the focused one
        buffer: Option<BufferId>,
    },
    /// delivers the answer to a signature-help request; absent closes the float
    IngestSignatureHelp {
        /// the active signature, absent when the server had none
        signature: Option<Signature>,
        /// the cursor the request was made at, so a late answer is dropped rather than drawn in the wrong place
        at: Position,
        /// which buffer asked; absent means the focused one
        buffer: Option<BufferId>,
    },
    /// delivers the answer to a hover request; empty prose closes the float
    IngestHover {
        /// the hover text, one row per line; empty means the server had nothing
        prose: Vec<String>,
        /// the cursor the request was made at, so a late answer is dropped rather than drawn in the wrong place
        at: Position,
        /// which buffer asked; absent means the focused one
        buffer: Option<BufferId>,
    },
    /// records a server's diagnostics for a file; they reach the gutter at trouble priority
    IngestDiagnostics {
        /// which file
        path: String,
        /// the diagnostics, replacing that file's set
        diagnostics: Vec<Diagnostic>,
    },
    /// applies a server's edit across files — a rename, a code action, a format
    ApplyWorkspaceEdit {
        /// the edits, per file
        files: Vec<FileEdits>,
    },
    /// restarts a language server
    RestartLanguageServer {
        /// which language's server
        language: LanguageId,
    },
}

#[derive(Debug, Clone, PartialEq, Eq)]
pub enum VcsAction {
    /// re-reads VCS status — the statusline's jj ✓ segment
    RefreshVcs {},
    /// opens the timeline; agent turns are changes (3b)
    OpenTimeline {},
    /// shows one change's diff — d diff
    ShowChangeDiff {
        /// which change
        change: ChangeId,
    },
    /// opens the full operation log — o full op log (mockups:901)
    OpenOperationLog {},
    /// moves the working copy to a change — ↵ edit here
    EditAtChange {
        /// which change
        change: ChangeId,
    },
    /// undoes a change through the VCS — u undo (jj), mockups:1046; undo is time travel
    RestoreChange {
        /// which change
        change: ChangeId,
    },
}

#[derive(Debug, Clone, PartialEq, Eq)]
pub enum RuntimeAction {
    /// evaluates scheme source; the CLI door and the REPL are both this
    Eval {
        /// the source text
        source: String,
    },
    /// loads a scheme file; a broken one leaves a working editor and an error float
    LoadRuntimeFile {
        /// which file
        path: String,
    },
    /// re-runs the boot sequence — init.scm is just the REPL session that runs at boot
    ReloadRuntime {},
    /// opens the REPL (6b) — the primary extension workflow, not a debug tool
    OpenRepl {},
    /// closes the REPL
    CloseRepl {},
    /// walks REPL history
    ReplHistory {
        /// how far back, negative goes forward
        delta: i64,
    },
    /// moves the REPL session into a buffer — C-c buffer (mockups:510)
    ReplToBuffer {},
    /// appends a form to init.scm — 6b's "· persisted to init.scm", 7a's always-allow rule
    PersistForm {
        /// the form to write
        form: String,
    },
    /// binds a key, live; the next frame has it and which-key knows
    SetKeybinding {
        /// vim notation, e.g. "]r"
        keys: KeySeq,
        /// a capability with arguments, or scheme source
        binding: Binding,
        /// which mode; absent means normal
        mode: Option<EditMode>,
    },
    /// unbinds a key
    RemoveKeybinding {
        /// vim notation
        keys: KeySeq,
        /// which mode; absent means normal
        mode: Option<EditMode>,
    },
    /// declares a language: grammar, server, extensions — the road up from second tier
    DefineLanguage {
        /// the language's name
        language: LanguageId,
        /// what it is made of
        spec: LanguageSpec,
    },
    /// sets a declared option
    SetOption {
        /// the option's name
        key: String,
        /// its value
        value: Value,
    },
    /// switches theme by slug
    SetTheme {
        /// which theme
        slug: ThemeSlug,
    },
    /// re-reads the current theme file and re-validates its actor hues
    ReloadTheme {},
}

#[derive(Debug, Clone, PartialEq, Eq)]
pub enum AppAction {
    /// leaves, restoring the terminal; refuses on unsaved work unless forced
    Quit {
        /// leave even with unsaved buffers
        force: bool,
    },
    /// shows the unknown-key hint, once per session and never again (8e)
    ShowUnknownKeyHint {
        /// the key that was not bound
        key: KeySeq,
    },
    /// opens help — :help agent-objects (6d)
    OpenHelp {
        /// which topic; absent opens the index
        topic: Option<String>,
    },
    /// opens :arch — a store query rendered through the spans hatch, no Rust primitive
    OpenArch {},
    /// opens the session dashboard (7d)
    OpenDashboard {},
    /// dismisses 7d's one hint line; after that it is just an editor
    DismissDashboardHint {},
}

/// The single mutation API, nested by domain.
#[derive(Debug, Clone, PartialEq, Eq)]
pub enum Action {
    Buffer(BufferAction),
    Motion(MotionAction),
    View(ViewAction),
    Input(InputAction),
    History(HistoryAction),
    File(FileAction),
    Float(FloatAction),
    Pane(PaneAction),
    Picker(PickerAction),
    Prompt(PromptAction),
    Region(RegionAction),
    Thread(ThreadAction),
    Review(ReviewAction),
    Inbox(InboxAction),
    Ask(AskAction),
    Session(SessionAction),
    Watch(WatchAction),
    Lsp(LspAction),
    Vcs(VcsAction),
    Runtime(RuntimeAction),
    App(AppAction),
}

/// How many capabilities are Actions.
pub open spec fn spec_action_count() -> nat {
    170
}

/// The door name in row `i`.
pub open spec fn spec_row_name(i: nat) -> Seq<char> {
    if i == 0 {
        "insert"@
    } else if i == 1 {
        "delete"@
    } else if i == 2 {
        "replace"@
    } else if i == 3 {
        "apply-edits"@
    } else if i == 4 {
        "yank"@
    } else if i == 5 {
        "paste"@
    } else if i == 6 {
        "set-register"@
    } else if i == 7 {
        "indent"@
    } else if i == 8 {
        "insert-indent"@
    } else if i == 9 {
        "join-lines"@
    } else if i == 10 {
        "set-case"@
    } else if i == 11 {
        "toggle-comment"@
    } else if i == 12 {
        "align-columns"@
    } else if i == 13 {
        "move-cursor"@
    } else if i == 14 {
        "set-cursor"@
    } else if i == 15 {
        "select-range"@
    } else if i == 16 {
        "select-object"@
    } else if i == 17 {
        "extend-selection"@
    } else if i == 18 {
        "clear-selection"@
    } else if i == 19 {
        "goto-sequence"@
    } else if i == 20 {
        "goto-location"@
    } else if i == 21 {
        "goto-anchor"@
    } else if i == 22 {
        "jump"@
    } else if i == 23 {
        "scroll"@
    } else if i == 24 {
        "set-soft-wrap"@
    } else if i == 25 {
        "set-fold"@
    } else if i == 26 {
        "fold-all"@
    } else if i == 27 {
        "unfold-all"@
    } else if i == 28 {
        "set-virtual-text-visible"@
    } else if i == 29 {
        "set-mode"@
    } else if i == 30 {
        "set-count"@
    } else if i == 31 {
        "select-register"@
    } else if i == 32 {
        "cancel-pending"@
    } else if i == 33 {
        "feed-keys"@
    } else if i == 34 {
        "repeat-last"@
    } else if i == 35 {
        "set-macro-recording"@
    } else if i == 36 {
        "undo"@
    } else if i == 37 {
        "redo"@
    } else if i == 38 {
        "undo-to-checkpoint"@
    } else if i == 39 {
        "commit-undo-group"@
    } else if i == 40 {
        "compact-history"@
    } else if i == 41 {
        "open-file"@
    } else if i == 42 {
        "open-alternate"@
    } else if i == 43 {
        "save-buffer"@
    } else if i == 44 {
        "save-all"@
    } else if i == 45 {
        "close-buffer"@
    } else if i == 46 {
        "reload-from-disk"@
    } else if i == 47 {
        "note-disk-change"@
    } else if i == 48 {
        "open-disk-diff"@
    } else if i == 49 {
        "resolve-disk-diff"@
    } else if i == 50 {
        "set-file-watch"@
    } else if i == 51 {
        "open-float"@
    } else if i == 52 {
        "close-float"@
    } else if i == 53 {
        "close-all-floats"@
    } else if i == 54 {
        "define-float-surface"@
    } else if i == 55 {
        "float-select"@
    } else if i == 56 {
        "float-select-row"@
    } else if i == 57 {
        "float-accept"@
    } else if i == 58 {
        "float-answer"@
    } else if i == 59 {
        "float-toggle-fold"@
    } else if i == 60 {
        "split-pane"@
    } else if i == 61 {
        "focus-pane"@
    } else if i == 62 {
        "close-pane"@
    } else if i == 63 {
        "resize-pane"@
    } else if i == 64 {
        "set-pane-content"@
    } else if i == 65 {
        "create-pane-from-view"@
    } else if i == 66 {
        "open-picker"@
    } else if i == 67 {
        "set-picker-query"@
    } else if i == 68 {
        "cycle-picker-source"@
    } else if i == 69 {
        "picker-accept"@
    } else if i == 70 {
        "toggle-picker-preview"@
    } else if i == 71 {
        "define-picker-source"@
    } else if i == 72 {
        "invalidate-picker-source"@
    } else if i == 73 {
        "open-prompt"@
    } else if i == 74 {
        "set-prompt-text"@
    } else if i == 75 {
        "submit-prompt"@
    } else if i == 76 {
        "cancel-prompt"@
    } else if i == 77 {
        "prompt-history"@
    } else if i == 78 {
        "mark-seen"@
    } else if i == 79 {
        "mark-unseen"@
    } else if i == 80 {
        "declare-regions"@
    } else if i == 81 {
        "place-anchor"@
    } else if i == 82 {
        "reanchor"@
    } else if i == 83 {
        "drop-regions"@
    } else if i == 84 {
        "start-thread"@
    } else if i == 85 {
        "reply-to-thread"@
    } else if i == 86 {
        "resolve-thread"@
    } else if i == 87 {
        "delete-thread"@
    } else if i == 88 {
        "broadcast-thread"@
    } else if i == 89 {
        "declare-review-block"@
    } else if i == 90 {
        "open-review-block"@
    } else if i == 91 {
        "set-diff-mode"@
    } else if i == 92 {
        "expand-diff-context"@
    } else if i == 93 {
        "set-diff-grouping"@
    } else if i == 94 {
        "annotate-group"@
    } else if i == 95 {
        "revert-hunk"@
    } else if i == 96 {
        "open-hunk-peek"@
    } else if i == 97 {
        "open-inbox"@
    } else if i == 98 {
        "open-inbox-item"@
    } else if i == 99 {
        "notify"@
    } else if i == 100 {
        "enqueue-ask"@
    } else if i == 101 {
        "answer-ask"@
    } else if i == 102 {
        "defer-ask"@
    } else if i == 103 {
        "request-permission"@
    } else if i == 104 {
        "grant-permission"@
    } else if i == 105 {
        "deny-permission"@
    } else if i == 106 {
        "start-session"@
    } else if i == 107 {
        "discover-sessions"@
    } else if i == 108 {
        "adopt-session"@
    } else if i == 109 {
        "attach-session"@
    } else if i == 110 {
        "reattach-session"@
    } else if i == 111 {
        "detach-session"@
    } else if i == 112 {
        "end-session"@
    } else if i == 113 {
        "send-message"@
    } else if i == 114 {
        "interrupt-session"@
    } else if i == 115 {
        "steer-session"@
    } else if i == 116 {
        "resume-session"@
    } else if i == 117 {
        "abort-turn"@
    } else if i == 118 {
        "turn-began"@
    } else if i == 119 {
        "turn-ended"@
    } else if i == 120 {
        "session-prose"@
    } else if i == 121 {
        "tool-call-started"@
    } else if i == 122 {
        "tool-call-progress"@
    } else if i == 123 {
        "tool-call-completed"@
    } else if i == 124 {
        "session-seam"@
    } else if i == 125 {
        "place-watch"@
    } else if i == 126 {
        "remove-watch"@
    } else if i == 127 {
        "set-watch-visible"@
    } else if i == 128 {
        "push-watch-values"@
    } else if i == 129 {
        "clear-watch-values"@
    } else if i == 130 {
        "request-completion"@
    } else if i == 131 {
        "move-completion"@
    } else if i == 132 {
        "accept-completion"@
    } else if i == 133 {
        "cancel-completion"@
    } else if i == 134 {
        "request-hover"@
    } else if i == 135 {
        "request-signature-help"@
    } else if i == 136 {
        "request-definition"@
    } else if i == 137 {
        "request-references"@
    } else if i == 138 {
        "ingest-completions"@
    } else if i == 139 {
        "ingest-signature-help"@
    } else if i == 140 {
        "ingest-hover"@
    } else if i == 141 {
        "ingest-diagnostics"@
    } else if i == 142 {
        "apply-workspace-edit"@
    } else if i == 143 {
        "restart-language-server"@
    } else if i == 144 {
        "refresh-vcs"@
    } else if i == 145 {
        "open-timeline"@
    } else if i == 146 {
        "show-change-diff"@
    } else if i == 147 {
        "open-operation-log"@
    } else if i == 148 {
        "edit-at-change"@
    } else if i == 149 {
        "restore-change"@
    } else if i == 150 {
        "eval"@
    } else if i == 151 {
        "load-runtime-file"@
    } else if i == 152 {
        "reload-runtime"@
    } else if i == 153 {
        "open-repl"@
    } else if i == 154 {
        "close-repl"@
    } else if i == 155 {
        "repl-history"@
    } else if i == 156 {
        "repl-to-buffer"@
    } else if i == 157 {
        "persist-form"@
    } else if i == 158 {
        "set-keybinding"@
    } else if i == 159 {
        "remove-keybinding"@
    } else if i == 160 {
        "define-language"@
    } else if i == 161 {
        "set-option"@
    } else if i == 162 {
        "set-theme"@
    } else if i == 163 {
        "reload-theme"@
    } else if i == 164 {
        "quit"@
    } else if i == 165 {
        "show-unknown-key-hint"@
    } else if i == 166 {
        "open-help"@
    } else if i == 167 {
        "open-arch"@
    } else if i == 168 {
        "open-dashboard"@
    } else {
        "dismiss-dashboard-hint"@
    }
}

/// The domain in row `i`.
pub open spec fn spec_row_domain(i: nat) -> Seq<char> {
    if i == 0 {
        "buffer"@
    } else if i == 1 {
        "buffer"@
    } else if i == 2 {
        "buffer"@
    } else if i == 3 {
        "buffer"@
    } else if i == 4 {
        "buffer"@
    } else if i == 5 {
        "buffer"@
    } else if i == 6 {
        "buffer"@
    } else if i == 7 {
        "buffer"@
    } else if i == 8 {
        "buffer"@
    } else if i == 9 {
        "buffer"@
    } else if i == 10 {
        "buffer"@
    } else if i == 11 {
        "buffer"@
    } else if i == 12 {
        "buffer"@
    } else if i == 13 {
        "motion"@
    } else if i == 14 {
        "motion"@
    } else if i == 15 {
        "motion"@
    } else if i == 16 {
        "motion"@
    } else if i == 17 {
        "motion"@
    } else if i == 18 {
        "motion"@
    } else if i == 19 {
        "motion"@
    } else if i == 20 {
        "motion"@
    } else if i == 21 {
        "motion"@
    } else if i == 22 {
        "motion"@
    } else if i == 23 {
        "view"@
    } else if i == 24 {
        "view"@
    } else if i == 25 {
        "view"@
    } else if i == 26 {
        "view"@
    } else if i == 27 {
        "view"@
    } else if i == 28 {
        "view"@
    } else if i == 29 {
        "input"@
    } else if i == 30 {
        "input"@
    } else if i == 31 {
        "input"@
    } else if i == 32 {
        "input"@
    } else if i == 33 {
        "input"@
    } else if i == 34 {
        "input"@
    } else if i == 35 {
        "input"@
    } else if i == 36 {
        "history"@
    } else if i == 37 {
        "history"@
    } else if i == 38 {
        "history"@
    } else if i == 39 {
        "history"@
    } else if i == 40 {
        "history"@
    } else if i == 41 {
        "file"@
    } else if i == 42 {
        "file"@
    } else if i == 43 {
        "file"@
    } else if i == 44 {
        "file"@
    } else if i == 45 {
        "file"@
    } else if i == 46 {
        "file"@
    } else if i == 47 {
        "file"@
    } else if i == 48 {
        "file"@
    } else if i == 49 {
        "file"@
    } else if i == 50 {
        "file"@
    } else if i == 51 {
        "float"@
    } else if i == 52 {
        "float"@
    } else if i == 53 {
        "float"@
    } else if i == 54 {
        "float"@
    } else if i == 55 {
        "float"@
    } else if i == 56 {
        "float"@
    } else if i == 57 {
        "float"@
    } else if i == 58 {
        "float"@
    } else if i == 59 {
        "float"@
    } else if i == 60 {
        "pane"@
    } else if i == 61 {
        "pane"@
    } else if i == 62 {
        "pane"@
    } else if i == 63 {
        "pane"@
    } else if i == 64 {
        "pane"@
    } else if i == 65 {
        "pane"@
    } else if i == 66 {
        "picker"@
    } else if i == 67 {
        "picker"@
    } else if i == 68 {
        "picker"@
    } else if i == 69 {
        "picker"@
    } else if i == 70 {
        "picker"@
    } else if i == 71 {
        "picker"@
    } else if i == 72 {
        "picker"@
    } else if i == 73 {
        "prompt"@
    } else if i == 74 {
        "prompt"@
    } else if i == 75 {
        "prompt"@
    } else if i == 76 {
        "prompt"@
    } else if i == 77 {
        "prompt"@
    } else if i == 78 {
        "region"@
    } else if i == 79 {
        "region"@
    } else if i == 80 {
        "region"@
    } else if i == 81 {
        "region"@
    } else if i == 82 {
        "region"@
    } else if i == 83 {
        "region"@
    } else if i == 84 {
        "thread"@
    } else if i == 85 {
        "thread"@
    } else if i == 86 {
        "thread"@
    } else if i == 87 {
        "thread"@
    } else if i == 88 {
        "thread"@
    } else if i == 89 {
        "review"@
    } else if i == 90 {
        "review"@
    } else if i == 91 {
        "review"@
    } else if i == 92 {
        "review"@
    } else if i == 93 {
        "review"@
    } else if i == 94 {
        "review"@
    } else if i == 95 {
        "review"@
    } else if i == 96 {
        "review"@
    } else if i == 97 {
        "inbox"@
    } else if i == 98 {
        "inbox"@
    } else if i == 99 {
        "inbox"@
    } else if i == 100 {
        "ask"@
    } else if i == 101 {
        "ask"@
    } else if i == 102 {
        "ask"@
    } else if i == 103 {
        "ask"@
    } else if i == 104 {
        "ask"@
    } else if i == 105 {
        "ask"@
    } else if i == 106 {
        "session"@
    } else if i == 107 {
        "session"@
    } else if i == 108 {
        "session"@
    } else if i == 109 {
        "session"@
    } else if i == 110 {
        "session"@
    } else if i == 111 {
        "session"@
    } else if i == 112 {
        "session"@
    } else if i == 113 {
        "session"@
    } else if i == 114 {
        "session"@
    } else if i == 115 {
        "session"@
    } else if i == 116 {
        "session"@
    } else if i == 117 {
        "session"@
    } else if i == 118 {
        "session"@
    } else if i == 119 {
        "session"@
    } else if i == 120 {
        "session"@
    } else if i == 121 {
        "session"@
    } else if i == 122 {
        "session"@
    } else if i == 123 {
        "session"@
    } else if i == 124 {
        "session"@
    } else if i == 125 {
        "watch"@
    } else if i == 126 {
        "watch"@
    } else if i == 127 {
        "watch"@
    } else if i == 128 {
        "watch"@
    } else if i == 129 {
        "watch"@
    } else if i == 130 {
        "lsp"@
    } else if i == 131 {
        "lsp"@
    } else if i == 132 {
        "lsp"@
    } else if i == 133 {
        "lsp"@
    } else if i == 134 {
        "lsp"@
    } else if i == 135 {
        "lsp"@
    } else if i == 136 {
        "lsp"@
    } else if i == 137 {
        "lsp"@
    } else if i == 138 {
        "lsp"@
    } else if i == 139 {
        "lsp"@
    } else if i == 140 {
        "lsp"@
    } else if i == 141 {
        "lsp"@
    } else if i == 142 {
        "lsp"@
    } else if i == 143 {
        "lsp"@
    } else if i == 144 {
        "vcs"@
    } else if i == 145 {
        "vcs"@
    } else if i == 146 {
        "vcs"@
    } else if i == 147 {
        "vcs"@
    } else if i == 148 {
        "vcs"@
    } else if i == 149 {
        "vcs"@
    } else if i == 150 {
        "runtime"@
    } else if i == 151 {
        "runtime"@
    } else if i == 152 {
        "runtime"@
    } else if i == 153 {
        "runtime"@
    } else if i == 154 {
        "runtime"@
    } else if i == 155 {
        "runtime"@
    } else if i == 156 {
        "runtime"@
    } else if i == 157 {
        "runtime"@
    } else if i == 158 {
        "runtime"@
    } else if i == 159 {
        "runtime"@
    } else if i == 160 {
        "runtime"@
    } else if i == 161 {
        "runtime"@
    } else if i == 162 {
        "runtime"@
    } else if i == 163 {
        "runtime"@
    } else if i == 164 {
        "app"@
    } else if i == 165 {
        "app"@
    } else if i == 166 {
        "app"@
    } else if i == 167 {
        "app"@
    } else if i == 168 {
        "app"@
    } else {
        "app"@
    }
}

/// The phase in row `i`.
pub open spec fn spec_row_phase(i: nat) -> Phase {
    if i == 0 {
        Phase::S3
    } else if i == 1 {
        Phase::S3
    } else if i == 2 {
        Phase::S3
    } else if i == 3 {
        Phase::S6
    } else if i == 4 {
        Phase::S3
    } else if i == 5 {
        Phase::S3
    } else if i == 6 {
        Phase::S3
    } else if i == 7 {
        Phase::S3
    } else if i == 8 {
        Phase::S4
    } else if i == 9 {
        Phase::S3
    } else if i == 10 {
        Phase::S3
    } else if i == 11 {
        Phase::S4
    } else if i == 12 {
        Phase::S4
    } else if i == 13 {
        Phase::S3
    } else if i == 14 {
        Phase::S3
    } else if i == 15 {
        Phase::S3
    } else if i == 16 {
        Phase::S3
    } else if i == 17 {
        Phase::S3
    } else if i == 18 {
        Phase::S3
    } else if i == 19 {
        Phase::S5
    } else if i == 20 {
        Phase::S6
    } else if i == 21 {
        Phase::S5
    } else if i == 22 {
        Phase::S5
    } else if i == 23 {
        Phase::S3
    } else if i == 24 {
        Phase::S3
    } else if i == 25 {
        Phase::S3
    } else if i == 26 {
        Phase::S3
    } else if i == 27 {
        Phase::S3
    } else if i == 28 {
        Phase::S3
    } else if i == 29 {
        Phase::S3
    } else if i == 30 {
        Phase::S3
    } else if i == 31 {
        Phase::S3
    } else if i == 32 {
        Phase::S3
    } else if i == 33 {
        Phase::S3
    } else if i == 34 {
        Phase::S3
    } else if i == 35 {
        Phase::S3
    } else if i == 36 {
        Phase::S3
    } else if i == 37 {
        Phase::S3
    } else if i == 38 {
        Phase::S3
    } else if i == 39 {
        Phase::S3
    } else if i == 40 {
        Phase::S3
    } else if i == 41 {
        Phase::S3
    } else if i == 42 {
        Phase::S3
    } else if i == 43 {
        Phase::S3
    } else if i == 44 {
        Phase::S3
    } else if i == 45 {
        Phase::S3
    } else if i == 46 {
        Phase::S7
    } else if i == 47 {
        Phase::S7
    } else if i == 48 {
        Phase::S7
    } else if i == 49 {
        Phase::S7
    } else if i == 50 {
        Phase::S7
    } else if i == 51 {
        Phase::S2
    } else if i == 52 {
        Phase::S2
    } else if i == 53 {
        Phase::S2
    } else if i == 54 {
        Phase::S2
    } else if i == 55 {
        Phase::S5
    } else if i == 56 {
        Phase::S5
    } else if i == 57 {
        Phase::S5
    } else if i == 58 {
        Phase::S6
    } else if i == 59 {
        Phase::S7
    } else if i == 60 {
        Phase::S6
    } else if i == 61 {
        Phase::S6
    } else if i == 62 {
        Phase::S6
    } else if i == 63 {
        Phase::S6
    } else if i == 64 {
        Phase::S6
    } else if i == 65 {
        Phase::V15
    } else if i == 66 {
        Phase::S5
    } else if i == 67 {
        Phase::S5
    } else if i == 68 {
        Phase::S5
    } else if i == 69 {
        Phase::S5
    } else if i == 70 {
        Phase::S5
    } else if i == 71 {
        Phase::S5
    } else if i == 72 {
        Phase::S5
    } else if i == 73 {
        Phase::S6
    } else if i == 74 {
        Phase::S6
    } else if i == 75 {
        Phase::S6
    } else if i == 76 {
        Phase::S6
    } else if i == 77 {
        Phase::S6
    } else if i == 78 {
        Phase::S5
    } else if i == 79 {
        Phase::S5
    } else if i == 80 {
        Phase::S5
    } else if i == 81 {
        Phase::S5
    } else if i == 82 {
        Phase::S5
    } else if i == 83 {
        Phase::S5
    } else if i == 84 {
        Phase::S7
    } else if i == 85 {
        Phase::S7
    } else if i == 86 {
        Phase::S7
    } else if i == 87 {
        Phase::S7
    } else if i == 88 {
        Phase::S7
    } else if i == 89 {
        Phase::S6
    } else if i == 90 {
        Phase::S7
    } else if i == 91 {
        Phase::S7
    } else if i == 92 {
        Phase::S7
    } else if i == 93 {
        Phase::S7
    } else if i == 94 {
        Phase::S7
    } else if i == 95 {
        Phase::S7
    } else if i == 96 {
        Phase::S7
    } else if i == 97 {
        Phase::S7
    } else if i == 98 {
        Phase::S7
    } else if i == 99 {
        Phase::S7
    } else if i == 100 {
        Phase::S6
    } else if i == 101 {
        Phase::S6
    } else if i == 102 {
        Phase::S6
    } else if i == 103 {
        Phase::S6
    } else if i == 104 {
        Phase::S6
    } else if i == 105 {
        Phase::S6
    } else if i == 106 {
        Phase::S6
    } else if i == 107 {
        Phase::S6
    } else if i == 108 {
        Phase::S6
    } else if i == 109 {
        Phase::S6
    } else if i == 110 {
        Phase::S6
    } else if i == 111 {
        Phase::S6
    } else if i == 112 {
        Phase::S6
    } else if i == 113 {
        Phase::S6
    } else if i == 114 {
        Phase::S6
    } else if i == 115 {
        Phase::S6
    } else if i == 116 {
        Phase::S6
    } else if i == 117 {
        Phase::S6
    } else if i == 118 {
        Phase::S6
    } else if i == 119 {
        Phase::S6
    } else if i == 120 {
        Phase::S6
    } else if i == 121 {
        Phase::S6
    } else if i == 122 {
        Phase::S6
    } else if i == 123 {
        Phase::S6
    } else if i == 124 {
        Phase::S6
    } else if i == 125 {
        Phase::S8
    } else if i == 126 {
        Phase::S8
    } else if i == 127 {
        Phase::S8
    } else if i == 128 {
        Phase::S8
    } else if i == 129 {
        Phase::S8
    } else if i == 130 {
        Phase::S4
    } else if i == 131 {
        Phase::S4
    } else if i == 132 {
        Phase::S4
    } else if i == 133 {
        Phase::S4
    } else if i == 134 {
        Phase::S4
    } else if i == 135 {
        Phase::S4
    } else if i == 136 {
        Phase::S4
    } else if i == 137 {
        Phase::S5
    } else if i == 138 {
        Phase::S4
    } else if i == 139 {
        Phase::S4
    } else if i == 140 {
        Phase::S4
    } else if i == 141 {
        Phase::S4
    } else if i == 142 {
        Phase::S4
    } else if i == 143 {
        Phase::S4
    } else if i == 144 {
        Phase::S7
    } else if i == 145 {
        Phase::S7
    } else if i == 146 {
        Phase::S7
    } else if i == 147 {
        Phase::S7
    } else if i == 148 {
        Phase::S7
    } else if i == 149 {
        Phase::S7
    } else if i == 150 {
        Phase::S2
    } else if i == 151 {
        Phase::S2
    } else if i == 152 {
        Phase::S2
    } else if i == 153 {
        Phase::S2
    } else if i == 154 {
        Phase::S2
    } else if i == 155 {
        Phase::S2
    } else if i == 156 {
        Phase::S2
    } else if i == 157 {
        Phase::S2
    } else if i == 158 {
        Phase::S3
    } else if i == 159 {
        Phase::S3
    } else if i == 160 {
        Phase::S4
    } else if i == 161 {
        Phase::S2
    } else if i == 162 {
        Phase::S1
    } else if i == 163 {
        Phase::S1
    } else if i == 164 {
        Phase::S1
    } else if i == 165 {
        Phase::S3
    } else if i == 166 {
        Phase::S3
    } else if i == 167 {
        Phase::S5
    } else if i == 168 {
        Phase::S6
    } else {
        Phase::S6
    }
}

/// The task in row `i`.
pub open spec fn spec_row_task(i: nat) -> Seq<char> {
    if i == 0 {
        "T026"@
    } else if i == 1 {
        "T026"@
    } else if i == 2 {
        "T026"@
    } else if i == 3 {
        "T052"@
    } else if i == 4 {
        "T026"@
    } else if i == 5 {
        "T026"@
    } else if i == 6 {
        "T026"@
    } else if i == 7 {
        "T026"@
    } else if i == 8 {
        "T104"@
    } else if i == 9 {
        "T026"@
    } else if i == 10 {
        "T026"@
    } else if i == 11 {
        "T037"@
    } else if i == 12 {
        "T082"@
    } else if i == 13 {
        "T026"@
    } else if i == 14 {
        "T026"@
    } else if i == 15 {
        "T026"@
    } else if i == 16 {
        "T028"@
    } else if i == 17 {
        "T026"@
    } else if i == 18 {
        "T026"@
    } else if i == 19 {
        "T049"@
    } else if i == 20 {
        "T056"@
    } else if i == 21 {
        "T042"@
    } else if i == 22 {
        "T042"@
    } else if i == 23 {
        "T026"@
    } else if i == 24 {
        "T081"@
    } else if i == 25 {
        "T016"@
    } else if i == 26 {
        "T016"@
    } else if i == 27 {
        "T016"@
    } else if i == 28 {
        "T032"@
    } else if i == 29 {
        "T026"@
    } else if i == 30 {
        "T026"@
    } else if i == 31 {
        "T026"@
    } else if i == 32 {
        "T026"@
    } else if i == 33 {
        "T026"@
    } else if i == 34 {
        "T026"@
    } else if i == 35 {
        "T099"@
    } else if i == 36 {
        "T029"@
    } else if i == 37 {
        "T029"@
    } else if i == 38 {
        "T029"@
    } else if i == 39 {
        "T029"@
    } else if i == 40 {
        "T030"@
    } else if i == 41 {
        "T033"@
    } else if i == 42 {
        "T033"@
    } else if i == 43 {
        "T033"@
    } else if i == 44 {
        "T033"@
    } else if i == 45 {
        "T033"@
    } else if i == 46 {
        "T069"@
    } else if i == 47 {
        "T069"@
    } else if i == 48 {
        "T070"@
    } else if i == 49 {
        "T070"@
    } else if i == 50 {
        "T069"@
    } else if i == 51 {
        "T021"@
    } else if i == 52 {
        "T021"@
    } else if i == 53 {
        "T021"@
    } else if i == 54 {
        "T093"@
    } else if i == 55 {
        "T045"@
    } else if i == 56 {
        "T045"@
    } else if i == 57 {
        "T045"@
    } else if i == 58 {
        "T059"@
    } else if i == 59 {
        "T065"@
    } else if i == 60 {
        "T088"@
    } else if i == 61 {
        "T088"@
    } else if i == 62 {
        "T088"@
    } else if i == 63 {
        "T088"@
    } else if i == 64 {
        "T054"@
    } else if i == 65 {
        "v1.5"@
    } else if i == 66 {
        "T046"@
    } else if i == 67 {
        "T045"@
    } else if i == 68 {
        "T047"@
    } else if i == 69 {
        "T047"@
    } else if i == 70 {
        "T045"@
    } else if i == 71 {
        "T046"@
    } else if i == 72 {
        "T046"@
    } else if i == 73 {
        "T058"@
    } else if i == 74 {
        "T058"@
    } else if i == 75 {
        "T058"@
    } else if i == 76 {
        "T058"@
    } else if i == 77 {
        "T058"@
    } else if i == 78 {
        "T041"@
    } else if i == 79 {
        "T041"@
    } else if i == 80 {
        "T041"@
    } else if i == 81 {
        "T042"@
    } else if i == 82 {
        "T042"@
    } else if i == 83 {
        "T041"@
    } else if i == 84 {
        "T068"@
    } else if i == 85 {
        "T068"@
    } else if i == 86 {
        "T068"@
    } else if i == 87 {
        "T068"@
    } else if i == 88 {
        "T068"@
    } else if i == 89 {
        "T053"@
    } else if i == 90 {
        "T066"@
    } else if i == 91 {
        "T066"@
    } else if i == 92 {
        "T066"@
    } else if i == 93 {
        "T065"@
    } else if i == 94 {
        "T065"@
    } else if i == 95 {
        "T064"@
    } else if i == 96 {
        "T066"@
    } else if i == 97 {
        "T067"@
    } else if i == 98 {
        "T067"@
    } else if i == 99 {
        "T067"@
    } else if i == 100 {
        "T060"@
    } else if i == 101 {
        "T059"@
    } else if i == 102 {
        "T060"@
    } else if i == 103 {
        "T061"@
    } else if i == 104 {
        "T061"@
    } else if i == 105 {
        "T061"@
    } else if i == 106 {
        "T057"@
    } else if i == 107 {
        "T057"@
    } else if i == 108 {
        "T057"@
    } else if i == 109 {
        "T057"@
    } else if i == 110 {
        "T057"@
    } else if i == 111 {
        "T057"@
    } else if i == 112 {
        "T057"@
    } else if i == 113 {
        "T058"@
    } else if i == 114 {
        "T062"@
    } else if i == 115 {
        "T062"@
    } else if i == 116 {
        "T062"@
    } else if i == 117 {
        "T062"@
    } else if i == 118 {
        "T050"@
    } else if i == 119 {
        "T050"@
    } else if i == 120 {
        "T054"@
    } else if i == 121 {
        "T054"@
    } else if i == 122 {
        "T054"@
    } else if i == 123 {
        "T054"@
    } else if i == 124 {
        "T057"@
    } else if i == 125 {
        "T077"@
    } else if i == 126 {
        "T074"@
    } else if i == 127 {
        "T076"@
    } else if i == 128 {
        "T075"@
    } else if i == 129 {
        "T075"@
    } else if i == 130 {
        "T038"@
    } else if i == 131 {
        "T038"@
    } else if i == 132 {
        "T038"@
    } else if i == 133 {
        "T038"@
    } else if i == 134 {
        "T039"@
    } else if i == 135 {
        "T039"@
    } else if i == 136 {
        "T036"@
    } else if i == 137 {
        "T047"@
    } else if i == 138 {
        "T038"@
    } else if i == 139 {
        "T039"@
    } else if i == 140 {
        "T039"@
    } else if i == 141 {
        "T040"@
    } else if i == 142 {
        "T036"@
    } else if i == 143 {
        "T036"@
    } else if i == 144 {
        "T071"@
    } else if i == 145 {
        "T073"@
    } else if i == 146 {
        "T073"@
    } else if i == 147 {
        "T073"@
    } else if i == 148 {
        "T073"@
    } else if i == 149 {
        "T073"@
    } else if i == 150 {
        "T023"@
    } else if i == 151 {
        "T021"@
    } else if i == 152 {
        "T021"@
    } else if i == 153 {
        "T022"@
    } else if i == 154 {
        "T022"@
    } else if i == 155 {
        "T022"@
    } else if i == 156 {
        "T022"@
    } else if i == 157 {
        "T022"@
    } else if i == 158 {
        "T033"@
    } else if i == 159 {
        "T033"@
    } else if i == 160 {
        "T037"@
    } else if i == 161 {
        "T021"@
    } else if i == 162 {
        "T012"@
    } else if i == 163 {
        "T011"@
    } else if i == 164 {
        "T090"@
    } else if i == 165 {
        "T035"@
    } else if i == 166 {
        "T086"@
    } else if i == 167 {
        "T048"@
    } else if i == 168 {
        "T057"@
    } else {
        "T057"@
    }
}

/// The MCP default in row `i`.
pub open spec fn spec_row_mcp(i: nat) -> McpPolicy {
    if i == 0 {
        McpPolicy::Allow
    } else if i == 1 {
        McpPolicy::Allow
    } else if i == 2 {
        McpPolicy::Allow
    } else if i == 3 {
        McpPolicy::Allow
    } else if i == 4 {
        McpPolicy::Allow
    } else if i == 5 {
        McpPolicy::Allow
    } else if i == 6 {
        McpPolicy::Allow
    } else if i == 7 {
        McpPolicy::Allow
    } else if i == 8 {
        McpPolicy::Allow
    } else if i == 9 {
        McpPolicy::Allow
    } else if i == 10 {
        McpPolicy::Allow
    } else if i == 11 {
        McpPolicy::Allow
    } else if i == 12 {
        McpPolicy::Allow
    } else if i == 13 {
        McpPolicy::Deny
    } else if i == 14 {
        McpPolicy::Deny
    } else if i == 15 {
        McpPolicy::Deny
    } else if i == 16 {
        McpPolicy::Deny
    } else if i == 17 {
        McpPolicy::Deny
    } else if i == 18 {
        McpPolicy::Deny
    } else if i == 19 {
        McpPolicy::Allow
    } else if i == 20 {
        McpPolicy::Allow
    } else if i == 21 {
        McpPolicy::Allow
    } else if i == 22 {
        McpPolicy::Deny
    } else if i == 23 {
        McpPolicy::Deny
    } else if i == 24 {
        McpPolicy::Allow
    } else if i == 25 {
        McpPolicy::Allow
    } else if i == 26 {
        McpPolicy::Allow
    } else if i == 27 {
        McpPolicy::Allow
    } else if i == 28 {
        McpPolicy::Allow
    } else if i == 29 {
        McpPolicy::Deny
    } else if i == 30 {
        McpPolicy::Deny
    } else if i == 31 {
        McpPolicy::Deny
    } else if i == 32 {
        McpPolicy::Deny
    } else if i == 33 {
        McpPolicy::Deny
    } else if i == 34 {
        McpPolicy::Deny
    } else if i == 35 {
        McpPolicy::Deny
    } else if i == 36 {
        McpPolicy::Allow
    } else if i == 37 {
        McpPolicy::Allow
    } else if i == 38 {
        McpPolicy::Allow
    } else if i == 39 {
        McpPolicy::Allow
    } else if i == 40 {
        McpPolicy::Allow
    } else if i == 41 {
        McpPolicy::Allow
    } else if i == 42 {
        McpPolicy::Allow
    } else if i == 43 {
        McpPolicy::Allow
    } else if i == 44 {
        McpPolicy::Allow
    } else if i == 45 {
        McpPolicy::Allow
    } else if i == 46 {
        McpPolicy::Ask
    } else if i == 47 {
        McpPolicy::Allow
    } else if i == 48 {
        McpPolicy::Allow
    } else if i == 49 {
        McpPolicy::Ask
    } else if i == 50 {
        McpPolicy::Allow
    } else if i == 51 {
        McpPolicy::Allow
    } else if i == 52 {
        McpPolicy::Allow
    } else if i == 53 {
        McpPolicy::Allow
    } else if i == 54 {
        McpPolicy::Allow
    } else if i == 55 {
        McpPolicy::Deny
    } else if i == 56 {
        McpPolicy::Deny
    } else if i == 57 {
        McpPolicy::Deny
    } else if i == 58 {
        McpPolicy::Deny
    } else if i == 59 {
        McpPolicy::Deny
    } else if i == 60 {
        McpPolicy::Allow
    } else if i == 61 {
        McpPolicy::Deny
    } else if i == 62 {
        McpPolicy::Allow
    } else if i == 63 {
        McpPolicy::Allow
    } else if i == 64 {
        McpPolicy::Allow
    } else if i == 65 {
        McpPolicy::Deny
    } else if i == 66 {
        McpPolicy::Allow
    } else if i == 67 {
        McpPolicy::Deny
    } else if i == 68 {
        McpPolicy::Deny
    } else if i == 69 {
        McpPolicy::Deny
    } else if i == 70 {
        McpPolicy::Deny
    } else if i == 71 {
        McpPolicy::Allow
    } else if i == 72 {
        McpPolicy::Allow
    } else if i == 73 {
        McpPolicy::Allow
    } else if i == 74 {
        McpPolicy::Deny
    } else if i == 75 {
        McpPolicy::Deny
    } else if i == 76 {
        McpPolicy::Deny
    } else if i == 77 {
        McpPolicy::Deny
    } else if i == 78 {
        McpPolicy::Allow
    } else if i == 79 {
        McpPolicy::Allow
    } else if i == 80 {
        McpPolicy::Allow
    } else if i == 81 {
        McpPolicy::Allow
    } else if i == 82 {
        McpPolicy::Allow
    } else if i == 83 {
        McpPolicy::Allow
    } else if i == 84 {
        McpPolicy::Allow
    } else if i == 85 {
        McpPolicy::Allow
    } else if i == 86 {
        McpPolicy::Allow
    } else if i == 87 {
        McpPolicy::Allow
    } else if i == 88 {
        McpPolicy::Allow
    } else if i == 89 {
        McpPolicy::Allow
    } else if i == 90 {
        McpPolicy::Allow
    } else if i == 91 {
        McpPolicy::Allow
    } else if i == 92 {
        McpPolicy::Allow
    } else if i == 93 {
        McpPolicy::Allow
    } else if i == 94 {
        McpPolicy::Allow
    } else if i == 95 {
        McpPolicy::Ask
    } else if i == 96 {
        McpPolicy::Allow
    } else if i == 97 {
        McpPolicy::Allow
    } else if i == 98 {
        McpPolicy::Allow
    } else if i == 99 {
        McpPolicy::Allow
    } else if i == 100 {
        McpPolicy::Allow
    } else if i == 101 {
        McpPolicy::Deny
    } else if i == 102 {
        McpPolicy::Deny
    } else if i == 103 {
        McpPolicy::Allow
    } else if i == 104 {
        McpPolicy::Deny
    } else if i == 105 {
        McpPolicy::Deny
    } else if i == 106 {
        McpPolicy::Allow
    } else if i == 107 {
        McpPolicy::Allow
    } else if i == 108 {
        McpPolicy::Allow
    } else if i == 109 {
        McpPolicy::Allow
    } else if i == 110 {
        McpPolicy::Allow
    } else if i == 111 {
        McpPolicy::Allow
    } else if i == 112 {
        McpPolicy::Ask
    } else if i == 113 {
        McpPolicy::Allow
    } else if i == 114 {
        McpPolicy::Allow
    } else if i == 115 {
        McpPolicy::Allow
    } else if i == 116 {
        McpPolicy::Allow
    } else if i == 117 {
        McpPolicy::Allow
    } else if i == 118 {
        McpPolicy::Allow
    } else if i == 119 {
        McpPolicy::Allow
    } else if i == 120 {
        McpPolicy::Allow
    } else if i == 121 {
        McpPolicy::Allow
    } else if i == 122 {
        McpPolicy::Allow
    } else if i == 123 {
        McpPolicy::Allow
    } else if i == 124 {
        McpPolicy::Allow
    } else if i == 125 {
        McpPolicy::Allow
    } else if i == 126 {
        McpPolicy::Allow
    } else if i == 127 {
        McpPolicy::Allow
    } else if i == 128 {
        McpPolicy::Allow
    } else if i == 129 {
        McpPolicy::Allow
    } else if i == 130 {
        McpPolicy::Deny
    } else if i == 131 {
        McpPolicy::Deny
    } else if i == 132 {
        McpPolicy::Deny
    } else if i == 133 {
        McpPolicy::Deny
    } else if i == 134 {
        McpPolicy::Deny
    } else if i == 135 {
        McpPolicy::Deny
    } else if i == 136 {
        McpPolicy::Deny
    } else if i == 137 {
        McpPolicy::Deny
    } else if i == 138 {
        McpPolicy::Deny
    } else if i == 139 {
        McpPolicy::Deny
    } else if i == 140 {
        McpPolicy::Deny
    } else if i == 141 {
        McpPolicy::Allow
    } else if i == 142 {
        McpPolicy::Ask
    } else if i == 143 {
        McpPolicy::Allow
    } else if i == 144 {
        McpPolicy::Allow
    } else if i == 145 {
        McpPolicy::Allow
    } else if i == 146 {
        McpPolicy::Allow
    } else if i == 147 {
        McpPolicy::Allow
    } else if i == 148 {
        McpPolicy::Ask
    } else if i == 149 {
        McpPolicy::Ask
    } else if i == 150 {
        McpPolicy::Deny
    } else if i == 151 {
        McpPolicy::Deny
    } else if i == 152 {
        McpPolicy::Deny
    } else if i == 153 {
        McpPolicy::Allow
    } else if i == 154 {
        McpPolicy::Allow
    } else if i == 155 {
        McpPolicy::Deny
    } else if i == 156 {
        McpPolicy::Allow
    } else if i == 157 {
        McpPolicy::Ask
    } else if i == 158 {
        McpPolicy::Allow
    } else if i == 159 {
        McpPolicy::Allow
    } else if i == 160 {
        McpPolicy::Allow
    } else if i == 161 {
        McpPolicy::Allow
    } else if i == 162 {
        McpPolicy::Allow
    } else if i == 163 {
        McpPolicy::Allow
    } else if i == 164 {
        McpPolicy::Deny
    } else if i == 165 {
        McpPolicy::Allow
    } else if i == 166 {
        McpPolicy::Allow
    } else if i == 167 {
        McpPolicy::Allow
    } else if i == 168 {
        McpPolicy::Allow
    } else {
        McpPolicy::Allow
    }
}

/// The row an Action is declared in.
pub open spec fn spec_action_index(a: Action) -> nat {
    match a {
        Action::Buffer(BufferAction::Insert { .. }) => 0,
        Action::Buffer(BufferAction::Delete { .. }) => 1,
        Action::Buffer(BufferAction::Replace { .. }) => 2,
        Action::Buffer(BufferAction::ApplyEdits { .. }) => 3,
        Action::Buffer(BufferAction::Yank { .. }) => 4,
        Action::Buffer(BufferAction::Paste { .. }) => 5,
        Action::Buffer(BufferAction::SetRegister { .. }) => 6,
        Action::Buffer(BufferAction::Indent { .. }) => 7,
        Action::Buffer(BufferAction::InsertIndent { .. }) => 8,
        Action::Buffer(BufferAction::JoinLines { .. }) => 9,
        Action::Buffer(BufferAction::SetCase { .. }) => 10,
        Action::Buffer(BufferAction::ToggleComment { .. }) => 11,
        Action::Buffer(BufferAction::AlignColumns { .. }) => 12,
        Action::Motion(MotionAction::MoveCursor { .. }) => 13,
        Action::Motion(MotionAction::SetCursor { .. }) => 14,
        Action::Motion(MotionAction::SelectRange { .. }) => 15,
        Action::Motion(MotionAction::SelectObject { .. }) => 16,
        Action::Motion(MotionAction::ExtendSelection { .. }) => 17,
        Action::Motion(MotionAction::ClearSelection { .. }) => 18,
        Action::Motion(MotionAction::GotoSequence { .. }) => 19,
        Action::Motion(MotionAction::GotoLocation { .. }) => 20,
        Action::Motion(MotionAction::GotoAnchor { .. }) => 21,
        Action::Motion(MotionAction::Jump { .. }) => 22,
        Action::View(ViewAction::Scroll { .. }) => 23,
        Action::View(ViewAction::SetSoftWrap { .. }) => 24,
        Action::View(ViewAction::SetFold { .. }) => 25,
        Action::View(ViewAction::FoldAll { .. }) => 26,
        Action::View(ViewAction::UnfoldAll { .. }) => 27,
        Action::View(ViewAction::SetVirtualTextVisible { .. }) => 28,
        Action::Input(InputAction::SetMode { .. }) => 29,
        Action::Input(InputAction::SetCount { .. }) => 30,
        Action::Input(InputAction::SelectRegister { .. }) => 31,
        Action::Input(InputAction::CancelPending { .. }) => 32,
        Action::Input(InputAction::FeedKeys { .. }) => 33,
        Action::Input(InputAction::RepeatLast { .. }) => 34,
        Action::Input(InputAction::SetMacroRecording { .. }) => 35,
        Action::History(HistoryAction::Undo { .. }) => 36,
        Action::History(HistoryAction::Redo { .. }) => 37,
        Action::History(HistoryAction::UndoToCheckpoint { .. }) => 38,
        Action::History(HistoryAction::CommitUndoGroup { .. }) => 39,
        Action::History(HistoryAction::CompactHistory { .. }) => 40,
        Action::File(FileAction::OpenFile { .. }) => 41,
        Action::File(FileAction::OpenAlternate { .. }) => 42,
        Action::File(FileAction::SaveBuffer { .. }) => 43,
        Action::File(FileAction::SaveAll { .. }) => 44,
        Action::File(FileAction::CloseBuffer { .. }) => 45,
        Action::File(FileAction::ReloadFromDisk { .. }) => 46,
        Action::File(FileAction::NoteDiskChange { .. }) => 47,
        Action::File(FileAction::OpenDiskDiff { .. }) => 48,
        Action::File(FileAction::ResolveDiskDiff { .. }) => 49,
        Action::File(FileAction::SetFileWatch { .. }) => 50,
        Action::Float(FloatAction::OpenFloat { .. }) => 51,
        Action::Float(FloatAction::CloseFloat { .. }) => 52,
        Action::Float(FloatAction::CloseAllFloats { .. }) => 53,
        Action::Float(FloatAction::DefineFloatSurface { .. }) => 54,
        Action::Float(FloatAction::FloatSelect { .. }) => 55,
        Action::Float(FloatAction::FloatSelectRow { .. }) => 56,
        Action::Float(FloatAction::FloatAccept { .. }) => 57,
        Action::Float(FloatAction::FloatAnswer { .. }) => 58,
        Action::Float(FloatAction::FloatToggleFold { .. }) => 59,
        Action::Pane(PaneAction::SplitPane { .. }) => 60,
        Action::Pane(PaneAction::FocusPane { .. }) => 61,
        Action::Pane(PaneAction::ClosePane { .. }) => 62,
        Action::Pane(PaneAction::ResizePane { .. }) => 63,
        Action::Pane(PaneAction::SetPaneContent { .. }) => 64,
        Action::Pane(PaneAction::CreatePaneFromView { .. }) => 65,
        Action::Picker(PickerAction::OpenPicker { .. }) => 66,
        Action::Picker(PickerAction::SetPickerQuery { .. }) => 67,
        Action::Picker(PickerAction::CyclePickerSource { .. }) => 68,
        Action::Picker(PickerAction::PickerAccept { .. }) => 69,
        Action::Picker(PickerAction::TogglePickerPreview { .. }) => 70,
        Action::Picker(PickerAction::DefinePickerSource { .. }) => 71,
        Action::Picker(PickerAction::InvalidatePickerSource { .. }) => 72,
        Action::Prompt(PromptAction::OpenPrompt { .. }) => 73,
        Action::Prompt(PromptAction::SetPromptText { .. }) => 74,
        Action::Prompt(PromptAction::SubmitPrompt { .. }) => 75,
        Action::Prompt(PromptAction::CancelPrompt { .. }) => 76,
        Action::Prompt(PromptAction::PromptHistory { .. }) => 77,
        Action::Region(RegionAction::MarkSeen { .. }) => 78,
        Action::Region(RegionAction::MarkUnseen { .. }) => 79,
        Action::Region(RegionAction::DeclareRegions { .. }) => 80,
        Action::Region(RegionAction::PlaceAnchor { .. }) => 81,
        Action::Region(RegionAction::Reanchor { .. }) => 82,
        Action::Region(RegionAction::DropRegions { .. }) => 83,
        Action::Thread(ThreadAction::StartThread { .. }) => 84,
        Action::Thread(ThreadAction::ReplyToThread { .. }) => 85,
        Action::Thread(ThreadAction::ResolveThread { .. }) => 86,
        Action::Thread(ThreadAction::DeleteThread { .. }) => 87,
        Action::Thread(ThreadAction::BroadcastThread { .. }) => 88,
        Action::Review(ReviewAction::DeclareReviewBlock { .. }) => 89,
        Action::Review(ReviewAction::OpenReviewBlock { .. }) => 90,
        Action::Review(ReviewAction::SetDiffMode { .. }) => 91,
        Action::Review(ReviewAction::ExpandDiffContext { .. }) => 92,
        Action::Review(ReviewAction::SetDiffGrouping { .. }) => 93,
        Action::Review(ReviewAction::AnnotateGroup { .. }) => 94,
        Action::Review(ReviewAction::RevertHunk { .. }) => 95,
        Action::Review(ReviewAction::OpenHunkPeek { .. }) => 96,
        Action::Inbox(InboxAction::OpenInbox { .. }) => 97,
        Action::Inbox(InboxAction::OpenInboxItem { .. }) => 98,
        Action::Inbox(InboxAction::Notify { .. }) => 99,
        Action::Ask(AskAction::EnqueueAsk { .. }) => 100,
        Action::Ask(AskAction::AnswerAsk { .. }) => 101,
        Action::Ask(AskAction::DeferAsk { .. }) => 102,
        Action::Ask(AskAction::RequestPermission { .. }) => 103,
        Action::Ask(AskAction::GrantPermission { .. }) => 104,
        Action::Ask(AskAction::DenyPermission { .. }) => 105,
        Action::Session(SessionAction::StartSession { .. }) => 106,
        Action::Session(SessionAction::DiscoverSessions { .. }) => 107,
        Action::Session(SessionAction::AdoptSession { .. }) => 108,
        Action::Session(SessionAction::AttachSession { .. }) => 109,
        Action::Session(SessionAction::ReattachSession { .. }) => 110,
        Action::Session(SessionAction::DetachSession { .. }) => 111,
        Action::Session(SessionAction::EndSession { .. }) => 112,
        Action::Session(SessionAction::SendMessage { .. }) => 113,
        Action::Session(SessionAction::InterruptSession { .. }) => 114,
        Action::Session(SessionAction::SteerSession { .. }) => 115,
        Action::Session(SessionAction::ResumeSession { .. }) => 116,
        Action::Session(SessionAction::AbortTurn { .. }) => 117,
        Action::Session(SessionAction::TurnBegan { .. }) => 118,
        Action::Session(SessionAction::TurnEnded { .. }) => 119,
        Action::Session(SessionAction::SessionProse { .. }) => 120,
        Action::Session(SessionAction::ToolCallStarted { .. }) => 121,
        Action::Session(SessionAction::ToolCallProgress { .. }) => 122,
        Action::Session(SessionAction::ToolCallCompleted { .. }) => 123,
        Action::Session(SessionAction::SessionSeam { .. }) => 124,
        Action::Watch(WatchAction::PlaceWatch { .. }) => 125,
        Action::Watch(WatchAction::RemoveWatch { .. }) => 126,
        Action::Watch(WatchAction::SetWatchVisible { .. }) => 127,
        Action::Watch(WatchAction::PushWatchValues { .. }) => 128,
        Action::Watch(WatchAction::ClearWatchValues { .. }) => 129,
        Action::Lsp(LspAction::RequestCompletion { .. }) => 130,
        Action::Lsp(LspAction::MoveCompletion { .. }) => 131,
        Action::Lsp(LspAction::AcceptCompletion { .. }) => 132,
        Action::Lsp(LspAction::CancelCompletion { .. }) => 133,
        Action::Lsp(LspAction::RequestHover { .. }) => 134,
        Action::Lsp(LspAction::RequestSignatureHelp { .. }) => 135,
        Action::Lsp(LspAction::RequestDefinition { .. }) => 136,
        Action::Lsp(LspAction::RequestReferences { .. }) => 137,
        Action::Lsp(LspAction::IngestCompletions { .. }) => 138,
        Action::Lsp(LspAction::IngestSignatureHelp { .. }) => 139,
        Action::Lsp(LspAction::IngestHover { .. }) => 140,
        Action::Lsp(LspAction::IngestDiagnostics { .. }) => 141,
        Action::Lsp(LspAction::ApplyWorkspaceEdit { .. }) => 142,
        Action::Lsp(LspAction::RestartLanguageServer { .. }) => 143,
        Action::Vcs(VcsAction::RefreshVcs { .. }) => 144,
        Action::Vcs(VcsAction::OpenTimeline { .. }) => 145,
        Action::Vcs(VcsAction::ShowChangeDiff { .. }) => 146,
        Action::Vcs(VcsAction::OpenOperationLog { .. }) => 147,
        Action::Vcs(VcsAction::EditAtChange { .. }) => 148,
        Action::Vcs(VcsAction::RestoreChange { .. }) => 149,
        Action::Runtime(RuntimeAction::Eval { .. }) => 150,
        Action::Runtime(RuntimeAction::LoadRuntimeFile { .. }) => 151,
        Action::Runtime(RuntimeAction::ReloadRuntime { .. }) => 152,
        Action::Runtime(RuntimeAction::OpenRepl { .. }) => 153,
        Action::Runtime(RuntimeAction::CloseRepl { .. }) => 154,
        Action::Runtime(RuntimeAction::ReplHistory { .. }) => 155,
        Action::Runtime(RuntimeAction::ReplToBuffer { .. }) => 156,
        Action::Runtime(RuntimeAction::PersistForm { .. }) => 157,
        Action::Runtime(RuntimeAction::SetKeybinding { .. }) => 158,
        Action::Runtime(RuntimeAction::RemoveKeybinding { .. }) => 159,
        Action::Runtime(RuntimeAction::DefineLanguage { .. }) => 160,
        Action::Runtime(RuntimeAction::SetOption { .. }) => 161,
        Action::Runtime(RuntimeAction::SetTheme { .. }) => 162,
        Action::Runtime(RuntimeAction::ReloadTheme { .. }) => 163,
        Action::App(AppAction::Quit { .. }) => 164,
        Action::App(AppAction::ShowUnknownKeyHint { .. }) => 165,
        Action::App(AppAction::OpenHelp { .. }) => 166,
        Action::App(AppAction::OpenArch { .. }) => 167,
        Action::App(AppAction::OpenDashboard { .. }) => 168,
        Action::App(AppAction::DismissDashboardHint { .. }) => 169,
    }
}

/// An Action's door name.
pub open spec fn spec_action_name(a: Action) -> Seq<char> {
    match a {
        Action::Buffer(BufferAction::Insert { .. }) => "insert"@,
        Action::Buffer(BufferAction::Delete { .. }) => "delete"@,
        Action::Buffer(BufferAction::Replace { .. }) => "replace"@,
        Action::Buffer(BufferAction::ApplyEdits { .. }) => "apply-edits"@,
        Action::Buffer(BufferAction::Yank { .. }) => "yank"@,
        Action::Buffer(BufferAction::Paste { .. }) => "paste"@,
        Action::Buffer(BufferAction::SetRegister { .. }) => "set-register"@,
        Action::Buffer(BufferAction::Indent { .. }) => "indent"@,
        Action::Buffer(BufferAction::InsertIndent { .. }) => "insert-indent"@,
        Action::Buffer(BufferAction::JoinLines { .. }) => "join-lines"@,
        Action::Buffer(BufferAction::SetCase { .. }) => "set-case"@,
        Action::Buffer(BufferAction::ToggleComment { .. }) => "toggle-comment"@,
        Action::Buffer(BufferAction::AlignColumns { .. }) => "align-columns"@,
        Action::Motion(MotionAction::MoveCursor { .. }) => "move-cursor"@,
        Action::Motion(MotionAction::SetCursor { .. }) => "set-cursor"@,
        Action::Motion(MotionAction::SelectRange { .. }) => "select-range"@,
        Action::Motion(MotionAction::SelectObject { .. }) => "select-object"@,
        Action::Motion(MotionAction::ExtendSelection { .. }) => "extend-selection"@,
        Action::Motion(MotionAction::ClearSelection { .. }) => "clear-selection"@,
        Action::Motion(MotionAction::GotoSequence { .. }) => "goto-sequence"@,
        Action::Motion(MotionAction::GotoLocation { .. }) => "goto-location"@,
        Action::Motion(MotionAction::GotoAnchor { .. }) => "goto-anchor"@,
        Action::Motion(MotionAction::Jump { .. }) => "jump"@,
        Action::View(ViewAction::Scroll { .. }) => "scroll"@,
        Action::View(ViewAction::SetSoftWrap { .. }) => "set-soft-wrap"@,
        Action::View(ViewAction::SetFold { .. }) => "set-fold"@,
        Action::View(ViewAction::FoldAll { .. }) => "fold-all"@,
        Action::View(ViewAction::UnfoldAll { .. }) => "unfold-all"@,
        Action::View(ViewAction::SetVirtualTextVisible { .. }) => "set-virtual-text-visible"@,
        Action::Input(InputAction::SetMode { .. }) => "set-mode"@,
        Action::Input(InputAction::SetCount { .. }) => "set-count"@,
        Action::Input(InputAction::SelectRegister { .. }) => "select-register"@,
        Action::Input(InputAction::CancelPending { .. }) => "cancel-pending"@,
        Action::Input(InputAction::FeedKeys { .. }) => "feed-keys"@,
        Action::Input(InputAction::RepeatLast { .. }) => "repeat-last"@,
        Action::Input(InputAction::SetMacroRecording { .. }) => "set-macro-recording"@,
        Action::History(HistoryAction::Undo { .. }) => "undo"@,
        Action::History(HistoryAction::Redo { .. }) => "redo"@,
        Action::History(HistoryAction::UndoToCheckpoint { .. }) => "undo-to-checkpoint"@,
        Action::History(HistoryAction::CommitUndoGroup { .. }) => "commit-undo-group"@,
        Action::History(HistoryAction::CompactHistory { .. }) => "compact-history"@,
        Action::File(FileAction::OpenFile { .. }) => "open-file"@,
        Action::File(FileAction::OpenAlternate { .. }) => "open-alternate"@,
        Action::File(FileAction::SaveBuffer { .. }) => "save-buffer"@,
        Action::File(FileAction::SaveAll { .. }) => "save-all"@,
        Action::File(FileAction::CloseBuffer { .. }) => "close-buffer"@,
        Action::File(FileAction::ReloadFromDisk { .. }) => "reload-from-disk"@,
        Action::File(FileAction::NoteDiskChange { .. }) => "note-disk-change"@,
        Action::File(FileAction::OpenDiskDiff { .. }) => "open-disk-diff"@,
        Action::File(FileAction::ResolveDiskDiff { .. }) => "resolve-disk-diff"@,
        Action::File(FileAction::SetFileWatch { .. }) => "set-file-watch"@,
        Action::Float(FloatAction::OpenFloat { .. }) => "open-float"@,
        Action::Float(FloatAction::CloseFloat { .. }) => "close-float"@,
        Action::Float(FloatAction::CloseAllFloats { .. }) => "close-all-floats"@,
        Action::Float(FloatAction::DefineFloatSurface { .. }) => "define-float-surface"@,
        Action::Float(FloatAction::FloatSelect { .. }) => "float-select"@,
        Action::Float(FloatAction::FloatSelectRow { .. }) => "float-select-row"@,
        Action::Float(FloatAction::FloatAccept { .. }) => "float-accept"@,
        Action::Float(FloatAction::FloatAnswer { .. }) => "float-answer"@,
        Action::Float(FloatAction::FloatToggleFold { .. }) => "float-toggle-fold"@,
        Action::Pane(PaneAction::SplitPane { .. }) => "split-pane"@,
        Action::Pane(PaneAction::FocusPane { .. }) => "focus-pane"@,
        Action::Pane(PaneAction::ClosePane { .. }) => "close-pane"@,
        Action::Pane(PaneAction::ResizePane { .. }) => "resize-pane"@,
        Action::Pane(PaneAction::SetPaneContent { .. }) => "set-pane-content"@,
        Action::Pane(PaneAction::CreatePaneFromView { .. }) => "create-pane-from-view"@,
        Action::Picker(PickerAction::OpenPicker { .. }) => "open-picker"@,
        Action::Picker(PickerAction::SetPickerQuery { .. }) => "set-picker-query"@,
        Action::Picker(PickerAction::CyclePickerSource { .. }) => "cycle-picker-source"@,
        Action::Picker(PickerAction::PickerAccept { .. }) => "picker-accept"@,
        Action::Picker(PickerAction::TogglePickerPreview { .. }) => "toggle-picker-preview"@,
        Action::Picker(PickerAction::DefinePickerSource { .. }) => "define-picker-source"@,
        Action::Picker(PickerAction::InvalidatePickerSource { .. }) => "invalidate-picker-source"@,
        Action::Prompt(PromptAction::OpenPrompt { .. }) => "open-prompt"@,
        Action::Prompt(PromptAction::SetPromptText { .. }) => "set-prompt-text"@,
        Action::Prompt(PromptAction::SubmitPrompt { .. }) => "submit-prompt"@,
        Action::Prompt(PromptAction::CancelPrompt { .. }) => "cancel-prompt"@,
        Action::Prompt(PromptAction::PromptHistory { .. }) => "prompt-history"@,
        Action::Region(RegionAction::MarkSeen { .. }) => "mark-seen"@,
        Action::Region(RegionAction::MarkUnseen { .. }) => "mark-unseen"@,
        Action::Region(RegionAction::DeclareRegions { .. }) => "declare-regions"@,
        Action::Region(RegionAction::PlaceAnchor { .. }) => "place-anchor"@,
        Action::Region(RegionAction::Reanchor { .. }) => "reanchor"@,
        Action::Region(RegionAction::DropRegions { .. }) => "drop-regions"@,
        Action::Thread(ThreadAction::StartThread { .. }) => "start-thread"@,
        Action::Thread(ThreadAction::ReplyToThread { .. }) => "reply-to-thread"@,
        Action::Thread(ThreadAction::ResolveThread { .. }) => "resolve-thread"@,
        Action::Thread(ThreadAction::DeleteThread { .. }) => "delete-thread"@,
        Action::Thread(ThreadAction::BroadcastThread { .. }) => "broadcast-thread"@,
        Action::Review(ReviewAction::DeclareReviewBlock { .. }) => "declare-review-block"@,
        Action::Review(ReviewAction::OpenReviewBlock { .. }) => "open-review-block"@,
        Action::Review(ReviewAction::SetDiffMode { .. }) => "set-diff-mode"@,
        Action::Review(ReviewAction::ExpandDiffContext { .. }) => "expand-diff-context"@,
        Action::Review(ReviewAction::SetDiffGrouping { .. }) => "set-diff-grouping"@,
        Action::Review(ReviewAction::AnnotateGroup { .. }) => "annotate-group"@,
        Action::Review(ReviewAction::RevertHunk { .. }) => "revert-hunk"@,
        Action::Review(ReviewAction::OpenHunkPeek { .. }) => "open-hunk-peek"@,
        Action::Inbox(InboxAction::OpenInbox { .. }) => "open-inbox"@,
        Action::Inbox(InboxAction::OpenInboxItem { .. }) => "open-inbox-item"@,
        Action::Inbox(InboxAction::Notify { .. }) => "notify"@,
        Action::Ask(AskAction::EnqueueAsk { .. }) => "enqueue-ask"@,
        Action::Ask(AskAction::AnswerAsk { .. }) => "answer-ask"@,
        Action::Ask(AskAction::DeferAsk { .. }) => "defer-ask"@,
        Action::Ask(AskAction::RequestPermission { .. }) => "request-permission"@,
        Action::Ask(AskAction::GrantPermission { .. }) => "grant-permission"@,
        Action::Ask(AskAction::DenyPermission { .. }) => "deny-permission"@,
        Action::Session(SessionAction::StartSession { .. }) => "start-session"@,
        Action::Session(SessionAction::DiscoverSessions { .. }) => "discover-sessions"@,
        Action::Session(SessionAction::AdoptSession { .. }) => "adopt-session"@,
        Action::Session(SessionAction::AttachSession { .. }) => "attach-session"@,
        Action::Session(SessionAction::ReattachSession { .. }) => "reattach-session"@,
        Action::Session(SessionAction::DetachSession { .. }) => "detach-session"@,
        Action::Session(SessionAction::EndSession { .. }) => "end-session"@,
        Action::Session(SessionAction::SendMessage { .. }) => "send-message"@,
        Action::Session(SessionAction::InterruptSession { .. }) => "interrupt-session"@,
        Action::Session(SessionAction::SteerSession { .. }) => "steer-session"@,
        Action::Session(SessionAction::ResumeSession { .. }) => "resume-session"@,
        Action::Session(SessionAction::AbortTurn { .. }) => "abort-turn"@,
        Action::Session(SessionAction::TurnBegan { .. }) => "turn-began"@,
        Action::Session(SessionAction::TurnEnded { .. }) => "turn-ended"@,
        Action::Session(SessionAction::SessionProse { .. }) => "session-prose"@,
        Action::Session(SessionAction::ToolCallStarted { .. }) => "tool-call-started"@,
        Action::Session(SessionAction::ToolCallProgress { .. }) => "tool-call-progress"@,
        Action::Session(SessionAction::ToolCallCompleted { .. }) => "tool-call-completed"@,
        Action::Session(SessionAction::SessionSeam { .. }) => "session-seam"@,
        Action::Watch(WatchAction::PlaceWatch { .. }) => "place-watch"@,
        Action::Watch(WatchAction::RemoveWatch { .. }) => "remove-watch"@,
        Action::Watch(WatchAction::SetWatchVisible { .. }) => "set-watch-visible"@,
        Action::Watch(WatchAction::PushWatchValues { .. }) => "push-watch-values"@,
        Action::Watch(WatchAction::ClearWatchValues { .. }) => "clear-watch-values"@,
        Action::Lsp(LspAction::RequestCompletion { .. }) => "request-completion"@,
        Action::Lsp(LspAction::MoveCompletion { .. }) => "move-completion"@,
        Action::Lsp(LspAction::AcceptCompletion { .. }) => "accept-completion"@,
        Action::Lsp(LspAction::CancelCompletion { .. }) => "cancel-completion"@,
        Action::Lsp(LspAction::RequestHover { .. }) => "request-hover"@,
        Action::Lsp(LspAction::RequestSignatureHelp { .. }) => "request-signature-help"@,
        Action::Lsp(LspAction::RequestDefinition { .. }) => "request-definition"@,
        Action::Lsp(LspAction::RequestReferences { .. }) => "request-references"@,
        Action::Lsp(LspAction::IngestCompletions { .. }) => "ingest-completions"@,
        Action::Lsp(LspAction::IngestSignatureHelp { .. }) => "ingest-signature-help"@,
        Action::Lsp(LspAction::IngestHover { .. }) => "ingest-hover"@,
        Action::Lsp(LspAction::IngestDiagnostics { .. }) => "ingest-diagnostics"@,
        Action::Lsp(LspAction::ApplyWorkspaceEdit { .. }) => "apply-workspace-edit"@,
        Action::Lsp(LspAction::RestartLanguageServer { .. }) => "restart-language-server"@,
        Action::Vcs(VcsAction::RefreshVcs { .. }) => "refresh-vcs"@,
        Action::Vcs(VcsAction::OpenTimeline { .. }) => "open-timeline"@,
        Action::Vcs(VcsAction::ShowChangeDiff { .. }) => "show-change-diff"@,
        Action::Vcs(VcsAction::OpenOperationLog { .. }) => "open-operation-log"@,
        Action::Vcs(VcsAction::EditAtChange { .. }) => "edit-at-change"@,
        Action::Vcs(VcsAction::RestoreChange { .. }) => "restore-change"@,
        Action::Runtime(RuntimeAction::Eval { .. }) => "eval"@,
        Action::Runtime(RuntimeAction::LoadRuntimeFile { .. }) => "load-runtime-file"@,
        Action::Runtime(RuntimeAction::ReloadRuntime { .. }) => "reload-runtime"@,
        Action::Runtime(RuntimeAction::OpenRepl { .. }) => "open-repl"@,
        Action::Runtime(RuntimeAction::CloseRepl { .. }) => "close-repl"@,
        Action::Runtime(RuntimeAction::ReplHistory { .. }) => "repl-history"@,
        Action::Runtime(RuntimeAction::ReplToBuffer { .. }) => "repl-to-buffer"@,
        Action::Runtime(RuntimeAction::PersistForm { .. }) => "persist-form"@,
        Action::Runtime(RuntimeAction::SetKeybinding { .. }) => "set-keybinding"@,
        Action::Runtime(RuntimeAction::RemoveKeybinding { .. }) => "remove-keybinding"@,
        Action::Runtime(RuntimeAction::DefineLanguage { .. }) => "define-language"@,
        Action::Runtime(RuntimeAction::SetOption { .. }) => "set-option"@,
        Action::Runtime(RuntimeAction::SetTheme { .. }) => "set-theme"@,
        Action::Runtime(RuntimeAction::ReloadTheme { .. }) => "reload-theme"@,
        Action::App(AppAction::Quit { .. }) => "quit"@,
        Action::App(AppAction::ShowUnknownKeyHint { .. }) => "show-unknown-key-hint"@,
        Action::App(AppAction::OpenHelp { .. }) => "open-help"@,
        Action::App(AppAction::OpenArch { .. }) => "open-arch"@,
        Action::App(AppAction::OpenDashboard { .. }) => "open-dashboard"@,
        Action::App(AppAction::DismissDashboardHint { .. }) => "dismiss-dashboard-hint"@,
    }
}

/// An Action's domain.
pub open spec fn spec_action_domain(a: Action) -> Seq<char> {
    match a {
        Action::Buffer(_) => "buffer"@,
        Action::Motion(_) => "motion"@,
        Action::View(_) => "view"@,
        Action::Input(_) => "input"@,
        Action::History(_) => "history"@,
        Action::File(_) => "file"@,
        Action::Float(_) => "float"@,
        Action::Pane(_) => "pane"@,
        Action::Picker(_) => "picker"@,
        Action::Prompt(_) => "prompt"@,
        Action::Region(_) => "region"@,
        Action::Thread(_) => "thread"@,
        Action::Review(_) => "review"@,
        Action::Inbox(_) => "inbox"@,
        Action::Ask(_) => "ask"@,
        Action::Session(_) => "session"@,
        Action::Watch(_) => "watch"@,
        Action::Lsp(_) => "lsp"@,
        Action::Vcs(_) => "vcs"@,
        Action::Runtime(_) => "runtime"@,
        Action::App(_) => "app"@,
    }
}

/// The door name in row `i`.
fn row_name(i: usize) -> (r: &'static str)
    requires
        i < spec_action_count(),
    ensures
        r@ == spec_row_name(i as nat),
{
    if i == 0 {
        "insert"
    } else if i == 1 {
        "delete"
    } else if i == 2 {
        "replace"
    } else if i == 3 {
        "apply-edits"
    } else if i == 4 {
        "yank"
    } else if i == 5 {
        "paste"
    } else if i == 6 {
        "set-register"
    } else if i == 7 {
        "indent"
    } else if i == 8 {
        "insert-indent"
    } else if i == 9 {
        "join-lines"
    } else if i == 10 {
        "set-case"
    } else if i == 11 {
        "toggle-comment"
    } else if i == 12 {
        "align-columns"
    } else if i == 13 {
        "move-cursor"
    } else if i == 14 {
        "set-cursor"
    } else if i == 15 {
        "select-range"
    } else if i == 16 {
        "select-object"
    } else if i == 17 {
        "extend-selection"
    } else if i == 18 {
        "clear-selection"
    } else if i == 19 {
        "goto-sequence"
    } else if i == 20 {
        "goto-location"
    } else if i == 21 {
        "goto-anchor"
    } else if i == 22 {
        "jump"
    } else if i == 23 {
        "scroll"
    } else if i == 24 {
        "set-soft-wrap"
    } else if i == 25 {
        "set-fold"
    } else if i == 26 {
        "fold-all"
    } else if i == 27 {
        "unfold-all"
    } else if i == 28 {
        "set-virtual-text-visible"
    } else if i == 29 {
        "set-mode"
    } else if i == 30 {
        "set-count"
    } else if i == 31 {
        "select-register"
    } else if i == 32 {
        "cancel-pending"
    } else if i == 33 {
        "feed-keys"
    } else if i == 34 {
        "repeat-last"
    } else if i == 35 {
        "set-macro-recording"
    } else if i == 36 {
        "undo"
    } else if i == 37 {
        "redo"
    } else if i == 38 {
        "undo-to-checkpoint"
    } else if i == 39 {
        "commit-undo-group"
    } else if i == 40 {
        "compact-history"
    } else if i == 41 {
        "open-file"
    } else if i == 42 {
        "open-alternate"
    } else if i == 43 {
        "save-buffer"
    } else if i == 44 {
        "save-all"
    } else if i == 45 {
        "close-buffer"
    } else if i == 46 {
        "reload-from-disk"
    } else if i == 47 {
        "note-disk-change"
    } else if i == 48 {
        "open-disk-diff"
    } else if i == 49 {
        "resolve-disk-diff"
    } else if i == 50 {
        "set-file-watch"
    } else if i == 51 {
        "open-float"
    } else if i == 52 {
        "close-float"
    } else if i == 53 {
        "close-all-floats"
    } else if i == 54 {
        "define-float-surface"
    } else if i == 55 {
        "float-select"
    } else if i == 56 {
        "float-select-row"
    } else if i == 57 {
        "float-accept"
    } else if i == 58 {
        "float-answer"
    } else if i == 59 {
        "float-toggle-fold"
    } else if i == 60 {
        "split-pane"
    } else if i == 61 {
        "focus-pane"
    } else if i == 62 {
        "close-pane"
    } else if i == 63 {
        "resize-pane"
    } else if i == 64 {
        "set-pane-content"
    } else if i == 65 {
        "create-pane-from-view"
    } else if i == 66 {
        "open-picker"
    } else if i == 67 {
        "set-picker-query"
    } else if i == 68 {
        "cycle-picker-source"
    } else if i == 69 {
        "picker-accept"
    } else if i == 70 {
        "toggle-picker-preview"
    } else if i == 71 {
        "define-picker-source"
    } else if i == 72 {
        "invalidate-picker-source"
    } else if i == 73 {
        "open-prompt"
    } else if i == 74 {
        "set-prompt-text"
    } else if i == 75 {
        "submit-prompt"
    } else if i == 76 {
        "cancel-prompt"
    } else if i == 77 {
        "prompt-history"
    } else if i == 78 {
        "mark-seen"
    } else if i == 79 {
        "mark-unseen"
    } else if i == 80 {
        "declare-regions"
    } else if i == 81 {
        "place-anchor"
    } else if i == 82 {
        "reanchor"
    } else if i == 83 {
        "drop-regions"
    } else if i == 84 {
        "start-thread"
    } else if i == 85 {
        "reply-to-thread"
    } else if i == 86 {
        "resolve-thread"
    } else if i == 87 {
        "delete-thread"
    } else if i == 88 {
        "broadcast-thread"
    } else if i == 89 {
        "declare-review-block"
    } else if i == 90 {
        "open-review-block"
    } else if i == 91 {
        "set-diff-mode"
    } else if i == 92 {
        "expand-diff-context"
    } else if i == 93 {
        "set-diff-grouping"
    } else if i == 94 {
        "annotate-group"
    } else if i == 95 {
        "revert-hunk"
    } else if i == 96 {
        "open-hunk-peek"
    } else if i == 97 {
        "open-inbox"
    } else if i == 98 {
        "open-inbox-item"
    } else if i == 99 {
        "notify"
    } else if i == 100 {
        "enqueue-ask"
    } else if i == 101 {
        "answer-ask"
    } else if i == 102 {
        "defer-ask"
    } else if i == 103 {
        "request-permission"
    } else if i == 104 {
        "grant-permission"
    } else if i == 105 {
        "deny-permission"
    } else if i == 106 {
        "start-session"
    } else if i == 107 {
        "discover-sessions"
    } else if i == 108 {
        "adopt-session"
    } else if i == 109 {
        "attach-session"
    } else if i == 110 {
        "reattach-session"
    } else if i == 111 {
        "detach-session"
    } else if i == 112 {
        "end-session"
    } else if i == 113 {
        "send-message"
    } else if i == 114 {
        "interrupt-session"
    } else if i == 115 {
        "steer-session"
    } else if i == 116 {
        "resume-session"
    } else if i == 117 {
        "abort-turn"
    } else if i == 118 {
        "turn-began"
    } else if i == 119 {
        "turn-ended"
    } else if i == 120 {
        "session-prose"
    } else if i == 121 {
        "tool-call-started"
    } else if i == 122 {
        "tool-call-progress"
    } else if i == 123 {
        "tool-call-completed"
    } else if i == 124 {
        "session-seam"
    } else if i == 125 {
        "place-watch"
    } else if i == 126 {
        "remove-watch"
    } else if i == 127 {
        "set-watch-visible"
    } else if i == 128 {
        "push-watch-values"
    } else if i == 129 {
        "clear-watch-values"
    } else if i == 130 {
        "request-completion"
    } else if i == 131 {
        "move-completion"
    } else if i == 132 {
        "accept-completion"
    } else if i == 133 {
        "cancel-completion"
    } else if i == 134 {
        "request-hover"
    } else if i == 135 {
        "request-signature-help"
    } else if i == 136 {
        "request-definition"
    } else if i == 137 {
        "request-references"
    } else if i == 138 {
        "ingest-completions"
    } else if i == 139 {
        "ingest-signature-help"
    } else if i == 140 {
        "ingest-hover"
    } else if i == 141 {
        "ingest-diagnostics"
    } else if i == 142 {
        "apply-workspace-edit"
    } else if i == 143 {
        "restart-language-server"
    } else if i == 144 {
        "refresh-vcs"
    } else if i == 145 {
        "open-timeline"
    } else if i == 146 {
        "show-change-diff"
    } else if i == 147 {
        "open-operation-log"
    } else if i == 148 {
        "edit-at-change"
    } else if i == 149 {
        "restore-change"
    } else if i == 150 {
        "eval"
    } else if i == 151 {
        "load-runtime-file"
    } else if i == 152 {
        "reload-runtime"
    } else if i == 153 {
        "open-repl"
    } else if i == 154 {
        "close-repl"
    } else if i == 155 {
        "repl-history"
    } else if i == 156 {
        "repl-to-buffer"
    } else if i == 157 {
        "persist-form"
    } else if i == 158 {
        "set-keybinding"
    } else if i == 159 {
        "remove-keybinding"
    } else if i == 160 {
        "define-language"
    } else if i == 161 {
        "set-option"
    } else if i == 162 {
        "set-theme"
    } else if i == 163 {
        "reload-theme"
    } else if i == 164 {
        "quit"
    } else if i == 165 {
        "show-unknown-key-hint"
    } else if i == 166 {
        "open-help"
    } else if i == 167 {
        "open-arch"
    } else if i == 168 {
        "open-dashboard"
    } else {
        "dismiss-dashboard-hint"
    }
}

/// The domain in row `i`.
fn row_domain(i: usize) -> (r: &'static str)
    requires
        i < spec_action_count(),
    ensures
        r@ == spec_row_domain(i as nat),
{
    if i == 0 {
        "buffer"
    } else if i == 1 {
        "buffer"
    } else if i == 2 {
        "buffer"
    } else if i == 3 {
        "buffer"
    } else if i == 4 {
        "buffer"
    } else if i == 5 {
        "buffer"
    } else if i == 6 {
        "buffer"
    } else if i == 7 {
        "buffer"
    } else if i == 8 {
        "buffer"
    } else if i == 9 {
        "buffer"
    } else if i == 10 {
        "buffer"
    } else if i == 11 {
        "buffer"
    } else if i == 12 {
        "buffer"
    } else if i == 13 {
        "motion"
    } else if i == 14 {
        "motion"
    } else if i == 15 {
        "motion"
    } else if i == 16 {
        "motion"
    } else if i == 17 {
        "motion"
    } else if i == 18 {
        "motion"
    } else if i == 19 {
        "motion"
    } else if i == 20 {
        "motion"
    } else if i == 21 {
        "motion"
    } else if i == 22 {
        "motion"
    } else if i == 23 {
        "view"
    } else if i == 24 {
        "view"
    } else if i == 25 {
        "view"
    } else if i == 26 {
        "view"
    } else if i == 27 {
        "view"
    } else if i == 28 {
        "view"
    } else if i == 29 {
        "input"
    } else if i == 30 {
        "input"
    } else if i == 31 {
        "input"
    } else if i == 32 {
        "input"
    } else if i == 33 {
        "input"
    } else if i == 34 {
        "input"
    } else if i == 35 {
        "input"
    } else if i == 36 {
        "history"
    } else if i == 37 {
        "history"
    } else if i == 38 {
        "history"
    } else if i == 39 {
        "history"
    } else if i == 40 {
        "history"
    } else if i == 41 {
        "file"
    } else if i == 42 {
        "file"
    } else if i == 43 {
        "file"
    } else if i == 44 {
        "file"
    } else if i == 45 {
        "file"
    } else if i == 46 {
        "file"
    } else if i == 47 {
        "file"
    } else if i == 48 {
        "file"
    } else if i == 49 {
        "file"
    } else if i == 50 {
        "file"
    } else if i == 51 {
        "float"
    } else if i == 52 {
        "float"
    } else if i == 53 {
        "float"
    } else if i == 54 {
        "float"
    } else if i == 55 {
        "float"
    } else if i == 56 {
        "float"
    } else if i == 57 {
        "float"
    } else if i == 58 {
        "float"
    } else if i == 59 {
        "float"
    } else if i == 60 {
        "pane"
    } else if i == 61 {
        "pane"
    } else if i == 62 {
        "pane"
    } else if i == 63 {
        "pane"
    } else if i == 64 {
        "pane"
    } else if i == 65 {
        "pane"
    } else if i == 66 {
        "picker"
    } else if i == 67 {
        "picker"
    } else if i == 68 {
        "picker"
    } else if i == 69 {
        "picker"
    } else if i == 70 {
        "picker"
    } else if i == 71 {
        "picker"
    } else if i == 72 {
        "picker"
    } else if i == 73 {
        "prompt"
    } else if i == 74 {
        "prompt"
    } else if i == 75 {
        "prompt"
    } else if i == 76 {
        "prompt"
    } else if i == 77 {
        "prompt"
    } else if i == 78 {
        "region"
    } else if i == 79 {
        "region"
    } else if i == 80 {
        "region"
    } else if i == 81 {
        "region"
    } else if i == 82 {
        "region"
    } else if i == 83 {
        "region"
    } else if i == 84 {
        "thread"
    } else if i == 85 {
        "thread"
    } else if i == 86 {
        "thread"
    } else if i == 87 {
        "thread"
    } else if i == 88 {
        "thread"
    } else if i == 89 {
        "review"
    } else if i == 90 {
        "review"
    } else if i == 91 {
        "review"
    } else if i == 92 {
        "review"
    } else if i == 93 {
        "review"
    } else if i == 94 {
        "review"
    } else if i == 95 {
        "review"
    } else if i == 96 {
        "review"
    } else if i == 97 {
        "inbox"
    } else if i == 98 {
        "inbox"
    } else if i == 99 {
        "inbox"
    } else if i == 100 {
        "ask"
    } else if i == 101 {
        "ask"
    } else if i == 102 {
        "ask"
    } else if i == 103 {
        "ask"
    } else if i == 104 {
        "ask"
    } else if i == 105 {
        "ask"
    } else if i == 106 {
        "session"
    } else if i == 107 {
        "session"
    } else if i == 108 {
        "session"
    } else if i == 109 {
        "session"
    } else if i == 110 {
        "session"
    } else if i == 111 {
        "session"
    } else if i == 112 {
        "session"
    } else if i == 113 {
        "session"
    } else if i == 114 {
        "session"
    } else if i == 115 {
        "session"
    } else if i == 116 {
        "session"
    } else if i == 117 {
        "session"
    } else if i == 118 {
        "session"
    } else if i == 119 {
        "session"
    } else if i == 120 {
        "session"
    } else if i == 121 {
        "session"
    } else if i == 122 {
        "session"
    } else if i == 123 {
        "session"
    } else if i == 124 {
        "session"
    } else if i == 125 {
        "watch"
    } else if i == 126 {
        "watch"
    } else if i == 127 {
        "watch"
    } else if i == 128 {
        "watch"
    } else if i == 129 {
        "watch"
    } else if i == 130 {
        "lsp"
    } else if i == 131 {
        "lsp"
    } else if i == 132 {
        "lsp"
    } else if i == 133 {
        "lsp"
    } else if i == 134 {
        "lsp"
    } else if i == 135 {
        "lsp"
    } else if i == 136 {
        "lsp"
    } else if i == 137 {
        "lsp"
    } else if i == 138 {
        "lsp"
    } else if i == 139 {
        "lsp"
    } else if i == 140 {
        "lsp"
    } else if i == 141 {
        "lsp"
    } else if i == 142 {
        "lsp"
    } else if i == 143 {
        "lsp"
    } else if i == 144 {
        "vcs"
    } else if i == 145 {
        "vcs"
    } else if i == 146 {
        "vcs"
    } else if i == 147 {
        "vcs"
    } else if i == 148 {
        "vcs"
    } else if i == 149 {
        "vcs"
    } else if i == 150 {
        "runtime"
    } else if i == 151 {
        "runtime"
    } else if i == 152 {
        "runtime"
    } else if i == 153 {
        "runtime"
    } else if i == 154 {
        "runtime"
    } else if i == 155 {
        "runtime"
    } else if i == 156 {
        "runtime"
    } else if i == 157 {
        "runtime"
    } else if i == 158 {
        "runtime"
    } else if i == 159 {
        "runtime"
    } else if i == 160 {
        "runtime"
    } else if i == 161 {
        "runtime"
    } else if i == 162 {
        "runtime"
    } else if i == 163 {
        "runtime"
    } else if i == 164 {
        "app"
    } else if i == 165 {
        "app"
    } else if i == 166 {
        "app"
    } else if i == 167 {
        "app"
    } else if i == 168 {
        "app"
    } else {
        "app"
    }
}

/// The description of row `i`.
pub open spec fn spec_row_doc(i: nat) -> Seq<char> {
    if i == 0 {
        "inserts text at a position"@
    } else if i == 1 {
        "removes a span"@
    } else if i == 2 {
        "replaces a span with text, in one edit"@
    } else if i == 3 {
        "applies a batch of edits as one undo group; the primitive T029's log replays"@
    } else if i == 4 {
        "copies a target into a register — \"ay ib"@
    } else if i == 5 {
        "puts a register's contents at a target"@
    } else if i == 6 {
        "sets a named register's contents outright"@
    } else if i == 7 {
        "shifts a target by whole indent levels; negative dedents"@
    } else if i == 8 {
        "types one indent level at the cursor, advancing to the next tabstop"@
    } else if i == 9 {
        "joins the lines of a target onto one"@
    } else if i == 10 {
        "upper-cases, lower-cases or toggles the letters of a target — gU, gu, ~"@
    } else if i == 11 {
        "comments or uncomments a target, using the language's own prefix"@
    } else if i == 12 {
        "re-aligns a delimited file's columns — CSV's bespoke surface, no grammar involved"@
    } else if i == 13 {
        "moves the cursor by a motion, count times"@
    } else if i == 14 {
        "puts the cursor at an absolute position — what a click and a jump both lower to"@
    } else if i == 15 {
        "selects a span characterwise, linewise or blockwise"@
    } else if i == 16 {
        "selects a text object — including the agent nouns u, h, t and b"@
    } else if i == 17 {
        "extends the live selection by a motion"@
    } else if i == 18 {
        "drops the selection"@
    } else if i == 19 {
        "walks a sequence — ]u unseen regions, ]] block files, ]! the ask queue"@
    } else if i == 20 {
        "opens a file at a position — a picker accept, a transcript tool row, an OSC 8 link"@
    } else if i == 21 {
        "jumps to an anchor, which survives the rewrite that moved it"@
    } else if i == 22 {
        "walks the jumplist"@
    } else if i == 23 {
        "moves a viewport, and is the only thing that may — invariant 3's single writer"@
    } else if i == 24 {
        "turns soft wrap on or off; off is the default and ↪ marks continuations"@
    } else if i == 25 {
        "folds or unfolds at a target — za, a diff hunk, a transcript turn"@
    } else if i == 26 {
        "folds every foldable node to a depth"@
    } else if i == 27 {
        "unfolds everything in the focused buffer"@
    } else if i == 28 {
        "collapses or expands a virtual-text rail — a thread's ┊ rows, a watch's values"@
    } else if i == 29 {
        "sets the edit mode; PAUSED is a session state and is not one of these"@
    } else if i == 30 {
        "sets the pending numeric count — the 3 in 3dd"@
    } else if i == 31 {
        "sets the pending register — the \"a in \"ayy"@
    } else if i == 32 {
        "drops the pending count, register and operator — esc out of SPC pending"@
    } else if i == 33 {
        "feeds a key sequence to the input machine, exactly as if typed"@
    } else if i == 34 {
        "repeats the last change — ."@
    } else if i == 35 {
        "records the keys you type into a register, or stops — q's other half, replayed by feed-keys"@
    } else if i == 36 {
        "steps back through the buffer's undo tree"@
    } else if i == 37 {
        "steps forward again"@
    } else if i == 38 {
        "returns the buffer to a named point in its undo tree"@
    } else if i == 39 {
        "closes the current undo group explicitly, so the next edit starts a new one"@
    } else if i == 40 {
        "compacts persisted history for a target — the periodic sweep Q1 and Q2 share"@
    } else if i == 41 {
        "opens a file in a pane"@
    } else if i == 42 {
        "opens the file you were in before this one — vim's `CTRL-^`"@
    } else if i == 43 {
        "writes a buffer to disk, optionally under a new name"@
    } else if i == 44 {
        "writes every dirty buffer"@
    } else if i == 45 {
        "closes a buffer; refuses a dirty one unless forced"@
    } else if i == 46 {
        "re-reads a buffer from disk — invariant 3's explicit consent, never automatic"@
    } else if i == 47 {
        "records that a file changed underneath us; sets ✱ and moves nothing else"@
    } else if i == 48 {
        "shows your unsaved buffer against what is on disk — :diff-disk"@
    } else if i == 49 {
        "takes one of the three manual exits from a disk conflict; there is no auto-merge"@
    } else if i == 50 {
        "starts or stops watching a path for changes"@
    } else if i == 51 {
        "opens a float by surface id, with that surface's own arguments"@
    } else if i == 52 {
        "closes the focused float"@
    } else if i == 53 {
        "closes every open float"@
    } else if i == 54 {
        "defines or redefines a float surface; open-float names one by id"@
    } else if i == 55 {
        "moves the highlighted row of the focused float"@
    } else if i == 56 {
        "highlights an absolute row of the focused float"@
    } else if i == 57 {
        "runs the focused float's primary verb — ↵"@
    } else if i == 58 {
        "answers the focused ask by digit — 4a's amber option digits"@
    } else if i == 59 {
        "folds or unfolds a row inside a float body — za in a diff or a group list"@
    } else if i == 60 {
        "splits a pane and puts something in the new half"@
    } else if i == 61 {
        "moves focus to a pane; survives float churn (Design Language §9)"@
    } else if i == 62 {
        "closes a pane"@
    } else if i == 63 {
        "resizes a pane by whole cells"@
    } else if i == 64 {
        "changes what a pane holds — :transcript is this, not a separate capability"@
    } else if i == 65 {
        "fills a pane from a view tree the agent emitted — v1.5's agent-built pane (Q12)"@
    } else if i == 66 {
        "opens the picker over a source"@
    } else if i == 67 {
        "replaces the picker's filter text"@
    } else if i == 68 {
        "cycles the picker's source — tab, 8a's grep/files/symbols"@
    } else if i == 69 {
        "accepts the highlighted row — ↵ open, or every row into the quickfix list"@
    } else if i == 70 {
        "shows or hides the preview pane; it drops below 100 columns regardless"@
    } else if i == 71 {
        "defines or redefines a picker source; an open picker re-derives from it"@
    } else if i == 72 {
        "drops a source's cached rows, so the next open recomputes them"@
    } else if i == 73 {
        "opens the prompt line; a live visual selection rides along as an anchor (1c)"@
    } else if i == 74 {
        "replaces the prompt's text"@
    } else if i == 75 {
        "submits the prompt"@
    } else if i == 76 {
        "closes the prompt without submitting"@
    } else if i == 77 {
        "walks prompt history; prompts to the agent are ex history too (6d's q:)"@
    } else if i == 78 {
        "marks a target seen — s, and S over a whole group, file or block"@
    } else if i == 79 {
        "marks a target unseen again — what the agent revising a region does"@
    } else if i == 80 {
        "records agent-authored spans as regions; your own edits never create one"@
    } else if i == 81 {
        "anchors a target and answers the id — m writes one, goto-anchor reads it back"@
    } else if i == 82 {
        "re-resolves a file's anchors after a rewrite — node tier, then line+content"@
    } else if i == 83 {
        "forgets the regions under a target — a deleted file, a stale span"@
    } else if i == 84 {
        "starts a thread anchored to a target — your comment in the margin"@
    } else if i == 85 {
        "adds a reply; the agent's side arrives the same way yours does"@
    } else if i == 86 {
        "marks a thread done without deleting it"@
    } else if i == 87 {
        "deletes a thread outright"@
    } else if i == 88 {
        "posts one message against every match of a pattern — :g/TODO/c, many anchors"@
    } else if i == 89 {
        "declares a review block — files, spans and the agent's own annotations"@
    } else if i == 90 {
        "opens a review block"@
    } else if i == 91 {
        "switches a diff between unified and side-by-side"@
    } else if i == 92 {
        "expands a folded context run — 4b's ⋯ 13 lines"@
    } else if i == 93 {
        "groups a block's files by directory or flat; scale is grouping, not scrolling"@
    } else if i == 94 {
        "annotates a group — 8b's \"mechanical\" against \"the meat\""@
    } else if i == 95 {
        "reverts one hunk; it lowers to edits, so your undo tree has it"@
    } else if i == 96 {
        "opens 2b's anchored peek at a hunk, without leaving the buffer"@
    } else if i == 97 {
        "opens the inbox"@
    } else if i == 98 {
        "opens one item, jumping to whatever it is anchored to"@
    } else if i == 99 {
        "posts a note to the inbox; severity is one flag"@
    } else if i == 100 {
        "queues a question for you; it never steals focus"@
    } else if i == 101 {
        "answers a queued ask, by digit or in prose"@
    } else if i == 102 {
        "puts an ask back in the queue — esc later"@
    } else if i == 103 {
        "asks to run something, showing the exact invocation (7a)"@
    } else if i == 104 {
        "grants a permission ask; always also writes a legible rule to init.scm"@
    } else if i == 105 {
        "denies a permission ask"@
    } else if i == 106 {
        "starts an agent session"@
    } else if i == 107 {
        "looks for sessions already running — 5d's adopt-without-restarting"@
    } else if i == 108 {
        "adopts a discovered session as-is"@
    } else if i == 109 {
        "attaches to a session endpoint"@
    } else if i == 110 {
        "reattaches after a seam — :reattach"@
    } else if i == 111 {
        "detaches, leaving the session running"@
    } else if i == 112 {
        "ends the session"@
    } else if i == 113 {
        "sends a message to the agent, with whatever it is anchored to — :ask"@
    } else if i == 114 {
        "pauses the turn at the next tool boundary — esc, and 7e's seam"@
    } else if i == 115 {
        "sends a correction and resumes — ↵ steer & resume"@
    } else if i == 116 {
        "resumes a paused turn — :resume"@
    } else if i == 117 {
        "abandons the current turn — :abort"@
    } else if i == 118 {
        "records that a turn started"@
    } else if i == 119 {
        "records that a turn finished"@
    } else if i == 120 {
        "appends a chunk of the agent's prose to the transcript"@
    } else if i == 121 {
        "records a tool call starting — the transcript's verb + target row"@
    } else if i == 122 {
        "adds progress to a running tool call"@
    } else if i == 123 {
        "completes a tool call, with the counts the transcript row shows"@
    } else if i == 124 {
        "records a seam — paused, lost, or resumed (7b, 7e)"@
    } else if i == 125 {
        "places a watch on an anchor — gw, and (watch-place …) from the REPL"@
    } else if i == 126 {
        "removes a watch"@
    } else if i == 127 {
        "shows or collapses a watch's value rows"@
    } else if i == 128 {
        "delivers values from a real run; they arrive over ACP, not MCP (Q6)"@
    } else if i == 129 {
        "clears a watch's values without removing it"@
    } else if i == 130 {
        "asks for completions at the cursor"@
    } else if i == 131 {
        "moves the completion selection"@
    } else if i == 132 {
        "accepts a completion"@
    } else if i == 133 {
        "dismisses the completion float"@
    } else if i == 134 {
        "asks for hover at the cursor"@
    } else if i == 135 {
        "asks for signature help at the cursor"@
    } else if i == 136 {
        "asks where the symbol at the cursor is defined"@
    } else if i == 137 {
        "asks what references the symbol at the cursor"@
    } else if i == 138 {
        "delivers the answer to a completion request; an empty list closes the float"@
    } else if i == 139 {
        "delivers the answer to a signature-help request; absent closes the float"@
    } else if i == 140 {
        "delivers the answer to a hover request; empty prose closes the float"@
    } else if i == 141 {
        "records a server's diagnostics for a file; they reach the gutter at trouble priority"@
    } else if i == 142 {
        "applies a server's edit across files — a rename, a code action, a format"@
    } else if i == 143 {
        "restarts a language server"@
    } else if i == 144 {
        "re-reads VCS status — the statusline's jj ✓ segment"@
    } else if i == 145 {
        "opens the timeline; agent turns are changes (3b)"@
    } else if i == 146 {
        "shows one change's diff — d diff"@
    } else if i == 147 {
        "opens the full operation log — o full op log (mockups:901)"@
    } else if i == 148 {
        "moves the working copy to a change — ↵ edit here"@
    } else if i == 149 {
        "undoes a change through the VCS — u undo (jj), mockups:1046; undo is time travel"@
    } else if i == 150 {
        "evaluates scheme source; the CLI door and the REPL are both this"@
    } else if i == 151 {
        "loads a scheme file; a broken one leaves a working editor and an error float"@
    } else if i == 152 {
        "re-runs the boot sequence — init.scm is just the REPL session that runs at boot"@
    } else if i == 153 {
        "opens the REPL (6b) — the primary extension workflow, not a debug tool"@
    } else if i == 154 {
        "closes the REPL"@
    } else if i == 155 {
        "walks REPL history"@
    } else if i == 156 {
        "moves the REPL session into a buffer — C-c buffer (mockups:510)"@
    } else if i == 157 {
        "appends a form to init.scm — 6b's \"· persisted to init.scm\", 7a's always-allow rule"@
    } else if i == 158 {
        "binds a key, live; the next frame has it and which-key knows"@
    } else if i == 159 {
        "unbinds a key"@
    } else if i == 160 {
        "declares a language: grammar, server, extensions — the road up from second tier"@
    } else if i == 161 {
        "sets a declared option"@
    } else if i == 162 {
        "switches theme by slug"@
    } else if i == 163 {
        "re-reads the current theme file and re-validates its actor hues"@
    } else if i == 164 {
        "leaves, restoring the terminal; refuses on unsaved work unless forced"@
    } else if i == 165 {
        "shows the unknown-key hint, once per session and never again (8e)"@
    } else if i == 166 {
        "opens help — :help agent-objects (6d)"@
    } else if i == 167 {
        "opens :arch — a store query rendered through the spans hatch, no Rust primitive"@
    } else if i == 168 {
        "opens the session dashboard (7d)"@
    } else {
        "dismisses 7d's one hint line; after that it is just an editor"@
    }
}

/// The one-line doc in row `i`.
fn row_doc(i: usize) -> (r: &'static str)
    requires
        i < spec_action_count(),
    ensures
        r@ == spec_row_doc(i as nat),
{
    if i == 0 {
        "inserts text at a position"
    } else if i == 1 {
        "removes a span"
    } else if i == 2 {
        "replaces a span with text, in one edit"
    } else if i == 3 {
        "applies a batch of edits as one undo group; the primitive T029's log replays"
    } else if i == 4 {
        "copies a target into a register — \"ay ib"
    } else if i == 5 {
        "puts a register's contents at a target"
    } else if i == 6 {
        "sets a named register's contents outright"
    } else if i == 7 {
        "shifts a target by whole indent levels; negative dedents"
    } else if i == 8 {
        "types one indent level at the cursor, advancing to the next tabstop"
    } else if i == 9 {
        "joins the lines of a target onto one"
    } else if i == 10 {
        "upper-cases, lower-cases or toggles the letters of a target — gU, gu, ~"
    } else if i == 11 {
        "comments or uncomments a target, using the language's own prefix"
    } else if i == 12 {
        "re-aligns a delimited file's columns — CSV's bespoke surface, no grammar involved"
    } else if i == 13 {
        "moves the cursor by a motion, count times"
    } else if i == 14 {
        "puts the cursor at an absolute position — what a click and a jump both lower to"
    } else if i == 15 {
        "selects a span characterwise, linewise or blockwise"
    } else if i == 16 {
        "selects a text object — including the agent nouns u, h, t and b"
    } else if i == 17 {
        "extends the live selection by a motion"
    } else if i == 18 {
        "drops the selection"
    } else if i == 19 {
        "walks a sequence — ]u unseen regions, ]] block files, ]! the ask queue"
    } else if i == 20 {
        "opens a file at a position — a picker accept, a transcript tool row, an OSC 8 link"
    } else if i == 21 {
        "jumps to an anchor, which survives the rewrite that moved it"
    } else if i == 22 {
        "walks the jumplist"
    } else if i == 23 {
        "moves a viewport, and is the only thing that may — invariant 3's single writer"
    } else if i == 24 {
        "turns soft wrap on or off; off is the default and ↪ marks continuations"
    } else if i == 25 {
        "folds or unfolds at a target — za, a diff hunk, a transcript turn"
    } else if i == 26 {
        "folds every foldable node to a depth"
    } else if i == 27 {
        "unfolds everything in the focused buffer"
    } else if i == 28 {
        "collapses or expands a virtual-text rail — a thread's ┊ rows, a watch's values"
    } else if i == 29 {
        "sets the edit mode; PAUSED is a session state and is not one of these"
    } else if i == 30 {
        "sets the pending numeric count — the 3 in 3dd"
    } else if i == 31 {
        "sets the pending register — the \"a in \"ayy"
    } else if i == 32 {
        "drops the pending count, register and operator — esc out of SPC pending"
    } else if i == 33 {
        "feeds a key sequence to the input machine, exactly as if typed"
    } else if i == 34 {
        "repeats the last change — ."
    } else if i == 35 {
        "records the keys you type into a register, or stops — q's other half, replayed by feed-keys"
    } else if i == 36 {
        "steps back through the buffer's undo tree"
    } else if i == 37 {
        "steps forward again"
    } else if i == 38 {
        "returns the buffer to a named point in its undo tree"
    } else if i == 39 {
        "closes the current undo group explicitly, so the next edit starts a new one"
    } else if i == 40 {
        "compacts persisted history for a target — the periodic sweep Q1 and Q2 share"
    } else if i == 41 {
        "opens a file in a pane"
    } else if i == 42 {
        "opens the file you were in before this one — vim's `CTRL-^`"
    } else if i == 43 {
        "writes a buffer to disk, optionally under a new name"
    } else if i == 44 {
        "writes every dirty buffer"
    } else if i == 45 {
        "closes a buffer; refuses a dirty one unless forced"
    } else if i == 46 {
        "re-reads a buffer from disk — invariant 3's explicit consent, never automatic"
    } else if i == 47 {
        "records that a file changed underneath us; sets ✱ and moves nothing else"
    } else if i == 48 {
        "shows your unsaved buffer against what is on disk — :diff-disk"
    } else if i == 49 {
        "takes one of the three manual exits from a disk conflict; there is no auto-merge"
    } else if i == 50 {
        "starts or stops watching a path for changes"
    } else if i == 51 {
        "opens a float by surface id, with that surface's own arguments"
    } else if i == 52 {
        "closes the focused float"
    } else if i == 53 {
        "closes every open float"
    } else if i == 54 {
        "defines or redefines a float surface; open-float names one by id"
    } else if i == 55 {
        "moves the highlighted row of the focused float"
    } else if i == 56 {
        "highlights an absolute row of the focused float"
    } else if i == 57 {
        "runs the focused float's primary verb — ↵"
    } else if i == 58 {
        "answers the focused ask by digit — 4a's amber option digits"
    } else if i == 59 {
        "folds or unfolds a row inside a float body — za in a diff or a group list"
    } else if i == 60 {
        "splits a pane and puts something in the new half"
    } else if i == 61 {
        "moves focus to a pane; survives float churn (Design Language §9)"
    } else if i == 62 {
        "closes a pane"
    } else if i == 63 {
        "resizes a pane by whole cells"
    } else if i == 64 {
        "changes what a pane holds — :transcript is this, not a separate capability"
    } else if i == 65 {
        "fills a pane from a view tree the agent emitted — v1.5's agent-built pane (Q12)"
    } else if i == 66 {
        "opens the picker over a source"
    } else if i == 67 {
        "replaces the picker's filter text"
    } else if i == 68 {
        "cycles the picker's source — tab, 8a's grep/files/symbols"
    } else if i == 69 {
        "accepts the highlighted row — ↵ open, or every row into the quickfix list"
    } else if i == 70 {
        "shows or hides the preview pane; it drops below 100 columns regardless"
    } else if i == 71 {
        "defines or redefines a picker source; an open picker re-derives from it"
    } else if i == 72 {
        "drops a source's cached rows, so the next open recomputes them"
    } else if i == 73 {
        "opens the prompt line; a live visual selection rides along as an anchor (1c)"
    } else if i == 74 {
        "replaces the prompt's text"
    } else if i == 75 {
        "submits the prompt"
    } else if i == 76 {
        "closes the prompt without submitting"
    } else if i == 77 {
        "walks prompt history; prompts to the agent are ex history too (6d's q:)"
    } else if i == 78 {
        "marks a target seen — s, and S over a whole group, file or block"
    } else if i == 79 {
        "marks a target unseen again — what the agent revising a region does"
    } else if i == 80 {
        "records agent-authored spans as regions; your own edits never create one"
    } else if i == 81 {
        "anchors a target and answers the id — m writes one, goto-anchor reads it back"
    } else if i == 82 {
        "re-resolves a file's anchors after a rewrite — node tier, then line+content"
    } else if i == 83 {
        "forgets the regions under a target — a deleted file, a stale span"
    } else if i == 84 {
        "starts a thread anchored to a target — your comment in the margin"
    } else if i == 85 {
        "adds a reply; the agent's side arrives the same way yours does"
    } else if i == 86 {
        "marks a thread done without deleting it"
    } else if i == 87 {
        "deletes a thread outright"
    } else if i == 88 {
        "posts one message against every match of a pattern — :g/TODO/c, many anchors"
    } else if i == 89 {
        "declares a review block — files, spans and the agent's own annotations"
    } else if i == 90 {
        "opens a review block"
    } else if i == 91 {
        "switches a diff between unified and side-by-side"
    } else if i == 92 {
        "expands a folded context run — 4b's ⋯ 13 lines"
    } else if i == 93 {
        "groups a block's files by directory or flat; scale is grouping, not scrolling"
    } else if i == 94 {
        "annotates a group — 8b's \"mechanical\" against \"the meat\""
    } else if i == 95 {
        "reverts one hunk; it lowers to edits, so your undo tree has it"
    } else if i == 96 {
        "opens 2b's anchored peek at a hunk, without leaving the buffer"
    } else if i == 97 {
        "opens the inbox"
    } else if i == 98 {
        "opens one item, jumping to whatever it is anchored to"
    } else if i == 99 {
        "posts a note to the inbox; severity is one flag"
    } else if i == 100 {
        "queues a question for you; it never steals focus"
    } else if i == 101 {
        "answers a queued ask, by digit or in prose"
    } else if i == 102 {
        "puts an ask back in the queue — esc later"
    } else if i == 103 {
        "asks to run something, showing the exact invocation (7a)"
    } else if i == 104 {
        "grants a permission ask; always also writes a legible rule to init.scm"
    } else if i == 105 {
        "denies a permission ask"
    } else if i == 106 {
        "starts an agent session"
    } else if i == 107 {
        "looks for sessions already running — 5d's adopt-without-restarting"
    } else if i == 108 {
        "adopts a discovered session as-is"
    } else if i == 109 {
        "attaches to a session endpoint"
    } else if i == 110 {
        "reattaches after a seam — :reattach"
    } else if i == 111 {
        "detaches, leaving the session running"
    } else if i == 112 {
        "ends the session"
    } else if i == 113 {
        "sends a message to the agent, with whatever it is anchored to — :ask"
    } else if i == 114 {
        "pauses the turn at the next tool boundary — esc, and 7e's seam"
    } else if i == 115 {
        "sends a correction and resumes — ↵ steer & resume"
    } else if i == 116 {
        "resumes a paused turn — :resume"
    } else if i == 117 {
        "abandons the current turn — :abort"
    } else if i == 118 {
        "records that a turn started"
    } else if i == 119 {
        "records that a turn finished"
    } else if i == 120 {
        "appends a chunk of the agent's prose to the transcript"
    } else if i == 121 {
        "records a tool call starting — the transcript's verb + target row"
    } else if i == 122 {
        "adds progress to a running tool call"
    } else if i == 123 {
        "completes a tool call, with the counts the transcript row shows"
    } else if i == 124 {
        "records a seam — paused, lost, or resumed (7b, 7e)"
    } else if i == 125 {
        "places a watch on an anchor — gw, and (watch-place …) from the REPL"
    } else if i == 126 {
        "removes a watch"
    } else if i == 127 {
        "shows or collapses a watch's value rows"
    } else if i == 128 {
        "delivers values from a real run; they arrive over ACP, not MCP (Q6)"
    } else if i == 129 {
        "clears a watch's values without removing it"
    } else if i == 130 {
        "asks for completions at the cursor"
    } else if i == 131 {
        "moves the completion selection"
    } else if i == 132 {
        "accepts a completion"
    } else if i == 133 {
        "dismisses the completion float"
    } else if i == 134 {
        "asks for hover at the cursor"
    } else if i == 135 {
        "asks for signature help at the cursor"
    } else if i == 136 {
        "asks where the symbol at the cursor is defined"
    } else if i == 137 {
        "asks what references the symbol at the cursor"
    } else if i == 138 {
        "delivers the answer to a completion request; an empty list closes the float"
    } else if i == 139 {
        "delivers the answer to a signature-help request; absent closes the float"
    } else if i == 140 {
        "delivers the answer to a hover request; empty prose closes the float"
    } else if i == 141 {
        "records a server's diagnostics for a file; they reach the gutter at trouble priority"
    } else if i == 142 {
        "applies a server's edit across files — a rename, a code action, a format"
    } else if i == 143 {
        "restarts a language server"
    } else if i == 144 {
        "re-reads VCS status — the statusline's jj ✓ segment"
    } else if i == 145 {
        "opens the timeline; agent turns are changes (3b)"
    } else if i == 146 {
        "shows one change's diff — d diff"
    } else if i == 147 {
        "opens the full operation log — o full op log (mockups:901)"
    } else if i == 148 {
        "moves the working copy to a change — ↵ edit here"
    } else if i == 149 {
        "undoes a change through the VCS — u undo (jj), mockups:1046; undo is time travel"
    } else if i == 150 {
        "evaluates scheme source; the CLI door and the REPL are both this"
    } else if i == 151 {
        "loads a scheme file; a broken one leaves a working editor and an error float"
    } else if i == 152 {
        "re-runs the boot sequence — init.scm is just the REPL session that runs at boot"
    } else if i == 153 {
        "opens the REPL (6b) — the primary extension workflow, not a debug tool"
    } else if i == 154 {
        "closes the REPL"
    } else if i == 155 {
        "walks REPL history"
    } else if i == 156 {
        "moves the REPL session into a buffer — C-c buffer (mockups:510)"
    } else if i == 157 {
        "appends a form to init.scm — 6b's \"· persisted to init.scm\", 7a's always-allow rule"
    } else if i == 158 {
        "binds a key, live; the next frame has it and which-key knows"
    } else if i == 159 {
        "unbinds a key"
    } else if i == 160 {
        "declares a language: grammar, server, extensions — the road up from second tier"
    } else if i == 161 {
        "sets a declared option"
    } else if i == 162 {
        "switches theme by slug"
    } else if i == 163 {
        "re-reads the current theme file and re-validates its actor hues"
    } else if i == 164 {
        "leaves, restoring the terminal; refuses on unsaved work unless forced"
    } else if i == 165 {
        "shows the unknown-key hint, once per session and never again (8e)"
    } else if i == 166 {
        "opens help — :help agent-objects (6d)"
    } else if i == 167 {
        "opens :arch — a store query rendered through the spans hatch, no Rust primitive"
    } else if i == 168 {
        "opens the session dashboard (7d)"
    } else {
        "dismisses 7d's one hint line; after that it is just an editor"
    }
}

/// The phase in row `i`.
fn row_phase(i: usize) -> (r: Phase)
    requires
        i < spec_action_count(),
    ensures
        r == spec_row_phase(i as nat),
{
    if i == 0 {
        Phase::S3
    } else if i == 1 {
        Phase::S3
    } else if i == 2 {
        Phase::S3
    } else if i == 3 {
        Phase::S6
    } else if i == 4 {
        Phase::S3
    } else if i == 5 {
        Phase::S3
    } else if i == 6 {
        Phase::S3
    } else if i == 7 {
        Phase::S3
    } else if i == 8 {
        Phase::S4
    } else if i == 9 {
        Phase::S3
    } else if i == 10 {
        Phase::S3
    } else if i == 11 {
        Phase::S4
    } else if i == 12 {
        Phase::S4
    } else if i == 13 {
        Phase::S3
    } else if i == 14 {
        Phase::S3
    } else if i == 15 {
        Phase::S3
    } else if i == 16 {
        Phase::S3
    } else if i == 17 {
        Phase::S3
    } else if i == 18 {
        Phase::S3
    } else if i == 19 {
        Phase::S5
    } else if i == 20 {
        Phase::S6
    } else if i == 21 {
        Phase::S5
    } else if i == 22 {
        Phase::S5
    } else if i == 23 {
        Phase::S3
    } else if i == 24 {
        Phase::S3
    } else if i == 25 {
        Phase::S3
    } else if i == 26 {
        Phase::S3
    } else if i == 27 {
        Phase::S3
    } else if i == 28 {
        Phase::S3
    } else if i == 29 {
        Phase::S3
    } else if i == 30 {
        Phase::S3
    } else if i == 31 {
        Phase::S3
    } else if i == 32 {
        Phase::S3
    } else if i == 33 {
        Phase::S3
    } else if i == 34 {
        Phase::S3
    } else if i == 35 {
        Phase::S3
    } else if i == 36 {
        Phase::S3
    } else if i == 37 {
        Phase::S3
    } else if i == 38 {
        Phase::S3
    } else if i == 39 {
        Phase::S3
    } else if i == 40 {
        Phase::S3
    } else if i == 41 {
        Phase::S3
    } else if i == 42 {
        Phase::S3
    } else if i == 43 {
        Phase::S3
    } else if i == 44 {
        Phase::S3
    } else if i == 45 {
        Phase::S3
    } else if i == 46 {
        Phase::S7
    } else if i == 47 {
        Phase::S7
    } else if i == 48 {
        Phase::S7
    } else if i == 49 {
        Phase::S7
    } else if i == 50 {
        Phase::S7
    } else if i == 51 {
        Phase::S2
    } else if i == 52 {
        Phase::S2
    } else if i == 53 {
        Phase::S2
    } else if i == 54 {
        Phase::S2
    } else if i == 55 {
        Phase::S5
    } else if i == 56 {
        Phase::S5
    } else if i == 57 {
        Phase::S5
    } else if i == 58 {
        Phase::S6
    } else if i == 59 {
        Phase::S7
    } else if i == 60 {
        Phase::S6
    } else if i == 61 {
        Phase::S6
    } else if i == 62 {
        Phase::S6
    } else if i == 63 {
        Phase::S6
    } else if i == 64 {
        Phase::S6
    } else if i == 65 {
        Phase::V15
    } else if i == 66 {
        Phase::S5
    } else if i == 67 {
        Phase::S5
    } else if i == 68 {
        Phase::S5
    } else if i == 69 {
        Phase::S5
    } else if i == 70 {
        Phase::S5
    } else if i == 71 {
        Phase::S5
    } else if i == 72 {
        Phase::S5
    } else if i == 73 {
        Phase::S6
    } else if i == 74 {
        Phase::S6
    } else if i == 75 {
        Phase::S6
    } else if i == 76 {
        Phase::S6
    } else if i == 77 {
        Phase::S6
    } else if i == 78 {
        Phase::S5
    } else if i == 79 {
        Phase::S5
    } else if i == 80 {
        Phase::S5
    } else if i == 81 {
        Phase::S5
    } else if i == 82 {
        Phase::S5
    } else if i == 83 {
        Phase::S5
    } else if i == 84 {
        Phase::S7
    } else if i == 85 {
        Phase::S7
    } else if i == 86 {
        Phase::S7
    } else if i == 87 {
        Phase::S7
    } else if i == 88 {
        Phase::S7
    } else if i == 89 {
        Phase::S6
    } else if i == 90 {
        Phase::S7
    } else if i == 91 {
        Phase::S7
    } else if i == 92 {
        Phase::S7
    } else if i == 93 {
        Phase::S7
    } else if i == 94 {
        Phase::S7
    } else if i == 95 {
        Phase::S7
    } else if i == 96 {
        Phase::S7
    } else if i == 97 {
        Phase::S7
    } else if i == 98 {
        Phase::S7
    } else if i == 99 {
        Phase::S7
    } else if i == 100 {
        Phase::S6
    } else if i == 101 {
        Phase::S6
    } else if i == 102 {
        Phase::S6
    } else if i == 103 {
        Phase::S6
    } else if i == 104 {
        Phase::S6
    } else if i == 105 {
        Phase::S6
    } else if i == 106 {
        Phase::S6
    } else if i == 107 {
        Phase::S6
    } else if i == 108 {
        Phase::S6
    } else if i == 109 {
        Phase::S6
    } else if i == 110 {
        Phase::S6
    } else if i == 111 {
        Phase::S6
    } else if i == 112 {
        Phase::S6
    } else if i == 113 {
        Phase::S6
    } else if i == 114 {
        Phase::S6
    } else if i == 115 {
        Phase::S6
    } else if i == 116 {
        Phase::S6
    } else if i == 117 {
        Phase::S6
    } else if i == 118 {
        Phase::S6
    } else if i == 119 {
        Phase::S6
    } else if i == 120 {
        Phase::S6
    } else if i == 121 {
        Phase::S6
    } else if i == 122 {
        Phase::S6
    } else if i == 123 {
        Phase::S6
    } else if i == 124 {
        Phase::S6
    } else if i == 125 {
        Phase::S8
    } else if i == 126 {
        Phase::S8
    } else if i == 127 {
        Phase::S8
    } else if i == 128 {
        Phase::S8
    } else if i == 129 {
        Phase::S8
    } else if i == 130 {
        Phase::S4
    } else if i == 131 {
        Phase::S4
    } else if i == 132 {
        Phase::S4
    } else if i == 133 {
        Phase::S4
    } else if i == 134 {
        Phase::S4
    } else if i == 135 {
        Phase::S4
    } else if i == 136 {
        Phase::S4
    } else if i == 137 {
        Phase::S5
    } else if i == 138 {
        Phase::S4
    } else if i == 139 {
        Phase::S4
    } else if i == 140 {
        Phase::S4
    } else if i == 141 {
        Phase::S4
    } else if i == 142 {
        Phase::S4
    } else if i == 143 {
        Phase::S4
    } else if i == 144 {
        Phase::S7
    } else if i == 145 {
        Phase::S7
    } else if i == 146 {
        Phase::S7
    } else if i == 147 {
        Phase::S7
    } else if i == 148 {
        Phase::S7
    } else if i == 149 {
        Phase::S7
    } else if i == 150 {
        Phase::S2
    } else if i == 151 {
        Phase::S2
    } else if i == 152 {
        Phase::S2
    } else if i == 153 {
        Phase::S2
    } else if i == 154 {
        Phase::S2
    } else if i == 155 {
        Phase::S2
    } else if i == 156 {
        Phase::S2
    } else if i == 157 {
        Phase::S2
    } else if i == 158 {
        Phase::S3
    } else if i == 159 {
        Phase::S3
    } else if i == 160 {
        Phase::S4
    } else if i == 161 {
        Phase::S2
    } else if i == 162 {
        Phase::S1
    } else if i == 163 {
        Phase::S1
    } else if i == 164 {
        Phase::S1
    } else if i == 165 {
        Phase::S3
    } else if i == 166 {
        Phase::S3
    } else if i == 167 {
        Phase::S5
    } else if i == 168 {
        Phase::S6
    } else {
        Phase::S6
    }
}

/// The task in row `i`.
fn row_task(i: usize) -> (r: &'static str)
    requires
        i < spec_action_count(),
    ensures
        r@ == spec_row_task(i as nat),
{
    if i == 0 {
        "T026"
    } else if i == 1 {
        "T026"
    } else if i == 2 {
        "T026"
    } else if i == 3 {
        "T052"
    } else if i == 4 {
        "T026"
    } else if i == 5 {
        "T026"
    } else if i == 6 {
        "T026"
    } else if i == 7 {
        "T026"
    } else if i == 8 {
        "T104"
    } else if i == 9 {
        "T026"
    } else if i == 10 {
        "T026"
    } else if i == 11 {
        "T037"
    } else if i == 12 {
        "T082"
    } else if i == 13 {
        "T026"
    } else if i == 14 {
        "T026"
    } else if i == 15 {
        "T026"
    } else if i == 16 {
        "T028"
    } else if i == 17 {
        "T026"
    } else if i == 18 {
        "T026"
    } else if i == 19 {
        "T049"
    } else if i == 20 {
        "T056"
    } else if i == 21 {
        "T042"
    } else if i == 22 {
        "T042"
    } else if i == 23 {
        "T026"
    } else if i == 24 {
        "T081"
    } else if i == 25 {
        "T016"
    } else if i == 26 {
        "T016"
    } else if i == 27 {
        "T016"
    } else if i == 28 {
        "T032"
    } else if i == 29 {
        "T026"
    } else if i == 30 {
        "T026"
    } else if i == 31 {
        "T026"
    } else if i == 32 {
        "T026"
    } else if i == 33 {
        "T026"
    } else if i == 34 {
        "T026"
    } else if i == 35 {
        "T099"
    } else if i == 36 {
        "T029"
    } else if i == 37 {
        "T029"
    } else if i == 38 {
        "T029"
    } else if i == 39 {
        "T029"
    } else if i == 40 {
        "T030"
    } else if i == 41 {
        "T033"
    } else if i == 42 {
        "T033"
    } else if i == 43 {
        "T033"
    } else if i == 44 {
        "T033"
    } else if i == 45 {
        "T033"
    } else if i == 46 {
        "T069"
    } else if i == 47 {
        "T069"
    } else if i == 48 {
        "T070"
    } else if i == 49 {
        "T070"
    } else if i == 50 {
        "T069"
    } else if i == 51 {
        "T021"
    } else if i == 52 {
        "T021"
    } else if i == 53 {
        "T021"
    } else if i == 54 {
        "T093"
    } else if i == 55 {
        "T045"
    } else if i == 56 {
        "T045"
    } else if i == 57 {
        "T045"
    } else if i == 58 {
        "T059"
    } else if i == 59 {
        "T065"
    } else if i == 60 {
        "T088"
    } else if i == 61 {
        "T088"
    } else if i == 62 {
        "T088"
    } else if i == 63 {
        "T088"
    } else if i == 64 {
        "T054"
    } else if i == 65 {
        "v1.5"
    } else if i == 66 {
        "T046"
    } else if i == 67 {
        "T045"
    } else if i == 68 {
        "T047"
    } else if i == 69 {
        "T047"
    } else if i == 70 {
        "T045"
    } else if i == 71 {
        "T046"
    } else if i == 72 {
        "T046"
    } else if i == 73 {
        "T058"
    } else if i == 74 {
        "T058"
    } else if i == 75 {
        "T058"
    } else if i == 76 {
        "T058"
    } else if i == 77 {
        "T058"
    } else if i == 78 {
        "T041"
    } else if i == 79 {
        "T041"
    } else if i == 80 {
        "T041"
    } else if i == 81 {
        "T042"
    } else if i == 82 {
        "T042"
    } else if i == 83 {
        "T041"
    } else if i == 84 {
        "T068"
    } else if i == 85 {
        "T068"
    } else if i == 86 {
        "T068"
    } else if i == 87 {
        "T068"
    } else if i == 88 {
        "T068"
    } else if i == 89 {
        "T053"
    } else if i == 90 {
        "T066"
    } else if i == 91 {
        "T066"
    } else if i == 92 {
        "T066"
    } else if i == 93 {
        "T065"
    } else if i == 94 {
        "T065"
    } else if i == 95 {
        "T064"
    } else if i == 96 {
        "T066"
    } else if i == 97 {
        "T067"
    } else if i == 98 {
        "T067"
    } else if i == 99 {
        "T067"
    } else if i == 100 {
        "T060"
    } else if i == 101 {
        "T059"
    } else if i == 102 {
        "T060"
    } else if i == 103 {
        "T061"
    } else if i == 104 {
        "T061"
    } else if i == 105 {
        "T061"
    } else if i == 106 {
        "T057"
    } else if i == 107 {
        "T057"
    } else if i == 108 {
        "T057"
    } else if i == 109 {
        "T057"
    } else if i == 110 {
        "T057"
    } else if i == 111 {
        "T057"
    } else if i == 112 {
        "T057"
    } else if i == 113 {
        "T058"
    } else if i == 114 {
        "T062"
    } else if i == 115 {
        "T062"
    } else if i == 116 {
        "T062"
    } else if i == 117 {
        "T062"
    } else if i == 118 {
        "T050"
    } else if i == 119 {
        "T050"
    } else if i == 120 {
        "T054"
    } else if i == 121 {
        "T054"
    } else if i == 122 {
        "T054"
    } else if i == 123 {
        "T054"
    } else if i == 124 {
        "T057"
    } else if i == 125 {
        "T077"
    } else if i == 126 {
        "T074"
    } else if i == 127 {
        "T076"
    } else if i == 128 {
        "T075"
    } else if i == 129 {
        "T075"
    } else if i == 130 {
        "T038"
    } else if i == 131 {
        "T038"
    } else if i == 132 {
        "T038"
    } else if i == 133 {
        "T038"
    } else if i == 134 {
        "T039"
    } else if i == 135 {
        "T039"
    } else if i == 136 {
        "T036"
    } else if i == 137 {
        "T047"
    } else if i == 138 {
        "T038"
    } else if i == 139 {
        "T039"
    } else if i == 140 {
        "T039"
    } else if i == 141 {
        "T040"
    } else if i == 142 {
        "T036"
    } else if i == 143 {
        "T036"
    } else if i == 144 {
        "T071"
    } else if i == 145 {
        "T073"
    } else if i == 146 {
        "T073"
    } else if i == 147 {
        "T073"
    } else if i == 148 {
        "T073"
    } else if i == 149 {
        "T073"
    } else if i == 150 {
        "T023"
    } else if i == 151 {
        "T021"
    } else if i == 152 {
        "T021"
    } else if i == 153 {
        "T022"
    } else if i == 154 {
        "T022"
    } else if i == 155 {
        "T022"
    } else if i == 156 {
        "T022"
    } else if i == 157 {
        "T022"
    } else if i == 158 {
        "T033"
    } else if i == 159 {
        "T033"
    } else if i == 160 {
        "T037"
    } else if i == 161 {
        "T021"
    } else if i == 162 {
        "T012"
    } else if i == 163 {
        "T011"
    } else if i == 164 {
        "T090"
    } else if i == 165 {
        "T035"
    } else if i == 166 {
        "T086"
    } else if i == 167 {
        "T048"
    } else if i == 168 {
        "T057"
    } else {
        "T057"
    }
}

/// The MCP default in row `i`.
fn row_mcp(i: usize) -> (r: McpPolicy)
    requires
        i < spec_action_count(),
    ensures
        r == spec_row_mcp(i as nat),
{
    if i == 0 {
        McpPolicy::Allow
    } else if i == 1 {
        McpPolicy::Allow
    } else if i == 2 {
        McpPolicy::Allow
    } else if i == 3 {
        McpPolicy::Allow
    } else if i == 4 {
        McpPolicy::Allow
    } else if i == 5 {
        McpPolicy::Allow
    } else if i == 6 {
        McpPolicy::Allow
    } else if i == 7 {
        McpPolicy::Allow
    } else if i == 8 {
        McpPolicy::Allow
    } else if i == 9 {
        McpPolicy::Allow
    } else if i == 10 {
        McpPolicy::Allow
    } else if i == 11 {
        McpPolicy::Allow
    } else if i == 12 {
        McpPolicy::Allow
    } else if i == 13 {
        McpPolicy::Deny
    } else if i == 14 {
        McpPolicy::Deny
    } else if i == 15 {
        McpPolicy::Deny
    } else if i == 16 {
        McpPolicy::Deny
    } else if i == 17 {
        McpPolicy::Deny
    } else if i == 18 {
        McpPolicy::Deny
    } else if i == 19 {
        McpPolicy::Allow
    } else if i == 20 {
        McpPolicy::Allow
    } else if i == 21 {
        McpPolicy::Allow
    } else if i == 22 {
        McpPolicy::Deny
    } else if i == 23 {
        McpPolicy::Deny
    } else if i == 24 {
        McpPolicy::Allow
    } else if i == 25 {
        McpPolicy::Allow
    } else if i == 26 {
        McpPolicy::Allow
    } else if i == 27 {
        McpPolicy::Allow
    } else if i == 28 {
        McpPolicy::Allow
    } else if i == 29 {
        McpPolicy::Deny
    } else if i == 30 {
        McpPolicy::Deny
    } else if i == 31 {
        McpPolicy::Deny
    } else if i == 32 {
        McpPolicy::Deny
    } else if i == 33 {
        McpPolicy::Deny
    } else if i == 34 {
        McpPolicy::Deny
    } else if i == 35 {
        McpPolicy::Deny
    } else if i == 36 {
        McpPolicy::Allow
    } else if i == 37 {
        McpPolicy::Allow
    } else if i == 38 {
        McpPolicy::Allow
    } else if i == 39 {
        McpPolicy::Allow
    } else if i == 40 {
        McpPolicy::Allow
    } else if i == 41 {
        McpPolicy::Allow
    } else if i == 42 {
        McpPolicy::Allow
    } else if i == 43 {
        McpPolicy::Allow
    } else if i == 44 {
        McpPolicy::Allow
    } else if i == 45 {
        McpPolicy::Allow
    } else if i == 46 {
        McpPolicy::Ask
    } else if i == 47 {
        McpPolicy::Allow
    } else if i == 48 {
        McpPolicy::Allow
    } else if i == 49 {
        McpPolicy::Ask
    } else if i == 50 {
        McpPolicy::Allow
    } else if i == 51 {
        McpPolicy::Allow
    } else if i == 52 {
        McpPolicy::Allow
    } else if i == 53 {
        McpPolicy::Allow
    } else if i == 54 {
        McpPolicy::Allow
    } else if i == 55 {
        McpPolicy::Deny
    } else if i == 56 {
        McpPolicy::Deny
    } else if i == 57 {
        McpPolicy::Deny
    } else if i == 58 {
        McpPolicy::Deny
    } else if i == 59 {
        McpPolicy::Deny
    } else if i == 60 {
        McpPolicy::Allow
    } else if i == 61 {
        McpPolicy::Deny
    } else if i == 62 {
        McpPolicy::Allow
    } else if i == 63 {
        McpPolicy::Allow
    } else if i == 64 {
        McpPolicy::Allow
    } else if i == 65 {
        McpPolicy::Deny
    } else if i == 66 {
        McpPolicy::Allow
    } else if i == 67 {
        McpPolicy::Deny
    } else if i == 68 {
        McpPolicy::Deny
    } else if i == 69 {
        McpPolicy::Deny
    } else if i == 70 {
        McpPolicy::Deny
    } else if i == 71 {
        McpPolicy::Allow
    } else if i == 72 {
        McpPolicy::Allow
    } else if i == 73 {
        McpPolicy::Allow
    } else if i == 74 {
        McpPolicy::Deny
    } else if i == 75 {
        McpPolicy::Deny
    } else if i == 76 {
        McpPolicy::Deny
    } else if i == 77 {
        McpPolicy::Deny
    } else if i == 78 {
        McpPolicy::Allow
    } else if i == 79 {
        McpPolicy::Allow
    } else if i == 80 {
        McpPolicy::Allow
    } else if i == 81 {
        McpPolicy::Allow
    } else if i == 82 {
        McpPolicy::Allow
    } else if i == 83 {
        McpPolicy::Allow
    } else if i == 84 {
        McpPolicy::Allow
    } else if i == 85 {
        McpPolicy::Allow
    } else if i == 86 {
        McpPolicy::Allow
    } else if i == 87 {
        McpPolicy::Allow
    } else if i == 88 {
        McpPolicy::Allow
    } else if i == 89 {
        McpPolicy::Allow
    } else if i == 90 {
        McpPolicy::Allow
    } else if i == 91 {
        McpPolicy::Allow
    } else if i == 92 {
        McpPolicy::Allow
    } else if i == 93 {
        McpPolicy::Allow
    } else if i == 94 {
        McpPolicy::Allow
    } else if i == 95 {
        McpPolicy::Ask
    } else if i == 96 {
        McpPolicy::Allow
    } else if i == 97 {
        McpPolicy::Allow
    } else if i == 98 {
        McpPolicy::Allow
    } else if i == 99 {
        McpPolicy::Allow
    } else if i == 100 {
        McpPolicy::Allow
    } else if i == 101 {
        McpPolicy::Deny
    } else if i == 102 {
        McpPolicy::Deny
    } else if i == 103 {
        McpPolicy::Allow
    } else if i == 104 {
        McpPolicy::Deny
    } else if i == 105 {
        McpPolicy::Deny
    } else if i == 106 {
        McpPolicy::Allow
    } else if i == 107 {
        McpPolicy::Allow
    } else if i == 108 {
        McpPolicy::Allow
    } else if i == 109 {
        McpPolicy::Allow
    } else if i == 110 {
        McpPolicy::Allow
    } else if i == 111 {
        McpPolicy::Allow
    } else if i == 112 {
        McpPolicy::Ask
    } else if i == 113 {
        McpPolicy::Allow
    } else if i == 114 {
        McpPolicy::Allow
    } else if i == 115 {
        McpPolicy::Allow
    } else if i == 116 {
        McpPolicy::Allow
    } else if i == 117 {
        McpPolicy::Allow
    } else if i == 118 {
        McpPolicy::Allow
    } else if i == 119 {
        McpPolicy::Allow
    } else if i == 120 {
        McpPolicy::Allow
    } else if i == 121 {
        McpPolicy::Allow
    } else if i == 122 {
        McpPolicy::Allow
    } else if i == 123 {
        McpPolicy::Allow
    } else if i == 124 {
        McpPolicy::Allow
    } else if i == 125 {
        McpPolicy::Allow
    } else if i == 126 {
        McpPolicy::Allow
    } else if i == 127 {
        McpPolicy::Allow
    } else if i == 128 {
        McpPolicy::Allow
    } else if i == 129 {
        McpPolicy::Allow
    } else if i == 130 {
        McpPolicy::Deny
    } else if i == 131 {
        McpPolicy::Deny
    } else if i == 132 {
        McpPolicy::Deny
    } else if i == 133 {
        McpPolicy::Deny
    } else if i == 134 {
        McpPolicy::Deny
    } else if i == 135 {
        McpPolicy::Deny
    } else if i == 136 {
        McpPolicy::Deny
    } else if i == 137 {
        McpPolicy::Deny
    } else if i == 138 {
        McpPolicy::Deny
    } else if i == 139 {
        McpPolicy::Deny
    } else if i == 140 {
        McpPolicy::Deny
    } else if i == 141 {
        McpPolicy::Allow
    } else if i == 142 {
        McpPolicy::Ask
    } else if i == 143 {
        McpPolicy::Allow
    } else if i == 144 {
        McpPolicy::Allow
    } else if i == 145 {
        McpPolicy::Allow
    } else if i == 146 {
        McpPolicy::Allow
    } else if i == 147 {
        McpPolicy::Allow
    } else if i == 148 {
        McpPolicy::Ask
    } else if i == 149 {
        McpPolicy::Ask
    } else if i == 150 {
        McpPolicy::Deny
    } else if i == 151 {
        McpPolicy::Deny
    } else if i == 152 {
        McpPolicy::Deny
    } else if i == 153 {
        McpPolicy::Allow
    } else if i == 154 {
        McpPolicy::Allow
    } else if i == 155 {
        McpPolicy::Deny
    } else if i == 156 {
        McpPolicy::Allow
    } else if i == 157 {
        McpPolicy::Ask
    } else if i == 158 {
        McpPolicy::Allow
    } else if i == 159 {
        McpPolicy::Allow
    } else if i == 160 {
        McpPolicy::Allow
    } else if i == 161 {
        McpPolicy::Allow
    } else if i == 162 {
        McpPolicy::Allow
    } else if i == 163 {
        McpPolicy::Allow
    } else if i == 164 {
        McpPolicy::Deny
    } else if i == 165 {
        McpPolicy::Allow
    } else if i == 166 {
        McpPolicy::Allow
    } else if i == 167 {
        McpPolicy::Allow
    } else if i == 168 {
        McpPolicy::Allow
    } else {
        McpPolicy::Allow
    }
}

/// The arguments, as shapes, of row `i`.
pub open spec fn spec_row_fields(i: nat) -> Seq<FieldV> {
    if i == 0 {
        seq![
            FieldV { name: "at"@, doc: "where to insert"@, shape: position_shape(), required: true },
            FieldV { name: "text"@, doc: "what to insert"@, shape: ShapeV::Text, required: true },
        ]
    } else if i == 1 {
        seq![
            FieldV { name: "span"@, doc: "the span to remove"@, shape: span_shape(), required: true },
        ]
    } else if i == 2 {
        seq![
            FieldV { name: "span"@, doc: "the span to replace"@, shape: span_shape(), required: true },
            FieldV { name: "text"@, doc: "what replaces it"@, shape: ShapeV::Text, required: true },
        ]
    } else if i == 3 {
        seq![
            FieldV { name: "edits"@, doc: "the edits, in order"@, shape: ShapeV::List(Box::new(edit_shape())), required: true },
        ]
    } else if i == 4 {
        seq![
            FieldV { name: "target"@, doc: "what to copy"@, shape: target_shape(), required: true },
            FieldV { name: "register"@, doc: "which register; absent means the unnamed one"@, shape: ShapeV::Text, required: false },
        ]
    } else if i == 5 {
        seq![
            FieldV { name: "at"@, doc: "where to put it"@, shape: target_shape(), required: true },
            FieldV { name: "register"@, doc: "which register; absent means the unnamed one"@, shape: ShapeV::Text, required: false },
            FieldV { name: "before"@, doc: "put it before the target rather than after"@, shape: ShapeV::Bool, required: true },
        ]
    } else if i == 6 {
        seq![
            FieldV { name: "register"@, doc: "which register"@, shape: ShapeV::Text, required: true },
            FieldV { name: "text"@, doc: "the contents"@, shape: ShapeV::Text, required: true },
        ]
    } else if i == 7 {
        seq![
            FieldV { name: "target"@, doc: "what to shift"@, shape: target_shape(), required: true },
            FieldV { name: "delta"@, doc: "levels, negative to dedent"@, shape: ShapeV::Int, required: true },
        ]
    } else if i == 8 {
        Seq::empty()
    } else if i == 9 {
        seq![
            FieldV { name: "target"@, doc: "what to join"@, shape: target_shape(), required: true },
        ]
    } else if i == 10 {
        seq![
            FieldV { name: "target"@, doc: "whose letters"@, shape: target_shape(), required: true },
            FieldV { name: "case"@, doc: "upper, lower or toggle"@, shape: case_change_shape(), required: true },
        ]
    } else if i == 11 {
        seq![
            FieldV { name: "target"@, doc: "what to toggle"@, shape: target_shape(), required: true },
        ]
    } else if i == 12 {
        seq![
            FieldV { name: "target"@, doc: "what to align"@, shape: target_shape(), required: true },
        ]
    } else if i == 13 {
        seq![
            FieldV { name: "motion"@, doc: "which motion"@, shape: motion_shape(), required: true },
            FieldV { name: "count"@, doc: "how many times; 1 is the plain form"@, shape: ShapeV::Uint, required: true },
        ]
    } else if i == 14 {
        seq![
            FieldV { name: "position"@, doc: "where"@, shape: position_shape(), required: true },
            FieldV { name: "buffer"@, doc: "which buffer; absent means the focused one"@, shape: ShapeV::Id("buffer"@), required: false },
        ]
    } else if i == 15 {
        seq![
            FieldV { name: "span"@, doc: "the span"@, shape: span_shape(), required: true },
            FieldV { name: "kind"@, doc: "characterwise, linewise or blockwise"@, shape: selection_kind_shape(), required: true },
        ]
    } else if i == 16 {
        seq![
            FieldV { name: "object"@, doc: "which object"@, shape: text_object_shape(), required: true },
            FieldV { name: "inner"@, doc: "inner (i) rather than around (a)"@, shape: ShapeV::Bool, required: true },
            FieldV { name: "count"@, doc: "how many, for nesting"@, shape: ShapeV::Uint, required: true },
            FieldV { name: "delimiter"@, doc: "the delimiter, for a delimited object"@, shape: ShapeV::Char, required: false },
        ]
    } else if i == 17 {
        seq![
            FieldV { name: "motion"@, doc: "which motion"@, shape: motion_shape(), required: true },
            FieldV { name: "count"@, doc: "how many times"@, shape: ShapeV::Uint, required: true },
        ]
    } else if i == 18 {
        Seq::empty()
    } else if i == 19 {
        seq![
            FieldV { name: "sequence"@, doc: "which sequence"@, shape: sequence_shape(), required: true },
            FieldV { name: "seek"@, doc: "next, prev, first or last"@, shape: seek_shape(), required: true },
            FieldV { name: "filter"@, doc: "narrow it, e.g. to the agent's regions"@, shape: region_filter_shape(), required: false },
        ]
    } else if i == 20 {
        seq![
            FieldV { name: "path"@, doc: "workspace-relative path"@, shape: ShapeV::Path, required: true },
            FieldV { name: "position"@, doc: "where in it; absent means where you last were"@, shape: position_shape(), required: false },
            FieldV { name: "pane"@, doc: "which pane it lands in"@, shape: pane_ref_shape(), required: true },
        ]
    } else if i == 21 {
        seq![
            FieldV { name: "anchor"@, doc: "which anchor, by id"@, shape: ShapeV::Id("anchor"@), required: false },
            FieldV { name: "label"@, doc: "or by the label place-anchor wrote — m's a-z"@, shape: ShapeV::Text, required: false },
            FieldV { name: "exact"@, doc: "backtick lands on the column, quote lands on the line"@, shape: ShapeV::Bool, required: true },
        ]
    } else if i == 22 {
        seq![
            FieldV { name: "seek"@, doc: "next (forward) or prev (back)"@, shape: seek_shape(), required: true },
        ]
    } else if i == 23 {
        seq![
            FieldV { name: "request"@, doc: "what to move, and how far"@, shape: scroll_request_shape(), required: true },
            FieldV { name: "pane"@, doc: "which pane"@, shape: pane_ref_shape(), required: true },
        ]
    } else if i == 24 {
        seq![
            FieldV { name: "target"@, doc: "which buffer"@, shape: target_shape(), required: true },
            FieldV { name: "on"@, doc: "on or off"@, shape: ShapeV::Bool, required: true },
        ]
    } else if i == 25 {
        seq![
            FieldV { name: "target"@, doc: "what to fold"@, shape: target_shape(), required: true },
            FieldV { name: "state"@, doc: "folded, unfolded or toggle"@, shape: fold_state_shape(), required: true },
        ]
    } else if i == 26 {
        seq![
            FieldV { name: "level"@, doc: "depth to fold to"@, shape: ShapeV::Uint, required: true },
        ]
    } else if i == 27 {
        Seq::empty()
    } else if i == 28 {
        seq![
            FieldV { name: "owner"@, doc: "whose rows"@, shape: target_shape(), required: true },
            FieldV { name: "on"@, doc: "shown or collapsed"@, shape: ShapeV::Bool, required: true },
        ]
    } else if i == 29 {
        seq![
            FieldV { name: "mode"@, doc: "which mode"@, shape: edit_mode_shape(), required: true },
        ]
    } else if i == 30 {
        seq![
            FieldV { name: "count"@, doc: "the count"@, shape: ShapeV::Uint, required: true },
        ]
    } else if i == 31 {
        seq![
            FieldV { name: "register"@, doc: "which register"@, shape: ShapeV::Text, required: true },
        ]
    } else if i == 32 {
        Seq::empty()
    } else if i == 33 {
        seq![
            FieldV { name: "keys"@, doc: "vim notation, e.g. `<C-q>` or `SPC f`"@, shape: ShapeV::Text, required: true },
        ]
    } else if i == 34 {
        seq![
            FieldV { name: "count"@, doc: "how many times"@, shape: ShapeV::Uint, required: true },
        ]
    } else if i == 35 {
        seq![
            FieldV { name: "register"@, doc: "which register the keys land in"@, shape: ShapeV::Text, required: true },
            FieldV { name: "on"@, doc: "start recording into it, or stop and keep what it holds"@, shape: ShapeV::Bool, required: true },
        ]
    } else if i == 36 {
        seq![
            FieldV { name: "count"@, doc: "how many steps"@, shape: ShapeV::Uint, required: true },
        ]
    } else if i == 37 {
        seq![
            FieldV { name: "count"@, doc: "how many steps"@, shape: ShapeV::Uint, required: true },
        ]
    } else if i == 38 {
        seq![
            FieldV { name: "checkpoint"@, doc: "which point"@, shape: ShapeV::Id("checkpoint"@), required: true },
        ]
    } else if i == 39 {
        Seq::empty()
    } else if i == 40 {
        seq![
            FieldV { name: "target"@, doc: "whose history"@, shape: target_shape(), required: true },
        ]
    } else if i == 41 {
        seq![
            FieldV { name: "path"@, doc: "workspace-relative path"@, shape: ShapeV::Path, required: true },
            FieldV { name: "at"@, doc: "where to put the cursor"@, shape: position_shape(), required: false },
            FieldV { name: "pane"@, doc: "which pane it lands in"@, shape: pane_ref_shape(), required: true },
        ]
    } else if i == 42 {
        seq![
            FieldV { name: "pane"@, doc: "which pane it lands in"@, shape: pane_ref_shape(), required: true },
        ]
    } else if i == 43 {
        seq![
            FieldV { name: "target"@, doc: "which buffer"@, shape: target_shape(), required: true },
            FieldV { name: "path"@, doc: "write here instead"@, shape: ShapeV::Path, required: false },
        ]
    } else if i == 44 {
        Seq::empty()
    } else if i == 45 {
        seq![
            FieldV { name: "target"@, doc: "which buffer"@, shape: target_shape(), required: true },
            FieldV { name: "force"@, doc: "close even if it is dirty"@, shape: ShapeV::Bool, required: true },
        ]
    } else if i == 46 {
        seq![
            FieldV { name: "target"@, doc: "which buffer"@, shape: target_shape(), required: true },
        ]
    } else if i == 47 {
        seq![
            FieldV { name: "path"@, doc: "which file"@, shape: ShapeV::Path, required: true },
            FieldV { name: "changed_by"@, doc: "who is claimed to have changed it"@, shape: actor_shape(), required: true },
        ]
    } else if i == 48 {
        seq![
            FieldV { name: "target"@, doc: "which buffer"@, shape: target_shape(), required: true },
        ]
    } else if i == 49 {
        seq![
            FieldV { name: "target"@, doc: "which buffer"@, shape: target_shape(), required: true },
            FieldV { name: "exit"@, doc: "take disk, keep mine, or ask the agent"@, shape: disk_exit_shape(), required: true },
        ]
    } else if i == 50 {
        seq![
            FieldV { name: "path"@, doc: "which path"@, shape: ShapeV::Path, required: true },
            FieldV { name: "on"@, doc: "watching or not"@, shape: ShapeV::Bool, required: true },
        ]
    } else if i == 51 {
        seq![
            FieldV { name: "surface"@, doc: "which surface — a registry key, not a Rust variant"@, shape: ShapeV::Text, required: true },
            FieldV { name: "args"@, doc: "the surface's own arguments"@, shape: ShapeV::Any, required: true },
        ]
    } else if i == 52 {
        Seq::empty()
    } else if i == 53 {
        Seq::empty()
    } else if i == 54 {
        seq![
            FieldV { name: "surface"@, doc: "the surface id open-float will name"@, shape: ShapeV::Text, required: true },
            FieldV { name: "body"@, doc: "scheme source producing the float — a procedure of one argument"@, shape: ShapeV::Text, required: true },
        ]
    } else if i == 55 {
        seq![
            FieldV { name: "delta"@, doc: "rows to move; negative goes up"@, shape: ShapeV::Int, required: true },
        ]
    } else if i == 56 {
        seq![
            FieldV { name: "row"@, doc: "1-based row"@, shape: ShapeV::Uint, required: true },
        ]
    } else if i == 57 {
        Seq::empty()
    } else if i == 58 {
        seq![
            FieldV { name: "digit"@, doc: "which option, 1-based"@, shape: ShapeV::Uint, required: true },
        ]
    } else if i == 59 {
        seq![
            FieldV { name: "row"@, doc: "1-based row"@, shape: ShapeV::Uint, required: true },
        ]
    } else if i == 60 {
        seq![
            FieldV { name: "pane"@, doc: "which pane to split"@, shape: pane_ref_shape(), required: true },
            FieldV { name: "direction"@, doc: "which way"@, shape: direction_shape(), required: true },
            FieldV { name: "kind"@, doc: "what the new pane holds"@, shape: pane_kind_shape(), required: true },
        ]
    } else if i == 61 {
        seq![
            FieldV { name: "pane"@, doc: "which pane"@, shape: pane_ref_shape(), required: true },
        ]
    } else if i == 62 {
        seq![
            FieldV { name: "pane"@, doc: "which pane"@, shape: pane_ref_shape(), required: true },
        ]
    } else if i == 63 {
        seq![
            FieldV { name: "pane"@, doc: "which pane"@, shape: pane_ref_shape(), required: true },
            FieldV { name: "delta"@, doc: "cells, negative to shrink"@, shape: ShapeV::Int, required: true },
        ]
    } else if i == 64 {
        seq![
            FieldV { name: "pane"@, doc: "which pane"@, shape: pane_ref_shape(), required: true },
            FieldV { name: "kind"@, doc: "what it holds"@, shape: pane_kind_shape(), required: true },
        ]
    } else if i == 65 {
        seq![
            FieldV { name: "pane"@, doc: "which pane"@, shape: pane_ref_shape(), required: true },
            FieldV { name: "tree"@, doc: "the view tree, as plain data"@, shape: ShapeV::Any, required: true },
        ]
    } else if i == 66 {
        seq![
            FieldV { name: "source"@, doc: "which source"@, shape: ShapeV::Text, required: true },
            FieldV { name: "query"@, doc: "seed the filter with this"@, shape: ShapeV::Text, required: false },
        ]
    } else if i == 67 {
        seq![
            FieldV { name: "text"@, doc: "the filter"@, shape: ShapeV::Text, required: true },
        ]
    } else if i == 68 {
        seq![
            FieldV { name: "delta"@, doc: "how many, negative goes back"@, shape: ShapeV::Int, required: true },
        ]
    } else if i == 69 {
        seq![
            FieldV { name: "how"@, doc: "open, split, or quickfix"@, shape: accept_how_shape(), required: true },
        ]
    } else if i == 70 {
        Seq::empty()
    } else if i == 71 {
        seq![
            FieldV { name: "source"@, doc: "the source id"@, shape: ShapeV::Text, required: true },
            FieldV { name: "body"@, doc: "scheme source producing the rows"@, shape: ShapeV::Text, required: true },
        ]
    } else if i == 72 {
        seq![
            FieldV { name: "source"@, doc: "which source"@, shape: ShapeV::Text, required: true },
        ]
    } else if i == 73 {
        seq![
            FieldV { name: "kind"@, doc: "ex, the agent, or search"@, shape: prompt_kind_shape(), required: true },
            FieldV { name: "seed"@, doc: "prefill"@, shape: ShapeV::Text, required: false },
            FieldV { name: "anchor"@, doc: "what the message is about"@, shape: target_shape(), required: false },
        ]
    } else if i == 74 {
        seq![
            FieldV { name: "text"@, doc: "the text"@, shape: ShapeV::Text, required: true },
        ]
    } else if i == 75 {
        Seq::empty()
    } else if i == 76 {
        Seq::empty()
    } else if i == 77 {
        seq![
            FieldV { name: "delta"@, doc: "how far back, negative goes forward"@, shape: ShapeV::Int, required: true },
        ]
    } else if i == 78 {
        seq![
            FieldV { name: "target"@, doc: "what to mark; a hunk and an inbox item are targets too"@, shape: target_shape(), required: true },
        ]
    } else if i == 79 {
        seq![
            FieldV { name: "target"@, doc: "what to mark"@, shape: target_shape(), required: true },
        ]
    } else if i == 80 {
        seq![
            FieldV { name: "regions"@, doc: "the spans, each with its claimed author"@, shape: ShapeV::List(Box::new(region_spec_shape())), required: true },
        ]
    } else if i == 81 {
        seq![
            FieldV { name: "at"@, doc: "what to anchor to"@, shape: target_shape(), required: true },
            FieldV { name: "label"@, doc: "a name to find it by — m's a-z, or a caller's own"@, shape: ShapeV::Text, required: false },
        ]
    } else if i == 82 {
        seq![
            FieldV { name: "path"@, doc: "which file"@, shape: ShapeV::Path, required: true },
        ]
    } else if i == 83 {
        seq![
            FieldV { name: "target"@, doc: "which regions"@, shape: target_shape(), required: true },
        ]
    } else if i == 84 {
        seq![
            FieldV { name: "anchor"@, doc: "what it is about"@, shape: target_shape(), required: true },
            FieldV { name: "body"@, doc: "what you said"@, shape: ShapeV::Text, required: true },
        ]
    } else if i == 85 {
        seq![
            FieldV { name: "thread"@, doc: "which thread"@, shape: ShapeV::Id("thread"@), required: true },
            FieldV { name: "body"@, doc: "the reply"@, shape: ShapeV::Text, required: true },
        ]
    } else if i == 86 {
        seq![
            FieldV { name: "thread"@, doc: "which thread"@, shape: ShapeV::Id("thread"@), required: true },
        ]
    } else if i == 87 {
        seq![
            FieldV { name: "thread"@, doc: "which thread"@, shape: ShapeV::Id("thread"@), required: true },
        ]
    } else if i == 88 {
        seq![
            FieldV { name: "pattern"@, doc: "the pattern to match"@, shape: ShapeV::Text, required: true },
            FieldV { name: "body"@, doc: "the message"@, shape: ShapeV::Text, required: true },
        ]
    } else if i == 89 {
        seq![
            FieldV { name: "title"@, doc: "what this block is"@, shape: ShapeV::Text, required: true },
            FieldV { name: "files"@, doc: "the files and spans it covers"@, shape: ShapeV::List(Box::new(file_group_shape())), required: true },
            FieldV { name: "annotation"@, doc: "the agent's note about the block as a whole"@, shape: ShapeV::Text, required: false },
        ]
    } else if i == 90 {
        seq![
            FieldV { name: "block"@, doc: "which block"@, shape: ShapeV::Id("block"@), required: true },
        ]
    } else if i == 91 {
        seq![
            FieldV { name: "mode"@, doc: "which mode"@, shape: diff_mode_shape(), required: true },
        ]
    } else if i == 92 {
        seq![
            FieldV { name: "hunk"@, doc: "which hunk"@, shape: ShapeV::Id("hunk"@), required: true },
            FieldV { name: "lines"@, doc: "how many more lines"@, shape: ShapeV::Uint, required: true },
        ]
    } else if i == 93 {
        seq![
            FieldV { name: "grouping"@, doc: "directory or flat"@, shape: grouping_shape(), required: true },
        ]
    } else if i == 94 {
        seq![
            FieldV { name: "group"@, doc: "which group"@, shape: ShapeV::Id("group"@), required: true },
            FieldV { name: "text"@, doc: "the annotation"@, shape: ShapeV::Text, required: true },
        ]
    } else if i == 95 {
        seq![
            FieldV { name: "hunk"@, doc: "which hunk"@, shape: ShapeV::Id("hunk"@), required: true },
        ]
    } else if i == 96 {
        seq![
            FieldV { name: "target"@, doc: "which hunk or region"@, shape: target_shape(), required: true },
        ]
    } else if i == 97 {
        Seq::empty()
    } else if i == 98 {
        seq![
            FieldV { name: "item"@, doc: "which item"@, shape: ShapeV::Id("inbox-item"@), required: true },
        ]
    } else if i == 99 {
        seq![
            FieldV { name: "severity"@, doc: "info, attention or trouble"@, shape: severity_shape(), required: true },
            FieldV { name: "title"@, doc: "one line"@, shape: ShapeV::Text, required: true },
            FieldV { name: "body"@, doc: "the rest"@, shape: ShapeV::Text, required: false },
            FieldV { name: "anchor"@, doc: "what it is about"@, shape: target_shape(), required: false },
        ]
    } else if i == 100 {
        seq![
            FieldV { name: "prose"@, doc: "what the agent is asking"@, shape: ShapeV::Text, required: true },
            FieldV { name: "options"@, doc: "the numbered options, if any"@, shape: ShapeV::List(Box::new(ask_option_shape())), required: true },
        ]
    } else if i == 101 {
        seq![
            FieldV { name: "ask"@, doc: "which ask"@, shape: ShapeV::Id("ask"@), required: true },
            FieldV { name: "digit"@, doc: "which option, 1-based"@, shape: ShapeV::Uint, required: false },
            FieldV { name: "prose"@, doc: "a prose answer instead"@, shape: ShapeV::Text, required: false },
        ]
    } else if i == 102 {
        seq![
            FieldV { name: "ask"@, doc: "which ask; absent means the one on screen"@, shape: ShapeV::Id("ask"@), required: false },
        ]
    } else if i == 103 {
        seq![
            FieldV { name: "invocation"@, doc: "the exact command, as it will run"@, shape: ShapeV::Text, required: true },
            FieldV { name: "files"@, doc: "the files it touches, if it is a file operation"@, shape: ShapeV::List(Box::new(ShapeV::Path)), required: true },
        ]
    } else if i == 104 {
        seq![
            FieldV { name: "ask"@, doc: "which ask"@, shape: ShapeV::Id("ask"@), required: true },
            FieldV { name: "scope"@, doc: "once, or always"@, shape: grant_scope_shape(), required: true },
        ]
    } else if i == 105 {
        seq![
            FieldV { name: "ask"@, doc: "which ask"@, shape: ShapeV::Id("ask"@), required: true },
        ]
    } else if i == 106 {
        seq![
            FieldV { name: "agent"@, doc: "which agent binary or endpoint"@, shape: ShapeV::Text, required: true },
            FieldV { name: "cwd"@, doc: "working directory; absent means the workspace root"@, shape: ShapeV::Path, required: false },
        ]
    } else if i == 107 {
        Seq::empty()
    } else if i == 108 {
        seq![
            FieldV { name: "handle"@, doc: "the discovered session's handle"@, shape: ShapeV::Text, required: true },
        ]
    } else if i == 109 {
        seq![
            FieldV { name: "endpoint"@, doc: "where it is"@, shape: ShapeV::Text, required: true },
        ]
    } else if i == 110 {
        Seq::empty()
    } else if i == 111 {
        Seq::empty()
    } else if i == 112 {
        seq![
            FieldV { name: "force"@, doc: "end it even mid-turn"@, shape: ShapeV::Bool, required: true },
        ]
    } else if i == 113 {
        seq![
            FieldV { name: "body"@, doc: "the message"@, shape: ShapeV::Text, required: true },
            FieldV { name: "anchors"@, doc: "what it is about; a selection, a region, many of them"@, shape: ShapeV::List(Box::new(target_shape())), required: true },
        ]
    } else if i == 114 {
        Seq::empty()
    } else if i == 115 {
        seq![
            FieldV { name: "body"@, doc: "the correction"@, shape: ShapeV::Text, required: true },
        ]
    } else if i == 116 {
        Seq::empty()
    } else if i == 117 {
        Seq::empty()
    } else if i == 118 {
        seq![
            FieldV { name: "turn"@, doc: "which turn"@, shape: ShapeV::Id("turn"@), required: true },
            FieldV { name: "prompt"@, doc: "what started it"@, shape: ShapeV::Text, required: false },
        ]
    } else if i == 119 {
        seq![
            FieldV { name: "turn"@, doc: "which turn"@, shape: ShapeV::Id("turn"@), required: true },
            FieldV { name: "summary"@, doc: "how it ended"@, shape: ShapeV::Text, required: false },
        ]
    } else if i == 120 {
        seq![
            FieldV { name: "turn"@, doc: "which turn"@, shape: ShapeV::Id("turn"@), required: true },
            FieldV { name: "chunk"@, doc: "the text"@, shape: ShapeV::Text, required: true },
        ]
    } else if i == 121 {
        seq![
            FieldV { name: "turn"@, doc: "which turn"@, shape: ShapeV::Id("turn"@), required: true },
            FieldV { name: "call"@, doc: "the call's id"@, shape: ShapeV::Id("tool-call"@), required: true },
            FieldV { name: "verb"@, doc: "what it is doing — read, edit, run"@, shape: ShapeV::Text, required: true },
            FieldV { name: "target"@, doc: "what it is doing it to"@, shape: ShapeV::Text, required: false },
            FieldV { name: "path"@, doc: "the absolute path this call touches, for the jump link"@, shape: ShapeV::Text, required: false },
            FieldV { name: "line"@, doc: "one-based line within that file, when the agent named one"@, shape: ShapeV::Uint, required: false },
        ]
    } else if i == 122 {
        seq![
            FieldV { name: "call"@, doc: "which call"@, shape: ShapeV::Id("tool-call"@), required: true },
            FieldV { name: "note"@, doc: "the progress line"@, shape: ShapeV::Text, required: true },
        ]
    } else if i == 123 {
        seq![
            FieldV { name: "call"@, doc: "which call"@, shape: ShapeV::Id("tool-call"@), required: true },
            FieldV { name: "summary"@, doc: "one line"@, shape: ShapeV::Text, required: true },
            FieldV { name: "added"@, doc: "lines added"@, shape: ShapeV::Uint, required: true },
            FieldV { name: "removed"@, doc: "lines removed"@, shape: ShapeV::Uint, required: true },
        ]
    } else if i == 124 {
        seq![
            FieldV { name: "kind"@, doc: "which seam"@, shape: seam_kind_shape(), required: true },
            FieldV { name: "note"@, doc: "what to say about it"@, shape: ShapeV::Text, required: false },
        ]
    } else if i == 125 {
        seq![
            FieldV { name: "anchor"@, doc: "what to watch"@, shape: target_shape(), required: true },
            FieldV { name: "expr"@, doc: "the expression to evaluate"@, shape: ShapeV::Text, required: true },
        ]
    } else if i == 126 {
        seq![
            FieldV { name: "watch"@, doc: "which watch"@, shape: ShapeV::Id("watch"@), required: true },
        ]
    } else if i == 127 {
        seq![
            FieldV { name: "watch"@, doc: "which watch"@, shape: ShapeV::Id("watch"@), required: true },
            FieldV { name: "on"@, doc: "shown or collapsed"@, shape: ShapeV::Bool, required: true },
        ]
    } else if i == 128 {
        seq![
            FieldV { name: "watch"@, doc: "which watch"@, shape: ShapeV::Id("watch"@), required: true },
            FieldV { name: "values"@, doc: "the value sequence, in order"@, shape: ShapeV::List(Box::new(ShapeV::Text)), required: true },
            FieldV { name: "provenance"@, doc: "where they came from — 5a's \"cargo test · … · 40s ago\""@, shape: ShapeV::Text, required: false },
        ]
    } else if i == 129 {
        seq![
            FieldV { name: "watch"@, doc: "which watch"@, shape: ShapeV::Id("watch"@), required: true },
        ]
    } else if i == 130 {
        Seq::empty()
    } else if i == 131 {
        seq![
            FieldV { name: "delta"@, doc: "rows, negative goes up"@, shape: ShapeV::Int, required: true },
            FieldV { name: "otherwise"@, doc: "the capability to run when no completion list is open; present is what makes a key step the list and still do its ordinary job when there is no list"@, shape: binding_shape(), required: false },
        ]
    } else if i == 132 {
        seq![
            FieldV { name: "index"@, doc: "which item, 1-based; 0 is whichever row is selected, which is the only thing a keymap can name"@, shape: ShapeV::Uint, required: true },
            FieldV { name: "then"@, doc: "text to type after the accepted item — the space the `<space>` key leaves behind"@, shape: ShapeV::Text, required: false },
            FieldV { name: "otherwise"@, doc: "text to type when no row has been chosen; present is what makes a key fall through instead of accepting"@, shape: ShapeV::Text, required: false },
        ]
    } else if i == 133 {
        Seq::empty()
    } else if i == 134 {
        Seq::empty()
    } else if i == 135 {
        Seq::empty()
    } else if i == 136 {
        Seq::empty()
    } else if i == 137 {
        Seq::empty()
    } else if i == 138 {
        seq![
            FieldV { name: "items"@, doc: "the items, in the order the server ranked them; empty means it had nothing"@, shape: ShapeV::List(Box::new(completion_shape())), required: true },
            FieldV { name: "at"@, doc: "the cursor the request was made at, so an answer the cursor has left is dropped rather than drawn in the wrong place"@, shape: position_shape(), required: true },
            FieldV { name: "buffer"@, doc: "which buffer asked; absent means the focused one"@, shape: ShapeV::Id("buffer"@), required: false },
        ]
    } else if i == 139 {
        seq![
            FieldV { name: "signature"@, doc: "the active signature, absent when the server had none"@, shape: signature_shape(), required: false },
            FieldV { name: "at"@, doc: "the cursor the request was made at, so a late answer is dropped rather than drawn in the wrong place"@, shape: position_shape(), required: true },
            FieldV { name: "buffer"@, doc: "which buffer asked; absent means the focused one"@, shape: ShapeV::Id("buffer"@), required: false },
        ]
    } else if i == 140 {
        seq![
            FieldV { name: "prose"@, doc: "the hover text, one row per line; empty means the server had nothing"@, shape: ShapeV::List(Box::new(ShapeV::Text)), required: true },
            FieldV { name: "at"@, doc: "the cursor the request was made at, so a late answer is dropped rather than drawn in the wrong place"@, shape: position_shape(), required: true },
            FieldV { name: "buffer"@, doc: "which buffer asked; absent means the focused one"@, shape: ShapeV::Id("buffer"@), required: false },
        ]
    } else if i == 141 {
        seq![
            FieldV { name: "path"@, doc: "which file"@, shape: ShapeV::Path, required: true },
            FieldV { name: "diagnostics"@, doc: "the diagnostics, replacing that file's set"@, shape: ShapeV::List(Box::new(diagnostic_shape())), required: true },
        ]
    } else if i == 142 {
        seq![
            FieldV { name: "files"@, doc: "the edits, per file"@, shape: ShapeV::List(Box::new(file_edits_shape())), required: true },
        ]
    } else if i == 143 {
        seq![
            FieldV { name: "language"@, doc: "which language's server"@, shape: ShapeV::Text, required: true },
        ]
    } else if i == 144 {
        Seq::empty()
    } else if i == 145 {
        Seq::empty()
    } else if i == 146 {
        seq![
            FieldV { name: "change"@, doc: "which change"@, shape: ShapeV::Text, required: true },
        ]
    } else if i == 147 {
        Seq::empty()
    } else if i == 148 {
        seq![
            FieldV { name: "change"@, doc: "which change"@, shape: ShapeV::Text, required: true },
        ]
    } else if i == 149 {
        seq![
            FieldV { name: "change"@, doc: "which change"@, shape: ShapeV::Text, required: true },
        ]
    } else if i == 150 {
        seq![
            FieldV { name: "source"@, doc: "the source text"@, shape: ShapeV::Text, required: true },
        ]
    } else if i == 151 {
        seq![
            FieldV { name: "path"@, doc: "which file"@, shape: ShapeV::Path, required: true },
        ]
    } else if i == 152 {
        Seq::empty()
    } else if i == 153 {
        Seq::empty()
    } else if i == 154 {
        Seq::empty()
    } else if i == 155 {
        seq![
            FieldV { name: "delta"@, doc: "how far back, negative goes forward"@, shape: ShapeV::Int, required: true },
        ]
    } else if i == 156 {
        Seq::empty()
    } else if i == 157 {
        seq![
            FieldV { name: "form"@, doc: "the form to write"@, shape: ShapeV::Text, required: true },
        ]
    } else if i == 158 {
        seq![
            FieldV { name: "keys"@, doc: "vim notation, e.g. \"]r\""@, shape: ShapeV::Text, required: true },
            FieldV { name: "binding"@, doc: "a capability with arguments, or scheme source"@, shape: binding_shape(), required: true },
            FieldV { name: "mode"@, doc: "which mode; absent means normal"@, shape: edit_mode_shape(), required: false },
        ]
    } else if i == 159 {
        seq![
            FieldV { name: "keys"@, doc: "vim notation"@, shape: ShapeV::Text, required: true },
            FieldV { name: "mode"@, doc: "which mode; absent means normal"@, shape: edit_mode_shape(), required: false },
        ]
    } else if i == 160 {
        seq![
            FieldV { name: "language"@, doc: "the language's name"@, shape: ShapeV::Text, required: true },
            FieldV { name: "spec"@, doc: "what it is made of"@, shape: language_spec_shape(), required: true },
        ]
    } else if i == 161 {
        seq![
            FieldV { name: "key"@, doc: "the option's name"@, shape: ShapeV::Text, required: true },
            FieldV { name: "value"@, doc: "its value"@, shape: ShapeV::Any, required: true },
        ]
    } else if i == 162 {
        seq![
            FieldV { name: "slug"@, doc: "which theme"@, shape: ShapeV::Text, required: true },
        ]
    } else if i == 163 {
        Seq::empty()
    } else if i == 164 {
        seq![
            FieldV { name: "force"@, doc: "leave even with unsaved buffers"@, shape: ShapeV::Bool, required: true },
        ]
    } else if i == 165 {
        seq![
            FieldV { name: "key"@, doc: "the key that was not bound"@, shape: ShapeV::Text, required: true },
        ]
    } else if i == 166 {
        seq![
            FieldV { name: "topic"@, doc: "which topic; absent opens the index"@, shape: ShapeV::Text, required: false },
        ]
    } else if i == 167 {
        Seq::empty()
    } else if i == 168 {
        Seq::empty()
    } else {
        Seq::empty()
    }
}

/// The arguments in row `i`.
fn row_params(i: usize) -> (r: Vec<Param>)
    requires
        i < spec_action_count(),
    ensures
        shape_fields(r@) == spec_row_fields(i as nat),
{
    if i < 30 {
        row_params_0(i)
    } else if i < 60 {
        row_params_1(i)
    } else if i < 90 {
        row_params_2(i)
    } else if i < 120 {
        row_params_3(i)
    } else if i < 150 {
        row_params_4(i)
    } else {
        row_params_5(i)
    }
}

/// The arguments in rows 0 onwards.
fn row_params_0(i: usize) -> (r: Vec<Param>)
    requires
        i < 30,
    ensures
        shape_fields(r@) == spec_row_fields(i as nat),
{
    if i == 0 {
        let r = vec![
            param("at", "where to insert", Position::wire_type(), true),
            param("text", "what to insert", ParamType::Text, true),
        ];
        proof {
            lemma_shape_fields_index(r@);
            assert(shape_fields(r@) =~= seq![
                FieldV { name: "at"@, doc: "where to insert"@, shape: position_shape(), required: true },
                FieldV { name: "text"@, doc: "what to insert"@, shape: ShapeV::Text, required: true },
            ]);
        }
        r
    } else if i == 1 {
        let r = vec![
            param("span", "the span to remove", Span::wire_type(), true),
        ];
        proof {
            lemma_shape_fields_index(r@);
            assert(shape_fields(r@) =~= seq![
                FieldV { name: "span"@, doc: "the span to remove"@, shape: span_shape(), required: true },
            ]);
        }
        r
    } else if i == 2 {
        let r = vec![
            param("span", "the span to replace", Span::wire_type(), true),
            param("text", "what replaces it", ParamType::Text, true),
        ];
        proof {
            lemma_shape_fields_index(r@);
            assert(shape_fields(r@) =~= seq![
                FieldV { name: "span"@, doc: "the span to replace"@, shape: span_shape(), required: true },
                FieldV { name: "text"@, doc: "what replaces it"@, shape: ShapeV::Text, required: true },
            ]);
        }
        r
    } else if i == 3 {
        let r = vec![
            param("edits", "the edits, in order", ParamType::List(Box::new(Edit::wire_type())), true),
        ];
        proof {
            lemma_shape_fields_index(r@);
            assert(shape_fields(r@) =~= seq![
                FieldV { name: "edits"@, doc: "the edits, in order"@, shape: ShapeV::List(Box::new(edit_shape())), required: true },
            ]);
        }
        r
    } else if i == 4 {
        let r = vec![
            param("target", "what to copy", Target::wire_type(), true),
            param("register", "which register; absent means the unnamed one", ParamType::Text, false),
        ];
        proof {
            lemma_shape_fields_index(r@);
            assert(shape_fields(r@) =~= seq![
                FieldV { name: "target"@, doc: "what to copy"@, shape: target_shape(), required: true },
                FieldV { name: "register"@, doc: "which register; absent means the unnamed one"@, shape: ShapeV::Text, required: false },
            ]);
        }
        r
    } else if i == 5 {
        let r = vec![
            param("at", "where to put it", Target::wire_type(), true),
            param("register", "which register; absent means the unnamed one", ParamType::Text, false),
            param("before", "put it before the target rather than after", ParamType::Bool, true),
        ];
        proof {
            lemma_shape_fields_index(r@);
            assert(shape_fields(r@) =~= seq![
                FieldV { name: "at"@, doc: "where to put it"@, shape: target_shape(), required: true },
                FieldV { name: "register"@, doc: "which register; absent means the unnamed one"@, shape: ShapeV::Text, required: false },
                FieldV { name: "before"@, doc: "put it before the target rather than after"@, shape: ShapeV::Bool, required: true },
            ]);
        }
        r
    } else if i == 6 {
        let r = vec![
            param("register", "which register", ParamType::Text, true),
            param("text", "the contents", ParamType::Text, true),
        ];
        proof {
            lemma_shape_fields_index(r@);
            assert(shape_fields(r@) =~= seq![
                FieldV { name: "register"@, doc: "which register"@, shape: ShapeV::Text, required: true },
                FieldV { name: "text"@, doc: "the contents"@, shape: ShapeV::Text, required: true },
            ]);
        }
        r
    } else if i == 7 {
        let r = vec![
            param("target", "what to shift", Target::wire_type(), true),
            param("delta", "levels, negative to dedent", ParamType::Int, true),
        ];
        proof {
            lemma_shape_fields_index(r@);
            assert(shape_fields(r@) =~= seq![
                FieldV { name: "target"@, doc: "what to shift"@, shape: target_shape(), required: true },
                FieldV { name: "delta"@, doc: "levels, negative to dedent"@, shape: ShapeV::Int, required: true },
            ]);
        }
        r
    } else if i == 8 {
        let r = Vec::new();
        assert(shape_fields(r@) =~= Seq::<FieldV>::empty());
        r
    } else if i == 9 {
        let r = vec![
            param("target", "what to join", Target::wire_type(), true),
        ];
        proof {
            lemma_shape_fields_index(r@);
            assert(shape_fields(r@) =~= seq![
                FieldV { name: "target"@, doc: "what to join"@, shape: target_shape(), required: true },
            ]);
        }
        r
    } else if i == 10 {
        let r = vec![
            param("target", "whose letters", Target::wire_type(), true),
            param("case", "upper, lower or toggle", CaseChange::wire_type(), true),
        ];
        proof {
            lemma_shape_fields_index(r@);
            assert(shape_fields(r@) =~= seq![
                FieldV { name: "target"@, doc: "whose letters"@, shape: target_shape(), required: true },
                FieldV { name: "case"@, doc: "upper, lower or toggle"@, shape: case_change_shape(), required: true },
            ]);
        }
        r
    } else if i == 11 {
        let r = vec![
            param("target", "what to toggle", Target::wire_type(), true),
        ];
        proof {
            lemma_shape_fields_index(r@);
            assert(shape_fields(r@) =~= seq![
                FieldV { name: "target"@, doc: "what to toggle"@, shape: target_shape(), required: true },
            ]);
        }
        r
    } else if i == 12 {
        let r = vec![
            param("target", "what to align", Target::wire_type(), true),
        ];
        proof {
            lemma_shape_fields_index(r@);
            assert(shape_fields(r@) =~= seq![
                FieldV { name: "target"@, doc: "what to align"@, shape: target_shape(), required: true },
            ]);
        }
        r
    } else if i == 13 {
        let r = vec![
            param("motion", "which motion", Motion::wire_type(), true),
            param("count", "how many times; 1 is the plain form", ParamType::Uint, true),
        ];
        proof {
            lemma_shape_fields_index(r@);
            assert(shape_fields(r@) =~= seq![
                FieldV { name: "motion"@, doc: "which motion"@, shape: motion_shape(), required: true },
                FieldV { name: "count"@, doc: "how many times; 1 is the plain form"@, shape: ShapeV::Uint, required: true },
            ]);
        }
        r
    } else if i == 14 {
        let r = vec![
            param("position", "where", Position::wire_type(), true),
            param("buffer", "which buffer; absent means the focused one", ParamType::Id("buffer"), false),
        ];
        proof {
            lemma_shape_fields_index(r@);
            assert(shape_fields(r@) =~= seq![
                FieldV { name: "position"@, doc: "where"@, shape: position_shape(), required: true },
                FieldV { name: "buffer"@, doc: "which buffer; absent means the focused one"@, shape: ShapeV::Id("buffer"@), required: false },
            ]);
        }
        r
    } else if i == 15 {
        let r = vec![
            param("span", "the span", Span::wire_type(), true),
            param("kind", "characterwise, linewise or blockwise", SelectionKind::wire_type(), true),
        ];
        proof {
            lemma_shape_fields_index(r@);
            assert(shape_fields(r@) =~= seq![
                FieldV { name: "span"@, doc: "the span"@, shape: span_shape(), required: true },
                FieldV { name: "kind"@, doc: "characterwise, linewise or blockwise"@, shape: selection_kind_shape(), required: true },
            ]);
        }
        r
    } else if i == 16 {
        let r = vec![
            param("object", "which object", TextObject::wire_type(), true),
            param("inner", "inner (i) rather than around (a)", ParamType::Bool, true),
            param("count", "how many, for nesting", ParamType::Uint, true),
            param("delimiter", "the delimiter, for a delimited object", ParamType::Char, false),
        ];
        proof {
            lemma_shape_fields_index(r@);
            assert(shape_fields(r@) =~= seq![
                FieldV { name: "object"@, doc: "which object"@, shape: text_object_shape(), required: true },
                FieldV { name: "inner"@, doc: "inner (i) rather than around (a)"@, shape: ShapeV::Bool, required: true },
                FieldV { name: "count"@, doc: "how many, for nesting"@, shape: ShapeV::Uint, required: true },
                FieldV { name: "delimiter"@, doc: "the delimiter, for a delimited object"@, shape: ShapeV::Char, required: false },
            ]);
        }
        r
    } else if i == 17 {
        let r = vec![
            param("motion", "which motion", Motion::wire_type(), true),
            param("count", "how many times", ParamType::Uint, true),
        ];
        proof {
            lemma_shape_fields_index(r@);
            assert(shape_fields(r@) =~= seq![
                FieldV { name: "motion"@, doc: "which motion"@, shape: motion_shape(), required: true },
                FieldV { name: "count"@, doc: "how many times"@, shape: ShapeV::Uint, required: true },
            ]);
        }
        r
    } else if i == 18 {
        let r = Vec::new();
        assert(shape_fields(r@) =~= Seq::<FieldV>::empty());
        r
    } else if i == 19 {
        let r = vec![
            param("sequence", "which sequence", Sequence::wire_type(), true),
            param("seek", "next, prev, first or last", Seek::wire_type(), true),
            param("filter", "narrow it, e.g. to the agent's regions", RegionFilter::wire_type(), false),
        ];
        proof {
            lemma_shape_fields_index(r@);
            assert(shape_fields(r@) =~= seq![
                FieldV { name: "sequence"@, doc: "which sequence"@, shape: sequence_shape(), required: true },
                FieldV { name: "seek"@, doc: "next, prev, first or last"@, shape: seek_shape(), required: true },
                FieldV { name: "filter"@, doc: "narrow it, e.g. to the agent's regions"@, shape: region_filter_shape(), required: false },
            ]);
        }
        r
    } else if i == 20 {
        let r = vec![
            param("path", "workspace-relative path", ParamType::Path, true),
            param("position", "where in it; absent means where you last were", Position::wire_type(), false),
            param("pane", "which pane it lands in", PaneRef::wire_type(), true),
        ];
        proof {
            lemma_shape_fields_index(r@);
            assert(shape_fields(r@) =~= seq![
                FieldV { name: "path"@, doc: "workspace-relative path"@, shape: ShapeV::Path, required: true },
                FieldV { name: "position"@, doc: "where in it; absent means where you last were"@, shape: position_shape(), required: false },
                FieldV { name: "pane"@, doc: "which pane it lands in"@, shape: pane_ref_shape(), required: true },
            ]);
        }
        r
    } else if i == 21 {
        let r = vec![
            param("anchor", "which anchor, by id", ParamType::Id("anchor"), false),
            param("label", "or by the label place-anchor wrote — m's a-z", ParamType::Text, false),
            param("exact", "backtick lands on the column, quote lands on the line", ParamType::Bool, true),
        ];
        proof {
            lemma_shape_fields_index(r@);
            assert(shape_fields(r@) =~= seq![
                FieldV { name: "anchor"@, doc: "which anchor, by id"@, shape: ShapeV::Id("anchor"@), required: false },
                FieldV { name: "label"@, doc: "or by the label place-anchor wrote — m's a-z"@, shape: ShapeV::Text, required: false },
                FieldV { name: "exact"@, doc: "backtick lands on the column, quote lands on the line"@, shape: ShapeV::Bool, required: true },
            ]);
        }
        r
    } else if i == 22 {
        let r = vec![
            param("seek", "next (forward) or prev (back)", Seek::wire_type(), true),
        ];
        proof {
            lemma_shape_fields_index(r@);
            assert(shape_fields(r@) =~= seq![
                FieldV { name: "seek"@, doc: "next (forward) or prev (back)"@, shape: seek_shape(), required: true },
            ]);
        }
        r
    } else if i == 23 {
        let r = vec![
            param("request", "what to move, and how far", ScrollRequest::wire_type(), true),
            param("pane", "which pane", PaneRef::wire_type(), true),
        ];
        proof {
            lemma_shape_fields_index(r@);
            assert(shape_fields(r@) =~= seq![
                FieldV { name: "request"@, doc: "what to move, and how far"@, shape: scroll_request_shape(), required: true },
                FieldV { name: "pane"@, doc: "which pane"@, shape: pane_ref_shape(), required: true },
            ]);
        }
        r
    } else if i == 24 {
        let r = vec![
            param("target", "which buffer", Target::wire_type(), true),
            param("on", "on or off", ParamType::Bool, true),
        ];
        proof {
            lemma_shape_fields_index(r@);
            assert(shape_fields(r@) =~= seq![
                FieldV { name: "target"@, doc: "which buffer"@, shape: target_shape(), required: true },
                FieldV { name: "on"@, doc: "on or off"@, shape: ShapeV::Bool, required: true },
            ]);
        }
        r
    } else if i == 25 {
        let r = vec![
            param("target", "what to fold", Target::wire_type(), true),
            param("state", "folded, unfolded or toggle", FoldState::wire_type(), true),
        ];
        proof {
            lemma_shape_fields_index(r@);
            assert(shape_fields(r@) =~= seq![
                FieldV { name: "target"@, doc: "what to fold"@, shape: target_shape(), required: true },
                FieldV { name: "state"@, doc: "folded, unfolded or toggle"@, shape: fold_state_shape(), required: true },
            ]);
        }
        r
    } else if i == 26 {
        let r = vec![
            param("level", "depth to fold to", ParamType::Uint, true),
        ];
        proof {
            lemma_shape_fields_index(r@);
            assert(shape_fields(r@) =~= seq![
                FieldV { name: "level"@, doc: "depth to fold to"@, shape: ShapeV::Uint, required: true },
            ]);
        }
        r
    } else if i == 27 {
        let r = Vec::new();
        assert(shape_fields(r@) =~= Seq::<FieldV>::empty());
        r
    } else if i == 28 {
        let r = vec![
            param("owner", "whose rows", Target::wire_type(), true),
            param("on", "shown or collapsed", ParamType::Bool, true),
        ];
        proof {
            lemma_shape_fields_index(r@);
            assert(shape_fields(r@) =~= seq![
                FieldV { name: "owner"@, doc: "whose rows"@, shape: target_shape(), required: true },
                FieldV { name: "on"@, doc: "shown or collapsed"@, shape: ShapeV::Bool, required: true },
            ]);
        }
        r
    } else {
        let r = vec![
            param("mode", "which mode", EditMode::wire_type(), true),
        ];
        proof {
            lemma_shape_fields_index(r@);
            assert(shape_fields(r@) =~= seq![
                FieldV { name: "mode"@, doc: "which mode"@, shape: edit_mode_shape(), required: true },
            ]);
        }
        r
    }
}

/// The arguments in rows 30 onwards.
fn row_params_1(i: usize) -> (r: Vec<Param>)
    requires
        30 <= i,
        i < 60,
    ensures
        shape_fields(r@) == spec_row_fields(i as nat),
{
    if i == 30 {
        let r = vec![
            param("count", "the count", ParamType::Uint, true),
        ];
        proof {
            lemma_shape_fields_index(r@);
            assert(shape_fields(r@) =~= seq![
                FieldV { name: "count"@, doc: "the count"@, shape: ShapeV::Uint, required: true },
            ]);
        }
        r
    } else if i == 31 {
        let r = vec![
            param("register", "which register", ParamType::Text, true),
        ];
        proof {
            lemma_shape_fields_index(r@);
            assert(shape_fields(r@) =~= seq![
                FieldV { name: "register"@, doc: "which register"@, shape: ShapeV::Text, required: true },
            ]);
        }
        r
    } else if i == 32 {
        let r = Vec::new();
        assert(shape_fields(r@) =~= Seq::<FieldV>::empty());
        r
    } else if i == 33 {
        let r = vec![
            param("keys", "vim notation, e.g. `<C-q>` or `SPC f`", ParamType::Text, true),
        ];
        proof {
            lemma_shape_fields_index(r@);
            assert(shape_fields(r@) =~= seq![
                FieldV { name: "keys"@, doc: "vim notation, e.g. `<C-q>` or `SPC f`"@, shape: ShapeV::Text, required: true },
            ]);
        }
        r
    } else if i == 34 {
        let r = vec![
            param("count", "how many times", ParamType::Uint, true),
        ];
        proof {
            lemma_shape_fields_index(r@);
            assert(shape_fields(r@) =~= seq![
                FieldV { name: "count"@, doc: "how many times"@, shape: ShapeV::Uint, required: true },
            ]);
        }
        r
    } else if i == 35 {
        let r = vec![
            param("register", "which register the keys land in", ParamType::Text, true),
            param("on", "start recording into it, or stop and keep what it holds", ParamType::Bool, true),
        ];
        proof {
            lemma_shape_fields_index(r@);
            assert(shape_fields(r@) =~= seq![
                FieldV { name: "register"@, doc: "which register the keys land in"@, shape: ShapeV::Text, required: true },
                FieldV { name: "on"@, doc: "start recording into it, or stop and keep what it holds"@, shape: ShapeV::Bool, required: true },
            ]);
        }
        r
    } else if i == 36 {
        let r = vec![
            param("count", "how many steps", ParamType::Uint, true),
        ];
        proof {
            lemma_shape_fields_index(r@);
            assert(shape_fields(r@) =~= seq![
                FieldV { name: "count"@, doc: "how many steps"@, shape: ShapeV::Uint, required: true },
            ]);
        }
        r
    } else if i == 37 {
        let r = vec![
            param("count", "how many steps", ParamType::Uint, true),
        ];
        proof {
            lemma_shape_fields_index(r@);
            assert(shape_fields(r@) =~= seq![
                FieldV { name: "count"@, doc: "how many steps"@, shape: ShapeV::Uint, required: true },
            ]);
        }
        r
    } else if i == 38 {
        let r = vec![
            param("checkpoint", "which point", ParamType::Id("checkpoint"), true),
        ];
        proof {
            lemma_shape_fields_index(r@);
            assert(shape_fields(r@) =~= seq![
                FieldV { name: "checkpoint"@, doc: "which point"@, shape: ShapeV::Id("checkpoint"@), required: true },
            ]);
        }
        r
    } else if i == 39 {
        let r = Vec::new();
        assert(shape_fields(r@) =~= Seq::<FieldV>::empty());
        r
    } else if i == 40 {
        let r = vec![
            param("target", "whose history", Target::wire_type(), true),
        ];
        proof {
            lemma_shape_fields_index(r@);
            assert(shape_fields(r@) =~= seq![
                FieldV { name: "target"@, doc: "whose history"@, shape: target_shape(), required: true },
            ]);
        }
        r
    } else if i == 41 {
        let r = vec![
            param("path", "workspace-relative path", ParamType::Path, true),
            param("at", "where to put the cursor", Position::wire_type(), false),
            param("pane", "which pane it lands in", PaneRef::wire_type(), true),
        ];
        proof {
            lemma_shape_fields_index(r@);
            assert(shape_fields(r@) =~= seq![
                FieldV { name: "path"@, doc: "workspace-relative path"@, shape: ShapeV::Path, required: true },
                FieldV { name: "at"@, doc: "where to put the cursor"@, shape: position_shape(), required: false },
                FieldV { name: "pane"@, doc: "which pane it lands in"@, shape: pane_ref_shape(), required: true },
            ]);
        }
        r
    } else if i == 42 {
        let r = vec![
            param("pane", "which pane it lands in", PaneRef::wire_type(), true),
        ];
        proof {
            lemma_shape_fields_index(r@);
            assert(shape_fields(r@) =~= seq![
                FieldV { name: "pane"@, doc: "which pane it lands in"@, shape: pane_ref_shape(), required: true },
            ]);
        }
        r
    } else if i == 43 {
        let r = vec![
            param("target", "which buffer", Target::wire_type(), true),
            param("path", "write here instead", ParamType::Path, false),
        ];
        proof {
            lemma_shape_fields_index(r@);
            assert(shape_fields(r@) =~= seq![
                FieldV { name: "target"@, doc: "which buffer"@, shape: target_shape(), required: true },
                FieldV { name: "path"@, doc: "write here instead"@, shape: ShapeV::Path, required: false },
            ]);
        }
        r
    } else if i == 44 {
        let r = Vec::new();
        assert(shape_fields(r@) =~= Seq::<FieldV>::empty());
        r
    } else if i == 45 {
        let r = vec![
            param("target", "which buffer", Target::wire_type(), true),
            param("force", "close even if it is dirty", ParamType::Bool, true),
        ];
        proof {
            lemma_shape_fields_index(r@);
            assert(shape_fields(r@) =~= seq![
                FieldV { name: "target"@, doc: "which buffer"@, shape: target_shape(), required: true },
                FieldV { name: "force"@, doc: "close even if it is dirty"@, shape: ShapeV::Bool, required: true },
            ]);
        }
        r
    } else if i == 46 {
        let r = vec![
            param("target", "which buffer", Target::wire_type(), true),
        ];
        proof {
            lemma_shape_fields_index(r@);
            assert(shape_fields(r@) =~= seq![
                FieldV { name: "target"@, doc: "which buffer"@, shape: target_shape(), required: true },
            ]);
        }
        r
    } else if i == 47 {
        let r = vec![
            param("path", "which file", ParamType::Path, true),
            param("changed_by", "who is claimed to have changed it", Actor::wire_type(), true),
        ];
        proof {
            lemma_shape_fields_index(r@);
            assert(shape_fields(r@) =~= seq![
                FieldV { name: "path"@, doc: "which file"@, shape: ShapeV::Path, required: true },
                FieldV { name: "changed_by"@, doc: "who is claimed to have changed it"@, shape: actor_shape(), required: true },
            ]);
        }
        r
    } else if i == 48 {
        let r = vec![
            param("target", "which buffer", Target::wire_type(), true),
        ];
        proof {
            lemma_shape_fields_index(r@);
            assert(shape_fields(r@) =~= seq![
                FieldV { name: "target"@, doc: "which buffer"@, shape: target_shape(), required: true },
            ]);
        }
        r
    } else if i == 49 {
        let r = vec![
            param("target", "which buffer", Target::wire_type(), true),
            param("exit", "take disk, keep mine, or ask the agent", DiskExit::wire_type(), true),
        ];
        proof {
            lemma_shape_fields_index(r@);
            assert(shape_fields(r@) =~= seq![
                FieldV { name: "target"@, doc: "which buffer"@, shape: target_shape(), required: true },
                FieldV { name: "exit"@, doc: "take disk, keep mine, or ask the agent"@, shape: disk_exit_shape(), required: true },
            ]);
        }
        r
    } else if i == 50 {
        let r = vec![
            param("path", "which path", ParamType::Path, true),
            param("on", "watching or not", ParamType::Bool, true),
        ];
        proof {
            lemma_shape_fields_index(r@);
            assert(shape_fields(r@) =~= seq![
                FieldV { name: "path"@, doc: "which path"@, shape: ShapeV::Path, required: true },
                FieldV { name: "on"@, doc: "watching or not"@, shape: ShapeV::Bool, required: true },
            ]);
        }
        r
    } else if i == 51 {
        let r = vec![
            param("surface", "which surface — a registry key, not a Rust variant", ParamType::Text, true),
            param("args", "the surface's own arguments", ParamType::Any, true),
        ];
        proof {
            lemma_shape_fields_index(r@);
            assert(shape_fields(r@) =~= seq![
                FieldV { name: "surface"@, doc: "which surface — a registry key, not a Rust variant"@, shape: ShapeV::Text, required: true },
                FieldV { name: "args"@, doc: "the surface's own arguments"@, shape: ShapeV::Any, required: true },
            ]);
        }
        r
    } else if i == 52 {
        let r = Vec::new();
        assert(shape_fields(r@) =~= Seq::<FieldV>::empty());
        r
    } else if i == 53 {
        let r = Vec::new();
        assert(shape_fields(r@) =~= Seq::<FieldV>::empty());
        r
    } else if i == 54 {
        let r = vec![
            param("surface", "the surface id open-float will name", ParamType::Text, true),
            param("body", "scheme source producing the float — a procedure of one argument", ParamType::Text, true),
        ];
        proof {
            lemma_shape_fields_index(r@);
            assert(shape_fields(r@) =~= seq![
                FieldV { name: "surface"@, doc: "the surface id open-float will name"@, shape: ShapeV::Text, required: true },
                FieldV { name: "body"@, doc: "scheme source producing the float — a procedure of one argument"@, shape: ShapeV::Text, required: true },
            ]);
        }
        r
    } else if i == 55 {
        let r = vec![
            param("delta", "rows to move; negative goes up", ParamType::Int, true),
        ];
        proof {
            lemma_shape_fields_index(r@);
            assert(shape_fields(r@) =~= seq![
                FieldV { name: "delta"@, doc: "rows to move; negative goes up"@, shape: ShapeV::Int, required: true },
            ]);
        }
        r
    } else if i == 56 {
        let r = vec![
            param("row", "1-based row", ParamType::Uint, true),
        ];
        proof {
            lemma_shape_fields_index(r@);
            assert(shape_fields(r@) =~= seq![
                FieldV { name: "row"@, doc: "1-based row"@, shape: ShapeV::Uint, required: true },
            ]);
        }
        r
    } else if i == 57 {
        let r = Vec::new();
        assert(shape_fields(r@) =~= Seq::<FieldV>::empty());
        r
    } else if i == 58 {
        let r = vec![
            param("digit", "which option, 1-based", ParamType::Uint, true),
        ];
        proof {
            lemma_shape_fields_index(r@);
            assert(shape_fields(r@) =~= seq![
                FieldV { name: "digit"@, doc: "which option, 1-based"@, shape: ShapeV::Uint, required: true },
            ]);
        }
        r
    } else {
        let r = vec![
            param("row", "1-based row", ParamType::Uint, true),
        ];
        proof {
            lemma_shape_fields_index(r@);
            assert(shape_fields(r@) =~= seq![
                FieldV { name: "row"@, doc: "1-based row"@, shape: ShapeV::Uint, required: true },
            ]);
        }
        r
    }
}

/// The arguments in rows 60 onwards.
fn row_params_2(i: usize) -> (r: Vec<Param>)
    requires
        60 <= i,
        i < 90,
    ensures
        shape_fields(r@) == spec_row_fields(i as nat),
{
    if i == 60 {
        let r = vec![
            param("pane", "which pane to split", PaneRef::wire_type(), true),
            param("direction", "which way", Direction::wire_type(), true),
            param("kind", "what the new pane holds", PaneKind::wire_type(), true),
        ];
        proof {
            lemma_shape_fields_index(r@);
            assert(shape_fields(r@) =~= seq![
                FieldV { name: "pane"@, doc: "which pane to split"@, shape: pane_ref_shape(), required: true },
                FieldV { name: "direction"@, doc: "which way"@, shape: direction_shape(), required: true },
                FieldV { name: "kind"@, doc: "what the new pane holds"@, shape: pane_kind_shape(), required: true },
            ]);
        }
        r
    } else if i == 61 {
        let r = vec![
            param("pane", "which pane", PaneRef::wire_type(), true),
        ];
        proof {
            lemma_shape_fields_index(r@);
            assert(shape_fields(r@) =~= seq![
                FieldV { name: "pane"@, doc: "which pane"@, shape: pane_ref_shape(), required: true },
            ]);
        }
        r
    } else if i == 62 {
        let r = vec![
            param("pane", "which pane", PaneRef::wire_type(), true),
        ];
        proof {
            lemma_shape_fields_index(r@);
            assert(shape_fields(r@) =~= seq![
                FieldV { name: "pane"@, doc: "which pane"@, shape: pane_ref_shape(), required: true },
            ]);
        }
        r
    } else if i == 63 {
        let r = vec![
            param("pane", "which pane", PaneRef::wire_type(), true),
            param("delta", "cells, negative to shrink", ParamType::Int, true),
        ];
        proof {
            lemma_shape_fields_index(r@);
            assert(shape_fields(r@) =~= seq![
                FieldV { name: "pane"@, doc: "which pane"@, shape: pane_ref_shape(), required: true },
                FieldV { name: "delta"@, doc: "cells, negative to shrink"@, shape: ShapeV::Int, required: true },
            ]);
        }
        r
    } else if i == 64 {
        let r = vec![
            param("pane", "which pane", PaneRef::wire_type(), true),
            param("kind", "what it holds", PaneKind::wire_type(), true),
        ];
        proof {
            lemma_shape_fields_index(r@);
            assert(shape_fields(r@) =~= seq![
                FieldV { name: "pane"@, doc: "which pane"@, shape: pane_ref_shape(), required: true },
                FieldV { name: "kind"@, doc: "what it holds"@, shape: pane_kind_shape(), required: true },
            ]);
        }
        r
    } else if i == 65 {
        let r = vec![
            param("pane", "which pane", PaneRef::wire_type(), true),
            param("tree", "the view tree, as plain data", ParamType::Any, true),
        ];
        proof {
            lemma_shape_fields_index(r@);
            assert(shape_fields(r@) =~= seq![
                FieldV { name: "pane"@, doc: "which pane"@, shape: pane_ref_shape(), required: true },
                FieldV { name: "tree"@, doc: "the view tree, as plain data"@, shape: ShapeV::Any, required: true },
            ]);
        }
        r
    } else if i == 66 {
        let r = vec![
            param("source", "which source", ParamType::Text, true),
            param("query", "seed the filter with this", ParamType::Text, false),
        ];
        proof {
            lemma_shape_fields_index(r@);
            assert(shape_fields(r@) =~= seq![
                FieldV { name: "source"@, doc: "which source"@, shape: ShapeV::Text, required: true },
                FieldV { name: "query"@, doc: "seed the filter with this"@, shape: ShapeV::Text, required: false },
            ]);
        }
        r
    } else if i == 67 {
        let r = vec![
            param("text", "the filter", ParamType::Text, true),
        ];
        proof {
            lemma_shape_fields_index(r@);
            assert(shape_fields(r@) =~= seq![
                FieldV { name: "text"@, doc: "the filter"@, shape: ShapeV::Text, required: true },
            ]);
        }
        r
    } else if i == 68 {
        let r = vec![
            param("delta", "how many, negative goes back", ParamType::Int, true),
        ];
        proof {
            lemma_shape_fields_index(r@);
            assert(shape_fields(r@) =~= seq![
                FieldV { name: "delta"@, doc: "how many, negative goes back"@, shape: ShapeV::Int, required: true },
            ]);
        }
        r
    } else if i == 69 {
        let r = vec![
            param("how", "open, split, or quickfix", AcceptHow::wire_type(), true),
        ];
        proof {
            lemma_shape_fields_index(r@);
            assert(shape_fields(r@) =~= seq![
                FieldV { name: "how"@, doc: "open, split, or quickfix"@, shape: accept_how_shape(), required: true },
            ]);
        }
        r
    } else if i == 70 {
        let r = Vec::new();
        assert(shape_fields(r@) =~= Seq::<FieldV>::empty());
        r
    } else if i == 71 {
        let r = vec![
            param("source", "the source id", ParamType::Text, true),
            param("body", "scheme source producing the rows", ParamType::Text, true),
        ];
        proof {
            lemma_shape_fields_index(r@);
            assert(shape_fields(r@) =~= seq![
                FieldV { name: "source"@, doc: "the source id"@, shape: ShapeV::Text, required: true },
                FieldV { name: "body"@, doc: "scheme source producing the rows"@, shape: ShapeV::Text, required: true },
            ]);
        }
        r
    } else if i == 72 {
        let r = vec![
            param("source", "which source", ParamType::Text, true),
        ];
        proof {
            lemma_shape_fields_index(r@);
            assert(shape_fields(r@) =~= seq![
                FieldV { name: "source"@, doc: "which source"@, shape: ShapeV::Text, required: true },
            ]);
        }
        r
    } else if i == 73 {
        let r = vec![
            param("kind", "ex, the agent, or search", PromptKind::wire_type(), true),
            param("seed", "prefill", ParamType::Text, false),
            param("anchor", "what the message is about", Target::wire_type(), false),
        ];
        proof {
            lemma_shape_fields_index(r@);
            assert(shape_fields(r@) =~= seq![
                FieldV { name: "kind"@, doc: "ex, the agent, or search"@, shape: prompt_kind_shape(), required: true },
                FieldV { name: "seed"@, doc: "prefill"@, shape: ShapeV::Text, required: false },
                FieldV { name: "anchor"@, doc: "what the message is about"@, shape: target_shape(), required: false },
            ]);
        }
        r
    } else if i == 74 {
        let r = vec![
            param("text", "the text", ParamType::Text, true),
        ];
        proof {
            lemma_shape_fields_index(r@);
            assert(shape_fields(r@) =~= seq![
                FieldV { name: "text"@, doc: "the text"@, shape: ShapeV::Text, required: true },
            ]);
        }
        r
    } else if i == 75 {
        let r = Vec::new();
        assert(shape_fields(r@) =~= Seq::<FieldV>::empty());
        r
    } else if i == 76 {
        let r = Vec::new();
        assert(shape_fields(r@) =~= Seq::<FieldV>::empty());
        r
    } else if i == 77 {
        let r = vec![
            param("delta", "how far back, negative goes forward", ParamType::Int, true),
        ];
        proof {
            lemma_shape_fields_index(r@);
            assert(shape_fields(r@) =~= seq![
                FieldV { name: "delta"@, doc: "how far back, negative goes forward"@, shape: ShapeV::Int, required: true },
            ]);
        }
        r
    } else if i == 78 {
        let r = vec![
            param("target", "what to mark; a hunk and an inbox item are targets too", Target::wire_type(), true),
        ];
        proof {
            lemma_shape_fields_index(r@);
            assert(shape_fields(r@) =~= seq![
                FieldV { name: "target"@, doc: "what to mark; a hunk and an inbox item are targets too"@, shape: target_shape(), required: true },
            ]);
        }
        r
    } else if i == 79 {
        let r = vec![
            param("target", "what to mark", Target::wire_type(), true),
        ];
        proof {
            lemma_shape_fields_index(r@);
            assert(shape_fields(r@) =~= seq![
                FieldV { name: "target"@, doc: "what to mark"@, shape: target_shape(), required: true },
            ]);
        }
        r
    } else if i == 80 {
        let r = vec![
            param("regions", "the spans, each with its claimed author", ParamType::List(Box::new(RegionSpec::wire_type())), true),
        ];
        proof {
            lemma_shape_fields_index(r@);
            assert(shape_fields(r@) =~= seq![
                FieldV { name: "regions"@, doc: "the spans, each with its claimed author"@, shape: ShapeV::List(Box::new(region_spec_shape())), required: true },
            ]);
        }
        r
    } else if i == 81 {
        let r = vec![
            param("at", "what to anchor to", Target::wire_type(), true),
            param("label", "a name to find it by — m's a-z, or a caller's own", ParamType::Text, false),
        ];
        proof {
            lemma_shape_fields_index(r@);
            assert(shape_fields(r@) =~= seq![
                FieldV { name: "at"@, doc: "what to anchor to"@, shape: target_shape(), required: true },
                FieldV { name: "label"@, doc: "a name to find it by — m's a-z, or a caller's own"@, shape: ShapeV::Text, required: false },
            ]);
        }
        r
    } else if i == 82 {
        let r = vec![
            param("path", "which file", ParamType::Path, true),
        ];
        proof {
            lemma_shape_fields_index(r@);
            assert(shape_fields(r@) =~= seq![
                FieldV { name: "path"@, doc: "which file"@, shape: ShapeV::Path, required: true },
            ]);
        }
        r
    } else if i == 83 {
        let r = vec![
            param("target", "which regions", Target::wire_type(), true),
        ];
        proof {
            lemma_shape_fields_index(r@);
            assert(shape_fields(r@) =~= seq![
                FieldV { name: "target"@, doc: "which regions"@, shape: target_shape(), required: true },
            ]);
        }
        r
    } else if i == 84 {
        let r = vec![
            param("anchor", "what it is about", Target::wire_type(), true),
            param("body", "what you said", ParamType::Text, true),
        ];
        proof {
            lemma_shape_fields_index(r@);
            assert(shape_fields(r@) =~= seq![
                FieldV { name: "anchor"@, doc: "what it is about"@, shape: target_shape(), required: true },
                FieldV { name: "body"@, doc: "what you said"@, shape: ShapeV::Text, required: true },
            ]);
        }
        r
    } else if i == 85 {
        let r = vec![
            param("thread", "which thread", ParamType::Id("thread"), true),
            param("body", "the reply", ParamType::Text, true),
        ];
        proof {
            lemma_shape_fields_index(r@);
            assert(shape_fields(r@) =~= seq![
                FieldV { name: "thread"@, doc: "which thread"@, shape: ShapeV::Id("thread"@), required: true },
                FieldV { name: "body"@, doc: "the reply"@, shape: ShapeV::Text, required: true },
            ]);
        }
        r
    } else if i == 86 {
        let r = vec![
            param("thread", "which thread", ParamType::Id("thread"), true),
        ];
        proof {
            lemma_shape_fields_index(r@);
            assert(shape_fields(r@) =~= seq![
                FieldV { name: "thread"@, doc: "which thread"@, shape: ShapeV::Id("thread"@), required: true },
            ]);
        }
        r
    } else if i == 87 {
        let r = vec![
            param("thread", "which thread", ParamType::Id("thread"), true),
        ];
        proof {
            lemma_shape_fields_index(r@);
            assert(shape_fields(r@) =~= seq![
                FieldV { name: "thread"@, doc: "which thread"@, shape: ShapeV::Id("thread"@), required: true },
            ]);
        }
        r
    } else if i == 88 {
        let r = vec![
            param("pattern", "the pattern to match", ParamType::Text, true),
            param("body", "the message", ParamType::Text, true),
        ];
        proof {
            lemma_shape_fields_index(r@);
            assert(shape_fields(r@) =~= seq![
                FieldV { name: "pattern"@, doc: "the pattern to match"@, shape: ShapeV::Text, required: true },
                FieldV { name: "body"@, doc: "the message"@, shape: ShapeV::Text, required: true },
            ]);
        }
        r
    } else {
        let r = vec![
            param("title", "what this block is", ParamType::Text, true),
            param("files", "the files and spans it covers", ParamType::List(Box::new(FileGroup::wire_type())), true),
            param("annotation", "the agent's note about the block as a whole", ParamType::Text, false),
        ];
        proof {
            lemma_shape_fields_index(r@);
            assert(shape_fields(r@) =~= seq![
                FieldV { name: "title"@, doc: "what this block is"@, shape: ShapeV::Text, required: true },
                FieldV { name: "files"@, doc: "the files and spans it covers"@, shape: ShapeV::List(Box::new(file_group_shape())), required: true },
                FieldV { name: "annotation"@, doc: "the agent's note about the block as a whole"@, shape: ShapeV::Text, required: false },
            ]);
        }
        r
    }
}

/// The arguments in rows 90 onwards.
fn row_params_3(i: usize) -> (r: Vec<Param>)
    requires
        90 <= i,
        i < 120,
    ensures
        shape_fields(r@) == spec_row_fields(i as nat),
{
    if i == 90 {
        let r = vec![
            param("block", "which block", ParamType::Id("block"), true),
        ];
        proof {
            lemma_shape_fields_index(r@);
            assert(shape_fields(r@) =~= seq![
                FieldV { name: "block"@, doc: "which block"@, shape: ShapeV::Id("block"@), required: true },
            ]);
        }
        r
    } else if i == 91 {
        let r = vec![
            param("mode", "which mode", DiffMode::wire_type(), true),
        ];
        proof {
            lemma_shape_fields_index(r@);
            assert(shape_fields(r@) =~= seq![
                FieldV { name: "mode"@, doc: "which mode"@, shape: diff_mode_shape(), required: true },
            ]);
        }
        r
    } else if i == 92 {
        let r = vec![
            param("hunk", "which hunk", ParamType::Id("hunk"), true),
            param("lines", "how many more lines", ParamType::Uint, true),
        ];
        proof {
            lemma_shape_fields_index(r@);
            assert(shape_fields(r@) =~= seq![
                FieldV { name: "hunk"@, doc: "which hunk"@, shape: ShapeV::Id("hunk"@), required: true },
                FieldV { name: "lines"@, doc: "how many more lines"@, shape: ShapeV::Uint, required: true },
            ]);
        }
        r
    } else if i == 93 {
        let r = vec![
            param("grouping", "directory or flat", Grouping::wire_type(), true),
        ];
        proof {
            lemma_shape_fields_index(r@);
            assert(shape_fields(r@) =~= seq![
                FieldV { name: "grouping"@, doc: "directory or flat"@, shape: grouping_shape(), required: true },
            ]);
        }
        r
    } else if i == 94 {
        let r = vec![
            param("group", "which group", ParamType::Id("group"), true),
            param("text", "the annotation", ParamType::Text, true),
        ];
        proof {
            lemma_shape_fields_index(r@);
            assert(shape_fields(r@) =~= seq![
                FieldV { name: "group"@, doc: "which group"@, shape: ShapeV::Id("group"@), required: true },
                FieldV { name: "text"@, doc: "the annotation"@, shape: ShapeV::Text, required: true },
            ]);
        }
        r
    } else if i == 95 {
        let r = vec![
            param("hunk", "which hunk", ParamType::Id("hunk"), true),
        ];
        proof {
            lemma_shape_fields_index(r@);
            assert(shape_fields(r@) =~= seq![
                FieldV { name: "hunk"@, doc: "which hunk"@, shape: ShapeV::Id("hunk"@), required: true },
            ]);
        }
        r
    } else if i == 96 {
        let r = vec![
            param("target", "which hunk or region", Target::wire_type(), true),
        ];
        proof {
            lemma_shape_fields_index(r@);
            assert(shape_fields(r@) =~= seq![
                FieldV { name: "target"@, doc: "which hunk or region"@, shape: target_shape(), required: true },
            ]);
        }
        r
    } else if i == 97 {
        let r = Vec::new();
        assert(shape_fields(r@) =~= Seq::<FieldV>::empty());
        r
    } else if i == 98 {
        let r = vec![
            param("item", "which item", ParamType::Id("inbox-item"), true),
        ];
        proof {
            lemma_shape_fields_index(r@);
            assert(shape_fields(r@) =~= seq![
                FieldV { name: "item"@, doc: "which item"@, shape: ShapeV::Id("inbox-item"@), required: true },
            ]);
        }
        r
    } else if i == 99 {
        let r = vec![
            param("severity", "info, attention or trouble", Severity::wire_type(), true),
            param("title", "one line", ParamType::Text, true),
            param("body", "the rest", ParamType::Text, false),
            param("anchor", "what it is about", Target::wire_type(), false),
        ];
        proof {
            lemma_shape_fields_index(r@);
            assert(shape_fields(r@) =~= seq![
                FieldV { name: "severity"@, doc: "info, attention or trouble"@, shape: severity_shape(), required: true },
                FieldV { name: "title"@, doc: "one line"@, shape: ShapeV::Text, required: true },
                FieldV { name: "body"@, doc: "the rest"@, shape: ShapeV::Text, required: false },
                FieldV { name: "anchor"@, doc: "what it is about"@, shape: target_shape(), required: false },
            ]);
        }
        r
    } else if i == 100 {
        let r = vec![
            param("prose", "what the agent is asking", ParamType::Text, true),
            param("options", "the numbered options, if any", ParamType::List(Box::new(AskOption::wire_type())), true),
        ];
        proof {
            lemma_shape_fields_index(r@);
            assert(shape_fields(r@) =~= seq![
                FieldV { name: "prose"@, doc: "what the agent is asking"@, shape: ShapeV::Text, required: true },
                FieldV { name: "options"@, doc: "the numbered options, if any"@, shape: ShapeV::List(Box::new(ask_option_shape())), required: true },
            ]);
        }
        r
    } else if i == 101 {
        let r = vec![
            param("ask", "which ask", ParamType::Id("ask"), true),
            param("digit", "which option, 1-based", ParamType::Uint, false),
            param("prose", "a prose answer instead", ParamType::Text, false),
        ];
        proof {
            lemma_shape_fields_index(r@);
            assert(shape_fields(r@) =~= seq![
                FieldV { name: "ask"@, doc: "which ask"@, shape: ShapeV::Id("ask"@), required: true },
                FieldV { name: "digit"@, doc: "which option, 1-based"@, shape: ShapeV::Uint, required: false },
                FieldV { name: "prose"@, doc: "a prose answer instead"@, shape: ShapeV::Text, required: false },
            ]);
        }
        r
    } else if i == 102 {
        let r = vec![
            param("ask", "which ask; absent means the one on screen", ParamType::Id("ask"), false),
        ];
        proof {
            lemma_shape_fields_index(r@);
            assert(shape_fields(r@) =~= seq![
                FieldV { name: "ask"@, doc: "which ask; absent means the one on screen"@, shape: ShapeV::Id("ask"@), required: false },
            ]);
        }
        r
    } else if i == 103 {
        let r = vec![
            param("invocation", "the exact command, as it will run", ParamType::Text, true),
            param("files", "the files it touches, if it is a file operation", ParamType::List(Box::new(ParamType::Path)), true),
        ];
        proof {
            assert(shape(ParamType::Path) == ShapeV::Path);
            lemma_shape_fields_index(r@);
            assert(shape_fields(r@) =~= seq![
                FieldV { name: "invocation"@, doc: "the exact command, as it will run"@, shape: ShapeV::Text, required: true },
                FieldV { name: "files"@, doc: "the files it touches, if it is a file operation"@, shape: ShapeV::List(Box::new(ShapeV::Path)), required: true },
            ]);
        }
        r
    } else if i == 104 {
        let r = vec![
            param("ask", "which ask", ParamType::Id("ask"), true),
            param("scope", "once, or always", GrantScope::wire_type(), true),
        ];
        proof {
            lemma_shape_fields_index(r@);
            assert(shape_fields(r@) =~= seq![
                FieldV { name: "ask"@, doc: "which ask"@, shape: ShapeV::Id("ask"@), required: true },
                FieldV { name: "scope"@, doc: "once, or always"@, shape: grant_scope_shape(), required: true },
            ]);
        }
        r
    } else if i == 105 {
        let r = vec![
            param("ask", "which ask", ParamType::Id("ask"), true),
        ];
        proof {
            lemma_shape_fields_index(r@);
            assert(shape_fields(r@) =~= seq![
                FieldV { name: "ask"@, doc: "which ask"@, shape: ShapeV::Id("ask"@), required: true },
            ]);
        }
        r
    } else if i == 106 {
        let r = vec![
            param("agent", "which agent binary or endpoint", ParamType::Text, true),
            param("cwd", "working directory; absent means the workspace root", ParamType::Path, false),
        ];
        proof {
            lemma_shape_fields_index(r@);
            assert(shape_fields(r@) =~= seq![
                FieldV { name: "agent"@, doc: "which agent binary or endpoint"@, shape: ShapeV::Text, required: true },
                FieldV { name: "cwd"@, doc: "working directory; absent means the workspace root"@, shape: ShapeV::Path, required: false },
            ]);
        }
        r
    } else if i == 107 {
        let r = Vec::new();
        assert(shape_fields(r@) =~= Seq::<FieldV>::empty());
        r
    } else if i == 108 {
        let r = vec![
            param("handle", "the discovered session's handle", ParamType::Text, true),
        ];
        proof {
            lemma_shape_fields_index(r@);
            assert(shape_fields(r@) =~= seq![
                FieldV { name: "handle"@, doc: "the discovered session's handle"@, shape: ShapeV::Text, required: true },
            ]);
        }
        r
    } else if i == 109 {
        let r = vec![
            param("endpoint", "where it is", ParamType::Text, true),
        ];
        proof {
            lemma_shape_fields_index(r@);
            assert(shape_fields(r@) =~= seq![
                FieldV { name: "endpoint"@, doc: "where it is"@, shape: ShapeV::Text, required: true },
            ]);
        }
        r
    } else if i == 110 {
        let r = Vec::new();
        assert(shape_fields(r@) =~= Seq::<FieldV>::empty());
        r
    } else if i == 111 {
        let r = Vec::new();
        assert(shape_fields(r@) =~= Seq::<FieldV>::empty());
        r
    } else if i == 112 {
        let r = vec![
            param("force", "end it even mid-turn", ParamType::Bool, true),
        ];
        proof {
            lemma_shape_fields_index(r@);
            assert(shape_fields(r@) =~= seq![
                FieldV { name: "force"@, doc: "end it even mid-turn"@, shape: ShapeV::Bool, required: true },
            ]);
        }
        r
    } else if i == 113 {
        let r = vec![
            param("body", "the message", ParamType::Text, true),
            param("anchors", "what it is about; a selection, a region, many of them", ParamType::List(Box::new(Target::wire_type())), true),
        ];
        proof {
            lemma_shape_fields_index(r@);
            assert(shape_fields(r@) =~= seq![
                FieldV { name: "body"@, doc: "the message"@, shape: ShapeV::Text, required: true },
                FieldV { name: "anchors"@, doc: "what it is about; a selection, a region, many of them"@, shape: ShapeV::List(Box::new(target_shape())), required: true },
            ]);
        }
        r
    } else if i == 114 {
        let r = Vec::new();
        assert(shape_fields(r@) =~= Seq::<FieldV>::empty());
        r
    } else if i == 115 {
        let r = vec![
            param("body", "the correction", ParamType::Text, true),
        ];
        proof {
            lemma_shape_fields_index(r@);
            assert(shape_fields(r@) =~= seq![
                FieldV { name: "body"@, doc: "the correction"@, shape: ShapeV::Text, required: true },
            ]);
        }
        r
    } else if i == 116 {
        let r = Vec::new();
        assert(shape_fields(r@) =~= Seq::<FieldV>::empty());
        r
    } else if i == 117 {
        let r = Vec::new();
        assert(shape_fields(r@) =~= Seq::<FieldV>::empty());
        r
    } else if i == 118 {
        let r = vec![
            param("turn", "which turn", ParamType::Id("turn"), true),
            param("prompt", "what started it", ParamType::Text, false),
        ];
        proof {
            lemma_shape_fields_index(r@);
            assert(shape_fields(r@) =~= seq![
                FieldV { name: "turn"@, doc: "which turn"@, shape: ShapeV::Id("turn"@), required: true },
                FieldV { name: "prompt"@, doc: "what started it"@, shape: ShapeV::Text, required: false },
            ]);
        }
        r
    } else {
        let r = vec![
            param("turn", "which turn", ParamType::Id("turn"), true),
            param("summary", "how it ended", ParamType::Text, false),
        ];
        proof {
            lemma_shape_fields_index(r@);
            assert(shape_fields(r@) =~= seq![
                FieldV { name: "turn"@, doc: "which turn"@, shape: ShapeV::Id("turn"@), required: true },
                FieldV { name: "summary"@, doc: "how it ended"@, shape: ShapeV::Text, required: false },
            ]);
        }
        r
    }
}

/// The arguments in rows 120 onwards.
fn row_params_4(i: usize) -> (r: Vec<Param>)
    requires
        120 <= i,
        i < 150,
    ensures
        shape_fields(r@) == spec_row_fields(i as nat),
{
    if i == 120 {
        let r = vec![
            param("turn", "which turn", ParamType::Id("turn"), true),
            param("chunk", "the text", ParamType::Text, true),
        ];
        proof {
            lemma_shape_fields_index(r@);
            assert(shape_fields(r@) =~= seq![
                FieldV { name: "turn"@, doc: "which turn"@, shape: ShapeV::Id("turn"@), required: true },
                FieldV { name: "chunk"@, doc: "the text"@, shape: ShapeV::Text, required: true },
            ]);
        }
        r
    } else if i == 121 {
        let r = vec![
            param("turn", "which turn", ParamType::Id("turn"), true),
            param("call", "the call's id", ParamType::Id("tool-call"), true),
            param("verb", "what it is doing — read, edit, run", ParamType::Text, true),
            param("target", "what it is doing it to", ParamType::Text, false),
            param("path", "the absolute path this call touches, for the jump link", ParamType::Text, false),
            param("line", "one-based line within that file, when the agent named one", ParamType::Uint, false),
        ];
        proof {
            lemma_shape_fields_index(r@);
            assert(shape_fields(r@) =~= seq![
                FieldV { name: "turn"@, doc: "which turn"@, shape: ShapeV::Id("turn"@), required: true },
                FieldV { name: "call"@, doc: "the call's id"@, shape: ShapeV::Id("tool-call"@), required: true },
                FieldV { name: "verb"@, doc: "what it is doing — read, edit, run"@, shape: ShapeV::Text, required: true },
                FieldV { name: "target"@, doc: "what it is doing it to"@, shape: ShapeV::Text, required: false },
                FieldV { name: "path"@, doc: "the absolute path this call touches, for the jump link"@, shape: ShapeV::Text, required: false },
                FieldV { name: "line"@, doc: "one-based line within that file, when the agent named one"@, shape: ShapeV::Uint, required: false },
            ]);
        }
        r
    } else if i == 122 {
        let r = vec![
            param("call", "which call", ParamType::Id("tool-call"), true),
            param("note", "the progress line", ParamType::Text, true),
        ];
        proof {
            lemma_shape_fields_index(r@);
            assert(shape_fields(r@) =~= seq![
                FieldV { name: "call"@, doc: "which call"@, shape: ShapeV::Id("tool-call"@), required: true },
                FieldV { name: "note"@, doc: "the progress line"@, shape: ShapeV::Text, required: true },
            ]);
        }
        r
    } else if i == 123 {
        let r = vec![
            param("call", "which call", ParamType::Id("tool-call"), true),
            param("summary", "one line", ParamType::Text, true),
            param("added", "lines added", ParamType::Uint, true),
            param("removed", "lines removed", ParamType::Uint, true),
        ];
        proof {
            lemma_shape_fields_index(r@);
            assert(shape_fields(r@) =~= seq![
                FieldV { name: "call"@, doc: "which call"@, shape: ShapeV::Id("tool-call"@), required: true },
                FieldV { name: "summary"@, doc: "one line"@, shape: ShapeV::Text, required: true },
                FieldV { name: "added"@, doc: "lines added"@, shape: ShapeV::Uint, required: true },
                FieldV { name: "removed"@, doc: "lines removed"@, shape: ShapeV::Uint, required: true },
            ]);
        }
        r
    } else if i == 124 {
        let r = vec![
            param("kind", "which seam", SeamKind::wire_type(), true),
            param("note", "what to say about it", ParamType::Text, false),
        ];
        proof {
            lemma_shape_fields_index(r@);
            assert(shape_fields(r@) =~= seq![
                FieldV { name: "kind"@, doc: "which seam"@, shape: seam_kind_shape(), required: true },
                FieldV { name: "note"@, doc: "what to say about it"@, shape: ShapeV::Text, required: false },
            ]);
        }
        r
    } else if i == 125 {
        let r = vec![
            param("anchor", "what to watch", Target::wire_type(), true),
            param("expr", "the expression to evaluate", ParamType::Text, true),
        ];
        proof {
            lemma_shape_fields_index(r@);
            assert(shape_fields(r@) =~= seq![
                FieldV { name: "anchor"@, doc: "what to watch"@, shape: target_shape(), required: true },
                FieldV { name: "expr"@, doc: "the expression to evaluate"@, shape: ShapeV::Text, required: true },
            ]);
        }
        r
    } else if i == 126 {
        let r = vec![
            param("watch", "which watch", ParamType::Id("watch"), true),
        ];
        proof {
            lemma_shape_fields_index(r@);
            assert(shape_fields(r@) =~= seq![
                FieldV { name: "watch"@, doc: "which watch"@, shape: ShapeV::Id("watch"@), required: true },
            ]);
        }
        r
    } else if i == 127 {
        let r = vec![
            param("watch", "which watch", ParamType::Id("watch"), true),
            param("on", "shown or collapsed", ParamType::Bool, true),
        ];
        proof {
            lemma_shape_fields_index(r@);
            assert(shape_fields(r@) =~= seq![
                FieldV { name: "watch"@, doc: "which watch"@, shape: ShapeV::Id("watch"@), required: true },
                FieldV { name: "on"@, doc: "shown or collapsed"@, shape: ShapeV::Bool, required: true },
            ]);
        }
        r
    } else if i == 128 {
        let r = vec![
            param("watch", "which watch", ParamType::Id("watch"), true),
            param("values", "the value sequence, in order", ParamType::List(Box::new(ParamType::Text)), true),
            param("provenance", "where they came from — 5a's \"cargo test · … · 40s ago\"", ParamType::Text, false),
        ];
        proof {
            assert(shape(ParamType::Text) == ShapeV::Text);
            lemma_shape_fields_index(r@);
            assert(shape_fields(r@) =~= seq![
                FieldV { name: "watch"@, doc: "which watch"@, shape: ShapeV::Id("watch"@), required: true },
                FieldV { name: "values"@, doc: "the value sequence, in order"@, shape: ShapeV::List(Box::new(ShapeV::Text)), required: true },
                FieldV { name: "provenance"@, doc: "where they came from — 5a's \"cargo test · … · 40s ago\""@, shape: ShapeV::Text, required: false },
            ]);
        }
        r
    } else if i == 129 {
        let r = vec![
            param("watch", "which watch", ParamType::Id("watch"), true),
        ];
        proof {
            lemma_shape_fields_index(r@);
            assert(shape_fields(r@) =~= seq![
                FieldV { name: "watch"@, doc: "which watch"@, shape: ShapeV::Id("watch"@), required: true },
            ]);
        }
        r
    } else if i == 130 {
        let r = Vec::new();
        assert(shape_fields(r@) =~= Seq::<FieldV>::empty());
        r
    } else if i == 131 {
        let r = vec![
            param("delta", "rows, negative goes up", ParamType::Int, true),
            param("otherwise", "the capability to run when no completion list is open; present is what makes a key step the list and still do its ordinary job when there is no list", Binding::wire_type(), false),
        ];
        proof {
            lemma_shape_fields_index(r@);
            assert(shape_fields(r@) =~= seq![
                FieldV { name: "delta"@, doc: "rows, negative goes up"@, shape: ShapeV::Int, required: true },
                FieldV { name: "otherwise"@, doc: "the capability to run when no completion list is open; present is what makes a key step the list and still do its ordinary job when there is no list"@, shape: binding_shape(), required: false },
            ]);
        }
        r
    } else if i == 132 {
        let r = vec![
            param("index", "which item, 1-based; 0 is whichever row is selected, which is the only thing a keymap can name", ParamType::Uint, true),
            param("then", "text to type after the accepted item — the space the `<space>` key leaves behind", ParamType::Text, false),
            param("otherwise", "text to type when no row has been chosen; present is what makes a key fall through instead of accepting", ParamType::Text, false),
        ];
        proof {
            lemma_shape_fields_index(r@);
            assert(shape_fields(r@) =~= seq![
                FieldV { name: "index"@, doc: "which item, 1-based; 0 is whichever row is selected, which is the only thing a keymap can name"@, shape: ShapeV::Uint, required: true },
                FieldV { name: "then"@, doc: "text to type after the accepted item — the space the `<space>` key leaves behind"@, shape: ShapeV::Text, required: false },
                FieldV { name: "otherwise"@, doc: "text to type when no row has been chosen; present is what makes a key fall through instead of accepting"@, shape: ShapeV::Text, required: false },
            ]);
        }
        r
    } else if i == 133 {
        let r = Vec::new();
        assert(shape_fields(r@) =~= Seq::<FieldV>::empty());
        r
    } else if i == 134 {
        let r = Vec::new();
        assert(shape_fields(r@) =~= Seq::<FieldV>::empty());
        r
    } else if i == 135 {
        let r = Vec::new();
        assert(shape_fields(r@) =~= Seq::<FieldV>::empty());
        r
    } else if i == 136 {
        let r = Vec::new();
        assert(shape_fields(r@) =~= Seq::<FieldV>::empty());
        r
    } else if i == 137 {
        let r = Vec::new();
        assert(shape_fields(r@) =~= Seq::<FieldV>::empty());
        r
    } else if i == 138 {
        let r = vec![
            param("items", "the items, in the order the server ranked them; empty means it had nothing", ParamType::List(Box::new(Completion::wire_type())), true),
            param("at", "the cursor the request was made at, so an answer the cursor has left is dropped rather than drawn in the wrong place", Position::wire_type(), true),
            param("buffer", "which buffer asked; absent means the focused one", ParamType::Id("buffer"), false),
        ];
        proof {
            lemma_shape_fields_index(r@);
            assert(shape_fields(r@) =~= seq![
                FieldV { name: "items"@, doc: "the items, in the order the server ranked them; empty means it had nothing"@, shape: ShapeV::List(Box::new(completion_shape())), required: true },
                FieldV { name: "at"@, doc: "the cursor the request was made at, so an answer the cursor has left is dropped rather than drawn in the wrong place"@, shape: position_shape(), required: true },
                FieldV { name: "buffer"@, doc: "which buffer asked; absent means the focused one"@, shape: ShapeV::Id("buffer"@), required: false },
            ]);
        }
        r
    } else if i == 139 {
        let r = vec![
            param("signature", "the active signature, absent when the server had none", Signature::wire_type(), false),
            param("at", "the cursor the request was made at, so a late answer is dropped rather than drawn in the wrong place", Position::wire_type(), true),
            param("buffer", "which buffer asked; absent means the focused one", ParamType::Id("buffer"), false),
        ];
        proof {
            lemma_shape_fields_index(r@);
            assert(shape_fields(r@) =~= seq![
                FieldV { name: "signature"@, doc: "the active signature, absent when the server had none"@, shape: signature_shape(), required: false },
                FieldV { name: "at"@, doc: "the cursor the request was made at, so a late answer is dropped rather than drawn in the wrong place"@, shape: position_shape(), required: true },
                FieldV { name: "buffer"@, doc: "which buffer asked; absent means the focused one"@, shape: ShapeV::Id("buffer"@), required: false },
            ]);
        }
        r
    } else if i == 140 {
        let r = vec![
            param("prose", "the hover text, one row per line; empty means the server had nothing", ParamType::List(Box::new(ParamType::Text)), true),
            param("at", "the cursor the request was made at, so a late answer is dropped rather than drawn in the wrong place", Position::wire_type(), true),
            param("buffer", "which buffer asked; absent means the focused one", ParamType::Id("buffer"), false),
        ];
        proof {
            assert(shape(ParamType::Text) == ShapeV::Text);
            lemma_shape_fields_index(r@);
            assert(shape_fields(r@) =~= seq![
                FieldV { name: "prose"@, doc: "the hover text, one row per line; empty means the server had nothing"@, shape: ShapeV::List(Box::new(ShapeV::Text)), required: true },
                FieldV { name: "at"@, doc: "the cursor the request was made at, so a late answer is dropped rather than drawn in the wrong place"@, shape: position_shape(), required: true },
                FieldV { name: "buffer"@, doc: "which buffer asked; absent means the focused one"@, shape: ShapeV::Id("buffer"@), required: false },
            ]);
        }
        r
    } else if i == 141 {
        let r = vec![
            param("path", "which file", ParamType::Path, true),
            param("diagnostics", "the diagnostics, replacing that file's set", ParamType::List(Box::new(Diagnostic::wire_type())), true),
        ];
        proof {
            lemma_shape_fields_index(r@);
            assert(shape_fields(r@) =~= seq![
                FieldV { name: "path"@, doc: "which file"@, shape: ShapeV::Path, required: true },
                FieldV { name: "diagnostics"@, doc: "the diagnostics, replacing that file's set"@, shape: ShapeV::List(Box::new(diagnostic_shape())), required: true },
            ]);
        }
        r
    } else if i == 142 {
        let r = vec![
            param("files", "the edits, per file", ParamType::List(Box::new(FileEdits::wire_type())), true),
        ];
        proof {
            lemma_shape_fields_index(r@);
            assert(shape_fields(r@) =~= seq![
                FieldV { name: "files"@, doc: "the edits, per file"@, shape: ShapeV::List(Box::new(file_edits_shape())), required: true },
            ]);
        }
        r
    } else if i == 143 {
        let r = vec![
            param("language", "which language's server", ParamType::Text, true),
        ];
        proof {
            lemma_shape_fields_index(r@);
            assert(shape_fields(r@) =~= seq![
                FieldV { name: "language"@, doc: "which language's server"@, shape: ShapeV::Text, required: true },
            ]);
        }
        r
    } else if i == 144 {
        let r = Vec::new();
        assert(shape_fields(r@) =~= Seq::<FieldV>::empty());
        r
    } else if i == 145 {
        let r = Vec::new();
        assert(shape_fields(r@) =~= Seq::<FieldV>::empty());
        r
    } else if i == 146 {
        let r = vec![
            param("change", "which change", ParamType::Text, true),
        ];
        proof {
            lemma_shape_fields_index(r@);
            assert(shape_fields(r@) =~= seq![
                FieldV { name: "change"@, doc: "which change"@, shape: ShapeV::Text, required: true },
            ]);
        }
        r
    } else if i == 147 {
        let r = Vec::new();
        assert(shape_fields(r@) =~= Seq::<FieldV>::empty());
        r
    } else if i == 148 {
        let r = vec![
            param("change", "which change", ParamType::Text, true),
        ];
        proof {
            lemma_shape_fields_index(r@);
            assert(shape_fields(r@) =~= seq![
                FieldV { name: "change"@, doc: "which change"@, shape: ShapeV::Text, required: true },
            ]);
        }
        r
    } else {
        let r = vec![
            param("change", "which change", ParamType::Text, true),
        ];
        proof {
            lemma_shape_fields_index(r@);
            assert(shape_fields(r@) =~= seq![
                FieldV { name: "change"@, doc: "which change"@, shape: ShapeV::Text, required: true },
            ]);
        }
        r
    }
}

/// The arguments in rows 150 onwards.
fn row_params_5(i: usize) -> (r: Vec<Param>)
    requires
        150 <= i,
        i < spec_action_count(),
    ensures
        shape_fields(r@) == spec_row_fields(i as nat),
{
    if i == 150 {
        let r = vec![
            param("source", "the source text", ParamType::Text, true),
        ];
        proof {
            lemma_shape_fields_index(r@);
            assert(shape_fields(r@) =~= seq![
                FieldV { name: "source"@, doc: "the source text"@, shape: ShapeV::Text, required: true },
            ]);
        }
        r
    } else if i == 151 {
        let r = vec![
            param("path", "which file", ParamType::Path, true),
        ];
        proof {
            lemma_shape_fields_index(r@);
            assert(shape_fields(r@) =~= seq![
                FieldV { name: "path"@, doc: "which file"@, shape: ShapeV::Path, required: true },
            ]);
        }
        r
    } else if i == 152 {
        let r = Vec::new();
        assert(shape_fields(r@) =~= Seq::<FieldV>::empty());
        r
    } else if i == 153 {
        let r = Vec::new();
        assert(shape_fields(r@) =~= Seq::<FieldV>::empty());
        r
    } else if i == 154 {
        let r = Vec::new();
        assert(shape_fields(r@) =~= Seq::<FieldV>::empty());
        r
    } else if i == 155 {
        let r = vec![
            param("delta", "how far back, negative goes forward", ParamType::Int, true),
        ];
        proof {
            lemma_shape_fields_index(r@);
            assert(shape_fields(r@) =~= seq![
                FieldV { name: "delta"@, doc: "how far back, negative goes forward"@, shape: ShapeV::Int, required: true },
            ]);
        }
        r
    } else if i == 156 {
        let r = Vec::new();
        assert(shape_fields(r@) =~= Seq::<FieldV>::empty());
        r
    } else if i == 157 {
        let r = vec![
            param("form", "the form to write", ParamType::Text, true),
        ];
        proof {
            lemma_shape_fields_index(r@);
            assert(shape_fields(r@) =~= seq![
                FieldV { name: "form"@, doc: "the form to write"@, shape: ShapeV::Text, required: true },
            ]);
        }
        r
    } else if i == 158 {
        let r = vec![
            param("keys", "vim notation, e.g. \"]r\"", ParamType::Text, true),
            param("binding", "a capability with arguments, or scheme source", Binding::wire_type(), true),
            param("mode", "which mode; absent means normal", EditMode::wire_type(), false),
        ];
        proof {
            lemma_shape_fields_index(r@);
            assert(shape_fields(r@) =~= seq![
                FieldV { name: "keys"@, doc: "vim notation, e.g. \"]r\""@, shape: ShapeV::Text, required: true },
                FieldV { name: "binding"@, doc: "a capability with arguments, or scheme source"@, shape: binding_shape(), required: true },
                FieldV { name: "mode"@, doc: "which mode; absent means normal"@, shape: edit_mode_shape(), required: false },
            ]);
        }
        r
    } else if i == 159 {
        let r = vec![
            param("keys", "vim notation", ParamType::Text, true),
            param("mode", "which mode; absent means normal", EditMode::wire_type(), false),
        ];
        proof {
            lemma_shape_fields_index(r@);
            assert(shape_fields(r@) =~= seq![
                FieldV { name: "keys"@, doc: "vim notation"@, shape: ShapeV::Text, required: true },
                FieldV { name: "mode"@, doc: "which mode; absent means normal"@, shape: edit_mode_shape(), required: false },
            ]);
        }
        r
    } else if i == 160 {
        let r = vec![
            param("language", "the language's name", ParamType::Text, true),
            param("spec", "what it is made of", LanguageSpec::wire_type(), true),
        ];
        proof {
            lemma_shape_fields_index(r@);
            assert(shape_fields(r@) =~= seq![
                FieldV { name: "language"@, doc: "the language's name"@, shape: ShapeV::Text, required: true },
                FieldV { name: "spec"@, doc: "what it is made of"@, shape: language_spec_shape(), required: true },
            ]);
        }
        r
    } else if i == 161 {
        let r = vec![
            param("key", "the option's name", ParamType::Text, true),
            param("value", "its value", ParamType::Any, true),
        ];
        proof {
            lemma_shape_fields_index(r@);
            assert(shape_fields(r@) =~= seq![
                FieldV { name: "key"@, doc: "the option's name"@, shape: ShapeV::Text, required: true },
                FieldV { name: "value"@, doc: "its value"@, shape: ShapeV::Any, required: true },
            ]);
        }
        r
    } else if i == 162 {
        let r = vec![
            param("slug", "which theme", ParamType::Text, true),
        ];
        proof {
            lemma_shape_fields_index(r@);
            assert(shape_fields(r@) =~= seq![
                FieldV { name: "slug"@, doc: "which theme"@, shape: ShapeV::Text, required: true },
            ]);
        }
        r
    } else if i == 163 {
        let r = Vec::new();
        assert(shape_fields(r@) =~= Seq::<FieldV>::empty());
        r
    } else if i == 164 {
        let r = vec![
            param("force", "leave even with unsaved buffers", ParamType::Bool, true),
        ];
        proof {
            lemma_shape_fields_index(r@);
            assert(shape_fields(r@) =~= seq![
                FieldV { name: "force"@, doc: "leave even with unsaved buffers"@, shape: ShapeV::Bool, required: true },
            ]);
        }
        r
    } else if i == 165 {
        let r = vec![
            param("key", "the key that was not bound", ParamType::Text, true),
        ];
        proof {
            lemma_shape_fields_index(r@);
            assert(shape_fields(r@) =~= seq![
                FieldV { name: "key"@, doc: "the key that was not bound"@, shape: ShapeV::Text, required: true },
            ]);
        }
        r
    } else if i == 166 {
        let r = vec![
            param("topic", "which topic; absent opens the index", ParamType::Text, false),
        ];
        proof {
            lemma_shape_fields_index(r@);
            assert(shape_fields(r@) =~= seq![
                FieldV { name: "topic"@, doc: "which topic; absent opens the index"@, shape: ShapeV::Text, required: false },
            ]);
        }
        r
    } else if i == 167 {
        let r = Vec::new();
        assert(shape_fields(r@) =~= Seq::<FieldV>::empty());
        r
    } else if i == 168 {
        let r = Vec::new();
        assert(shape_fields(r@) =~= Seq::<FieldV>::empty());
        r
    } else {
        let r = Vec::new();
        assert(shape_fields(r@) =~= Seq::<FieldV>::empty());
        r
    }
}

/// The registry row at `i`.
/// Whether `r` is the registry row at `i`, field by field.
pub open spec fn is_row(r: ActionSpec, i: nat) -> bool {
    &&& r.name@ == spec_row_name(i)
    &&& r.domain@ == spec_row_domain(i)
    &&& r.doc@ == spec_row_doc(i)
    &&& r.since.phase == spec_row_phase(i)
    &&& r.since.task@ == spec_row_task(i)
    &&& r.mcp == spec_row_mcp(i)
    &&& shape_fields(r.params@) == spec_row_fields(i)
}

fn row(i: usize) -> (r: ActionSpec)
    requires
        i < spec_action_count(),
    ensures
        is_row(r, i as nat),
{
    ActionSpec {
        name: row_name(i),
        domain: row_domain(i),
        doc: row_doc(i),
        since: Since { phase: row_phase(i), task: row_task(i) },
        mcp: row_mcp(i),
        params: row_params(i),
    }
}

/// Every Action's registry row, in declaration order.
pub fn actions() -> (r: Vec<ActionSpec>)
    ensures
        r.len() == spec_action_count(),
        forall|i: int| 0 <= i < r.len() ==> is_row(#[trigger] r[i], i as nat),
{
    let mut out: Vec<ActionSpec> = Vec::new();
    let mut i: usize = 0;
    while i < 170
        invariant
            i <= spec_action_count(),
            out.len() == i,
            forall|j: int| 0 <= j < i ==> is_row(#[trigger] out[j], j as nat),
        decreases 170 - i,
    {
        out.push(row(i));
        i = i + 1;
    }
    out
}

impl Action {
    fn index(&self) -> (r: usize)
        ensures
            r == spec_action_index(*self),
            r < spec_action_count(),
    {
        match self {
            Action::Buffer(BufferAction::Insert { .. }) => 0,
            Action::Buffer(BufferAction::Delete { .. }) => 1,
            Action::Buffer(BufferAction::Replace { .. }) => 2,
            Action::Buffer(BufferAction::ApplyEdits { .. }) => 3,
            Action::Buffer(BufferAction::Yank { .. }) => 4,
            Action::Buffer(BufferAction::Paste { .. }) => 5,
            Action::Buffer(BufferAction::SetRegister { .. }) => 6,
            Action::Buffer(BufferAction::Indent { .. }) => 7,
            Action::Buffer(BufferAction::InsertIndent { .. }) => 8,
            Action::Buffer(BufferAction::JoinLines { .. }) => 9,
            Action::Buffer(BufferAction::SetCase { .. }) => 10,
            Action::Buffer(BufferAction::ToggleComment { .. }) => 11,
            Action::Buffer(BufferAction::AlignColumns { .. }) => 12,
            Action::Motion(MotionAction::MoveCursor { .. }) => 13,
            Action::Motion(MotionAction::SetCursor { .. }) => 14,
            Action::Motion(MotionAction::SelectRange { .. }) => 15,
            Action::Motion(MotionAction::SelectObject { .. }) => 16,
            Action::Motion(MotionAction::ExtendSelection { .. }) => 17,
            Action::Motion(MotionAction::ClearSelection { .. }) => 18,
            Action::Motion(MotionAction::GotoSequence { .. }) => 19,
            Action::Motion(MotionAction::GotoLocation { .. }) => 20,
            Action::Motion(MotionAction::GotoAnchor { .. }) => 21,
            Action::Motion(MotionAction::Jump { .. }) => 22,
            Action::View(ViewAction::Scroll { .. }) => 23,
            Action::View(ViewAction::SetSoftWrap { .. }) => 24,
            Action::View(ViewAction::SetFold { .. }) => 25,
            Action::View(ViewAction::FoldAll { .. }) => 26,
            Action::View(ViewAction::UnfoldAll { .. }) => 27,
            Action::View(ViewAction::SetVirtualTextVisible { .. }) => 28,
            Action::Input(InputAction::SetMode { .. }) => 29,
            Action::Input(InputAction::SetCount { .. }) => 30,
            Action::Input(InputAction::SelectRegister { .. }) => 31,
            Action::Input(InputAction::CancelPending { .. }) => 32,
            Action::Input(InputAction::FeedKeys { .. }) => 33,
            Action::Input(InputAction::RepeatLast { .. }) => 34,
            Action::Input(InputAction::SetMacroRecording { .. }) => 35,
            Action::History(HistoryAction::Undo { .. }) => 36,
            Action::History(HistoryAction::Redo { .. }) => 37,
            Action::History(HistoryAction::UndoToCheckpoint { .. }) => 38,
            Action::History(HistoryAction::CommitUndoGroup { .. }) => 39,
            Action::History(HistoryAction::CompactHistory { .. }) => 40,
            Action::File(FileAction::OpenFile { .. }) => 41,
            Action::File(FileAction::OpenAlternate { .. }) => 42,
            Action::File(FileAction::SaveBuffer { .. }) => 43,
            Action::File(FileAction::SaveAll { .. }) => 44,
            Action::File(FileAction::CloseBuffer { .. }) => 45,
            Action::File(FileAction::ReloadFromDisk { .. }) => 46,
            Action::File(FileAction::NoteDiskChange { .. }) => 47,
            Action::File(FileAction::OpenDiskDiff { .. }) => 48,
            Action::File(FileAction::ResolveDiskDiff { .. }) => 49,
            Action::File(FileAction::SetFileWatch { .. }) => 50,
            Action::Float(FloatAction::OpenFloat { .. }) => 51,
            Action::Float(FloatAction::CloseFloat { .. }) => 52,
            Action::Float(FloatAction::CloseAllFloats { .. }) => 53,
            Action::Float(FloatAction::DefineFloatSurface { .. }) => 54,
            Action::Float(FloatAction::FloatSelect { .. }) => 55,
            Action::Float(FloatAction::FloatSelectRow { .. }) => 56,
            Action::Float(FloatAction::FloatAccept { .. }) => 57,
            Action::Float(FloatAction::FloatAnswer { .. }) => 58,
            Action::Float(FloatAction::FloatToggleFold { .. }) => 59,
            Action::Pane(PaneAction::SplitPane { .. }) => 60,
            Action::Pane(PaneAction::FocusPane { .. }) => 61,
            Action::Pane(PaneAction::ClosePane { .. }) => 62,
            Action::Pane(PaneAction::ResizePane { .. }) => 63,
            Action::Pane(PaneAction::SetPaneContent { .. }) => 64,
            Action::Pane(PaneAction::CreatePaneFromView { .. }) => 65,
            Action::Picker(PickerAction::OpenPicker { .. }) => 66,
            Action::Picker(PickerAction::SetPickerQuery { .. }) => 67,
            Action::Picker(PickerAction::CyclePickerSource { .. }) => 68,
            Action::Picker(PickerAction::PickerAccept { .. }) => 69,
            Action::Picker(PickerAction::TogglePickerPreview { .. }) => 70,
            Action::Picker(PickerAction::DefinePickerSource { .. }) => 71,
            Action::Picker(PickerAction::InvalidatePickerSource { .. }) => 72,
            Action::Prompt(PromptAction::OpenPrompt { .. }) => 73,
            Action::Prompt(PromptAction::SetPromptText { .. }) => 74,
            Action::Prompt(PromptAction::SubmitPrompt { .. }) => 75,
            Action::Prompt(PromptAction::CancelPrompt { .. }) => 76,
            Action::Prompt(PromptAction::PromptHistory { .. }) => 77,
            Action::Region(RegionAction::MarkSeen { .. }) => 78,
            Action::Region(RegionAction::MarkUnseen { .. }) => 79,
            Action::Region(RegionAction::DeclareRegions { .. }) => 80,
            Action::Region(RegionAction::PlaceAnchor { .. }) => 81,
            Action::Region(RegionAction::Reanchor { .. }) => 82,
            Action::Region(RegionAction::DropRegions { .. }) => 83,
            Action::Thread(ThreadAction::StartThread { .. }) => 84,
            Action::Thread(ThreadAction::ReplyToThread { .. }) => 85,
            Action::Thread(ThreadAction::ResolveThread { .. }) => 86,
            Action::Thread(ThreadAction::DeleteThread { .. }) => 87,
            Action::Thread(ThreadAction::BroadcastThread { .. }) => 88,
            Action::Review(ReviewAction::DeclareReviewBlock { .. }) => 89,
            Action::Review(ReviewAction::OpenReviewBlock { .. }) => 90,
            Action::Review(ReviewAction::SetDiffMode { .. }) => 91,
            Action::Review(ReviewAction::ExpandDiffContext { .. }) => 92,
            Action::Review(ReviewAction::SetDiffGrouping { .. }) => 93,
            Action::Review(ReviewAction::AnnotateGroup { .. }) => 94,
            Action::Review(ReviewAction::RevertHunk { .. }) => 95,
            Action::Review(ReviewAction::OpenHunkPeek { .. }) => 96,
            Action::Inbox(InboxAction::OpenInbox { .. }) => 97,
            Action::Inbox(InboxAction::OpenInboxItem { .. }) => 98,
            Action::Inbox(InboxAction::Notify { .. }) => 99,
            Action::Ask(AskAction::EnqueueAsk { .. }) => 100,
            Action::Ask(AskAction::AnswerAsk { .. }) => 101,
            Action::Ask(AskAction::DeferAsk { .. }) => 102,
            Action::Ask(AskAction::RequestPermission { .. }) => 103,
            Action::Ask(AskAction::GrantPermission { .. }) => 104,
            Action::Ask(AskAction::DenyPermission { .. }) => 105,
            Action::Session(SessionAction::StartSession { .. }) => 106,
            Action::Session(SessionAction::DiscoverSessions { .. }) => 107,
            Action::Session(SessionAction::AdoptSession { .. }) => 108,
            Action::Session(SessionAction::AttachSession { .. }) => 109,
            Action::Session(SessionAction::ReattachSession { .. }) => 110,
            Action::Session(SessionAction::DetachSession { .. }) => 111,
            Action::Session(SessionAction::EndSession { .. }) => 112,
            Action::Session(SessionAction::SendMessage { .. }) => 113,
            Action::Session(SessionAction::InterruptSession { .. }) => 114,
            Action::Session(SessionAction::SteerSession { .. }) => 115,
            Action::Session(SessionAction::ResumeSession { .. }) => 116,
            Action::Session(SessionAction::AbortTurn { .. }) => 117,
            Action::Session(SessionAction::TurnBegan { .. }) => 118,
            Action::Session(SessionAction::TurnEnded { .. }) => 119,
            Action::Session(SessionAction::SessionProse { .. }) => 120,
            Action::Session(SessionAction::ToolCallStarted { .. }) => 121,
            Action::Session(SessionAction::ToolCallProgress { .. }) => 122,
            Action::Session(SessionAction::ToolCallCompleted { .. }) => 123,
            Action::Session(SessionAction::SessionSeam { .. }) => 124,
            Action::Watch(WatchAction::PlaceWatch { .. }) => 125,
            Action::Watch(WatchAction::RemoveWatch { .. }) => 126,
            Action::Watch(WatchAction::SetWatchVisible { .. }) => 127,
            Action::Watch(WatchAction::PushWatchValues { .. }) => 128,
            Action::Watch(WatchAction::ClearWatchValues { .. }) => 129,
            Action::Lsp(LspAction::RequestCompletion { .. }) => 130,
            Action::Lsp(LspAction::MoveCompletion { .. }) => 131,
            Action::Lsp(LspAction::AcceptCompletion { .. }) => 132,
            Action::Lsp(LspAction::CancelCompletion { .. }) => 133,
            Action::Lsp(LspAction::RequestHover { .. }) => 134,
            Action::Lsp(LspAction::RequestSignatureHelp { .. }) => 135,
            Action::Lsp(LspAction::RequestDefinition { .. }) => 136,
            Action::Lsp(LspAction::RequestReferences { .. }) => 137,
            Action::Lsp(LspAction::IngestCompletions { .. }) => 138,
            Action::Lsp(LspAction::IngestSignatureHelp { .. }) => 139,
            Action::Lsp(LspAction::IngestHover { .. }) => 140,
            Action::Lsp(LspAction::IngestDiagnostics { .. }) => 141,
            Action::Lsp(LspAction::ApplyWorkspaceEdit { .. }) => 142,
            Action::Lsp(LspAction::RestartLanguageServer { .. }) => 143,
            Action::Vcs(VcsAction::RefreshVcs { .. }) => 144,
            Action::Vcs(VcsAction::OpenTimeline { .. }) => 145,
            Action::Vcs(VcsAction::ShowChangeDiff { .. }) => 146,
            Action::Vcs(VcsAction::OpenOperationLog { .. }) => 147,
            Action::Vcs(VcsAction::EditAtChange { .. }) => 148,
            Action::Vcs(VcsAction::RestoreChange { .. }) => 149,
            Action::Runtime(RuntimeAction::Eval { .. }) => 150,
            Action::Runtime(RuntimeAction::LoadRuntimeFile { .. }) => 151,
            Action::Runtime(RuntimeAction::ReloadRuntime { .. }) => 152,
            Action::Runtime(RuntimeAction::OpenRepl { .. }) => 153,
            Action::Runtime(RuntimeAction::CloseRepl { .. }) => 154,
            Action::Runtime(RuntimeAction::ReplHistory { .. }) => 155,
            Action::Runtime(RuntimeAction::ReplToBuffer { .. }) => 156,
            Action::Runtime(RuntimeAction::PersistForm { .. }) => 157,
            Action::Runtime(RuntimeAction::SetKeybinding { .. }) => 158,
            Action::Runtime(RuntimeAction::RemoveKeybinding { .. }) => 159,
            Action::Runtime(RuntimeAction::DefineLanguage { .. }) => 160,
            Action::Runtime(RuntimeAction::SetOption { .. }) => 161,
            Action::Runtime(RuntimeAction::SetTheme { .. }) => 162,
            Action::Runtime(RuntimeAction::ReloadTheme { .. }) => 163,
            Action::App(AppAction::Quit { .. }) => 164,
            Action::App(AppAction::ShowUnknownKeyHint { .. }) => 165,
            Action::App(AppAction::OpenHelp { .. }) => 166,
            Action::App(AppAction::OpenArch { .. }) => 167,
            Action::App(AppAction::OpenDashboard { .. }) => 168,
            Action::App(AppAction::DismissDashboardHint { .. }) => 169,
        }
    }

    /// This Action's door name.
    pub fn name(&self) -> (r: &'static str)
        ensures
            r@ == spec_action_name(*self),
    {
        match self {
            Action::Buffer(BufferAction::Insert { .. }) => "insert",
            Action::Buffer(BufferAction::Delete { .. }) => "delete",
            Action::Buffer(BufferAction::Replace { .. }) => "replace",
            Action::Buffer(BufferAction::ApplyEdits { .. }) => "apply-edits",
            Action::Buffer(BufferAction::Yank { .. }) => "yank",
            Action::Buffer(BufferAction::Paste { .. }) => "paste",
            Action::Buffer(BufferAction::SetRegister { .. }) => "set-register",
            Action::Buffer(BufferAction::Indent { .. }) => "indent",
            Action::Buffer(BufferAction::InsertIndent { .. }) => "insert-indent",
            Action::Buffer(BufferAction::JoinLines { .. }) => "join-lines",
            Action::Buffer(BufferAction::SetCase { .. }) => "set-case",
            Action::Buffer(BufferAction::ToggleComment { .. }) => "toggle-comment",
            Action::Buffer(BufferAction::AlignColumns { .. }) => "align-columns",
            Action::Motion(MotionAction::MoveCursor { .. }) => "move-cursor",
            Action::Motion(MotionAction::SetCursor { .. }) => "set-cursor",
            Action::Motion(MotionAction::SelectRange { .. }) => "select-range",
            Action::Motion(MotionAction::SelectObject { .. }) => "select-object",
            Action::Motion(MotionAction::ExtendSelection { .. }) => "extend-selection",
            Action::Motion(MotionAction::ClearSelection { .. }) => "clear-selection",
            Action::Motion(MotionAction::GotoSequence { .. }) => "goto-sequence",
            Action::Motion(MotionAction::GotoLocation { .. }) => "goto-location",
            Action::Motion(MotionAction::GotoAnchor { .. }) => "goto-anchor",
            Action::Motion(MotionAction::Jump { .. }) => "jump",
            Action::View(ViewAction::Scroll { .. }) => "scroll",
            Action::View(ViewAction::SetSoftWrap { .. }) => "set-soft-wrap",
            Action::View(ViewAction::SetFold { .. }) => "set-fold",
            Action::View(ViewAction::FoldAll { .. }) => "fold-all",
            Action::View(ViewAction::UnfoldAll { .. }) => "unfold-all",
            Action::View(ViewAction::SetVirtualTextVisible { .. }) => "set-virtual-text-visible",
            Action::Input(InputAction::SetMode { .. }) => "set-mode",
            Action::Input(InputAction::SetCount { .. }) => "set-count",
            Action::Input(InputAction::SelectRegister { .. }) => "select-register",
            Action::Input(InputAction::CancelPending { .. }) => "cancel-pending",
            Action::Input(InputAction::FeedKeys { .. }) => "feed-keys",
            Action::Input(InputAction::RepeatLast { .. }) => "repeat-last",
            Action::Input(InputAction::SetMacroRecording { .. }) => "set-macro-recording",
            Action::History(HistoryAction::Undo { .. }) => "undo",
            Action::History(HistoryAction::Redo { .. }) => "redo",
            Action::History(HistoryAction::UndoToCheckpoint { .. }) => "undo-to-checkpoint",
            Action::History(HistoryAction::CommitUndoGroup { .. }) => "commit-undo-group",
            Action::History(HistoryAction::CompactHistory { .. }) => "compact-history",
            Action::File(FileAction::OpenFile { .. }) => "open-file",
            Action::File(FileAction::OpenAlternate { .. }) => "open-alternate",
            Action::File(FileAction::SaveBuffer { .. }) => "save-buffer",
            Action::File(FileAction::SaveAll { .. }) => "save-all",
            Action::File(FileAction::CloseBuffer { .. }) => "close-buffer",
            Action::File(FileAction::ReloadFromDisk { .. }) => "reload-from-disk",
            Action::File(FileAction::NoteDiskChange { .. }) => "note-disk-change",
            Action::File(FileAction::OpenDiskDiff { .. }) => "open-disk-diff",
            Action::File(FileAction::ResolveDiskDiff { .. }) => "resolve-disk-diff",
            Action::File(FileAction::SetFileWatch { .. }) => "set-file-watch",
            Action::Float(FloatAction::OpenFloat { .. }) => "open-float",
            Action::Float(FloatAction::CloseFloat { .. }) => "close-float",
            Action::Float(FloatAction::CloseAllFloats { .. }) => "close-all-floats",
            Action::Float(FloatAction::DefineFloatSurface { .. }) => "define-float-surface",
            Action::Float(FloatAction::FloatSelect { .. }) => "float-select",
            Action::Float(FloatAction::FloatSelectRow { .. }) => "float-select-row",
            Action::Float(FloatAction::FloatAccept { .. }) => "float-accept",
            Action::Float(FloatAction::FloatAnswer { .. }) => "float-answer",
            Action::Float(FloatAction::FloatToggleFold { .. }) => "float-toggle-fold",
            Action::Pane(PaneAction::SplitPane { .. }) => "split-pane",
            Action::Pane(PaneAction::FocusPane { .. }) => "focus-pane",
            Action::Pane(PaneAction::ClosePane { .. }) => "close-pane",
            Action::Pane(PaneAction::ResizePane { .. }) => "resize-pane",
            Action::Pane(PaneAction::SetPaneContent { .. }) => "set-pane-content",
            Action::Pane(PaneAction::CreatePaneFromView { .. }) => "create-pane-from-view",
            Action::Picker(PickerAction::OpenPicker { .. }) => "open-picker",
            Action::Picker(PickerAction::SetPickerQuery { .. }) => "set-picker-query",
            Action::Picker(PickerAction::CyclePickerSource { .. }) => "cycle-picker-source",
            Action::Picker(PickerAction::PickerAccept { .. }) => "picker-accept",
            Action::Picker(PickerAction::TogglePickerPreview { .. }) => "toggle-picker-preview",
            Action::Picker(PickerAction::DefinePickerSource { .. }) => "define-picker-source",
            Action::Picker(PickerAction::InvalidatePickerSource { .. }) => "invalidate-picker-source",
            Action::Prompt(PromptAction::OpenPrompt { .. }) => "open-prompt",
            Action::Prompt(PromptAction::SetPromptText { .. }) => "set-prompt-text",
            Action::Prompt(PromptAction::SubmitPrompt { .. }) => "submit-prompt",
            Action::Prompt(PromptAction::CancelPrompt { .. }) => "cancel-prompt",
            Action::Prompt(PromptAction::PromptHistory { .. }) => "prompt-history",
            Action::Region(RegionAction::MarkSeen { .. }) => "mark-seen",
            Action::Region(RegionAction::MarkUnseen { .. }) => "mark-unseen",
            Action::Region(RegionAction::DeclareRegions { .. }) => "declare-regions",
            Action::Region(RegionAction::PlaceAnchor { .. }) => "place-anchor",
            Action::Region(RegionAction::Reanchor { .. }) => "reanchor",
            Action::Region(RegionAction::DropRegions { .. }) => "drop-regions",
            Action::Thread(ThreadAction::StartThread { .. }) => "start-thread",
            Action::Thread(ThreadAction::ReplyToThread { .. }) => "reply-to-thread",
            Action::Thread(ThreadAction::ResolveThread { .. }) => "resolve-thread",
            Action::Thread(ThreadAction::DeleteThread { .. }) => "delete-thread",
            Action::Thread(ThreadAction::BroadcastThread { .. }) => "broadcast-thread",
            Action::Review(ReviewAction::DeclareReviewBlock { .. }) => "declare-review-block",
            Action::Review(ReviewAction::OpenReviewBlock { .. }) => "open-review-block",
            Action::Review(ReviewAction::SetDiffMode { .. }) => "set-diff-mode",
            Action::Review(ReviewAction::ExpandDiffContext { .. }) => "expand-diff-context",
            Action::Review(ReviewAction::SetDiffGrouping { .. }) => "set-diff-grouping",
            Action::Review(ReviewAction::AnnotateGroup { .. }) => "annotate-group",
            Action::Review(ReviewAction::RevertHunk { .. }) => "revert-hunk",
            Action::Review(ReviewAction::OpenHunkPeek { .. }) => "open-hunk-peek",
            Action::Inbox(InboxAction::OpenInbox { .. }) => "open-inbox",
            Action::Inbox(InboxAction::OpenInboxItem { .. }) => "open-inbox-item",
            Action::Inbox(InboxAction::Notify { .. }) => "notify",
            Action::Ask(AskAction::EnqueueAsk { .. }) => "enqueue-ask",
            Action::Ask(AskAction::AnswerAsk { .. }) => "answer-ask",
            Action::Ask(AskAction::DeferAsk { .. }) => "defer-ask",
            Action::Ask(AskAction::RequestPermission { .. }) => "request-permission",
            Action::Ask(AskAction::GrantPermission { .. }) => "grant-permission",
            Action::Ask(AskAction::DenyPermission { .. }) => "deny-permission",
            Action::Session(SessionAction::StartSession { .. }) => "start-session",
            Action::Session(SessionAction::DiscoverSessions { .. }) => "discover-sessions",
            Action::Session(SessionAction::AdoptSession { .. }) => "adopt-session",
            Action::Session(SessionAction::AttachSession { .. }) => "attach-session",
            Action::Session(SessionAction::ReattachSession { .. }) => "reattach-session",
            Action::Session(SessionAction::DetachSession { .. }) => "detach-session",
            Action::Session(SessionAction::EndSession { .. }) => "end-session",
            Action::Session(SessionAction::SendMessage { .. }) => "send-message",
            Action::Session(SessionAction::InterruptSession { .. }) => "interrupt-session",
            Action::Session(SessionAction::SteerSession { .. }) => "steer-session",
            Action::Session(SessionAction::ResumeSession { .. }) => "resume-session",
            Action::Session(SessionAction::AbortTurn { .. }) => "abort-turn",
            Action::Session(SessionAction::TurnBegan { .. }) => "turn-began",
            Action::Session(SessionAction::TurnEnded { .. }) => "turn-ended",
            Action::Session(SessionAction::SessionProse { .. }) => "session-prose",
            Action::Session(SessionAction::ToolCallStarted { .. }) => "tool-call-started",
            Action::Session(SessionAction::ToolCallProgress { .. }) => "tool-call-progress",
            Action::Session(SessionAction::ToolCallCompleted { .. }) => "tool-call-completed",
            Action::Session(SessionAction::SessionSeam { .. }) => "session-seam",
            Action::Watch(WatchAction::PlaceWatch { .. }) => "place-watch",
            Action::Watch(WatchAction::RemoveWatch { .. }) => "remove-watch",
            Action::Watch(WatchAction::SetWatchVisible { .. }) => "set-watch-visible",
            Action::Watch(WatchAction::PushWatchValues { .. }) => "push-watch-values",
            Action::Watch(WatchAction::ClearWatchValues { .. }) => "clear-watch-values",
            Action::Lsp(LspAction::RequestCompletion { .. }) => "request-completion",
            Action::Lsp(LspAction::MoveCompletion { .. }) => "move-completion",
            Action::Lsp(LspAction::AcceptCompletion { .. }) => "accept-completion",
            Action::Lsp(LspAction::CancelCompletion { .. }) => "cancel-completion",
            Action::Lsp(LspAction::RequestHover { .. }) => "request-hover",
            Action::Lsp(LspAction::RequestSignatureHelp { .. }) => "request-signature-help",
            Action::Lsp(LspAction::RequestDefinition { .. }) => "request-definition",
            Action::Lsp(LspAction::RequestReferences { .. }) => "request-references",
            Action::Lsp(LspAction::IngestCompletions { .. }) => "ingest-completions",
            Action::Lsp(LspAction::IngestSignatureHelp { .. }) => "ingest-signature-help",
            Action::Lsp(LspAction::IngestHover { .. }) => "ingest-hover",
            Action::Lsp(LspAction::IngestDiagnostics { .. }) => "ingest-diagnostics",
            Action::Lsp(LspAction::ApplyWorkspaceEdit { .. }) => "apply-workspace-edit",
            Action::Lsp(LspAction::RestartLanguageServer { .. }) => "restart-language-server",
            Action::Vcs(VcsAction::RefreshVcs { .. }) => "refresh-vcs",
            Action::Vcs(VcsAction::OpenTimeline { .. }) => "open-timeline",
            Action::Vcs(VcsAction::ShowChangeDiff { .. }) => "show-change-diff",
            Action::Vcs(VcsAction::OpenOperationLog { .. }) => "open-operation-log",
            Action::Vcs(VcsAction::EditAtChange { .. }) => "edit-at-change",
            Action::Vcs(VcsAction::RestoreChange { .. }) => "restore-change",
            Action::Runtime(RuntimeAction::Eval { .. }) => "eval",
            Action::Runtime(RuntimeAction::LoadRuntimeFile { .. }) => "load-runtime-file",
            Action::Runtime(RuntimeAction::ReloadRuntime { .. }) => "reload-runtime",
            Action::Runtime(RuntimeAction::OpenRepl { .. }) => "open-repl",
            Action::Runtime(RuntimeAction::CloseRepl { .. }) => "close-repl",
            Action::Runtime(RuntimeAction::ReplHistory { .. }) => "repl-history",
            Action::Runtime(RuntimeAction::ReplToBuffer { .. }) => "repl-to-buffer",
            Action::Runtime(RuntimeAction::PersistForm { .. }) => "persist-form",
            Action::Runtime(RuntimeAction::SetKeybinding { .. }) => "set-keybinding",
            Action::Runtime(RuntimeAction::RemoveKeybinding { .. }) => "remove-keybinding",
            Action::Runtime(RuntimeAction::DefineLanguage { .. }) => "define-language",
            Action::Runtime(RuntimeAction::SetOption { .. }) => "set-option",
            Action::Runtime(RuntimeAction::SetTheme { .. }) => "set-theme",
            Action::Runtime(RuntimeAction::ReloadTheme { .. }) => "reload-theme",
            Action::App(AppAction::Quit { .. }) => "quit",
            Action::App(AppAction::ShowUnknownKeyHint { .. }) => "show-unknown-key-hint",
            Action::App(AppAction::OpenHelp { .. }) => "open-help",
            Action::App(AppAction::OpenArch { .. }) => "open-arch",
            Action::App(AppAction::OpenDashboard { .. }) => "open-dashboard",
            Action::App(AppAction::DismissDashboardHint { .. }) => "dismiss-dashboard-hint",
        }
    }

    /// The domain this Action belongs to.
    pub fn domain(&self) -> (r: &'static str)
        ensures
            r@ == spec_action_domain(*self),
    {
        match self {
            Action::Buffer(_) => "buffer",
            Action::Motion(_) => "motion",
            Action::View(_) => "view",
            Action::Input(_) => "input",
            Action::History(_) => "history",
            Action::File(_) => "file",
            Action::Float(_) => "float",
            Action::Pane(_) => "pane",
            Action::Picker(_) => "picker",
            Action::Prompt(_) => "prompt",
            Action::Region(_) => "region",
            Action::Thread(_) => "thread",
            Action::Review(_) => "review",
            Action::Inbox(_) => "inbox",
            Action::Ask(_) => "ask",
            Action::Session(_) => "session",
            Action::Watch(_) => "watch",
            Action::Lsp(_) => "lsp",
            Action::Vcs(_) => "vcs",
            Action::Runtime(_) => "runtime",
            Action::App(_) => "app",
        }
    }

    /// This Action's registry row.
    pub fn spec(&self) -> (r: ActionSpec)
        ensures
            r.name@ == spec_action_name(*self),
            r.domain@ == spec_action_domain(*self),
            r.since.phase == spec_row_phase(spec_action_index(*self)),
            r.since.task@ == spec_row_task(spec_action_index(*self)),
            r.mcp == spec_row_mcp(spec_action_index(*self)),
    {
        proof {
            lemma_every_action_has_its_row(*self);
        }
        row(self.index())
    }
}

/// Every Action variant is declared in exactly the row that carries its
/// door name and domain.
pub proof fn lemma_every_action_has_its_row(a: Action)
    ensures
        spec_row_name(spec_action_index(a)) == spec_action_name(a),
        spec_row_domain(spec_action_index(a)) == spec_action_domain(a),
        spec_action_index(a) < spec_action_count(),
{
    match a {
        Action::Buffer(x) => match x {
            BufferAction::Insert { .. } => {},
            BufferAction::Delete { .. } => {},
            BufferAction::Replace { .. } => {},
            BufferAction::ApplyEdits { .. } => {},
            BufferAction::Yank { .. } => {},
            BufferAction::Paste { .. } => {},
            BufferAction::SetRegister { .. } => {},
            BufferAction::Indent { .. } => {},
            BufferAction::InsertIndent { .. } => {},
            BufferAction::JoinLines { .. } => {},
            BufferAction::SetCase { .. } => {},
            BufferAction::ToggleComment { .. } => {},
            BufferAction::AlignColumns { .. } => {},
        },
        Action::Motion(x) => match x {
            MotionAction::MoveCursor { .. } => {},
            MotionAction::SetCursor { .. } => {},
            MotionAction::SelectRange { .. } => {},
            MotionAction::SelectObject { .. } => {},
            MotionAction::ExtendSelection { .. } => {},
            MotionAction::ClearSelection { .. } => {},
            MotionAction::GotoSequence { .. } => {},
            MotionAction::GotoLocation { .. } => {},
            MotionAction::GotoAnchor { .. } => {},
            MotionAction::Jump { .. } => {},
        },
        Action::View(x) => match x {
            ViewAction::Scroll { .. } => {},
            ViewAction::SetSoftWrap { .. } => {},
            ViewAction::SetFold { .. } => {},
            ViewAction::FoldAll { .. } => {},
            ViewAction::UnfoldAll { .. } => {},
            ViewAction::SetVirtualTextVisible { .. } => {},
        },
        Action::Input(x) => match x {
            InputAction::SetMode { .. } => {},
            InputAction::SetCount { .. } => {},
            InputAction::SelectRegister { .. } => {},
            InputAction::CancelPending { .. } => {},
            InputAction::FeedKeys { .. } => {},
            InputAction::RepeatLast { .. } => {},
            InputAction::SetMacroRecording { .. } => {},
        },
        Action::History(x) => match x {
            HistoryAction::Undo { .. } => {},
            HistoryAction::Redo { .. } => {},
            HistoryAction::UndoToCheckpoint { .. } => {},
            HistoryAction::CommitUndoGroup { .. } => {},
            HistoryAction::CompactHistory { .. } => {},
        },
        Action::File(x) => match x {
            FileAction::OpenFile { .. } => {},
            FileAction::OpenAlternate { .. } => {},
            FileAction::SaveBuffer { .. } => {},
            FileAction::SaveAll { .. } => {},
            FileAction::CloseBuffer { .. } => {},
            FileAction::ReloadFromDisk { .. } => {},
            FileAction::NoteDiskChange { .. } => {},
            FileAction::OpenDiskDiff { .. } => {},
            FileAction::ResolveDiskDiff { .. } => {},
            FileAction::SetFileWatch { .. } => {},
        },
        Action::Float(x) => match x {
            FloatAction::OpenFloat { .. } => {},
            FloatAction::CloseFloat { .. } => {},
            FloatAction::CloseAllFloats { .. } => {},
            FloatAction::DefineFloatSurface { .. } => {},
            FloatAction::FloatSelect { .. } => {},
            FloatAction::FloatSelectRow { .. } => {},
            FloatAction::FloatAccept { .. } => {},
            FloatAction::FloatAnswer { .. } => {},
            FloatAction::FloatToggleFold { .. } => {},
        },
        Action::Pane(x) => match x {
            PaneAction::SplitPane { .. } => {},
            PaneAction::FocusPane { .. } => {},
            PaneAction::ClosePane { .. } => {},
            PaneAction::ResizePane { .. } => {},
            PaneAction::SetPaneContent { .. } => {},
            PaneAction::CreatePaneFromView { .. } => {},
        },
        Action::Picker(x) => match x {
            PickerAction::OpenPicker { .. } => {},
            PickerAction::SetPickerQuery { .. } => {},
            PickerAction::CyclePickerSource { .. } => {},
            PickerAction::PickerAccept { .. } => {},
            PickerAction::TogglePickerPreview { .. } => {},
            PickerAction::DefinePickerSource { .. } => {},
            PickerAction::InvalidatePickerSource { .. } => {},
        },
        Action::Prompt(x) => match x {
            PromptAction::OpenPrompt { .. } => {},
            PromptAction::SetPromptText { .. } => {},
            PromptAction::SubmitPrompt { .. } => {},
            PromptAction::CancelPrompt { .. } => {},
            PromptAction::PromptHistory { .. } => {},
        },
        Action::Region(x) => match x {
            RegionAction::MarkSeen { .. } => {},
            RegionAction::MarkUnseen { .. } => {},
            RegionAction::DeclareRegions { .. } => {},
            RegionAction::PlaceAnchor { .. } => {},
            RegionAction::Reanchor { .. } => {},
            RegionAction::DropRegions { .. } => {},
        },
        Action::Thread(x) => match x {
            ThreadAction::StartThread { .. } => {},
            ThreadAction::ReplyToThread { .. } => {},
            ThreadAction::ResolveThread { .. } => {},
            ThreadAction::DeleteThread { .. } => {},
            ThreadAction::BroadcastThread { .. } => {},
        },
        Action::Review(x) => match x {
            ReviewAction::DeclareReviewBlock { .. } => {},
            ReviewAction::OpenReviewBlock { .. } => {},
            ReviewAction::SetDiffMode { .. } => {},
            ReviewAction::ExpandDiffContext { .. } => {},
            ReviewAction::SetDiffGrouping { .. } => {},
            ReviewAction::AnnotateGroup { .. } => {},
            ReviewAction::RevertHunk { .. } => {},
            ReviewAction::OpenHunkPeek { .. } => {},
        },
        Action::Inbox(x) => match x {
            InboxAction::OpenInbox { .. } => {},
            InboxAction::OpenInboxItem { .. } => {},
            InboxAction::Notify { .. } => {},
        },
        Action::Ask(x) => match x {
            AskAction::EnqueueAsk { .. } => {},
            AskAction::AnswerAsk { .. } => {},
            AskAction::DeferAsk { .. } => {},
            AskAction::RequestPermission { .. } => {},
            AskAction::GrantPermission { .. } => {},
            AskAction::DenyPermission { .. } => {},
        },
        Action::Session(x) => match x {
            SessionAction::StartSession { .. } => {},
            SessionAction::DiscoverSessions { .. } => {},
            SessionAction::AdoptSession { .. } => {},
            SessionAction::AttachSession { .. } => {},
            SessionAction::ReattachSession { .. } => {},
            SessionAction::DetachSession { .. } => {},
            SessionAction::EndSession { .. } => {},
            SessionAction::SendMessage { .. } => {},
            SessionAction::InterruptSession { .. } => {},
            SessionAction::SteerSession { .. } => {},
            SessionAction::ResumeSession { .. } => {},
            SessionAction::AbortTurn { .. } => {},
            SessionAction::TurnBegan { .. } => {},
            SessionAction::TurnEnded { .. } => {},
            SessionAction::SessionProse { .. } => {},
            SessionAction::ToolCallStarted { .. } => {},
            SessionAction::ToolCallProgress { .. } => {},
            SessionAction::ToolCallCompleted { .. } => {},
            SessionAction::SessionSeam { .. } => {},
        },
        Action::Watch(x) => match x {
            WatchAction::PlaceWatch { .. } => {},
            WatchAction::RemoveWatch { .. } => {},
            WatchAction::SetWatchVisible { .. } => {},
            WatchAction::PushWatchValues { .. } => {},
            WatchAction::ClearWatchValues { .. } => {},
        },
        Action::Lsp(x) => match x {
            LspAction::RequestCompletion { .. } => {},
            LspAction::MoveCompletion { .. } => {},
            LspAction::AcceptCompletion { .. } => {},
            LspAction::CancelCompletion { .. } => {},
            LspAction::RequestHover { .. } => {},
            LspAction::RequestSignatureHelp { .. } => {},
            LspAction::RequestDefinition { .. } => {},
            LspAction::RequestReferences { .. } => {},
            LspAction::IngestCompletions { .. } => {},
            LspAction::IngestSignatureHelp { .. } => {},
            LspAction::IngestHover { .. } => {},
            LspAction::IngestDiagnostics { .. } => {},
            LspAction::ApplyWorkspaceEdit { .. } => {},
            LspAction::RestartLanguageServer { .. } => {},
        },
        Action::Vcs(x) => match x {
            VcsAction::RefreshVcs { .. } => {},
            VcsAction::OpenTimeline { .. } => {},
            VcsAction::ShowChangeDiff { .. } => {},
            VcsAction::OpenOperationLog { .. } => {},
            VcsAction::EditAtChange { .. } => {},
            VcsAction::RestoreChange { .. } => {},
        },
        Action::Runtime(x) => match x {
            RuntimeAction::Eval { .. } => {},
            RuntimeAction::LoadRuntimeFile { .. } => {},
            RuntimeAction::ReloadRuntime { .. } => {},
            RuntimeAction::OpenRepl { .. } => {},
            RuntimeAction::CloseRepl { .. } => {},
            RuntimeAction::ReplHistory { .. } => {},
            RuntimeAction::ReplToBuffer { .. } => {},
            RuntimeAction::PersistForm { .. } => {},
            RuntimeAction::SetKeybinding { .. } => {},
            RuntimeAction::RemoveKeybinding { .. } => {},
            RuntimeAction::DefineLanguage { .. } => {},
            RuntimeAction::SetOption { .. } => {},
            RuntimeAction::SetTheme { .. } => {},
            RuntimeAction::ReloadTheme { .. } => {},
        },
        Action::App(x) => match x {
            AppAction::Quit { .. } => {},
            AppAction::ShowUnknownKeyHint { .. } => {},
            AppAction::OpenHelp { .. } => {},
            AppAction::OpenArch { .. } => {},
            AppAction::OpenDashboard { .. } => {},
            AppAction::DismissDashboardHint { .. } => {},
        },
    }
}

/// Whether an Action's row declares the MCP door's default as `Deny`.
pub open spec fn spec_denied_over_mcp(a: Action) -> bool {
    spec_row_mcp(spec_action_index(a)) == McpPolicy::Deny
}

impl Action {
    /// Whether this Action can type into the user's editor: anything in the
    /// input domain, and evaluating scheme source. These are the ones no
    /// agent door may carry by default.
    pub fn feeds_the_keyboard(&self) -> (r: bool)
        ensures
            r == (self is Input || (*self matches Action::Runtime(RuntimeAction::Eval { .. }))),
    {
        match self {
            Action::Input(_) => true,
            Action::Runtime(RuntimeAction::Eval { .. }) => true,
            _ => false,
        }
    }

    /// The canonical door name for `name`: an alias resolves to the name it
    /// stands for, and anything else is itself.
    pub fn canonical_name<'a>(name: &'a str) -> (r: &'a str)
        ensures
            r@ == (if name@ == "watch-place"@ { "place-watch"@ } else { name@ }),
    {
        if str_eq(name, "watch-place") {
            "place-watch"
        } else {
            name
        }
    }
}

/// A second spelling of a capability that a design drew before the naming
/// rule settled.
#[derive(Debug, Clone, Copy, PartialEq, Eq)]
pub struct Alias {
    /// The drawn spelling.
    pub alias: &'static str,
    /// The registered name it resolves to.
    pub canonical: &'static str,
    /// Why it exists.
    pub reason: &'static str,
}

/// Every alias.
pub fn aliases() -> (r: Vec<Alias>)
    ensures
        r.len() == 1,
        r[0].alias@ == "watch-place"@,
        r[0].canonical@ == "place-watch"@,
{
    vec![
        Alias {
            alias: "watch-place",
            canonical: "place-watch",
            reason: "the design draws `(watch-place \"src/retry.rs:24\" 'delay)`: mutating, no bang, and noun-first against the rest of the vocabulary; aliased until the drawing follows the naming rule",
        },
    ]
}

/// One Action with the facts the dispatcher needs about where it came from.
#[derive(Debug, Clone, PartialEq, Eq)]
pub struct Request {
    /// Who asked.
    pub actor: Actor,
    /// Which door it came through.
    pub door: Door,
    /// What to do.
    pub action: Action,
}

impl Request {
    /// A request.
    pub fn new(actor: Actor, door: Door, action: Action) -> (r: Request)
        ensures
            r == (Request { actor, door, action }),
    {
        Request { actor, door, action }
    }
}

/// Requests applied as one undo group.
#[derive(Debug, Clone, Default, PartialEq, Eq)]
pub struct Batch {
    /// In order.
    pub requests: Vec<Request>,
    /// What the group is called in the history.
    pub label: Option<String>,
}

/// What happened to a request.
#[derive(Debug, Clone, PartialEq, Eq)]
pub enum Outcome {
    /// It ran.
    Done(Receipt),
    /// It was refused, with a reason a person can act on.
    Refused(Refusal),
    /// Scheme code it ran raised.
    Raised(Raised),
}

/// A scheme error, as the runtime reported it.
#[derive(Debug, Clone, PartialEq, Eq)]
pub struct Raised {
    /// The condition's kind, when it has one.
    pub kind: Option<&'static str>,
    /// The message.
    pub message: String,
}

impl Raised {
    /// `kind — message`, or the message alone.
    pub fn why(&self) -> (r: String)
        ensures
            r@ == match self.kind {
                Some(k) => k@ + " — "@ + self.message@,
                None => self.message@,
            },
    {
        match self.kind {
            Some(k) => {
                let mut out = String::from_str(k);
                push_str(&mut out, " — ");
                push_str(&mut out, self.message.as_str());
                out
            },
            None => self.message.clone(),
        }
    }
}

/// A request that ran.
#[derive(Debug, Clone, PartialEq, Eq)]
pub struct Receipt {
    /// Which capability ran.
    pub capability: &'static str,
    /// What it answered, if anything.
    pub value: Value,
    /// A note for the user.
    pub note: Option<String>,
}

impl Receipt {
    /// A plain success: nothing answered, nothing to say.
    pub fn ok(capability: &'static str) -> (r: Receipt)
        ensures
            r.capability == capability,
            r.value == Value::Null,
            r.note is None,
    {
        Receipt { capability, value: Value::Null, note: None }
    }
}

/// Why a request was refused.
#[derive(Debug, Clone, PartialEq, Eq)]
pub enum Refusal {
    /// Registered, not built yet.
    NotYetImplemented {
        /// The task that builds it.
        task: &'static str,
    },
    /// A focus-relative target over MCP: an agent has no cursor.
    FocusRelativeTargetOverMcp,
    /// The door's policy refuses this capability.
    DoorDenied {
        /// Which door.
        door: Door,
    },
    /// A version-control Action with no repository.
    NoRepository,
    /// The target is gone.
    NoSuchTarget,
    /// It would lose unsaved work.
    WouldLoseWork,
    /// The user said no.
    Declined {
        /// What they said.
        reason: String,
    },
}

/// What a refusal tells the person who was refused.
pub open spec fn spec_refusal_why(r: Refusal) -> Seq<char> {
    match r {
        Refusal::NotYetImplemented { task } => "not built yet — "@ + task@ + " builds it"@,
        Refusal::FocusRelativeTargetOverMcp => "an agent has no cursor — name the target"@,
        Refusal::DoorDenied { door } => "the "@ + spec_door_str(door) + " door refuses this — open it in init.scm"@,
        Refusal::NoRepository => "no repository here"@,
        Refusal::NoSuchTarget => "no such target — it was dropped or closed"@,
        Refusal::WouldLoseWork => "unsaved work — force it or save first"@,
        Refusal::Declined { reason } => reason@,
    }
}

impl Refusal {
    /// One line for the person refused.
    pub fn why(&self) -> (r: String)
        ensures
            r@ == spec_refusal_why(*self),
    {
        match self {
            Refusal::NotYetImplemented { task } => {
                let mut out = String::from_str("not built yet — ");
                push_str(&mut out, *task);
                push_str(&mut out, " builds it");
                out
            },
            Refusal::FocusRelativeTargetOverMcp => String::from_str("an agent has no cursor — name the target"),
            Refusal::DoorDenied { door } => {
                let mut out = String::from_str("the ");
                push_str(&mut out, door.as_str());
                push_str(&mut out, " door refuses this — open it in init.scm");
                out
            },
            Refusal::NoRepository => String::from_str("no repository here"),
            Refusal::NoSuchTarget => String::from_str("no such target — it was dropped or closed"),
            Refusal::WouldLoseWork => String::from_str("unsaved work — force it or save first"),
            Refusal::Declined { reason } => reason.clone(),
        }
    }
}

/// Why a call did not decode to an Action.
#[derive(Debug, PartialEq, Eq)]
pub enum ActionError {
    /// No capability has that name.
    Unknown {
        /// The name that came.
        name: String,
    },
    /// An argument is missing or the wrong shape.
    Argument {
        /// The capability.
        name: &'static str,
        /// What is wrong.
        source: WireError,
    },
}



} // verus!