//! Actions and Queries as door-neutral calls: a capability's name and its
//! named arguments, each argument in its payload type's wire form.
//!
//! Every declared argument is written, an absent optional one as `Null`, so
//! decoding what was encoded gives the same call back. Decoding reads the
//! arguments by name: an absent optional argument is `None`, an absent
//! required one is missing, and a malformed one names the argument.

use vstd::prelude::*;

use crate::action::{AppAction, AskAction, BufferAction, FileAction, FloatAction, HistoryAction, InboxAction, InputAction, LspAction, MotionAction, PaneAction, PickerAction, PromptAction, RegionAction, ReviewAction, RuntimeAction, SessionAction, ThreadAction, VcsAction, ViewAction, WatchAction, Action, ActionError, spec_action_name};
use crate::query::{BufferQuery, InputQuery, RegionQuery, ReviewQuery, SessionQuery, UiQuery, VcsQuery, Query, QueryError, spec_query_name};
use crate::request::{AcceptHow, Actor, AnchorId, AskId, AskOption, Binding, BlockId, BufferId, CaseChange, ChangeId, CheckpointId, Completion, Diagnostic, DiffMode, Direction, DiskExit, Edit, EditMode, FileEdits, FileGroup, FoldState, GrantScope, GroupId, Grouping, HunkId, InboxId, KeySeq, LanguageId, LanguageSpec, Motion, PaneKind, PaneRef, Position, PromptKind, RegionFilter, RegionId, RegionSpec, RegisterName, ScrollRequest, SeamKind, Seek, SelectionKind, Sequence, Severity, Signature, SourceId, Span, SurfaceId, Target, TextObject, ThemeSlug, ThreadId, ToolCallId, TurnId, WatchId};
use crate::text_util::str_eq;
use crate::value::{
    error_view, field_unwire, named_view, with_fields, args_from, lemma_distinct_fields, names_distinct, Args, Call,
    Value, ValueV, Wire, WireError, WireErrorV,
};

verus! {

/// An [`ActionError`] or a [`QueryError`] by value.
pub enum CallErrorV {
    Unknown { name: Seq<char> },
    Argument { name: Seq<char>, source: WireErrorV },
    NotYetImplemented { task: Seq<char> },
}

/// An action error by value.
pub open spec fn action_error_view(e: ActionError) -> CallErrorV {
    match e {
        ActionError::Unknown { name } => CallErrorV::Unknown { name: name@ },
        ActionError::Argument { name, source } => CallErrorV::Argument { name: name@, source: error_view(source) },
    }
}

/// A query error by value.
pub open spec fn query_error_view(e: QueryError) -> CallErrorV {
    match e {
        QueryError::Unknown { name } => CallErrorV::Unknown { name: name@ },
        QueryError::Argument { name, source } => CallErrorV::Argument { name: name@, source: error_view(source) },
        QueryError::NotYetImplemented { task } => CallErrorV::NotYetImplemented { task: task@ },
    }
}

/// A call's arguments: these fields, set in order.
pub open spec fn args_of(fields: Seq<(Seq<char>, ValueV)>) -> Seq<(Seq<char>, ValueV)> {
    with_fields(Seq::empty(), fields)
}

/// The arguments a [`BufferAction`] is called with.
pub open spec fn buffer_action_args(x: BufferAction) -> Seq<(Seq<char>, ValueV)> {
    match x {
        BufferAction::Insert { at, text } => args_of(seq![("at"@, at.wire()), ("text"@, text.wire())]),
        BufferAction::Delete { span } => args_of(seq![("span"@, span.wire())]),
        BufferAction::Replace { span, text } => args_of(seq![("span"@, span.wire()), ("text"@, text.wire())]),
        BufferAction::ApplyEdits { edits } => args_of(seq![("edits"@, edits.wire())]),
        BufferAction::Yank { target, register } => args_of(seq![("target"@, target.wire()), ("register"@, register.wire())]),
        BufferAction::Paste { at, register, before } => args_of(seq![("at"@, at.wire()), ("register"@, register.wire()), ("before"@, before.wire())]),
        BufferAction::SetRegister { register, text } => args_of(seq![("register"@, register.wire()), ("text"@, text.wire())]),
        BufferAction::Indent { target, delta } => args_of(seq![("target"@, target.wire()), ("delta"@, delta.wire())]),
        BufferAction::InsertIndent {} => args_of(seq![]),
        BufferAction::JoinLines { target } => args_of(seq![("target"@, target.wire())]),
        BufferAction::SetCase { target, case } => args_of(seq![("target"@, target.wire()), ("case"@, case.wire())]),
        BufferAction::ToggleComment { target } => args_of(seq![("target"@, target.wire())]),
        BufferAction::AlignColumns { target } => args_of(seq![("target"@, target.wire())]),
    }
}

/// The arguments a [`MotionAction`] is called with.
pub open spec fn motion_action_args(x: MotionAction) -> Seq<(Seq<char>, ValueV)> {
    match x {
        MotionAction::MoveCursor { motion, count } => args_of(seq![("motion"@, motion.wire()), ("count"@, count.wire())]),
        MotionAction::SetCursor { position, buffer } => args_of(seq![("position"@, position.wire()), ("buffer"@, buffer.wire())]),
        MotionAction::SelectRange { span, kind } => args_of(seq![("span"@, span.wire()), ("kind"@, kind.wire())]),
        MotionAction::SelectObject { object, inner, count, delimiter } => args_of(seq![("object"@, object.wire()), ("inner"@, inner.wire()), ("count"@, count.wire()), ("delimiter"@, delimiter.wire())]),
        MotionAction::ExtendSelection { motion, count } => args_of(seq![("motion"@, motion.wire()), ("count"@, count.wire())]),
        MotionAction::ClearSelection {} => args_of(seq![]),
        MotionAction::GotoSequence { sequence, seek, filter } => args_of(seq![("sequence"@, sequence.wire()), ("seek"@, seek.wire()), ("filter"@, filter.wire())]),
        MotionAction::GotoLocation { path, position, pane } => args_of(seq![("path"@, path.wire()), ("position"@, position.wire()), ("pane"@, pane.wire())]),
        MotionAction::GotoAnchor { anchor, label, exact } => args_of(seq![("anchor"@, anchor.wire()), ("label"@, label.wire()), ("exact"@, exact.wire())]),
        MotionAction::Jump { seek } => args_of(seq![("seek"@, seek.wire())]),
    }
}

/// The arguments a [`ViewAction`] is called with.
pub open spec fn view_action_args(x: ViewAction) -> Seq<(Seq<char>, ValueV)> {
    match x {
        ViewAction::Scroll { request, pane } => args_of(seq![("request"@, request.wire()), ("pane"@, pane.wire())]),
        ViewAction::SetSoftWrap { target, on } => args_of(seq![("target"@, target.wire()), ("on"@, on.wire())]),
        ViewAction::SetFold { target, state } => args_of(seq![("target"@, target.wire()), ("state"@, state.wire())]),
        ViewAction::FoldAll { level } => args_of(seq![("level"@, level.wire())]),
        ViewAction::UnfoldAll {} => args_of(seq![]),
        ViewAction::SetVirtualTextVisible { owner, on } => args_of(seq![("owner"@, owner.wire()), ("on"@, on.wire())]),
    }
}

/// The arguments a [`InputAction`] is called with.
pub open spec fn input_action_args(x: InputAction) -> Seq<(Seq<char>, ValueV)> {
    match x {
        InputAction::SetMode { mode } => args_of(seq![("mode"@, mode.wire())]),
        InputAction::SetCount { count } => args_of(seq![("count"@, count.wire())]),
        InputAction::SelectRegister { register } => args_of(seq![("register"@, register.wire())]),
        InputAction::CancelPending {} => args_of(seq![]),
        InputAction::FeedKeys { keys } => args_of(seq![("keys"@, keys.wire())]),
        InputAction::RepeatLast { count } => args_of(seq![("count"@, count.wire())]),
        InputAction::SetMacroRecording { register, on } => args_of(seq![("register"@, register.wire()), ("on"@, on.wire())]),
    }
}

/// The arguments a [`HistoryAction`] is called with.
pub open spec fn history_action_args(x: HistoryAction) -> Seq<(Seq<char>, ValueV)> {
    match x {
        HistoryAction::Undo { count } => args_of(seq![("count"@, count.wire())]),
        HistoryAction::Redo { count } => args_of(seq![("count"@, count.wire())]),
        HistoryAction::UndoToCheckpoint { checkpoint } => args_of(seq![("checkpoint"@, checkpoint.wire())]),
        HistoryAction::CommitUndoGroup {} => args_of(seq![]),
        HistoryAction::CompactHistory { target } => args_of(seq![("target"@, target.wire())]),
    }
}

/// The arguments a [`FileAction`] is called with.
pub open spec fn file_action_args(x: FileAction) -> Seq<(Seq<char>, ValueV)> {
    match x {
        FileAction::OpenFile { path, at, pane } => args_of(seq![("path"@, path.wire()), ("at"@, at.wire()), ("pane"@, pane.wire())]),
        FileAction::OpenAlternate { pane } => args_of(seq![("pane"@, pane.wire())]),
        FileAction::SaveBuffer { target, path } => args_of(seq![("target"@, target.wire()), ("path"@, path.wire())]),
        FileAction::SaveAll {} => args_of(seq![]),
        FileAction::CloseBuffer { target, force } => args_of(seq![("target"@, target.wire()), ("force"@, force.wire())]),
        FileAction::ReloadFromDisk { target } => args_of(seq![("target"@, target.wire())]),
        FileAction::NoteDiskChange { path, changed_by } => args_of(seq![("path"@, path.wire()), ("changed_by"@, changed_by.wire())]),
        FileAction::OpenDiskDiff { target } => args_of(seq![("target"@, target.wire())]),
        FileAction::ResolveDiskDiff { target, exit } => args_of(seq![("target"@, target.wire()), ("exit"@, exit.wire())]),
        FileAction::SetFileWatch { path, on } => args_of(seq![("path"@, path.wire()), ("on"@, on.wire())]),
    }
}

/// The arguments a [`FloatAction`] is called with.
pub open spec fn float_action_args(x: FloatAction) -> Seq<(Seq<char>, ValueV)> {
    match x {
        FloatAction::OpenFloat { surface, args } => args_of(seq![("surface"@, surface.wire()), ("args"@, args.wire())]),
        FloatAction::CloseFloat {} => args_of(seq![]),
        FloatAction::CloseAllFloats {} => args_of(seq![]),
        FloatAction::DefineFloatSurface { surface, body } => args_of(seq![("surface"@, surface.wire()), ("body"@, body.wire())]),
        FloatAction::FloatSelect { delta } => args_of(seq![("delta"@, delta.wire())]),
        FloatAction::FloatSelectRow { row } => args_of(seq![("row"@, row.wire())]),
        FloatAction::FloatAccept {} => args_of(seq![]),
        FloatAction::FloatAnswer { digit } => args_of(seq![("digit"@, digit.wire())]),
        FloatAction::FloatToggleFold { row } => args_of(seq![("row"@, row.wire())]),
    }
}

/// The arguments a [`PaneAction`] is called with.
pub open spec fn pane_action_args(x: PaneAction) -> Seq<(Seq<char>, ValueV)> {
    match x {
        PaneAction::SplitPane { pane, direction, kind } => args_of(seq![("pane"@, pane.wire()), ("direction"@, direction.wire()), ("kind"@, kind.wire())]),
        PaneAction::FocusPane { pane } => args_of(seq![("pane"@, pane.wire())]),
        PaneAction::ClosePane { pane } => args_of(seq![("pane"@, pane.wire())]),
        PaneAction::ResizePane { pane, delta } => args_of(seq![("pane"@, pane.wire()), ("delta"@, delta.wire())]),
        PaneAction::SetPaneContent { pane, kind } => args_of(seq![("pane"@, pane.wire()), ("kind"@, kind.wire())]),
        PaneAction::CreatePaneFromView { pane, tree } => args_of(seq![("pane"@, pane.wire()), ("tree"@, tree.wire())]),
    }
}

/// The arguments a [`PickerAction`] is called with.
pub open spec fn picker_action_args(x: PickerAction) -> Seq<(Seq<char>, ValueV)> {
    match x {
        PickerAction::OpenPicker { source, query } => args_of(seq![("source"@, source.wire()), ("query"@, query.wire())]),
        PickerAction::SetPickerQuery { text } => args_of(seq![("text"@, text.wire())]),
        PickerAction::CyclePickerSource { delta } => args_of(seq![("delta"@, delta.wire())]),
        PickerAction::PickerAccept { how } => args_of(seq![("how"@, how.wire())]),
        PickerAction::TogglePickerPreview {} => args_of(seq![]),
        PickerAction::DefinePickerSource { source, body } => args_of(seq![("source"@, source.wire()), ("body"@, body.wire())]),
        PickerAction::InvalidatePickerSource { source } => args_of(seq![("source"@, source.wire())]),
    }
}

/// The arguments a [`PromptAction`] is called with.
pub open spec fn prompt_action_args(x: PromptAction) -> Seq<(Seq<char>, ValueV)> {
    match x {
        PromptAction::OpenPrompt { kind, seed, anchor } => args_of(seq![("kind"@, kind.wire()), ("seed"@, seed.wire()), ("anchor"@, anchor.wire())]),
        PromptAction::SetPromptText { text } => args_of(seq![("text"@, text.wire())]),
        PromptAction::SubmitPrompt {} => args_of(seq![]),
        PromptAction::CancelPrompt {} => args_of(seq![]),
        PromptAction::PromptHistory { delta } => args_of(seq![("delta"@, delta.wire())]),
    }
}

/// The arguments a [`RegionAction`] is called with.
pub open spec fn region_action_args(x: RegionAction) -> Seq<(Seq<char>, ValueV)> {
    match x {
        RegionAction::MarkSeen { target } => args_of(seq![("target"@, target.wire())]),
        RegionAction::MarkUnseen { target } => args_of(seq![("target"@, target.wire())]),
        RegionAction::DeclareRegions { regions } => args_of(seq![("regions"@, regions.wire())]),
        RegionAction::PlaceAnchor { at, label } => args_of(seq![("at"@, at.wire()), ("label"@, label.wire())]),
        RegionAction::Reanchor { path } => args_of(seq![("path"@, path.wire())]),
        RegionAction::DropRegions { target } => args_of(seq![("target"@, target.wire())]),
    }
}

/// The arguments a [`ThreadAction`] is called with.
pub open spec fn thread_action_args(x: ThreadAction) -> Seq<(Seq<char>, ValueV)> {
    match x {
        ThreadAction::StartThread { anchor, body } => args_of(seq![("anchor"@, anchor.wire()), ("body"@, body.wire())]),
        ThreadAction::ReplyToThread { thread, body } => args_of(seq![("thread"@, thread.wire()), ("body"@, body.wire())]),
        ThreadAction::ResolveThread { thread } => args_of(seq![("thread"@, thread.wire())]),
        ThreadAction::DeleteThread { thread } => args_of(seq![("thread"@, thread.wire())]),
        ThreadAction::BroadcastThread { pattern, body } => args_of(seq![("pattern"@, pattern.wire()), ("body"@, body.wire())]),
    }
}

/// The arguments a [`ReviewAction`] is called with.
pub open spec fn review_action_args(x: ReviewAction) -> Seq<(Seq<char>, ValueV)> {
    match x {
        ReviewAction::DeclareReviewBlock { title, files, annotation } => args_of(seq![("title"@, title.wire()), ("files"@, files.wire()), ("annotation"@, annotation.wire())]),
        ReviewAction::OpenReviewBlock { block } => args_of(seq![("block"@, block.wire())]),
        ReviewAction::SetDiffMode { mode } => args_of(seq![("mode"@, mode.wire())]),
        ReviewAction::ExpandDiffContext { hunk, lines } => args_of(seq![("hunk"@, hunk.wire()), ("lines"@, lines.wire())]),
        ReviewAction::SetDiffGrouping { grouping } => args_of(seq![("grouping"@, grouping.wire())]),
        ReviewAction::AnnotateGroup { group, text } => args_of(seq![("group"@, group.wire()), ("text"@, text.wire())]),
        ReviewAction::RevertHunk { hunk } => args_of(seq![("hunk"@, hunk.wire())]),
        ReviewAction::OpenHunkPeek { target } => args_of(seq![("target"@, target.wire())]),
    }
}

/// The arguments a [`InboxAction`] is called with.
pub open spec fn inbox_action_args(x: InboxAction) -> Seq<(Seq<char>, ValueV)> {
    match x {
        InboxAction::OpenInbox {} => args_of(seq![]),
        InboxAction::OpenInboxItem { item } => args_of(seq![("item"@, item.wire())]),
        InboxAction::Notify { severity, title, body, anchor } => args_of(seq![("severity"@, severity.wire()), ("title"@, title.wire()), ("body"@, body.wire()), ("anchor"@, anchor.wire())]),
    }
}

/// The arguments a [`AskAction`] is called with.
pub open spec fn ask_action_args(x: AskAction) -> Seq<(Seq<char>, ValueV)> {
    match x {
        AskAction::EnqueueAsk { prose, options } => args_of(seq![("prose"@, prose.wire()), ("options"@, options.wire())]),
        AskAction::AnswerAsk { ask, digit, prose } => args_of(seq![("ask"@, ask.wire()), ("digit"@, digit.wire()), ("prose"@, prose.wire())]),
        AskAction::DeferAsk { ask } => args_of(seq![("ask"@, ask.wire())]),
        AskAction::RequestPermission { invocation, files } => args_of(seq![("invocation"@, invocation.wire()), ("files"@, files.wire())]),
        AskAction::GrantPermission { ask, scope } => args_of(seq![("ask"@, ask.wire()), ("scope"@, scope.wire())]),
        AskAction::DenyPermission { ask } => args_of(seq![("ask"@, ask.wire())]),
    }
}

/// The arguments a [`SessionAction`] is called with.
pub open spec fn session_action_args(x: SessionAction) -> Seq<(Seq<char>, ValueV)> {
    match x {
        SessionAction::StartSession { agent, cwd } => args_of(seq![("agent"@, agent.wire()), ("cwd"@, cwd.wire())]),
        SessionAction::DiscoverSessions {} => args_of(seq![]),
        SessionAction::AdoptSession { handle } => args_of(seq![("handle"@, handle.wire())]),
        SessionAction::AttachSession { endpoint } => args_of(seq![("endpoint"@, endpoint.wire())]),
        SessionAction::ReattachSession {} => args_of(seq![]),
        SessionAction::DetachSession {} => args_of(seq![]),
        SessionAction::EndSession { force } => args_of(seq![("force"@, force.wire())]),
        SessionAction::SendMessage { body, anchors } => args_of(seq![("body"@, body.wire()), ("anchors"@, anchors.wire())]),
        SessionAction::InterruptSession {} => args_of(seq![]),
        SessionAction::SteerSession { body } => args_of(seq![("body"@, body.wire())]),
        SessionAction::ResumeSession {} => args_of(seq![]),
        SessionAction::AbortTurn {} => args_of(seq![]),
        SessionAction::TurnBegan { turn, prompt } => args_of(seq![("turn"@, turn.wire()), ("prompt"@, prompt.wire())]),
        SessionAction::TurnEnded { turn, summary } => args_of(seq![("turn"@, turn.wire()), ("summary"@, summary.wire())]),
        SessionAction::SessionProse { turn, chunk } => args_of(seq![("turn"@, turn.wire()), ("chunk"@, chunk.wire())]),
        SessionAction::ToolCallStarted { turn, call, verb, target, path, line } => args_of(seq![("turn"@, turn.wire()), ("call"@, call.wire()), ("verb"@, verb.wire()), ("target"@, target.wire()), ("path"@, path.wire()), ("line"@, line.wire())]),
        SessionAction::ToolCallProgress { call, note } => args_of(seq![("call"@, call.wire()), ("note"@, note.wire())]),
        SessionAction::ToolCallCompleted { call, summary, added, removed } => args_of(seq![("call"@, call.wire()), ("summary"@, summary.wire()), ("added"@, added.wire()), ("removed"@, removed.wire())]),
        SessionAction::SessionSeam { kind, note } => args_of(seq![("kind"@, kind.wire()), ("note"@, note.wire())]),
    }
}

/// The arguments a [`WatchAction`] is called with.
pub open spec fn watch_action_args(x: WatchAction) -> Seq<(Seq<char>, ValueV)> {
    match x {
        WatchAction::PlaceWatch { anchor, expr } => args_of(seq![("anchor"@, anchor.wire()), ("expr"@, expr.wire())]),
        WatchAction::RemoveWatch { watch } => args_of(seq![("watch"@, watch.wire())]),
        WatchAction::SetWatchVisible { watch, on } => args_of(seq![("watch"@, watch.wire()), ("on"@, on.wire())]),
        WatchAction::PushWatchValues { watch, values, provenance } => args_of(seq![("watch"@, watch.wire()), ("values"@, values.wire()), ("provenance"@, provenance.wire())]),
        WatchAction::ClearWatchValues { watch } => args_of(seq![("watch"@, watch.wire())]),
    }
}

/// The arguments a [`LspAction`] is called with.
pub open spec fn lsp_action_args(x: LspAction) -> Seq<(Seq<char>, ValueV)> {
    match x {
        LspAction::RequestCompletion {} => args_of(seq![]),
        LspAction::MoveCompletion { delta, otherwise } => args_of(seq![("delta"@, delta.wire()), ("otherwise"@, otherwise.wire())]),
        LspAction::AcceptCompletion { index, then, otherwise } => args_of(seq![("index"@, index.wire()), ("then"@, then.wire()), ("otherwise"@, otherwise.wire())]),
        LspAction::CancelCompletion {} => args_of(seq![]),
        LspAction::RequestHover {} => args_of(seq![]),
        LspAction::RequestSignatureHelp {} => args_of(seq![]),
        LspAction::RequestDefinition {} => args_of(seq![]),
        LspAction::RequestReferences {} => args_of(seq![]),
        LspAction::IngestCompletions { items, at, buffer } => args_of(seq![("items"@, items.wire()), ("at"@, at.wire()), ("buffer"@, buffer.wire())]),
        LspAction::IngestSignatureHelp { signature, at, buffer } => args_of(seq![("signature"@, signature.wire()), ("at"@, at.wire()), ("buffer"@, buffer.wire())]),
        LspAction::IngestHover { prose, at, buffer } => args_of(seq![("prose"@, prose.wire()), ("at"@, at.wire()), ("buffer"@, buffer.wire())]),
        LspAction::IngestDiagnostics { path, diagnostics } => args_of(seq![("path"@, path.wire()), ("diagnostics"@, diagnostics.wire())]),
        LspAction::ApplyWorkspaceEdit { files } => args_of(seq![("files"@, files.wire())]),
        LspAction::RestartLanguageServer { language } => args_of(seq![("language"@, language.wire())]),
    }
}

/// The arguments a [`VcsAction`] is called with.
pub open spec fn vcs_action_args(x: VcsAction) -> Seq<(Seq<char>, ValueV)> {
    match x {
        VcsAction::RefreshVcs {} => args_of(seq![]),
        VcsAction::OpenTimeline {} => args_of(seq![]),
        VcsAction::ShowChangeDiff { change } => args_of(seq![("change"@, change.wire())]),
        VcsAction::OpenOperationLog {} => args_of(seq![]),
        VcsAction::EditAtChange { change } => args_of(seq![("change"@, change.wire())]),
        VcsAction::RestoreChange { change } => args_of(seq![("change"@, change.wire())]),
    }
}

/// The arguments a [`RuntimeAction`] is called with.
pub open spec fn runtime_action_args(x: RuntimeAction) -> Seq<(Seq<char>, ValueV)> {
    match x {
        RuntimeAction::Eval { source } => args_of(seq![("source"@, source.wire())]),
        RuntimeAction::LoadRuntimeFile { path } => args_of(seq![("path"@, path.wire())]),
        RuntimeAction::ReloadRuntime {} => args_of(seq![]),
        RuntimeAction::OpenRepl {} => args_of(seq![]),
        RuntimeAction::CloseRepl {} => args_of(seq![]),
        RuntimeAction::ReplHistory { delta } => args_of(seq![("delta"@, delta.wire())]),
        RuntimeAction::ReplToBuffer {} => args_of(seq![]),
        RuntimeAction::PersistForm { form } => args_of(seq![("form"@, form.wire())]),
        RuntimeAction::SetKeybinding { keys, binding, mode } => args_of(seq![("keys"@, keys.wire()), ("binding"@, binding.wire()), ("mode"@, mode.wire())]),
        RuntimeAction::RemoveKeybinding { keys, mode } => args_of(seq![("keys"@, keys.wire()), ("mode"@, mode.wire())]),
        RuntimeAction::DefineLanguage { language, spec } => args_of(seq![("language"@, language.wire()), ("spec"@, spec.wire())]),
        RuntimeAction::SetOption { key, value } => args_of(seq![("key"@, key.wire()), ("value"@, value.wire())]),
        RuntimeAction::SetTheme { slug } => args_of(seq![("slug"@, slug.wire())]),
        RuntimeAction::ReloadTheme {} => args_of(seq![]),
    }
}

/// The arguments a [`AppAction`] is called with.
pub open spec fn app_action_args(x: AppAction) -> Seq<(Seq<char>, ValueV)> {
    match x {
        AppAction::Quit { force } => args_of(seq![("force"@, force.wire())]),
        AppAction::ShowUnknownKeyHint { key } => args_of(seq![("key"@, key.wire())]),
        AppAction::OpenHelp { topic } => args_of(seq![("topic"@, topic.wire())]),
        AppAction::OpenArch {} => args_of(seq![]),
        AppAction::OpenDashboard {} => args_of(seq![]),
        AppAction::DismissDashboardHint {} => args_of(seq![]),
    }
}

/// The arguments a [`Action`] is called with.
pub open spec fn spec_action_args(x: Action) -> Seq<(Seq<char>, ValueV)> {
    match x {
        Action::Buffer(y) => buffer_action_args(y),
        Action::Motion(y) => motion_action_args(y),
        Action::View(y) => view_action_args(y),
        Action::Input(y) => input_action_args(y),
        Action::History(y) => history_action_args(y),
        Action::File(y) => file_action_args(y),
        Action::Float(y) => float_action_args(y),
        Action::Pane(y) => pane_action_args(y),
        Action::Picker(y) => picker_action_args(y),
        Action::Prompt(y) => prompt_action_args(y),
        Action::Region(y) => region_action_args(y),
        Action::Thread(y) => thread_action_args(y),
        Action::Review(y) => review_action_args(y),
        Action::Inbox(y) => inbox_action_args(y),
        Action::Ask(y) => ask_action_args(y),
        Action::Session(y) => session_action_args(y),
        Action::Watch(y) => watch_action_args(y),
        Action::Lsp(y) => lsp_action_args(y),
        Action::Vcs(y) => vcs_action_args(y),
        Action::Runtime(y) => runtime_action_args(y),
        Action::App(y) => app_action_args(y),
    }
}

/// Whether every id a [`Action`] holds fits the wire.
pub open spec fn spec_action_fits(x: Action) -> bool {
    match x {
        Action::Buffer(BufferAction::Insert { at, text }) => at.fits() && text.fits(),
        Action::Buffer(BufferAction::Delete { span }) => span.fits(),
        Action::Buffer(BufferAction::Replace { span, text }) => span.fits() && text.fits(),
        Action::Buffer(BufferAction::ApplyEdits { edits }) => edits.fits(),
        Action::Buffer(BufferAction::Yank { target, register }) => target.fits() && register.fits(),
        Action::Buffer(BufferAction::Paste { at, register, before }) => at.fits() && register.fits() && before.fits(),
        Action::Buffer(BufferAction::SetRegister { register, text }) => register.fits() && text.fits(),
        Action::Buffer(BufferAction::Indent { target, delta }) => target.fits() && delta.fits(),
        Action::Buffer(BufferAction::InsertIndent {}) => true,
        Action::Buffer(BufferAction::JoinLines { target }) => target.fits(),
        Action::Buffer(BufferAction::SetCase { target, case }) => target.fits() && case.fits(),
        Action::Buffer(BufferAction::ToggleComment { target }) => target.fits(),
        Action::Buffer(BufferAction::AlignColumns { target }) => target.fits(),
        Action::Motion(MotionAction::MoveCursor { motion, count }) => motion.fits() && count.fits(),
        Action::Motion(MotionAction::SetCursor { position, buffer }) => position.fits() && buffer.fits(),
        Action::Motion(MotionAction::SelectRange { span, kind }) => span.fits() && kind.fits(),
        Action::Motion(MotionAction::SelectObject { object, inner, count, delimiter }) => object.fits() && inner.fits() && count.fits() && delimiter.fits(),
        Action::Motion(MotionAction::ExtendSelection { motion, count }) => motion.fits() && count.fits(),
        Action::Motion(MotionAction::ClearSelection {}) => true,
        Action::Motion(MotionAction::GotoSequence { sequence, seek, filter }) => sequence.fits() && seek.fits() && filter.fits(),
        Action::Motion(MotionAction::GotoLocation { path, position, pane }) => path.fits() && position.fits() && pane.fits(),
        Action::Motion(MotionAction::GotoAnchor { anchor, label, exact }) => anchor.fits() && label.fits() && exact.fits(),
        Action::Motion(MotionAction::Jump { seek }) => seek.fits(),
        Action::View(ViewAction::Scroll { request, pane }) => request.fits() && pane.fits(),
        Action::View(ViewAction::SetSoftWrap { target, on }) => target.fits() && on.fits(),
        Action::View(ViewAction::SetFold { target, state }) => target.fits() && state.fits(),
        Action::View(ViewAction::FoldAll { level }) => level.fits(),
        Action::View(ViewAction::UnfoldAll {}) => true,
        Action::View(ViewAction::SetVirtualTextVisible { owner, on }) => owner.fits() && on.fits(),
        Action::Input(InputAction::SetMode { mode }) => mode.fits(),
        Action::Input(InputAction::SetCount { count }) => count.fits(),
        Action::Input(InputAction::SelectRegister { register }) => register.fits(),
        Action::Input(InputAction::CancelPending {}) => true,
        Action::Input(InputAction::FeedKeys { keys }) => keys.fits(),
        Action::Input(InputAction::RepeatLast { count }) => count.fits(),
        Action::Input(InputAction::SetMacroRecording { register, on }) => register.fits() && on.fits(),
        Action::History(HistoryAction::Undo { count }) => count.fits(),
        Action::History(HistoryAction::Redo { count }) => count.fits(),
        Action::History(HistoryAction::UndoToCheckpoint { checkpoint }) => checkpoint.fits(),
        Action::History(HistoryAction::CommitUndoGroup {}) => true,
        Action::History(HistoryAction::CompactHistory { target }) => target.fits(),
        Action::File(FileAction::OpenFile { path, at, pane }) => path.fits() && at.fits() && pane.fits(),
        Action::File(FileAction::OpenAlternate { pane }) => pane.fits(),
        Action::File(FileAction::SaveBuffer { target, path }) => target.fits() && path.fits(),
        Action::File(FileAction::SaveAll {}) => true,
        Action::File(FileAction::CloseBuffer { target, force }) => target.fits() && force.fits(),
        Action::File(FileAction::ReloadFromDisk { target }) => target.fits(),
        Action::File(FileAction::NoteDiskChange { path, changed_by }) => path.fits() && changed_by.fits(),
        Action::File(FileAction::OpenDiskDiff { target }) => target.fits(),
        Action::File(FileAction::ResolveDiskDiff { target, exit }) => target.fits() && exit.fits(),
        Action::File(FileAction::SetFileWatch { path, on }) => path.fits() && on.fits(),
        Action::Float(FloatAction::OpenFloat { surface, args }) => surface.fits() && args.fits(),
        Action::Float(FloatAction::CloseFloat {}) => true,
        Action::Float(FloatAction::CloseAllFloats {}) => true,
        Action::Float(FloatAction::DefineFloatSurface { surface, body }) => surface.fits() && body.fits(),
        Action::Float(FloatAction::FloatSelect { delta }) => delta.fits(),
        Action::Float(FloatAction::FloatSelectRow { row }) => row.fits(),
        Action::Float(FloatAction::FloatAccept {}) => true,
        Action::Float(FloatAction::FloatAnswer { digit }) => digit.fits(),
        Action::Float(FloatAction::FloatToggleFold { row }) => row.fits(),
        Action::Pane(PaneAction::SplitPane { pane, direction, kind }) => pane.fits() && direction.fits() && kind.fits(),
        Action::Pane(PaneAction::FocusPane { pane }) => pane.fits(),
        Action::Pane(PaneAction::ClosePane { pane }) => pane.fits(),
        Action::Pane(PaneAction::ResizePane { pane, delta }) => pane.fits() && delta.fits(),
        Action::Pane(PaneAction::SetPaneContent { pane, kind }) => pane.fits() && kind.fits(),
        Action::Pane(PaneAction::CreatePaneFromView { pane, tree }) => pane.fits() && tree.fits(),
        Action::Picker(PickerAction::OpenPicker { source, query }) => source.fits() && query.fits(),
        Action::Picker(PickerAction::SetPickerQuery { text }) => text.fits(),
        Action::Picker(PickerAction::CyclePickerSource { delta }) => delta.fits(),
        Action::Picker(PickerAction::PickerAccept { how }) => how.fits(),
        Action::Picker(PickerAction::TogglePickerPreview {}) => true,
        Action::Picker(PickerAction::DefinePickerSource { source, body }) => source.fits() && body.fits(),
        Action::Picker(PickerAction::InvalidatePickerSource { source }) => source.fits(),
        Action::Prompt(PromptAction::OpenPrompt { kind, seed, anchor }) => kind.fits() && seed.fits() && anchor.fits(),
        Action::Prompt(PromptAction::SetPromptText { text }) => text.fits(),
        Action::Prompt(PromptAction::SubmitPrompt {}) => true,
        Action::Prompt(PromptAction::CancelPrompt {}) => true,
        Action::Prompt(PromptAction::PromptHistory { delta }) => delta.fits(),
        Action::Region(RegionAction::MarkSeen { target }) => target.fits(),
        Action::Region(RegionAction::MarkUnseen { target }) => target.fits(),
        Action::Region(RegionAction::DeclareRegions { regions }) => regions.fits(),
        Action::Region(RegionAction::PlaceAnchor { at, label }) => at.fits() && label.fits(),
        Action::Region(RegionAction::Reanchor { path }) => path.fits(),
        Action::Region(RegionAction::DropRegions { target }) => target.fits(),
        Action::Thread(ThreadAction::StartThread { anchor, body }) => anchor.fits() && body.fits(),
        Action::Thread(ThreadAction::ReplyToThread { thread, body }) => thread.fits() && body.fits(),
        Action::Thread(ThreadAction::ResolveThread { thread }) => thread.fits(),
        Action::Thread(ThreadAction::DeleteThread { thread }) => thread.fits(),
        Action::Thread(ThreadAction::BroadcastThread { pattern, body }) => pattern.fits() && body.fits(),
        Action::Review(ReviewAction::DeclareReviewBlock { title, files, annotation }) => title.fits() && files.fits() && annotation.fits(),
        Action::Review(ReviewAction::OpenReviewBlock { block }) => block.fits(),
        Action::Review(ReviewAction::SetDiffMode { mode }) => mode.fits(),
        Action::Review(ReviewAction::ExpandDiffContext { hunk, lines }) => hunk.fits() && lines.fits(),
        Action::Review(ReviewAction::SetDiffGrouping { grouping }) => grouping.fits(),
        Action::Review(ReviewAction::AnnotateGroup { group, text }) => group.fits() && text.fits(),
        Action::Review(ReviewAction::RevertHunk { hunk }) => hunk.fits(),
        Action::Review(ReviewAction::OpenHunkPeek { target }) => target.fits(),
        Action::Inbox(InboxAction::OpenInbox {}) => true,
        Action::Inbox(InboxAction::OpenInboxItem { item }) => item.fits(),
        Action::Inbox(InboxAction::Notify { severity, title, body, anchor }) => severity.fits() && title.fits() && body.fits() && anchor.fits(),
        Action::Ask(AskAction::EnqueueAsk { prose, options }) => prose.fits() && options.fits(),
        Action::Ask(AskAction::AnswerAsk { ask, digit, prose }) => ask.fits() && digit.fits() && prose.fits(),
        Action::Ask(AskAction::DeferAsk { ask }) => ask.fits(),
        Action::Ask(AskAction::RequestPermission { invocation, files }) => invocation.fits() && files.fits(),
        Action::Ask(AskAction::GrantPermission { ask, scope }) => ask.fits() && scope.fits(),
        Action::Ask(AskAction::DenyPermission { ask }) => ask.fits(),
        Action::Session(SessionAction::StartSession { agent, cwd }) => agent.fits() && cwd.fits(),
        Action::Session(SessionAction::DiscoverSessions {}) => true,
        Action::Session(SessionAction::AdoptSession { handle }) => handle.fits(),
        Action::Session(SessionAction::AttachSession { endpoint }) => endpoint.fits(),
        Action::Session(SessionAction::ReattachSession {}) => true,
        Action::Session(SessionAction::DetachSession {}) => true,
        Action::Session(SessionAction::EndSession { force }) => force.fits(),
        Action::Session(SessionAction::SendMessage { body, anchors }) => body.fits() && anchors.fits(),
        Action::Session(SessionAction::InterruptSession {}) => true,
        Action::Session(SessionAction::SteerSession { body }) => body.fits(),
        Action::Session(SessionAction::ResumeSession {}) => true,
        Action::Session(SessionAction::AbortTurn {}) => true,
        Action::Session(SessionAction::TurnBegan { turn, prompt }) => turn.fits() && prompt.fits(),
        Action::Session(SessionAction::TurnEnded { turn, summary }) => turn.fits() && summary.fits(),
        Action::Session(SessionAction::SessionProse { turn, chunk }) => turn.fits() && chunk.fits(),
        Action::Session(SessionAction::ToolCallStarted { turn, call, verb, target, path, line }) => turn.fits() && call.fits() && verb.fits() && target.fits() && path.fits() && line.fits(),
        Action::Session(SessionAction::ToolCallProgress { call, note }) => call.fits() && note.fits(),
        Action::Session(SessionAction::ToolCallCompleted { call, summary, added, removed }) => call.fits() && summary.fits() && added.fits() && removed.fits(),
        Action::Session(SessionAction::SessionSeam { kind, note }) => kind.fits() && note.fits(),
        Action::Watch(WatchAction::PlaceWatch { anchor, expr }) => anchor.fits() && expr.fits(),
        Action::Watch(WatchAction::RemoveWatch { watch }) => watch.fits(),
        Action::Watch(WatchAction::SetWatchVisible { watch, on }) => watch.fits() && on.fits(),
        Action::Watch(WatchAction::PushWatchValues { watch, values, provenance }) => watch.fits() && values.fits() && provenance.fits(),
        Action::Watch(WatchAction::ClearWatchValues { watch }) => watch.fits(),
        Action::Lsp(LspAction::RequestCompletion {}) => true,
        Action::Lsp(LspAction::MoveCompletion { delta, otherwise }) => delta.fits() && otherwise.fits(),
        Action::Lsp(LspAction::AcceptCompletion { index, then, otherwise }) => index.fits() && then.fits() && otherwise.fits(),
        Action::Lsp(LspAction::CancelCompletion {}) => true,
        Action::Lsp(LspAction::RequestHover {}) => true,
        Action::Lsp(LspAction::RequestSignatureHelp {}) => true,
        Action::Lsp(LspAction::RequestDefinition {}) => true,
        Action::Lsp(LspAction::RequestReferences {}) => true,
        Action::Lsp(LspAction::IngestCompletions { items, at, buffer }) => items.fits() && at.fits() && buffer.fits(),
        Action::Lsp(LspAction::IngestSignatureHelp { signature, at, buffer }) => signature.fits() && at.fits() && buffer.fits(),
        Action::Lsp(LspAction::IngestHover { prose, at, buffer }) => prose.fits() && at.fits() && buffer.fits(),
        Action::Lsp(LspAction::IngestDiagnostics { path, diagnostics }) => path.fits() && diagnostics.fits(),
        Action::Lsp(LspAction::ApplyWorkspaceEdit { files }) => files.fits(),
        Action::Lsp(LspAction::RestartLanguageServer { language }) => language.fits(),
        Action::Vcs(VcsAction::RefreshVcs {}) => true,
        Action::Vcs(VcsAction::OpenTimeline {}) => true,
        Action::Vcs(VcsAction::ShowChangeDiff { change }) => change.fits(),
        Action::Vcs(VcsAction::OpenOperationLog {}) => true,
        Action::Vcs(VcsAction::EditAtChange { change }) => change.fits(),
        Action::Vcs(VcsAction::RestoreChange { change }) => change.fits(),
        Action::Runtime(RuntimeAction::Eval { source }) => source.fits(),
        Action::Runtime(RuntimeAction::LoadRuntimeFile { path }) => path.fits(),
        Action::Runtime(RuntimeAction::ReloadRuntime {}) => true,
        Action::Runtime(RuntimeAction::OpenRepl {}) => true,
        Action::Runtime(RuntimeAction::CloseRepl {}) => true,
        Action::Runtime(RuntimeAction::ReplHistory { delta }) => delta.fits(),
        Action::Runtime(RuntimeAction::ReplToBuffer {}) => true,
        Action::Runtime(RuntimeAction::PersistForm { form }) => form.fits(),
        Action::Runtime(RuntimeAction::SetKeybinding { keys, binding, mode }) => keys.fits() && binding.fits() && mode.fits(),
        Action::Runtime(RuntimeAction::RemoveKeybinding { keys, mode }) => keys.fits() && mode.fits(),
        Action::Runtime(RuntimeAction::DefineLanguage { language, spec }) => language.fits() && spec.fits(),
        Action::Runtime(RuntimeAction::SetOption { key, value }) => key.fits() && value.fits(),
        Action::Runtime(RuntimeAction::SetTheme { slug }) => slug.fits(),
        Action::Runtime(RuntimeAction::ReloadTheme {}) => true,
        Action::App(AppAction::Quit { force }) => force.fits(),
        Action::App(AppAction::ShowUnknownKeyHint { key }) => key.fits(),
        Action::App(AppAction::OpenHelp { topic }) => topic.fits(),
        Action::App(AppAction::OpenArch {}) => true,
        Action::App(AppAction::OpenDashboard {}) => true,
        Action::App(AppAction::DismissDashboardHint {}) => true,
    }
}

/// Decoding a call to one of the [`BufferAction`] capabilities: `None` when `name` is none of them.
pub open spec fn buffer_action_from(name: Seq<char>, rec: Seq<(Seq<char>, ValueV)>) -> Option<Result<Seq<(Seq<char>, ValueV)>, CallErrorV>> {
    let i = action_name_index(name);
    if i == 0 && name == "insert"@ {
        match field_unwire::<Position>(rec, "at"@) {
            Err(e) => Some(Err(CallErrorV::Argument { name: "insert"@, source: e })),
            Ok(w0) =>             match field_unwire::<String>(rec, "text"@) {
                Err(e) => Some(Err(CallErrorV::Argument { name: "insert"@, source: e })),
                Ok(w1) => Some(Ok(args_of(seq![("at"@, w0), ("text"@, w1)])))
            },
        }
    } else if i == 1 && name == "delete"@ {
        match field_unwire::<Span>(rec, "span"@) {
            Err(e) => Some(Err(CallErrorV::Argument { name: "delete"@, source: e })),
            Ok(w0) => Some(Ok(args_of(seq![("span"@, w0)])))
        }
    } else if i == 2 && name == "replace"@ {
        match field_unwire::<Span>(rec, "span"@) {
            Err(e) => Some(Err(CallErrorV::Argument { name: "replace"@, source: e })),
            Ok(w0) =>             match field_unwire::<String>(rec, "text"@) {
                Err(e) => Some(Err(CallErrorV::Argument { name: "replace"@, source: e })),
                Ok(w1) => Some(Ok(args_of(seq![("span"@, w0), ("text"@, w1)])))
            },
        }
    } else if i == 3 && name == "apply-edits"@ {
        match field_unwire::<Vec<Edit>>(rec, "edits"@) {
            Err(e) => Some(Err(CallErrorV::Argument { name: "apply-edits"@, source: e })),
            Ok(w0) => Some(Ok(args_of(seq![("edits"@, w0)])))
        }
    } else if i == 4 && name == "yank"@ {
        match field_unwire::<Target>(rec, "target"@) {
            Err(e) => Some(Err(CallErrorV::Argument { name: "yank"@, source: e })),
            Ok(w0) =>             match field_unwire::<Option<RegisterName>>(rec, "register"@) {
                Err(e) => Some(Err(CallErrorV::Argument { name: "yank"@, source: e })),
                Ok(w1) => Some(Ok(args_of(seq![("target"@, w0), ("register"@, w1)])))
            },
        }
    } else if i == 5 && name == "paste"@ {
        match field_unwire::<Target>(rec, "at"@) {
            Err(e) => Some(Err(CallErrorV::Argument { name: "paste"@, source: e })),
            Ok(w0) =>             match field_unwire::<Option<RegisterName>>(rec, "register"@) {
                Err(e) => Some(Err(CallErrorV::Argument { name: "paste"@, source: e })),
                Ok(w1) =>                 match field_unwire::<bool>(rec, "before"@) {
                    Err(e) => Some(Err(CallErrorV::Argument { name: "paste"@, source: e })),
                    Ok(w2) => Some(Ok(args_of(seq![("at"@, w0), ("register"@, w1), ("before"@, w2)])))
                },
            },
        }
    } else if i == 6 && name == "set-register"@ {
        match field_unwire::<RegisterName>(rec, "register"@) {
            Err(e) => Some(Err(CallErrorV::Argument { name: "set-register"@, source: e })),
            Ok(w0) =>             match field_unwire::<String>(rec, "text"@) {
                Err(e) => Some(Err(CallErrorV::Argument { name: "set-register"@, source: e })),
                Ok(w1) => Some(Ok(args_of(seq![("register"@, w0), ("text"@, w1)])))
            },
        }
    } else if i == 7 && name == "indent"@ {
        match field_unwire::<Target>(rec, "target"@) {
            Err(e) => Some(Err(CallErrorV::Argument { name: "indent"@, source: e })),
            Ok(w0) =>             match field_unwire::<i64>(rec, "delta"@) {
                Err(e) => Some(Err(CallErrorV::Argument { name: "indent"@, source: e })),
                Ok(w1) => Some(Ok(args_of(seq![("target"@, w0), ("delta"@, w1)])))
            },
        }
    } else if i == 8 && name == "insert-indent"@ {
        Some(Ok(args_of(seq![])))
    } else if i == 9 && name == "join-lines"@ {
        match field_unwire::<Target>(rec, "target"@) {
            Err(e) => Some(Err(CallErrorV::Argument { name: "join-lines"@, source: e })),
            Ok(w0) => Some(Ok(args_of(seq![("target"@, w0)])))
        }
    } else if i == 10 && name == "set-case"@ {
        match field_unwire::<Target>(rec, "target"@) {
            Err(e) => Some(Err(CallErrorV::Argument { name: "set-case"@, source: e })),
            Ok(w0) =>             match field_unwire::<CaseChange>(rec, "case"@) {
                Err(e) => Some(Err(CallErrorV::Argument { name: "set-case"@, source: e })),
                Ok(w1) => Some(Ok(args_of(seq![("target"@, w0), ("case"@, w1)])))
            },
        }
    } else if i == 11 && name == "toggle-comment"@ {
        match field_unwire::<Target>(rec, "target"@) {
            Err(e) => Some(Err(CallErrorV::Argument { name: "toggle-comment"@, source: e })),
            Ok(w0) => Some(Ok(args_of(seq![("target"@, w0)])))
        }
    } else if i == 12 && name == "align-columns"@ {
        match field_unwire::<Target>(rec, "target"@) {
            Err(e) => Some(Err(CallErrorV::Argument { name: "align-columns"@, source: e })),
            Ok(w0) => Some(Ok(args_of(seq![("target"@, w0)])))
        }
    } else {
        None
    }
}

/// Decoding a call to one of the [`MotionAction`] capabilities: `None` when `name` is none of them.
pub open spec fn motion_action_from(name: Seq<char>, rec: Seq<(Seq<char>, ValueV)>) -> Option<Result<Seq<(Seq<char>, ValueV)>, CallErrorV>> {
    let i = action_name_index(name);
    if i == 13 && name == "move-cursor"@ {
        match field_unwire::<Motion>(rec, "motion"@) {
            Err(e) => Some(Err(CallErrorV::Argument { name: "move-cursor"@, source: e })),
            Ok(w0) =>             match field_unwire::<u32>(rec, "count"@) {
                Err(e) => Some(Err(CallErrorV::Argument { name: "move-cursor"@, source: e })),
                Ok(w1) => Some(Ok(args_of(seq![("motion"@, w0), ("count"@, w1)])))
            },
        }
    } else if i == 14 && name == "set-cursor"@ {
        match field_unwire::<Position>(rec, "position"@) {
            Err(e) => Some(Err(CallErrorV::Argument { name: "set-cursor"@, source: e })),
            Ok(w0) =>             match field_unwire::<Option<BufferId>>(rec, "buffer"@) {
                Err(e) => Some(Err(CallErrorV::Argument { name: "set-cursor"@, source: e })),
                Ok(w1) => Some(Ok(args_of(seq![("position"@, w0), ("buffer"@, w1)])))
            },
        }
    } else if i == 15 && name == "select-range"@ {
        match field_unwire::<Span>(rec, "span"@) {
            Err(e) => Some(Err(CallErrorV::Argument { name: "select-range"@, source: e })),
            Ok(w0) =>             match field_unwire::<SelectionKind>(rec, "kind"@) {
                Err(e) => Some(Err(CallErrorV::Argument { name: "select-range"@, source: e })),
                Ok(w1) => Some(Ok(args_of(seq![("span"@, w0), ("kind"@, w1)])))
            },
        }
    } else if i == 16 && name == "select-object"@ {
        match field_unwire::<TextObject>(rec, "object"@) {
            Err(e) => Some(Err(CallErrorV::Argument { name: "select-object"@, source: e })),
            Ok(w0) =>             match field_unwire::<bool>(rec, "inner"@) {
                Err(e) => Some(Err(CallErrorV::Argument { name: "select-object"@, source: e })),
                Ok(w1) =>                 match field_unwire::<u32>(rec, "count"@) {
                    Err(e) => Some(Err(CallErrorV::Argument { name: "select-object"@, source: e })),
                    Ok(w2) =>                     match field_unwire::<Option<char>>(rec, "delimiter"@) {
                        Err(e) => Some(Err(CallErrorV::Argument { name: "select-object"@, source: e })),
                        Ok(w3) => Some(Ok(args_of(seq![("object"@, w0), ("inner"@, w1), ("count"@, w2), ("delimiter"@, w3)])))
                    },
                },
            },
        }
    } else if i == 17 && name == "extend-selection"@ {
        match field_unwire::<Motion>(rec, "motion"@) {
            Err(e) => Some(Err(CallErrorV::Argument { name: "extend-selection"@, source: e })),
            Ok(w0) =>             match field_unwire::<u32>(rec, "count"@) {
                Err(e) => Some(Err(CallErrorV::Argument { name: "extend-selection"@, source: e })),
                Ok(w1) => Some(Ok(args_of(seq![("motion"@, w0), ("count"@, w1)])))
            },
        }
    } else if i == 18 && name == "clear-selection"@ {
        Some(Ok(args_of(seq![])))
    } else if i == 19 && name == "goto-sequence"@ {
        match field_unwire::<Sequence>(rec, "sequence"@) {
            Err(e) => Some(Err(CallErrorV::Argument { name: "goto-sequence"@, source: e })),
            Ok(w0) =>             match field_unwire::<Seek>(rec, "seek"@) {
                Err(e) => Some(Err(CallErrorV::Argument { name: "goto-sequence"@, source: e })),
                Ok(w1) =>                 match field_unwire::<Option<RegionFilter>>(rec, "filter"@) {
                    Err(e) => Some(Err(CallErrorV::Argument { name: "goto-sequence"@, source: e })),
                    Ok(w2) => Some(Ok(args_of(seq![("sequence"@, w0), ("seek"@, w1), ("filter"@, w2)])))
                },
            },
        }
    } else if i == 20 && name == "goto-location"@ {
        match field_unwire::<String>(rec, "path"@) {
            Err(e) => Some(Err(CallErrorV::Argument { name: "goto-location"@, source: e })),
            Ok(w0) =>             match field_unwire::<Option<Position>>(rec, "position"@) {
                Err(e) => Some(Err(CallErrorV::Argument { name: "goto-location"@, source: e })),
                Ok(w1) =>                 match field_unwire::<PaneRef>(rec, "pane"@) {
                    Err(e) => Some(Err(CallErrorV::Argument { name: "goto-location"@, source: e })),
                    Ok(w2) => Some(Ok(args_of(seq![("path"@, w0), ("position"@, w1), ("pane"@, w2)])))
                },
            },
        }
    } else if i == 21 && name == "goto-anchor"@ {
        match field_unwire::<Option<AnchorId>>(rec, "anchor"@) {
            Err(e) => Some(Err(CallErrorV::Argument { name: "goto-anchor"@, source: e })),
            Ok(w0) =>             match field_unwire::<Option<String>>(rec, "label"@) {
                Err(e) => Some(Err(CallErrorV::Argument { name: "goto-anchor"@, source: e })),
                Ok(w1) =>                 match field_unwire::<bool>(rec, "exact"@) {
                    Err(e) => Some(Err(CallErrorV::Argument { name: "goto-anchor"@, source: e })),
                    Ok(w2) => Some(Ok(args_of(seq![("anchor"@, w0), ("label"@, w1), ("exact"@, w2)])))
                },
            },
        }
    } else if i == 22 && name == "jump"@ {
        match field_unwire::<Seek>(rec, "seek"@) {
            Err(e) => Some(Err(CallErrorV::Argument { name: "jump"@, source: e })),
            Ok(w0) => Some(Ok(args_of(seq![("seek"@, w0)])))
        }
    } else {
        None
    }
}

/// Decoding a call to one of the [`ViewAction`] capabilities: `None` when `name` is none of them.
pub open spec fn view_action_from(name: Seq<char>, rec: Seq<(Seq<char>, ValueV)>) -> Option<Result<Seq<(Seq<char>, ValueV)>, CallErrorV>> {
    let i = action_name_index(name);
    if i == 23 && name == "scroll"@ {
        match field_unwire::<ScrollRequest>(rec, "request"@) {
            Err(e) => Some(Err(CallErrorV::Argument { name: "scroll"@, source: e })),
            Ok(w0) =>             match field_unwire::<PaneRef>(rec, "pane"@) {
                Err(e) => Some(Err(CallErrorV::Argument { name: "scroll"@, source: e })),
                Ok(w1) => Some(Ok(args_of(seq![("request"@, w0), ("pane"@, w1)])))
            },
        }
    } else if i == 24 && name == "set-soft-wrap"@ {
        match field_unwire::<Target>(rec, "target"@) {
            Err(e) => Some(Err(CallErrorV::Argument { name: "set-soft-wrap"@, source: e })),
            Ok(w0) =>             match field_unwire::<bool>(rec, "on"@) {
                Err(e) => Some(Err(CallErrorV::Argument { name: "set-soft-wrap"@, source: e })),
                Ok(w1) => Some(Ok(args_of(seq![("target"@, w0), ("on"@, w1)])))
            },
        }
    } else if i == 25 && name == "set-fold"@ {
        match field_unwire::<Target>(rec, "target"@) {
            Err(e) => Some(Err(CallErrorV::Argument { name: "set-fold"@, source: e })),
            Ok(w0) =>             match field_unwire::<FoldState>(rec, "state"@) {
                Err(e) => Some(Err(CallErrorV::Argument { name: "set-fold"@, source: e })),
                Ok(w1) => Some(Ok(args_of(seq![("target"@, w0), ("state"@, w1)])))
            },
        }
    } else if i == 26 && name == "fold-all"@ {
        match field_unwire::<u32>(rec, "level"@) {
            Err(e) => Some(Err(CallErrorV::Argument { name: "fold-all"@, source: e })),
            Ok(w0) => Some(Ok(args_of(seq![("level"@, w0)])))
        }
    } else if i == 27 && name == "unfold-all"@ {
        Some(Ok(args_of(seq![])))
    } else if i == 28 && name == "set-virtual-text-visible"@ {
        match field_unwire::<Target>(rec, "owner"@) {
            Err(e) => Some(Err(CallErrorV::Argument { name: "set-virtual-text-visible"@, source: e })),
            Ok(w0) =>             match field_unwire::<bool>(rec, "on"@) {
                Err(e) => Some(Err(CallErrorV::Argument { name: "set-virtual-text-visible"@, source: e })),
                Ok(w1) => Some(Ok(args_of(seq![("owner"@, w0), ("on"@, w1)])))
            },
        }
    } else {
        None
    }
}

/// Decoding a call to one of the [`InputAction`] capabilities: `None` when `name` is none of them.
pub open spec fn input_action_from(name: Seq<char>, rec: Seq<(Seq<char>, ValueV)>) -> Option<Result<Seq<(Seq<char>, ValueV)>, CallErrorV>> {
    let i = action_name_index(name);
    if i == 29 && name == "set-mode"@ {
        match field_unwire::<EditMode>(rec, "mode"@) {
            Err(e) => Some(Err(CallErrorV::Argument { name: "set-mode"@, source: e })),
            Ok(w0) => Some(Ok(args_of(seq![("mode"@, w0)])))
        }
    } else if i == 30 && name == "set-count"@ {
        match field_unwire::<u32>(rec, "count"@) {
            Err(e) => Some(Err(CallErrorV::Argument { name: "set-count"@, source: e })),
            Ok(w0) => Some(Ok(args_of(seq![("count"@, w0)])))
        }
    } else if i == 31 && name == "select-register"@ {
        match field_unwire::<RegisterName>(rec, "register"@) {
            Err(e) => Some(Err(CallErrorV::Argument { name: "select-register"@, source: e })),
            Ok(w0) => Some(Ok(args_of(seq![("register"@, w0)])))
        }
    } else if i == 32 && name == "cancel-pending"@ {
        Some(Ok(args_of(seq![])))
    } else if i == 33 && name == "feed-keys"@ {
        match field_unwire::<KeySeq>(rec, "keys"@) {
            Err(e) => Some(Err(CallErrorV::Argument { name: "feed-keys"@, source: e })),
            Ok(w0) => Some(Ok(args_of(seq![("keys"@, w0)])))
        }
    } else if i == 34 && name == "repeat-last"@ {
        match field_unwire::<u32>(rec, "count"@) {
            Err(e) => Some(Err(CallErrorV::Argument { name: "repeat-last"@, source: e })),
            Ok(w0) => Some(Ok(args_of(seq![("count"@, w0)])))
        }
    } else if i == 35 && name == "set-macro-recording"@ {
        match field_unwire::<RegisterName>(rec, "register"@) {
            Err(e) => Some(Err(CallErrorV::Argument { name: "set-macro-recording"@, source: e })),
            Ok(w0) =>             match field_unwire::<bool>(rec, "on"@) {
                Err(e) => Some(Err(CallErrorV::Argument { name: "set-macro-recording"@, source: e })),
                Ok(w1) => Some(Ok(args_of(seq![("register"@, w0), ("on"@, w1)])))
            },
        }
    } else {
        None
    }
}

/// Decoding a call to one of the [`HistoryAction`] capabilities: `None` when `name` is none of them.
pub open spec fn history_action_from(name: Seq<char>, rec: Seq<(Seq<char>, ValueV)>) -> Option<Result<Seq<(Seq<char>, ValueV)>, CallErrorV>> {
    let i = action_name_index(name);
    if i == 36 && name == "undo"@ {
        match field_unwire::<u32>(rec, "count"@) {
            Err(e) => Some(Err(CallErrorV::Argument { name: "undo"@, source: e })),
            Ok(w0) => Some(Ok(args_of(seq![("count"@, w0)])))
        }
    } else if i == 37 && name == "redo"@ {
        match field_unwire::<u32>(rec, "count"@) {
            Err(e) => Some(Err(CallErrorV::Argument { name: "redo"@, source: e })),
            Ok(w0) => Some(Ok(args_of(seq![("count"@, w0)])))
        }
    } else if i == 38 && name == "undo-to-checkpoint"@ {
        match field_unwire::<CheckpointId>(rec, "checkpoint"@) {
            Err(e) => Some(Err(CallErrorV::Argument { name: "undo-to-checkpoint"@, source: e })),
            Ok(w0) => Some(Ok(args_of(seq![("checkpoint"@, w0)])))
        }
    } else if i == 39 && name == "commit-undo-group"@ {
        Some(Ok(args_of(seq![])))
    } else if i == 40 && name == "compact-history"@ {
        match field_unwire::<Target>(rec, "target"@) {
            Err(e) => Some(Err(CallErrorV::Argument { name: "compact-history"@, source: e })),
            Ok(w0) => Some(Ok(args_of(seq![("target"@, w0)])))
        }
    } else {
        None
    }
}

/// Decoding a call to one of the [`FileAction`] capabilities: `None` when `name` is none of them.
pub open spec fn file_action_from(name: Seq<char>, rec: Seq<(Seq<char>, ValueV)>) -> Option<Result<Seq<(Seq<char>, ValueV)>, CallErrorV>> {
    let i = action_name_index(name);
    if i == 41 && name == "open-file"@ {
        match field_unwire::<String>(rec, "path"@) {
            Err(e) => Some(Err(CallErrorV::Argument { name: "open-file"@, source: e })),
            Ok(w0) =>             match field_unwire::<Option<Position>>(rec, "at"@) {
                Err(e) => Some(Err(CallErrorV::Argument { name: "open-file"@, source: e })),
                Ok(w1) =>                 match field_unwire::<PaneRef>(rec, "pane"@) {
                    Err(e) => Some(Err(CallErrorV::Argument { name: "open-file"@, source: e })),
                    Ok(w2) => Some(Ok(args_of(seq![("path"@, w0), ("at"@, w1), ("pane"@, w2)])))
                },
            },
        }
    } else if i == 42 && name == "open-alternate"@ {
        match field_unwire::<PaneRef>(rec, "pane"@) {
            Err(e) => Some(Err(CallErrorV::Argument { name: "open-alternate"@, source: e })),
            Ok(w0) => Some(Ok(args_of(seq![("pane"@, w0)])))
        }
    } else if i == 43 && name == "save-buffer"@ {
        match field_unwire::<Target>(rec, "target"@) {
            Err(e) => Some(Err(CallErrorV::Argument { name: "save-buffer"@, source: e })),
            Ok(w0) =>             match field_unwire::<Option<String>>(rec, "path"@) {
                Err(e) => Some(Err(CallErrorV::Argument { name: "save-buffer"@, source: e })),
                Ok(w1) => Some(Ok(args_of(seq![("target"@, w0), ("path"@, w1)])))
            },
        }
    } else if i == 44 && name == "save-all"@ {
        Some(Ok(args_of(seq![])))
    } else if i == 45 && name == "close-buffer"@ {
        match field_unwire::<Target>(rec, "target"@) {
            Err(e) => Some(Err(CallErrorV::Argument { name: "close-buffer"@, source: e })),
            Ok(w0) =>             match field_unwire::<bool>(rec, "force"@) {
                Err(e) => Some(Err(CallErrorV::Argument { name: "close-buffer"@, source: e })),
                Ok(w1) => Some(Ok(args_of(seq![("target"@, w0), ("force"@, w1)])))
            },
        }
    } else if i == 46 && name == "reload-from-disk"@ {
        match field_unwire::<Target>(rec, "target"@) {
            Err(e) => Some(Err(CallErrorV::Argument { name: "reload-from-disk"@, source: e })),
            Ok(w0) => Some(Ok(args_of(seq![("target"@, w0)])))
        }
    } else if i == 47 && name == "note-disk-change"@ {
        match field_unwire::<String>(rec, "path"@) {
            Err(e) => Some(Err(CallErrorV::Argument { name: "note-disk-change"@, source: e })),
            Ok(w0) =>             match field_unwire::<Actor>(rec, "changed_by"@) {
                Err(e) => Some(Err(CallErrorV::Argument { name: "note-disk-change"@, source: e })),
                Ok(w1) => Some(Ok(args_of(seq![("path"@, w0), ("changed_by"@, w1)])))
            },
        }
    } else if i == 48 && name == "open-disk-diff"@ {
        match field_unwire::<Target>(rec, "target"@) {
            Err(e) => Some(Err(CallErrorV::Argument { name: "open-disk-diff"@, source: e })),
            Ok(w0) => Some(Ok(args_of(seq![("target"@, w0)])))
        }
    } else if i == 49 && name == "resolve-disk-diff"@ {
        match field_unwire::<Target>(rec, "target"@) {
            Err(e) => Some(Err(CallErrorV::Argument { name: "resolve-disk-diff"@, source: e })),
            Ok(w0) =>             match field_unwire::<DiskExit>(rec, "exit"@) {
                Err(e) => Some(Err(CallErrorV::Argument { name: "resolve-disk-diff"@, source: e })),
                Ok(w1) => Some(Ok(args_of(seq![("target"@, w0), ("exit"@, w1)])))
            },
        }
    } else if i == 50 && name == "set-file-watch"@ {
        match field_unwire::<String>(rec, "path"@) {
            Err(e) => Some(Err(CallErrorV::Argument { name: "set-file-watch"@, source: e })),
            Ok(w0) =>             match field_unwire::<bool>(rec, "on"@) {
                Err(e) => Some(Err(CallErrorV::Argument { name: "set-file-watch"@, source: e })),
                Ok(w1) => Some(Ok(args_of(seq![("path"@, w0), ("on"@, w1)])))
            },
        }
    } else {
        None
    }
}

/// Decoding a call to one of the [`FloatAction`] capabilities: `None` when `name` is none of them.
pub open spec fn float_action_from(name: Seq<char>, rec: Seq<(Seq<char>, ValueV)>) -> Option<Result<Seq<(Seq<char>, ValueV)>, CallErrorV>> {
    let i = action_name_index(name);
    if i == 51 && name == "open-float"@ {
        match field_unwire::<SurfaceId>(rec, "surface"@) {
            Err(e) => Some(Err(CallErrorV::Argument { name: "open-float"@, source: e })),
            Ok(w0) =>             match field_unwire::<Args>(rec, "args"@) {
                Err(e) => Some(Err(CallErrorV::Argument { name: "open-float"@, source: e })),
                Ok(w1) => Some(Ok(args_of(seq![("surface"@, w0), ("args"@, w1)])))
            },
        }
    } else if i == 52 && name == "close-float"@ {
        Some(Ok(args_of(seq![])))
    } else if i == 53 && name == "close-all-floats"@ {
        Some(Ok(args_of(seq![])))
    } else if i == 54 && name == "define-float-surface"@ {
        match field_unwire::<SurfaceId>(rec, "surface"@) {
            Err(e) => Some(Err(CallErrorV::Argument { name: "define-float-surface"@, source: e })),
            Ok(w0) =>             match field_unwire::<String>(rec, "body"@) {
                Err(e) => Some(Err(CallErrorV::Argument { name: "define-float-surface"@, source: e })),
                Ok(w1) => Some(Ok(args_of(seq![("surface"@, w0), ("body"@, w1)])))
            },
        }
    } else if i == 55 && name == "float-select"@ {
        match field_unwire::<i64>(rec, "delta"@) {
            Err(e) => Some(Err(CallErrorV::Argument { name: "float-select"@, source: e })),
            Ok(w0) => Some(Ok(args_of(seq![("delta"@, w0)])))
        }
    } else if i == 56 && name == "float-select-row"@ {
        match field_unwire::<u32>(rec, "row"@) {
            Err(e) => Some(Err(CallErrorV::Argument { name: "float-select-row"@, source: e })),
            Ok(w0) => Some(Ok(args_of(seq![("row"@, w0)])))
        }
    } else if i == 57 && name == "float-accept"@ {
        Some(Ok(args_of(seq![])))
    } else if i == 58 && name == "float-answer"@ {
        match field_unwire::<u32>(rec, "digit"@) {
            Err(e) => Some(Err(CallErrorV::Argument { name: "float-answer"@, source: e })),
            Ok(w0) => Some(Ok(args_of(seq![("digit"@, w0)])))
        }
    } else if i == 59 && name == "float-toggle-fold"@ {
        match field_unwire::<u32>(rec, "row"@) {
            Err(e) => Some(Err(CallErrorV::Argument { name: "float-toggle-fold"@, source: e })),
            Ok(w0) => Some(Ok(args_of(seq![("row"@, w0)])))
        }
    } else {
        None
    }
}

/// Decoding a call to one of the [`PaneAction`] capabilities: `None` when `name` is none of them.
pub open spec fn pane_action_from(name: Seq<char>, rec: Seq<(Seq<char>, ValueV)>) -> Option<Result<Seq<(Seq<char>, ValueV)>, CallErrorV>> {
    let i = action_name_index(name);
    if i == 60 && name == "split-pane"@ {
        match field_unwire::<PaneRef>(rec, "pane"@) {
            Err(e) => Some(Err(CallErrorV::Argument { name: "split-pane"@, source: e })),
            Ok(w0) =>             match field_unwire::<Direction>(rec, "direction"@) {
                Err(e) => Some(Err(CallErrorV::Argument { name: "split-pane"@, source: e })),
                Ok(w1) =>                 match field_unwire::<PaneKind>(rec, "kind"@) {
                    Err(e) => Some(Err(CallErrorV::Argument { name: "split-pane"@, source: e })),
                    Ok(w2) => Some(Ok(args_of(seq![("pane"@, w0), ("direction"@, w1), ("kind"@, w2)])))
                },
            },
        }
    } else if i == 61 && name == "focus-pane"@ {
        match field_unwire::<PaneRef>(rec, "pane"@) {
            Err(e) => Some(Err(CallErrorV::Argument { name: "focus-pane"@, source: e })),
            Ok(w0) => Some(Ok(args_of(seq![("pane"@, w0)])))
        }
    } else if i == 62 && name == "close-pane"@ {
        match field_unwire::<PaneRef>(rec, "pane"@) {
            Err(e) => Some(Err(CallErrorV::Argument { name: "close-pane"@, source: e })),
            Ok(w0) => Some(Ok(args_of(seq![("pane"@, w0)])))
        }
    } else if i == 63 && name == "resize-pane"@ {
        match field_unwire::<PaneRef>(rec, "pane"@) {
            Err(e) => Some(Err(CallErrorV::Argument { name: "resize-pane"@, source: e })),
            Ok(w0) =>             match field_unwire::<i64>(rec, "delta"@) {
                Err(e) => Some(Err(CallErrorV::Argument { name: "resize-pane"@, source: e })),
                Ok(w1) => Some(Ok(args_of(seq![("pane"@, w0), ("delta"@, w1)])))
            },
        }
    } else if i == 64 && name == "set-pane-content"@ {
        match field_unwire::<PaneRef>(rec, "pane"@) {
            Err(e) => Some(Err(CallErrorV::Argument { name: "set-pane-content"@, source: e })),
            Ok(w0) =>             match field_unwire::<PaneKind>(rec, "kind"@) {
                Err(e) => Some(Err(CallErrorV::Argument { name: "set-pane-content"@, source: e })),
                Ok(w1) => Some(Ok(args_of(seq![("pane"@, w0), ("kind"@, w1)])))
            },
        }
    } else if i == 65 && name == "create-pane-from-view"@ {
        match field_unwire::<PaneRef>(rec, "pane"@) {
            Err(e) => Some(Err(CallErrorV::Argument { name: "create-pane-from-view"@, source: e })),
            Ok(w0) =>             match field_unwire::<Value>(rec, "tree"@) {
                Err(e) => Some(Err(CallErrorV::Argument { name: "create-pane-from-view"@, source: e })),
                Ok(w1) => Some(Ok(args_of(seq![("pane"@, w0), ("tree"@, w1)])))
            },
        }
    } else {
        None
    }
}

/// Decoding a call to one of the [`PickerAction`] capabilities: `None` when `name` is none of them.
pub open spec fn picker_action_from(name: Seq<char>, rec: Seq<(Seq<char>, ValueV)>) -> Option<Result<Seq<(Seq<char>, ValueV)>, CallErrorV>> {
    let i = action_name_index(name);
    if i == 66 && name == "open-picker"@ {
        match field_unwire::<SourceId>(rec, "source"@) {
            Err(e) => Some(Err(CallErrorV::Argument { name: "open-picker"@, source: e })),
            Ok(w0) =>             match field_unwire::<Option<String>>(rec, "query"@) {
                Err(e) => Some(Err(CallErrorV::Argument { name: "open-picker"@, source: e })),
                Ok(w1) => Some(Ok(args_of(seq![("source"@, w0), ("query"@, w1)])))
            },
        }
    } else if i == 67 && name == "set-picker-query"@ {
        match field_unwire::<String>(rec, "text"@) {
            Err(e) => Some(Err(CallErrorV::Argument { name: "set-picker-query"@, source: e })),
            Ok(w0) => Some(Ok(args_of(seq![("text"@, w0)])))
        }
    } else if i == 68 && name == "cycle-picker-source"@ {
        match field_unwire::<i64>(rec, "delta"@) {
            Err(e) => Some(Err(CallErrorV::Argument { name: "cycle-picker-source"@, source: e })),
            Ok(w0) => Some(Ok(args_of(seq![("delta"@, w0)])))
        }
    } else if i == 69 && name == "picker-accept"@ {
        match field_unwire::<AcceptHow>(rec, "how"@) {
            Err(e) => Some(Err(CallErrorV::Argument { name: "picker-accept"@, source: e })),
            Ok(w0) => Some(Ok(args_of(seq![("how"@, w0)])))
        }
    } else if i == 70 && name == "toggle-picker-preview"@ {
        Some(Ok(args_of(seq![])))
    } else if i == 71 && name == "define-picker-source"@ {
        match field_unwire::<SourceId>(rec, "source"@) {
            Err(e) => Some(Err(CallErrorV::Argument { name: "define-picker-source"@, source: e })),
            Ok(w0) =>             match field_unwire::<String>(rec, "body"@) {
                Err(e) => Some(Err(CallErrorV::Argument { name: "define-picker-source"@, source: e })),
                Ok(w1) => Some(Ok(args_of(seq![("source"@, w0), ("body"@, w1)])))
            },
        }
    } else if i == 72 && name == "invalidate-picker-source"@ {
        match field_unwire::<SourceId>(rec, "source"@) {
            Err(e) => Some(Err(CallErrorV::Argument { name: "invalidate-picker-source"@, source: e })),
            Ok(w0) => Some(Ok(args_of(seq![("source"@, w0)])))
        }
    } else {
        None
    }
}

/// Decoding a call to one of the [`PromptAction`] capabilities: `None` when `name` is none of them.
pub open spec fn prompt_action_from(name: Seq<char>, rec: Seq<(Seq<char>, ValueV)>) -> Option<Result<Seq<(Seq<char>, ValueV)>, CallErrorV>> {
    let i = action_name_index(name);
    if i == 73 && name == "open-prompt"@ {
        match field_unwire::<PromptKind>(rec, "kind"@) {
            Err(e) => Some(Err(CallErrorV::Argument { name: "open-prompt"@, source: e })),
            Ok(w0) =>             match field_unwire::<Option<String>>(rec, "seed"@) {
                Err(e) => Some(Err(CallErrorV::Argument { name: "open-prompt"@, source: e })),
                Ok(w1) =>                 match field_unwire::<Option<Target>>(rec, "anchor"@) {
                    Err(e) => Some(Err(CallErrorV::Argument { name: "open-prompt"@, source: e })),
                    Ok(w2) => Some(Ok(args_of(seq![("kind"@, w0), ("seed"@, w1), ("anchor"@, w2)])))
                },
            },
        }
    } else if i == 74 && name == "set-prompt-text"@ {
        match field_unwire::<String>(rec, "text"@) {
            Err(e) => Some(Err(CallErrorV::Argument { name: "set-prompt-text"@, source: e })),
            Ok(w0) => Some(Ok(args_of(seq![("text"@, w0)])))
        }
    } else if i == 75 && name == "submit-prompt"@ {
        Some(Ok(args_of(seq![])))
    } else if i == 76 && name == "cancel-prompt"@ {
        Some(Ok(args_of(seq![])))
    } else if i == 77 && name == "prompt-history"@ {
        match field_unwire::<i64>(rec, "delta"@) {
            Err(e) => Some(Err(CallErrorV::Argument { name: "prompt-history"@, source: e })),
            Ok(w0) => Some(Ok(args_of(seq![("delta"@, w0)])))
        }
    } else {
        None
    }
}

/// Decoding a call to one of the [`RegionAction`] capabilities: `None` when `name` is none of them.
pub open spec fn region_action_from(name: Seq<char>, rec: Seq<(Seq<char>, ValueV)>) -> Option<Result<Seq<(Seq<char>, ValueV)>, CallErrorV>> {
    let i = action_name_index(name);
    if i == 78 && name == "mark-seen"@ {
        match field_unwire::<Target>(rec, "target"@) {
            Err(e) => Some(Err(CallErrorV::Argument { name: "mark-seen"@, source: e })),
            Ok(w0) => Some(Ok(args_of(seq![("target"@, w0)])))
        }
    } else if i == 79 && name == "mark-unseen"@ {
        match field_unwire::<Target>(rec, "target"@) {
            Err(e) => Some(Err(CallErrorV::Argument { name: "mark-unseen"@, source: e })),
            Ok(w0) => Some(Ok(args_of(seq![("target"@, w0)])))
        }
    } else if i == 80 && name == "declare-regions"@ {
        match field_unwire::<Vec<RegionSpec>>(rec, "regions"@) {
            Err(e) => Some(Err(CallErrorV::Argument { name: "declare-regions"@, source: e })),
            Ok(w0) => Some(Ok(args_of(seq![("regions"@, w0)])))
        }
    } else if i == 81 && name == "place-anchor"@ {
        match field_unwire::<Target>(rec, "at"@) {
            Err(e) => Some(Err(CallErrorV::Argument { name: "place-anchor"@, source: e })),
            Ok(w0) =>             match field_unwire::<Option<String>>(rec, "label"@) {
                Err(e) => Some(Err(CallErrorV::Argument { name: "place-anchor"@, source: e })),
                Ok(w1) => Some(Ok(args_of(seq![("at"@, w0), ("label"@, w1)])))
            },
        }
    } else if i == 82 && name == "reanchor"@ {
        match field_unwire::<String>(rec, "path"@) {
            Err(e) => Some(Err(CallErrorV::Argument { name: "reanchor"@, source: e })),
            Ok(w0) => Some(Ok(args_of(seq![("path"@, w0)])))
        }
    } else if i == 83 && name == "drop-regions"@ {
        match field_unwire::<Target>(rec, "target"@) {
            Err(e) => Some(Err(CallErrorV::Argument { name: "drop-regions"@, source: e })),
            Ok(w0) => Some(Ok(args_of(seq![("target"@, w0)])))
        }
    } else {
        None
    }
}

/// Decoding a call to one of the [`ThreadAction`] capabilities: `None` when `name` is none of them.
pub open spec fn thread_action_from(name: Seq<char>, rec: Seq<(Seq<char>, ValueV)>) -> Option<Result<Seq<(Seq<char>, ValueV)>, CallErrorV>> {
    let i = action_name_index(name);
    if i == 84 && name == "start-thread"@ {
        match field_unwire::<Target>(rec, "anchor"@) {
            Err(e) => Some(Err(CallErrorV::Argument { name: "start-thread"@, source: e })),
            Ok(w0) =>             match field_unwire::<String>(rec, "body"@) {
                Err(e) => Some(Err(CallErrorV::Argument { name: "start-thread"@, source: e })),
                Ok(w1) => Some(Ok(args_of(seq![("anchor"@, w0), ("body"@, w1)])))
            },
        }
    } else if i == 85 && name == "reply-to-thread"@ {
        match field_unwire::<ThreadId>(rec, "thread"@) {
            Err(e) => Some(Err(CallErrorV::Argument { name: "reply-to-thread"@, source: e })),
            Ok(w0) =>             match field_unwire::<String>(rec, "body"@) {
                Err(e) => Some(Err(CallErrorV::Argument { name: "reply-to-thread"@, source: e })),
                Ok(w1) => Some(Ok(args_of(seq![("thread"@, w0), ("body"@, w1)])))
            },
        }
    } else if i == 86 && name == "resolve-thread"@ {
        match field_unwire::<ThreadId>(rec, "thread"@) {
            Err(e) => Some(Err(CallErrorV::Argument { name: "resolve-thread"@, source: e })),
            Ok(w0) => Some(Ok(args_of(seq![("thread"@, w0)])))
        }
    } else if i == 87 && name == "delete-thread"@ {
        match field_unwire::<ThreadId>(rec, "thread"@) {
            Err(e) => Some(Err(CallErrorV::Argument { name: "delete-thread"@, source: e })),
            Ok(w0) => Some(Ok(args_of(seq![("thread"@, w0)])))
        }
    } else if i == 88 && name == "broadcast-thread"@ {
        match field_unwire::<String>(rec, "pattern"@) {
            Err(e) => Some(Err(CallErrorV::Argument { name: "broadcast-thread"@, source: e })),
            Ok(w0) =>             match field_unwire::<String>(rec, "body"@) {
                Err(e) => Some(Err(CallErrorV::Argument { name: "broadcast-thread"@, source: e })),
                Ok(w1) => Some(Ok(args_of(seq![("pattern"@, w0), ("body"@, w1)])))
            },
        }
    } else {
        None
    }
}

/// Decoding a call to one of the [`ReviewAction`] capabilities: `None` when `name` is none of them.
pub open spec fn review_action_from(name: Seq<char>, rec: Seq<(Seq<char>, ValueV)>) -> Option<Result<Seq<(Seq<char>, ValueV)>, CallErrorV>> {
    let i = action_name_index(name);
    if i == 89 && name == "declare-review-block"@ {
        match field_unwire::<String>(rec, "title"@) {
            Err(e) => Some(Err(CallErrorV::Argument { name: "declare-review-block"@, source: e })),
            Ok(w0) =>             match field_unwire::<Vec<FileGroup>>(rec, "files"@) {
                Err(e) => Some(Err(CallErrorV::Argument { name: "declare-review-block"@, source: e })),
                Ok(w1) =>                 match field_unwire::<Option<String>>(rec, "annotation"@) {
                    Err(e) => Some(Err(CallErrorV::Argument { name: "declare-review-block"@, source: e })),
                    Ok(w2) => Some(Ok(args_of(seq![("title"@, w0), ("files"@, w1), ("annotation"@, w2)])))
                },
            },
        }
    } else if i == 90 && name == "open-review-block"@ {
        match field_unwire::<BlockId>(rec, "block"@) {
            Err(e) => Some(Err(CallErrorV::Argument { name: "open-review-block"@, source: e })),
            Ok(w0) => Some(Ok(args_of(seq![("block"@, w0)])))
        }
    } else if i == 91 && name == "set-diff-mode"@ {
        match field_unwire::<DiffMode>(rec, "mode"@) {
            Err(e) => Some(Err(CallErrorV::Argument { name: "set-diff-mode"@, source: e })),
            Ok(w0) => Some(Ok(args_of(seq![("mode"@, w0)])))
        }
    } else if i == 92 && name == "expand-diff-context"@ {
        match field_unwire::<HunkId>(rec, "hunk"@) {
            Err(e) => Some(Err(CallErrorV::Argument { name: "expand-diff-context"@, source: e })),
            Ok(w0) =>             match field_unwire::<u32>(rec, "lines"@) {
                Err(e) => Some(Err(CallErrorV::Argument { name: "expand-diff-context"@, source: e })),
                Ok(w1) => Some(Ok(args_of(seq![("hunk"@, w0), ("lines"@, w1)])))
            },
        }
    } else if i == 93 && name == "set-diff-grouping"@ {
        match field_unwire::<Grouping>(rec, "grouping"@) {
            Err(e) => Some(Err(CallErrorV::Argument { name: "set-diff-grouping"@, source: e })),
            Ok(w0) => Some(Ok(args_of(seq![("grouping"@, w0)])))
        }
    } else if i == 94 && name == "annotate-group"@ {
        match field_unwire::<GroupId>(rec, "group"@) {
            Err(e) => Some(Err(CallErrorV::Argument { name: "annotate-group"@, source: e })),
            Ok(w0) =>             match field_unwire::<String>(rec, "text"@) {
                Err(e) => Some(Err(CallErrorV::Argument { name: "annotate-group"@, source: e })),
                Ok(w1) => Some(Ok(args_of(seq![("group"@, w0), ("text"@, w1)])))
            },
        }
    } else if i == 95 && name == "revert-hunk"@ {
        match field_unwire::<HunkId>(rec, "hunk"@) {
            Err(e) => Some(Err(CallErrorV::Argument { name: "revert-hunk"@, source: e })),
            Ok(w0) => Some(Ok(args_of(seq![("hunk"@, w0)])))
        }
    } else if i == 96 && name == "open-hunk-peek"@ {
        match field_unwire::<Target>(rec, "target"@) {
            Err(e) => Some(Err(CallErrorV::Argument { name: "open-hunk-peek"@, source: e })),
            Ok(w0) => Some(Ok(args_of(seq![("target"@, w0)])))
        }
    } else {
        None
    }
}

/// Decoding a call to one of the [`InboxAction`] capabilities: `None` when `name` is none of them.
pub open spec fn inbox_action_from(name: Seq<char>, rec: Seq<(Seq<char>, ValueV)>) -> Option<Result<Seq<(Seq<char>, ValueV)>, CallErrorV>> {
    let i = action_name_index(name);
    if i == 97 && name == "open-inbox"@ {
        Some(Ok(args_of(seq![])))
    } else if i == 98 && name == "open-inbox-item"@ {
        match field_unwire::<InboxId>(rec, "item"@) {
            Err(e) => Some(Err(CallErrorV::Argument { name: "open-inbox-item"@, source: e })),
            Ok(w0) => Some(Ok(args_of(seq![("item"@, w0)])))
        }
    } else if i == 99 && name == "notify"@ {
        match field_unwire::<Severity>(rec, "severity"@) {
            Err(e) => Some(Err(CallErrorV::Argument { name: "notify"@, source: e })),
            Ok(w0) =>             match field_unwire::<String>(rec, "title"@) {
                Err(e) => Some(Err(CallErrorV::Argument { name: "notify"@, source: e })),
                Ok(w1) =>                 match field_unwire::<Option<String>>(rec, "body"@) {
                    Err(e) => Some(Err(CallErrorV::Argument { name: "notify"@, source: e })),
                    Ok(w2) =>                     match field_unwire::<Option<Target>>(rec, "anchor"@) {
                        Err(e) => Some(Err(CallErrorV::Argument { name: "notify"@, source: e })),
                        Ok(w3) => Some(Ok(args_of(seq![("severity"@, w0), ("title"@, w1), ("body"@, w2), ("anchor"@, w3)])))
                    },
                },
            },
        }
    } else {
        None
    }
}

/// Decoding a call to one of the [`AskAction`] capabilities: `None` when `name` is none of them.
pub open spec fn ask_action_from(name: Seq<char>, rec: Seq<(Seq<char>, ValueV)>) -> Option<Result<Seq<(Seq<char>, ValueV)>, CallErrorV>> {
    let i = action_name_index(name);
    if i == 100 && name == "enqueue-ask"@ {
        match field_unwire::<String>(rec, "prose"@) {
            Err(e) => Some(Err(CallErrorV::Argument { name: "enqueue-ask"@, source: e })),
            Ok(w0) =>             match field_unwire::<Vec<AskOption>>(rec, "options"@) {
                Err(e) => Some(Err(CallErrorV::Argument { name: "enqueue-ask"@, source: e })),
                Ok(w1) => Some(Ok(args_of(seq![("prose"@, w0), ("options"@, w1)])))
            },
        }
    } else if i == 101 && name == "answer-ask"@ {
        match field_unwire::<AskId>(rec, "ask"@) {
            Err(e) => Some(Err(CallErrorV::Argument { name: "answer-ask"@, source: e })),
            Ok(w0) =>             match field_unwire::<Option<u32>>(rec, "digit"@) {
                Err(e) => Some(Err(CallErrorV::Argument { name: "answer-ask"@, source: e })),
                Ok(w1) =>                 match field_unwire::<Option<String>>(rec, "prose"@) {
                    Err(e) => Some(Err(CallErrorV::Argument { name: "answer-ask"@, source: e })),
                    Ok(w2) => Some(Ok(args_of(seq![("ask"@, w0), ("digit"@, w1), ("prose"@, w2)])))
                },
            },
        }
    } else if i == 102 && name == "defer-ask"@ {
        match field_unwire::<Option<AskId>>(rec, "ask"@) {
            Err(e) => Some(Err(CallErrorV::Argument { name: "defer-ask"@, source: e })),
            Ok(w0) => Some(Ok(args_of(seq![("ask"@, w0)])))
        }
    } else if i == 103 && name == "request-permission"@ {
        match field_unwire::<String>(rec, "invocation"@) {
            Err(e) => Some(Err(CallErrorV::Argument { name: "request-permission"@, source: e })),
            Ok(w0) =>             match field_unwire::<Vec<String>>(rec, "files"@) {
                Err(e) => Some(Err(CallErrorV::Argument { name: "request-permission"@, source: e })),
                Ok(w1) => Some(Ok(args_of(seq![("invocation"@, w0), ("files"@, w1)])))
            },
        }
    } else if i == 104 && name == "grant-permission"@ {
        match field_unwire::<AskId>(rec, "ask"@) {
            Err(e) => Some(Err(CallErrorV::Argument { name: "grant-permission"@, source: e })),
            Ok(w0) =>             match field_unwire::<GrantScope>(rec, "scope"@) {
                Err(e) => Some(Err(CallErrorV::Argument { name: "grant-permission"@, source: e })),
                Ok(w1) => Some(Ok(args_of(seq![("ask"@, w0), ("scope"@, w1)])))
            },
        }
    } else if i == 105 && name == "deny-permission"@ {
        match field_unwire::<AskId>(rec, "ask"@) {
            Err(e) => Some(Err(CallErrorV::Argument { name: "deny-permission"@, source: e })),
            Ok(w0) => Some(Ok(args_of(seq![("ask"@, w0)])))
        }
    } else {
        None
    }
}

/// Decoding a call to one of the [`SessionAction`] capabilities: `None` when `name` is none of them.
pub open spec fn session_action_from(name: Seq<char>, rec: Seq<(Seq<char>, ValueV)>) -> Option<Result<Seq<(Seq<char>, ValueV)>, CallErrorV>> {
    let i = action_name_index(name);
    if i == 106 && name == "start-session"@ {
        match field_unwire::<String>(rec, "agent"@) {
            Err(e) => Some(Err(CallErrorV::Argument { name: "start-session"@, source: e })),
            Ok(w0) =>             match field_unwire::<Option<String>>(rec, "cwd"@) {
                Err(e) => Some(Err(CallErrorV::Argument { name: "start-session"@, source: e })),
                Ok(w1) => Some(Ok(args_of(seq![("agent"@, w0), ("cwd"@, w1)])))
            },
        }
    } else if i == 107 && name == "discover-sessions"@ {
        Some(Ok(args_of(seq![])))
    } else if i == 108 && name == "adopt-session"@ {
        match field_unwire::<String>(rec, "handle"@) {
            Err(e) => Some(Err(CallErrorV::Argument { name: "adopt-session"@, source: e })),
            Ok(w0) => Some(Ok(args_of(seq![("handle"@, w0)])))
        }
    } else if i == 109 && name == "attach-session"@ {
        match field_unwire::<String>(rec, "endpoint"@) {
            Err(e) => Some(Err(CallErrorV::Argument { name: "attach-session"@, source: e })),
            Ok(w0) => Some(Ok(args_of(seq![("endpoint"@, w0)])))
        }
    } else if i == 110 && name == "reattach-session"@ {
        Some(Ok(args_of(seq![])))
    } else if i == 111 && name == "detach-session"@ {
        Some(Ok(args_of(seq![])))
    } else if i == 112 && name == "end-session"@ {
        match field_unwire::<bool>(rec, "force"@) {
            Err(e) => Some(Err(CallErrorV::Argument { name: "end-session"@, source: e })),
            Ok(w0) => Some(Ok(args_of(seq![("force"@, w0)])))
        }
    } else if i == 113 && name == "send-message"@ {
        match field_unwire::<String>(rec, "body"@) {
            Err(e) => Some(Err(CallErrorV::Argument { name: "send-message"@, source: e })),
            Ok(w0) =>             match field_unwire::<Vec<Target>>(rec, "anchors"@) {
                Err(e) => Some(Err(CallErrorV::Argument { name: "send-message"@, source: e })),
                Ok(w1) => Some(Ok(args_of(seq![("body"@, w0), ("anchors"@, w1)])))
            },
        }
    } else if i == 114 && name == "interrupt-session"@ {
        Some(Ok(args_of(seq![])))
    } else if i == 115 && name == "steer-session"@ {
        match field_unwire::<String>(rec, "body"@) {
            Err(e) => Some(Err(CallErrorV::Argument { name: "steer-session"@, source: e })),
            Ok(w0) => Some(Ok(args_of(seq![("body"@, w0)])))
        }
    } else if i == 116 && name == "resume-session"@ {
        Some(Ok(args_of(seq![])))
    } else if i == 117 && name == "abort-turn"@ {
        Some(Ok(args_of(seq![])))
    } else if i == 118 && name == "turn-began"@ {
        match field_unwire::<TurnId>(rec, "turn"@) {
            Err(e) => Some(Err(CallErrorV::Argument { name: "turn-began"@, source: e })),
            Ok(w0) =>             match field_unwire::<Option<String>>(rec, "prompt"@) {
                Err(e) => Some(Err(CallErrorV::Argument { name: "turn-began"@, source: e })),
                Ok(w1) => Some(Ok(args_of(seq![("turn"@, w0), ("prompt"@, w1)])))
            },
        }
    } else if i == 119 && name == "turn-ended"@ {
        match field_unwire::<TurnId>(rec, "turn"@) {
            Err(e) => Some(Err(CallErrorV::Argument { name: "turn-ended"@, source: e })),
            Ok(w0) =>             match field_unwire::<Option<String>>(rec, "summary"@) {
                Err(e) => Some(Err(CallErrorV::Argument { name: "turn-ended"@, source: e })),
                Ok(w1) => Some(Ok(args_of(seq![("turn"@, w0), ("summary"@, w1)])))
            },
        }
    } else if i == 120 && name == "session-prose"@ {
        match field_unwire::<TurnId>(rec, "turn"@) {
            Err(e) => Some(Err(CallErrorV::Argument { name: "session-prose"@, source: e })),
            Ok(w0) =>             match field_unwire::<String>(rec, "chunk"@) {
                Err(e) => Some(Err(CallErrorV::Argument { name: "session-prose"@, source: e })),
                Ok(w1) => Some(Ok(args_of(seq![("turn"@, w0), ("chunk"@, w1)])))
            },
        }
    } else if i == 121 && name == "tool-call-started"@ {
        match field_unwire::<TurnId>(rec, "turn"@) {
            Err(e) => Some(Err(CallErrorV::Argument { name: "tool-call-started"@, source: e })),
            Ok(w0) =>             match field_unwire::<ToolCallId>(rec, "call"@) {
                Err(e) => Some(Err(CallErrorV::Argument { name: "tool-call-started"@, source: e })),
                Ok(w1) =>                 match field_unwire::<String>(rec, "verb"@) {
                    Err(e) => Some(Err(CallErrorV::Argument { name: "tool-call-started"@, source: e })),
                    Ok(w2) =>                     match field_unwire::<Option<String>>(rec, "target"@) {
                        Err(e) => Some(Err(CallErrorV::Argument { name: "tool-call-started"@, source: e })),
                        Ok(w3) =>                         match field_unwire::<Option<String>>(rec, "path"@) {
                            Err(e) => Some(Err(CallErrorV::Argument { name: "tool-call-started"@, source: e })),
                            Ok(w4) =>                             match field_unwire::<Option<u32>>(rec, "line"@) {
                                Err(e) => Some(Err(CallErrorV::Argument { name: "tool-call-started"@, source: e })),
                                Ok(w5) => Some(Ok(args_of(seq![("turn"@, w0), ("call"@, w1), ("verb"@, w2), ("target"@, w3), ("path"@, w4), ("line"@, w5)])))
                            },
                        },
                    },
                },
            },
        }
    } else if i == 122 && name == "tool-call-progress"@ {
        match field_unwire::<ToolCallId>(rec, "call"@) {
            Err(e) => Some(Err(CallErrorV::Argument { name: "tool-call-progress"@, source: e })),
            Ok(w0) =>             match field_unwire::<String>(rec, "note"@) {
                Err(e) => Some(Err(CallErrorV::Argument { name: "tool-call-progress"@, source: e })),
                Ok(w1) => Some(Ok(args_of(seq![("call"@, w0), ("note"@, w1)])))
            },
        }
    } else if i == 123 && name == "tool-call-completed"@ {
        match field_unwire::<ToolCallId>(rec, "call"@) {
            Err(e) => Some(Err(CallErrorV::Argument { name: "tool-call-completed"@, source: e })),
            Ok(w0) =>             match field_unwire::<String>(rec, "summary"@) {
                Err(e) => Some(Err(CallErrorV::Argument { name: "tool-call-completed"@, source: e })),
                Ok(w1) =>                 match field_unwire::<u32>(rec, "added"@) {
                    Err(e) => Some(Err(CallErrorV::Argument { name: "tool-call-completed"@, source: e })),
                    Ok(w2) =>                     match field_unwire::<u32>(rec, "removed"@) {
                        Err(e) => Some(Err(CallErrorV::Argument { name: "tool-call-completed"@, source: e })),
                        Ok(w3) => Some(Ok(args_of(seq![("call"@, w0), ("summary"@, w1), ("added"@, w2), ("removed"@, w3)])))
                    },
                },
            },
        }
    } else if i == 124 && name == "session-seam"@ {
        match field_unwire::<SeamKind>(rec, "kind"@) {
            Err(e) => Some(Err(CallErrorV::Argument { name: "session-seam"@, source: e })),
            Ok(w0) =>             match field_unwire::<Option<String>>(rec, "note"@) {
                Err(e) => Some(Err(CallErrorV::Argument { name: "session-seam"@, source: e })),
                Ok(w1) => Some(Ok(args_of(seq![("kind"@, w0), ("note"@, w1)])))
            },
        }
    } else {
        None
    }
}

/// Decoding a call to one of the [`WatchAction`] capabilities: `None` when `name` is none of them.
pub open spec fn watch_action_from(name: Seq<char>, rec: Seq<(Seq<char>, ValueV)>) -> Option<Result<Seq<(Seq<char>, ValueV)>, CallErrorV>> {
    let i = action_name_index(name);
    if i == 125 && name == "place-watch"@ {
        match field_unwire::<Target>(rec, "anchor"@) {
            Err(e) => Some(Err(CallErrorV::Argument { name: "place-watch"@, source: e })),
            Ok(w0) =>             match field_unwire::<String>(rec, "expr"@) {
                Err(e) => Some(Err(CallErrorV::Argument { name: "place-watch"@, source: e })),
                Ok(w1) => Some(Ok(args_of(seq![("anchor"@, w0), ("expr"@, w1)])))
            },
        }
    } else if i == 126 && name == "remove-watch"@ {
        match field_unwire::<WatchId>(rec, "watch"@) {
            Err(e) => Some(Err(CallErrorV::Argument { name: "remove-watch"@, source: e })),
            Ok(w0) => Some(Ok(args_of(seq![("watch"@, w0)])))
        }
    } else if i == 127 && name == "set-watch-visible"@ {
        match field_unwire::<WatchId>(rec, "watch"@) {
            Err(e) => Some(Err(CallErrorV::Argument { name: "set-watch-visible"@, source: e })),
            Ok(w0) =>             match field_unwire::<bool>(rec, "on"@) {
                Err(e) => Some(Err(CallErrorV::Argument { name: "set-watch-visible"@, source: e })),
                Ok(w1) => Some(Ok(args_of(seq![("watch"@, w0), ("on"@, w1)])))
            },
        }
    } else if i == 128 && name == "push-watch-values"@ {
        match field_unwire::<WatchId>(rec, "watch"@) {
            Err(e) => Some(Err(CallErrorV::Argument { name: "push-watch-values"@, source: e })),
            Ok(w0) =>             match field_unwire::<Vec<String>>(rec, "values"@) {
                Err(e) => Some(Err(CallErrorV::Argument { name: "push-watch-values"@, source: e })),
                Ok(w1) =>                 match field_unwire::<Option<String>>(rec, "provenance"@) {
                    Err(e) => Some(Err(CallErrorV::Argument { name: "push-watch-values"@, source: e })),
                    Ok(w2) => Some(Ok(args_of(seq![("watch"@, w0), ("values"@, w1), ("provenance"@, w2)])))
                },
            },
        }
    } else if i == 129 && name == "clear-watch-values"@ {
        match field_unwire::<WatchId>(rec, "watch"@) {
            Err(e) => Some(Err(CallErrorV::Argument { name: "clear-watch-values"@, source: e })),
            Ok(w0) => Some(Ok(args_of(seq![("watch"@, w0)])))
        }
    } else {
        None
    }
}

/// Decoding a call to one of the [`LspAction`] capabilities: `None` when `name` is none of them.
pub open spec fn lsp_action_from(name: Seq<char>, rec: Seq<(Seq<char>, ValueV)>) -> Option<Result<Seq<(Seq<char>, ValueV)>, CallErrorV>> {
    let i = action_name_index(name);
    if i == 130 && name == "request-completion"@ {
        Some(Ok(args_of(seq![])))
    } else if i == 131 && name == "move-completion"@ {
        match field_unwire::<i64>(rec, "delta"@) {
            Err(e) => Some(Err(CallErrorV::Argument { name: "move-completion"@, source: e })),
            Ok(w0) =>             match field_unwire::<Option<Binding>>(rec, "otherwise"@) {
                Err(e) => Some(Err(CallErrorV::Argument { name: "move-completion"@, source: e })),
                Ok(w1) => Some(Ok(args_of(seq![("delta"@, w0), ("otherwise"@, w1)])))
            },
        }
    } else if i == 132 && name == "accept-completion"@ {
        match field_unwire::<u32>(rec, "index"@) {
            Err(e) => Some(Err(CallErrorV::Argument { name: "accept-completion"@, source: e })),
            Ok(w0) =>             match field_unwire::<Option<String>>(rec, "then"@) {
                Err(e) => Some(Err(CallErrorV::Argument { name: "accept-completion"@, source: e })),
                Ok(w1) =>                 match field_unwire::<Option<String>>(rec, "otherwise"@) {
                    Err(e) => Some(Err(CallErrorV::Argument { name: "accept-completion"@, source: e })),
                    Ok(w2) => Some(Ok(args_of(seq![("index"@, w0), ("then"@, w1), ("otherwise"@, w2)])))
                },
            },
        }
    } else if i == 133 && name == "cancel-completion"@ {
        Some(Ok(args_of(seq![])))
    } else if i == 134 && name == "request-hover"@ {
        Some(Ok(args_of(seq![])))
    } else if i == 135 && name == "request-signature-help"@ {
        Some(Ok(args_of(seq![])))
    } else if i == 136 && name == "request-definition"@ {
        Some(Ok(args_of(seq![])))
    } else if i == 137 && name == "request-references"@ {
        Some(Ok(args_of(seq![])))
    } else if i == 138 && name == "ingest-completions"@ {
        match field_unwire::<Vec<Completion>>(rec, "items"@) {
            Err(e) => Some(Err(CallErrorV::Argument { name: "ingest-completions"@, source: e })),
            Ok(w0) =>             match field_unwire::<Position>(rec, "at"@) {
                Err(e) => Some(Err(CallErrorV::Argument { name: "ingest-completions"@, source: e })),
                Ok(w1) =>                 match field_unwire::<Option<BufferId>>(rec, "buffer"@) {
                    Err(e) => Some(Err(CallErrorV::Argument { name: "ingest-completions"@, source: e })),
                    Ok(w2) => Some(Ok(args_of(seq![("items"@, w0), ("at"@, w1), ("buffer"@, w2)])))
                },
            },
        }
    } else if i == 139 && name == "ingest-signature-help"@ {
        match field_unwire::<Option<Signature>>(rec, "signature"@) {
            Err(e) => Some(Err(CallErrorV::Argument { name: "ingest-signature-help"@, source: e })),
            Ok(w0) =>             match field_unwire::<Position>(rec, "at"@) {
                Err(e) => Some(Err(CallErrorV::Argument { name: "ingest-signature-help"@, source: e })),
                Ok(w1) =>                 match field_unwire::<Option<BufferId>>(rec, "buffer"@) {
                    Err(e) => Some(Err(CallErrorV::Argument { name: "ingest-signature-help"@, source: e })),
                    Ok(w2) => Some(Ok(args_of(seq![("signature"@, w0), ("at"@, w1), ("buffer"@, w2)])))
                },
            },
        }
    } else if i == 140 && name == "ingest-hover"@ {
        match field_unwire::<Vec<String>>(rec, "prose"@) {
            Err(e) => Some(Err(CallErrorV::Argument { name: "ingest-hover"@, source: e })),
            Ok(w0) =>             match field_unwire::<Position>(rec, "at"@) {
                Err(e) => Some(Err(CallErrorV::Argument { name: "ingest-hover"@, source: e })),
                Ok(w1) =>                 match field_unwire::<Option<BufferId>>(rec, "buffer"@) {
                    Err(e) => Some(Err(CallErrorV::Argument { name: "ingest-hover"@, source: e })),
                    Ok(w2) => Some(Ok(args_of(seq![("prose"@, w0), ("at"@, w1), ("buffer"@, w2)])))
                },
            },
        }
    } else if i == 141 && name == "ingest-diagnostics"@ {
        match field_unwire::<String>(rec, "path"@) {
            Err(e) => Some(Err(CallErrorV::Argument { name: "ingest-diagnostics"@, source: e })),
            Ok(w0) =>             match field_unwire::<Vec<Diagnostic>>(rec, "diagnostics"@) {
                Err(e) => Some(Err(CallErrorV::Argument { name: "ingest-diagnostics"@, source: e })),
                Ok(w1) => Some(Ok(args_of(seq![("path"@, w0), ("diagnostics"@, w1)])))
            },
        }
    } else if i == 142 && name == "apply-workspace-edit"@ {
        match field_unwire::<Vec<FileEdits>>(rec, "files"@) {
            Err(e) => Some(Err(CallErrorV::Argument { name: "apply-workspace-edit"@, source: e })),
            Ok(w0) => Some(Ok(args_of(seq![("files"@, w0)])))
        }
    } else if i == 143 && name == "restart-language-server"@ {
        match field_unwire::<LanguageId>(rec, "language"@) {
            Err(e) => Some(Err(CallErrorV::Argument { name: "restart-language-server"@, source: e })),
            Ok(w0) => Some(Ok(args_of(seq![("language"@, w0)])))
        }
    } else {
        None
    }
}

/// Decoding a call to one of the [`VcsAction`] capabilities: `None` when `name` is none of them.
pub open spec fn vcs_action_from(name: Seq<char>, rec: Seq<(Seq<char>, ValueV)>) -> Option<Result<Seq<(Seq<char>, ValueV)>, CallErrorV>> {
    let i = action_name_index(name);
    if i == 144 && name == "refresh-vcs"@ {
        Some(Ok(args_of(seq![])))
    } else if i == 145 && name == "open-timeline"@ {
        Some(Ok(args_of(seq![])))
    } else if i == 146 && name == "show-change-diff"@ {
        match field_unwire::<ChangeId>(rec, "change"@) {
            Err(e) => Some(Err(CallErrorV::Argument { name: "show-change-diff"@, source: e })),
            Ok(w0) => Some(Ok(args_of(seq![("change"@, w0)])))
        }
    } else if i == 147 && name == "open-operation-log"@ {
        Some(Ok(args_of(seq![])))
    } else if i == 148 && name == "edit-at-change"@ {
        match field_unwire::<ChangeId>(rec, "change"@) {
            Err(e) => Some(Err(CallErrorV::Argument { name: "edit-at-change"@, source: e })),
            Ok(w0) => Some(Ok(args_of(seq![("change"@, w0)])))
        }
    } else if i == 149 && name == "restore-change"@ {
        match field_unwire::<ChangeId>(rec, "change"@) {
            Err(e) => Some(Err(CallErrorV::Argument { name: "restore-change"@, source: e })),
            Ok(w0) => Some(Ok(args_of(seq![("change"@, w0)])))
        }
    } else {
        None
    }
}

/// Decoding a call to one of the [`RuntimeAction`] capabilities: `None` when `name` is none of them.
pub open spec fn runtime_action_from(name: Seq<char>, rec: Seq<(Seq<char>, ValueV)>) -> Option<Result<Seq<(Seq<char>, ValueV)>, CallErrorV>> {
    let i = action_name_index(name);
    if i == 150 && name == "eval"@ {
        match field_unwire::<String>(rec, "source"@) {
            Err(e) => Some(Err(CallErrorV::Argument { name: "eval"@, source: e })),
            Ok(w0) => Some(Ok(args_of(seq![("source"@, w0)])))
        }
    } else if i == 151 && name == "load-runtime-file"@ {
        match field_unwire::<String>(rec, "path"@) {
            Err(e) => Some(Err(CallErrorV::Argument { name: "load-runtime-file"@, source: e })),
            Ok(w0) => Some(Ok(args_of(seq![("path"@, w0)])))
        }
    } else if i == 152 && name == "reload-runtime"@ {
        Some(Ok(args_of(seq![])))
    } else if i == 153 && name == "open-repl"@ {
        Some(Ok(args_of(seq![])))
    } else if i == 154 && name == "close-repl"@ {
        Some(Ok(args_of(seq![])))
    } else if i == 155 && name == "repl-history"@ {
        match field_unwire::<i64>(rec, "delta"@) {
            Err(e) => Some(Err(CallErrorV::Argument { name: "repl-history"@, source: e })),
            Ok(w0) => Some(Ok(args_of(seq![("delta"@, w0)])))
        }
    } else if i == 156 && name == "repl-to-buffer"@ {
        Some(Ok(args_of(seq![])))
    } else if i == 157 && name == "persist-form"@ {
        match field_unwire::<String>(rec, "form"@) {
            Err(e) => Some(Err(CallErrorV::Argument { name: "persist-form"@, source: e })),
            Ok(w0) => Some(Ok(args_of(seq![("form"@, w0)])))
        }
    } else if i == 158 && name == "set-keybinding"@ {
        match field_unwire::<KeySeq>(rec, "keys"@) {
            Err(e) => Some(Err(CallErrorV::Argument { name: "set-keybinding"@, source: e })),
            Ok(w0) =>             match field_unwire::<Binding>(rec, "binding"@) {
                Err(e) => Some(Err(CallErrorV::Argument { name: "set-keybinding"@, source: e })),
                Ok(w1) =>                 match field_unwire::<Option<EditMode>>(rec, "mode"@) {
                    Err(e) => Some(Err(CallErrorV::Argument { name: "set-keybinding"@, source: e })),
                    Ok(w2) => Some(Ok(args_of(seq![("keys"@, w0), ("binding"@, w1), ("mode"@, w2)])))
                },
            },
        }
    } else if i == 159 && name == "remove-keybinding"@ {
        match field_unwire::<KeySeq>(rec, "keys"@) {
            Err(e) => Some(Err(CallErrorV::Argument { name: "remove-keybinding"@, source: e })),
            Ok(w0) =>             match field_unwire::<Option<EditMode>>(rec, "mode"@) {
                Err(e) => Some(Err(CallErrorV::Argument { name: "remove-keybinding"@, source: e })),
                Ok(w1) => Some(Ok(args_of(seq![("keys"@, w0), ("mode"@, w1)])))
            },
        }
    } else if i == 160 && name == "define-language"@ {
        match field_unwire::<LanguageId>(rec, "language"@) {
            Err(e) => Some(Err(CallErrorV::Argument { name: "define-language"@, source: e })),
            Ok(w0) =>             match field_unwire::<LanguageSpec>(rec, "spec"@) {
                Err(e) => Some(Err(CallErrorV::Argument { name: "define-language"@, source: e })),
                Ok(w1) => Some(Ok(args_of(seq![("language"@, w0), ("spec"@, w1)])))
            },
        }
    } else if i == 161 && name == "set-option"@ {
        match field_unwire::<String>(rec, "key"@) {
            Err(e) => Some(Err(CallErrorV::Argument { name: "set-option"@, source: e })),
            Ok(w0) =>             match field_unwire::<Value>(rec, "value"@) {
                Err(e) => Some(Err(CallErrorV::Argument { name: "set-option"@, source: e })),
                Ok(w1) => Some(Ok(args_of(seq![("key"@, w0), ("value"@, w1)])))
            },
        }
    } else if i == 162 && name == "set-theme"@ {
        match field_unwire::<ThemeSlug>(rec, "slug"@) {
            Err(e) => Some(Err(CallErrorV::Argument { name: "set-theme"@, source: e })),
            Ok(w0) => Some(Ok(args_of(seq![("slug"@, w0)])))
        }
    } else if i == 163 && name == "reload-theme"@ {
        Some(Ok(args_of(seq![])))
    } else {
        None
    }
}

/// Decoding a call to one of the [`AppAction`] capabilities: `None` when `name` is none of them.
pub open spec fn app_action_from(name: Seq<char>, rec: Seq<(Seq<char>, ValueV)>) -> Option<Result<Seq<(Seq<char>, ValueV)>, CallErrorV>> {
    let i = action_name_index(name);
    if i == 164 && name == "quit"@ {
        match field_unwire::<bool>(rec, "force"@) {
            Err(e) => Some(Err(CallErrorV::Argument { name: "quit"@, source: e })),
            Ok(w0) => Some(Ok(args_of(seq![("force"@, w0)])))
        }
    } else if i == 165 && name == "show-unknown-key-hint"@ {
        match field_unwire::<KeySeq>(rec, "key"@) {
            Err(e) => Some(Err(CallErrorV::Argument { name: "show-unknown-key-hint"@, source: e })),
            Ok(w0) => Some(Ok(args_of(seq![("key"@, w0)])))
        }
    } else if i == 166 && name == "open-help"@ {
        match field_unwire::<Option<String>>(rec, "topic"@) {
            Err(e) => Some(Err(CallErrorV::Argument { name: "open-help"@, source: e })),
            Ok(w0) => Some(Ok(args_of(seq![("topic"@, w0)])))
        }
    } else if i == 167 && name == "open-arch"@ {
        Some(Ok(args_of(seq![])))
    } else if i == 168 && name == "open-dashboard"@ {
        Some(Ok(args_of(seq![])))
    } else if i == 169 && name == "dismiss-dashboard-hint"@ {
        Some(Ok(args_of(seq![])))
    } else {
        None
    }
}

/// Decoding a call: the arguments of the capability `name` names, or why
/// the call does not decode.
pub open spec fn spec_action_from_call(name: Seq<char>, rec: Seq<(Seq<char>, ValueV)>) -> Result<Seq<(Seq<char>, ValueV)>, CallErrorV> {
    let i = action_name_index(name);
    let found = if 0 <= i < 13 {
        buffer_action_from(name, rec)
    } else if 13 <= i < 23 {
        motion_action_from(name, rec)
    } else if 23 <= i < 29 {
        view_action_from(name, rec)
    } else if 29 <= i < 36 {
        input_action_from(name, rec)
    } else if 36 <= i < 41 {
        history_action_from(name, rec)
    } else if 41 <= i < 51 {
        file_action_from(name, rec)
    } else if 51 <= i < 60 {
        float_action_from(name, rec)
    } else if 60 <= i < 66 {
        pane_action_from(name, rec)
    } else if 66 <= i < 73 {
        picker_action_from(name, rec)
    } else if 73 <= i < 78 {
        prompt_action_from(name, rec)
    } else if 78 <= i < 84 {
        region_action_from(name, rec)
    } else if 84 <= i < 89 {
        thread_action_from(name, rec)
    } else if 89 <= i < 97 {
        review_action_from(name, rec)
    } else if 97 <= i < 100 {
        inbox_action_from(name, rec)
    } else if 100 <= i < 106 {
        ask_action_from(name, rec)
    } else if 106 <= i < 125 {
        session_action_from(name, rec)
    } else if 125 <= i < 130 {
        watch_action_from(name, rec)
    } else if 130 <= i < 144 {
        lsp_action_from(name, rec)
    } else if 144 <= i < 150 {
        vcs_action_from(name, rec)
    } else if 150 <= i < 164 {
        runtime_action_from(name, rec)
    } else if 164 <= i < 170 {
        app_action_from(name, rec)
    } else {
        None
    };
    match found {
        Some(r) => r,
        None => Err(CallErrorV::Unknown { name }),
    }
}

fn buffer_action_call(x: &BufferAction) -> (r: Call)
    ensures
        r.name@ == spec_action_name(Action::Buffer(*x)),
        crate::value::record_view(r.args@) == buffer_action_args(*x),
{
    match x {
        BufferAction::Insert { at, text } => {
            let mut f: Vec<(&'static str, Value)> = Vec::new();
            f.push(("at", at.to_value()));
            f.push(("text", text.to_value()));
            proof {
                assert(named_view(f@) =~= seq![("at"@, at.wire()), ("text"@, text.wire())]);
            }
            Call { name: String::from_str("insert"), args: args_from(f) }
        },
        BufferAction::Delete { span } => {
            let mut f: Vec<(&'static str, Value)> = Vec::new();
            f.push(("span", span.to_value()));
            proof {
                assert(named_view(f@) =~= seq![("span"@, span.wire())]);
            }
            Call { name: String::from_str("delete"), args: args_from(f) }
        },
        BufferAction::Replace { span, text } => {
            let mut f: Vec<(&'static str, Value)> = Vec::new();
            f.push(("span", span.to_value()));
            f.push(("text", text.to_value()));
            proof {
                assert(named_view(f@) =~= seq![("span"@, span.wire()), ("text"@, text.wire())]);
            }
            Call { name: String::from_str("replace"), args: args_from(f) }
        },
        BufferAction::ApplyEdits { edits } => {
            let mut f: Vec<(&'static str, Value)> = Vec::new();
            f.push(("edits", edits.to_value()));
            proof {
                assert(named_view(f@) =~= seq![("edits"@, edits.wire())]);
            }
            Call { name: String::from_str("apply-edits"), args: args_from(f) }
        },
        BufferAction::Yank { target, register } => {
            let mut f: Vec<(&'static str, Value)> = Vec::new();
            f.push(("target", target.to_value()));
            f.push(("register", register.to_value()));
            proof {
                assert(named_view(f@) =~= seq![("target"@, target.wire()), ("register"@, register.wire())]);
            }
            Call { name: String::from_str("yank"), args: args_from(f) }
        },
        BufferAction::Paste { at, register, before } => {
            let mut f: Vec<(&'static str, Value)> = Vec::new();
            f.push(("at", at.to_value()));
            f.push(("register", register.to_value()));
            f.push(("before", before.to_value()));
            proof {
                assert(named_view(f@) =~= seq![("at"@, at.wire()), ("register"@, register.wire()), ("before"@, before.wire())]);
            }
            Call { name: String::from_str("paste"), args: args_from(f) }
        },
        BufferAction::SetRegister { register, text } => {
            let mut f: Vec<(&'static str, Value)> = Vec::new();
            f.push(("register", register.to_value()));
            f.push(("text", text.to_value()));
            proof {
                assert(named_view(f@) =~= seq![("register"@, register.wire()), ("text"@, text.wire())]);
            }
            Call { name: String::from_str("set-register"), args: args_from(f) }
        },
        BufferAction::Indent { target, delta } => {
            let mut f: Vec<(&'static str, Value)> = Vec::new();
            f.push(("target", target.to_value()));
            f.push(("delta", delta.to_value()));
            proof {
                assert(named_view(f@) =~= seq![("target"@, target.wire()), ("delta"@, delta.wire())]);
            }
            Call { name: String::from_str("indent"), args: args_from(f) }
        },
        BufferAction::InsertIndent {} => {
            let mut f: Vec<(&'static str, Value)> = Vec::new();
            proof {
                assert(named_view(f@) =~= seq![]);
            }
            Call { name: String::from_str("insert-indent"), args: args_from(f) }
        },
        BufferAction::JoinLines { target } => {
            let mut f: Vec<(&'static str, Value)> = Vec::new();
            f.push(("target", target.to_value()));
            proof {
                assert(named_view(f@) =~= seq![("target"@, target.wire())]);
            }
            Call { name: String::from_str("join-lines"), args: args_from(f) }
        },
        BufferAction::SetCase { target, case } => {
            let mut f: Vec<(&'static str, Value)> = Vec::new();
            f.push(("target", target.to_value()));
            f.push(("case", case.to_value()));
            proof {
                assert(named_view(f@) =~= seq![("target"@, target.wire()), ("case"@, case.wire())]);
            }
            Call { name: String::from_str("set-case"), args: args_from(f) }
        },
        BufferAction::ToggleComment { target } => {
            let mut f: Vec<(&'static str, Value)> = Vec::new();
            f.push(("target", target.to_value()));
            proof {
                assert(named_view(f@) =~= seq![("target"@, target.wire())]);
            }
            Call { name: String::from_str("toggle-comment"), args: args_from(f) }
        },
        BufferAction::AlignColumns { target } => {
            let mut f: Vec<(&'static str, Value)> = Vec::new();
            f.push(("target", target.to_value()));
            proof {
                assert(named_view(f@) =~= seq![("target"@, target.wire())]);
            }
            Call { name: String::from_str("align-columns"), args: args_from(f) }
        },
    }
}

fn buffer_action_decode(name: &str, args: &Args) -> (r: Option<Result<Action, ActionError>>)
    ensures
        match buffer_action_from(name@, crate::value::record_view(args@)) {
            None => r is None,
            Some(Ok(w)) => r matches Some(Ok(x)) && spec_action_name(x) == name@ && spec_action_args(x) == w,
            Some(Err(e)) => r matches Some(Err(err)) && action_error_view(err) == e,
        },
{
    proof {
        lemma_action_names();
    }
    if str_eq(name, "insert") {
        let at = match args.field::<Position>("at") {
            Ok(v) => v,
            Err(e) => return Some(Err(ActionError::Argument { name: "insert", source: e })),
        };
        let text = match args.field::<String>("text") {
            Ok(v) => v,
            Err(e) => return Some(Err(ActionError::Argument { name: "insert", source: e })),
        };
        Some(Ok(Action::Buffer(BufferAction::Insert { at, text })))
    } else if str_eq(name, "delete") {
        let span = match args.field::<Span>("span") {
            Ok(v) => v,
            Err(e) => return Some(Err(ActionError::Argument { name: "delete", source: e })),
        };
        Some(Ok(Action::Buffer(BufferAction::Delete { span })))
    } else if str_eq(name, "replace") {
        let span = match args.field::<Span>("span") {
            Ok(v) => v,
            Err(e) => return Some(Err(ActionError::Argument { name: "replace", source: e })),
        };
        let text = match args.field::<String>("text") {
            Ok(v) => v,
            Err(e) => return Some(Err(ActionError::Argument { name: "replace", source: e })),
        };
        Some(Ok(Action::Buffer(BufferAction::Replace { span, text })))
    } else if str_eq(name, "apply-edits") {
        let edits = match args.field::<Vec<Edit>>("edits") {
            Ok(v) => v,
            Err(e) => return Some(Err(ActionError::Argument { name: "apply-edits", source: e })),
        };
        Some(Ok(Action::Buffer(BufferAction::ApplyEdits { edits })))
    } else if str_eq(name, "yank") {
        let target = match args.field::<Target>("target") {
            Ok(v) => v,
            Err(e) => return Some(Err(ActionError::Argument { name: "yank", source: e })),
        };
        let register = match args.field::<Option<RegisterName>>("register") {
            Ok(v) => v,
            Err(e) => return Some(Err(ActionError::Argument { name: "yank", source: e })),
        };
        Some(Ok(Action::Buffer(BufferAction::Yank { target, register })))
    } else if str_eq(name, "paste") {
        let at = match args.field::<Target>("at") {
            Ok(v) => v,
            Err(e) => return Some(Err(ActionError::Argument { name: "paste", source: e })),
        };
        let register = match args.field::<Option<RegisterName>>("register") {
            Ok(v) => v,
            Err(e) => return Some(Err(ActionError::Argument { name: "paste", source: e })),
        };
        let before = match args.field::<bool>("before") {
            Ok(v) => v,
            Err(e) => return Some(Err(ActionError::Argument { name: "paste", source: e })),
        };
        Some(Ok(Action::Buffer(BufferAction::Paste { at, register, before })))
    } else if str_eq(name, "set-register") {
        let register = match args.field::<RegisterName>("register") {
            Ok(v) => v,
            Err(e) => return Some(Err(ActionError::Argument { name: "set-register", source: e })),
        };
        let text = match args.field::<String>("text") {
            Ok(v) => v,
            Err(e) => return Some(Err(ActionError::Argument { name: "set-register", source: e })),
        };
        Some(Ok(Action::Buffer(BufferAction::SetRegister { register, text })))
    } else if str_eq(name, "indent") {
        let target = match args.field::<Target>("target") {
            Ok(v) => v,
            Err(e) => return Some(Err(ActionError::Argument { name: "indent", source: e })),
        };
        let delta = match args.field::<i64>("delta") {
            Ok(v) => v,
            Err(e) => return Some(Err(ActionError::Argument { name: "indent", source: e })),
        };
        Some(Ok(Action::Buffer(BufferAction::Indent { target, delta })))
    } else if str_eq(name, "insert-indent") {
        Some(Ok(Action::Buffer(BufferAction::InsertIndent {})))
    } else if str_eq(name, "join-lines") {
        let target = match args.field::<Target>("target") {
            Ok(v) => v,
            Err(e) => return Some(Err(ActionError::Argument { name: "join-lines", source: e })),
        };
        Some(Ok(Action::Buffer(BufferAction::JoinLines { target })))
    } else if str_eq(name, "set-case") {
        let target = match args.field::<Target>("target") {
            Ok(v) => v,
            Err(e) => return Some(Err(ActionError::Argument { name: "set-case", source: e })),
        };
        let case = match args.field::<CaseChange>("case") {
            Ok(v) => v,
            Err(e) => return Some(Err(ActionError::Argument { name: "set-case", source: e })),
        };
        Some(Ok(Action::Buffer(BufferAction::SetCase { target, case })))
    } else if str_eq(name, "toggle-comment") {
        let target = match args.field::<Target>("target") {
            Ok(v) => v,
            Err(e) => return Some(Err(ActionError::Argument { name: "toggle-comment", source: e })),
        };
        Some(Ok(Action::Buffer(BufferAction::ToggleComment { target })))
    } else if str_eq(name, "align-columns") {
        let target = match args.field::<Target>("target") {
            Ok(v) => v,
            Err(e) => return Some(Err(ActionError::Argument { name: "align-columns", source: e })),
        };
        Some(Ok(Action::Buffer(BufferAction::AlignColumns { target })))
    } else {
        None
    }
}

fn motion_action_call(x: &MotionAction) -> (r: Call)
    ensures
        r.name@ == spec_action_name(Action::Motion(*x)),
        crate::value::record_view(r.args@) == motion_action_args(*x),
{
    match x {
        MotionAction::MoveCursor { motion, count } => {
            let mut f: Vec<(&'static str, Value)> = Vec::new();
            f.push(("motion", motion.to_value()));
            f.push(("count", count.to_value()));
            proof {
                assert(named_view(f@) =~= seq![("motion"@, motion.wire()), ("count"@, count.wire())]);
            }
            Call { name: String::from_str("move-cursor"), args: args_from(f) }
        },
        MotionAction::SetCursor { position, buffer } => {
            let mut f: Vec<(&'static str, Value)> = Vec::new();
            f.push(("position", position.to_value()));
            f.push(("buffer", buffer.to_value()));
            proof {
                assert(named_view(f@) =~= seq![("position"@, position.wire()), ("buffer"@, buffer.wire())]);
            }
            Call { name: String::from_str("set-cursor"), args: args_from(f) }
        },
        MotionAction::SelectRange { span, kind } => {
            let mut f: Vec<(&'static str, Value)> = Vec::new();
            f.push(("span", span.to_value()));
            f.push(("kind", kind.to_value()));
            proof {
                assert(named_view(f@) =~= seq![("span"@, span.wire()), ("kind"@, kind.wire())]);
            }
            Call { name: String::from_str("select-range"), args: args_from(f) }
        },
        MotionAction::SelectObject { object, inner, count, delimiter } => {
            let mut f: Vec<(&'static str, Value)> = Vec::new();
            f.push(("object", object.to_value()));
            f.push(("inner", inner.to_value()));
            f.push(("count", count.to_value()));
            f.push(("delimiter", delimiter.to_value()));
            proof {
                assert(named_view(f@) =~= seq![("object"@, object.wire()), ("inner"@, inner.wire()), ("count"@, count.wire()), ("delimiter"@, delimiter.wire())]);
            }
            Call { name: String::from_str("select-object"), args: args_from(f) }
        },
        MotionAction::ExtendSelection { motion, count } => {
            let mut f: Vec<(&'static str, Value)> = Vec::new();
            f.push(("motion", motion.to_value()));
            f.push(("count", count.to_value()));
            proof {
                assert(named_view(f@) =~= seq![("motion"@, motion.wire()), ("count"@, count.wire())]);
            }
            Call { name: String::from_str("extend-selection"), args: args_from(f) }
        },
        MotionAction::ClearSelection {} => {
            let mut f: Vec<(&'static str, Value)> = Vec::new();
            proof {
                assert(named_view(f@) =~= seq![]);
            }
            Call { name: String::from_str("clear-selection"), args: args_from(f) }
        },
        MotionAction::GotoSequence { sequence, seek, filter } => {
            let mut f: Vec<(&'static str, Value)> = Vec::new();
            f.push(("sequence", sequence.to_value()));
            f.push(("seek", seek.to_value()));
            f.push(("filter", filter.to_value()));
            proof {
                assert(named_view(f@) =~= seq![("sequence"@, sequence.wire()), ("seek"@, seek.wire()), ("filter"@, filter.wire())]);
            }
            Call { name: String::from_str("goto-sequence"), args: args_from(f) }
        },
        MotionAction::GotoLocation { path, position, pane } => {
            let mut f: Vec<(&'static str, Value)> = Vec::new();
            f.push(("path", path.to_value()));
            f.push(("position", position.to_value()));
            f.push(("pane", pane.to_value()));
            proof {
                assert(named_view(f@) =~= seq![("path"@, path.wire()), ("position"@, position.wire()), ("pane"@, pane.wire())]);
            }
            Call { name: String::from_str("goto-location"), args: args_from(f) }
        },
        MotionAction::GotoAnchor { anchor, label, exact } => {
            let mut f: Vec<(&'static str, Value)> = Vec::new();
            f.push(("anchor", anchor.to_value()));
            f.push(("label", label.to_value()));
            f.push(("exact", exact.to_value()));
            proof {
                assert(named_view(f@) =~= seq![("anchor"@, anchor.wire()), ("label"@, label.wire()), ("exact"@, exact.wire())]);
            }
            Call { name: String::from_str("goto-anchor"), args: args_from(f) }
        },
        MotionAction::Jump { seek } => {
            let mut f: Vec<(&'static str, Value)> = Vec::new();
            f.push(("seek", seek.to_value()));
            proof {
                assert(named_view(f@) =~= seq![("seek"@, seek.wire())]);
            }
            Call { name: String::from_str("jump"), args: args_from(f) }
        },
    }
}

fn motion_action_decode(name: &str, args: &Args) -> (r: Option<Result<Action, ActionError>>)
    ensures
        match motion_action_from(name@, crate::value::record_view(args@)) {
            None => r is None,
            Some(Ok(w)) => r matches Some(Ok(x)) && spec_action_name(x) == name@ && spec_action_args(x) == w,
            Some(Err(e)) => r matches Some(Err(err)) && action_error_view(err) == e,
        },
{
    proof {
        lemma_action_names();
    }
    if str_eq(name, "move-cursor") {
        let motion = match args.field::<Motion>("motion") {
            Ok(v) => v,
            Err(e) => return Some(Err(ActionError::Argument { name: "move-cursor", source: e })),
        };
        let count = match args.field::<u32>("count") {
            Ok(v) => v,
            Err(e) => return Some(Err(ActionError::Argument { name: "move-cursor", source: e })),
        };
        Some(Ok(Action::Motion(MotionAction::MoveCursor { motion, count })))
    } else if str_eq(name, "set-cursor") {
        let position = match args.field::<Position>("position") {
            Ok(v) => v,
            Err(e) => return Some(Err(ActionError::Argument { name: "set-cursor", source: e })),
        };
        let buffer = match args.field::<Option<BufferId>>("buffer") {
            Ok(v) => v,
            Err(e) => return Some(Err(ActionError::Argument { name: "set-cursor", source: e })),
        };
        Some(Ok(Action::Motion(MotionAction::SetCursor { position, buffer })))
    } else if str_eq(name, "select-range") {
        let span = match args.field::<Span>("span") {
            Ok(v) => v,
            Err(e) => return Some(Err(ActionError::Argument { name: "select-range", source: e })),
        };
        let kind = match args.field::<SelectionKind>("kind") {
            Ok(v) => v,
            Err(e) => return Some(Err(ActionError::Argument { name: "select-range", source: e })),
        };
        Some(Ok(Action::Motion(MotionAction::SelectRange { span, kind })))
    } else if str_eq(name, "select-object") {
        let object = match args.field::<TextObject>("object") {
            Ok(v) => v,
            Err(e) => return Some(Err(ActionError::Argument { name: "select-object", source: e })),
        };
        let inner = match args.field::<bool>("inner") {
            Ok(v) => v,
            Err(e) => return Some(Err(ActionError::Argument { name: "select-object", source: e })),
        };
        let count = match args.field::<u32>("count") {
            Ok(v) => v,
            Err(e) => return Some(Err(ActionError::Argument { name: "select-object", source: e })),
        };
        let delimiter = match args.field::<Option<char>>("delimiter") {
            Ok(v) => v,
            Err(e) => return Some(Err(ActionError::Argument { name: "select-object", source: e })),
        };
        Some(Ok(Action::Motion(MotionAction::SelectObject { object, inner, count, delimiter })))
    } else if str_eq(name, "extend-selection") {
        let motion = match args.field::<Motion>("motion") {
            Ok(v) => v,
            Err(e) => return Some(Err(ActionError::Argument { name: "extend-selection", source: e })),
        };
        let count = match args.field::<u32>("count") {
            Ok(v) => v,
            Err(e) => return Some(Err(ActionError::Argument { name: "extend-selection", source: e })),
        };
        Some(Ok(Action::Motion(MotionAction::ExtendSelection { motion, count })))
    } else if str_eq(name, "clear-selection") {
        Some(Ok(Action::Motion(MotionAction::ClearSelection {})))
    } else if str_eq(name, "goto-sequence") {
        let sequence = match args.field::<Sequence>("sequence") {
            Ok(v) => v,
            Err(e) => return Some(Err(ActionError::Argument { name: "goto-sequence", source: e })),
        };
        let seek = match args.field::<Seek>("seek") {
            Ok(v) => v,
            Err(e) => return Some(Err(ActionError::Argument { name: "goto-sequence", source: e })),
        };
        let filter = match args.field::<Option<RegionFilter>>("filter") {
            Ok(v) => v,
            Err(e) => return Some(Err(ActionError::Argument { name: "goto-sequence", source: e })),
        };
        Some(Ok(Action::Motion(MotionAction::GotoSequence { sequence, seek, filter })))
    } else if str_eq(name, "goto-location") {
        let path = match args.field::<String>("path") {
            Ok(v) => v,
            Err(e) => return Some(Err(ActionError::Argument { name: "goto-location", source: e })),
        };
        let position = match args.field::<Option<Position>>("position") {
            Ok(v) => v,
            Err(e) => return Some(Err(ActionError::Argument { name: "goto-location", source: e })),
        };
        let pane = match args.field::<PaneRef>("pane") {
            Ok(v) => v,
            Err(e) => return Some(Err(ActionError::Argument { name: "goto-location", source: e })),
        };
        Some(Ok(Action::Motion(MotionAction::GotoLocation { path, position, pane })))
    } else if str_eq(name, "goto-anchor") {
        let anchor = match args.field::<Option<AnchorId>>("anchor") {
            Ok(v) => v,
            Err(e) => return Some(Err(ActionError::Argument { name: "goto-anchor", source: e })),
        };
        let label = match args.field::<Option<String>>("label") {
            Ok(v) => v,
            Err(e) => return Some(Err(ActionError::Argument { name: "goto-anchor", source: e })),
        };
        let exact = match args.field::<bool>("exact") {
            Ok(v) => v,
            Err(e) => return Some(Err(ActionError::Argument { name: "goto-anchor", source: e })),
        };
        Some(Ok(Action::Motion(MotionAction::GotoAnchor { anchor, label, exact })))
    } else if str_eq(name, "jump") {
        let seek = match args.field::<Seek>("seek") {
            Ok(v) => v,
            Err(e) => return Some(Err(ActionError::Argument { name: "jump", source: e })),
        };
        Some(Ok(Action::Motion(MotionAction::Jump { seek })))
    } else {
        None
    }
}

fn view_action_call(x: &ViewAction) -> (r: Call)
    ensures
        r.name@ == spec_action_name(Action::View(*x)),
        crate::value::record_view(r.args@) == view_action_args(*x),
{
    match x {
        ViewAction::Scroll { request, pane } => {
            let mut f: Vec<(&'static str, Value)> = Vec::new();
            f.push(("request", request.to_value()));
            f.push(("pane", pane.to_value()));
            proof {
                assert(named_view(f@) =~= seq![("request"@, request.wire()), ("pane"@, pane.wire())]);
            }
            Call { name: String::from_str("scroll"), args: args_from(f) }
        },
        ViewAction::SetSoftWrap { target, on } => {
            let mut f: Vec<(&'static str, Value)> = Vec::new();
            f.push(("target", target.to_value()));
            f.push(("on", on.to_value()));
            proof {
                assert(named_view(f@) =~= seq![("target"@, target.wire()), ("on"@, on.wire())]);
            }
            Call { name: String::from_str("set-soft-wrap"), args: args_from(f) }
        },
        ViewAction::SetFold { target, state } => {
            let mut f: Vec<(&'static str, Value)> = Vec::new();
            f.push(("target", target.to_value()));
            f.push(("state", state.to_value()));
            proof {
                assert(named_view(f@) =~= seq![("target"@, target.wire()), ("state"@, state.wire())]);
            }
            Call { name: String::from_str("set-fold"), args: args_from(f) }
        },
        ViewAction::FoldAll { level } => {
            let mut f: Vec<(&'static str, Value)> = Vec::new();
            f.push(("level", level.to_value()));
            proof {
                assert(named_view(f@) =~= seq![("level"@, level.wire())]);
            }
            Call { name: String::from_str("fold-all"), args: args_from(f) }
        },
        ViewAction::UnfoldAll {} => {
            let mut f: Vec<(&'static str, Value)> = Vec::new();
            proof {
                assert(named_view(f@) =~= seq![]);
            }
            Call { name: String::from_str("unfold-all"), args: args_from(f) }
        },
        ViewAction::SetVirtualTextVisible { owner, on } => {
            let mut f: Vec<(&'static str, Value)> = Vec::new();
            f.push(("owner", owner.to_value()));
            f.push(("on", on.to_value()));
            proof {
                assert(named_view(f@) =~= seq![("owner"@, owner.wire()), ("on"@, on.wire())]);
            }
            Call { name: String::from_str("set-virtual-text-visible"), args: args_from(f) }
        },
    }
}

fn view_action_decode(name: &str, args: &Args) -> (r: Option<Result<Action, ActionError>>)
    ensures
        match view_action_from(name@, crate::value::record_view(args@)) {
            None => r is None,
            Some(Ok(w)) => r matches Some(Ok(x)) && spec_action_name(x) == name@ && spec_action_args(x) == w,
            Some(Err(e)) => r matches Some(Err(err)) && action_error_view(err) == e,
        },
{
    proof {
        lemma_action_names();
    }
    if str_eq(name, "scroll") {
        let request = match args.field::<ScrollRequest>("request") {
            Ok(v) => v,
            Err(e) => return Some(Err(ActionError::Argument { name: "scroll", source: e })),
        };
        let pane = match args.field::<PaneRef>("pane") {
            Ok(v) => v,
            Err(e) => return Some(Err(ActionError::Argument { name: "scroll", source: e })),
        };
        Some(Ok(Action::View(ViewAction::Scroll { request, pane })))
    } else if str_eq(name, "set-soft-wrap") {
        let target = match args.field::<Target>("target") {
            Ok(v) => v,
            Err(e) => return Some(Err(ActionError::Argument { name: "set-soft-wrap", source: e })),
        };
        let on = match args.field::<bool>("on") {
            Ok(v) => v,
            Err(e) => return Some(Err(ActionError::Argument { name: "set-soft-wrap", source: e })),
        };
        Some(Ok(Action::View(ViewAction::SetSoftWrap { target, on })))
    } else if str_eq(name, "set-fold") {
        let target = match args.field::<Target>("target") {
            Ok(v) => v,
            Err(e) => return Some(Err(ActionError::Argument { name: "set-fold", source: e })),
        };
        let state = match args.field::<FoldState>("state") {
            Ok(v) => v,
            Err(e) => return Some(Err(ActionError::Argument { name: "set-fold", source: e })),
        };
        Some(Ok(Action::View(ViewAction::SetFold { target, state })))
    } else if str_eq(name, "fold-all") {
        let level = match args.field::<u32>("level") {
            Ok(v) => v,
            Err(e) => return Some(Err(ActionError::Argument { name: "fold-all", source: e })),
        };
        Some(Ok(Action::View(ViewAction::FoldAll { level })))
    } else if str_eq(name, "unfold-all") {
        Some(Ok(Action::View(ViewAction::UnfoldAll {})))
    } else if str_eq(name, "set-virtual-text-visible") {
        let owner = match args.field::<Target>("owner") {
            Ok(v) => v,
            Err(e) => return Some(Err(ActionError::Argument { name: "set-virtual-text-visible", source: e })),
        };
        let on = match args.field::<bool>("on") {
            Ok(v) => v,
            Err(e) => return Some(Err(ActionError::Argument { name: "set-virtual-text-visible", source: e })),
        };
        Some(Ok(Action::View(ViewAction::SetVirtualTextVisible { owner, on })))
    } else {
        None
    }
}

fn input_action_call(x: &InputAction) -> (r: Call)
    ensures
        r.name@ == spec_action_name(Action::Input(*x)),
        crate::value::record_view(r.args@) == input_action_args(*x),
{
    match x {
        InputAction::SetMode { mode } => {
            let mut f: Vec<(&'static str, Value)> = Vec::new();
            f.push(("mode", mode.to_value()));
            proof {
                assert(named_view(f@) =~= seq![("mode"@, mode.wire())]);
            }
            Call { name: String::from_str("set-mode"), args: args_from(f) }
        },
        InputAction::SetCount { count } => {
            let mut f: Vec<(&'static str, Value)> = Vec::new();
            f.push(("count", count.to_value()));
            proof {
                assert(named_view(f@) =~= seq![("count"@, count.wire())]);
            }
            Call { name: String::from_str("set-count"), args: args_from(f) }
        },
        InputAction::SelectRegister { register } => {
            let mut f: Vec<(&'static str, Value)> = Vec::new();
            f.push(("register", register.to_value()));
            proof {
                assert(named_view(f@) =~= seq![("register"@, register.wire())]);
            }
            Call { name: String::from_str("select-register"), args: args_from(f) }
        },
        InputAction::CancelPending {} => {
            let mut f: Vec<(&'static str, Value)> = Vec::new();
            proof {
                assert(named_view(f@) =~= seq![]);
            }
            Call { name: String::from_str("cancel-pending"), args: args_from(f) }
        },
        InputAction::FeedKeys { keys } => {
            let mut f: Vec<(&'static str, Value)> = Vec::new();
            f.push(("keys", keys.to_value()));
            proof {
                assert(named_view(f@) =~= seq![("keys"@, keys.wire())]);
            }
            Call { name: String::from_str("feed-keys"), args: args_from(f) }
        },
        InputAction::RepeatLast { count } => {
            let mut f: Vec<(&'static str, Value)> = Vec::new();
            f.push(("count", count.to_value()));
            proof {
                assert(named_view(f@) =~= seq![("count"@, count.wire())]);
            }
            Call { name: String::from_str("repeat-last"), args: args_from(f) }
        },
        InputAction::SetMacroRecording { register, on } => {
            let mut f: Vec<(&'static str, Value)> = Vec::new();
            f.push(("register", register.to_value()));
            f.push(("on", on.to_value()));
            proof {
                assert(named_view(f@) =~= seq![("register"@, register.wire()), ("on"@, on.wire())]);
            }
            Call { name: String::from_str("set-macro-recording"), args: args_from(f) }
        },
    }
}

fn input_action_decode(name: &str, args: &Args) -> (r: Option<Result<Action, ActionError>>)
    ensures
        match input_action_from(name@, crate::value::record_view(args@)) {
            None => r is None,
            Some(Ok(w)) => r matches Some(Ok(x)) && spec_action_name(x) == name@ && spec_action_args(x) == w,
            Some(Err(e)) => r matches Some(Err(err)) && action_error_view(err) == e,
        },
{
    proof {
        lemma_action_names();
    }
    if str_eq(name, "set-mode") {
        let mode = match args.field::<EditMode>("mode") {
            Ok(v) => v,
            Err(e) => return Some(Err(ActionError::Argument { name: "set-mode", source: e })),
        };
        Some(Ok(Action::Input(InputAction::SetMode { mode })))
    } else if str_eq(name, "set-count") {
        let count = match args.field::<u32>("count") {
            Ok(v) => v,
            Err(e) => return Some(Err(ActionError::Argument { name: "set-count", source: e })),
        };
        Some(Ok(Action::Input(InputAction::SetCount { count })))
    } else if str_eq(name, "select-register") {
        let register = match args.field::<RegisterName>("register") {
            Ok(v) => v,
            Err(e) => return Some(Err(ActionError::Argument { name: "select-register", source: e })),
        };
        Some(Ok(Action::Input(InputAction::SelectRegister { register })))
    } else if str_eq(name, "cancel-pending") {
        Some(Ok(Action::Input(InputAction::CancelPending {})))
    } else if str_eq(name, "feed-keys") {
        let keys = match args.field::<KeySeq>("keys") {
            Ok(v) => v,
            Err(e) => return Some(Err(ActionError::Argument { name: "feed-keys", source: e })),
        };
        Some(Ok(Action::Input(InputAction::FeedKeys { keys })))
    } else if str_eq(name, "repeat-last") {
        let count = match args.field::<u32>("count") {
            Ok(v) => v,
            Err(e) => return Some(Err(ActionError::Argument { name: "repeat-last", source: e })),
        };
        Some(Ok(Action::Input(InputAction::RepeatLast { count })))
    } else if str_eq(name, "set-macro-recording") {
        let register = match args.field::<RegisterName>("register") {
            Ok(v) => v,
            Err(e) => return Some(Err(ActionError::Argument { name: "set-macro-recording", source: e })),
        };
        let on = match args.field::<bool>("on") {
            Ok(v) => v,
            Err(e) => return Some(Err(ActionError::Argument { name: "set-macro-recording", source: e })),
        };
        Some(Ok(Action::Input(InputAction::SetMacroRecording { register, on })))
    } else {
        None
    }
}

fn history_action_call(x: &HistoryAction) -> (r: Call)
    ensures
        r.name@ == spec_action_name(Action::History(*x)),
        crate::value::record_view(r.args@) == history_action_args(*x),
{
    match x {
        HistoryAction::Undo { count } => {
            let mut f: Vec<(&'static str, Value)> = Vec::new();
            f.push(("count", count.to_value()));
            proof {
                assert(named_view(f@) =~= seq![("count"@, count.wire())]);
            }
            Call { name: String::from_str("undo"), args: args_from(f) }
        },
        HistoryAction::Redo { count } => {
            let mut f: Vec<(&'static str, Value)> = Vec::new();
            f.push(("count", count.to_value()));
            proof {
                assert(named_view(f@) =~= seq![("count"@, count.wire())]);
            }
            Call { name: String::from_str("redo"), args: args_from(f) }
        },
        HistoryAction::UndoToCheckpoint { checkpoint } => {
            let mut f: Vec<(&'static str, Value)> = Vec::new();
            f.push(("checkpoint", checkpoint.to_value()));
            proof {
                assert(named_view(f@) =~= seq![("checkpoint"@, checkpoint.wire())]);
            }
            Call { name: String::from_str("undo-to-checkpoint"), args: args_from(f) }
        },
        HistoryAction::CommitUndoGroup {} => {
            let mut f: Vec<(&'static str, Value)> = Vec::new();
            proof {
                assert(named_view(f@) =~= seq![]);
            }
            Call { name: String::from_str("commit-undo-group"), args: args_from(f) }
        },
        HistoryAction::CompactHistory { target } => {
            let mut f: Vec<(&'static str, Value)> = Vec::new();
            f.push(("target", target.to_value()));
            proof {
                assert(named_view(f@) =~= seq![("target"@, target.wire())]);
            }
            Call { name: String::from_str("compact-history"), args: args_from(f) }
        },
    }
}

fn history_action_decode(name: &str, args: &Args) -> (r: Option<Result<Action, ActionError>>)
    ensures
        match history_action_from(name@, crate::value::record_view(args@)) {
            None => r is None,
            Some(Ok(w)) => r matches Some(Ok(x)) && spec_action_name(x) == name@ && spec_action_args(x) == w,
            Some(Err(e)) => r matches Some(Err(err)) && action_error_view(err) == e,
        },
{
    proof {
        lemma_action_names();
    }
    if str_eq(name, "undo") {
        let count = match args.field::<u32>("count") {
            Ok(v) => v,
            Err(e) => return Some(Err(ActionError::Argument { name: "undo", source: e })),
        };
        Some(Ok(Action::History(HistoryAction::Undo { count })))
    } else if str_eq(name, "redo") {
        let count = match args.field::<u32>("count") {
            Ok(v) => v,
            Err(e) => return Some(Err(ActionError::Argument { name: "redo", source: e })),
        };
        Some(Ok(Action::History(HistoryAction::Redo { count })))
    } else if str_eq(name, "undo-to-checkpoint") {
        let checkpoint = match args.field::<CheckpointId>("checkpoint") {
            Ok(v) => v,
            Err(e) => return Some(Err(ActionError::Argument { name: "undo-to-checkpoint", source: e })),
        };
        Some(Ok(Action::History(HistoryAction::UndoToCheckpoint { checkpoint })))
    } else if str_eq(name, "commit-undo-group") {
        Some(Ok(Action::History(HistoryAction::CommitUndoGroup {})))
    } else if str_eq(name, "compact-history") {
        let target = match args.field::<Target>("target") {
            Ok(v) => v,
            Err(e) => return Some(Err(ActionError::Argument { name: "compact-history", source: e })),
        };
        Some(Ok(Action::History(HistoryAction::CompactHistory { target })))
    } else {
        None
    }
}

fn file_action_call(x: &FileAction) -> (r: Call)
    ensures
        r.name@ == spec_action_name(Action::File(*x)),
        crate::value::record_view(r.args@) == file_action_args(*x),
{
    match x {
        FileAction::OpenFile { path, at, pane } => {
            let mut f: Vec<(&'static str, Value)> = Vec::new();
            f.push(("path", path.to_value()));
            f.push(("at", at.to_value()));
            f.push(("pane", pane.to_value()));
            proof {
                assert(named_view(f@) =~= seq![("path"@, path.wire()), ("at"@, at.wire()), ("pane"@, pane.wire())]);
            }
            Call { name: String::from_str("open-file"), args: args_from(f) }
        },
        FileAction::OpenAlternate { pane } => {
            let mut f: Vec<(&'static str, Value)> = Vec::new();
            f.push(("pane", pane.to_value()));
            proof {
                assert(named_view(f@) =~= seq![("pane"@, pane.wire())]);
            }
            Call { name: String::from_str("open-alternate"), args: args_from(f) }
        },
        FileAction::SaveBuffer { target, path } => {
            let mut f: Vec<(&'static str, Value)> = Vec::new();
            f.push(("target", target.to_value()));
            f.push(("path", path.to_value()));
            proof {
                assert(named_view(f@) =~= seq![("target"@, target.wire()), ("path"@, path.wire())]);
            }
            Call { name: String::from_str("save-buffer"), args: args_from(f) }
        },
        FileAction::SaveAll {} => {
            let mut f: Vec<(&'static str, Value)> = Vec::new();
            proof {
                assert(named_view(f@) =~= seq![]);
            }
            Call { name: String::from_str("save-all"), args: args_from(f) }
        },
        FileAction::CloseBuffer { target, force } => {
            let mut f: Vec<(&'static str, Value)> = Vec::new();
            f.push(("target", target.to_value()));
            f.push(("force", force.to_value()));
            proof {
                assert(named_view(f@) =~= seq![("target"@, target.wire()), ("force"@, force.wire())]);
            }
            Call { name: String::from_str("close-buffer"), args: args_from(f) }
        },
        FileAction::ReloadFromDisk { target } => {
            let mut f: Vec<(&'static str, Value)> = Vec::new();
            f.push(("target", target.to_value()));
            proof {
                assert(named_view(f@) =~= seq![("target"@, target.wire())]);
            }
            Call { name: String::from_str("reload-from-disk"), args: args_from(f) }
        },
        FileAction::NoteDiskChange { path, changed_by } => {
            let mut f: Vec<(&'static str, Value)> = Vec::new();
            f.push(("path", path.to_value()));
            f.push(("changed_by", changed_by.to_value()));
            proof {
                assert(named_view(f@) =~= seq![("path"@, path.wire()), ("changed_by"@, changed_by.wire())]);
            }
            Call { name: String::from_str("note-disk-change"), args: args_from(f) }
        },
        FileAction::OpenDiskDiff { target } => {
            let mut f: Vec<(&'static str, Value)> = Vec::new();
            f.push(("target", target.to_value()));
            proof {
                assert(named_view(f@) =~= seq![("target"@, target.wire())]);
            }
            Call { name: String::from_str("open-disk-diff"), args: args_from(f) }
        },
        FileAction::ResolveDiskDiff { target, exit } => {
            let mut f: Vec<(&'static str, Value)> = Vec::new();
            f.push(("target", target.to_value()));
            f.push(("exit", exit.to_value()));
            proof {
                assert(named_view(f@) =~= seq![("target"@, target.wire()), ("exit"@, exit.wire())]);
            }
            Call { name: String::from_str("resolve-disk-diff"), args: args_from(f) }
        },
        FileAction::SetFileWatch { path, on } => {
            let mut f: Vec<(&'static str, Value)> = Vec::new();
            f.push(("path", path.to_value()));
            f.push(("on", on.to_value()));
            proof {
                assert(named_view(f@) =~= seq![("path"@, path.wire()), ("on"@, on.wire())]);
            }
            Call { name: String::from_str("set-file-watch"), args: args_from(f) }
        },
    }
}

fn file_action_decode(name: &str, args: &Args) -> (r: Option<Result<Action, ActionError>>)
    ensures
        match file_action_from(name@, crate::value::record_view(args@)) {
            None => r is None,
            Some(Ok(w)) => r matches Some(Ok(x)) && spec_action_name(x) == name@ && spec_action_args(x) == w,
            Some(Err(e)) => r matches Some(Err(err)) && action_error_view(err) == e,
        },
{
    proof {
        lemma_action_names();
    }
    if str_eq(name, "open-file") {
        let path = match args.field::<String>("path") {
            Ok(v) => v,
            Err(e) => return Some(Err(ActionError::Argument { name: "open-file", source: e })),
        };
        let at = match args.field::<Option<Position>>("at") {
            Ok(v) => v,
            Err(e) => return Some(Err(ActionError::Argument { name: "open-file", source: e })),
        };
        let pane = match args.field::<PaneRef>("pane") {
            Ok(v) => v,
            Err(e) => return Some(Err(ActionError::Argument { name: "open-file", source: e })),
        };
        Some(Ok(Action::File(FileAction::OpenFile { path, at, pane })))
    } else if str_eq(name, "open-alternate") {
        let pane = match args.field::<PaneRef>("pane") {
            Ok(v) => v,
            Err(e) => return Some(Err(ActionError::Argument { name: "open-alternate", source: e })),
        };
        Some(Ok(Action::File(FileAction::OpenAlternate { pane })))
    } else if str_eq(name, "save-buffer") {
        let target = match args.field::<Target>("target") {
            Ok(v) => v,
            Err(e) => return Some(Err(ActionError::Argument { name: "save-buffer", source: e })),
        };
        let path = match args.field::<Option<String>>("path") {
            Ok(v) => v,
            Err(e) => return Some(Err(ActionError::Argument { name: "save-buffer", source: e })),
        };
        Some(Ok(Action::File(FileAction::SaveBuffer { target, path })))
    } else if str_eq(name, "save-all") {
        Some(Ok(Action::File(FileAction::SaveAll {})))
    } else if str_eq(name, "close-buffer") {
        let target = match args.field::<Target>("target") {
            Ok(v) => v,
            Err(e) => return Some(Err(ActionError::Argument { name: "close-buffer", source: e })),
        };
        let force = match args.field::<bool>("force") {
            Ok(v) => v,
            Err(e) => return Some(Err(ActionError::Argument { name: "close-buffer", source: e })),
        };
        Some(Ok(Action::File(FileAction::CloseBuffer { target, force })))
    } else if str_eq(name, "reload-from-disk") {
        let target = match args.field::<Target>("target") {
            Ok(v) => v,
            Err(e) => return Some(Err(ActionError::Argument { name: "reload-from-disk", source: e })),
        };
        Some(Ok(Action::File(FileAction::ReloadFromDisk { target })))
    } else if str_eq(name, "note-disk-change") {
        let path = match args.field::<String>("path") {
            Ok(v) => v,
            Err(e) => return Some(Err(ActionError::Argument { name: "note-disk-change", source: e })),
        };
        let changed_by = match args.field::<Actor>("changed_by") {
            Ok(v) => v,
            Err(e) => return Some(Err(ActionError::Argument { name: "note-disk-change", source: e })),
        };
        Some(Ok(Action::File(FileAction::NoteDiskChange { path, changed_by })))
    } else if str_eq(name, "open-disk-diff") {
        let target = match args.field::<Target>("target") {
            Ok(v) => v,
            Err(e) => return Some(Err(ActionError::Argument { name: "open-disk-diff", source: e })),
        };
        Some(Ok(Action::File(FileAction::OpenDiskDiff { target })))
    } else if str_eq(name, "resolve-disk-diff") {
        let target = match args.field::<Target>("target") {
            Ok(v) => v,
            Err(e) => return Some(Err(ActionError::Argument { name: "resolve-disk-diff", source: e })),
        };
        let exit = match args.field::<DiskExit>("exit") {
            Ok(v) => v,
            Err(e) => return Some(Err(ActionError::Argument { name: "resolve-disk-diff", source: e })),
        };
        Some(Ok(Action::File(FileAction::ResolveDiskDiff { target, exit })))
    } else if str_eq(name, "set-file-watch") {
        let path = match args.field::<String>("path") {
            Ok(v) => v,
            Err(e) => return Some(Err(ActionError::Argument { name: "set-file-watch", source: e })),
        };
        let on = match args.field::<bool>("on") {
            Ok(v) => v,
            Err(e) => return Some(Err(ActionError::Argument { name: "set-file-watch", source: e })),
        };
        Some(Ok(Action::File(FileAction::SetFileWatch { path, on })))
    } else {
        None
    }
}

fn float_action_call(x: &FloatAction) -> (r: Call)
    ensures
        r.name@ == spec_action_name(Action::Float(*x)),
        crate::value::record_view(r.args@) == float_action_args(*x),
{
    match x {
        FloatAction::OpenFloat { surface, args } => {
            let mut f: Vec<(&'static str, Value)> = Vec::new();
            f.push(("surface", surface.to_value()));
            f.push(("args", args.to_value()));
            proof {
                assert(named_view(f@) =~= seq![("surface"@, surface.wire()), ("args"@, args.wire())]);
            }
            Call { name: String::from_str("open-float"), args: args_from(f) }
        },
        FloatAction::CloseFloat {} => {
            let mut f: Vec<(&'static str, Value)> = Vec::new();
            proof {
                assert(named_view(f@) =~= seq![]);
            }
            Call { name: String::from_str("close-float"), args: args_from(f) }
        },
        FloatAction::CloseAllFloats {} => {
            let mut f: Vec<(&'static str, Value)> = Vec::new();
            proof {
                assert(named_view(f@) =~= seq![]);
            }
            Call { name: String::from_str("close-all-floats"), args: args_from(f) }
        },
        FloatAction::DefineFloatSurface { surface, body } => {
            let mut f: Vec<(&'static str, Value)> = Vec::new();
            f.push(("surface", surface.to_value()));
            f.push(("body", body.to_value()));
            proof {
                assert(named_view(f@) =~= seq![("surface"@, surface.wire()), ("body"@, body.wire())]);
            }
            Call { name: String::from_str("define-float-surface"), args: args_from(f) }
        },
        FloatAction::FloatSelect { delta } => {
            let mut f: Vec<(&'static str, Value)> = Vec::new();
            f.push(("delta", delta.to_value()));
            proof {
                assert(named_view(f@) =~= seq![("delta"@, delta.wire())]);
            }
            Call { name: String::from_str("float-select"), args: args_from(f) }
        },
        FloatAction::FloatSelectRow { row } => {
            let mut f: Vec<(&'static str, Value)> = Vec::new();
            f.push(("row", row.to_value()));
            proof {
                assert(named_view(f@) =~= seq![("row"@, row.wire())]);
            }
            Call { name: String::from_str("float-select-row"), args: args_from(f) }
        },
        FloatAction::FloatAccept {} => {
            let mut f: Vec<(&'static str, Value)> = Vec::new();
            proof {
                assert(named_view(f@) =~= seq![]);
            }
            Call { name: String::from_str("float-accept"), args: args_from(f) }
        },
        FloatAction::FloatAnswer { digit } => {
            let mut f: Vec<(&'static str, Value)> = Vec::new();
            f.push(("digit", digit.to_value()));
            proof {
                assert(named_view(f@) =~= seq![("digit"@, digit.wire())]);
            }
            Call { name: String::from_str("float-answer"), args: args_from(f) }
        },
        FloatAction::FloatToggleFold { row } => {
            let mut f: Vec<(&'static str, Value)> = Vec::new();
            f.push(("row", row.to_value()));
            proof {
                assert(named_view(f@) =~= seq![("row"@, row.wire())]);
            }
            Call { name: String::from_str("float-toggle-fold"), args: args_from(f) }
        },
    }
}

fn float_action_decode(name: &str, args: &Args) -> (r: Option<Result<Action, ActionError>>)
    ensures
        match float_action_from(name@, crate::value::record_view(args@)) {
            None => r is None,
            Some(Ok(w)) => r matches Some(Ok(x)) && spec_action_name(x) == name@ && spec_action_args(x) == w,
            Some(Err(e)) => r matches Some(Err(err)) && action_error_view(err) == e,
        },
{
    proof {
        lemma_action_names();
    }
    if str_eq(name, "open-float") {
        let surface = match args.field::<SurfaceId>("surface") {
            Ok(v) => v,
            Err(e) => return Some(Err(ActionError::Argument { name: "open-float", source: e })),
        };
        let args = match args.field::<Args>("args") {
            Ok(v) => v,
            Err(e) => return Some(Err(ActionError::Argument { name: "open-float", source: e })),
        };
        Some(Ok(Action::Float(FloatAction::OpenFloat { surface, args })))
    } else if str_eq(name, "close-float") {
        Some(Ok(Action::Float(FloatAction::CloseFloat {})))
    } else if str_eq(name, "close-all-floats") {
        Some(Ok(Action::Float(FloatAction::CloseAllFloats {})))
    } else if str_eq(name, "define-float-surface") {
        let surface = match args.field::<SurfaceId>("surface") {
            Ok(v) => v,
            Err(e) => return Some(Err(ActionError::Argument { name: "define-float-surface", source: e })),
        };
        let body = match args.field::<String>("body") {
            Ok(v) => v,
            Err(e) => return Some(Err(ActionError::Argument { name: "define-float-surface", source: e })),
        };
        Some(Ok(Action::Float(FloatAction::DefineFloatSurface { surface, body })))
    } else if str_eq(name, "float-select") {
        let delta = match args.field::<i64>("delta") {
            Ok(v) => v,
            Err(e) => return Some(Err(ActionError::Argument { name: "float-select", source: e })),
        };
        Some(Ok(Action::Float(FloatAction::FloatSelect { delta })))
    } else if str_eq(name, "float-select-row") {
        let row = match args.field::<u32>("row") {
            Ok(v) => v,
            Err(e) => return Some(Err(ActionError::Argument { name: "float-select-row", source: e })),
        };
        Some(Ok(Action::Float(FloatAction::FloatSelectRow { row })))
    } else if str_eq(name, "float-accept") {
        Some(Ok(Action::Float(FloatAction::FloatAccept {})))
    } else if str_eq(name, "float-answer") {
        let digit = match args.field::<u32>("digit") {
            Ok(v) => v,
            Err(e) => return Some(Err(ActionError::Argument { name: "float-answer", source: e })),
        };
        Some(Ok(Action::Float(FloatAction::FloatAnswer { digit })))
    } else if str_eq(name, "float-toggle-fold") {
        let row = match args.field::<u32>("row") {
            Ok(v) => v,
            Err(e) => return Some(Err(ActionError::Argument { name: "float-toggle-fold", source: e })),
        };
        Some(Ok(Action::Float(FloatAction::FloatToggleFold { row })))
    } else {
        None
    }
}

fn pane_action_call(x: &PaneAction) -> (r: Call)
    ensures
        r.name@ == spec_action_name(Action::Pane(*x)),
        crate::value::record_view(r.args@) == pane_action_args(*x),
{
    match x {
        PaneAction::SplitPane { pane, direction, kind } => {
            let mut f: Vec<(&'static str, Value)> = Vec::new();
            f.push(("pane", pane.to_value()));
            f.push(("direction", direction.to_value()));
            f.push(("kind", kind.to_value()));
            proof {
                assert(named_view(f@) =~= seq![("pane"@, pane.wire()), ("direction"@, direction.wire()), ("kind"@, kind.wire())]);
            }
            Call { name: String::from_str("split-pane"), args: args_from(f) }
        },
        PaneAction::FocusPane { pane } => {
            let mut f: Vec<(&'static str, Value)> = Vec::new();
            f.push(("pane", pane.to_value()));
            proof {
                assert(named_view(f@) =~= seq![("pane"@, pane.wire())]);
            }
            Call { name: String::from_str("focus-pane"), args: args_from(f) }
        },
        PaneAction::ClosePane { pane } => {
            let mut f: Vec<(&'static str, Value)> = Vec::new();
            f.push(("pane", pane.to_value()));
            proof {
                assert(named_view(f@) =~= seq![("pane"@, pane.wire())]);
            }
            Call { name: String::from_str("close-pane"), args: args_from(f) }
        },
        PaneAction::ResizePane { pane, delta } => {
            let mut f: Vec<(&'static str, Value)> = Vec::new();
            f.push(("pane", pane.to_value()));
            f.push(("delta", delta.to_value()));
            proof {
                assert(named_view(f@) =~= seq![("pane"@, pane.wire()), ("delta"@, delta.wire())]);
            }
            Call { name: String::from_str("resize-pane"), args: args_from(f) }
        },
        PaneAction::SetPaneContent { pane, kind } => {
            let mut f: Vec<(&'static str, Value)> = Vec::new();
            f.push(("pane", pane.to_value()));
            f.push(("kind", kind.to_value()));
            proof {
                assert(named_view(f@) =~= seq![("pane"@, pane.wire()), ("kind"@, kind.wire())]);
            }
            Call { name: String::from_str("set-pane-content"), args: args_from(f) }
        },
        PaneAction::CreatePaneFromView { pane, tree } => {
            let mut f: Vec<(&'static str, Value)> = Vec::new();
            f.push(("pane", pane.to_value()));
            f.push(("tree", tree.to_value()));
            proof {
                assert(named_view(f@) =~= seq![("pane"@, pane.wire()), ("tree"@, tree.wire())]);
            }
            Call { name: String::from_str("create-pane-from-view"), args: args_from(f) }
        },
    }
}

fn pane_action_decode(name: &str, args: &Args) -> (r: Option<Result<Action, ActionError>>)
    ensures
        match pane_action_from(name@, crate::value::record_view(args@)) {
            None => r is None,
            Some(Ok(w)) => r matches Some(Ok(x)) && spec_action_name(x) == name@ && spec_action_args(x) == w,
            Some(Err(e)) => r matches Some(Err(err)) && action_error_view(err) == e,
        },
{
    proof {
        lemma_action_names();
    }
    if str_eq(name, "split-pane") {
        let pane = match args.field::<PaneRef>("pane") {
            Ok(v) => v,
            Err(e) => return Some(Err(ActionError::Argument { name: "split-pane", source: e })),
        };
        let direction = match args.field::<Direction>("direction") {
            Ok(v) => v,
            Err(e) => return Some(Err(ActionError::Argument { name: "split-pane", source: e })),
        };
        let kind = match args.field::<PaneKind>("kind") {
            Ok(v) => v,
            Err(e) => return Some(Err(ActionError::Argument { name: "split-pane", source: e })),
        };
        Some(Ok(Action::Pane(PaneAction::SplitPane { pane, direction, kind })))
    } else if str_eq(name, "focus-pane") {
        let pane = match args.field::<PaneRef>("pane") {
            Ok(v) => v,
            Err(e) => return Some(Err(ActionError::Argument { name: "focus-pane", source: e })),
        };
        Some(Ok(Action::Pane(PaneAction::FocusPane { pane })))
    } else if str_eq(name, "close-pane") {
        let pane = match args.field::<PaneRef>("pane") {
            Ok(v) => v,
            Err(e) => return Some(Err(ActionError::Argument { name: "close-pane", source: e })),
        };
        Some(Ok(Action::Pane(PaneAction::ClosePane { pane })))
    } else if str_eq(name, "resize-pane") {
        let pane = match args.field::<PaneRef>("pane") {
            Ok(v) => v,
            Err(e) => return Some(Err(ActionError::Argument { name: "resize-pane", source: e })),
        };
        let delta = match args.field::<i64>("delta") {
            Ok(v) => v,
            Err(e) => return Some(Err(ActionError::Argument { name: "resize-pane", source: e })),
        };
        Some(Ok(Action::Pane(PaneAction::ResizePane { pane, delta })))
    } else if str_eq(name, "set-pane-content") {
        let pane = match args.field::<PaneRef>("pane") {
            Ok(v) => v,
            Err(e) => return Some(Err(ActionError::Argument { name: "set-pane-content", source: e })),
        };
        let kind = match args.field::<PaneKind>("kind") {
            Ok(v) => v,
            Err(e) => return Some(Err(ActionError::Argument { name: "set-pane-content", source: e })),
        };
        Some(Ok(Action::Pane(PaneAction::SetPaneContent { pane, kind })))
    } else if str_eq(name, "create-pane-from-view") {
        let pane = match args.field::<PaneRef>("pane") {
            Ok(v) => v,
            Err(e) => return Some(Err(ActionError::Argument { name: "create-pane-from-view", source: e })),
        };
        let tree = match args.field::<Value>("tree") {
            Ok(v) => v,
            Err(e) => return Some(Err(ActionError::Argument { name: "create-pane-from-view", source: e })),
        };
        Some(Ok(Action::Pane(PaneAction::CreatePaneFromView { pane, tree })))
    } else {
        None
    }
}

fn picker_action_call(x: &PickerAction) -> (r: Call)
    ensures
        r.name@ == spec_action_name(Action::Picker(*x)),
        crate::value::record_view(r.args@) == picker_action_args(*x),
{
    match x {
        PickerAction::OpenPicker { source, query } => {
            let mut f: Vec<(&'static str, Value)> = Vec::new();
            f.push(("source", source.to_value()));
            f.push(("query", query.to_value()));
            proof {
                assert(named_view(f@) =~= seq![("source"@, source.wire()), ("query"@, query.wire())]);
            }
            Call { name: String::from_str("open-picker"), args: args_from(f) }
        },
        PickerAction::SetPickerQuery { text } => {
            let mut f: Vec<(&'static str, Value)> = Vec::new();
            f.push(("text", text.to_value()));
            proof {
                assert(named_view(f@) =~= seq![("text"@, text.wire())]);
            }
            Call { name: String::from_str("set-picker-query"), args: args_from(f) }
        },
        PickerAction::CyclePickerSource { delta } => {
            let mut f: Vec<(&'static str, Value)> = Vec::new();
            f.push(("delta", delta.to_value()));
            proof {
                assert(named_view(f@) =~= seq![("delta"@, delta.wire())]);
            }
            Call { name: String::from_str("cycle-picker-source"), args: args_from(f) }
        },
        PickerAction::PickerAccept { how } => {
            let mut f: Vec<(&'static str, Value)> = Vec::new();
            f.push(("how", how.to_value()));
            proof {
                assert(named_view(f@) =~= seq![("how"@, how.wire())]);
            }
            Call { name: String::from_str("picker-accept"), args: args_from(f) }
        },
        PickerAction::TogglePickerPreview {} => {
            let mut f: Vec<(&'static str, Value)> = Vec::new();
            proof {
                assert(named_view(f@) =~= seq![]);
            }
            Call { name: String::from_str("toggle-picker-preview"), args: args_from(f) }
        },
        PickerAction::DefinePickerSource { source, body } => {
            let mut f: Vec<(&'static str, Value)> = Vec::new();
            f.push(("source", source.to_value()));
            f.push(("body", body.to_value()));
            proof {
                assert(named_view(f@) =~= seq![("source"@, source.wire()), ("body"@, body.wire())]);
            }
            Call { name: String::from_str("define-picker-source"), args: args_from(f) }
        },
        PickerAction::InvalidatePickerSource { source } => {
            let mut f: Vec<(&'static str, Value)> = Vec::new();
            f.push(("source", source.to_value()));
            proof {
                assert(named_view(f@) =~= seq![("source"@, source.wire())]);
            }
            Call { name: String::from_str("invalidate-picker-source"), args: args_from(f) }
        },
    }
}

fn picker_action_decode(name: &str, args: &Args) -> (r: Option<Result<Action, ActionError>>)
    ensures
        match picker_action_from(name@, crate::value::record_view(args@)) {
            None => r is None,
            Some(Ok(w)) => r matches Some(Ok(x)) && spec_action_name(x) == name@ && spec_action_args(x) == w,
            Some(Err(e)) => r matches Some(Err(err)) && action_error_view(err) == e,
        },
{
    proof {
        lemma_action_names();
    }
    if str_eq(name, "open-picker") {
        let source = match args.field::<SourceId>("source") {
            Ok(v) => v,
            Err(e) => return Some(Err(ActionError::Argument { name: "open-picker", source: e })),
        };
        let query = match args.field::<Option<String>>("query") {
            Ok(v) => v,
            Err(e) => return Some(Err(ActionError::Argument { name: "open-picker", source: e })),
        };
        Some(Ok(Action::Picker(PickerAction::OpenPicker { source, query })))
    } else if str_eq(name, "set-picker-query") {
        let text = match args.field::<String>("text") {
            Ok(v) => v,
            Err(e) => return Some(Err(ActionError::Argument { name: "set-picker-query", source: e })),
        };
        Some(Ok(Action::Picker(PickerAction::SetPickerQuery { text })))
    } else if str_eq(name, "cycle-picker-source") {
        let delta = match args.field::<i64>("delta") {
            Ok(v) => v,
            Err(e) => return Some(Err(ActionError::Argument { name: "cycle-picker-source", source: e })),
        };
        Some(Ok(Action::Picker(PickerAction::CyclePickerSource { delta })))
    } else if str_eq(name, "picker-accept") {
        let how = match args.field::<AcceptHow>("how") {
            Ok(v) => v,
            Err(e) => return Some(Err(ActionError::Argument { name: "picker-accept", source: e })),
        };
        Some(Ok(Action::Picker(PickerAction::PickerAccept { how })))
    } else if str_eq(name, "toggle-picker-preview") {
        Some(Ok(Action::Picker(PickerAction::TogglePickerPreview {})))
    } else if str_eq(name, "define-picker-source") {
        let source = match args.field::<SourceId>("source") {
            Ok(v) => v,
            Err(e) => return Some(Err(ActionError::Argument { name: "define-picker-source", source: e })),
        };
        let body = match args.field::<String>("body") {
            Ok(v) => v,
            Err(e) => return Some(Err(ActionError::Argument { name: "define-picker-source", source: e })),
        };
        Some(Ok(Action::Picker(PickerAction::DefinePickerSource { source, body })))
    } else if str_eq(name, "invalidate-picker-source") {
        let source = match args.field::<SourceId>("source") {
            Ok(v) => v,
            Err(e) => return Some(Err(ActionError::Argument { name: "invalidate-picker-source", source: e })),
        };
        Some(Ok(Action::Picker(PickerAction::InvalidatePickerSource { source })))
    } else {
        None
    }
}

fn prompt_action_call(x: &PromptAction) -> (r: Call)
    ensures
        r.name@ == spec_action_name(Action::Prompt(*x)),
        crate::value::record_view(r.args@) == prompt_action_args(*x),
{
    match x {
        PromptAction::OpenPrompt { kind, seed, anchor } => {
            let mut f: Vec<(&'static str, Value)> = Vec::new();
            f.push(("kind", kind.to_value()));
            f.push(("seed", seed.to_value()));
            f.push(("anchor", anchor.to_value()));
            proof {
                assert(named_view(f@) =~= seq![("kind"@, kind.wire()), ("seed"@, seed.wire()), ("anchor"@, anchor.wire())]);
            }
            Call { name: String::from_str("open-prompt"), args: args_from(f) }
        },
        PromptAction::SetPromptText { text } => {
            let mut f: Vec<(&'static str, Value)> = Vec::new();
            f.push(("text", text.to_value()));
            proof {
                assert(named_view(f@) =~= seq![("text"@, text.wire())]);
            }
            Call { name: String::from_str("set-prompt-text"), args: args_from(f) }
        },
        PromptAction::SubmitPrompt {} => {
            let mut f: Vec<(&'static str, Value)> = Vec::new();
            proof {
                assert(named_view(f@) =~= seq![]);
            }
            Call { name: String::from_str("submit-prompt"), args: args_from(f) }
        },
        PromptAction::CancelPrompt {} => {
            let mut f: Vec<(&'static str, Value)> = Vec::new();
            proof {
                assert(named_view(f@) =~= seq![]);
            }
            Call { name: String::from_str("cancel-prompt"), args: args_from(f) }
        },
        PromptAction::PromptHistory { delta } => {
            let mut f: Vec<(&'static str, Value)> = Vec::new();
            f.push(("delta", delta.to_value()));
            proof {
                assert(named_view(f@) =~= seq![("delta"@, delta.wire())]);
            }
            Call { name: String::from_str("prompt-history"), args: args_from(f) }
        },
    }
}

fn prompt_action_decode(name: &str, args: &Args) -> (r: Option<Result<Action, ActionError>>)
    ensures
        match prompt_action_from(name@, crate::value::record_view(args@)) {
            None => r is None,
            Some(Ok(w)) => r matches Some(Ok(x)) && spec_action_name(x) == name@ && spec_action_args(x) == w,
            Some(Err(e)) => r matches Some(Err(err)) && action_error_view(err) == e,
        },
{
    proof {
        lemma_action_names();
    }
    if str_eq(name, "open-prompt") {
        let kind = match args.field::<PromptKind>("kind") {
            Ok(v) => v,
            Err(e) => return Some(Err(ActionError::Argument { name: "open-prompt", source: e })),
        };
        let seed = match args.field::<Option<String>>("seed") {
            Ok(v) => v,
            Err(e) => return Some(Err(ActionError::Argument { name: "open-prompt", source: e })),
        };
        let anchor = match args.field::<Option<Target>>("anchor") {
            Ok(v) => v,
            Err(e) => return Some(Err(ActionError::Argument { name: "open-prompt", source: e })),
        };
        Some(Ok(Action::Prompt(PromptAction::OpenPrompt { kind, seed, anchor })))
    } else if str_eq(name, "set-prompt-text") {
        let text = match args.field::<String>("text") {
            Ok(v) => v,
            Err(e) => return Some(Err(ActionError::Argument { name: "set-prompt-text", source: e })),
        };
        Some(Ok(Action::Prompt(PromptAction::SetPromptText { text })))
    } else if str_eq(name, "submit-prompt") {
        Some(Ok(Action::Prompt(PromptAction::SubmitPrompt {})))
    } else if str_eq(name, "cancel-prompt") {
        Some(Ok(Action::Prompt(PromptAction::CancelPrompt {})))
    } else if str_eq(name, "prompt-history") {
        let delta = match args.field::<i64>("delta") {
            Ok(v) => v,
            Err(e) => return Some(Err(ActionError::Argument { name: "prompt-history", source: e })),
        };
        Some(Ok(Action::Prompt(PromptAction::PromptHistory { delta })))
    } else {
        None
    }
}

fn region_action_call(x: &RegionAction) -> (r: Call)
    ensures
        r.name@ == spec_action_name(Action::Region(*x)),
        crate::value::record_view(r.args@) == region_action_args(*x),
{
    match x {
        RegionAction::MarkSeen { target } => {
            let mut f: Vec<(&'static str, Value)> = Vec::new();
            f.push(("target", target.to_value()));
            proof {
                assert(named_view(f@) =~= seq![("target"@, target.wire())]);
            }
            Call { name: String::from_str("mark-seen"), args: args_from(f) }
        },
        RegionAction::MarkUnseen { target } => {
            let mut f: Vec<(&'static str, Value)> = Vec::new();
            f.push(("target", target.to_value()));
            proof {
                assert(named_view(f@) =~= seq![("target"@, target.wire())]);
            }
            Call { name: String::from_str("mark-unseen"), args: args_from(f) }
        },
        RegionAction::DeclareRegions { regions } => {
            let mut f: Vec<(&'static str, Value)> = Vec::new();
            f.push(("regions", regions.to_value()));
            proof {
                assert(named_view(f@) =~= seq![("regions"@, regions.wire())]);
            }
            Call { name: String::from_str("declare-regions"), args: args_from(f) }
        },
        RegionAction::PlaceAnchor { at, label } => {
            let mut f: Vec<(&'static str, Value)> = Vec::new();
            f.push(("at", at.to_value()));
            f.push(("label", label.to_value()));
            proof {
                assert(named_view(f@) =~= seq![("at"@, at.wire()), ("label"@, label.wire())]);
            }
            Call { name: String::from_str("place-anchor"), args: args_from(f) }
        },
        RegionAction::Reanchor { path } => {
            let mut f: Vec<(&'static str, Value)> = Vec::new();
            f.push(("path", path.to_value()));
            proof {
                assert(named_view(f@) =~= seq![("path"@, path.wire())]);
            }
            Call { name: String::from_str("reanchor"), args: args_from(f) }
        },
        RegionAction::DropRegions { target } => {
            let mut f: Vec<(&'static str, Value)> = Vec::new();
            f.push(("target", target.to_value()));
            proof {
                assert(named_view(f@) =~= seq![("target"@, target.wire())]);
            }
            Call { name: String::from_str("drop-regions"), args: args_from(f) }
        },
    }
}

fn region_action_decode(name: &str, args: &Args) -> (r: Option<Result<Action, ActionError>>)
    ensures
        match region_action_from(name@, crate::value::record_view(args@)) {
            None => r is None,
            Some(Ok(w)) => r matches Some(Ok(x)) && spec_action_name(x) == name@ && spec_action_args(x) == w,
            Some(Err(e)) => r matches Some(Err(err)) && action_error_view(err) == e,
        },
{
    proof {
        lemma_action_names();
    }
    if str_eq(name, "mark-seen") {
        let target = match args.field::<Target>("target") {
            Ok(v) => v,
            Err(e) => return Some(Err(ActionError::Argument { name: "mark-seen", source: e })),
        };
        Some(Ok(Action::Region(RegionAction::MarkSeen { target })))
    } else if str_eq(name, "mark-unseen") {
        let target = match args.field::<Target>("target") {
            Ok(v) => v,
            Err(e) => return Some(Err(ActionError::Argument { name: "mark-unseen", source: e })),
        };
        Some(Ok(Action::Region(RegionAction::MarkUnseen { target })))
    } else if str_eq(name, "declare-regions") {
        let regions = match args.field::<Vec<RegionSpec>>("regions") {
            Ok(v) => v,
            Err(e) => return Some(Err(ActionError::Argument { name: "declare-regions", source: e })),
        };
        Some(Ok(Action::Region(RegionAction::DeclareRegions { regions })))
    } else if str_eq(name, "place-anchor") {
        let at = match args.field::<Target>("at") {
            Ok(v) => v,
            Err(e) => return Some(Err(ActionError::Argument { name: "place-anchor", source: e })),
        };
        let label = match args.field::<Option<String>>("label") {
            Ok(v) => v,
            Err(e) => return Some(Err(ActionError::Argument { name: "place-anchor", source: e })),
        };
        Some(Ok(Action::Region(RegionAction::PlaceAnchor { at, label })))
    } else if str_eq(name, "reanchor") {
        let path = match args.field::<String>("path") {
            Ok(v) => v,
            Err(e) => return Some(Err(ActionError::Argument { name: "reanchor", source: e })),
        };
        Some(Ok(Action::Region(RegionAction::Reanchor { path })))
    } else if str_eq(name, "drop-regions") {
        let target = match args.field::<Target>("target") {
            Ok(v) => v,
            Err(e) => return Some(Err(ActionError::Argument { name: "drop-regions", source: e })),
        };
        Some(Ok(Action::Region(RegionAction::DropRegions { target })))
    } else {
        None
    }
}

fn thread_action_call(x: &ThreadAction) -> (r: Call)
    ensures
        r.name@ == spec_action_name(Action::Thread(*x)),
        crate::value::record_view(r.args@) == thread_action_args(*x),
{
    match x {
        ThreadAction::StartThread { anchor, body } => {
            let mut f: Vec<(&'static str, Value)> = Vec::new();
            f.push(("anchor", anchor.to_value()));
            f.push(("body", body.to_value()));
            proof {
                assert(named_view(f@) =~= seq![("anchor"@, anchor.wire()), ("body"@, body.wire())]);
            }
            Call { name: String::from_str("start-thread"), args: args_from(f) }
        },
        ThreadAction::ReplyToThread { thread, body } => {
            let mut f: Vec<(&'static str, Value)> = Vec::new();
            f.push(("thread", thread.to_value()));
            f.push(("body", body.to_value()));
            proof {
                assert(named_view(f@) =~= seq![("thread"@, thread.wire()), ("body"@, body.wire())]);
            }
            Call { name: String::from_str("reply-to-thread"), args: args_from(f) }
        },
        ThreadAction::ResolveThread { thread } => {
            let mut f: Vec<(&'static str, Value)> = Vec::new();
            f.push(("thread", thread.to_value()));
            proof {
                assert(named_view(f@) =~= seq![("thread"@, thread.wire())]);
            }
            Call { name: String::from_str("resolve-thread"), args: args_from(f) }
        },
        ThreadAction::DeleteThread { thread } => {
            let mut f: Vec<(&'static str, Value)> = Vec::new();
            f.push(("thread", thread.to_value()));
            proof {
                assert(named_view(f@) =~= seq![("thread"@, thread.wire())]);
            }
            Call { name: String::from_str("delete-thread"), args: args_from(f) }
        },
        ThreadAction::BroadcastThread { pattern, body } => {
            let mut f: Vec<(&'static str, Value)> = Vec::new();
            f.push(("pattern", pattern.to_value()));
            f.push(("body", body.to_value()));
            proof {
                assert(named_view(f@) =~= seq![("pattern"@, pattern.wire()), ("body"@, body.wire())]);
            }
            Call { name: String::from_str("broadcast-thread"), args: args_from(f) }
        },
    }
}

fn thread_action_decode(name: &str, args: &Args) -> (r: Option<Result<Action, ActionError>>)
    ensures
        match thread_action_from(name@, crate::value::record_view(args@)) {
            None => r is None,
            Some(Ok(w)) => r matches Some(Ok(x)) && spec_action_name(x) == name@ && spec_action_args(x) == w,
            Some(Err(e)) => r matches Some(Err(err)) && action_error_view(err) == e,
        },
{
    proof {
        lemma_action_names();
    }
    if str_eq(name, "start-thread") {
        let anchor = match args.field::<Target>("anchor") {
            Ok(v) => v,
            Err(e) => return Some(Err(ActionError::Argument { name: "start-thread", source: e })),
        };
        let body = match args.field::<String>("body") {
            Ok(v) => v,
            Err(e) => return Some(Err(ActionError::Argument { name: "start-thread", source: e })),
        };
        Some(Ok(Action::Thread(ThreadAction::StartThread { anchor, body })))
    } else if str_eq(name, "reply-to-thread") {
        let thread = match args.field::<ThreadId>("thread") {
            Ok(v) => v,
            Err(e) => return Some(Err(ActionError::Argument { name: "reply-to-thread", source: e })),
        };
        let body = match args.field::<String>("body") {
            Ok(v) => v,
            Err(e) => return Some(Err(ActionError::Argument { name: "reply-to-thread", source: e })),
        };
        Some(Ok(Action::Thread(ThreadAction::ReplyToThread { thread, body })))
    } else if str_eq(name, "resolve-thread") {
        let thread = match args.field::<ThreadId>("thread") {
            Ok(v) => v,
            Err(e) => return Some(Err(ActionError::Argument { name: "resolve-thread", source: e })),
        };
        Some(Ok(Action::Thread(ThreadAction::ResolveThread { thread })))
    } else if str_eq(name, "delete-thread") {
        let thread = match args.field::<ThreadId>("thread") {
            Ok(v) => v,
            Err(e) => return Some(Err(ActionError::Argument { name: "delete-thread", source: e })),
        };
        Some(Ok(Action::Thread(ThreadAction::DeleteThread { thread })))
    } else if str_eq(name, "broadcast-thread") {
        let pattern = match args.field::<String>("pattern") {
            Ok(v) => v,
            Err(e) => return Some(Err(ActionError::Argument { name: "broadcast-thread", source: e })),
        };
        let body = match args.field::<String>("body") {
            Ok(v) => v,
            Err(e) => return Some(Err(ActionError::Argument { name: "broadcast-thread", source: e })),
        };
        Some(Ok(Action::Thread(ThreadAction::BroadcastThread { pattern, body })))
    } else {
        None
    }
}

fn review_action_call(x: &ReviewAction) -> (r: Call)
    ensures
        r.name@ == spec_action_name(Action::Review(*x)),
        crate::value::record_view(r.args@) == review_action_args(*x),
{
    match x {
        ReviewAction::DeclareReviewBlock { title, files, annotation } => {
            let mut f: Vec<(&'static str, Value)> = Vec::new();
            f.push(("title", title.to_value()));
            f.push(("files", files.to_value()));
            f.push(("annotation", annotation.to_value()));
            proof {
                assert(named_view(f@) =~= seq![("title"@, title.wire()), ("files"@, files.wire()), ("annotation"@, annotation.wire())]);
            }
            Call { name: String::from_str("declare-review-block"), args: args_from(f) }
        },
        ReviewAction::OpenReviewBlock { block } => {
            let mut f: Vec<(&'static str, Value)> = Vec::new();
            f.push(("block", block.to_value()));
            proof {
                assert(named_view(f@) =~= seq![("block"@, block.wire())]);
            }
            Call { name: String::from_str("open-review-block"), args: args_from(f) }
        },
        ReviewAction::SetDiffMode { mode } => {
            let mut f: Vec<(&'static str, Value)> = Vec::new();
            f.push(("mode", mode.to_value()));
            proof {
                assert(named_view(f@) =~= seq![("mode"@, mode.wire())]);
            }
            Call { name: String::from_str("set-diff-mode"), args: args_from(f) }
        },
        ReviewAction::ExpandDiffContext { hunk, lines } => {
            let mut f: Vec<(&'static str, Value)> = Vec::new();
            f.push(("hunk", hunk.to_value()));
            f.push(("lines", lines.to_value()));
            proof {
                assert(named_view(f@) =~= seq![("hunk"@, hunk.wire()), ("lines"@, lines.wire())]);
            }
            Call { name: String::from_str("expand-diff-context"), args: args_from(f) }
        },
        ReviewAction::SetDiffGrouping { grouping } => {
            let mut f: Vec<(&'static str, Value)> = Vec::new();
            f.push(("grouping", grouping.to_value()));
            proof {
                assert(named_view(f@) =~= seq![("grouping"@, grouping.wire())]);
            }
            Call { name: String::from_str("set-diff-grouping"), args: args_from(f) }
        },
        ReviewAction::AnnotateGroup { group, text } => {
            let mut f: Vec<(&'static str, Value)> = Vec::new();
            f.push(("group", group.to_value()));
            f.push(("text", text.to_value()));
            proof {
                assert(named_view(f@) =~= seq![("group"@, group.wire()), ("text"@, text.wire())]);
            }
            Call { name: String::from_str("annotate-group"), args: args_from(f) }
        },
        ReviewAction::RevertHunk { hunk } => {
            let mut f: Vec<(&'static str, Value)> = Vec::new();
            f.push(("hunk", hunk.to_value()));
            proof {
                assert(named_view(f@) =~= seq![("hunk"@, hunk.wire())]);
            }
            Call { name: String::from_str("revert-hunk"), args: args_from(f) }
        },
        ReviewAction::OpenHunkPeek { target } => {
            let mut f: Vec<(&'static str, Value)> = Vec::new();
            f.push(("target", target.to_value()));
            proof {
                assert(named_view(f@) =~= seq![("target"@, target.wire())]);
            }
            Call { name: String::from_str("open-hunk-peek"), args: args_from(f) }
        },
    }
}

fn review_action_decode(name: &str, args: &Args) -> (r: Option<Result<Action, ActionError>>)
    ensures
        match review_action_from(name@, crate::value::record_view(args@)) {
            None => r is None,
            Some(Ok(w)) => r matches Some(Ok(x)) && spec_action_name(x) == name@ && spec_action_args(x) == w,
            Some(Err(e)) => r matches Some(Err(err)) && action_error_view(err) == e,
        },
{
    proof {
        lemma_action_names();
    }
    if str_eq(name, "declare-review-block") {
        let title = match args.field::<String>("title") {
            Ok(v) => v,
            Err(e) => return Some(Err(ActionError::Argument { name: "declare-review-block", source: e })),
        };
        let files = match args.field::<Vec<FileGroup>>("files") {
            Ok(v) => v,
            Err(e) => return Some(Err(ActionError::Argument { name: "declare-review-block", source: e })),
        };
        let annotation = match args.field::<Option<String>>("annotation") {
            Ok(v) => v,
            Err(e) => return Some(Err(ActionError::Argument { name: "declare-review-block", source: e })),
        };
        Some(Ok(Action::Review(ReviewAction::DeclareReviewBlock { title, files, annotation })))
    } else if str_eq(name, "open-review-block") {
        let block = match args.field::<BlockId>("block") {
            Ok(v) => v,
            Err(e) => return Some(Err(ActionError::Argument { name: "open-review-block", source: e })),
        };
        Some(Ok(Action::Review(ReviewAction::OpenReviewBlock { block })))
    } else if str_eq(name, "set-diff-mode") {
        let mode = match args.field::<DiffMode>("mode") {
            Ok(v) => v,
            Err(e) => return Some(Err(ActionError::Argument { name: "set-diff-mode", source: e })),
        };
        Some(Ok(Action::Review(ReviewAction::SetDiffMode { mode })))
    } else if str_eq(name, "expand-diff-context") {
        let hunk = match args.field::<HunkId>("hunk") {
            Ok(v) => v,
            Err(e) => return Some(Err(ActionError::Argument { name: "expand-diff-context", source: e })),
        };
        let lines = match args.field::<u32>("lines") {
            Ok(v) => v,
            Err(e) => return Some(Err(ActionError::Argument { name: "expand-diff-context", source: e })),
        };
        Some(Ok(Action::Review(ReviewAction::ExpandDiffContext { hunk, lines })))
    } else if str_eq(name, "set-diff-grouping") {
        let grouping = match args.field::<Grouping>("grouping") {
            Ok(v) => v,
            Err(e) => return Some(Err(ActionError::Argument { name: "set-diff-grouping", source: e })),
        };
        Some(Ok(Action::Review(ReviewAction::SetDiffGrouping { grouping })))
    } else if str_eq(name, "annotate-group") {
        let group = match args.field::<GroupId>("group") {
            Ok(v) => v,
            Err(e) => return Some(Err(ActionError::Argument { name: "annotate-group", source: e })),
        };
        let text = match args.field::<String>("text") {
            Ok(v) => v,
            Err(e) => return Some(Err(ActionError::Argument { name: "annotate-group", source: e })),
        };
        Some(Ok(Action::Review(ReviewAction::AnnotateGroup { group, text })))
    } else if str_eq(name, "revert-hunk") {
        let hunk = match args.field::<HunkId>("hunk") {
            Ok(v) => v,
            Err(e) => return Some(Err(ActionError::Argument { name: "revert-hunk", source: e })),
        };
        Some(Ok(Action::Review(ReviewAction::RevertHunk { hunk })))
    } else if str_eq(name, "open-hunk-peek") {
        let target = match args.field::<Target>("target") {
            Ok(v) => v,
            Err(e) => return Some(Err(ActionError::Argument { name: "open-hunk-peek", source: e })),
        };
        Some(Ok(Action::Review(ReviewAction::OpenHunkPeek { target })))
    } else {
        None
    }
}

fn inbox_action_call(x: &InboxAction) -> (r: Call)
    ensures
        r.name@ == spec_action_name(Action::Inbox(*x)),
        crate::value::record_view(r.args@) == inbox_action_args(*x),
{
    match x {
        InboxAction::OpenInbox {} => {
            let mut f: Vec<(&'static str, Value)> = Vec::new();
            proof {
                assert(named_view(f@) =~= seq![]);
            }
            Call { name: String::from_str("open-inbox"), args: args_from(f) }
        },
        InboxAction::OpenInboxItem { item } => {
            let mut f: Vec<(&'static str, Value)> = Vec::new();
            f.push(("item", item.to_value()));
            proof {
                assert(named_view(f@) =~= seq![("item"@, item.wire())]);
            }
            Call { name: String::from_str("open-inbox-item"), args: args_from(f) }
        },
        InboxAction::Notify { severity, title, body, anchor } => {
            let mut f: Vec<(&'static str, Value)> = Vec::new();
            f.push(("severity", severity.to_value()));
            f.push(("title", title.to_value()));
            f.push(("body", body.to_value()));
            f.push(("anchor", anchor.to_value()));
            proof {
                assert(named_view(f@) =~= seq![("severity"@, severity.wire()), ("title"@, title.wire()), ("body"@, body.wire()), ("anchor"@, anchor.wire())]);
            }
            Call { name: String::from_str("notify"), args: args_from(f) }
        },
    }
}

fn inbox_action_decode(name: &str, args: &Args) -> (r: Option<Result<Action, ActionError>>)
    ensures
        match inbox_action_from(name@, crate::value::record_view(args@)) {
            None => r is None,
            Some(Ok(w)) => r matches Some(Ok(x)) && spec_action_name(x) == name@ && spec_action_args(x) == w,
            Some(Err(e)) => r matches Some(Err(err)) && action_error_view(err) == e,
        },
{
    proof {
        lemma_action_names();
    }
    if str_eq(name, "open-inbox") {
        Some(Ok(Action::Inbox(InboxAction::OpenInbox {})))
    } else if str_eq(name, "open-inbox-item") {
        let item = match args.field::<InboxId>("item") {
            Ok(v) => v,
            Err(e) => return Some(Err(ActionError::Argument { name: "open-inbox-item", source: e })),
        };
        Some(Ok(Action::Inbox(InboxAction::OpenInboxItem { item })))
    } else if str_eq(name, "notify") {
        let severity = match args.field::<Severity>("severity") {
            Ok(v) => v,
            Err(e) => return Some(Err(ActionError::Argument { name: "notify", source: e })),
        };
        let title = match args.field::<String>("title") {
            Ok(v) => v,
            Err(e) => return Some(Err(ActionError::Argument { name: "notify", source: e })),
        };
        let body = match args.field::<Option<String>>("body") {
            Ok(v) => v,
            Err(e) => return Some(Err(ActionError::Argument { name: "notify", source: e })),
        };
        let anchor = match args.field::<Option<Target>>("anchor") {
            Ok(v) => v,
            Err(e) => return Some(Err(ActionError::Argument { name: "notify", source: e })),
        };
        Some(Ok(Action::Inbox(InboxAction::Notify { severity, title, body, anchor })))
    } else {
        None
    }
}

fn ask_action_call(x: &AskAction) -> (r: Call)
    ensures
        r.name@ == spec_action_name(Action::Ask(*x)),
        crate::value::record_view(r.args@) == ask_action_args(*x),
{
    match x {
        AskAction::EnqueueAsk { prose, options } => {
            let mut f: Vec<(&'static str, Value)> = Vec::new();
            f.push(("prose", prose.to_value()));
            f.push(("options", options.to_value()));
            proof {
                assert(named_view(f@) =~= seq![("prose"@, prose.wire()), ("options"@, options.wire())]);
            }
            Call { name: String::from_str("enqueue-ask"), args: args_from(f) }
        },
        AskAction::AnswerAsk { ask, digit, prose } => {
            let mut f: Vec<(&'static str, Value)> = Vec::new();
            f.push(("ask", ask.to_value()));
            f.push(("digit", digit.to_value()));
            f.push(("prose", prose.to_value()));
            proof {
                assert(named_view(f@) =~= seq![("ask"@, ask.wire()), ("digit"@, digit.wire()), ("prose"@, prose.wire())]);
            }
            Call { name: String::from_str("answer-ask"), args: args_from(f) }
        },
        AskAction::DeferAsk { ask } => {
            let mut f: Vec<(&'static str, Value)> = Vec::new();
            f.push(("ask", ask.to_value()));
            proof {
                assert(named_view(f@) =~= seq![("ask"@, ask.wire())]);
            }
            Call { name: String::from_str("defer-ask"), args: args_from(f) }
        },
        AskAction::RequestPermission { invocation, files } => {
            let mut f: Vec<(&'static str, Value)> = Vec::new();
            f.push(("invocation", invocation.to_value()));
            f.push(("files", files.to_value()));
            proof {
                assert(named_view(f@) =~= seq![("invocation"@, invocation.wire()), ("files"@, files.wire())]);
            }
            Call { name: String::from_str("request-permission"), args: args_from(f) }
        },
        AskAction::GrantPermission { ask, scope } => {
            let mut f: Vec<(&'static str, Value)> = Vec::new();
            f.push(("ask", ask.to_value()));
            f.push(("scope", scope.to_value()));
            proof {
                assert(named_view(f@) =~= seq![("ask"@, ask.wire()), ("scope"@, scope.wire())]);
            }
            Call { name: String::from_str("grant-permission"), args: args_from(f) }
        },
        AskAction::DenyPermission { ask } => {
            let mut f: Vec<(&'static str, Value)> = Vec::new();
            f.push(("ask", ask.to_value()));
            proof {
                assert(named_view(f@) =~= seq![("ask"@, ask.wire())]);
            }
            Call { name: String::from_str("deny-permission"), args: args_from(f) }
        },
    }
}

fn ask_action_decode(name: &str, args: &Args) -> (r: Option<Result<Action, ActionError>>)
    ensures
        match ask_action_from(name@, crate::value::record_view(args@)) {
            None => r is None,
            Some(Ok(w)) => r matches Some(Ok(x)) && spec_action_name(x) == name@ && spec_action_args(x) == w,
            Some(Err(e)) => r matches Some(Err(err)) && action_error_view(err) == e,
        },
{
    proof {
        lemma_action_names();
    }
    if str_eq(name, "enqueue-ask") {
        let prose = match args.field::<String>("prose") {
            Ok(v) => v,
            Err(e) => return Some(Err(ActionError::Argument { name: "enqueue-ask", source: e })),
        };
        let options = match args.field::<Vec<AskOption>>("options") {
            Ok(v) => v,
            Err(e) => return Some(Err(ActionError::Argument { name: "enqueue-ask", source: e })),
        };
        Some(Ok(Action::Ask(AskAction::EnqueueAsk { prose, options })))
    } else if str_eq(name, "answer-ask") {
        let ask = match args.field::<AskId>("ask") {
            Ok(v) => v,
            Err(e) => return Some(Err(ActionError::Argument { name: "answer-ask", source: e })),
        };
        let digit = match args.field::<Option<u32>>("digit") {
            Ok(v) => v,
            Err(e) => return Some(Err(ActionError::Argument { name: "answer-ask", source: e })),
        };
        let prose = match args.field::<Option<String>>("prose") {
            Ok(v) => v,
            Err(e) => return Some(Err(ActionError::Argument { name: "answer-ask", source: e })),
        };
        Some(Ok(Action::Ask(AskAction::AnswerAsk { ask, digit, prose })))
    } else if str_eq(name, "defer-ask") {
        let ask = match args.field::<Option<AskId>>("ask") {
            Ok(v) => v,
            Err(e) => return Some(Err(ActionError::Argument { name: "defer-ask", source: e })),
        };
        Some(Ok(Action::Ask(AskAction::DeferAsk { ask })))
    } else if str_eq(name, "request-permission") {
        let invocation = match args.field::<String>("invocation") {
            Ok(v) => v,
            Err(e) => return Some(Err(ActionError::Argument { name: "request-permission", source: e })),
        };
        let files = match args.field::<Vec<String>>("files") {
            Ok(v) => v,
            Err(e) => return Some(Err(ActionError::Argument { name: "request-permission", source: e })),
        };
        Some(Ok(Action::Ask(AskAction::RequestPermission { invocation, files })))
    } else if str_eq(name, "grant-permission") {
        let ask = match args.field::<AskId>("ask") {
            Ok(v) => v,
            Err(e) => return Some(Err(ActionError::Argument { name: "grant-permission", source: e })),
        };
        let scope = match args.field::<GrantScope>("scope") {
            Ok(v) => v,
            Err(e) => return Some(Err(ActionError::Argument { name: "grant-permission", source: e })),
        };
        Some(Ok(Action::Ask(AskAction::GrantPermission { ask, scope })))
    } else if str_eq(name, "deny-permission") {
        let ask = match args.field::<AskId>("ask") {
            Ok(v) => v,
            Err(e) => return Some(Err(ActionError::Argument { name: "deny-permission", source: e })),
        };
        Some(Ok(Action::Ask(AskAction::DenyPermission { ask })))
    } else {
        None
    }
}

fn session_action_call(x: &SessionAction) -> (r: Call)
    ensures
        r.name@ == spec_action_name(Action::Session(*x)),
        crate::value::record_view(r.args@) == session_action_args(*x),
{
    match x {
        SessionAction::StartSession { agent, cwd } => {
            let mut f: Vec<(&'static str, Value)> = Vec::new();
            f.push(("agent", agent.to_value()));
            f.push(("cwd", cwd.to_value()));
            proof {
                assert(named_view(f@) =~= seq![("agent"@, agent.wire()), ("cwd"@, cwd.wire())]);
            }
            Call { name: String::from_str("start-session"), args: args_from(f) }
        },
        SessionAction::DiscoverSessions {} => {
            let mut f: Vec<(&'static str, Value)> = Vec::new();
            proof {
                assert(named_view(f@) =~= seq![]);
            }
            Call { name: String::from_str("discover-sessions"), args: args_from(f) }
        },
        SessionAction::AdoptSession { handle } => {
            let mut f: Vec<(&'static str, Value)> = Vec::new();
            f.push(("handle", handle.to_value()));
            proof {
                assert(named_view(f@) =~= seq![("handle"@, handle.wire())]);
            }
            Call { name: String::from_str("adopt-session"), args: args_from(f) }
        },
        SessionAction::AttachSession { endpoint } => {
            let mut f: Vec<(&'static str, Value)> = Vec::new();
            f.push(("endpoint", endpoint.to_value()));
            proof {
                assert(named_view(f@) =~= seq![("endpoint"@, endpoint.wire())]);
            }
            Call { name: String::from_str("attach-session"), args: args_from(f) }
        },
        SessionAction::ReattachSession {} => {
            let mut f: Vec<(&'static str, Value)> = Vec::new();
            proof {
                assert(named_view(f@) =~= seq![]);
            }
            Call { name: String::from_str("reattach-session"), args: args_from(f) }
        },
        SessionAction::DetachSession {} => {
            let mut f: Vec<(&'static str, Value)> = Vec::new();
            proof {
                assert(named_view(f@) =~= seq![]);
            }
            Call { name: String::from_str("detach-session"), args: args_from(f) }
        },
        SessionAction::EndSession { force } => {
            let mut f: Vec<(&'static str, Value)> = Vec::new();
            f.push(("force", force.to_value()));
            proof {
                assert(named_view(f@) =~= seq![("force"@, force.wire())]);
            }
            Call { name: String::from_str("end-session"), args: args_from(f) }
        },
        SessionAction::SendMessage { body, anchors } => {
            let mut f: Vec<(&'static str, Value)> = Vec::new();
            f.push(("body", body.to_value()));
            f.push(("anchors", anchors.to_value()));
            proof {
                assert(named_view(f@) =~= seq![("body"@, body.wire()), ("anchors"@, anchors.wire())]);
            }
            Call { name: String::from_str("send-message"), args: args_from(f) }
        },
        SessionAction::InterruptSession {} => {
            let mut f: Vec<(&'static str, Value)> = Vec::new();
            proof {
                assert(named_view(f@) =~= seq![]);
            }
            Call { name: String::from_str("interrupt-session"), args: args_from(f) }
        },
        SessionAction::SteerSession { body } => {
            let mut f: Vec<(&'static str, Value)> = Vec::new();
            f.push(("body", body.to_value()));
            proof {
                assert(named_view(f@) =~= seq![("body"@, body.wire())]);
            }
            Call { name: String::from_str("steer-session"), args: args_from(f) }
        },
        SessionAction::ResumeSession {} => {
            let mut f: Vec<(&'static str, Value)> = Vec::new();
            proof {
                assert(named_view(f@) =~= seq![]);
            }
            Call { name: String::from_str("resume-session"), args: args_from(f) }
        },
        SessionAction::AbortTurn {} => {
            let mut f: Vec<(&'static str, Value)> = Vec::new();
            proof {
                assert(named_view(f@) =~= seq![]);
            }
            Call { name: String::from_str("abort-turn"), args: args_from(f) }
        },
        SessionAction::TurnBegan { turn, prompt } => {
            let mut f: Vec<(&'static str, Value)> = Vec::new();
            f.push(("turn", turn.to_value()));
            f.push(("prompt", prompt.to_value()));
            proof {
                assert(named_view(f@) =~= seq![("turn"@, turn.wire()), ("prompt"@, prompt.wire())]);
            }
            Call { name: String::from_str("turn-began"), args: args_from(f) }
        },
        SessionAction::TurnEnded { turn, summary } => {
            let mut f: Vec<(&'static str, Value)> = Vec::new();
            f.push(("turn", turn.to_value()));
            f.push(("summary", summary.to_value()));
            proof {
                assert(named_view(f@) =~= seq![("turn"@, turn.wire()), ("summary"@, summary.wire())]);
            }
            Call { name: String::from_str("turn-ended"), args: args_from(f) }
        },
        SessionAction::SessionProse { turn, chunk } => {
            let mut f: Vec<(&'static str, Value)> = Vec::new();
            f.push(("turn", turn.to_value()));
            f.push(("chunk", chunk.to_value()));
            proof {
                assert(named_view(f@) =~= seq![("turn"@, turn.wire()), ("chunk"@, chunk.wire())]);
            }
            Call { name: String::from_str("session-prose"), args: args_from(f) }
        },
        SessionAction::ToolCallStarted { turn, call, verb, target, path, line } => {
            let mut f: Vec<(&'static str, Value)> = Vec::new();
            f.push(("turn", turn.to_value()));
            f.push(("call", call.to_value()));
            f.push(("verb", verb.to_value()));
            f.push(("target", target.to_value()));
            f.push(("path", path.to_value()));
            f.push(("line", line.to_value()));
            proof {
                assert(named_view(f@) =~= seq![("turn"@, turn.wire()), ("call"@, call.wire()), ("verb"@, verb.wire()), ("target"@, target.wire()), ("path"@, path.wire()), ("line"@, line.wire())]);
            }
            Call { name: String::from_str("tool-call-started"), args: args_from(f) }
        },
        SessionAction::ToolCallProgress { call, note } => {
            let mut f: Vec<(&'static str, Value)> = Vec::new();
            f.push(("call", call.to_value()));
            f.push(("note", note.to_value()));
            proof {
                assert(named_view(f@) =~= seq![("call"@, call.wire()), ("note"@, note.wire())]);
            }
            Call { name: String::from_str("tool-call-progress"), args: args_from(f) }
        },
        SessionAction::ToolCallCompleted { call, summary, added, removed } => {
            let mut f: Vec<(&'static str, Value)> = Vec::new();
            f.push(("call", call.to_value()));
            f.push(("summary", summary.to_value()));
            f.push(("added", added.to_value()));
            f.push(("removed", removed.to_value()));
            proof {
                assert(named_view(f@) =~= seq![("call"@, call.wire()), ("summary"@, summary.wire()), ("added"@, added.wire()), ("removed"@, removed.wire())]);
            }
            Call { name: String::from_str("tool-call-completed"), args: args_from(f) }
        },
        SessionAction::SessionSeam { kind, note } => {
            let mut f: Vec<(&'static str, Value)> = Vec::new();
            f.push(("kind", kind.to_value()));
            f.push(("note", note.to_value()));
            proof {
                assert(named_view(f@) =~= seq![("kind"@, kind.wire()), ("note"@, note.wire())]);
            }
            Call { name: String::from_str("session-seam"), args: args_from(f) }
        },
    }
}

fn session_action_decode(name: &str, args: &Args) -> (r: Option<Result<Action, ActionError>>)
    ensures
        match session_action_from(name@, crate::value::record_view(args@)) {
            None => r is None,
            Some(Ok(w)) => r matches Some(Ok(x)) && spec_action_name(x) == name@ && spec_action_args(x) == w,
            Some(Err(e)) => r matches Some(Err(err)) && action_error_view(err) == e,
        },
{
    proof {
        lemma_action_names();
    }
    if str_eq(name, "start-session") {
        let agent = match args.field::<String>("agent") {
            Ok(v) => v,
            Err(e) => return Some(Err(ActionError::Argument { name: "start-session", source: e })),
        };
        let cwd = match args.field::<Option<String>>("cwd") {
            Ok(v) => v,
            Err(e) => return Some(Err(ActionError::Argument { name: "start-session", source: e })),
        };
        Some(Ok(Action::Session(SessionAction::StartSession { agent, cwd })))
    } else if str_eq(name, "discover-sessions") {
        Some(Ok(Action::Session(SessionAction::DiscoverSessions {})))
    } else if str_eq(name, "adopt-session") {
        let handle = match args.field::<String>("handle") {
            Ok(v) => v,
            Err(e) => return Some(Err(ActionError::Argument { name: "adopt-session", source: e })),
        };
        Some(Ok(Action::Session(SessionAction::AdoptSession { handle })))
    } else if str_eq(name, "attach-session") {
        let endpoint = match args.field::<String>("endpoint") {
            Ok(v) => v,
            Err(e) => return Some(Err(ActionError::Argument { name: "attach-session", source: e })),
        };
        Some(Ok(Action::Session(SessionAction::AttachSession { endpoint })))
    } else if str_eq(name, "reattach-session") {
        Some(Ok(Action::Session(SessionAction::ReattachSession {})))
    } else if str_eq(name, "detach-session") {
        Some(Ok(Action::Session(SessionAction::DetachSession {})))
    } else if str_eq(name, "end-session") {
        let force = match args.field::<bool>("force") {
            Ok(v) => v,
            Err(e) => return Some(Err(ActionError::Argument { name: "end-session", source: e })),
        };
        Some(Ok(Action::Session(SessionAction::EndSession { force })))
    } else if str_eq(name, "send-message") {
        let body = match args.field::<String>("body") {
            Ok(v) => v,
            Err(e) => return Some(Err(ActionError::Argument { name: "send-message", source: e })),
        };
        let anchors = match args.field::<Vec<Target>>("anchors") {
            Ok(v) => v,
            Err(e) => return Some(Err(ActionError::Argument { name: "send-message", source: e })),
        };
        Some(Ok(Action::Session(SessionAction::SendMessage { body, anchors })))
    } else if str_eq(name, "interrupt-session") {
        Some(Ok(Action::Session(SessionAction::InterruptSession {})))
    } else if str_eq(name, "steer-session") {
        let body = match args.field::<String>("body") {
            Ok(v) => v,
            Err(e) => return Some(Err(ActionError::Argument { name: "steer-session", source: e })),
        };
        Some(Ok(Action::Session(SessionAction::SteerSession { body })))
    } else if str_eq(name, "resume-session") {
        Some(Ok(Action::Session(SessionAction::ResumeSession {})))
    } else if str_eq(name, "abort-turn") {
        Some(Ok(Action::Session(SessionAction::AbortTurn {})))
    } else if str_eq(name, "turn-began") {
        let turn = match args.field::<TurnId>("turn") {
            Ok(v) => v,
            Err(e) => return Some(Err(ActionError::Argument { name: "turn-began", source: e })),
        };
        let prompt = match args.field::<Option<String>>("prompt") {
            Ok(v) => v,
            Err(e) => return Some(Err(ActionError::Argument { name: "turn-began", source: e })),
        };
        Some(Ok(Action::Session(SessionAction::TurnBegan { turn, prompt })))
    } else if str_eq(name, "turn-ended") {
        let turn = match args.field::<TurnId>("turn") {
            Ok(v) => v,
            Err(e) => return Some(Err(ActionError::Argument { name: "turn-ended", source: e })),
        };
        let summary = match args.field::<Option<String>>("summary") {
            Ok(v) => v,
            Err(e) => return Some(Err(ActionError::Argument { name: "turn-ended", source: e })),
        };
        Some(Ok(Action::Session(SessionAction::TurnEnded { turn, summary })))
    } else if str_eq(name, "session-prose") {
        let turn = match args.field::<TurnId>("turn") {
            Ok(v) => v,
            Err(e) => return Some(Err(ActionError::Argument { name: "session-prose", source: e })),
        };
        let chunk = match args.field::<String>("chunk") {
            Ok(v) => v,
            Err(e) => return Some(Err(ActionError::Argument { name: "session-prose", source: e })),
        };
        Some(Ok(Action::Session(SessionAction::SessionProse { turn, chunk })))
    } else if str_eq(name, "tool-call-started") {
        let turn = match args.field::<TurnId>("turn") {
            Ok(v) => v,
            Err(e) => return Some(Err(ActionError::Argument { name: "tool-call-started", source: e })),
        };
        let call = match args.field::<ToolCallId>("call") {
            Ok(v) => v,
            Err(e) => return Some(Err(ActionError::Argument { name: "tool-call-started", source: e })),
        };
        let verb = match args.field::<String>("verb") {
            Ok(v) => v,
            Err(e) => return Some(Err(ActionError::Argument { name: "tool-call-started", source: e })),
        };
        let target = match args.field::<Option<String>>("target") {
            Ok(v) => v,
            Err(e) => return Some(Err(ActionError::Argument { name: "tool-call-started", source: e })),
        };
        let path = match args.field::<Option<String>>("path") {
            Ok(v) => v,
            Err(e) => return Some(Err(ActionError::Argument { name: "tool-call-started", source: e })),
        };
        let line = match args.field::<Option<u32>>("line") {
            Ok(v) => v,
            Err(e) => return Some(Err(ActionError::Argument { name: "tool-call-started", source: e })),
        };
        Some(Ok(Action::Session(SessionAction::ToolCallStarted { turn, call, verb, target, path, line })))
    } else if str_eq(name, "tool-call-progress") {
        let call = match args.field::<ToolCallId>("call") {
            Ok(v) => v,
            Err(e) => return Some(Err(ActionError::Argument { name: "tool-call-progress", source: e })),
        };
        let note = match args.field::<String>("note") {
            Ok(v) => v,
            Err(e) => return Some(Err(ActionError::Argument { name: "tool-call-progress", source: e })),
        };
        Some(Ok(Action::Session(SessionAction::ToolCallProgress { call, note })))
    } else if str_eq(name, "tool-call-completed") {
        let call = match args.field::<ToolCallId>("call") {
            Ok(v) => v,
            Err(e) => return Some(Err(ActionError::Argument { name: "tool-call-completed", source: e })),
        };
        let summary = match args.field::<String>("summary") {
            Ok(v) => v,
            Err(e) => return Some(Err(ActionError::Argument { name: "tool-call-completed", source: e })),
        };
        let added = match args.field::<u32>("added") {
            Ok(v) => v,
            Err(e) => return Some(Err(ActionError::Argument { name: "tool-call-completed", source: e })),
        };
        let removed = match args.field::<u32>("removed") {
            Ok(v) => v,
            Err(e) => return Some(Err(ActionError::Argument { name: "tool-call-completed", source: e })),
        };
        Some(Ok(Action::Session(SessionAction::ToolCallCompleted { call, summary, added, removed })))
    } else if str_eq(name, "session-seam") {
        let kind = match args.field::<SeamKind>("kind") {
            Ok(v) => v,
            Err(e) => return Some(Err(ActionError::Argument { name: "session-seam", source: e })),
        };
        let note = match args.field::<Option<String>>("note") {
            Ok(v) => v,
            Err(e) => return Some(Err(ActionError::Argument { name: "session-seam", source: e })),
        };
        Some(Ok(Action::Session(SessionAction::SessionSeam { kind, note })))
    } else {
        None
    }
}

fn watch_action_call(x: &WatchAction) -> (r: Call)
    ensures
        r.name@ == spec_action_name(Action::Watch(*x)),
        crate::value::record_view(r.args@) == watch_action_args(*x),
{
    match x {
        WatchAction::PlaceWatch { anchor, expr } => {
            let mut f: Vec<(&'static str, Value)> = Vec::new();
            f.push(("anchor", anchor.to_value()));
            f.push(("expr", expr.to_value()));
            proof {
                assert(named_view(f@) =~= seq![("anchor"@, anchor.wire()), ("expr"@, expr.wire())]);
            }
            Call { name: String::from_str("place-watch"), args: args_from(f) }
        },
        WatchAction::RemoveWatch { watch } => {
            let mut f: Vec<(&'static str, Value)> = Vec::new();
            f.push(("watch", watch.to_value()));
            proof {
                assert(named_view(f@) =~= seq![("watch"@, watch.wire())]);
            }
            Call { name: String::from_str("remove-watch"), args: args_from(f) }
        },
        WatchAction::SetWatchVisible { watch, on } => {
            let mut f: Vec<(&'static str, Value)> = Vec::new();
            f.push(("watch", watch.to_value()));
            f.push(("on", on.to_value()));
            proof {
                assert(named_view(f@) =~= seq![("watch"@, watch.wire()), ("on"@, on.wire())]);
            }
            Call { name: String::from_str("set-watch-visible"), args: args_from(f) }
        },
        WatchAction::PushWatchValues { watch, values, provenance } => {
            let mut f: Vec<(&'static str, Value)> = Vec::new();
            f.push(("watch", watch.to_value()));
            f.push(("values", values.to_value()));
            f.push(("provenance", provenance.to_value()));
            proof {
                assert(named_view(f@) =~= seq![("watch"@, watch.wire()), ("values"@, values.wire()), ("provenance"@, provenance.wire())]);
            }
            Call { name: String::from_str("push-watch-values"), args: args_from(f) }
        },
        WatchAction::ClearWatchValues { watch } => {
            let mut f: Vec<(&'static str, Value)> = Vec::new();
            f.push(("watch", watch.to_value()));
            proof {
                assert(named_view(f@) =~= seq![("watch"@, watch.wire())]);
            }
            Call { name: String::from_str("clear-watch-values"), args: args_from(f) }
        },
    }
}

fn watch_action_decode(name: &str, args: &Args) -> (r: Option<Result<Action, ActionError>>)
    ensures
        match watch_action_from(name@, crate::value::record_view(args@)) {
            None => r is None,
            Some(Ok(w)) => r matches Some(Ok(x)) && spec_action_name(x) == name@ && spec_action_args(x) == w,
            Some(Err(e)) => r matches Some(Err(err)) && action_error_view(err) == e,
        },
{
    proof {
        lemma_action_names();
    }
    if str_eq(name, "place-watch") {
        let anchor = match args.field::<Target>("anchor") {
            Ok(v) => v,
            Err(e) => return Some(Err(ActionError::Argument { name: "place-watch", source: e })),
        };
        let expr = match args.field::<String>("expr") {
            Ok(v) => v,
            Err(e) => return Some(Err(ActionError::Argument { name: "place-watch", source: e })),
        };
        Some(Ok(Action::Watch(WatchAction::PlaceWatch { anchor, expr })))
    } else if str_eq(name, "remove-watch") {
        let watch = match args.field::<WatchId>("watch") {
            Ok(v) => v,
            Err(e) => return Some(Err(ActionError::Argument { name: "remove-watch", source: e })),
        };
        Some(Ok(Action::Watch(WatchAction::RemoveWatch { watch })))
    } else if str_eq(name, "set-watch-visible") {
        let watch = match args.field::<WatchId>("watch") {
            Ok(v) => v,
            Err(e) => return Some(Err(ActionError::Argument { name: "set-watch-visible", source: e })),
        };
        let on = match args.field::<bool>("on") {
            Ok(v) => v,
            Err(e) => return Some(Err(ActionError::Argument { name: "set-watch-visible", source: e })),
        };
        Some(Ok(Action::Watch(WatchAction::SetWatchVisible { watch, on })))
    } else if str_eq(name, "push-watch-values") {
        let watch = match args.field::<WatchId>("watch") {
            Ok(v) => v,
            Err(e) => return Some(Err(ActionError::Argument { name: "push-watch-values", source: e })),
        };
        let values = match args.field::<Vec<String>>("values") {
            Ok(v) => v,
            Err(e) => return Some(Err(ActionError::Argument { name: "push-watch-values", source: e })),
        };
        let provenance = match args.field::<Option<String>>("provenance") {
            Ok(v) => v,
            Err(e) => return Some(Err(ActionError::Argument { name: "push-watch-values", source: e })),
        };
        Some(Ok(Action::Watch(WatchAction::PushWatchValues { watch, values, provenance })))
    } else if str_eq(name, "clear-watch-values") {
        let watch = match args.field::<WatchId>("watch") {
            Ok(v) => v,
            Err(e) => return Some(Err(ActionError::Argument { name: "clear-watch-values", source: e })),
        };
        Some(Ok(Action::Watch(WatchAction::ClearWatchValues { watch })))
    } else {
        None
    }
}

fn lsp_action_call(x: &LspAction) -> (r: Call)
    ensures
        r.name@ == spec_action_name(Action::Lsp(*x)),
        crate::value::record_view(r.args@) == lsp_action_args(*x),
{
    match x {
        LspAction::RequestCompletion {} => {
            let mut f: Vec<(&'static str, Value)> = Vec::new();
            proof {
                assert(named_view(f@) =~= seq![]);
            }
            Call { name: String::from_str("request-completion"), args: args_from(f) }
        },
        LspAction::MoveCompletion { delta, otherwise } => {
            let mut f: Vec<(&'static str, Value)> = Vec::new();
            f.push(("delta", delta.to_value()));
            f.push(("otherwise", otherwise.to_value()));
            proof {
                assert(named_view(f@) =~= seq![("delta"@, delta.wire()), ("otherwise"@, otherwise.wire())]);
            }
            Call { name: String::from_str("move-completion"), args: args_from(f) }
        },
        LspAction::AcceptCompletion { index, then, otherwise } => {
            let mut f: Vec<(&'static str, Value)> = Vec::new();
            f.push(("index", index.to_value()));
            f.push(("then", then.to_value()));
            f.push(("otherwise", otherwise.to_value()));
            proof {
                assert(named_view(f@) =~= seq![("index"@, index.wire()), ("then"@, then.wire()), ("otherwise"@, otherwise.wire())]);
            }
            Call { name: String::from_str("accept-completion"), args: args_from(f) }
        },
        LspAction::CancelCompletion {} => {
            let mut f: Vec<(&'static str, Value)> = Vec::new();
            proof {
                assert(named_view(f@) =~= seq![]);
            }
            Call { name: String::from_str("cancel-completion"), args: args_from(f) }
        },
        LspAction::RequestHover {} => {
            let mut f: Vec<(&'static str, Value)> = Vec::new();
            proof {
                assert(named_view(f@) =~= seq![]);
            }
            Call { name: String::from_str("request-hover"), args: args_from(f) }
        },
        LspAction::RequestSignatureHelp {} => {
            let mut f: Vec<(&'static str, Value)> = Vec::new();
            proof {
                assert(named_view(f@) =~= seq![]);
            }
            Call { name: String::from_str("request-signature-help"), args: args_from(f) }
        },
        LspAction::RequestDefinition {} => {
            let mut f: Vec<(&'static str, Value)> = Vec::new();
            proof {
                assert(named_view(f@) =~= seq![]);
            }
            Call { name: String::from_str("request-definition"), args: args_from(f) }
        },
        LspAction::RequestReferences {} => {
            let mut f: Vec<(&'static str, Value)> = Vec::new();
            proof {
                assert(named_view(f@) =~= seq![]);
            }
            Call { name: String::from_str("request-references"), args: args_from(f) }
        },
        LspAction::IngestCompletions { items, at, buffer } => {
            let mut f: Vec<(&'static str, Value)> = Vec::new();
            f.push(("items", items.to_value()));
            f.push(("at", at.to_value()));
            f.push(("buffer", buffer.to_value()));
            proof {
                assert(named_view(f@) =~= seq![("items"@, items.wire()), ("at"@, at.wire()), ("buffer"@, buffer.wire())]);
            }
            Call { name: String::from_str("ingest-completions"), args: args_from(f) }
        },
        LspAction::IngestSignatureHelp { signature, at, buffer } => {
            let mut f: Vec<(&'static str, Value)> = Vec::new();
            f.push(("signature", signature.to_value()));
            f.push(("at", at.to_value()));
            f.push(("buffer", buffer.to_value()));
            proof {
                assert(named_view(f@) =~= seq![("signature"@, signature.wire()), ("at"@, at.wire()), ("buffer"@, buffer.wire())]);
            }
            Call { name: String::from_str("ingest-signature-help"), args: args_from(f) }
        },
        LspAction::IngestHover { prose, at, buffer } => {
            let mut f: Vec<(&'static str, Value)> = Vec::new();
            f.push(("prose", prose.to_value()));
            f.push(("at", at.to_value()));
            f.push(("buffer", buffer.to_value()));
            proof {
                assert(named_view(f@) =~= seq![("prose"@, prose.wire()), ("at"@, at.wire()), ("buffer"@, buffer.wire())]);
            }
            Call { name: String::from_str("ingest-hover"), args: args_from(f) }
        },
        LspAction::IngestDiagnostics { path, diagnostics } => {
            let mut f: Vec<(&'static str, Value)> = Vec::new();
            f.push(("path", path.to_value()));
            f.push(("diagnostics", diagnostics.to_value()));
            proof {
                assert(named_view(f@) =~= seq![("path"@, path.wire()), ("diagnostics"@, diagnostics.wire())]);
            }
            Call { name: String::from_str("ingest-diagnostics"), args: args_from(f) }
        },
        LspAction::ApplyWorkspaceEdit { files } => {
            let mut f: Vec<(&'static str, Value)> = Vec::new();
            f.push(("files", files.to_value()));
            proof {
                assert(named_view(f@) =~= seq![("files"@, files.wire())]);
            }
            Call { name: String::from_str("apply-workspace-edit"), args: args_from(f) }
        },
        LspAction::RestartLanguageServer { language } => {
            let mut f: Vec<(&'static str, Value)> = Vec::new();
            f.push(("language", language.to_value()));
            proof {
                assert(named_view(f@) =~= seq![("language"@, language.wire())]);
            }
            Call { name: String::from_str("restart-language-server"), args: args_from(f) }
        },
    }
}

fn lsp_action_decode(name: &str, args: &Args) -> (r: Option<Result<Action, ActionError>>)
    ensures
        match lsp_action_from(name@, crate::value::record_view(args@)) {
            None => r is None,
            Some(Ok(w)) => r matches Some(Ok(x)) && spec_action_name(x) == name@ && spec_action_args(x) == w,
            Some(Err(e)) => r matches Some(Err(err)) && action_error_view(err) == e,
        },
{
    proof {
        lemma_action_names();
    }
    if str_eq(name, "request-completion") {
        Some(Ok(Action::Lsp(LspAction::RequestCompletion {})))
    } else if str_eq(name, "move-completion") {
        let delta = match args.field::<i64>("delta") {
            Ok(v) => v,
            Err(e) => return Some(Err(ActionError::Argument { name: "move-completion", source: e })),
        };
        let otherwise = match args.field::<Option<Binding>>("otherwise") {
            Ok(v) => v,
            Err(e) => return Some(Err(ActionError::Argument { name: "move-completion", source: e })),
        };
        Some(Ok(Action::Lsp(LspAction::MoveCompletion { delta, otherwise })))
    } else if str_eq(name, "accept-completion") {
        let index = match args.field::<u32>("index") {
            Ok(v) => v,
            Err(e) => return Some(Err(ActionError::Argument { name: "accept-completion", source: e })),
        };
        let then = match args.field::<Option<String>>("then") {
            Ok(v) => v,
            Err(e) => return Some(Err(ActionError::Argument { name: "accept-completion", source: e })),
        };
        let otherwise = match args.field::<Option<String>>("otherwise") {
            Ok(v) => v,
            Err(e) => return Some(Err(ActionError::Argument { name: "accept-completion", source: e })),
        };
        Some(Ok(Action::Lsp(LspAction::AcceptCompletion { index, then, otherwise })))
    } else if str_eq(name, "cancel-completion") {
        Some(Ok(Action::Lsp(LspAction::CancelCompletion {})))
    } else if str_eq(name, "request-hover") {
        Some(Ok(Action::Lsp(LspAction::RequestHover {})))
    } else if str_eq(name, "request-signature-help") {
        Some(Ok(Action::Lsp(LspAction::RequestSignatureHelp {})))
    } else if str_eq(name, "request-definition") {
        Some(Ok(Action::Lsp(LspAction::RequestDefinition {})))
    } else if str_eq(name, "request-references") {
        Some(Ok(Action::Lsp(LspAction::RequestReferences {})))
    } else if str_eq(name, "ingest-completions") {
        let items = match args.field::<Vec<Completion>>("items") {
            Ok(v) => v,
            Err(e) => return Some(Err(ActionError::Argument { name: "ingest-completions", source: e })),
        };
        let at = match args.field::<Position>("at") {
            Ok(v) => v,
            Err(e) => return Some(Err(ActionError::Argument { name: "ingest-completions", source: e })),
        };
        let buffer = match args.field::<Option<BufferId>>("buffer") {
            Ok(v) => v,
            Err(e) => return Some(Err(ActionError::Argument { name: "ingest-completions", source: e })),
        };
        Some(Ok(Action::Lsp(LspAction::IngestCompletions { items, at, buffer })))
    } else if str_eq(name, "ingest-signature-help") {
        let signature = match args.field::<Option<Signature>>("signature") {
            Ok(v) => v,
            Err(e) => return Some(Err(ActionError::Argument { name: "ingest-signature-help", source: e })),
        };
        let at = match args.field::<Position>("at") {
            Ok(v) => v,
            Err(e) => return Some(Err(ActionError::Argument { name: "ingest-signature-help", source: e })),
        };
        let buffer = match args.field::<Option<BufferId>>("buffer") {
            Ok(v) => v,
            Err(e) => return Some(Err(ActionError::Argument { name: "ingest-signature-help", source: e })),
        };
        Some(Ok(Action::Lsp(LspAction::IngestSignatureHelp { signature, at, buffer })))
    } else if str_eq(name, "ingest-hover") {
        let prose = match args.field::<Vec<String>>("prose") {
            Ok(v) => v,
            Err(e) => return Some(Err(ActionError::Argument { name: "ingest-hover", source: e })),
        };
        let at = match args.field::<Position>("at") {
            Ok(v) => v,
            Err(e) => return Some(Err(ActionError::Argument { name: "ingest-hover", source: e })),
        };
        let buffer = match args.field::<Option<BufferId>>("buffer") {
            Ok(v) => v,
            Err(e) => return Some(Err(ActionError::Argument { name: "ingest-hover", source: e })),
        };
        Some(Ok(Action::Lsp(LspAction::IngestHover { prose, at, buffer })))
    } else if str_eq(name, "ingest-diagnostics") {
        let path = match args.field::<String>("path") {
            Ok(v) => v,
            Err(e) => return Some(Err(ActionError::Argument { name: "ingest-diagnostics", source: e })),
        };
        let diagnostics = match args.field::<Vec<Diagnostic>>("diagnostics") {
            Ok(v) => v,
            Err(e) => return Some(Err(ActionError::Argument { name: "ingest-diagnostics", source: e })),
        };
        Some(Ok(Action::Lsp(LspAction::IngestDiagnostics { path, diagnostics })))
    } else if str_eq(name, "apply-workspace-edit") {
        let files = match args.field::<Vec<FileEdits>>("files") {
            Ok(v) => v,
            Err(e) => return Some(Err(ActionError::Argument { name: "apply-workspace-edit", source: e })),
        };
        Some(Ok(Action::Lsp(LspAction::ApplyWorkspaceEdit { files })))
    } else if str_eq(name, "restart-language-server") {
        let language = match args.field::<LanguageId>("language") {
            Ok(v) => v,
            Err(e) => return Some(Err(ActionError::Argument { name: "restart-language-server", source: e })),
        };
        Some(Ok(Action::Lsp(LspAction::RestartLanguageServer { language })))
    } else {
        None
    }
}

fn vcs_action_call(x: &VcsAction) -> (r: Call)
    ensures
        r.name@ == spec_action_name(Action::Vcs(*x)),
        crate::value::record_view(r.args@) == vcs_action_args(*x),
{
    match x {
        VcsAction::RefreshVcs {} => {
            let mut f: Vec<(&'static str, Value)> = Vec::new();
            proof {
                assert(named_view(f@) =~= seq![]);
            }
            Call { name: String::from_str("refresh-vcs"), args: args_from(f) }
        },
        VcsAction::OpenTimeline {} => {
            let mut f: Vec<(&'static str, Value)> = Vec::new();
            proof {
                assert(named_view(f@) =~= seq![]);
            }
            Call { name: String::from_str("open-timeline"), args: args_from(f) }
        },
        VcsAction::ShowChangeDiff { change } => {
            let mut f: Vec<(&'static str, Value)> = Vec::new();
            f.push(("change", change.to_value()));
            proof {
                assert(named_view(f@) =~= seq![("change"@, change.wire())]);
            }
            Call { name: String::from_str("show-change-diff"), args: args_from(f) }
        },
        VcsAction::OpenOperationLog {} => {
            let mut f: Vec<(&'static str, Value)> = Vec::new();
            proof {
                assert(named_view(f@) =~= seq![]);
            }
            Call { name: String::from_str("open-operation-log"), args: args_from(f) }
        },
        VcsAction::EditAtChange { change } => {
            let mut f: Vec<(&'static str, Value)> = Vec::new();
            f.push(("change", change.to_value()));
            proof {
                assert(named_view(f@) =~= seq![("change"@, change.wire())]);
            }
            Call { name: String::from_str("edit-at-change"), args: args_from(f) }
        },
        VcsAction::RestoreChange { change } => {
            let mut f: Vec<(&'static str, Value)> = Vec::new();
            f.push(("change", change.to_value()));
            proof {
                assert(named_view(f@) =~= seq![("change"@, change.wire())]);
            }
            Call { name: String::from_str("restore-change"), args: args_from(f) }
        },
    }
}

fn vcs_action_decode(name: &str, args: &Args) -> (r: Option<Result<Action, ActionError>>)
    ensures
        match vcs_action_from(name@, crate::value::record_view(args@)) {
            None => r is None,
            Some(Ok(w)) => r matches Some(Ok(x)) && spec_action_name(x) == name@ && spec_action_args(x) == w,
            Some(Err(e)) => r matches Some(Err(err)) && action_error_view(err) == e,
        },
{
    proof {
        lemma_action_names();
    }
    if str_eq(name, "refresh-vcs") {
        Some(Ok(Action::Vcs(VcsAction::RefreshVcs {})))
    } else if str_eq(name, "open-timeline") {
        Some(Ok(Action::Vcs(VcsAction::OpenTimeline {})))
    } else if str_eq(name, "show-change-diff") {
        let change = match args.field::<ChangeId>("change") {
            Ok(v) => v,
            Err(e) => return Some(Err(ActionError::Argument { name: "show-change-diff", source: e })),
        };
        Some(Ok(Action::Vcs(VcsAction::ShowChangeDiff { change })))
    } else if str_eq(name, "open-operation-log") {
        Some(Ok(Action::Vcs(VcsAction::OpenOperationLog {})))
    } else if str_eq(name, "edit-at-change") {
        let change = match args.field::<ChangeId>("change") {
            Ok(v) => v,
            Err(e) => return Some(Err(ActionError::Argument { name: "edit-at-change", source: e })),
        };
        Some(Ok(Action::Vcs(VcsAction::EditAtChange { change })))
    } else if str_eq(name, "restore-change") {
        let change = match args.field::<ChangeId>("change") {
            Ok(v) => v,
            Err(e) => return Some(Err(ActionError::Argument { name: "restore-change", source: e })),
        };
        Some(Ok(Action::Vcs(VcsAction::RestoreChange { change })))
    } else {
        None
    }
}

fn runtime_action_call(x: &RuntimeAction) -> (r: Call)
    ensures
        r.name@ == spec_action_name(Action::Runtime(*x)),
        crate::value::record_view(r.args@) == runtime_action_args(*x),
{
    match x {
        RuntimeAction::Eval { source } => {
            let mut f: Vec<(&'static str, Value)> = Vec::new();
            f.push(("source", source.to_value()));
            proof {
                assert(named_view(f@) =~= seq![("source"@, source.wire())]);
            }
            Call { name: String::from_str("eval"), args: args_from(f) }
        },
        RuntimeAction::LoadRuntimeFile { path } => {
            let mut f: Vec<(&'static str, Value)> = Vec::new();
            f.push(("path", path.to_value()));
            proof {
                assert(named_view(f@) =~= seq![("path"@, path.wire())]);
            }
            Call { name: String::from_str("load-runtime-file"), args: args_from(f) }
        },
        RuntimeAction::ReloadRuntime {} => {
            let mut f: Vec<(&'static str, Value)> = Vec::new();
            proof {
                assert(named_view(f@) =~= seq![]);
            }
            Call { name: String::from_str("reload-runtime"), args: args_from(f) }
        },
        RuntimeAction::OpenRepl {} => {
            let mut f: Vec<(&'static str, Value)> = Vec::new();
            proof {
                assert(named_view(f@) =~= seq![]);
            }
            Call { name: String::from_str("open-repl"), args: args_from(f) }
        },
        RuntimeAction::CloseRepl {} => {
            let mut f: Vec<(&'static str, Value)> = Vec::new();
            proof {
                assert(named_view(f@) =~= seq![]);
            }
            Call { name: String::from_str("close-repl"), args: args_from(f) }
        },
        RuntimeAction::ReplHistory { delta } => {
            let mut f: Vec<(&'static str, Value)> = Vec::new();
            f.push(("delta", delta.to_value()));
            proof {
                assert(named_view(f@) =~= seq![("delta"@, delta.wire())]);
            }
            Call { name: String::from_str("repl-history"), args: args_from(f) }
        },
        RuntimeAction::ReplToBuffer {} => {
            let mut f: Vec<(&'static str, Value)> = Vec::new();
            proof {
                assert(named_view(f@) =~= seq![]);
            }
            Call { name: String::from_str("repl-to-buffer"), args: args_from(f) }
        },
        RuntimeAction::PersistForm { form } => {
            let mut f: Vec<(&'static str, Value)> = Vec::new();
            f.push(("form", form.to_value()));
            proof {
                assert(named_view(f@) =~= seq![("form"@, form.wire())]);
            }
            Call { name: String::from_str("persist-form"), args: args_from(f) }
        },
        RuntimeAction::SetKeybinding { keys, binding, mode } => {
            let mut f: Vec<(&'static str, Value)> = Vec::new();
            f.push(("keys", keys.to_value()));
            f.push(("binding", binding.to_value()));
            f.push(("mode", mode.to_value()));
            proof {
                assert(named_view(f@) =~= seq![("keys"@, keys.wire()), ("binding"@, binding.wire()), ("mode"@, mode.wire())]);
            }
            Call { name: String::from_str("set-keybinding"), args: args_from(f) }
        },
        RuntimeAction::RemoveKeybinding { keys, mode } => {
            let mut f: Vec<(&'static str, Value)> = Vec::new();
            f.push(("keys", keys.to_value()));
            f.push(("mode", mode.to_value()));
            proof {
                assert(named_view(f@) =~= seq![("keys"@, keys.wire()), ("mode"@, mode.wire())]);
            }
            Call { name: String::from_str("remove-keybinding"), args: args_from(f) }
        },
        RuntimeAction::DefineLanguage { language, spec } => {
            let mut f: Vec<(&'static str, Value)> = Vec::new();
            f.push(("language", language.to_value()));
            f.push(("spec", spec.to_value()));
            proof {
                assert(named_view(f@) =~= seq![("language"@, language.wire()), ("spec"@, spec.wire())]);
            }
            Call { name: String::from_str("define-language"), args: args_from(f) }
        },
        RuntimeAction::SetOption { key, value } => {
            let mut f: Vec<(&'static str, Value)> = Vec::new();
            f.push(("key", key.to_value()));
            f.push(("value", value.to_value()));
            proof {
                assert(named_view(f@) =~= seq![("key"@, key.wire()), ("value"@, value.wire())]);
            }
            Call { name: String::from_str("set-option"), args: args_from(f) }
        },
        RuntimeAction::SetTheme { slug } => {
            let mut f: Vec<(&'static str, Value)> = Vec::new();
            f.push(("slug", slug.to_value()));
            proof {
                assert(named_view(f@) =~= seq![("slug"@, slug.wire())]);
            }
            Call { name: String::from_str("set-theme"), args: args_from(f) }
        },
        RuntimeAction::ReloadTheme {} => {
            let mut f: Vec<(&'static str, Value)> = Vec::new();
            proof {
                assert(named_view(f@) =~= seq![]);
            }
            Call { name: String::from_str("reload-theme"), args: args_from(f) }
        },
    }
}

fn runtime_action_decode(name: &str, args: &Args) -> (r: Option<Result<Action, ActionError>>)
    ensures
        match runtime_action_from(name@, crate::value::record_view(args@)) {
            None => r is None,
            Some(Ok(w)) => r matches Some(Ok(x)) && spec_action_name(x) == name@ && spec_action_args(x) == w,
            Some(Err(e)) => r matches Some(Err(err)) && action_error_view(err) == e,
        },
{
    proof {
        lemma_action_names();
    }
    if str_eq(name, "eval") {
        let source = match args.field::<String>("source") {
            Ok(v) => v,
            Err(e) => return Some(Err(ActionError::Argument { name: "eval", source: e })),
        };
        Some(Ok(Action::Runtime(RuntimeAction::Eval { source })))
    } else if str_eq(name, "load-runtime-file") {
        let path = match args.field::<String>("path") {
            Ok(v) => v,
            Err(e) => return Some(Err(ActionError::Argument { name: "load-runtime-file", source: e })),
        };
        Some(Ok(Action::Runtime(RuntimeAction::LoadRuntimeFile { path })))
    } else if str_eq(name, "reload-runtime") {
        Some(Ok(Action::Runtime(RuntimeAction::ReloadRuntime {})))
    } else if str_eq(name, "open-repl") {
        Some(Ok(Action::Runtime(RuntimeAction::OpenRepl {})))
    } else if str_eq(name, "close-repl") {
        Some(Ok(Action::Runtime(RuntimeAction::CloseRepl {})))
    } else if str_eq(name, "repl-history") {
        let delta = match args.field::<i64>("delta") {
            Ok(v) => v,
            Err(e) => return Some(Err(ActionError::Argument { name: "repl-history", source: e })),
        };
        Some(Ok(Action::Runtime(RuntimeAction::ReplHistory { delta })))
    } else if str_eq(name, "repl-to-buffer") {
        Some(Ok(Action::Runtime(RuntimeAction::ReplToBuffer {})))
    } else if str_eq(name, "persist-form") {
        let form = match args.field::<String>("form") {
            Ok(v) => v,
            Err(e) => return Some(Err(ActionError::Argument { name: "persist-form", source: e })),
        };
        Some(Ok(Action::Runtime(RuntimeAction::PersistForm { form })))
    } else if str_eq(name, "set-keybinding") {
        let keys = match args.field::<KeySeq>("keys") {
            Ok(v) => v,
            Err(e) => return Some(Err(ActionError::Argument { name: "set-keybinding", source: e })),
        };
        let binding = match args.field::<Binding>("binding") {
            Ok(v) => v,
            Err(e) => return Some(Err(ActionError::Argument { name: "set-keybinding", source: e })),
        };
        let mode = match args.field::<Option<EditMode>>("mode") {
            Ok(v) => v,
            Err(e) => return Some(Err(ActionError::Argument { name: "set-keybinding", source: e })),
        };
        Some(Ok(Action::Runtime(RuntimeAction::SetKeybinding { keys, binding, mode })))
    } else if str_eq(name, "remove-keybinding") {
        let keys = match args.field::<KeySeq>("keys") {
            Ok(v) => v,
            Err(e) => return Some(Err(ActionError::Argument { name: "remove-keybinding", source: e })),
        };
        let mode = match args.field::<Option<EditMode>>("mode") {
            Ok(v) => v,
            Err(e) => return Some(Err(ActionError::Argument { name: "remove-keybinding", source: e })),
        };
        Some(Ok(Action::Runtime(RuntimeAction::RemoveKeybinding { keys, mode })))
    } else if str_eq(name, "define-language") {
        let language = match args.field::<LanguageId>("language") {
            Ok(v) => v,
            Err(e) => return Some(Err(ActionError::Argument { name: "define-language", source: e })),
        };
        let spec = match args.field::<LanguageSpec>("spec") {
            Ok(v) => v,
            Err(e) => return Some(Err(ActionError::Argument { name: "define-language", source: e })),
        };
        Some(Ok(Action::Runtime(RuntimeAction::DefineLanguage { language, spec })))
    } else if str_eq(name, "set-option") {
        let key = match args.field::<String>("key") {
            Ok(v) => v,
            Err(e) => return Some(Err(ActionError::Argument { name: "set-option", source: e })),
        };
        let value = match args.field::<Value>("value") {
            Ok(v) => v,
            Err(e) => return Some(Err(ActionError::Argument { name: "set-option", source: e })),
        };
        Some(Ok(Action::Runtime(RuntimeAction::SetOption { key, value })))
    } else if str_eq(name, "set-theme") {
        let slug = match args.field::<ThemeSlug>("slug") {
            Ok(v) => v,
            Err(e) => return Some(Err(ActionError::Argument { name: "set-theme", source: e })),
        };
        Some(Ok(Action::Runtime(RuntimeAction::SetTheme { slug })))
    } else if str_eq(name, "reload-theme") {
        Some(Ok(Action::Runtime(RuntimeAction::ReloadTheme {})))
    } else {
        None
    }
}

fn app_action_call(x: &AppAction) -> (r: Call)
    ensures
        r.name@ == spec_action_name(Action::App(*x)),
        crate::value::record_view(r.args@) == app_action_args(*x),
{
    match x {
        AppAction::Quit { force } => {
            let mut f: Vec<(&'static str, Value)> = Vec::new();
            f.push(("force", force.to_value()));
            proof {
                assert(named_view(f@) =~= seq![("force"@, force.wire())]);
            }
            Call { name: String::from_str("quit"), args: args_from(f) }
        },
        AppAction::ShowUnknownKeyHint { key } => {
            let mut f: Vec<(&'static str, Value)> = Vec::new();
            f.push(("key", key.to_value()));
            proof {
                assert(named_view(f@) =~= seq![("key"@, key.wire())]);
            }
            Call { name: String::from_str("show-unknown-key-hint"), args: args_from(f) }
        },
        AppAction::OpenHelp { topic } => {
            let mut f: Vec<(&'static str, Value)> = Vec::new();
            f.push(("topic", topic.to_value()));
            proof {
                assert(named_view(f@) =~= seq![("topic"@, topic.wire())]);
            }
            Call { name: String::from_str("open-help"), args: args_from(f) }
        },
        AppAction::OpenArch {} => {
            let mut f: Vec<(&'static str, Value)> = Vec::new();
            proof {
                assert(named_view(f@) =~= seq![]);
            }
            Call { name: String::from_str("open-arch"), args: args_from(f) }
        },
        AppAction::OpenDashboard {} => {
            let mut f: Vec<(&'static str, Value)> = Vec::new();
            proof {
                assert(named_view(f@) =~= seq![]);
            }
            Call { name: String::from_str("open-dashboard"), args: args_from(f) }
        },
        AppAction::DismissDashboardHint {} => {
            let mut f: Vec<(&'static str, Value)> = Vec::new();
            proof {
                assert(named_view(f@) =~= seq![]);
            }
            Call { name: String::from_str("dismiss-dashboard-hint"), args: args_from(f) }
        },
    }
}

fn app_action_decode(name: &str, args: &Args) -> (r: Option<Result<Action, ActionError>>)
    ensures
        match app_action_from(name@, crate::value::record_view(args@)) {
            None => r is None,
            Some(Ok(w)) => r matches Some(Ok(x)) && spec_action_name(x) == name@ && spec_action_args(x) == w,
            Some(Err(e)) => r matches Some(Err(err)) && action_error_view(err) == e,
        },
{
    proof {
        lemma_action_names();
    }
    if str_eq(name, "quit") {
        let force = match args.field::<bool>("force") {
            Ok(v) => v,
            Err(e) => return Some(Err(ActionError::Argument { name: "quit", source: e })),
        };
        Some(Ok(Action::App(AppAction::Quit { force })))
    } else if str_eq(name, "show-unknown-key-hint") {
        let key = match args.field::<KeySeq>("key") {
            Ok(v) => v,
            Err(e) => return Some(Err(ActionError::Argument { name: "show-unknown-key-hint", source: e })),
        };
        Some(Ok(Action::App(AppAction::ShowUnknownKeyHint { key })))
    } else if str_eq(name, "open-help") {
        let topic = match args.field::<Option<String>>("topic") {
            Ok(v) => v,
            Err(e) => return Some(Err(ActionError::Argument { name: "open-help", source: e })),
        };
        Some(Ok(Action::App(AppAction::OpenHelp { topic })))
    } else if str_eq(name, "open-arch") {
        Some(Ok(Action::App(AppAction::OpenArch {})))
    } else if str_eq(name, "open-dashboard") {
        Some(Ok(Action::App(AppAction::OpenDashboard {})))
    } else if str_eq(name, "dismiss-dashboard-hint") {
        Some(Ok(Action::App(AppAction::DismissDashboardHint {})))
    } else {
        None
    }
}

impl Action {
    /// Encodes into a door-neutral call: every declared argument is present,
    /// an absent optional one as `Null`.
    pub fn to_call(&self) -> (r: Call)
        ensures
            r.name@ == spec_action_name(*self),
            crate::value::record_view(r.args@) == spec_action_args(*self),
    {
        match self {
            Action::Buffer(x) => buffer_action_call(x),
            Action::Motion(x) => motion_action_call(x),
            Action::View(x) => view_action_call(x),
            Action::Input(x) => input_action_call(x),
            Action::History(x) => history_action_call(x),
            Action::File(x) => file_action_call(x),
            Action::Float(x) => float_action_call(x),
            Action::Pane(x) => pane_action_call(x),
            Action::Picker(x) => picker_action_call(x),
            Action::Prompt(x) => prompt_action_call(x),
            Action::Region(x) => region_action_call(x),
            Action::Thread(x) => thread_action_call(x),
            Action::Review(x) => review_action_call(x),
            Action::Inbox(x) => inbox_action_call(x),
            Action::Ask(x) => ask_action_call(x),
            Action::Session(x) => session_action_call(x),
            Action::Watch(x) => watch_action_call(x),
            Action::Lsp(x) => lsp_action_call(x),
            Action::Vcs(x) => vcs_action_call(x),
            Action::Runtime(x) => runtime_action_call(x),
            Action::App(x) => app_action_call(x),
        }
    }

    /// Decodes a call from any door: an unknown name says so, and a missing or
    /// malformed argument names the capability and the argument.
    pub fn from_call(name: &str, args: &Args) -> (r: Result<Action, ActionError>)
        ensures
            match spec_action_from_call(name@, crate::value::record_view(args@)) {
                Ok(w) => r matches Ok(x) && spec_action_name(x) == name@ && spec_action_args(x) == w,
                Err(e) => r matches Err(err) && action_error_view(err) == e,
            },
    {
        proof {
            lemma_action_names();
        }
        if let Some(r) = buffer_action_decode(name, args) {
            return r;
        }
        if let Some(r) = motion_action_decode(name, args) {
            return r;
        }
        if let Some(r) = view_action_decode(name, args) {
            return r;
        }
        if let Some(r) = input_action_decode(name, args) {
            return r;
        }
        if let Some(r) = history_action_decode(name, args) {
            return r;
        }
        if let Some(r) = file_action_decode(name, args) {
            return r;
        }
        if let Some(r) = float_action_decode(name, args) {
            return r;
        }
        if let Some(r) = pane_action_decode(name, args) {
            return r;
        }
        if let Some(r) = picker_action_decode(name, args) {
            return r;
        }
        if let Some(r) = prompt_action_decode(name, args) {
            return r;
        }
        if let Some(r) = region_action_decode(name, args) {
            return r;
        }
        if let Some(r) = thread_action_decode(name, args) {
            return r;
        }
        if let Some(r) = review_action_decode(name, args) {
            return r;
        }
        if let Some(r) = inbox_action_decode(name, args) {
            return r;
        }
        if let Some(r) = ask_action_decode(name, args) {
            return r;
        }
        if let Some(r) = session_action_decode(name, args) {
            return r;
        }
        if let Some(r) = watch_action_decode(name, args) {
            return r;
        }
        if let Some(r) = lsp_action_decode(name, args) {
            return r;
        }
        if let Some(r) = vcs_action_decode(name, args) {
            return r;
        }
        if let Some(r) = runtime_action_decode(name, args) {
            return r;
        }
        if let Some(r) = app_action_decode(name, args) {
            return r;
        }
        Err(ActionError::Unknown { name: String::from_str(name) })
    }
}

/// The arguments a [`RegionQuery`] is called with.
pub open spec fn region_query_args(x: RegionQuery) -> Seq<(Seq<char>, ValueV)> {
    match x {
        RegionQuery::Regions { filter } => args_of(seq![("filter"@, filter.wire())]),
        RegionQuery::UnseenRegions { path } => args_of(seq![("path"@, path.wire())]),
        RegionQuery::Region { region } => args_of(seq![("region"@, region.wire())]),
        RegionQuery::UnseenCount { within } => args_of(seq![("within"@, within.wire())]),
        RegionQuery::SeenCount { within } => args_of(seq![("within"@, within.wire())]),
        RegionQuery::NextRegionBy { author, from } => args_of(seq![("author"@, author.wire()), ("from"@, from.wire())]),
        RegionQuery::BlockRegions { block } => args_of(seq![("block"@, block.wire())]),
        RegionQuery::Anchors { path } => args_of(seq![("path"@, path.wire())]),
        RegionQuery::Anchor { anchor } => args_of(seq![("anchor"@, anchor.wire())]),
    }
}

/// The arguments a [`BufferQuery`] is called with.
pub open spec fn buffer_query_args(x: BufferQuery) -> Seq<(Seq<char>, ValueV)> {
    match x {
        BufferQuery::Buffers {} => args_of(seq![]),
        BufferQuery::Buffer { buffer } => args_of(seq![("buffer"@, buffer.wire())]),
        BufferQuery::BufferText { target } => args_of(seq![("target"@, target.wire())]),
        BufferQuery::BufferLines { target } => args_of(seq![("target"@, target.wire())]),
        BufferQuery::Cursor { pane } => args_of(seq![("pane"@, pane.wire())]),
        BufferQuery::Selection { pane } => args_of(seq![("pane"@, pane.wire())]),
        BufferQuery::Viewport { pane } => args_of(seq![("pane"@, pane.wire())]),
        BufferQuery::DirtyBuffers {} => args_of(seq![]),
        BufferQuery::DiskState { path } => args_of(seq![("path"@, path.wire())]),
    }
}

/// The arguments a [`InputQuery`] is called with.
pub open spec fn input_query_args(x: InputQuery) -> Seq<(Seq<char>, ValueV)> {
    match x {
        InputQuery::Mode {} => args_of(seq![]),
        InputQuery::PendingKeys {} => args_of(seq![]),
        InputQuery::Register { register } => args_of(seq![("register"@, register.wire())]),
        InputQuery::Keymap { prefix, mode } => args_of(seq![("prefix"@, prefix.wire()), ("mode"@, mode.wire())]),
        InputQuery::DescribeKey { keys } => args_of(seq![("keys"@, keys.wire())]),
        InputQuery::DescribeCapability { name } => args_of(seq![("name"@, name.wire())]),
        InputQuery::Capabilities { domain } => args_of(seq![("domain"@, domain.wire())]),
    }
}

/// The arguments a [`UiQuery`] is called with.
pub open spec fn ui_query_args(x: UiQuery) -> Seq<(Seq<char>, ValueV)> {
    match x {
        UiQuery::Panes {} => args_of(seq![]),
        UiQuery::Floats {} => args_of(seq![]),
        UiQuery::PickerRows { source, query, limit, offset } => args_of(seq![("source"@, source.wire()), ("query"@, query.wire()), ("limit"@, limit.wire()), ("offset"@, offset.wire())]),
        UiQuery::Theme {} => args_of(seq![]),
        UiQuery::Options {} => args_of(seq![]),
        UiQuery::Languages { language } => args_of(seq![("language"@, language.wire())]),
        UiQuery::Arch {} => args_of(seq![]),
    }
}

/// The arguments a [`ReviewQuery`] is called with.
pub open spec fn review_query_args(x: ReviewQuery) -> Seq<(Seq<char>, ValueV)> {
    match x {
        ReviewQuery::ReviewBlocks {} => args_of(seq![]),
        ReviewQuery::ReviewBlock { block } => args_of(seq![("block"@, block.wire())]),
        ReviewQuery::Hunks { block } => args_of(seq![("block"@, block.wire())]),
        ReviewQuery::Threads { within } => args_of(seq![("within"@, within.wire())]),
        ReviewQuery::Thread { thread } => args_of(seq![("thread"@, thread.wire())]),
        ReviewQuery::Inbox { limit, offset } => args_of(seq![("limit"@, limit.wire()), ("offset"@, offset.wire())]),
        ReviewQuery::Diagnostics { path } => args_of(seq![("path"@, path.wire())]),
    }
}

/// The arguments a [`SessionQuery`] is called with.
pub open spec fn session_query_args(x: SessionQuery) -> Seq<(Seq<char>, ValueV)> {
    match x {
        SessionQuery::Session {} => args_of(seq![]),
        SessionQuery::Turns { limit, offset } => args_of(seq![("limit"@, limit.wire()), ("offset"@, offset.wire())]),
        SessionQuery::Turn { turn } => args_of(seq![("turn"@, turn.wire())]),
        SessionQuery::PendingAsks {} => args_of(seq![]),
        SessionQuery::Ask { ask } => args_of(seq![("ask"@, ask.wire())]),
        SessionQuery::Watches { within } => args_of(seq![("within"@, within.wire())]),
        SessionQuery::WatchValues { watch } => args_of(seq![("watch"@, watch.wire())]),
    }
}

/// The arguments a [`VcsQuery`] is called with.
pub open spec fn vcs_query_args(x: VcsQuery) -> Seq<(Seq<char>, ValueV)> {
    match x {
        VcsQuery::VcsStatus {} => args_of(seq![]),
        VcsQuery::Timeline { limit, offset } => args_of(seq![("limit"@, limit.wire()), ("offset"@, offset.wire())]),
    }
}

/// The arguments a [`Query`] is called with.
pub open spec fn spec_query_args(x: Query) -> Seq<(Seq<char>, ValueV)> {
    match x {
        Query::Region(y) => region_query_args(y),
        Query::Buffer(y) => buffer_query_args(y),
        Query::Input(y) => input_query_args(y),
        Query::Ui(y) => ui_query_args(y),
        Query::Review(y) => review_query_args(y),
        Query::Session(y) => session_query_args(y),
        Query::Vcs(y) => vcs_query_args(y),
    }
}

/// Whether every id a [`Query`] holds fits the wire.
pub open spec fn spec_query_fits(x: Query) -> bool {
    match x {
        Query::Region(RegionQuery::Regions { filter }) => filter.fits(),
        Query::Region(RegionQuery::UnseenRegions { path }) => path.fits(),
        Query::Region(RegionQuery::Region { region }) => region.fits(),
        Query::Region(RegionQuery::UnseenCount { within }) => within.fits(),
        Query::Region(RegionQuery::SeenCount { within }) => within.fits(),
        Query::Region(RegionQuery::NextRegionBy { author, from }) => author.fits() && from.fits(),
        Query::Region(RegionQuery::BlockRegions { block }) => block.fits(),
        Query::Region(RegionQuery::Anchors { path }) => path.fits(),
        Query::Region(RegionQuery::Anchor { anchor }) => anchor.fits(),
        Query::Buffer(BufferQuery::Buffers {}) => true,
        Query::Buffer(BufferQuery::Buffer { buffer }) => buffer.fits(),
        Query::Buffer(BufferQuery::BufferText { target }) => target.fits(),
        Query::Buffer(BufferQuery::BufferLines { target }) => target.fits(),
        Query::Buffer(BufferQuery::Cursor { pane }) => pane.fits(),
        Query::Buffer(BufferQuery::Selection { pane }) => pane.fits(),
        Query::Buffer(BufferQuery::Viewport { pane }) => pane.fits(),
        Query::Buffer(BufferQuery::DirtyBuffers {}) => true,
        Query::Buffer(BufferQuery::DiskState { path }) => path.fits(),
        Query::Input(InputQuery::Mode {}) => true,
        Query::Input(InputQuery::PendingKeys {}) => true,
        Query::Input(InputQuery::Register { register }) => register.fits(),
        Query::Input(InputQuery::Keymap { prefix, mode }) => prefix.fits() && mode.fits(),
        Query::Input(InputQuery::DescribeKey { keys }) => keys.fits(),
        Query::Input(InputQuery::DescribeCapability { name }) => name.fits(),
        Query::Input(InputQuery::Capabilities { domain }) => domain.fits(),
        Query::Ui(UiQuery::Panes {}) => true,
        Query::Ui(UiQuery::Floats {}) => true,
        Query::Ui(UiQuery::PickerRows { source, query, limit, offset }) => source.fits() && query.fits() && limit.fits() && offset.fits(),
        Query::Ui(UiQuery::Theme {}) => true,
        Query::Ui(UiQuery::Options {}) => true,
        Query::Ui(UiQuery::Languages { language }) => language.fits(),
        Query::Ui(UiQuery::Arch {}) => true,
        Query::Review(ReviewQuery::ReviewBlocks {}) => true,
        Query::Review(ReviewQuery::ReviewBlock { block }) => block.fits(),
        Query::Review(ReviewQuery::Hunks { block }) => block.fits(),
        Query::Review(ReviewQuery::Threads { within }) => within.fits(),
        Query::Review(ReviewQuery::Thread { thread }) => thread.fits(),
        Query::Review(ReviewQuery::Inbox { limit, offset }) => limit.fits() && offset.fits(),
        Query::Review(ReviewQuery::Diagnostics { path }) => path.fits(),
        Query::Session(SessionQuery::Session {}) => true,
        Query::Session(SessionQuery::Turns { limit, offset }) => limit.fits() && offset.fits(),
        Query::Session(SessionQuery::Turn { turn }) => turn.fits(),
        Query::Session(SessionQuery::PendingAsks {}) => true,
        Query::Session(SessionQuery::Ask { ask }) => ask.fits(),
        Query::Session(SessionQuery::Watches { within }) => within.fits(),
        Query::Session(SessionQuery::WatchValues { watch }) => watch.fits(),
        Query::Vcs(VcsQuery::VcsStatus {}) => true,
        Query::Vcs(VcsQuery::Timeline { limit, offset }) => limit.fits() && offset.fits(),
    }
}

/// Decoding a call to one of the [`RegionQuery`] capabilities: `None` when `name` is none of them.
pub open spec fn region_query_from(name: Seq<char>, rec: Seq<(Seq<char>, ValueV)>) -> Option<Result<Seq<(Seq<char>, ValueV)>, CallErrorV>> {
    let i = query_name_index(name);
    if i == 0 && name == "regions"@ {
        match field_unwire::<Option<RegionFilter>>(rec, "filter"@) {
            Err(e) => Some(Err(CallErrorV::Argument { name: "regions"@, source: e })),
            Ok(w0) => Some(Ok(args_of(seq![("filter"@, w0)])))
        }
    } else if i == 1 && name == "unseen-regions"@ {
        match field_unwire::<Option<String>>(rec, "path"@) {
            Err(e) => Some(Err(CallErrorV::Argument { name: "unseen-regions"@, source: e })),
            Ok(w0) => Some(Ok(args_of(seq![("path"@, w0)])))
        }
    } else if i == 2 && name == "region"@ {
        match field_unwire::<RegionId>(rec, "region"@) {
            Err(e) => Some(Err(CallErrorV::Argument { name: "region"@, source: e })),
            Ok(w0) => Some(Ok(args_of(seq![("region"@, w0)])))
        }
    } else if i == 3 && name == "unseen-count"@ {
        match field_unwire::<Option<Target>>(rec, "within"@) {
            Err(e) => Some(Err(CallErrorV::Argument { name: "unseen-count"@, source: e })),
            Ok(w0) => Some(Ok(args_of(seq![("within"@, w0)])))
        }
    } else if i == 4 && name == "seen-count"@ {
        match field_unwire::<Option<Target>>(rec, "within"@) {
            Err(e) => Some(Err(CallErrorV::Argument { name: "seen-count"@, source: e })),
            Ok(w0) => Some(Ok(args_of(seq![("within"@, w0)])))
        }
    } else if i == 5 && name == "next-region-by"@ {
        match field_unwire::<Actor>(rec, "author"@) {
            Err(e) => Some(Err(CallErrorV::Argument { name: "next-region-by"@, source: e })),
            Ok(w0) =>             match field_unwire::<Option<Position>>(rec, "from"@) {
                Err(e) => Some(Err(CallErrorV::Argument { name: "next-region-by"@, source: e })),
                Ok(w1) => Some(Ok(args_of(seq![("author"@, w0), ("from"@, w1)])))
            },
        }
    } else if i == 6 && name == "block-regions"@ {
        match field_unwire::<String>(rec, "block"@) {
            Err(e) => Some(Err(CallErrorV::Argument { name: "block-regions"@, source: e })),
            Ok(w0) => Some(Ok(args_of(seq![("block"@, w0)])))
        }
    } else if i == 7 && name == "anchors"@ {
        match field_unwire::<String>(rec, "path"@) {
            Err(e) => Some(Err(CallErrorV::Argument { name: "anchors"@, source: e })),
            Ok(w0) => Some(Ok(args_of(seq![("path"@, w0)])))
        }
    } else if i == 8 && name == "anchor"@ {
        match field_unwire::<AnchorId>(rec, "anchor"@) {
            Err(e) => Some(Err(CallErrorV::Argument { name: "anchor"@, source: e })),
            Ok(w0) => Some(Ok(args_of(seq![("anchor"@, w0)])))
        }
    } else {
        None
    }
}

/// Decoding a call to one of the [`BufferQuery`] capabilities: `None` when `name` is none of them.
pub open spec fn buffer_query_from(name: Seq<char>, rec: Seq<(Seq<char>, ValueV)>) -> Option<Result<Seq<(Seq<char>, ValueV)>, CallErrorV>> {
    let i = query_name_index(name);
    if i == 9 && name == "buffers"@ {
        Some(Ok(args_of(seq![])))
    } else if i == 10 && name == "buffer"@ {
        match field_unwire::<Option<BufferId>>(rec, "buffer"@) {
            Err(e) => Some(Err(CallErrorV::Argument { name: "buffer"@, source: e })),
            Ok(w0) => Some(Ok(args_of(seq![("buffer"@, w0)])))
        }
    } else if i == 11 && name == "buffer-text"@ {
        match field_unwire::<Target>(rec, "target"@) {
            Err(e) => Some(Err(CallErrorV::Argument { name: "buffer-text"@, source: e })),
            Ok(w0) => Some(Ok(args_of(seq![("target"@, w0)])))
        }
    } else if i == 12 && name == "buffer-lines"@ {
        match field_unwire::<Target>(rec, "target"@) {
            Err(e) => Some(Err(CallErrorV::Argument { name: "buffer-lines"@, source: e })),
            Ok(w0) => Some(Ok(args_of(seq![("target"@, w0)])))
        }
    } else if i == 13 && name == "cursor"@ {
        match field_unwire::<PaneRef>(rec, "pane"@) {
            Err(e) => Some(Err(CallErrorV::Argument { name: "cursor"@, source: e })),
            Ok(w0) => Some(Ok(args_of(seq![("pane"@, w0)])))
        }
    } else if i == 14 && name == "selection"@ {
        match field_unwire::<PaneRef>(rec, "pane"@) {
            Err(e) => Some(Err(CallErrorV::Argument { name: "selection"@, source: e })),
            Ok(w0) => Some(Ok(args_of(seq![("pane"@, w0)])))
        }
    } else if i == 15 && name == "viewport"@ {
        match field_unwire::<PaneRef>(rec, "pane"@) {
            Err(e) => Some(Err(CallErrorV::Argument { name: "viewport"@, source: e })),
            Ok(w0) => Some(Ok(args_of(seq![("pane"@, w0)])))
        }
    } else if i == 16 && name == "dirty-buffers"@ {
        Some(Ok(args_of(seq![])))
    } else if i == 17 && name == "disk-state"@ {
        match field_unwire::<String>(rec, "path"@) {
            Err(e) => Some(Err(CallErrorV::Argument { name: "disk-state"@, source: e })),
            Ok(w0) => Some(Ok(args_of(seq![("path"@, w0)])))
        }
    } else {
        None
    }
}

/// Decoding a call to one of the [`InputQuery`] capabilities: `None` when `name` is none of them.
pub open spec fn input_query_from(name: Seq<char>, rec: Seq<(Seq<char>, ValueV)>) -> Option<Result<Seq<(Seq<char>, ValueV)>, CallErrorV>> {
    let i = query_name_index(name);
    if i == 18 && name == "mode"@ {
        Some(Ok(args_of(seq![])))
    } else if i == 19 && name == "pending-keys"@ {
        Some(Ok(args_of(seq![])))
    } else if i == 20 && name == "register"@ {
        match field_unwire::<RegisterName>(rec, "register"@) {
            Err(e) => Some(Err(CallErrorV::Argument { name: "register"@, source: e })),
            Ok(w0) => Some(Ok(args_of(seq![("register"@, w0)])))
        }
    } else if i == 21 && name == "keymap"@ {
        match field_unwire::<Option<KeySeq>>(rec, "prefix"@) {
            Err(e) => Some(Err(CallErrorV::Argument { name: "keymap"@, source: e })),
            Ok(w0) =>             match field_unwire::<Option<EditMode>>(rec, "mode"@) {
                Err(e) => Some(Err(CallErrorV::Argument { name: "keymap"@, source: e })),
                Ok(w1) => Some(Ok(args_of(seq![("prefix"@, w0), ("mode"@, w1)])))
            },
        }
    } else if i == 22 && name == "describe-key"@ {
        match field_unwire::<KeySeq>(rec, "keys"@) {
            Err(e) => Some(Err(CallErrorV::Argument { name: "describe-key"@, source: e })),
            Ok(w0) => Some(Ok(args_of(seq![("keys"@, w0)])))
        }
    } else if i == 23 && name == "describe-capability"@ {
        match field_unwire::<String>(rec, "name"@) {
            Err(e) => Some(Err(CallErrorV::Argument { name: "describe-capability"@, source: e })),
            Ok(w0) => Some(Ok(args_of(seq![("name"@, w0)])))
        }
    } else if i == 24 && name == "capabilities"@ {
        match field_unwire::<Option<String>>(rec, "domain"@) {
            Err(e) => Some(Err(CallErrorV::Argument { name: "capabilities"@, source: e })),
            Ok(w0) => Some(Ok(args_of(seq![("domain"@, w0)])))
        }
    } else {
        None
    }
}

/// Decoding a call to one of the [`UiQuery`] capabilities: `None` when `name` is none of them.
pub open spec fn ui_query_from(name: Seq<char>, rec: Seq<(Seq<char>, ValueV)>) -> Option<Result<Seq<(Seq<char>, ValueV)>, CallErrorV>> {
    let i = query_name_index(name);
    if i == 25 && name == "panes"@ {
        Some(Ok(args_of(seq![])))
    } else if i == 26 && name == "floats"@ {
        Some(Ok(args_of(seq![])))
    } else if i == 27 && name == "picker-rows"@ {
        match field_unwire::<SourceId>(rec, "source"@) {
            Err(e) => Some(Err(CallErrorV::Argument { name: "picker-rows"@, source: e })),
            Ok(w0) =>             match field_unwire::<Option<String>>(rec, "query"@) {
                Err(e) => Some(Err(CallErrorV::Argument { name: "picker-rows"@, source: e })),
                Ok(w1) =>                 match field_unwire::<Option<u32>>(rec, "limit"@) {
                    Err(e) => Some(Err(CallErrorV::Argument { name: "picker-rows"@, source: e })),
                    Ok(w2) =>                     match field_unwire::<Option<u32>>(rec, "offset"@) {
                        Err(e) => Some(Err(CallErrorV::Argument { name: "picker-rows"@, source: e })),
                        Ok(w3) => Some(Ok(args_of(seq![("source"@, w0), ("query"@, w1), ("limit"@, w2), ("offset"@, w3)])))
                    },
                },
            },
        }
    } else if i == 28 && name == "theme"@ {
        Some(Ok(args_of(seq![])))
    } else if i == 29 && name == "options"@ {
        Some(Ok(args_of(seq![])))
    } else if i == 30 && name == "languages"@ {
        match field_unwire::<Option<LanguageId>>(rec, "language"@) {
            Err(e) => Some(Err(CallErrorV::Argument { name: "languages"@, source: e })),
            Ok(w0) => Some(Ok(args_of(seq![("language"@, w0)])))
        }
    } else if i == 31 && name == "arch"@ {
        Some(Ok(args_of(seq![])))
    } else {
        None
    }
}

/// Decoding a call to one of the [`ReviewQuery`] capabilities: `None` when `name` is none of them.
pub open spec fn review_query_from(name: Seq<char>, rec: Seq<(Seq<char>, ValueV)>) -> Option<Result<Seq<(Seq<char>, ValueV)>, CallErrorV>> {
    let i = query_name_index(name);
    if i == 32 && name == "review-blocks"@ {
        Some(Ok(args_of(seq![])))
    } else if i == 33 && name == "review-block"@ {
        match field_unwire::<BlockId>(rec, "block"@) {
            Err(e) => Some(Err(CallErrorV::Argument { name: "review-block"@, source: e })),
            Ok(w0) => Some(Ok(args_of(seq![("block"@, w0)])))
        }
    } else if i == 34 && name == "hunks"@ {
        match field_unwire::<BlockId>(rec, "block"@) {
            Err(e) => Some(Err(CallErrorV::Argument { name: "hunks"@, source: e })),
            Ok(w0) => Some(Ok(args_of(seq![("block"@, w0)])))
        }
    } else if i == 35 && name == "threads"@ {
        match field_unwire::<Option<Target>>(rec, "within"@) {
            Err(e) => Some(Err(CallErrorV::Argument { name: "threads"@, source: e })),
            Ok(w0) => Some(Ok(args_of(seq![("within"@, w0)])))
        }
    } else if i == 36 && name == "thread"@ {
        match field_unwire::<ThreadId>(rec, "thread"@) {
            Err(e) => Some(Err(CallErrorV::Argument { name: "thread"@, source: e })),
            Ok(w0) => Some(Ok(args_of(seq![("thread"@, w0)])))
        }
    } else if i == 37 && name == "inbox"@ {
        match field_unwire::<Option<u32>>(rec, "limit"@) {
            Err(e) => Some(Err(CallErrorV::Argument { name: "inbox"@, source: e })),
            Ok(w0) =>             match field_unwire::<Option<u32>>(rec, "offset"@) {
                Err(e) => Some(Err(CallErrorV::Argument { name: "inbox"@, source: e })),
                Ok(w1) => Some(Ok(args_of(seq![("limit"@, w0), ("offset"@, w1)])))
            },
        }
    } else if i == 38 && name == "diagnostics"@ {
        match field_unwire::<Option<String>>(rec, "path"@) {
            Err(e) => Some(Err(CallErrorV::Argument { name: "diagnostics"@, source: e })),
            Ok(w0) => Some(Ok(args_of(seq![("path"@, w0)])))
        }
    } else {
        None
    }
}

/// Decoding a call to one of the [`SessionQuery`] capabilities: `None` when `name` is none of them.
pub open spec fn session_query_from(name: Seq<char>, rec: Seq<(Seq<char>, ValueV)>) -> Option<Result<Seq<(Seq<char>, ValueV)>, CallErrorV>> {
    let i = query_name_index(name);
    if i == 39 && name == "session"@ {
        Some(Ok(args_of(seq![])))
    } else if i == 40 && name == "turns"@ {
        match field_unwire::<Option<u32>>(rec, "limit"@) {
            Err(e) => Some(Err(CallErrorV::Argument { name: "turns"@, source: e })),
            Ok(w0) =>             match field_unwire::<Option<u32>>(rec, "offset"@) {
                Err(e) => Some(Err(CallErrorV::Argument { name: "turns"@, source: e })),
                Ok(w1) => Some(Ok(args_of(seq![("limit"@, w0), ("offset"@, w1)])))
            },
        }
    } else if i == 41 && name == "turn"@ {
        match field_unwire::<TurnId>(rec, "turn"@) {
            Err(e) => Some(Err(CallErrorV::Argument { name: "turn"@, source: e })),
            Ok(w0) => Some(Ok(args_of(seq![("turn"@, w0)])))
        }
    } else if i == 42 && name == "pending-asks"@ {
        Some(Ok(args_of(seq![])))
    } else if i == 43 && name == "ask"@ {
        match field_unwire::<AskId>(rec, "ask"@) {
            Err(e) => Some(Err(CallErrorV::Argument { name: "ask"@, source: e })),
            Ok(w0) => Some(Ok(args_of(seq![("ask"@, w0)])))
        }
    } else if i == 44 && name == "watches"@ {
        match field_unwire::<Option<Target>>(rec, "within"@) {
            Err(e) => Some(Err(CallErrorV::Argument { name: "watches"@, source: e })),
            Ok(w0) => Some(Ok(args_of(seq![("within"@, w0)])))
        }
    } else if i == 45 && name == "watch-values"@ {
        match field_unwire::<WatchId>(rec, "watch"@) {
            Err(e) => Some(Err(CallErrorV::Argument { name: "watch-values"@, source: e })),
            Ok(w0) => Some(Ok(args_of(seq![("watch"@, w0)])))
        }
    } else {
        None
    }
}

/// Decoding a call to one of the [`VcsQuery`] capabilities: `None` when `name` is none of them.
pub open spec fn vcs_query_from(name: Seq<char>, rec: Seq<(Seq<char>, ValueV)>) -> Option<Result<Seq<(Seq<char>, ValueV)>, CallErrorV>> {
    let i = query_name_index(name);
    if i == 46 && name == "vcs-status"@ {
        Some(Ok(args_of(seq![])))
    } else if i == 47 && name == "timeline"@ {
        match field_unwire::<Option<u32>>(rec, "limit"@) {
            Err(e) => Some(Err(CallErrorV::Argument { name: "timeline"@, source: e })),
            Ok(w0) =>             match field_unwire::<Option<u32>>(rec, "offset"@) {
                Err(e) => Some(Err(CallErrorV::Argument { name: "timeline"@, source: e })),
                Ok(w1) => Some(Ok(args_of(seq![("limit"@, w0), ("offset"@, w1)])))
            },
        }
    } else {
        None
    }
}

/// Decoding a call: the arguments of the capability `name` names, or why
/// the call does not decode.
pub open spec fn spec_query_from_call(name: Seq<char>, rec: Seq<(Seq<char>, ValueV)>) -> Result<Seq<(Seq<char>, ValueV)>, CallErrorV> {
    let i = query_name_index(name);
    let found = if 0 <= i < 9 {
        region_query_from(name, rec)
    } else if 9 <= i < 18 {
        buffer_query_from(name, rec)
    } else if 18 <= i < 25 {
        input_query_from(name, rec)
    } else if 25 <= i < 32 {
        ui_query_from(name, rec)
    } else if 32 <= i < 39 {
        review_query_from(name, rec)
    } else if 39 <= i < 46 {
        session_query_from(name, rec)
    } else if 46 <= i < 48 {
        vcs_query_from(name, rec)
    } else {
        None
    };
    match found {
        Some(r) => r,
        None => Err(CallErrorV::Unknown { name }),
    }
}

fn region_query_call(x: &RegionQuery) -> (r: Call)
    ensures
        r.name@ == spec_query_name(Query::Region(*x)),
        crate::value::record_view(r.args@) == region_query_args(*x),
{
    match x {
        RegionQuery::Regions { filter } => {
            let mut f: Vec<(&'static str, Value)> = Vec::new();
            f.push(("filter", filter.to_value()));
            proof {
                assert(named_view(f@) =~= seq![("filter"@, filter.wire())]);
            }
            Call { name: String::from_str("regions"), args: args_from(f) }
        },
        RegionQuery::UnseenRegions { path } => {
            let mut f: Vec<(&'static str, Value)> = Vec::new();
            f.push(("path", path.to_value()));
            proof {
                assert(named_view(f@) =~= seq![("path"@, path.wire())]);
            }
            Call { name: String::from_str("unseen-regions"), args: args_from(f) }
        },
        RegionQuery::Region { region } => {
            let mut f: Vec<(&'static str, Value)> = Vec::new();
            f.push(("region", region.to_value()));
            proof {
                assert(named_view(f@) =~= seq![("region"@, region.wire())]);
            }
            Call { name: String::from_str("region"), args: args_from(f) }
        },
        RegionQuery::UnseenCount { within } => {
            let mut f: Vec<(&'static str, Value)> = Vec::new();
            f.push(("within", within.to_value()));
            proof {
                assert(named_view(f@) =~= seq![("within"@, within.wire())]);
            }
            Call { name: String::from_str("unseen-count"), args: args_from(f) }
        },
        RegionQuery::SeenCount { within } => {
            let mut f: Vec<(&'static str, Value)> = Vec::new();
            f.push(("within", within.to_value()));
            proof {
                assert(named_view(f@) =~= seq![("within"@, within.wire())]);
            }
            Call { name: String::from_str("seen-count"), args: args_from(f) }
        },
        RegionQuery::NextRegionBy { author, from } => {
            let mut f: Vec<(&'static str, Value)> = Vec::new();
            f.push(("author", author.to_value()));
            f.push(("from", from.to_value()));
            proof {
                assert(named_view(f@) =~= seq![("author"@, author.wire()), ("from"@, from.wire())]);
            }
            Call { name: String::from_str("next-region-by"), args: args_from(f) }
        },
        RegionQuery::BlockRegions { block } => {
            let mut f: Vec<(&'static str, Value)> = Vec::new();
            f.push(("block", block.to_value()));
            proof {
                assert(named_view(f@) =~= seq![("block"@, block.wire())]);
            }
            Call { name: String::from_str("block-regions"), args: args_from(f) }
        },
        RegionQuery::Anchors { path } => {
            let mut f: Vec<(&'static str, Value)> = Vec::new();
            f.push(("path", path.to_value()));
            proof {
                assert(named_view(f@) =~= seq![("path"@, path.wire())]);
            }
            Call { name: String::from_str("anchors"), args: args_from(f) }
        },
        RegionQuery::Anchor { anchor } => {
            let mut f: Vec<(&'static str, Value)> = Vec::new();
            f.push(("anchor", anchor.to_value()));
            proof {
                assert(named_view(f@) =~= seq![("anchor"@, anchor.wire())]);
            }
            Call { name: String::from_str("anchor"), args: args_from(f) }
        },
    }
}

fn region_query_decode(name: &str, args: &Args) -> (r: Option<Result<Query, QueryError>>)
    ensures
        match region_query_from(name@, crate::value::record_view(args@)) {
            None => r is None,
            Some(Ok(w)) => r matches Some(Ok(x)) && spec_query_name(x) == name@ && spec_query_args(x) == w,
            Some(Err(e)) => r matches Some(Err(err)) && query_error_view(err) == e,
        },
{
    proof {
        lemma_query_names();
    }
    if str_eq(name, "regions") {
        let filter = match args.field::<Option<RegionFilter>>("filter") {
            Ok(v) => v,
            Err(e) => return Some(Err(QueryError::Argument { name: "regions", source: e })),
        };
        Some(Ok(Query::Region(RegionQuery::Regions { filter })))
    } else if str_eq(name, "unseen-regions") {
        let path = match args.field::<Option<String>>("path") {
            Ok(v) => v,
            Err(e) => return Some(Err(QueryError::Argument { name: "unseen-regions", source: e })),
        };
        Some(Ok(Query::Region(RegionQuery::UnseenRegions { path })))
    } else if str_eq(name, "region") {
        let region = match args.field::<RegionId>("region") {
            Ok(v) => v,
            Err(e) => return Some(Err(QueryError::Argument { name: "region", source: e })),
        };
        Some(Ok(Query::Region(RegionQuery::Region { region })))
    } else if str_eq(name, "unseen-count") {
        let within = match args.field::<Option<Target>>("within") {
            Ok(v) => v,
            Err(e) => return Some(Err(QueryError::Argument { name: "unseen-count", source: e })),
        };
        Some(Ok(Query::Region(RegionQuery::UnseenCount { within })))
    } else if str_eq(name, "seen-count") {
        let within = match args.field::<Option<Target>>("within") {
            Ok(v) => v,
            Err(e) => return Some(Err(QueryError::Argument { name: "seen-count", source: e })),
        };
        Some(Ok(Query::Region(RegionQuery::SeenCount { within })))
    } else if str_eq(name, "next-region-by") {
        let author = match args.field::<Actor>("author") {
            Ok(v) => v,
            Err(e) => return Some(Err(QueryError::Argument { name: "next-region-by", source: e })),
        };
        let from = match args.field::<Option<Position>>("from") {
            Ok(v) => v,
            Err(e) => return Some(Err(QueryError::Argument { name: "next-region-by", source: e })),
        };
        Some(Ok(Query::Region(RegionQuery::NextRegionBy { author, from })))
    } else if str_eq(name, "block-regions") {
        let block = match args.field::<String>("block") {
            Ok(v) => v,
            Err(e) => return Some(Err(QueryError::Argument { name: "block-regions", source: e })),
        };
        Some(Ok(Query::Region(RegionQuery::BlockRegions { block })))
    } else if str_eq(name, "anchors") {
        let path = match args.field::<String>("path") {
            Ok(v) => v,
            Err(e) => return Some(Err(QueryError::Argument { name: "anchors", source: e })),
        };
        Some(Ok(Query::Region(RegionQuery::Anchors { path })))
    } else if str_eq(name, "anchor") {
        let anchor = match args.field::<AnchorId>("anchor") {
            Ok(v) => v,
            Err(e) => return Some(Err(QueryError::Argument { name: "anchor", source: e })),
        };
        Some(Ok(Query::Region(RegionQuery::Anchor { anchor })))
    } else {
        None
    }
}

fn buffer_query_call(x: &BufferQuery) -> (r: Call)
    ensures
        r.name@ == spec_query_name(Query::Buffer(*x)),
        crate::value::record_view(r.args@) == buffer_query_args(*x),
{
    match x {
        BufferQuery::Buffers {} => {
            let mut f: Vec<(&'static str, Value)> = Vec::new();
            proof {
                assert(named_view(f@) =~= seq![]);
            }
            Call { name: String::from_str("buffers"), args: args_from(f) }
        },
        BufferQuery::Buffer { buffer } => {
            let mut f: Vec<(&'static str, Value)> = Vec::new();
            f.push(("buffer", buffer.to_value()));
            proof {
                assert(named_view(f@) =~= seq![("buffer"@, buffer.wire())]);
            }
            Call { name: String::from_str("buffer"), args: args_from(f) }
        },
        BufferQuery::BufferText { target } => {
            let mut f: Vec<(&'static str, Value)> = Vec::new();
            f.push(("target", target.to_value()));
            proof {
                assert(named_view(f@) =~= seq![("target"@, target.wire())]);
            }
            Call { name: String::from_str("buffer-text"), args: args_from(f) }
        },
        BufferQuery::BufferLines { target } => {
            let mut f: Vec<(&'static str, Value)> = Vec::new();
            f.push(("target", target.to_value()));
            proof {
                assert(named_view(f@) =~= seq![("target"@, target.wire())]);
            }
            Call { name: String::from_str("buffer-lines"), args: args_from(f) }
        },
        BufferQuery::Cursor { pane } => {
            let mut f: Vec<(&'static str, Value)> = Vec::new();
            f.push(("pane", pane.to_value()));
            proof {
                assert(named_view(f@) =~= seq![("pane"@, pane.wire())]);
            }
            Call { name: String::from_str("cursor"), args: args_from(f) }
        },
        BufferQuery::Selection { pane } => {
            let mut f: Vec<(&'static str, Value)> = Vec::new();
            f.push(("pane", pane.to_value()));
            proof {
                assert(named_view(f@) =~= seq![("pane"@, pane.wire())]);
            }
            Call { name: String::from_str("selection"), args: args_from(f) }
        },
        BufferQuery::Viewport { pane } => {
            let mut f: Vec<(&'static str, Value)> = Vec::new();
            f.push(("pane", pane.to_value()));
            proof {
                assert(named_view(f@) =~= seq![("pane"@, pane.wire())]);
            }
            Call { name: String::from_str("viewport"), args: args_from(f) }
        },
        BufferQuery::DirtyBuffers {} => {
            let mut f: Vec<(&'static str, Value)> = Vec::new();
            proof {
                assert(named_view(f@) =~= seq![]);
            }
            Call { name: String::from_str("dirty-buffers"), args: args_from(f) }
        },
        BufferQuery::DiskState { path } => {
            let mut f: Vec<(&'static str, Value)> = Vec::new();
            f.push(("path", path.to_value()));
            proof {
                assert(named_view(f@) =~= seq![("path"@, path.wire())]);
            }
            Call { name: String::from_str("disk-state"), args: args_from(f) }
        },
    }
}

fn buffer_query_decode(name: &str, args: &Args) -> (r: Option<Result<Query, QueryError>>)
    ensures
        match buffer_query_from(name@, crate::value::record_view(args@)) {
            None => r is None,
            Some(Ok(w)) => r matches Some(Ok(x)) && spec_query_name(x) == name@ && spec_query_args(x) == w,
            Some(Err(e)) => r matches Some(Err(err)) && query_error_view(err) == e,
        },
{
    proof {
        lemma_query_names();
    }
    if str_eq(name, "buffers") {
        Some(Ok(Query::Buffer(BufferQuery::Buffers {})))
    } else if str_eq(name, "buffer") {
        let buffer = match args.field::<Option<BufferId>>("buffer") {
            Ok(v) => v,
            Err(e) => return Some(Err(QueryError::Argument { name: "buffer", source: e })),
        };
        Some(Ok(Query::Buffer(BufferQuery::Buffer { buffer })))
    } else if str_eq(name, "buffer-text") {
        let target = match args.field::<Target>("target") {
            Ok(v) => v,
            Err(e) => return Some(Err(QueryError::Argument { name: "buffer-text", source: e })),
        };
        Some(Ok(Query::Buffer(BufferQuery::BufferText { target })))
    } else if str_eq(name, "buffer-lines") {
        let target = match args.field::<Target>("target") {
            Ok(v) => v,
            Err(e) => return Some(Err(QueryError::Argument { name: "buffer-lines", source: e })),
        };
        Some(Ok(Query::Buffer(BufferQuery::BufferLines { target })))
    } else if str_eq(name, "cursor") {
        let pane = match args.field::<PaneRef>("pane") {
            Ok(v) => v,
            Err(e) => return Some(Err(QueryError::Argument { name: "cursor", source: e })),
        };
        Some(Ok(Query::Buffer(BufferQuery::Cursor { pane })))
    } else if str_eq(name, "selection") {
        let pane = match args.field::<PaneRef>("pane") {
            Ok(v) => v,
            Err(e) => return Some(Err(QueryError::Argument { name: "selection", source: e })),
        };
        Some(Ok(Query::Buffer(BufferQuery::Selection { pane })))
    } else if str_eq(name, "viewport") {
        let pane = match args.field::<PaneRef>("pane") {
            Ok(v) => v,
            Err(e) => return Some(Err(QueryError::Argument { name: "viewport", source: e })),
        };
        Some(Ok(Query::Buffer(BufferQuery::Viewport { pane })))
    } else if str_eq(name, "dirty-buffers") {
        Some(Ok(Query::Buffer(BufferQuery::DirtyBuffers {})))
    } else if str_eq(name, "disk-state") {
        let path = match args.field::<String>("path") {
            Ok(v) => v,
            Err(e) => return Some(Err(QueryError::Argument { name: "disk-state", source: e })),
        };
        Some(Ok(Query::Buffer(BufferQuery::DiskState { path })))
    } else {
        None
    }
}

fn input_query_call(x: &InputQuery) -> (r: Call)
    ensures
        r.name@ == spec_query_name(Query::Input(*x)),
        crate::value::record_view(r.args@) == input_query_args(*x),
{
    match x {
        InputQuery::Mode {} => {
            let mut f: Vec<(&'static str, Value)> = Vec::new();
            proof {
                assert(named_view(f@) =~= seq![]);
            }
            Call { name: String::from_str("mode"), args: args_from(f) }
        },
        InputQuery::PendingKeys {} => {
            let mut f: Vec<(&'static str, Value)> = Vec::new();
            proof {
                assert(named_view(f@) =~= seq![]);
            }
            Call { name: String::from_str("pending-keys"), args: args_from(f) }
        },
        InputQuery::Register { register } => {
            let mut f: Vec<(&'static str, Value)> = Vec::new();
            f.push(("register", register.to_value()));
            proof {
                assert(named_view(f@) =~= seq![("register"@, register.wire())]);
            }
            Call { name: String::from_str("register"), args: args_from(f) }
        },
        InputQuery::Keymap { prefix, mode } => {
            let mut f: Vec<(&'static str, Value)> = Vec::new();
            f.push(("prefix", prefix.to_value()));
            f.push(("mode", mode.to_value()));
            proof {
                assert(named_view(f@) =~= seq![("prefix"@, prefix.wire()), ("mode"@, mode.wire())]);
            }
            Call { name: String::from_str("keymap"), args: args_from(f) }
        },
        InputQuery::DescribeKey { keys } => {
            let mut f: Vec<(&'static str, Value)> = Vec::new();
            f.push(("keys", keys.to_value()));
            proof {
                assert(named_view(f@) =~= seq![("keys"@, keys.wire())]);
            }
            Call { name: String::from_str("describe-key"), args: args_from(f) }
        },
        InputQuery::DescribeCapability { name } => {
            let mut f: Vec<(&'static str, Value)> = Vec::new();
            f.push(("name", name.to_value()));
            proof {
                assert(named_view(f@) =~= seq![("name"@, name.wire())]);
            }
            Call { name: String::from_str("describe-capability"), args: args_from(f) }
        },
        InputQuery::Capabilities { domain } => {
            let mut f: Vec<(&'static str, Value)> = Vec::new();
            f.push(("domain", domain.to_value()));
            proof {
                assert(named_view(f@) =~= seq![("domain"@, domain.wire())]);
            }
            Call { name: String::from_str("capabilities"), args: args_from(f) }
        },
    }
}

fn input_query_decode(name: &str, args: &Args) -> (r: Option<Result<Query, QueryError>>)
    ensures
        match input_query_from(name@, crate::value::record_view(args@)) {
            None => r is None,
            Some(Ok(w)) => r matches Some(Ok(x)) && spec_query_name(x) == name@ && spec_query_args(x) == w,
            Some(Err(e)) => r matches Some(Err(err)) && query_error_view(err) == e,
        },
{
    proof {
        lemma_query_names();
    }
    if str_eq(name, "mode") {
        Some(Ok(Query::Input(InputQuery::Mode {})))
    } else if str_eq(name, "pending-keys") {
        Some(Ok(Query::Input(InputQuery::PendingKeys {})))
    } else if str_eq(name, "register") {
        let register = match args.field::<RegisterName>("register") {
            Ok(v) => v,
            Err(e) => return Some(Err(QueryError::Argument { name: "register", source: e })),
        };
        Some(Ok(Query::Input(InputQuery::Register { register })))
    } else if str_eq(name, "keymap") {
        let prefix = match args.field::<Option<KeySeq>>("prefix") {
            Ok(v) => v,
            Err(e) => return Some(Err(QueryError::Argument { name: "keymap", source: e })),
        };
        let mode = match args.field::<Option<EditMode>>("mode") {
            Ok(v) => v,
            Err(e) => return Some(Err(QueryError::Argument { name: "keymap", source: e })),
        };
        Some(Ok(Query::Input(InputQuery::Keymap { prefix, mode })))
    } else if str_eq(name, "describe-key") {
        let keys = match args.field::<KeySeq>("keys") {
            Ok(v) => v,
            Err(e) => return Some(Err(QueryError::Argument { name: "describe-key", source: e })),
        };
        Some(Ok(Query::Input(InputQuery::DescribeKey { keys })))
    } else if str_eq(name, "describe-capability") {
        let name = match args.field::<String>("name") {
            Ok(v) => v,
            Err(e) => return Some(Err(QueryError::Argument { name: "describe-capability", source: e })),
        };
        Some(Ok(Query::Input(InputQuery::DescribeCapability { name })))
    } else if str_eq(name, "capabilities") {
        let domain = match args.field::<Option<String>>("domain") {
            Ok(v) => v,
            Err(e) => return Some(Err(QueryError::Argument { name: "capabilities", source: e })),
        };
        Some(Ok(Query::Input(InputQuery::Capabilities { domain })))
    } else {
        None
    }
}

fn ui_query_call(x: &UiQuery) -> (r: Call)
    ensures
        r.name@ == spec_query_name(Query::Ui(*x)),
        crate::value::record_view(r.args@) == ui_query_args(*x),
{
    match x {
        UiQuery::Panes {} => {
            let mut f: Vec<(&'static str, Value)> = Vec::new();
            proof {
                assert(named_view(f@) =~= seq![]);
            }
            Call { name: String::from_str("panes"), args: args_from(f) }
        },
        UiQuery::Floats {} => {
            let mut f: Vec<(&'static str, Value)> = Vec::new();
            proof {
                assert(named_view(f@) =~= seq![]);
            }
            Call { name: String::from_str("floats"), args: args_from(f) }
        },
        UiQuery::PickerRows { source, query, limit, offset } => {
            let mut f: Vec<(&'static str, Value)> = Vec::new();
            f.push(("source", source.to_value()));
            f.push(("query", query.to_value()));
            f.push(("limit", limit.to_value()));
            f.push(("offset", offset.to_value()));
            proof {
                assert(named_view(f@) =~= seq![("source"@, source.wire()), ("query"@, query.wire()), ("limit"@, limit.wire()), ("offset"@, offset.wire())]);
            }
            Call { name: String::from_str("picker-rows"), args: args_from(f) }
        },
        UiQuery::Theme {} => {
            let mut f: Vec<(&'static str, Value)> = Vec::new();
            proof {
                assert(named_view(f@) =~= seq![]);
            }
            Call { name: String::from_str("theme"), args: args_from(f) }
        },
        UiQuery::Options {} => {
            let mut f: Vec<(&'static str, Value)> = Vec::new();
            proof {
                assert(named_view(f@) =~= seq![]);
            }
            Call { name: String::from_str("options"), args: args_from(f) }
        },
        UiQuery::Languages { language } => {
            let mut f: Vec<(&'static str, Value)> = Vec::new();
            f.push(("language", language.to_value()));
            proof {
                assert(named_view(f@) =~= seq![("language"@, language.wire())]);
            }
            Call { name: String::from_str("languages"), args: args_from(f) }
        },
        UiQuery::Arch {} => {
            let mut f: Vec<(&'static str, Value)> = Vec::new();
            proof {
                assert(named_view(f@) =~= seq![]);
            }
            Call { name: String::from_str("arch"), args: args_from(f) }
        },
    }
}

fn ui_query_decode(name: &str, args: &Args) -> (r: Option<Result<Query, QueryError>>)
    ensures
        match ui_query_from(name@, crate::value::record_view(args@)) {
            None => r is None,
            Some(Ok(w)) => r matches Some(Ok(x)) && spec_query_name(x) == name@ && spec_query_args(x) == w,
            Some(Err(e)) => r matches Some(Err(err)) && query_error_view(err) == e,
        },
{
    proof {
        lemma_query_names();
    }
    if str_eq(name, "panes") {
        Some(Ok(Query::Ui(UiQuery::Panes {})))
    } else if str_eq(name, "floats") {
        Some(Ok(Query::Ui(UiQuery::Floats {})))
    } else if str_eq(name, "picker-rows") {
        let source = match args.field::<SourceId>("source") {
            Ok(v) => v,
            Err(e) => return Some(Err(QueryError::Argument { name: "picker-rows", source: e })),
        };
        let query = match args.field::<Option<String>>("query") {
            Ok(v) => v,
            Err(e) => return Some(Err(QueryError::Argument { name: "picker-rows", source: e })),
        };
        let limit = match args.field::<Option<u32>>("limit") {
            Ok(v) => v,
            Err(e) => return Some(Err(QueryError::Argument { name: "picker-rows", source: e })),
        };
        let offset = match args.field::<Option<u32>>("offset") {
            Ok(v) => v,
            Err(e) => return Some(Err(QueryError::Argument { name: "picker-rows", source: e })),
        };
        Some(Ok(Query::Ui(UiQuery::PickerRows { source, query, limit, offset })))
    } else if str_eq(name, "theme") {
        Some(Ok(Query::Ui(UiQuery::Theme {})))
    } else if str_eq(name, "options") {
        Some(Ok(Query::Ui(UiQuery::Options {})))
    } else if str_eq(name, "languages") {
        let language = match args.field::<Option<LanguageId>>("language") {
            Ok(v) => v,
            Err(e) => return Some(Err(QueryError::Argument { name: "languages", source: e })),
        };
        Some(Ok(Query::Ui(UiQuery::Languages { language })))
    } else if str_eq(name, "arch") {
        Some(Ok(Query::Ui(UiQuery::Arch {})))
    } else {
        None
    }
}

fn review_query_call(x: &ReviewQuery) -> (r: Call)
    ensures
        r.name@ == spec_query_name(Query::Review(*x)),
        crate::value::record_view(r.args@) == review_query_args(*x),
{
    match x {
        ReviewQuery::ReviewBlocks {} => {
            let mut f: Vec<(&'static str, Value)> = Vec::new();
            proof {
                assert(named_view(f@) =~= seq![]);
            }
            Call { name: String::from_str("review-blocks"), args: args_from(f) }
        },
        ReviewQuery::ReviewBlock { block } => {
            let mut f: Vec<(&'static str, Value)> = Vec::new();
            f.push(("block", block.to_value()));
            proof {
                assert(named_view(f@) =~= seq![("block"@, block.wire())]);
            }
            Call { name: String::from_str("review-block"), args: args_from(f) }
        },
        ReviewQuery::Hunks { block } => {
            let mut f: Vec<(&'static str, Value)> = Vec::new();
            f.push(("block", block.to_value()));
            proof {
                assert(named_view(f@) =~= seq![("block"@, block.wire())]);
            }
            Call { name: String::from_str("hunks"), args: args_from(f) }
        },
        ReviewQuery::Threads { within } => {
            let mut f: Vec<(&'static str, Value)> = Vec::new();
            f.push(("within", within.to_value()));
            proof {
                assert(named_view(f@) =~= seq![("within"@, within.wire())]);
            }
            Call { name: String::from_str("threads"), args: args_from(f) }
        },
        ReviewQuery::Thread { thread } => {
            let mut f: Vec<(&'static str, Value)> = Vec::new();
            f.push(("thread", thread.to_value()));
            proof {
                assert(named_view(f@) =~= seq![("thread"@, thread.wire())]);
            }
            Call { name: String::from_str("thread"), args: args_from(f) }
        },
        ReviewQuery::Inbox { limit, offset } => {
            let mut f: Vec<(&'static str, Value)> = Vec::new();
            f.push(("limit", limit.to_value()));
            f.push(("offset", offset.to_value()));
            proof {
                assert(named_view(f@) =~= seq![("limit"@, limit.wire()), ("offset"@, offset.wire())]);
            }
            Call { name: String::from_str("inbox"), args: args_from(f) }
        },
        ReviewQuery::Diagnostics { path } => {
            let mut f: Vec<(&'static str, Value)> = Vec::new();
            f.push(("path", path.to_value()));
            proof {
                assert(named_view(f@) =~= seq![("path"@, path.wire())]);
            }
            Call { name: String::from_str("diagnostics"), args: args_from(f) }
        },
    }
}

fn review_query_decode(name: &str, args: &Args) -> (r: Option<Result<Query, QueryError>>)
    ensures
        match review_query_from(name@, crate::value::record_view(args@)) {
            None => r is None,
            Some(Ok(w)) => r matches Some(Ok(x)) && spec_query_name(x) == name@ && spec_query_args(x) == w,
            Some(Err(e)) => r matches Some(Err(err)) && query_error_view(err) == e,
        },
{
    proof {
        lemma_query_names();
    }
    if str_eq(name, "review-blocks") {
        Some(Ok(Query::Review(ReviewQuery::ReviewBlocks {})))
    } else if str_eq(name, "review-block") {
        let block = match args.field::<BlockId>("block") {
            Ok(v) => v,
            Err(e) => return Some(Err(QueryError::Argument { name: "review-block", source: e })),
        };
        Some(Ok(Query::Review(ReviewQuery::ReviewBlock { block })))
    } else if str_eq(name, "hunks") {
        let block = match args.field::<BlockId>("block") {
            Ok(v) => v,
            Err(e) => return Some(Err(QueryError::Argument { name: "hunks", source: e })),
        };
        Some(Ok(Query::Review(ReviewQuery::Hunks { block })))
    } else if str_eq(name, "threads") {
        let within = match args.field::<Option<Target>>("within") {
            Ok(v) => v,
            Err(e) => return Some(Err(QueryError::Argument { name: "threads", source: e })),
        };
        Some(Ok(Query::Review(ReviewQuery::Threads { within })))
    } else if str_eq(name, "thread") {
        let thread = match args.field::<ThreadId>("thread") {
            Ok(v) => v,
            Err(e) => return Some(Err(QueryError::Argument { name: "thread", source: e })),
        };
        Some(Ok(Query::Review(ReviewQuery::Thread { thread })))
    } else if str_eq(name, "inbox") {
        let limit = match args.field::<Option<u32>>("limit") {
            Ok(v) => v,
            Err(e) => return Some(Err(QueryError::Argument { name: "inbox", source: e })),
        };
        let offset = match args.field::<Option<u32>>("offset") {
            Ok(v) => v,
            Err(e) => return Some(Err(QueryError::Argument { name: "inbox", source: e })),
        };
        Some(Ok(Query::Review(ReviewQuery::Inbox { limit, offset })))
    } else if str_eq(name, "diagnostics") {
        let path = match args.field::<Option<String>>("path") {
            Ok(v) => v,
            Err(e) => return Some(Err(QueryError::Argument { name: "diagnostics", source: e })),
        };
        Some(Ok(Query::Review(ReviewQuery::Diagnostics { path })))
    } else {
        None
    }
}

fn session_query_call(x: &SessionQuery) -> (r: Call)
    ensures
        r.name@ == spec_query_name(Query::Session(*x)),
        crate::value::record_view(r.args@) == session_query_args(*x),
{
    match x {
        SessionQuery::Session {} => {
            let mut f: Vec<(&'static str, Value)> = Vec::new();
            proof {
                assert(named_view(f@) =~= seq![]);
            }
            Call { name: String::from_str("session"), args: args_from(f) }
        },
        SessionQuery::Turns { limit, offset } => {
            let mut f: Vec<(&'static str, Value)> = Vec::new();
            f.push(("limit", limit.to_value()));
            f.push(("offset", offset.to_value()));
            proof {
                assert(named_view(f@) =~= seq![("limit"@, limit.wire()), ("offset"@, offset.wire())]);
            }
            Call { name: String::from_str("turns"), args: args_from(f) }
        },
        SessionQuery::Turn { turn } => {
            let mut f: Vec<(&'static str, Value)> = Vec::new();
            f.push(("turn", turn.to_value()));
            proof {
                assert(named_view(f@) =~= seq![("turn"@, turn.wire())]);
            }
            Call { name: String::from_str("turn"), args: args_from(f) }
        },
        SessionQuery::PendingAsks {} => {
            let mut f: Vec<(&'static str, Value)> = Vec::new();
            proof {
                assert(named_view(f@) =~= seq![]);
            }
            Call { name: String::from_str("pending-asks"), args: args_from(f) }
        },
        SessionQuery::Ask { ask } => {
            let mut f: Vec<(&'static str, Value)> = Vec::new();
            f.push(("ask", ask.to_value()));
            proof {
                assert(named_view(f@) =~= seq![("ask"@, ask.wire())]);
            }
            Call { name: String::from_str("ask"), args: args_from(f) }
        },
        SessionQuery::Watches { within } => {
            let mut f: Vec<(&'static str, Value)> = Vec::new();
            f.push(("within", within.to_value()));
            proof {
                assert(named_view(f@) =~= seq![("within"@, within.wire())]);
            }
            Call { name: String::from_str("watches"), args: args_from(f) }
        },
        SessionQuery::WatchValues { watch } => {
            let mut f: Vec<(&'static str, Value)> = Vec::new();
            f.push(("watch", watch.to_value()));
            proof {
                assert(named_view(f@) =~= seq![("watch"@, watch.wire())]);
            }
            Call { name: String::from_str("watch-values"), args: args_from(f) }
        },
    }
}

fn session_query_decode(name: &str, args: &Args) -> (r: Option<Result<Query, QueryError>>)
    ensures
        match session_query_from(name@, crate::value::record_view(args@)) {
            None => r is None,
            Some(Ok(w)) => r matches Some(Ok(x)) && spec_query_name(x) == name@ && spec_query_args(x) == w,
            Some(Err(e)) => r matches Some(Err(err)) && query_error_view(err) == e,
        },
{
    proof {
        lemma_query_names();
    }
    if str_eq(name, "session") {
        Some(Ok(Query::Session(SessionQuery::Session {})))
    } else if str_eq(name, "turns") {
        let limit = match args.field::<Option<u32>>("limit") {
            Ok(v) => v,
            Err(e) => return Some(Err(QueryError::Argument { name: "turns", source: e })),
        };
        let offset = match args.field::<Option<u32>>("offset") {
            Ok(v) => v,
            Err(e) => return Some(Err(QueryError::Argument { name: "turns", source: e })),
        };
        Some(Ok(Query::Session(SessionQuery::Turns { limit, offset })))
    } else if str_eq(name, "turn") {
        let turn = match args.field::<TurnId>("turn") {
            Ok(v) => v,
            Err(e) => return Some(Err(QueryError::Argument { name: "turn", source: e })),
        };
        Some(Ok(Query::Session(SessionQuery::Turn { turn })))
    } else if str_eq(name, "pending-asks") {
        Some(Ok(Query::Session(SessionQuery::PendingAsks {})))
    } else if str_eq(name, "ask") {
        let ask = match args.field::<AskId>("ask") {
            Ok(v) => v,
            Err(e) => return Some(Err(QueryError::Argument { name: "ask", source: e })),
        };
        Some(Ok(Query::Session(SessionQuery::Ask { ask })))
    } else if str_eq(name, "watches") {
        let within = match args.field::<Option<Target>>("within") {
            Ok(v) => v,
            Err(e) => return Some(Err(QueryError::Argument { name: "watches", source: e })),
        };
        Some(Ok(Query::Session(SessionQuery::Watches { within })))
    } else if str_eq(name, "watch-values") {
        let watch = match args.field::<WatchId>("watch") {
            Ok(v) => v,
            Err(e) => return Some(Err(QueryError::Argument { name: "watch-values", source: e })),
        };
        Some(Ok(Query::Session(SessionQuery::WatchValues { watch })))
    } else {
        None
    }
}

fn vcs_query_call(x: &VcsQuery) -> (r: Call)
    ensures
        r.name@ == spec_query_name(Query::Vcs(*x)),
        crate::value::record_view(r.args@) == vcs_query_args(*x),
{
    match x {
        VcsQuery::VcsStatus {} => {
            let mut f: Vec<(&'static str, Value)> = Vec::new();
            proof {
                assert(named_view(f@) =~= seq![]);
            }
            Call { name: String::from_str("vcs-status"), args: args_from(f) }
        },
        VcsQuery::Timeline { limit, offset } => {
            let mut f: Vec<(&'static str, Value)> = Vec::new();
            f.push(("limit", limit.to_value()));
            f.push(("offset", offset.to_value()));
            proof {
                assert(named_view(f@) =~= seq![("limit"@, limit.wire()), ("offset"@, offset.wire())]);
            }
            Call { name: String::from_str("timeline"), args: args_from(f) }
        },
    }
}

fn vcs_query_decode(name: &str, args: &Args) -> (r: Option<Result<Query, QueryError>>)
    ensures
        match vcs_query_from(name@, crate::value::record_view(args@)) {
            None => r is None,
            Some(Ok(w)) => r matches Some(Ok(x)) && spec_query_name(x) == name@ && spec_query_args(x) == w,
            Some(Err(e)) => r matches Some(Err(err)) && query_error_view(err) == e,
        },
{
    proof {
        lemma_query_names();
    }
    if str_eq(name, "vcs-status") {
        Some(Ok(Query::Vcs(VcsQuery::VcsStatus {})))
    } else if str_eq(name, "timeline") {
        let limit = match args.field::<Option<u32>>("limit") {
            Ok(v) => v,
            Err(e) => return Some(Err(QueryError::Argument { name: "timeline", source: e })),
        };
        let offset = match args.field::<Option<u32>>("offset") {
            Ok(v) => v,
            Err(e) => return Some(Err(QueryError::Argument { name: "timeline", source: e })),
        };
        Some(Ok(Query::Vcs(VcsQuery::Timeline { limit, offset })))
    } else {
        None
    }
}

impl Query {
    /// Encodes into a door-neutral call: every declared argument is present,
    /// an absent optional one as `Null`.
    pub fn to_call(&self) -> (r: Call)
        ensures
            r.name@ == spec_query_name(*self),
            crate::value::record_view(r.args@) == spec_query_args(*self),
    {
        match self {
            Query::Region(x) => region_query_call(x),
            Query::Buffer(x) => buffer_query_call(x),
            Query::Input(x) => input_query_call(x),
            Query::Ui(x) => ui_query_call(x),
            Query::Review(x) => review_query_call(x),
            Query::Session(x) => session_query_call(x),
            Query::Vcs(x) => vcs_query_call(x),
        }
    }

    /// Decodes a call from any door: an unknown name says so, and a missing or
    /// malformed argument names the capability and the argument.
    pub fn from_call(name: &str, args: &Args) -> (r: Result<Query, QueryError>)
        ensures
            match spec_query_from_call(name@, crate::value::record_view(args@)) {
                Ok(w) => r matches Ok(x) && spec_query_name(x) == name@ && spec_query_args(x) == w,
                Err(e) => r matches Err(err) && query_error_view(err) == e,
            },
    {
        proof {
            lemma_query_names();
        }
        if let Some(r) = region_query_decode(name, args) {
            return r;
        }
        if let Some(r) = buffer_query_decode(name, args) {
            return r;
        }
        if let Some(r) = input_query_decode(name, args) {
            return r;
        }
        if let Some(r) = ui_query_decode(name, args) {
            return r;
        }
        if let Some(r) = review_query_decode(name, args) {
            return r;
        }
        if let Some(r) = session_query_decode(name, args) {
            return r;
        }
        if let Some(r) = vcs_query_decode(name, args) {
            return r;
        }
        Err(QueryError::Unknown { name: String::from_str(name) })
    }
}

/// Which capability a name is, by its place in the registry; `-1` for a
/// name that is none.
#[verifier::opaque]
pub open spec fn action_name_index(s: Seq<char>) -> int {
    if s.len() == 0 {
        -1
    } else if s.len() >= 2 && s[0] == 'i' && s[1] == 'n' {
        if s.len() == 2 {
            -1
        } else if s.len() >= 6 && s[2] == 's' && s[3] == 'e' && s[4] == 'r' && s[5] == 't' {
            if s.len() == 6 {
                0
            } else if s.len() >= 13 && s[6] == '-' && s[7] == 'i' && s[8] == 'n' && s[9] == 'd' && s[10] == 'e' && s[11] == 'n' && s[12] == 't' {
                8
            } else {
                -1
            }
        } else if s.len() >= 6 && s[2] == 'd' && s[3] == 'e' && s[4] == 'n' && s[5] == 't' {
            7
        } else if s.len() >= 24 && s[2] == 'v' && s[3] == 'a' && s[4] == 'l' && s[5] == 'i' && s[6] == 'd' && s[7] == 'a' && s[8] == 't' && s[9] == 'e' && s[10] == '-' && s[11] == 'p' && s[12] == 'i' && s[13] == 'c' && s[14] == 'k' && s[15] == 'e' && s[16] == 'r' && s[17] == '-' && s[18] == 's' && s[19] == 'o' && s[20] == 'u' && s[21] == 'r' && s[22] == 'c' && s[23] == 'e' {
            72
        } else if s.len() >= 17 && s[2] == 't' && s[3] == 'e' && s[4] == 'r' && s[5] == 'r' && s[6] == 'u' && s[7] == 'p' && s[8] == 't' && s[9] == '-' && s[10] == 's' && s[11] == 'e' && s[12] == 's' && s[13] == 's' && s[14] == 'i' && s[15] == 'o' && s[16] == 'n' {
            114
        } else if s.len() >= 7 && s[2] == 'g' && s[3] == 'e' && s[4] == 's' && s[5] == 't' && s[6] == '-' {
            if s.len() == 7 {
                -1
            } else if s.len() >= 18 && s[7] == 'c' && s[8] == 'o' && s[9] == 'm' && s[10] == 'p' && s[11] == 'l' && s[12] == 'e' && s[13] == 't' && s[14] == 'i' && s[15] == 'o' && s[16] == 'n' && s[17] == 's' {
                138
            } else if s.len() >= 21 && s[7] == 's' && s[8] == 'i' && s[9] == 'g' && s[10] == 'n' && s[11] == 'a' && s[12] == 't' && s[13] == 'u' && s[14] == 'r' && s[15] == 'e' && s[16] == '-' && s[17] == 'h' && s[18] == 'e' && s[19] == 'l' && s[20] == 'p' {
                139
            } else if s.len() >= 12 && s[7] == 'h' && s[8] == 'o' && s[9] == 'v' && s[10] == 'e' && s[11] == 'r' {
                140
            } else if s.len() >= 18 && s[7] == 'd' && s[8] == 'i' && s[9] == 'a' && s[10] == 'g' && s[11] == 'n' && s[12] == 'o' && s[13] == 's' && s[14] == 't' && s[15] == 'i' && s[16] == 'c' && s[17] == 's' {
                141
            } else {
                -1
            }
        } else {
            -1
        }
    } else if s[0] == 'd' {
        if s.len() == 1 {
            -1
        } else if s[1] == 'e' {
            if s.len() == 2 {
                -1
            } else if s.len() >= 6 && s[2] == 'l' && s[3] == 'e' && s[4] == 't' && s[5] == 'e' {
                if s.len() == 6 {
                    1
                } else if s.len() >= 13 && s[6] == '-' && s[7] == 't' && s[8] == 'h' && s[9] == 'r' && s[10] == 'e' && s[11] == 'a' && s[12] == 'd' {
                    87
                } else {
                    -1
                }
            } else if s[2] == 'f' {
                if s.len() == 3 {
                    -1
                } else if s.len() >= 7 && s[3] == 'i' && s[4] == 'n' && s[5] == 'e' && s[6] == '-' {
                    if s.len() == 7 {
                        -1
                    } else if s.len() >= 20 && s[7] == 'f' && s[8] == 'l' && s[9] == 'o' && s[10] == 'a' && s[11] == 't' && s[12] == '-' && s[13] == 's' && s[14] == 'u' && s[15] == 'r' && s[16] == 'f' && s[17] == 'a' && s[18] == 'c' && s[19] == 'e' {
                        54
                    } else if s.len() >= 20 && s[7] == 'p' && s[8] == 'i' && s[9] == 'c' && s[10] == 'k' && s[11] == 'e' && s[12] == 'r' && s[13] == '-' && s[14] == 's' && s[15] == 'o' && s[16] == 'u' && s[17] == 'r' && s[18] == 'c' && s[19] == 'e' {
                        71
                    } else if s.len() >= 15 && s[7] == 'l' && s[8] == 'a' && s[9] == 'n' && s[10] == 'g' && s[11] == 'u' && s[12] == 'a' && s[13] == 'g' && s[14] == 'e' {
                        160
                    } else {
                        -1
                    }
                } else if s.len() >= 9 && s[3] == 'e' && s[4] == 'r' && s[5] == '-' && s[6] == 'a' && s[7] == 's' && s[8] == 'k' {
                    102
                } else {
                    -1
                }
            } else if s.len() >= 10 && s[2] == 'c' && s[3] == 'l' && s[4] == 'a' && s[5] == 'r' && s[6] == 'e' && s[7] == '-' && s[8] == 'r' && s[9] == 'e' {
                if s.len() == 10 {
                    -1
                } else if s.len() >= 15 && s[10] == 'g' && s[11] == 'i' && s[12] == 'o' && s[13] == 'n' && s[14] == 's' {
                    80
                } else if s.len() >= 20 && s[10] == 'v' && s[11] == 'i' && s[12] == 'e' && s[13] == 'w' && s[14] == '-' && s[15] == 'b' && s[16] == 'l' && s[17] == 'o' && s[18] == 'c' && s[19] == 'k' {
                    89
                } else {
                    -1
                }
            } else if s.len() >= 15 && s[2] == 'n' && s[3] == 'y' && s[4] == '-' && s[5] == 'p' && s[6] == 'e' && s[7] == 'r' && s[8] == 'm' && s[9] == 'i' && s[10] == 's' && s[11] == 's' && s[12] == 'i' && s[13] == 'o' && s[14] == 'n' {
                105
            } else if s.len() >= 14 && s[2] == 't' && s[3] == 'a' && s[4] == 'c' && s[5] == 'h' && s[6] == '-' && s[7] == 's' && s[8] == 'e' && s[9] == 's' && s[10] == 's' && s[11] == 'i' && s[12] == 'o' && s[13] == 'n' {
                111
            } else {
                -1
            }
        } else if s.len() >= 12 && s[1] == 'r' && s[2] == 'o' && s[3] == 'p' && s[4] == '-' && s[5] == 'r' && s[6] == 'e' && s[7] == 'g' && s[8] == 'i' && s[9] == 'o' && s[10] == 'n' && s[11] == 's' {
            83
        } else if s.len() >= 3 && s[1] == 'i' && s[2] == 's' {
            if s.len() == 3 {
                -1
            } else if s.len() >= 17 && s[3] == 'c' && s[4] == 'o' && s[5] == 'v' && s[6] == 'e' && s[7] == 'r' && s[8] == '-' && s[9] == 's' && s[10] == 'e' && s[11] == 's' && s[12] == 's' && s[13] == 'i' && s[14] == 'o' && s[15] == 'n' && s[16] == 's' {
                107
            } else if s.len() >= 22 && s[3] == 'm' && s[4] == 'i' && s[5] == 's' && s[6] == 's' && s[7] == '-' && s[8] == 'd' && s[9] == 'a' && s[10] == 's' && s[11] == 'h' && s[12] == 'b' && s[13] == 'o' && s[14] == 'a' && s[15] == 'r' && s[16] == 'd' && s[17] == '-' && s[18] == 'h' && s[19] == 'i' && s[20] == 'n' && s[21] == 't' {
                169
            } else {
                -1
            }
        } else {
            -1
        }
    } else if s.len() >= 2 && s[0] == 'r' && s[1] == 'e' {
        if s.len() == 2 {
            -1
        } else if s[2] == 'p' {
            if s.len() == 3 {
                -1
            } else if s[3] == 'l' {
                if s.len() == 4 {
                    -1
                } else if s.len() >= 7 && s[4] == 'a' && s[5] == 'c' && s[6] == 'e' {
                    2
                } else if s.len() >= 15 && s[4] == 'y' && s[5] == '-' && s[6] == 't' && s[7] == 'o' && s[8] == '-' && s[9] == 't' && s[10] == 'h' && s[11] == 'r' && s[12] == 'e' && s[13] == 'a' && s[14] == 'd' {
                    85
                } else if s[4] == '-' {
                    if s.len() == 5 {
                        -1
                    } else if s.len() >= 12 && s[5] == 'h' && s[6] == 'i' && s[7] == 's' && s[8] == 't' && s[9] == 'o' && s[10] == 'r' && s[11] == 'y' {
                        155
                    } else if s.len() >= 14 && s[5] == 't' && s[6] == 'o' && s[7] == '-' && s[8] == 'b' && s[9] == 'u' && s[10] == 'f' && s[11] == 'f' && s[12] == 'e' && s[13] == 'r' {
                        156
                    } else {
                        -1
                    }
                } else {
                    -1
                }
            } else if s.len() >= 11 && s[3] == 'e' && s[4] == 'a' && s[5] == 't' && s[6] == '-' && s[7] == 'l' && s[8] == 'a' && s[9] == 's' && s[10] == 't' {
                34
            } else {
                -1
            }
        } else if s.len() >= 4 && s[2] == 'd' && s[3] == 'o' {
            37
        } else if s.len() >= 7 && s[2] == 'l' && s[3] == 'o' && s[4] == 'a' && s[5] == 'd' && s[6] == '-' {
            if s.len() == 7 {
                -1
            } else if s.len() >= 16 && s[7] == 'f' && s[8] == 'r' && s[9] == 'o' && s[10] == 'm' && s[11] == '-' && s[12] == 'd' && s[13] == 'i' && s[14] == 's' && s[15] == 'k' {
                46
            } else if s.len() >= 14 && s[7] == 'r' && s[8] == 'u' && s[9] == 'n' && s[10] == 't' && s[11] == 'i' && s[12] == 'm' && s[13] == 'e' {
                152
            } else if s.len() >= 12 && s[7] == 't' && s[8] == 'h' && s[9] == 'e' && s[10] == 'm' && s[11] == 'e' {
                163
            } else {
                -1
            }
        } else if s[2] == 's' {
            if s.len() == 3 {
                -1
            } else if s.len() >= 8 && s[3] == 'o' && s[4] == 'l' && s[5] == 'v' && s[6] == 'e' && s[7] == '-' {
                if s.len() == 8 {
                    -1
                } else if s.len() >= 17 && s[8] == 'd' && s[9] == 'i' && s[10] == 's' && s[11] == 'k' && s[12] == '-' && s[13] == 'd' && s[14] == 'i' && s[15] == 'f' && s[16] == 'f' {
                    49
                } else if s.len() >= 14 && s[8] == 't' && s[9] == 'h' && s[10] == 'r' && s[11] == 'e' && s[12] == 'a' && s[13] == 'd' {
                    86
                } else {
                    -1
                }
            } else if s.len() >= 11 && s[3] == 'i' && s[4] == 'z' && s[5] == 'e' && s[6] == '-' && s[7] == 'p' && s[8] == 'a' && s[9] == 'n' && s[10] == 'e' {
                63
            } else if s.len() >= 14 && s[3] == 'u' && s[4] == 'm' && s[5] == 'e' && s[6] == '-' && s[7] == 's' && s[8] == 'e' && s[9] == 's' && s[10] == 's' && s[11] == 'i' && s[12] == 'o' && s[13] == 'n' {
                116
            } else if s[3] == 't' {
                if s.len() == 4 {
                    -1
                } else if s.len() >= 23 && s[4] == 'a' && s[5] == 'r' && s[6] == 't' && s[7] == '-' && s[8] == 'l' && s[9] == 'a' && s[10] == 'n' && s[11] == 'g' && s[12] == 'u' && s[13] == 'a' && s[14] == 'g' && s[15] == 'e' && s[16] == '-' && s[17] == 's' && s[18] == 'e' && s[19] == 'r' && s[20] == 'v' && s[21] == 'e' && s[22] == 'r' {
                    143
                } else if s.len() >= 14 && s[4] == 'o' && s[5] == 'r' && s[6] == 'e' && s[7] == '-' && s[8] == 'c' && s[9] == 'h' && s[10] == 'a' && s[11] == 'n' && s[12] == 'g' && s[13] == 'e' {
                    149
                } else {
                    -1
                }
            } else {
                -1
            }
        } else if s[2] == 'a' {
            if s.len() == 3 {
                -1
            } else if s.len() >= 8 && s[3] == 'n' && s[4] == 'c' && s[5] == 'h' && s[6] == 'o' && s[7] == 'r' {
                82
            } else if s.len() >= 16 && s[3] == 't' && s[4] == 't' && s[5] == 'a' && s[6] == 'c' && s[7] == 'h' && s[8] == '-' && s[9] == 's' && s[10] == 'e' && s[11] == 's' && s[12] == 's' && s[13] == 'i' && s[14] == 'o' && s[15] == 'n' {
                110
            } else {
                -1
            }
        } else if s.len() >= 11 && s[2] == 'v' && s[3] == 'e' && s[4] == 'r' && s[5] == 't' && s[6] == '-' && s[7] == 'h' && s[8] == 'u' && s[9] == 'n' && s[10] == 'k' {
            95
        } else if s.len() >= 8 && s[2] == 'q' && s[3] == 'u' && s[4] == 'e' && s[5] == 's' && s[6] == 't' && s[7] == '-' {
            if s.len() == 8 {
                -1
            } else if s.len() >= 18 && s[8] == 'p' && s[9] == 'e' && s[10] == 'r' && s[11] == 'm' && s[12] == 'i' && s[13] == 's' && s[14] == 's' && s[15] == 'i' && s[16] == 'o' && s[17] == 'n' {
                103
            } else if s.len() >= 18 && s[8] == 'c' && s[9] == 'o' && s[10] == 'm' && s[11] == 'p' && s[12] == 'l' && s[13] == 'e' && s[14] == 't' && s[15] == 'i' && s[16] == 'o' && s[17] == 'n' {
                130
            } else if s.len() >= 13 && s[8] == 'h' && s[9] == 'o' && s[10] == 'v' && s[11] == 'e' && s[12] == 'r' {
                134
            } else if s.len() >= 22 && s[8] == 's' && s[9] == 'i' && s[10] == 'g' && s[11] == 'n' && s[12] == 'a' && s[13] == 't' && s[14] == 'u' && s[15] == 'r' && s[16] == 'e' && s[17] == '-' && s[18] == 'h' && s[19] == 'e' && s[20] == 'l' && s[21] == 'p' {
                135
            } else if s.len() >= 18 && s[8] == 'd' && s[9] == 'e' && s[10] == 'f' && s[11] == 'i' && s[12] == 'n' && s[13] == 'i' && s[14] == 't' && s[15] == 'i' && s[16] == 'o' && s[17] == 'n' {
                136
            } else if s.len() >= 18 && s[8] == 'r' && s[9] == 'e' && s[10] == 'f' && s[11] == 'e' && s[12] == 'r' && s[13] == 'e' && s[14] == 'n' && s[15] == 'c' && s[16] == 'e' && s[17] == 's' {
                137
            } else {
                -1
            }
        } else if s.len() >= 7 && s[2] == 'm' && s[3] == 'o' && s[4] == 'v' && s[5] == 'e' && s[6] == '-' {
            if s.len() == 7 {
                -1
            } else if s.len() >= 12 && s[7] == 'w' && s[8] == 'a' && s[9] == 't' && s[10] == 'c' && s[11] == 'h' {
                126
            } else if s.len() >= 17 && s[7] == 'k' && s[8] == 'e' && s[9] == 'y' && s[10] == 'b' && s[11] == 'i' && s[12] == 'n' && s[13] == 'd' && s[14] == 'i' && s[15] == 'n' && s[16] == 'g' {
                159
            } else {
                -1
            }
        } else if s.len() >= 11 && s[2] == 'f' && s[3] == 'r' && s[4] == 'e' && s[5] == 's' && s[6] == 'h' && s[7] == '-' && s[8] == 'v' && s[9] == 'c' && s[10] == 's' {
            144
        } else {
            -1
        }
    } else if s[0] == 'a' {
        if s.len() == 1 {
            -1
        } else if s.len() >= 6 && s[1] == 'p' && s[2] == 'p' && s[3] == 'l' && s[4] == 'y' && s[5] == '-' {
            if s.len() == 6 {
                -1
            } else if s.len() >= 11 && s[6] == 'e' && s[7] == 'd' && s[8] == 'i' && s[9] == 't' && s[10] == 's' {
                3
            } else if s.len() >= 20 && s[6] == 'w' && s[7] == 'o' && s[8] == 'r' && s[9] == 'k' && s[10] == 's' && s[11] == 'p' && s[12] == 'a' && s[13] == 'c' && s[14] == 'e' && s[15] == '-' && s[16] == 'e' && s[17] == 'd' && s[18] == 'i' && s[19] == 't' {
                142
            } else {
                -1
            }
        } else if s.len() >= 13 && s[1] == 'l' && s[2] == 'i' && s[3] == 'g' && s[4] == 'n' && s[5] == '-' && s[6] == 'c' && s[7] == 'o' && s[8] == 'l' && s[9] == 'u' && s[10] == 'm' && s[11] == 'n' && s[12] == 's' {
            12
        } else if s[1] == 'n' {
            if s.len() == 2 {
                -1
            } else if s.len() >= 14 && s[2] == 'n' && s[3] == 'o' && s[4] == 't' && s[5] == 'a' && s[6] == 't' && s[7] == 'e' && s[8] == '-' && s[9] == 'g' && s[10] == 'r' && s[11] == 'o' && s[12] == 'u' && s[13] == 'p' {
                94
            } else if s.len() >= 10 && s[2] == 's' && s[3] == 'w' && s[4] == 'e' && s[5] == 'r' && s[6] == '-' && s[7] == 'a' && s[8] == 's' && s[9] == 'k' {
                101
            } else {
                -1
            }
        } else if s.len() >= 13 && s[1] == 'd' && s[2] == 'o' && s[3] == 'p' && s[4] == 't' && s[5] == '-' && s[6] == 's' && s[7] == 'e' && s[8] == 's' && s[9] == 's' && s[10] == 'i' && s[11] == 'o' && s[12] == 'n' {
            108
        } else if s.len() >= 14 && s[1] == 't' && s[2] == 't' && s[3] == 'a' && s[4] == 'c' && s[5] == 'h' && s[6] == '-' && s[7] == 's' && s[8] == 'e' && s[9] == 's' && s[10] == 's' && s[11] == 'i' && s[12] == 'o' && s[13] == 'n' {
            109
        } else if s.len() >= 10 && s[1] == 'b' && s[2] == 'o' && s[3] == 'r' && s[4] == 't' && s[5] == '-' && s[6] == 't' && s[7] == 'u' && s[8] == 'r' && s[9] == 'n' {
            117
        } else if s.len() >= 17 && s[1] == 'c' && s[2] == 'c' && s[3] == 'e' && s[4] == 'p' && s[5] == 't' && s[6] == '-' && s[7] == 'c' && s[8] == 'o' && s[9] == 'm' && s[10] == 'p' && s[11] == 'l' && s[12] == 'e' && s[13] == 't' && s[14] == 'i' && s[15] == 'o' && s[16] == 'n' {
            132
        } else {
            -1
        }
    } else if s.len() >= 4 && s[0] == 'y' && s[1] == 'a' && s[2] == 'n' && s[3] == 'k' {
        4
    } else if s[0] == 'p' {
        if s.len() == 1 {
            -1
        } else if s.len() >= 5 && s[1] == 'a' && s[2] == 's' && s[3] == 't' && s[4] == 'e' {
            5
        } else if s.len() >= 13 && s[1] == 'i' && s[2] == 'c' && s[3] == 'k' && s[4] == 'e' && s[5] == 'r' && s[6] == '-' && s[7] == 'a' && s[8] == 'c' && s[9] == 'c' && s[10] == 'e' && s[11] == 'p' && s[12] == 't' {
            69
        } else if s.len() >= 14 && s[1] == 'r' && s[2] == 'o' && s[3] == 'm' && s[4] == 'p' && s[5] == 't' && s[6] == '-' && s[7] == 'h' && s[8] == 'i' && s[9] == 's' && s[10] == 't' && s[11] == 'o' && s[12] == 'r' && s[13] == 'y' {
            77
        } else if s.len() >= 6 && s[1] == 'l' && s[2] == 'a' && s[3] == 'c' && s[4] == 'e' && s[5] == '-' {
            if s.len() == 6 {
                -1
            } else if s.len() >= 12 && s[6] == 'a' && s[7] == 'n' && s[8] == 'c' && s[9] == 'h' && s[10] == 'o' && s[11] == 'r' {
                81
            } else if s.len() >= 11 && s[6] == 'w' && s[7] == 'a' && s[8] == 't' && s[9] == 'c' && s[10] == 'h' {
                125
            } else {
                -1
            }
        } else if s.len() >= 17 && s[1] == 'u' && s[2] == 's' && s[3] == 'h' && s[4] == '-' && s[5] == 'w' && s[6] == 'a' && s[7] == 't' && s[8] == 'c' && s[9] == 'h' && s[10] == '-' && s[11] == 'v' && s[12] == 'a' && s[13] == 'l' && s[14] == 'u' && s[15] == 'e' && s[16] == 's' {
            128
        } else if s.len() >= 12 && s[1] == 'e' && s[2] == 'r' && s[3] == 's' && s[4] == 'i' && s[5] == 's' && s[6] == 't' && s[7] == '-' && s[8] == 'f' && s[9] == 'o' && s[10] == 'r' && s[11] == 'm' {
            157
        } else {
            -1
        }
    } else if s[0] == 's' {
        if s.len() == 1 {
            -1
        } else if s[1] == 'e' {
            if s.len() == 2 {
                -1
            } else if s.len() >= 4 && s[2] == 't' && s[3] == '-' {
                if s.len() == 4 {
                    -1
                } else if s.len() >= 12 && s[4] == 'r' && s[5] == 'e' && s[6] == 'g' && s[7] == 'i' && s[8] == 's' && s[9] == 't' && s[10] == 'e' && s[11] == 'r' {
                    6
                } else if s[4] == 'c' {
                    if s.len() == 5 {
                        -1
                    } else if s.len() >= 8 && s[5] == 'a' && s[6] == 's' && s[7] == 'e' {
                        10
                    } else if s.len() >= 10 && s[5] == 'u' && s[6] == 'r' && s[7] == 's' && s[8] == 'o' && s[9] == 'r' {
                        14
                    } else if s.len() >= 9 && s[5] == 'o' && s[6] == 'u' && s[7] == 'n' && s[8] == 't' {
                        30
                    } else {
                        -1
                    }
                } else if s.len() >= 13 && s[4] == 's' && s[5] == 'o' && s[6] == 'f' && s[7] == 't' && s[8] == '-' && s[9] == 'w' && s[10] == 'r' && s[11] == 'a' && s[12] == 'p' {
                    24
                } else if s[4] == 'f' {
                    if s.len() == 5 {
                        -1
                    } else if s.len() >= 8 && s[5] == 'o' && s[6] == 'l' && s[7] == 'd' {
                        25
                    } else if s.len() >= 14 && s[5] == 'i' && s[6] == 'l' && s[7] == 'e' && s[8] == '-' && s[9] == 'w' && s[10] == 'a' && s[11] == 't' && s[12] == 'c' && s[13] == 'h' {
                        50
                    } else {
                        -1
                    }
                } else if s.len() >= 24 && s[4] == 'v' && s[5] == 'i' && s[6] == 'r' && s[7] == 't' && s[8] == 'u' && s[9] == 'a' && s[10] == 'l' && s[11] == '-' && s[12] == 't' && s[13] == 'e' && s[14] == 'x' && s[15] == 't' && s[16] == '-' && s[17] == 'v' && s[18] == 'i' && s[19] == 's' && s[20] == 'i' && s[21] == 'b' && s[22] == 'l' && s[23] == 'e' {
                    28
                } else if s[4] == 'm' {
                    if s.len() == 5 {
                        -1
                    } else if s.len() >= 8 && s[5] == 'o' && s[6] == 'd' && s[7] == 'e' {
                        29
                    } else if s.len() >= 19 && s[5] == 'a' && s[6] == 'c' && s[7] == 'r' && s[8] == 'o' && s[9] == '-' && s[10] == 'r' && s[11] == 'e' && s[12] == 'c' && s[13] == 'o' && s[14] == 'r' && s[15] == 'd' && s[16] == 'i' && s[17] == 'n' && s[18] == 'g' {
                        35
                    } else {
                        -1
                    }
                } else if s[4] == 'p' {
                    if s.len() == 5 {
                        -1
                    } else if s.len() >= 16 && s[5] == 'a' && s[6] == 'n' && s[7] == 'e' && s[8] == '-' && s[9] == 'c' && s[10] == 'o' && s[11] == 'n' && s[12] == 't' && s[13] == 'e' && s[14] == 'n' && s[15] == 't' {
                        64
                    } else if s.len() >= 16 && s[5] == 'i' && s[6] == 'c' && s[7] == 'k' && s[8] == 'e' && s[9] == 'r' && s[10] == '-' && s[11] == 'q' && s[12] == 'u' && s[13] == 'e' && s[14] == 'r' && s[15] == 'y' {
                        67
                    } else if s.len() >= 15 && s[5] == 'r' && s[6] == 'o' && s[7] == 'm' && s[8] == 'p' && s[9] == 't' && s[10] == '-' && s[11] == 't' && s[12] == 'e' && s[13] == 'x' && s[14] == 't' {
                        74
                    } else {
                        -1
                    }
                } else if s.len() >= 9 && s[4] == 'd' && s[5] == 'i' && s[6] == 'f' && s[7] == 'f' && s[8] == '-' {
                    if s.len() == 9 {
                        -1
                    } else if s.len() >= 13 && s[9] == 'm' && s[10] == 'o' && s[11] == 'd' && s[12] == 'e' {
                        91
                    } else if s.len() >= 17 && s[9] == 'g' && s[10] == 'r' && s[11] == 'o' && s[12] == 'u' && s[13] == 'p' && s[14] == 'i' && s[15] == 'n' && s[16] == 'g' {
                        93
                    } else {
                        -1
                    }
                } else if s.len() >= 17 && s[4] == 'w' && s[5] == 'a' && s[6] == 't' && s[7] == 'c' && s[8] == 'h' && s[9] == '-' && s[10] == 'v' && s[11] == 'i' && s[12] == 's' && s[13] == 'i' && s[14] == 'b' && s[15] == 'l' && s[16] == 'e' {
                    127
                } else if s.len() >= 14 && s[4] == 'k' && s[5] == 'e' && s[6] == 'y' && s[7] == 'b' && s[8] == 'i' && s[9] == 'n' && s[10] == 'd' && s[11] == 'i' && s[12] == 'n' && s[13] == 'g' {
                    158
                } else if s.len() >= 10 && s[4] == 'o' && s[5] == 'p' && s[6] == 't' && s[7] == 'i' && s[8] == 'o' && s[9] == 'n' {
                    161
                } else if s.len() >= 9 && s[4] == 't' && s[5] == 'h' && s[6] == 'e' && s[7] == 'm' && s[8] == 'e' {
                    162
                } else {
                    -1
                }
            } else if s.len() >= 7 && s[2] == 'l' && s[3] == 'e' && s[4] == 'c' && s[5] == 't' && s[6] == '-' {
                if s.len() == 7 {
                    -1
                } else if s[7] == 'r' {
                    if s.len() == 8 {
                        -1
                    } else if s.len() >= 12 && s[8] == 'a' && s[9] == 'n' && s[10] == 'g' && s[11] == 'e' {
                        15
                    } else if s.len() >= 15 && s[8] == 'e' && s[9] == 'g' && s[10] == 'i' && s[11] == 's' && s[12] == 't' && s[13] == 'e' && s[14] == 'r' {
                        31
                    } else {
                        -1
                    }
                } else if s.len() >= 13 && s[7] == 'o' && s[8] == 'b' && s[9] == 'j' && s[10] == 'e' && s[11] == 'c' && s[12] == 't' {
                    16
                } else {
                    -1
                }
            } else if s.len() >= 12 && s[2] == 'n' && s[3] == 'd' && s[4] == '-' && s[5] == 'm' && s[6] == 'e' && s[7] == 's' && s[8] == 's' && s[9] == 'a' && s[10] == 'g' && s[11] == 'e' {
                113
            } else if s.len() >= 8 && s[2] == 's' && s[3] == 's' && s[4] == 'i' && s[5] == 'o' && s[6] == 'n' && s[7] == '-' {
                if s.len() == 8 {
                    -1
                } else if s.len() >= 13 && s[8] == 'p' && s[9] == 'r' && s[10] == 'o' && s[11] == 's' && s[12] == 'e' {
                    120
                } else if s.len() >= 12 && s[8] == 's' && s[9] == 'e' && s[10] == 'a' && s[11] == 'm' {
                    124
                } else {
                    -1
                }
            } else {
                -1
            }
        } else if s.len() >= 6 && s[1] == 'c' && s[2] == 'r' && s[3] == 'o' && s[4] == 'l' && s[5] == 'l' {
            23
        } else if s.len() >= 5 && s[1] == 'a' && s[2] == 'v' && s[3] == 'e' && s[4] == '-' {
            if s.len() == 5 {
                -1
            } else if s.len() >= 11 && s[5] == 'b' && s[6] == 'u' && s[7] == 'f' && s[8] == 'f' && s[9] == 'e' && s[10] == 'r' {
                43
            } else if s.len() >= 8 && s[5] == 'a' && s[6] == 'l' && s[7] == 'l' {
                44
            } else {
                -1
            }
        } else if s.len() >= 10 && s[1] == 'p' && s[2] == 'l' && s[3] == 'i' && s[4] == 't' && s[5] == '-' && s[6] == 'p' && s[7] == 'a' && s[8] == 'n' && s[9] == 'e' {
            60
        } else if s.len() >= 13 && s[1] == 'u' && s[2] == 'b' && s[3] == 'm' && s[4] == 'i' && s[5] == 't' && s[6] == '-' && s[7] == 'p' && s[8] == 'r' && s[9] == 'o' && s[10] == 'm' && s[11] == 'p' && s[12] == 't' {
            75
        } else if s[1] == 't' {
            if s.len() == 2 {
                -1
            } else if s.len() >= 6 && s[2] == 'a' && s[3] == 'r' && s[4] == 't' && s[5] == '-' {
                if s.len() == 6 {
                    -1
                } else if s.len() >= 12 && s[6] == 't' && s[7] == 'h' && s[8] == 'r' && s[9] == 'e' && s[10] == 'a' && s[11] == 'd' {
                    84
                } else if s.len() >= 13 && s[6] == 's' && s[7] == 'e' && s[8] == 's' && s[9] == 's' && s[10] == 'i' && s[11] == 'o' && s[12] == 'n' {
                    106
                } else {
                    -1
                }
            } else if s.len() >= 13 && s[2] == 'e' && s[3] == 'e' && s[4] == 'r' && s[5] == '-' && s[6] == 's' && s[7] == 'e' && s[8] == 's' && s[9] == 's' && s[10] == 'i' && s[11] == 'o' && s[12] == 'n' {
                115
            } else {
                -1
            }
        } else if s.len() >= 5 && s[1] == 'h' && s[2] == 'o' && s[3] == 'w' && s[4] == '-' {
            if s.len() == 5 {
                -1
            } else if s.len() >= 16 && s[5] == 'c' && s[6] == 'h' && s[7] == 'a' && s[8] == 'n' && s[9] == 'g' && s[10] == 'e' && s[11] == '-' && s[12] == 'd' && s[13] == 'i' && s[14] == 'f' && s[15] == 'f' {
                146
            } else if s.len() >= 21 && s[5] == 'u' && s[6] == 'n' && s[7] == 'k' && s[8] == 'n' && s[9] == 'o' && s[10] == 'w' && s[11] == 'n' && s[12] == '-' && s[13] == 'k' && s[14] == 'e' && s[15] == 'y' && s[16] == '-' && s[17] == 'h' && s[18] == 'i' && s[19] == 'n' && s[20] == 't' {
                165
            } else {
                -1
            }
        } else {
            -1
        }
    } else if s[0] == 'j' {
        if s.len() == 1 {
            -1
        } else if s.len() >= 10 && s[1] == 'o' && s[2] == 'i' && s[3] == 'n' && s[4] == '-' && s[5] == 'l' && s[6] == 'i' && s[7] == 'n' && s[8] == 'e' && s[9] == 's' {
            9
        } else if s.len() >= 4 && s[1] == 'u' && s[2] == 'm' && s[3] == 'p' {
            22
        } else {
            -1
        }
    } else if s[0] == 't' {
        if s.len() == 1 {
            -1
        } else if s[1] == 'o' {
            if s.len() == 2 {
                -1
            } else if s.len() >= 7 && s[2] == 'g' && s[3] == 'g' && s[4] == 'l' && s[5] == 'e' && s[6] == '-' {
                if s.len() == 7 {
                    -1
                } else if s.len() >= 14 && s[7] == 'c' && s[8] == 'o' && s[9] == 'm' && s[10] == 'm' && s[11] == 'e' && s[12] == 'n' && s[13] == 't' {
                    11
                } else if s.len() >= 21 && s[7] == 'p' && s[8] == 'i' && s[9] == 'c' && s[10] == 'k' && s[11] == 'e' && s[12] == 'r' && s[13] == '-' && s[14] == 'p' && s[15] == 'r' && s[16] == 'e' && s[17] == 'v' && s[18] == 'i' && s[19] == 'e' && s[20] == 'w' {
                    70
                } else {
                    -1
                }
            } else if s.len() >= 10 && s[2] == 'o' && s[3] == 'l' && s[4] == '-' && s[5] == 'c' && s[6] == 'a' && s[7] == 'l' && s[8] == 'l' && s[9] == '-' {
                if s.len() == 10 {
                    -1
                } else if s.len() >= 17 && s[10] == 's' && s[11] == 't' && s[12] == 'a' && s[13] == 'r' && s[14] == 't' && s[15] == 'e' && s[16] == 'd' {
                    121
                } else if s.len() >= 18 && s[10] == 'p' && s[11] == 'r' && s[12] == 'o' && s[13] == 'g' && s[14] == 'r' && s[15] == 'e' && s[16] == 's' && s[17] == 's' {
                    122
                } else if s.len() >= 19 && s[10] == 'c' && s[11] == 'o' && s[12] == 'm' && s[13] == 'p' && s[14] == 'l' && s[15] == 'e' && s[16] == 't' && s[17] == 'e' && s[18] == 'd' {
                    123
                } else {
                    -1
                }
            } else {
                -1
            }
        } else if s.len() >= 5 && s[1] == 'u' && s[2] == 'r' && s[3] == 'n' && s[4] == '-' {
            if s.len() == 5 {
                -1
            } else if s.len() >= 10 && s[5] == 'b' && s[6] == 'e' && s[7] == 'g' && s[8] == 'a' && s[9] == 'n' {
                118
            } else if s.len() >= 10 && s[5] == 'e' && s[6] == 'n' && s[7] == 'd' && s[8] == 'e' && s[9] == 'd' {
                119
            } else {
                -1
            }
        } else {
            -1
        }
    } else if s[0] == 'm' {
        if s.len() == 1 {
            -1
        } else if s.len() >= 6 && s[1] == 'o' && s[2] == 'v' && s[3] == 'e' && s[4] == '-' && s[5] == 'c' {
            if s.len() == 6 {
                -1
            } else if s.len() >= 11 && s[6] == 'u' && s[7] == 'r' && s[8] == 's' && s[9] == 'o' && s[10] == 'r' {
                13
            } else if s.len() >= 15 && s[6] == 'o' && s[7] == 'm' && s[8] == 'p' && s[9] == 'l' && s[10] == 'e' && s[11] == 't' && s[12] == 'i' && s[13] == 'o' && s[14] == 'n' {
                131
            } else {
                -1
            }
        } else if s.len() >= 5 && s[1] == 'a' && s[2] == 'r' && s[3] == 'k' && s[4] == '-' {
            if s.len() == 5 {
                -1
            } else if s.len() >= 9 && s[5] == 's' && s[6] == 'e' && s[7] == 'e' && s[8] == 'n' {
                78
            } else if s.len() >= 11 && s[5] == 'u' && s[6] == 'n' && s[7] == 's' && s[8] == 'e' && s[9] == 'e' && s[10] == 'n' {
                79
            } else {
                -1
            }
        } else {
            -1
        }
    } else if s[0] == 'e' {
        if s.len() == 1 {
            -1
        } else if s[1] == 'x' {
            if s.len() == 2 {
                -1
            } else if s.len() >= 16 && s[2] == 't' && s[3] == 'e' && s[4] == 'n' && s[5] == 'd' && s[6] == '-' && s[7] == 's' && s[8] == 'e' && s[9] == 'l' && s[10] == 'e' && s[11] == 'c' && s[12] == 't' && s[13] == 'i' && s[14] == 'o' && s[15] == 'n' {
                17
            } else if s.len() >= 19 && s[2] == 'p' && s[3] == 'a' && s[4] == 'n' && s[5] == 'd' && s[6] == '-' && s[7] == 'd' && s[8] == 'i' && s[9] == 'f' && s[10] == 'f' && s[11] == '-' && s[12] == 'c' && s[13] == 'o' && s[14] == 'n' && s[15] == 't' && s[16] == 'e' && s[17] == 'x' && s[18] == 't' {
                92
            } else {
                -1
            }
        } else if s[1] == 'n' {
            if s.len() == 2 {
                -1
            } else if s.len() >= 11 && s[2] == 'q' && s[3] == 'u' && s[4] == 'e' && s[5] == 'u' && s[6] == 'e' && s[7] == '-' && s[8] == 'a' && s[9] == 's' && s[10] == 'k' {
                100
            } else if s.len() >= 11 && s[2] == 'd' && s[3] == '-' && s[4] == 's' && s[5] == 'e' && s[6] == 's' && s[7] == 's' && s[8] == 'i' && s[9] == 'o' && s[10] == 'n' {
                112
            } else {
                -1
            }
        } else if s.len() >= 14 && s[1] == 'd' && s[2] == 'i' && s[3] == 't' && s[4] == '-' && s[5] == 'a' && s[6] == 't' && s[7] == '-' && s[8] == 'c' && s[9] == 'h' && s[10] == 'a' && s[11] == 'n' && s[12] == 'g' && s[13] == 'e' {
            148
        } else if s.len() >= 4 && s[1] == 'v' && s[2] == 'a' && s[3] == 'l' {
            150
        } else {
            -1
        }
    } else if s[0] == 'c' {
        if s.len() == 1 {
            -1
        } else if s[1] == 'l' {
            if s.len() == 2 {
                -1
            } else if s.len() >= 6 && s[2] == 'e' && s[3] == 'a' && s[4] == 'r' && s[5] == '-' {
                if s.len() == 6 {
                    -1
                } else if s.len() >= 15 && s[6] == 's' && s[7] == 'e' && s[8] == 'l' && s[9] == 'e' && s[10] == 'c' && s[11] == 't' && s[12] == 'i' && s[13] == 'o' && s[14] == 'n' {
                    18
                } else if s.len() >= 18 && s[6] == 'w' && s[7] == 'a' && s[8] == 't' && s[9] == 'c' && s[10] == 'h' && s[11] == '-' && s[12] == 'v' && s[13] == 'a' && s[14] == 'l' && s[15] == 'u' && s[16] == 'e' && s[17] == 's' {
                    129
                } else {
                    -1
                }
            } else if s.len() >= 6 && s[2] == 'o' && s[3] == 's' && s[4] == 'e' && s[5] == '-' {
                if s.len() == 6 {
                    -1
                } else if s.len() >= 12 && s[6] == 'b' && s[7] == 'u' && s[8] == 'f' && s[9] == 'f' && s[10] == 'e' && s[11] == 'r' {
                    45
                } else if s.len() >= 11 && s[6] == 'f' && s[7] == 'l' && s[8] == 'o' && s[9] == 'a' && s[10] == 't' {
                    52
                } else if s.len() >= 16 && s[6] == 'a' && s[7] == 'l' && s[8] == 'l' && s[9] == '-' && s[10] == 'f' && s[11] == 'l' && s[12] == 'o' && s[13] == 'a' && s[14] == 't' && s[15] == 's' {
                    53
                } else if s.len() >= 10 && s[6] == 'p' && s[7] == 'a' && s[8] == 'n' && s[9] == 'e' {
                    62
                } else if s.len() >= 10 && s[6] == 'r' && s[7] == 'e' && s[8] == 'p' && s[9] == 'l' {
                    154
                } else {
                    -1
                }
            } else {
                -1
            }
        } else if s.len() >= 7 && s[1] == 'a' && s[2] == 'n' && s[3] == 'c' && s[4] == 'e' && s[5] == 'l' && s[6] == '-' {
            if s.len() == 7 {
                -1
            } else if s[7] == 'p' {
                if s.len() == 8 {
                    -1
                } else if s.len() >= 14 && s[8] == 'e' && s[9] == 'n' && s[10] == 'd' && s[11] == 'i' && s[12] == 'n' && s[13] == 'g' {
                    32
                } else if s.len() >= 13 && s[8] == 'r' && s[9] == 'o' && s[10] == 'm' && s[11] == 'p' && s[12] == 't' {
                    76
                } else {
                    -1
                }
            } else if s.len() >= 17 && s[7] == 'c' && s[8] == 'o' && s[9] == 'm' && s[10] == 'p' && s[11] == 'l' && s[12] == 'e' && s[13] == 't' && s[14] == 'i' && s[15] == 'o' && s[16] == 'n' {
                133
            } else {
                -1
            }
        } else if s.len() >= 3 && s[1] == 'o' && s[2] == 'm' {
            if s.len() == 3 {
                -1
            } else if s.len() >= 17 && s[3] == 'm' && s[4] == 'i' && s[5] == 't' && s[6] == '-' && s[7] == 'u' && s[8] == 'n' && s[9] == 'd' && s[10] == 'o' && s[11] == '-' && s[12] == 'g' && s[13] == 'r' && s[14] == 'o' && s[15] == 'u' && s[16] == 'p' {
                39
            } else if s.len() >= 15 && s[3] == 'p' && s[4] == 'a' && s[5] == 'c' && s[6] == 't' && s[7] == '-' && s[8] == 'h' && s[9] == 'i' && s[10] == 's' && s[11] == 't' && s[12] == 'o' && s[13] == 'r' && s[14] == 'y' {
                40
            } else {
                -1
            }
        } else if s.len() >= 21 && s[1] == 'r' && s[2] == 'e' && s[3] == 'a' && s[4] == 't' && s[5] == 'e' && s[6] == '-' && s[7] == 'p' && s[8] == 'a' && s[9] == 'n' && s[10] == 'e' && s[11] == '-' && s[12] == 'f' && s[13] == 'r' && s[14] == 'o' && s[15] == 'm' && s[16] == '-' && s[17] == 'v' && s[18] == 'i' && s[19] == 'e' && s[20] == 'w' {
            65
        } else if s.len() >= 19 && s[1] == 'y' && s[2] == 'c' && s[3] == 'l' && s[4] == 'e' && s[5] == '-' && s[6] == 'p' && s[7] == 'i' && s[8] == 'c' && s[9] == 'k' && s[10] == 'e' && s[11] == 'r' && s[12] == '-' && s[13] == 's' && s[14] == 'o' && s[15] == 'u' && s[16] == 'r' && s[17] == 'c' && s[18] == 'e' {
            68
        } else {
            -1
        }
    } else if s[0] == 'g' {
        if s.len() == 1 {
            -1
        } else if s.len() >= 5 && s[1] == 'o' && s[2] == 't' && s[3] == 'o' && s[4] == '-' {
            if s.len() == 5 {
                -1
            } else if s.len() >= 13 && s[5] == 's' && s[6] == 'e' && s[7] == 'q' && s[8] == 'u' && s[9] == 'e' && s[10] == 'n' && s[11] == 'c' && s[12] == 'e' {
                19
            } else if s.len() >= 13 && s[5] == 'l' && s[6] == 'o' && s[7] == 'c' && s[8] == 'a' && s[9] == 't' && s[10] == 'i' && s[11] == 'o' && s[12] == 'n' {
                20
            } else if s.len() >= 11 && s[5] == 'a' && s[6] == 'n' && s[7] == 'c' && s[8] == 'h' && s[9] == 'o' && s[10] == 'r' {
                21
            } else {
                -1
            }
        } else if s.len() >= 16 && s[1] == 'r' && s[2] == 'a' && s[3] == 'n' && s[4] == 't' && s[5] == '-' && s[6] == 'p' && s[7] == 'e' && s[8] == 'r' && s[9] == 'm' && s[10] == 'i' && s[11] == 's' && s[12] == 's' && s[13] == 'i' && s[14] == 'o' && s[15] == 'n' {
            104
        } else {
            -1
        }
    } else if s[0] == 'f' {
        if s.len() == 1 {
            -1
        } else if s[1] == 'o' {
            if s.len() == 2 {
                -1
            } else if s.len() >= 8 && s[2] == 'l' && s[3] == 'd' && s[4] == '-' && s[5] == 'a' && s[6] == 'l' && s[7] == 'l' {
                26
            } else if s.len() >= 10 && s[2] == 'c' && s[3] == 'u' && s[4] == 's' && s[5] == '-' && s[6] == 'p' && s[7] == 'a' && s[8] == 'n' && s[9] == 'e' {
                61
            } else {
                -1
            }
        } else if s.len() >= 9 && s[1] == 'e' && s[2] == 'e' && s[3] == 'd' && s[4] == '-' && s[5] == 'k' && s[6] == 'e' && s[7] == 'y' && s[8] == 's' {
            33
        } else if s.len() >= 6 && s[1] == 'l' && s[2] == 'o' && s[3] == 'a' && s[4] == 't' && s[5] == '-' {
            if s.len() == 6 {
                -1
            } else if s.len() >= 12 && s[6] == 's' && s[7] == 'e' && s[8] == 'l' && s[9] == 'e' && s[10] == 'c' && s[11] == 't' {
                if s.len() == 12 {
                    55
                } else if s.len() >= 16 && s[12] == '-' && s[13] == 'r' && s[14] == 'o' && s[15] == 'w' {
                    56
                } else {
                    -1
                }
            } else if s[6] == 'a' {
                if s.len() == 7 {
                    -1
                } else if s.len() >= 12 && s[7] == 'c' && s[8] == 'c' && s[9] == 'e' && s[10] == 'p' && s[11] == 't' {
                    57
                } else if s.len() >= 12 && s[7] == 'n' && s[8] == 's' && s[9] == 'w' && s[10] == 'e' && s[11] == 'r' {
                    58
                } else {
                    -1
                }
            } else if s.len() >= 17 && s[6] == 't' && s[7] == 'o' && s[8] == 'g' && s[9] == 'g' && s[10] == 'l' && s[11] == 'e' && s[12] == '-' && s[13] == 'f' && s[14] == 'o' && s[15] == 'l' && s[16] == 'd' {
                59
            } else {
                -1
            }
        } else {
            -1
        }
    } else if s.len() >= 2 && s[0] == 'u' && s[1] == 'n' {
        if s.len() == 2 {
            -1
        } else if s.len() >= 10 && s[2] == 'f' && s[3] == 'o' && s[4] == 'l' && s[5] == 'd' && s[6] == '-' && s[7] == 'a' && s[8] == 'l' && s[9] == 'l' {
            27
        } else if s.len() >= 4 && s[2] == 'd' && s[3] == 'o' {
            if s.len() == 4 {
                36
            } else if s.len() >= 18 && s[4] == '-' && s[5] == 't' && s[6] == 'o' && s[7] == '-' && s[8] == 'c' && s[9] == 'h' && s[10] == 'e' && s[11] == 'c' && s[12] == 'k' && s[13] == 'p' && s[14] == 'o' && s[15] == 'i' && s[16] == 'n' && s[17] == 't' {
                38
            } else {
                -1
            }
        } else {
            -1
        }
    } else if s.len() >= 5 && s[0] == 'o' && s[1] == 'p' && s[2] == 'e' && s[3] == 'n' && s[4] == '-' {
        if s.len() == 5 {
            -1
        } else if s[5] == 'f' {
            if s.len() == 6 {
                -1
            } else if s.len() >= 9 && s[6] == 'i' && s[7] == 'l' && s[8] == 'e' {
                41
            } else if s.len() >= 10 && s[6] == 'l' && s[7] == 'o' && s[8] == 'a' && s[9] == 't' {
                51
            } else {
                -1
            }
        } else if s[5] == 'a' {
            if s.len() == 6 {
                -1
            } else if s.len() >= 14 && s[6] == 'l' && s[7] == 't' && s[8] == 'e' && s[9] == 'r' && s[10] == 'n' && s[11] == 'a' && s[12] == 't' && s[13] == 'e' {
                42
            } else if s.len() >= 9 && s[6] == 'r' && s[7] == 'c' && s[8] == 'h' {
                167
            } else {
                -1
            }
        } else if s[5] == 'd' {
            if s.len() == 6 {
                -1
            } else if s.len() >= 14 && s[6] == 'i' && s[7] == 's' && s[8] == 'k' && s[9] == '-' && s[10] == 'd' && s[11] == 'i' && s[12] == 'f' && s[13] == 'f' {
                48
            } else if s.len() >= 14 && s[6] == 'a' && s[7] == 's' && s[8] == 'h' && s[9] == 'b' && s[10] == 'o' && s[11] == 'a' && s[12] == 'r' && s[13] == 'd' {
                168
            } else {
                -1
            }
        } else if s[5] == 'p' {
            if s.len() == 6 {
                -1
            } else if s.len() >= 11 && s[6] == 'i' && s[7] == 'c' && s[8] == 'k' && s[9] == 'e' && s[10] == 'r' {
                66
            } else if s.len() >= 11 && s[6] == 'r' && s[7] == 'o' && s[8] == 'm' && s[9] == 'p' && s[10] == 't' {
                73
            } else {
                -1
            }
        } else if s.len() >= 7 && s[5] == 'r' && s[6] == 'e' {
            if s.len() == 7 {
                -1
            } else if s.len() >= 17 && s[7] == 'v' && s[8] == 'i' && s[9] == 'e' && s[10] == 'w' && s[11] == '-' && s[12] == 'b' && s[13] == 'l' && s[14] == 'o' && s[15] == 'c' && s[16] == 'k' {
                90
            } else if s.len() >= 9 && s[7] == 'p' && s[8] == 'l' {
                153
            } else {
                -1
            }
        } else if s[5] == 'h' {
            if s.len() == 6 {
                -1
            } else if s.len() >= 14 && s[6] == 'u' && s[7] == 'n' && s[8] == 'k' && s[9] == '-' && s[10] == 'p' && s[11] == 'e' && s[12] == 'e' && s[13] == 'k' {
                96
            } else if s.len() >= 9 && s[6] == 'e' && s[7] == 'l' && s[8] == 'p' {
                166
            } else {
                -1
            }
        } else if s.len() >= 10 && s[5] == 'i' && s[6] == 'n' && s[7] == 'b' && s[8] == 'o' && s[9] == 'x' {
            if s.len() == 10 {
                97
            } else if s.len() >= 15 && s[10] == '-' && s[11] == 'i' && s[12] == 't' && s[13] == 'e' && s[14] == 'm' {
                98
            } else {
                -1
            }
        } else if s.len() >= 13 && s[5] == 't' && s[6] == 'i' && s[7] == 'm' && s[8] == 'e' && s[9] == 'l' && s[10] == 'i' && s[11] == 'n' && s[12] == 'e' {
            145
        } else if s.len() >= 18 && s[5] == 'o' && s[6] == 'p' && s[7] == 'e' && s[8] == 'r' && s[9] == 'a' && s[10] == 't' && s[11] == 'i' && s[12] == 'o' && s[13] == 'n' && s[14] == '-' && s[15] == 'l' && s[16] == 'o' && s[17] == 'g' {
            147
        } else {
            -1
        }
    } else if s.len() >= 3 && s[0] == 'n' && s[1] == 'o' && s[2] == 't' {
        if s.len() == 3 {
            -1
        } else if s.len() >= 16 && s[3] == 'e' && s[4] == '-' && s[5] == 'd' && s[6] == 'i' && s[7] == 's' && s[8] == 'k' && s[9] == '-' && s[10] == 'c' && s[11] == 'h' && s[12] == 'a' && s[13] == 'n' && s[14] == 'g' && s[15] == 'e' {
            47
        } else if s.len() >= 6 && s[3] == 'i' && s[4] == 'f' && s[5] == 'y' {
            99
        } else {
            -1
        }
    } else if s.len() >= 16 && s[0] == 'b' && s[1] == 'r' && s[2] == 'o' && s[3] == 'a' && s[4] == 'd' && s[5] == 'c' && s[6] == 'a' && s[7] == 's' && s[8] == 't' && s[9] == '-' && s[10] == 't' && s[11] == 'h' && s[12] == 'r' && s[13] == 'e' && s[14] == 'a' && s[15] == 'd' {
        88
    } else if s.len() >= 17 && s[0] == 'l' && s[1] == 'o' && s[2] == 'a' && s[3] == 'd' && s[4] == '-' && s[5] == 'r' && s[6] == 'u' && s[7] == 'n' && s[8] == 't' && s[9] == 'i' && s[10] == 'm' && s[11] == 'e' && s[12] == '-' && s[13] == 'f' && s[14] == 'i' && s[15] == 'l' && s[16] == 'e' {
        151
    } else if s.len() >= 4 && s[0] == 'q' && s[1] == 'u' && s[2] == 'i' && s[3] == 't' {
        164
    } else {
        -1
    }
}

/// Each action name reads back as its own place, so no two capabilities
/// share a name.
#[verifier::spinoff_prover]
#[verifier::rlimit(100)]
pub proof fn lemma_action_names()
    ensures
        action_name_index("insert"@) == 0,
        action_name_index("delete"@) == 1,
        action_name_index("replace"@) == 2,
        action_name_index("apply-edits"@) == 3,
        action_name_index("yank"@) == 4,
        action_name_index("paste"@) == 5,
        action_name_index("set-register"@) == 6,
        action_name_index("indent"@) == 7,
        action_name_index("insert-indent"@) == 8,
        action_name_index("join-lines"@) == 9,
        action_name_index("set-case"@) == 10,
        action_name_index("toggle-comment"@) == 11,
        action_name_index("align-columns"@) == 12,
        action_name_index("move-cursor"@) == 13,
        action_name_index("set-cursor"@) == 14,
        action_name_index("select-range"@) == 15,
        action_name_index("select-object"@) == 16,
        action_name_index("extend-selection"@) == 17,
        action_name_index("clear-selection"@) == 18,
        action_name_index("goto-sequence"@) == 19,
        action_name_index("goto-location"@) == 20,
        action_name_index("goto-anchor"@) == 21,
        action_name_index("jump"@) == 22,
        action_name_index("scroll"@) == 23,
        action_name_index("set-soft-wrap"@) == 24,
        action_name_index("set-fold"@) == 25,
        action_name_index("fold-all"@) == 26,
        action_name_index("unfold-all"@) == 27,
        action_name_index("set-virtual-text-visible"@) == 28,
        action_name_index("set-mode"@) == 29,
        action_name_index("set-count"@) == 30,
        action_name_index("select-register"@) == 31,
        action_name_index("cancel-pending"@) == 32,
        action_name_index("feed-keys"@) == 33,
        action_name_index("repeat-last"@) == 34,
        action_name_index("set-macro-recording"@) == 35,
        action_name_index("undo"@) == 36,
        action_name_index("redo"@) == 37,
        action_name_index("undo-to-checkpoint"@) == 38,
        action_name_index("commit-undo-group"@) == 39,
        action_name_index("compact-history"@) == 40,
        action_name_index("open-file"@) == 41,
        action_name_index("open-alternate"@) == 42,
        action_name_index("save-buffer"@) == 43,
        action_name_index("save-all"@) == 44,
        action_name_index("close-buffer"@) == 45,
        action_name_index("reload-from-disk"@) == 46,
        action_name_index("note-disk-change"@) == 47,
        action_name_index("open-disk-diff"@) == 48,
        action_name_index("resolve-disk-diff"@) == 49,
        action_name_index("set-file-watch"@) == 50,
        action_name_index("open-float"@) == 51,
        action_name_index("close-float"@) == 52,
        action_name_index("close-all-floats"@) == 53,
        action_name_index("define-float-surface"@) == 54,
        action_name_index("float-select"@) == 55,
        action_name_index("float-select-row"@) == 56,
        action_name_index("float-accept"@) == 57,
        action_name_index("float-answer"@) == 58,
        action_name_index("float-toggle-fold"@) == 59,
        action_name_index("split-pane"@) == 60,
        action_name_index("focus-pane"@) == 61,
        action_name_index("close-pane"@) == 62,
        action_name_index("resize-pane"@) == 63,
        action_name_index("set-pane-content"@) == 64,
        action_name_index("create-pane-from-view"@) == 65,
        action_name_index("open-picker"@) == 66,
        action_name_index("set-picker-query"@) == 67,
        action_name_index("cycle-picker-source"@) == 68,
        action_name_index("picker-accept"@) == 69,
        action_name_index("toggle-picker-preview"@) == 70,
        action_name_index("define-picker-source"@) == 71,
        action_name_index("invalidate-picker-source"@) == 72,
        action_name_index("open-prompt"@) == 73,
        action_name_index("set-prompt-text"@) == 74,
        action_name_index("submit-prompt"@) == 75,
        action_name_index("cancel-prompt"@) == 76,
        action_name_index("prompt-history"@) == 77,
        action_name_index("mark-seen"@) == 78,
        action_name_index("mark-unseen"@) == 79,
        action_name_index("declare-regions"@) == 80,
        action_name_index("place-anchor"@) == 81,
        action_name_index("reanchor"@) == 82,
        action_name_index("drop-regions"@) == 83,
        action_name_index("start-thread"@) == 84,
        action_name_index("reply-to-thread"@) == 85,
        action_name_index("resolve-thread"@) == 86,
        action_name_index("delete-thread"@) == 87,
        action_name_index("broadcast-thread"@) == 88,
        action_name_index("declare-review-block"@) == 89,
        action_name_index("open-review-block"@) == 90,
        action_name_index("set-diff-mode"@) == 91,
        action_name_index("expand-diff-context"@) == 92,
        action_name_index("set-diff-grouping"@) == 93,
        action_name_index("annotate-group"@) == 94,
        action_name_index("revert-hunk"@) == 95,
        action_name_index("open-hunk-peek"@) == 96,
        action_name_index("open-inbox"@) == 97,
        action_name_index("open-inbox-item"@) == 98,
        action_name_index("notify"@) == 99,
        action_name_index("enqueue-ask"@) == 100,
        action_name_index("answer-ask"@) == 101,
        action_name_index("defer-ask"@) == 102,
        action_name_index("request-permission"@) == 103,
        action_name_index("grant-permission"@) == 104,
        action_name_index("deny-permission"@) == 105,
        action_name_index("start-session"@) == 106,
        action_name_index("discover-sessions"@) == 107,
        action_name_index("adopt-session"@) == 108,
        action_name_index("attach-session"@) == 109,
        action_name_index("reattach-session"@) == 110,
        action_name_index("detach-session"@) == 111,
        action_name_index("end-session"@) == 112,
        action_name_index("send-message"@) == 113,
        action_name_index("interrupt-session"@) == 114,
        action_name_index("steer-session"@) == 115,
        action_name_index("resume-session"@) == 116,
        action_name_index("abort-turn"@) == 117,
        action_name_index("turn-began"@) == 118,
        action_name_index("turn-ended"@) == 119,
        action_name_index("session-prose"@) == 120,
        action_name_index("tool-call-started"@) == 121,
        action_name_index("tool-call-progress"@) == 122,
        action_name_index("tool-call-completed"@) == 123,
        action_name_index("session-seam"@) == 124,
        action_name_index("place-watch"@) == 125,
        action_name_index("remove-watch"@) == 126,
        action_name_index("set-watch-visible"@) == 127,
        action_name_index("push-watch-values"@) == 128,
        action_name_index("clear-watch-values"@) == 129,
        action_name_index("request-completion"@) == 130,
        action_name_index("move-completion"@) == 131,
        action_name_index("accept-completion"@) == 132,
        action_name_index("cancel-completion"@) == 133,
        action_name_index("request-hover"@) == 134,
        action_name_index("request-signature-help"@) == 135,
        action_name_index("request-definition"@) == 136,
        action_name_index("request-references"@) == 137,
        action_name_index("ingest-completions"@) == 138,
        action_name_index("ingest-signature-help"@) == 139,
        action_name_index("ingest-hover"@) == 140,
        action_name_index("ingest-diagnostics"@) == 141,
        action_name_index("apply-workspace-edit"@) == 142,
        action_name_index("restart-language-server"@) == 143,
        action_name_index("refresh-vcs"@) == 144,
        action_name_index("open-timeline"@) == 145,
        action_name_index("show-change-diff"@) == 146,
        action_name_index("open-operation-log"@) == 147,
        action_name_index("edit-at-change"@) == 148,
        action_name_index("restore-change"@) == 149,
        action_name_index("eval"@) == 150,
        action_name_index("load-runtime-file"@) == 151,
        action_name_index("reload-runtime"@) == 152,
        action_name_index("open-repl"@) == 153,
        action_name_index("close-repl"@) == 154,
        action_name_index("repl-history"@) == 155,
        action_name_index("repl-to-buffer"@) == 156,
        action_name_index("persist-form"@) == 157,
        action_name_index("set-keybinding"@) == 158,
        action_name_index("remove-keybinding"@) == 159,
        action_name_index("define-language"@) == 160,
        action_name_index("set-option"@) == 161,
        action_name_index("set-theme"@) == 162,
        action_name_index("reload-theme"@) == 163,
        action_name_index("quit"@) == 164,
        action_name_index("show-unknown-key-hint"@) == 165,
        action_name_index("open-help"@) == 166,
        action_name_index("open-arch"@) == 167,
        action_name_index("open-dashboard"@) == 168,
        action_name_index("dismiss-dashboard-hint"@) == 169,
{
    reveal(action_name_index);
    reveal_strlit("insert");
    reveal_strlit("delete");
    reveal_strlit("replace");
    reveal_strlit("apply-edits");
    reveal_strlit("yank");
    reveal_strlit("paste");
    reveal_strlit("set-register");
    reveal_strlit("indent");
    reveal_strlit("insert-indent");
    reveal_strlit("join-lines");
    reveal_strlit("set-case");
    reveal_strlit("toggle-comment");
    reveal_strlit("align-columns");
    reveal_strlit("move-cursor");
    reveal_strlit("set-cursor");
    reveal_strlit("select-range");
    reveal_strlit("select-object");
    reveal_strlit("extend-selection");
    reveal_strlit("clear-selection");
    reveal_strlit("goto-sequence");
    reveal_strlit("goto-location");
    reveal_strlit("goto-anchor");
    reveal_strlit("jump");
    reveal_strlit("scroll");
    reveal_strlit("set-soft-wrap");
    reveal_strlit("set-fold");
    reveal_strlit("fold-all");
    reveal_strlit("unfold-all");
    reveal_strlit("set-virtual-text-visible");
    reveal_strlit("set-mode");
    reveal_strlit("set-count");
    reveal_strlit("select-register");
    reveal_strlit("cancel-pending");
    reveal_strlit("feed-keys");
    reveal_strlit("repeat-last");
    reveal_strlit("set-macro-recording");
    reveal_strlit("undo");
    reveal_strlit("redo");
    reveal_strlit("undo-to-checkpoint");
    reveal_strlit("commit-undo-group");
    reveal_strlit("compact-history");
    reveal_strlit("open-file");
    reveal_strlit("open-alternate");
    reveal_strlit("save-buffer");
    reveal_strlit("save-all");
    reveal_strlit("close-buffer");
    reveal_strlit("reload-from-disk");
    reveal_strlit("note-disk-change");
    reveal_strlit("open-disk-diff");
    reveal_strlit("resolve-disk-diff");
    reveal_strlit("set-file-watch");
    reveal_strlit("open-float");
    reveal_strlit("close-float");
    reveal_strlit("close-all-floats");
    reveal_strlit("define-float-surface");
    reveal_strlit("float-select");
    reveal_strlit("float-select-row");
    reveal_strlit("float-accept");
    reveal_strlit("float-answer");
    reveal_strlit("float-toggle-fold");
    reveal_strlit("split-pane");
    reveal_strlit("focus-pane");
    reveal_strlit("close-pane");
    reveal_strlit("resize-pane");
    reveal_strlit("set-pane-content");
    reveal_strlit("create-pane-from-view");
    reveal_strlit("open-picker");
    reveal_strlit("set-picker-query");
    reveal_strlit("cycle-picker-source");
    reveal_strlit("picker-accept");
    reveal_strlit("toggle-picker-preview");
    reveal_strlit("define-picker-source");
    reveal_strlit("invalidate-picker-source");
    reveal_strlit("open-prompt");
    reveal_strlit("set-prompt-text");
    reveal_strlit("submit-prompt");
    reveal_strlit("cancel-prompt");
    reveal_strlit("prompt-history");
    reveal_strlit("mark-seen");
    reveal_strlit("mark-unseen");
    reveal_strlit("declare-regions");
    reveal_strlit("place-anchor");
    reveal_strlit("reanchor");
    reveal_strlit("drop-regions");
    reveal_strlit("start-thread");
    reveal_strlit("reply-to-thread");
    reveal_strlit("resolve-thread");
    reveal_strlit("delete-thread");
    reveal_strlit("broadcast-thread");
    reveal_strlit("declare-review-block");
    reveal_strlit("open-review-block");
    reveal_strlit("set-diff-mode");
    reveal_strlit("expand-diff-context");
    reveal_strlit("set-diff-grouping");
    reveal_strlit("annotate-group");
    reveal_strlit("revert-hunk");
    reveal_strlit("open-hunk-peek");
    reveal_strlit("open-inbox");
    reveal_strlit("open-inbox-item");
    reveal_strlit("notify");
    reveal_strlit("enqueue-ask");
    reveal_strlit("answer-ask");
    reveal_strlit("defer-ask");
    reveal_strlit("request-permission");
    reveal_strlit("grant-permission");
    reveal_strlit("deny-permission");
    reveal_strlit("start-session");
    reveal_strlit("discover-sessions");
    reveal_strlit("adopt-session");
    reveal_strlit("attach-session");
    reveal_strlit("reattach-session");
    reveal_strlit("detach-session");
    reveal_strlit("end-session");
    reveal_strlit("send-message");
    reveal_strlit("interrupt-session");
    reveal_strlit("steer-session");
    reveal_strlit("resume-session");
    reveal_strlit("abort-turn");
    reveal_strlit("turn-began");
    reveal_strlit("turn-ended");
    reveal_strlit("session-prose");
    reveal_strlit("tool-call-started");
    reveal_strlit("tool-call-progress");
    reveal_strlit("tool-call-completed");
    reveal_strlit("session-seam");
    reveal_strlit("place-watch");
    reveal_strlit("remove-watch");
    reveal_strlit("set-watch-visible");
    reveal_strlit("push-watch-values");
    reveal_strlit("clear-watch-values");
    reveal_strlit("request-completion");
    reveal_strlit("move-completion");
    reveal_strlit("accept-completion");
    reveal_strlit("cancel-completion");
    reveal_strlit("request-hover");
    reveal_strlit("request-signature-help");
    reveal_strlit("request-definition");
    reveal_strlit("request-references");
    reveal_strlit("ingest-completions");
    reveal_strlit("ingest-signature-help");
    reveal_strlit("ingest-hover");
    reveal_strlit("ingest-diagnostics");
    reveal_strlit("apply-workspace-edit");
    reveal_strlit("restart-language-server");
    reveal_strlit("refresh-vcs");
    reveal_strlit("open-timeline");
    reveal_strlit("show-change-diff");
    reveal_strlit("open-operation-log");
    reveal_strlit("edit-at-change");
    reveal_strlit("restore-change");
    reveal_strlit("eval");
    reveal_strlit("load-runtime-file");
    reveal_strlit("reload-runtime");
    reveal_strlit("open-repl");
    reveal_strlit("close-repl");
    reveal_strlit("repl-history");
    reveal_strlit("repl-to-buffer");
    reveal_strlit("persist-form");
    reveal_strlit("set-keybinding");
    reveal_strlit("remove-keybinding");
    reveal_strlit("define-language");
    reveal_strlit("set-option");
    reveal_strlit("set-theme");
    reveal_strlit("reload-theme");
    reveal_strlit("quit");
    reveal_strlit("show-unknown-key-hint");
    reveal_strlit("open-help");
    reveal_strlit("open-arch");
    reveal_strlit("open-dashboard");
    reveal_strlit("dismiss-dashboard-hint");
    assert(action_name_index("insert"@) == 0);
    assert(action_name_index("delete"@) == 1);
    assert(action_name_index("replace"@) == 2);
    assert(action_name_index("apply-edits"@) == 3);
    assert(action_name_index("yank"@) == 4);
    assert(action_name_index("paste"@) == 5);
    assert(action_name_index("set-register"@) == 6);
    assert(action_name_index("indent"@) == 7);
    assert(action_name_index("insert-indent"@) == 8);
    assert(action_name_index("join-lines"@) == 9);
    assert(action_name_index("set-case"@) == 10);
    assert(action_name_index("toggle-comment"@) == 11);
    assert(action_name_index("align-columns"@) == 12);
    assert(action_name_index("move-cursor"@) == 13);
    assert(action_name_index("set-cursor"@) == 14);
    assert(action_name_index("select-range"@) == 15);
    assert(action_name_index("select-object"@) == 16);
    assert(action_name_index("extend-selection"@) == 17);
    assert(action_name_index("clear-selection"@) == 18);
    assert(action_name_index("goto-sequence"@) == 19);
    assert(action_name_index("goto-location"@) == 20);
    assert(action_name_index("goto-anchor"@) == 21);
    assert(action_name_index("jump"@) == 22);
    assert(action_name_index("scroll"@) == 23);
    assert(action_name_index("set-soft-wrap"@) == 24);
    assert(action_name_index("set-fold"@) == 25);
    assert(action_name_index("fold-all"@) == 26);
    assert(action_name_index("unfold-all"@) == 27);
    assert(action_name_index("set-virtual-text-visible"@) == 28);
    assert(action_name_index("set-mode"@) == 29);
    assert(action_name_index("set-count"@) == 30);
    assert(action_name_index("select-register"@) == 31);
    assert(action_name_index("cancel-pending"@) == 32);
    assert(action_name_index("feed-keys"@) == 33);
    assert(action_name_index("repeat-last"@) == 34);
    assert(action_name_index("set-macro-recording"@) == 35);
    assert(action_name_index("undo"@) == 36);
    assert(action_name_index("redo"@) == 37);
    assert(action_name_index("undo-to-checkpoint"@) == 38);
    assert(action_name_index("commit-undo-group"@) == 39);
    assert(action_name_index("compact-history"@) == 40);
    assert(action_name_index("open-file"@) == 41);
    assert(action_name_index("open-alternate"@) == 42);
    assert(action_name_index("save-buffer"@) == 43);
    assert(action_name_index("save-all"@) == 44);
    assert(action_name_index("close-buffer"@) == 45);
    assert(action_name_index("reload-from-disk"@) == 46);
    assert(action_name_index("note-disk-change"@) == 47);
    assert(action_name_index("open-disk-diff"@) == 48);
    assert(action_name_index("resolve-disk-diff"@) == 49);
    assert(action_name_index("set-file-watch"@) == 50);
    assert(action_name_index("open-float"@) == 51);
    assert(action_name_index("close-float"@) == 52);
    assert(action_name_index("close-all-floats"@) == 53);
    assert(action_name_index("define-float-surface"@) == 54);
    assert(action_name_index("float-select"@) == 55);
    assert(action_name_index("float-select-row"@) == 56);
    assert(action_name_index("float-accept"@) == 57);
    assert(action_name_index("float-answer"@) == 58);
    assert(action_name_index("float-toggle-fold"@) == 59);
    assert(action_name_index("split-pane"@) == 60);
    assert(action_name_index("focus-pane"@) == 61);
    assert(action_name_index("close-pane"@) == 62);
    assert(action_name_index("resize-pane"@) == 63);
    assert(action_name_index("set-pane-content"@) == 64);
    assert(action_name_index("create-pane-from-view"@) == 65);
    assert(action_name_index("open-picker"@) == 66);
    assert(action_name_index("set-picker-query"@) == 67);
    assert(action_name_index("cycle-picker-source"@) == 68);
    assert(action_name_index("picker-accept"@) == 69);
    assert(action_name_index("toggle-picker-preview"@) == 70);
    assert(action_name_index("define-picker-source"@) == 71);
    assert(action_name_index("invalidate-picker-source"@) == 72);
    assert(action_name_index("open-prompt"@) == 73);
    assert(action_name_index("set-prompt-text"@) == 74);
    assert(action_name_index("submit-prompt"@) == 75);
    assert(action_name_index("cancel-prompt"@) == 76);
    assert(action_name_index("prompt-history"@) == 77);
    assert(action_name_index("mark-seen"@) == 78);
    assert(action_name_index("mark-unseen"@) == 79);
    assert(action_name_index("declare-regions"@) == 80);
    assert(action_name_index("place-anchor"@) == 81);
    assert(action_name_index("reanchor"@) == 82);
    assert(action_name_index("drop-regions"@) == 83);
    assert(action_name_index("start-thread"@) == 84);
    assert(action_name_index("reply-to-thread"@) == 85);
    assert(action_name_index("resolve-thread"@) == 86);
    assert(action_name_index("delete-thread"@) == 87);
    assert(action_name_index("broadcast-thread"@) == 88);
    assert(action_name_index("declare-review-block"@) == 89);
    assert(action_name_index("open-review-block"@) == 90);
    assert(action_name_index("set-diff-mode"@) == 91);
    assert(action_name_index("expand-diff-context"@) == 92);
    assert(action_name_index("set-diff-grouping"@) == 93);
    assert(action_name_index("annotate-group"@) == 94);
    assert(action_name_index("revert-hunk"@) == 95);
    assert(action_name_index("open-hunk-peek"@) == 96);
    assert(action_name_index("open-inbox"@) == 97);
    assert(action_name_index("open-inbox-item"@) == 98);
    assert(action_name_index("notify"@) == 99);
    assert(action_name_index("enqueue-ask"@) == 100);
    assert(action_name_index("answer-ask"@) == 101);
    assert(action_name_index("defer-ask"@) == 102);
    assert(action_name_index("request-permission"@) == 103);
    assert(action_name_index("grant-permission"@) == 104);
    assert(action_name_index("deny-permission"@) == 105);
    assert(action_name_index("start-session"@) == 106);
    assert(action_name_index("discover-sessions"@) == 107);
    assert(action_name_index("adopt-session"@) == 108);
    assert(action_name_index("attach-session"@) == 109);
    assert(action_name_index("reattach-session"@) == 110);
    assert(action_name_index("detach-session"@) == 111);
    assert(action_name_index("end-session"@) == 112);
    assert(action_name_index("send-message"@) == 113);
    assert(action_name_index("interrupt-session"@) == 114);
    assert(action_name_index("steer-session"@) == 115);
    assert(action_name_index("resume-session"@) == 116);
    assert(action_name_index("abort-turn"@) == 117);
    assert(action_name_index("turn-began"@) == 118);
    assert(action_name_index("turn-ended"@) == 119);
    assert(action_name_index("session-prose"@) == 120);
    assert(action_name_index("tool-call-started"@) == 121);
    assert(action_name_index("tool-call-progress"@) == 122);
    assert(action_name_index("tool-call-completed"@) == 123);
    assert(action_name_index("session-seam"@) == 124);
    assert(action_name_index("place-watch"@) == 125);
    assert(action_name_index("remove-watch"@) == 126);
    assert(action_name_index("set-watch-visible"@) == 127);
    assert(action_name_index("push-watch-values"@) == 128);
    assert(action_name_index("clear-watch-values"@) == 129);
    assert(action_name_index("request-completion"@) == 130);
    assert(action_name_index("move-completion"@) == 131);
    assert(action_name_index("accept-completion"@) == 132);
    assert(action_name_index("cancel-completion"@) == 133);
    assert(action_name_index("request-hover"@) == 134);
    assert(action_name_index("request-signature-help"@) == 135);
    assert(action_name_index("request-definition"@) == 136);
    assert(action_name_index("request-references"@) == 137);
    assert(action_name_index("ingest-completions"@) == 138);
    assert(action_name_index("ingest-signature-help"@) == 139);
    assert(action_name_index("ingest-hover"@) == 140);
    assert(action_name_index("ingest-diagnostics"@) == 141);
    assert(action_name_index("apply-workspace-edit"@) == 142);
    assert(action_name_index("restart-language-server"@) == 143);
    assert(action_name_index("refresh-vcs"@) == 144);
    assert(action_name_index("open-timeline"@) == 145);
    assert(action_name_index("show-change-diff"@) == 146);
    assert(action_name_index("open-operation-log"@) == 147);
    assert(action_name_index("edit-at-change"@) == 148);
    assert(action_name_index("restore-change"@) == 149);
    assert(action_name_index("eval"@) == 150);
    assert(action_name_index("load-runtime-file"@) == 151);
    assert(action_name_index("reload-runtime"@) == 152);
    assert(action_name_index("open-repl"@) == 153);
    assert(action_name_index("close-repl"@) == 154);
    assert(action_name_index("repl-history"@) == 155);
    assert(action_name_index("repl-to-buffer"@) == 156);
    assert(action_name_index("persist-form"@) == 157);
    assert(action_name_index("set-keybinding"@) == 158);
    assert(action_name_index("remove-keybinding"@) == 159);
    assert(action_name_index("define-language"@) == 160);
    assert(action_name_index("set-option"@) == 161);
    assert(action_name_index("set-theme"@) == 162);
    assert(action_name_index("reload-theme"@) == 163);
    assert(action_name_index("quit"@) == 164);
    assert(action_name_index("show-unknown-key-hint"@) == 165);
    assert(action_name_index("open-help"@) == 166);
    assert(action_name_index("open-arch"@) == 167);
    assert(action_name_index("open-dashboard"@) == 168);
    assert(action_name_index("dismiss-dashboard-hint"@) == 169);
}

#[verifier::spinoff_prover]
#[verifier::rlimit(100)]
proof fn lemma_buffer_action_insert_round_trip(at: Position, text: String)
    requires
        spec_action_fits(Action::Buffer(BufferAction::Insert { at, text })),
    ensures
        spec_action_from_call(spec_action_name(Action::Buffer(BufferAction::Insert { at, text })), spec_action_args(Action::Buffer(BufferAction::Insert { at, text }))) == Ok::<Seq<(Seq<char>, ValueV)>, CallErrorV>(spec_action_args(Action::Buffer(BufferAction::Insert { at, text }))),
{
    lemma_action_names();
    reveal_strlit("at");
    reveal_strlit("text");
    let f = seq![("at"@, at.wire()), ("text"@, text.wire())];
    assert forall|i: int, j: int| 0 <= i < j < 2 implies f[i].0 != f[j].0 by {
        if i == 0 && j == 1 {
            assert("at"@[0] != "text"@[0]);
        }
    }
    assert(names_distinct(f));
    lemma_distinct_fields(f);
    assert(f[0].0 == "at"@);
    <Position as Wire>::lemma_wire_round_trip(at);
    assert(f[1].0 == "text"@);
    <String as Wire>::lemma_wire_round_trip(text);
}

#[verifier::spinoff_prover]
#[verifier::rlimit(100)]
proof fn lemma_buffer_action_delete_round_trip(span: Span)
    requires
        spec_action_fits(Action::Buffer(BufferAction::Delete { span })),
    ensures
        spec_action_from_call(spec_action_name(Action::Buffer(BufferAction::Delete { span })), spec_action_args(Action::Buffer(BufferAction::Delete { span }))) == Ok::<Seq<(Seq<char>, ValueV)>, CallErrorV>(spec_action_args(Action::Buffer(BufferAction::Delete { span }))),
{
    lemma_action_names();
    reveal_strlit("span");
    let f = seq![("span"@, span.wire())];
    assert(names_distinct(f));
    lemma_distinct_fields(f);
    assert(f[0].0 == "span"@);
    <Span as Wire>::lemma_wire_round_trip(span);
}

#[verifier::spinoff_prover]
#[verifier::rlimit(100)]
proof fn lemma_buffer_action_replace_round_trip(span: Span, text: String)
    requires
        spec_action_fits(Action::Buffer(BufferAction::Replace { span, text })),
    ensures
        spec_action_from_call(spec_action_name(Action::Buffer(BufferAction::Replace { span, text })), spec_action_args(Action::Buffer(BufferAction::Replace { span, text }))) == Ok::<Seq<(Seq<char>, ValueV)>, CallErrorV>(spec_action_args(Action::Buffer(BufferAction::Replace { span, text }))),
{
    lemma_action_names();
    reveal_strlit("span");
    reveal_strlit("text");
    let f = seq![("span"@, span.wire()), ("text"@, text.wire())];
    assert forall|i: int, j: int| 0 <= i < j < 2 implies f[i].0 != f[j].0 by {
        if i == 0 && j == 1 {
            assert("span"@[0] != "text"@[0]);
        }
    }
    assert(names_distinct(f));
    lemma_distinct_fields(f);
    assert(f[0].0 == "span"@);
    <Span as Wire>::lemma_wire_round_trip(span);
    assert(f[1].0 == "text"@);
    <String as Wire>::lemma_wire_round_trip(text);
}

#[verifier::spinoff_prover]
#[verifier::rlimit(100)]
proof fn lemma_buffer_action_apply_edits_round_trip(edits: Vec<Edit>)
    requires
        spec_action_fits(Action::Buffer(BufferAction::ApplyEdits { edits })),
    ensures
        spec_action_from_call(spec_action_name(Action::Buffer(BufferAction::ApplyEdits { edits })), spec_action_args(Action::Buffer(BufferAction::ApplyEdits { edits }))) == Ok::<Seq<(Seq<char>, ValueV)>, CallErrorV>(spec_action_args(Action::Buffer(BufferAction::ApplyEdits { edits }))),
{
    lemma_action_names();
    reveal_strlit("edits");
    let f = seq![("edits"@, edits.wire())];
    assert(names_distinct(f));
    lemma_distinct_fields(f);
    assert(f[0].0 == "edits"@);
    <Vec<Edit> as Wire>::lemma_wire_round_trip(edits);
}

#[verifier::spinoff_prover]
#[verifier::rlimit(100)]
proof fn lemma_buffer_action_yank_round_trip(target: Target, register: Option<RegisterName>)
    requires
        spec_action_fits(Action::Buffer(BufferAction::Yank { target, register })),
    ensures
        spec_action_from_call(spec_action_name(Action::Buffer(BufferAction::Yank { target, register })), spec_action_args(Action::Buffer(BufferAction::Yank { target, register }))) == Ok::<Seq<(Seq<char>, ValueV)>, CallErrorV>(spec_action_args(Action::Buffer(BufferAction::Yank { target, register }))),
{
    lemma_action_names();
    reveal_strlit("register");
    reveal_strlit("target");
    let f = seq![("target"@, target.wire()), ("register"@, register.wire())];
    assert forall|i: int, j: int| 0 <= i < j < 2 implies f[i].0 != f[j].0 by {
        if i == 0 && j == 1 {
            assert("target"@[0] != "register"@[0]);
        }
    }
    assert(names_distinct(f));
    lemma_distinct_fields(f);
    assert(f[0].0 == "target"@);
    <Target as Wire>::lemma_wire_round_trip(target);
    assert(f[1].0 == "register"@);
    <Option<RegisterName> as Wire>::lemma_wire_round_trip(register);
}

#[verifier::spinoff_prover]
#[verifier::rlimit(100)]
proof fn lemma_buffer_action_paste_round_trip(at: Target, register: Option<RegisterName>, before: bool)
    requires
        spec_action_fits(Action::Buffer(BufferAction::Paste { at, register, before })),
    ensures
        spec_action_from_call(spec_action_name(Action::Buffer(BufferAction::Paste { at, register, before })), spec_action_args(Action::Buffer(BufferAction::Paste { at, register, before }))) == Ok::<Seq<(Seq<char>, ValueV)>, CallErrorV>(spec_action_args(Action::Buffer(BufferAction::Paste { at, register, before }))),
{
    lemma_action_names();
    reveal_strlit("at");
    reveal_strlit("before");
    reveal_strlit("register");
    let f = seq![("at"@, at.wire()), ("register"@, register.wire()), ("before"@, before.wire())];
    assert forall|i: int, j: int| 0 <= i < j < 3 implies f[i].0 != f[j].0 by {
        if i == 0 && j == 1 {
            assert("at"@[0] != "register"@[0]);
        } else if i == 0 && j == 2 {
            assert("at"@[0] != "before"@[0]);
        } else if i == 1 && j == 2 {
            assert("register"@[0] != "before"@[0]);
        }
    }
    assert(names_distinct(f));
    lemma_distinct_fields(f);
    assert(f[0].0 == "at"@);
    <Target as Wire>::lemma_wire_round_trip(at);
    assert(f[1].0 == "register"@);
    <Option<RegisterName> as Wire>::lemma_wire_round_trip(register);
    assert(f[2].0 == "before"@);
    <bool as Wire>::lemma_wire_round_trip(before);
}

#[verifier::spinoff_prover]
#[verifier::rlimit(100)]
proof fn lemma_buffer_action_set_register_round_trip(register: RegisterName, text: String)
    requires
        spec_action_fits(Action::Buffer(BufferAction::SetRegister { register, text })),
    ensures
        spec_action_from_call(spec_action_name(Action::Buffer(BufferAction::SetRegister { register, text })), spec_action_args(Action::Buffer(BufferAction::SetRegister { register, text }))) == Ok::<Seq<(Seq<char>, ValueV)>, CallErrorV>(spec_action_args(Action::Buffer(BufferAction::SetRegister { register, text }))),
{
    lemma_action_names();
    reveal_strlit("register");
    reveal_strlit("text");
    let f = seq![("register"@, register.wire()), ("text"@, text.wire())];
    assert forall|i: int, j: int| 0 <= i < j < 2 implies f[i].0 != f[j].0 by {
        if i == 0 && j == 1 {
            assert("register"@[0] != "text"@[0]);
        }
    }
    assert(names_distinct(f));
    lemma_distinct_fields(f);
    assert(f[0].0 == "register"@);
    <RegisterName as Wire>::lemma_wire_round_trip(register);
    assert(f[1].0 == "text"@);
    <String as Wire>::lemma_wire_round_trip(text);
}

#[verifier::spinoff_prover]
#[verifier::rlimit(100)]
proof fn lemma_buffer_action_indent_round_trip(target: Target, delta: i64)
    requires
        spec_action_fits(Action::Buffer(BufferAction::Indent { target, delta })),
    ensures
        spec_action_from_call(spec_action_name(Action::Buffer(BufferAction::Indent { target, delta })), spec_action_args(Action::Buffer(BufferAction::Indent { target, delta }))) == Ok::<Seq<(Seq<char>, ValueV)>, CallErrorV>(spec_action_args(Action::Buffer(BufferAction::Indent { target, delta }))),
{
    lemma_action_names();
    reveal_strlit("delta");
    reveal_strlit("target");
    let f = seq![("target"@, target.wire()), ("delta"@, delta.wire())];
    assert forall|i: int, j: int| 0 <= i < j < 2 implies f[i].0 != f[j].0 by {
        if i == 0 && j == 1 {
            assert("target"@[0] != "delta"@[0]);
        }
    }
    assert(names_distinct(f));
    lemma_distinct_fields(f);
    assert(f[0].0 == "target"@);
    <Target as Wire>::lemma_wire_round_trip(target);
    assert(f[1].0 == "delta"@);
    <i64 as Wire>::lemma_wire_round_trip(delta);
}

#[verifier::spinoff_prover]
#[verifier::rlimit(100)]
proof fn lemma_buffer_action_insert_indent_round_trip()
    requires
        spec_action_fits(Action::Buffer(BufferAction::InsertIndent {})),
    ensures
        spec_action_from_call(spec_action_name(Action::Buffer(BufferAction::InsertIndent {})), spec_action_args(Action::Buffer(BufferAction::InsertIndent {}))) == Ok::<Seq<(Seq<char>, ValueV)>, CallErrorV>(spec_action_args(Action::Buffer(BufferAction::InsertIndent {}))),
{
    lemma_action_names();
}

#[verifier::spinoff_prover]
#[verifier::rlimit(100)]
proof fn lemma_buffer_action_join_lines_round_trip(target: Target)
    requires
        spec_action_fits(Action::Buffer(BufferAction::JoinLines { target })),
    ensures
        spec_action_from_call(spec_action_name(Action::Buffer(BufferAction::JoinLines { target })), spec_action_args(Action::Buffer(BufferAction::JoinLines { target }))) == Ok::<Seq<(Seq<char>, ValueV)>, CallErrorV>(spec_action_args(Action::Buffer(BufferAction::JoinLines { target }))),
{
    lemma_action_names();
    reveal_strlit("target");
    let f = seq![("target"@, target.wire())];
    assert(names_distinct(f));
    lemma_distinct_fields(f);
    assert(f[0].0 == "target"@);
    <Target as Wire>::lemma_wire_round_trip(target);
}

#[verifier::spinoff_prover]
#[verifier::rlimit(100)]
proof fn lemma_buffer_action_set_case_round_trip(target: Target, case: CaseChange)
    requires
        spec_action_fits(Action::Buffer(BufferAction::SetCase { target, case })),
    ensures
        spec_action_from_call(spec_action_name(Action::Buffer(BufferAction::SetCase { target, case })), spec_action_args(Action::Buffer(BufferAction::SetCase { target, case }))) == Ok::<Seq<(Seq<char>, ValueV)>, CallErrorV>(spec_action_args(Action::Buffer(BufferAction::SetCase { target, case }))),
{
    lemma_action_names();
    reveal_strlit("case");
    reveal_strlit("target");
    let f = seq![("target"@, target.wire()), ("case"@, case.wire())];
    assert forall|i: int, j: int| 0 <= i < j < 2 implies f[i].0 != f[j].0 by {
        if i == 0 && j == 1 {
            assert("target"@[0] != "case"@[0]);
        }
    }
    assert(names_distinct(f));
    lemma_distinct_fields(f);
    assert(f[0].0 == "target"@);
    <Target as Wire>::lemma_wire_round_trip(target);
    assert(f[1].0 == "case"@);
    <CaseChange as Wire>::lemma_wire_round_trip(case);
}

#[verifier::spinoff_prover]
#[verifier::rlimit(100)]
proof fn lemma_buffer_action_toggle_comment_round_trip(target: Target)
    requires
        spec_action_fits(Action::Buffer(BufferAction::ToggleComment { target })),
    ensures
        spec_action_from_call(spec_action_name(Action::Buffer(BufferAction::ToggleComment { target })), spec_action_args(Action::Buffer(BufferAction::ToggleComment { target }))) == Ok::<Seq<(Seq<char>, ValueV)>, CallErrorV>(spec_action_args(Action::Buffer(BufferAction::ToggleComment { target }))),
{
    lemma_action_names();
    reveal_strlit("target");
    let f = seq![("target"@, target.wire())];
    assert(names_distinct(f));
    lemma_distinct_fields(f);
    assert(f[0].0 == "target"@);
    <Target as Wire>::lemma_wire_round_trip(target);
}

#[verifier::spinoff_prover]
#[verifier::rlimit(100)]
proof fn lemma_buffer_action_align_columns_round_trip(target: Target)
    requires
        spec_action_fits(Action::Buffer(BufferAction::AlignColumns { target })),
    ensures
        spec_action_from_call(spec_action_name(Action::Buffer(BufferAction::AlignColumns { target })), spec_action_args(Action::Buffer(BufferAction::AlignColumns { target }))) == Ok::<Seq<(Seq<char>, ValueV)>, CallErrorV>(spec_action_args(Action::Buffer(BufferAction::AlignColumns { target }))),
{
    lemma_action_names();
    reveal_strlit("target");
    let f = seq![("target"@, target.wire())];
    assert(names_distinct(f));
    lemma_distinct_fields(f);
    assert(f[0].0 == "target"@);
    <Target as Wire>::lemma_wire_round_trip(target);
}

proof fn lemma_buffer_action_round_trip(x: BufferAction)
    requires
        spec_action_fits(Action::Buffer(x)),
    ensures
        spec_action_from_call(spec_action_name(Action::Buffer(x)), spec_action_args(Action::Buffer(x))) == Ok::<Seq<(Seq<char>, ValueV)>, CallErrorV>(spec_action_args(Action::Buffer(x))),
{
    match x {
        BufferAction::Insert { at, text } => lemma_buffer_action_insert_round_trip(at, text),
        BufferAction::Delete { span } => lemma_buffer_action_delete_round_trip(span),
        BufferAction::Replace { span, text } => lemma_buffer_action_replace_round_trip(span, text),
        BufferAction::ApplyEdits { edits } => lemma_buffer_action_apply_edits_round_trip(edits),
        BufferAction::Yank { target, register } => lemma_buffer_action_yank_round_trip(target, register),
        BufferAction::Paste { at, register, before } => lemma_buffer_action_paste_round_trip(at, register, before),
        BufferAction::SetRegister { register, text } => lemma_buffer_action_set_register_round_trip(register, text),
        BufferAction::Indent { target, delta } => lemma_buffer_action_indent_round_trip(target, delta),
        BufferAction::InsertIndent {} => lemma_buffer_action_insert_indent_round_trip(),
        BufferAction::JoinLines { target } => lemma_buffer_action_join_lines_round_trip(target),
        BufferAction::SetCase { target, case } => lemma_buffer_action_set_case_round_trip(target, case),
        BufferAction::ToggleComment { target } => lemma_buffer_action_toggle_comment_round_trip(target),
        BufferAction::AlignColumns { target } => lemma_buffer_action_align_columns_round_trip(target),
    }
}

#[verifier::spinoff_prover]
#[verifier::rlimit(100)]
proof fn lemma_motion_action_move_cursor_round_trip(motion: Motion, count: u32)
    requires
        spec_action_fits(Action::Motion(MotionAction::MoveCursor { motion, count })),
    ensures
        spec_action_from_call(spec_action_name(Action::Motion(MotionAction::MoveCursor { motion, count })), spec_action_args(Action::Motion(MotionAction::MoveCursor { motion, count }))) == Ok::<Seq<(Seq<char>, ValueV)>, CallErrorV>(spec_action_args(Action::Motion(MotionAction::MoveCursor { motion, count }))),
{
    lemma_action_names();
    reveal_strlit("count");
    reveal_strlit("motion");
    let f = seq![("motion"@, motion.wire()), ("count"@, count.wire())];
    assert forall|i: int, j: int| 0 <= i < j < 2 implies f[i].0 != f[j].0 by {
        if i == 0 && j == 1 {
            assert("motion"@[0] != "count"@[0]);
        }
    }
    assert(names_distinct(f));
    lemma_distinct_fields(f);
    assert(f[0].0 == "motion"@);
    <Motion as Wire>::lemma_wire_round_trip(motion);
    assert(f[1].0 == "count"@);
    <u32 as Wire>::lemma_wire_round_trip(count);
}

#[verifier::spinoff_prover]
#[verifier::rlimit(100)]
proof fn lemma_motion_action_set_cursor_round_trip(position: Position, buffer: Option<BufferId>)
    requires
        spec_action_fits(Action::Motion(MotionAction::SetCursor { position, buffer })),
    ensures
        spec_action_from_call(spec_action_name(Action::Motion(MotionAction::SetCursor { position, buffer })), spec_action_args(Action::Motion(MotionAction::SetCursor { position, buffer }))) == Ok::<Seq<(Seq<char>, ValueV)>, CallErrorV>(spec_action_args(Action::Motion(MotionAction::SetCursor { position, buffer }))),
{
    lemma_action_names();
    reveal_strlit("buffer");
    reveal_strlit("position");
    let f = seq![("position"@, position.wire()), ("buffer"@, buffer.wire())];
    assert forall|i: int, j: int| 0 <= i < j < 2 implies f[i].0 != f[j].0 by {
        if i == 0 && j == 1 {
            assert("position"@[0] != "buffer"@[0]);
        }
    }
    assert(names_distinct(f));
    lemma_distinct_fields(f);
    assert(f[0].0 == "position"@);
    <Position as Wire>::lemma_wire_round_trip(position);
    assert(f[1].0 == "buffer"@);
    <Option<BufferId> as Wire>::lemma_wire_round_trip(buffer);
}

#[verifier::spinoff_prover]
#[verifier::rlimit(100)]
proof fn lemma_motion_action_select_range_round_trip(span: Span, kind: SelectionKind)
    requires
        spec_action_fits(Action::Motion(MotionAction::SelectRange { span, kind })),
    ensures
        spec_action_from_call(spec_action_name(Action::Motion(MotionAction::SelectRange { span, kind })), spec_action_args(Action::Motion(MotionAction::SelectRange { span, kind }))) == Ok::<Seq<(Seq<char>, ValueV)>, CallErrorV>(spec_action_args(Action::Motion(MotionAction::SelectRange { span, kind }))),
{
    lemma_action_names();
    reveal_strlit("kind");
    reveal_strlit("span");
    let f = seq![("span"@, span.wire()), ("kind"@, kind.wire())];
    assert forall|i: int, j: int| 0 <= i < j < 2 implies f[i].0 != f[j].0 by {
        if i == 0 && j == 1 {
            assert("span"@[0] != "kind"@[0]);
        }
    }
    assert(names_distinct(f));
    lemma_distinct_fields(f);
    assert(f[0].0 == "span"@);
    <Span as Wire>::lemma_wire_round_trip(span);
    assert(f[1].0 == "kind"@);
    <SelectionKind as Wire>::lemma_wire_round_trip(kind);
}

#[verifier::spinoff_prover]
#[verifier::rlimit(100)]
proof fn lemma_motion_action_select_object_round_trip(object: TextObject, inner: bool, count: u32, delimiter: Option<char>)
    requires
        spec_action_fits(Action::Motion(MotionAction::SelectObject { object, inner, count, delimiter })),
    ensures
        spec_action_from_call(spec_action_name(Action::Motion(MotionAction::SelectObject { object, inner, count, delimiter })), spec_action_args(Action::Motion(MotionAction::SelectObject { object, inner, count, delimiter }))) == Ok::<Seq<(Seq<char>, ValueV)>, CallErrorV>(spec_action_args(Action::Motion(MotionAction::SelectObject { object, inner, count, delimiter }))),
{
    lemma_action_names();
    reveal_strlit("count");
    reveal_strlit("delimiter");
    reveal_strlit("inner");
    reveal_strlit("object");
    let f = seq![("object"@, object.wire()), ("inner"@, inner.wire()), ("count"@, count.wire()), ("delimiter"@, delimiter.wire())];
    assert forall|i: int, j: int| 0 <= i < j < 4 implies f[i].0 != f[j].0 by {
        if i == 0 && j == 1 {
            assert("object"@[0] != "inner"@[0]);
        } else if i == 0 && j == 2 {
            assert("object"@[0] != "count"@[0]);
        } else if i == 0 && j == 3 {
            assert("object"@[0] != "delimiter"@[0]);
        } else if i == 1 && j == 2 {
            assert("inner"@[0] != "count"@[0]);
        } else if i == 1 && j == 3 {
            assert("inner"@[0] != "delimiter"@[0]);
        } else if i == 2 && j == 3 {
            assert("count"@[0] != "delimiter"@[0]);
        }
    }
    assert(names_distinct(f));
    lemma_distinct_fields(f);
    assert(f[0].0 == "object"@);
    <TextObject as Wire>::lemma_wire_round_trip(object);
    assert(f[1].0 == "inner"@);
    <bool as Wire>::lemma_wire_round_trip(inner);
    assert(f[2].0 == "count"@);
    <u32 as Wire>::lemma_wire_round_trip(count);
    assert(f[3].0 == "delimiter"@);
    <Option<char> as Wire>::lemma_wire_round_trip(delimiter);
}

#[verifier::spinoff_prover]
#[verifier::rlimit(100)]
proof fn lemma_motion_action_extend_selection_round_trip(motion: Motion, count: u32)
    requires
        spec_action_fits(Action::Motion(MotionAction::ExtendSelection { motion, count })),
    ensures
        spec_action_from_call(spec_action_name(Action::Motion(MotionAction::ExtendSelection { motion, count })), spec_action_args(Action::Motion(MotionAction::ExtendSelection { motion, count }))) == Ok::<Seq<(Seq<char>, ValueV)>, CallErrorV>(spec_action_args(Action::Motion(MotionAction::ExtendSelection { motion, count }))),
{
    lemma_action_names();
    reveal_strlit("count");
    reveal_strlit("motion");
    let f = seq![("motion"@, motion.wire()), ("count"@, count.wire())];
    assert forall|i: int, j: int| 0 <= i < j < 2 implies f[i].0 != f[j].0 by {
        if i == 0 && j == 1 {
            assert("motion"@[0] != "count"@[0]);
        }
    }
    assert(names_distinct(f));
    lemma_distinct_fields(f);
    assert(f[0].0 == "motion"@);
    <Motion as Wire>::lemma_wire_round_trip(motion);
    assert(f[1].0 == "count"@);
    <u32 as Wire>::lemma_wire_round_trip(count);
}

#[verifier::spinoff_prover]
#[verifier::rlimit(100)]
proof fn lemma_motion_action_clear_selection_round_trip()
    requires
        spec_action_fits(Action::Motion(MotionAction::ClearSelection {})),
    ensures
        spec_action_from_call(spec_action_name(Action::Motion(MotionAction::ClearSelection {})), spec_action_args(Action::Motion(MotionAction::ClearSelection {}))) == Ok::<Seq<(Seq<char>, ValueV)>, CallErrorV>(spec_action_args(Action::Motion(MotionAction::ClearSelection {}))),
{
    lemma_action_names();
}

#[verifier::spinoff_prover]
#[verifier::rlimit(100)]
proof fn lemma_motion_action_goto_sequence_round_trip(sequence: Sequence, seek: Seek, filter: Option<RegionFilter>)
    requires
        spec_action_fits(Action::Motion(MotionAction::GotoSequence { sequence, seek, filter })),
    ensures
        spec_action_from_call(spec_action_name(Action::Motion(MotionAction::GotoSequence { sequence, seek, filter })), spec_action_args(Action::Motion(MotionAction::GotoSequence { sequence, seek, filter }))) == Ok::<Seq<(Seq<char>, ValueV)>, CallErrorV>(spec_action_args(Action::Motion(MotionAction::GotoSequence { sequence, seek, filter }))),
{
    lemma_action_names();
    reveal_strlit("filter");
    reveal_strlit("seek");
    reveal_strlit("sequence");
    let f = seq![("sequence"@, sequence.wire()), ("seek"@, seek.wire()), ("filter"@, filter.wire())];
    assert forall|i: int, j: int| 0 <= i < j < 3 implies f[i].0 != f[j].0 by {
        if i == 0 && j == 1 {
            assert("sequence"@[2] != "seek"@[2]);
        } else if i == 0 && j == 2 {
            assert("sequence"@[0] != "filter"@[0]);
        } else if i == 1 && j == 2 {
            assert("seek"@[0] != "filter"@[0]);
        }
    }
    assert(names_distinct(f));
    lemma_distinct_fields(f);
    assert(f[0].0 == "sequence"@);
    <Sequence as Wire>::lemma_wire_round_trip(sequence);
    assert(f[1].0 == "seek"@);
    <Seek as Wire>::lemma_wire_round_trip(seek);
    assert(f[2].0 == "filter"@);
    <Option<RegionFilter> as Wire>::lemma_wire_round_trip(filter);
}

#[verifier::spinoff_prover]
#[verifier::rlimit(100)]
proof fn lemma_motion_action_goto_location_round_trip(path: String, position: Option<Position>, pane: PaneRef)
    requires
        spec_action_fits(Action::Motion(MotionAction::GotoLocation { path, position, pane })),
    ensures
        spec_action_from_call(spec_action_name(Action::Motion(MotionAction::GotoLocation { path, position, pane })), spec_action_args(Action::Motion(MotionAction::GotoLocation { path, position, pane }))) == Ok::<Seq<(Seq<char>, ValueV)>, CallErrorV>(spec_action_args(Action::Motion(MotionAction::GotoLocation { path, position, pane }))),
{
    lemma_action_names();
    reveal_strlit("pane");
    reveal_strlit("path");
    reveal_strlit("position");
    let f = seq![("path"@, path.wire()), ("position"@, position.wire()), ("pane"@, pane.wire())];
    assert forall|i: int, j: int| 0 <= i < j < 3 implies f[i].0 != f[j].0 by {
        if i == 0 && j == 1 {
            assert("path"@[1] != "position"@[1]);
        } else if i == 0 && j == 2 {
            assert("path"@[2] != "pane"@[2]);
        } else if i == 1 && j == 2 {
            assert("position"@[1] != "pane"@[1]);
        }
    }
    assert(names_distinct(f));
    lemma_distinct_fields(f);
    assert(f[0].0 == "path"@);
    <String as Wire>::lemma_wire_round_trip(path);
    assert(f[1].0 == "position"@);
    <Option<Position> as Wire>::lemma_wire_round_trip(position);
    assert(f[2].0 == "pane"@);
    <PaneRef as Wire>::lemma_wire_round_trip(pane);
}

#[verifier::spinoff_prover]
#[verifier::rlimit(100)]
proof fn lemma_motion_action_goto_anchor_round_trip(anchor: Option<AnchorId>, label: Option<String>, exact: bool)
    requires
        spec_action_fits(Action::Motion(MotionAction::GotoAnchor { anchor, label, exact })),
    ensures
        spec_action_from_call(spec_action_name(Action::Motion(MotionAction::GotoAnchor { anchor, label, exact })), spec_action_args(Action::Motion(MotionAction::GotoAnchor { anchor, label, exact }))) == Ok::<Seq<(Seq<char>, ValueV)>, CallErrorV>(spec_action_args(Action::Motion(MotionAction::GotoAnchor { anchor, label, exact }))),
{
    lemma_action_names();
    reveal_strlit("anchor");
    reveal_strlit("exact");
    reveal_strlit("label");
    let f = seq![("anchor"@, anchor.wire()), ("label"@, label.wire()), ("exact"@, exact.wire())];
    assert forall|i: int, j: int| 0 <= i < j < 3 implies f[i].0 != f[j].0 by {
        if i == 0 && j == 1 {
            assert("anchor"@[0] != "label"@[0]);
        } else if i == 0 && j == 2 {
            assert("anchor"@[0] != "exact"@[0]);
        } else if i == 1 && j == 2 {
            assert("label"@[0] != "exact"@[0]);
        }
    }
    assert(names_distinct(f));
    lemma_distinct_fields(f);
    assert(f[0].0 == "anchor"@);
    <Option<AnchorId> as Wire>::lemma_wire_round_trip(anchor);
    assert(f[1].0 == "label"@);
    <Option<String> as Wire>::lemma_wire_round_trip(label);
    assert(f[2].0 == "exact"@);
    <bool as Wire>::lemma_wire_round_trip(exact);
}

#[verifier::spinoff_prover]
#[verifier::rlimit(100)]
proof fn lemma_motion_action_jump_round_trip(seek: Seek)
    requires
        spec_action_fits(Action::Motion(MotionAction::Jump { seek })),
    ensures
        spec_action_from_call(spec_action_name(Action::Motion(MotionAction::Jump { seek })), spec_action_args(Action::Motion(MotionAction::Jump { seek }))) == Ok::<Seq<(Seq<char>, ValueV)>, CallErrorV>(spec_action_args(Action::Motion(MotionAction::Jump { seek }))),
{
    lemma_action_names();
    reveal_strlit("seek");
    let f = seq![("seek"@, seek.wire())];
    assert(names_distinct(f));
    lemma_distinct_fields(f);
    assert(f[0].0 == "seek"@);
    <Seek as Wire>::lemma_wire_round_trip(seek);
}

proof fn lemma_motion_action_round_trip(x: MotionAction)
    requires
        spec_action_fits(Action::Motion(x)),
    ensures
        spec_action_from_call(spec_action_name(Action::Motion(x)), spec_action_args(Action::Motion(x))) == Ok::<Seq<(Seq<char>, ValueV)>, CallErrorV>(spec_action_args(Action::Motion(x))),
{
    match x {
        MotionAction::MoveCursor { motion, count } => lemma_motion_action_move_cursor_round_trip(motion, count),
        MotionAction::SetCursor { position, buffer } => lemma_motion_action_set_cursor_round_trip(position, buffer),
        MotionAction::SelectRange { span, kind } => lemma_motion_action_select_range_round_trip(span, kind),
        MotionAction::SelectObject { object, inner, count, delimiter } => lemma_motion_action_select_object_round_trip(object, inner, count, delimiter),
        MotionAction::ExtendSelection { motion, count } => lemma_motion_action_extend_selection_round_trip(motion, count),
        MotionAction::ClearSelection {} => lemma_motion_action_clear_selection_round_trip(),
        MotionAction::GotoSequence { sequence, seek, filter } => lemma_motion_action_goto_sequence_round_trip(sequence, seek, filter),
        MotionAction::GotoLocation { path, position, pane } => lemma_motion_action_goto_location_round_trip(path, position, pane),
        MotionAction::GotoAnchor { anchor, label, exact } => lemma_motion_action_goto_anchor_round_trip(anchor, label, exact),
        MotionAction::Jump { seek } => lemma_motion_action_jump_round_trip(seek),
    }
}

#[verifier::spinoff_prover]
#[verifier::rlimit(100)]
proof fn lemma_view_action_scroll_round_trip(request: ScrollRequest, pane: PaneRef)
    requires
        spec_action_fits(Action::View(ViewAction::Scroll { request, pane })),
    ensures
        spec_action_from_call(spec_action_name(Action::View(ViewAction::Scroll { request, pane })), spec_action_args(Action::View(ViewAction::Scroll { request, pane }))) == Ok::<Seq<(Seq<char>, ValueV)>, CallErrorV>(spec_action_args(Action::View(ViewAction::Scroll { request, pane }))),
{
    lemma_action_names();
    reveal_strlit("pane");
    reveal_strlit("request");
    let f = seq![("request"@, request.wire()), ("pane"@, pane.wire())];
    assert forall|i: int, j: int| 0 <= i < j < 2 implies f[i].0 != f[j].0 by {
        if i == 0 && j == 1 {
            assert("request"@[0] != "pane"@[0]);
        }
    }
    assert(names_distinct(f));
    lemma_distinct_fields(f);
    assert(f[0].0 == "request"@);
    <ScrollRequest as Wire>::lemma_wire_round_trip(request);
    assert(f[1].0 == "pane"@);
    <PaneRef as Wire>::lemma_wire_round_trip(pane);
}

#[verifier::spinoff_prover]
#[verifier::rlimit(100)]
proof fn lemma_view_action_set_soft_wrap_round_trip(target: Target, on: bool)
    requires
        spec_action_fits(Action::View(ViewAction::SetSoftWrap { target, on })),
    ensures
        spec_action_from_call(spec_action_name(Action::View(ViewAction::SetSoftWrap { target, on })), spec_action_args(Action::View(ViewAction::SetSoftWrap { target, on }))) == Ok::<Seq<(Seq<char>, ValueV)>, CallErrorV>(spec_action_args(Action::View(ViewAction::SetSoftWrap { target, on }))),
{
    lemma_action_names();
    reveal_strlit("on");
    reveal_strlit("target");
    let f = seq![("target"@, target.wire()), ("on"@, on.wire())];
    assert forall|i: int, j: int| 0 <= i < j < 2 implies f[i].0 != f[j].0 by {
        if i == 0 && j == 1 {
            assert("target"@[0] != "on"@[0]);
        }
    }
    assert(names_distinct(f));
    lemma_distinct_fields(f);
    assert(f[0].0 == "target"@);
    <Target as Wire>::lemma_wire_round_trip(target);
    assert(f[1].0 == "on"@);
    <bool as Wire>::lemma_wire_round_trip(on);
}

#[verifier::spinoff_prover]
#[verifier::rlimit(100)]
proof fn lemma_view_action_set_fold_round_trip(target: Target, state: FoldState)
    requires
        spec_action_fits(Action::View(ViewAction::SetFold { target, state })),
    ensures
        spec_action_from_call(spec_action_name(Action::View(ViewAction::SetFold { target, state })), spec_action_args(Action::View(ViewAction::SetFold { target, state }))) == Ok::<Seq<(Seq<char>, ValueV)>, CallErrorV>(spec_action_args(Action::View(ViewAction::SetFold { target, state }))),
{
    lemma_action_names();
    reveal_strlit("state");
    reveal_strlit("target");
    let f = seq![("target"@, target.wire()), ("state"@, state.wire())];
    assert forall|i: int, j: int| 0 <= i < j < 2 implies f[i].0 != f[j].0 by {
        if i == 0 && j == 1 {
            assert("target"@[0] != "state"@[0]);
        }
    }
    assert(names_distinct(f));
    lemma_distinct_fields(f);
    assert(f[0].0 == "target"@);
    <Target as Wire>::lemma_wire_round_trip(target);
    assert(f[1].0 == "state"@);
    <FoldState as Wire>::lemma_wire_round_trip(state);
}

#[verifier::spinoff_prover]
#[verifier::rlimit(100)]
proof fn lemma_view_action_fold_all_round_trip(level: u32)
    requires
        spec_action_fits(Action::View(ViewAction::FoldAll { level })),
    ensures
        spec_action_from_call(spec_action_name(Action::View(ViewAction::FoldAll { level })), spec_action_args(Action::View(ViewAction::FoldAll { level }))) == Ok::<Seq<(Seq<char>, ValueV)>, CallErrorV>(spec_action_args(Action::View(ViewAction::FoldAll { level }))),
{
    lemma_action_names();
    reveal_strlit("level");
    let f = seq![("level"@, level.wire())];
    assert(names_distinct(f));
    lemma_distinct_fields(f);
    assert(f[0].0 == "level"@);
    <u32 as Wire>::lemma_wire_round_trip(level);
}

#[verifier::spinoff_prover]
#[verifier::rlimit(100)]
proof fn lemma_view_action_unfold_all_round_trip()
    requires
        spec_action_fits(Action::View(ViewAction::UnfoldAll {})),
    ensures
        spec_action_from_call(spec_action_name(Action::View(ViewAction::UnfoldAll {})), spec_action_args(Action::View(ViewAction::UnfoldAll {}))) == Ok::<Seq<(Seq<char>, ValueV)>, CallErrorV>(spec_action_args(Action::View(ViewAction::UnfoldAll {}))),
{
    lemma_action_names();
}

#[verifier::spinoff_prover]
#[verifier::rlimit(100)]
proof fn lemma_view_action_set_virtual_text_visible_round_trip(owner: Target, on: bool)
    requires
        spec_action_fits(Action::View(ViewAction::SetVirtualTextVisible { owner, on })),
    ensures
        spec_action_from_call(spec_action_name(Action::View(ViewAction::SetVirtualTextVisible { owner, on })), spec_action_args(Action::View(ViewAction::SetVirtualTextVisible { owner, on }))) == Ok::<Seq<(Seq<char>, ValueV)>, CallErrorV>(spec_action_args(Action::View(ViewAction::SetVirtualTextVisible { owner, on }))),
{
    lemma_action_names();
    reveal_strlit("on");
    reveal_strlit("owner");
    let f = seq![("owner"@, owner.wire()), ("on"@, on.wire())];
    assert forall|i: int, j: int| 0 <= i < j < 2 implies f[i].0 != f[j].0 by {
        if i == 0 && j == 1 {
            assert("owner"@[1] != "on"@[1]);
        }
    }
    assert(names_distinct(f));
    lemma_distinct_fields(f);
    assert(f[0].0 == "owner"@);
    <Target as Wire>::lemma_wire_round_trip(owner);
    assert(f[1].0 == "on"@);
    <bool as Wire>::lemma_wire_round_trip(on);
}

proof fn lemma_view_action_round_trip(x: ViewAction)
    requires
        spec_action_fits(Action::View(x)),
    ensures
        spec_action_from_call(spec_action_name(Action::View(x)), spec_action_args(Action::View(x))) == Ok::<Seq<(Seq<char>, ValueV)>, CallErrorV>(spec_action_args(Action::View(x))),
{
    match x {
        ViewAction::Scroll { request, pane } => lemma_view_action_scroll_round_trip(request, pane),
        ViewAction::SetSoftWrap { target, on } => lemma_view_action_set_soft_wrap_round_trip(target, on),
        ViewAction::SetFold { target, state } => lemma_view_action_set_fold_round_trip(target, state),
        ViewAction::FoldAll { level } => lemma_view_action_fold_all_round_trip(level),
        ViewAction::UnfoldAll {} => lemma_view_action_unfold_all_round_trip(),
        ViewAction::SetVirtualTextVisible { owner, on } => lemma_view_action_set_virtual_text_visible_round_trip(owner, on),
    }
}

#[verifier::spinoff_prover]
#[verifier::rlimit(100)]
proof fn lemma_input_action_set_mode_round_trip(mode: EditMode)
    requires
        spec_action_fits(Action::Input(InputAction::SetMode { mode })),
    ensures
        spec_action_from_call(spec_action_name(Action::Input(InputAction::SetMode { mode })), spec_action_args(Action::Input(InputAction::SetMode { mode }))) == Ok::<Seq<(Seq<char>, ValueV)>, CallErrorV>(spec_action_args(Action::Input(InputAction::SetMode { mode }))),
{
    lemma_action_names();
    reveal_strlit("mode");
    let f = seq![("mode"@, mode.wire())];
    assert(names_distinct(f));
    lemma_distinct_fields(f);
    assert(f[0].0 == "mode"@);
    <EditMode as Wire>::lemma_wire_round_trip(mode);
}

#[verifier::spinoff_prover]
#[verifier::rlimit(100)]
proof fn lemma_input_action_set_count_round_trip(count: u32)
    requires
        spec_action_fits(Action::Input(InputAction::SetCount { count })),
    ensures
        spec_action_from_call(spec_action_name(Action::Input(InputAction::SetCount { count })), spec_action_args(Action::Input(InputAction::SetCount { count }))) == Ok::<Seq<(Seq<char>, ValueV)>, CallErrorV>(spec_action_args(Action::Input(InputAction::SetCount { count }))),
{
    lemma_action_names();
    reveal_strlit("count");
    let f = seq![("count"@, count.wire())];
    assert(names_distinct(f));
    lemma_distinct_fields(f);
    assert(f[0].0 == "count"@);
    <u32 as Wire>::lemma_wire_round_trip(count);
}

#[verifier::spinoff_prover]
#[verifier::rlimit(100)]
proof fn lemma_input_action_select_register_round_trip(register: RegisterName)
    requires
        spec_action_fits(Action::Input(InputAction::SelectRegister { register })),
    ensures
        spec_action_from_call(spec_action_name(Action::Input(InputAction::SelectRegister { register })), spec_action_args(Action::Input(InputAction::SelectRegister { register }))) == Ok::<Seq<(Seq<char>, ValueV)>, CallErrorV>(spec_action_args(Action::Input(InputAction::SelectRegister { register }))),
{
    lemma_action_names();
    reveal_strlit("register");
    let f = seq![("register"@, register.wire())];
    assert(names_distinct(f));
    lemma_distinct_fields(f);
    assert(f[0].0 == "register"@);
    <RegisterName as Wire>::lemma_wire_round_trip(register);
}

#[verifier::spinoff_prover]
#[verifier::rlimit(100)]
proof fn lemma_input_action_cancel_pending_round_trip()
    requires
        spec_action_fits(Action::Input(InputAction::CancelPending {})),
    ensures
        spec_action_from_call(spec_action_name(Action::Input(InputAction::CancelPending {})), spec_action_args(Action::Input(InputAction::CancelPending {}))) == Ok::<Seq<(Seq<char>, ValueV)>, CallErrorV>(spec_action_args(Action::Input(InputAction::CancelPending {}))),
{
    lemma_action_names();
}

#[verifier::spinoff_prover]
#[verifier::rlimit(100)]
proof fn lemma_input_action_feed_keys_round_trip(keys: KeySeq)
    requires
        spec_action_fits(Action::Input(InputAction::FeedKeys { keys })),
    ensures
        spec_action_from_call(spec_action_name(Action::Input(InputAction::FeedKeys { keys })), spec_action_args(Action::Input(InputAction::FeedKeys { keys }))) == Ok::<Seq<(Seq<char>, ValueV)>, CallErrorV>(spec_action_args(Action::Input(InputAction::FeedKeys { keys }))),
{
    lemma_action_names();
    reveal_strlit("keys");
    let f = seq![("keys"@, keys.wire())];
    assert(names_distinct(f));
    lemma_distinct_fields(f);
    assert(f[0].0 == "keys"@);
    <KeySeq as Wire>::lemma_wire_round_trip(keys);
}

#[verifier::spinoff_prover]
#[verifier::rlimit(100)]
proof fn lemma_input_action_repeat_last_round_trip(count: u32)
    requires
        spec_action_fits(Action::Input(InputAction::RepeatLast { count })),
    ensures
        spec_action_from_call(spec_action_name(Action::Input(InputAction::RepeatLast { count })), spec_action_args(Action::Input(InputAction::RepeatLast { count }))) == Ok::<Seq<(Seq<char>, ValueV)>, CallErrorV>(spec_action_args(Action::Input(InputAction::RepeatLast { count }))),
{
    lemma_action_names();
    reveal_strlit("count");
    let f = seq![("count"@, count.wire())];
    assert(names_distinct(f));
    lemma_distinct_fields(f);
    assert(f[0].0 == "count"@);
    <u32 as Wire>::lemma_wire_round_trip(count);
}

#[verifier::spinoff_prover]
#[verifier::rlimit(100)]
proof fn lemma_input_action_set_macro_recording_round_trip(register: RegisterName, on: bool)
    requires
        spec_action_fits(Action::Input(InputAction::SetMacroRecording { register, on })),
    ensures
        spec_action_from_call(spec_action_name(Action::Input(InputAction::SetMacroRecording { register, on })), spec_action_args(Action::Input(InputAction::SetMacroRecording { register, on }))) == Ok::<Seq<(Seq<char>, ValueV)>, CallErrorV>(spec_action_args(Action::Input(InputAction::SetMacroRecording { register, on }))),
{
    lemma_action_names();
    reveal_strlit("on");
    reveal_strlit("register");
    let f = seq![("register"@, register.wire()), ("on"@, on.wire())];
    assert forall|i: int, j: int| 0 <= i < j < 2 implies f[i].0 != f[j].0 by {
        if i == 0 && j == 1 {
            assert("register"@[0] != "on"@[0]);
        }
    }
    assert(names_distinct(f));
    lemma_distinct_fields(f);
    assert(f[0].0 == "register"@);
    <RegisterName as Wire>::lemma_wire_round_trip(register);
    assert(f[1].0 == "on"@);
    <bool as Wire>::lemma_wire_round_trip(on);
}

proof fn lemma_input_action_round_trip(x: InputAction)
    requires
        spec_action_fits(Action::Input(x)),
    ensures
        spec_action_from_call(spec_action_name(Action::Input(x)), spec_action_args(Action::Input(x))) == Ok::<Seq<(Seq<char>, ValueV)>, CallErrorV>(spec_action_args(Action::Input(x))),
{
    match x {
        InputAction::SetMode { mode } => lemma_input_action_set_mode_round_trip(mode),
        InputAction::SetCount { count } => lemma_input_action_set_count_round_trip(count),
        InputAction::SelectRegister { register } => lemma_input_action_select_register_round_trip(register),
        InputAction::CancelPending {} => lemma_input_action_cancel_pending_round_trip(),
        InputAction::FeedKeys { keys } => lemma_input_action_feed_keys_round_trip(keys),
        InputAction::RepeatLast { count } => lemma_input_action_repeat_last_round_trip(count),
        InputAction::SetMacroRecording { register, on } => lemma_input_action_set_macro_recording_round_trip(register, on),
    }
}

#[verifier::spinoff_prover]
#[verifier::rlimit(100)]
proof fn lemma_history_action_undo_round_trip(count: u32)
    requires
        spec_action_fits(Action::History(HistoryAction::Undo { count })),
    ensures
        spec_action_from_call(spec_action_name(Action::History(HistoryAction::Undo { count })), spec_action_args(Action::History(HistoryAction::Undo { count }))) == Ok::<Seq<(Seq<char>, ValueV)>, CallErrorV>(spec_action_args(Action::History(HistoryAction::Undo { count }))),
{
    lemma_action_names();
    reveal_strlit("count");
    let f = seq![("count"@, count.wire())];
    assert(names_distinct(f));
    lemma_distinct_fields(f);
    assert(f[0].0 == "count"@);
    <u32 as Wire>::lemma_wire_round_trip(count);
}

#[verifier::spinoff_prover]
#[verifier::rlimit(100)]
proof fn lemma_history_action_redo_round_trip(count: u32)
    requires
        spec_action_fits(Action::History(HistoryAction::Redo { count })),
    ensures
        spec_action_from_call(spec_action_name(Action::History(HistoryAction::Redo { count })), spec_action_args(Action::History(HistoryAction::Redo { count }))) == Ok::<Seq<(Seq<char>, ValueV)>, CallErrorV>(spec_action_args(Action::History(HistoryAction::Redo { count }))),
{
    lemma_action_names();
    reveal_strlit("count");
    let f = seq![("count"@, count.wire())];
    assert(names_distinct(f));
    lemma_distinct_fields(f);
    assert(f[0].0 == "count"@);
    <u32 as Wire>::lemma_wire_round_trip(count);
}

#[verifier::spinoff_prover]
#[verifier::rlimit(100)]
proof fn lemma_history_action_undo_to_checkpoint_round_trip(checkpoint: CheckpointId)
    requires
        spec_action_fits(Action::History(HistoryAction::UndoToCheckpoint { checkpoint })),
    ensures
        spec_action_from_call(spec_action_name(Action::History(HistoryAction::UndoToCheckpoint { checkpoint })), spec_action_args(Action::History(HistoryAction::UndoToCheckpoint { checkpoint }))) == Ok::<Seq<(Seq<char>, ValueV)>, CallErrorV>(spec_action_args(Action::History(HistoryAction::UndoToCheckpoint { checkpoint }))),
{
    lemma_action_names();
    reveal_strlit("checkpoint");
    let f = seq![("checkpoint"@, checkpoint.wire())];
    assert(names_distinct(f));
    lemma_distinct_fields(f);
    assert(f[0].0 == "checkpoint"@);
    <CheckpointId as Wire>::lemma_wire_round_trip(checkpoint);
}

#[verifier::spinoff_prover]
#[verifier::rlimit(100)]
proof fn lemma_history_action_commit_undo_group_round_trip()
    requires
        spec_action_fits(Action::History(HistoryAction::CommitUndoGroup {})),
    ensures
        spec_action_from_call(spec_action_name(Action::History(HistoryAction::CommitUndoGroup {})), spec_action_args(Action::History(HistoryAction::CommitUndoGroup {}))) == Ok::<Seq<(Seq<char>, ValueV)>, CallErrorV>(spec_action_args(Action::History(HistoryAction::CommitUndoGroup {}))),
{
    lemma_action_names();
}

#[verifier::spinoff_prover]
#[verifier::rlimit(100)]
proof fn lemma_history_action_compact_history_round_trip(target: Target)
    requires
        spec_action_fits(Action::History(HistoryAction::CompactHistory { target })),
    ensures
        spec_action_from_call(spec_action_name(Action::History(HistoryAction::CompactHistory { target })), spec_action_args(Action::History(HistoryAction::CompactHistory { target }))) == Ok::<Seq<(Seq<char>, ValueV)>, CallErrorV>(spec_action_args(Action::History(HistoryAction::CompactHistory { target }))),
{
    lemma_action_names();
    reveal_strlit("target");
    let f = seq![("target"@, target.wire())];
    assert(names_distinct(f));
    lemma_distinct_fields(f);
    assert(f[0].0 == "target"@);
    <Target as Wire>::lemma_wire_round_trip(target);
}

proof fn lemma_history_action_round_trip(x: HistoryAction)
    requires
        spec_action_fits(Action::History(x)),
    ensures
        spec_action_from_call(spec_action_name(Action::History(x)), spec_action_args(Action::History(x))) == Ok::<Seq<(Seq<char>, ValueV)>, CallErrorV>(spec_action_args(Action::History(x))),
{
    match x {
        HistoryAction::Undo { count } => lemma_history_action_undo_round_trip(count),
        HistoryAction::Redo { count } => lemma_history_action_redo_round_trip(count),
        HistoryAction::UndoToCheckpoint { checkpoint } => lemma_history_action_undo_to_checkpoint_round_trip(checkpoint),
        HistoryAction::CommitUndoGroup {} => lemma_history_action_commit_undo_group_round_trip(),
        HistoryAction::CompactHistory { target } => lemma_history_action_compact_history_round_trip(target),
    }
}

#[verifier::spinoff_prover]
#[verifier::rlimit(100)]
proof fn lemma_file_action_open_file_round_trip(path: String, at: Option<Position>, pane: PaneRef)
    requires
        spec_action_fits(Action::File(FileAction::OpenFile { path, at, pane })),
    ensures
        spec_action_from_call(spec_action_name(Action::File(FileAction::OpenFile { path, at, pane })), spec_action_args(Action::File(FileAction::OpenFile { path, at, pane }))) == Ok::<Seq<(Seq<char>, ValueV)>, CallErrorV>(spec_action_args(Action::File(FileAction::OpenFile { path, at, pane }))),
{
    lemma_action_names();
    reveal_strlit("at");
    reveal_strlit("pane");
    reveal_strlit("path");
    let f = seq![("path"@, path.wire()), ("at"@, at.wire()), ("pane"@, pane.wire())];
    assert forall|i: int, j: int| 0 <= i < j < 3 implies f[i].0 != f[j].0 by {
        if i == 0 && j == 1 {
            assert("path"@[0] != "at"@[0]);
        } else if i == 0 && j == 2 {
            assert("path"@[2] != "pane"@[2]);
        } else if i == 1 && j == 2 {
            assert("at"@[0] != "pane"@[0]);
        }
    }
    assert(names_distinct(f));
    lemma_distinct_fields(f);
    assert(f[0].0 == "path"@);
    <String as Wire>::lemma_wire_round_trip(path);
    assert(f[1].0 == "at"@);
    <Option<Position> as Wire>::lemma_wire_round_trip(at);
    assert(f[2].0 == "pane"@);
    <PaneRef as Wire>::lemma_wire_round_trip(pane);
}

#[verifier::spinoff_prover]
#[verifier::rlimit(100)]
proof fn lemma_file_action_open_alternate_round_trip(pane: PaneRef)
    requires
        spec_action_fits(Action::File(FileAction::OpenAlternate { pane })),
    ensures
        spec_action_from_call(spec_action_name(Action::File(FileAction::OpenAlternate { pane })), spec_action_args(Action::File(FileAction::OpenAlternate { pane }))) == Ok::<Seq<(Seq<char>, ValueV)>, CallErrorV>(spec_action_args(Action::File(FileAction::OpenAlternate { pane }))),
{
    lemma_action_names();
    reveal_strlit("pane");
    let f = seq![("pane"@, pane.wire())];
    assert(names_distinct(f));
    lemma_distinct_fields(f);
    assert(f[0].0 == "pane"@);
    <PaneRef as Wire>::lemma_wire_round_trip(pane);
}

#[verifier::spinoff_prover]
#[verifier::rlimit(100)]
proof fn lemma_file_action_save_buffer_round_trip(target: Target, path: Option<String>)
    requires
        spec_action_fits(Action::File(FileAction::SaveBuffer { target, path })),
    ensures
        spec_action_from_call(spec_action_name(Action::File(FileAction::SaveBuffer { target, path })), spec_action_args(Action::File(FileAction::SaveBuffer { target, path }))) == Ok::<Seq<(Seq<char>, ValueV)>, CallErrorV>(spec_action_args(Action::File(FileAction::SaveBuffer { target, path }))),
{
    lemma_action_names();
    reveal_strlit("path");
    reveal_strlit("target");
    let f = seq![("target"@, target.wire()), ("path"@, path.wire())];
    assert forall|i: int, j: int| 0 <= i < j < 2 implies f[i].0 != f[j].0 by {
        if i == 0 && j == 1 {
            assert("target"@[0] != "path"@[0]);
        }
    }
    assert(names_distinct(f));
    lemma_distinct_fields(f);
    assert(f[0].0 == "target"@);
    <Target as Wire>::lemma_wire_round_trip(target);
    assert(f[1].0 == "path"@);
    <Option<String> as Wire>::lemma_wire_round_trip(path);
}

#[verifier::spinoff_prover]
#[verifier::rlimit(100)]
proof fn lemma_file_action_save_all_round_trip()
    requires
        spec_action_fits(Action::File(FileAction::SaveAll {})),
    ensures
        spec_action_from_call(spec_action_name(Action::File(FileAction::SaveAll {})), spec_action_args(Action::File(FileAction::SaveAll {}))) == Ok::<Seq<(Seq<char>, ValueV)>, CallErrorV>(spec_action_args(Action::File(FileAction::SaveAll {}))),
{
    lemma_action_names();
}

#[verifier::spinoff_prover]
#[verifier::rlimit(100)]
proof fn lemma_file_action_close_buffer_round_trip(target: Target, force: bool)
    requires
        spec_action_fits(Action::File(FileAction::CloseBuffer { target, force })),
    ensures
        spec_action_from_call(spec_action_name(Action::File(FileAction::CloseBuffer { target, force })), spec_action_args(Action::File(FileAction::CloseBuffer { target, force }))) == Ok::<Seq<(Seq<char>, ValueV)>, CallErrorV>(spec_action_args(Action::File(FileAction::CloseBuffer { target, force }))),
{
    lemma_action_names();
    reveal_strlit("force");
    reveal_strlit("target");
    let f = seq![("target"@, target.wire()), ("force"@, force.wire())];
    assert forall|i: int, j: int| 0 <= i < j < 2 implies f[i].0 != f[j].0 by {
        if i == 0 && j == 1 {
            assert("target"@[0] != "force"@[0]);
        }
    }
    assert(names_distinct(f));
    lemma_distinct_fields(f);
    assert(f[0].0 == "target"@);
    <Target as Wire>::lemma_wire_round_trip(target);
    assert(f[1].0 == "force"@);
    <bool as Wire>::lemma_wire_round_trip(force);
}

#[verifier::spinoff_prover]
#[verifier::rlimit(100)]
proof fn lemma_file_action_reload_from_disk_round_trip(target: Target)
    requires
        spec_action_fits(Action::File(FileAction::ReloadFromDisk { target })),
    ensures
        spec_action_from_call(spec_action_name(Action::File(FileAction::ReloadFromDisk { target })), spec_action_args(Action::File(FileAction::ReloadFromDisk { target }))) == Ok::<Seq<(Seq<char>, ValueV)>, CallErrorV>(spec_action_args(Action::File(FileAction::ReloadFromDisk { target }))),
{
    lemma_action_names();
    reveal_strlit("target");
    let f = seq![("target"@, target.wire())];
    assert(names_distinct(f));
    lemma_distinct_fields(f);
    assert(f[0].0 == "target"@);
    <Target as Wire>::lemma_wire_round_trip(target);
}

#[verifier::spinoff_prover]
#[verifier::rlimit(100)]
proof fn lemma_file_action_note_disk_change_round_trip(path: String, changed_by: Actor)
    requires
        spec_action_fits(Action::File(FileAction::NoteDiskChange { path, changed_by })),
    ensures
        spec_action_from_call(spec_action_name(Action::File(FileAction::NoteDiskChange { path, changed_by })), spec_action_args(Action::File(FileAction::NoteDiskChange { path, changed_by }))) == Ok::<Seq<(Seq<char>, ValueV)>, CallErrorV>(spec_action_args(Action::File(FileAction::NoteDiskChange { path, changed_by }))),
{
    lemma_action_names();
    reveal_strlit("changed_by");
    reveal_strlit("path");
    let f = seq![("path"@, path.wire()), ("changed_by"@, changed_by.wire())];
    assert forall|i: int, j: int| 0 <= i < j < 2 implies f[i].0 != f[j].0 by {
        if i == 0 && j == 1 {
            assert("path"@[0] != "changed_by"@[0]);
        }
    }
    assert(names_distinct(f));
    lemma_distinct_fields(f);
    assert(f[0].0 == "path"@);
    <String as Wire>::lemma_wire_round_trip(path);
    assert(f[1].0 == "changed_by"@);
    <Actor as Wire>::lemma_wire_round_trip(changed_by);
}

#[verifier::spinoff_prover]
#[verifier::rlimit(100)]
proof fn lemma_file_action_open_disk_diff_round_trip(target: Target)
    requires
        spec_action_fits(Action::File(FileAction::OpenDiskDiff { target })),
    ensures
        spec_action_from_call(spec_action_name(Action::File(FileAction::OpenDiskDiff { target })), spec_action_args(Action::File(FileAction::OpenDiskDiff { target }))) == Ok::<Seq<(Seq<char>, ValueV)>, CallErrorV>(spec_action_args(Action::File(FileAction::OpenDiskDiff { target }))),
{
    lemma_action_names();
    reveal_strlit("target");
    let f = seq![("target"@, target.wire())];
    assert(names_distinct(f));
    lemma_distinct_fields(f);
    assert(f[0].0 == "target"@);
    <Target as Wire>::lemma_wire_round_trip(target);
}

#[verifier::spinoff_prover]
#[verifier::rlimit(100)]
proof fn lemma_file_action_resolve_disk_diff_round_trip(target: Target, exit: DiskExit)
    requires
        spec_action_fits(Action::File(FileAction::ResolveDiskDiff { target, exit })),
    ensures
        spec_action_from_call(spec_action_name(Action::File(FileAction::ResolveDiskDiff { target, exit })), spec_action_args(Action::File(FileAction::ResolveDiskDiff { target, exit }))) == Ok::<Seq<(Seq<char>, ValueV)>, CallErrorV>(spec_action_args(Action::File(FileAction::ResolveDiskDiff { target, exit }))),
{
    lemma_action_names();
    reveal_strlit("exit");
    reveal_strlit("target");
    let f = seq![("target"@, target.wire()), ("exit"@, exit.wire())];
    assert forall|i: int, j: int| 0 <= i < j < 2 implies f[i].0 != f[j].0 by {
        if i == 0 && j == 1 {
            assert("target"@[0] != "exit"@[0]);
        }
    }
    assert(names_distinct(f));
    lemma_distinct_fields(f);
    assert(f[0].0 == "target"@);
    <Target as Wire>::lemma_wire_round_trip(target);
    assert(f[1].0 == "exit"@);
    <DiskExit as Wire>::lemma_wire_round_trip(exit);
}

#[verifier::spinoff_prover]
#[verifier::rlimit(100)]
proof fn lemma_file_action_set_file_watch_round_trip(path: String, on: bool)
    requires
        spec_action_fits(Action::File(FileAction::SetFileWatch { path, on })),
    ensures
        spec_action_from_call(spec_action_name(Action::File(FileAction::SetFileWatch { path, on })), spec_action_args(Action::File(FileAction::SetFileWatch { path, on }))) == Ok::<Seq<(Seq<char>, ValueV)>, CallErrorV>(spec_action_args(Action::File(FileAction::SetFileWatch { path, on }))),
{
    lemma_action_names();
    reveal_strlit("on");
    reveal_strlit("path");
    let f = seq![("path"@, path.wire()), ("on"@, on.wire())];
    assert forall|i: int, j: int| 0 <= i < j < 2 implies f[i].0 != f[j].0 by {
        if i == 0 && j == 1 {
            assert("path"@[0] != "on"@[0]);
        }
    }
    assert(names_distinct(f));
    lemma_distinct_fields(f);
    assert(f[0].0 == "path"@);
    <String as Wire>::lemma_wire_round_trip(path);
    assert(f[1].0 == "on"@);
    <bool as Wire>::lemma_wire_round_trip(on);
}

proof fn lemma_file_action_round_trip(x: FileAction)
    requires
        spec_action_fits(Action::File(x)),
    ensures
        spec_action_from_call(spec_action_name(Action::File(x)), spec_action_args(Action::File(x))) == Ok::<Seq<(Seq<char>, ValueV)>, CallErrorV>(spec_action_args(Action::File(x))),
{
    match x {
        FileAction::OpenFile { path, at, pane } => lemma_file_action_open_file_round_trip(path, at, pane),
        FileAction::OpenAlternate { pane } => lemma_file_action_open_alternate_round_trip(pane),
        FileAction::SaveBuffer { target, path } => lemma_file_action_save_buffer_round_trip(target, path),
        FileAction::SaveAll {} => lemma_file_action_save_all_round_trip(),
        FileAction::CloseBuffer { target, force } => lemma_file_action_close_buffer_round_trip(target, force),
        FileAction::ReloadFromDisk { target } => lemma_file_action_reload_from_disk_round_trip(target),
        FileAction::NoteDiskChange { path, changed_by } => lemma_file_action_note_disk_change_round_trip(path, changed_by),
        FileAction::OpenDiskDiff { target } => lemma_file_action_open_disk_diff_round_trip(target),
        FileAction::ResolveDiskDiff { target, exit } => lemma_file_action_resolve_disk_diff_round_trip(target, exit),
        FileAction::SetFileWatch { path, on } => lemma_file_action_set_file_watch_round_trip(path, on),
    }
}

#[verifier::spinoff_prover]
#[verifier::rlimit(100)]
proof fn lemma_float_action_open_float_round_trip(surface: SurfaceId, args: Args)
    requires
        spec_action_fits(Action::Float(FloatAction::OpenFloat { surface, args })),
    ensures
        spec_action_from_call(spec_action_name(Action::Float(FloatAction::OpenFloat { surface, args })), spec_action_args(Action::Float(FloatAction::OpenFloat { surface, args }))) == Ok::<Seq<(Seq<char>, ValueV)>, CallErrorV>(spec_action_args(Action::Float(FloatAction::OpenFloat { surface, args }))),
{
    lemma_action_names();
    reveal_strlit("args");
    reveal_strlit("surface");
    let f = seq![("surface"@, surface.wire()), ("args"@, args.wire())];
    assert forall|i: int, j: int| 0 <= i < j < 2 implies f[i].0 != f[j].0 by {
        if i == 0 && j == 1 {
            assert("surface"@[0] != "args"@[0]);
        }
    }
    assert(names_distinct(f));
    lemma_distinct_fields(f);
    assert(f[0].0 == "surface"@);
    <SurfaceId as Wire>::lemma_wire_round_trip(surface);
    assert(f[1].0 == "args"@);
    <Args as Wire>::lemma_wire_round_trip(args);
}

#[verifier::spinoff_prover]
#[verifier::rlimit(100)]
proof fn lemma_float_action_close_float_round_trip()
    requires
        spec_action_fits(Action::Float(FloatAction::CloseFloat {})),
    ensures
        spec_action_from_call(spec_action_name(Action::Float(FloatAction::CloseFloat {})), spec_action_args(Action::Float(FloatAction::CloseFloat {}))) == Ok::<Seq<(Seq<char>, ValueV)>, CallErrorV>(spec_action_args(Action::Float(FloatAction::CloseFloat {}))),
{
    lemma_action_names();
}

#[verifier::spinoff_prover]
#[verifier::rlimit(100)]
proof fn lemma_float_action_close_all_floats_round_trip()
    requires
        spec_action_fits(Action::Float(FloatAction::CloseAllFloats {})),
    ensures
        spec_action_from_call(spec_action_name(Action::Float(FloatAction::CloseAllFloats {})), spec_action_args(Action::Float(FloatAction::CloseAllFloats {}))) == Ok::<Seq<(Seq<char>, ValueV)>, CallErrorV>(spec_action_args(Action::Float(FloatAction::CloseAllFloats {}))),
{
    lemma_action_names();
}

#[verifier::spinoff_prover]
#[verifier::rlimit(100)]
proof fn lemma_float_action_define_float_surface_round_trip(surface: SurfaceId, body: String)
    requires
        spec_action_fits(Action::Float(FloatAction::DefineFloatSurface { surface, body })),
    ensures
        spec_action_from_call(spec_action_name(Action::Float(FloatAction::DefineFloatSurface { surface, body })), spec_action_args(Action::Float(FloatAction::DefineFloatSurface { surface, body }))) == Ok::<Seq<(Seq<char>, ValueV)>, CallErrorV>(spec_action_args(Action::Float(FloatAction::DefineFloatSurface { surface, body }))),
{
    lemma_action_names();
    reveal_strlit("body");
    reveal_strlit("surface");
    let f = seq![("surface"@, surface.wire()), ("body"@, body.wire())];
    assert forall|i: int, j: int| 0 <= i < j < 2 implies f[i].0 != f[j].0 by {
        if i == 0 && j == 1 {
            assert("surface"@[0] != "body"@[0]);
        }
    }
    assert(names_distinct(f));
    lemma_distinct_fields(f);
    assert(f[0].0 == "surface"@);
    <SurfaceId as Wire>::lemma_wire_round_trip(surface);
    assert(f[1].0 == "body"@);
    <String as Wire>::lemma_wire_round_trip(body);
}

#[verifier::spinoff_prover]
#[verifier::rlimit(100)]
proof fn lemma_float_action_float_select_round_trip(delta: i64)
    requires
        spec_action_fits(Action::Float(FloatAction::FloatSelect { delta })),
    ensures
        spec_action_from_call(spec_action_name(Action::Float(FloatAction::FloatSelect { delta })), spec_action_args(Action::Float(FloatAction::FloatSelect { delta }))) == Ok::<Seq<(Seq<char>, ValueV)>, CallErrorV>(spec_action_args(Action::Float(FloatAction::FloatSelect { delta }))),
{
    lemma_action_names();
    reveal_strlit("delta");
    let f = seq![("delta"@, delta.wire())];
    assert(names_distinct(f));
    lemma_distinct_fields(f);
    assert(f[0].0 == "delta"@);
    <i64 as Wire>::lemma_wire_round_trip(delta);
}

#[verifier::spinoff_prover]
#[verifier::rlimit(100)]
proof fn lemma_float_action_float_select_row_round_trip(row: u32)
    requires
        spec_action_fits(Action::Float(FloatAction::FloatSelectRow { row })),
    ensures
        spec_action_from_call(spec_action_name(Action::Float(FloatAction::FloatSelectRow { row })), spec_action_args(Action::Float(FloatAction::FloatSelectRow { row }))) == Ok::<Seq<(Seq<char>, ValueV)>, CallErrorV>(spec_action_args(Action::Float(FloatAction::FloatSelectRow { row }))),
{
    lemma_action_names();
    reveal_strlit("row");
    let f = seq![("row"@, row.wire())];
    assert(names_distinct(f));
    lemma_distinct_fields(f);
    assert(f[0].0 == "row"@);
    <u32 as Wire>::lemma_wire_round_trip(row);
}

#[verifier::spinoff_prover]
#[verifier::rlimit(100)]
proof fn lemma_float_action_float_accept_round_trip()
    requires
        spec_action_fits(Action::Float(FloatAction::FloatAccept {})),
    ensures
        spec_action_from_call(spec_action_name(Action::Float(FloatAction::FloatAccept {})), spec_action_args(Action::Float(FloatAction::FloatAccept {}))) == Ok::<Seq<(Seq<char>, ValueV)>, CallErrorV>(spec_action_args(Action::Float(FloatAction::FloatAccept {}))),
{
    lemma_action_names();
}

#[verifier::spinoff_prover]
#[verifier::rlimit(100)]
proof fn lemma_float_action_float_answer_round_trip(digit: u32)
    requires
        spec_action_fits(Action::Float(FloatAction::FloatAnswer { digit })),
    ensures
        spec_action_from_call(spec_action_name(Action::Float(FloatAction::FloatAnswer { digit })), spec_action_args(Action::Float(FloatAction::FloatAnswer { digit }))) == Ok::<Seq<(Seq<char>, ValueV)>, CallErrorV>(spec_action_args(Action::Float(FloatAction::FloatAnswer { digit }))),
{
    lemma_action_names();
    reveal_strlit("digit");
    let f = seq![("digit"@, digit.wire())];
    assert(names_distinct(f));
    lemma_distinct_fields(f);
    assert(f[0].0 == "digit"@);
    <u32 as Wire>::lemma_wire_round_trip(digit);
}

#[verifier::spinoff_prover]
#[verifier::rlimit(100)]
proof fn lemma_float_action_float_toggle_fold_round_trip(row: u32)
    requires
        spec_action_fits(Action::Float(FloatAction::FloatToggleFold { row })),
    ensures
        spec_action_from_call(spec_action_name(Action::Float(FloatAction::FloatToggleFold { row })), spec_action_args(Action::Float(FloatAction::FloatToggleFold { row }))) == Ok::<Seq<(Seq<char>, ValueV)>, CallErrorV>(spec_action_args(Action::Float(FloatAction::FloatToggleFold { row }))),
{
    lemma_action_names();
    reveal_strlit("row");
    let f = seq![("row"@, row.wire())];
    assert(names_distinct(f));
    lemma_distinct_fields(f);
    assert(f[0].0 == "row"@);
    <u32 as Wire>::lemma_wire_round_trip(row);
}

proof fn lemma_float_action_round_trip(x: FloatAction)
    requires
        spec_action_fits(Action::Float(x)),
    ensures
        spec_action_from_call(spec_action_name(Action::Float(x)), spec_action_args(Action::Float(x))) == Ok::<Seq<(Seq<char>, ValueV)>, CallErrorV>(spec_action_args(Action::Float(x))),
{
    match x {
        FloatAction::OpenFloat { surface, args } => lemma_float_action_open_float_round_trip(surface, args),
        FloatAction::CloseFloat {} => lemma_float_action_close_float_round_trip(),
        FloatAction::CloseAllFloats {} => lemma_float_action_close_all_floats_round_trip(),
        FloatAction::DefineFloatSurface { surface, body } => lemma_float_action_define_float_surface_round_trip(surface, body),
        FloatAction::FloatSelect { delta } => lemma_float_action_float_select_round_trip(delta),
        FloatAction::FloatSelectRow { row } => lemma_float_action_float_select_row_round_trip(row),
        FloatAction::FloatAccept {} => lemma_float_action_float_accept_round_trip(),
        FloatAction::FloatAnswer { digit } => lemma_float_action_float_answer_round_trip(digit),
        FloatAction::FloatToggleFold { row } => lemma_float_action_float_toggle_fold_round_trip(row),
    }
}

#[verifier::spinoff_prover]
#[verifier::rlimit(100)]
proof fn lemma_pane_action_split_pane_round_trip(pane: PaneRef, direction: Direction, kind: PaneKind)
    requires
        spec_action_fits(Action::Pane(PaneAction::SplitPane { pane, direction, kind })),
    ensures
        spec_action_from_call(spec_action_name(Action::Pane(PaneAction::SplitPane { pane, direction, kind })), spec_action_args(Action::Pane(PaneAction::SplitPane { pane, direction, kind }))) == Ok::<Seq<(Seq<char>, ValueV)>, CallErrorV>(spec_action_args(Action::Pane(PaneAction::SplitPane { pane, direction, kind }))),
{
    lemma_action_names();
    reveal_strlit("direction");
    reveal_strlit("kind");
    reveal_strlit("pane");
    let f = seq![("pane"@, pane.wire()), ("direction"@, direction.wire()), ("kind"@, kind.wire())];
    assert forall|i: int, j: int| 0 <= i < j < 3 implies f[i].0 != f[j].0 by {
        if i == 0 && j == 1 {
            assert("pane"@[0] != "direction"@[0]);
        } else if i == 0 && j == 2 {
            assert("pane"@[0] != "kind"@[0]);
        } else if i == 1 && j == 2 {
            assert("direction"@[0] != "kind"@[0]);
        }
    }
    assert(names_distinct(f));
    lemma_distinct_fields(f);
    assert(f[0].0 == "pane"@);
    <PaneRef as Wire>::lemma_wire_round_trip(pane);
    assert(f[1].0 == "direction"@);
    <Direction as Wire>::lemma_wire_round_trip(direction);
    assert(f[2].0 == "kind"@);
    <PaneKind as Wire>::lemma_wire_round_trip(kind);
}

#[verifier::spinoff_prover]
#[verifier::rlimit(100)]
proof fn lemma_pane_action_focus_pane_round_trip(pane: PaneRef)
    requires
        spec_action_fits(Action::Pane(PaneAction::FocusPane { pane })),
    ensures
        spec_action_from_call(spec_action_name(Action::Pane(PaneAction::FocusPane { pane })), spec_action_args(Action::Pane(PaneAction::FocusPane { pane }))) == Ok::<Seq<(Seq<char>, ValueV)>, CallErrorV>(spec_action_args(Action::Pane(PaneAction::FocusPane { pane }))),
{
    lemma_action_names();
    reveal_strlit("pane");
    let f = seq![("pane"@, pane.wire())];
    assert(names_distinct(f));
    lemma_distinct_fields(f);
    assert(f[0].0 == "pane"@);
    <PaneRef as Wire>::lemma_wire_round_trip(pane);
}

#[verifier::spinoff_prover]
#[verifier::rlimit(100)]
proof fn lemma_pane_action_close_pane_round_trip(pane: PaneRef)
    requires
        spec_action_fits(Action::Pane(PaneAction::ClosePane { pane })),
    ensures
        spec_action_from_call(spec_action_name(Action::Pane(PaneAction::ClosePane { pane })), spec_action_args(Action::Pane(PaneAction::ClosePane { pane }))) == Ok::<Seq<(Seq<char>, ValueV)>, CallErrorV>(spec_action_args(Action::Pane(PaneAction::ClosePane { pane }))),
{
    lemma_action_names();
    reveal_strlit("pane");
    let f = seq![("pane"@, pane.wire())];
    assert(names_distinct(f));
    lemma_distinct_fields(f);
    assert(f[0].0 == "pane"@);
    <PaneRef as Wire>::lemma_wire_round_trip(pane);
}

#[verifier::spinoff_prover]
#[verifier::rlimit(100)]
proof fn lemma_pane_action_resize_pane_round_trip(pane: PaneRef, delta: i64)
    requires
        spec_action_fits(Action::Pane(PaneAction::ResizePane { pane, delta })),
    ensures
        spec_action_from_call(spec_action_name(Action::Pane(PaneAction::ResizePane { pane, delta })), spec_action_args(Action::Pane(PaneAction::ResizePane { pane, delta }))) == Ok::<Seq<(Seq<char>, ValueV)>, CallErrorV>(spec_action_args(Action::Pane(PaneAction::ResizePane { pane, delta }))),
{
    lemma_action_names();
    reveal_strlit("delta");
    reveal_strlit("pane");
    let f = seq![("pane"@, pane.wire()), ("delta"@, delta.wire())];
    assert forall|i: int, j: int| 0 <= i < j < 2 implies f[i].0 != f[j].0 by {
        if i == 0 && j == 1 {
            assert("pane"@[0] != "delta"@[0]);
        }
    }
    assert(names_distinct(f));
    lemma_distinct_fields(f);
    assert(f[0].0 == "pane"@);
    <PaneRef as Wire>::lemma_wire_round_trip(pane);
    assert(f[1].0 == "delta"@);
    <i64 as Wire>::lemma_wire_round_trip(delta);
}

#[verifier::spinoff_prover]
#[verifier::rlimit(100)]
proof fn lemma_pane_action_set_pane_content_round_trip(pane: PaneRef, kind: PaneKind)
    requires
        spec_action_fits(Action::Pane(PaneAction::SetPaneContent { pane, kind })),
    ensures
        spec_action_from_call(spec_action_name(Action::Pane(PaneAction::SetPaneContent { pane, kind })), spec_action_args(Action::Pane(PaneAction::SetPaneContent { pane, kind }))) == Ok::<Seq<(Seq<char>, ValueV)>, CallErrorV>(spec_action_args(Action::Pane(PaneAction::SetPaneContent { pane, kind }))),
{
    lemma_action_names();
    reveal_strlit("kind");
    reveal_strlit("pane");
    let f = seq![("pane"@, pane.wire()), ("kind"@, kind.wire())];
    assert forall|i: int, j: int| 0 <= i < j < 2 implies f[i].0 != f[j].0 by {
        if i == 0 && j == 1 {
            assert("pane"@[0] != "kind"@[0]);
        }
    }
    assert(names_distinct(f));
    lemma_distinct_fields(f);
    assert(f[0].0 == "pane"@);
    <PaneRef as Wire>::lemma_wire_round_trip(pane);
    assert(f[1].0 == "kind"@);
    <PaneKind as Wire>::lemma_wire_round_trip(kind);
}

#[verifier::spinoff_prover]
#[verifier::rlimit(100)]
proof fn lemma_pane_action_create_pane_from_view_round_trip(pane: PaneRef, tree: Value)
    requires
        spec_action_fits(Action::Pane(PaneAction::CreatePaneFromView { pane, tree })),
    ensures
        spec_action_from_call(spec_action_name(Action::Pane(PaneAction::CreatePaneFromView { pane, tree })), spec_action_args(Action::Pane(PaneAction::CreatePaneFromView { pane, tree }))) == Ok::<Seq<(Seq<char>, ValueV)>, CallErrorV>(spec_action_args(Action::Pane(PaneAction::CreatePaneFromView { pane, tree }))),
{
    lemma_action_names();
    reveal_strlit("pane");
    reveal_strlit("tree");
    let f = seq![("pane"@, pane.wire()), ("tree"@, tree.wire())];
    assert forall|i: int, j: int| 0 <= i < j < 2 implies f[i].0 != f[j].0 by {
        if i == 0 && j == 1 {
            assert("pane"@[0] != "tree"@[0]);
        }
    }
    assert(names_distinct(f));
    lemma_distinct_fields(f);
    assert(f[0].0 == "pane"@);
    <PaneRef as Wire>::lemma_wire_round_trip(pane);
    assert(f[1].0 == "tree"@);
    <Value as Wire>::lemma_wire_round_trip(tree);
}

proof fn lemma_pane_action_round_trip(x: PaneAction)
    requires
        spec_action_fits(Action::Pane(x)),
    ensures
        spec_action_from_call(spec_action_name(Action::Pane(x)), spec_action_args(Action::Pane(x))) == Ok::<Seq<(Seq<char>, ValueV)>, CallErrorV>(spec_action_args(Action::Pane(x))),
{
    match x {
        PaneAction::SplitPane { pane, direction, kind } => lemma_pane_action_split_pane_round_trip(pane, direction, kind),
        PaneAction::FocusPane { pane } => lemma_pane_action_focus_pane_round_trip(pane),
        PaneAction::ClosePane { pane } => lemma_pane_action_close_pane_round_trip(pane),
        PaneAction::ResizePane { pane, delta } => lemma_pane_action_resize_pane_round_trip(pane, delta),
        PaneAction::SetPaneContent { pane, kind } => lemma_pane_action_set_pane_content_round_trip(pane, kind),
        PaneAction::CreatePaneFromView { pane, tree } => lemma_pane_action_create_pane_from_view_round_trip(pane, tree),
    }
}

#[verifier::spinoff_prover]
#[verifier::rlimit(100)]
proof fn lemma_picker_action_open_picker_round_trip(source: SourceId, query: Option<String>)
    requires
        spec_action_fits(Action::Picker(PickerAction::OpenPicker { source, query })),
    ensures
        spec_action_from_call(spec_action_name(Action::Picker(PickerAction::OpenPicker { source, query })), spec_action_args(Action::Picker(PickerAction::OpenPicker { source, query }))) == Ok::<Seq<(Seq<char>, ValueV)>, CallErrorV>(spec_action_args(Action::Picker(PickerAction::OpenPicker { source, query }))),
{
    lemma_action_names();
    reveal_strlit("query");
    reveal_strlit("source");
    let f = seq![("source"@, source.wire()), ("query"@, query.wire())];
    assert forall|i: int, j: int| 0 <= i < j < 2 implies f[i].0 != f[j].0 by {
        if i == 0 && j == 1 {
            assert("source"@[0] != "query"@[0]);
        }
    }
    assert(names_distinct(f));
    lemma_distinct_fields(f);
    assert(f[0].0 == "source"@);
    <SourceId as Wire>::lemma_wire_round_trip(source);
    assert(f[1].0 == "query"@);
    <Option<String> as Wire>::lemma_wire_round_trip(query);
}

#[verifier::spinoff_prover]
#[verifier::rlimit(100)]
proof fn lemma_picker_action_set_picker_query_round_trip(text: String)
    requires
        spec_action_fits(Action::Picker(PickerAction::SetPickerQuery { text })),
    ensures
        spec_action_from_call(spec_action_name(Action::Picker(PickerAction::SetPickerQuery { text })), spec_action_args(Action::Picker(PickerAction::SetPickerQuery { text }))) == Ok::<Seq<(Seq<char>, ValueV)>, CallErrorV>(spec_action_args(Action::Picker(PickerAction::SetPickerQuery { text }))),
{
    lemma_action_names();
    reveal_strlit("text");
    let f = seq![("text"@, text.wire())];
    assert(names_distinct(f));
    lemma_distinct_fields(f);
    assert(f[0].0 == "text"@);
    <String as Wire>::lemma_wire_round_trip(text);
}

#[verifier::spinoff_prover]
#[verifier::rlimit(100)]
proof fn lemma_picker_action_cycle_picker_source_round_trip(delta: i64)
    requires
        spec_action_fits(Action::Picker(PickerAction::CyclePickerSource { delta })),
    ensures
        spec_action_from_call(spec_action_name(Action::Picker(PickerAction::CyclePickerSource { delta })), spec_action_args(Action::Picker(PickerAction::CyclePickerSource { delta }))) == Ok::<Seq<(Seq<char>, ValueV)>, CallErrorV>(spec_action_args(Action::Picker(PickerAction::CyclePickerSource { delta }))),
{
    lemma_action_names();
    reveal_strlit("delta");
    let f = seq![("delta"@, delta.wire())];
    assert(names_distinct(f));
    lemma_distinct_fields(f);
    assert(f[0].0 == "delta"@);
    <i64 as Wire>::lemma_wire_round_trip(delta);
}

#[verifier::spinoff_prover]
#[verifier::rlimit(100)]
proof fn lemma_picker_action_picker_accept_round_trip(how: AcceptHow)
    requires
        spec_action_fits(Action::Picker(PickerAction::PickerAccept { how })),
    ensures
        spec_action_from_call(spec_action_name(Action::Picker(PickerAction::PickerAccept { how })), spec_action_args(Action::Picker(PickerAction::PickerAccept { how }))) == Ok::<Seq<(Seq<char>, ValueV)>, CallErrorV>(spec_action_args(Action::Picker(PickerAction::PickerAccept { how }))),
{
    lemma_action_names();
    reveal_strlit("how");
    let f = seq![("how"@, how.wire())];
    assert(names_distinct(f));
    lemma_distinct_fields(f);
    assert(f[0].0 == "how"@);
    <AcceptHow as Wire>::lemma_wire_round_trip(how);
}

#[verifier::spinoff_prover]
#[verifier::rlimit(100)]
proof fn lemma_picker_action_toggle_picker_preview_round_trip()
    requires
        spec_action_fits(Action::Picker(PickerAction::TogglePickerPreview {})),
    ensures
        spec_action_from_call(spec_action_name(Action::Picker(PickerAction::TogglePickerPreview {})), spec_action_args(Action::Picker(PickerAction::TogglePickerPreview {}))) == Ok::<Seq<(Seq<char>, ValueV)>, CallErrorV>(spec_action_args(Action::Picker(PickerAction::TogglePickerPreview {}))),
{
    lemma_action_names();
}

#[verifier::spinoff_prover]
#[verifier::rlimit(100)]
proof fn lemma_picker_action_define_picker_source_round_trip(source: SourceId, body: String)
    requires
        spec_action_fits(Action::Picker(PickerAction::DefinePickerSource { source, body })),
    ensures
        spec_action_from_call(spec_action_name(Action::Picker(PickerAction::DefinePickerSource { source, body })), spec_action_args(Action::Picker(PickerAction::DefinePickerSource { source, body }))) == Ok::<Seq<(Seq<char>, ValueV)>, CallErrorV>(spec_action_args(Action::Picker(PickerAction::DefinePickerSource { source, body }))),
{
    lemma_action_names();
    reveal_strlit("body");
    reveal_strlit("source");
    let f = seq![("source"@, source.wire()), ("body"@, body.wire())];
    assert forall|i: int, j: int| 0 <= i < j < 2 implies f[i].0 != f[j].0 by {
        if i == 0 && j == 1 {
            assert("source"@[0] != "body"@[0]);
        }
    }
    assert(names_distinct(f));
    lemma_distinct_fields(f);
    assert(f[0].0 == "source"@);
    <SourceId as Wire>::lemma_wire_round_trip(source);
    assert(f[1].0 == "body"@);
    <String as Wire>::lemma_wire_round_trip(body);
}

#[verifier::spinoff_prover]
#[verifier::rlimit(100)]
proof fn lemma_picker_action_invalidate_picker_source_round_trip(source: SourceId)
    requires
        spec_action_fits(Action::Picker(PickerAction::InvalidatePickerSource { source })),
    ensures
        spec_action_from_call(spec_action_name(Action::Picker(PickerAction::InvalidatePickerSource { source })), spec_action_args(Action::Picker(PickerAction::InvalidatePickerSource { source }))) == Ok::<Seq<(Seq<char>, ValueV)>, CallErrorV>(spec_action_args(Action::Picker(PickerAction::InvalidatePickerSource { source }))),
{
    lemma_action_names();
    reveal_strlit("source");
    let f = seq![("source"@, source.wire())];
    assert(names_distinct(f));
    lemma_distinct_fields(f);
    assert(f[0].0 == "source"@);
    <SourceId as Wire>::lemma_wire_round_trip(source);
}

proof fn lemma_picker_action_round_trip(x: PickerAction)
    requires
        spec_action_fits(Action::Picker(x)),
    ensures
        spec_action_from_call(spec_action_name(Action::Picker(x)), spec_action_args(Action::Picker(x))) == Ok::<Seq<(Seq<char>, ValueV)>, CallErrorV>(spec_action_args(Action::Picker(x))),
{
    match x {
        PickerAction::OpenPicker { source, query } => lemma_picker_action_open_picker_round_trip(source, query),
        PickerAction::SetPickerQuery { text } => lemma_picker_action_set_picker_query_round_trip(text),
        PickerAction::CyclePickerSource { delta } => lemma_picker_action_cycle_picker_source_round_trip(delta),
        PickerAction::PickerAccept { how } => lemma_picker_action_picker_accept_round_trip(how),
        PickerAction::TogglePickerPreview {} => lemma_picker_action_toggle_picker_preview_round_trip(),
        PickerAction::DefinePickerSource { source, body } => lemma_picker_action_define_picker_source_round_trip(source, body),
        PickerAction::InvalidatePickerSource { source } => lemma_picker_action_invalidate_picker_source_round_trip(source),
    }
}

#[verifier::spinoff_prover]
#[verifier::rlimit(100)]
proof fn lemma_prompt_action_open_prompt_round_trip(kind: PromptKind, seed: Option<String>, anchor: Option<Target>)
    requires
        spec_action_fits(Action::Prompt(PromptAction::OpenPrompt { kind, seed, anchor })),
    ensures
        spec_action_from_call(spec_action_name(Action::Prompt(PromptAction::OpenPrompt { kind, seed, anchor })), spec_action_args(Action::Prompt(PromptAction::OpenPrompt { kind, seed, anchor }))) == Ok::<Seq<(Seq<char>, ValueV)>, CallErrorV>(spec_action_args(Action::Prompt(PromptAction::OpenPrompt { kind, seed, anchor }))),
{
    lemma_action_names();
    reveal_strlit("anchor");
    reveal_strlit("kind");
    reveal_strlit("seed");
    let f = seq![("kind"@, kind.wire()), ("seed"@, seed.wire()), ("anchor"@, anchor.wire())];
    assert forall|i: int, j: int| 0 <= i < j < 3 implies f[i].0 != f[j].0 by {
        if i == 0 && j == 1 {
            assert("kind"@[0] != "seed"@[0]);
        } else if i == 0 && j == 2 {
            assert("kind"@[0] != "anchor"@[0]);
        } else if i == 1 && j == 2 {
            assert("seed"@[0] != "anchor"@[0]);
        }
    }
    assert(names_distinct(f));
    lemma_distinct_fields(f);
    assert(f[0].0 == "kind"@);
    <PromptKind as Wire>::lemma_wire_round_trip(kind);
    assert(f[1].0 == "seed"@);
    <Option<String> as Wire>::lemma_wire_round_trip(seed);
    assert(f[2].0 == "anchor"@);
    <Option<Target> as Wire>::lemma_wire_round_trip(anchor);
}

#[verifier::spinoff_prover]
#[verifier::rlimit(100)]
proof fn lemma_prompt_action_set_prompt_text_round_trip(text: String)
    requires
        spec_action_fits(Action::Prompt(PromptAction::SetPromptText { text })),
    ensures
        spec_action_from_call(spec_action_name(Action::Prompt(PromptAction::SetPromptText { text })), spec_action_args(Action::Prompt(PromptAction::SetPromptText { text }))) == Ok::<Seq<(Seq<char>, ValueV)>, CallErrorV>(spec_action_args(Action::Prompt(PromptAction::SetPromptText { text }))),
{
    lemma_action_names();
    reveal_strlit("text");
    let f = seq![("text"@, text.wire())];
    assert(names_distinct(f));
    lemma_distinct_fields(f);
    assert(f[0].0 == "text"@);
    <String as Wire>::lemma_wire_round_trip(text);
}

#[verifier::spinoff_prover]
#[verifier::rlimit(100)]
proof fn lemma_prompt_action_submit_prompt_round_trip()
    requires
        spec_action_fits(Action::Prompt(PromptAction::SubmitPrompt {})),
    ensures
        spec_action_from_call(spec_action_name(Action::Prompt(PromptAction::SubmitPrompt {})), spec_action_args(Action::Prompt(PromptAction::SubmitPrompt {}))) == Ok::<Seq<(Seq<char>, ValueV)>, CallErrorV>(spec_action_args(Action::Prompt(PromptAction::SubmitPrompt {}))),
{
    lemma_action_names();
}

#[verifier::spinoff_prover]
#[verifier::rlimit(100)]
proof fn lemma_prompt_action_cancel_prompt_round_trip()
    requires
        spec_action_fits(Action::Prompt(PromptAction::CancelPrompt {})),
    ensures
        spec_action_from_call(spec_action_name(Action::Prompt(PromptAction::CancelPrompt {})), spec_action_args(Action::Prompt(PromptAction::CancelPrompt {}))) == Ok::<Seq<(Seq<char>, ValueV)>, CallErrorV>(spec_action_args(Action::Prompt(PromptAction::CancelPrompt {}))),
{
    lemma_action_names();
}

#[verifier::spinoff_prover]
#[verifier::rlimit(100)]
proof fn lemma_prompt_action_prompt_history_round_trip(delta: i64)
    requires
        spec_action_fits(Action::Prompt(PromptAction::PromptHistory { delta })),
    ensures
        spec_action_from_call(spec_action_name(Action::Prompt(PromptAction::PromptHistory { delta })), spec_action_args(Action::Prompt(PromptAction::PromptHistory { delta }))) == Ok::<Seq<(Seq<char>, ValueV)>, CallErrorV>(spec_action_args(Action::Prompt(PromptAction::PromptHistory { delta }))),
{
    lemma_action_names();
    reveal_strlit("delta");
    let f = seq![("delta"@, delta.wire())];
    assert(names_distinct(f));
    lemma_distinct_fields(f);
    assert(f[0].0 == "delta"@);
    <i64 as Wire>::lemma_wire_round_trip(delta);
}

proof fn lemma_prompt_action_round_trip(x: PromptAction)
    requires
        spec_action_fits(Action::Prompt(x)),
    ensures
        spec_action_from_call(spec_action_name(Action::Prompt(x)), spec_action_args(Action::Prompt(x))) == Ok::<Seq<(Seq<char>, ValueV)>, CallErrorV>(spec_action_args(Action::Prompt(x))),
{
    match x {
        PromptAction::OpenPrompt { kind, seed, anchor } => lemma_prompt_action_open_prompt_round_trip(kind, seed, anchor),
        PromptAction::SetPromptText { text } => lemma_prompt_action_set_prompt_text_round_trip(text),
        PromptAction::SubmitPrompt {} => lemma_prompt_action_submit_prompt_round_trip(),
        PromptAction::CancelPrompt {} => lemma_prompt_action_cancel_prompt_round_trip(),
        PromptAction::PromptHistory { delta } => lemma_prompt_action_prompt_history_round_trip(delta),
    }
}

#[verifier::spinoff_prover]
#[verifier::rlimit(100)]
proof fn lemma_region_action_mark_seen_round_trip(target: Target)
    requires
        spec_action_fits(Action::Region(RegionAction::MarkSeen { target })),
    ensures
        spec_action_from_call(spec_action_name(Action::Region(RegionAction::MarkSeen { target })), spec_action_args(Action::Region(RegionAction::MarkSeen { target }))) == Ok::<Seq<(Seq<char>, ValueV)>, CallErrorV>(spec_action_args(Action::Region(RegionAction::MarkSeen { target }))),
{
    lemma_action_names();
    reveal_strlit("target");
    let f = seq![("target"@, target.wire())];
    assert(names_distinct(f));
    lemma_distinct_fields(f);
    assert(f[0].0 == "target"@);
    <Target as Wire>::lemma_wire_round_trip(target);
}

#[verifier::spinoff_prover]
#[verifier::rlimit(100)]
proof fn lemma_region_action_mark_unseen_round_trip(target: Target)
    requires
        spec_action_fits(Action::Region(RegionAction::MarkUnseen { target })),
    ensures
        spec_action_from_call(spec_action_name(Action::Region(RegionAction::MarkUnseen { target })), spec_action_args(Action::Region(RegionAction::MarkUnseen { target }))) == Ok::<Seq<(Seq<char>, ValueV)>, CallErrorV>(spec_action_args(Action::Region(RegionAction::MarkUnseen { target }))),
{
    lemma_action_names();
    reveal_strlit("target");
    let f = seq![("target"@, target.wire())];
    assert(names_distinct(f));
    lemma_distinct_fields(f);
    assert(f[0].0 == "target"@);
    <Target as Wire>::lemma_wire_round_trip(target);
}

#[verifier::spinoff_prover]
#[verifier::rlimit(100)]
proof fn lemma_region_action_declare_regions_round_trip(regions: Vec<RegionSpec>)
    requires
        spec_action_fits(Action::Region(RegionAction::DeclareRegions { regions })),
    ensures
        spec_action_from_call(spec_action_name(Action::Region(RegionAction::DeclareRegions { regions })), spec_action_args(Action::Region(RegionAction::DeclareRegions { regions }))) == Ok::<Seq<(Seq<char>, ValueV)>, CallErrorV>(spec_action_args(Action::Region(RegionAction::DeclareRegions { regions }))),
{
    lemma_action_names();
    reveal_strlit("regions");
    let f = seq![("regions"@, regions.wire())];
    assert(names_distinct(f));
    lemma_distinct_fields(f);
    assert(f[0].0 == "regions"@);
    <Vec<RegionSpec> as Wire>::lemma_wire_round_trip(regions);
}

#[verifier::spinoff_prover]
#[verifier::rlimit(100)]
proof fn lemma_region_action_place_anchor_round_trip(at: Target, label: Option<String>)
    requires
        spec_action_fits(Action::Region(RegionAction::PlaceAnchor { at, label })),
    ensures
        spec_action_from_call(spec_action_name(Action::Region(RegionAction::PlaceAnchor { at, label })), spec_action_args(Action::Region(RegionAction::PlaceAnchor { at, label }))) == Ok::<Seq<(Seq<char>, ValueV)>, CallErrorV>(spec_action_args(Action::Region(RegionAction::PlaceAnchor { at, label }))),
{
    lemma_action_names();
    reveal_strlit("at");
    reveal_strlit("label");
    let f = seq![("at"@, at.wire()), ("label"@, label.wire())];
    assert forall|i: int, j: int| 0 <= i < j < 2 implies f[i].0 != f[j].0 by {
        if i == 0 && j == 1 {
            assert("at"@[0] != "label"@[0]);
        }
    }
    assert(names_distinct(f));
    lemma_distinct_fields(f);
    assert(f[0].0 == "at"@);
    <Target as Wire>::lemma_wire_round_trip(at);
    assert(f[1].0 == "label"@);
    <Option<String> as Wire>::lemma_wire_round_trip(label);
}

#[verifier::spinoff_prover]
#[verifier::rlimit(100)]
proof fn lemma_region_action_reanchor_round_trip(path: String)
    requires
        spec_action_fits(Action::Region(RegionAction::Reanchor { path })),
    ensures
        spec_action_from_call(spec_action_name(Action::Region(RegionAction::Reanchor { path })), spec_action_args(Action::Region(RegionAction::Reanchor { path }))) == Ok::<Seq<(Seq<char>, ValueV)>, CallErrorV>(spec_action_args(Action::Region(RegionAction::Reanchor { path }))),
{
    lemma_action_names();
    reveal_strlit("path");
    let f = seq![("path"@, path.wire())];
    assert(names_distinct(f));
    lemma_distinct_fields(f);
    assert(f[0].0 == "path"@);
    <String as Wire>::lemma_wire_round_trip(path);
}

#[verifier::spinoff_prover]
#[verifier::rlimit(100)]
proof fn lemma_region_action_drop_regions_round_trip(target: Target)
    requires
        spec_action_fits(Action::Region(RegionAction::DropRegions { target })),
    ensures
        spec_action_from_call(spec_action_name(Action::Region(RegionAction::DropRegions { target })), spec_action_args(Action::Region(RegionAction::DropRegions { target }))) == Ok::<Seq<(Seq<char>, ValueV)>, CallErrorV>(spec_action_args(Action::Region(RegionAction::DropRegions { target }))),
{
    lemma_action_names();
    reveal_strlit("target");
    let f = seq![("target"@, target.wire())];
    assert(names_distinct(f));
    lemma_distinct_fields(f);
    assert(f[0].0 == "target"@);
    <Target as Wire>::lemma_wire_round_trip(target);
}

proof fn lemma_region_action_round_trip(x: RegionAction)
    requires
        spec_action_fits(Action::Region(x)),
    ensures
        spec_action_from_call(spec_action_name(Action::Region(x)), spec_action_args(Action::Region(x))) == Ok::<Seq<(Seq<char>, ValueV)>, CallErrorV>(spec_action_args(Action::Region(x))),
{
    match x {
        RegionAction::MarkSeen { target } => lemma_region_action_mark_seen_round_trip(target),
        RegionAction::MarkUnseen { target } => lemma_region_action_mark_unseen_round_trip(target),
        RegionAction::DeclareRegions { regions } => lemma_region_action_declare_regions_round_trip(regions),
        RegionAction::PlaceAnchor { at, label } => lemma_region_action_place_anchor_round_trip(at, label),
        RegionAction::Reanchor { path } => lemma_region_action_reanchor_round_trip(path),
        RegionAction::DropRegions { target } => lemma_region_action_drop_regions_round_trip(target),
    }
}

#[verifier::spinoff_prover]
#[verifier::rlimit(100)]
proof fn lemma_thread_action_start_thread_round_trip(anchor: Target, body: String)
    requires
        spec_action_fits(Action::Thread(ThreadAction::StartThread { anchor, body })),
    ensures
        spec_action_from_call(spec_action_name(Action::Thread(ThreadAction::StartThread { anchor, body })), spec_action_args(Action::Thread(ThreadAction::StartThread { anchor, body }))) == Ok::<Seq<(Seq<char>, ValueV)>, CallErrorV>(spec_action_args(Action::Thread(ThreadAction::StartThread { anchor, body }))),
{
    lemma_action_names();
    reveal_strlit("anchor");
    reveal_strlit("body");
    let f = seq![("anchor"@, anchor.wire()), ("body"@, body.wire())];
    assert forall|i: int, j: int| 0 <= i < j < 2 implies f[i].0 != f[j].0 by {
        if i == 0 && j == 1 {
            assert("anchor"@[0] != "body"@[0]);
        }
    }
    assert(names_distinct(f));
    lemma_distinct_fields(f);
    assert(f[0].0 == "anchor"@);
    <Target as Wire>::lemma_wire_round_trip(anchor);
    assert(f[1].0 == "body"@);
    <String as Wire>::lemma_wire_round_trip(body);
}

#[verifier::spinoff_prover]
#[verifier::rlimit(100)]
proof fn lemma_thread_action_reply_to_thread_round_trip(thread: ThreadId, body: String)
    requires
        spec_action_fits(Action::Thread(ThreadAction::ReplyToThread { thread, body })),
    ensures
        spec_action_from_call(spec_action_name(Action::Thread(ThreadAction::ReplyToThread { thread, body })), spec_action_args(Action::Thread(ThreadAction::ReplyToThread { thread, body }))) == Ok::<Seq<(Seq<char>, ValueV)>, CallErrorV>(spec_action_args(Action::Thread(ThreadAction::ReplyToThread { thread, body }))),
{
    lemma_action_names();
    reveal_strlit("body");
    reveal_strlit("thread");
    let f = seq![("thread"@, thread.wire()), ("body"@, body.wire())];
    assert forall|i: int, j: int| 0 <= i < j < 2 implies f[i].0 != f[j].0 by {
        if i == 0 && j == 1 {
            assert("thread"@[0] != "body"@[0]);
        }
    }
    assert(names_distinct(f));
    lemma_distinct_fields(f);
    assert(f[0].0 == "thread"@);
    <ThreadId as Wire>::lemma_wire_round_trip(thread);
    assert(f[1].0 == "body"@);
    <String as Wire>::lemma_wire_round_trip(body);
}

#[verifier::spinoff_prover]
#[verifier::rlimit(100)]
proof fn lemma_thread_action_resolve_thread_round_trip(thread: ThreadId)
    requires
        spec_action_fits(Action::Thread(ThreadAction::ResolveThread { thread })),
    ensures
        spec_action_from_call(spec_action_name(Action::Thread(ThreadAction::ResolveThread { thread })), spec_action_args(Action::Thread(ThreadAction::ResolveThread { thread }))) == Ok::<Seq<(Seq<char>, ValueV)>, CallErrorV>(spec_action_args(Action::Thread(ThreadAction::ResolveThread { thread }))),
{
    lemma_action_names();
    reveal_strlit("thread");
    let f = seq![("thread"@, thread.wire())];
    assert(names_distinct(f));
    lemma_distinct_fields(f);
    assert(f[0].0 == "thread"@);
    <ThreadId as Wire>::lemma_wire_round_trip(thread);
}

#[verifier::spinoff_prover]
#[verifier::rlimit(100)]
proof fn lemma_thread_action_delete_thread_round_trip(thread: ThreadId)
    requires
        spec_action_fits(Action::Thread(ThreadAction::DeleteThread { thread })),
    ensures
        spec_action_from_call(spec_action_name(Action::Thread(ThreadAction::DeleteThread { thread })), spec_action_args(Action::Thread(ThreadAction::DeleteThread { thread }))) == Ok::<Seq<(Seq<char>, ValueV)>, CallErrorV>(spec_action_args(Action::Thread(ThreadAction::DeleteThread { thread }))),
{
    lemma_action_names();
    reveal_strlit("thread");
    let f = seq![("thread"@, thread.wire())];
    assert(names_distinct(f));
    lemma_distinct_fields(f);
    assert(f[0].0 == "thread"@);
    <ThreadId as Wire>::lemma_wire_round_trip(thread);
}

#[verifier::spinoff_prover]
#[verifier::rlimit(100)]
proof fn lemma_thread_action_broadcast_thread_round_trip(pattern: String, body: String)
    requires
        spec_action_fits(Action::Thread(ThreadAction::BroadcastThread { pattern, body })),
    ensures
        spec_action_from_call(spec_action_name(Action::Thread(ThreadAction::BroadcastThread { pattern, body })), spec_action_args(Action::Thread(ThreadAction::BroadcastThread { pattern, body }))) == Ok::<Seq<(Seq<char>, ValueV)>, CallErrorV>(spec_action_args(Action::Thread(ThreadAction::BroadcastThread { pattern, body }))),
{
    lemma_action_names();
    reveal_strlit("body");
    reveal_strlit("pattern");
    let f = seq![("pattern"@, pattern.wire()), ("body"@, body.wire())];
    assert forall|i: int, j: int| 0 <= i < j < 2 implies f[i].0 != f[j].0 by {
        if i == 0 && j == 1 {
            assert("pattern"@[0] != "body"@[0]);
        }
    }
    assert(names_distinct(f));
    lemma_distinct_fields(f);
    assert(f[0].0 == "pattern"@);
    <String as Wire>::lemma_wire_round_trip(pattern);
    assert(f[1].0 == "body"@);
    <String as Wire>::lemma_wire_round_trip(body);
}

proof fn lemma_thread_action_round_trip(x: ThreadAction)
    requires
        spec_action_fits(Action::Thread(x)),
    ensures
        spec_action_from_call(spec_action_name(Action::Thread(x)), spec_action_args(Action::Thread(x))) == Ok::<Seq<(Seq<char>, ValueV)>, CallErrorV>(spec_action_args(Action::Thread(x))),
{
    match x {
        ThreadAction::StartThread { anchor, body } => lemma_thread_action_start_thread_round_trip(anchor, body),
        ThreadAction::ReplyToThread { thread, body } => lemma_thread_action_reply_to_thread_round_trip(thread, body),
        ThreadAction::ResolveThread { thread } => lemma_thread_action_resolve_thread_round_trip(thread),
        ThreadAction::DeleteThread { thread } => lemma_thread_action_delete_thread_round_trip(thread),
        ThreadAction::BroadcastThread { pattern, body } => lemma_thread_action_broadcast_thread_round_trip(pattern, body),
    }
}

#[verifier::spinoff_prover]
#[verifier::rlimit(100)]
proof fn lemma_review_action_declare_review_block_round_trip(title: String, files: Vec<FileGroup>, annotation: Option<String>)
    requires
        spec_action_fits(Action::Review(ReviewAction::DeclareReviewBlock { title, files, annotation })),
    ensures
        spec_action_from_call(spec_action_name(Action::Review(ReviewAction::DeclareReviewBlock { title, files, annotation })), spec_action_args(Action::Review(ReviewAction::DeclareReviewBlock { title, files, annotation }))) == Ok::<Seq<(Seq<char>, ValueV)>, CallErrorV>(spec_action_args(Action::Review(ReviewAction::DeclareReviewBlock { title, files, annotation }))),
{
    lemma_action_names();
    reveal_strlit("annotation");
    reveal_strlit("files");
    reveal_strlit("title");
    let f = seq![("title"@, title.wire()), ("files"@, files.wire()), ("annotation"@, annotation.wire())];
    assert forall|i: int, j: int| 0 <= i < j < 3 implies f[i].0 != f[j].0 by {
        if i == 0 && j == 1 {
            assert("title"@[0] != "files"@[0]);
        } else if i == 0 && j == 2 {
            assert("title"@[0] != "annotation"@[0]);
        } else if i == 1 && j == 2 {
            assert("files"@[0] != "annotation"@[0]);
        }
    }
    assert(names_distinct(f));
    lemma_distinct_fields(f);
    assert(f[0].0 == "title"@);
    <String as Wire>::lemma_wire_round_trip(title);
    assert(f[1].0 == "files"@);
    <Vec<FileGroup> as Wire>::lemma_wire_round_trip(files);
    assert(f[2].0 == "annotation"@);
    <Option<String> as Wire>::lemma_wire_round_trip(annotation);
}

#[verifier::spinoff_prover]
#[verifier::rlimit(100)]
proof fn lemma_review_action_open_review_block_round_trip(block: BlockId)
    requires
        spec_action_fits(Action::Review(ReviewAction::OpenReviewBlock { block })),
    ensures
        spec_action_from_call(spec_action_name(Action::Review(ReviewAction::OpenReviewBlock { block })), spec_action_args(Action::Review(ReviewAction::OpenReviewBlock { block }))) == Ok::<Seq<(Seq<char>, ValueV)>, CallErrorV>(spec_action_args(Action::Review(ReviewAction::OpenReviewBlock { block }))),
{
    lemma_action_names();
    reveal_strlit("block");
    let f = seq![("block"@, block.wire())];
    assert(names_distinct(f));
    lemma_distinct_fields(f);
    assert(f[0].0 == "block"@);
    <BlockId as Wire>::lemma_wire_round_trip(block);
}

#[verifier::spinoff_prover]
#[verifier::rlimit(100)]
proof fn lemma_review_action_set_diff_mode_round_trip(mode: DiffMode)
    requires
        spec_action_fits(Action::Review(ReviewAction::SetDiffMode { mode })),
    ensures
        spec_action_from_call(spec_action_name(Action::Review(ReviewAction::SetDiffMode { mode })), spec_action_args(Action::Review(ReviewAction::SetDiffMode { mode }))) == Ok::<Seq<(Seq<char>, ValueV)>, CallErrorV>(spec_action_args(Action::Review(ReviewAction::SetDiffMode { mode }))),
{
    lemma_action_names();
    reveal_strlit("mode");
    let f = seq![("mode"@, mode.wire())];
    assert(names_distinct(f));
    lemma_distinct_fields(f);
    assert(f[0].0 == "mode"@);
    <DiffMode as Wire>::lemma_wire_round_trip(mode);
}

#[verifier::spinoff_prover]
#[verifier::rlimit(100)]
proof fn lemma_review_action_expand_diff_context_round_trip(hunk: HunkId, lines: u32)
    requires
        spec_action_fits(Action::Review(ReviewAction::ExpandDiffContext { hunk, lines })),
    ensures
        spec_action_from_call(spec_action_name(Action::Review(ReviewAction::ExpandDiffContext { hunk, lines })), spec_action_args(Action::Review(ReviewAction::ExpandDiffContext { hunk, lines }))) == Ok::<Seq<(Seq<char>, ValueV)>, CallErrorV>(spec_action_args(Action::Review(ReviewAction::ExpandDiffContext { hunk, lines }))),
{
    lemma_action_names();
    reveal_strlit("hunk");
    reveal_strlit("lines");
    let f = seq![("hunk"@, hunk.wire()), ("lines"@, lines.wire())];
    assert forall|i: int, j: int| 0 <= i < j < 2 implies f[i].0 != f[j].0 by {
        if i == 0 && j == 1 {
            assert("hunk"@[0] != "lines"@[0]);
        }
    }
    assert(names_distinct(f));
    lemma_distinct_fields(f);
    assert(f[0].0 == "hunk"@);
    <HunkId as Wire>::lemma_wire_round_trip(hunk);
    assert(f[1].0 == "lines"@);
    <u32 as Wire>::lemma_wire_round_trip(lines);
}

#[verifier::spinoff_prover]
#[verifier::rlimit(100)]
proof fn lemma_review_action_set_diff_grouping_round_trip(grouping: Grouping)
    requires
        spec_action_fits(Action::Review(ReviewAction::SetDiffGrouping { grouping })),
    ensures
        spec_action_from_call(spec_action_name(Action::Review(ReviewAction::SetDiffGrouping { grouping })), spec_action_args(Action::Review(ReviewAction::SetDiffGrouping { grouping }))) == Ok::<Seq<(Seq<char>, ValueV)>, CallErrorV>(spec_action_args(Action::Review(ReviewAction::SetDiffGrouping { grouping }))),
{
    lemma_action_names();
    reveal_strlit("grouping");
    let f = seq![("grouping"@, grouping.wire())];
    assert(names_distinct(f));
    lemma_distinct_fields(f);
    assert(f[0].0 == "grouping"@);
    <Grouping as Wire>::lemma_wire_round_trip(grouping);
}

#[verifier::spinoff_prover]
#[verifier::rlimit(100)]
proof fn lemma_review_action_annotate_group_round_trip(group: GroupId, text: String)
    requires
        spec_action_fits(Action::Review(ReviewAction::AnnotateGroup { group, text })),
    ensures
        spec_action_from_call(spec_action_name(Action::Review(ReviewAction::AnnotateGroup { group, text })), spec_action_args(Action::Review(ReviewAction::AnnotateGroup { group, text }))) == Ok::<Seq<(Seq<char>, ValueV)>, CallErrorV>(spec_action_args(Action::Review(ReviewAction::AnnotateGroup { group, text }))),
{
    lemma_action_names();
    reveal_strlit("group");
    reveal_strlit("text");
    let f = seq![("group"@, group.wire()), ("text"@, text.wire())];
    assert forall|i: int, j: int| 0 <= i < j < 2 implies f[i].0 != f[j].0 by {
        if i == 0 && j == 1 {
            assert("group"@[0] != "text"@[0]);
        }
    }
    assert(names_distinct(f));
    lemma_distinct_fields(f);
    assert(f[0].0 == "group"@);
    <GroupId as Wire>::lemma_wire_round_trip(group);
    assert(f[1].0 == "text"@);
    <String as Wire>::lemma_wire_round_trip(text);
}

#[verifier::spinoff_prover]
#[verifier::rlimit(100)]
proof fn lemma_review_action_revert_hunk_round_trip(hunk: HunkId)
    requires
        spec_action_fits(Action::Review(ReviewAction::RevertHunk { hunk })),
    ensures
        spec_action_from_call(spec_action_name(Action::Review(ReviewAction::RevertHunk { hunk })), spec_action_args(Action::Review(ReviewAction::RevertHunk { hunk }))) == Ok::<Seq<(Seq<char>, ValueV)>, CallErrorV>(spec_action_args(Action::Review(ReviewAction::RevertHunk { hunk }))),
{
    lemma_action_names();
    reveal_strlit("hunk");
    let f = seq![("hunk"@, hunk.wire())];
    assert(names_distinct(f));
    lemma_distinct_fields(f);
    assert(f[0].0 == "hunk"@);
    <HunkId as Wire>::lemma_wire_round_trip(hunk);
}

#[verifier::spinoff_prover]
#[verifier::rlimit(100)]
proof fn lemma_review_action_open_hunk_peek_round_trip(target: Target)
    requires
        spec_action_fits(Action::Review(ReviewAction::OpenHunkPeek { target })),
    ensures
        spec_action_from_call(spec_action_name(Action::Review(ReviewAction::OpenHunkPeek { target })), spec_action_args(Action::Review(ReviewAction::OpenHunkPeek { target }))) == Ok::<Seq<(Seq<char>, ValueV)>, CallErrorV>(spec_action_args(Action::Review(ReviewAction::OpenHunkPeek { target }))),
{
    lemma_action_names();
    reveal_strlit("target");
    let f = seq![("target"@, target.wire())];
    assert(names_distinct(f));
    lemma_distinct_fields(f);
    assert(f[0].0 == "target"@);
    <Target as Wire>::lemma_wire_round_trip(target);
}

proof fn lemma_review_action_round_trip(x: ReviewAction)
    requires
        spec_action_fits(Action::Review(x)),
    ensures
        spec_action_from_call(spec_action_name(Action::Review(x)), spec_action_args(Action::Review(x))) == Ok::<Seq<(Seq<char>, ValueV)>, CallErrorV>(spec_action_args(Action::Review(x))),
{
    match x {
        ReviewAction::DeclareReviewBlock { title, files, annotation } => lemma_review_action_declare_review_block_round_trip(title, files, annotation),
        ReviewAction::OpenReviewBlock { block } => lemma_review_action_open_review_block_round_trip(block),
        ReviewAction::SetDiffMode { mode } => lemma_review_action_set_diff_mode_round_trip(mode),
        ReviewAction::ExpandDiffContext { hunk, lines } => lemma_review_action_expand_diff_context_round_trip(hunk, lines),
        ReviewAction::SetDiffGrouping { grouping } => lemma_review_action_set_diff_grouping_round_trip(grouping),
        ReviewAction::AnnotateGroup { group, text } => lemma_review_action_annotate_group_round_trip(group, text),
        ReviewAction::RevertHunk { hunk } => lemma_review_action_revert_hunk_round_trip(hunk),
        ReviewAction::OpenHunkPeek { target } => lemma_review_action_open_hunk_peek_round_trip(target),
    }
}

#[verifier::spinoff_prover]
#[verifier::rlimit(100)]
proof fn lemma_inbox_action_open_inbox_round_trip()
    requires
        spec_action_fits(Action::Inbox(InboxAction::OpenInbox {})),
    ensures
        spec_action_from_call(spec_action_name(Action::Inbox(InboxAction::OpenInbox {})), spec_action_args(Action::Inbox(InboxAction::OpenInbox {}))) == Ok::<Seq<(Seq<char>, ValueV)>, CallErrorV>(spec_action_args(Action::Inbox(InboxAction::OpenInbox {}))),
{
    lemma_action_names();
}

#[verifier::spinoff_prover]
#[verifier::rlimit(100)]
proof fn lemma_inbox_action_open_inbox_item_round_trip(item: InboxId)
    requires
        spec_action_fits(Action::Inbox(InboxAction::OpenInboxItem { item })),
    ensures
        spec_action_from_call(spec_action_name(Action::Inbox(InboxAction::OpenInboxItem { item })), spec_action_args(Action::Inbox(InboxAction::OpenInboxItem { item }))) == Ok::<Seq<(Seq<char>, ValueV)>, CallErrorV>(spec_action_args(Action::Inbox(InboxAction::OpenInboxItem { item }))),
{
    lemma_action_names();
    reveal_strlit("item");
    let f = seq![("item"@, item.wire())];
    assert(names_distinct(f));
    lemma_distinct_fields(f);
    assert(f[0].0 == "item"@);
    <InboxId as Wire>::lemma_wire_round_trip(item);
}

#[verifier::spinoff_prover]
#[verifier::rlimit(100)]
proof fn lemma_inbox_action_notify_round_trip(severity: Severity, title: String, body: Option<String>, anchor: Option<Target>)
    requires
        spec_action_fits(Action::Inbox(InboxAction::Notify { severity, title, body, anchor })),
    ensures
        spec_action_from_call(spec_action_name(Action::Inbox(InboxAction::Notify { severity, title, body, anchor })), spec_action_args(Action::Inbox(InboxAction::Notify { severity, title, body, anchor }))) == Ok::<Seq<(Seq<char>, ValueV)>, CallErrorV>(spec_action_args(Action::Inbox(InboxAction::Notify { severity, title, body, anchor }))),
{
    lemma_action_names();
    reveal_strlit("anchor");
    reveal_strlit("body");
    reveal_strlit("severity");
    reveal_strlit("title");
    let f = seq![("severity"@, severity.wire()), ("title"@, title.wire()), ("body"@, body.wire()), ("anchor"@, anchor.wire())];
    assert forall|i: int, j: int| 0 <= i < j < 4 implies f[i].0 != f[j].0 by {
        if i == 0 && j == 1 {
            assert("severity"@[0] != "title"@[0]);
        } else if i == 0 && j == 2 {
            assert("severity"@[0] != "body"@[0]);
        } else if i == 0 && j == 3 {
            assert("severity"@[0] != "anchor"@[0]);
        } else if i == 1 && j == 2 {
            assert("title"@[0] != "body"@[0]);
        } else if i == 1 && j == 3 {
            assert("title"@[0] != "anchor"@[0]);
        } else if i == 2 && j == 3 {
            assert("body"@[0] != "anchor"@[0]);
        }
    }
    assert(names_distinct(f));
    lemma_distinct_fields(f);
    assert(f[0].0 == "severity"@);
    <Severity as Wire>::lemma_wire_round_trip(severity);
    assert(f[1].0 == "title"@);
    <String as Wire>::lemma_wire_round_trip(title);
    assert(f[2].0 == "body"@);
    <Option<String> as Wire>::lemma_wire_round_trip(body);
    assert(f[3].0 == "anchor"@);
    <Option<Target> as Wire>::lemma_wire_round_trip(anchor);
}

proof fn lemma_inbox_action_round_trip(x: InboxAction)
    requires
        spec_action_fits(Action::Inbox(x)),
    ensures
        spec_action_from_call(spec_action_name(Action::Inbox(x)), spec_action_args(Action::Inbox(x))) == Ok::<Seq<(Seq<char>, ValueV)>, CallErrorV>(spec_action_args(Action::Inbox(x))),
{
    match x {
        InboxAction::OpenInbox {} => lemma_inbox_action_open_inbox_round_trip(),
        InboxAction::OpenInboxItem { item } => lemma_inbox_action_open_inbox_item_round_trip(item),
        InboxAction::Notify { severity, title, body, anchor } => lemma_inbox_action_notify_round_trip(severity, title, body, anchor),
    }
}

#[verifier::spinoff_prover]
#[verifier::rlimit(100)]
proof fn lemma_ask_action_enqueue_ask_round_trip(prose: String, options: Vec<AskOption>)
    requires
        spec_action_fits(Action::Ask(AskAction::EnqueueAsk { prose, options })),
    ensures
        spec_action_from_call(spec_action_name(Action::Ask(AskAction::EnqueueAsk { prose, options })), spec_action_args(Action::Ask(AskAction::EnqueueAsk { prose, options }))) == Ok::<Seq<(Seq<char>, ValueV)>, CallErrorV>(spec_action_args(Action::Ask(AskAction::EnqueueAsk { prose, options }))),
{
    lemma_action_names();
    reveal_strlit("options");
    reveal_strlit("prose");
    let f = seq![("prose"@, prose.wire()), ("options"@, options.wire())];
    assert forall|i: int, j: int| 0 <= i < j < 2 implies f[i].0 != f[j].0 by {
        if i == 0 && j == 1 {
            assert("prose"@[0] != "options"@[0]);
        }
    }
    assert(names_distinct(f));
    lemma_distinct_fields(f);
    assert(f[0].0 == "prose"@);
    <String as Wire>::lemma_wire_round_trip(prose);
    assert(f[1].0 == "options"@);
    <Vec<AskOption> as Wire>::lemma_wire_round_trip(options);
}

#[verifier::spinoff_prover]
#[verifier::rlimit(100)]
proof fn lemma_ask_action_answer_ask_round_trip(ask: AskId, digit: Option<u32>, prose: Option<String>)
    requires
        spec_action_fits(Action::Ask(AskAction::AnswerAsk { ask, digit, prose })),
    ensures
        spec_action_from_call(spec_action_name(Action::Ask(AskAction::AnswerAsk { ask, digit, prose })), spec_action_args(Action::Ask(AskAction::AnswerAsk { ask, digit, prose }))) == Ok::<Seq<(Seq<char>, ValueV)>, CallErrorV>(spec_action_args(Action::Ask(AskAction::AnswerAsk { ask, digit, prose }))),
{
    lemma_action_names();
    reveal_strlit("ask");
    reveal_strlit("digit");
    reveal_strlit("prose");
    let f = seq![("ask"@, ask.wire()), ("digit"@, digit.wire()), ("prose"@, prose.wire())];
    assert forall|i: int, j: int| 0 <= i < j < 3 implies f[i].0 != f[j].0 by {
        if i == 0 && j == 1 {
            assert("ask"@[0] != "digit"@[0]);
        } else if i == 0 && j == 2 {
            assert("ask"@[0] != "prose"@[0]);
        } else if i == 1 && j == 2 {
            assert("digit"@[0] != "prose"@[0]);
        }
    }
    assert(names_distinct(f));
    lemma_distinct_fields(f);
    assert(f[0].0 == "ask"@);
    <AskId as Wire>::lemma_wire_round_trip(ask);
    assert(f[1].0 == "digit"@);
    <Option<u32> as Wire>::lemma_wire_round_trip(digit);
    assert(f[2].0 == "prose"@);
    <Option<String> as Wire>::lemma_wire_round_trip(prose);
}

#[verifier::spinoff_prover]
#[verifier::rlimit(100)]
proof fn lemma_ask_action_defer_ask_round_trip(ask: Option<AskId>)
    requires
        spec_action_fits(Action::Ask(AskAction::DeferAsk { ask })),
    ensures
        spec_action_from_call(spec_action_name(Action::Ask(AskAction::DeferAsk { ask })), spec_action_args(Action::Ask(AskAction::DeferAsk { ask }))) == Ok::<Seq<(Seq<char>, ValueV)>, CallErrorV>(spec_action_args(Action::Ask(AskAction::DeferAsk { ask }))),
{
    lemma_action_names();
    reveal_strlit("ask");
    let f = seq![("ask"@, ask.wire())];
    assert(names_distinct(f));
    lemma_distinct_fields(f);
    assert(f[0].0 == "ask"@);
    <Option<AskId> as Wire>::lemma_wire_round_trip(ask);
}

#[verifier::spinoff_prover]
#[verifier::rlimit(100)]
proof fn lemma_ask_action_request_permission_round_trip(invocation: String, files: Vec<String>)
    requires
        spec_action_fits(Action::Ask(AskAction::RequestPermission { invocation, files })),
    ensures
        spec_action_from_call(spec_action_name(Action::Ask(AskAction::RequestPermission { invocation, files })), spec_action_args(Action::Ask(AskAction::RequestPermission { invocation, files }))) == Ok::<Seq<(Seq<char>, ValueV)>, CallErrorV>(spec_action_args(Action::Ask(AskAction::RequestPermission { invocation, files }))),
{
    lemma_action_names();
    reveal_strlit("files");
    reveal_strlit("invocation");
    let f = seq![("invocation"@, invocation.wire()), ("files"@, files.wire())];
    assert forall|i: int, j: int| 0 <= i < j < 2 implies f[i].0 != f[j].0 by {
        if i == 0 && j == 1 {
            assert("invocation"@[0] != "files"@[0]);
        }
    }
    assert(names_distinct(f));
    lemma_distinct_fields(f);
    assert(f[0].0 == "invocation"@);
    <String as Wire>::lemma_wire_round_trip(invocation);
    assert(f[1].0 == "files"@);
    <Vec<String> as Wire>::lemma_wire_round_trip(files);
}

#[verifier::spinoff_prover]
#[verifier::rlimit(100)]
proof fn lemma_ask_action_grant_permission_round_trip(ask: AskId, scope: GrantScope)
    requires
        spec_action_fits(Action::Ask(AskAction::GrantPermission { ask, scope })),
    ensures
        spec_action_from_call(spec_action_name(Action::Ask(AskAction::GrantPermission { ask, scope })), spec_action_args(Action::Ask(AskAction::GrantPermission { ask, scope }))) == Ok::<Seq<(Seq<char>, ValueV)>, CallErrorV>(spec_action_args(Action::Ask(AskAction::GrantPermission { ask, scope }))),
{
    lemma_action_names();
    reveal_strlit("ask");
    reveal_strlit("scope");
    let f = seq![("ask"@, ask.wire()), ("scope"@, scope.wire())];
    assert forall|i: int, j: int| 0 <= i < j < 2 implies f[i].0 != f[j].0 by {
        if i == 0 && j == 1 {
            assert("ask"@[0] != "scope"@[0]);
        }
    }
    assert(names_distinct(f));
    lemma_distinct_fields(f);
    assert(f[0].0 == "ask"@);
    <AskId as Wire>::lemma_wire_round_trip(ask);
    assert(f[1].0 == "scope"@);
    <GrantScope as Wire>::lemma_wire_round_trip(scope);
}

#[verifier::spinoff_prover]
#[verifier::rlimit(100)]
proof fn lemma_ask_action_deny_permission_round_trip(ask: AskId)
    requires
        spec_action_fits(Action::Ask(AskAction::DenyPermission { ask })),
    ensures
        spec_action_from_call(spec_action_name(Action::Ask(AskAction::DenyPermission { ask })), spec_action_args(Action::Ask(AskAction::DenyPermission { ask }))) == Ok::<Seq<(Seq<char>, ValueV)>, CallErrorV>(spec_action_args(Action::Ask(AskAction::DenyPermission { ask }))),
{
    lemma_action_names();
    reveal_strlit("ask");
    let f = seq![("ask"@, ask.wire())];
    assert(names_distinct(f));
    lemma_distinct_fields(f);
    assert(f[0].0 == "ask"@);
    <AskId as Wire>::lemma_wire_round_trip(ask);
}

proof fn lemma_ask_action_round_trip(x: AskAction)
    requires
        spec_action_fits(Action::Ask(x)),
    ensures
        spec_action_from_call(spec_action_name(Action::Ask(x)), spec_action_args(Action::Ask(x))) == Ok::<Seq<(Seq<char>, ValueV)>, CallErrorV>(spec_action_args(Action::Ask(x))),
{
    match x {
        AskAction::EnqueueAsk { prose, options } => lemma_ask_action_enqueue_ask_round_trip(prose, options),
        AskAction::AnswerAsk { ask, digit, prose } => lemma_ask_action_answer_ask_round_trip(ask, digit, prose),
        AskAction::DeferAsk { ask } => lemma_ask_action_defer_ask_round_trip(ask),
        AskAction::RequestPermission { invocation, files } => lemma_ask_action_request_permission_round_trip(invocation, files),
        AskAction::GrantPermission { ask, scope } => lemma_ask_action_grant_permission_round_trip(ask, scope),
        AskAction::DenyPermission { ask } => lemma_ask_action_deny_permission_round_trip(ask),
    }
}

#[verifier::spinoff_prover]
#[verifier::rlimit(100)]
proof fn lemma_session_action_start_session_round_trip(agent: String, cwd: Option<String>)
    requires
        spec_action_fits(Action::Session(SessionAction::StartSession { agent, cwd })),
    ensures
        spec_action_from_call(spec_action_name(Action::Session(SessionAction::StartSession { agent, cwd })), spec_action_args(Action::Session(SessionAction::StartSession { agent, cwd }))) == Ok::<Seq<(Seq<char>, ValueV)>, CallErrorV>(spec_action_args(Action::Session(SessionAction::StartSession { agent, cwd }))),
{
    lemma_action_names();
    reveal_strlit("agent");
    reveal_strlit("cwd");
    let f = seq![("agent"@, agent.wire()), ("cwd"@, cwd.wire())];
    assert forall|i: int, j: int| 0 <= i < j < 2 implies f[i].0 != f[j].0 by {
        if i == 0 && j == 1 {
            assert("agent"@[0] != "cwd"@[0]);
        }
    }
    assert(names_distinct(f));
    lemma_distinct_fields(f);
    assert(f[0].0 == "agent"@);
    <String as Wire>::lemma_wire_round_trip(agent);
    assert(f[1].0 == "cwd"@);
    <Option<String> as Wire>::lemma_wire_round_trip(cwd);
}

#[verifier::spinoff_prover]
#[verifier::rlimit(100)]
proof fn lemma_session_action_discover_sessions_round_trip()
    requires
        spec_action_fits(Action::Session(SessionAction::DiscoverSessions {})),
    ensures
        spec_action_from_call(spec_action_name(Action::Session(SessionAction::DiscoverSessions {})), spec_action_args(Action::Session(SessionAction::DiscoverSessions {}))) == Ok::<Seq<(Seq<char>, ValueV)>, CallErrorV>(spec_action_args(Action::Session(SessionAction::DiscoverSessions {}))),
{
    lemma_action_names();
}

#[verifier::spinoff_prover]
#[verifier::rlimit(100)]
proof fn lemma_session_action_adopt_session_round_trip(handle: String)
    requires
        spec_action_fits(Action::Session(SessionAction::AdoptSession { handle })),
    ensures
        spec_action_from_call(spec_action_name(Action::Session(SessionAction::AdoptSession { handle })), spec_action_args(Action::Session(SessionAction::AdoptSession { handle }))) == Ok::<Seq<(Seq<char>, ValueV)>, CallErrorV>(spec_action_args(Action::Session(SessionAction::AdoptSession { handle }))),
{
    lemma_action_names();
    reveal_strlit("handle");
    let f = seq![("handle"@, handle.wire())];
    assert(names_distinct(f));
    lemma_distinct_fields(f);
    assert(f[0].0 == "handle"@);
    <String as Wire>::lemma_wire_round_trip(handle);
}

#[verifier::spinoff_prover]
#[verifier::rlimit(100)]
proof fn lemma_session_action_attach_session_round_trip(endpoint: String)
    requires
        spec_action_fits(Action::Session(SessionAction::AttachSession { endpoint })),
    ensures
        spec_action_from_call(spec_action_name(Action::Session(SessionAction::AttachSession { endpoint })), spec_action_args(Action::Session(SessionAction::AttachSession { endpoint }))) == Ok::<Seq<(Seq<char>, ValueV)>, CallErrorV>(spec_action_args(Action::Session(SessionAction::AttachSession { endpoint }))),
{
    lemma_action_names();
    reveal_strlit("endpoint");
    let f = seq![("endpoint"@, endpoint.wire())];
    assert(names_distinct(f));
    lemma_distinct_fields(f);
    assert(f[0].0 == "endpoint"@);
    <String as Wire>::lemma_wire_round_trip(endpoint);
}

#[verifier::spinoff_prover]
#[verifier::rlimit(100)]
proof fn lemma_session_action_reattach_session_round_trip()
    requires
        spec_action_fits(Action::Session(SessionAction::ReattachSession {})),
    ensures
        spec_action_from_call(spec_action_name(Action::Session(SessionAction::ReattachSession {})), spec_action_args(Action::Session(SessionAction::ReattachSession {}))) == Ok::<Seq<(Seq<char>, ValueV)>, CallErrorV>(spec_action_args(Action::Session(SessionAction::ReattachSession {}))),
{
    lemma_action_names();
}

#[verifier::spinoff_prover]
#[verifier::rlimit(100)]
proof fn lemma_session_action_detach_session_round_trip()
    requires
        spec_action_fits(Action::Session(SessionAction::DetachSession {})),
    ensures
        spec_action_from_call(spec_action_name(Action::Session(SessionAction::DetachSession {})), spec_action_args(Action::Session(SessionAction::DetachSession {}))) == Ok::<Seq<(Seq<char>, ValueV)>, CallErrorV>(spec_action_args(Action::Session(SessionAction::DetachSession {}))),
{
    lemma_action_names();
}

#[verifier::spinoff_prover]
#[verifier::rlimit(100)]
proof fn lemma_session_action_end_session_round_trip(force: bool)
    requires
        spec_action_fits(Action::Session(SessionAction::EndSession { force })),
    ensures
        spec_action_from_call(spec_action_name(Action::Session(SessionAction::EndSession { force })), spec_action_args(Action::Session(SessionAction::EndSession { force }))) == Ok::<Seq<(Seq<char>, ValueV)>, CallErrorV>(spec_action_args(Action::Session(SessionAction::EndSession { force }))),
{
    lemma_action_names();
    reveal_strlit("force");
    let f = seq![("force"@, force.wire())];
    assert(names_distinct(f));
    lemma_distinct_fields(f);
    assert(f[0].0 == "force"@);
    <bool as Wire>::lemma_wire_round_trip(force);
}

#[verifier::spinoff_prover]
#[verifier::rlimit(100)]
proof fn lemma_session_action_send_message_round_trip(body: String, anchors: Vec<Target>)
    requires
        spec_action_fits(Action::Session(SessionAction::SendMessage { body, anchors })),
    ensures
        spec_action_from_call(spec_action_name(Action::Session(SessionAction::SendMessage { body, anchors })), spec_action_args(Action::Session(SessionAction::SendMessage { body, anchors }))) == Ok::<Seq<(Seq<char>, ValueV)>, CallErrorV>(spec_action_args(Action::Session(SessionAction::SendMessage { body, anchors }))),
{
    lemma_action_names();
    reveal_strlit("anchors");
    reveal_strlit("body");
    let f = seq![("body"@, body.wire()), ("anchors"@, anchors.wire())];
    assert forall|i: int, j: int| 0 <= i < j < 2 implies f[i].0 != f[j].0 by {
        if i == 0 && j == 1 {
            assert("body"@[0] != "anchors"@[0]);
        }
    }
    assert(names_distinct(f));
    lemma_distinct_fields(f);
    assert(f[0].0 == "body"@);
    <String as Wire>::lemma_wire_round_trip(body);
    assert(f[1].0 == "anchors"@);
    <Vec<Target> as Wire>::lemma_wire_round_trip(anchors);
}

#[verifier::spinoff_prover]
#[verifier::rlimit(100)]
proof fn lemma_session_action_interrupt_session_round_trip()
    requires
        spec_action_fits(Action::Session(SessionAction::InterruptSession {})),
    ensures
        spec_action_from_call(spec_action_name(Action::Session(SessionAction::InterruptSession {})), spec_action_args(Action::Session(SessionAction::InterruptSession {}))) == Ok::<Seq<(Seq<char>, ValueV)>, CallErrorV>(spec_action_args(Action::Session(SessionAction::InterruptSession {}))),
{
    lemma_action_names();
}

#[verifier::spinoff_prover]
#[verifier::rlimit(100)]
proof fn lemma_session_action_steer_session_round_trip(body: String)
    requires
        spec_action_fits(Action::Session(SessionAction::SteerSession { body })),
    ensures
        spec_action_from_call(spec_action_name(Action::Session(SessionAction::SteerSession { body })), spec_action_args(Action::Session(SessionAction::SteerSession { body }))) == Ok::<Seq<(Seq<char>, ValueV)>, CallErrorV>(spec_action_args(Action::Session(SessionAction::SteerSession { body }))),
{
    lemma_action_names();
    reveal_strlit("body");
    let f = seq![("body"@, body.wire())];
    assert(names_distinct(f));
    lemma_distinct_fields(f);
    assert(f[0].0 == "body"@);
    <String as Wire>::lemma_wire_round_trip(body);
}

#[verifier::spinoff_prover]
#[verifier::rlimit(100)]
proof fn lemma_session_action_resume_session_round_trip()
    requires
        spec_action_fits(Action::Session(SessionAction::ResumeSession {})),
    ensures
        spec_action_from_call(spec_action_name(Action::Session(SessionAction::ResumeSession {})), spec_action_args(Action::Session(SessionAction::ResumeSession {}))) == Ok::<Seq<(Seq<char>, ValueV)>, CallErrorV>(spec_action_args(Action::Session(SessionAction::ResumeSession {}))),
{
    lemma_action_names();
}

#[verifier::spinoff_prover]
#[verifier::rlimit(100)]
proof fn lemma_session_action_abort_turn_round_trip()
    requires
        spec_action_fits(Action::Session(SessionAction::AbortTurn {})),
    ensures
        spec_action_from_call(spec_action_name(Action::Session(SessionAction::AbortTurn {})), spec_action_args(Action::Session(SessionAction::AbortTurn {}))) == Ok::<Seq<(Seq<char>, ValueV)>, CallErrorV>(spec_action_args(Action::Session(SessionAction::AbortTurn {}))),
{
    lemma_action_names();
}

#[verifier::spinoff_prover]
#[verifier::rlimit(100)]
proof fn lemma_session_action_turn_began_round_trip(turn: TurnId, prompt: Option<String>)
    requires
        spec_action_fits(Action::Session(SessionAction::TurnBegan { turn, prompt })),
    ensures
        spec_action_from_call(spec_action_name(Action::Session(SessionAction::TurnBegan { turn, prompt })), spec_action_args(Action::Session(SessionAction::TurnBegan { turn, prompt }))) == Ok::<Seq<(Seq<char>, ValueV)>, CallErrorV>(spec_action_args(Action::Session(SessionAction::TurnBegan { turn, prompt }))),
{
    lemma_action_names();
    reveal_strlit("prompt");
    reveal_strlit("turn");
    let f = seq![("turn"@, turn.wire()), ("prompt"@, prompt.wire())];
    assert forall|i: int, j: int| 0 <= i < j < 2 implies f[i].0 != f[j].0 by {
        if i == 0 && j == 1 {
            assert("turn"@[0] != "prompt"@[0]);
        }
    }
    assert(names_distinct(f));
    lemma_distinct_fields(f);
    assert(f[0].0 == "turn"@);
    <TurnId as Wire>::lemma_wire_round_trip(turn);
    assert(f[1].0 == "prompt"@);
    <Option<String> as Wire>::lemma_wire_round_trip(prompt);
}

#[verifier::spinoff_prover]
#[verifier::rlimit(100)]
proof fn lemma_session_action_turn_ended_round_trip(turn: TurnId, summary: Option<String>)
    requires
        spec_action_fits(Action::Session(SessionAction::TurnEnded { turn, summary })),
    ensures
        spec_action_from_call(spec_action_name(Action::Session(SessionAction::TurnEnded { turn, summary })), spec_action_args(Action::Session(SessionAction::TurnEnded { turn, summary }))) == Ok::<Seq<(Seq<char>, ValueV)>, CallErrorV>(spec_action_args(Action::Session(SessionAction::TurnEnded { turn, summary }))),
{
    lemma_action_names();
    reveal_strlit("summary");
    reveal_strlit("turn");
    let f = seq![("turn"@, turn.wire()), ("summary"@, summary.wire())];
    assert forall|i: int, j: int| 0 <= i < j < 2 implies f[i].0 != f[j].0 by {
        if i == 0 && j == 1 {
            assert("turn"@[0] != "summary"@[0]);
        }
    }
    assert(names_distinct(f));
    lemma_distinct_fields(f);
    assert(f[0].0 == "turn"@);
    <TurnId as Wire>::lemma_wire_round_trip(turn);
    assert(f[1].0 == "summary"@);
    <Option<String> as Wire>::lemma_wire_round_trip(summary);
}

#[verifier::spinoff_prover]
#[verifier::rlimit(100)]
proof fn lemma_session_action_session_prose_round_trip(turn: TurnId, chunk: String)
    requires
        spec_action_fits(Action::Session(SessionAction::SessionProse { turn, chunk })),
    ensures
        spec_action_from_call(spec_action_name(Action::Session(SessionAction::SessionProse { turn, chunk })), spec_action_args(Action::Session(SessionAction::SessionProse { turn, chunk }))) == Ok::<Seq<(Seq<char>, ValueV)>, CallErrorV>(spec_action_args(Action::Session(SessionAction::SessionProse { turn, chunk }))),
{
    lemma_action_names();
    reveal_strlit("chunk");
    reveal_strlit("turn");
    let f = seq![("turn"@, turn.wire()), ("chunk"@, chunk.wire())];
    assert forall|i: int, j: int| 0 <= i < j < 2 implies f[i].0 != f[j].0 by {
        if i == 0 && j == 1 {
            assert("turn"@[0] != "chunk"@[0]);
        }
    }
    assert(names_distinct(f));
    lemma_distinct_fields(f);
    assert(f[0].0 == "turn"@);
    <TurnId as Wire>::lemma_wire_round_trip(turn);
    assert(f[1].0 == "chunk"@);
    <String as Wire>::lemma_wire_round_trip(chunk);
}

#[verifier::spinoff_prover]
#[verifier::rlimit(100)]
proof fn lemma_session_action_tool_call_started_round_trip(turn: TurnId, call: ToolCallId, verb: String, target: Option<String>, path: Option<String>, line: Option<u32>)
    requires
        spec_action_fits(Action::Session(SessionAction::ToolCallStarted { turn, call, verb, target, path, line })),
    ensures
        spec_action_from_call(spec_action_name(Action::Session(SessionAction::ToolCallStarted { turn, call, verb, target, path, line })), spec_action_args(Action::Session(SessionAction::ToolCallStarted { turn, call, verb, target, path, line }))) == Ok::<Seq<(Seq<char>, ValueV)>, CallErrorV>(spec_action_args(Action::Session(SessionAction::ToolCallStarted { turn, call, verb, target, path, line }))),
{
    lemma_action_names();
    reveal_strlit("call");
    reveal_strlit("line");
    reveal_strlit("path");
    reveal_strlit("target");
    reveal_strlit("turn");
    reveal_strlit("verb");
    let f = seq![("turn"@, turn.wire()), ("call"@, call.wire()), ("verb"@, verb.wire()), ("target"@, target.wire()), ("path"@, path.wire()), ("line"@, line.wire())];
    assert forall|i: int, j: int| 0 <= i < j < 6 implies f[i].0 != f[j].0 by {
        if i == 0 && j == 1 {
            assert("turn"@[0] != "call"@[0]);
        } else if i == 0 && j == 2 {
            assert("turn"@[0] != "verb"@[0]);
        } else if i == 0 && j == 3 {
            assert("turn"@[1] != "target"@[1]);
        } else if i == 0 && j == 4 {
            assert("turn"@[0] != "path"@[0]);
        } else if i == 0 && j == 5 {
            assert("turn"@[0] != "line"@[0]);
        } else if i == 1 && j == 2 {
            assert("call"@[0] != "verb"@[0]);
        } else if i == 1 && j == 3 {
            assert("call"@[0] != "target"@[0]);
        } else if i == 1 && j == 4 {
            assert("call"@[0] != "path"@[0]);
        } else if i == 1 && j == 5 {
            assert("call"@[0] != "line"@[0]);
        } else if i == 2 && j == 3 {
            assert("verb"@[0] != "target"@[0]);
        } else if i == 2 && j == 4 {
            assert("verb"@[0] != "path"@[0]);
        } else if i == 2 && j == 5 {
            assert("verb"@[0] != "line"@[0]);
        } else if i == 3 && j == 4 {
            assert("target"@[0] != "path"@[0]);
        } else if i == 3 && j == 5 {
            assert("target"@[0] != "line"@[0]);
        } else if i == 4 && j == 5 {
            assert("path"@[0] != "line"@[0]);
        }
    }
    assert(names_distinct(f));
    lemma_distinct_fields(f);
    assert(f[0].0 == "turn"@);
    <TurnId as Wire>::lemma_wire_round_trip(turn);
    assert(f[1].0 == "call"@);
    <ToolCallId as Wire>::lemma_wire_round_trip(call);
    assert(f[2].0 == "verb"@);
    <String as Wire>::lemma_wire_round_trip(verb);
    assert(f[3].0 == "target"@);
    <Option<String> as Wire>::lemma_wire_round_trip(target);
    assert(f[4].0 == "path"@);
    <Option<String> as Wire>::lemma_wire_round_trip(path);
    assert(f[5].0 == "line"@);
    <Option<u32> as Wire>::lemma_wire_round_trip(line);
}

#[verifier::spinoff_prover]
#[verifier::rlimit(100)]
proof fn lemma_session_action_tool_call_progress_round_trip(call: ToolCallId, note: String)
    requires
        spec_action_fits(Action::Session(SessionAction::ToolCallProgress { call, note })),
    ensures
        spec_action_from_call(spec_action_name(Action::Session(SessionAction::ToolCallProgress { call, note })), spec_action_args(Action::Session(SessionAction::ToolCallProgress { call, note }))) == Ok::<Seq<(Seq<char>, ValueV)>, CallErrorV>(spec_action_args(Action::Session(SessionAction::ToolCallProgress { call, note }))),
{
    lemma_action_names();
    reveal_strlit("call");
    reveal_strlit("note");
    let f = seq![("call"@, call.wire()), ("note"@, note.wire())];
    assert forall|i: int, j: int| 0 <= i < j < 2 implies f[i].0 != f[j].0 by {
        if i == 0 && j == 1 {
            assert("call"@[0] != "note"@[0]);
        }
    }
    assert(names_distinct(f));
    lemma_distinct_fields(f);
    assert(f[0].0 == "call"@);
    <ToolCallId as Wire>::lemma_wire_round_trip(call);
    assert(f[1].0 == "note"@);
    <String as Wire>::lemma_wire_round_trip(note);
}

#[verifier::spinoff_prover]
#[verifier::rlimit(100)]
proof fn lemma_session_action_tool_call_completed_round_trip(call: ToolCallId, summary: String, added: u32, removed: u32)
    requires
        spec_action_fits(Action::Session(SessionAction::ToolCallCompleted { call, summary, added, removed })),
    ensures
        spec_action_from_call(spec_action_name(Action::Session(SessionAction::ToolCallCompleted { call, summary, added, removed })), spec_action_args(Action::Session(SessionAction::ToolCallCompleted { call, summary, added, removed }))) == Ok::<Seq<(Seq<char>, ValueV)>, CallErrorV>(spec_action_args(Action::Session(SessionAction::ToolCallCompleted { call, summary, added, removed }))),
{
    lemma_action_names();
    reveal_strlit("added");
    reveal_strlit("call");
    reveal_strlit("removed");
    reveal_strlit("summary");
    let f = seq![("call"@, call.wire()), ("summary"@, summary.wire()), ("added"@, added.wire()), ("removed"@, removed.wire())];
    assert forall|i: int, j: int| 0 <= i < j < 4 implies f[i].0 != f[j].0 by {
        if i == 0 && j == 1 {
            assert("call"@[0] != "summary"@[0]);
        } else if i == 0 && j == 2 {
            assert("call"@[0] != "added"@[0]);
        } else if i == 0 && j == 3 {
            assert("call"@[0] != "removed"@[0]);
        } else if i == 1 && j == 2 {
            assert("summary"@[0] != "added"@[0]);
        } else if i == 1 && j == 3 {
            assert("summary"@[0] != "removed"@[0]);
        } else if i == 2 && j == 3 {
            assert("added"@[0] != "removed"@[0]);
        }
    }
    assert(names_distinct(f));
    lemma_distinct_fields(f);
    assert(f[0].0 == "call"@);
    <ToolCallId as Wire>::lemma_wire_round_trip(call);
    assert(f[1].0 == "summary"@);
    <String as Wire>::lemma_wire_round_trip(summary);
    assert(f[2].0 == "added"@);
    <u32 as Wire>::lemma_wire_round_trip(added);
    assert(f[3].0 == "removed"@);
    <u32 as Wire>::lemma_wire_round_trip(removed);
}

#[verifier::spinoff_prover]
#[verifier::rlimit(100)]
proof fn lemma_session_action_session_seam_round_trip(kind: SeamKind, note: Option<String>)
    requires
        spec_action_fits(Action::Session(SessionAction::SessionSeam { kind, note })),
    ensures
        spec_action_from_call(spec_action_name(Action::Session(SessionAction::SessionSeam { kind, note })), spec_action_args(Action::Session(SessionAction::SessionSeam { kind, note }))) == Ok::<Seq<(Seq<char>, ValueV)>, CallErrorV>(spec_action_args(Action::Session(SessionAction::SessionSeam { kind, note }))),
{
    lemma_action_names();
    reveal_strlit("kind");
    reveal_strlit("note");
    let f = seq![("kind"@, kind.wire()), ("note"@, note.wire())];
    assert forall|i: int, j: int| 0 <= i < j < 2 implies f[i].0 != f[j].0 by {
        if i == 0 && j == 1 {
            assert("kind"@[0] != "note"@[0]);
        }
    }
    assert(names_distinct(f));
    lemma_distinct_fields(f);
    assert(f[0].0 == "kind"@);
    <SeamKind as Wire>::lemma_wire_round_trip(kind);
    assert(f[1].0 == "note"@);
    <Option<String> as Wire>::lemma_wire_round_trip(note);
}

proof fn lemma_session_action_round_trip(x: SessionAction)
    requires
        spec_action_fits(Action::Session(x)),
    ensures
        spec_action_from_call(spec_action_name(Action::Session(x)), spec_action_args(Action::Session(x))) == Ok::<Seq<(Seq<char>, ValueV)>, CallErrorV>(spec_action_args(Action::Session(x))),
{
    match x {
        SessionAction::StartSession { agent, cwd } => lemma_session_action_start_session_round_trip(agent, cwd),
        SessionAction::DiscoverSessions {} => lemma_session_action_discover_sessions_round_trip(),
        SessionAction::AdoptSession { handle } => lemma_session_action_adopt_session_round_trip(handle),
        SessionAction::AttachSession { endpoint } => lemma_session_action_attach_session_round_trip(endpoint),
        SessionAction::ReattachSession {} => lemma_session_action_reattach_session_round_trip(),
        SessionAction::DetachSession {} => lemma_session_action_detach_session_round_trip(),
        SessionAction::EndSession { force } => lemma_session_action_end_session_round_trip(force),
        SessionAction::SendMessage { body, anchors } => lemma_session_action_send_message_round_trip(body, anchors),
        SessionAction::InterruptSession {} => lemma_session_action_interrupt_session_round_trip(),
        SessionAction::SteerSession { body } => lemma_session_action_steer_session_round_trip(body),
        SessionAction::ResumeSession {} => lemma_session_action_resume_session_round_trip(),
        SessionAction::AbortTurn {} => lemma_session_action_abort_turn_round_trip(),
        SessionAction::TurnBegan { turn, prompt } => lemma_session_action_turn_began_round_trip(turn, prompt),
        SessionAction::TurnEnded { turn, summary } => lemma_session_action_turn_ended_round_trip(turn, summary),
        SessionAction::SessionProse { turn, chunk } => lemma_session_action_session_prose_round_trip(turn, chunk),
        SessionAction::ToolCallStarted { turn, call, verb, target, path, line } => lemma_session_action_tool_call_started_round_trip(turn, call, verb, target, path, line),
        SessionAction::ToolCallProgress { call, note } => lemma_session_action_tool_call_progress_round_trip(call, note),
        SessionAction::ToolCallCompleted { call, summary, added, removed } => lemma_session_action_tool_call_completed_round_trip(call, summary, added, removed),
        SessionAction::SessionSeam { kind, note } => lemma_session_action_session_seam_round_trip(kind, note),
    }
}

#[verifier::spinoff_prover]
#[verifier::rlimit(100)]
proof fn lemma_watch_action_place_watch_round_trip(anchor: Target, expr: String)
    requires
        spec_action_fits(Action::Watch(WatchAction::PlaceWatch { anchor, expr })),
    ensures
        spec_action_from_call(spec_action_name(Action::Watch(WatchAction::PlaceWatch { anchor, expr })), spec_action_args(Action::Watch(WatchAction::PlaceWatch { anchor, expr }))) == Ok::<Seq<(Seq<char>, ValueV)>, CallErrorV>(spec_action_args(Action::Watch(WatchAction::PlaceWatch { anchor, expr }))),
{
    lemma_action_names();
    reveal_strlit("anchor");
    reveal_strlit("expr");
    let f = seq![("anchor"@, anchor.wire()), ("expr"@, expr.wire())];
    assert forall|i: int, j: int| 0 <= i < j < 2 implies f[i].0 != f[j].0 by {
        if i == 0 && j == 1 {
            assert("anchor"@[0] != "expr"@[0]);
        }
    }
    assert(names_distinct(f));
    lemma_distinct_fields(f);
    assert(f[0].0 == "anchor"@);
    <Target as Wire>::lemma_wire_round_trip(anchor);
    assert(f[1].0 == "expr"@);
    <String as Wire>::lemma_wire_round_trip(expr);
}

#[verifier::spinoff_prover]
#[verifier::rlimit(100)]
proof fn lemma_watch_action_remove_watch_round_trip(watch: WatchId)
    requires
        spec_action_fits(Action::Watch(WatchAction::RemoveWatch { watch })),
    ensures
        spec_action_from_call(spec_action_name(Action::Watch(WatchAction::RemoveWatch { watch })), spec_action_args(Action::Watch(WatchAction::RemoveWatch { watch }))) == Ok::<Seq<(Seq<char>, ValueV)>, CallErrorV>(spec_action_args(Action::Watch(WatchAction::RemoveWatch { watch }))),
{
    lemma_action_names();
    reveal_strlit("watch");
    let f = seq![("watch"@, watch.wire())];
    assert(names_distinct(f));
    lemma_distinct_fields(f);
    assert(f[0].0 == "watch"@);
    <WatchId as Wire>::lemma_wire_round_trip(watch);
}

#[verifier::spinoff_prover]
#[verifier::rlimit(100)]
proof fn lemma_watch_action_set_watch_visible_round_trip(watch: WatchId, on: bool)
    requires
        spec_action_fits(Action::Watch(WatchAction::SetWatchVisible { watch, on })),
    ensures
        spec_action_from_call(spec_action_name(Action::Watch(WatchAction::SetWatchVisible { watch, on })), spec_action_args(Action::Watch(WatchAction::SetWatchVisible { watch, on }))) == Ok::<Seq<(Seq<char>, ValueV)>, CallErrorV>(spec_action_args(Action::Watch(WatchAction::SetWatchVisible { watch, on }))),
{
    lemma_action_names();
    reveal_strlit("on");
    reveal_strlit("watch");
    let f = seq![("watch"@, watch.wire()), ("on"@, on.wire())];
    assert forall|i: int, j: int| 0 <= i < j < 2 implies f[i].0 != f[j].0 by {
        if i == 0 && j == 1 {
            assert("watch"@[0] != "on"@[0]);
        }
    }
    assert(names_distinct(f));
    lemma_distinct_fields(f);
    assert(f[0].0 == "watch"@);
    <WatchId as Wire>::lemma_wire_round_trip(watch);
    assert(f[1].0 == "on"@);
    <bool as Wire>::lemma_wire_round_trip(on);
}

#[verifier::spinoff_prover]
#[verifier::rlimit(100)]
proof fn lemma_watch_action_push_watch_values_round_trip(watch: WatchId, values: Vec<String>, provenance: Option<String>)
    requires
        spec_action_fits(Action::Watch(WatchAction::PushWatchValues { watch, values, provenance })),
    ensures
        spec_action_from_call(spec_action_name(Action::Watch(WatchAction::PushWatchValues { watch, values, provenance })), spec_action_args(Action::Watch(WatchAction::PushWatchValues { watch, values, provenance }))) == Ok::<Seq<(Seq<char>, ValueV)>, CallErrorV>(spec_action_args(Action::Watch(WatchAction::PushWatchValues { watch, values, provenance }))),
{
    lemma_action_names();
    reveal_strlit("provenance");
    reveal_strlit("values");
    reveal_strlit("watch");
    let f = seq![("watch"@, watch.wire()), ("values"@, values.wire()), ("provenance"@, provenance.wire())];
    assert forall|i: int, j: int| 0 <= i < j < 3 implies f[i].0 != f[j].0 by {
        if i == 0 && j == 1 {
            assert("watch"@[0] != "values"@[0]);
        } else if i == 0 && j == 2 {
            assert("watch"@[0] != "provenance"@[0]);
        } else if i == 1 && j == 2 {
            assert("values"@[0] != "provenance"@[0]);
        }
    }
    assert(names_distinct(f));
    lemma_distinct_fields(f);
    assert(f[0].0 == "watch"@);
    <WatchId as Wire>::lemma_wire_round_trip(watch);
    assert(f[1].0 == "values"@);
    <Vec<String> as Wire>::lemma_wire_round_trip(values);
    assert(f[2].0 == "provenance"@);
    <Option<String> as Wire>::lemma_wire_round_trip(provenance);
}

#[verifier::spinoff_prover]
#[verifier::rlimit(100)]
proof fn lemma_watch_action_clear_watch_values_round_trip(watch: WatchId)
    requires
        spec_action_fits(Action::Watch(WatchAction::ClearWatchValues { watch })),
    ensures
        spec_action_from_call(spec_action_name(Action::Watch(WatchAction::ClearWatchValues { watch })), spec_action_args(Action::Watch(WatchAction::ClearWatchValues { watch }))) == Ok::<Seq<(Seq<char>, ValueV)>, CallErrorV>(spec_action_args(Action::Watch(WatchAction::ClearWatchValues { watch }))),
{
    lemma_action_names();
    reveal_strlit("watch");
    let f = seq![("watch"@, watch.wire())];
    assert(names_distinct(f));
    lemma_distinct_fields(f);
    assert(f[0].0 == "watch"@);
    <WatchId as Wire>::lemma_wire_round_trip(watch);
}

proof fn lemma_watch_action_round_trip(x: WatchAction)
    requires
        spec_action_fits(Action::Watch(x)),
    ensures
        spec_action_from_call(spec_action_name(Action::Watch(x)), spec_action_args(Action::Watch(x))) == Ok::<Seq<(Seq<char>, ValueV)>, CallErrorV>(spec_action_args(Action::Watch(x))),
{
    match x {
        WatchAction::PlaceWatch { anchor, expr } => lemma_watch_action_place_watch_round_trip(anchor, expr),
        WatchAction::RemoveWatch { watch } => lemma_watch_action_remove_watch_round_trip(watch),
        WatchAction::SetWatchVisible { watch, on } => lemma_watch_action_set_watch_visible_round_trip(watch, on),
        WatchAction::PushWatchValues { watch, values, provenance } => lemma_watch_action_push_watch_values_round_trip(watch, values, provenance),
        WatchAction::ClearWatchValues { watch } => lemma_watch_action_clear_watch_values_round_trip(watch),
    }
}

#[verifier::spinoff_prover]
#[verifier::rlimit(100)]
proof fn lemma_lsp_action_request_completion_round_trip()
    requires
        spec_action_fits(Action::Lsp(LspAction::RequestCompletion {})),
    ensures
        spec_action_from_call(spec_action_name(Action::Lsp(LspAction::RequestCompletion {})), spec_action_args(Action::Lsp(LspAction::RequestCompletion {}))) == Ok::<Seq<(Seq<char>, ValueV)>, CallErrorV>(spec_action_args(Action::Lsp(LspAction::RequestCompletion {}))),
{
    lemma_action_names();
}

#[verifier::spinoff_prover]
#[verifier::rlimit(100)]
proof fn lemma_lsp_action_move_completion_round_trip(delta: i64, otherwise: Option<Binding>)
    requires
        spec_action_fits(Action::Lsp(LspAction::MoveCompletion { delta, otherwise })),
    ensures
        spec_action_from_call(spec_action_name(Action::Lsp(LspAction::MoveCompletion { delta, otherwise })), spec_action_args(Action::Lsp(LspAction::MoveCompletion { delta, otherwise }))) == Ok::<Seq<(Seq<char>, ValueV)>, CallErrorV>(spec_action_args(Action::Lsp(LspAction::MoveCompletion { delta, otherwise }))),
{
    lemma_action_names();
    reveal_strlit("delta");
    reveal_strlit("otherwise");
    let f = seq![("delta"@, delta.wire()), ("otherwise"@, otherwise.wire())];
    assert forall|i: int, j: int| 0 <= i < j < 2 implies f[i].0 != f[j].0 by {
        if i == 0 && j == 1 {
            assert("delta"@[0] != "otherwise"@[0]);
        }
    }
    assert(names_distinct(f));
    lemma_distinct_fields(f);
    assert(f[0].0 == "delta"@);
    <i64 as Wire>::lemma_wire_round_trip(delta);
    assert(f[1].0 == "otherwise"@);
    <Option<Binding> as Wire>::lemma_wire_round_trip(otherwise);
}

#[verifier::spinoff_prover]
#[verifier::rlimit(100)]
proof fn lemma_lsp_action_accept_completion_round_trip(index: u32, then: Option<String>, otherwise: Option<String>)
    requires
        spec_action_fits(Action::Lsp(LspAction::AcceptCompletion { index, then, otherwise })),
    ensures
        spec_action_from_call(spec_action_name(Action::Lsp(LspAction::AcceptCompletion { index, then, otherwise })), spec_action_args(Action::Lsp(LspAction::AcceptCompletion { index, then, otherwise }))) == Ok::<Seq<(Seq<char>, ValueV)>, CallErrorV>(spec_action_args(Action::Lsp(LspAction::AcceptCompletion { index, then, otherwise }))),
{
    lemma_action_names();
    reveal_strlit("index");
    reveal_strlit("otherwise");
    reveal_strlit("then");
    let f = seq![("index"@, index.wire()), ("then"@, then.wire()), ("otherwise"@, otherwise.wire())];
    assert forall|i: int, j: int| 0 <= i < j < 3 implies f[i].0 != f[j].0 by {
        if i == 0 && j == 1 {
            assert("index"@[0] != "then"@[0]);
        } else if i == 0 && j == 2 {
            assert("index"@[0] != "otherwise"@[0]);
        } else if i == 1 && j == 2 {
            assert("then"@[0] != "otherwise"@[0]);
        }
    }
    assert(names_distinct(f));
    lemma_distinct_fields(f);
    assert(f[0].0 == "index"@);
    <u32 as Wire>::lemma_wire_round_trip(index);
    assert(f[1].0 == "then"@);
    <Option<String> as Wire>::lemma_wire_round_trip(then);
    assert(f[2].0 == "otherwise"@);
    <Option<String> as Wire>::lemma_wire_round_trip(otherwise);
}

#[verifier::spinoff_prover]
#[verifier::rlimit(100)]
proof fn lemma_lsp_action_cancel_completion_round_trip()
    requires
        spec_action_fits(Action::Lsp(LspAction::CancelCompletion {})),
    ensures
        spec_action_from_call(spec_action_name(Action::Lsp(LspAction::CancelCompletion {})), spec_action_args(Action::Lsp(LspAction::CancelCompletion {}))) == Ok::<Seq<(Seq<char>, ValueV)>, CallErrorV>(spec_action_args(Action::Lsp(LspAction::CancelCompletion {}))),
{
    lemma_action_names();
}

#[verifier::spinoff_prover]
#[verifier::rlimit(100)]
proof fn lemma_lsp_action_request_hover_round_trip()
    requires
        spec_action_fits(Action::Lsp(LspAction::RequestHover {})),
    ensures
        spec_action_from_call(spec_action_name(Action::Lsp(LspAction::RequestHover {})), spec_action_args(Action::Lsp(LspAction::RequestHover {}))) == Ok::<Seq<(Seq<char>, ValueV)>, CallErrorV>(spec_action_args(Action::Lsp(LspAction::RequestHover {}))),
{
    lemma_action_names();
}

#[verifier::spinoff_prover]
#[verifier::rlimit(100)]
proof fn lemma_lsp_action_request_signature_help_round_trip()
    requires
        spec_action_fits(Action::Lsp(LspAction::RequestSignatureHelp {})),
    ensures
        spec_action_from_call(spec_action_name(Action::Lsp(LspAction::RequestSignatureHelp {})), spec_action_args(Action::Lsp(LspAction::RequestSignatureHelp {}))) == Ok::<Seq<(Seq<char>, ValueV)>, CallErrorV>(spec_action_args(Action::Lsp(LspAction::RequestSignatureHelp {}))),
{
    lemma_action_names();
}

#[verifier::spinoff_prover]
#[verifier::rlimit(100)]
proof fn lemma_lsp_action_request_definition_round_trip()
    requires
        spec_action_fits(Action::Lsp(LspAction::RequestDefinition {})),
    ensures
        spec_action_from_call(spec_action_name(Action::Lsp(LspAction::RequestDefinition {})), spec_action_args(Action::Lsp(LspAction::RequestDefinition {}))) == Ok::<Seq<(Seq<char>, ValueV)>, CallErrorV>(spec_action_args(Action::Lsp(LspAction::RequestDefinition {}))),
{
    lemma_action_names();
}

#[verifier::spinoff_prover]
#[verifier::rlimit(100)]
proof fn lemma_lsp_action_request_references_round_trip()
    requires
        spec_action_fits(Action::Lsp(LspAction::RequestReferences {})),
    ensures
        spec_action_from_call(spec_action_name(Action::Lsp(LspAction::RequestReferences {})), spec_action_args(Action::Lsp(LspAction::RequestReferences {}))) == Ok::<Seq<(Seq<char>, ValueV)>, CallErrorV>(spec_action_args(Action::Lsp(LspAction::RequestReferences {}))),
{
    lemma_action_names();
}

#[verifier::spinoff_prover]
#[verifier::rlimit(100)]
proof fn lemma_lsp_action_ingest_completions_round_trip(items: Vec<Completion>, at: Position, buffer: Option<BufferId>)
    requires
        spec_action_fits(Action::Lsp(LspAction::IngestCompletions { items, at, buffer })),
    ensures
        spec_action_from_call(spec_action_name(Action::Lsp(LspAction::IngestCompletions { items, at, buffer })), spec_action_args(Action::Lsp(LspAction::IngestCompletions { items, at, buffer }))) == Ok::<Seq<(Seq<char>, ValueV)>, CallErrorV>(spec_action_args(Action::Lsp(LspAction::IngestCompletions { items, at, buffer }))),
{
    lemma_action_names();
    reveal_strlit("at");
    reveal_strlit("buffer");
    reveal_strlit("items");
    let f = seq![("items"@, items.wire()), ("at"@, at.wire()), ("buffer"@, buffer.wire())];
    assert forall|i: int, j: int| 0 <= i < j < 3 implies f[i].0 != f[j].0 by {
        if i == 0 && j == 1 {
            assert("items"@[0] != "at"@[0]);
        } else if i == 0 && j == 2 {
            assert("items"@[0] != "buffer"@[0]);
        } else if i == 1 && j == 2 {
            assert("at"@[0] != "buffer"@[0]);
        }
    }
    assert(names_distinct(f));
    lemma_distinct_fields(f);
    assert(f[0].0 == "items"@);
    <Vec<Completion> as Wire>::lemma_wire_round_trip(items);
    assert(f[1].0 == "at"@);
    <Position as Wire>::lemma_wire_round_trip(at);
    assert(f[2].0 == "buffer"@);
    <Option<BufferId> as Wire>::lemma_wire_round_trip(buffer);
}

#[verifier::spinoff_prover]
#[verifier::rlimit(100)]
proof fn lemma_lsp_action_ingest_signature_help_round_trip(signature: Option<Signature>, at: Position, buffer: Option<BufferId>)
    requires
        spec_action_fits(Action::Lsp(LspAction::IngestSignatureHelp { signature, at, buffer })),
    ensures
        spec_action_from_call(spec_action_name(Action::Lsp(LspAction::IngestSignatureHelp { signature, at, buffer })), spec_action_args(Action::Lsp(LspAction::IngestSignatureHelp { signature, at, buffer }))) == Ok::<Seq<(Seq<char>, ValueV)>, CallErrorV>(spec_action_args(Action::Lsp(LspAction::IngestSignatureHelp { signature, at, buffer }))),
{
    lemma_action_names();
    reveal_strlit("at");
    reveal_strlit("buffer");
    reveal_strlit("signature");
    let f = seq![("signature"@, signature.wire()), ("at"@, at.wire()), ("buffer"@, buffer.wire())];
    assert forall|i: int, j: int| 0 <= i < j < 3 implies f[i].0 != f[j].0 by {
        if i == 0 && j == 1 {
            assert("signature"@[0] != "at"@[0]);
        } else if i == 0 && j == 2 {
            assert("signature"@[0] != "buffer"@[0]);
        } else if i == 1 && j == 2 {
            assert("at"@[0] != "buffer"@[0]);
        }
    }
    assert(names_distinct(f));
    lemma_distinct_fields(f);
    assert(f[0].0 == "signature"@);
    <Option<Signature> as Wire>::lemma_wire_round_trip(signature);
    assert(f[1].0 == "at"@);
    <Position as Wire>::lemma_wire_round_trip(at);
    assert(f[2].0 == "buffer"@);
    <Option<BufferId> as Wire>::lemma_wire_round_trip(buffer);
}

#[verifier::spinoff_prover]
#[verifier::rlimit(100)]
proof fn lemma_lsp_action_ingest_hover_round_trip(prose: Vec<String>, at: Position, buffer: Option<BufferId>)
    requires
        spec_action_fits(Action::Lsp(LspAction::IngestHover { prose, at, buffer })),
    ensures
        spec_action_from_call(spec_action_name(Action::Lsp(LspAction::IngestHover { prose, at, buffer })), spec_action_args(Action::Lsp(LspAction::IngestHover { prose, at, buffer }))) == Ok::<Seq<(Seq<char>, ValueV)>, CallErrorV>(spec_action_args(Action::Lsp(LspAction::IngestHover { prose, at, buffer }))),
{
    lemma_action_names();
    reveal_strlit("at");
    reveal_strlit("buffer");
    reveal_strlit("prose");
    let f = seq![("prose"@, prose.wire()), ("at"@, at.wire()), ("buffer"@, buffer.wire())];
    assert forall|i: int, j: int| 0 <= i < j < 3 implies f[i].0 != f[j].0 by {
        if i == 0 && j == 1 {
            assert("prose"@[0] != "at"@[0]);
        } else if i == 0 && j == 2 {
            assert("prose"@[0] != "buffer"@[0]);
        } else if i == 1 && j == 2 {
            assert("at"@[0] != "buffer"@[0]);
        }
    }
    assert(names_distinct(f));
    lemma_distinct_fields(f);
    assert(f[0].0 == "prose"@);
    <Vec<String> as Wire>::lemma_wire_round_trip(prose);
    assert(f[1].0 == "at"@);
    <Position as Wire>::lemma_wire_round_trip(at);
    assert(f[2].0 == "buffer"@);
    <Option<BufferId> as Wire>::lemma_wire_round_trip(buffer);
}

#[verifier::spinoff_prover]
#[verifier::rlimit(100)]
proof fn lemma_lsp_action_ingest_diagnostics_round_trip(path: String, diagnostics: Vec<Diagnostic>)
    requires
        spec_action_fits(Action::Lsp(LspAction::IngestDiagnostics { path, diagnostics })),
    ensures
        spec_action_from_call(spec_action_name(Action::Lsp(LspAction::IngestDiagnostics { path, diagnostics })), spec_action_args(Action::Lsp(LspAction::IngestDiagnostics { path, diagnostics }))) == Ok::<Seq<(Seq<char>, ValueV)>, CallErrorV>(spec_action_args(Action::Lsp(LspAction::IngestDiagnostics { path, diagnostics }))),
{
    lemma_action_names();
    reveal_strlit("diagnostics");
    reveal_strlit("path");
    let f = seq![("path"@, path.wire()), ("diagnostics"@, diagnostics.wire())];
    assert forall|i: int, j: int| 0 <= i < j < 2 implies f[i].0 != f[j].0 by {
        if i == 0 && j == 1 {
            assert("path"@[0] != "diagnostics"@[0]);
        }
    }
    assert(names_distinct(f));
    lemma_distinct_fields(f);
    assert(f[0].0 == "path"@);
    <String as Wire>::lemma_wire_round_trip(path);
    assert(f[1].0 == "diagnostics"@);
    <Vec<Diagnostic> as Wire>::lemma_wire_round_trip(diagnostics);
}

#[verifier::spinoff_prover]
#[verifier::rlimit(100)]
proof fn lemma_lsp_action_apply_workspace_edit_round_trip(files: Vec<FileEdits>)
    requires
        spec_action_fits(Action::Lsp(LspAction::ApplyWorkspaceEdit { files })),
    ensures
        spec_action_from_call(spec_action_name(Action::Lsp(LspAction::ApplyWorkspaceEdit { files })), spec_action_args(Action::Lsp(LspAction::ApplyWorkspaceEdit { files }))) == Ok::<Seq<(Seq<char>, ValueV)>, CallErrorV>(spec_action_args(Action::Lsp(LspAction::ApplyWorkspaceEdit { files }))),
{
    lemma_action_names();
    reveal_strlit("files");
    let f = seq![("files"@, files.wire())];
    assert(names_distinct(f));
    lemma_distinct_fields(f);
    assert(f[0].0 == "files"@);
    <Vec<FileEdits> as Wire>::lemma_wire_round_trip(files);
}

#[verifier::spinoff_prover]
#[verifier::rlimit(100)]
proof fn lemma_lsp_action_restart_language_server_round_trip(language: LanguageId)
    requires
        spec_action_fits(Action::Lsp(LspAction::RestartLanguageServer { language })),
    ensures
        spec_action_from_call(spec_action_name(Action::Lsp(LspAction::RestartLanguageServer { language })), spec_action_args(Action::Lsp(LspAction::RestartLanguageServer { language }))) == Ok::<Seq<(Seq<char>, ValueV)>, CallErrorV>(spec_action_args(Action::Lsp(LspAction::RestartLanguageServer { language }))),
{
    lemma_action_names();
    reveal_strlit("language");
    let f = seq![("language"@, language.wire())];
    assert(names_distinct(f));
    lemma_distinct_fields(f);
    assert(f[0].0 == "language"@);
    <LanguageId as Wire>::lemma_wire_round_trip(language);
}

proof fn lemma_lsp_action_round_trip(x: LspAction)
    requires
        spec_action_fits(Action::Lsp(x)),
    ensures
        spec_action_from_call(spec_action_name(Action::Lsp(x)), spec_action_args(Action::Lsp(x))) == Ok::<Seq<(Seq<char>, ValueV)>, CallErrorV>(spec_action_args(Action::Lsp(x))),
{
    match x {
        LspAction::RequestCompletion {} => lemma_lsp_action_request_completion_round_trip(),
        LspAction::MoveCompletion { delta, otherwise } => lemma_lsp_action_move_completion_round_trip(delta, otherwise),
        LspAction::AcceptCompletion { index, then, otherwise } => lemma_lsp_action_accept_completion_round_trip(index, then, otherwise),
        LspAction::CancelCompletion {} => lemma_lsp_action_cancel_completion_round_trip(),
        LspAction::RequestHover {} => lemma_lsp_action_request_hover_round_trip(),
        LspAction::RequestSignatureHelp {} => lemma_lsp_action_request_signature_help_round_trip(),
        LspAction::RequestDefinition {} => lemma_lsp_action_request_definition_round_trip(),
        LspAction::RequestReferences {} => lemma_lsp_action_request_references_round_trip(),
        LspAction::IngestCompletions { items, at, buffer } => lemma_lsp_action_ingest_completions_round_trip(items, at, buffer),
        LspAction::IngestSignatureHelp { signature, at, buffer } => lemma_lsp_action_ingest_signature_help_round_trip(signature, at, buffer),
        LspAction::IngestHover { prose, at, buffer } => lemma_lsp_action_ingest_hover_round_trip(prose, at, buffer),
        LspAction::IngestDiagnostics { path, diagnostics } => lemma_lsp_action_ingest_diagnostics_round_trip(path, diagnostics),
        LspAction::ApplyWorkspaceEdit { files } => lemma_lsp_action_apply_workspace_edit_round_trip(files),
        LspAction::RestartLanguageServer { language } => lemma_lsp_action_restart_language_server_round_trip(language),
    }
}

#[verifier::spinoff_prover]
#[verifier::rlimit(100)]
proof fn lemma_vcs_action_refresh_vcs_round_trip()
    requires
        spec_action_fits(Action::Vcs(VcsAction::RefreshVcs {})),
    ensures
        spec_action_from_call(spec_action_name(Action::Vcs(VcsAction::RefreshVcs {})), spec_action_args(Action::Vcs(VcsAction::RefreshVcs {}))) == Ok::<Seq<(Seq<char>, ValueV)>, CallErrorV>(spec_action_args(Action::Vcs(VcsAction::RefreshVcs {}))),
{
    lemma_action_names();
}

#[verifier::spinoff_prover]
#[verifier::rlimit(100)]
proof fn lemma_vcs_action_open_timeline_round_trip()
    requires
        spec_action_fits(Action::Vcs(VcsAction::OpenTimeline {})),
    ensures
        spec_action_from_call(spec_action_name(Action::Vcs(VcsAction::OpenTimeline {})), spec_action_args(Action::Vcs(VcsAction::OpenTimeline {}))) == Ok::<Seq<(Seq<char>, ValueV)>, CallErrorV>(spec_action_args(Action::Vcs(VcsAction::OpenTimeline {}))),
{
    lemma_action_names();
}

#[verifier::spinoff_prover]
#[verifier::rlimit(100)]
proof fn lemma_vcs_action_show_change_diff_round_trip(change: ChangeId)
    requires
        spec_action_fits(Action::Vcs(VcsAction::ShowChangeDiff { change })),
    ensures
        spec_action_from_call(spec_action_name(Action::Vcs(VcsAction::ShowChangeDiff { change })), spec_action_args(Action::Vcs(VcsAction::ShowChangeDiff { change }))) == Ok::<Seq<(Seq<char>, ValueV)>, CallErrorV>(spec_action_args(Action::Vcs(VcsAction::ShowChangeDiff { change }))),
{
    lemma_action_names();
    reveal_strlit("change");
    let f = seq![("change"@, change.wire())];
    assert(names_distinct(f));
    lemma_distinct_fields(f);
    assert(f[0].0 == "change"@);
    <ChangeId as Wire>::lemma_wire_round_trip(change);
}

#[verifier::spinoff_prover]
#[verifier::rlimit(100)]
proof fn lemma_vcs_action_open_operation_log_round_trip()
    requires
        spec_action_fits(Action::Vcs(VcsAction::OpenOperationLog {})),
    ensures
        spec_action_from_call(spec_action_name(Action::Vcs(VcsAction::OpenOperationLog {})), spec_action_args(Action::Vcs(VcsAction::OpenOperationLog {}))) == Ok::<Seq<(Seq<char>, ValueV)>, CallErrorV>(spec_action_args(Action::Vcs(VcsAction::OpenOperationLog {}))),
{
    lemma_action_names();
}

#[verifier::spinoff_prover]
#[verifier::rlimit(100)]
proof fn lemma_vcs_action_edit_at_change_round_trip(change: ChangeId)
    requires
        spec_action_fits(Action::Vcs(VcsAction::EditAtChange { change })),
    ensures
        spec_action_from_call(spec_action_name(Action::Vcs(VcsAction::EditAtChange { change })), spec_action_args(Action::Vcs(VcsAction::EditAtChange { change }))) == Ok::<Seq<(Seq<char>, ValueV)>, CallErrorV>(spec_action_args(Action::Vcs(VcsAction::EditAtChange { change }))),
{
    lemma_action_names();
    reveal_strlit("change");
    let f = seq![("change"@, change.wire())];
    assert(names_distinct(f));
    lemma_distinct_fields(f);
    assert(f[0].0 == "change"@);
    <ChangeId as Wire>::lemma_wire_round_trip(change);
}

#[verifier::spinoff_prover]
#[verifier::rlimit(100)]
proof fn lemma_vcs_action_restore_change_round_trip(change: ChangeId)
    requires
        spec_action_fits(Action::Vcs(VcsAction::RestoreChange { change })),
    ensures
        spec_action_from_call(spec_action_name(Action::Vcs(VcsAction::RestoreChange { change })), spec_action_args(Action::Vcs(VcsAction::RestoreChange { change }))) == Ok::<Seq<(Seq<char>, ValueV)>, CallErrorV>(spec_action_args(Action::Vcs(VcsAction::RestoreChange { change }))),
{
    lemma_action_names();
    reveal_strlit("change");
    let f = seq![("change"@, change.wire())];
    assert(names_distinct(f));
    lemma_distinct_fields(f);
    assert(f[0].0 == "change"@);
    <ChangeId as Wire>::lemma_wire_round_trip(change);
}

proof fn lemma_vcs_action_round_trip(x: VcsAction)
    requires
        spec_action_fits(Action::Vcs(x)),
    ensures
        spec_action_from_call(spec_action_name(Action::Vcs(x)), spec_action_args(Action::Vcs(x))) == Ok::<Seq<(Seq<char>, ValueV)>, CallErrorV>(spec_action_args(Action::Vcs(x))),
{
    match x {
        VcsAction::RefreshVcs {} => lemma_vcs_action_refresh_vcs_round_trip(),
        VcsAction::OpenTimeline {} => lemma_vcs_action_open_timeline_round_trip(),
        VcsAction::ShowChangeDiff { change } => lemma_vcs_action_show_change_diff_round_trip(change),
        VcsAction::OpenOperationLog {} => lemma_vcs_action_open_operation_log_round_trip(),
        VcsAction::EditAtChange { change } => lemma_vcs_action_edit_at_change_round_trip(change),
        VcsAction::RestoreChange { change } => lemma_vcs_action_restore_change_round_trip(change),
    }
}

#[verifier::spinoff_prover]
#[verifier::rlimit(100)]
proof fn lemma_runtime_action_eval_round_trip(source: String)
    requires
        spec_action_fits(Action::Runtime(RuntimeAction::Eval { source })),
    ensures
        spec_action_from_call(spec_action_name(Action::Runtime(RuntimeAction::Eval { source })), spec_action_args(Action::Runtime(RuntimeAction::Eval { source }))) == Ok::<Seq<(Seq<char>, ValueV)>, CallErrorV>(spec_action_args(Action::Runtime(RuntimeAction::Eval { source }))),
{
    lemma_action_names();
    reveal_strlit("source");
    let f = seq![("source"@, source.wire())];
    assert(names_distinct(f));
    lemma_distinct_fields(f);
    assert(f[0].0 == "source"@);
    <String as Wire>::lemma_wire_round_trip(source);
}

#[verifier::spinoff_prover]
#[verifier::rlimit(100)]
proof fn lemma_runtime_action_load_runtime_file_round_trip(path: String)
    requires
        spec_action_fits(Action::Runtime(RuntimeAction::LoadRuntimeFile { path })),
    ensures
        spec_action_from_call(spec_action_name(Action::Runtime(RuntimeAction::LoadRuntimeFile { path })), spec_action_args(Action::Runtime(RuntimeAction::LoadRuntimeFile { path }))) == Ok::<Seq<(Seq<char>, ValueV)>, CallErrorV>(spec_action_args(Action::Runtime(RuntimeAction::LoadRuntimeFile { path }))),
{
    lemma_action_names();
    reveal_strlit("path");
    let f = seq![("path"@, path.wire())];
    assert(names_distinct(f));
    lemma_distinct_fields(f);
    assert(f[0].0 == "path"@);
    <String as Wire>::lemma_wire_round_trip(path);
}

#[verifier::spinoff_prover]
#[verifier::rlimit(100)]
proof fn lemma_runtime_action_reload_runtime_round_trip()
    requires
        spec_action_fits(Action::Runtime(RuntimeAction::ReloadRuntime {})),
    ensures
        spec_action_from_call(spec_action_name(Action::Runtime(RuntimeAction::ReloadRuntime {})), spec_action_args(Action::Runtime(RuntimeAction::ReloadRuntime {}))) == Ok::<Seq<(Seq<char>, ValueV)>, CallErrorV>(spec_action_args(Action::Runtime(RuntimeAction::ReloadRuntime {}))),
{
    lemma_action_names();
}

#[verifier::spinoff_prover]
#[verifier::rlimit(100)]
proof fn lemma_runtime_action_open_repl_round_trip()
    requires
        spec_action_fits(Action::Runtime(RuntimeAction::OpenRepl {})),
    ensures
        spec_action_from_call(spec_action_name(Action::Runtime(RuntimeAction::OpenRepl {})), spec_action_args(Action::Runtime(RuntimeAction::OpenRepl {}))) == Ok::<Seq<(Seq<char>, ValueV)>, CallErrorV>(spec_action_args(Action::Runtime(RuntimeAction::OpenRepl {}))),
{
    lemma_action_names();
}

#[verifier::spinoff_prover]
#[verifier::rlimit(100)]
proof fn lemma_runtime_action_close_repl_round_trip()
    requires
        spec_action_fits(Action::Runtime(RuntimeAction::CloseRepl {})),
    ensures
        spec_action_from_call(spec_action_name(Action::Runtime(RuntimeAction::CloseRepl {})), spec_action_args(Action::Runtime(RuntimeAction::CloseRepl {}))) == Ok::<Seq<(Seq<char>, ValueV)>, CallErrorV>(spec_action_args(Action::Runtime(RuntimeAction::CloseRepl {}))),
{
    lemma_action_names();
}

#[verifier::spinoff_prover]
#[verifier::rlimit(100)]
proof fn lemma_runtime_action_repl_history_round_trip(delta: i64)
    requires
        spec_action_fits(Action::Runtime(RuntimeAction::ReplHistory { delta })),
    ensures
        spec_action_from_call(spec_action_name(Action::Runtime(RuntimeAction::ReplHistory { delta })), spec_action_args(Action::Runtime(RuntimeAction::ReplHistory { delta }))) == Ok::<Seq<(Seq<char>, ValueV)>, CallErrorV>(spec_action_args(Action::Runtime(RuntimeAction::ReplHistory { delta }))),
{
    lemma_action_names();
    reveal_strlit("delta");
    let f = seq![("delta"@, delta.wire())];
    assert(names_distinct(f));
    lemma_distinct_fields(f);
    assert(f[0].0 == "delta"@);
    <i64 as Wire>::lemma_wire_round_trip(delta);
}

#[verifier::spinoff_prover]
#[verifier::rlimit(100)]
proof fn lemma_runtime_action_repl_to_buffer_round_trip()
    requires
        spec_action_fits(Action::Runtime(RuntimeAction::ReplToBuffer {})),
    ensures
        spec_action_from_call(spec_action_name(Action::Runtime(RuntimeAction::ReplToBuffer {})), spec_action_args(Action::Runtime(RuntimeAction::ReplToBuffer {}))) == Ok::<Seq<(Seq<char>, ValueV)>, CallErrorV>(spec_action_args(Action::Runtime(RuntimeAction::ReplToBuffer {}))),
{
    lemma_action_names();
}

#[verifier::spinoff_prover]
#[verifier::rlimit(100)]
proof fn lemma_runtime_action_persist_form_round_trip(form: String)
    requires
        spec_action_fits(Action::Runtime(RuntimeAction::PersistForm { form })),
    ensures
        spec_action_from_call(spec_action_name(Action::Runtime(RuntimeAction::PersistForm { form })), spec_action_args(Action::Runtime(RuntimeAction::PersistForm { form }))) == Ok::<Seq<(Seq<char>, ValueV)>, CallErrorV>(spec_action_args(Action::Runtime(RuntimeAction::PersistForm { form }))),
{
    lemma_action_names();
    reveal_strlit("form");
    let f = seq![("form"@, form.wire())];
    assert(names_distinct(f));
    lemma_distinct_fields(f);
    assert(f[0].0 == "form"@);
    <String as Wire>::lemma_wire_round_trip(form);
}

#[verifier::spinoff_prover]
#[verifier::rlimit(100)]
proof fn lemma_runtime_action_set_keybinding_round_trip(keys: KeySeq, binding: Binding, mode: Option<EditMode>)
    requires
        spec_action_fits(Action::Runtime(RuntimeAction::SetKeybinding { keys, binding, mode })),
    ensures
        spec_action_from_call(spec_action_name(Action::Runtime(RuntimeAction::SetKeybinding { keys, binding, mode })), spec_action_args(Action::Runtime(RuntimeAction::SetKeybinding { keys, binding, mode }))) == Ok::<Seq<(Seq<char>, ValueV)>, CallErrorV>(spec_action_args(Action::Runtime(RuntimeAction::SetKeybinding { keys, binding, mode }))),
{
    lemma_action_names();
    reveal_strlit("binding");
    reveal_strlit("keys");
    reveal_strlit("mode");
    let f = seq![("keys"@, keys.wire()), ("binding"@, binding.wire()), ("mode"@, mode.wire())];
    assert forall|i: int, j: int| 0 <= i < j < 3 implies f[i].0 != f[j].0 by {
        if i == 0 && j == 1 {
            assert("keys"@[0] != "binding"@[0]);
        } else if i == 0 && j == 2 {
            assert("keys"@[0] != "mode"@[0]);
        } else if i == 1 && j == 2 {
            assert("binding"@[0] != "mode"@[0]);
        }
    }
    assert(names_distinct(f));
    lemma_distinct_fields(f);
    assert(f[0].0 == "keys"@);
    <KeySeq as Wire>::lemma_wire_round_trip(keys);
    assert(f[1].0 == "binding"@);
    <Binding as Wire>::lemma_wire_round_trip(binding);
    assert(f[2].0 == "mode"@);
    <Option<EditMode> as Wire>::lemma_wire_round_trip(mode);
}

#[verifier::spinoff_prover]
#[verifier::rlimit(100)]
proof fn lemma_runtime_action_remove_keybinding_round_trip(keys: KeySeq, mode: Option<EditMode>)
    requires
        spec_action_fits(Action::Runtime(RuntimeAction::RemoveKeybinding { keys, mode })),
    ensures
        spec_action_from_call(spec_action_name(Action::Runtime(RuntimeAction::RemoveKeybinding { keys, mode })), spec_action_args(Action::Runtime(RuntimeAction::RemoveKeybinding { keys, mode }))) == Ok::<Seq<(Seq<char>, ValueV)>, CallErrorV>(spec_action_args(Action::Runtime(RuntimeAction::RemoveKeybinding { keys, mode }))),
{
    lemma_action_names();
    reveal_strlit("keys");
    reveal_strlit("mode");
    let f = seq![("keys"@, keys.wire()), ("mode"@, mode.wire())];
    assert forall|i: int, j: int| 0 <= i < j < 2 implies f[i].0 != f[j].0 by {
        if i == 0 && j == 1 {
            assert("keys"@[0] != "mode"@[0]);
        }
    }
    assert(names_distinct(f));
    lemma_distinct_fields(f);
    assert(f[0].0 == "keys"@);
    <KeySeq as Wire>::lemma_wire_round_trip(keys);
    assert(f[1].0 == "mode"@);
    <Option<EditMode> as Wire>::lemma_wire_round_trip(mode);
}

#[verifier::spinoff_prover]
#[verifier::rlimit(100)]
proof fn lemma_runtime_action_define_language_round_trip(language: LanguageId, spec: LanguageSpec)
    requires
        spec_action_fits(Action::Runtime(RuntimeAction::DefineLanguage { language, spec })),
    ensures
        spec_action_from_call(spec_action_name(Action::Runtime(RuntimeAction::DefineLanguage { language, spec })), spec_action_args(Action::Runtime(RuntimeAction::DefineLanguage { language, spec }))) == Ok::<Seq<(Seq<char>, ValueV)>, CallErrorV>(spec_action_args(Action::Runtime(RuntimeAction::DefineLanguage { language, spec }))),
{
    lemma_action_names();
    reveal_strlit("language");
    reveal_strlit("spec");
    let f = seq![("language"@, language.wire()), ("spec"@, spec.wire())];
    assert forall|i: int, j: int| 0 <= i < j < 2 implies f[i].0 != f[j].0 by {
        if i == 0 && j == 1 {
            assert("language"@[0] != "spec"@[0]);
        }
    }
    assert(names_distinct(f));
    lemma_distinct_fields(f);
    assert(f[0].0 == "language"@);
    <LanguageId as Wire>::lemma_wire_round_trip(language);
    assert(f[1].0 == "spec"@);
    <LanguageSpec as Wire>::lemma_wire_round_trip(spec);
}

#[verifier::spinoff_prover]
#[verifier::rlimit(100)]
proof fn lemma_runtime_action_set_option_round_trip(key: String, value: Value)
    requires
        spec_action_fits(Action::Runtime(RuntimeAction::SetOption { key, value })),
    ensures
        spec_action_from_call(spec_action_name(Action::Runtime(RuntimeAction::SetOption { key, value })), spec_action_args(Action::Runtime(RuntimeAction::SetOption { key, value }))) == Ok::<Seq<(Seq<char>, ValueV)>, CallErrorV>(spec_action_args(Action::Runtime(RuntimeAction::SetOption { key, value }))),
{
    lemma_action_names();
    reveal_strlit("key");
    reveal_strlit("value");
    let f = seq![("key"@, key.wire()), ("value"@, value.wire())];
    assert forall|i: int, j: int| 0 <= i < j < 2 implies f[i].0 != f[j].0 by {
        if i == 0 && j == 1 {
            assert("key"@[0] != "value"@[0]);
        }
    }
    assert(names_distinct(f));
    lemma_distinct_fields(f);
    assert(f[0].0 == "key"@);
    <String as Wire>::lemma_wire_round_trip(key);
    assert(f[1].0 == "value"@);
    <Value as Wire>::lemma_wire_round_trip(value);
}

#[verifier::spinoff_prover]
#[verifier::rlimit(100)]
proof fn lemma_runtime_action_set_theme_round_trip(slug: ThemeSlug)
    requires
        spec_action_fits(Action::Runtime(RuntimeAction::SetTheme { slug })),
    ensures
        spec_action_from_call(spec_action_name(Action::Runtime(RuntimeAction::SetTheme { slug })), spec_action_args(Action::Runtime(RuntimeAction::SetTheme { slug }))) == Ok::<Seq<(Seq<char>, ValueV)>, CallErrorV>(spec_action_args(Action::Runtime(RuntimeAction::SetTheme { slug }))),
{
    lemma_action_names();
    reveal_strlit("slug");
    let f = seq![("slug"@, slug.wire())];
    assert(names_distinct(f));
    lemma_distinct_fields(f);
    assert(f[0].0 == "slug"@);
    <ThemeSlug as Wire>::lemma_wire_round_trip(slug);
}

#[verifier::spinoff_prover]
#[verifier::rlimit(100)]
proof fn lemma_runtime_action_reload_theme_round_trip()
    requires
        spec_action_fits(Action::Runtime(RuntimeAction::ReloadTheme {})),
    ensures
        spec_action_from_call(spec_action_name(Action::Runtime(RuntimeAction::ReloadTheme {})), spec_action_args(Action::Runtime(RuntimeAction::ReloadTheme {}))) == Ok::<Seq<(Seq<char>, ValueV)>, CallErrorV>(spec_action_args(Action::Runtime(RuntimeAction::ReloadTheme {}))),
{
    lemma_action_names();
}

proof fn lemma_runtime_action_round_trip(x: RuntimeAction)
    requires
        spec_action_fits(Action::Runtime(x)),
    ensures
        spec_action_from_call(spec_action_name(Action::Runtime(x)), spec_action_args(Action::Runtime(x))) == Ok::<Seq<(Seq<char>, ValueV)>, CallErrorV>(spec_action_args(Action::Runtime(x))),
{
    match x {
        RuntimeAction::Eval { source } => lemma_runtime_action_eval_round_trip(source),
        RuntimeAction::LoadRuntimeFile { path } => lemma_runtime_action_load_runtime_file_round_trip(path),
        RuntimeAction::ReloadRuntime {} => lemma_runtime_action_reload_runtime_round_trip(),
        RuntimeAction::OpenRepl {} => lemma_runtime_action_open_repl_round_trip(),
        RuntimeAction::CloseRepl {} => lemma_runtime_action_close_repl_round_trip(),
        RuntimeAction::ReplHistory { delta } => lemma_runtime_action_repl_history_round_trip(delta),
        RuntimeAction::ReplToBuffer {} => lemma_runtime_action_repl_to_buffer_round_trip(),
        RuntimeAction::PersistForm { form } => lemma_runtime_action_persist_form_round_trip(form),
        RuntimeAction::SetKeybinding { keys, binding, mode } => lemma_runtime_action_set_keybinding_round_trip(keys, binding, mode),
        RuntimeAction::RemoveKeybinding { keys, mode } => lemma_runtime_action_remove_keybinding_round_trip(keys, mode),
        RuntimeAction::DefineLanguage { language, spec } => lemma_runtime_action_define_language_round_trip(language, spec),
        RuntimeAction::SetOption { key, value } => lemma_runtime_action_set_option_round_trip(key, value),
        RuntimeAction::SetTheme { slug } => lemma_runtime_action_set_theme_round_trip(slug),
        RuntimeAction::ReloadTheme {} => lemma_runtime_action_reload_theme_round_trip(),
    }
}

#[verifier::spinoff_prover]
#[verifier::rlimit(100)]
proof fn lemma_app_action_quit_round_trip(force: bool)
    requires
        spec_action_fits(Action::App(AppAction::Quit { force })),
    ensures
        spec_action_from_call(spec_action_name(Action::App(AppAction::Quit { force })), spec_action_args(Action::App(AppAction::Quit { force }))) == Ok::<Seq<(Seq<char>, ValueV)>, CallErrorV>(spec_action_args(Action::App(AppAction::Quit { force }))),
{
    lemma_action_names();
    reveal_strlit("force");
    let f = seq![("force"@, force.wire())];
    assert(names_distinct(f));
    lemma_distinct_fields(f);
    assert(f[0].0 == "force"@);
    <bool as Wire>::lemma_wire_round_trip(force);
}

#[verifier::spinoff_prover]
#[verifier::rlimit(100)]
proof fn lemma_app_action_show_unknown_key_hint_round_trip(key: KeySeq)
    requires
        spec_action_fits(Action::App(AppAction::ShowUnknownKeyHint { key })),
    ensures
        spec_action_from_call(spec_action_name(Action::App(AppAction::ShowUnknownKeyHint { key })), spec_action_args(Action::App(AppAction::ShowUnknownKeyHint { key }))) == Ok::<Seq<(Seq<char>, ValueV)>, CallErrorV>(spec_action_args(Action::App(AppAction::ShowUnknownKeyHint { key }))),
{
    lemma_action_names();
    reveal_strlit("key");
    let f = seq![("key"@, key.wire())];
    assert(names_distinct(f));
    lemma_distinct_fields(f);
    assert(f[0].0 == "key"@);
    <KeySeq as Wire>::lemma_wire_round_trip(key);
}

#[verifier::spinoff_prover]
#[verifier::rlimit(100)]
proof fn lemma_app_action_open_help_round_trip(topic: Option<String>)
    requires
        spec_action_fits(Action::App(AppAction::OpenHelp { topic })),
    ensures
        spec_action_from_call(spec_action_name(Action::App(AppAction::OpenHelp { topic })), spec_action_args(Action::App(AppAction::OpenHelp { topic }))) == Ok::<Seq<(Seq<char>, ValueV)>, CallErrorV>(spec_action_args(Action::App(AppAction::OpenHelp { topic }))),
{
    lemma_action_names();
    reveal_strlit("topic");
    let f = seq![("topic"@, topic.wire())];
    assert(names_distinct(f));
    lemma_distinct_fields(f);
    assert(f[0].0 == "topic"@);
    <Option<String> as Wire>::lemma_wire_round_trip(topic);
}

#[verifier::spinoff_prover]
#[verifier::rlimit(100)]
proof fn lemma_app_action_open_arch_round_trip()
    requires
        spec_action_fits(Action::App(AppAction::OpenArch {})),
    ensures
        spec_action_from_call(spec_action_name(Action::App(AppAction::OpenArch {})), spec_action_args(Action::App(AppAction::OpenArch {}))) == Ok::<Seq<(Seq<char>, ValueV)>, CallErrorV>(spec_action_args(Action::App(AppAction::OpenArch {}))),
{
    lemma_action_names();
}

#[verifier::spinoff_prover]
#[verifier::rlimit(100)]
proof fn lemma_app_action_open_dashboard_round_trip()
    requires
        spec_action_fits(Action::App(AppAction::OpenDashboard {})),
    ensures
        spec_action_from_call(spec_action_name(Action::App(AppAction::OpenDashboard {})), spec_action_args(Action::App(AppAction::OpenDashboard {}))) == Ok::<Seq<(Seq<char>, ValueV)>, CallErrorV>(spec_action_args(Action::App(AppAction::OpenDashboard {}))),
{
    lemma_action_names();
}

#[verifier::spinoff_prover]
#[verifier::rlimit(100)]
proof fn lemma_app_action_dismiss_dashboard_hint_round_trip()
    requires
        spec_action_fits(Action::App(AppAction::DismissDashboardHint {})),
    ensures
        spec_action_from_call(spec_action_name(Action::App(AppAction::DismissDashboardHint {})), spec_action_args(Action::App(AppAction::DismissDashboardHint {}))) == Ok::<Seq<(Seq<char>, ValueV)>, CallErrorV>(spec_action_args(Action::App(AppAction::DismissDashboardHint {}))),
{
    lemma_action_names();
}

proof fn lemma_app_action_round_trip(x: AppAction)
    requires
        spec_action_fits(Action::App(x)),
    ensures
        spec_action_from_call(spec_action_name(Action::App(x)), spec_action_args(Action::App(x))) == Ok::<Seq<(Seq<char>, ValueV)>, CallErrorV>(spec_action_args(Action::App(x))),
{
    match x {
        AppAction::Quit { force } => lemma_app_action_quit_round_trip(force),
        AppAction::ShowUnknownKeyHint { key } => lemma_app_action_show_unknown_key_hint_round_trip(key),
        AppAction::OpenHelp { topic } => lemma_app_action_open_help_round_trip(topic),
        AppAction::OpenArch {} => lemma_app_action_open_arch_round_trip(),
        AppAction::OpenDashboard {} => lemma_app_action_open_dashboard_round_trip(),
        AppAction::DismissDashboardHint {} => lemma_app_action_dismiss_dashboard_hint_round_trip(),
    }
}

/// A call round-trips: decoding what [`Action::to_call`] encodes gives
/// the same capability with the same arguments, whenever every id it holds
/// fits the wire.
pub proof fn lemma_action_call_round_trip(x: Action)
    requires
        spec_action_fits(x),
    ensures
        spec_action_from_call(spec_action_name(x), spec_action_args(x)) == Ok::<Seq<(Seq<char>, ValueV)>, CallErrorV>(spec_action_args(x)),
{
    match x {
        Action::Buffer(y) => lemma_buffer_action_round_trip(y),
        Action::Motion(y) => lemma_motion_action_round_trip(y),
        Action::View(y) => lemma_view_action_round_trip(y),
        Action::Input(y) => lemma_input_action_round_trip(y),
        Action::History(y) => lemma_history_action_round_trip(y),
        Action::File(y) => lemma_file_action_round_trip(y),
        Action::Float(y) => lemma_float_action_round_trip(y),
        Action::Pane(y) => lemma_pane_action_round_trip(y),
        Action::Picker(y) => lemma_picker_action_round_trip(y),
        Action::Prompt(y) => lemma_prompt_action_round_trip(y),
        Action::Region(y) => lemma_region_action_round_trip(y),
        Action::Thread(y) => lemma_thread_action_round_trip(y),
        Action::Review(y) => lemma_review_action_round_trip(y),
        Action::Inbox(y) => lemma_inbox_action_round_trip(y),
        Action::Ask(y) => lemma_ask_action_round_trip(y),
        Action::Session(y) => lemma_session_action_round_trip(y),
        Action::Watch(y) => lemma_watch_action_round_trip(y),
        Action::Lsp(y) => lemma_lsp_action_round_trip(y),
        Action::Vcs(y) => lemma_vcs_action_round_trip(y),
        Action::Runtime(y) => lemma_runtime_action_round_trip(y),
        Action::App(y) => lemma_app_action_round_trip(y),
    }
}

/// Which capability a name is, by its place in the registry; `-1` for a
/// name that is none.
#[verifier::opaque]
pub open spec fn query_name_index(s: Seq<char>) -> int {
    if s.len() == 0 {
        -1
    } else if s.len() >= 2 && s[0] == 'r' && s[1] == 'e' {
        if s.len() == 2 {
            -1
        } else if s.len() >= 4 && s[2] == 'g' && s[3] == 'i' {
            if s.len() == 4 {
                -1
            } else if s.len() >= 6 && s[4] == 'o' && s[5] == 'n' {
                if s.len() == 6 {
                    2
                } else if s[6] == 's' {
                    0
                } else {
                    -1
                }
            } else if s.len() >= 8 && s[4] == 's' && s[5] == 't' && s[6] == 'e' && s[7] == 'r' {
                20
            } else {
                -1
            }
        } else if s.len() >= 12 && s[2] == 'v' && s[3] == 'i' && s[4] == 'e' && s[5] == 'w' && s[6] == '-' && s[7] == 'b' && s[8] == 'l' && s[9] == 'o' && s[10] == 'c' && s[11] == 'k' {
            if s.len() == 12 {
                33
            } else if s[12] == 's' {
                32
            } else {
                -1
            }
        } else {
            -1
        }
    } else if s.len() >= 7 && s[0] == 'u' && s[1] == 'n' && s[2] == 's' && s[3] == 'e' && s[4] == 'e' && s[5] == 'n' && s[6] == '-' {
        if s.len() == 7 {
            -1
        } else if s.len() >= 14 && s[7] == 'r' && s[8] == 'e' && s[9] == 'g' && s[10] == 'i' && s[11] == 'o' && s[12] == 'n' && s[13] == 's' {
            1
        } else if s.len() >= 12 && s[7] == 'c' && s[8] == 'o' && s[9] == 'u' && s[10] == 'n' && s[11] == 't' {
            3
        } else {
            -1
        }
    } else if s.len() >= 2 && s[0] == 's' && s[1] == 'e' {
        if s.len() == 2 {
            -1
        } else if s.len() >= 10 && s[2] == 'e' && s[3] == 'n' && s[4] == '-' && s[5] == 'c' && s[6] == 'o' && s[7] == 'u' && s[8] == 'n' && s[9] == 't' {
            4
        } else if s.len() >= 9 && s[2] == 'l' && s[3] == 'e' && s[4] == 'c' && s[5] == 't' && s[6] == 'i' && s[7] == 'o' && s[8] == 'n' {
            14
        } else if s.len() >= 7 && s[2] == 's' && s[3] == 's' && s[4] == 'i' && s[5] == 'o' && s[6] == 'n' {
            39
        } else {
            -1
        }
    } else if s.len() >= 14 && s[0] == 'n' && s[1] == 'e' && s[2] == 'x' && s[3] == 't' && s[4] == '-' && s[5] == 'r' && s[6] == 'e' && s[7] == 'g' && s[8] == 'i' && s[9] == 'o' && s[10] == 'n' && s[11] == '-' && s[12] == 'b' && s[13] == 'y' {
        5
    } else if s[0] == 'b' {
        if s.len() == 1 {
            -1
        } else if s.len() >= 13 && s[1] == 'l' && s[2] == 'o' && s[3] == 'c' && s[4] == 'k' && s[5] == '-' && s[6] == 'r' && s[7] == 'e' && s[8] == 'g' && s[9] == 'i' && s[10] == 'o' && s[11] == 'n' && s[12] == 's' {
            6
        } else if s.len() >= 6 && s[1] == 'u' && s[2] == 'f' && s[3] == 'f' && s[4] == 'e' && s[5] == 'r' {
            if s.len() == 6 {
                10
            } else if s[6] == 's' {
                9
            } else if s[6] == '-' {
                if s.len() == 7 {
                    -1
                } else if s.len() >= 11 && s[7] == 't' && s[8] == 'e' && s[9] == 'x' && s[10] == 't' {
                    11
                } else if s.len() >= 12 && s[7] == 'l' && s[8] == 'i' && s[9] == 'n' && s[10] == 'e' && s[11] == 's' {
                    12
                } else {
                    -1
                }
            } else {
                -1
            }
        } else {
            -1
        }
    } else if s[0] == 'a' {
        if s.len() == 1 {
            -1
        } else if s.len() >= 6 && s[1] == 'n' && s[2] == 'c' && s[3] == 'h' && s[4] == 'o' && s[5] == 'r' {
            if s.len() == 6 {
                8
            } else if s[6] == 's' {
                7
            } else {
                -1
            }
        } else if s.len() >= 4 && s[1] == 'r' && s[2] == 'c' && s[3] == 'h' {
            31
        } else if s.len() >= 3 && s[1] == 's' && s[2] == 'k' {
            43
        } else {
            -1
        }
    } else if s[0] == 'c' {
        if s.len() == 1 {
            -1
        } else if s.len() >= 6 && s[1] == 'u' && s[2] == 'r' && s[3] == 's' && s[4] == 'o' && s[5] == 'r' {
            13
        } else if s.len() >= 12 && s[1] == 'a' && s[2] == 'p' && s[3] == 'a' && s[4] == 'b' && s[5] == 'i' && s[6] == 'l' && s[7] == 'i' && s[8] == 't' && s[9] == 'i' && s[10] == 'e' && s[11] == 's' {
            24
        } else {
            -1
        }
    } else if s[0] == 'v' {
        if s.len() == 1 {
            -1
        } else if s.len() >= 8 && s[1] == 'i' && s[2] == 'e' && s[3] == 'w' && s[4] == 'p' && s[5] == 'o' && s[6] == 'r' && s[7] == 't' {
            15
        } else if s.len() >= 10 && s[1] == 'c' && s[2] == 's' && s[3] == '-' && s[4] == 's' && s[5] == 't' && s[6] == 'a' && s[7] == 't' && s[8] == 'u' && s[9] == 's' {
            46
        } else {
            -1
        }
    } else if s[0] == 'd' {
        if s.len() == 1 {
            -1
        } else if s[1] == 'i' {
            if s.len() == 2 {
                -1
            } else if s.len() >= 13 && s[2] == 'r' && s[3] == 't' && s[4] == 'y' && s[5] == '-' && s[6] == 'b' && s[7] == 'u' && s[8] == 'f' && s[9] == 'f' && s[10] == 'e' && s[11] == 'r' && s[12] == 's' {
                16
            } else if s.len() >= 10 && s[2] == 's' && s[3] == 'k' && s[4] == '-' && s[5] == 's' && s[6] == 't' && s[7] == 'a' && s[8] == 't' && s[9] == 'e' {
                17
            } else if s.len() >= 11 && s[2] == 'a' && s[3] == 'g' && s[4] == 'n' && s[5] == 'o' && s[6] == 's' && s[7] == 't' && s[8] == 'i' && s[9] == 'c' && s[10] == 's' {
                38
            } else {
                -1
            }
        } else if s.len() >= 9 && s[1] == 'e' && s[2] == 's' && s[3] == 'c' && s[4] == 'r' && s[5] == 'i' && s[6] == 'b' && s[7] == 'e' && s[8] == '-' {
            if s.len() == 9 {
                -1
            } else if s.len() >= 12 && s[9] == 'k' && s[10] == 'e' && s[11] == 'y' {
                22
            } else if s.len() >= 19 && s[9] == 'c' && s[10] == 'a' && s[11] == 'p' && s[12] == 'a' && s[13] == 'b' && s[14] == 'i' && s[15] == 'l' && s[16] == 'i' && s[17] == 't' && s[18] == 'y' {
                23
            } else {
                -1
            }
        } else {
            -1
        }
    } else if s.len() >= 4 && s[0] == 'm' && s[1] == 'o' && s[2] == 'd' && s[3] == 'e' {
        18
    } else if s[0] == 'p' {
        if s.len() == 1 {
            -1
        } else if s.len() >= 8 && s[1] == 'e' && s[2] == 'n' && s[3] == 'd' && s[4] == 'i' && s[5] == 'n' && s[6] == 'g' && s[7] == '-' {
            if s.len() == 8 {
                -1
            } else if s.len() >= 12 && s[8] == 'k' && s[9] == 'e' && s[10] == 'y' && s[11] == 's' {
                19
            } else if s.len() >= 12 && s[8] == 'a' && s[9] == 's' && s[10] == 'k' && s[11] == 's' {
                42
            } else {
                -1
            }
        } else if s.len() >= 5 && s[1] == 'a' && s[2] == 'n' && s[3] == 'e' && s[4] == 's' {
            25
        } else if s.len() >= 11 && s[1] == 'i' && s[2] == 'c' && s[3] == 'k' && s[4] == 'e' && s[5] == 'r' && s[6] == '-' && s[7] == 'r' && s[8] == 'o' && s[9] == 'w' && s[10] == 's' {
            27
        } else {
            -1
        }
    } else if s.len() >= 6 && s[0] == 'k' && s[1] == 'e' && s[2] == 'y' && s[3] == 'm' && s[4] == 'a' && s[5] == 'p' {
        21
    } else if s.len() >= 6 && s[0] == 'f' && s[1] == 'l' && s[2] == 'o' && s[3] == 'a' && s[4] == 't' && s[5] == 's' {
        26
    } else if s[0] == 't' {
        if s.len() == 1 {
            -1
        } else if s[1] == 'h' {
            if s.len() == 2 {
                -1
            } else if s.len() >= 5 && s[2] == 'e' && s[3] == 'm' && s[4] == 'e' {
                28
            } else if s.len() >= 6 && s[2] == 'r' && s[3] == 'e' && s[4] == 'a' && s[5] == 'd' {
                if s.len() == 6 {
                    36
                } else if s[6] == 's' {
                    35
                } else {
                    -1
                }
            } else {
                -1
            }
        } else if s.len() >= 4 && s[1] == 'u' && s[2] == 'r' && s[3] == 'n' {
            if s.len() == 4 {
                41
            } else if s[4] == 's' {
                40
            } else {
                -1
            }
        } else if s.len() >= 8 && s[1] == 'i' && s[2] == 'm' && s[3] == 'e' && s[4] == 'l' && s[5] == 'i' && s[6] == 'n' && s[7] == 'e' {
            47
        } else {
            -1
        }
    } else if s.len() >= 7 && s[0] == 'o' && s[1] == 'p' && s[2] == 't' && s[3] == 'i' && s[4] == 'o' && s[5] == 'n' && s[6] == 's' {
        29
    } else if s.len() >= 9 && s[0] == 'l' && s[1] == 'a' && s[2] == 'n' && s[3] == 'g' && s[4] == 'u' && s[5] == 'a' && s[6] == 'g' && s[7] == 'e' && s[8] == 's' {
        30
    } else if s.len() >= 5 && s[0] == 'h' && s[1] == 'u' && s[2] == 'n' && s[3] == 'k' && s[4] == 's' {
        34
    } else if s.len() >= 5 && s[0] == 'i' && s[1] == 'n' && s[2] == 'b' && s[3] == 'o' && s[4] == 'x' {
        37
    } else if s.len() >= 5 && s[0] == 'w' && s[1] == 'a' && s[2] == 't' && s[3] == 'c' && s[4] == 'h' {
        if s.len() == 5 {
            -1
        } else if s.len() >= 7 && s[5] == 'e' && s[6] == 's' {
            44
        } else if s.len() >= 12 && s[5] == '-' && s[6] == 'v' && s[7] == 'a' && s[8] == 'l' && s[9] == 'u' && s[10] == 'e' && s[11] == 's' {
            45
        } else {
            -1
        }
    } else {
        -1
    }
}

/// Each query name reads back as its own place, so no two capabilities
/// share a name.
#[verifier::spinoff_prover]
#[verifier::rlimit(100)]
pub proof fn lemma_query_names()
    ensures
        query_name_index("regions"@) == 0,
        query_name_index("unseen-regions"@) == 1,
        query_name_index("region"@) == 2,
        query_name_index("unseen-count"@) == 3,
        query_name_index("seen-count"@) == 4,
        query_name_index("next-region-by"@) == 5,
        query_name_index("block-regions"@) == 6,
        query_name_index("anchors"@) == 7,
        query_name_index("anchor"@) == 8,
        query_name_index("buffers"@) == 9,
        query_name_index("buffer"@) == 10,
        query_name_index("buffer-text"@) == 11,
        query_name_index("buffer-lines"@) == 12,
        query_name_index("cursor"@) == 13,
        query_name_index("selection"@) == 14,
        query_name_index("viewport"@) == 15,
        query_name_index("dirty-buffers"@) == 16,
        query_name_index("disk-state"@) == 17,
        query_name_index("mode"@) == 18,
        query_name_index("pending-keys"@) == 19,
        query_name_index("register"@) == 20,
        query_name_index("keymap"@) == 21,
        query_name_index("describe-key"@) == 22,
        query_name_index("describe-capability"@) == 23,
        query_name_index("capabilities"@) == 24,
        query_name_index("panes"@) == 25,
        query_name_index("floats"@) == 26,
        query_name_index("picker-rows"@) == 27,
        query_name_index("theme"@) == 28,
        query_name_index("options"@) == 29,
        query_name_index("languages"@) == 30,
        query_name_index("arch"@) == 31,
        query_name_index("review-blocks"@) == 32,
        query_name_index("review-block"@) == 33,
        query_name_index("hunks"@) == 34,
        query_name_index("threads"@) == 35,
        query_name_index("thread"@) == 36,
        query_name_index("inbox"@) == 37,
        query_name_index("diagnostics"@) == 38,
        query_name_index("session"@) == 39,
        query_name_index("turns"@) == 40,
        query_name_index("turn"@) == 41,
        query_name_index("pending-asks"@) == 42,
        query_name_index("ask"@) == 43,
        query_name_index("watches"@) == 44,
        query_name_index("watch-values"@) == 45,
        query_name_index("vcs-status"@) == 46,
        query_name_index("timeline"@) == 47,
{
    reveal(query_name_index);
    reveal_strlit("regions");
    reveal_strlit("unseen-regions");
    reveal_strlit("region");
    reveal_strlit("unseen-count");
    reveal_strlit("seen-count");
    reveal_strlit("next-region-by");
    reveal_strlit("block-regions");
    reveal_strlit("anchors");
    reveal_strlit("anchor");
    reveal_strlit("buffers");
    reveal_strlit("buffer");
    reveal_strlit("buffer-text");
    reveal_strlit("buffer-lines");
    reveal_strlit("cursor");
    reveal_strlit("selection");
    reveal_strlit("viewport");
    reveal_strlit("dirty-buffers");
    reveal_strlit("disk-state");
    reveal_strlit("mode");
    reveal_strlit("pending-keys");
    reveal_strlit("register");
    reveal_strlit("keymap");
    reveal_strlit("describe-key");
    reveal_strlit("describe-capability");
    reveal_strlit("capabilities");
    reveal_strlit("panes");
    reveal_strlit("floats");
    reveal_strlit("picker-rows");
    reveal_strlit("theme");
    reveal_strlit("options");
    reveal_strlit("languages");
    reveal_strlit("arch");
    reveal_strlit("review-blocks");
    reveal_strlit("review-block");
    reveal_strlit("hunks");
    reveal_strlit("threads");
    reveal_strlit("thread");
    reveal_strlit("inbox");
    reveal_strlit("diagnostics");
    reveal_strlit("session");
    reveal_strlit("turns");
    reveal_strlit("turn");
    reveal_strlit("pending-asks");
    reveal_strlit("ask");
    reveal_strlit("watches");
    reveal_strlit("watch-values");
    reveal_strlit("vcs-status");
    reveal_strlit("timeline");
    assert(query_name_index("regions"@) == 0);
    assert(query_name_index("unseen-regions"@) == 1);
    assert(query_name_index("region"@) == 2);
    assert(query_name_index("unseen-count"@) == 3);
    assert(query_name_index("seen-count"@) == 4);
    assert(query_name_index("next-region-by"@) == 5);
    assert(query_name_index("block-regions"@) == 6);
    assert(query_name_index("anchors"@) == 7);
    assert(query_name_index("anchor"@) == 8);
    assert(query_name_index("buffers"@) == 9);
    assert(query_name_index("buffer"@) == 10);
    assert(query_name_index("buffer-text"@) == 11);
    assert(query_name_index("buffer-lines"@) == 12);
    assert(query_name_index("cursor"@) == 13);
    assert(query_name_index("selection"@) == 14);
    assert(query_name_index("viewport"@) == 15);
    assert(query_name_index("dirty-buffers"@) == 16);
    assert(query_name_index("disk-state"@) == 17);
    assert(query_name_index("mode"@) == 18);
    assert(query_name_index("pending-keys"@) == 19);
    assert(query_name_index("register"@) == 20);
    assert(query_name_index("keymap"@) == 21);
    assert(query_name_index("describe-key"@) == 22);
    assert(query_name_index("describe-capability"@) == 23);
    assert(query_name_index("capabilities"@) == 24);
    assert(query_name_index("panes"@) == 25);
    assert(query_name_index("floats"@) == 26);
    assert(query_name_index("picker-rows"@) == 27);
    assert(query_name_index("theme"@) == 28);
    assert(query_name_index("options"@) == 29);
    assert(query_name_index("languages"@) == 30);
    assert(query_name_index("arch"@) == 31);
    assert(query_name_index("review-blocks"@) == 32);
    assert(query_name_index("review-block"@) == 33);
    assert(query_name_index("hunks"@) == 34);
    assert(query_name_index("threads"@) == 35);
    assert(query_name_index("thread"@) == 36);
    assert(query_name_index("inbox"@) == 37);
    assert(query_name_index("diagnostics"@) == 38);
    assert(query_name_index("session"@) == 39);
    assert(query_name_index("turns"@) == 40);
    assert(query_name_index("turn"@) == 41);
    assert(query_name_index("pending-asks"@) == 42);
    assert(query_name_index("ask"@) == 43);
    assert(query_name_index("watches"@) == 44);
    assert(query_name_index("watch-values"@) == 45);
    assert(query_name_index("vcs-status"@) == 46);
    assert(query_name_index("timeline"@) == 47);
}

#[verifier::spinoff_prover]
#[verifier::rlimit(100)]
proof fn lemma_region_query_regions_round_trip(filter: Option<RegionFilter>)
    requires
        spec_query_fits(Query::Region(RegionQuery::Regions { filter })),
    ensures
        spec_query_from_call(spec_query_name(Query::Region(RegionQuery::Regions { filter })), spec_query_args(Query::Region(RegionQuery::Regions { filter }))) == Ok::<Seq<(Seq<char>, ValueV)>, CallErrorV>(spec_query_args(Query::Region(RegionQuery::Regions { filter }))),
{
    lemma_query_names();
    reveal_strlit("filter");
    let f = seq![("filter"@, filter.wire())];
    assert(names_distinct(f));
    lemma_distinct_fields(f);
    assert(f[0].0 == "filter"@);
    <Option<RegionFilter> as Wire>::lemma_wire_round_trip(filter);
}

#[verifier::spinoff_prover]
#[verifier::rlimit(100)]
proof fn lemma_region_query_unseen_regions_round_trip(path: Option<String>)
    requires
        spec_query_fits(Query::Region(RegionQuery::UnseenRegions { path })),
    ensures
        spec_query_from_call(spec_query_name(Query::Region(RegionQuery::UnseenRegions { path })), spec_query_args(Query::Region(RegionQuery::UnseenRegions { path }))) == Ok::<Seq<(Seq<char>, ValueV)>, CallErrorV>(spec_query_args(Query::Region(RegionQuery::UnseenRegions { path }))),
{
    lemma_query_names();
    reveal_strlit("path");
    let f = seq![("path"@, path.wire())];
    assert(names_distinct(f));
    lemma_distinct_fields(f);
    assert(f[0].0 == "path"@);
    <Option<String> as Wire>::lemma_wire_round_trip(path);
}

#[verifier::spinoff_prover]
#[verifier::rlimit(100)]
proof fn lemma_region_query_region_round_trip(region: RegionId)
    requires
        spec_query_fits(Query::Region(RegionQuery::Region { region })),
    ensures
        spec_query_from_call(spec_query_name(Query::Region(RegionQuery::Region { region })), spec_query_args(Query::Region(RegionQuery::Region { region }))) == Ok::<Seq<(Seq<char>, ValueV)>, CallErrorV>(spec_query_args(Query::Region(RegionQuery::Region { region }))),
{
    lemma_query_names();
    reveal_strlit("region");
    let f = seq![("region"@, region.wire())];
    assert(names_distinct(f));
    lemma_distinct_fields(f);
    assert(f[0].0 == "region"@);
    <RegionId as Wire>::lemma_wire_round_trip(region);
}

#[verifier::spinoff_prover]
#[verifier::rlimit(100)]
proof fn lemma_region_query_unseen_count_round_trip(within: Option<Target>)
    requires
        spec_query_fits(Query::Region(RegionQuery::UnseenCount { within })),
    ensures
        spec_query_from_call(spec_query_name(Query::Region(RegionQuery::UnseenCount { within })), spec_query_args(Query::Region(RegionQuery::UnseenCount { within }))) == Ok::<Seq<(Seq<char>, ValueV)>, CallErrorV>(spec_query_args(Query::Region(RegionQuery::UnseenCount { within }))),
{
    lemma_query_names();
    reveal_strlit("within");
    let f = seq![("within"@, within.wire())];
    assert(names_distinct(f));
    lemma_distinct_fields(f);
    assert(f[0].0 == "within"@);
    <Option<Target> as Wire>::lemma_wire_round_trip(within);
}

#[verifier::spinoff_prover]
#[verifier::rlimit(100)]
proof fn lemma_region_query_seen_count_round_trip(within: Option<Target>)
    requires
        spec_query_fits(Query::Region(RegionQuery::SeenCount { within })),
    ensures
        spec_query_from_call(spec_query_name(Query::Region(RegionQuery::SeenCount { within })), spec_query_args(Query::Region(RegionQuery::SeenCount { within }))) == Ok::<Seq<(Seq<char>, ValueV)>, CallErrorV>(spec_query_args(Query::Region(RegionQuery::SeenCount { within }))),
{
    lemma_query_names();
    reveal_strlit("within");
    let f = seq![("within"@, within.wire())];
    assert(names_distinct(f));
    lemma_distinct_fields(f);
    assert(f[0].0 == "within"@);
    <Option<Target> as Wire>::lemma_wire_round_trip(within);
}

#[verifier::spinoff_prover]
#[verifier::rlimit(100)]
proof fn lemma_region_query_next_region_by_round_trip(author: Actor, from: Option<Position>)
    requires
        spec_query_fits(Query::Region(RegionQuery::NextRegionBy { author, from })),
    ensures
        spec_query_from_call(spec_query_name(Query::Region(RegionQuery::NextRegionBy { author, from })), spec_query_args(Query::Region(RegionQuery::NextRegionBy { author, from }))) == Ok::<Seq<(Seq<char>, ValueV)>, CallErrorV>(spec_query_args(Query::Region(RegionQuery::NextRegionBy { author, from }))),
{
    lemma_query_names();
    reveal_strlit("author");
    reveal_strlit("from");
    let f = seq![("author"@, author.wire()), ("from"@, from.wire())];
    assert forall|i: int, j: int| 0 <= i < j < 2 implies f[i].0 != f[j].0 by {
        if i == 0 && j == 1 {
            assert("author"@[0] != "from"@[0]);
        }
    }
    assert(names_distinct(f));
    lemma_distinct_fields(f);
    assert(f[0].0 == "author"@);
    <Actor as Wire>::lemma_wire_round_trip(author);
    assert(f[1].0 == "from"@);
    <Option<Position> as Wire>::lemma_wire_round_trip(from);
}

#[verifier::spinoff_prover]
#[verifier::rlimit(100)]
proof fn lemma_region_query_block_regions_round_trip(block: String)
    requires
        spec_query_fits(Query::Region(RegionQuery::BlockRegions { block })),
    ensures
        spec_query_from_call(spec_query_name(Query::Region(RegionQuery::BlockRegions { block })), spec_query_args(Query::Region(RegionQuery::BlockRegions { block }))) == Ok::<Seq<(Seq<char>, ValueV)>, CallErrorV>(spec_query_args(Query::Region(RegionQuery::BlockRegions { block }))),
{
    lemma_query_names();
    reveal_strlit("block");
    let f = seq![("block"@, block.wire())];
    assert(names_distinct(f));
    lemma_distinct_fields(f);
    assert(f[0].0 == "block"@);
    <String as Wire>::lemma_wire_round_trip(block);
}

#[verifier::spinoff_prover]
#[verifier::rlimit(100)]
proof fn lemma_region_query_anchors_round_trip(path: String)
    requires
        spec_query_fits(Query::Region(RegionQuery::Anchors { path })),
    ensures
        spec_query_from_call(spec_query_name(Query::Region(RegionQuery::Anchors { path })), spec_query_args(Query::Region(RegionQuery::Anchors { path }))) == Ok::<Seq<(Seq<char>, ValueV)>, CallErrorV>(spec_query_args(Query::Region(RegionQuery::Anchors { path }))),
{
    lemma_query_names();
    reveal_strlit("path");
    let f = seq![("path"@, path.wire())];
    assert(names_distinct(f));
    lemma_distinct_fields(f);
    assert(f[0].0 == "path"@);
    <String as Wire>::lemma_wire_round_trip(path);
}

#[verifier::spinoff_prover]
#[verifier::rlimit(100)]
proof fn lemma_region_query_anchor_round_trip(anchor: AnchorId)
    requires
        spec_query_fits(Query::Region(RegionQuery::Anchor { anchor })),
    ensures
        spec_query_from_call(spec_query_name(Query::Region(RegionQuery::Anchor { anchor })), spec_query_args(Query::Region(RegionQuery::Anchor { anchor }))) == Ok::<Seq<(Seq<char>, ValueV)>, CallErrorV>(spec_query_args(Query::Region(RegionQuery::Anchor { anchor }))),
{
    lemma_query_names();
    reveal_strlit("anchor");
    let f = seq![("anchor"@, anchor.wire())];
    assert(names_distinct(f));
    lemma_distinct_fields(f);
    assert(f[0].0 == "anchor"@);
    <AnchorId as Wire>::lemma_wire_round_trip(anchor);
}

proof fn lemma_region_query_round_trip(x: RegionQuery)
    requires
        spec_query_fits(Query::Region(x)),
    ensures
        spec_query_from_call(spec_query_name(Query::Region(x)), spec_query_args(Query::Region(x))) == Ok::<Seq<(Seq<char>, ValueV)>, CallErrorV>(spec_query_args(Query::Region(x))),
{
    match x {
        RegionQuery::Regions { filter } => lemma_region_query_regions_round_trip(filter),
        RegionQuery::UnseenRegions { path } => lemma_region_query_unseen_regions_round_trip(path),
        RegionQuery::Region { region } => lemma_region_query_region_round_trip(region),
        RegionQuery::UnseenCount { within } => lemma_region_query_unseen_count_round_trip(within),
        RegionQuery::SeenCount { within } => lemma_region_query_seen_count_round_trip(within),
        RegionQuery::NextRegionBy { author, from } => lemma_region_query_next_region_by_round_trip(author, from),
        RegionQuery::BlockRegions { block } => lemma_region_query_block_regions_round_trip(block),
        RegionQuery::Anchors { path } => lemma_region_query_anchors_round_trip(path),
        RegionQuery::Anchor { anchor } => lemma_region_query_anchor_round_trip(anchor),
    }
}

#[verifier::spinoff_prover]
#[verifier::rlimit(100)]
proof fn lemma_buffer_query_buffers_round_trip()
    requires
        spec_query_fits(Query::Buffer(BufferQuery::Buffers {})),
    ensures
        spec_query_from_call(spec_query_name(Query::Buffer(BufferQuery::Buffers {})), spec_query_args(Query::Buffer(BufferQuery::Buffers {}))) == Ok::<Seq<(Seq<char>, ValueV)>, CallErrorV>(spec_query_args(Query::Buffer(BufferQuery::Buffers {}))),
{
    lemma_query_names();
}

#[verifier::spinoff_prover]
#[verifier::rlimit(100)]
proof fn lemma_buffer_query_buffer_round_trip(buffer: Option<BufferId>)
    requires
        spec_query_fits(Query::Buffer(BufferQuery::Buffer { buffer })),
    ensures
        spec_query_from_call(spec_query_name(Query::Buffer(BufferQuery::Buffer { buffer })), spec_query_args(Query::Buffer(BufferQuery::Buffer { buffer }))) == Ok::<Seq<(Seq<char>, ValueV)>, CallErrorV>(spec_query_args(Query::Buffer(BufferQuery::Buffer { buffer }))),
{
    lemma_query_names();
    reveal_strlit("buffer");
    let f = seq![("buffer"@, buffer.wire())];
    assert(names_distinct(f));
    lemma_distinct_fields(f);
    assert(f[0].0 == "buffer"@);
    <Option<BufferId> as Wire>::lemma_wire_round_trip(buffer);
}

#[verifier::spinoff_prover]
#[verifier::rlimit(100)]
proof fn lemma_buffer_query_buffer_text_round_trip(target: Target)
    requires
        spec_query_fits(Query::Buffer(BufferQuery::BufferText { target })),
    ensures
        spec_query_from_call(spec_query_name(Query::Buffer(BufferQuery::BufferText { target })), spec_query_args(Query::Buffer(BufferQuery::BufferText { target }))) == Ok::<Seq<(Seq<char>, ValueV)>, CallErrorV>(spec_query_args(Query::Buffer(BufferQuery::BufferText { target }))),
{
    lemma_query_names();
    reveal_strlit("target");
    let f = seq![("target"@, target.wire())];
    assert(names_distinct(f));
    lemma_distinct_fields(f);
    assert(f[0].0 == "target"@);
    <Target as Wire>::lemma_wire_round_trip(target);
}

#[verifier::spinoff_prover]
#[verifier::rlimit(100)]
proof fn lemma_buffer_query_buffer_lines_round_trip(target: Target)
    requires
        spec_query_fits(Query::Buffer(BufferQuery::BufferLines { target })),
    ensures
        spec_query_from_call(spec_query_name(Query::Buffer(BufferQuery::BufferLines { target })), spec_query_args(Query::Buffer(BufferQuery::BufferLines { target }))) == Ok::<Seq<(Seq<char>, ValueV)>, CallErrorV>(spec_query_args(Query::Buffer(BufferQuery::BufferLines { target }))),
{
    lemma_query_names();
    reveal_strlit("target");
    let f = seq![("target"@, target.wire())];
    assert(names_distinct(f));
    lemma_distinct_fields(f);
    assert(f[0].0 == "target"@);
    <Target as Wire>::lemma_wire_round_trip(target);
}

#[verifier::spinoff_prover]
#[verifier::rlimit(100)]
proof fn lemma_buffer_query_cursor_round_trip(pane: PaneRef)
    requires
        spec_query_fits(Query::Buffer(BufferQuery::Cursor { pane })),
    ensures
        spec_query_from_call(spec_query_name(Query::Buffer(BufferQuery::Cursor { pane })), spec_query_args(Query::Buffer(BufferQuery::Cursor { pane }))) == Ok::<Seq<(Seq<char>, ValueV)>, CallErrorV>(spec_query_args(Query::Buffer(BufferQuery::Cursor { pane }))),
{
    lemma_query_names();
    reveal_strlit("pane");
    let f = seq![("pane"@, pane.wire())];
    assert(names_distinct(f));
    lemma_distinct_fields(f);
    assert(f[0].0 == "pane"@);
    <PaneRef as Wire>::lemma_wire_round_trip(pane);
}

#[verifier::spinoff_prover]
#[verifier::rlimit(100)]
proof fn lemma_buffer_query_selection_round_trip(pane: PaneRef)
    requires
        spec_query_fits(Query::Buffer(BufferQuery::Selection { pane })),
    ensures
        spec_query_from_call(spec_query_name(Query::Buffer(BufferQuery::Selection { pane })), spec_query_args(Query::Buffer(BufferQuery::Selection { pane }))) == Ok::<Seq<(Seq<char>, ValueV)>, CallErrorV>(spec_query_args(Query::Buffer(BufferQuery::Selection { pane }))),
{
    lemma_query_names();
    reveal_strlit("pane");
    let f = seq![("pane"@, pane.wire())];
    assert(names_distinct(f));
    lemma_distinct_fields(f);
    assert(f[0].0 == "pane"@);
    <PaneRef as Wire>::lemma_wire_round_trip(pane);
}

#[verifier::spinoff_prover]
#[verifier::rlimit(100)]
proof fn lemma_buffer_query_viewport_round_trip(pane: PaneRef)
    requires
        spec_query_fits(Query::Buffer(BufferQuery::Viewport { pane })),
    ensures
        spec_query_from_call(spec_query_name(Query::Buffer(BufferQuery::Viewport { pane })), spec_query_args(Query::Buffer(BufferQuery::Viewport { pane }))) == Ok::<Seq<(Seq<char>, ValueV)>, CallErrorV>(spec_query_args(Query::Buffer(BufferQuery::Viewport { pane }))),
{
    lemma_query_names();
    reveal_strlit("pane");
    let f = seq![("pane"@, pane.wire())];
    assert(names_distinct(f));
    lemma_distinct_fields(f);
    assert(f[0].0 == "pane"@);
    <PaneRef as Wire>::lemma_wire_round_trip(pane);
}

#[verifier::spinoff_prover]
#[verifier::rlimit(100)]
proof fn lemma_buffer_query_dirty_buffers_round_trip()
    requires
        spec_query_fits(Query::Buffer(BufferQuery::DirtyBuffers {})),
    ensures
        spec_query_from_call(spec_query_name(Query::Buffer(BufferQuery::DirtyBuffers {})), spec_query_args(Query::Buffer(BufferQuery::DirtyBuffers {}))) == Ok::<Seq<(Seq<char>, ValueV)>, CallErrorV>(spec_query_args(Query::Buffer(BufferQuery::DirtyBuffers {}))),
{
    lemma_query_names();
}

#[verifier::spinoff_prover]
#[verifier::rlimit(100)]
proof fn lemma_buffer_query_disk_state_round_trip(path: String)
    requires
        spec_query_fits(Query::Buffer(BufferQuery::DiskState { path })),
    ensures
        spec_query_from_call(spec_query_name(Query::Buffer(BufferQuery::DiskState { path })), spec_query_args(Query::Buffer(BufferQuery::DiskState { path }))) == Ok::<Seq<(Seq<char>, ValueV)>, CallErrorV>(spec_query_args(Query::Buffer(BufferQuery::DiskState { path }))),
{
    lemma_query_names();
    reveal_strlit("path");
    let f = seq![("path"@, path.wire())];
    assert(names_distinct(f));
    lemma_distinct_fields(f);
    assert(f[0].0 == "path"@);
    <String as Wire>::lemma_wire_round_trip(path);
}

proof fn lemma_buffer_query_round_trip(x: BufferQuery)
    requires
        spec_query_fits(Query::Buffer(x)),
    ensures
        spec_query_from_call(spec_query_name(Query::Buffer(x)), spec_query_args(Query::Buffer(x))) == Ok::<Seq<(Seq<char>, ValueV)>, CallErrorV>(spec_query_args(Query::Buffer(x))),
{
    match x {
        BufferQuery::Buffers {} => lemma_buffer_query_buffers_round_trip(),
        BufferQuery::Buffer { buffer } => lemma_buffer_query_buffer_round_trip(buffer),
        BufferQuery::BufferText { target } => lemma_buffer_query_buffer_text_round_trip(target),
        BufferQuery::BufferLines { target } => lemma_buffer_query_buffer_lines_round_trip(target),
        BufferQuery::Cursor { pane } => lemma_buffer_query_cursor_round_trip(pane),
        BufferQuery::Selection { pane } => lemma_buffer_query_selection_round_trip(pane),
        BufferQuery::Viewport { pane } => lemma_buffer_query_viewport_round_trip(pane),
        BufferQuery::DirtyBuffers {} => lemma_buffer_query_dirty_buffers_round_trip(),
        BufferQuery::DiskState { path } => lemma_buffer_query_disk_state_round_trip(path),
    }
}

#[verifier::spinoff_prover]
#[verifier::rlimit(100)]
proof fn lemma_input_query_mode_round_trip()
    requires
        spec_query_fits(Query::Input(InputQuery::Mode {})),
    ensures
        spec_query_from_call(spec_query_name(Query::Input(InputQuery::Mode {})), spec_query_args(Query::Input(InputQuery::Mode {}))) == Ok::<Seq<(Seq<char>, ValueV)>, CallErrorV>(spec_query_args(Query::Input(InputQuery::Mode {}))),
{
    lemma_query_names();
}

#[verifier::spinoff_prover]
#[verifier::rlimit(100)]
proof fn lemma_input_query_pending_keys_round_trip()
    requires
        spec_query_fits(Query::Input(InputQuery::PendingKeys {})),
    ensures
        spec_query_from_call(spec_query_name(Query::Input(InputQuery::PendingKeys {})), spec_query_args(Query::Input(InputQuery::PendingKeys {}))) == Ok::<Seq<(Seq<char>, ValueV)>, CallErrorV>(spec_query_args(Query::Input(InputQuery::PendingKeys {}))),
{
    lemma_query_names();
}

#[verifier::spinoff_prover]
#[verifier::rlimit(100)]
proof fn lemma_input_query_register_round_trip(register: RegisterName)
    requires
        spec_query_fits(Query::Input(InputQuery::Register { register })),
    ensures
        spec_query_from_call(spec_query_name(Query::Input(InputQuery::Register { register })), spec_query_args(Query::Input(InputQuery::Register { register }))) == Ok::<Seq<(Seq<char>, ValueV)>, CallErrorV>(spec_query_args(Query::Input(InputQuery::Register { register }))),
{
    lemma_query_names();
    reveal_strlit("register");
    let f = seq![("register"@, register.wire())];
    assert(names_distinct(f));
    lemma_distinct_fields(f);
    assert(f[0].0 == "register"@);
    <RegisterName as Wire>::lemma_wire_round_trip(register);
}

#[verifier::spinoff_prover]
#[verifier::rlimit(100)]
proof fn lemma_input_query_keymap_round_trip(prefix: Option<KeySeq>, mode: Option<EditMode>)
    requires
        spec_query_fits(Query::Input(InputQuery::Keymap { prefix, mode })),
    ensures
        spec_query_from_call(spec_query_name(Query::Input(InputQuery::Keymap { prefix, mode })), spec_query_args(Query::Input(InputQuery::Keymap { prefix, mode }))) == Ok::<Seq<(Seq<char>, ValueV)>, CallErrorV>(spec_query_args(Query::Input(InputQuery::Keymap { prefix, mode }))),
{
    lemma_query_names();
    reveal_strlit("mode");
    reveal_strlit("prefix");
    let f = seq![("prefix"@, prefix.wire()), ("mode"@, mode.wire())];
    assert forall|i: int, j: int| 0 <= i < j < 2 implies f[i].0 != f[j].0 by {
        if i == 0 && j == 1 {
            assert("prefix"@[0] != "mode"@[0]);
        }
    }
    assert(names_distinct(f));
    lemma_distinct_fields(f);
    assert(f[0].0 == "prefix"@);
    <Option<KeySeq> as Wire>::lemma_wire_round_trip(prefix);
    assert(f[1].0 == "mode"@);
    <Option<EditMode> as Wire>::lemma_wire_round_trip(mode);
}

#[verifier::spinoff_prover]
#[verifier::rlimit(100)]
proof fn lemma_input_query_describe_key_round_trip(keys: KeySeq)
    requires
        spec_query_fits(Query::Input(InputQuery::DescribeKey { keys })),
    ensures
        spec_query_from_call(spec_query_name(Query::Input(InputQuery::DescribeKey { keys })), spec_query_args(Query::Input(InputQuery::DescribeKey { keys }))) == Ok::<Seq<(Seq<char>, ValueV)>, CallErrorV>(spec_query_args(Query::Input(InputQuery::DescribeKey { keys }))),
{
    lemma_query_names();
    reveal_strlit("keys");
    let f = seq![("keys"@, keys.wire())];
    assert(names_distinct(f));
    lemma_distinct_fields(f);
    assert(f[0].0 == "keys"@);
    <KeySeq as Wire>::lemma_wire_round_trip(keys);
}

#[verifier::spinoff_prover]
#[verifier::rlimit(100)]
proof fn lemma_input_query_describe_capability_round_trip(name: String)
    requires
        spec_query_fits(Query::Input(InputQuery::DescribeCapability { name })),
    ensures
        spec_query_from_call(spec_query_name(Query::Input(InputQuery::DescribeCapability { name })), spec_query_args(Query::Input(InputQuery::DescribeCapability { name }))) == Ok::<Seq<(Seq<char>, ValueV)>, CallErrorV>(spec_query_args(Query::Input(InputQuery::DescribeCapability { name }))),
{
    lemma_query_names();
    reveal_strlit("name");
    let f = seq![("name"@, name.wire())];
    assert(names_distinct(f));
    lemma_distinct_fields(f);
    assert(f[0].0 == "name"@);
    <String as Wire>::lemma_wire_round_trip(name);
}

#[verifier::spinoff_prover]
#[verifier::rlimit(100)]
proof fn lemma_input_query_capabilities_round_trip(domain: Option<String>)
    requires
        spec_query_fits(Query::Input(InputQuery::Capabilities { domain })),
    ensures
        spec_query_from_call(spec_query_name(Query::Input(InputQuery::Capabilities { domain })), spec_query_args(Query::Input(InputQuery::Capabilities { domain }))) == Ok::<Seq<(Seq<char>, ValueV)>, CallErrorV>(spec_query_args(Query::Input(InputQuery::Capabilities { domain }))),
{
    lemma_query_names();
    reveal_strlit("domain");
    let f = seq![("domain"@, domain.wire())];
    assert(names_distinct(f));
    lemma_distinct_fields(f);
    assert(f[0].0 == "domain"@);
    <Option<String> as Wire>::lemma_wire_round_trip(domain);
}

proof fn lemma_input_query_round_trip(x: InputQuery)
    requires
        spec_query_fits(Query::Input(x)),
    ensures
        spec_query_from_call(spec_query_name(Query::Input(x)), spec_query_args(Query::Input(x))) == Ok::<Seq<(Seq<char>, ValueV)>, CallErrorV>(spec_query_args(Query::Input(x))),
{
    match x {
        InputQuery::Mode {} => lemma_input_query_mode_round_trip(),
        InputQuery::PendingKeys {} => lemma_input_query_pending_keys_round_trip(),
        InputQuery::Register { register } => lemma_input_query_register_round_trip(register),
        InputQuery::Keymap { prefix, mode } => lemma_input_query_keymap_round_trip(prefix, mode),
        InputQuery::DescribeKey { keys } => lemma_input_query_describe_key_round_trip(keys),
        InputQuery::DescribeCapability { name } => lemma_input_query_describe_capability_round_trip(name),
        InputQuery::Capabilities { domain } => lemma_input_query_capabilities_round_trip(domain),
    }
}

#[verifier::spinoff_prover]
#[verifier::rlimit(100)]
proof fn lemma_ui_query_panes_round_trip()
    requires
        spec_query_fits(Query::Ui(UiQuery::Panes {})),
    ensures
        spec_query_from_call(spec_query_name(Query::Ui(UiQuery::Panes {})), spec_query_args(Query::Ui(UiQuery::Panes {}))) == Ok::<Seq<(Seq<char>, ValueV)>, CallErrorV>(spec_query_args(Query::Ui(UiQuery::Panes {}))),
{
    lemma_query_names();
}

#[verifier::spinoff_prover]
#[verifier::rlimit(100)]
proof fn lemma_ui_query_floats_round_trip()
    requires
        spec_query_fits(Query::Ui(UiQuery::Floats {})),
    ensures
        spec_query_from_call(spec_query_name(Query::Ui(UiQuery::Floats {})), spec_query_args(Query::Ui(UiQuery::Floats {}))) == Ok::<Seq<(Seq<char>, ValueV)>, CallErrorV>(spec_query_args(Query::Ui(UiQuery::Floats {}))),
{
    lemma_query_names();
}

#[verifier::spinoff_prover]
#[verifier::rlimit(100)]
proof fn lemma_ui_query_picker_rows_round_trip(source: SourceId, query: Option<String>, limit: Option<u32>, offset: Option<u32>)
    requires
        spec_query_fits(Query::Ui(UiQuery::PickerRows { source, query, limit, offset })),
    ensures
        spec_query_from_call(spec_query_name(Query::Ui(UiQuery::PickerRows { source, query, limit, offset })), spec_query_args(Query::Ui(UiQuery::PickerRows { source, query, limit, offset }))) == Ok::<Seq<(Seq<char>, ValueV)>, CallErrorV>(spec_query_args(Query::Ui(UiQuery::PickerRows { source, query, limit, offset }))),
{
    lemma_query_names();
    reveal_strlit("limit");
    reveal_strlit("offset");
    reveal_strlit("query");
    reveal_strlit("source");
    let f = seq![("source"@, source.wire()), ("query"@, query.wire()), ("limit"@, limit.wire()), ("offset"@, offset.wire())];
    assert forall|i: int, j: int| 0 <= i < j < 4 implies f[i].0 != f[j].0 by {
        if i == 0 && j == 1 {
            assert("source"@[0] != "query"@[0]);
        } else if i == 0 && j == 2 {
            assert("source"@[0] != "limit"@[0]);
        } else if i == 0 && j == 3 {
            assert("source"@[0] != "offset"@[0]);
        } else if i == 1 && j == 2 {
            assert("query"@[0] != "limit"@[0]);
        } else if i == 1 && j == 3 {
            assert("query"@[0] != "offset"@[0]);
        } else if i == 2 && j == 3 {
            assert("limit"@[0] != "offset"@[0]);
        }
    }
    assert(names_distinct(f));
    lemma_distinct_fields(f);
    assert(f[0].0 == "source"@);
    <SourceId as Wire>::lemma_wire_round_trip(source);
    assert(f[1].0 == "query"@);
    <Option<String> as Wire>::lemma_wire_round_trip(query);
    assert(f[2].0 == "limit"@);
    <Option<u32> as Wire>::lemma_wire_round_trip(limit);
    assert(f[3].0 == "offset"@);
    <Option<u32> as Wire>::lemma_wire_round_trip(offset);
}

#[verifier::spinoff_prover]
#[verifier::rlimit(100)]
proof fn lemma_ui_query_theme_round_trip()
    requires
        spec_query_fits(Query::Ui(UiQuery::Theme {})),
    ensures
        spec_query_from_call(spec_query_name(Query::Ui(UiQuery::Theme {})), spec_query_args(Query::Ui(UiQuery::Theme {}))) == Ok::<Seq<(Seq<char>, ValueV)>, CallErrorV>(spec_query_args(Query::Ui(UiQuery::Theme {}))),
{
    lemma_query_names();
}

#[verifier::spinoff_prover]
#[verifier::rlimit(100)]
proof fn lemma_ui_query_options_round_trip()
    requires
        spec_query_fits(Query::Ui(UiQuery::Options {})),
    ensures
        spec_query_from_call(spec_query_name(Query::Ui(UiQuery::Options {})), spec_query_args(Query::Ui(UiQuery::Options {}))) == Ok::<Seq<(Seq<char>, ValueV)>, CallErrorV>(spec_query_args(Query::Ui(UiQuery::Options {}))),
{
    lemma_query_names();
}

#[verifier::spinoff_prover]
#[verifier::rlimit(100)]
proof fn lemma_ui_query_languages_round_trip(language: Option<LanguageId>)
    requires
        spec_query_fits(Query::Ui(UiQuery::Languages { language })),
    ensures
        spec_query_from_call(spec_query_name(Query::Ui(UiQuery::Languages { language })), spec_query_args(Query::Ui(UiQuery::Languages { language }))) == Ok::<Seq<(Seq<char>, ValueV)>, CallErrorV>(spec_query_args(Query::Ui(UiQuery::Languages { language }))),
{
    lemma_query_names();
    reveal_strlit("language");
    let f = seq![("language"@, language.wire())];
    assert(names_distinct(f));
    lemma_distinct_fields(f);
    assert(f[0].0 == "language"@);
    <Option<LanguageId> as Wire>::lemma_wire_round_trip(language);
}

#[verifier::spinoff_prover]
#[verifier::rlimit(100)]
proof fn lemma_ui_query_arch_round_trip()
    requires
        spec_query_fits(Query::Ui(UiQuery::Arch {})),
    ensures
        spec_query_from_call(spec_query_name(Query::Ui(UiQuery::Arch {})), spec_query_args(Query::Ui(UiQuery::Arch {}))) == Ok::<Seq<(Seq<char>, ValueV)>, CallErrorV>(spec_query_args(Query::Ui(UiQuery::Arch {}))),
{
    lemma_query_names();
}

proof fn lemma_ui_query_round_trip(x: UiQuery)
    requires
        spec_query_fits(Query::Ui(x)),
    ensures
        spec_query_from_call(spec_query_name(Query::Ui(x)), spec_query_args(Query::Ui(x))) == Ok::<Seq<(Seq<char>, ValueV)>, CallErrorV>(spec_query_args(Query::Ui(x))),
{
    match x {
        UiQuery::Panes {} => lemma_ui_query_panes_round_trip(),
        UiQuery::Floats {} => lemma_ui_query_floats_round_trip(),
        UiQuery::PickerRows { source, query, limit, offset } => lemma_ui_query_picker_rows_round_trip(source, query, limit, offset),
        UiQuery::Theme {} => lemma_ui_query_theme_round_trip(),
        UiQuery::Options {} => lemma_ui_query_options_round_trip(),
        UiQuery::Languages { language } => lemma_ui_query_languages_round_trip(language),
        UiQuery::Arch {} => lemma_ui_query_arch_round_trip(),
    }
}

#[verifier::spinoff_prover]
#[verifier::rlimit(100)]
proof fn lemma_review_query_review_blocks_round_trip()
    requires
        spec_query_fits(Query::Review(ReviewQuery::ReviewBlocks {})),
    ensures
        spec_query_from_call(spec_query_name(Query::Review(ReviewQuery::ReviewBlocks {})), spec_query_args(Query::Review(ReviewQuery::ReviewBlocks {}))) == Ok::<Seq<(Seq<char>, ValueV)>, CallErrorV>(spec_query_args(Query::Review(ReviewQuery::ReviewBlocks {}))),
{
    lemma_query_names();
}

#[verifier::spinoff_prover]
#[verifier::rlimit(100)]
proof fn lemma_review_query_review_block_round_trip(block: BlockId)
    requires
        spec_query_fits(Query::Review(ReviewQuery::ReviewBlock { block })),
    ensures
        spec_query_from_call(spec_query_name(Query::Review(ReviewQuery::ReviewBlock { block })), spec_query_args(Query::Review(ReviewQuery::ReviewBlock { block }))) == Ok::<Seq<(Seq<char>, ValueV)>, CallErrorV>(spec_query_args(Query::Review(ReviewQuery::ReviewBlock { block }))),
{
    lemma_query_names();
    reveal_strlit("block");
    let f = seq![("block"@, block.wire())];
    assert(names_distinct(f));
    lemma_distinct_fields(f);
    assert(f[0].0 == "block"@);
    <BlockId as Wire>::lemma_wire_round_trip(block);
}

#[verifier::spinoff_prover]
#[verifier::rlimit(100)]
proof fn lemma_review_query_hunks_round_trip(block: BlockId)
    requires
        spec_query_fits(Query::Review(ReviewQuery::Hunks { block })),
    ensures
        spec_query_from_call(spec_query_name(Query::Review(ReviewQuery::Hunks { block })), spec_query_args(Query::Review(ReviewQuery::Hunks { block }))) == Ok::<Seq<(Seq<char>, ValueV)>, CallErrorV>(spec_query_args(Query::Review(ReviewQuery::Hunks { block }))),
{
    lemma_query_names();
    reveal_strlit("block");
    let f = seq![("block"@, block.wire())];
    assert(names_distinct(f));
    lemma_distinct_fields(f);
    assert(f[0].0 == "block"@);
    <BlockId as Wire>::lemma_wire_round_trip(block);
}

#[verifier::spinoff_prover]
#[verifier::rlimit(100)]
proof fn lemma_review_query_threads_round_trip(within: Option<Target>)
    requires
        spec_query_fits(Query::Review(ReviewQuery::Threads { within })),
    ensures
        spec_query_from_call(spec_query_name(Query::Review(ReviewQuery::Threads { within })), spec_query_args(Query::Review(ReviewQuery::Threads { within }))) == Ok::<Seq<(Seq<char>, ValueV)>, CallErrorV>(spec_query_args(Query::Review(ReviewQuery::Threads { within }))),
{
    lemma_query_names();
    reveal_strlit("within");
    let f = seq![("within"@, within.wire())];
    assert(names_distinct(f));
    lemma_distinct_fields(f);
    assert(f[0].0 == "within"@);
    <Option<Target> as Wire>::lemma_wire_round_trip(within);
}

#[verifier::spinoff_prover]
#[verifier::rlimit(100)]
proof fn lemma_review_query_thread_round_trip(thread: ThreadId)
    requires
        spec_query_fits(Query::Review(ReviewQuery::Thread { thread })),
    ensures
        spec_query_from_call(spec_query_name(Query::Review(ReviewQuery::Thread { thread })), spec_query_args(Query::Review(ReviewQuery::Thread { thread }))) == Ok::<Seq<(Seq<char>, ValueV)>, CallErrorV>(spec_query_args(Query::Review(ReviewQuery::Thread { thread }))),
{
    lemma_query_names();
    reveal_strlit("thread");
    let f = seq![("thread"@, thread.wire())];
    assert(names_distinct(f));
    lemma_distinct_fields(f);
    assert(f[0].0 == "thread"@);
    <ThreadId as Wire>::lemma_wire_round_trip(thread);
}

#[verifier::spinoff_prover]
#[verifier::rlimit(100)]
proof fn lemma_review_query_inbox_round_trip(limit: Option<u32>, offset: Option<u32>)
    requires
        spec_query_fits(Query::Review(ReviewQuery::Inbox { limit, offset })),
    ensures
        spec_query_from_call(spec_query_name(Query::Review(ReviewQuery::Inbox { limit, offset })), spec_query_args(Query::Review(ReviewQuery::Inbox { limit, offset }))) == Ok::<Seq<(Seq<char>, ValueV)>, CallErrorV>(spec_query_args(Query::Review(ReviewQuery::Inbox { limit, offset }))),
{
    lemma_query_names();
    reveal_strlit("limit");
    reveal_strlit("offset");
    let f = seq![("limit"@, limit.wire()), ("offset"@, offset.wire())];
    assert forall|i: int, j: int| 0 <= i < j < 2 implies f[i].0 != f[j].0 by {
        if i == 0 && j == 1 {
            assert("limit"@[0] != "offset"@[0]);
        }
    }
    assert(names_distinct(f));
    lemma_distinct_fields(f);
    assert(f[0].0 == "limit"@);
    <Option<u32> as Wire>::lemma_wire_round_trip(limit);
    assert(f[1].0 == "offset"@);
    <Option<u32> as Wire>::lemma_wire_round_trip(offset);
}

#[verifier::spinoff_prover]
#[verifier::rlimit(100)]
proof fn lemma_review_query_diagnostics_round_trip(path: Option<String>)
    requires
        spec_query_fits(Query::Review(ReviewQuery::Diagnostics { path })),
    ensures
        spec_query_from_call(spec_query_name(Query::Review(ReviewQuery::Diagnostics { path })), spec_query_args(Query::Review(ReviewQuery::Diagnostics { path }))) == Ok::<Seq<(Seq<char>, ValueV)>, CallErrorV>(spec_query_args(Query::Review(ReviewQuery::Diagnostics { path }))),
{
    lemma_query_names();
    reveal_strlit("path");
    let f = seq![("path"@, path.wire())];
    assert(names_distinct(f));
    lemma_distinct_fields(f);
    assert(f[0].0 == "path"@);
    <Option<String> as Wire>::lemma_wire_round_trip(path);
}

proof fn lemma_review_query_round_trip(x: ReviewQuery)
    requires
        spec_query_fits(Query::Review(x)),
    ensures
        spec_query_from_call(spec_query_name(Query::Review(x)), spec_query_args(Query::Review(x))) == Ok::<Seq<(Seq<char>, ValueV)>, CallErrorV>(spec_query_args(Query::Review(x))),
{
    match x {
        ReviewQuery::ReviewBlocks {} => lemma_review_query_review_blocks_round_trip(),
        ReviewQuery::ReviewBlock { block } => lemma_review_query_review_block_round_trip(block),
        ReviewQuery::Hunks { block } => lemma_review_query_hunks_round_trip(block),
        ReviewQuery::Threads { within } => lemma_review_query_threads_round_trip(within),
        ReviewQuery::Thread { thread } => lemma_review_query_thread_round_trip(thread),
        ReviewQuery::Inbox { limit, offset } => lemma_review_query_inbox_round_trip(limit, offset),
        ReviewQuery::Diagnostics { path } => lemma_review_query_diagnostics_round_trip(path),
    }
}

#[verifier::spinoff_prover]
#[verifier::rlimit(100)]
proof fn lemma_session_query_session_round_trip()
    requires
        spec_query_fits(Query::Session(SessionQuery::Session {})),
    ensures
        spec_query_from_call(spec_query_name(Query::Session(SessionQuery::Session {})), spec_query_args(Query::Session(SessionQuery::Session {}))) == Ok::<Seq<(Seq<char>, ValueV)>, CallErrorV>(spec_query_args(Query::Session(SessionQuery::Session {}))),
{
    lemma_query_names();
}

#[verifier::spinoff_prover]
#[verifier::rlimit(100)]
proof fn lemma_session_query_turns_round_trip(limit: Option<u32>, offset: Option<u32>)
    requires
        spec_query_fits(Query::Session(SessionQuery::Turns { limit, offset })),
    ensures
        spec_query_from_call(spec_query_name(Query::Session(SessionQuery::Turns { limit, offset })), spec_query_args(Query::Session(SessionQuery::Turns { limit, offset }))) == Ok::<Seq<(Seq<char>, ValueV)>, CallErrorV>(spec_query_args(Query::Session(SessionQuery::Turns { limit, offset }))),
{
    lemma_query_names();
    reveal_strlit("limit");
    reveal_strlit("offset");
    let f = seq![("limit"@, limit.wire()), ("offset"@, offset.wire())];
    assert forall|i: int, j: int| 0 <= i < j < 2 implies f[i].0 != f[j].0 by {
        if i == 0 && j == 1 {
            assert("limit"@[0] != "offset"@[0]);
        }
    }
    assert(names_distinct(f));
    lemma_distinct_fields(f);
    assert(f[0].0 == "limit"@);
    <Option<u32> as Wire>::lemma_wire_round_trip(limit);
    assert(f[1].0 == "offset"@);
    <Option<u32> as Wire>::lemma_wire_round_trip(offset);
}

#[verifier::spinoff_prover]
#[verifier::rlimit(100)]
proof fn lemma_session_query_turn_round_trip(turn: TurnId)
    requires
        spec_query_fits(Query::Session(SessionQuery::Turn { turn })),
    ensures
        spec_query_from_call(spec_query_name(Query::Session(SessionQuery::Turn { turn })), spec_query_args(Query::Session(SessionQuery::Turn { turn }))) == Ok::<Seq<(Seq<char>, ValueV)>, CallErrorV>(spec_query_args(Query::Session(SessionQuery::Turn { turn }))),
{
    lemma_query_names();
    reveal_strlit("turn");
    let f = seq![("turn"@, turn.wire())];
    assert(names_distinct(f));
    lemma_distinct_fields(f);
    assert(f[0].0 == "turn"@);
    <TurnId as Wire>::lemma_wire_round_trip(turn);
}

#[verifier::spinoff_prover]
#[verifier::rlimit(100)]
proof fn lemma_session_query_pending_asks_round_trip()
    requires
        spec_query_fits(Query::Session(SessionQuery::PendingAsks {})),
    ensures
        spec_query_from_call(spec_query_name(Query::Session(SessionQuery::PendingAsks {})), spec_query_args(Query::Session(SessionQuery::PendingAsks {}))) == Ok::<Seq<(Seq<char>, ValueV)>, CallErrorV>(spec_query_args(Query::Session(SessionQuery::PendingAsks {}))),
{
    lemma_query_names();
}

#[verifier::spinoff_prover]
#[verifier::rlimit(100)]
proof fn lemma_session_query_ask_round_trip(ask: AskId)
    requires
        spec_query_fits(Query::Session(SessionQuery::Ask { ask })),
    ensures
        spec_query_from_call(spec_query_name(Query::Session(SessionQuery::Ask { ask })), spec_query_args(Query::Session(SessionQuery::Ask { ask }))) == Ok::<Seq<(Seq<char>, ValueV)>, CallErrorV>(spec_query_args(Query::Session(SessionQuery::Ask { ask }))),
{
    lemma_query_names();
    reveal_strlit("ask");
    let f = seq![("ask"@, ask.wire())];
    assert(names_distinct(f));
    lemma_distinct_fields(f);
    assert(f[0].0 == "ask"@);
    <AskId as Wire>::lemma_wire_round_trip(ask);
}

#[verifier::spinoff_prover]
#[verifier::rlimit(100)]
proof fn lemma_session_query_watches_round_trip(within: Option<Target>)
    requires
        spec_query_fits(Query::Session(SessionQuery::Watches { within })),
    ensures
        spec_query_from_call(spec_query_name(Query::Session(SessionQuery::Watches { within })), spec_query_args(Query::Session(SessionQuery::Watches { within }))) == Ok::<Seq<(Seq<char>, ValueV)>, CallErrorV>(spec_query_args(Query::Session(SessionQuery::Watches { within }))),
{
    lemma_query_names();
    reveal_strlit("within");
    let f = seq![("within"@, within.wire())];
    assert(names_distinct(f));
    lemma_distinct_fields(f);
    assert(f[0].0 == "within"@);
    <Option<Target> as Wire>::lemma_wire_round_trip(within);
}

#[verifier::spinoff_prover]
#[verifier::rlimit(100)]
proof fn lemma_session_query_watch_values_round_trip(watch: WatchId)
    requires
        spec_query_fits(Query::Session(SessionQuery::WatchValues { watch })),
    ensures
        spec_query_from_call(spec_query_name(Query::Session(SessionQuery::WatchValues { watch })), spec_query_args(Query::Session(SessionQuery::WatchValues { watch }))) == Ok::<Seq<(Seq<char>, ValueV)>, CallErrorV>(spec_query_args(Query::Session(SessionQuery::WatchValues { watch }))),
{
    lemma_query_names();
    reveal_strlit("watch");
    let f = seq![("watch"@, watch.wire())];
    assert(names_distinct(f));
    lemma_distinct_fields(f);
    assert(f[0].0 == "watch"@);
    <WatchId as Wire>::lemma_wire_round_trip(watch);
}

proof fn lemma_session_query_round_trip(x: SessionQuery)
    requires
        spec_query_fits(Query::Session(x)),
    ensures
        spec_query_from_call(spec_query_name(Query::Session(x)), spec_query_args(Query::Session(x))) == Ok::<Seq<(Seq<char>, ValueV)>, CallErrorV>(spec_query_args(Query::Session(x))),
{
    match x {
        SessionQuery::Session {} => lemma_session_query_session_round_trip(),
        SessionQuery::Turns { limit, offset } => lemma_session_query_turns_round_trip(limit, offset),
        SessionQuery::Turn { turn } => lemma_session_query_turn_round_trip(turn),
        SessionQuery::PendingAsks {} => lemma_session_query_pending_asks_round_trip(),
        SessionQuery::Ask { ask } => lemma_session_query_ask_round_trip(ask),
        SessionQuery::Watches { within } => lemma_session_query_watches_round_trip(within),
        SessionQuery::WatchValues { watch } => lemma_session_query_watch_values_round_trip(watch),
    }
}

#[verifier::spinoff_prover]
#[verifier::rlimit(100)]
proof fn lemma_vcs_query_vcs_status_round_trip()
    requires
        spec_query_fits(Query::Vcs(VcsQuery::VcsStatus {})),
    ensures
        spec_query_from_call(spec_query_name(Query::Vcs(VcsQuery::VcsStatus {})), spec_query_args(Query::Vcs(VcsQuery::VcsStatus {}))) == Ok::<Seq<(Seq<char>, ValueV)>, CallErrorV>(spec_query_args(Query::Vcs(VcsQuery::VcsStatus {}))),
{
    lemma_query_names();
}

#[verifier::spinoff_prover]
#[verifier::rlimit(100)]
proof fn lemma_vcs_query_timeline_round_trip(limit: Option<u32>, offset: Option<u32>)
    requires
        spec_query_fits(Query::Vcs(VcsQuery::Timeline { limit, offset })),
    ensures
        spec_query_from_call(spec_query_name(Query::Vcs(VcsQuery::Timeline { limit, offset })), spec_query_args(Query::Vcs(VcsQuery::Timeline { limit, offset }))) == Ok::<Seq<(Seq<char>, ValueV)>, CallErrorV>(spec_query_args(Query::Vcs(VcsQuery::Timeline { limit, offset }))),
{
    lemma_query_names();
    reveal_strlit("limit");
    reveal_strlit("offset");
    let f = seq![("limit"@, limit.wire()), ("offset"@, offset.wire())];
    assert forall|i: int, j: int| 0 <= i < j < 2 implies f[i].0 != f[j].0 by {
        if i == 0 && j == 1 {
            assert("limit"@[0] != "offset"@[0]);
        }
    }
    assert(names_distinct(f));
    lemma_distinct_fields(f);
    assert(f[0].0 == "limit"@);
    <Option<u32> as Wire>::lemma_wire_round_trip(limit);
    assert(f[1].0 == "offset"@);
    <Option<u32> as Wire>::lemma_wire_round_trip(offset);
}

proof fn lemma_vcs_query_round_trip(x: VcsQuery)
    requires
        spec_query_fits(Query::Vcs(x)),
    ensures
        spec_query_from_call(spec_query_name(Query::Vcs(x)), spec_query_args(Query::Vcs(x))) == Ok::<Seq<(Seq<char>, ValueV)>, CallErrorV>(spec_query_args(Query::Vcs(x))),
{
    match x {
        VcsQuery::VcsStatus {} => lemma_vcs_query_vcs_status_round_trip(),
        VcsQuery::Timeline { limit, offset } => lemma_vcs_query_timeline_round_trip(limit, offset),
    }
}

/// A call round-trips: decoding what [`Query::to_call`] encodes gives
/// the same capability with the same arguments, whenever every id it holds
/// fits the wire.
pub proof fn lemma_query_call_round_trip(x: Query)
    requires
        spec_query_fits(x),
    ensures
        spec_query_from_call(spec_query_name(x), spec_query_args(x)) == Ok::<Seq<(Seq<char>, ValueV)>, CallErrorV>(spec_query_args(x)),
{
    match x {
        Query::Region(y) => lemma_region_query_round_trip(y),
        Query::Buffer(y) => lemma_buffer_query_round_trip(y),
        Query::Input(y) => lemma_input_query_round_trip(y),
        Query::Ui(y) => lemma_ui_query_round_trip(y),
        Query::Review(y) => lemma_review_query_round_trip(y),
        Query::Session(y) => lemma_session_query_round_trip(y),
        Query::Vcs(y) => lemma_vcs_query_round_trip(y),
    }
}

} // verus!
