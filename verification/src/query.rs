//! The read side: every question a door can ask the editor, and the
//! [`Revision`] that says whether an answer is still fresh.

use vstd::prelude::*;

use crate::registry::cli::{lemma_shape_fields_index, shape, shape_fields, FieldV, ShapeV};
use crate::request::{actor_shape, edit_mode_shape, pane_ref_shape, position_shape, region_filter_shape, target_shape};

use crate::registry::{param, McpPolicy, Param, ParamType, Phase, Since};
use crate::request::{Actor, AnchorId, AskId, BlockId, BufferId, EditMode, KeySeq, LanguageId, PaneRef, Position, RegionFilter, RegionId, RegisterName, SourceId, Target, ThreadId, TurnId, WatchId};
use crate::value::{Value, WireError};

verus! {

/// A monotonic counter the store bumps whenever something observable
/// changes. Equal revisions mean nothing changed.
#[derive(Debug, Clone, Copy, Default, PartialEq, Eq, PartialOrd, Ord, Hash)]
pub struct Revision(u64);

impl View for Revision {
    type V = nat;

    closed spec fn view(&self) -> nat {
        self.0 as nat
    }
}

impl Revision {
    /// The revision before anything has happened.
    pub fn initial() -> (r: Revision)
        ensures
            r@ == 0,
    {
        Revision(0)
    }

    /// The next revision.
    pub fn next(self) -> (r: Revision)
        requires
            self@ < u64::MAX,
        ensures
            r@ == self@ + 1,
    {
        Revision(self.0 + 1)
    }

    /// The counter's value.
    pub fn get(self) -> (r: u64)
        ensures
            r == self@,
    {
        self.0
    }
}

/// A query's answer, stamped with the revision it was computed at.
#[derive(Debug, Clone, PartialEq, Eq)]
pub struct Answer {
    /// The answer.
    pub value: Value,
    /// When.
    pub revision: Revision,
}

/// Anything that can answer a query.
pub trait Answers {
    /// The answer, or why there is none.
    fn answer(&self, query: &Query) -> Result<Answer, QueryError>;
}

/// One Query's row in the registry.
#[derive(Debug, Clone, PartialEq, Eq)]
pub struct QuerySpec {
    /// The globally unique door name.
    pub name: &'static str,
    /// Its domain.
    pub domain: &'static str,
    /// One line.
    pub doc: &'static str,
    /// Phase and task.
    pub since: Since,
    /// Its arguments.
    pub params: Vec<Param>,
    /// The shape of its answer.
    pub returns: ParamType,
}

#[derive(Debug, Clone, PartialEq, Eq)]
pub enum RegionQuery {
    /// every region in scope, seen and unseen
    Regions {
        /// narrow by author, state or scope
        filter: Option<RegionFilter>,
    },
    /// the unseen regions of a file — 6b's first line
    UnseenRegions {
        /// which file; absent means everywhere
        path: Option<String>,
    },
    /// one region
    Region {
        /// which region
        region: RegionId,
    },
    /// how many regions are unseen in scope — the statusline's ●n
    UnseenCount {
        /// scope; absent means the workspace
        within: Option<Target>,
    },
    /// how many regions are seen in scope
    SeenCount {
        /// scope; absent means the workspace
        within: Option<Target>,
    },
    /// the next region by an author, from a position — 6b binds ]r to this
    NextRegionBy {
        /// whose region
        author: Actor,
        /// start here; absent means the cursor
        from: Option<Position>,
    },
    /// the regions of a review block, named by its title as 6b draws it
    BlockRegions {
        /// the block's title
        block: String,
    },
    /// a file's anchors and what tier each resolved at
    Anchors {
        /// which file
        path: String,
    },
    /// one anchor
    Anchor {
        /// which anchor
        anchor: AnchorId,
    },
}

#[derive(Debug, Clone, PartialEq, Eq)]
pub enum BufferQuery {
    /// every open buffer
    Buffers {},
    /// one buffer: path, language, dirty state, disk state
    Buffer {
        /// which buffer; absent means the focused one
        buffer: Option<BufferId>,
    },
    /// the text of a target
    BufferText {
        /// what to read
        target: Target,
    },
    /// the lines of a target
    BufferLines {
        /// what to read
        target: Target,
    },
    /// where the cursor is — the statusline's 12:1
    Cursor {
        /// which pane
        pane: PaneRef,
    },
    /// the live selection, if there is one
    Selection {
        /// which pane
        pane: PaneRef,
    },
    /// what is on screen: first row, height, and whether soft wrap is on
    Viewport {
        /// which pane
        pane: PaneRef,
    },
    /// every buffer with unsaved changes
    DirtyBuffers {},
    /// whether a file changed underneath us, and when — what ✱ renders
    DiskState {
        /// which file
        path: String,
    },
}

#[derive(Debug, Clone, PartialEq, Eq)]
pub enum InputQuery {
    /// the current edit mode — not the statusline chip, which is a surface label
    Mode {},
    /// the keys typed so far in an unfinished sequence — 3c's SPC pending
    PendingKeys {},
    /// what a register holds — @ reads one back, and an unset one is empty
    Register {
        /// which register
        register: RegisterName,
    },
    /// the live keymap under a prefix; redefining a binding changes this at once
    Keymap {
        /// the prefix; absent means the root
        prefix: Option<KeySeq>,
        /// which mode; absent means the current one
        mode: Option<EditMode>,
    },
    /// what a key does, and where that is defined
    DescribeKey {
        /// the key sequence
        keys: KeySeq,
    },
    /// one capability's row: doc, arguments, phase, and its name at each door
    DescribeCapability {
        /// the door name
        name: String,
    },
    /// the whole registry, as data — what the door-parity test and :help both read
    Capabilities {
        /// one domain; absent means all of them
        domain: Option<String>,
    },
}

#[derive(Debug, Clone, PartialEq, Eq)]
pub enum UiQuery {
    /// the pane tree, with which one has focus
    Panes {},
    /// the open floats; at most one has focus (Design Language §9)
    Floats {},
    /// a source's rows under a filter, ranked
    PickerRows {
        /// which source
        source: SourceId,
        /// the filter
        query: Option<String>,
        /// how many rows; capped regardless
        limit: Option<u32>,
        /// skip this many
        offset: Option<u32>,
    },
    /// the active theme: slug, ground, and the actor hues
    Theme {},
    /// every declared option and its value
    Options {},
    /// the declared languages, and which tier each is
    Languages {
        /// one language; absent means all
        language: Option<LanguageId>,
    },
    /// the workspace's shape, for :arch — a store query with no Rust primitive (Q11)
    Arch {},
}

#[derive(Debug, Clone, PartialEq, Eq)]
pub enum ReviewQuery {
    /// every declared review block
    ReviewBlocks {},
    /// one block: its files, groups and annotations
    ReviewBlock {
        /// which block
        block: BlockId,
    },
    /// a block's hunks, with each one's seen state
    Hunks {
        /// which block
        block: BlockId,
    },
    /// the threads anchored inside a target
    Threads {
        /// scope; absent means the workspace
        within: Option<Target>,
    },
    /// one thread and its replies
    Thread {
        /// which thread
        thread: ThreadId,
    },
    /// the inbox; unread derives from seen-state rather than duplicating it
    Inbox {
        /// how many items
        limit: Option<u32>,
        /// skip this many
        offset: Option<u32>,
    },
    /// the diagnostics for a file, or all of them
    Diagnostics {
        /// which file; absent means all
        path: Option<String>,
    },
}

#[derive(Debug, Clone, PartialEq, Eq)]
pub enum SessionQuery {
    /// the session's state — what the statusline's ✻ and elapsed timer render
    Session {},
    /// the transcript, newest last
    Turns {
        /// how many turns
        limit: Option<u32>,
        /// skip this many
        offset: Option<u32>,
    },
    /// one turn: its prose, its tool calls, and how it ended
    Turn {
        /// which turn
        turn: TurnId,
    },
    /// the ask queue — one truth for ]!, the inbox and the statusline ! (Q9)
    PendingAsks {},
    /// one queued ask and its options
    Ask {
        /// which ask
        ask: AskId,
    },
    /// the placed watches
    Watches {
        /// scope; absent means the workspace
        within: Option<Target>,
    },
    /// a watch's values, with where they came from
    WatchValues {
        /// which watch
        watch: WatchId,
    },
}

#[derive(Debug, Clone, PartialEq, Eq)]
pub enum VcsQuery {
    /// the backend, the current change, and whether the tree is clean
    VcsStatus {},
    /// the timeline, newest first; agent turns are changes (3b)
    Timeline {
        /// how many entries
        limit: Option<u32>,
        /// skip this many
        offset: Option<u32>,
    },
}

/// Every read, nested by domain.
#[derive(Debug, Clone, PartialEq, Eq)]
pub enum Query {
    Region(RegionQuery),
    Buffer(BufferQuery),
    Input(InputQuery),
    Ui(UiQuery),
    Review(ReviewQuery),
    Session(SessionQuery),
    Vcs(VcsQuery),
}

/// How many capabilities are Queries.
pub open spec fn spec_query_count() -> nat {
    48
}

/// The door name in query row `i`.
pub open spec fn spec_query_row_name(i: nat) -> Seq<char> {
    if i == 0 {
        "regions"@
    } else if i == 1 {
        "unseen-regions"@
    } else if i == 2 {
        "region"@
    } else if i == 3 {
        "unseen-count"@
    } else if i == 4 {
        "seen-count"@
    } else if i == 5 {
        "next-region-by"@
    } else if i == 6 {
        "block-regions"@
    } else if i == 7 {
        "anchors"@
    } else if i == 8 {
        "anchor"@
    } else if i == 9 {
        "buffers"@
    } else if i == 10 {
        "buffer"@
    } else if i == 11 {
        "buffer-text"@
    } else if i == 12 {
        "buffer-lines"@
    } else if i == 13 {
        "cursor"@
    } else if i == 14 {
        "selection"@
    } else if i == 15 {
        "viewport"@
    } else if i == 16 {
        "dirty-buffers"@
    } else if i == 17 {
        "disk-state"@
    } else if i == 18 {
        "mode"@
    } else if i == 19 {
        "pending-keys"@
    } else if i == 20 {
        "register"@
    } else if i == 21 {
        "keymap"@
    } else if i == 22 {
        "describe-key"@
    } else if i == 23 {
        "describe-capability"@
    } else if i == 24 {
        "capabilities"@
    } else if i == 25 {
        "panes"@
    } else if i == 26 {
        "floats"@
    } else if i == 27 {
        "picker-rows"@
    } else if i == 28 {
        "theme"@
    } else if i == 29 {
        "options"@
    } else if i == 30 {
        "languages"@
    } else if i == 31 {
        "arch"@
    } else if i == 32 {
        "review-blocks"@
    } else if i == 33 {
        "review-block"@
    } else if i == 34 {
        "hunks"@
    } else if i == 35 {
        "threads"@
    } else if i == 36 {
        "thread"@
    } else if i == 37 {
        "inbox"@
    } else if i == 38 {
        "diagnostics"@
    } else if i == 39 {
        "session"@
    } else if i == 40 {
        "turns"@
    } else if i == 41 {
        "turn"@
    } else if i == 42 {
        "pending-asks"@
    } else if i == 43 {
        "ask"@
    } else if i == 44 {
        "watches"@
    } else if i == 45 {
        "watch-values"@
    } else if i == 46 {
        "vcs-status"@
    } else {
        "timeline"@
    }
}

/// The domain in query row `i`.
pub open spec fn spec_query_row_domain(i: nat) -> Seq<char> {
    if i == 0 {
        "region"@
    } else if i == 1 {
        "region"@
    } else if i == 2 {
        "region"@
    } else if i == 3 {
        "region"@
    } else if i == 4 {
        "region"@
    } else if i == 5 {
        "region"@
    } else if i == 6 {
        "region"@
    } else if i == 7 {
        "region"@
    } else if i == 8 {
        "region"@
    } else if i == 9 {
        "buffer"@
    } else if i == 10 {
        "buffer"@
    } else if i == 11 {
        "buffer"@
    } else if i == 12 {
        "buffer"@
    } else if i == 13 {
        "buffer"@
    } else if i == 14 {
        "buffer"@
    } else if i == 15 {
        "buffer"@
    } else if i == 16 {
        "buffer"@
    } else if i == 17 {
        "buffer"@
    } else if i == 18 {
        "input"@
    } else if i == 19 {
        "input"@
    } else if i == 20 {
        "input"@
    } else if i == 21 {
        "input"@
    } else if i == 22 {
        "input"@
    } else if i == 23 {
        "input"@
    } else if i == 24 {
        "input"@
    } else if i == 25 {
        "ui"@
    } else if i == 26 {
        "ui"@
    } else if i == 27 {
        "ui"@
    } else if i == 28 {
        "ui"@
    } else if i == 29 {
        "ui"@
    } else if i == 30 {
        "ui"@
    } else if i == 31 {
        "ui"@
    } else if i == 32 {
        "review"@
    } else if i == 33 {
        "review"@
    } else if i == 34 {
        "review"@
    } else if i == 35 {
        "review"@
    } else if i == 36 {
        "review"@
    } else if i == 37 {
        "review"@
    } else if i == 38 {
        "review"@
    } else if i == 39 {
        "session"@
    } else if i == 40 {
        "session"@
    } else if i == 41 {
        "session"@
    } else if i == 42 {
        "session"@
    } else if i == 43 {
        "session"@
    } else if i == 44 {
        "session"@
    } else if i == 45 {
        "session"@
    } else if i == 46 {
        "vcs"@
    } else {
        "vcs"@
    }
}

/// The phase in query row `i`.
pub open spec fn spec_query_row_phase(i: nat) -> Phase {
    if i == 0 {
        Phase::S5
    } else if i == 1 {
        Phase::S5
    } else if i == 2 {
        Phase::S5
    } else if i == 3 {
        Phase::S5
    } else if i == 4 {
        Phase::S5
    } else if i == 5 {
        Phase::S5
    } else if i == 6 {
        Phase::S5
    } else if i == 7 {
        Phase::S5
    } else if i == 8 {
        Phase::S5
    } else if i == 9 {
        Phase::S3
    } else if i == 10 {
        Phase::S3
    } else if i == 11 {
        Phase::S3
    } else if i == 12 {
        Phase::S3
    } else if i == 13 {
        Phase::S3
    } else if i == 14 {
        Phase::S3
    } else if i == 15 {
        Phase::S3
    } else if i == 16 {
        Phase::S3
    } else if i == 17 {
        Phase::S7
    } else if i == 18 {
        Phase::S3
    } else if i == 19 {
        Phase::S3
    } else if i == 20 {
        Phase::S3
    } else if i == 21 {
        Phase::S3
    } else if i == 22 {
        Phase::S3
    } else if i == 23 {
        Phase::S2
    } else if i == 24 {
        Phase::S2
    } else if i == 25 {
        Phase::S6
    } else if i == 26 {
        Phase::S2
    } else if i == 27 {
        Phase::S5
    } else if i == 28 {
        Phase::S1
    } else if i == 29 {
        Phase::S2
    } else if i == 30 {
        Phase::S4
    } else if i == 31 {
        Phase::S5
    } else if i == 32 {
        Phase::S6
    } else if i == 33 {
        Phase::S7
    } else if i == 34 {
        Phase::S7
    } else if i == 35 {
        Phase::S7
    } else if i == 36 {
        Phase::S7
    } else if i == 37 {
        Phase::S7
    } else if i == 38 {
        Phase::S4
    } else if i == 39 {
        Phase::S6
    } else if i == 40 {
        Phase::S6
    } else if i == 41 {
        Phase::S6
    } else if i == 42 {
        Phase::S6
    } else if i == 43 {
        Phase::S6
    } else if i == 44 {
        Phase::S8
    } else if i == 45 {
        Phase::S8
    } else if i == 46 {
        Phase::S7
    } else {
        Phase::S7
    }
}

/// The task in query row `i`.
pub open spec fn spec_query_row_task(i: nat) -> Seq<char> {
    if i == 0 {
        "T041"@
    } else if i == 1 {
        "T041"@
    } else if i == 2 {
        "T041"@
    } else if i == 3 {
        "T041"@
    } else if i == 4 {
        "T041"@
    } else if i == 5 {
        "T049"@
    } else if i == 6 {
        "T041"@
    } else if i == 7 {
        "T042"@
    } else if i == 8 {
        "T042"@
    } else if i == 9 {
        "T033"@
    } else if i == 10 {
        "T033"@
    } else if i == 11 {
        "T026"@
    } else if i == 12 {
        "T026"@
    } else if i == 13 {
        "T026"@
    } else if i == 14 {
        "T026"@
    } else if i == 15 {
        "T026"@
    } else if i == 16 {
        "T033"@
    } else if i == 17 {
        "T069"@
    } else if i == 18 {
        "T026"@
    } else if i == 19 {
        "T026"@
    } else if i == 20 {
        "T099"@
    } else if i == 21 {
        "T033"@
    } else if i == 22 {
        "T086"@
    } else if i == 23 {
        "T024"@
    } else if i == 24 {
        "T024"@
    } else if i == 25 {
        "T088"@
    } else if i == 26 {
        "T021"@
    } else if i == 27 {
        "T045"@
    } else if i == 28 {
        "T010"@
    } else if i == 29 {
        "T021"@
    } else if i == 30 {
        "T037"@
    } else if i == 31 {
        "T048"@
    } else if i == 32 {
        "T053"@
    } else if i == 33 {
        "T066"@
    } else if i == 34 {
        "T063"@
    } else if i == 35 {
        "T068"@
    } else if i == 36 {
        "T068"@
    } else if i == 37 {
        "T067"@
    } else if i == 38 {
        "T040"@
    } else if i == 39 {
        "T051"@
    } else if i == 40 {
        "T054"@
    } else if i == 41 {
        "T054"@
    } else if i == 42 {
        "T060"@
    } else if i == 43 {
        "T060"@
    } else if i == 44 {
        "T074"@
    } else if i == 45 {
        "T075"@
    } else if i == 46 {
        "T071"@
    } else {
        "T073"@
    }
}

/// The row a Query is declared in.
pub open spec fn spec_query_index(q: Query) -> nat {
    match q {
        Query::Region(RegionQuery::Regions { .. }) => 0,
        Query::Region(RegionQuery::UnseenRegions { .. }) => 1,
        Query::Region(RegionQuery::Region { .. }) => 2,
        Query::Region(RegionQuery::UnseenCount { .. }) => 3,
        Query::Region(RegionQuery::SeenCount { .. }) => 4,
        Query::Region(RegionQuery::NextRegionBy { .. }) => 5,
        Query::Region(RegionQuery::BlockRegions { .. }) => 6,
        Query::Region(RegionQuery::Anchors { .. }) => 7,
        Query::Region(RegionQuery::Anchor { .. }) => 8,
        Query::Buffer(BufferQuery::Buffers { .. }) => 9,
        Query::Buffer(BufferQuery::Buffer { .. }) => 10,
        Query::Buffer(BufferQuery::BufferText { .. }) => 11,
        Query::Buffer(BufferQuery::BufferLines { .. }) => 12,
        Query::Buffer(BufferQuery::Cursor { .. }) => 13,
        Query::Buffer(BufferQuery::Selection { .. }) => 14,
        Query::Buffer(BufferQuery::Viewport { .. }) => 15,
        Query::Buffer(BufferQuery::DirtyBuffers { .. }) => 16,
        Query::Buffer(BufferQuery::DiskState { .. }) => 17,
        Query::Input(InputQuery::Mode { .. }) => 18,
        Query::Input(InputQuery::PendingKeys { .. }) => 19,
        Query::Input(InputQuery::Register { .. }) => 20,
        Query::Input(InputQuery::Keymap { .. }) => 21,
        Query::Input(InputQuery::DescribeKey { .. }) => 22,
        Query::Input(InputQuery::DescribeCapability { .. }) => 23,
        Query::Input(InputQuery::Capabilities { .. }) => 24,
        Query::Ui(UiQuery::Panes { .. }) => 25,
        Query::Ui(UiQuery::Floats { .. }) => 26,
        Query::Ui(UiQuery::PickerRows { .. }) => 27,
        Query::Ui(UiQuery::Theme { .. }) => 28,
        Query::Ui(UiQuery::Options { .. }) => 29,
        Query::Ui(UiQuery::Languages { .. }) => 30,
        Query::Ui(UiQuery::Arch { .. }) => 31,
        Query::Review(ReviewQuery::ReviewBlocks { .. }) => 32,
        Query::Review(ReviewQuery::ReviewBlock { .. }) => 33,
        Query::Review(ReviewQuery::Hunks { .. }) => 34,
        Query::Review(ReviewQuery::Threads { .. }) => 35,
        Query::Review(ReviewQuery::Thread { .. }) => 36,
        Query::Review(ReviewQuery::Inbox { .. }) => 37,
        Query::Review(ReviewQuery::Diagnostics { .. }) => 38,
        Query::Session(SessionQuery::Session { .. }) => 39,
        Query::Session(SessionQuery::Turns { .. }) => 40,
        Query::Session(SessionQuery::Turn { .. }) => 41,
        Query::Session(SessionQuery::PendingAsks { .. }) => 42,
        Query::Session(SessionQuery::Ask { .. }) => 43,
        Query::Session(SessionQuery::Watches { .. }) => 44,
        Query::Session(SessionQuery::WatchValues { .. }) => 45,
        Query::Vcs(VcsQuery::VcsStatus { .. }) => 46,
        Query::Vcs(VcsQuery::Timeline { .. }) => 47,
    }
}

/// A Query's door name.
pub open spec fn spec_query_name(q: Query) -> Seq<char> {
    match q {
        Query::Region(RegionQuery::Regions { .. }) => "regions"@,
        Query::Region(RegionQuery::UnseenRegions { .. }) => "unseen-regions"@,
        Query::Region(RegionQuery::Region { .. }) => "region"@,
        Query::Region(RegionQuery::UnseenCount { .. }) => "unseen-count"@,
        Query::Region(RegionQuery::SeenCount { .. }) => "seen-count"@,
        Query::Region(RegionQuery::NextRegionBy { .. }) => "next-region-by"@,
        Query::Region(RegionQuery::BlockRegions { .. }) => "block-regions"@,
        Query::Region(RegionQuery::Anchors { .. }) => "anchors"@,
        Query::Region(RegionQuery::Anchor { .. }) => "anchor"@,
        Query::Buffer(BufferQuery::Buffers { .. }) => "buffers"@,
        Query::Buffer(BufferQuery::Buffer { .. }) => "buffer"@,
        Query::Buffer(BufferQuery::BufferText { .. }) => "buffer-text"@,
        Query::Buffer(BufferQuery::BufferLines { .. }) => "buffer-lines"@,
        Query::Buffer(BufferQuery::Cursor { .. }) => "cursor"@,
        Query::Buffer(BufferQuery::Selection { .. }) => "selection"@,
        Query::Buffer(BufferQuery::Viewport { .. }) => "viewport"@,
        Query::Buffer(BufferQuery::DirtyBuffers { .. }) => "dirty-buffers"@,
        Query::Buffer(BufferQuery::DiskState { .. }) => "disk-state"@,
        Query::Input(InputQuery::Mode { .. }) => "mode"@,
        Query::Input(InputQuery::PendingKeys { .. }) => "pending-keys"@,
        Query::Input(InputQuery::Register { .. }) => "register"@,
        Query::Input(InputQuery::Keymap { .. }) => "keymap"@,
        Query::Input(InputQuery::DescribeKey { .. }) => "describe-key"@,
        Query::Input(InputQuery::DescribeCapability { .. }) => "describe-capability"@,
        Query::Input(InputQuery::Capabilities { .. }) => "capabilities"@,
        Query::Ui(UiQuery::Panes { .. }) => "panes"@,
        Query::Ui(UiQuery::Floats { .. }) => "floats"@,
        Query::Ui(UiQuery::PickerRows { .. }) => "picker-rows"@,
        Query::Ui(UiQuery::Theme { .. }) => "theme"@,
        Query::Ui(UiQuery::Options { .. }) => "options"@,
        Query::Ui(UiQuery::Languages { .. }) => "languages"@,
        Query::Ui(UiQuery::Arch { .. }) => "arch"@,
        Query::Review(ReviewQuery::ReviewBlocks { .. }) => "review-blocks"@,
        Query::Review(ReviewQuery::ReviewBlock { .. }) => "review-block"@,
        Query::Review(ReviewQuery::Hunks { .. }) => "hunks"@,
        Query::Review(ReviewQuery::Threads { .. }) => "threads"@,
        Query::Review(ReviewQuery::Thread { .. }) => "thread"@,
        Query::Review(ReviewQuery::Inbox { .. }) => "inbox"@,
        Query::Review(ReviewQuery::Diagnostics { .. }) => "diagnostics"@,
        Query::Session(SessionQuery::Session { .. }) => "session"@,
        Query::Session(SessionQuery::Turns { .. }) => "turns"@,
        Query::Session(SessionQuery::Turn { .. }) => "turn"@,
        Query::Session(SessionQuery::PendingAsks { .. }) => "pending-asks"@,
        Query::Session(SessionQuery::Ask { .. }) => "ask"@,
        Query::Session(SessionQuery::Watches { .. }) => "watches"@,
        Query::Session(SessionQuery::WatchValues { .. }) => "watch-values"@,
        Query::Vcs(VcsQuery::VcsStatus { .. }) => "vcs-status"@,
        Query::Vcs(VcsQuery::Timeline { .. }) => "timeline"@,
    }
}

/// A Query's domain.
pub open spec fn spec_query_domain(q: Query) -> Seq<char> {
    match q {
        Query::Region(_) => "region"@,
        Query::Buffer(_) => "buffer"@,
        Query::Input(_) => "input"@,
        Query::Ui(_) => "ui"@,
        Query::Review(_) => "review"@,
        Query::Session(_) => "session"@,
        Query::Vcs(_) => "vcs"@,
    }
}

/// The door name in query row `i`.
fn query_row_name(i: usize) -> (r: &'static str)
    requires
        i < spec_query_count(),
    ensures
        r@ == spec_query_row_name(i as nat),
{
    if i == 0 {
        "regions"
    } else if i == 1 {
        "unseen-regions"
    } else if i == 2 {
        "region"
    } else if i == 3 {
        "unseen-count"
    } else if i == 4 {
        "seen-count"
    } else if i == 5 {
        "next-region-by"
    } else if i == 6 {
        "block-regions"
    } else if i == 7 {
        "anchors"
    } else if i == 8 {
        "anchor"
    } else if i == 9 {
        "buffers"
    } else if i == 10 {
        "buffer"
    } else if i == 11 {
        "buffer-text"
    } else if i == 12 {
        "buffer-lines"
    } else if i == 13 {
        "cursor"
    } else if i == 14 {
        "selection"
    } else if i == 15 {
        "viewport"
    } else if i == 16 {
        "dirty-buffers"
    } else if i == 17 {
        "disk-state"
    } else if i == 18 {
        "mode"
    } else if i == 19 {
        "pending-keys"
    } else if i == 20 {
        "register"
    } else if i == 21 {
        "keymap"
    } else if i == 22 {
        "describe-key"
    } else if i == 23 {
        "describe-capability"
    } else if i == 24 {
        "capabilities"
    } else if i == 25 {
        "panes"
    } else if i == 26 {
        "floats"
    } else if i == 27 {
        "picker-rows"
    } else if i == 28 {
        "theme"
    } else if i == 29 {
        "options"
    } else if i == 30 {
        "languages"
    } else if i == 31 {
        "arch"
    } else if i == 32 {
        "review-blocks"
    } else if i == 33 {
        "review-block"
    } else if i == 34 {
        "hunks"
    } else if i == 35 {
        "threads"
    } else if i == 36 {
        "thread"
    } else if i == 37 {
        "inbox"
    } else if i == 38 {
        "diagnostics"
    } else if i == 39 {
        "session"
    } else if i == 40 {
        "turns"
    } else if i == 41 {
        "turn"
    } else if i == 42 {
        "pending-asks"
    } else if i == 43 {
        "ask"
    } else if i == 44 {
        "watches"
    } else if i == 45 {
        "watch-values"
    } else if i == 46 {
        "vcs-status"
    } else {
        "timeline"
    }
}

/// The domain in query row `i`.
fn query_row_domain(i: usize) -> (r: &'static str)
    requires
        i < spec_query_count(),
    ensures
        r@ == spec_query_row_domain(i as nat),
{
    if i == 0 {
        "region"
    } else if i == 1 {
        "region"
    } else if i == 2 {
        "region"
    } else if i == 3 {
        "region"
    } else if i == 4 {
        "region"
    } else if i == 5 {
        "region"
    } else if i == 6 {
        "region"
    } else if i == 7 {
        "region"
    } else if i == 8 {
        "region"
    } else if i == 9 {
        "buffer"
    } else if i == 10 {
        "buffer"
    } else if i == 11 {
        "buffer"
    } else if i == 12 {
        "buffer"
    } else if i == 13 {
        "buffer"
    } else if i == 14 {
        "buffer"
    } else if i == 15 {
        "buffer"
    } else if i == 16 {
        "buffer"
    } else if i == 17 {
        "buffer"
    } else if i == 18 {
        "input"
    } else if i == 19 {
        "input"
    } else if i == 20 {
        "input"
    } else if i == 21 {
        "input"
    } else if i == 22 {
        "input"
    } else if i == 23 {
        "input"
    } else if i == 24 {
        "input"
    } else if i == 25 {
        "ui"
    } else if i == 26 {
        "ui"
    } else if i == 27 {
        "ui"
    } else if i == 28 {
        "ui"
    } else if i == 29 {
        "ui"
    } else if i == 30 {
        "ui"
    } else if i == 31 {
        "ui"
    } else if i == 32 {
        "review"
    } else if i == 33 {
        "review"
    } else if i == 34 {
        "review"
    } else if i == 35 {
        "review"
    } else if i == 36 {
        "review"
    } else if i == 37 {
        "review"
    } else if i == 38 {
        "review"
    } else if i == 39 {
        "session"
    } else if i == 40 {
        "session"
    } else if i == 41 {
        "session"
    } else if i == 42 {
        "session"
    } else if i == 43 {
        "session"
    } else if i == 44 {
        "session"
    } else if i == 45 {
        "session"
    } else if i == 46 {
        "vcs"
    } else {
        "vcs"
    }
}

/// The description of row `i`.
pub open spec fn spec_query_row_doc(i: nat) -> Seq<char> {
    if i == 0 {
        "every region in scope, seen and unseen"@
    } else if i == 1 {
        "the unseen regions of a file — 6b's first line"@
    } else if i == 2 {
        "one region"@
    } else if i == 3 {
        "how many regions are unseen in scope — the statusline's ●n"@
    } else if i == 4 {
        "how many regions are seen in scope"@
    } else if i == 5 {
        "the next region by an author, from a position — 6b binds ]r to this"@
    } else if i == 6 {
        "the regions of a review block, named by its title as 6b draws it"@
    } else if i == 7 {
        "a file's anchors and what tier each resolved at"@
    } else if i == 8 {
        "one anchor"@
    } else if i == 9 {
        "every open buffer"@
    } else if i == 10 {
        "one buffer: path, language, dirty state, disk state"@
    } else if i == 11 {
        "the text of a target"@
    } else if i == 12 {
        "the lines of a target"@
    } else if i == 13 {
        "where the cursor is — the statusline's 12:1"@
    } else if i == 14 {
        "the live selection, if there is one"@
    } else if i == 15 {
        "what is on screen: first row, height, and whether soft wrap is on"@
    } else if i == 16 {
        "every buffer with unsaved changes"@
    } else if i == 17 {
        "whether a file changed underneath us, and when — what ✱ renders"@
    } else if i == 18 {
        "the current edit mode — not the statusline chip, which is a surface label"@
    } else if i == 19 {
        "the keys typed so far in an unfinished sequence — 3c's SPC pending"@
    } else if i == 20 {
        "what a register holds — @ reads one back, and an unset one is empty"@
    } else if i == 21 {
        "the live keymap under a prefix; redefining a binding changes this at once"@
    } else if i == 22 {
        "what a key does, and where that is defined"@
    } else if i == 23 {
        "one capability's row: doc, arguments, phase, and its name at each door"@
    } else if i == 24 {
        "the whole registry, as data — what the door-parity test and :help both read"@
    } else if i == 25 {
        "the pane tree, with which one has focus"@
    } else if i == 26 {
        "the open floats; at most one has focus (Design Language §9)"@
    } else if i == 27 {
        "a source's rows under a filter, ranked"@
    } else if i == 28 {
        "the active theme: slug, ground, and the actor hues"@
    } else if i == 29 {
        "every declared option and its value"@
    } else if i == 30 {
        "the declared languages, and which tier each is"@
    } else if i == 31 {
        "the workspace's shape, for :arch — a store query with no Rust primitive (Q11)"@
    } else if i == 32 {
        "every declared review block"@
    } else if i == 33 {
        "one block: its files, groups and annotations"@
    } else if i == 34 {
        "a block's hunks, with each one's seen state"@
    } else if i == 35 {
        "the threads anchored inside a target"@
    } else if i == 36 {
        "one thread and its replies"@
    } else if i == 37 {
        "the inbox; unread derives from seen-state rather than duplicating it"@
    } else if i == 38 {
        "the diagnostics for a file, or all of them"@
    } else if i == 39 {
        "the session's state — what the statusline's ✻ and elapsed timer render"@
    } else if i == 40 {
        "the transcript, newest last"@
    } else if i == 41 {
        "one turn: its prose, its tool calls, and how it ended"@
    } else if i == 42 {
        "the ask queue — one truth for ]!, the inbox and the statusline ! (Q9)"@
    } else if i == 43 {
        "one queued ask and its options"@
    } else if i == 44 {
        "the placed watches"@
    } else if i == 45 {
        "a watch's values, with where they came from"@
    } else if i == 46 {
        "the backend, the current change, and whether the tree is clean"@
    } else {
        "the timeline, newest first; agent turns are changes (3b)"@
    }
}

/// The doc in query row `i`.
fn query_row_doc(i: usize) -> (r: &'static str)
    requires
        i < spec_query_count(),
    ensures
        r@ == spec_query_row_doc(i as nat),
{
    if i == 0 {
        "every region in scope, seen and unseen"
    } else if i == 1 {
        "the unseen regions of a file — 6b's first line"
    } else if i == 2 {
        "one region"
    } else if i == 3 {
        "how many regions are unseen in scope — the statusline's ●n"
    } else if i == 4 {
        "how many regions are seen in scope"
    } else if i == 5 {
        "the next region by an author, from a position — 6b binds ]r to this"
    } else if i == 6 {
        "the regions of a review block, named by its title as 6b draws it"
    } else if i == 7 {
        "a file's anchors and what tier each resolved at"
    } else if i == 8 {
        "one anchor"
    } else if i == 9 {
        "every open buffer"
    } else if i == 10 {
        "one buffer: path, language, dirty state, disk state"
    } else if i == 11 {
        "the text of a target"
    } else if i == 12 {
        "the lines of a target"
    } else if i == 13 {
        "where the cursor is — the statusline's 12:1"
    } else if i == 14 {
        "the live selection, if there is one"
    } else if i == 15 {
        "what is on screen: first row, height, and whether soft wrap is on"
    } else if i == 16 {
        "every buffer with unsaved changes"
    } else if i == 17 {
        "whether a file changed underneath us, and when — what ✱ renders"
    } else if i == 18 {
        "the current edit mode — not the statusline chip, which is a surface label"
    } else if i == 19 {
        "the keys typed so far in an unfinished sequence — 3c's SPC pending"
    } else if i == 20 {
        "what a register holds — @ reads one back, and an unset one is empty"
    } else if i == 21 {
        "the live keymap under a prefix; redefining a binding changes this at once"
    } else if i == 22 {
        "what a key does, and where that is defined"
    } else if i == 23 {
        "one capability's row: doc, arguments, phase, and its name at each door"
    } else if i == 24 {
        "the whole registry, as data — what the door-parity test and :help both read"
    } else if i == 25 {
        "the pane tree, with which one has focus"
    } else if i == 26 {
        "the open floats; at most one has focus (Design Language §9)"
    } else if i == 27 {
        "a source's rows under a filter, ranked"
    } else if i == 28 {
        "the active theme: slug, ground, and the actor hues"
    } else if i == 29 {
        "every declared option and its value"
    } else if i == 30 {
        "the declared languages, and which tier each is"
    } else if i == 31 {
        "the workspace's shape, for :arch — a store query with no Rust primitive (Q11)"
    } else if i == 32 {
        "every declared review block"
    } else if i == 33 {
        "one block: its files, groups and annotations"
    } else if i == 34 {
        "a block's hunks, with each one's seen state"
    } else if i == 35 {
        "the threads anchored inside a target"
    } else if i == 36 {
        "one thread and its replies"
    } else if i == 37 {
        "the inbox; unread derives from seen-state rather than duplicating it"
    } else if i == 38 {
        "the diagnostics for a file, or all of them"
    } else if i == 39 {
        "the session's state — what the statusline's ✻ and elapsed timer render"
    } else if i == 40 {
        "the transcript, newest last"
    } else if i == 41 {
        "one turn: its prose, its tool calls, and how it ended"
    } else if i == 42 {
        "the ask queue — one truth for ]!, the inbox and the statusline ! (Q9)"
    } else if i == 43 {
        "one queued ask and its options"
    } else if i == 44 {
        "the placed watches"
    } else if i == 45 {
        "a watch's values, with where they came from"
    } else if i == 46 {
        "the backend, the current change, and whether the tree is clean"
    } else {
        "the timeline, newest first; agent turns are changes (3b)"
    }
}

/// The phase in query row `i`.
fn query_row_phase(i: usize) -> (r: Phase)
    requires
        i < spec_query_count(),
    ensures
        r == spec_query_row_phase(i as nat),
{
    if i == 0 {
        Phase::S5
    } else if i == 1 {
        Phase::S5
    } else if i == 2 {
        Phase::S5
    } else if i == 3 {
        Phase::S5
    } else if i == 4 {
        Phase::S5
    } else if i == 5 {
        Phase::S5
    } else if i == 6 {
        Phase::S5
    } else if i == 7 {
        Phase::S5
    } else if i == 8 {
        Phase::S5
    } else if i == 9 {
        Phase::S3
    } else if i == 10 {
        Phase::S3
    } else if i == 11 {
        Phase::S3
    } else if i == 12 {
        Phase::S3
    } else if i == 13 {
        Phase::S3
    } else if i == 14 {
        Phase::S3
    } else if i == 15 {
        Phase::S3
    } else if i == 16 {
        Phase::S3
    } else if i == 17 {
        Phase::S7
    } else if i == 18 {
        Phase::S3
    } else if i == 19 {
        Phase::S3
    } else if i == 20 {
        Phase::S3
    } else if i == 21 {
        Phase::S3
    } else if i == 22 {
        Phase::S3
    } else if i == 23 {
        Phase::S2
    } else if i == 24 {
        Phase::S2
    } else if i == 25 {
        Phase::S6
    } else if i == 26 {
        Phase::S2
    } else if i == 27 {
        Phase::S5
    } else if i == 28 {
        Phase::S1
    } else if i == 29 {
        Phase::S2
    } else if i == 30 {
        Phase::S4
    } else if i == 31 {
        Phase::S5
    } else if i == 32 {
        Phase::S6
    } else if i == 33 {
        Phase::S7
    } else if i == 34 {
        Phase::S7
    } else if i == 35 {
        Phase::S7
    } else if i == 36 {
        Phase::S7
    } else if i == 37 {
        Phase::S7
    } else if i == 38 {
        Phase::S4
    } else if i == 39 {
        Phase::S6
    } else if i == 40 {
        Phase::S6
    } else if i == 41 {
        Phase::S6
    } else if i == 42 {
        Phase::S6
    } else if i == 43 {
        Phase::S6
    } else if i == 44 {
        Phase::S8
    } else if i == 45 {
        Phase::S8
    } else if i == 46 {
        Phase::S7
    } else {
        Phase::S7
    }
}

/// The task in query row `i`.
fn query_row_task(i: usize) -> (r: &'static str)
    requires
        i < spec_query_count(),
    ensures
        r@ == spec_query_row_task(i as nat),
{
    if i == 0 {
        "T041"
    } else if i == 1 {
        "T041"
    } else if i == 2 {
        "T041"
    } else if i == 3 {
        "T041"
    } else if i == 4 {
        "T041"
    } else if i == 5 {
        "T049"
    } else if i == 6 {
        "T041"
    } else if i == 7 {
        "T042"
    } else if i == 8 {
        "T042"
    } else if i == 9 {
        "T033"
    } else if i == 10 {
        "T033"
    } else if i == 11 {
        "T026"
    } else if i == 12 {
        "T026"
    } else if i == 13 {
        "T026"
    } else if i == 14 {
        "T026"
    } else if i == 15 {
        "T026"
    } else if i == 16 {
        "T033"
    } else if i == 17 {
        "T069"
    } else if i == 18 {
        "T026"
    } else if i == 19 {
        "T026"
    } else if i == 20 {
        "T099"
    } else if i == 21 {
        "T033"
    } else if i == 22 {
        "T086"
    } else if i == 23 {
        "T024"
    } else if i == 24 {
        "T024"
    } else if i == 25 {
        "T088"
    } else if i == 26 {
        "T021"
    } else if i == 27 {
        "T045"
    } else if i == 28 {
        "T010"
    } else if i == 29 {
        "T021"
    } else if i == 30 {
        "T037"
    } else if i == 31 {
        "T048"
    } else if i == 32 {
        "T053"
    } else if i == 33 {
        "T066"
    } else if i == 34 {
        "T063"
    } else if i == 35 {
        "T068"
    } else if i == 36 {
        "T068"
    } else if i == 37 {
        "T067"
    } else if i == 38 {
        "T040"
    } else if i == 39 {
        "T051"
    } else if i == 40 {
        "T054"
    } else if i == 41 {
        "T054"
    } else if i == 42 {
        "T060"
    } else if i == 43 {
        "T060"
    } else if i == 44 {
        "T074"
    } else if i == 45 {
        "T075"
    } else if i == 46 {
        "T071"
    } else {
        "T073"
    }
}

/// The arguments, as shapes, of row `i`.
pub open spec fn spec_query_row_fields(i: nat) -> Seq<FieldV> {
    if i == 0 {
        seq![
            FieldV { name: "filter"@, doc: "narrow by author, state or scope"@, shape: region_filter_shape(), required: false },
        ]
    } else if i == 1 {
        seq![
            FieldV { name: "path"@, doc: "which file; absent means everywhere"@, shape: ShapeV::Path, required: false },
        ]
    } else if i == 2 {
        seq![
            FieldV { name: "region"@, doc: "which region"@, shape: ShapeV::Id("region"@), required: true },
        ]
    } else if i == 3 {
        seq![
            FieldV { name: "within"@, doc: "scope; absent means the workspace"@, shape: target_shape(), required: false },
        ]
    } else if i == 4 {
        seq![
            FieldV { name: "within"@, doc: "scope; absent means the workspace"@, shape: target_shape(), required: false },
        ]
    } else if i == 5 {
        seq![
            FieldV { name: "author"@, doc: "whose region"@, shape: actor_shape(), required: true },
            FieldV { name: "from"@, doc: "start here; absent means the cursor"@, shape: position_shape(), required: false },
        ]
    } else if i == 6 {
        seq![
            FieldV { name: "block"@, doc: "the block's title"@, shape: ShapeV::Text, required: true },
        ]
    } else if i == 7 {
        seq![
            FieldV { name: "path"@, doc: "which file"@, shape: ShapeV::Path, required: true },
        ]
    } else if i == 8 {
        seq![
            FieldV { name: "anchor"@, doc: "which anchor"@, shape: ShapeV::Id("anchor"@), required: true },
        ]
    } else if i == 9 {
        Seq::empty()
    } else if i == 10 {
        seq![
            FieldV { name: "buffer"@, doc: "which buffer; absent means the focused one"@, shape: ShapeV::Id("buffer"@), required: false },
        ]
    } else if i == 11 {
        seq![
            FieldV { name: "target"@, doc: "what to read"@, shape: target_shape(), required: true },
        ]
    } else if i == 12 {
        seq![
            FieldV { name: "target"@, doc: "what to read"@, shape: target_shape(), required: true },
        ]
    } else if i == 13 {
        seq![
            FieldV { name: "pane"@, doc: "which pane"@, shape: pane_ref_shape(), required: true },
        ]
    } else if i == 14 {
        seq![
            FieldV { name: "pane"@, doc: "which pane"@, shape: pane_ref_shape(), required: true },
        ]
    } else if i == 15 {
        seq![
            FieldV { name: "pane"@, doc: "which pane"@, shape: pane_ref_shape(), required: true },
        ]
    } else if i == 16 {
        Seq::empty()
    } else if i == 17 {
        seq![
            FieldV { name: "path"@, doc: "which file"@, shape: ShapeV::Path, required: true },
        ]
    } else if i == 18 {
        Seq::empty()
    } else if i == 19 {
        Seq::empty()
    } else if i == 20 {
        seq![
            FieldV { name: "register"@, doc: "which register"@, shape: ShapeV::Text, required: true },
        ]
    } else if i == 21 {
        seq![
            FieldV { name: "prefix"@, doc: "the prefix; absent means the root"@, shape: ShapeV::Text, required: false },
            FieldV { name: "mode"@, doc: "which mode; absent means the current one"@, shape: edit_mode_shape(), required: false },
        ]
    } else if i == 22 {
        seq![
            FieldV { name: "keys"@, doc: "the key sequence"@, shape: ShapeV::Text, required: true },
        ]
    } else if i == 23 {
        seq![
            FieldV { name: "name"@, doc: "the door name"@, shape: ShapeV::Text, required: true },
        ]
    } else if i == 24 {
        seq![
            FieldV { name: "domain"@, doc: "one domain; absent means all of them"@, shape: ShapeV::Text, required: false },
        ]
    } else if i == 25 {
        Seq::empty()
    } else if i == 26 {
        Seq::empty()
    } else if i == 27 {
        seq![
            FieldV { name: "source"@, doc: "which source"@, shape: ShapeV::Text, required: true },
            FieldV { name: "query"@, doc: "the filter"@, shape: ShapeV::Text, required: false },
            FieldV { name: "limit"@, doc: "how many rows; capped regardless"@, shape: ShapeV::Uint, required: false },
            FieldV { name: "offset"@, doc: "skip this many"@, shape: ShapeV::Uint, required: false },
        ]
    } else if i == 28 {
        Seq::empty()
    } else if i == 29 {
        Seq::empty()
    } else if i == 30 {
        seq![
            FieldV { name: "language"@, doc: "one language; absent means all"@, shape: ShapeV::Text, required: false },
        ]
    } else if i == 31 {
        Seq::empty()
    } else if i == 32 {
        Seq::empty()
    } else if i == 33 {
        seq![
            FieldV { name: "block"@, doc: "which block"@, shape: ShapeV::Id("block"@), required: true },
        ]
    } else if i == 34 {
        seq![
            FieldV { name: "block"@, doc: "which block"@, shape: ShapeV::Id("block"@), required: true },
        ]
    } else if i == 35 {
        seq![
            FieldV { name: "within"@, doc: "scope; absent means the workspace"@, shape: target_shape(), required: false },
        ]
    } else if i == 36 {
        seq![
            FieldV { name: "thread"@, doc: "which thread"@, shape: ShapeV::Id("thread"@), required: true },
        ]
    } else if i == 37 {
        seq![
            FieldV { name: "limit"@, doc: "how many items"@, shape: ShapeV::Uint, required: false },
            FieldV { name: "offset"@, doc: "skip this many"@, shape: ShapeV::Uint, required: false },
        ]
    } else if i == 38 {
        seq![
            FieldV { name: "path"@, doc: "which file; absent means all"@, shape: ShapeV::Path, required: false },
        ]
    } else if i == 39 {
        Seq::empty()
    } else if i == 40 {
        seq![
            FieldV { name: "limit"@, doc: "how many turns"@, shape: ShapeV::Uint, required: false },
            FieldV { name: "offset"@, doc: "skip this many"@, shape: ShapeV::Uint, required: false },
        ]
    } else if i == 41 {
        seq![
            FieldV { name: "turn"@, doc: "which turn"@, shape: ShapeV::Id("turn"@), required: true },
        ]
    } else if i == 42 {
        Seq::empty()
    } else if i == 43 {
        seq![
            FieldV { name: "ask"@, doc: "which ask"@, shape: ShapeV::Id("ask"@), required: true },
        ]
    } else if i == 44 {
        seq![
            FieldV { name: "within"@, doc: "scope; absent means the workspace"@, shape: target_shape(), required: false },
        ]
    } else if i == 45 {
        seq![
            FieldV { name: "watch"@, doc: "which watch"@, shape: ShapeV::Id("watch"@), required: true },
        ]
    } else if i == 46 {
        Seq::empty()
    } else {
        seq![
            FieldV { name: "limit"@, doc: "how many entries"@, shape: ShapeV::Uint, required: false },
            FieldV { name: "offset"@, doc: "skip this many"@, shape: ShapeV::Uint, required: false },
        ]
    }
}

/// The arguments in query row `i`.
fn query_row_params(i: usize) -> (r: Vec<Param>)
    requires
        i < spec_query_count(),
    ensures
        shape_fields(r@) == spec_query_row_fields(i as nat),
{
    if i == 0 {
        let r = vec![
            param("filter", "narrow by author, state or scope", RegionFilter::wire_type(), false),
        ];
        proof {
            lemma_shape_fields_index(r@);
            assert(shape_fields(r@) =~= seq![
                FieldV { name: "filter"@, doc: "narrow by author, state or scope"@, shape: region_filter_shape(), required: false },
            ]);
        }
        r
    } else if i == 1 {
        let r = vec![
            param("path", "which file; absent means everywhere", ParamType::Path, false),
        ];
        proof {
            lemma_shape_fields_index(r@);
            assert(shape_fields(r@) =~= seq![
                FieldV { name: "path"@, doc: "which file; absent means everywhere"@, shape: ShapeV::Path, required: false },
            ]);
        }
        r
    } else if i == 2 {
        let r = vec![
            param("region", "which region", ParamType::Id("region"), true),
        ];
        proof {
            lemma_shape_fields_index(r@);
            assert(shape_fields(r@) =~= seq![
                FieldV { name: "region"@, doc: "which region"@, shape: ShapeV::Id("region"@), required: true },
            ]);
        }
        r
    } else if i == 3 {
        let r = vec![
            param("within", "scope; absent means the workspace", Target::wire_type(), false),
        ];
        proof {
            lemma_shape_fields_index(r@);
            assert(shape_fields(r@) =~= seq![
                FieldV { name: "within"@, doc: "scope; absent means the workspace"@, shape: target_shape(), required: false },
            ]);
        }
        r
    } else if i == 4 {
        let r = vec![
            param("within", "scope; absent means the workspace", Target::wire_type(), false),
        ];
        proof {
            lemma_shape_fields_index(r@);
            assert(shape_fields(r@) =~= seq![
                FieldV { name: "within"@, doc: "scope; absent means the workspace"@, shape: target_shape(), required: false },
            ]);
        }
        r
    } else if i == 5 {
        let r = vec![
            param("author", "whose region", Actor::wire_type(), true),
            param("from", "start here; absent means the cursor", Position::wire_type(), false),
        ];
        proof {
            lemma_shape_fields_index(r@);
            assert(shape_fields(r@) =~= seq![
                FieldV { name: "author"@, doc: "whose region"@, shape: actor_shape(), required: true },
                FieldV { name: "from"@, doc: "start here; absent means the cursor"@, shape: position_shape(), required: false },
            ]);
        }
        r
    } else if i == 6 {
        let r = vec![
            param("block", "the block's title", ParamType::Text, true),
        ];
        proof {
            lemma_shape_fields_index(r@);
            assert(shape_fields(r@) =~= seq![
                FieldV { name: "block"@, doc: "the block's title"@, shape: ShapeV::Text, required: true },
            ]);
        }
        r
    } else if i == 7 {
        let r = vec![
            param("path", "which file", ParamType::Path, true),
        ];
        proof {
            lemma_shape_fields_index(r@);
            assert(shape_fields(r@) =~= seq![
                FieldV { name: "path"@, doc: "which file"@, shape: ShapeV::Path, required: true },
            ]);
        }
        r
    } else if i == 8 {
        let r = vec![
            param("anchor", "which anchor", ParamType::Id("anchor"), true),
        ];
        proof {
            lemma_shape_fields_index(r@);
            assert(shape_fields(r@) =~= seq![
                FieldV { name: "anchor"@, doc: "which anchor"@, shape: ShapeV::Id("anchor"@), required: true },
            ]);
        }
        r
    } else if i == 9 {
        let r = Vec::new();
        assert(shape_fields(r@) =~= Seq::<FieldV>::empty());
        r
    } else if i == 10 {
        let r = vec![
            param("buffer", "which buffer; absent means the focused one", ParamType::Id("buffer"), false),
        ];
        proof {
            lemma_shape_fields_index(r@);
            assert(shape_fields(r@) =~= seq![
                FieldV { name: "buffer"@, doc: "which buffer; absent means the focused one"@, shape: ShapeV::Id("buffer"@), required: false },
            ]);
        }
        r
    } else if i == 11 {
        let r = vec![
            param("target", "what to read", Target::wire_type(), true),
        ];
        proof {
            lemma_shape_fields_index(r@);
            assert(shape_fields(r@) =~= seq![
                FieldV { name: "target"@, doc: "what to read"@, shape: target_shape(), required: true },
            ]);
        }
        r
    } else if i == 12 {
        let r = vec![
            param("target", "what to read", Target::wire_type(), true),
        ];
        proof {
            lemma_shape_fields_index(r@);
            assert(shape_fields(r@) =~= seq![
                FieldV { name: "target"@, doc: "what to read"@, shape: target_shape(), required: true },
            ]);
        }
        r
    } else if i == 13 {
        let r = vec![
            param("pane", "which pane", PaneRef::wire_type(), true),
        ];
        proof {
            lemma_shape_fields_index(r@);
            assert(shape_fields(r@) =~= seq![
                FieldV { name: "pane"@, doc: "which pane"@, shape: pane_ref_shape(), required: true },
            ]);
        }
        r
    } else if i == 14 {
        let r = vec![
            param("pane", "which pane", PaneRef::wire_type(), true),
        ];
        proof {
            lemma_shape_fields_index(r@);
            assert(shape_fields(r@) =~= seq![
                FieldV { name: "pane"@, doc: "which pane"@, shape: pane_ref_shape(), required: true },
            ]);
        }
        r
    } else if i == 15 {
        let r = vec![
            param("pane", "which pane", PaneRef::wire_type(), true),
        ];
        proof {
            lemma_shape_fields_index(r@);
            assert(shape_fields(r@) =~= seq![
                FieldV { name: "pane"@, doc: "which pane"@, shape: pane_ref_shape(), required: true },
            ]);
        }
        r
    } else if i == 16 {
        let r = Vec::new();
        assert(shape_fields(r@) =~= Seq::<FieldV>::empty());
        r
    } else if i == 17 {
        let r = vec![
            param("path", "which file", ParamType::Path, true),
        ];
        proof {
            lemma_shape_fields_index(r@);
            assert(shape_fields(r@) =~= seq![
                FieldV { name: "path"@, doc: "which file"@, shape: ShapeV::Path, required: true },
            ]);
        }
        r
    } else if i == 18 {
        let r = Vec::new();
        assert(shape_fields(r@) =~= Seq::<FieldV>::empty());
        r
    } else if i == 19 {
        let r = Vec::new();
        assert(shape_fields(r@) =~= Seq::<FieldV>::empty());
        r
    } else if i == 20 {
        let r = vec![
            param("register", "which register", ParamType::Text, true),
        ];
        proof {
            lemma_shape_fields_index(r@);
            assert(shape_fields(r@) =~= seq![
                FieldV { name: "register"@, doc: "which register"@, shape: ShapeV::Text, required: true },
            ]);
        }
        r
    } else if i == 21 {
        let r = vec![
            param("prefix", "the prefix; absent means the root", ParamType::Text, false),
            param("mode", "which mode; absent means the current one", EditMode::wire_type(), false),
        ];
        proof {
            lemma_shape_fields_index(r@);
            assert(shape_fields(r@) =~= seq![
                FieldV { name: "prefix"@, doc: "the prefix; absent means the root"@, shape: ShapeV::Text, required: false },
                FieldV { name: "mode"@, doc: "which mode; absent means the current one"@, shape: edit_mode_shape(), required: false },
            ]);
        }
        r
    } else if i == 22 {
        let r = vec![
            param("keys", "the key sequence", ParamType::Text, true),
        ];
        proof {
            lemma_shape_fields_index(r@);
            assert(shape_fields(r@) =~= seq![
                FieldV { name: "keys"@, doc: "the key sequence"@, shape: ShapeV::Text, required: true },
            ]);
        }
        r
    } else if i == 23 {
        let r = vec![
            param("name", "the door name", ParamType::Text, true),
        ];
        proof {
            lemma_shape_fields_index(r@);
            assert(shape_fields(r@) =~= seq![
                FieldV { name: "name"@, doc: "the door name"@, shape: ShapeV::Text, required: true },
            ]);
        }
        r
    } else if i == 24 {
        let r = vec![
            param("domain", "one domain; absent means all of them", ParamType::Text, false),
        ];
        proof {
            lemma_shape_fields_index(r@);
            assert(shape_fields(r@) =~= seq![
                FieldV { name: "domain"@, doc: "one domain; absent means all of them"@, shape: ShapeV::Text, required: false },
            ]);
        }
        r
    } else if i == 25 {
        let r = Vec::new();
        assert(shape_fields(r@) =~= Seq::<FieldV>::empty());
        r
    } else if i == 26 {
        let r = Vec::new();
        assert(shape_fields(r@) =~= Seq::<FieldV>::empty());
        r
    } else if i == 27 {
        let r = vec![
            param("source", "which source", ParamType::Text, true),
            param("query", "the filter", ParamType::Text, false),
            param("limit", "how many rows; capped regardless", ParamType::Uint, false),
            param("offset", "skip this many", ParamType::Uint, false),
        ];
        proof {
            lemma_shape_fields_index(r@);
            assert(shape_fields(r@) =~= seq![
                FieldV { name: "source"@, doc: "which source"@, shape: ShapeV::Text, required: true },
                FieldV { name: "query"@, doc: "the filter"@, shape: ShapeV::Text, required: false },
                FieldV { name: "limit"@, doc: "how many rows; capped regardless"@, shape: ShapeV::Uint, required: false },
                FieldV { name: "offset"@, doc: "skip this many"@, shape: ShapeV::Uint, required: false },
            ]);
        }
        r
    } else if i == 28 {
        let r = Vec::new();
        assert(shape_fields(r@) =~= Seq::<FieldV>::empty());
        r
    } else if i == 29 {
        let r = Vec::new();
        assert(shape_fields(r@) =~= Seq::<FieldV>::empty());
        r
    } else if i == 30 {
        let r = vec![
            param("language", "one language; absent means all", ParamType::Text, false),
        ];
        proof {
            lemma_shape_fields_index(r@);
            assert(shape_fields(r@) =~= seq![
                FieldV { name: "language"@, doc: "one language; absent means all"@, shape: ShapeV::Text, required: false },
            ]);
        }
        r
    } else if i == 31 {
        let r = Vec::new();
        assert(shape_fields(r@) =~= Seq::<FieldV>::empty());
        r
    } else if i == 32 {
        let r = Vec::new();
        assert(shape_fields(r@) =~= Seq::<FieldV>::empty());
        r
    } else if i == 33 {
        let r = vec![
            param("block", "which block", ParamType::Id("block"), true),
        ];
        proof {
            lemma_shape_fields_index(r@);
            assert(shape_fields(r@) =~= seq![
                FieldV { name: "block"@, doc: "which block"@, shape: ShapeV::Id("block"@), required: true },
            ]);
        }
        r
    } else if i == 34 {
        let r = vec![
            param("block", "which block", ParamType::Id("block"), true),
        ];
        proof {
            lemma_shape_fields_index(r@);
            assert(shape_fields(r@) =~= seq![
                FieldV { name: "block"@, doc: "which block"@, shape: ShapeV::Id("block"@), required: true },
            ]);
        }
        r
    } else if i == 35 {
        let r = vec![
            param("within", "scope; absent means the workspace", Target::wire_type(), false),
        ];
        proof {
            lemma_shape_fields_index(r@);
            assert(shape_fields(r@) =~= seq![
                FieldV { name: "within"@, doc: "scope; absent means the workspace"@, shape: target_shape(), required: false },
            ]);
        }
        r
    } else if i == 36 {
        let r = vec![
            param("thread", "which thread", ParamType::Id("thread"), true),
        ];
        proof {
            lemma_shape_fields_index(r@);
            assert(shape_fields(r@) =~= seq![
                FieldV { name: "thread"@, doc: "which thread"@, shape: ShapeV::Id("thread"@), required: true },
            ]);
        }
        r
    } else if i == 37 {
        let r = vec![
            param("limit", "how many items", ParamType::Uint, false),
            param("offset", "skip this many", ParamType::Uint, false),
        ];
        proof {
            lemma_shape_fields_index(r@);
            assert(shape_fields(r@) =~= seq![
                FieldV { name: "limit"@, doc: "how many items"@, shape: ShapeV::Uint, required: false },
                FieldV { name: "offset"@, doc: "skip this many"@, shape: ShapeV::Uint, required: false },
            ]);
        }
        r
    } else if i == 38 {
        let r = vec![
            param("path", "which file; absent means all", ParamType::Path, false),
        ];
        proof {
            lemma_shape_fields_index(r@);
            assert(shape_fields(r@) =~= seq![
                FieldV { name: "path"@, doc: "which file; absent means all"@, shape: ShapeV::Path, required: false },
            ]);
        }
        r
    } else if i == 39 {
        let r = Vec::new();
        assert(shape_fields(r@) =~= Seq::<FieldV>::empty());
        r
    } else if i == 40 {
        let r = vec![
            param("limit", "how many turns", ParamType::Uint, false),
            param("offset", "skip this many", ParamType::Uint, false),
        ];
        proof {
            lemma_shape_fields_index(r@);
            assert(shape_fields(r@) =~= seq![
                FieldV { name: "limit"@, doc: "how many turns"@, shape: ShapeV::Uint, required: false },
                FieldV { name: "offset"@, doc: "skip this many"@, shape: ShapeV::Uint, required: false },
            ]);
        }
        r
    } else if i == 41 {
        let r = vec![
            param("turn", "which turn", ParamType::Id("turn"), true),
        ];
        proof {
            lemma_shape_fields_index(r@);
            assert(shape_fields(r@) =~= seq![
                FieldV { name: "turn"@, doc: "which turn"@, shape: ShapeV::Id("turn"@), required: true },
            ]);
        }
        r
    } else if i == 42 {
        let r = Vec::new();
        assert(shape_fields(r@) =~= Seq::<FieldV>::empty());
        r
    } else if i == 43 {
        let r = vec![
            param("ask", "which ask", ParamType::Id("ask"), true),
        ];
        proof {
            lemma_shape_fields_index(r@);
            assert(shape_fields(r@) =~= seq![
                FieldV { name: "ask"@, doc: "which ask"@, shape: ShapeV::Id("ask"@), required: true },
            ]);
        }
        r
    } else if i == 44 {
        let r = vec![
            param("within", "scope; absent means the workspace", Target::wire_type(), false),
        ];
        proof {
            lemma_shape_fields_index(r@);
            assert(shape_fields(r@) =~= seq![
                FieldV { name: "within"@, doc: "scope; absent means the workspace"@, shape: target_shape(), required: false },
            ]);
        }
        r
    } else if i == 45 {
        let r = vec![
            param("watch", "which watch", ParamType::Id("watch"), true),
        ];
        proof {
            lemma_shape_fields_index(r@);
            assert(shape_fields(r@) =~= seq![
                FieldV { name: "watch"@, doc: "which watch"@, shape: ShapeV::Id("watch"@), required: true },
            ]);
        }
        r
    } else if i == 46 {
        let r = Vec::new();
        assert(shape_fields(r@) =~= Seq::<FieldV>::empty());
        r
    } else {
        let r = vec![
            param("limit", "how many entries", ParamType::Uint, false),
            param("offset", "skip this many", ParamType::Uint, false),
        ];
        proof {
            lemma_shape_fields_index(r@);
            assert(shape_fields(r@) =~= seq![
                FieldV { name: "limit"@, doc: "how many entries"@, shape: ShapeV::Uint, required: false },
                FieldV { name: "offset"@, doc: "skip this many"@, shape: ShapeV::Uint, required: false },
            ]);
        }
        r
    }
}

/// The shape of what the query answers of row `i`.
pub open spec fn spec_query_row_returns(i: nat) -> ShapeV {
    if i == 0 {
        ShapeV::List(Box::new(ShapeV::Any))
    } else if i == 1 {
        ShapeV::List(Box::new(ShapeV::Any))
    } else if i == 2 {
        ShapeV::Any
    } else if i == 3 {
        ShapeV::Uint
    } else if i == 4 {
        ShapeV::Uint
    } else if i == 5 {
        ShapeV::Any
    } else if i == 6 {
        ShapeV::List(Box::new(ShapeV::Any))
    } else if i == 7 {
        ShapeV::List(Box::new(ShapeV::Any))
    } else if i == 8 {
        ShapeV::Any
    } else if i == 9 {
        ShapeV::List(Box::new(ShapeV::Any))
    } else if i == 10 {
        ShapeV::Any
    } else if i == 11 {
        ShapeV::Text
    } else if i == 12 {
        ShapeV::List(Box::new(ShapeV::Text))
    } else if i == 13 {
        position_shape()
    } else if i == 14 {
        ShapeV::Any
    } else if i == 15 {
        ShapeV::Any
    } else if i == 16 {
        ShapeV::List(Box::new(ShapeV::Any))
    } else if i == 17 {
        ShapeV::Any
    } else if i == 18 {
        edit_mode_shape()
    } else if i == 19 {
        ShapeV::Text
    } else if i == 20 {
        ShapeV::Text
    } else if i == 21 {
        ShapeV::List(Box::new(ShapeV::Any))
    } else if i == 22 {
        ShapeV::Any
    } else if i == 23 {
        ShapeV::Any
    } else if i == 24 {
        ShapeV::List(Box::new(ShapeV::Any))
    } else if i == 25 {
        ShapeV::Any
    } else if i == 26 {
        ShapeV::List(Box::new(ShapeV::Any))
    } else if i == 27 {
        ShapeV::List(Box::new(ShapeV::Any))
    } else if i == 28 {
        ShapeV::Any
    } else if i == 29 {
        ShapeV::Any
    } else if i == 30 {
        ShapeV::List(Box::new(ShapeV::Any))
    } else if i == 31 {
        ShapeV::Any
    } else if i == 32 {
        ShapeV::List(Box::new(ShapeV::Any))
    } else if i == 33 {
        ShapeV::Any
    } else if i == 34 {
        ShapeV::List(Box::new(ShapeV::Any))
    } else if i == 35 {
        ShapeV::List(Box::new(ShapeV::Any))
    } else if i == 36 {
        ShapeV::Any
    } else if i == 37 {
        ShapeV::List(Box::new(ShapeV::Any))
    } else if i == 38 {
        ShapeV::List(Box::new(ShapeV::Any))
    } else if i == 39 {
        ShapeV::Any
    } else if i == 40 {
        ShapeV::List(Box::new(ShapeV::Any))
    } else if i == 41 {
        ShapeV::Any
    } else if i == 42 {
        ShapeV::List(Box::new(ShapeV::Any))
    } else if i == 43 {
        ShapeV::Any
    } else if i == 44 {
        ShapeV::List(Box::new(ShapeV::Any))
    } else if i == 45 {
        ShapeV::List(Box::new(ShapeV::Any))
    } else if i == 46 {
        ShapeV::Any
    } else {
        ShapeV::List(Box::new(ShapeV::Any))
    }
}

/// The answer shape in query row `i`.
fn query_row_returns(i: usize) -> (r: ParamType)
    requires
        i < spec_query_count(),
    ensures
        shape(r) == spec_query_row_returns(i as nat),
{
    if i == 0 {
        let r = ParamType::List(Box::new(ParamType::Any));
        assert(shape(ParamType::Any) == ShapeV::Any);
        r
    } else if i == 1 {
        let r = ParamType::List(Box::new(ParamType::Any));
        assert(shape(ParamType::Any) == ShapeV::Any);
        r
    } else if i == 2 {
        ParamType::Any
    } else if i == 3 {
        ParamType::Uint
    } else if i == 4 {
        ParamType::Uint
    } else if i == 5 {
        ParamType::Any
    } else if i == 6 {
        let r = ParamType::List(Box::new(ParamType::Any));
        assert(shape(ParamType::Any) == ShapeV::Any);
        r
    } else if i == 7 {
        let r = ParamType::List(Box::new(ParamType::Any));
        assert(shape(ParamType::Any) == ShapeV::Any);
        r
    } else if i == 8 {
        ParamType::Any
    } else if i == 9 {
        let r = ParamType::List(Box::new(ParamType::Any));
        assert(shape(ParamType::Any) == ShapeV::Any);
        r
    } else if i == 10 {
        ParamType::Any
    } else if i == 11 {
        ParamType::Text
    } else if i == 12 {
        let r = ParamType::List(Box::new(ParamType::Text));
        assert(shape(ParamType::Text) == ShapeV::Text);
        r
    } else if i == 13 {
        Position::wire_type()
    } else if i == 14 {
        ParamType::Any
    } else if i == 15 {
        ParamType::Any
    } else if i == 16 {
        let r = ParamType::List(Box::new(ParamType::Any));
        assert(shape(ParamType::Any) == ShapeV::Any);
        r
    } else if i == 17 {
        ParamType::Any
    } else if i == 18 {
        EditMode::wire_type()
    } else if i == 19 {
        ParamType::Text
    } else if i == 20 {
        ParamType::Text
    } else if i == 21 {
        let r = ParamType::List(Box::new(ParamType::Any));
        assert(shape(ParamType::Any) == ShapeV::Any);
        r
    } else if i == 22 {
        ParamType::Any
    } else if i == 23 {
        ParamType::Any
    } else if i == 24 {
        let r = ParamType::List(Box::new(ParamType::Any));
        assert(shape(ParamType::Any) == ShapeV::Any);
        r
    } else if i == 25 {
        ParamType::Any
    } else if i == 26 {
        let r = ParamType::List(Box::new(ParamType::Any));
        assert(shape(ParamType::Any) == ShapeV::Any);
        r
    } else if i == 27 {
        let r = ParamType::List(Box::new(ParamType::Any));
        assert(shape(ParamType::Any) == ShapeV::Any);
        r
    } else if i == 28 {
        ParamType::Any
    } else if i == 29 {
        ParamType::Any
    } else if i == 30 {
        let r = ParamType::List(Box::new(ParamType::Any));
        assert(shape(ParamType::Any) == ShapeV::Any);
        r
    } else if i == 31 {
        ParamType::Any
    } else if i == 32 {
        let r = ParamType::List(Box::new(ParamType::Any));
        assert(shape(ParamType::Any) == ShapeV::Any);
        r
    } else if i == 33 {
        ParamType::Any
    } else if i == 34 {
        let r = ParamType::List(Box::new(ParamType::Any));
        assert(shape(ParamType::Any) == ShapeV::Any);
        r
    } else if i == 35 {
        let r = ParamType::List(Box::new(ParamType::Any));
        assert(shape(ParamType::Any) == ShapeV::Any);
        r
    } else if i == 36 {
        ParamType::Any
    } else if i == 37 {
        let r = ParamType::List(Box::new(ParamType::Any));
        assert(shape(ParamType::Any) == ShapeV::Any);
        r
    } else if i == 38 {
        let r = ParamType::List(Box::new(ParamType::Any));
        assert(shape(ParamType::Any) == ShapeV::Any);
        r
    } else if i == 39 {
        ParamType::Any
    } else if i == 40 {
        let r = ParamType::List(Box::new(ParamType::Any));
        assert(shape(ParamType::Any) == ShapeV::Any);
        r
    } else if i == 41 {
        ParamType::Any
    } else if i == 42 {
        let r = ParamType::List(Box::new(ParamType::Any));
        assert(shape(ParamType::Any) == ShapeV::Any);
        r
    } else if i == 43 {
        ParamType::Any
    } else if i == 44 {
        let r = ParamType::List(Box::new(ParamType::Any));
        assert(shape(ParamType::Any) == ShapeV::Any);
        r
    } else if i == 45 {
        let r = ParamType::List(Box::new(ParamType::Any));
        assert(shape(ParamType::Any) == ShapeV::Any);
        r
    } else if i == 46 {
        ParamType::Any
    } else {
        let r = ParamType::List(Box::new(ParamType::Any));
        assert(shape(ParamType::Any) == ShapeV::Any);
        r
    }
}

/// Whether `r` is the query row at `i`, field by field.
pub open spec fn is_query_row(r: QuerySpec, i: nat) -> bool {
    &&& r.name@ == spec_query_row_name(i)
    &&& r.domain@ == spec_query_row_domain(i)
    &&& r.doc@ == spec_query_row_doc(i)
    &&& r.since.phase == spec_query_row_phase(i)
    &&& r.since.task@ == spec_query_row_task(i)
    &&& shape_fields(r.params@) == spec_query_row_fields(i)
    &&& shape(r.returns) == spec_query_row_returns(i)
}

/// The registry row at `i`.
fn query_row(i: usize) -> (r: QuerySpec)
    requires
        i < spec_query_count(),
    ensures
        is_query_row(r, i as nat),
{
    QuerySpec {
        name: query_row_name(i),
        domain: query_row_domain(i),
        doc: query_row_doc(i),
        since: Since { phase: query_row_phase(i), task: query_row_task(i) },
        params: query_row_params(i),
        returns: query_row_returns(i),
    }
}

/// Every Query's registry row, in declaration order.
pub fn queries() -> (r: Vec<QuerySpec>)
    ensures
        r.len() == spec_query_count(),
        forall|i: int| 0 <= i < r.len() ==> is_query_row(#[trigger] r[i], i as nat),
{
    let mut out: Vec<QuerySpec> = Vec::new();
    let mut i: usize = 0;
    while i < 48
        invariant
            i <= spec_query_count(),
            out.len() == i,
            forall|j: int| 0 <= j < i ==> is_query_row(#[trigger] out[j], j as nat),
        decreases 48 - i,
    {
        out.push(query_row(i));
        i = i + 1;
    }
    out
}

impl Query {
    fn index(&self) -> (r: usize)
        ensures
            r == spec_query_index(*self),
            r < spec_query_count(),
    {
        match self {
            Query::Region(RegionQuery::Regions { .. }) => 0,
            Query::Region(RegionQuery::UnseenRegions { .. }) => 1,
            Query::Region(RegionQuery::Region { .. }) => 2,
            Query::Region(RegionQuery::UnseenCount { .. }) => 3,
            Query::Region(RegionQuery::SeenCount { .. }) => 4,
            Query::Region(RegionQuery::NextRegionBy { .. }) => 5,
            Query::Region(RegionQuery::BlockRegions { .. }) => 6,
            Query::Region(RegionQuery::Anchors { .. }) => 7,
            Query::Region(RegionQuery::Anchor { .. }) => 8,
            Query::Buffer(BufferQuery::Buffers { .. }) => 9,
            Query::Buffer(BufferQuery::Buffer { .. }) => 10,
            Query::Buffer(BufferQuery::BufferText { .. }) => 11,
            Query::Buffer(BufferQuery::BufferLines { .. }) => 12,
            Query::Buffer(BufferQuery::Cursor { .. }) => 13,
            Query::Buffer(BufferQuery::Selection { .. }) => 14,
            Query::Buffer(BufferQuery::Viewport { .. }) => 15,
            Query::Buffer(BufferQuery::DirtyBuffers { .. }) => 16,
            Query::Buffer(BufferQuery::DiskState { .. }) => 17,
            Query::Input(InputQuery::Mode { .. }) => 18,
            Query::Input(InputQuery::PendingKeys { .. }) => 19,
            Query::Input(InputQuery::Register { .. }) => 20,
            Query::Input(InputQuery::Keymap { .. }) => 21,
            Query::Input(InputQuery::DescribeKey { .. }) => 22,
            Query::Input(InputQuery::DescribeCapability { .. }) => 23,
            Query::Input(InputQuery::Capabilities { .. }) => 24,
            Query::Ui(UiQuery::Panes { .. }) => 25,
            Query::Ui(UiQuery::Floats { .. }) => 26,
            Query::Ui(UiQuery::PickerRows { .. }) => 27,
            Query::Ui(UiQuery::Theme { .. }) => 28,
            Query::Ui(UiQuery::Options { .. }) => 29,
            Query::Ui(UiQuery::Languages { .. }) => 30,
            Query::Ui(UiQuery::Arch { .. }) => 31,
            Query::Review(ReviewQuery::ReviewBlocks { .. }) => 32,
            Query::Review(ReviewQuery::ReviewBlock { .. }) => 33,
            Query::Review(ReviewQuery::Hunks { .. }) => 34,
            Query::Review(ReviewQuery::Threads { .. }) => 35,
            Query::Review(ReviewQuery::Thread { .. }) => 36,
            Query::Review(ReviewQuery::Inbox { .. }) => 37,
            Query::Review(ReviewQuery::Diagnostics { .. }) => 38,
            Query::Session(SessionQuery::Session { .. }) => 39,
            Query::Session(SessionQuery::Turns { .. }) => 40,
            Query::Session(SessionQuery::Turn { .. }) => 41,
            Query::Session(SessionQuery::PendingAsks { .. }) => 42,
            Query::Session(SessionQuery::Ask { .. }) => 43,
            Query::Session(SessionQuery::Watches { .. }) => 44,
            Query::Session(SessionQuery::WatchValues { .. }) => 45,
            Query::Vcs(VcsQuery::VcsStatus { .. }) => 46,
            Query::Vcs(VcsQuery::Timeline { .. }) => 47,
        }
    }

    /// This Query's door name.
    pub fn name(&self) -> (r: &'static str)
        ensures
            r@ == spec_query_name(*self),
    {
        match self {
            Query::Region(RegionQuery::Regions { .. }) => "regions",
            Query::Region(RegionQuery::UnseenRegions { .. }) => "unseen-regions",
            Query::Region(RegionQuery::Region { .. }) => "region",
            Query::Region(RegionQuery::UnseenCount { .. }) => "unseen-count",
            Query::Region(RegionQuery::SeenCount { .. }) => "seen-count",
            Query::Region(RegionQuery::NextRegionBy { .. }) => "next-region-by",
            Query::Region(RegionQuery::BlockRegions { .. }) => "block-regions",
            Query::Region(RegionQuery::Anchors { .. }) => "anchors",
            Query::Region(RegionQuery::Anchor { .. }) => "anchor",
            Query::Buffer(BufferQuery::Buffers { .. }) => "buffers",
            Query::Buffer(BufferQuery::Buffer { .. }) => "buffer",
            Query::Buffer(BufferQuery::BufferText { .. }) => "buffer-text",
            Query::Buffer(BufferQuery::BufferLines { .. }) => "buffer-lines",
            Query::Buffer(BufferQuery::Cursor { .. }) => "cursor",
            Query::Buffer(BufferQuery::Selection { .. }) => "selection",
            Query::Buffer(BufferQuery::Viewport { .. }) => "viewport",
            Query::Buffer(BufferQuery::DirtyBuffers { .. }) => "dirty-buffers",
            Query::Buffer(BufferQuery::DiskState { .. }) => "disk-state",
            Query::Input(InputQuery::Mode { .. }) => "mode",
            Query::Input(InputQuery::PendingKeys { .. }) => "pending-keys",
            Query::Input(InputQuery::Register { .. }) => "register",
            Query::Input(InputQuery::Keymap { .. }) => "keymap",
            Query::Input(InputQuery::DescribeKey { .. }) => "describe-key",
            Query::Input(InputQuery::DescribeCapability { .. }) => "describe-capability",
            Query::Input(InputQuery::Capabilities { .. }) => "capabilities",
            Query::Ui(UiQuery::Panes { .. }) => "panes",
            Query::Ui(UiQuery::Floats { .. }) => "floats",
            Query::Ui(UiQuery::PickerRows { .. }) => "picker-rows",
            Query::Ui(UiQuery::Theme { .. }) => "theme",
            Query::Ui(UiQuery::Options { .. }) => "options",
            Query::Ui(UiQuery::Languages { .. }) => "languages",
            Query::Ui(UiQuery::Arch { .. }) => "arch",
            Query::Review(ReviewQuery::ReviewBlocks { .. }) => "review-blocks",
            Query::Review(ReviewQuery::ReviewBlock { .. }) => "review-block",
            Query::Review(ReviewQuery::Hunks { .. }) => "hunks",
            Query::Review(ReviewQuery::Threads { .. }) => "threads",
            Query::Review(ReviewQuery::Thread { .. }) => "thread",
            Query::Review(ReviewQuery::Inbox { .. }) => "inbox",
            Query::Review(ReviewQuery::Diagnostics { .. }) => "diagnostics",
            Query::Session(SessionQuery::Session { .. }) => "session",
            Query::Session(SessionQuery::Turns { .. }) => "turns",
            Query::Session(SessionQuery::Turn { .. }) => "turn",
            Query::Session(SessionQuery::PendingAsks { .. }) => "pending-asks",
            Query::Session(SessionQuery::Ask { .. }) => "ask",
            Query::Session(SessionQuery::Watches { .. }) => "watches",
            Query::Session(SessionQuery::WatchValues { .. }) => "watch-values",
            Query::Vcs(VcsQuery::VcsStatus { .. }) => "vcs-status",
            Query::Vcs(VcsQuery::Timeline { .. }) => "timeline",
        }
    }

    /// The domain this Query belongs to.
    pub fn domain(&self) -> (r: &'static str)
        ensures
            r@ == spec_query_domain(*self),
    {
        match self {
            Query::Region(_) => "region",
            Query::Buffer(_) => "buffer",
            Query::Input(_) => "input",
            Query::Ui(_) => "ui",
            Query::Review(_) => "review",
            Query::Session(_) => "session",
            Query::Vcs(_) => "vcs",
        }
    }

    /// This Query's registry row.
    pub fn spec(&self) -> (r: QuerySpec)
        ensures
            r.name@ == spec_query_name(*self),
            r.domain@ == spec_query_domain(*self),
            r.since.phase == spec_query_row_phase(spec_query_index(*self)),
            r.since.task@ == spec_query_row_task(spec_query_index(*self)),
    {
        proof {
            lemma_every_query_has_its_row(*self);
        }
        query_row(self.index())
    }

    /// Reading is always allowed over MCP: a query cannot move anything.
    pub fn mcp_policy(&self) -> (r: McpPolicy)
        ensures
            r == McpPolicy::Allow,
    {
        McpPolicy::Allow
    }
}

/// Every Query variant is declared in exactly the row that carries its door
/// name and domain.
pub proof fn lemma_every_query_has_its_row(q: Query)
    ensures
        spec_query_row_name(spec_query_index(q)) == spec_query_name(q),
        spec_query_row_domain(spec_query_index(q)) == spec_query_domain(q),
        spec_query_index(q) < spec_query_count(),
{
    match q {
        Query::Region(x) => match x {
            RegionQuery::Regions { .. } => {},
            RegionQuery::UnseenRegions { .. } => {},
            RegionQuery::Region { .. } => {},
            RegionQuery::UnseenCount { .. } => {},
            RegionQuery::SeenCount { .. } => {},
            RegionQuery::NextRegionBy { .. } => {},
            RegionQuery::BlockRegions { .. } => {},
            RegionQuery::Anchors { .. } => {},
            RegionQuery::Anchor { .. } => {},
        },
        Query::Buffer(x) => match x {
            BufferQuery::Buffers { .. } => {},
            BufferQuery::Buffer { .. } => {},
            BufferQuery::BufferText { .. } => {},
            BufferQuery::BufferLines { .. } => {},
            BufferQuery::Cursor { .. } => {},
            BufferQuery::Selection { .. } => {},
            BufferQuery::Viewport { .. } => {},
            BufferQuery::DirtyBuffers { .. } => {},
            BufferQuery::DiskState { .. } => {},
        },
        Query::Input(x) => match x {
            InputQuery::Mode { .. } => {},
            InputQuery::PendingKeys { .. } => {},
            InputQuery::Register { .. } => {},
            InputQuery::Keymap { .. } => {},
            InputQuery::DescribeKey { .. } => {},
            InputQuery::DescribeCapability { .. } => {},
            InputQuery::Capabilities { .. } => {},
        },
        Query::Ui(x) => match x {
            UiQuery::Panes { .. } => {},
            UiQuery::Floats { .. } => {},
            UiQuery::PickerRows { .. } => {},
            UiQuery::Theme { .. } => {},
            UiQuery::Options { .. } => {},
            UiQuery::Languages { .. } => {},
            UiQuery::Arch { .. } => {},
        },
        Query::Review(x) => match x {
            ReviewQuery::ReviewBlocks { .. } => {},
            ReviewQuery::ReviewBlock { .. } => {},
            ReviewQuery::Hunks { .. } => {},
            ReviewQuery::Threads { .. } => {},
            ReviewQuery::Thread { .. } => {},
            ReviewQuery::Inbox { .. } => {},
            ReviewQuery::Diagnostics { .. } => {},
        },
        Query::Session(x) => match x {
            SessionQuery::Session { .. } => {},
            SessionQuery::Turns { .. } => {},
            SessionQuery::Turn { .. } => {},
            SessionQuery::PendingAsks { .. } => {},
            SessionQuery::Ask { .. } => {},
            SessionQuery::Watches { .. } => {},
            SessionQuery::WatchValues { .. } => {},
        },
        Query::Vcs(x) => match x {
            VcsQuery::VcsStatus { .. } => {},
            VcsQuery::Timeline { .. } => {},
        },
    }
}

/// Why a query could not be answered.
#[derive(Debug, PartialEq, Eq)]
pub enum QueryError {
    /// No query has that name.
    Unknown {
        /// The name that came.
        name: String,
    },
    /// An argument is missing or the wrong shape.
    Argument {
        /// The query.
        name: &'static str,
        /// What is wrong.
        source: WireError,
    },
    /// Registered, not built yet.
    NotYetImplemented {
        /// The task that builds it.
        task: &'static str,
    },
}

} // verus!