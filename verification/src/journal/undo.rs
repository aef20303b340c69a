//! The undo stream's schema: an undo tree as plain data, the records that
//! grow it, and the fold that replays them.
//!
//! [`Node`] mirrors the buffer's undo-tree node field for field, and
//! [`History::into_parts`] hands back the `(nodes, current, saved)` triple the
//! tree is rebuilt from. An open group is never persisted: [`Record::Node`] is
//! a committed node.

use vstd::prelude::*;

use crate::journal::{
    Folded,
    lemma_bool_round_trip, lemma_leb_read_bound, lemma_option_u64_round_trip, lemma_str_round_trip,
    lemma_u64_round_trip, lemma_usize_round_trip, rd_bool, rd_option_u64, rd_seq_len, rd_str, rd_u64,
    rd_usize, spec_leb, spec_option_u64_bytes, spec_str_bytes, DecodeError, Decoder, Encoder,
    FoldError, Stream,
};

verus! {

/// A node's index in [`History::nodes`].
pub type NodeId = u64;

/// The root: the text as it was before the first recorded change.
pub const ROOT: NodeId = 0;

/// A half-open character range.
#[derive(Debug, Clone, Copy, PartialEq, Eq, Structural, Default)]
pub struct CharRange {
    /// First character.
    pub start: usize,
    /// One past the last.
    pub end: usize,
}

/// Where the cursor was, and what was selected.
#[derive(Debug, Clone, Copy, PartialEq, Eq, Structural, Default)]
pub struct Caret {
    /// The cursor, as a character offset.
    pub offset: usize,
    /// The selection, if any.
    pub selection: Option<CharRange>,
}

/// One replacement: at a character offset, `removed` gave way to `inserted`.
#[derive(Debug, PartialEq, Eq, Default)]
pub struct Edit {
    /// Character offset.
    pub at: usize,
    /// The text that was there.
    pub removed: String,
    /// The text that replaced it.
    pub inserted: String,
}

/// A committed undo group: its edits in order, and the carets around it.
#[derive(Debug, PartialEq, Eq, Default)]
pub struct Change {
    /// The edits, in the order they were made.
    pub edits: Vec<Edit>,
    /// The caret before the group.
    pub before: Caret,
    /// The caret after it.
    pub after: Caret,
}

/// One node of the undo tree.
#[derive(Debug, PartialEq, Eq)]
pub struct Node {
    /// `None` only for the root.
    pub parent: Option<NodeId>,
    /// Children, oldest first.
    pub children: Vec<NodeId>,
    /// The child a redo goes to.
    pub redo_child: Option<NodeId>,
    /// What this node did; `None` only for the root.
    pub change: Option<Change>,
}

/// A record of the undo stream.
#[derive(Debug, PartialEq, Eq)]
pub enum Record {
    /// The file this history belongs to.
    Origin {
        /// Its canonical path.
        path: String,
    },
    /// The text at the root.
    Base {
        /// The whole text.
        text: String,
    },
    /// A committed node; ids arrive in order.
    Node {
        /// Its id, one past the last.
        id: NodeId,
        /// An earlier node.
        parent: NodeId,
        /// What it did.
        edits: Vec<Edit>,
        /// The caret before.
        before: Caret,
        /// The caret after.
        after: Caret,
    },
    /// Undo or redo moved the current node.
    Cursor {
        /// Where to.
        to: NodeId,
    },
    /// A node's redo pointer moved to another child.
    Redo {
        /// The node.
        node: NodeId,
        /// Its child.
        child: NodeId,
    },
    /// The buffer was saved at a node, or the save point was lost.
    Saved {
        /// The node, if any.
        node: Option<NodeId>,
    },
}

/// An [`Edit`] as values.
pub struct EditView {
    pub at: usize,
    pub removed: Seq<char>,
    pub inserted: Seq<char>,
}

/// A [`Change`] as values.
pub struct ChangeView {
    pub edits: Seq<EditView>,
    pub before: Caret,
    pub after: Caret,
}

/// A [`Node`] as values.
pub struct NodeView {
    pub parent: Option<NodeId>,
    pub children: Seq<NodeId>,
    pub redo_child: Option<NodeId>,
    pub change: Option<ChangeView>,
}

/// A [`Record`] as values.
pub enum RecordView {
    Origin { path: Seq<char> },
    Base { text: Seq<char> },
    Node { id: NodeId, parent: NodeId, edits: Seq<EditView>, before: Caret, after: Caret },
    Cursor { to: NodeId },
    Redo { node: NodeId, child: NodeId },
    Saved { node: Option<NodeId> },
}

/// A [`History`] as values.
pub struct HistoryView {
    pub origin: Option<Seq<char>>,
    pub base: Option<Seq<char>>,
    pub nodes: Seq<NodeView>,
    pub current: NodeId,
    pub saved: Option<NodeId>,
}

impl View for Edit {
    type V = EditView;

    open spec fn view(&self) -> EditView {
        EditView { at: self.at, removed: self.removed@, inserted: self.inserted@ }
    }
}

/// The values of a list of edits.
pub open spec fn edits_view(edits: Seq<Edit>) -> Seq<EditView> {
    edits.map_values(|e: Edit| e@)
}

impl View for Change {
    type V = ChangeView;

    open spec fn view(&self) -> ChangeView {
        ChangeView { edits: edits_view(self.edits@), before: self.before, after: self.after }
    }
}

impl View for Node {
    type V = NodeView;

    open spec fn view(&self) -> NodeView {
        NodeView {
            parent: self.parent,
            children: self.children@,
            redo_child: self.redo_child,
            change: match self.change {
                Some(c) => Some(c@),
                None => None,
            },
        }
    }
}

/// The values of a list of nodes.
pub open spec fn nodes_view(nodes: Seq<Node>) -> Seq<NodeView> {
    nodes.map_values(|n: Node| n@)
}

impl View for Record {
    type V = RecordView;

    open spec fn view(&self) -> RecordView {
        match self {
            Record::Origin { path } => RecordView::Origin { path: path@ },
            Record::Base { text } => RecordView::Base { text: text@ },
            Record::Node { id, parent, edits, before, after } => RecordView::Node {
                id: *id,
                parent: *parent,
                edits: edits_view(edits@),
                before: *before,
                after: *after,
            },
            Record::Cursor { to } => RecordView::Cursor { to: *to },
            Record::Redo { node, child } => RecordView::Redo { node: *node, child: *child },
            Record::Saved { node } => RecordView::Saved { node: *node },
        }
    }
}

impl Clone for Edit {
    fn clone(&self) -> (r: Self)
        ensures
            r == *self,
    {
        Edit { at: self.at, removed: self.removed.clone(), inserted: self.inserted.clone() }
    }
}

/// A copy of `edits`, value for value.
pub fn clone_edits(edits: &Vec<Edit>) -> (r: Vec<Edit>)
    ensures
        r@ == edits@,
{
    let mut out: Vec<Edit> = Vec::new();
    let mut i: usize = 0;
    while i < edits.len()
        invariant
            i <= edits.len(),
            out@ == edits@.take(i as int),
        decreases edits.len() - i,
    {
        out.push(edits[i].clone());
        i = i + 1;
        assert(out@ =~= edits@.take(i as int));
    }
    assert(edits@.take(i as int) =~= edits@);
    out
}

// ---------------------------------------------------------------------------
// The tree's shape
// ---------------------------------------------------------------------------

/// Node `k`'s children are exactly the later nodes whose parent it is, in id
/// order.
pub open spec fn children_exact(nodes: Seq<NodeView>, k: int) -> bool {
    let ch = nodes[k].children;
    &&& forall|j: int| 0 <= j < ch.len() ==> 0 < #[trigger] ch[j] < nodes.len() && nodes[ch[j] as int].parent == Some(k as NodeId)
    &&& forall|i: int, j: int| 0 <= i < j < ch.len() ==> #[trigger] ch[i] < #[trigger] ch[j]
    &&& forall|c: int| 0 < c < nodes.len() && #[trigger] nodes[c].parent == Some(k as NodeId) ==> ch.contains(c as NodeId)
}

/// The invariant every history the fold builds keeps: a tree rooted at node
/// `0`, each node's parent earlier than it, children lists exact and in
/// order, redo pointers pointing at children, and the cursor and save point
/// on real nodes.
pub open spec fn tree_wf(h: HistoryView) -> bool {
    let nodes = h.nodes;
    &&& 1 <= nodes.len()
    &&& nodes[0].parent is None
    &&& nodes[0].change is None
    &&& forall|k: int| 0 < k < nodes.len() ==> (#[trigger] nodes[k].parent matches Some(p) && p < k) && nodes[k].change is Some
    &&& forall|k: int| 0 <= k < nodes.len() ==> #[trigger] children_exact(nodes, k)
    &&& forall|k: int| 0 <= k < nodes.len() ==> (#[trigger] nodes[k].redo_child matches Some(c) ==> nodes[k].children.contains(c))
    &&& forall|k: int| 0 <= k < nodes.len() ==> (#[trigger] nodes[k].children.len() > 0 ==> nodes[k].redo_child is Some)
    &&& h.current < nodes.len()
    &&& (h.saved matches Some(s) ==> s < nodes.len())
}

/// Walking from node `at` up to the root, pointing every parent's redo at the
/// child the walk came from.
pub open spec fn spec_walk(nodes: Seq<NodeView>, at: int) -> Seq<NodeView>
    decreases at,
{
    if 0 <= at < nodes.len() {
        match nodes[at].parent {
            Some(p) => if 0 <= p < at {
                spec_walk(nodes.update(p as int, NodeView { redo_child: Some(at as NodeId), ..nodes[p as int] }), p as int)
            } else {
                nodes
            },
            None => nodes,
        }
    } else {
        nodes
    }
}

/// What a record does to a history, or why the fold refuses it.
pub open spec fn spec_apply(h: HistoryView, r: RecordView) -> Result<HistoryView, FoldError> {
    let n = h.nodes.len();
    match r {
        RecordView::Origin { path } => match h.origin {
            Some(existing) => if existing != path {
                Err(FoldError::WrongOrigin)
            } else {
                Ok(HistoryView { origin: Some(path), ..h })
            },
            None => Ok(HistoryView { origin: Some(path), ..h }),
        },
        RecordView::Base { text } => Ok(HistoryView { base: Some(text), ..h }),
        RecordView::Node { id, parent, edits, before, after } => if id != n {
            Err(FoldError::OutOfOrder { found: id, expected: n as u64 })
        } else if parent >= id {
            Err(FoldError::BadParent { id, parent })
        } else {
            let p = h.nodes[parent as int];
            let nodes = h.nodes.update(
                parent as int,
                NodeView { children: p.children.push(id), redo_child: Some(id), ..p },
            ).push(
                NodeView {
                    parent: Some(parent),
                    children: Seq::empty(),
                    redo_child: None,
                    change: Some(ChangeView { edits, before, after }),
                },
            );
            Ok(HistoryView { nodes, current: id, ..h })
        },
        RecordView::Cursor { to } => if to >= n {
            Err(FoldError::UnknownNode { id: to })
        } else {
            Ok(HistoryView { nodes: spec_walk(h.nodes, to as int), current: to, ..h })
        },
        RecordView::Redo { node, child } => if node >= n {
            Err(FoldError::UnknownNode { id: node })
        } else if !h.nodes[node as int].children.contains(child) {
            Err(FoldError::BadRedoChild { id: node, child })
        } else {
            let p = h.nodes[node as int];
            Ok(HistoryView { nodes: h.nodes.update(node as int, NodeView { redo_child: Some(child), ..p }), ..h })
        },
        RecordView::Saved { node } => match node {
            Some(id) => if id >= n {
                Err(FoldError::UnknownNode { id })
            } else {
                Ok(HistoryView { saved: node, ..h })
            },
            None => Ok(HistoryView { saved: node, ..h }),
        },
    }
}

/// Folding records one after another, stopping at the first refusal.
pub open spec fn spec_fold(h: HistoryView, records: Seq<RecordView>) -> Result<HistoryView, FoldError>
    decreases records.len(),
{
    if records.len() == 0 {
        Ok(h)
    } else {
        match spec_fold(h, records.drop_last()) {
            Ok(g) => spec_apply(g, records.last()),
            Err(e) => Err(e),
        }
    }
}

/// The history a journal starts from: the root alone, current and saved.
pub open spec fn spec_fresh() -> HistoryView {
    HistoryView {
        origin: None,
        base: None,
        nodes: seq![NodeView { parent: None, children: Seq::empty(), redo_child: None, change: None }],
        current: ROOT,
        saved: Some(ROOT),
    }
}

/// An undo tree as plain data, plus the two facts about the file that are
/// not in the tree: which file, and its text at the root.
#[derive(Debug, PartialEq, Eq)]
pub struct History {
    origin: Option<String>,
    base: Option<String>,
    nodes: Vec<Node>,
    current: NodeId,
    saved: Option<NodeId>,
}

impl View for History {
    type V = HistoryView;

    closed spec fn view(&self) -> HistoryView {
        HistoryView {
            origin: match self.origin {
                Some(s) => Some(s@),
                None => None,
            },
            base: match self.base {
                Some(s) => Some(s@),
                None => None,
            },
            nodes: nodes_view(self.nodes@),
            current: self.current,
            saved: self.saved,
        }
    }
}

impl History {
    /// The root alone: nothing recorded, saved at the root.
    pub fn new() -> (r: History)
        ensures
            r@ == spec_fresh(),
            tree_wf(r@),
    {
        let root = Node { parent: None, children: Vec::new(), redo_child: None, change: None };
        let mut nodes: Vec<Node> = Vec::new();
        nodes.push(root);
        let h = History { origin: None, base: None, nodes, current: ROOT, saved: Some(ROOT) };
        assert(h@.nodes =~= spec_fresh().nodes);
        h
    }

    /// The file this history belongs to.
    pub fn origin(&self) -> (r: Option<&str>)
        ensures
            match self@.origin {
                Some(s) => r matches Some(t) && t@ == s,
                None => r is None,
            },
    {
        match &self.origin {
            Some(s) => Some(s.as_str()),
            None => None,
        }
    }

    /// The text at the root, when one has been recorded.
    pub fn base(&self) -> (r: Option<&str>)
        ensures
            match self@.base {
                Some(s) => r matches Some(t) && t@ == s,
                None => r is None,
            },
    {
        match &self.base {
            Some(s) => Some(s.as_str()),
            None => None,
        }
    }

    /// The tree; index `0` is the root.
    pub fn nodes(&self) -> (r: &[Node])
        ensures
            nodes_view(r@) == self@.nodes,
    {
        self.nodes.as_slice()
    }

    /// The node the buffer is at.
    pub fn current(&self) -> (r: NodeId)
        ensures
            r == self@.current,
    {
        self.current
    }

    /// The node last saved at, if that is still in the tree.
    pub fn saved(&self) -> (r: Option<NodeId>)
        ensures
            r == self@.saved,
    {
        self.saved
    }

    /// `(nodes, current, saved)`: what the buffer's undo tree is rebuilt from.
    pub fn into_parts(self) -> (r: (Vec<Node>, NodeId, Option<NodeId>))
        ensures
            nodes_view(r.0@) == self@.nodes,
            r.1 == self@.current,
            r.2 == self@.saved,
    {
        (self.nodes, self.current, self.saved)
    }
}

/// Whether `v` holds `x`.
fn contains_id(v: &Vec<NodeId>, x: NodeId) -> (r: bool)
    ensures
        r == v@.contains(x),
{
    let mut i: usize = 0;
    while i < v.len()
        invariant
            i <= v.len(),
            forall|j: int| 0 <= j < i ==> v@[j] != x,
        decreases v.len() - i,
    {
        if v[i] == x {
            return true;
        }
        i = i + 1;
    }
    false
}

/// `a` and `b` are the same tree but for where the redo pointers point.
pub open spec fn same_shape(a: Seq<NodeView>, b: Seq<NodeView>) -> bool {
    &&& a.len() == b.len()
    &&& forall|k: int| 0 <= k < a.len() ==> (#[trigger] b[k]).parent == a[k].parent && b[k].children == a[k].children
        && b[k].change == a[k].change
}

/// Redo pointers that point at children, and a pointer wherever there are
/// children.
pub open spec fn redo_ok(nodes: Seq<NodeView>) -> bool {
    &&& forall|k: int| 0 <= k < nodes.len() ==> (#[trigger] nodes[k].redo_child matches Some(c) ==> nodes[k].children.contains(c))
    &&& forall|k: int| 0 <= k < nodes.len() ==> (#[trigger] nodes[k].children.len() > 0 ==> nodes[k].redo_child is Some)
}

proof fn lemma_shape_wf(h: HistoryView, nodes: Seq<NodeView>)
    requires
        tree_wf(h),
        same_shape(h.nodes, nodes),
        redo_ok(nodes),
    ensures
        tree_wf(HistoryView { nodes, ..h }),
{
    let g = HistoryView { nodes, ..h };
    assert forall|k: int| 0 < k < nodes.len() implies (#[trigger] nodes[k].parent matches Some(p) && p < k) && nodes[k].change is Some by {
        assert(h.nodes[k].parent == nodes[k].parent);
    }
    assert forall|k: int| 0 <= k < nodes.len() implies #[trigger] children_exact(nodes, k) by {
        assert(children_exact(h.nodes, k));
        assert(nodes[k].children == h.nodes[k].children);
        let ch = nodes[k].children;
        assert forall|j: int| 0 <= j < ch.len() implies 0 < #[trigger] ch[j] < nodes.len() && nodes[ch[j] as int].parent == Some(k as NodeId) by {
            assert(h.nodes[ch[j] as int].parent == nodes[ch[j] as int].parent);
        }
        assert forall|c: int| 0 < c < nodes.len() && #[trigger] nodes[c].parent == Some(k as NodeId) implies ch.contains(c as NodeId) by {
            assert(h.nodes[c].parent == nodes[c].parent);
        }
    }
}

/// Walking keeps the shape and leaves every redo pointer on a child.
pub proof fn lemma_walk(h: HistoryView, nodes: Seq<NodeView>, at: int)
    requires
        tree_wf(h),
        same_shape(h.nodes, nodes),
        redo_ok(nodes),
        0 <= at < nodes.len(),
    ensures
        same_shape(h.nodes, spec_walk(nodes, at)),
        redo_ok(spec_walk(nodes, at)),
    decreases at,
{
    match nodes[at].parent {
        Some(p) => {
            if 0 <= p < at {
                assert(h.nodes[at].parent == nodes[at].parent);
                assert(children_exact(h.nodes, p as int));
                assert(h.nodes[p as int].children.contains(at as NodeId));
                let next = nodes.update(p as int, NodeView { redo_child: Some(at as NodeId), ..nodes[p as int] });
                assert forall|k: int| 0 <= k < next.len() implies (#[trigger] next[k].redo_child matches Some(c) ==> next[k].children.contains(c)) by {
                    if k != p {
                        assert(next[k] == nodes[k]);
                    }
                }
                assert forall|k: int| 0 <= k < next.len() implies (#[trigger] next[k].children.len() > 0 ==> next[k].redo_child is Some) by {
                    if k != p {
                        assert(next[k] == nodes[k]);
                    }
                }
                lemma_walk(h, next, p as int);
            }
        },
        None => {},
    }
}

/// Every record the fold accepts leaves the history well formed.
pub proof fn lemma_apply_wf(h: HistoryView, r: RecordView)
    requires
        tree_wf(h),
    ensures
        spec_apply(h, r) matches Ok(g) ==> tree_wf(g),
{
    match r {
        RecordView::Node { id, parent, edits, before, after } => {
            if spec_apply(h, r) is Ok {
                let g = spec_apply(h, r)->Ok_0;
                let n = h.nodes.len() as int;
                let nodes = g.nodes;
                assert(nodes.len() == n + 1);
                assert forall|k: int| 0 < k < nodes.len() implies (#[trigger] nodes[k].parent matches Some(p) && p < k) && nodes[k].change is Some by {
                    if k < n {
                        assert(nodes[k].parent == h.nodes[k].parent);
                    }
                }
                assert forall|k: int| 0 <= k < nodes.len() implies #[trigger] children_exact(nodes, k) by {
                    let ch = nodes[k].children;
                    if k == n {
                        assert forall|c: int| 0 < c < nodes.len() && #[trigger] nodes[c].parent == Some(k as NodeId) implies ch.contains(c as NodeId) by {
                            if c < n {
                                assert(nodes[c].parent == h.nodes[c].parent);
                            }
                        }
                    } else {
                        assert(children_exact(h.nodes, k));
                        let old_ch = h.nodes[k].children;
                        assert forall|j: int| 0 <= j < ch.len() implies 0 < #[trigger] ch[j] < nodes.len() && nodes[ch[j] as int].parent == Some(k as NodeId) by {
                            if j < old_ch.len() {
                                assert(ch[j] == old_ch[j]);
                                assert(nodes[ch[j] as int].parent == h.nodes[ch[j] as int].parent);
                            }
                        }
                        assert forall|i: int, j: int| 0 <= i < j < ch.len() implies #[trigger] ch[i] < #[trigger] ch[j] by {
                            if j < old_ch.len() {
                                assert(ch[i] == old_ch[i]);
                                assert(ch[j] == old_ch[j]);
                            } else {
                                assert(ch[i] == old_ch[i]);
                            }
                        }
                        assert forall|c: int| 0 < c < nodes.len() && #[trigger] nodes[c].parent == Some(k as NodeId) implies ch.contains(c as NodeId) by {
                            if c < n {
                                assert(nodes[c].parent == h.nodes[c].parent);
                                assert(old_ch.contains(c as NodeId));
                                let w = choose|w: int| 0 <= w < old_ch.len() && old_ch[w] == c as NodeId;
                                assert(ch[w] == old_ch[w]);
                            } else {
                                assert(ch[ch.len() - 1] == id);
                            }
                        }
                    }
                }
                assert forall|k: int| 0 <= k < nodes.len() implies (#[trigger] nodes[k].redo_child matches Some(c) ==> nodes[k].children.contains(c)) by {
                    if k == parent {
                        assert(nodes[k].children[nodes[k].children.len() - 1] == id);
                    } else if k < n {
                        let old_ch = h.nodes[k].children;
                        if nodes[k].redo_child is Some {
                            assert(old_ch.contains(nodes[k].redo_child->0));
                        }
                    }
                }
                assert forall|k: int| 0 <= k < nodes.len() implies (#[trigger] nodes[k].children.len() > 0 ==> nodes[k].redo_child is Some) by {
                    if k < n && k != parent {
                        assert(nodes[k] == h.nodes[k]);
                    }
                }
                assert(1 <= nodes.len());
                assert(nodes[0].parent is None);
                assert(nodes[0].change is None);
                assert(g.current < nodes.len());
                assert(g.saved matches Some(s) ==> s < nodes.len());
            }
        },
        RecordView::Cursor { to } => {
            if to < h.nodes.len() {
                lemma_walk(h, h.nodes, to as int);
                lemma_shape_wf(h, spec_walk(h.nodes, to as int));
            }
        },
        RecordView::Redo { node, child } => {
            if spec_apply(h, r) is Ok {
                let nodes = spec_apply(h, r)->Ok_0.nodes;
                assert forall|k: int| 0 <= k < nodes.len() implies (#[trigger] nodes[k].redo_child matches Some(c) ==> nodes[k].children.contains(c)) by {
                    if k != node {
                        assert(nodes[k] == h.nodes[k]);
                    }
                }
                assert forall|k: int| 0 <= k < nodes.len() implies (#[trigger] nodes[k].children.len() > 0 ==> nodes[k].redo_child is Some) by {
                    if k != node {
                        assert(nodes[k] == h.nodes[k]);
                    }
                }
                lemma_shape_wf(h, nodes);
            }
        },
        _ => {},
    }
}

impl History {
    fn walk_to(&mut self, to: usize)
        requires
            tree_wf(old(self)@),
            to < old(self)@.nodes.len(),
        ensures
            final(self)@ == (HistoryView { nodes: spec_walk(old(self)@.nodes, to as int), current: to as NodeId, ..old(self)@ }),
    {
        let ghost h = self@;
        let mut at = to;
        proof {
            assert(same_shape(h.nodes, h.nodes));
        }
        loop
            invariant
                tree_wf(h),
                h == old(self)@,
                self.origin == old(self).origin,
                self.base == old(self).base,
                self.current == old(self).current,
                self.saved == old(self).saved,
                at < self.nodes@.len(),
                same_shape(h.nodes, nodes_view(self.nodes@)),
                spec_walk(h.nodes, to as int) == spec_walk(nodes_view(self.nodes@), at as int),
            ensures
                self.nodes@.len() == h.nodes.len(),
                nodes_view(self.nodes@) == spec_walk(h.nodes, to as int),
                self.origin == old(self).origin,
                self.base == old(self).base,
                self.saved == old(self).saved,
            decreases at,
        {
            let ghost before = nodes_view(self.nodes@);
            assert(before[at as int] == self.nodes@[at as int]@);
            match self.nodes[at].parent {
                Some(p) => {
                    assert(h.nodes[at as int].parent == before[at as int].parent);
                    let pi = p as usize;
                    self.nodes[pi].redo_child = Some(at as NodeId);
                    proof {
                        let next = before.update(pi as int, NodeView { redo_child: Some(at as NodeId), ..before[pi as int] });
                        assert(nodes_view(self.nodes@) =~= next);
                    }
                    at = pi;
                },
                None => {
                    break;
                },
            }
        }
        self.current = to as NodeId;
    }

    /// Applies one record, or says why it does not fit this history; a
    /// refused record changes nothing.
    fn apply_record(&mut self, record: Record) -> (r: Result<(), FoldError>)
        requires
            tree_wf(old(self)@),
        ensures
            tree_wf(final(self)@),
            match spec_apply(old(self)@, record@) {
                Ok(g) => r is Ok && final(self)@ == g,
                Err(e) => r == Err::<(), FoldError>(e) && final(self)@ == old(self)@,
            },
    {
        proof {
            lemma_apply_wf(self@, record@);
        }
        let ghost h = self@;
        match record {
            Record::Origin { path } => {
                match &self.origin {
                    Some(existing) => {
                        if !(*existing == path) {
                            return Err(FoldError::WrongOrigin);
                        }
                    },
                    None => {},
                }
                self.origin = Some(path);
            },
            Record::Base { text } => {
                self.base = Some(text);
            },
            Record::Node { id, parent, edits, before, after } => {
                let expected = self.nodes.len() as u64;
                if id != expected {
                    return Err(FoldError::OutOfOrder { found: id, expected });
                }
                if parent >= id {
                    return Err(FoldError::BadParent { id, parent });
                }
                let index = parent as usize;
                self.nodes[index].children.push(id);
                self.nodes[index].redo_child = Some(id);
                let ghost mid = nodes_view(self.nodes@);
                let ghost change = ChangeView { edits: edits_view(edits@), before, after };
                self.nodes.push(
                    Node {
                        parent: Some(parent),
                        children: Vec::new(),
                        redo_child: None,
                        change: Some(Change { edits, before, after }),
                    },
                );
                self.current = id;
                proof {
                    let p = h.nodes[index as int];
                    let want = h.nodes.update(
                        index as int,
                        NodeView { children: p.children.push(id), redo_child: Some(id), ..p },
                    ).push(
                        NodeView {
                            parent: Some(parent),
                            children: Seq::empty(),
                            redo_child: None,
                            change: Some(change),
                        },
                    );
                    assert(nodes_view(self.nodes@) =~= want);
                }
            },
            Record::Cursor { to } => {
                if to >= self.nodes.len() as u64 {
                    return Err(FoldError::UnknownNode { id: to });
                }
                self.walk_to(to as usize);
            },
            Record::Redo { node, child } => {
                if node >= self.nodes.len() as u64 {
                    return Err(FoldError::UnknownNode { id: node });
                }
                let index = node as usize;
                if !contains_id(&self.nodes[index].children, child) {
                    return Err(FoldError::BadRedoChild { id: node, child });
                }
                self.nodes[index].redo_child = Some(child);
                proof {
                    let p = h.nodes[index as int];
                    assert(nodes_view(self.nodes@) =~= h.nodes.update(index as int, NodeView { redo_child: Some(child), ..p }));
                }
            },
            Record::Saved { node } => {
                match node {
                    Some(id) => {
                        if id >= self.nodes.len() as u64 {
                            return Err(FoldError::UnknownNode { id });
                        }
                    },
                    None => {},
                }
                self.saved = node;
            },
        }
        Ok(())
    }
}

// ---------------------------------------------------------------------------
// The record codec
// ---------------------------------------------------------------------------

/// The tag each record kind is written with.
pub open spec fn record_tag(r: RecordView) -> u64 {
    match r {
        RecordView::Origin { .. } => 1,
        RecordView::Base { .. } => 2,
        RecordView::Node { .. } => 3,
        RecordView::Cursor { .. } => 4,
        RecordView::Redo { .. } => 5,
        RecordView::Saved { .. } => 6,
    }
}

/// A boolean's byte.
pub open spec fn bool_byte(b: bool) -> Seq<u8> {
    seq![if b { 1u8 } else { 0u8 }]
}

/// A caret's bytes: the offset, then the selection as a flag and its ends.
pub open spec fn caret_bytes(c: Caret) -> Seq<u8> {
    spec_leb(c.offset as nat) + match c.selection {
        Some(range) => bool_byte(true) + spec_leb(range.start as nat) + spec_leb(range.end as nat),
        None => bool_byte(false),
    }
}

/// An edit's bytes: where, what went, what came.
pub open spec fn edit_bytes(e: EditView) -> Seq<u8> {
    spec_leb(e.at as nat) + spec_str_bytes(e.removed) + spec_str_bytes(e.inserted)
}

/// A run of edits' bytes, back to back.
pub open spec fn edits_bytes(es: Seq<EditView>) -> Seq<u8>
    decreases es.len(),
{
    if es.len() == 0 {
        Seq::empty()
    } else {
        edits_bytes(es.drop_last()) + edit_bytes(es.last())
    }
}

/// A record's bytes: its tag, then its fields in declaration order.
pub open spec fn record_bytes(r: RecordView) -> Seq<u8> {
    spec_leb(record_tag(r) as nat) + match r {
        RecordView::Origin { path } => spec_str_bytes(path),
        RecordView::Base { text } => spec_str_bytes(text),
        RecordView::Node { id, parent, edits, before, after } => spec_leb(id as nat) + (spec_leb(parent as nat)
            + (spec_leb(edits.len()) + (edits_bytes(edits) + (caret_bytes(before) + caret_bytes(after))))),
        RecordView::Cursor { to } => spec_leb(to as nat),
        RecordView::Redo { node, child } => spec_leb(node as nat) + spec_leb(child as nat),
        RecordView::Saved { node } => spec_option_u64_bytes(node),
    }
}

/// Reading a caret.
pub open spec fn rd_caret(b: Seq<u8>, at: int) -> Result<(Caret, int), DecodeError> {
    match rd_usize(b, at) {
        Ok((offset, p)) => match rd_bool(b, p) {
            Ok((present, q)) => if present {
                match rd_usize(b, q) {
                    Ok((start, x)) => match rd_usize(b, x) {
                        Ok((end, y)) => Ok((Caret { offset, selection: Some(CharRange { start, end }) }, y)),
                        Err(e) => Err(e),
                    },
                    Err(e) => Err(e),
                }
            } else {
                Ok((Caret { offset, selection: None }, q))
            },
            Err(e) => Err(e),
        },
        Err(e) => Err(e),
    }
}

/// Reading an edit.
pub open spec fn rd_edit(b: Seq<u8>, at: int) -> Result<(EditView, int), DecodeError> {
    match rd_usize(b, at) {
        Ok((pos, p)) => match rd_str(b, p) {
            Ok((removed, q)) => match rd_str(b, q) {
                Ok((inserted, x)) => Ok((EditView { at: pos, removed, inserted }, x)),
                Err(e) => Err(e),
            },
            Err(e) => Err(e),
        },
        Err(e) => Err(e),
    }
}

/// Reading `n` edits one after another.
pub open spec fn rd_edits(b: Seq<u8>, at: int, n: nat) -> Result<(Seq<EditView>, int), DecodeError>
    decreases n,
{
    if n == 0 {
        Ok((Seq::empty(), at))
    } else {
        match rd_edits(b, at, (n - 1) as nat) {
            Ok((es, p)) => match rd_edit(b, p) {
                Ok((e, q)) => Ok((es.push(e), q)),
                Err(x) => Err(x),
            },
            Err(x) => Err(x),
        }
    }
}

/// Reading a record's fields once its tag is known.
pub open spec fn rd_body(b: Seq<u8>, tag: u64, at: int) -> Result<(RecordView, int), DecodeError> {
    if tag == 1 {
        match rd_str(b, at) {
            Ok((path, p)) => Ok((RecordView::Origin { path }, p)),
            Err(e) => Err(e),
        }
    } else if tag == 2 {
        match rd_str(b, at) {
            Ok((text, p)) => Ok((RecordView::Base { text }, p)),
            Err(e) => Err(e),
        }
    } else if tag == 3 {
        match rd_u64(b, at) {
            Ok((id, p1)) => match rd_u64(b, p1) {
                Ok((parent, p2)) => match rd_seq_len(b, p2) {
                    Ok((count, p3)) => match rd_edits(b, p3, count as nat) {
                        Ok((edits, p4)) => match rd_caret(b, p4) {
                            Ok((before, p5)) => match rd_caret(b, p5) {
                                Ok((after, p6)) => Ok((RecordView::Node { id, parent, edits, before, after }, p6)),
                                Err(e) => Err(e),
                            },
                            Err(e) => Err(e),
                        },
                        Err(e) => Err(e),
                    },
                    Err(e) => Err(e),
                },
                Err(e) => Err(e),
            },
            Err(e) => Err(e),
        }
    } else if tag == 4 {
        match rd_u64(b, at) {
            Ok((to, p)) => Ok((RecordView::Cursor { to }, p)),
            Err(e) => Err(e),
        }
    } else if tag == 5 {
        match rd_u64(b, at) {
            Ok((node, p1)) => match rd_u64(b, p1) {
                Ok((child, p2)) => Ok((RecordView::Redo { node, child }, p2)),
                Err(e) => Err(e),
            },
            Err(e) => Err(e),
        }
    } else if tag == 6 {
        match rd_option_u64(b, at) {
            Ok((node, p)) => Ok((RecordView::Saved { node }, p)),
            Err(e) => Err(e),
        }
    } else {
        Err(DecodeError::UnknownRecord { tag })
    }
}

/// Reading one whole record payload: the tag, the fields, and nothing after.
pub open spec fn spec_decode(b: Seq<u8>) -> Result<RecordView, DecodeError> {
    match rd_u64(b, 0) {
        Ok((tag, p)) => match rd_body(b, tag, p) {
            Ok((r, end)) => if end < b.len() {
                Err(DecodeError::Trailing { extra: (b.len() - end) as usize })
            } else {
                Ok(r)
            },
            Err(e) => Err(e),
        },
        Err(e) => Err(e),
    }
}

fn put_caret(out: &mut Encoder, caret: Caret)
    ensures
        final(out)@ == old(out)@ + caret_bytes(caret),
{
    let ghost start = out@;
    out.usize(caret.offset);
    match caret.selection {
        Some(range) => {
            out.bool(true);
            out.usize(range.start);
            out.usize(range.end);
        },
        None => {
            out.bool(false);
        },
    }
    assert(out@ =~= start + caret_bytes(caret));
}

fn get_caret(input: &mut Decoder<'_>) -> (r: Result<Caret, DecodeError>)
    requires
        old(input).wf(),
    ensures
        final(input).wf(),
        final(input).input() == old(input).input(),
        match rd_caret(old(input).input(), old(input).pos()) {
            Ok((c, end)) => r == Ok::<Caret, DecodeError>(c) && final(input).pos() == end,
            Err(e) => r == Err::<Caret, DecodeError>(e),
        },
{
    let offset = input.usize()?;
    let selection = if input.bool()? {
        let start = input.usize()?;
        let end = input.usize()?;
        Some(CharRange { start, end })
    } else {
        None
    };
    Ok(Caret { offset, selection })
}

fn read_edits(input: &mut Decoder<'_>, count: usize) -> (r: Result<Vec<Edit>, DecodeError>)
    requires
        old(input).wf(),
    ensures
        final(input).wf(),
        final(input).input() == old(input).input(),
        match rd_edits(old(input).input(), old(input).pos(), count as nat) {
            Ok((es, end)) => (r matches Ok(v) && edits_view(v@) == es) && final(input).pos() == end,
            Err(e) => r == Err::<Vec<Edit>, DecodeError>(e),
        },
{
    let ghost b = input.input();
    let ghost p3 = input.pos();
    let mut edits: Vec<Edit> = Vec::new();
    let mut i: usize = 0;
    assert(edits_view(edits@) =~= Seq::<EditView>::empty());
    while i < count
        invariant
            input.wf(),
            input.input() == b,
            b == old(input).input(),
            p3 == old(input).pos(),
            i <= count,
            rd_edits(b, p3, i as nat) == Ok::<(Seq<EditView>, int), DecodeError>((edits_view(edits@), input.pos())),
        decreases count - i,
    {
        let ghost before = input.pos();
        proof {
            lemma_rd_edits_err(b, p3, (i + 1) as nat, count as nat);
        }
        let at = match input.usize() {
            Ok(v) => v,
            Err(e) => {
                assert(rd_edits(b, p3, (i + 1) as nat) == Err::<(Seq<EditView>, int), DecodeError>(e));
                return Err(e);
            },
        };
        let removed = match input.str() {
            Ok(v) => v,
            Err(e) => {
                assert(rd_edits(b, p3, (i + 1) as nat) == Err::<(Seq<EditView>, int), DecodeError>(e));
                return Err(e);
            },
        };
        let inserted = match input.str() {
            Ok(v) => v,
            Err(e) => {
                assert(rd_edits(b, p3, (i + 1) as nat) == Err::<(Seq<EditView>, int), DecodeError>(e));
                return Err(e);
            },
        };
        let edit = Edit { at, removed, inserted };
        let ghost old_view = edits_view(edits@);
        assert(rd_edit(b, before) == Ok::<(EditView, int), DecodeError>((edit@, input.pos())));
        edits.push(edit);
        assert(edits_view(edits@) =~= old_view.push(edit@));
        i = i + 1;
    }
    Ok(edits)
}

fn put_node(out: &mut Encoder, id: NodeId, parent: NodeId, edits: &Vec<Edit>, before: Caret, after: Caret)
    ensures
        final(out)@ == old(out)@ + (spec_leb(id as nat) + (spec_leb(parent as nat) + (spec_leb(edits@.len())
            + (edits_bytes(edits_view(edits@)) + (caret_bytes(before) + caret_bytes(after)))))),
{
    let ghost s0 = out@;
    out.u64(id);
    let ghost s1 = out@;
    out.u64(parent);
    let ghost s2 = out@;
    out.seq_len(edits.len());
    let ghost s3 = out@;
    let mut i: usize = 0;
    while i < edits.len()
        invariant
            i <= edits.len(),
            out@ == s3 + edits_bytes(edits_view(edits@).take(i as int)),
        decreases edits.len() - i,
    {
        let edit = &edits[i];
        out.usize(edit.at);
        out.str(edit.removed.as_str());
        out.str(edit.inserted.as_str());
        proof {
            let es = edits_view(edits@);
            assert(es.take(i + 1).drop_last() =~= es.take(i as int));
            assert(es.take(i + 1).last() == edit@);
        }
        i = i + 1;
    }
    assert(edits_view(edits@).take(i as int) =~= edits_view(edits@));
    let ghost s4 = out@;
    put_caret(out, before);
    put_caret(out, after);
    proof {
        let lid = spec_leb(id as nat);
        let lpar = spec_leb(parent as nat);
        let ln = spec_leb(edits@.len());
        let eb = edits_bytes(edits_view(edits@));
        let c1 = caret_bytes(before);
        let c2 = caret_bytes(after);
        assert(edits@.len() == edits.len());
        vstd::seq_lib::lemma_concat_associative(s4, c1, c2);
        vstd::seq_lib::lemma_concat_associative(s3, eb, c1 + c2);
        vstd::seq_lib::lemma_concat_associative(s2, ln, eb + (c1 + c2));
        vstd::seq_lib::lemma_concat_associative(s1, lpar, ln + (eb + (c1 + c2)));
        vstd::seq_lib::lemma_concat_associative(s0, lid, lpar + (ln + (eb + (c1 + c2))));
    }
}

impl History {
    /// Writes a record: its tag, then its fields.
    fn encode_record(record: &Record, out: &mut Encoder)
        ensures
            final(out)@ == old(out)@ + record_bytes(record@),
    {
        let ghost start = out@;
        match record {
            Record::Origin { path } => {
                out.u64(1);
                out.str(path.as_str());
            },
            Record::Base { text } => {
                out.u64(2);
                out.str(text.as_str());
            },
            Record::Node { id, parent, edits, before, after } => {
                out.u64(3);
                put_node(out, *id, *parent, edits, *before, *after);
            },
            Record::Cursor { to } => {
                out.u64(4);
                out.u64(*to);
            },
            Record::Redo { node, child } => {
                out.u64(5);
                out.u64(*node);
                out.u64(*child);
            },
            Record::Saved { node } => {
                out.u64(6);
                out.option_u64(*node);
            },
        }
        assert(out@ =~= start + record_bytes(record@));
    }

    /// Reads one record payload; anything left over is an error.
    fn decode_record(bytes: &[u8]) -> (r: Result<Record, DecodeError>)
        ensures
            match spec_decode(bytes@) {
                Ok(v) => r matches Ok(rec) && rec@ == v,
                Err(e) => r == Err::<Record, DecodeError>(e),
            },
    {
        let mut input = Decoder::new(bytes);
        let tag = input.u64()?;
        let ghost b = bytes@;
        let ghost p = input.pos();
        let record = if tag == 1 {
            Record::Origin { path: input.str()? }
        } else if tag == 2 {
            Record::Base { text: input.str()? }
        } else if tag == 3 {
            let id = input.u64()?;
            let parent = input.u64()?;
            let count = input.seq_len()?;
            let edits = read_edits(&mut input, count)?;
            let before = get_caret(&mut input)?;
            let after = get_caret(&mut input)?;
            Record::Node { id, parent, edits, before, after }
        } else if tag == 4 {
            Record::Cursor { to: input.u64()? }
        } else if tag == 5 {
            let node = input.u64()?;
            let child = input.u64()?;
            Record::Redo { node, child }
        } else if tag == 6 {
            Record::Saved { node: input.option_u64()? }
        } else {
            return Err(DecodeError::UnknownRecord { tag });
        };
        input.finish()?;
        Ok(record)
    }
}

/// A failure reading the first `m` edits is the failure reading all `n`.
proof fn lemma_rd_edits_err(b: Seq<u8>, at: int, m: nat, n: nat)
    requires
        m <= n,
    ensures
        rd_edits(b, at, m) is Err ==> rd_edits(b, at, n) == rd_edits(b, at, m),
    decreases n,
{
    if m < n {
        lemma_rd_edits_err(b, at, m, (n - 1) as nat);
    }
}

// ---------------------------------------------------------------------------
// The codec round trip
// ---------------------------------------------------------------------------

/// Text small enough to be written: its UTF-8 length fits a `usize`.
pub open spec fn text_fits(t: Seq<char>) -> bool {
    vstd::utf8::encode_utf8(t).len() <= usize::MAX
}

/// An edit whose texts fit.
pub open spec fn edit_fits(e: EditView) -> bool {
    text_fits(e.removed) && text_fits(e.inserted)
}

/// A record every one of whose texts fits, with no more edits than a
/// `usize` counts. Every record built from this crate's types does.
pub open spec fn record_fits(r: RecordView) -> bool {
    match r {
        RecordView::Origin { path } => text_fits(path),
        RecordView::Base { text } => text_fits(text),
        RecordView::Node { edits, .. } => edits.len() <= usize::MAX && forall|i: int| 0 <= i < edits.len() ==> #[trigger] edit_fits(edits[i]),
        _ => true,
    }
}

proof fn lemma_caret_round_trip(pre: Seq<u8>, c: Caret, rest: Seq<u8>)
    ensures
        rd_caret(pre + caret_bytes(c) + rest, pre.len() as int) == Ok::<(Caret, int), DecodeError>((c, (pre.len() + caret_bytes(c).len()) as int)),
{
    let x = pre + caret_bytes(c) + rest;
    let p0 = pre + spec_leb(c.offset as nat);
    match c.selection {
        Some(range) => {
            let tail1 = spec_leb(range.start as nat) + spec_leb(range.end as nat) + rest;
            assert(x =~= pre + spec_leb(c.offset as nat) + (bool_byte(true) + tail1));
            lemma_usize_round_trip(pre, c.offset, bool_byte(true) + tail1);
            assert(x =~= p0 + bool_byte(true) + tail1);
            lemma_bool_round_trip(p0, true, tail1);
            let p1 = p0 + bool_byte(true);
            assert(x =~= p1 + spec_leb(range.start as nat) + (spec_leb(range.end as nat) + rest));
            lemma_usize_round_trip(p1, range.start, spec_leb(range.end as nat) + rest);
            let p2 = p1 + spec_leb(range.start as nat);
            assert(x =~= p2 + spec_leb(range.end as nat) + rest);
            lemma_usize_round_trip(p2, range.end, rest);
        },
        None => {
            assert(x =~= pre + spec_leb(c.offset as nat) + (bool_byte(false) + rest));
            lemma_usize_round_trip(pre, c.offset, bool_byte(false) + rest);
            assert(x =~= p0 + bool_byte(false) + rest);
            lemma_bool_round_trip(p0, false, rest);
        },
    }
}

proof fn lemma_edit_round_trip(pre: Seq<u8>, e: EditView, rest: Seq<u8>)
    requires
        edit_fits(e),
    ensures
        rd_edit(pre + edit_bytes(e) + rest, pre.len() as int) == Ok::<(EditView, int), DecodeError>((e, (pre.len() + edit_bytes(e).len()) as int)),
{
    let x = pre + edit_bytes(e) + rest;
    let tail = spec_str_bytes(e.removed) + spec_str_bytes(e.inserted) + rest;
    assert(x =~= pre + spec_leb(e.at as nat) + tail);
    lemma_usize_round_trip(pre, e.at, tail);
    let p1 = pre + spec_leb(e.at as nat);
    assert(x =~= p1 + spec_str_bytes(e.removed) + (spec_str_bytes(e.inserted) + rest));
    lemma_str_round_trip(p1, e.removed, spec_str_bytes(e.inserted) + rest);
    let p2 = p1 + spec_str_bytes(e.removed);
    assert(x =~= p2 + spec_str_bytes(e.inserted) + rest);
    lemma_str_round_trip(p2, e.inserted, rest);
}

#[verifier::spinoff_prover]
#[verifier::rlimit(30)]
proof fn lemma_edits_round_trip(pre: Seq<u8>, es: Seq<EditView>, rest: Seq<u8>)
    requires
        forall|i: int| 0 <= i < es.len() ==> #[trigger] edit_fits(es[i]),
    ensures
        rd_edits(pre + edits_bytes(es) + rest, pre.len() as int, es.len()) == Ok::<(Seq<EditView>, int), DecodeError>((es, (pre.len() + edits_bytes(es).len()) as int)),
        edits_bytes(es).len() >= es.len(),
    decreases es.len(),
{
    let x = pre + edits_bytes(es) + rest;
    if es.len() == 0 {
        assert(es =~= Seq::<EditView>::empty());
    } else {
        let front = es.drop_last();
        let last = es.last();
        assert(edit_fits(es[es.len() - 1]));
        assert forall|i: int| 0 <= i < front.len() implies #[trigger] edit_fits(front[i]) by {
            assert(front[i] == es[i]);
        }
        assert(x =~= pre + edits_bytes(front) + (edit_bytes(last) + rest));
        lemma_edits_round_trip(pre, front, edit_bytes(last) + rest);
        let p = pre + edits_bytes(front);
        assert(x =~= p + edit_bytes(last) + rest);
        lemma_edit_round_trip(p, last, rest);
        assert(front.push(last) =~= es);
        assert(spec_leb(last.at as nat).len() >= 1) by {
            reveal_with_fuel(spec_leb, 1);
        }
    }
}

#[verifier::spinoff_prover]
#[verifier::rlimit(90)]
proof fn lemma_node_round_trip(id: u64, parent: u64, edits: Seq<EditView>, before: Caret, after: Caret, rest: Seq<u8>)
    requires
        record_fits(RecordView::Node { id, parent, edits, before, after }),
    ensures
        ({
            let r = RecordView::Node { id, parent, edits, before, after };
            let x = record_bytes(r) + rest;
            &&& rd_u64(x, 0) == Ok::<(u64, int), DecodeError>((3u64, spec_leb(3).len() as int))
            &&& rd_body(x, 3, spec_leb(3).len() as int) == Ok::<(RecordView, int), DecodeError>((r, record_bytes(r).len() as int))
        }),
{
    let r = RecordView::Node { id, parent, edits, before, after };
    let x = record_bytes(r) + rest;
    let empty = Seq::<u8>::empty();
    let n = edits.len() as usize;
    let ln = spec_leb(edits.len());
    assert(spec_leb(n as nat) == ln);
    let head = spec_leb(3);
    let lid = spec_leb(id as nat);
    let lpar = spec_leb(parent as nat);
    let c2 = caret_bytes(after);
    let c1 = caret_bytes(before);
    let eb = edits_bytes(edits);
    let a6 = c1 + c2;
    let a5 = eb + a6;
    let a4 = ln + a5;
    let a3 = lpar + a4;
    let a2 = lid + a3;
    assert(record_bytes(r) == head + a2);
    let t6 = c2 + rest;
    let t5 = a6 + rest;
    let t4 = a5 + rest;
    let t3 = a4 + rest;
    let t2 = a3 + rest;
    let t1 = a2 + rest;
    vstd::seq_lib::lemma_concat_associative(c1, c2, rest);
    vstd::seq_lib::lemma_concat_associative(eb, a6, rest);
    vstd::seq_lib::lemma_concat_associative(ln, a5, rest);
    vstd::seq_lib::lemma_concat_associative(lpar, a4, rest);
    vstd::seq_lib::lemma_concat_associative(lid, a3, rest);
    vstd::seq_lib::lemma_concat_associative(head, a2, rest);
    assert(t5 == c1 + t6);
    assert(t4 == eb + t5);
    assert(t3 == ln + t4);
    assert(t2 == lpar + t3);
    assert(t1 == lid + t2);
    assert(x == head + t1);
    let p1 = head + lid;
    let p2 = p1 + lpar;
    let p3 = p2 + ln;
    let p4 = p3 + eb;
    let p5 = p4 + c1;
    vstd::seq_lib::lemma_concat_associative(empty, head, t1);
    assert(empty + head == head);
    lemma_u64_round_trip(empty, 3, t1);
    vstd::seq_lib::lemma_concat_associative(head, lid, t2);
    lemma_u64_round_trip(head, id, t2);
    vstd::seq_lib::lemma_concat_associative(p1, lpar, t3);
    lemma_u64_round_trip(p1, parent, t3);
    vstd::seq_lib::lemma_concat_associative(p2, ln, t4);
    lemma_usize_round_trip(p2, n, t4);
    vstd::seq_lib::lemma_concat_associative(p3, eb, t5);
    lemma_edits_round_trip(p3, edits, t5);
    vstd::seq_lib::lemma_concat_associative(p4, c1, t6);
    lemma_caret_round_trip(p4, before, t6);
    vstd::seq_lib::lemma_concat_associative(p5, c2, rest);
    lemma_caret_round_trip(p5, after, rest);
    assert(record_bytes(r).len() == p5.len() + c2.len());
    assert(rd_u64(x, 0) == Ok::<(u64, int), DecodeError>((3u64, head.len() as int)));
    assert(rd_u64(x, head.len() as int) == Ok::<(u64, int), DecodeError>((id, p1.len() as int)));
    assert(rd_u64(x, p1.len() as int) == Ok::<(u64, int), DecodeError>((parent, p2.len() as int)));
    assert(rd_seq_len(x, p2.len() as int) == Ok::<(usize, int), DecodeError>((n, p3.len() as int)));
    assert(rd_edits(x, p3.len() as int, n as nat) == Ok::<(Seq<EditView>, int), DecodeError>((edits, p4.len() as int)));
    assert(rd_caret(x, p4.len() as int) == Ok::<(Caret, int), DecodeError>((before, p5.len() as int)));
    assert(rd_caret(x, p5.len() as int) == Ok::<(Caret, int), DecodeError>((after, (p5.len() + c2.len()) as int)));
}

/// A record's bytes, followed by anything, read back as its tag and then the
/// record itself, ending where its bytes end.
#[verifier::spinoff_prover]
#[verifier::rlimit(90)]
proof fn lemma_record_reads_back(r: RecordView, rest: Seq<u8>)
    requires
        record_fits(r),
    ensures
        rd_u64(record_bytes(r) + rest, 0) == Ok::<(u64, int), DecodeError>((record_tag(r), spec_leb(record_tag(r) as nat).len() as int)),
        rd_body(record_bytes(r) + rest, record_tag(r), spec_leb(record_tag(r) as nat).len() as int)
            == Ok::<(RecordView, int), DecodeError>((r, record_bytes(r).len() as int)),
{
    let x = record_bytes(r) + rest;
    let tag = record_tag(r);
    let empty = Seq::<u8>::empty();
    let head = spec_leb(tag as nat);
    match r {
        RecordView::Origin { path } => {
            assert(x =~= empty + head + (spec_str_bytes(path) + rest));
            lemma_u64_round_trip(empty, tag, spec_str_bytes(path) + rest);
            assert(x =~= head + spec_str_bytes(path) + rest);
            lemma_str_round_trip(head, path, rest);
        },
        RecordView::Base { text } => {
            assert(x =~= empty + head + (spec_str_bytes(text) + rest));
            lemma_u64_round_trip(empty, tag, spec_str_bytes(text) + rest);
            assert(x =~= head + spec_str_bytes(text) + rest);
            lemma_str_round_trip(head, text, rest);
        },
        RecordView::Node { id, parent, edits, before, after } => {
            lemma_node_round_trip(id, parent, edits, before, after, rest);
        },
        RecordView::Cursor { to } => {
            assert(x =~= empty + head + (spec_leb(to as nat) + rest));
            lemma_u64_round_trip(empty, tag, spec_leb(to as nat) + rest);
            assert(x =~= head + spec_leb(to as nat) + rest);
            lemma_u64_round_trip(head, to, rest);
        },
        RecordView::Redo { node, child } => {
            let t = spec_leb(node as nat) + spec_leb(child as nat) + rest;
            assert(x =~= empty + head + t);
            lemma_u64_round_trip(empty, tag, t);
            assert(x =~= head + spec_leb(node as nat) + (spec_leb(child as nat) + rest));
            lemma_u64_round_trip(head, node, spec_leb(child as nat) + rest);
            let p1 = head + spec_leb(node as nat);
            assert(x =~= p1 + spec_leb(child as nat) + rest);
            lemma_u64_round_trip(p1, child, rest);
        },
        RecordView::Saved { node } => {
            assert(x =~= empty + head + (spec_option_u64_bytes(node) + rest));
            lemma_u64_round_trip(empty, tag, spec_option_u64_bytes(node) + rest);
            assert(x =~= head + spec_option_u64_bytes(node) + rest);
            lemma_option_u64_round_trip(head, node, rest);
        },
    }
}

/// Decoding what [`History::encode`] wrote gives back the same record.
pub proof fn lemma_record_round_trip(r: RecordView)
    requires
        record_fits(r),
    ensures
        spec_decode(record_bytes(r)) == Ok::<RecordView, DecodeError>(r),
{
    lemma_record_reads_back(r, Seq::empty());
    assert(record_bytes(r) + Seq::<u8>::empty() =~= record_bytes(r));
}

/// A record's bytes followed by more bytes do not decode: the decoder reads
/// the record and refuses what is left, naming how many bytes that is.
pub proof fn lemma_decode_trailing(r: RecordView, extra: Seq<u8>)
    requires
        record_fits(r),
        extra.len() > 0,
    ensures
        spec_decode(record_bytes(r) + extra) == Err::<RecordView, DecodeError>(
            DecodeError::Trailing { extra: extra.len() as usize },
        ),
{
    lemma_record_reads_back(r, extra);
}

// ---------------------------------------------------------------------------
// Snapshot
// ---------------------------------------------------------------------------

/// The node records that rebuild nodes `1..n`, in id order.
pub open spec fn node_records(nodes: Seq<NodeView>, n: nat) -> Seq<RecordView>
    decreases n,
{
    if n <= 1 {
        Seq::empty()
    } else {
        let k = (n - 1) as int;
        node_records(nodes, (n - 1) as nat) + match (nodes[k].parent, nodes[k].change) {
            (Some(parent), Some(c)) => seq![
                RecordView::Node { id: k as NodeId, parent, edits: c.edits, before: c.before, after: c.after },
            ],
            _ => Seq::empty(),
        }
    }
}

/// The last of `s`, if any.
pub open spec fn last_of(s: Seq<NodeId>) -> Option<NodeId> {
    if s.len() > 0 {
        Some(s.last())
    } else {
        None
    }
}

/// Where replaying the node records leaves each redo pointer: on the newest
/// child.
pub open spec fn replayed_redos(nodes: Seq<NodeView>) -> Seq<Option<NodeId>> {
    Seq::new(nodes.len(), |k: int| last_of(nodes[k].children))
}

/// The redo pointers `redos` after walking from node `at` up to the root,
/// each parent pointed at the child the walk came from.
pub open spec fn walk_redos(nodes: Seq<NodeView>, redos: Seq<Option<NodeId>>, at: int) -> Seq<Option<NodeId>>
    decreases at,
{
    if 0 <= at < nodes.len() {
        match nodes[at].parent {
            Some(p) => if 0 <= p < at {
                walk_redos(nodes, redos.update(p as int, Some(at as NodeId)), p as int)
            } else {
                redos
            },
            None => redos,
        }
    } else {
        redos
    }
}

/// Where the node records and the cursor record of a snapshot leave each
/// redo pointer.
pub open spec fn restored_redos(h: HistoryView) -> Seq<Option<NodeId>> {
    walk_redos(h.nodes, replayed_redos(h.nodes), h.current as int)
}

/// A redo record for each of nodes `0..n` whose redo pointer is not where
/// `have` says it already is, in id order.
pub open spec fn redo_records(nodes: Seq<NodeView>, have: Seq<Option<NodeId>>, n: nat) -> Seq<RecordView>
    decreases n,
{
    if n == 0 {
        Seq::empty()
    } else {
        let k = (n - 1) as int;
        redo_records(nodes, have, (n - 1) as nat) + match nodes[k].redo_child {
            Some(child) => if have[k] == Some(child) {
                Seq::empty()
            } else {
                seq![RecordView::Redo { node: k as NodeId, child }]
            },
            None => Seq::empty(),
        }
    }
}

/// The records that rebuild `h`: origin, base, every node, the cursor, the
/// redo pointers that replaying those leaves elsewhere, the save point. The
/// redo records come after the cursor record, whose walk re-points the path
/// to the current node, so that each pointer ends where `h` has it.
pub open spec fn spec_snapshot(h: HistoryView) -> Seq<RecordView> {
    let origin = match h.origin {
        Some(path) => seq![RecordView::Origin { path }],
        None => Seq::empty(),
    };
    let base = match h.base {
        Some(text) => seq![RecordView::Base { text }],
        None => Seq::empty(),
    };
    origin + base + node_records(h.nodes, h.nodes.len()) + seq![RecordView::Cursor { to: h.current }]
        + redo_records(h.nodes, restored_redos(h), h.nodes.len()) + seq![RecordView::Saved { node: h.saved }]
}

/// The values of a list of records.
pub open spec fn records_view(records: Seq<Record>) -> Seq<RecordView> {
    records.map_values(|r: Record| r@)
}

impl History {
    /// Where the node records and the cursor record of a snapshot leave each
    /// redo pointer.
    fn restored_redo_pointers(&self) -> (r: Vec<Option<NodeId>>)
        ensures
            r@ == restored_redos(self@),
            r@.len() == self@.nodes.len(),
    {
        let ghost h = self@;
        let mut redos: Vec<Option<NodeId>> = Vec::new();
        let mut k: usize = 0;
        while k < self.nodes.len()
            invariant
                h == self@,
                k <= self.nodes.len(),
                redos@ == replayed_redos(h.nodes).take(k as int),
            decreases self.nodes.len() - k,
        {
            let children = &self.nodes[k].children;
            assert(h.nodes[k as int].children == children@);
            let n = children.len();
            if n > 0 {
                redos.push(Some(children[n - 1]));
            } else {
                redos.push(None);
            }
            k = k + 1;
            assert(redos@ =~= replayed_redos(h.nodes).take(k as int));
        }
        assert(redos@ =~= replayed_redos(h.nodes));
        if self.current >= self.nodes.len() as u64 {
            return redos;
        }
        let mut at: usize = self.current as usize;
        while at < self.nodes.len()
            invariant
                h == self@,
                redos@.len() == h.nodes.len(),
                walk_redos(h.nodes, redos@, at as int) == restored_redos(h),
            decreases at,
        {
            assert(h.nodes[at as int].parent == self.nodes@[at as int].parent);
            match self.nodes[at].parent {
                Some(p) => {
                    if p < at as u64 {
                        redos.set(p as usize, Some(at as NodeId));
                        at = p as usize;
                    } else {
                        return redos;
                    }
                },
                None => {
                    return redos;
                },
            }
        }
        redos
    }

    /// The records that rebuild this history from a fresh one.
    fn snapshot_records(&self) -> (r: Vec<Record>)
        ensures
            records_view(r@) == spec_snapshot(self@),
    {
        let ghost h = self@;
        let mut out: Vec<Record> = Vec::new();
        match &self.origin {
            Some(path) => {
                out.push(Record::Origin { path: path.clone() });
            },
            None => {},
        }
        match &self.base {
            Some(text) => {
                out.push(Record::Base { text: text.clone() });
            },
            None => {},
        }
        let ghost head = records_view(out@);
        proof {
            assert(head =~= (match h.origin {
                Some(path) => seq![RecordView::Origin { path }],
                None => Seq::empty(),
            }) + (match h.base {
                Some(text) => seq![RecordView::Base { text }],
                None => Seq::empty(),
            }));
        }
        let mut index: usize = 1;
        while index < self.nodes.len()
            invariant
                h == self@,
                1 <= index,
                index <= self.nodes.len() || index == 1,
                records_view(out@) == head + node_records(h.nodes, index as nat),
            decreases self.nodes.len() - index,
        {
            let node = &self.nodes[index];
            let ghost before = records_view(out@);
            assert(h.nodes[index as int] == node@);
            match (node.parent, &node.change) {
                (Some(parent), Some(change)) => {
                    let rec = Record::Node {
                        id: index as NodeId,
                        parent,
                        edits: clone_edits(&change.edits),
                        before: change.before,
                        after: change.after,
                    };
                    let ghost rv = rec@;
                    assert(node_records(h.nodes, (index + 1) as nat) == node_records(h.nodes, index as nat) + seq![rv]);
                    out.push(rec);
                    assert(records_view(out@) =~= before.push(rv));
                },
                _ => {
                    assert(node_records(h.nodes, (index + 1) as nat) =~= node_records(h.nodes, index as nat));
                },
            }
            assert(records_view(out@) =~= head + node_records(h.nodes, (index + 1) as nat));
            index = index + 1;
        }
        proof {
            assert(h.nodes.len() == self.nodes@.len());
            if self.nodes.len() == 0 {
                assert(node_records(h.nodes, 0) =~= node_records(h.nodes, 1));
            } else {
                assert(index == self.nodes.len());
            }
        }
        out.push(Record::Cursor { to: self.current });
        let ghost mid = records_view(out@);
        proof {
            assert(mid =~= head + node_records(h.nodes, h.nodes.len()) + seq![RecordView::Cursor { to: h.current }]);
        }
        let have = self.restored_redo_pointers();
        let mut k: usize = 0;
        while k < self.nodes.len()
            invariant
                h == self@,
                k <= self.nodes.len(),
                have@ == restored_redos(h),
                have@.len() == h.nodes.len(),
                records_view(out@) == mid + redo_records(h.nodes, have@, k as nat),
            decreases self.nodes.len() - k,
        {
            let node = &self.nodes[k];
            assert(h.nodes[k as int] == node@);
            let ghost before = records_view(out@);
            match node.redo_child {
                Some(child) => {
                    if have[k] != Some(child) {
                        let rec = Record::Redo { node: k as NodeId, child };
                        assert(redo_records(h.nodes, have@, (k + 1) as nat) == redo_records(h.nodes, have@, k as nat) + seq![rec@]);
                        out.push(rec);
                        assert(records_view(out@) =~= before.push(rec@));
                    } else {
                        assert(redo_records(h.nodes, have@, (k + 1) as nat) =~= redo_records(h.nodes, have@, k as nat));
                    }
                },
                None => {
                    assert(redo_records(h.nodes, have@, (k + 1) as nat) =~= redo_records(h.nodes, have@, k as nat));
                },
            }
            assert(records_view(out@) =~= mid + redo_records(h.nodes, have@, (k + 1) as nat));
            k = k + 1;
        }
        out.push(Record::Saved { node: self.saved });
        assert(records_view(out@) =~= spec_snapshot(h));
        out
    }
}

impl Folded for History {
    type Record = Record;

    open spec fn inv(&self) -> bool {
        tree_wf(self@)
    }

    fn fresh() -> (r: History) {
        History::new()
    }

    fn stream() -> (r: Stream)
        ensures
            r == (Stream { kind: 1, version: 1 }),
    {
        Stream::undo()
    }

    fn encode(record: &Record, out: &mut Encoder)
        ensures
            final(out)@ == old(out)@ + record_bytes(record@),
    {
        History::encode_record(record, out)
    }

    fn decode(bytes: &[u8]) -> (r: Result<Record, DecodeError>)
        ensures
            match spec_decode(bytes@) {
                Ok(v) => r matches Ok(rec) && rec@ == v,
                Err(e) => r == Err::<Record, DecodeError>(e),
            },
    {
        History::decode_record(bytes)
    }

    fn apply(&mut self, record: Record) -> (r: Result<(), FoldError>)
        ensures
            match spec_apply(old(self)@, record@) {
                Ok(g) => r is Ok && final(self)@ == g,
                Err(e) => r == Err::<(), FoldError>(e) && final(self)@ == old(self)@,
            },
    {
        self.apply_record(record)
    }

    fn snapshot(&self) -> (r: Vec<Record>)
        ensures
            records_view(r@) == spec_snapshot(self@),
    {
        self.snapshot_records()
    }
}

} // verus!
