//! Compaction keeps the history: folding a history's snapshot into a fresh
//! journal gives that history back.

use vstd::prelude::*;

use crate::journal::undo::{
    spec_walk,
    children_exact, last_of, lemma_walk, node_records, replayed_redos, restored_redos, walk_redos, redo_ok, redo_records, same_shape, spec_apply, spec_fold,
    spec_fresh, spec_snapshot, tree_wf, ChangeView, HistoryView, NodeId, NodeView, RecordView,
};

verus! {

/// The ids of `ch` below `m`, in order.
pub open spec fn below(ch: Seq<NodeId>, m: int) -> Seq<NodeId>
    decreases ch.len(),
{
    if ch.len() == 0 {
        ch
    } else {
        let sub = below(ch.drop_last(), m);
        if (ch.last() as int) < m {
            sub.push(ch.last())
        } else {
            sub
        }
    }
}

/// The first `m` nodes as replaying their records builds them: children are
/// those below `m`, and each redo pointer is the newest child.
pub open spec fn rebuilt(nodes: Seq<NodeView>, m: int) -> Seq<NodeView> {
    Seq::new(
        m as nat,
        |k: int| NodeView {
            parent: nodes[k].parent,
            children: below(nodes[k].children, m),
            redo_child: last_of(below(nodes[k].children, m)),
            change: nodes[k].change,
        },
    )
}

/// Strictly increasing.
pub open spec fn increasing(s: Seq<NodeId>) -> bool {
    forall|i: int, j: int| 0 <= i < j < s.len() ==> #[trigger] s[i] < #[trigger] s[j]
}

proof fn lemma_below_all(ch: Seq<NodeId>, m: int)
    requires
        forall|i: int| 0 <= i < ch.len() ==> (#[trigger] ch[i] as int) < m,
    ensures
        below(ch, m) == ch,
    decreases ch.len(),
{
    if ch.len() > 0 {
        lemma_below_all(ch.drop_last(), m);
        assert(ch.drop_last().push(ch.last()) =~= ch);
    }
}

proof fn lemma_below_none(ch: Seq<NodeId>, m: int)
    requires
        forall|i: int| 0 <= i < ch.len() ==> (#[trigger] ch[i] as int) >= m,
    ensures
        below(ch, m) == Seq::<NodeId>::empty(),
    decreases ch.len(),
{
    if ch.len() > 0 {
        lemma_below_none(ch.drop_last(), m);
    }
}

proof fn lemma_below_without(ch: Seq<NodeId>, m: int)
    requires
        forall|i: int| 0 <= i < ch.len() ==> (#[trigger] ch[i] as int) != m,
    ensures
        below(ch, m + 1) == below(ch, m),
    decreases ch.len(),
{
    if ch.len() > 0 {
        lemma_below_without(ch.drop_last(), m);
    }
}

proof fn lemma_below_with(ch: Seq<NodeId>, m: int)
    requires
        increasing(ch),
        ch.contains(m as NodeId),
        0 <= m <= u64::MAX,
    ensures
        below(ch, m + 1) == below(ch, m).push(m as NodeId),
    decreases ch.len(),
{
    let d = ch.drop_last();
    if ch.last() as int == m {
        assert forall|i: int| 0 <= i < d.len() implies (#[trigger] d[i] as int) != m by {
            assert(ch[i] < ch[ch.len() - 1]);
        }
        lemma_below_without(d, m);
    } else {
        let j = choose|j: int| 0 <= j < ch.len() && ch[j] == m as NodeId;
        assert(j < ch.len() - 1);
        assert(ch[j] < ch[ch.len() - 1]);
        assert(d[j] == m as NodeId);
        lemma_below_with(d, m);
    }
}

/// Replaying the node records of the first `m` nodes onto the root builds
/// those nodes as `rebuilt` says.
proof fn lemma_node_phase(h: HistoryView, g: HistoryView, m: int)
    requires
        tree_wf(h),
        h.nodes.len() < u64::MAX,
        1 <= m <= h.nodes.len(),
        g.nodes == rebuilt(h.nodes, 1),
    ensures
        spec_fold(g, node_records(h.nodes, m as nat)) matches Ok(f) && f.nodes == rebuilt(h.nodes, m)
            && f.origin == g.origin && f.base == g.base && f.saved == g.saved,
    decreases m,
{
    let nodes = h.nodes;
    if m <= 1 {
        assert(node_records(nodes, m as nat) =~= Seq::<RecordView>::empty());
        assert(rebuilt(nodes, m) =~= rebuilt(nodes, 1));
    } else {
        let k = m - 1;
        lemma_node_phase(h, g, k);
        let prev = node_records(nodes, k as nat);
        let f0 = spec_fold(g, prev).unwrap();
        assert(nodes[k].parent matches Some(p) && p < k);
        let p = nodes[k].parent.unwrap();
        let c = nodes[k].change.unwrap();
        let rec = RecordView::Node { id: k as NodeId, parent: p, edits: c.edits, before: c.before, after: c.after };
        assert(node_records(nodes, m as nat) == prev + seq![rec]);
        assert((prev + seq![rec]).drop_last() =~= prev);
        assert(spec_fold(g, prev + seq![rec]) == spec_apply(f0, rec));
        let f = spec_apply(f0, rec).unwrap();
        let r = rebuilt(nodes, m);
        assert(children_exact(nodes, p as int));
        assert(children_exact(nodes, k));
        assert(nodes[p as int].children.contains(k as NodeId));
        assert(increasing(nodes[p as int].children));
        lemma_below_with(nodes[p as int].children, k);
        assert forall|i: int| 0 <= i < nodes[k].children.len() implies (#[trigger] nodes[k].children[i] as int) >= k + 1 by {
            let ch = nodes[k].children[i];
            assert(nodes[ch as int].parent == Some(k as NodeId));
            assert(nodes[ch as int].parent matches Some(q) && q < ch);
        }
        lemma_below_none(nodes[k].children, k + 1);
        assert forall|i: int| 0 <= i < m implies #[trigger] f.nodes[i] == r[i] by {
            if i == k {
                assert(c == ChangeView { edits: c.edits, before: c.before, after: c.after });
            } else if i == p {
            } else {
                assert(children_exact(nodes, i));
                assert forall|x: int| 0 <= x < nodes[i].children.len() implies (#[trigger] nodes[i].children[x] as int) != k by {
                    let ch = nodes[i].children[x];
                    assert(nodes[ch as int].parent == Some(i as NodeId));
                }
                lemma_below_without(nodes[i].children, k);
            }
        }
        assert(f.nodes =~= r);
    }
}

/// Replaying the redo records of the first `j` nodes onto a tree of the
/// same shape as `h` restores their redo pointers and touches nothing else.
proof fn lemma_redo_phase(h: HistoryView, g: HistoryView, have: Seq<Option<NodeId>>, j: int)
    requires
        tree_wf(h),
        h.nodes.len() < u64::MAX,
        0 <= j <= h.nodes.len(),
        same_shape(h.nodes, g.nodes),
        redo_ok(g.nodes),
        have.len() == g.nodes.len(),
        forall|k: int| 0 <= k < have.len() ==> #[trigger] have[k] == g.nodes[k].redo_child,
    ensures
        spec_fold(g, redo_records(h.nodes, have, j as nat)) matches Ok(f) && f.origin == g.origin && f.base == g.base
            && f.saved == g.saved && f.current == g.current && f.nodes.len() == h.nodes.len()
            && (forall|k: int| 0 <= k < j ==> #[trigger] f.nodes[k] == h.nodes[k])
            && (forall|k: int| j <= k < h.nodes.len() ==> #[trigger] f.nodes[k] == g.nodes[k]),
    decreases j,
{
    let nodes = h.nodes;
    let n = nodes.len() as int;
    if j == 0 {
        assert(redo_records(nodes, have, 0) =~= Seq::<RecordView>::empty());
    } else {
        let k = j - 1;
        lemma_redo_phase(h, g, have, k);
        let prev = redo_records(nodes, have, k as nat);
        let f0 = spec_fold(g, prev).unwrap();
        assert(f0.nodes[k] == g.nodes[k]);
        assert(g.nodes[k].children == nodes[k].children);
        match nodes[k].redo_child {
            Some(child) => {
                assert(nodes[k].children.contains(child));
                assert(have[k] == g.nodes[k].redo_child);
                if have[k] == Some(child) {
                    assert(redo_records(nodes, have, j as nat) =~= prev);
                    assert(f0.nodes[k].parent == nodes[k].parent);
                    assert(f0.nodes[k].children == nodes[k].children);
                    assert(f0.nodes[k].change == nodes[k].change);
                    assert(f0.nodes[k].redo_child == nodes[k].redo_child);
                } else {
                let rec = RecordView::Redo { node: k as NodeId, child };
                assert(redo_records(nodes, have, j as nat) == prev + seq![rec]);
                assert((prev + seq![rec]).drop_last() =~= prev);
                assert(spec_fold(g, prev + seq![rec]) == spec_apply(f0, rec));
                let f = spec_apply(f0, rec).unwrap();
                assert forall|i: int| 0 <= i < n implies #[trigger] f.nodes[i] == (if i < j { nodes[i] } else { g.nodes[i] }) by {
                    if i == k {
                        assert(f.nodes[k].parent == nodes[k].parent);
                        assert(f.nodes[k].children == nodes[k].children);
                        assert(f.nodes[k].change == nodes[k].change);
                        assert(f.nodes[k].redo_child == nodes[k].redo_child);
                    } else {
                        assert(f.nodes[i] == f0.nodes[i]);
                    }
                }
                }
            },
            None => {
                assert(redo_records(nodes, have, j as nat) =~= prev);
                assert(nodes[k].children.len() == 0);
                assert(g.nodes[k].redo_child is None) by {
                    if g.nodes[k].redo_child is Some {
                        assert(g.nodes[k].children.contains(g.nodes[k].redo_child.unwrap()));
                    }
                }
                assert(g.nodes[k].parent == nodes[k].parent);
                assert(g.nodes[k].change == nodes[k].change);
                assert(f0.nodes[k] == nodes[k]);
            },
        }
    }
}

proof fn lemma_fold_append(h: HistoryView, a: Seq<RecordView>, b: Seq<RecordView>)
    ensures
        spec_fold(h, a + b) == match spec_fold(h, a) {
            Ok(g) => spec_fold(g, b),
            Err(e) => Err(e),
        },
    decreases b.len(),
{
    if b.len() == 0 {
        assert(a + b =~= a);
    } else {
        lemma_fold_append(h, a, b.drop_last());
        assert((a + b).drop_last() =~= a + b.drop_last());
        assert((a + b).last() == b.last());
    }
}

/// The records a snapshot opens with: origin, then base.
pub open spec fn header_records(h: HistoryView) -> Seq<RecordView> {
    let origin = match h.origin {
        Some(path) => seq![RecordView::Origin { path }],
        None => Seq::empty(),
    };
    let base = match h.base {
        Some(text) => seq![RecordView::Base { text }],
        None => Seq::empty(),
    };
    origin + base
}

proof fn lemma_header(h: HistoryView)
    ensures
        spec_fold(spec_fresh(), header_records(h)) == Ok::<HistoryView, crate::journal::FoldError>(
            HistoryView { origin: h.origin, base: h.base, ..spec_fresh() },
        ),
{
    let fresh = spec_fresh();
    let origin = match h.origin {
        Some(path) => seq![RecordView::Origin { path }],
        None => Seq::empty(),
    };
    let base = match h.base {
        Some(text) => seq![RecordView::Base { text }],
        None => Seq::empty(),
    };
    let g1 = HistoryView { origin: h.origin, ..fresh };
    let g2 = HistoryView { origin: h.origin, base: h.base, ..fresh };
    assert(spec_fold(fresh, Seq::<RecordView>::empty()) == Ok::<HistoryView, crate::journal::FoldError>(fresh));
    match h.origin {
        Some(path) => {
            assert(origin.drop_last() =~= Seq::<RecordView>::empty());
            assert(spec_fold(fresh, origin) == spec_apply(fresh, RecordView::Origin { path }));
        },
        None => {},
    }
    assert(spec_fold(fresh, origin) == Ok::<HistoryView, crate::journal::FoldError>(g1));
    assert(spec_fold(g1, Seq::<RecordView>::empty()) == Ok::<HistoryView, crate::journal::FoldError>(g1));
    match h.base {
        Some(text) => {
            assert(base.drop_last() =~= Seq::<RecordView>::empty());
            assert(spec_fold(g1, base) == spec_apply(g1, RecordView::Base { text }));
        },
        None => {},
    }
    assert(spec_fold(g1, base) == Ok::<HistoryView, crate::journal::FoldError>(g2));
    lemma_fold_append(fresh, origin, base);
    assert(header_records(h) == origin + base);
}

/// The walk moves the redo pointers of a tree as `walk_redos` says.
proof fn lemma_walk_redos(x: Seq<NodeView>, redos: Seq<Option<NodeId>>, at: int)
    requires
        redos.len() == x.len(),
        forall|k: int| 0 <= k < x.len() ==> #[trigger] x[k].redo_child == redos[k],
    ensures
        spec_walk(x, at).len() == x.len(),
        walk_redos(x, redos, at).len() == x.len(),
        forall|k: int| 0 <= k < x.len() ==> #[trigger] spec_walk(x, at)[k].redo_child == walk_redos(x, redos, at)[k],
    decreases at,
{
    if 0 <= at < x.len() {
        match x[at].parent {
            Some(p) => {
                if 0 <= p < at {
                    let next = x.update(p as int, NodeView { redo_child: Some(at as NodeId), ..x[p as int] });
                    let nr = redos.update(p as int, Some(at as NodeId));
                    assert forall|k: int| 0 <= k < next.len() implies #[trigger] next[k].redo_child == nr[k] by {}
                    lemma_walk_redos(next, nr, p as int);
                    lemma_walk_redos_parents(next, x, nr, p as int);
                }
            },
            None => {},
        }
    }
}

/// `walk_redos` reads only the parents.
proof fn lemma_walk_redos_parents(a: Seq<NodeView>, b: Seq<NodeView>, redos: Seq<Option<NodeId>>, at: int)
    requires
        a.len() == b.len(),
        forall|k: int| 0 <= k < a.len() ==> #[trigger] a[k].parent == b[k].parent,
    ensures
        walk_redos(a, redos, at) == walk_redos(b, redos, at),
    decreases at,
{
    if 0 <= at < a.len() {
        assert(a[at].parent == b[at].parent);
        match a[at].parent {
            Some(p) => {
                if 0 <= p < at {
                    lemma_walk_redos_parents(a, b, redos.update(p as int, Some(at as NodeId)), p as int);
                }
            },
            None => {},
        }
    }
}

/// Compaction keeps the history: folding a history's snapshot into a fresh
/// journal gives the same history back.
pub proof fn lemma_snapshot_round_trip(h: HistoryView)
    requires
        tree_wf(h),
        h.nodes.len() < u64::MAX,
    ensures
        spec_fold(spec_fresh(), spec_snapshot(h)) == Ok::<HistoryView, crate::journal::FoldError>(h),
{
    let nodes = h.nodes;
    let n = nodes.len() as int;
    let head = header_records(h);
    let nr = node_records(nodes, n as nat);
    let cur = seq![RecordView::Cursor { to: h.current }];
    let rr = redo_records(nodes, restored_redos(h), n as nat);
    let sav = seq![RecordView::Saved { node: h.saved }];
    assert(spec_snapshot(h) == head + nr + cur + rr + sav);
    let fresh = spec_fresh();
    lemma_header(h);
    let g2 = HistoryView { origin: h.origin, base: h.base, ..fresh };
    assert(children_exact(nodes, 0));
    assert forall|i: int| 0 <= i < nodes[0].children.len() implies (#[trigger] nodes[0].children[i] as int) >= 1 by {
        let ch = nodes[0].children[i];
        assert(0 < ch);
    }
    lemma_below_none(nodes[0].children, 1);
    assert(g2.nodes =~= rebuilt(nodes, 1));
    lemma_node_phase(h, g2, n);
    lemma_fold_append(fresh, head, nr);
    let g3 = spec_fold(g2, nr).unwrap();
    // The rebuilt tree has the shape of `h`, each redo pointer on its newest child.
    assert forall|k: int| 0 <= k < n implies #[trigger] g3.nodes[k].children == nodes[k].children by {
        assert(children_exact(nodes, k));
        assert forall|i: int| 0 <= i < nodes[k].children.len() implies (#[trigger] nodes[k].children[i] as int) < n by {}
        lemma_below_all(nodes[k].children, n);
    }
    assert(same_shape(nodes, g3.nodes));
    assert forall|k: int| 0 <= k < n implies (#[trigger] g3.nodes[k].redo_child matches Some(c) ==> g3.nodes[k].children.contains(c)) by {
        if g3.nodes[k].children.len() > 0 {
            assert(g3.nodes[k].children[g3.nodes[k].children.len() - 1] == g3.nodes[k].children.last());
        }
    }
    assert(redo_ok(g3.nodes));
    // The cursor walk keeps that shape.
    let cr = RecordView::Cursor { to: h.current };
    assert(cur.drop_last() =~= Seq::<RecordView>::empty());
    assert(spec_fold(g3, Seq::<RecordView>::empty()) == Ok::<HistoryView, crate::journal::FoldError>(g3));
    assert(spec_fold(g3, cur) == spec_apply(g3, cr));
    let g4 = spec_apply(g3, cr).unwrap();
    lemma_walk(h, g3.nodes, h.current as int);
    assert forall|k: int| 0 <= k < n implies #[trigger] g3.nodes[k].redo_child == replayed_redos(nodes)[k] by {}
    lemma_walk_redos(g3.nodes, replayed_redos(nodes), h.current as int);
    assert(walk_redos(g3.nodes, replayed_redos(nodes), h.current as int) == restored_redos(h)) by {
        lemma_walk_redos_parents(g3.nodes, nodes, replayed_redos(nodes), h.current as int);
    }
    lemma_fold_append(fresh, head + nr, cur);
    // The redo pointers the walk left elsewhere are then said outright.
    lemma_redo_phase(h, g4, restored_redos(h), n);
    lemma_fold_append(fresh, head + nr + cur, rr);
    let g5 = spec_fold(g4, rr).unwrap();
    assert(g5.nodes =~= nodes);
    let sr = RecordView::Saved { node: h.saved };
    assert(sav.drop_last() =~= Seq::<RecordView>::empty());
    assert(spec_fold(g5, Seq::<RecordView>::empty()) == Ok::<HistoryView, crate::journal::FoldError>(g5));
    assert(spec_fold(g5, sav) == spec_apply(g5, sr));
    lemma_fold_append(fresh, head + nr + cur + rr, sav);
    assert(spec_apply(g5, sr).unwrap() == h);
}

} // verus!
