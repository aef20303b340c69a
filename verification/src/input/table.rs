//! The keymap as data: `(scope, keys) → role`.
//!
//! A role is grammar, not an action: `d` is an operator, `w` a motion, and
//! only the machine knows what they make together. One table is seeded with
//! vim's grammar; a second, live one (the editor layer) sits above it, and
//! [`Layered`] asks the layer first except inside an operator, where the
//! operand belongs to the grammar.

use vstd::prelude::*;

use crate::action::Action;
use crate::input::key::{keys_lt, keys_precede, lemma_keys_order, parse_seq, spec_parse_from, Key};
use crate::request::{EditMode, Motion, ScrollRequest, SelectionKind, TextObject};

verus! {

/// Which part of the grammar a sequence is looked up in.
#[derive(Debug, Clone, Copy, PartialEq, Eq, PartialOrd, Ord, Hash, Structural)]
pub enum Scope {
    Normal,
    Insert,
    Visual,
    OperatorPending,
    Object,
}

/// The scope a mode's keys are looked up in.
pub open spec fn spec_scope_of(mode: EditMode) -> Scope {
    match mode {
        EditMode::Normal => Scope::Normal,
        EditMode::Insert | EditMode::Replace => Scope::Insert,
        EditMode::VisualChar | EditMode::VisualLine | EditMode::VisualBlock => Scope::Visual,
        EditMode::OperatorPending => Scope::OperatorPending,
    }
}

/// A scope's name, as which-key shows it.
pub open spec fn spec_scope_name(scope: Scope) -> Seq<char> {
    match scope {
        Scope::Normal => "normal"@,
        Scope::Insert => "insert"@,
        Scope::Visual => "visual"@,
        Scope::OperatorPending => "operator-pending"@,
        Scope::Object => "object"@,
    }
}

impl Scope {
    /// The scope a mode's keys are looked up in.
    pub fn of(mode: EditMode) -> (r: Scope)
        ensures
            r == spec_scope_of(mode),
    {
        match mode {
            EditMode::Normal => Scope::Normal,
            EditMode::Insert | EditMode::Replace => Scope::Insert,
            EditMode::VisualChar | EditMode::VisualLine | EditMode::VisualBlock => Scope::Visual,
            EditMode::OperatorPending => Scope::OperatorPending,
        }
    }

    /// `normal`, `insert`, `visual`, `operator-pending`, `object`.
    pub fn name(self) -> (r: &'static str)
        ensures
            r@ == spec_scope_name(self),
    {
        match self {
            Scope::Normal => "normal",
            Scope::Insert => "insert",
            Scope::Visual => "visual",
            Scope::OperatorPending => "operator-pending",
            Scope::Object => "object",
        }
    }
}

/// An operator: waits for a motion or an object, then acts on the span.
#[derive(Debug, Clone, Copy, PartialEq, Eq, Structural)]
pub enum Operator {
    Delete,
    Change,
    Yank,
    Indent,
    Dedent,
    ToggleComment,
    MarkSeen,
    /// `gU`: upper-case the operand.
    Upper,
    /// `gu`: lower-case the operand.
    Lower,
    /// `g~`, and `~` fused with `l`: toggle the operand's case.
    ToggleCase,
}

/// The ways into insert mode.
#[derive(Debug, Clone, Copy, PartialEq, Eq, Structural)]
pub enum Entry {
    Before,
    After,
    LineStart,
    LineEnd,
    OpenBelow,
    OpenAbove,
    Replace,
}

/// `gg` and `G`: with a count they name a line.
#[derive(Debug, Clone, Copy, PartialEq, Eq, Structural)]
pub enum Goto {
    First,
    Last,
}

/// What a bound sequence means to the grammar.
#[derive(Debug, PartialEq, Eq)]
pub enum Role {
    /// A motion.
    Motion(Motion),
    /// A line address.
    Goto(Goto),
    /// An operator.
    Operator(Operator),
    /// An operator and its motion in one key (`x`, `D`).
    Fused {
        operator: Operator,
        motion: Motion,
    },
    /// A text object, once `i` or `a` has been typed.
    Object {
        object: TextObject,
        delimiter: Option<char>,
    },
    /// `i` before an object.
    Inner,
    /// `a` before an object.
    Around,
    /// A way into insert mode.
    Enter(Entry),
    /// Start, switch or leave a visual selection.
    Select(SelectionKind),
    /// Put a register.
    Paste {
        before: bool,
    },
    /// Undo or redo.
    History {
        redo: bool,
    },
    /// Move the viewport.
    Scroll(ScrollRequest),
    /// `.`.
    Repeat,
    /// Back to normal, dropping anything pending.
    Escape,
    /// `"`: the next key names a register.
    Register,
    /// `r`: the next key is the character to write.
    ReplaceChar,
    /// Actions to run as they are.
    Run(Vec<Action>),
}

impl Clone for Role {
    fn clone(&self) -> (r: Self)
        ensures
            !(self is Run) ==> r == *self,
            self is Run ==> r is Run && r->Run_0@.len() == self->Run_0@.len(),
    {
        match self {
            Role::Motion(m) => Role::Motion(*m),
            Role::Goto(g) => Role::Goto(*g),
            Role::Operator(o) => Role::Operator(*o),
            Role::Fused { operator, motion } => Role::Fused { operator: *operator, motion: *motion },
            Role::Object { object, delimiter } => Role::Object { object: *object, delimiter: *delimiter },
            Role::Inner => Role::Inner,
            Role::Around => Role::Around,
            Role::Enter(e) => Role::Enter(*e),
            Role::Select(k) => Role::Select(*k),
            Role::Paste { before } => Role::Paste { before: *before },
            Role::History { redo } => Role::History { redo: *redo },
            Role::Scroll(s) => Role::Scroll(*s),
            Role::Repeat => Role::Repeat,
            Role::Escape => Role::Escape,
            Role::Register => Role::Register,
            Role::ReplaceChar => Role::ReplaceChar,
            Role::Run(actions) => Role::Run(actions.clone()),
        }
    }
}

/// Two roles are the same binding: equal, or both lists of the same number
/// of actions.
pub open spec fn same_role(a: Role, b: Role) -> bool {
    if a is Run {
        b is Run && a->Run_0@.len() == b->Run_0@.len()
    } else {
        a == b
    }
}

/// What looking a sequence up found.
#[derive(Debug, Clone, PartialEq, Eq)]
pub enum Resolution {
    /// Bound to a role.
    Role(Role),
    /// The keymap acted on it itself.
    Ran,
    /// A prefix of something bound: wait for more.
    Pending,
    /// Nothing starts this way.
    Unbound,
}

/// A keymap: the seed table, or the live editor layer above it.
pub trait Keymap {
    /// Whether `r` is an answer this keymap gives for `keys` in `scope`.
    spec fn answers(&self, scope: Scope, keys: Seq<Key>, r: Resolution) -> bool;

    /// Whether `after` is this keymap as answering may leave it: answering
    /// may run a binding of the keymap's own.
    spec fn keeps(&self, after: &Self) -> bool;

    /// What `keys` mean in `scope`.
    fn resolve(&mut self, scope: Scope, keys: &[Key]) -> (r: Resolution)
        ensures
            old(self).answers(scope, keys@, r),
            old(self).keeps(&*final(self)),
    ;
}

/// One binding.
pub struct Binding {
    pub scope: Scope,
    pub keys: Seq<Key>,
    pub role: Role,
}

/// The bindings a table holds, in the order they were first bound.
pub open spec fn entries_view(entries: Seq<(Scope, Vec<Key>, Role)>) -> Seq<Binding> {
    entries.map_values(|e: (Scope, Vec<Key>, Role)| Binding { scope: e.0, keys: e.1@, role: e.2 })
}

/// Where `(scope, keys)` is bound, or the length if it is not.
pub open spec fn find_binding(b: Seq<Binding>, scope: Scope, keys: Seq<Key>) -> int
    decreases b.len(),
{
    if b.len() == 0 {
        0
    } else if b[0].scope == scope && b[0].keys == keys {
        0
    } else {
        1 + find_binding(b.drop_first(), scope, keys)
    }
}

/// Whether something bound in `scope` is strictly longer than `keys` and
/// starts with them.
pub open spec fn has_extension(b: Seq<Binding>, scope: Scope, keys: Seq<Key>) -> bool {
    exists|i: int|
        0 <= i < b.len() && #[trigger] b[i].scope == scope && b[i].keys.len() > keys.len() && b[i].keys.take(
            keys.len() as int,
        ) == keys
}

/// No two bindings share a scope and a sequence.
pub open spec fn bindings_unique(b: Seq<Binding>) -> bool {
    forall|i: int, j: int| 0 <= i < j < b.len() ==> !(#[trigger] b[i].scope == #[trigger] b[j].scope && b[i].keys == b[j].keys)
}

/// A role with a run's actions as values: what a binding means, compared
/// by value.
pub enum RoleV {
    /// Any role that is not a run.
    Plain(Role),
    /// Actions to run as they are.
    Run(Seq<Action>),
}

/// A role by value.
pub open spec fn role_view(r: Role) -> RoleV {
    match r {
        Role::Run(actions) => RoleV::Run(actions@),
        _ => RoleV::Plain(r),
    }
}

/// One binding, its role by value.
pub struct BindingV {
    pub scope: Scope,
    pub keys: Seq<Key>,
    pub role: RoleV,
}

/// Some bindings, each by value.
pub open spec fn bindings_view(b: Seq<Binding>) -> Seq<BindingV> {
    b.map_values(|x: Binding| BindingV { scope: x.scope, keys: x.keys, role: role_view(x.role) })
}

/// Where `(scope, keys)` is bound among bindings by value, or the length.
pub open spec fn find_binding_v(b: Seq<BindingV>, scope: Scope, keys: Seq<Key>) -> int
    decreases b.len(),
{
    if b.len() == 0 {
        0
    } else if b[0].scope == scope && b[0].keys == keys {
        0
    } else {
        1 + find_binding_v(b.drop_first(), scope, keys)
    }
}

/// Binding the spelling `text` in `scope` to `role`: the parsed sequence
/// replaces its binding where it stands, or is added last; a spelling that
/// does not parse binds nothing.
pub open spec fn bind_v(b: Seq<BindingV>, scope: Scope, text: Seq<char>, role: RoleV) -> Seq<BindingV> {
    match spec_parse_from(text, 0) {
        Some(keys) => {
            let i = find_binding_v(b, scope, keys);
            let x = BindingV { scope, keys, role };
            if i < b.len() {
                b.update(i, x)
            } else {
                b.push(x)
            }
        },
        None => b,
    }
}

proof fn lemma_find_binding_view(b: Seq<Binding>, scope: Scope, keys: Seq<Key>)
    ensures
        find_binding_v(bindings_view(b), scope, keys) == find_binding(b, scope, keys),
    decreases b.len(),
{
    if b.len() > 0 {
        assert(bindings_view(b).drop_first() =~= bindings_view(b.drop_first()));
        lemma_find_binding_view(b.drop_first(), scope, keys);
    }
}

/// A listing by value: each sequence and the role it is bound to.
pub open spec fn listed_view<'a>(out: Seq<(Vec<Key>, &'a Role)>) -> Seq<(Seq<Key>, Role)> {
    out.map_values(|p: (Vec<Key>, &'a Role)| (p.0@, *p.1))
}

/// Strictly increasing in the order of the sequences.
pub open spec fn in_key_order(out: Seq<(Seq<Key>, Role)>) -> bool {
    forall|k: int, l: int| 0 <= k < l < out.len() ==> keys_lt(#[trigger] out[k].0, #[trigger] out[l].0)
}

/// `y` is a sequence bound in `scope` among `b`, with its role.
pub open spec fn bound_in(b: Seq<Binding>, scope: Scope, y: (Seq<Key>, Role)) -> bool {
    exists|w: int| 0 <= w < b.len() && b[w].scope == scope && y == (#[trigger] b[w].keys, b[w].role)
}

/// `out` lists the bindings of `b` in `scope`, each as its sequence and
/// role, in strictly increasing order of the sequences.
pub open spec fn lists_scope(b: Seq<Binding>, scope: Scope, out: Seq<(Seq<Key>, Role)>) -> bool {
    &&& forall|k: int| 0 <= k < out.len() ==> #[trigger] bound_in(b, scope, out[k])
    &&& forall|w: int| 0 <= w < b.len() && #[trigger] b[w].scope == scope ==> out.contains((b[w].keys, b[w].role))
    &&& in_key_order(out)
}

/// Puts `(keys, role)` into `out` where its sequence belongs.
fn insert_in_order<'a>(out: &mut Vec<(Vec<Key>, &'a Role)>, keys: Vec<Key>, role: &'a Role)
    requires
        in_key_order(listed_view(old(out)@)),
        forall|k: int| 0 <= k < old(out)@.len() ==> #[trigger] listed_view(old(out)@)[k].0 != keys@,
    ensures
        in_key_order(listed_view(final(out)@)),
        listed_view(final(out)@).contains((keys@, *role)),
        forall|k: int| 0 <= k < final(out)@.len() ==> #[trigger] listed_view(final(out)@)[k] == (keys@, *role)
            || listed_view(old(out)@).contains(listed_view(final(out)@)[k]),
        forall|y: (Seq<Key>, Role)| listed_view(old(out)@).contains(y) ==> #[trigger] listed_view(final(out)@).contains(y),
{
    let ghost before = listed_view(out@);
    let ghost x = (keys@, *role);
    let mut j: usize = 0;
    while j < out.len() && !keys_precede(keys.as_slice(), out[j].0.as_slice())
        invariant
            j <= out.len(),
            x == (keys@, *role),
            before == listed_view(out@),
            forall|k: int| 0 <= k < j ==> !keys_lt(x.0, #[trigger] before[k].0),
        decreases out.len() - j,
    {
        assert(before[j as int].0 == out@[j as int].0@);
        j = j + 1;
    }
    proof {
        assert forall|k: int| 0 <= k < j implies keys_lt(#[trigger] before[k].0, x.0) by {
            lemma_keys_order(before[k].0, x.0, x.0);
        }
        assert forall|k: int| j <= k < before.len() implies keys_lt(x.0, #[trigger] before[k].0) by {
            if k > j {
                lemma_keys_order(x.0, before[j as int].0, before[k].0);
            }
        }
    }
    out.insert(j, (keys, role));
    proof {
        let after = listed_view(out@);
        assert(after =~= before.insert(j as int, x));
        assert forall|k: int, l: int| 0 <= k < l < after.len() implies keys_lt(#[trigger] after[k].0, #[trigger] after[l].0) by {
            if l < j {
            } else if k < j && l == j {
            } else if k < j {
                assert(after[l] == before[l - 1]);
                lemma_keys_order(before[k].0, x.0, before[l - 1].0);
            } else if k == j {
                assert(after[l] == before[l - 1]);
            } else {
                assert(after[k] == before[k - 1]);
                assert(after[l] == before[l - 1]);
            }
        }
        assert(after[j as int] == x);
        assert forall|k: int| 0 <= k < after.len() implies #[trigger] after[k] == x || before.contains(after[k]) by {
            if k < j {
                assert(after[k] == before[k]);
            } else if k > j {
                assert(after[k] == before[k - 1]);
            }
        }
        assert forall|y: (Seq<Key>, Role)| before.contains(y) implies #[trigger] after.contains(y) by {
            let k = choose|k: int| 0 <= k < before.len() && before[k] == y;
            if k < j {
                assert(after[k] == y);
            } else {
                assert(after[k + 1] == y);
            }
        }
    }
}

/// Binding the spelling `text` in `scope` to `role`: the parsed sequence
/// replaces its binding where it stands, or is added last; a spelling that
/// does not parse binds nothing.
pub open spec fn spec_bind(b: Seq<Binding>, scope: Scope, text: Seq<char>, role: Role) -> Seq<Binding> {
    match spec_parse_from(text, 0) {
        Some(keys) => {
            let i = find_binding(b, scope, keys);
            let x = Binding { scope, keys, role };
            if i < b.len() {
                b.update(i, x)
            } else {
                b.push(x)
            }
        },
        None => b,
    }
}

/// Unbinding the spelling `text` in `scope`: its binding, if any, is
/// removed; a spelling that does not parse removes nothing.
pub open spec fn spec_unbind(b: Seq<Binding>, scope: Scope, text: Seq<char>) -> Seq<Binding> {
    match spec_parse_from(text, 0) {
        Some(keys) => {
            let i = find_binding(b, scope, keys);
            if i < b.len() {
                b.remove(i)
            } else {
                b
            }
        },
        None => b,
    }
}

/// A keymap as plain data.
#[derive(Debug, Default)]
pub struct Table {
    entries: Vec<(Scope, Vec<Key>, Role)>,
}

impl View for Table {
    type V = Seq<Binding>;

    closed spec fn view(&self) -> Seq<Binding> {
        entries_view(self.entries@)
    }
}

proof fn lemma_find_binding(b: Seq<Binding>, scope: Scope, keys: Seq<Key>)
    ensures
        0 <= find_binding(b, scope, keys) <= b.len(),
        find_binding(b, scope, keys) < b.len() ==> b[find_binding(b, scope, keys)].scope == scope
            && b[find_binding(b, scope, keys)].keys == keys,
        forall|j: int| 0 <= j < find_binding(b, scope, keys) ==> !(b[j].scope == scope && b[j].keys == keys),
    decreases b.len(),
{
    if b.len() > 0 && !(b[0].scope == scope && b[0].keys == keys) {
        lemma_find_binding(b.drop_first(), scope, keys);
        assert forall|j: int| 0 <= j < find_binding(b, scope, keys) implies !(b[j].scope == scope && b[j].keys == keys) by {
            if j > 0 {
                assert(b[j] == b.drop_first()[j - 1]);
            }
        }
    }
}

proof fn lemma_find_binding_at(b: Seq<Binding>, scope: Scope, keys: Seq<Key>, i: int)
    requires
        0 <= i <= b.len(),
        i < b.len() ==> b[i].scope == scope && b[i].keys == keys,
        forall|j: int| 0 <= j < i ==> !(b[j].scope == scope && b[j].keys == keys),
    ensures
        find_binding(b, scope, keys) == i,
    decreases i,
{
    if i > 0 {
        assert(!(b[0].scope == scope && b[0].keys == keys));
        assert forall|j: int| 0 <= j < i - 1 implies !(b.drop_first()[j].scope == scope && b.drop_first()[j].keys == keys) by {
            assert(b.drop_first()[j] == b[j + 1]);
        }
        lemma_find_binding_at(b.drop_first(), scope, keys, i - 1);
    }
}

fn keys_equal(a: &Vec<Key>, b: &Vec<Key>) -> (r: bool)
    ensures
        r == (a@ == b@),
{
    if a.len() != b.len() {
        return false;
    }
    let mut i: usize = 0;
    while i < a.len()
        invariant
            i <= a.len(),
            a.len() == b.len(),
            forall|j: int| 0 <= j < i ==> a@[j] == b@[j],
        decreases a.len() - i,
    {
        if a[i] != b[i] {
            return false;
        }
        i = i + 1;
    }
    assert(a@ =~= b@);
    true
}

fn extends(bound: &Vec<Key>, keys: &[Key]) -> (r: bool)
    ensures
        r == (bound@.len() > keys@.len() && bound@.take(keys@.len() as int) == keys@),
{
    if bound.len() <= keys.len() {
        return false;
    }
    let mut i: usize = 0;
    while i < keys.len()
        invariant
            i <= keys.len(),
            keys.len() < bound.len(),
            forall|j: int| 0 <= j < i ==> bound@[j] == keys@[j],
        decreases keys.len() - i,
    {
        if bound[i] != keys[i] {
            assert(bound@.take(keys@.len() as int)[i as int] != keys@[i as int]);
            return false;
        }
        i = i + 1;
    }
    assert(bound@.take(keys@.len() as int) =~= keys@);
    true
}

impl Table {
    /// An empty table.
    pub fn new() -> (r: Table)
        ensures
            r@ == Seq::<Binding>::empty(),
    {
        let t = Table { entries: Vec::new() };
        assert(t@ =~= Seq::<Binding>::empty());
        t
    }

    fn position(&self, scope: Scope, keys: &Vec<Key>) -> (r: usize)
        ensures
            r == find_binding(self@, scope, keys@),
    {
        let mut i: usize = 0;
        while i < self.entries.len()
            invariant
                i <= self.entries.len(),
                forall|j: int| 0 <= j < i ==> !(self@[j].scope == scope && self@[j].keys == keys@),
            decreases self.entries.len() - i,
        {
            let e = &self.entries[i];
            assert(self@[i as int] == Binding { scope: e.0, keys: e.1@, role: e.2 });
            if e.0 == scope && keys_equal(&e.1, keys) {
                proof {
                    lemma_find_binding_at(self@, scope, keys@, i as int);
                }
                return i;
            }
            i = i + 1;
        }
        proof {
            lemma_find_binding_at(self@, scope, keys@, i as int);
        }
        i
    }

    fn insert(&mut self, scope: Scope, keys: Vec<Key>, role: Role)
        requires
            bindings_unique(old(self)@),
        ensures
            bindings_unique(final(self)@),
            ({
                let i = find_binding(old(self)@, scope, keys@);
                let b = Binding { scope, keys: keys@, role };
                final(self)@ == if i < old(self)@.len() {
                    old(self)@.update(i, b)
                } else {
                    old(self)@.push(b)
                }
            }),
    {
        let i = self.position(scope, &keys);
        proof {
            lemma_find_binding(self@, scope, keys@);
        }
        let ghost b = Binding { scope, keys: keys@, role };
        if i < self.entries.len() {
            self.entries.set(i, (scope, keys, role));
            assert(self@ =~= old(self)@.update(i as int, b));
        } else {
            self.entries.push((scope, keys, role));
            assert(self@ =~= old(self)@.push(b));
        }
        assert forall|x: int, y: int| 0 <= x < y < self@.len() implies !(#[trigger] self@[x].scope == #[trigger] self@[y].scope && self@[x].keys == self@[y].keys) by {
            if x != i && y != i {
                assert(self@[x] == old(self)@[x]);
                assert(self@[y] == old(self)@[y]);
            }
        }
    }

    /// Binds `keys` in `scope`, replacing what was there. A spelling that does
    /// not parse binds nothing.
    pub fn bind(&mut self, scope: Scope, keys: &str, role: Role)
        requires
            bindings_unique(old(self)@),
        ensures
            bindings_unique(final(self)@),
            final(self)@ == spec_bind(old(self)@, scope, keys@, role),
            bindings_view(final(self)@) == bind_v(bindings_view(old(self)@), scope, keys@, role_view(role)),
    {
        let ghost rv = role_view(role);
        match parse_seq(keys) {
            Some(parsed) => {
                proof {
                    lemma_find_binding_view(self@, scope, parsed@);
                    lemma_find_binding(self@, scope, parsed@);
                }
                let ghost before = self@;
                let ghost i = find_binding(before, scope, parsed@);
                self.insert(scope, parsed, role);
                proof {
                    let x = BindingV { scope, keys: parsed@, role: rv };
                    if i < before.len() {
                        assert(bindings_view(self@) =~= bindings_view(before).update(i, x));
                    } else {
                        assert(bindings_view(self@) =~= bindings_view(before).push(x));
                    }
                }
            },
            None => {},
        }
    }

    /// Removes the binding of `keys` in `scope`, if there is one.
    pub fn unbind(&mut self, scope: Scope, keys: &str)
        requires
            bindings_unique(old(self)@),
        ensures
            bindings_unique(final(self)@),
            final(self)@ == spec_unbind(old(self)@, scope, keys@),
    {
        match parse_seq(keys) {
            Some(parsed) => {
                let i = self.position(scope, &parsed);
                proof {
                    lemma_find_binding(self@, scope, parsed@);
                }
                if i < self.entries.len() {
                    self.entries.remove(i);
                    assert(self@ =~= old(self)@.remove(i as int));
                    assert forall|x: int, y: int| 0 <= x < y < self@.len() implies !(#[trigger] self@[x].scope == #[trigger] self@[y].scope && self@[x].keys == self@[y].keys) by {
                        let ox = if x < i { x } else { x + 1 };
                        let oy = if y < i { y } else { y + 1 };
                        assert(self@[x] == old(self)@[ox]);
                        assert(self@[y] == old(self)@[oy]);
                    }
                }
            },
            None => {},
        }
    }

    /// Every sequence bound in `scope`, with its role, in the order of the
    /// sequences.
    pub fn bound(&self, scope: Scope) -> (r: Vec<(Vec<Key>, &Role)>)
        requires
            bindings_unique(self@),
        ensures
            lists_scope(self@, scope, listed_view(r@)),
    {
        let ghost b = self@;
        let mut out: Vec<(Vec<Key>, &Role)> = Vec::new();
        let mut i: usize = 0;
        while i < self.entries.len()
            invariant
                b == self@,
                bindings_unique(b),
                i <= self.entries.len(),
                lists_scope(b.take(i as int), scope, listed_view(out@)),
            decreases self.entries.len() - i,
        {
            let e = &self.entries[i];
            let ghost before = listed_view(out@);
            let ghost pre = b.take(i as int);
            let ghost post = b.take(i + 1);
            proof {
                assert(b[i as int] == Binding { scope: e.0, keys: e.1@, role: e.2 });
                assert forall|j: int| 0 <= j < pre.len() implies #[trigger] post[j] == pre[j] by {}
                assert(post[i as int] == b[i as int]);
            }
            if e.0 == scope {
                proof {
                    assert forall|k: int| 0 <= k < before.len() implies #[trigger] before[k].0 != e.1@ by {
                        assert(bound_in(pre, scope, before[k]));
                        let w = choose|w: int| 0 <= w < pre.len() && pre[w].scope == scope && before[k] == (#[trigger] pre[w].keys, pre[w].role);
                        assert(b[w] == pre[w]);
                    }
                }
                insert_in_order(&mut out, e.1.clone(), &e.2);
                proof {
                    let after = listed_view(out@);
                    let x = (e.1@, e.2);
                    assert forall|k: int| 0 <= k < after.len() implies #[trigger] bound_in(post, scope, after[k]) by {
                        if after[k] == x {
                            assert(post[i as int].scope == scope && after[k] == (post[i as int].keys, post[i as int].role));
                        } else {
                            let kk = choose|kk: int| 0 <= kk < before.len() && before[kk] == after[k];
                            assert(bound_in(pre, scope, before[kk]));
                            let w = choose|w: int| 0 <= w < pre.len() && pre[w].scope == scope && before[kk] == (#[trigger] pre[w].keys, pre[w].role);
                            assert(post[w] == pre[w]);
                        }
                    }
                    assert forall|w: int| 0 <= w < post.len() && #[trigger] post[w].scope == scope implies after.contains(
                        (post[w].keys, post[w].role),
                    ) by {
                        if w < i {
                            assert(post[w] == pre[w]);
                            assert(before.contains((pre[w].keys, pre[w].role)));
                        } else {
                            assert(w == i);
                            assert((post[w].keys, post[w].role) == x);
                        }
                    }
                }
            } else {
                proof {
                    assert forall|k: int| 0 <= k < before.len() implies #[trigger] bound_in(post, scope, before[k]) by {
                        assert(bound_in(pre, scope, before[k]));
                        let w = choose|w: int| 0 <= w < pre.len() && pre[w].scope == scope && before[k] == (#[trigger] pre[w].keys, pre[w].role);
                        assert(post[w] == pre[w]);
                    }
                    assert forall|w: int| 0 <= w < post.len() && #[trigger] post[w].scope == scope implies before.contains(
                        (post[w].keys, post[w].role),
                    ) by {
                        assert(post[w] == pre[w]);
                    }
                }
            }
            proof {
                let now = listed_view(out@);
                assert(lists_scope(post, scope, now));
            }
            i = i + 1;
        }
        assert(b.take(i as int) =~= b);
        out
    }

    /// How many bindings there are, over every scope.
    pub fn len(&self) -> (r: usize)
        ensures
            r == self@.len(),
    {
        self.entries.len()
    }

    /// Whether nothing is bound.
    pub fn is_empty(&self) -> (r: bool)
        ensures
            r == (self@.len() == 0),
    {
        self.entries.len() == 0
    }

    fn is_prefix(&self, scope: Scope, keys: &[Key]) -> (r: bool)
        ensures
            r == has_extension(self@, scope, keys@),
    {
        let mut i: usize = 0;
        while i < self.entries.len()
            invariant
                i <= self.entries.len(),
                forall|j: int| 0 <= j < i ==> !(#[trigger] self@[j].scope == scope && self@[j].keys.len() > keys@.len()
                    && self@[j].keys.take(keys@.len() as int) == keys@),
            decreases self.entries.len() - i,
        {
            let e = &self.entries[i];
            assert(self@[i as int] == Binding { scope: e.0, keys: e.1@, role: e.2 });
            if e.0 == scope && extends(&e.1, keys) {
                assert(self@[i as int].scope == scope && self@[i as int].keys.len() > keys@.len()
                    && self@[i as int].keys.take(keys@.len() as int) == keys@);
                return true;
            }
            i = i + 1;
        }
        false
    }

    /// Adds every binding of `other` that this table does not already have:
    /// this table wins where both bind a sequence.
    pub fn under(&mut self, other: &Table)
        requires
            bindings_unique(old(self)@),
        ensures
            bindings_unique(final(self)@),
            forall|i: int| 0 <= i < old(self)@.len() ==> #[trigger] final(self)@[i] == old(self)@[i],
            forall|j: int|
                0 <= j < other@.len() ==> find_binding(final(self)@, #[trigger] other@[j].scope, other@[j].keys)
                    < final(self)@.len(),
    {
        let mut i: usize = 0;
        while i < other.entries.len()
            invariant
                i <= other.entries.len(),
                bindings_unique(self@),
                old(self)@.len() <= self@.len(),
                forall|k: int| 0 <= k < old(self)@.len() ==> #[trigger] self@[k] == old(self)@[k],
                forall|j: int| 0 <= j < i ==> find_binding(self@, #[trigger] other@[j].scope, other@[j].keys) < self@.len(),
            decreases other.entries.len() - i,
        {
            let e = &other.entries[i];
            assert(other@[i as int] == Binding { scope: e.0, keys: e.1@, role: e.2 });
            let at = self.position(e.0, &e.1);
            proof {
                lemma_find_binding(self@, e.0, e.1@);
            }
            if at == self.entries.len() {
                let ghost before = self@;
                self.insert(e.0, e.1.clone(), e.2.clone());
                assert forall|j: int| 0 <= j <= i implies find_binding(self@, #[trigger] other@[j].scope, other@[j].keys) < self@.len() by {
                    if j < i {
                        let f = find_binding(before, other@[j].scope, other@[j].keys);
                        lemma_find_binding(before, other@[j].scope, other@[j].keys);
                        lemma_find_binding_at(self@, other@[j].scope, other@[j].keys, f);
                    } else {
                        lemma_find_binding(self@, other@[j].scope, other@[j].keys);
                        lemma_find_binding_at(self@, other@[j].scope, other@[j].keys, before.len() as int);
                    }
                }
            }
            i = i + 1;
        }
    }
}

/// What a table answers for `keys` in `scope`: the bound role, else pending
/// if something longer starts this way, else unbound.
pub open spec fn spec_resolve(b: Seq<Binding>, scope: Scope, keys: Seq<Key>, r: Resolution) -> bool {
    let i = find_binding(b, scope, keys);
    if i < b.len() {
        r matches Resolution::Role(role) && same_role(role, b[i].role)
    } else if has_extension(b, scope, keys) {
        r == Resolution::Pending
    } else {
        r == Resolution::Unbound
    }
}

impl Keymap for Table {
    open spec fn answers(&self, scope: Scope, keys: Seq<Key>, r: Resolution) -> bool {
        spec_resolve(self@, scope, keys, r)
    }

    open spec fn keeps(&self, after: &Self) -> bool {
        after@ == self@
    }

    fn resolve(&mut self, scope: Scope, keys: &[Key]) -> (r: Resolution)
        ensures
            final(self)@ == old(self)@,
            spec_resolve(old(self)@, scope, keys@, r),
    {
        let owned = slice_to_vec(keys);
        let i = self.position(scope, &owned);
        proof {
            lemma_find_binding(self@, scope, keys@);
        }
        if i < self.entries.len() {
            assert(self@[i as int].role == self.entries@[i as int].2);
            return Resolution::Role(self.entries[i].2.clone());
        }
        if self.is_prefix(scope, keys) {
            return Resolution::Pending;
        }
        Resolution::Unbound
    }
}

fn slice_to_vec(keys: &[Key]) -> (r: Vec<Key>)
    ensures
        r@ == keys@,
{
    let mut out: Vec<Key> = Vec::new();
    let mut i: usize = 0;
    while i < keys.len()
        invariant
            i <= keys.len(),
            out@ == keys@.take(i as int),
        decreases keys.len() - i,
    {
        out.push(keys[i]);
        i = i + 1;
        assert(out@ =~= keys@.take(i as int));
    }
    assert(keys@.take(i as int) =~= keys@);
    out
}

/// The live editor layer above the seed: the layer is asked first, except
/// inside an operator, where the seed's grammar decides the operand. Each is
/// asked at most once: the second only when the first answers unbound, and
/// inside an operator the layer goes unasked when the seed answers.
pub struct Layered<'a, K: Keymap> {
    layer: &'a mut K,
    seed: &'a mut Table,
}

/// Whether the seed is asked before the layer in `scope`.
pub open spec fn grammar_first(scope: Scope) -> bool {
    scope == Scope::OperatorPending || scope == Scope::Object
}

impl<'a, K: Keymap> Layered<'a, K> {
    /// The editor layer.
    pub closed spec fn layer(self) -> K {
        *self.layer
    }

    /// The seed table.
    pub closed spec fn seed(self) -> Table {
        *self.seed
    }

    /// The layer over the seed.
    pub fn new(layer: &'a mut K, seed: &'a mut Table) -> (r: Layered<'a, K>)
        ensures
            r.layer() == *old(layer),
            r.seed() == *old(seed),
    {
        Layered { layer, seed }
    }
}

/// Whether the seed leaves `keys` unbound in `scope`: no binding and none
/// that extends them.
pub open spec fn seed_unbound(b: Seq<Binding>, scope: Scope, keys: Seq<Key>) -> bool {
    find_binding(b, scope, keys) >= b.len() && !has_extension(b, scope, keys)
}

impl<'a, K: Keymap> Keymap for Layered<'a, K> {
    /// Inside an operator the seed answers, and the layer only where the seed
    /// has nothing; elsewhere the layer answers, and the seed only where the
    /// layer has nothing.
    open spec fn answers(&self, scope: Scope, keys: Seq<Key>, r: Resolution) -> bool {
        if grammar_first(scope) {
            if seed_unbound(self.seed()@, scope, keys) {
                self.layer().answers(scope, keys, r)
            } else {
                spec_resolve(self.seed()@, scope, keys, r)
            }
        } else {
            ||| self.layer().answers(scope, keys, r) && !(r is Unbound)
            ||| self.layer().answers(scope, keys, Resolution::Unbound) && spec_resolve(self.seed()@, scope, keys, r)
        }
    }

    /// The seed stays as it is; the layer is left as answering leaves it.
    open spec fn keeps(&self, after: &Self) -> bool {
        &&& after.seed()@ == self.seed()@
        &&& (after.layer() == self.layer() || self.layer().keeps(&after.layer()))
    }

    fn resolve(&mut self, scope: Scope, keys: &[Key]) -> (r: Resolution)
        ensures
            final(self).seed()@ == old(self).seed()@,
            grammar_first(scope) && !seed_unbound(old(self).seed()@, scope, keys@) ==> spec_resolve(
                old(self).seed()@,
                scope,
                keys@,
                r,
            ),
            r is Unbound ==> seed_unbound(old(self).seed()@, scope, keys@),
            grammar_first(scope) && !seed_unbound(old(self).seed()@, scope, keys@) ==> final(self).layer()
                == old(self).layer(),
            !(grammar_first(scope) && !seed_unbound(old(self).seed()@, scope, keys@)) ==> old(self).layer().keeps(
                &final(self).layer(),
            ),
    {
        let grammar = scope == Scope::OperatorPending || scope == Scope::Object;
        if grammar {
            match self.seed.resolve(scope, keys) {
                Resolution::Unbound => self.layer.resolve(scope, keys),
                answered => answered,
            }
        } else {
            match self.layer.resolve(scope, keys) {
                Resolution::Unbound => self.seed.resolve(scope, keys),
                answered => answered,
            }
        }
    }
}

/// Unbinding what was just bound gives the table back: binding a spelling
/// that was not bound in `scope` and then unbinding it leaves the bindings as
/// they were; and a spelling that does not parse changes nothing either way.
pub proof fn lemma_bind_then_unbind(b: Seq<Binding>, scope: Scope, text: Seq<char>, role: Role)
    requires
        spec_parse_from(text, 0) matches Some(keys) ==> find_binding(b, scope, keys) == b.len(),
    ensures
        spec_unbind(spec_bind(b, scope, text, role), scope, text) == b,
        spec_parse_from(text, 0) is None ==> spec_bind(b, scope, text, role) == b && spec_unbind(b, scope, text) == b,
{
    if let Some(keys) = spec_parse_from(text, 0) {
        lemma_find_binding(b, scope, keys);
        let b1 = b.push(Binding { scope, keys, role });
        assert forall|j: int| 0 <= j < b.len() implies !(b1[j].scope == scope && b1[j].keys == keys) by {
            assert(b1[j] == b[j]);
        }
        lemma_find_binding_at(b1, scope, keys, b.len() as int);
        assert(b1.remove(b.len() as int) =~= b);
    }
}


/// The role `keys` is bound to in `scope` among bindings by value, if any.
pub open spec fn bound_role(b: Seq<BindingV>, scope: Scope, keys: Seq<Key>) -> Option<RoleV> {
    let i = find_binding_v(b, scope, keys);
    if 0 <= i < b.len() {
        Some(b[i].role)
    } else {
        None
    }
}

proof fn lemma_find_v(b: Seq<BindingV>, scope: Scope, keys: Seq<Key>)
    ensures
        0 <= find_binding_v(b, scope, keys) <= b.len(),
        find_binding_v(b, scope, keys) < b.len() ==> b[find_binding_v(b, scope, keys)].scope == scope
            && b[find_binding_v(b, scope, keys)].keys == keys,
        forall|j: int| 0 <= j < find_binding_v(b, scope, keys) ==> !(b[j].scope == scope && b[j].keys == keys),
    decreases b.len(),
{
    if b.len() > 0 && !(b[0].scope == scope && b[0].keys == keys) {
        lemma_find_v(b.drop_first(), scope, keys);
        assert forall|j: int| 0 <= j < find_binding_v(b, scope, keys) implies !(b[j].scope == scope && b[j].keys == keys) by {
            if j > 0 {
                assert(b[j] == b.drop_first()[j - 1]);
            }
        }
    }
}

proof fn lemma_find_v_at(b: Seq<BindingV>, scope: Scope, keys: Seq<Key>, i: int)
    requires
        0 <= i <= b.len(),
        i < b.len() ==> b[i].scope == scope && b[i].keys == keys,
        forall|j: int| 0 <= j < i ==> !(b[j].scope == scope && b[j].keys == keys),
    ensures
        find_binding_v(b, scope, keys) == i,
    decreases i,
{
    if i > 0 {
        assert(!(b[0].scope == scope && b[0].keys == keys));
        assert forall|j: int| 0 <= j < i - 1 implies !(b.drop_first()[j].scope == scope && b.drop_first()[j].keys == keys) by {
            assert(b.drop_first()[j] == b[j + 1]);
        }
        lemma_find_v_at(b.drop_first(), scope, keys, i - 1);
    }
}

/// **Binding touches only what it binds**: binding a spelling that does not
/// read as `keys` in `scope` leaves what `keys` means in `scope` as it was;
/// binding one that does makes it mean the new role.
pub proof fn lemma_bind_v_lookup(b: Seq<BindingV>, s: Scope, text: Seq<char>, role: RoleV, scope: Scope, keys: Seq<Key>)
    ensures
        bound_role(bind_v(b, s, text, role), scope, keys) == if s == scope && spec_parse_from(text, 0) == Some(keys) {
            Some(role)
        } else {
            bound_role(b, scope, keys)
        },
{
    if let Some(k2) = spec_parse_from(text, 0) {
        lemma_find_v(b, s, k2);
        lemma_find_v(b, scope, keys);
        let i = find_binding_v(b, s, k2);
        let j = find_binding_v(b, scope, keys);
        let x = BindingV { scope: s, keys: k2, role };
        let b2 = bind_v(b, s, text, role);
        if s == scope && k2 == keys {
            if i < b.len() {
                assert forall|m: int| 0 <= m < i implies !(b2[m].scope == scope && b2[m].keys == keys) by {
                    assert(b2[m] == b[m]);
                }
                lemma_find_v_at(b2, scope, keys, i);
            } else {
                assert forall|m: int| 0 <= m < i implies !(b2[m].scope == scope && b2[m].keys == keys) by {
                    assert(b2[m] == b[m]);
                }
                lemma_find_v_at(b2, scope, keys, i);
            }
        } else {
            if i < b.len() {
                assert forall|m: int| 0 <= m < j implies !(b2[m].scope == scope && b2[m].keys == keys) by {
                    if m != i {
                        assert(b2[m] == b[m]);
                    }
                }
                if j < b.len() {
                    assert(j != i);
                    assert(b2[j] == b[j]);
                }
                lemma_find_v_at(b2, scope, keys, j);
            } else {
                assert forall|m: int| 0 <= m < j implies !(b2[m].scope == scope && b2[m].keys == keys) by {
                    assert(b2[m] == b[m]);
                }
                if j < b.len() {
                    assert(b2[j] == b[j]);
                    lemma_find_v_at(b2, scope, keys, j);
                } else {
                    assert(!(b2[j].scope == scope && b2[j].keys == keys));
                    assert forall|m: int| 0 <= m < j + 1 implies !(b2[m].scope == scope && b2[m].keys == keys) by {
                        if m < j {
                            assert(b2[m] == b[m]);
                        }
                    }
                    lemma_find_v_at(b2, scope, keys, j + 1);
                }
            }
        }
    }
}

} // verus!
