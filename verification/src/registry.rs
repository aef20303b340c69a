//! The one table the three doors are built from: every capability, its
//! arguments' declared shapes, and its name at each door.

use vstd::prelude::*;

use crate::registry::cli::{shape, shape_arms, shape_fields};
use crate::registry::mcp::{spec_arms, spec_properties, spec_schema};

pub mod steel;
pub mod mcp;
pub mod cli;

use crate::action::{
    actions, is_row, spec_action_count, spec_row_doc, spec_row_domain, spec_row_fields, spec_row_mcp, spec_row_name, spec_row_phase,
    spec_row_task, ActionSpec,
};
use crate::query::{
    is_query_row, queries, spec_query_count, spec_query_row_doc, spec_query_row_domain, spec_query_row_fields, spec_query_row_name,
    spec_query_row_phase, spec_query_row_returns, spec_query_row_task, QuerySpec,
};
use crate::text_util::{push_str, str_eq};
use crate::value::{with_field, with_fields, Args, Value, TAG_FIELD};

verus! {

/// The build phase a capability lands in.
#[derive(Debug, Clone, Copy, PartialEq, Eq, PartialOrd, Ord, Hash, Structural)]
pub enum Phase {
    S1,
    S2,
    S3,
    S4,
    S5,
    S6,
    S7,
    S8,
    V15,
}

/// A phase's spelling.
pub open spec fn spec_phase_str(p: Phase) -> Seq<char> {
    match p {
        Phase::S1 => "S1"@,
        Phase::S2 => "S2"@,
        Phase::S3 => "S3"@,
        Phase::S4 => "S4"@,
        Phase::S5 => "S5"@,
        Phase::S6 => "S6"@,
        Phase::S7 => "S7"@,
        Phase::S8 => "S8"@,
        Phase::V15 => "V15"@,
    }
}

impl Phase {
    /// `S1` … `S8`, `V15`.
    pub fn as_str(self) -> (r: &'static str)
        ensures
            r@ == spec_phase_str(self),
    {
        match self {
            Phase::S1 => "S1",
            Phase::S2 => "S2",
            Phase::S3 => "S3",
            Phase::S4 => "S4",
            Phase::S5 => "S5",
            Phase::S6 => "S6",
            Phase::S7 => "S7",
            Phase::S8 => "S8",
            Phase::V15 => "V15",
        }
    }

    /// The phase `text` spells, if any.
    pub fn parse(text: &str) -> (r: Option<Phase>)
        ensures
            r matches Some(p) ==> spec_phase_str(p) == text@,
            r is None ==> forall|p: Phase| spec_phase_str(p) != text@,
    {
        let all = [Phase::S1, Phase::S2, Phase::S3, Phase::S4, Phase::S5, Phase::S6, Phase::S7, Phase::S8, Phase::V15];
        let mut i: usize = 0;
        while i < 9
            invariant
                0 <= i <= 9,
                all@ == seq![Phase::S1, Phase::S2, Phase::S3, Phase::S4, Phase::S5, Phase::S6, Phase::S7, Phase::S8, Phase::V15],
                forall|j: int| 0 <= j < i ==> spec_phase_str(#[trigger] all@[j]) != text@,
            decreases 9 - i,
        {
            let p = all[i];
            if str_eq(p.as_str(), text) {
                return Some(p);
            }
            i = i + 1;
        }
        assert forall|p: Phase| spec_phase_str(p) != text@ by {
            match p {
                Phase::S1 => assert(all@[0] == p),
                Phase::S2 => assert(all@[1] == p),
                Phase::S3 => assert(all@[2] == p),
                Phase::S4 => assert(all@[3] == p),
                Phase::S5 => assert(all@[4] == p),
                Phase::S6 => assert(all@[5] == p),
                Phase::S7 => assert(all@[6] == p),
                Phase::S8 => assert(all@[7] == p),
                Phase::V15 => assert(all@[8] == p),
            }
        }
        None
    }
}

/// Where a capability comes from: its phase and the task that builds it.
#[derive(Debug, Clone, Copy, PartialEq, Eq)]
pub struct Since {
    /// The phase.
    pub phase: Phase,
    /// The task id.
    pub task: &'static str,
}

/// The three ways in: the Steel runtime, MCP, and the command line.
#[derive(Debug, Clone, Copy, PartialEq, Eq, Hash, Structural)]
pub enum Door {
    Steel,
    Mcp,
    Cli,
}

impl Door {
    /// Every door.
    pub const ALL: [Door; 3] = [Door::Steel, Door::Mcp, Door::Cli];

    /// `steel`, `mcp`, `cli`.
    pub fn as_str(self) -> (r: &'static str)
        ensures
            r@ == spec_door_str(self),
    {
        match self {
            Door::Steel => "steel",
            Door::Mcp => "mcp",
            Door::Cli => "cli",
        }
    }
}

/// A door's spelling.
pub open spec fn spec_door_str(d: Door) -> Seq<char> {
    match d {
        Door::Steel => "steel"@,
        Door::Mcp => "mcp"@,
        Door::Cli => "cli"@,
    }
}

/// What the MCP door does with a call by default.
#[derive(Debug, Clone, Copy, PartialEq, Eq, Structural)]
pub enum McpPolicy {
    Allow,
    Ask,
    Deny,
}

/// One argument of a capability.
#[derive(Debug, PartialEq, Eq)]
pub struct Param {
    /// Its name, as every door spells it.
    pub name: &'static str,
    /// One line describing it.
    pub doc: &'static str,
    /// Its declared shape.
    pub ty: ParamType,
    /// `false` for an `Option` argument, which may be left out.
    pub required: bool,
}

/// One arm of a tagged union.
#[derive(Debug, PartialEq, Eq)]
pub struct UnionVariant {
    /// The tag, carried in [`crate::value::TAG_FIELD`].
    pub tag: &'static str,
    /// One line describing when this arm applies.
    pub doc: &'static str,
    /// This arm's fields.
    pub fields: Vec<Param>,
}

/// The declared shape of a value, in a type language small enough that all
/// three doors can render it.
#[derive(Debug, PartialEq, Eq)]
pub enum ParamType {
    /// `true` / `false`.
    Bool,
    /// A signed integer.
    Int,
    /// An unsigned integer.
    Uint,
    /// Free text.
    Text,
    /// One character.
    Char,
    /// A workspace-relative path.
    Path,
    /// One of a fixed set of spellings.
    Choice(Vec<&'static str>),
    /// Zero or more of one shape.
    List(Box<ParamType>),
    /// Named fields.
    Record(Vec<Param>),
    /// A tagged union.
    Union(Vec<UnionVariant>),
    /// A numeric id of the named kind.
    Id(&'static str),
    /// Anything: a surface's own arguments.
    Any,
}

/// An argument.
pub fn param(name: &'static str, doc: &'static str, ty: ParamType, required: bool) -> (r: Param)
    ensures
        r == (Param { name, doc, ty, required }),
{
    Param { name, doc, ty, required }
}

/// A union arm.
pub fn arm(tag: &'static str, doc: &'static str, fields: Vec<Param>) -> (r: UnionVariant)
    ensures
        r == (UnionVariant { tag, doc, fields }),
{
    UnionVariant { tag, doc, fields }
}

impl Clone for ParamType {
    fn clone(&self) -> (r: Self)
        ensures
            spec_schema(r) == spec_schema(*self),
            shape(r) == shape(*self),
        decreases self,
    {
        match self {
            ParamType::Bool => ParamType::Bool,
            ParamType::Int => ParamType::Int,
            ParamType::Uint => ParamType::Uint,
            ParamType::Text => ParamType::Text,
            ParamType::Char => ParamType::Char,
            ParamType::Path => ParamType::Path,
            ParamType::Choice(tags) => {
                let r = ParamType::Choice(tags.clone());
                assert(r->Choice_0@ =~= tags@);
                r
            },
            ParamType::List(inner) => {
                assert(decreases_to!(*self => **inner));
                ParamType::List(Box::new((**inner).clone()))
            },
            ParamType::Record(fields) => {
                assert(decreases_to!(*self => self->Record_0));
                ParamType::Record(clone_fields(self, fields))
            },
            ParamType::Union(variants) => {
                let mut out: Vec<UnionVariant> = Vec::new();
                let mut i: usize = 0;
                while i < variants.len()
                    invariant
                        i <= variants.len(),
                        self is Union,
                        self->Union_0 == *variants,
                        spec_arms(out@) == spec_arms(variants@.take(i as int)),
                        shape_arms(out@) == shape_arms(variants@.take(i as int)),
                    decreases variants.len() - i,
                {
                    let v = &variants[i];
                    assert(decreases_to!(*self => self->Union_0));
                    assert(decreases_to!(self->Union_0 => self->Union_0@));
                    assert(decreases_to!(self->Union_0@ => self->Union_0@[i as int]));
                    assert(decreases_to!(self->Union_0@[i as int] => self->Union_0@[i as int].fields));
                    let fields = clone_fields(self, &v.fields);
                    let ghost before = out@;
                    out.push(UnionVariant { tag: v.tag, doc: v.doc, fields });
                    assert(out@.drop_last() =~= before);
                    assert(variants@.take(i + 1).drop_last() =~= variants@.take(i as int));
                    i = i + 1;
                }
                assert(variants@.take(i as int) =~= variants@);
                ParamType::Union(out)
            },
            ParamType::Id(of) => ParamType::Id(*of),
            ParamType::Any => ParamType::Any,
        }
    }
}

/// Copies of the fields of `ty`, which holds them, each with its shape.
fn clone_fields(ty: &ParamType, fields: &Vec<Param>) -> (r: Vec<Param>)
    requires
        decreases_to!(*ty => *fields),
    ensures
        spec_properties(r@) == spec_properties(fields@),
        shape_fields(r@) == shape_fields(fields@),
        same_params(r@, fields@),
    decreases ty, 0nat,
{
    let mut out: Vec<Param> = Vec::new();
    let mut i: usize = 0;
    while i < fields.len()
        invariant
            i <= fields@.len(),
            decreases_to!(*ty => *fields),
            spec_properties(out@) == spec_properties(fields@.take(i as int)),
            shape_fields(out@) == shape_fields(fields@.take(i as int)),
            out@.len() == i,
            forall|j: int| 0 <= j < i ==> (#[trigger] out@[j]).name == fields@[j].name && out@[j].required == fields@[j].required && out@[j].doc == fields@[j].doc,
        decreases fields.len() - i,
    {
        let f = &fields[i];
        assert(decreases_to!(*fields => fields@));
        assert(decreases_to!(fields@ => fields@[i as int]));
        assert(decreases_to!(fields@[i as int] => fields@[i as int].ty));
        let t = f.ty.clone();
        let ghost before = out@;
        out.push(Param { name: f.name, doc: f.doc, ty: t, required: f.required });
        assert(out@.drop_last() =~= before);
        assert(fields@.take(i + 1).drop_last() =~= fields@.take(i as int));
        i = i + 1;
    }
    assert(fields@.take(i as int) =~= fields@);
    out
}

impl Clone for Param {
    fn clone(&self) -> (r: Self)
        ensures
            r.name == self.name,
            r.doc == self.doc,
            r.required == self.required,
            spec_schema(r.ty) == spec_schema(self.ty),
            shape(r.ty) == shape(self.ty),
    {
        Param { name: self.name, doc: self.doc, ty: self.ty.clone(), required: self.required }
    }
}

/// `parts`, with `sep` between each two.
pub open spec fn spec_join(parts: Seq<Seq<char>>, sep: Seq<char>) -> Seq<char>
    decreases parts.len(),
{
    if parts.len() == 0 {
        Seq::empty()
    } else if parts.len() == 1 {
        parts[0]
    } else {
        spec_join(parts.drop_last(), sep) + sep + parts.last()
    }
}

/// The text of each of a list of static strings.
pub open spec fn strs_view(parts: Seq<&'static str>) -> Seq<Seq<char>> {
    parts.map_values(|p: &'static str| p@)
}

/// The tags of a union's arms.
pub open spec fn tags_of(variants: Seq<UnionVariant>) -> Seq<Seq<char>> {
    variants.map_values(|v: UnionVariant| v.tag@)
}

/// A shape's short label: `bool`, `int`, `a|b|c`, `text...`, `buffer-id`.
pub open spec fn spec_label(t: ParamType) -> Seq<char>
    decreases t,
{
    match t {
        ParamType::Bool => "bool"@,
        ParamType::Int => "int"@,
        ParamType::Uint => "uint"@,
        ParamType::Text => "text"@,
        ParamType::Char => "char"@,
        ParamType::Path => "path"@,
        ParamType::Choice(tags) => spec_join(strs_view(tags@), "|"@),
        ParamType::List(inner) => spec_label(*inner) + "..."@,
        ParamType::Record(_) => "record"@,
        ParamType::Union(variants) => spec_join(tags_of(variants@), "|"@),
        ParamType::Id(of) => of@ + "-id"@,
        ParamType::Any => "any"@,
    }
}

/// `parts` joined by `sep`.
pub(crate) fn join(parts: &Vec<&'static str>, sep: &str) -> (r: String)
    ensures
        r@ == spec_join(strs_view(parts@), sep@),
{
    let mut out = String::new();
    let mut i: usize = 0;
    while i < parts.len()
        invariant
            i <= parts.len(),
            out@ == spec_join(strs_view(parts@.take(i as int)), sep@),
        decreases parts.len() - i,
    {
        proof {
            assert(strs_view(parts@.take(i + 1)).drop_last() =~= strs_view(parts@.take(i as int)));
        }
        if i > 0 {
            push_str(&mut out, sep);
        }
        push_str(&mut out, parts[i]);
        proof {
            if i == 0 {
                assert(out@ =~= strs_view(parts@.take(1))[0]);
            }
        }
        i = i + 1;
    }
    assert(parts@.take(i as int) =~= parts@);
    out
}

impl ParamType {
    /// The label a door prints for this shape.
    pub fn label(&self) -> (r: String)
        ensures
            r@ == spec_label(*self),
        decreases self,
    {
        proof {
            reveal_strlit("...");
        }
        match self {
            ParamType::Bool => String::from_str("bool"),
            ParamType::Int => String::from_str("int"),
            ParamType::Uint => String::from_str("uint"),
            ParamType::Text => String::from_str("text"),
            ParamType::Char => String::from_str("char"),
            ParamType::Path => String::from_str("path"),
            ParamType::Choice(tags) => join(tags, "|"),
            ParamType::List(inner) => {
                let mut out = inner.label();
                push_str(&mut out, "...");
                out
            },
            ParamType::Record(_) => String::from_str("record"),
            ParamType::Union(variants) => {
                let mut tags: Vec<&'static str> = Vec::new();
                let mut i: usize = 0;
                while i < variants.len()
                    invariant
                        i <= variants.len(),
                        tags@.len() == i,
                        strs_view(tags@) == tags_of(variants@.take(i as int)),
                    decreases variants.len() - i,
                {
                    let ghost before = tags@;
                    tags.push(variants[i].tag);
                    assert forall|j: int| 0 <= j < tags@.len() implies strs_view(tags@)[j] == tags_of(variants@.take(i + 1))[j] by {
                        if j < i {
                            assert(tags@[j] == before[j]);
                            assert(strs_view(before)[j] == tags_of(variants@.take(i as int))[j]);
                        }
                    }
                    i = i + 1;
                    assert(strs_view(tags@) =~= tags_of(variants@.take(i as int)));
                }
                assert(variants@.take(i as int) =~= variants@);
                join(&tags, "|")
            },
            ParamType::Id(of) => {
                let mut out = String::from_str(*of);
                push_str(&mut out, "-id");
                out
            },
            ParamType::Any => String::from_str("any"),
        }
    }
}

/// An Action mutates; a Query reads.
#[derive(Debug, Clone, Copy, PartialEq, Eq, Structural)]
pub enum CapabilityKind {
    Action,
    Query,
}

/// The uniform view over an Action's row and a Query's row that the doors
/// read.
#[derive(Debug, Clone, PartialEq, Eq)]
pub struct Capability {
    /// The globally unique door name, kebab-case.
    pub name: &'static str,
    /// Its domain.
    pub domain: &'static str,
    /// One line.
    pub doc: &'static str,
    /// Action or Query.
    pub kind: CapabilityKind,
    /// Phase and task.
    pub since: Since,
    /// The MCP door's default; always [`McpPolicy::Allow`] for a Query.
    pub mcp: McpPolicy,
    /// Its arguments, in declaration order.
    pub params: Vec<Param>,
    /// What a Query answers; `None` for an Action.
    pub returns: Option<ParamType>,
}

/// The Steel spelling: an Action's name takes a bang, a Query's does not.
pub open spec fn spec_steel_name(name: Seq<char>, kind: CapabilityKind) -> Seq<char> {
    match kind {
        CapabilityKind::Action => name + "!"@,
        CapabilityKind::Query => name,
    }
}

/// A capability's name at a door.
pub open spec fn spec_name_in(name: Seq<char>, kind: CapabilityKind, door: Door) -> Seq<char> {
    match door {
        Door::Steel => spec_steel_name(name, kind),
        Door::Mcp => "phosphor/"@ + name,
        Door::Cli => name,
    }
}

impl Capability {
    /// `name!` for an Action, `name` for a Query.
    pub fn steel_name(&self) -> (r: String)
        ensures
            r@ == spec_steel_name(self.name@, self.kind),
    {
        let mut out = String::from_str(self.name);
        match self.kind {
            CapabilityKind::Action => push_str(&mut out, "!"),
            CapabilityKind::Query => {},
        }
        out
    }

    /// `phosphor/name`.
    pub fn mcp_name(&self) -> (r: String)
        ensures
            r@ == "phosphor/"@ + self.name@,
    {
        let mut out = String::from_str("phosphor/");
        push_str(&mut out, self.name);
        out
    }

    /// The CLI verb is the name itself.
    pub fn cli_verb(&self) -> (r: &'static str)
        ensures
            r == self.name,
    {
        self.name
    }

    /// This capability's name at `door`.
    pub fn name_in(&self, door: Door) -> (r: String)
        ensures
            r@ == spec_name_in(self.name@, self.kind, door),
    {
        match door {
            Door::Steel => self.steel_name(),
            Door::Mcp => self.mcp_name(),
            Door::Cli => String::from_str(self.cli_verb()),
        }
    }
}

impl ActionSpec {
    /// This row as a capability.
    pub fn capability(&self) -> (r: Capability)
        ensures
            r.name == self.name,
            r.domain == self.domain,
            r.doc == self.doc,
            r.kind == CapabilityKind::Action,
            r.since == self.since,
            r.mcp == self.mcp,
            same_params(r.params@, self.params@),
            shape_fields(r.params@) == shape_fields(self.params@),
            r.returns is None,
    {
        Capability {
            name: self.name,
            domain: self.domain,
            doc: self.doc,
            kind: CapabilityKind::Action,
            since: self.since,
            mcp: self.mcp,
            params: clone_params(&self.params),
            returns: None,
        }
    }
}

impl QuerySpec {
    /// This row as a capability; reading is always allowed over MCP.
    pub fn capability(&self) -> (r: Capability)
        ensures
            r.name == self.name,
            r.domain == self.domain,
            r.doc == self.doc,
            r.kind == CapabilityKind::Query,
            r.since == self.since,
            r.mcp == McpPolicy::Allow,
            same_params(r.params@, self.params@),
            shape_fields(r.params@) == shape_fields(self.params@),
            r.returns matches Some(t) && shape(t) == shape(self.returns),
    {
        Capability {
            name: self.name,
            domain: self.domain,
            doc: self.doc,
            kind: CapabilityKind::Query,
            since: self.since,
            mcp: McpPolicy::Allow,
            params: clone_params(&self.params),
            returns: Some(self.returns.clone()),
        }
    }
}

/// Whether two parameter lists name the same arguments, in the same order,
/// with the same optionality.
pub open spec fn same_params(a: Seq<Param>, b: Seq<Param>) -> bool {
    &&& a.len() == b.len()
    &&& forall|i: int| 0 <= i < a.len() ==> (#[trigger] a[i]).name == b[i].name && a[i].required == b[i].required && a[i].doc == b[i].doc
}

fn clone_params(params: &Vec<Param>) -> (r: Vec<Param>)
    ensures
        same_params(r@, params@),
        shape_fields(r@) == shape_fields(params@),
{
    let mut out: Vec<Param> = Vec::new();
    let mut i: usize = 0;
    while i < params.len()
        invariant
            i <= params.len(),
            out@.len() == i,
            forall|j: int| 0 <= j < i ==> (#[trigger] out@[j]).name == params@[j].name && out@[j].required == params@[j].required && out@[j].doc == params@[j].doc,
            shape_fields(out@) == shape_fields(params@.take(i as int)),
        decreases params.len() - i,
    {
        let ghost before = out@;
        out.push(params[i].clone());
        assert(out@.drop_last() =~= before);
        assert(params@.take(i + 1).drop_last() =~= params@.take(i as int));
        i = i + 1;
    }
    assert(params@.take(i as int) =~= params@);
    out
}

/// The door name of capability `i`: the Actions first, then the Queries.
pub open spec fn spec_cap_name(i: nat) -> Seq<char> {
    if i < spec_action_count() {
        spec_row_name(i)
    } else {
        spec_query_row_name((i - spec_action_count()) as nat)
    }
}

/// How many capabilities there are.
pub open spec fn spec_cap_count() -> nat {
    spec_action_count() + spec_query_count()
}

/// Every capability: each Action's row, then each Query's.
/// Whether `c` is capability `i`, field by field: an Action's row, then a
/// Query's.
pub open spec fn is_cap_row(c: Capability, i: nat) -> bool {
    let n = spec_action_count();
    &&& c.name@ == spec_cap_name(i)
    &&& c.domain@ == (if i < n { spec_row_domain(i) } else { spec_query_row_domain((i - n) as nat) })
    &&& c.doc@ == (if i < n { spec_row_doc(i) } else { spec_query_row_doc((i - n) as nat) })
    &&& c.since.phase == (if i < n { spec_row_phase(i) } else { spec_query_row_phase((i - n) as nat) })
    &&& c.since.task@ == (if i < n { spec_row_task(i) } else { spec_query_row_task((i - n) as nat) })
    &&& c.kind == (if i < n { CapabilityKind::Action } else { CapabilityKind::Query })
    &&& c.mcp == (if i < n { spec_row_mcp(i) } else { McpPolicy::Allow })
    &&& shape_fields(c.params@) == (if i < n { spec_row_fields(i) } else { spec_query_row_fields((i - n) as nat) })
    &&& if i < n {
        c.returns is None
    } else {
        c.returns matches Some(t) && shape(t) == spec_query_row_returns((i - n) as nat)
    }
}

pub fn capabilities() -> (r: Vec<Capability>)
    ensures
        r.len() == spec_cap_count(),
        forall|i: int| 0 <= i < r.len() ==> is_cap_row(#[trigger] r[i], i as nat),
        forall|i: int| 0 <= i < r.len() ==> (#[trigger] r[i]).name@ == spec_cap_name(i as nat),
        forall|i: int|
            0 <= i < r.len() ==> (#[trigger] r[i]).kind == (if i < spec_action_count() {
                CapabilityKind::Action
            } else {
                CapabilityKind::Query
            }),
        forall|i: int| 0 <= i < spec_action_count() ==> (#[trigger] r[i]).mcp == spec_row_mcp(i as nat),
        forall|i: int| spec_action_count() <= i < r.len() ==> (#[trigger] r[i]).mcp == McpPolicy::Allow,
{
    let rows = actions();
    let reads = queries();
    let mut out: Vec<Capability> = Vec::new();
    let mut i: usize = 0;
    while i < rows.len()
        invariant
            i <= rows.len(),
            rows.len() == spec_action_count(),
            out.len() == i,
            forall|j: int| 0 <= j < rows.len() ==> is_row(#[trigger] rows[j], j as nat),
            forall|j: int| 0 <= j < i ==> is_cap_row(#[trigger] out[j], j as nat),
        decreases rows.len() - i,
    {
        out.push(rows[i].capability());
        i = i + 1;
    }
    let mut k: usize = 0;
    while k < reads.len()
        invariant
            k <= reads.len(),
            reads.len() == spec_query_count(),
            out.len() == spec_action_count() + k,
            forall|j: int| 0 <= j < reads.len() ==> is_query_row(#[trigger] reads[j], j as nat),
            forall|j: int| 0 <= j < out.len() ==> is_cap_row(#[trigger] out[j], j as nat),
        decreases reads.len() - k,
    {
        out.push(reads[k].capability());
        k = k + 1;
    }
    out
}

/// The capability registered under `name`, if any.
pub fn lookup(name: &str) -> (r: Option<Capability>)
    ensures
        r is Some <==> exists|i: nat| i < spec_cap_count() && spec_cap_name(i) == name@,
        r matches Some(c) ==> c.name@ == name@,
        r matches Some(c) ==> exists|i: nat|
            i < spec_cap_count() && #[trigger] spec_cap_name(i) == name@
                && (forall|j: nat| j < i ==> spec_cap_name(j) != name@) && is_cap_row(c, i),
{
    let all = capabilities();
    let mut i: usize = 0;
    while i < all.len()
        invariant
            i <= all.len(),
            all.len() == spec_cap_count(),
            forall|j: int| 0 <= j < all.len() ==> is_cap_row(#[trigger] all[j], j as nat),
            forall|j: nat| j < i ==> spec_cap_name(j) != name@,
        decreases all.len() - i,
    {
        if str_eq(all[i].name, name) {
            assert(spec_cap_name(i as nat) == name@);
            return Some(all[i].clone_capability());
        }
        assert(all[i as int].name@ == spec_cap_name(i as nat));
        i = i + 1;
    }
    None
}

impl Capability {
    /// A copy of this capability.
    pub fn clone_capability(&self) -> (r: Capability)
        ensures
            r.name == self.name,
            r.domain == self.domain,
            r.doc == self.doc,
            r.kind == self.kind,
            r.since == self.since,
            r.mcp == self.mcp,
            same_params(r.params@, self.params@),
            shape_fields(r.params@) == shape_fields(self.params@),
            match self.returns {
                Some(t) => r.returns matches Some(u) && shape(u) == shape(t),
                None => r.returns is None,
            },
    {
        Capability {
            name: self.name,
            domain: self.domain,
            doc: self.doc,
            kind: self.kind,
            since: self.since,
            mcp: self.mcp,
            params: clone_params(&self.params),
            returns: match &self.returns {
                Some(t) => Some(t.clone()),
                None => None,
            },
        }
    }
}


// ---------------------------------------------------------------------------
// Sample arguments
// ---------------------------------------------------------------------------

/// Whether `v` is the canonical example of shape `t`: `true`, `-1`, `1`,
/// `"sample"`, `"a"`, `"src/retry.rs"`, the first choice, a one-element
/// list, a record of samples, the first arm with its samples, `7`, and an
/// empty record for an open shape.
pub open spec fn is_sample(v: Value, t: ParamType) -> bool
    decreases t,
{
    match t {
        ParamType::Bool => v == Value::Bool(true),
        ParamType::Int => v == Value::Int(-1i64),
        ParamType::Uint => v == Value::Int(1),
        ParamType::Text => v matches Value::Text(s) && s@ == "sample"@,
        ParamType::Char => v matches Value::Text(s) && s@ == "a"@,
        ParamType::Path => v matches Value::Text(s) && s@ == "src/retry.rs"@,
        ParamType::Choice(tags) => if tags@.len() == 0 {
            v == Value::Null
        } else {
            v matches Value::Text(s) && s@ == tags@[0]@
        },
        ParamType::List(inner) => v matches Value::List(items) && items@.len() == 1 && is_sample(items@[0], *inner),
        ParamType::Record(fields) => v matches Value::Record(a) && is_sample_args(a@, fields@),
        ParamType::Union(variants) => if variants@.len() == 0 {
            v == Value::Null
        } else {
            v matches Value::Record(a) && exists|tag: String, f: Seq<(Seq<char>, Value)>|
                #![trigger with_fields(seq![(TAG_FIELD@, Value::Text(tag))], f)]
                tag@ == variants@[0].tag@ && is_sample_args(f, variants@[0].fields@)
                    && a@ == with_fields(seq![(TAG_FIELD@, Value::Text(tag))], f)
        },
        ParamType::Id(_) => v == Value::Int(7),
        ParamType::Any => v matches Value::Record(a) && a@.len() == 0,
    }
}

/// Whether `a` is each of `ps` set, in order, to its sample.
pub open spec fn is_sample_args(a: Seq<(Seq<char>, Value)>, ps: Seq<Param>) -> bool
    decreases ps,
{
    if ps.len() == 0 {
        a.len() == 0
    } else {
        exists|prev: Seq<(Seq<char>, Value)>, v: Value|
            #![trigger with_field(prev, ps.last().name@, v)]
            is_sample_args(prev, ps.drop_last()) && is_sample(v, ps.last().ty) && a == with_field(
                prev,
                ps.last().name@,
                v,
            )
    }
}

proof fn lemma_sample_args_push(prev: Seq<(Seq<char>, Value)>, ps: Seq<Param>, v: Value, a: Seq<(Seq<char>, Value)>)
    requires
        ps.len() > 0,
        is_sample_args(prev, ps.drop_last()),
        is_sample(v, ps.last().ty),
        a == with_field(prev, ps.last().name@, v),
    ensures
        is_sample_args(a, ps),
{
}

/// A canonical example value of a declared shape.
pub fn sample(ty: &ParamType) -> (r: Value)
    ensures
        is_sample(r, *ty),
    decreases ty,
{
    match ty {
        ParamType::Bool => Value::Bool(true),
        ParamType::Int => Value::Int(-1),
        ParamType::Uint => Value::Int(1),
        ParamType::Text => Value::Text(String::from_str("sample")),
        ParamType::Char => Value::Text(String::from_str("a")),
        ParamType::Path => Value::Text(String::from_str("src/retry.rs")),
        ParamType::Choice(tags) => if tags.len() == 0 {
            Value::Null
        } else {
            Value::Text(String::from_str(tags[0]))
        },
        ParamType::List(inner) => {
            assert(decreases_to!(*ty => **inner));
            let item = sample(inner);
            let mut items: Vec<Value> = Vec::new();
            items.push(item);
            Value::List(items)
        },
        ParamType::Record(fields) => {
            assert(decreases_to!(*ty => ty->Record_0));
            Value::Record(samples_of(ty, fields))
        },
        ParamType::Union(variants) => if variants.len() == 0 {
            Value::Null
        } else {
            assert(decreases_to!(*ty => ty->Union_0));
            assert(decreases_to!(ty->Union_0 => ty->Union_0@));
            assert(decreases_to!(ty->Union_0@ => ty->Union_0@[0]));
            assert(decreases_to!(ty->Union_0@[0] => ty->Union_0@[0].fields));
            let fields = samples_of(ty, &variants[0].fields);
            let ghost f = fields@;
            let r = Value::tagged(variants[0].tag, fields);
            proof {
                let a = r->Record_0;
                let tag = choose|tag: String| tag@ == variants@[0].tag@ && a@ == with_fields(
                    seq![(TAG_FIELD@, Value::Text(tag))],
                    f,
                );
                assert(is_sample_args(f, variants@[0].fields@));
            }
            r
        },
        ParamType::Id(_) => Value::Int(7),
        ParamType::Any => Value::Record(Args::new()),
    }
}

/// The samples of the parameters of `ty`, which holds them.
fn samples_of(ty: &ParamType, params: &Vec<Param>) -> (r: Args)
    requires
        decreases_to!(*ty => *params),
    ensures
        is_sample_args(r@, params@),
    decreases ty, 0nat,
{
    let mut args = Args::new();
    let mut i: usize = 0;
    assert(params@.take(0) =~= Seq::<Param>::empty());
    while i < params.len()
        invariant
            i <= params@.len(),
            decreases_to!(*ty => *params),
            is_sample_args(args@, params@.take(i as int)),
        decreases params.len() - i,
    {
        let p = &params[i];
        assert(decreases_to!(*params => params@));
        assert(decreases_to!(params@ => params@[i as int]));
        assert(decreases_to!(params@[i as int] => params@[i as int].ty));
        let v = sample(&p.ty);
        let ghost gv = v;
        let ghost prev = args@;
        args.set(p.name, v);
        proof {
            let ps = params@.take(i + 1);
            assert(ps.drop_last() =~= params@.take(i as int));
            assert(ps.last() == *p);
            assert(is_sample_args(prev, ps.drop_last()));
            assert(is_sample(gv, ps.last().ty));
            lemma_sample_args_push(prev, ps, gv, args@);
        }
        i = i + 1;
    }
    assert(params@.take(i as int) =~= params@);
    args
}

/// Canonical example arguments for a parameter list: every field filled,
/// optional ones included.
pub fn sample_args(params: &[Param]) -> (r: Args)
    ensures
        is_sample_args(r@, params@),
{
    let mut args = Args::new();
    let mut i: usize = 0;
    assert(params@.take(0) =~= Seq::<Param>::empty());
    while i < params.len()
        invariant
            i <= params@.len(),
            is_sample_args(args@, params@.take(i as int)),
        decreases params.len() - i,
    {
        let p = &params[i];
        let v = sample(&p.ty);
        let ghost gv = v;
        let ghost prev = args@;
        args.set(p.name, v);
        proof {
            let ps = params@.take(i + 1);
            assert(ps.drop_last() =~= params@.take(i as int));
            assert(ps.last() == *p);
            assert(is_sample_args(prev, ps.drop_last()));
            assert(is_sample(gv, ps.last().ty));
            lemma_sample_args_push(prev, ps, gv, args@);
        }
        i = i + 1;
    }
    assert(params@.take(i as int) =~= params@);
    args
}

impl Capability {
    /// Canonical example arguments for this capability.
    pub fn sample_args(&self) -> (r: Args)
        ensures
            is_sample_args(r@, self.params@),
    {
        sample_args(self.params.as_slice())
    }
}


// ---------------------------------------------------------------------------
// One capability, all three doors
// ---------------------------------------------------------------------------

/// One capability as each of the three doors sees it.
#[derive(Debug)]
pub struct Registration {
    /// The row.
    pub capability: Capability,
    /// The Steel binding.
    pub steel: steel::Binding,
    /// The MCP tool.
    pub mcp: mcp::Tool,
    /// The CLI verb.
    pub cli: cli::Verb,
}

/// Whether `r` is capability `c` at all three doors.
pub open spec fn is_registration_of(r: Registration, c: Capability) -> bool {
    &&& r.capability.name == c.name
    &&& r.capability.domain == c.domain
    &&& r.capability.doc == c.doc
    &&& r.capability.kind == c.kind
    &&& r.capability.since == c.since
    &&& r.capability.mcp == c.mcp
    &&& same_params(r.capability.params@, c.params@)
    &&& steel::is_binding_of(r.steel, c)
    &&& mcp::is_tool_of(r.mcp, c)
    &&& cli::is_verb_of(r.cli, c)
}

impl Capability {
    /// This capability at all three doors.
    pub fn registration(&self) -> (r: Registration)
        ensures
            is_registration_of(r, *self),
    {
        Registration {
            capability: self.clone_capability(),
            steel: steel::binding(self),
            mcp: mcp::tool(self),
            cli: cli::verb(self),
        }
    }
}

/// Whether `r` is a capability named `name` at all three doors.
pub open spec fn is_registration_named(r: Registration, name: Seq<char>) -> bool {
    exists|c: Capability| #[trigger] is_registration_of(r, c) && c.name@ == name
}

/// Every capability at every door, in registry order.
pub fn registrations() -> (r: Vec<Registration>)
    ensures
        r.len() == spec_cap_count(),
        forall|i: int| 0 <= i < r.len() ==> is_registration_named(#[trigger] r[i], spec_cap_name(i as nat)),
{
    let all = capabilities();
    let mut out: Vec<Registration> = Vec::new();
    let mut i: usize = 0;
    while i < all.len()
        invariant
            i <= all.len(),
            all.len() == spec_cap_count(),
            forall|j: int| 0 <= j < all.len() ==> (#[trigger] all[j]).name@ == spec_cap_name(j as nat),
            out.len() == i,
            forall|j: int| 0 <= j < i ==> #[trigger] is_registration_of(out[j], all[j]),
        decreases all.len() - i,
    {
        out.push(all[i].registration());
        i = i + 1;
    }
    assert forall|j: int| 0 <= j < out.len() implies is_registration_named(#[trigger] out[j], spec_cap_name(j as nat)) by {
        assert(is_registration_of(out[j], all[j]));
    }
    out
}

} // verus!
