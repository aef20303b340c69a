//! The CLI door: one verb per capability, derived from its row.
//!
//! The generated verbs are sugar over one door-neutral call: flags in, call
//! out. A structured argument becomes flags by flattening:
//!
//! ```text
//! target: a tagged union  ->  --target <arm>           the tag
//!                              --target.path <PATH>     shared by two arms
//!                              --target.region.id <..>  tag-qualified
//! at: a record            ->  --at.line <UINT>
//!                              --at.column <UINT>
//! ```
//!
//! Two arms that declare the same field name with the same shape share one
//! flag; where the shapes differ the flag is qualified with the tag, so a flag
//! never means two shapes. A list of records and an open shape cannot be
//! flattened: those parameters are listed as unreachable and called through
//! `--eval`.

use vstd::prelude::*;

use crate::language::starts_with;
use crate::registry::mcp::{contains_str, has_prefix};
use crate::input::key::{all_digits, digits_value};
use crate::input::text::{to_upper, upper_case_of};
use crate::value::{
    lemma_record_view_with_field, lemma_record_view_with_fields, lemma_value_view, record_view, value_view, values_view, with_field,
    with_fields, Args, Call, Value, ValueV, TAG_FIELD,
};
use crate::registry::{spec_join as spec_join_all, spec_label, strs_view, Capability, CapabilityKind, Param, ParamType, Since, UnionVariant};
use crate::text_util::{chars_of, digits_at_most, push_char, push_str, str_eq};

verus! {

// ---------------------------------------------------------------------------
// Shapes, compared by value
// ---------------------------------------------------------------------------

/// A declared shape with every name as characters, which is what two shapes
/// being the same means.
pub enum ShapeV {
    Bool,
    Int,
    Uint,
    Text,
    Char,
    Path,
    Choice(Seq<Seq<char>>),
    List(Box<ShapeV>),
    Record(Seq<FieldV>),
    Union(Seq<ArmShapeV>),
    Id(Seq<char>),
    Any,
}

/// A field of a record shape.
pub struct FieldV {
    pub name: Seq<char>,
    pub doc: Seq<char>,
    pub shape: ShapeV,
    pub required: bool,
}

/// An arm of a union shape.
pub struct ArmShapeV {
    pub tag: Seq<char>,
    pub doc: Seq<char>,
    pub fields: Seq<FieldV>,
}

/// The shape of a declared type.
pub open spec fn shape(t: ParamType) -> ShapeV
    decreases t,
{
    match t {
        ParamType::Bool => ShapeV::Bool,
        ParamType::Int => ShapeV::Int,
        ParamType::Uint => ShapeV::Uint,
        ParamType::Text => ShapeV::Text,
        ParamType::Char => ShapeV::Char,
        ParamType::Path => ShapeV::Path,
        ParamType::Choice(tags) => ShapeV::Choice(strs_view(tags@)),
        ParamType::List(inner) => ShapeV::List(Box::new(shape(*inner))),
        ParamType::Record(fields) => ShapeV::Record(shape_fields(fields@)),
        ParamType::Union(variants) => ShapeV::Union(shape_arms(variants@)),
        ParamType::Id(of) => ShapeV::Id(of@),
        ParamType::Any => ShapeV::Any,
    }
}

/// The shapes of some fields.
pub open spec fn shape_fields(ps: Seq<Param>) -> Seq<FieldV>
    decreases ps,
{
    if ps.len() == 0 {
        Seq::empty()
    } else {
        let p = ps.last();
        shape_fields(ps.drop_last()).push(FieldV { name: p.name@, doc: p.doc@, shape: shape(p.ty), required: p.required })
    }
}

/// The shapes of some arms.
pub open spec fn shape_arms(vs: Seq<UnionVariant>) -> Seq<ArmShapeV>
    decreases vs,
{
    if vs.len() == 0 {
        Seq::empty()
    } else {
        let v = vs.last();
        shape_arms(vs.drop_last()).push(ArmShapeV { tag: v.tag@, doc: v.doc@, fields: shape_fields(v.fields@) })
    }
}

/// The shapes of some fields, one per field, each that field's shape.
pub proof fn lemma_shape_fields_index(ps: Seq<Param>)
    ensures
        shape_fields(ps).len() == ps.len(),
        forall|i: int| 0 <= i < ps.len() ==> #[trigger] shape_fields(ps)[i] == (FieldV {
            name: ps[i].name@,
            doc: ps[i].doc@,
            shape: shape(ps[i].ty),
            required: ps[i].required,
        }),
    decreases ps.len(),
{
    if ps.len() > 0 {
        lemma_shape_fields_index(ps.drop_last());
        assert forall|i: int| 0 <= i < ps.len() implies #[trigger] shape_fields(ps)[i] == (FieldV {
            name: ps[i].name@,
            doc: ps[i].doc@,
            shape: shape(ps[i].ty),
            required: ps[i].required,
        }) by {
            if i < ps.len() - 1 {
                assert(shape_fields(ps)[i] == shape_fields(ps.drop_last())[i]);
                assert(ps.drop_last()[i] == ps[i]);
            }
        }
    }
}

/// The shapes of some arms, one per arm, each that arm's shape.
pub proof fn lemma_shape_arms_index(vs: Seq<UnionVariant>)
    ensures
        shape_arms(vs).len() == vs.len(),
        forall|i: int| 0 <= i < vs.len() ==> #[trigger] shape_arms(vs)[i] == (ArmShapeV {
            tag: vs[i].tag@,
            doc: vs[i].doc@,
            fields: shape_fields(vs[i].fields@),
        }),
    decreases vs.len(),
{
    if vs.len() > 0 {
        lemma_shape_arms_index(vs.drop_last());
        assert forall|i: int| 0 <= i < vs.len() implies #[trigger] shape_arms(vs)[i] == (ArmShapeV {
            tag: vs[i].tag@,
            doc: vs[i].doc@,
            fields: shape_fields(vs[i].fields@),
        }) by {
            if i < vs.len() - 1 {
                assert(shape_arms(vs)[i] == shape_arms(vs.drop_last())[i]);
                assert(vs.drop_last()[i] == vs[i]);
            }
        }
    }
}

fn strs_equal(a: &Vec<&'static str>, b: &Vec<&'static str>) -> (r: bool)
    ensures
        r == (strs_view(a@) == strs_view(b@)),
{
    if a.len() != b.len() {
        assert(strs_view(a@).len() != strs_view(b@).len());
        return false;
    }
    let mut i: usize = 0;
    while i < a.len()
        invariant
            i <= a@.len(),
            a@.len() == b@.len(),
            forall|j: int| 0 <= j < i ==> strs_view(a@)[j] == strs_view(b@)[j],
        decreases a.len() - i,
    {
        if !str_eq(a[i], b[i]) {
            assert(strs_view(a@)[i as int] != strs_view(b@)[i as int]);
            return false;
        }
        i = i + 1;
    }
    assert(strs_view(a@) =~= strs_view(b@));
    true
}

/// Whether two declared shapes are the same, names and docs included.
pub fn types_equal(a: &ParamType, b: &ParamType) -> (r: bool)
    ensures
        r == (shape(*a) == shape(*b)),
    decreases a,
{
    match (a, b) {
        (ParamType::Bool, ParamType::Bool) | (ParamType::Int, ParamType::Int) | (ParamType::Uint, ParamType::Uint)
        | (ParamType::Text, ParamType::Text) | (ParamType::Char, ParamType::Char) | (ParamType::Path, ParamType::Path)
        | (ParamType::Any, ParamType::Any) => true,
        (ParamType::Choice(x), ParamType::Choice(y)) => strs_equal(x, y),
        (ParamType::List(x), ParamType::List(y)) => {
            assert(decreases_to!(*a => **x));
            types_equal(x, y)
        },
        (ParamType::Record(x), ParamType::Record(y)) => {
            assert(decreases_to!(*a => a->Record_0));
            fields_equal(a, x, y)
        },
        (ParamType::Union(x), ParamType::Union(y)) => {
            if x.len() != y.len() {
                proof {
                    lemma_shape_arms_index(x@);
                    lemma_shape_arms_index(y@);
                }
                return false;
            }
            let mut i: usize = 0;
            proof {
                lemma_shape_arms_index(x@);
                lemma_shape_arms_index(y@);
            }
            while i < x.len()
                invariant
                    i <= x@.len(),
                    x@.len() == y@.len(),
                    a is Union,
                    a->Union_0 == *x,
                    b is Union,
                    b->Union_0 == *y,
                    shape_arms(x@).len() == x@.len(),
                    shape_arms(y@).len() == y@.len(),
                    forall|j: int| 0 <= j < x@.len() ==> #[trigger] shape_arms(x@)[j] == (ArmShapeV { tag: x@[j].tag@, doc: x@[j].doc@, fields: shape_fields(x@[j].fields@) }),
                    forall|j: int| 0 <= j < y@.len() ==> #[trigger] shape_arms(y@)[j] == (ArmShapeV { tag: y@[j].tag@, doc: y@[j].doc@, fields: shape_fields(y@[j].fields@) }),
                    forall|j: int| 0 <= j < i ==> shape_arms(x@)[j] == shape_arms(y@)[j],
                decreases x.len() - i,
            {
                assert(decreases_to!(*a => a->Union_0));
                assert(decreases_to!(a->Union_0 => a->Union_0@));
                assert(decreases_to!(a->Union_0@ => a->Union_0@[i as int]));
                assert(decreases_to!(a->Union_0@[i as int] => a->Union_0@[i as int].fields));
                let same = str_eq(x[i].tag, y[i].tag) && str_eq(x[i].doc, y[i].doc) && fields_equal(a, &x[i].fields, &y[i].fields);
                if !same {
                    assert(shape_arms(x@)[i as int] != shape_arms(y@)[i as int]);
                    assert(shape_arms(x@) != shape_arms(y@));
                    return false;
                }
                i = i + 1;
            }
            assert(shape_arms(x@) =~= shape_arms(y@));
            true
        },
        (ParamType::Id(x), ParamType::Id(y)) => str_eq(x, y),
        _ => false,
    }
}

/// Whether the fields of `owner` are the same as `other`.
fn fields_equal(owner: &ParamType, mine: &Vec<Param>, other: &Vec<Param>) -> (r: bool)
    requires
        decreases_to!(*owner => *mine),
    ensures
        r == (shape_fields(mine@) == shape_fields(other@)),
    decreases owner, 0nat,
{
    proof {
        lemma_shape_fields_index(mine@);
        lemma_shape_fields_index(other@);
    }
    if mine.len() != other.len() {
        return false;
    }
    let mut i: usize = 0;
    while i < mine.len()
        invariant
            i <= mine@.len(),
            mine@.len() == other@.len(),
            decreases_to!(*owner => *mine),
            shape_fields(mine@).len() == mine@.len(),
            shape_fields(other@).len() == other@.len(),
            forall|j: int| 0 <= j < mine@.len() ==> #[trigger] shape_fields(mine@)[j] == (FieldV { name: mine@[j].name@, doc: mine@[j].doc@, shape: shape(mine@[j].ty), required: mine@[j].required }),
            forall|j: int| 0 <= j < other@.len() ==> #[trigger] shape_fields(other@)[j] == (FieldV { name: other@[j].name@, doc: other@[j].doc@, shape: shape(other@[j].ty), required: other@[j].required }),
            forall|j: int| 0 <= j < i ==> shape_fields(mine@)[j] == shape_fields(other@)[j],
        decreases mine.len() - i,
    {
        assert(decreases_to!(*mine => mine@));
        assert(decreases_to!(mine@ => mine@[i as int]));
        assert(decreases_to!(mine@[i as int] => mine@[i as int].ty));
        let same = str_eq(mine[i].name, other[i].name) && str_eq(mine[i].doc, other[i].doc)
            && mine[i].required == other[i].required && types_equal(&mine[i].ty, &other[i].ty);
        if !same {
            assert(shape_fields(mine@)[i as int] != shape_fields(other@)[i as int]);
            return false;
        }
        i = i + 1;
    }
    assert(shape_fields(mine@) =~= shape_fields(other@));
    true
}


// ---------------------------------------------------------------------------
// The verb
// ---------------------------------------------------------------------------

/// What a flag's value looks like on the command line.
#[derive(Debug, PartialEq, Eq)]
pub enum FlagValue {
    /// `--before`: presence is `true`, absence is `false`.
    Switch,
    /// `--line <UINT>`: one value, read by [`parse_scalar`].
    One(ParamType),
    /// `--path <PATH>`, repeatable: each occurrence is one element.
    Many(ParamType),
    /// `--target <region|file|...>`: selects a union arm.
    Arm(Vec<&'static str>),
}

/// A flag's value with its shape and tags as characters.
pub enum FlagValueV {
    Switch,
    One(ShapeV),
    Many(ShapeV),
    Arm(Seq<Seq<char>>),
}

impl View for FlagValue {
    type V = FlagValueV;

    open spec fn view(&self) -> FlagValueV {
        match self {
            FlagValue::Switch => FlagValueV::Switch,
            FlagValue::One(t) => FlagValueV::One(shape(*t)),
            FlagValue::Many(t) => FlagValueV::Many(shape(*t)),
            FlagValue::Arm(tags) => FlagValueV::Arm(strs_view(tags@)),
        }
    }
}

impl Clone for FlagValue {
    fn clone(&self) -> (r: Self)
        ensures
            r@ == self@,
    {
        match self {
            FlagValue::Switch => FlagValue::Switch,
            FlagValue::One(t) => FlagValue::One(t.clone()),
            FlagValue::Many(t) => FlagValue::Many(t.clone()),
            FlagValue::Arm(tags) => {
                let r = FlagValue::Arm(tags.clone());
                assert(r->Arm_0@ =~= tags@);
                r
            },
        }
    }
}

/// When a flag must be supplied.
#[derive(Debug, PartialEq, Eq)]
pub enum Requirement {
    /// Always: a required parameter, or a required field of one.
    Always,
    /// Never; omitting it means the argument is absent.
    Optional,
    /// Only when another flag selected one of these union arms.
    WithArm {
        /// The flag carrying the tag.
        flag: String,
        /// The arms that need this one.
        tags: Vec<&'static str>,
    },
}

/// A requirement with its names as characters.
pub enum ReqV {
    Always,
    Optional,
    WithArm { flag: Seq<char>, tags: Seq<Seq<char>> },
}

impl View for Requirement {
    type V = ReqV;

    open spec fn view(&self) -> ReqV {
        match self {
            Requirement::Always => ReqV::Always,
            Requirement::Optional => ReqV::Optional,
            Requirement::WithArm { flag, tags } => ReqV::WithArm { flag: flag@, tags: strs_view(tags@) },
        }
    }
}

impl Clone for Requirement {
    fn clone(&self) -> (r: Self)
        ensures
            r@ == self@,
    {
        match self {
            Requirement::Always => Requirement::Always,
            Requirement::Optional => Requirement::Optional,
            Requirement::WithArm { flag, tags } => {
                let r = Requirement::WithArm { flag: flag.clone(), tags: tags.clone() };
                assert(r->tags@ =~= tags@);
                r
            },
        }
    }
}

/// One command-line flag.
#[derive(Debug, Clone, PartialEq, Eq)]
pub struct Flag {
    /// The long name, without `--`: `"target"`, `"target.id"`, `"at.line"`.
    pub long: String,
    /// One line, in the product's voice.
    pub help: &'static str,
    /// The value's shape.
    pub value: FlagValue,
    /// When it must be supplied.
    pub requirement: Requirement,
}

/// A flag with its names as characters.
pub struct FlagV {
    pub long: Seq<char>,
    pub help: Seq<char>,
    pub value: FlagValueV,
    pub requirement: ReqV,
}

impl View for Flag {
    type V = FlagV;

    open spec fn view(&self) -> FlagV {
        FlagV { long: self.long@, help: self.help@, value: self.value@, requirement: self.requirement@ }
    }
}

/// Some flags, each by its view.
pub open spec fn flags_view(fs: Seq<Flag>) -> Seq<FlagV> {
    fs.map_values(|f: Flag| f@)
}

/// A Rust field name as a command-line flag: each `_` becomes `-`.
pub open spec fn spec_kebab(name: Seq<char>) -> Seq<char> {
    name.map_values(|c: char| if c == '_' { '-' } else { c })
}

/// The flag for field `name` under `base`.
pub open spec fn spec_join(base: Seq<char>, name: Seq<char>) -> Seq<char> {
    base + "."@ + spec_kebab(name)
}

/// A field of a nested record is never more required than its parent.
pub open spec fn spec_narrow(parent: ReqV, required: bool) -> ReqV {
    if required {
        parent
    } else {
        ReqV::Optional
    }
}

/// Whether a shape is read from one piece of text.
pub open spec fn is_scalar(s: ShapeV) -> bool {
    match s {
        ShapeV::Bool | ShapeV::Int | ShapeV::Uint | ShapeV::Text | ShapeV::Char | ShapeV::Path | ShapeV::Choice(_)
        | ShapeV::Id(_) => true,
        _ => false,
    }
}

/// `tags` with each of `more` that it lacks added, in order.
pub open spec fn add_tags(tags: Seq<Seq<char>>, more: Seq<Seq<char>>) -> Seq<Seq<char>>
    decreases more.len(),
{
    if more.len() == 0 {
        tags
    } else {
        let t = add_tags(tags, more.drop_last());
        if t.contains(more.last()) {
            t
        } else {
            t.push(more.last())
        }
    }
}

/// Two requirements on one flag, combined: `Always` wins; two conditions on
/// the same tag flag pool their arms; otherwise the first condition stands.
pub open spec fn spec_merge(left: ReqV, right: ReqV) -> ReqV {
    if left is Always || right is Always {
        ReqV::Always
    } else if left is WithArm && right is WithArm && left->flag == right->flag {
        ReqV::WithArm { flag: left->flag, tags: add_tags(left->tags, right->tags) }
    } else if left is WithArm {
        left
    } else if right is WithArm {
        right
    } else {
        ReqV::Optional
    }
}

/// The first index of a flag named `long`, or `fs.len()` when there is none.
pub open spec fn flag_index(fs: Seq<FlagV>, long: Seq<char>) -> int
    decreases fs.len(),
{
    if fs.len() == 0 {
        0
    } else if fs[0].long == long {
        0
    } else {
        1 + flag_index(fs.drop_first(), long)
    }
}

/// `out` with a flag added, or its requirement merged into the one already
/// there under that name.
pub open spec fn spec_push(out: Seq<FlagV>, long: Seq<char>, help: Seq<char>, value: FlagValueV, req: ReqV) -> Seq<FlagV> {
    let i = flag_index(out, long);
    if i < out.len() {
        out.update(i, FlagV { requirement: spec_merge(out[i].requirement, req), ..out[i] })
    } else {
        out.push(FlagV { long, help, value, requirement: req })
    }
}

proof fn lemma_flag_index_found(fs: Seq<FlagV>, long: Seq<char>, i: int)
    requires
        0 <= i < fs.len(),
        fs[i].long == long,
        forall|j: int| 0 <= j < i ==> fs[j].long != long,
    ensures
        flag_index(fs, long) == i,
    decreases i,
{
    if i > 0 {
        lemma_flag_index_found(fs.drop_first(), long, i - 1);
    }
}

proof fn lemma_flag_index_absent(fs: Seq<FlagV>, long: Seq<char>)
    requires
        forall|j: int| 0 <= j < fs.len() ==> fs[j].long != long,
    ensures
        flag_index(fs, long) == fs.len(),
    decreases fs.len(),
{
    if fs.len() > 0 {
        lemma_flag_index_absent(fs.drop_first(), long);
    }
}

/// The tags of some arms.
pub open spec fn arm_tags(arms: Seq<ArmShapeV>) -> Seq<Seq<char>> {
    arms.map_values(|a: ArmShapeV| a.tag)
}

/// Whether another arm than `tag` declares `field`'s name with another shape.
pub open spec fn conflicts(arms: Seq<ArmShapeV>, tag: Seq<char>, field: FieldV) -> bool {
    exists|i: int, j: int|
        0 <= i < arms.len() && 0 <= j < arms[i].fields.len() && arms[i].tag != tag
            && #[trigger] arms[i].fields[j].name == field.name && arms[i].fields[j].shape != field.shape
}

/// The flag for one field of one arm: shared where the arms agree,
/// tag-qualified where they do not.
pub open spec fn spec_arm_field(base: Seq<char>, arms: Seq<ArmShapeV>, tag: Seq<char>, field: FieldV) -> Seq<char> {
    if conflicts(arms, tag, field) {
        spec_join(spec_join(base, tag), field.name)
    } else {
        spec_join(base, field.name)
    }
}

/// A flag never means two shapes: where two arms of a union declare a field
/// of one name with different shapes, each arm's field gets its own flag.
/// (Tags that differ only in `_` against `-` spell the same flag, and are
/// left out.)
pub proof fn lemma_a_flag_never_means_two_shapes(base: Seq<char>, arms: Seq<ArmShapeV>, i1: int, j1: int, i2: int, j2: int)
    requires
        0 <= i1 < arms.len(),
        0 <= i2 < arms.len(),
        0 <= j1 < arms[i1].fields.len(),
        0 <= j2 < arms[i2].fields.len(),
        arms[i1].tag != arms[i2].tag,
        spec_kebab(arms[i1].tag) != spec_kebab(arms[i2].tag),
        arms[i1].fields[j1].name == arms[i2].fields[j2].name,
        spec_arm_field(base, arms, arms[i1].tag, arms[i1].fields[j1]) == spec_arm_field(
            base,
            arms,
            arms[i2].tag,
            arms[i2].fields[j2],
        ),
    ensures
        arms[i1].fields[j1].shape == arms[i2].fields[j2].shape,
{
    let f1 = arms[i1].fields[j1];
    let f2 = arms[i2].fields[j2];
    if f1.shape != f2.shape {
        assert(arms[i2].fields[j2].name == f1.name);
        assert(conflicts(arms, arms[i1].tag, f1));
        assert(arms[i1].fields[j1].name == f2.name);
        assert(conflicts(arms, arms[i2].tag, f2));
        let k1 = spec_kebab(arms[i1].tag);
        let k2 = spec_kebab(arms[i2].tag);
        let n = spec_kebab(f1.name);
        let s1 = base + "."@ + k1 + "."@ + n;
        let s2 = base + "."@ + k2 + "."@ + n;
        assert(spec_join(spec_join(base, arms[i1].tag), f1.name) == s1);
        assert(spec_join(spec_join(base, arms[i2].tag), f2.name) == s2);
        assert(s1 == s2);
        reveal_strlit(".");
        assert(k1.len() == k2.len());
        assert forall|i: int| 0 <= i < k1.len() implies k1[i] == k2[i] by {
            assert(s1[base.len() + 1 + i] == k1[i]);
            assert(s2[base.len() + 1 + i] == k2[i]);
        }
        assert(k1 =~= k2);
    }
}

/// Flattening a shape into flags appended to `out`: the flags after, and
/// whether the shape had a flag form. Flags pushed before a part with no
/// flag form stay.
pub open spec fn spec_flatten(base: Seq<char>, help: Seq<char>, s: ShapeV, req: ReqV, out: Seq<FlagV>) -> (Seq<FlagV>, bool)
    decreases s,
{
    match s {
        ShapeV::Bool => {
            let value = if req is Optional { FlagValueV::One(ShapeV::Bool) } else { FlagValueV::Switch };
            (spec_push(out, base, help, value, req), true)
        },
        ShapeV::List(inner) => if is_scalar(*inner) {
            (spec_push(out, base, help, FlagValueV::Many(*inner), ReqV::Optional), true)
        } else {
            (out, false)
        },
        ShapeV::Record(fields) => spec_flatten_fields(base, fields, req, out),
        ShapeV::Union(arms) => spec_flatten_arms(
            base,
            arms,
            arms,
            req,
            spec_push(out, base, help, FlagValueV::Arm(arm_tags(arms)), req),
        ),
        ShapeV::Any => (out, false),
        _ => (spec_push(out, base, help, FlagValueV::One(s), req), true),
    }
}

/// Flattening a record's fields in order, stopping at the first with no flag form.
pub open spec fn spec_flatten_fields(base: Seq<char>, fields: Seq<FieldV>, req: ReqV, out: Seq<FlagV>) -> (Seq<FlagV>, bool)
    decreases fields,
{
    if fields.len() == 0 {
        (out, true)
    } else {
        let (o, ok) = spec_flatten_fields(base, fields.drop_last(), req, out);
        if !ok {
            (o, false)
        } else {
            let f = fields.last();
            spec_flatten(spec_join(base, f.name), f.doc, f.shape, spec_narrow(req, f.required), o)
        }
    }
}

/// What an arm's field is required as: with its arm, where the field and
/// the union are required.
pub open spec fn arm_requirement(base: Seq<char>, tag: Seq<char>, required: bool, req: ReqV) -> ReqV {
    if required && !(req is Optional) {
        ReqV::WithArm { flag: base, tags: seq![tag] }
    } else {
        ReqV::Optional
    }
}

/// Flattening the fields of the arms `arms` of the union `all`, in order.
pub open spec fn spec_flatten_arms(base: Seq<char>, all: Seq<ArmShapeV>, arms: Seq<ArmShapeV>, req: ReqV, out: Seq<FlagV>) -> (Seq<FlagV>, bool)
    decreases arms,
{
    if arms.len() == 0 {
        (out, true)
    } else {
        let (o, ok) = spec_flatten_arms(base, all, arms.drop_last(), req, out);
        if !ok {
            (o, false)
        } else {
            let a = arms.last();
            spec_flatten_arm_fields(base, all, a.tag, a.fields, req, o)
        }
    }
}

/// Flattening the fields of one arm, in order.
pub open spec fn spec_flatten_arm_fields(
    base: Seq<char>,
    all: Seq<ArmShapeV>,
    tag: Seq<char>,
    fields: Seq<FieldV>,
    req: ReqV,
    out: Seq<FlagV>,
) -> (Seq<FlagV>, bool)
    decreases fields,
{
    if fields.len() == 0 {
        (out, true)
    } else {
        let (o, ok) = spec_flatten_arm_fields(base, all, tag, fields.drop_last(), req, out);
        if !ok {
            (o, false)
        } else {
            let f = fields.last();
            spec_flatten(
                spec_arm_field(base, all, tag, f),
                f.doc,
                f.shape,
                arm_requirement(base, tag, f.required, req),
                o,
            )
        }
    }
}


/// A Rust field name as a command-line flag.
fn kebab(name: &str) -> (r: String)
    ensures
        r@ == spec_kebab(name@),
{
    let chars = chars_of(name);
    let mut out = String::new();
    let mut i: usize = 0;
    while i < chars.len()
        invariant
            i <= chars@.len(),
            chars@ == name@,
            out@ == spec_kebab(name@).take(i as int),
        decreases chars.len() - i,
    {
        let c = chars[i];
        let ghost before = out@;
        push_char(&mut out, if c == '_' { '-' } else { c });
        assert(out@ =~= spec_kebab(name@).take(i + 1));
        i = i + 1;
    }
    assert(out@ =~= spec_kebab(name@));
    out
}

/// The flag for field `name` under `base`.
fn join(base: &str, name: &str) -> (r: String)
    ensures
        r@ == spec_join(base@, name@),
{
    let mut out = String::from_str(base);
    push_str(&mut out, ".");
    let k = kebab(name);
    push_str(&mut out, k.as_str());
    proof {
        reveal_strlit(".");
    }
    out
}

/// A field of a nested record is never more required than its parent.
fn narrow(parent: &Requirement, field_required: bool) -> (r: Requirement)
    ensures
        r@ == spec_narrow(parent@, field_required),
{
    if field_required {
        parent.clone()
    } else {
        Requirement::Optional
    }
}

/// `tags` with each of `more` that it lacks added, in order.
fn add_tags_to(tags: &mut Vec<&'static str>, more: &Vec<&'static str>)
    ensures
        strs_view(final(tags)@) == add_tags(strs_view(old(tags)@), strs_view(more@)),
{
    let ghost start = strs_view(tags@);
    let mut i: usize = 0;
    while i < more.len()
        invariant
            i <= more@.len(),
            strs_view(tags@) == add_tags(start, strs_view(more@.take(i as int))),
        decreases more.len() - i,
    {
        let ghost m = strs_view(more@.take(i + 1));
        assert(m.drop_last() =~= strs_view(more@.take(i as int)));
        assert(m.last() == more@[i as int]@);
        let tag = more[i];
        if !contains_str(tags, tag) {
            let ghost before = tags@;
            tags.push(tag);
            assert(strs_view(tags@) =~= strs_view(before).push(tag@));
        }
        i = i + 1;
    }
    assert(more@.take(i as int) =~= more@);
}

/// Two requirements on one flag, combined.
fn merge(left: Requirement, right: Requirement) -> (r: Requirement)
    ensures
        r@ == spec_merge(left@, right@),
{
    if matches!(left, Requirement::Always) || matches!(right, Requirement::Always) {
        return Requirement::Always;
    }
    match left {
        Requirement::WithArm { flag, tags } => match right {
            Requirement::WithArm { flag: other, tags: more } => {
                if str_eq(flag.as_str(), other.as_str()) {
                    let mut tags = tags;
                    add_tags_to(&mut tags, &more);
                    Requirement::WithArm { flag, tags }
                } else {
                    Requirement::WithArm { flag, tags }
                }
            },
            _ => Requirement::WithArm { flag, tags },
        },
        _ => match right {
            Requirement::WithArm { flag, tags } => Requirement::WithArm { flag, tags },
            _ => Requirement::Optional,
        },
    }
}

/// Adds a flag, merging with one that is already there under that name.
fn push(out: &mut Vec<Flag>, long: &str, help: &'static str, value: FlagValue, req: Requirement)
    ensures
        flags_view(final(out)@) == spec_push(flags_view(old(out)@), long@, help@, value@, req@),
{
    let ghost fs = flags_view(out@);
    let mut i: usize = 0;
    while i < out.len()
        invariant
            i <= out@.len(),
            fs == flags_view(out@),
            forall|j: int| 0 <= j < i ==> fs[j].long != long@,
        ensures
            i <= out@.len(),
            fs == flags_view(out@),
            forall|j: int| 0 <= j < i ==> fs[j].long != long@,
            i < out@.len() ==> fs[i as int].long == long@,
        decreases out.len() - i,
    {
        if str_eq(out[i].long.as_str(), long) {
            break;
        }
        i = i + 1;
    }
    if i < out.len() {
        proof {
            lemma_flag_index_found(fs, long@, i as int);
        }
        let existing = &out[i];
        let merged = merge(existing.requirement.clone(), req);
        let flag = Flag {
            long: existing.long.clone(),
            help: existing.help,
            value: existing.value.clone(),
            requirement: merged,
        };
        out.set(i, flag);
        assert(flags_view(out@) =~= spec_push(fs, long@, help@, value@, req@));
    } else {
        proof {
            lemma_flag_index_absent(fs, long@);
        }
        out.push(Flag { long: String::from_str(long), help, value, requirement: req });
        assert(flags_view(out@) =~= spec_push(fs, long@, help@, value@, req@));
    }
}


/// A field as its shape.
pub open spec fn field_shape(p: Param) -> FieldV {
    FieldV { name: p.name@, doc: p.doc@, shape: shape(p.ty), required: p.required }
}

/// Whether an arm other than `tag` declares `field`'s name with another shape.
fn has_conflict(variants: &Vec<UnionVariant>, tag: &str, field: &Param) -> (r: bool)
    ensures
        r == conflicts(shape_arms(variants@), tag@, field_shape(*field)),
{
    let ghost arms = shape_arms(variants@);
    let ghost fv = field_shape(*field);
    proof {
        lemma_shape_arms_index(variants@);
    }
    let mut i: usize = 0;
    while i < variants.len()
        invariant
            i <= variants@.len(),
            arms == shape_arms(variants@),
            fv == field_shape(*field),
            arms.len() == variants@.len(),
            forall|a: int| 0 <= a < variants@.len() ==> #[trigger] arms[a] == (ArmShapeV {
                tag: variants@[a].tag@,
                doc: variants@[a].doc@,
                fields: shape_fields(variants@[a].fields@),
            }),
            forall|a: int, b: int|
                0 <= a < i && 0 <= b < arms[a].fields.len() && arms[a].tag != tag@ ==> !(#[trigger] arms[a].fields[b].name
                    == fv.name && arms[a].fields[b].shape != fv.shape),
        decreases variants.len() - i,
    {
        let other = &variants[i];
        assert(arms[i as int].tag == other.tag@);
        if !str_eq(other.tag, tag) {
            proof {
                lemma_shape_fields_index(other.fields@);
            }
            let mut j: usize = 0;
            while j < other.fields.len()
                invariant
                    j <= other.fields@.len(),
                    i < variants@.len(),
                    arms == shape_arms(variants@),
                    fv == field_shape(*field),
                    arms.len() == variants@.len(),
                    arms[i as int].tag != tag@,
                    *other == variants@[i as int],
                    arms[i as int].fields == shape_fields(other.fields@),
                    shape_fields(other.fields@).len() == other.fields@.len(),
                    forall|b: int| 0 <= b < other.fields@.len() ==> #[trigger] shape_fields(other.fields@)[b] == field_shape(other.fields@[b]),
                    forall|b: int| 0 <= b < j ==> !(#[trigger] arms[i as int].fields[b].name == fv.name
                        && arms[i as int].fields[b].shape != fv.shape),
                decreases other.fields.len() - j,
            {
                let candidate = &other.fields[j];
                assert(arms[i as int].fields[j as int] == field_shape(*candidate));
                if str_eq(candidate.name, field.name) && !types_equal(&candidate.ty, &field.ty) {
                    assert(arms[i as int].fields[j as int].name == fv.name);
                    return true;
                }
                j = j + 1;
            }
        }
        i = i + 1;
    }
    false
}

/// The flag for field `f` of arm `v`: shared with the other arms that declare
/// the same name and shape, tag-qualified where they disagree.
fn arm_field(base: &str, variants: &Vec<UnionVariant>, v: usize, f: usize) -> (r: String)
    requires
        v < variants@.len(),
        f < variants@[v as int].fields@.len(),
    ensures
        r@ == spec_arm_field(base@, shape_arms(variants@), variants@[v as int].tag@, field_shape(variants@[v as int].fields@[f as int])),
{
    let variant = &variants[v];
    let field = &variant.fields[f];
    if has_conflict(variants, variant.tag, field) {
        let qualified = join(base, variant.tag);
        join(qualified.as_str(), field.name)
    } else {
        join(base, field.name)
    }
}


proof fn lemma_fields_stop(base: Seq<char>, fs: Seq<FieldV>, k: int, req: ReqV, out: Seq<FlagV>)
    requires
        0 <= k <= fs.len(),
        !spec_flatten_fields(base, fs.take(k), req, out).1,
    ensures
        spec_flatten_fields(base, fs, req, out) == spec_flatten_fields(base, fs.take(k), req, out),
    decreases fs.len(),
{
    if fs.len() > k {
        assert(fs.drop_last().take(k) =~= fs.take(k));
        lemma_fields_stop(base, fs.drop_last(), k, req, out);
    } else {
        assert(fs.take(k) =~= fs);
    }
}

proof fn lemma_arm_fields_stop(
    base: Seq<char>,
    all: Seq<ArmShapeV>,
    tag: Seq<char>,
    fs: Seq<FieldV>,
    k: int,
    req: ReqV,
    out: Seq<FlagV>,
)
    requires
        0 <= k <= fs.len(),
        !spec_flatten_arm_fields(base, all, tag, fs.take(k), req, out).1,
    ensures
        spec_flatten_arm_fields(base, all, tag, fs, req, out) == spec_flatten_arm_fields(base, all, tag, fs.take(k), req, out),
    decreases fs.len(),
{
    if fs.len() > k {
        assert(fs.drop_last().take(k) =~= fs.take(k));
        lemma_arm_fields_stop(base, all, tag, fs.drop_last(), k, req, out);
    } else {
        assert(fs.take(k) =~= fs);
    }
}

proof fn lemma_arms_stop(base: Seq<char>, all: Seq<ArmShapeV>, arms: Seq<ArmShapeV>, k: int, req: ReqV, out: Seq<FlagV>)
    requires
        0 <= k <= arms.len(),
        !spec_flatten_arms(base, all, arms.take(k), req, out).1,
    ensures
        spec_flatten_arms(base, all, arms, req, out) == spec_flatten_arms(base, all, arms.take(k), req, out),
    decreases arms.len(),
{
    if arms.len() > k {
        assert(arms.drop_last().take(k) =~= arms.take(k));
        lemma_arms_stop(base, all, arms.drop_last(), k, req, out);
    } else {
        assert(arms.take(k) =~= arms);
    }
}

/// Whether a declared type is read from one piece of text.
fn is_scalar_type(ty: &ParamType) -> (r: bool)
    ensures
        r == is_scalar(shape(*ty)),
{
    matches!(
        ty,
        ParamType::Bool | ParamType::Int | ParamType::Uint | ParamType::Text | ParamType::Char | ParamType::Path
            | ParamType::Choice(_) | ParamType::Id(_)
    )
}

/// The tags of a union's arms, in order.
fn tags_vec(variants: &Vec<UnionVariant>) -> (r: Vec<&'static str>)
    ensures
        strs_view(r@) == arm_tags(shape_arms(variants@)),
{
    proof {
        lemma_shape_arms_index(variants@);
    }
    let mut out: Vec<&'static str> = Vec::new();
    let mut i: usize = 0;
    while i < variants.len()
        invariant
            i <= variants@.len(),
            shape_arms(variants@).len() == variants@.len(),
            forall|a: int| 0 <= a < variants@.len() ==> #[trigger] shape_arms(variants@)[a] == (ArmShapeV {
                tag: variants@[a].tag@,
                doc: variants@[a].doc@,
                fields: shape_fields(variants@[a].fields@),
            }),
            strs_view(out@) == arm_tags(shape_arms(variants@)).take(i as int),
        decreases variants.len() - i,
    {
        let ghost before = out@;
        out.push(variants[i].tag);
        assert(shape_arms(variants@)[i as int].tag == variants@[i as int].tag@);
        assert(strs_view(out@) =~= strs_view(before).push(variants@[i as int].tag@));
        assert(arm_tags(shape_arms(variants@)).take(i + 1) =~= arm_tags(shape_arms(variants@)).take(i as int).push(
            variants@[i as int].tag@,
        ));
        i = i + 1;
    }
    assert(arm_tags(shape_arms(variants@)).take(i as int) =~= arm_tags(shape_arms(variants@)));
    out
}

/// A shape with no flag form.
struct NoFlagForm;

/// Flattens one parameter, or one field of one, into flags appended to `out`.
fn flatten(base: &str, help: &'static str, ty: &ParamType, requirement: &Requirement, out: &mut Vec<Flag>) -> (r: Result<(), NoFlagForm>)
    ensures
        (flags_view(final(out)@), r is Ok) == spec_flatten(base@, help@, shape(*ty), requirement@, flags_view(old(out)@)),
    decreases ty,
{
    match ty {
        ParamType::Bool => {
            let value = if matches!(requirement, Requirement::Optional) {
                FlagValue::One(ParamType::Bool)
            } else {
                FlagValue::Switch
            };
            push(out, base, help, value, requirement.clone());
            Ok(())
        },
        ParamType::Int | ParamType::Uint | ParamType::Text | ParamType::Char | ParamType::Path | ParamType::Choice(_)
        | ParamType::Id(_) => {
            push(out, base, help, FlagValue::One(ty.clone()), requirement.clone());
            Ok(())
        },
        ParamType::List(inner) => {
            if is_scalar_type(inner) {
                push(out, base, help, FlagValue::Many((**inner).clone()), Requirement::Optional);
                Ok(())
            } else {
                Err(NoFlagForm)
            }
        },
        ParamType::Record(fields) => {
            let ghost start = flags_view(out@);
            let mut i: usize = 0;
            while i < fields.len()
                invariant
                    i <= fields@.len(),
                    ty is Record,
                    ty->Record_0 == *fields,
                    start == flags_view(old(out)@),
                    (flags_view(out@), true) == spec_flatten_fields(base@, shape_fields(fields@.take(i as int)), requirement@, start),
                decreases fields.len() - i,
            {
                let field = &fields[i];
                assert(decreases_to!(*ty => ty->Record_0));
                assert(decreases_to!(ty->Record_0 => ty->Record_0@));
                assert(decreases_to!(ty->Record_0@ => ty->Record_0@[i as int]));
                assert(decreases_to!(ty->Record_0@[i as int] => ty->Record_0@[i as int].ty));
                let name = join(base, field.name);
                let req = narrow(requirement, field.required);
                let ghost sf = shape_fields(fields@.take(i + 1));
                assert(fields@.take(i + 1).drop_last() =~= fields@.take(i as int));
                assert(sf.last() == field_shape(*field));
                let ghost pre = flags_view(out@);
                let r = flatten(name.as_str(), field.doc, &field.ty, &req, out);
                assert(sf.drop_last() =~= shape_fields(fields@.take(i as int)));
                assert(spec_flatten_fields(base@, sf, requirement@, start) == (flags_view(out@), r is Ok));
                if r.is_err() {
                    proof {
                        let all = shape_fields(fields@);
                        lemma_shape_fields_take(fields@, i + 1);
                        lemma_fields_stop(base@, all, i + 1, requirement@, start);
                    }
                    return Err(NoFlagForm);
                }
                i = i + 1;
            }
            assert(fields@.take(i as int) =~= fields@);
            Ok(())
        },
        ParamType::Union(variants) => {
            let tags = tags_vec(variants);
            push(out, base, help, FlagValue::Arm(tags), requirement.clone());
            let ghost arms = shape_arms(variants@);
            let ghost start = flags_view(out@);
            proof {
                lemma_shape_arms_index(variants@);
            }
            let mut v: usize = 0;
            while v < variants.len()
                invariant
                    v <= variants@.len(),
                    ty is Union,
                    ty->Union_0 == *variants,
                    arms == shape_arms(variants@),
                    arms.len() == variants@.len(),
                    start == spec_push(flags_view(old(out)@), base@, help@, FlagValueV::Arm(arm_tags(arms)), requirement@),
                    forall|a: int| 0 <= a < variants@.len() ==> #[trigger] arms[a] == (ArmShapeV {
                        tag: variants@[a].tag@,
                        doc: variants@[a].doc@,
                        fields: shape_fields(variants@[a].fields@),
                    }),
                    (flags_view(out@), true) == spec_flatten_arms(base@, arms, shape_arms(variants@.take(v as int)), requirement@, start),
                decreases variants.len() - v,
            {
                let variant = &variants[v];
                let ghost mid = flags_view(out@);
                let ghost sa = shape_arms(variants@.take(v + 1));
                assert(variants@.take(v + 1).drop_last() =~= variants@.take(v as int));
                assert(sa.drop_last() =~= shape_arms(variants@.take(v as int)));
                assert(sa.last() == arms[v as int]);
                let mut f: usize = 0;
                while f < variant.fields.len()
                    invariant
                        f <= variant.fields@.len(),
                        v < variants@.len(),
                        *variant == variants@[v as int],
                        arms.len() == variants@.len(),
                        start == spec_push(flags_view(old(out)@), base@, help@, FlagValueV::Arm(arm_tags(arms)), requirement@),
                        sa == shape_arms(variants@.take(v + 1)),
                        sa.drop_last() == shape_arms(variants@.take(v as int)),
                        sa.last() == arms[v as int],
                        arms[v as int].tag == variant.tag@,
                        arms[v as int].fields == shape_fields(variant.fields@),
                        (mid, true) == spec_flatten_arms(base@, arms, shape_arms(variants@.take(v as int)), requirement@, start),
                        ty is Union,
                        ty->Union_0 == *variants,
                        arms == shape_arms(variants@),
                        (flags_view(out@), true) == spec_flatten_arm_fields(
                            base@,
                            arms,
                            variant.tag@,
                            shape_fields(variant.fields@.take(f as int)),
                            requirement@,
                            mid,
                        ),
                    decreases variant.fields.len() - f,
                {
                    let field = &variant.fields[f];
                    assert(decreases_to!(*ty => ty->Union_0));
                    assert(decreases_to!(ty->Union_0 => ty->Union_0@));
                    assert(decreases_to!(ty->Union_0@ => ty->Union_0@[v as int]));
                    assert(decreases_to!(ty->Union_0@[v as int] => ty->Union_0@[v as int].fields));
                    assert(decreases_to!(ty->Union_0@[v as int].fields => ty->Union_0@[v as int].fields@));
                    assert(decreases_to!(ty->Union_0@[v as int].fields@ => ty->Union_0@[v as int].fields@[f as int]));
                    assert(decreases_to!(ty->Union_0@[v as int].fields@[f as int] => ty->Union_0@[v as int].fields@[f as int].ty));
                    let name = arm_field(base, variants, v, f);
                    let field_requirement = if field.required && !matches!(requirement, Requirement::Optional) {
                        let r = Requirement::WithArm { flag: String::from_str(base), tags: vec![variant.tag] };
                        assert(strs_view(r->tags@) =~= seq![variant.tag@]);
                        r
                    } else {
                        Requirement::Optional
                    };
                    let ghost sf = shape_fields(variant.fields@.take(f + 1));
                    assert(variant.fields@.take(f + 1).drop_last() =~= variant.fields@.take(f as int));
                    assert(sf.last() == field_shape(*field));
                    let ghost pre = flags_view(out@);
                    let r = flatten(name.as_str(), field.doc, &field.ty, &field_requirement, out);
                    assert(sf.drop_last() =~= shape_fields(variant.fields@.take(f as int)));
                    assert(spec_flatten_arm_fields(base@, arms, variant.tag@, sf, requirement@, mid) == (flags_view(out@), r is Ok));
                    if r.is_err() {
                        proof {
                            lemma_shape_fields_take(variant.fields@, f + 1);
                            lemma_arm_fields_stop(base@, arms, variant.tag@, shape_fields(variant.fields@), f + 1, requirement@, mid);
                            lemma_shape_arms_take(variants@, v + 1);
                            assert(sa.drop_last() =~= shape_arms(variants@.take(v as int)));
                            assert(sa.last().fields == shape_fields(variant.fields@));
                            assert(spec_flatten_arms(base@, arms, sa, requirement@, start) == (flags_view(out@), false));
                            lemma_arms_stop(base@, arms, arms, v + 1, requirement@, start);
                        }
                        return Err(NoFlagForm);
                    }
                    f = f + 1;
                }
                assert(variant.fields@.take(f as int) =~= variant.fields@);
                assert(sa.drop_last() =~= shape_arms(variants@.take(v as int)));
                assert(sa.last().fields == shape_fields(variant.fields@));
                assert(spec_flatten_arms(base@, arms, sa, requirement@, start) == (flags_view(out@), true));
                v = v + 1;
            }
            assert(variants@.take(v as int) =~= variants@);
            Ok(())
        },
        ParamType::Any => Err(NoFlagForm),
    }
}

proof fn lemma_shape_fields_take(ps: Seq<Param>, k: int)
    requires
        0 <= k <= ps.len(),
    ensures
        shape_fields(ps).take(k) == shape_fields(ps.take(k)),
        shape_fields(ps).len() == ps.len(),
{
    lemma_shape_fields_index(ps);
    lemma_shape_fields_index(ps.take(k));
    assert(shape_fields(ps).take(k) =~= shape_fields(ps.take(k)));
}

proof fn lemma_shape_arms_take(vs: Seq<UnionVariant>, k: int)
    requires
        0 <= k <= vs.len(),
    ensures
        shape_arms(vs).take(k) == shape_arms(vs.take(k)),
        shape_arms(vs).len() == vs.len(),
{
    lemma_shape_arms_index(vs);
    lemma_shape_arms_index(vs.take(k));
    assert(shape_arms(vs).take(k) =~= shape_arms(vs.take(k)));
}


// ---------------------------------------------------------------------------
// Verbs
// ---------------------------------------------------------------------------

/// One capability as the CLI door sees it.
#[derive(Debug, Clone, PartialEq, Eq)]
pub struct Verb {
    /// The subcommand: the capability's name verbatim.
    pub verb: &'static str,
    /// One line, in the product's voice.
    pub about: &'static str,
    /// The domain, for grouping the help output.
    pub domain: &'static str,
    /// Action or query.
    pub kind: CapabilityKind,
    /// The phase and task that implement it.
    pub since: Since,
    /// The flags, in declaration order, parents before children.
    pub flags: Vec<Flag>,
    /// Parameters that cannot be expressed as flags, reached through `--eval`.
    pub unreachable: Vec<&'static str>,
}

/// How a parameter's own flag is required.
pub open spec fn param_requirement(required: bool) -> ReqV {
    if required {
        ReqV::Always
    } else {
        ReqV::Optional
    }
}

/// The flags of some parameters, flattened in order, and the names of those
/// with no flag form.
pub open spec fn spec_verb_parts(params: Seq<Param>) -> (Seq<FlagV>, Seq<Seq<char>>)
    decreases params.len(),
{
    if params.len() == 0 {
        (Seq::empty(), Seq::empty())
    } else {
        let (flags, unreachable) = spec_verb_parts(params.drop_last());
        let p = params.last();
        let (o, ok) = spec_flatten(spec_kebab(p.name@), p.doc@, shape(p.ty), param_requirement(p.required), flags);
        (o, if ok { unreachable } else { unreachable.push(p.name@) })
    }
}

/// Whether `v` is the verb of capability `c`.
pub open spec fn is_verb_of(v: Verb, c: Capability) -> bool {
    &&& v.verb == c.name
    &&& v.about == c.doc
    &&& v.domain == c.domain
    &&& v.kind == c.kind
    &&& v.since == c.since
    &&& flags_view(v.flags@) == spec_verb_parts(c.params@).0
    &&& strs_view(v.unreachable@) == spec_verb_parts(c.params@).1
}

/// This capability's CLI verb.
pub fn verb(capability: &Capability) -> (r: Verb)
    ensures
        is_verb_of(r, *capability),
{
    let mut flags: Vec<Flag> = Vec::new();
    let mut unreachable: Vec<&'static str> = Vec::new();
    let params = &capability.params;
    let mut i: usize = 0;
    while i < params.len()
        invariant
            i <= params@.len(),
            *params == capability.params,
            (flags_view(flags@), strs_view(unreachable@)) == spec_verb_parts(params@.take(i as int)),
        decreases params.len() - i,
    {
        let param = &params[i];
        let requirement = if param.required {
            Requirement::Always
        } else {
            Requirement::Optional
        };
        assert(params@.take(i + 1).drop_last() =~= params@.take(i as int));
        let name = kebab(param.name);
        let r = flatten(name.as_str(), param.doc, &param.ty, &requirement, &mut flags);
        if r.is_err() {
            let ghost before = unreachable@;
            unreachable.push(param.name);
            assert(strs_view(unreachable@) =~= strs_view(before).push(param.name@));
        }
        i = i + 1;
    }
    assert(params@.take(i as int) =~= params@);
    Verb {
        verb: capability.cli_verb(),
        about: capability.doc,
        domain: capability.domain,
        kind: capability.kind,
        since: capability.since,
        flags,
        unreachable,
    }
}

impl Verb {
    /// Whether this verb needs `--eval` to be called with every argument it
    /// declares.
    pub fn needs_eval(&self) -> (r: bool)
        ensures
            r == (self.unreachable@.len() > 0),
    {
        self.unreachable.len() > 0
    }

    /// The first flag with this long name, if any.
    pub fn flag(&self, long: &str) -> (r: Option<&Flag>)
        ensures
            r is Some <==> flag_index(flags_view(self.flags@), long@) < self.flags@.len(),
            r matches Some(f) ==> *f == self.flags@[flag_index(flags_view(self.flags@), long@)],
    {
        let ghost fs = flags_view(self.flags@);
        let mut i: usize = 0;
        while i < self.flags.len()
            invariant
                i <= self.flags@.len(),
                fs == flags_view(self.flags@),
                forall|j: int| 0 <= j < i ==> fs[j].long != long@,
            decreases self.flags.len() - i,
        {
            if str_eq(self.flags[i].long.as_str(), long) {
                proof {
                    lemma_flag_index_found(fs, long@, i as int);
                }
                return Some(&self.flags[i]);
            }
            i = i + 1;
        }
        proof {
            lemma_flag_index_absent(fs, long@);
        }
        None
    }
}

/// Whether `v` is the verb of a capability named `name`.
pub open spec fn is_verb_named(v: Verb, name: Seq<char>) -> bool {
    exists|c: Capability| #[trigger] is_verb_of(v, c) && c.name@ == name
}

/// Every capability's verb, in registry order.
pub fn verbs() -> (r: Vec<Verb>)
    ensures
        r.len() == crate::registry::spec_cap_count(),
        forall|i: int| 0 <= i < r.len() ==> is_verb_named(#[trigger] r[i], crate::registry::spec_cap_name(i as nat)),
{
    let all = crate::registry::capabilities();
    let mut out: Vec<Verb> = Vec::new();
    let mut i: usize = 0;
    while i < all.len()
        invariant
            i <= all.len(),
            all.len() == crate::registry::spec_cap_count(),
            forall|j: int| 0 <= j < all.len() ==> (#[trigger] all[j]).name@ == crate::registry::spec_cap_name(j as nat),
            out.len() == i,
            forall|j: int| 0 <= j < i ==> #[trigger] is_verb_of(out[j], all[j]),
        decreases all.len() - i,
    {
        out.push(verb(&all[i]));
        i = i + 1;
    }
    assert forall|j: int| 0 <= j < out.len() implies is_verb_named(#[trigger] out[j], crate::registry::spec_cap_name(j as nat)) by {
        assert(is_verb_of(out[j], all[j]));
    }
    out
}

/// Each character of `s` as `char::to_uppercase` gives it.
pub open spec fn spec_upper(s: Seq<char>) -> Seq<char>
    decreases s.len(),
{
    if s.len() == 0 {
        Seq::empty()
    } else {
        spec_upper(s.drop_last()) + upper_case_of(s.last())
    }
}

/// `s` in capitals, one character at a time.
fn upper(s: &str) -> (r: String)
    ensures
        r@ == spec_upper(s@),
{
    let chars = chars_of(s);
    let mut out = String::new();
    let mut i: usize = 0;
    while i < chars.len()
        invariant
            i <= chars@.len(),
            chars@ == s@,
            out@ == spec_upper(s@.take(i as int)),
        decreases chars.len() - i,
    {
        let up = to_upper(chars[i]);
        crate::text_util::push_chars(&mut out, &up);
        assert(s@.take(i + 1).drop_last() =~= s@.take(i as int));
        i = i + 1;
    }
    assert(s@.take(i as int) =~= s@);
    out
}

/// The placeholder a flag's value shows in help, or `None` for a switch.
pub open spec fn spec_value_name(v: FlagValue) -> Option<Seq<char>> {
    match v {
        FlagValue::Switch => None,
        FlagValue::One(t) => Some(spec_upper(spec_label(t))),
        FlagValue::Many(t) => Some(spec_upper(spec_label(t))),
        FlagValue::Arm(tags) => Some(spec_join_all(strs_view(tags@), "|"@)),
    }
}

impl FlagValue {
    /// The placeholder in `--flag <THIS>`, or `None` for a switch.
    pub fn value_name(&self) -> (r: Option<String>)
        ensures
            r matches Some(s) ==> spec_value_name(*self) == Some(s@),
            r is None ==> spec_value_name(*self) is None,
    {
        match self {
            FlagValue::Switch => None,
            FlagValue::One(ty) | FlagValue::Many(ty) => {
                let label = ty.label();
                Some(upper(label.as_str()))
            },
            FlagValue::Arm(tags) => Some(crate::registry::join(tags, "|")),
        }
    }

    /// The permitted values, for a flag that has a fixed set of them.
    pub fn choices(&self) -> (r: Option<&[&'static str]>)
        ensures
            match self {
                FlagValue::Arm(tags) => r matches Some(s) && s@ == tags@,
                FlagValue::One(ParamType::Choice(tags)) => r matches Some(s) && s@ == tags@,
                FlagValue::Many(ParamType::Choice(tags)) => r matches Some(s) && s@ == tags@,
                _ => r is None,
            },
    {
        match self {
            FlagValue::Arm(tags) => Some(tags.as_slice()),
            FlagValue::One(ParamType::Choice(tags)) | FlagValue::Many(ParamType::Choice(tags)) => Some(tags.as_slice()),
            _ => None,
        }
    }
}


// ---------------------------------------------------------------------------
// What every verb keeps
// ---------------------------------------------------------------------------

/// Whether no two flags share a long name.
pub open spec fn flags_unique(fs: Seq<FlagV>) -> bool {
    forall|i: int, j: int| 0 <= i < j < fs.len() ==> #[trigger] fs[i].long != #[trigger] fs[j].long
}

proof fn lemma_push_unique(out: Seq<FlagV>, long: Seq<char>, help: Seq<char>, value: FlagValueV, req: ReqV)
    requires
        flags_unique(out),
    ensures
        flags_unique(spec_push(out, long, help, value, req)),
{
    let i = flag_index(out, long);
    lemma_flag_index_bounds(out, long);
    let r = spec_push(out, long, help, value, req);
    if i < out.len() {
        assert forall|a: int, b: int| 0 <= a < b < r.len() implies #[trigger] r[a].long != #[trigger] r[b].long by {
            assert(r[a].long == out[a].long);
            assert(r[b].long == out[b].long);
        }
    } else {
        assert forall|a: int, b: int| 0 <= a < b < r.len() implies #[trigger] r[a].long != #[trigger] r[b].long by {
            if b == out.len() {
                assert(out[a].long != long);
            }
        }
    }
}

proof fn lemma_flag_index_bounds(fs: Seq<FlagV>, long: Seq<char>)
    ensures
        0 <= flag_index(fs, long) <= fs.len(),
        flag_index(fs, long) < fs.len() ==> fs[flag_index(fs, long)].long == long,
        forall|j: int| 0 <= j < flag_index(fs, long) ==> fs[j].long != long,
    decreases fs.len(),
{
    if fs.len() > 0 && fs[0].long != long {
        lemma_flag_index_bounds(fs.drop_first(), long);
        assert forall|j: int| 0 <= j < flag_index(fs, long) implies fs[j].long != long by {
            if j > 0 {
                assert(fs[j] == fs.drop_first()[j - 1]);
            }
        }
    }
}

proof fn lemma_flatten_unique(base: Seq<char>, help: Seq<char>, s: ShapeV, req: ReqV, out: Seq<FlagV>)
    requires
        flags_unique(out),
    ensures
        flags_unique(spec_flatten(base, help, s, req, out).0),
    decreases s,
{
    match s {
        ShapeV::Bool => {
            let value = if req is Optional { FlagValueV::One(ShapeV::Bool) } else { FlagValueV::Switch };
            lemma_push_unique(out, base, help, value, req);
        },
        ShapeV::List(inner) => {
            lemma_push_unique(out, base, help, FlagValueV::Many(*inner), ReqV::Optional);
        },
        ShapeV::Record(fields) => lemma_flatten_fields_unique(base, fields, req, out),
        ShapeV::Union(arms) => {
            lemma_push_unique(out, base, help, FlagValueV::Arm(arm_tags(arms)), req);
            lemma_flatten_arms_unique(base, arms, arms, req, spec_push(out, base, help, FlagValueV::Arm(arm_tags(arms)), req));
        },
        ShapeV::Any => {},
        _ => lemma_push_unique(out, base, help, FlagValueV::One(s), req),
    }
}

proof fn lemma_flatten_fields_unique(base: Seq<char>, fields: Seq<FieldV>, req: ReqV, out: Seq<FlagV>)
    requires
        flags_unique(out),
    ensures
        flags_unique(spec_flatten_fields(base, fields, req, out).0),
    decreases fields,
{
    if fields.len() > 0 {
        lemma_flatten_fields_unique(base, fields.drop_last(), req, out);
        let (o, ok) = spec_flatten_fields(base, fields.drop_last(), req, out);
        if ok {
            let f = fields.last();
            lemma_flatten_unique(spec_join(base, f.name), f.doc, f.shape, spec_narrow(req, f.required), o);
        }
    }
}

proof fn lemma_flatten_arms_unique(base: Seq<char>, all: Seq<ArmShapeV>, arms: Seq<ArmShapeV>, req: ReqV, out: Seq<FlagV>)
    requires
        flags_unique(out),
    ensures
        flags_unique(spec_flatten_arms(base, all, arms, req, out).0),
    decreases arms,
{
    if arms.len() > 0 {
        lemma_flatten_arms_unique(base, all, arms.drop_last(), req, out);
        let (o, ok) = spec_flatten_arms(base, all, arms.drop_last(), req, out);
        if ok {
            let a = arms.last();
            lemma_flatten_arm_fields_unique(base, all, a.tag, a.fields, req, o);
        }
    }
}

proof fn lemma_flatten_arm_fields_unique(
    base: Seq<char>,
    all: Seq<ArmShapeV>,
    tag: Seq<char>,
    fields: Seq<FieldV>,
    req: ReqV,
    out: Seq<FlagV>,
)
    requires
        flags_unique(out),
    ensures
        flags_unique(spec_flatten_arm_fields(base, all, tag, fields, req, out).0),
    decreases fields,
{
    if fields.len() > 0 {
        lemma_flatten_arm_fields_unique(base, all, tag, fields.drop_last(), req, out);
        let (o, ok) = spec_flatten_arm_fields(base, all, tag, fields.drop_last(), req, out);
        if ok {
            let f = fields.last();
            lemma_flatten_unique(
                spec_arm_field(base, all, tag, f),
                f.doc,
                f.shape,
                arm_requirement(base, tag, f.required, req),
                o,
            );
        }
    }
}

/// No verb declares a flag twice: flags that two arms share are merged into
/// one, whatever the parameters.
pub proof fn lemma_verb_flags_unique(params: Seq<Param>)
    ensures
        flags_unique(spec_verb_parts(params).0),
    decreases params.len(),
{
    if params.len() > 0 {
        lemma_verb_flags_unique(params.drop_last());
        let p = params.last();
        lemma_flatten_unique(
            spec_kebab(p.name@),
            p.doc@,
            shape(p.ty),
            param_requirement(p.required),
            spec_verb_parts(params.drop_last()).0,
        );
    }
}


/// Whether a shape holds, anywhere inside it, something with no flag form: a
/// list of non-scalars, or an open shape.
pub open spec fn has_no_flag_form(s: ShapeV) -> bool
    decreases s,
{
    match s {
        ShapeV::Any => true,
        ShapeV::List(inner) => !is_scalar(*inner) || has_no_flag_form(*inner),
        ShapeV::Record(fields) => fields_have_no_flag_form(fields),
        ShapeV::Union(arms) => arms_have_no_flag_form(arms),
        _ => false,
    }
}

/// Whether some field has no flag form.
pub open spec fn fields_have_no_flag_form(fields: Seq<FieldV>) -> bool
    decreases fields,
{
    if fields.len() == 0 {
        false
    } else {
        fields_have_no_flag_form(fields.drop_last()) || has_no_flag_form(fields.last().shape)
    }
}

/// Whether some field of some arm has no flag form.
pub open spec fn arms_have_no_flag_form(arms: Seq<ArmShapeV>) -> bool
    decreases arms,
{
    if arms.len() == 0 {
        false
    } else {
        arms_have_no_flag_form(arms.drop_last()) || fields_have_no_flag_form(arms.last().fields)
    }
}

proof fn lemma_flatten_fails(base: Seq<char>, help: Seq<char>, s: ShapeV, req: ReqV, out: Seq<FlagV>)
    ensures
        spec_flatten(base, help, s, req, out).1 == !has_no_flag_form(s),
    decreases s,
{
    match s {
        ShapeV::List(inner) => {
            if is_scalar(*inner) {
                assert(!has_no_flag_form(*inner));
            }
        },
        ShapeV::Record(fields) => {
            lemma_flatten_fields_fails(base, fields, req, out);
        },
        ShapeV::Union(arms) => lemma_flatten_arms_fails(
            base,
            arms,
            arms,
            req,
            spec_push(out, base, help, FlagValueV::Arm(arm_tags(arms)), req),
        ),
        _ => {},
    }
}

proof fn lemma_flatten_fields_fails(base: Seq<char>, fields: Seq<FieldV>, req: ReqV, out: Seq<FlagV>)
    ensures
        spec_flatten_fields(base, fields, req, out).1 == !fields_have_no_flag_form(fields),
    decreases fields,
{
    if fields.len() > 0 {
        lemma_flatten_fields_fails(base, fields.drop_last(), req, out);
        let (o, ok) = spec_flatten_fields(base, fields.drop_last(), req, out);
        let f = fields.last();
        lemma_flatten_fails(spec_join(base, f.name), f.doc, f.shape, spec_narrow(req, f.required), o);
    }
}

proof fn lemma_flatten_arms_fails(base: Seq<char>, all: Seq<ArmShapeV>, arms: Seq<ArmShapeV>, req: ReqV, out: Seq<FlagV>)
    ensures
        spec_flatten_arms(base, all, arms, req, out).1 == !arms_have_no_flag_form(arms),
    decreases arms,
{
    if arms.len() > 0 {
        lemma_flatten_arms_fails(base, all, arms.drop_last(), req, out);
        let (o, ok) = spec_flatten_arms(base, all, arms.drop_last(), req, out);
        let a = arms.last();
        lemma_flatten_arm_fields_fails(base, all, a.tag, a.fields, req, o);
    }
}

proof fn lemma_flatten_arm_fields_fails(
    base: Seq<char>,
    all: Seq<ArmShapeV>,
    tag: Seq<char>,
    fields: Seq<FieldV>,
    req: ReqV,
    out: Seq<FlagV>,
)
    ensures
        spec_flatten_arm_fields(base, all, tag, fields, req, out).1 == !fields_have_no_flag_form(fields),
    decreases fields,
{
    if fields.len() > 0 {
        lemma_flatten_arm_fields_fails(base, all, tag, fields.drop_last(), req, out);
        let (o, ok) = spec_flatten_arm_fields(base, all, tag, fields.drop_last(), req, out);
        let f = fields.last();
        lemma_flatten_fails(
            spec_arm_field(base, all, tag, f),
            f.doc,
            f.shape,
            arm_requirement(base, tag, f.required, req),
            o,
        );
    }
}

/// The names of the parameters whose shapes have no flag form, in order.
pub open spec fn names_without_flag_form(params: Seq<Param>) -> Seq<Seq<char>>
    decreases params.len(),
{
    if params.len() == 0 {
        Seq::empty()
    } else {
        let rest = names_without_flag_form(params.drop_last());
        if has_no_flag_form(shape(params.last().ty)) {
            rest.push(params.last().name@)
        } else {
            rest
        }
    }
}

/// The parameters a verb lists as reachable only through `--eval` are
/// exactly those whose shapes hold a list of non-scalars or an open shape.
pub proof fn lemma_unreachable_is_structural(params: Seq<Param>)
    ensures
        spec_verb_parts(params).1 == names_without_flag_form(params),
    decreases params.len(),
{
    if params.len() > 0 {
        lemma_unreachable_is_structural(params.drop_last());
        let p = params.last();
        lemma_flatten_fails(
            spec_kebab(p.name@),
            p.doc@,
            shape(p.ty),
            param_requirement(p.required),
            spec_verb_parts(params.drop_last()).0,
        );
    }
}


// ---------------------------------------------------------------------------
// Reading values back
// ---------------------------------------------------------------------------

/// The largest `i64`, as a number.
pub open spec fn i64_max() -> nat {
    9223372036854775807
}

/// A signed integer as the standard library reads an `i64`: an optional `+`
/// or `-`, then one or more decimal digits whose value fits.
pub open spec fn spec_parse_i64(t: Seq<char>) -> Option<i64> {
    let neg = t.len() > 0 && t[0] == '-';
    let d = if t.len() > 0 && (t[0] == '-' || t[0] == '+') { t.drop_first() } else { t };
    if d.len() > 0 && all_digits(d) && (if neg { digits_value(d) <= i64_max() + 1 } else { digits_value(d) <= i64_max() }) {
        Some((if neg { -digits_value(d) } else { digits_value(d) as int }) as i64)
    } else {
        None
    }
}

/// A non-negative integer as the standard library reads a `u64` (an optional
/// `+`, then one or more decimal digits), kept only when it fits an `i64`.
pub open spec fn spec_parse_uint(t: Seq<char>) -> Option<i64> {
    let d = if t.len() > 0 && t[0] == '+' { t.drop_first() } else { t };
    if d.len() > 0 && all_digits(d) && digits_value(d) <= i64_max() {
        Some(digits_value(d) as i64)
    } else {
        None
    }
}

/// Reading one scalar from its text: the value, or what was expected.
pub open spec fn spec_parse_scalar(s: ShapeV, t: Seq<char>) -> Result<ValueV, Seq<char>> {
    match s {
        ShapeV::Bool => if t == "true"@ {
            Ok(ValueV::Bool(true))
        } else if t == "false"@ {
            Ok(ValueV::Bool(false))
        } else {
            Err("`true` or `false`"@)
        },
        ShapeV::Int => match spec_parse_i64(t) {
            Some(n) => Ok(ValueV::Int(n)),
            None => Err("an integer"@),
        },
        ShapeV::Uint | ShapeV::Id(_) => match spec_parse_uint(t) {
            Some(n) => Ok(ValueV::Int(n)),
            None => Err("a non-negative integer"@),
        },
        ShapeV::Text => Ok(ValueV::Text(t)),
        ShapeV::Char => if t.len() == 1 {
            Ok(ValueV::Text(t))
        } else {
            Err("exactly one character"@)
        },
        ShapeV::Path => if t.len() == 0 {
            Err("a path"@)
        } else {
            Ok(ValueV::Text(t))
        },
        ShapeV::Choice(tags) => if tags.contains(t) {
            Ok(ValueV::Text(t))
        } else {
            Err("one of the listed choices"@)
        },
        _ => Err("a value with a flag form"@),
    }
}

/// A scalar reading by its view.
pub open spec fn scalar_view(r: Result<Value, &'static str>) -> Result<ValueV, Seq<char>> {
    match r {
        Ok(v) => Ok(value_view(v)),
        Err(e) => Err(e@),
    }
}

/// Reads an `i64` as the standard library does.
fn parse_i64(text: &str) -> (r: Option<i64>)
    ensures
        r == spec_parse_i64(text@),
{
    let chars = chars_of(text);
    let neg = chars.len() > 0 && chars[0] == '-';
    let start: usize = if chars.len() > 0 && (chars[0] == '-' || chars[0] == '+') { 1 } else { 0 };
    let ghost d = if text@.len() > 0 && (text@[0] == '-' || text@[0] == '+') { text@.drop_first() } else { text@ };
    assert(d =~= chars@.skip(start as int));
    let limit: u64 = if neg { 9223372036854775808 } else { 9223372036854775807 };
    match digits_at_most(&chars, start, limit) {
        None => None,
        Some(n) => {
            if neg {
                if n == 9223372036854775808 {
                    Some(i64::MIN)
                } else {
                    let m = n as i64;
                    Some(-m)
                }
            } else {
                Some(n as i64)
            }
        },
    }
}

/// Reads a non-negative integer that fits an `i64`.
fn parse_uint(text: &str) -> (r: Option<i64>)
    ensures
        r == spec_parse_uint(text@),
{
    let chars = chars_of(text);
    let start: usize = if chars.len() > 0 && chars[0] == '+' { 1 } else { 0 };
    let ghost d = if text@.len() > 0 && text@[0] == '+' { text@.drop_first() } else { text@ };
    assert(d =~= chars@.skip(start as int));
    match digits_at_most(&chars, start, 9223372036854775807) {
        None => None,
        Some(n) => Some(n as i64),
    }
}

/// A text value.
fn text_value(text: &str) -> (r: Value)
    ensures
        value_view(r) == ValueV::Text(text@),
{
    let r = Value::Text(String::from_str(text));
    proof {
        lemma_value_view(r);
    }
    r
}

/// Reads one scalar from its command-line text, or names what was expected.
pub fn parse_scalar(ty: &ParamType, text: &str) -> (r: Result<Value, &'static str>)
    ensures
        scalar_view(r) == spec_parse_scalar(shape(*ty), text@),
{
    proof {
        reveal_strlit("true");
        reveal_strlit("false");
    }
    match ty {
        ParamType::Bool => {
            if str_eq(text, "true") {
                let v = Value::Bool(true);
                proof {
                    lemma_value_view(v);
                }
                Ok(v)
            } else if str_eq(text, "false") {
                let v = Value::Bool(false);
                proof {
                    lemma_value_view(v);
                }
                Ok(v)
            } else {
                Err("`true` or `false`")
            }
        },
        ParamType::Int => match parse_i64(text) {
            Some(n) => {
                let v = Value::Int(n);
                proof {
                    lemma_value_view(v);
                }
                Ok(v)
            },
            None => Err("an integer"),
        },
        ParamType::Uint | ParamType::Id(_) => match parse_uint(text) {
            Some(n) => {
                let v = Value::Int(n);
                proof {
                    lemma_value_view(v);
                }
                Ok(v)
            },
            None => Err("a non-negative integer"),
        },
        ParamType::Text => Ok(text_value(text)),
        ParamType::Char => {
            if text.unicode_len() == 1 {
                Ok(text_value(text))
            } else {
                Err("exactly one character")
            }
        },
        ParamType::Path => {
            if text.unicode_len() == 0 {
                Err("a path")
            } else {
                Ok(text_value(text))
            }
        },
        ParamType::Choice(tags) => {
            if contains_str(tags, text) {
                Ok(text_value(text))
            } else {
                Err("one of the listed choices")
            }
        },
        _ => Err("a value with a flag form"),
    }
}


/// One flag as it appeared on the command line.
#[derive(Debug, Clone, PartialEq, Eq)]
pub struct Occurrence {
    /// The long name, without `--`.
    pub long: String,
    /// Its value, or `None` for a switch.
    pub value: Option<String>,
}

/// An occurrence with its text as characters.
pub struct OccV {
    pub long: Seq<char>,
    pub value: Option<Seq<char>>,
}

impl View for Occurrence {
    type V = OccV;

    open spec fn view(&self) -> OccV {
        OccV {
            long: self.long@,
            value: match self.value {
                Some(v) => Some(v@),
                None => None,
            },
        }
    }
}

/// Some occurrences, each by its view.
pub open spec fn occs_view(all: Seq<Occurrence>) -> Seq<OccV> {
    all.map_values(|o: Occurrence| o@)
}

impl Occurrence {
    /// A flag with a value.
    pub fn valued(long: &str, value: &str) -> (r: Self)
        ensures
            r@ == (OccV { long: long@, value: Some(value@) }),
    {
        Occurrence { long: String::from_str(long), value: Some(String::from_str(value)) }
    }

    /// A switch.
    pub fn switch(long: &str) -> (r: Self)
        ensures
            r@ == (OccV { long: long@, value: None }),
    {
        Occurrence { long: String::from_str(long), value: None }
    }
}

/// The occurrences of `long`, in order.
pub open spec fn spec_occurrences(long: Seq<char>, all: Seq<OccV>) -> Seq<OccV>
    decreases all.len(),
{
    if all.len() == 0 {
        Seq::empty()
    } else {
        let rest = spec_occurrences(long, all.drop_last());
        if all.last().long == long {
            rest.push(all.last())
        } else {
            rest
        }
    }
}

/// Whether some flag under `prefix` (a dotted child of it) occurs.
pub open spec fn spec_any_under(prefix: Seq<char>, all: Seq<OccV>) -> bool {
    exists|i: int| 0 <= i < all.len() && starts_with(#[trigger] all[i].long, prefix + "."@)
}

/// Why a command line could not be turned into a call.
#[derive(Debug, Clone, PartialEq, Eq)]
pub enum CliError {
    /// A required flag was not supplied.
    MissingFlag {
        /// Which one.
        flag: String,
    },
    /// A flag that takes a value was supplied without one.
    MissingValue {
        /// Which one.
        flag: String,
    },
    /// A value could not be read as its declared shape.
    BadValue {
        /// Which flag.
        flag: String,
        /// What was expected, as a phrase.
        expected: &'static str,
        /// What arrived.
        got: String,
    },
    /// A union tag that names no arm.
    UnknownArm {
        /// Which flag.
        flag: String,
        /// What arrived.
        got: String,
        /// The arms that exist.
        expected: Vec<&'static str>,
    },
    /// A flag this verb does not declare.
    UnknownFlag {
        /// The verb.
        verb: &'static str,
        /// What arrived.
        flag: String,
    },
    /// A parameter with no flag form: reach it through `--eval`.
    NeedsEval {
        /// The flag path it would have had.
        at: String,
    },
}

/// A command-line error with its text as characters.
pub enum CliErrV {
    MissingFlag { flag: Seq<char> },
    MissingValue { flag: Seq<char> },
    BadValue { flag: Seq<char>, expected: Seq<char>, got: Seq<char> },
    UnknownArm { flag: Seq<char>, got: Seq<char>, expected: Seq<Seq<char>> },
    UnknownFlag { verb: Seq<char>, flag: Seq<char> },
    NeedsEval { at: Seq<char> },
}

impl View for CliError {
    type V = CliErrV;

    open spec fn view(&self) -> CliErrV {
        match self {
            CliError::MissingFlag { flag } => CliErrV::MissingFlag { flag: flag@ },
            CliError::MissingValue { flag } => CliErrV::MissingValue { flag: flag@ },
            CliError::BadValue { flag, expected, got } => CliErrV::BadValue { flag: flag@, expected: expected@, got: got@ },
            CliError::UnknownArm { flag, got, expected } => CliErrV::UnknownArm {
                flag: flag@,
                got: got@,
                expected: strs_view(expected@),
            },
            CliError::UnknownFlag { verb, flag } => CliErrV::UnknownFlag { verb: verb@, flag: flag@ },
            CliError::NeedsEval { at } => CliErrV::NeedsEval { at: at@ },
        }
    }
}

/// Reading one scalar for flag `base`.
pub open spec fn spec_read_one(base: Seq<char>, s: ShapeV, t: Seq<char>) -> Result<ValueV, CliErrV> {
    match spec_parse_scalar(s, t) {
        Ok(v) => Ok(v),
        Err(e) => Err(CliErrV::BadValue { flag: base, expected: e, got: t }),
    }
}

/// Reading each occurrence of a repeated flag as one element.
pub open spec fn spec_read_items(base: Seq<char>, inner: ShapeV, occ: Seq<OccV>) -> Result<Seq<ValueV>, CliErrV>
    decreases occ.len(),
{
    if occ.len() == 0 {
        Ok(Seq::empty())
    } else {
        match spec_read_items(base, inner, occ.drop_last()) {
            Err(e) => Err(e),
            Ok(items) => match occ.last().value {
                None => Err(CliErrV::MissingValue { flag: base }),
                Some(t) => match spec_read_one(base, inner, t) {
                    Err(e) => Err(e),
                    Ok(v) => Ok(items.push(v)),
                },
            },
        }
    }
}

/// A parameter with no flag form: absent when nothing under it occurs and it
/// is optional, else only `--eval` can supply it.
pub open spec fn spec_needs_eval(base: Seq<char>, required: bool, all: Seq<OccV>) -> Result<ValueV, CliErrV> {
    if !required && spec_occurrences(base, all).len() == 0 && !spec_any_under(base, all) {
        Ok(ValueV::Null)
    } else {
        Err(CliErrV::NeedsEval { at: base })
    }
}

/// The first arm tagged `tag`, or `arms.len()` when there is none.
pub open spec fn arm_index(arms: Seq<ArmShapeV>, tag: Seq<char>) -> int
    decreases arms.len(),
{
    if arms.len() == 0 {
        0
    } else if arms[0].tag == tag {
        0
    } else {
        1 + arm_index(arms.drop_first(), tag)
    }
}

/// The value flag `base` of shape `s` reads from the occurrences: the walk
/// that emitted the flags, read back.
pub open spec fn spec_read(base: Seq<char>, s: ShapeV, required: bool, all: Seq<OccV>) -> Result<ValueV, CliErrV>
    decreases s,
{
    let occ = spec_occurrences(base, all);
    match s {
        ShapeV::Bool => if occ.len() > 0 {
            match occ.last().value {
                Some(t) => spec_read_one(base, ShapeV::Bool, t),
                None => Ok(ValueV::Bool(true)),
            }
        } else if required {
            Ok(ValueV::Bool(false))
        } else {
            Ok(ValueV::Null)
        },
        ShapeV::List(inner) => if is_scalar(*inner) {
            match spec_read_items(base, *inner, occ) {
                Err(e) => Err(e),
                Ok(items) => if items.len() == 0 && !required {
                    Ok(ValueV::Null)
                } else {
                    Ok(ValueV::List(items))
                },
            }
        } else {
            spec_needs_eval(base, required, all)
        },
        ShapeV::Record(fields) => if !required && !spec_any_under(base, all) {
            Ok(ValueV::Null)
        } else {
            match spec_read_fields(base, fields, required, all) {
                Err(e) => Err(e),
                Ok(ps) => Ok(ValueV::Record(ps)),
            }
        },
        ShapeV::Union(arms) => if occ.len() == 0 {
            if required {
                Err(CliErrV::MissingFlag { flag: base })
            } else {
                Ok(ValueV::Null)
            }
        } else {
            match occ.last().value {
                None => Err(CliErrV::MissingValue { flag: base }),
                Some(t) => {
                    let k = arm_index(arms, t);
                    if !(0 <= k < arms.len()) {
                        Err(CliErrV::UnknownArm { flag: base, got: t, expected: arm_tags(arms) })
                    } else {
                        match spec_read_arm_fields(base, arms, arms[k].tag, arms[k].fields, all) {
                            Err(e) => Err(e),
                            Ok(ps) => Ok(ValueV::Record(with_fields(seq![(TAG_FIELD@, ValueV::Text(arms[k].tag))], ps))),
                        }
                    }
                },
            }
        },
        ShapeV::Any => spec_needs_eval(base, required, all),
        _ => if occ.len() > 0 {
            match occ.last().value {
                Some(t) => spec_read_one(base, s, t),
                None => Err(CliErrV::MissingValue { flag: base }),
            }
        } else if required {
            Err(CliErrV::MissingFlag { flag: base })
        } else {
            Ok(ValueV::Null)
        },
    }
}

/// Reading a record's fields in order into named values.
pub open spec fn spec_read_fields(base: Seq<char>, fields: Seq<FieldV>, required: bool, all: Seq<OccV>) -> Result<Seq<(Seq<char>, ValueV)>, CliErrV>
    decreases fields,
{
    if fields.len() == 0 {
        Ok(Seq::empty())
    } else {
        match spec_read_fields(base, fields.drop_last(), required, all) {
            Err(e) => Err(e),
            Ok(ps) => {
                let f = fields.last();
                match spec_read(spec_join(base, f.name), f.shape, required && f.required, all) {
                    Err(e) => Err(e),
                    Ok(v) => Ok(with_field(ps, f.name, v)),
                }
            },
        }
    }
}

/// Reading the fields of the selected arm, each under its flag.
pub open spec fn spec_read_arm_fields(
    base: Seq<char>,
    arms: Seq<ArmShapeV>,
    tag: Seq<char>,
    fields: Seq<FieldV>,
    all: Seq<OccV>,
) -> Result<Seq<(Seq<char>, ValueV)>, CliErrV>
    decreases fields,
{
    if fields.len() == 0 {
        Ok(Seq::empty())
    } else {
        match spec_read_arm_fields(base, arms, tag, fields.drop_last(), all) {
            Err(e) => Err(e),
            Ok(ps) => {
                let f = fields.last();
                match spec_read(spec_arm_field(base, arms, tag, f), f.shape, f.required, all) {
                    Err(e) => Err(e),
                    Ok(v) => Ok(with_field(ps, f.name, v)),
                }
            },
        }
    }
}


/// A reading by its view.
pub open spec fn read_view(r: Result<Value, CliError>) -> Result<ValueV, CliErrV> {
    match r {
        Ok(v) => Ok(value_view(v)),
        Err(e) => Err(e@),
    }
}

/// Some borrowed occurrences, each by its view.
pub open spec fn occ_refs_view(all: Seq<&Occurrence>) -> Seq<OccV> {
    all.map_values(|o: &Occurrence| o@)
}

/// The occurrences of `long`, in order.
fn occurrences_of<'a>(long: &str, all: &'a [Occurrence]) -> (r: Vec<&'a Occurrence>)
    ensures
        occ_refs_view(r@) == spec_occurrences(long@, occs_view(all@)),
{
    let mut out: Vec<&'a Occurrence> = Vec::new();
    let mut i: usize = 0;
    while i < all.len()
        invariant
            i <= all@.len(),
            occ_refs_view(out@) == spec_occurrences(long@, occs_view(all@.take(i as int))),
        decreases all.len() - i,
    {
        let ghost before = out@;
        assert(occs_view(all@.take(i + 1)).drop_last() =~= occs_view(all@.take(i as int)));
        assert(occs_view(all@.take(i + 1)).last() == all@[i as int]@);
        if str_eq(all[i].long.as_str(), long) {
            out.push(&all[i]);
            assert(occ_refs_view(out@) =~= occ_refs_view(before).push(all@[i as int]@));
        }
        i = i + 1;
    }
    assert(all@.take(i as int) =~= all@);
    out
}

/// Whether some flag under `prefix` occurs.
fn any_under(prefix: &str, all: &[Occurrence]) -> (r: bool)
    ensures
        r == spec_any_under(prefix@, occs_view(all@)),
{
    let mut dotted = String::from_str(prefix);
    push_str(&mut dotted, ".");
    proof {
        reveal_strlit(".");
    }
    let ghost occs = occs_view(all@);
    let mut i: usize = 0;
    while i < all.len()
        invariant
            i <= all@.len(),
            occs == occs_view(all@),
            dotted@ == prefix@ + "."@,
            forall|j: int| 0 <= j < i ==> !starts_with(#[trigger] occs[j].long, prefix@ + "."@),
        decreases all.len() - i,
    {
        if has_prefix(all[i].long.as_str(), dotted.as_str()) {
            assert(starts_with(occs[i as int].long, prefix@ + "."@));
            return true;
        }
        i = i + 1;
    }
    false
}

/// A bad value for flag `base`.
fn bad_value(base: &str, expected: &'static str, got: &String) -> (r: CliError)
    ensures
        r@ == (CliErrV::BadValue { flag: base@, expected: expected@, got: got@ }),
{
    CliError::BadValue { flag: String::from_str(base), expected, got: got.clone() }
}

/// Reads one scalar for flag `base`.
fn read_one(base: &str, ty: &ParamType, text: &String) -> (r: Result<Value, CliError>)
    ensures
        read_view(r) == spec_read_one(base@, shape(*ty), text@),
{
    match parse_scalar(ty, text.as_str()) {
        Ok(v) => Ok(v),
        Err(expected) => Err(bad_value(base, expected, text)),
    }
}

/// A null value.
fn null() -> (r: Value)
    ensures
        value_view(r) == ValueV::Null,
{
    let r = Value::Null;
    proof {
        lemma_value_view(r);
    }
    r
}

proof fn lemma_items_stop(base: Seq<char>, inner: ShapeV, occ: Seq<OccV>, k: int)
    requires
        0 <= k <= occ.len(),
        spec_read_items(base, inner, occ.take(k)) is Err,
    ensures
        spec_read_items(base, inner, occ) == spec_read_items(base, inner, occ.take(k)),
    decreases occ.len(),
{
    if occ.len() > k {
        assert(occ.drop_last().take(k) =~= occ.take(k));
        lemma_items_stop(base, inner, occ.drop_last(), k);
    } else {
        assert(occ.take(k) =~= occ);
    }
}

/// Reads each occurrence of a repeated scalar flag as one element.
fn read_items(base: &str, inner: &ParamType, occ: &Vec<&Occurrence>) -> (r: Result<Vec<Value>, CliError>)
    ensures
        match r {
            Ok(items) => spec_read_items(base@, shape(*inner), occ_refs_view(occ@)) == Ok::<Seq<ValueV>, CliErrV>(values_view(items@)),
            Err(e) => spec_read_items(base@, shape(*inner), occ_refs_view(occ@)) == Err::<Seq<ValueV>, CliErrV>(e@),
        },
{
    let ghost ov = occ_refs_view(occ@);
    let mut items: Vec<Value> = Vec::new();
    assert(values_view(items@) =~= Seq::<ValueV>::empty());
    assert(ov.take(0) =~= Seq::<OccV>::empty());
    let mut i: usize = 0;
    while i < occ.len()
        invariant
            i <= occ@.len(),
            ov == occ_refs_view(occ@),
            spec_read_items(base@, shape(*inner), ov.take(i as int)) == Ok::<Seq<ValueV>, CliErrV>(values_view(items@)),
        decreases occ.len() - i,
    {
        assert(ov.take(i + 1).drop_last() =~= ov.take(i as int));
        assert(ov.take(i + 1).last() == occ@[i as int]@);
        match &occ[i].value {
            None => {
                proof {
                    lemma_items_stop(base@, shape(*inner), ov, i + 1);
                }
                return Err(CliError::MissingValue { flag: String::from_str(base) });
            },
            Some(text) => {
                match read_one(base, inner, text) {
                    Err(e) => {
                        proof {
                            lemma_items_stop(base@, shape(*inner), ov, i + 1);
                        }
                        return Err(e);
                    },
                    Ok(v) => {
                        let ghost before = items@;
                        items.push(v);
                        assert(values_view(items@) =~= values_view(before).push(value_view(v)));
                    },
                }
            },
        }
        i = i + 1;
    }
    assert(ov.take(i as int) =~= ov);
    Ok(items)
}

/// A parameter with no flag form.
fn needs_eval(base: &str, required: bool, all: &[Occurrence]) -> (r: Result<Value, CliError>)
    ensures
        read_view(r) == spec_needs_eval(base@, required, occs_view(all@)),
{
    let occ = occurrences_of(base, all);
    if !required && occ.len() == 0 && !any_under(base, all) {
        Ok(null())
    } else {
        Err(CliError::NeedsEval { at: String::from_str(base) })
    }
}


proof fn lemma_read_fields_stop(base: Seq<char>, fs: Seq<FieldV>, required: bool, all: Seq<OccV>, k: int)
    requires
        0 <= k <= fs.len(),
        spec_read_fields(base, fs.take(k), required, all) is Err,
    ensures
        spec_read_fields(base, fs, required, all) == spec_read_fields(base, fs.take(k), required, all),
    decreases fs.len(),
{
    if fs.len() > k {
        assert(fs.drop_last().take(k) =~= fs.take(k));
        lemma_read_fields_stop(base, fs.drop_last(), required, all, k);
    } else {
        assert(fs.take(k) =~= fs);
    }
}

proof fn lemma_read_arm_fields_stop(base: Seq<char>, arms: Seq<ArmShapeV>, tag: Seq<char>, fs: Seq<FieldV>, all: Seq<OccV>, k: int)
    requires
        0 <= k <= fs.len(),
        spec_read_arm_fields(base, arms, tag, fs.take(k), all) is Err,
    ensures
        spec_read_arm_fields(base, arms, tag, fs, all) == spec_read_arm_fields(base, arms, tag, fs.take(k), all),
    decreases fs.len(),
{
    if fs.len() > k {
        assert(fs.drop_last().take(k) =~= fs.take(k));
        lemma_read_arm_fields_stop(base, arms, tag, fs.drop_last(), all, k);
    } else {
        assert(fs.take(k) =~= fs);
    }
}

proof fn lemma_arm_index_found(arms: Seq<ArmShapeV>, tag: Seq<char>, i: int)
    requires
        0 <= i < arms.len(),
        arms[i].tag == tag,
        forall|j: int| 0 <= j < i ==> arms[j].tag != tag,
    ensures
        arm_index(arms, tag) == i,
    decreases i,
{
    if i > 0 {
        lemma_arm_index_found(arms.drop_first(), tag, i - 1);
    }
}

proof fn lemma_arm_index_absent(arms: Seq<ArmShapeV>, tag: Seq<char>)
    requires
        forall|j: int| 0 <= j < arms.len() ==> arms[j].tag != tag,
    ensures
        arm_index(arms, tag) == arms.len(),
    decreases arms.len(),
{
    if arms.len() > 0 {
        lemma_arm_index_absent(arms.drop_first(), tag);
    }
}

/// Where the first arm tagged `tag` is, or the number of arms.
fn find_arm(variants: &Vec<UnionVariant>, tag: &str) -> (r: usize)
    ensures
        r as int == arm_index(shape_arms(variants@), tag@),
        r <= variants@.len(),
{
    let ghost arms = shape_arms(variants@);
    proof {
        lemma_shape_arms_index(variants@);
    }
    let mut i: usize = 0;
    while i < variants.len()
        invariant
            i <= variants@.len(),
            arms == shape_arms(variants@),
            arms.len() == variants@.len(),
            forall|a: int| 0 <= a < variants@.len() ==> #[trigger] arms[a] == (ArmShapeV {
                tag: variants@[a].tag@,
                doc: variants@[a].doc@,
                fields: shape_fields(variants@[a].fields@),
            }),
            forall|j: int| 0 <= j < i ==> arms[j].tag != tag@,
        decreases variants.len() - i,
    {
        assert(arms[i as int].tag == variants@[i as int].tag@);
        if str_eq(variants[i].tag, tag) {
            proof {
                lemma_arm_index_found(arms, tag@, i as int);
            }
            return i;
        }
        i = i + 1;
    }
    proof {
        lemma_arm_index_absent(arms, tag@);
    }
    i
}

/// The value flag `base` of type `ty` reads from the command line.
fn read(base: &str, ty: &ParamType, required: bool, all: &[Occurrence]) -> (r: Result<Value, CliError>)
    ensures
        read_view(r) == spec_read(base@, shape(*ty), required, occs_view(all@)),
    decreases ty,
{
    let ghost occs = occs_view(all@);
    match ty {
        ParamType::Bool => {
            let occ = occurrences_of(base, all);
            if occ.len() > 0 {
                let last = occ[occ.len() - 1];
                assert(occ_refs_view(occ@).last() == last@);
                match &last.value {
                    Some(text) => read_one(base, ty, text),
                    None => {
                        let v = Value::Bool(true);
                        proof {
                            lemma_value_view(v);
                        }
                        Ok(v)
                    },
                }
            } else if required {
                let v = Value::Bool(false);
                proof {
                    lemma_value_view(v);
                }
                Ok(v)
            } else {
                Ok(null())
            }
        },
        ParamType::List(inner) => {
            if is_scalar_type(inner) {
                let occ = occurrences_of(base, all);
                match read_items(base, inner, &occ) {
                    Err(e) => Err(e),
                    Ok(items) => {
                        if items.len() == 0 && !required {
                            Ok(null())
                        } else {
                            let v = Value::List(items);
                            proof {
                                lemma_value_view(v);
                            }
                            Ok(v)
                        }
                    },
                }
            } else {
                needs_eval(base, required, all)
            }
        },
        ParamType::Record(fields) => {
            if !required && !any_under(base, all) {
                return Ok(null());
            }
            let mut args = Args::new();
            assert(record_view(args@) =~= Seq::<(Seq<char>, ValueV)>::empty());
            assert(fields@.take(0) =~= Seq::<Param>::empty());
            let mut i: usize = 0;
            while i < fields.len()
                invariant
                    i <= fields@.len(),
                    ty is Record,
                    ty->Record_0 == *fields,
                    occs == occs_view(all@),
                    required || spec_any_under(base@, occs),
                    spec_read_fields(base@, shape_fields(fields@.take(i as int)), required, occs)
                        == Ok::<Seq<(Seq<char>, ValueV)>, CliErrV>(record_view(args@)),
                decreases fields.len() - i,
            {
                let field = &fields[i];
                assert(decreases_to!(*ty => ty->Record_0));
                assert(decreases_to!(ty->Record_0 => ty->Record_0@));
                assert(decreases_to!(ty->Record_0@ => ty->Record_0@[i as int]));
                assert(decreases_to!(ty->Record_0@[i as int] => ty->Record_0@[i as int].ty));
                let name = join(base, field.name);
                let ghost sf = shape_fields(fields@.take(i + 1));
                assert(fields@.take(i + 1).drop_last() =~= fields@.take(i as int));
                assert(sf.drop_last() =~= shape_fields(fields@.take(i as int)));
                assert(sf.last() == field_shape(*field));
                match read(name.as_str(), &field.ty, required && field.required, all) {
                    Err(e) => {
                        proof {
                            lemma_shape_fields_take(fields@, i + 1);
                            lemma_read_fields_stop(base@, shape_fields(fields@), required, occs, i + 1);
                        }
                        return Err(e);
                    },
                    Ok(v) => {
                        proof {
                            lemma_record_view_with_field(args@, field.name@, v);
                        }
                        args.set(field.name, v);
                    },
                }
                i = i + 1;
            }
            assert(fields@.take(i as int) =~= fields@);
            let v = Value::Record(args);
            proof {
                lemma_value_view(v);
            }
            Ok(v)
        },
        ParamType::Union(variants) => {
            let occ = occurrences_of(base, all);
            if occ.len() == 0 {
                return if required {
                    Err(CliError::MissingFlag { flag: String::from_str(base) })
                } else {
                    Ok(null())
                };
            }
            let last = occ[occ.len() - 1];
            assert(occ_refs_view(occ@).last() == last@);
            let tag = match &last.value {
                None => {
                    return Err(CliError::MissingValue { flag: String::from_str(base) });
                },
                Some(t) => t,
            };
            let k = find_arm(variants, tag.as_str());
            let ghost arms = shape_arms(variants@);
            proof {
                lemma_shape_arms_index(variants@);
            }
            if k >= variants.len() {
                let expected = tags_vec(variants);
                return Err(CliError::UnknownArm { flag: String::from_str(base), got: tag.clone(), expected });
            }
            let variant = &variants[k];
            assert(arms[k as int].tag == variant.tag@);
            assert(arms[k as int].fields == shape_fields(variant.fields@));
            let mut fields = Args::new();
            assert(record_view(fields@) =~= Seq::<(Seq<char>, ValueV)>::empty());
            assert(variant.fields@.take(0) =~= Seq::<Param>::empty());
            let mut f: usize = 0;
            while f < variant.fields.len()
                invariant
                    f <= variant.fields@.len(),
                    k < variants@.len(),
                    *variant == variants@[k as int],
                    ty is Union,
                    ty->Union_0 == *variants,
                    occs == occs_view(all@),
                    arms == shape_arms(variants@),
                    arms.len() == variants@.len(),
                    arms[k as int].tag == variant.tag@,
                    arms[k as int].fields == shape_fields(variant.fields@),
                    spec_occurrences(base@, occs).len() > 0,
                    spec_occurrences(base@, occs).last().value == Some(tag@),
                    arm_index(arms, tag@) == k,
                    spec_read_arm_fields(base@, arms, variant.tag@, shape_fields(variant.fields@.take(f as int)), occs)
                        == Ok::<Seq<(Seq<char>, ValueV)>, CliErrV>(record_view(fields@)),
                decreases variant.fields.len() - f,
            {
                let field = &variant.fields[f];
                assert(decreases_to!(*ty => ty->Union_0));
                assert(decreases_to!(ty->Union_0 => ty->Union_0@));
                assert(decreases_to!(ty->Union_0@ => ty->Union_0@[k as int]));
                assert(decreases_to!(ty->Union_0@[k as int] => ty->Union_0@[k as int].fields));
                assert(decreases_to!(ty->Union_0@[k as int].fields => ty->Union_0@[k as int].fields@));
                assert(decreases_to!(ty->Union_0@[k as int].fields@ => ty->Union_0@[k as int].fields@[f as int]));
                assert(decreases_to!(ty->Union_0@[k as int].fields@[f as int] => ty->Union_0@[k as int].fields@[f as int].ty));
                let name = arm_field(base, variants, k, f);
                let ghost sf = shape_fields(variant.fields@.take(f + 1));
                assert(variant.fields@.take(f + 1).drop_last() =~= variant.fields@.take(f as int));
                assert(sf.drop_last() =~= shape_fields(variant.fields@.take(f as int)));
                assert(sf.last() == field_shape(*field));
                match read(name.as_str(), &field.ty, field.required, all) {
                    Err(e) => {
                        proof {
                            lemma_shape_fields_take(variant.fields@, f + 1);
                            lemma_read_arm_fields_stop(base@, arms, variant.tag@, shape_fields(variant.fields@), occs, f + 1);
                        }
                        return Err(e);
                    },
                    Ok(v) => {
                        proof {
                            lemma_record_view_with_field(fields@, field.name@, v);
                        }
                        fields.set(field.name, v);
                    },
                }
                f = f + 1;
            }
            assert(variant.fields@.take(f as int) =~= variant.fields@);
            let ghost fv = fields@;
            let v = Value::tagged(variant.tag, fields);
            proof {
                let a = v->Record_0;
                let t = choose|t: String| t@ == variant.tag@ && a@ == with_fields(seq![(TAG_FIELD@, Value::Text(t))], fv);
                lemma_value_view(v);
                lemma_value_view(Value::Text(t));
                lemma_record_view_with_fields(seq![(TAG_FIELD@, Value::Text(t))], fv);
                assert(record_view(seq![(TAG_FIELD@, Value::Text(t))]) =~= seq![(TAG_FIELD@, ValueV::Text(variant.tag@))]);
            }
            Ok(v)
        },
        ParamType::Any => needs_eval(base, required, all),
        _ => {
            let occ = occurrences_of(base, all);
            if occ.len() > 0 {
                let last = occ[occ.len() - 1];
                assert(occ_refs_view(occ@).last() == last@);
                match &last.value {
                    Some(text) => read_one(base, ty, text),
                    None => Err(CliError::MissingValue { flag: String::from_str(base) }),
                }
            } else if required {
                Err(CliError::MissingFlag { flag: String::from_str(base) })
            } else {
                Ok(null())
            }
        },
    }
}


/// The first occurrence whose name is no flag of `flags`, or `all.len()`.
pub open spec fn unknown_index(flags: Seq<FlagV>, all: Seq<OccV>) -> int
    decreases all.len(),
{
    if all.len() == 0 {
        0
    } else if flag_index(flags, all[0].long) >= flags.len() {
        0
    } else {
        1 + unknown_index(flags, all.drop_first())
    }
}

/// Reading each parameter in order into named arguments.
pub open spec fn spec_read_params(params: Seq<Param>, all: Seq<OccV>) -> Result<Seq<(Seq<char>, ValueV)>, CliErrV>
    decreases params.len(),
{
    if params.len() == 0 {
        Ok(Seq::empty())
    } else {
        match spec_read_params(params.drop_last(), all) {
            Err(e) => Err(e),
            Ok(ps) => {
                let p = params.last();
                match spec_read(spec_kebab(p.name@), shape(p.ty), p.required, all) {
                    Err(e) => Err(e),
                    Ok(v) => Ok(with_field(ps, p.name@, v)),
                }
            },
        }
    }
}

/// The arguments a command line gives capability `c`: refused at the first
/// flag the verb does not declare, else each parameter read in order.
pub open spec fn spec_assemble(c: Capability, all: Seq<OccV>) -> Result<Seq<(Seq<char>, ValueV)>, CliErrV> {
    let flags = spec_verb_parts(c.params@).0;
    let u = unknown_index(flags, all);
    if 0 <= u < all.len() {
        Err(CliErrV::UnknownFlag { verb: c.name@, flag: all[u].long })
    } else {
        spec_read_params(c.params@, all)
    }
}

proof fn lemma_unknown_index_found(flags: Seq<FlagV>, all: Seq<OccV>, i: int)
    requires
        0 <= i < all.len(),
        flag_index(flags, all[i].long) >= flags.len(),
        forall|j: int| 0 <= j < i ==> flag_index(flags, #[trigger] all[j].long) < flags.len(),
    ensures
        unknown_index(flags, all) == i,
    decreases i,
{
    if i > 0 {
        lemma_unknown_index_found(flags, all.drop_first(), i - 1);
    }
}

proof fn lemma_unknown_index_absent(flags: Seq<FlagV>, all: Seq<OccV>)
    requires
        forall|j: int| 0 <= j < all.len() ==> flag_index(flags, #[trigger] all[j].long) < flags.len(),
    ensures
        unknown_index(flags, all) == all.len(),
    decreases all.len(),
{
    if all.len() > 0 {
        assert(flag_index(flags, all[0].long) < flags.len());
        assert forall|j: int| 0 <= j < all.drop_first().len() implies flag_index(flags, #[trigger] all.drop_first()[j].long)
            < flags.len() by {
            assert(all.drop_first()[j] == all[j + 1]);
        }
        lemma_unknown_index_absent(flags, all.drop_first());
    }
}

proof fn lemma_read_params_stop(params: Seq<Param>, all: Seq<OccV>, k: int)
    requires
        0 <= k <= params.len(),
        spec_read_params(params.take(k), all) is Err,
    ensures
        spec_read_params(params, all) == spec_read_params(params.take(k), all),
    decreases params.len(),
{
    if params.len() > k {
        assert(params.drop_last().take(k) =~= params.take(k));
        lemma_read_params_stop(params.drop_last(), all, k);
    } else {
        assert(params.take(k) =~= params);
    }
}

/// A command line that names only flags its verb declares is never refused
/// as naming an unknown flag: it is read parameter by parameter.
pub proof fn lemma_declared_flags_are_read(c: Capability, all: Seq<OccV>)
    requires
        forall|i: int|
            0 <= i < all.len() ==> flag_index(spec_verb_parts(c.params@).0, #[trigger] all[i].long)
                < spec_verb_parts(c.params@).0.len(),
    ensures
        spec_assemble(c, all) == spec_read_params(c.params@, all),
{
    lemma_unknown_index_absent(spec_verb_parts(c.params@).0, all);
}

/// The names of some parameters, in order.
pub open spec fn param_names(params: Seq<Param>) -> Seq<Seq<char>> {
    params.map_values(|p: Param| p.name@)
}

/// A call read from a command line carries every declared argument, in
/// declaration order (an absent optional one as null), wherever the
/// parameters' names are distinct.
pub proof fn lemma_call_carries_every_argument(params: Seq<Param>, all: Seq<OccV>)
    requires
        forall|i: int, j: int| 0 <= i < j < params.len() ==> #[trigger] params[i].name@ != #[trigger] params[j].name@,
        spec_read_params(params, all) is Ok,
    ensures
        spec_read_params(params, all)->Ok_0.map_values(|f: (Seq<char>, ValueV)| f.0) == param_names(params),
    decreases params.len(),
{
    if params.len() > 0 {
        let rest = params.drop_last();
        assert forall|i: int, j: int| 0 <= i < j < rest.len() implies #[trigger] rest[i].name@ != #[trigger] rest[j].name@ by {
            assert(rest[i] == params[i]);
            assert(rest[j] == params[j]);
        }
        lemma_call_carries_every_argument(rest, all);
        let ps = spec_read_params(rest, all)->Ok_0;
        let p = params.last();
        let names = ps.map_values(|f: (Seq<char>, ValueV)| f.0);
        assert(names == param_names(rest));
        assert forall|k: int| 0 <= k < ps.len() implies ps[k].0 != p.name@ by {
            assert(names[k] == ps[k].0);
            assert(param_names(rest)[k] == rest[k].name@);
            assert(rest[k] == params[k]);
        }
        crate::value::lemma_field_index_absent(ps, p.name@);
        let v = spec_read(spec_kebab(p.name@), shape(p.ty), p.required, all)->Ok_0;
        assert(spec_read_params(params, all)->Ok_0 == ps.push((p.name@, v)));
        assert(ps.push((p.name@, v)).map_values(|f: (Seq<char>, ValueV)| f.0) =~= names.push(p.name@));
        assert(param_names(params) =~= param_names(rest).push(p.name@));
    } else {
        assert(spec_read_params(params, all)->Ok_0.map_values(|f: (Seq<char>, ValueV)| f.0) =~= param_names(params));
    }
}

/// Builds the door-neutral call from the flags a command line supplied.
pub fn assemble(capability: &Capability, occurrences: &[Occurrence]) -> (r: Result<Call, CliError>)
    ensures
        match r {
            Ok(call) => call.name@ == capability.name@ && spec_assemble(*capability, occs_view(occurrences@))
                == Ok::<Seq<(Seq<char>, ValueV)>, CliErrV>(record_view(call.args@)),
            Err(e) => spec_assemble(*capability, occs_view(occurrences@)) == Err::<Seq<(Seq<char>, ValueV)>, CliErrV>(e@),
        },
{
    let ghost occs = occs_view(occurrences@);
    let generated = verb(capability);
    let ghost flags = flags_view(generated.flags@);
    let mut i: usize = 0;
    while i < occurrences.len()
        invariant
            i <= occurrences@.len(),
            occs == occs_view(occurrences@),
            flags == flags_view(generated.flags@),
            is_verb_of(generated, *capability),
            forall|j: int| 0 <= j < i ==> flag_index(flags, #[trigger] occs[j].long) < flags.len(),
        decreases occurrences.len() - i,
    {
        let occurrence = &occurrences[i];
        if generated.flag(occurrence.long.as_str()).is_none() {
            proof {
                lemma_unknown_index_found(flags, occs, i as int);
            }
            return Err(CliError::UnknownFlag { verb: generated.verb, flag: occurrence.long.clone() });
        }
        i = i + 1;
    }
    proof {
        lemma_unknown_index_absent(flags, occs);
    }
    let params = &capability.params;
    let mut args = Args::new();
    assert(record_view(args@) =~= Seq::<(Seq<char>, ValueV)>::empty());
    assert(params@.take(0) =~= Seq::<Param>::empty());
    let mut k: usize = 0;
    while k < params.len()
        invariant
            k <= params@.len(),
            *params == capability.params,
            occs == occs_view(occurrences@),
            unknown_index(spec_verb_parts(capability.params@).0, occs) == occs.len(),
            spec_read_params(params@.take(k as int), occs) == Ok::<Seq<(Seq<char>, ValueV)>, CliErrV>(record_view(args@)),
        decreases params.len() - k,
    {
        let param = &params[k];
        assert(params@.take(k + 1).drop_last() =~= params@.take(k as int));
        let name = kebab(param.name);
        match read(name.as_str(), &param.ty, param.required, occurrences) {
            Err(e) => {
                proof {
                    lemma_read_params_stop(params@, occs, k + 1);
                }
                return Err(e);
            },
            Ok(v) => {
                proof {
                    lemma_record_view_with_field(args@, param.name@, v);
                }
                args.set(param.name, v);
            },
        }
        k = k + 1;
    }
    assert(params@.take(k as int) =~= params@);
    Ok(Call { name: String::from_str(capability.name), args })
}


/// What an error says, for a person.
pub open spec fn spec_message(e: CliErrV) -> Seq<char> {
    match e {
        CliErrV::MissingFlag { flag } => "`--"@ + flag + "` is required"@,
        CliErrV::MissingValue { flag } => "`--"@ + flag + "` takes a value"@,
        CliErrV::BadValue { flag, expected, got } => "`--"@ + flag + "` wants "@ + expected + ", got `"@ + got + "`"@,
        CliErrV::UnknownArm { flag, got, expected } => "`--"@ + flag + "` has no `"@ + got + "`; it is one of "@ + spec_join_all(
            expected,
            ", "@,
        ),
        CliErrV::UnknownFlag { verb, flag } => "`"@ + verb + "` has no `--"@ + flag + "`"@,
        CliErrV::NeedsEval { at } => "`--"@ + at + "` has no flag form \u{2014} call it with `--eval`"@,
    }
}

impl CliError {
    /// What this error says, for a person.
    pub fn message(&self) -> (r: String)
        ensures
            r@ == spec_message(self@),
    {
        let mut out = String::new();
        match self {
            CliError::MissingFlag { flag } => {
                push_str(&mut out, "`--");
                push_str(&mut out, flag.as_str());
                push_str(&mut out, "` is required");
            },
            CliError::MissingValue { flag } => {
                push_str(&mut out, "`--");
                push_str(&mut out, flag.as_str());
                push_str(&mut out, "` takes a value");
            },
            CliError::BadValue { flag, expected, got } => {
                push_str(&mut out, "`--");
                push_str(&mut out, flag.as_str());
                push_str(&mut out, "` wants ");
                push_str(&mut out, expected);
                push_str(&mut out, ", got `");
                push_str(&mut out, got.as_str());
                push_str(&mut out, "`");
            },
            CliError::UnknownArm { flag, got, expected } => {
                push_str(&mut out, "`--");
                push_str(&mut out, flag.as_str());
                push_str(&mut out, "` has no `");
                push_str(&mut out, got.as_str());
                push_str(&mut out, "`; it is one of ");
                let joined = crate::registry::join(expected, ", ");
                push_str(&mut out, joined.as_str());
            },
            CliError::UnknownFlag { verb, flag } => {
                push_str(&mut out, "`");
                push_str(&mut out, verb);
                push_str(&mut out, "` has no `--");
                push_str(&mut out, flag.as_str());
                push_str(&mut out, "`");
            },
            CliError::NeedsEval { at } => {
                push_str(&mut out, "`--");
                push_str(&mut out, at.as_str());
                push_str(&mut out, "` has no flag form \u{2014} call it with `--eval`");
            },
        }
        assert(out@ =~= spec_message(self@));
        out
    }
}

} // verus!
