//! The MCP door: one tool per capability, derived from its row.
//!
//! A tool is a total function of a capability, so the door cannot be short
//! one. The schema is plain data, a small description of a JSON Schema with
//! exactly one case per declared shape; the server walks it into whatever its
//! protocol library wants.
//!
//! An Action declares no output schema: it answers an outcome whose shape is
//! the same for every capability. A Query declares the result it returns.

use vstd::prelude::*;

use crate::language::{blank, is_blank, starts_with};
use crate::registry::{
    capabilities, is_sample_args, sample_args, spec_cap_count, spec_cap_name, strs_view, Capability, CapabilityKind,
    McpPolicy, Param, ParamType, Since, UnionVariant,
};
use crate::text_util::{chars_of, push_str};
use crate::value::{Value, ValueV, Wire, TAG_FIELD};

verus! {

/// One property of an object schema.
#[derive(Debug, PartialEq, Eq)]
pub struct Property {
    /// The property name: the parameter or field name, verbatim.
    pub name: &'static str,
    /// One line, in the product's voice.
    pub description: &'static str,
    /// Its shape.
    pub schema: Schema,
    /// Whether it is in the object's `required` list.
    pub required: bool,
}

/// One arm of a `oneOf`.
#[derive(Debug, PartialEq, Eq)]
pub struct Arm {
    /// The tag.
    pub tag: &'static str,
    /// When this arm applies.
    pub description: &'static str,
    /// The arm's own object schema, including the constant tag property.
    pub schema: Schema,
}

/// A JSON Schema, as far as this vocabulary reaches.
#[derive(Debug, PartialEq, Eq)]
pub enum Schema {
    /// `{"type": "boolean"}`.
    Boolean,
    /// `{"type": "integer"}`, with `minimum` when the value is unsigned.
    Integer { minimum: Option<i64> },
    /// An identifier: an integer of at least zero, naming what it identifies.
    Id { of: &'static str },
    /// `{"type": "string"}`, with length bounds and an optional format hint.
    Text { min_length: Option<u32>, max_length: Option<u32>, format: Option<&'static str> },
    /// `{"type": "string", "enum": [...]}`.
    Enum(Vec<&'static str>),
    /// `{"type": "array", "items": ...}`.
    Array { items: Box<Schema> },
    /// `{"type": "object", "properties": ..., "required": ...}`.
    Object { properties: Vec<Property>, additional_properties: bool },
    /// `{"oneOf": [...]}` over a tagged union.
    OneOf { discriminator: &'static str, arms: Vec<Arm> },
    /// `{"type": "object"}` with no constraint.
    Unconstrained,
}

/// A [`Property`] as values.
pub struct PropertyV {
    pub name: &'static str,
    pub description: &'static str,
    pub schema: SchemaV,
    pub required: bool,
}

/// An [`Arm`] as values.
pub struct ArmV {
    pub tag: &'static str,
    pub description: &'static str,
    pub schema: SchemaV,
}

/// A [`Schema`] as values.
pub enum SchemaV {
    Boolean,
    Integer { minimum: Option<i64> },
    Id { of: &'static str },
    Text { min_length: Option<u32>, max_length: Option<u32>, format: Option<&'static str> },
    Enum(Seq<&'static str>),
    Array { items: Box<SchemaV> },
    Object { properties: Seq<PropertyV>, additional_properties: bool },
    OneOf { discriminator: &'static str, arms: Seq<ArmV> },
    Unconstrained,
}

/// The value of a schema.
pub open spec fn schema_view(s: Schema) -> SchemaV
    decreases s,
{
    match s {
        Schema::Boolean => SchemaV::Boolean,
        Schema::Integer { minimum } => SchemaV::Integer { minimum },
        Schema::Id { of } => SchemaV::Id { of },
        Schema::Text { min_length, max_length, format } => SchemaV::Text { min_length, max_length, format },
        Schema::Enum(tags) => SchemaV::Enum(tags@),
        Schema::Array { items } => SchemaV::Array { items: Box::new(schema_view(*items)) },
        Schema::Object { properties, additional_properties } => SchemaV::Object {
            properties: properties_view(properties@),
            additional_properties,
        },
        Schema::OneOf { discriminator, arms } => SchemaV::OneOf { discriminator, arms: arms_view(arms@) },
        Schema::Unconstrained => SchemaV::Unconstrained,
    }
}

/// The values of a list of properties.
pub open spec fn properties_view(ps: Seq<Property>) -> Seq<PropertyV>
    decreases ps,
{
    if ps.len() == 0 {
        Seq::empty()
    } else {
        let p = ps.last();
        properties_view(ps.drop_last()).push(
            PropertyV { name: p.name, description: p.description, schema: schema_view(p.schema), required: p.required },
        )
    }
}

/// The values of a list of arms.
pub open spec fn arms_view(arms: Seq<Arm>) -> Seq<ArmV>
    decreases arms,
{
    if arms.len() == 0 {
        Seq::empty()
    } else {
        let a = arms.last();
        arms_view(arms.drop_last()).push(ArmV { tag: a.tag, description: a.description, schema: schema_view(a.schema) })
    }
}

/// The schema a declared shape is given: one case per shape.
pub open spec fn spec_schema(t: ParamType) -> SchemaV
    decreases t,
{
    match t {
        ParamType::Bool => SchemaV::Boolean,
        ParamType::Int => SchemaV::Integer { minimum: None },
        ParamType::Uint => SchemaV::Integer { minimum: Some(0) },
        ParamType::Text => SchemaV::Text { min_length: None, max_length: None, format: None },
        ParamType::Char => SchemaV::Text { min_length: Some(1), max_length: Some(1), format: None },
        ParamType::Path => SchemaV::Text { min_length: Some(1), max_length: None, format: Some("path") },
        ParamType::Choice(tags) => SchemaV::Enum(tags@),
        ParamType::List(inner) => SchemaV::Array { items: Box::new(spec_schema(*inner)) },
        ParamType::Record(fields) => SchemaV::Object { properties: spec_properties(fields@), additional_properties: false },
        ParamType::Union(variants) => SchemaV::OneOf { discriminator: TAG_FIELD, arms: spec_arms(variants@) },
        ParamType::Id(of) => SchemaV::Id { of },
        ParamType::Any => SchemaV::Unconstrained,
    }
}

/// One property per parameter, in declaration order.
pub open spec fn spec_properties(ps: Seq<Param>) -> Seq<PropertyV>
    decreases ps,
{
    if ps.len() == 0 {
        Seq::empty()
    } else {
        let p = ps.last();
        spec_properties(ps.drop_last()).push(
            PropertyV { name: p.name, description: p.doc, schema: spec_schema(p.ty), required: p.required },
        )
    }
}

/// The property every arm starts with: its tag, as a one-value enum.
pub open spec fn tag_property(tag: &'static str) -> PropertyV {
    PropertyV { name: TAG_FIELD, description: "which arm this is", schema: SchemaV::Enum(seq![tag]), required: true }
}

/// One arm per variant: an object whose first property pins the tag.
pub open spec fn spec_arms(vs: Seq<UnionVariant>) -> Seq<ArmV>
    decreases vs,
{
    if vs.len() == 0 {
        Seq::empty()
    } else {
        let v = vs.last();
        spec_arms(vs.drop_last()).push(
            ArmV {
                tag: v.tag,
                description: v.doc,
                schema: SchemaV::Object {
                    properties: seq![tag_property(v.tag)] + spec_properties(v.fields@),
                    additional_properties: false,
                },
            },
        )
    }
}

/// The schema for a declared shape. Total over the shapes.
pub fn schema(ty: &ParamType) -> (r: Schema)
    ensures
        schema_view(r) == spec_schema(*ty),
    decreases ty,
{
    match ty {
        ParamType::Bool => Schema::Boolean,
        ParamType::Int => Schema::Integer { minimum: None },
        ParamType::Uint => Schema::Integer { minimum: Some(0) },
        ParamType::Text => Schema::Text { min_length: None, max_length: None, format: None },
        ParamType::Char => Schema::Text { min_length: Some(1), max_length: Some(1), format: None },
        ParamType::Path => Schema::Text { min_length: Some(1), max_length: None, format: Some("path") },
        ParamType::Choice(tags) => Schema::Enum(copy_strs(tags)),
        ParamType::List(inner) => {
            assert(decreases_to!(*ty => **inner));
            Schema::Array { items: Box::new(schema(inner)) }
        },
        ParamType::Record(fields) => {
            assert(decreases_to!(*ty => ty->Record_0));
            Schema::Object { properties: properties_of(ty, fields), additional_properties: false }
        },
        ParamType::Union(variants) => {
            let mut arms: Vec<Arm> = Vec::new();
            let mut i: usize = 0;
            while i < variants.len()
                invariant
                    i <= variants@.len(),
                    ty is Union,
                    ty->Union_0 == *variants,
                    arms_view(arms@) == spec_arms(variants@.take(i as int)),
                decreases variants.len() - i,
            {
                assert(decreases_to!(*ty => ty->Union_0));
                assert(decreases_to!(ty->Union_0 => ty->Union_0@));
                assert(decreases_to!(ty->Union_0@ => ty->Union_0@[i as int]));
                let a = arm_of(ty, &variants[i]);
                let ghost before = arms@;
                arms.push(a);
                assert(arms@.drop_last() =~= before);
                assert(variants@.take(i + 1).drop_last() =~= variants@.take(i as int));
                i = i + 1;
            }
            assert(variants@.take(i as int) =~= variants@);
            Schema::OneOf { discriminator: TAG_FIELD, arms }
        },
        ParamType::Id(of) => Schema::Id { of: *of },
        ParamType::Any => Schema::Unconstrained,
    }
}

fn copy_strs(v: &Vec<&'static str>) -> (r: Vec<&'static str>)
    ensures
        r@ == v@,
{
    let mut out: Vec<&'static str> = Vec::new();
    let mut i: usize = 0;
    while i < v.len()
        invariant
            i <= v@.len(),
            out@ == v@.take(i as int),
        decreases v.len() - i,
    {
        out.push(v[i]);
        i = i + 1;
        assert(out@ =~= v@.take(i as int));
    }
    assert(v@.take(i as int) =~= v@);
    out
}

/// The properties of the fields of `ty`, which holds them.
fn properties_of(ty: &ParamType, params: &Vec<Param>) -> (r: Vec<Property>)
    requires
        decreases_to!(*ty => *params),
    ensures
        properties_view(r@) == spec_properties(params@),
    decreases ty, 0nat,
{
    let mut out: Vec<Property> = Vec::new();
    let mut i: usize = 0;
    while i < params.len()
        invariant
            i <= params@.len(),
            decreases_to!(*ty => *params),
            properties_view(out@) == spec_properties(params@.take(i as int)),
        decreases params.len() - i,
    {
        let p = &params[i];
        assert(decreases_to!(*params => params@));
        assert(decreases_to!(params@ => params@[i as int]));
        assert(decreases_to!(params@[i as int] => params@[i as int].ty));
        assert(decreases_to!(*ty => p.ty));
        let prop = Property { name: p.name, description: p.doc, schema: schema(&p.ty), required: p.required };
        let ghost before = out@;
        out.push(prop);
        assert(out@.drop_last() =~= before);
        assert(params@.take(i + 1).drop_last() =~= params@.take(i as int));
        i = i + 1;
    }
    assert(params@.take(i as int) =~= params@);
    out
}

/// The arm for `variant` of `ty`, which holds it.
fn arm_of(ty: &ParamType, variant: &UnionVariant) -> (r: Arm)
    requires
        decreases_to!(*ty => *variant),
    ensures
        r.tag == variant.tag,
        r.description == variant.doc,
        schema_view(r.schema) == (SchemaV::Object {
            properties: seq![tag_property(variant.tag)] + spec_properties(variant.fields@),
            additional_properties: false,
        }),
    decreases ty, 1nat,
{
    assert(decreases_to!(*variant => variant.fields));
    let rest = properties_of(ty, &variant.fields);
    let mut properties: Vec<Property> = Vec::new();
    let mut only: Vec<&'static str> = Vec::new();
    only.push(variant.tag);
    assert(only@ =~= seq![variant.tag]);
    properties.push(Property {
        name: TAG_FIELD,
        description: "which arm this is",
        schema: Schema::Enum(only),
        required: true,
    });
    let ghost head = properties@;
    assert(head.drop_last() =~= Seq::<Property>::empty());
    assert(schema_view(head.last().schema) == SchemaV::Enum(seq![variant.tag]));
    assert(head.last().name == TAG_FIELD);
    assert(head.last().required);
    assert(properties_view(Seq::<Property>::empty()) =~= Seq::<PropertyV>::empty());
    let mut rest = rest;
    let ghost tail = rest@;
    properties.append(&mut rest);
    proof {
        assert(properties_view(head) =~= seq![tag_property(variant.tag)]);
        lemma_properties_view_append(head, tail);
        assert(properties@ == head + tail);
    }
    Arm {
        tag: variant.tag,
        description: variant.doc,
        schema: Schema::Object { properties, additional_properties: false },
    }
}

proof fn lemma_properties_view_append(a: Seq<Property>, b: Seq<Property>)
    ensures
        properties_view(a + b) == properties_view(a) + properties_view(b),
    decreases b.len(),
{
    if b.len() == 0 {
        assert(a + b =~= a);
        assert(properties_view(a) + properties_view(b) =~= properties_view(a));
    } else {
        lemma_properties_view_append(a, b.drop_last());
        assert((a + b).drop_last() =~= a + b.drop_last());
        assert(properties_view(a) + properties_view(b) =~= (properties_view(a) + properties_view(b.drop_last())).push(
            properties_view(b).last(),
        ));
    }
}

/// An object schema over a parameter list.
pub fn object(params: &Vec<Param>) -> (r: Schema)
    ensures
        schema_view(r) == (SchemaV::Object { properties: spec_properties(params@), additional_properties: false }),
{
    let mut out: Vec<Property> = Vec::new();
    let mut i: usize = 0;
    while i < params.len()
        invariant
            i <= params@.len(),
            properties_view(out@) == spec_properties(params@.take(i as int)),
        decreases params.len() - i,
    {
        let p = &params[i];
        let prop = Property { name: p.name, description: p.doc, schema: schema(&p.ty), required: p.required };
        let ghost before = out@;
        out.push(prop);
        assert(out@.drop_last() =~= before);
        assert(params@.take(i + 1).drop_last() =~= params@.take(i as int));
        i = i + 1;
    }
    assert(params@.take(i as int) =~= params@);
    Schema::Object { properties: out, additional_properties: false }
}

impl Schema {
    /// The `required` list of an object schema, in declaration order; empty
    /// for any other schema.
    pub fn required(&self) -> (r: Vec<&'static str>)
        ensures
            match schema_view(*self) {
                SchemaV::Object { properties, .. } => r@ == required_names(properties),
                _ => r@.len() == 0,
            },
    {
        match self {
            Schema::Object { properties, .. } => {
                let mut out: Vec<&'static str> = Vec::new();
                let mut i: usize = 0;
                while i < properties.len()
                    invariant
                        i <= properties@.len(),
                        out@ == required_names(properties_view(properties@.take(i as int))),
                    decreases properties.len() - i,
                {
                    assert(properties@.take(i + 1).drop_last() =~= properties@.take(i as int));
                    let ghost pv = properties_view(properties@.take(i + 1));
                    assert(pv.drop_last() =~= properties_view(properties@.take(i as int)));
                    assert(pv.last().required == properties@[i as int].required);
                    assert(pv.last().name == properties@[i as int].name);
                    if properties[i].required {
                        out.push(properties[i].name);
                    }
                    i = i + 1;
                }
                assert(properties@.take(i as int) =~= properties@);
                out
            },
            _ => Vec::new(),
        }
    }
}

/// The names of the required properties, in order.
pub open spec fn required_names(ps: Seq<PropertyV>) -> Seq<&'static str>
    decreases ps.len(),
{
    if ps.len() == 0 {
        Seq::empty()
    } else {
        let rest = required_names(ps.drop_last());
        if ps.last().required {
            rest.push(ps.last().name)
        } else {
            rest
        }
    }
}

// ---------------------------------------------------------------------------
// The tool
// ---------------------------------------------------------------------------

/// One capability as the MCP door sees it.
#[derive(Debug)]
pub struct Tool {
    /// The tool name: `phosphor/` and the capability's name.
    pub name: String,
    /// The canonical door name.
    pub capability: &'static str,
    /// One line, in the product's voice: what an agent reads.
    pub description: &'static str,
    /// The domain, for grouping a long tool list.
    pub domain: &'static str,
    /// `true` for a Query: a Query may not mutate.
    pub read_only: bool,
    /// What the door does with a call before a rule widens it.
    pub policy: McpPolicy,
    /// The phase and task that implement it.
    pub since: Since,
    /// Always an object schema.
    pub input_schema: Schema,
    /// The result shape of a Query; `None` for an Action.
    pub output_schema: Option<Schema>,
    /// A canonical example call, always a record.
    pub example: Value,
}

/// This capability's MCP tool. Total.
/// Whether `tool` is the MCP tool of capability `c`.
pub open spec fn is_tool_of(tool: Tool, c: Capability) -> bool {
    &&& tool.name@ == "phosphor/"@ + c.name@
    &&& tool.capability == c.name
    &&& tool.description == c.doc
    &&& tool.domain == c.domain
    &&& tool.read_only == (c.kind == CapabilityKind::Query)
    &&& tool.policy == c.mcp
    &&& tool.since == c.since
    &&& schema_view(tool.input_schema) == (SchemaV::Object { properties: spec_properties(c.params@), additional_properties: false })
    &&& match c.returns {
        Some(t) => tool.output_schema matches Some(s) && schema_view(s) == spec_schema(t),
        None => tool.output_schema is None,
    }
    &&& tool.example matches Value::Record(a) && is_sample_args(a@, c.params@)
}

pub fn tool(capability: &Capability) -> (r: Tool)
    ensures
        is_tool_of(r, *capability),
{
    Tool {
        name: capability.mcp_name(),
        capability: capability.name,
        description: capability.doc,
        domain: capability.domain,
        read_only: capability.kind == CapabilityKind::Query,
        policy: capability.mcp,
        since: capability.since,
        input_schema: object(&capability.params),
        output_schema: match &capability.returns {
            Some(t) => Some(schema(t)),
            None => None,
        },
        example: Value::Record(capability.sample_args()),
    }
}

/// Every capability's tool, in registry order.
pub fn tools() -> (r: Vec<Tool>)
    ensures
        r.len() == spec_cap_count(),
        forall|i: int| 0 <= i < r.len() ==> (#[trigger] r[i]).capability@ == spec_cap_name(i as nat),
        forall|i: int| 0 <= i < r.len() ==> (#[trigger] r[i]).name@ == "phosphor/"@ + spec_cap_name(i as nat),
{
    let all = capabilities();
    let mut out: Vec<Tool> = Vec::new();
    let mut i: usize = 0;
    while i < all.len()
        invariant
            i <= all.len(),
            all.len() == spec_cap_count(),
            forall|j: int| 0 <= j < all.len() ==> (#[trigger] all[j]).name@ == spec_cap_name(j as nat),
            out.len() == i,
            forall|j: int| 0 <= j < i ==> (#[trigger] out[j]).capability@ == spec_cap_name(j as nat),
            forall|j: int| 0 <= j < i ==> (#[trigger] out[j]).name@ == "phosphor/"@ + spec_cap_name(j as nat),
        decreases all.len() - i,
    {
        out.push(tool(&all[i]));
        i = i + 1;
    }
    out
}

// ---------------------------------------------------------------------------
// Well-formedness
// ---------------------------------------------------------------------------

/// Why a generated tool would not be a usable MCP tool.
#[derive(Debug, PartialEq, Eq)]
pub enum Malformed {
    /// The name is not `phosphor/` and something.
    ToolName { name: String },
    /// A description an agent cannot act on.
    EmptyDescription { at: String },
    /// The top level of an input schema must be an object.
    InputNotAnObject,
    /// Two properties of one object share a name.
    DuplicateProperty { at: String, name: &'static str },
    /// An enum or a `oneOf` with nothing in it.
    EmptyChoice { at: String },
    /// Two arms of one union share a tag.
    DuplicateArm { at: String, tag: &'static str },
}

/// A [`Malformed`] as values.
pub enum MalformedV {
    ToolName { name: Seq<char> },
    EmptyDescription { at: Seq<char> },
    InputNotAnObject,
    DuplicateProperty { at: Seq<char>, name: Seq<char> },
    EmptyChoice { at: Seq<char> },
    DuplicateArm { at: Seq<char>, tag: Seq<char> },
}

/// The value of a [`Malformed`].
pub open spec fn malformed_view(m: Malformed) -> MalformedV {
    match m {
        Malformed::ToolName { name } => MalformedV::ToolName { name: name@ },
        Malformed::EmptyDescription { at } => MalformedV::EmptyDescription { at: at@ },
        Malformed::InputNotAnObject => MalformedV::InputNotAnObject,
        Malformed::DuplicateProperty { at, name } => MalformedV::DuplicateProperty { at: at@, name: name@ },
        Malformed::EmptyChoice { at } => MalformedV::EmptyChoice { at: at@ },
        Malformed::DuplicateArm { at, tag } => MalformedV::DuplicateArm { at: at@, tag: tag@ },
    }
}

/// The value of a check's result.
pub open spec fn checked_view(r: Result<(), Malformed>) -> Result<(), MalformedV> {
    match r {
        Ok(()) => Ok(()),
        Err(m) => Err(malformed_view(m)),
    }
}

/// The names of some properties.
pub open spec fn property_names(ps: Seq<PropertyV>) -> Seq<Seq<char>> {
    ps.map_values(|p: PropertyV| p.name@)
}

/// The tags of some arms.
pub open spec fn arm_tags(arms: Seq<ArmV>) -> Seq<Seq<char>> {
    arms.map_values(|a: ArmV| a.tag@)
}

/// The first problem with a schema at path `at`, looking at properties and
/// arms in order and into each before the next.
pub open spec fn spec_check_schema(at: Seq<char>, s: SchemaV) -> Result<(), MalformedV>
    decreases s,
{
    match s {
        SchemaV::Object { properties, .. } => spec_check_properties(at, properties),
        SchemaV::OneOf { arms, .. } => if arms.len() == 0 {
            Err(MalformedV::EmptyChoice { at })
        } else {
            spec_check_arms(at, arms)
        },
        SchemaV::Enum(tags) => if tags.len() == 0 {
            Err(MalformedV::EmptyChoice { at })
        } else {
            Ok(())
        },
        SchemaV::Array { items } => spec_check_schema(at + "[]"@, *items),
        _ => Ok(()),
    }
}

/// The first problem among some properties: a repeated name, a blank
/// description, or a problem inside one.
pub open spec fn spec_check_properties(at: Seq<char>, ps: Seq<PropertyV>) -> Result<(), MalformedV>
    decreases ps,
{
    if ps.len() == 0 {
        Ok(())
    } else {
        match spec_check_properties(at, ps.drop_last()) {
            Err(e) => Err(e),
            Ok(()) => {
                let p = ps.last();
                if property_names(ps.drop_last()).contains(p.name@) {
                    Err(MalformedV::DuplicateProperty { at, name: p.name@ })
                } else if blank(p.description@) {
                    Err(MalformedV::EmptyDescription { at: at + "::"@ + p.name@ })
                } else {
                    spec_check_schema(at + "::"@ + p.name@, p.schema)
                }
            },
        }
    }
}

/// The first problem among some arms: a repeated tag, or a problem inside one.
pub open spec fn spec_check_arms(at: Seq<char>, arms: Seq<ArmV>) -> Result<(), MalformedV>
    decreases arms,
{
    if arms.len() == 0 {
        Ok(())
    } else {
        match spec_check_arms(at, arms.drop_last()) {
            Err(e) => Err(e),
            Ok(()) => {
                let a = arms.last();
                if arm_tags(arms.drop_last()).contains(a.tag@) {
                    Err(MalformedV::DuplicateArm { at, tag: a.tag@ })
                } else {
                    spec_check_schema(at + "::"@ + a.tag@, a.schema)
                }
            },
        }
    }
}

/// The first problem with a tool: its name, its description, an input that
/// is not an object, then its input and output schemas.
pub open spec fn spec_check(name: Seq<char>, description: Seq<char>, input: SchemaV, output: Option<SchemaV>) -> Result<(), MalformedV> {
    if !starts_with(name, "phosphor/"@) || name.len() == "phosphor/"@.len() {
        Err(MalformedV::ToolName { name })
    } else if blank(description) {
        Err(MalformedV::EmptyDescription { at: name })
    } else if !(input is Object) {
        Err(MalformedV::InputNotAnObject)
    } else {
        match spec_check_schema(name, input) {
            Err(e) => Err(e),
            Ok(()) => match output {
                Some(o) => spec_check_schema(name + "::result"@, o),
                None => Ok(()),
            },
        }
    }
}

fn joined(a: &str, sep: &str, b: &str) -> (r: String)
    ensures
        r@ == a@ + sep@ + b@,
{
    let mut out = String::from_str(a);
    push_str(&mut out, sep);
    push_str(&mut out, b);
    out
}

fn text_blank(s: &str) -> (r: bool)
    ensures
        r == blank(s@),
{
    let chars = chars_of(s);
    is_blank(&chars)
}

pub(crate) fn contains_str(seen: &Vec<&'static str>, x: &str) -> (r: bool)
    ensures
        r == strs_view(seen@).contains(x@),
{
    let ghost names = strs_view(seen@);
    let mut i: usize = 0;
    while i < seen.len()
        invariant
            i <= seen@.len(),
            names == strs_view(seen@),
            forall|j: int| 0 <= j < i ==> names[j] != x@,
        decreases seen.len() - i,
    {
        if crate::text_util::str_eq(seen[i], x) {
            assert(names[i as int] == x@);
            return true;
        }
        i = i + 1;
    }
    false
}

/// The first problem with a schema at path `at`, if any.
fn check_schema(at: &str, schema: &Schema) -> (r: Result<(), Malformed>)
    ensures
        checked_view(r) == spec_check_schema(at@, schema_view(*schema)),
    decreases schema,
{
    match schema {
        Schema::Object { properties, .. } => {
            let mut seen: Vec<&'static str> = Vec::new();
            let mut i: usize = 0;
            while i < properties.len()
                invariant
                    i <= properties@.len(),
                    schema is Object,
                    schema->properties == *properties,
                    strs_view(seen@) == property_names(properties_view(properties@.take(i as int))),
                    spec_check_properties(at@, properties_view(properties@.take(i as int))) == Ok::<(), MalformedV>(()),
                decreases properties.len() - i,
            {
                let ghost pv = properties_view(properties@.take(i + 1));
                assert(properties@.take(i + 1).drop_last() =~= properties@.take(i as int));
                assert(pv.drop_last() =~= properties_view(properties@.take(i as int)));
                let property = &properties[i];
                assert(pv.last().name == property.name);
                assert(pv.last().description == property.description);
                assert(pv.last().schema == schema_view(property.schema));
                if contains_str(&seen, property.name) {
                    proof {
                        lemma_properties_view_take(properties@, i + 1);
                        lemma_properties_view_len(properties@);
                        lemma_check_properties_prefix(at@, properties_view(properties@), i + 1);
                    }
                    return Err(Malformed::DuplicateProperty { at: String::from_str(at), name: property.name });
                }
                let ghost before = seen@;
                seen.push(property.name);
                assert(pv =~= pv.drop_last().push(pv.last()));
                assert(property_names(pv) =~= property_names(pv.drop_last()).push(pv.last().name@));
                assert(strs_view(seen@) =~= strs_view(before).push(property.name@));
                let inner = joined(at, "::", property.name);
                if text_blank(property.description) {
                    proof {
                        lemma_properties_view_take(properties@, i + 1);
                        lemma_properties_view_len(properties@);
                        lemma_check_properties_prefix(at@, properties_view(properties@), i + 1);
                    }
                    return Err(Malformed::EmptyDescription { at: inner });
                }
                assert(decreases_to!(*schema => schema->properties));
                assert(decreases_to!(schema->properties => schema->properties@));
                assert(decreases_to!(schema->properties@ => schema->properties@[i as int]));
                assert(decreases_to!(schema->properties@[i as int] => schema->properties@[i as int].schema));
                match check_schema(inner.as_str(), &property.schema) {
                    Ok(()) => {},
                    Err(e) => {
                        proof {
                            lemma_properties_view_take(properties@, i + 1);
                        lemma_properties_view_len(properties@);
                        lemma_check_properties_prefix(at@, properties_view(properties@), i + 1);
                        }
                        return Err(e);
                    },
                }
                i = i + 1;
            }
            assert(properties@.take(i as int) =~= properties@);
            Ok(())
        },
        Schema::OneOf { arms, .. } => {
            proof {
                lemma_arms_view_len(arms@);
            }
            if arms.len() == 0 {
                return Err(Malformed::EmptyChoice { at: String::from_str(at) });
            }
            let mut seen: Vec<&'static str> = Vec::new();
            let mut i: usize = 0;
            while i < arms.len()
                invariant
                    i <= arms@.len(),
                    schema is OneOf,
                    schema->arms == *arms,
                    strs_view(seen@) == arm_tags(arms_view(arms@.take(i as int))),
                    spec_check_arms(at@, arms_view(arms@.take(i as int))) == Ok::<(), MalformedV>(()),
                decreases arms.len() - i,
            {
                let ghost av = arms_view(arms@.take(i + 1));
                assert(arms@.take(i + 1).drop_last() =~= arms@.take(i as int));
                assert(av.drop_last() =~= arms_view(arms@.take(i as int)));
                let arm = &arms[i];
                assert(av.last().tag == arm.tag);
                assert(av.last().schema == schema_view(arm.schema));
                if contains_str(&seen, arm.tag) {
                    proof {
                        lemma_arms_view_take(arms@, i + 1);
                        lemma_arms_view_len(arms@);
                        lemma_check_arms_prefix(at@, arms_view(arms@), i + 1);
                    }
                    return Err(Malformed::DuplicateArm { at: String::from_str(at), tag: arm.tag });
                }
                let ghost before = seen@;
                seen.push(arm.tag);
                assert(av =~= av.drop_last().push(av.last()));
                assert(arm_tags(av) =~= arm_tags(av.drop_last()).push(av.last().tag@));
                assert(strs_view(seen@) =~= strs_view(before).push(arm.tag@));
                let inner = joined(at, "::", arm.tag);
                assert(decreases_to!(*schema => schema->arms));
                assert(decreases_to!(schema->arms => schema->arms@));
                assert(decreases_to!(schema->arms@ => schema->arms@[i as int]));
                assert(decreases_to!(schema->arms@[i as int] => schema->arms@[i as int].schema));
                match check_schema(inner.as_str(), &arm.schema) {
                    Ok(()) => {},
                    Err(e) => {
                        proof {
                            lemma_arms_view_take(arms@, i + 1);
                        lemma_arms_view_len(arms@);
                        lemma_check_arms_prefix(at@, arms_view(arms@), i + 1);
                        }
                        return Err(e);
                    },
                }
                i = i + 1;
            }
            assert(arms@.take(i as int) =~= arms@);
            Ok(())
        },
        Schema::Enum(tags) => {
            if tags.len() == 0 {
                Err(Malformed::EmptyChoice { at: String::from_str(at) })
            } else {
                Ok(())
            }
        },
        Schema::Array { items } => {
            let mut inner = String::from_str(at);
            push_str(&mut inner, "[]");
            assert(decreases_to!(*schema => **items));
            check_schema(inner.as_str(), items)
        },
        _ => Ok(()),
    }
}

proof fn lemma_properties_view_len(ps: Seq<Property>)
    ensures
        properties_view(ps).len() == ps.len(),
    decreases ps.len(),
{
    if ps.len() > 0 {
        lemma_properties_view_len(ps.drop_last());
    }
}

proof fn lemma_arms_view_len(arms: Seq<Arm>)
    ensures
        arms_view(arms).len() == arms.len(),
    decreases arms.len(),
{
    if arms.len() > 0 {
        lemma_arms_view_len(arms.drop_last());
    }
}

proof fn lemma_properties_view_take(ps: Seq<Property>, k: int)
    requires
        0 <= k <= ps.len(),
    ensures
        properties_view(ps.take(k)) == properties_view(ps).take(k),
    decreases ps.len(),
{
    lemma_properties_view_len(ps);
    lemma_properties_view_len(ps.take(k));
    if k < ps.len() {
        assert(ps.drop_last().take(k) =~= ps.take(k));
        lemma_properties_view_take(ps.drop_last(), k);
        lemma_properties_view_len(ps.drop_last());
        assert(properties_view(ps).drop_last() =~= properties_view(ps.drop_last()));
        assert(properties_view(ps).take(k) =~= properties_view(ps).drop_last().take(k));
    } else {
        assert(ps.take(k) =~= ps);
        assert(properties_view(ps).take(k) =~= properties_view(ps));
    }
}

proof fn lemma_arms_view_take(arms: Seq<Arm>, k: int)
    requires
        0 <= k <= arms.len(),
    ensures
        arms_view(arms.take(k)) == arms_view(arms).take(k),
    decreases arms.len(),
{
    lemma_arms_view_len(arms);
    lemma_arms_view_len(arms.take(k));
    if k < arms.len() {
        assert(arms.drop_last().take(k) =~= arms.take(k));
        lemma_arms_view_take(arms.drop_last(), k);
        lemma_arms_view_len(arms.drop_last());
        assert(arms_view(arms).drop_last() =~= arms_view(arms.drop_last()));
        assert(arms_view(arms).take(k) =~= arms_view(arms).drop_last().take(k));
    } else {
        assert(arms.take(k) =~= arms);
        assert(arms_view(arms).take(k) =~= arms_view(arms));
    }
}

/// A problem among the first `k` properties is the problem among all.
proof fn lemma_check_properties_prefix(at: Seq<char>, ps: Seq<PropertyV>, k: int)
    requires
        0 <= k <= ps.len(),
        spec_check_properties(at, ps.take(k)) is Err,
    ensures
        spec_check_properties(at, ps) == spec_check_properties(at, ps.take(k)),
    decreases ps.len() - k,
{
    if k < ps.len() {
        assert(ps.take(k + 1).drop_last() =~= ps.take(k));
        lemma_check_properties_prefix(at, ps, k + 1);
    } else {
        assert(ps.take(k) =~= ps);
    }
}

/// A problem among the first `k` arms is the problem among all.
proof fn lemma_check_arms_prefix(at: Seq<char>, arms: Seq<ArmV>, k: int)
    requires
        0 <= k <= arms.len(),
        spec_check_arms(at, arms.take(k)) is Err,
    ensures
        spec_check_arms(at, arms) == spec_check_arms(at, arms.take(k)),
    decreases arms.len() - k,
{
    if k < arms.len() {
        assert(arms.take(k + 1).drop_last() =~= arms.take(k));
        lemma_check_arms_prefix(at, arms, k + 1);
    } else {
        assert(arms.take(k) =~= arms);
    }
}

pub(crate) fn has_prefix(s: &str, p: &str) -> (r: bool)
    ensures
        r == starts_with(s@, p@),
{
    let n = s.unicode_len();
    let m = p.unicode_len();
    if m > n {
        return false;
    }
    let mut i: usize = 0;
    while i < m
        invariant
            m == p@.len(),
            n == s@.len(),
            m <= n,
            i <= m,
            forall|j: int| 0 <= j < i ==> s@[j] == p@[j],
        decreases m - i,
    {
        if s.get_char(i) != p.get_char(i) {
            assert(s@.take(m as int)[i as int] != p@[i as int]);
            return false;
        }
        i = i + 1;
    }
    assert(s@.take(m as int) =~= p@);
    true
}

/// Checks a generated tool: its name, its description, that its input is an
/// object, then its input and output schemas. The first problem found is
/// named with enough context to fix it.
pub fn check(tool: &Tool) -> (r: Result<(), Malformed>)
    ensures
        checked_view(r) == spec_check(
            tool.name@,
            tool.description@,
            schema_view(tool.input_schema),
            match tool.output_schema {
                Some(o) => Some(schema_view(o)),
                None => None,
            },
        ),
{
    let name = tool.name.as_str();
    if !has_prefix(name, "phosphor/") || name.unicode_len() == "phosphor/".unicode_len() {
        return Err(Malformed::ToolName { name: tool.name.clone() });
    }
    if text_blank(tool.description) {
        return Err(Malformed::EmptyDescription { at: tool.name.clone() });
    }
    match &tool.input_schema {
        Schema::Object { .. } => {},
        _ => {
            return Err(Malformed::InputNotAnObject);
        },
    }
    match check_schema(name, &tool.input_schema) {
        Ok(()) => {},
        Err(e) => {
            return Err(e);
        },
    }
    match &tool.output_schema {
        Some(output) => {
            let at = joined(name, "::result", "");
            proof {
                reveal_strlit("");
            }
            assert(at@ =~= name@ + "::result"@);
            check_schema(at.as_str(), output)
        },
        None => Ok(()),
    }
}


/// What a malformation says.
pub open spec fn spec_malformed_message(m: MalformedV) -> Seq<char> {
    match m {
        MalformedV::ToolName { name } => "`"@ + name + "` is not a `phosphor/` tool name"@,
        MalformedV::EmptyDescription { at } => "`"@ + at + "` has no description"@,
        MalformedV::InputNotAnObject => "the input schema is not an object"@,
        MalformedV::DuplicateProperty { at, name } => "`"@ + at + "` declares `"@ + name + "` twice"@,
        MalformedV::EmptyChoice { at } => "`"@ + at + "` offers no choices"@,
        MalformedV::DuplicateArm { at, tag } => "`"@ + at + "` declares the arm `"@ + tag + "` twice"@,
    }
}

impl Malformed {
    /// What this malformation says, for a person.
    pub fn message(&self) -> (r: String)
        ensures
            r@ == spec_malformed_message(malformed_view(*self)),
    {
        let mut out = String::new();
        match self {
            Malformed::ToolName { name } => {
                push_str(&mut out, "`");
                push_str(&mut out, name.as_str());
                push_str(&mut out, "` is not a `phosphor/` tool name");
            },
            Malformed::EmptyDescription { at } => {
                push_str(&mut out, "`");
                push_str(&mut out, at.as_str());
                push_str(&mut out, "` has no description");
            },
            Malformed::InputNotAnObject => push_str(&mut out, "the input schema is not an object"),
            Malformed::DuplicateProperty { at, name } => {
                push_str(&mut out, "`");
                push_str(&mut out, at.as_str());
                push_str(&mut out, "` declares `");
                push_str(&mut out, name);
                push_str(&mut out, "` twice");
            },
            Malformed::EmptyChoice { at } => {
                push_str(&mut out, "`");
                push_str(&mut out, at.as_str());
                push_str(&mut out, "` offers no choices");
            },
            Malformed::DuplicateArm { at, tag } => {
                push_str(&mut out, "`");
                push_str(&mut out, at.as_str());
                push_str(&mut out, "` declares the arm `");
                push_str(&mut out, tag);
                push_str(&mut out, "` twice");
            },
        }
        assert(out@ =~= spec_malformed_message(malformed_view(*self)));
        out
    }
}


/// What a schema asks of a value, as JSON Schema reads it, for the schemas a
/// scalar shape is given: `boolean` takes `true` and `false`; `integer` an
/// integer at or above its `minimum`, if it has one; an id an integer of at
/// least zero; `string` text within its length bounds (a format is a hint,
/// not a constraint); an `enum` one of its tags. `None` for the other
/// schemas, which this does not judge.
pub open spec fn scalar_admits(s: SchemaV, v: ValueV) -> Option<bool> {
    match s {
        SchemaV::Boolean => Some(v is Bool),
        SchemaV::Integer { minimum } => Some(
            match v {
                ValueV::Int(i) => match minimum {
                    Some(m) => m <= i,
                    None => true,
                },
                _ => false,
            },
        ),
        SchemaV::Id { .. } => Some(
            match v {
                ValueV::Int(i) => 0 <= i,
                _ => false,
            },
        ),
        SchemaV::Text { min_length, max_length, .. } => Some(
            match v {
                ValueV::Text(t) => (match min_length {
                    Some(lo) => lo <= t.len(),
                    None => true,
                }) && (match max_length {
                    Some(hi) => t.len() <= hi,
                    None => true,
                }),
                _ => false,
            },
        ),
        SchemaV::Enum(tags) => Some(
            match v {
                ValueV::Text(t) => exists|j: int| 0 <= j < tags.len() && (#[trigger] tags[j])@ == t,
                _ => false,
            },
        ),
        _ => None,
    }
}

/// **A scalar shape's schema admits exactly that shape's values on the
/// wire**: a `Bool` parameter's schema takes `true` and `false` and nothing
/// else; an `Int`'s takes any integer; a `Uint`'s and an id's the integers
/// from zero; a `Text`'s any text; a `Char`'s text of one character; a
/// `Path`'s text that is not empty. For each, that is what the Rust type the
/// shape stands for decodes.
pub proof fn lemma_scalar_schemas(v: ValueV, of: &'static str)
    ensures
        scalar_admits(spec_schema(ParamType::Bool), v) == Some(<bool as Wire>::unwire(v) is Ok),
        scalar_admits(spec_schema(ParamType::Bool), v) == Some(
            v == ValueV::Bool(true) || v == ValueV::Bool(false),
        ),
        scalar_admits(spec_schema(ParamType::Int), v) == Some(<i64 as Wire>::unwire(v) is Ok),
        scalar_admits(spec_schema(ParamType::Uint), v) == Some(<u64 as Wire>::unwire(v) is Ok),
        scalar_admits(spec_schema(ParamType::Id(of)), v) == Some(<u64 as Wire>::unwire(v) is Ok),
        scalar_admits(spec_schema(ParamType::Text), v) == Some(<String as Wire>::unwire(v) is Ok),
        scalar_admits(spec_schema(ParamType::Char), v) == Some(<char as Wire>::unwire(v) is Ok),
        scalar_admits(spec_schema(ParamType::Path), v) == Some(
            v matches ValueV::Text(t) && t.len() > 0,
        ),
{
}

} // verus!
