//! The Steel door: one binding per capability, derived from its row.
//!
//! A binding is a total function of a capability, so no capability can be
//! missing from this door.
//!
//! Calls are positional, in declaration order. Optionality is expressed by
//! omitting a trailing run of arguments, so a binding's fewest arguments is one
//! past its *last* required parameter, not the count of required ones: an
//! optional in the middle cannot be left out without moving the one after it.
//! Omitted arguments arrive as `Value::Null`.

use vstd::prelude::*;

use crate::action::{aliases, spec_action_count};
use crate::registry::{
    capabilities, lookup, same_params, spec_cap_count, spec_cap_name, spec_steel_name, Capability,
    CapabilityKind, Param, Since,
};
use crate::text_util::{push_decimal, push_str, spec_decimal};
use crate::value::{pairs_view, with_fields, Args, Call, Value};

verus! {

/// How many arguments a binding accepts.
#[derive(Debug, Clone, Copy, PartialEq, Eq, Structural)]
pub struct Arity {
    /// The fewest a call may pass.
    pub min: usize,
    /// The most: always the declared parameter count.
    pub max: usize,
}

impl Arity {
    /// Whether a call passing `argc` arguments is well-formed.
    pub fn accepts(self, argc: usize) -> (r: bool)
        ensures
            r == (self.min <= argc && argc <= self.max),
    {
        argc >= self.min && argc <= self.max
    }

    /// Whether every argument is mandatory.
    pub fn is_fixed(self) -> (r: bool)
        ensures
            r == (self.min == self.max),
    {
        self.min == self.max
    }
}

/// `a` is the arity of `params`: it accepts every count from one past the
/// last required parameter up to all of them.
pub open spec fn is_arity_of(a: Arity, params: Seq<Param>) -> bool {
    &&& a.max == params.len()
    &&& a.min <= a.max
    &&& forall|i: int| a.min <= i < params.len() ==> !(#[trigger] params[i]).required
    &&& a.min > 0 ==> params[a.min - 1].required
}

/// The arity of a parameter list.
pub fn arity(params: &[Param]) -> (r: Arity)
    ensures
        is_arity_of(r, params@),
{
    let mut min: usize = params.len();
    while min > 0 && !params[min - 1].required
        invariant
            min <= params@.len(),
            forall|i: int| min <= i < params@.len() ==> !(#[trigger] params@[i]).required,
        decreases min,
    {
        min = min - 1;
    }
    Arity { min, max: params.len() }
}

/// One capability as the Steel door sees it.
#[derive(Debug)]
pub struct Binding {
    /// The Scheme identifier: an Action's carries a `!` and a Query's does not.
    pub name: String,
    /// The capability's canonical door name.
    pub capability: &'static str,
    /// The domain it groups under in help.
    pub domain: &'static str,
    /// One line, in the product's voice.
    pub doc: &'static str,
    /// Action or Query.
    pub kind: CapabilityKind,
    /// The phase and task that implement it.
    pub since: Since,
    /// The parameters, in the order a call passes them.
    pub params: Vec<Param>,
    /// How many arguments a call may pass.
    pub arity: Arity,
}

/// One argument in a signature: bracketed when it may be omitted.
pub open spec fn spec_sig_arg(name: Seq<char>, optional: bool) -> Seq<char> {
    if optional {
        " ["@ + name + "]"@
    } else {
        " "@ + name
    }
}

/// The arguments of a signature, each bracketed from index `min` on.
pub open spec fn spec_sig_args(params: Seq<Param>, min: nat) -> Seq<char>
    decreases params.len(),
{
    if params.len() == 0 {
        Seq::empty()
    } else {
        spec_sig_args(params.drop_last(), min) + spec_sig_arg(
            params.last().name@,
            params.len() - 1 >= min,
        )
    }
}

/// The arguments `params` fill from `values`, by position; those past the
/// end of `values` are null.
pub open spec fn spec_positional(params: Seq<Param>, values: Seq<Value>) -> Seq<(Seq<char>, Value)> {
    Seq::new(
        params.len(),
        |i: int| (params[i].name@, if i < values.len() { values[i] } else { Value::Null }),
    )
}

impl Binding {
    /// The signature as help shows it: `(mark-seen! target)`, with omittable
    /// arguments in brackets.
    pub fn signature(&self) -> (r: String)
        ensures
            r@ == "("@ + self.name@ + spec_sig_args(self.params@, self.arity.min as nat) + ")"@,
    {
        let mut out = String::from_str("(");
        push_str(&mut out, self.name.as_str());
        let mut i: usize = 0;
        while i < self.params.len()
            invariant
                i <= self.params@.len(),
                out@ == "("@ + self.name@ + spec_sig_args(self.params@.take(i as int), self.arity.min as nat),
            decreases self.params.len() - i,
        {
            let ghost before = out@;
            if i >= self.arity.min {
                push_str(&mut out, " [");
                push_str(&mut out, self.params[i].name);
                push_str(&mut out, "]");
            } else {
                push_str(&mut out, " ");
                push_str(&mut out, self.params[i].name);
            }
            proof {
                let p = self.params@.take(i + 1);
                assert(p.drop_last() =~= self.params@.take(i as int));
                assert(p.last() == self.params@[i as int]);
                assert(out@ =~= before + spec_sig_arg(self.params@[i as int].name@, i >= self.arity.min));
            }
            i = i + 1;
        }
        assert(self.params@.take(i as int) =~= self.params@);
        push_str(&mut out, ")");
        out
    }

    /// Maps positional arguments onto named ones; a trailing run of omitted
    /// arguments is filled with `Value::Null`.
    ///
    /// A count outside the binding's arity is an `ArityError`; a wrong shape
    /// is not this function's error.
    pub fn args(&self, values: Vec<Value>) -> (r: Result<Args, ArityError>)
        ensures
            match r {
                Ok(args) => self.arity.min <= values@.len() <= self.arity.max && args@ == with_fields(
                    Seq::empty(),
                    spec_positional(self.params@, values@),
                ),
                Err(e) => !(self.arity.min <= values@.len() <= self.arity.max) && e == (ArityError {
                    capability: self.capability,
                    expected: self.arity,
                    got: values@.len() as usize,
                }),
            },
    {
        if !self.arity.accepts(values.len()) {
            return Err(ArityError { capability: self.capability, expected: self.arity, got: values.len() });
        }
        let ghost all = values@;
        let ghost fields = spec_positional(self.params@, all);
        let mut rest = values;
        let mut args = Args::new();
        let mut i: usize = 0;
        while i < self.params.len()
            invariant
                i <= self.params@.len(),
                fields == spec_positional(self.params@, all),
                rest@ == if i <= all.len() { all.skip(i as int) } else { Seq::<Value>::empty() },
                args@ == with_fields(Seq::empty(), fields.take(i as int)),
            decreases self.params.len() - i,
        {
            let value = if rest.len() > 0 {
                rest.remove(0)
            } else {
                Value::Null
            };
            proof {
                if i < all.len() {
                    assert(value == all[i as int]);
                    assert(rest@ =~= all.skip(i + 1));
                } else {
                    assert(rest@ =~= Seq::<Value>::empty());
                }
                assert(fields[i as int] == (self.params@[i as int].name@, value));
            }
            args.set(self.params[i].name, value);
            assert(fields.take(i + 1).drop_last() =~= fields.take(i as int));
            i = i + 1;
        }
        assert(fields.take(i as int) =~= fields);
        Ok(args)
    }

    /// A positional call, as a door-neutral `Call`.
    pub fn call(&self, values: Vec<Value>) -> (r: Result<Call, ArityError>)
        ensures
            match r {
                Ok(c) => self.arity.min <= values@.len() <= self.arity.max && c.name@ == self.capability@
                    && c.args@ == with_fields(Seq::empty(), spec_positional(self.params@, values@)),
                Err(e) => !(self.arity.min <= values@.len() <= self.arity.max) && e == (ArityError {
                    capability: self.capability,
                    expected: self.arity,
                    got: values@.len() as usize,
                }),
            },
    {
        match self.args(values) {
            Ok(args) => Ok(Call { name: String::from_str(self.capability), args }),
            Err(e) => Err(e),
        }
    }
}

/// This capability's Steel binding. Total.
/// Whether `b` is the Steel binding of capability `c`.
pub open spec fn is_binding_of(b: Binding, c: Capability) -> bool {
    &&& b.name@ == spec_steel_name(c.name@, c.kind)
    &&& b.capability == c.name
    &&& b.domain == c.domain
    &&& b.doc == c.doc
    &&& b.kind == c.kind
    &&& b.since == c.since
    &&& same_params(b.params@, c.params@)
    &&& is_arity_of(b.arity, c.params@)
}

pub fn binding(capability: &Capability) -> (r: Binding)
    ensures
        is_binding_of(r, *capability),
        r.name@ == spec_steel_name(capability.name@, capability.kind),
        r.capability == capability.name,
        r.domain == capability.domain,
        r.doc == capability.doc,
        r.kind == capability.kind,
        r.since == capability.since,
        same_params(r.params@, capability.params@),
        is_arity_of(r.arity, capability.params@),
{
    let params = copy_params(&capability.params);
    let a = arity(params.as_slice());
    proof {
        assert forall|i: int| a.min <= i < capability.params@.len() implies !(#[trigger] capability.params@[i]).required by {
            assert(params@[i].required == capability.params@[i].required);
        }
        if a.min > 0 {
            assert(params@[a.min - 1].required == capability.params@[a.min - 1].required);
        }
    }
    Binding {
        name: capability.steel_name(),
        capability: capability.name,
        domain: capability.domain,
        doc: capability.doc,
        kind: capability.kind,
        since: capability.since,
        params,
        arity: a,
    }
}

fn copy_params(params: &Vec<Param>) -> (r: Vec<Param>)
    ensures
        same_params(r@, params@),
{
    let mut out: Vec<Param> = Vec::new();
    let mut i: usize = 0;
    while i < params.len()
        invariant
            i <= params.len(),
            out@.len() == i,
            forall|j: int| 0 <= j < i ==> (#[trigger] out@[j]).name == params@[j].name && out@[j].required == params@[j].required && out@[j].doc == params@[j].doc,
        decreases params.len() - i,
    {
        out.push(params[i].clone());
        i = i + 1;
    }
    out
}

/// Every capability's binding, in registry order.
pub fn bindings() -> (r: Vec<Binding>)
    ensures
        r.len() == spec_cap_count(),
        forall|i: int| 0 <= i < r.len() ==> (#[trigger] r[i]).capability@ == spec_cap_name(i as nat),
        forall|i: int| 0 <= i < r.len() ==> (#[trigger] r[i]).name@ == spec_steel_name(spec_cap_name(i as nat), r[i].kind),
{
    let all = capabilities();
    let mut out: Vec<Binding> = Vec::new();
    let mut i: usize = 0;
    while i < all.len()
        invariant
            i <= all.len(),
            all.len() == spec_cap_count(),
            forall|j: int| 0 <= j < all.len() ==> (#[trigger] all[j]).name@ == spec_cap_name(j as nat),
            out.len() == i,
            forall|j: int| 0 <= j < i ==> (#[trigger] out[j]).capability@ == spec_cap_name(j as nat),
            forall|j: int| 0 <= j < i ==> (#[trigger] out[j]).name@ == spec_steel_name(spec_cap_name(j as nat), out[j].kind),
        decreases all.len() - i,
    {
        out.push(binding(&all[i]));
        i = i + 1;
    }
    out
}

/// A second Scheme identifier for a registered capability, spelled exactly as
/// drawn, without the bang the naming rule would add.
#[derive(Debug, Clone, PartialEq, Eq)]
pub struct AliasBinding {
    /// The alternative identifier.
    pub name: &'static str,
    /// The canonical capability's door name.
    pub capability: &'static str,
    /// The canonical Scheme identifier it forwards to.
    pub canonical: String,
    /// Why it exists.
    pub reason: &'static str,
}

/// Every alias binding.
pub fn alias_bindings() -> (r: Vec<AliasBinding>)
    ensures
        r.len() == 1,
        r[0].name@ == "watch-place"@,
        r[0].capability@ == "place-watch"@,
        r[0].canonical@ == "place-watch"@ + "!"@,
{
    let drawn = aliases();
    let mut out: Vec<AliasBinding> = Vec::new();
    let alias = drawn[0];
    assert(spec_cap_name(125) == "place-watch"@);
    match lookup(alias.canonical) {
        Some(capability) => {
            assert(capability.kind == CapabilityKind::Action) by {
                let k = choose|k: nat|
                    k < spec_cap_count() && #[trigger] spec_cap_name(k) == alias.canonical@
                        && (forall|j: nat| j < k ==> spec_cap_name(j) != alias.canonical@)
                        && capability.kind == (if k < spec_action_count() {
                            CapabilityKind::Action
                        } else {
                            CapabilityKind::Query
                        });
                assert(k <= 125);
            }
            out.push(AliasBinding {
                name: alias.alias,
                capability: capability.name,
                canonical: capability.steel_name(),
                reason: alias.reason,
            });
        },
        None => {
            assert(spec_cap_name(125) == alias.canonical@);
        },
    }
    out
}

/// A call passed the wrong number of arguments.
#[derive(Debug, Clone, Copy, PartialEq, Eq)]
pub struct ArityError {
    /// The capability being called.
    pub capability: &'static str,
    /// What it accepts.
    pub expected: Arity,
    /// What arrived.
    pub got: usize,
}


/// What an arity error says.
pub open spec fn spec_arity_message(e: ArityError) -> Seq<char> {
    if e.expected.min == e.expected.max {
        "`"@ + e.capability@ + "` takes "@ + spec_decimal(e.expected.min as nat) + " argument(s), got "@ + spec_decimal(
            e.got as nat,
        )
    } else {
        "`"@ + e.capability@ + "` takes "@ + spec_decimal(e.expected.min as nat) + " to "@ + spec_decimal(
            e.expected.max as nat,
        ) + " arguments, got "@ + spec_decimal(e.got as nat)
    }
}

impl ArityError {
    /// What this error says, for a person.
    pub fn message(&self) -> (r: String)
        ensures
            r@ == spec_arity_message(*self),
    {
        let mut out = String::new();
        push_str(&mut out, "`");
        push_str(&mut out, self.capability);
        push_str(&mut out, "` takes ");
        push_decimal(&mut out, self.expected.min as u64);
        if self.expected.is_fixed() {
            push_str(&mut out, " argument(s), got ");
        } else {
            push_str(&mut out, " to ");
            push_decimal(&mut out, self.expected.max as u64);
            push_str(&mut out, " arguments, got ");
        }
        push_decimal(&mut out, self.got as u64);
        assert(out@ =~= spec_arity_message(*self));
        out
    }
}

} // verus!
