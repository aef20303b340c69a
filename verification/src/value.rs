//! The plain-data value every door speaks: null, booleans, integers, text,
//! lists and records with named fields.
//!
//! A record is an ordered list of named fields rather than a map: declaration
//! order is the order a door prints in, and setting a field that is already
//! there replaces it where it stands instead of adding a second one.

use vstd::prelude::*;

use crate::text_util::str_eq;

verus! {

/// The field of a record that carries a tagged union's arm.
pub const TAG_FIELD: &'static str = "kind";

/// One value as it crosses a door.
#[derive(Debug, PartialEq, Eq)]
pub enum Value {
    /// Nothing — what an absent optional argument is.
    Null,
    /// `true` or `false`.
    Bool(bool),
    /// A signed integer.
    Int(i64),
    /// Text.
    Text(String),
    /// A list, in order.
    List(Vec<Value>),
    /// A record of named fields, in order.
    Record(Args),
}

/// Named fields, in the order they were first set.
#[derive(Debug, PartialEq, Eq)]
pub struct Args {
    pairs: Vec<(String, Value)>,
}

/// The first index of `name` among `pairs`, or `pairs.len()` when it is absent.
pub open spec fn field_index<V>(pairs: Seq<(Seq<char>, V)>, name: Seq<char>) -> int
    decreases pairs.len(),
{
    if pairs.len() == 0 {
        0
    } else if pairs[0].0 == name {
        0
    } else {
        1 + field_index(pairs.drop_first(), name)
    }
}

/// `pairs` with `name` set to `value`: replaced where it stands, or appended.
pub open spec fn with_field<V>(pairs: Seq<(Seq<char>, V)>, name: Seq<char>, value: V) -> Seq<(Seq<char>, V)> {
    let i = field_index(pairs, name);
    if i < pairs.len() {
        pairs.update(i, (name, value))
    } else {
        pairs.push((name, value))
    }
}

/// The value `name` holds in `pairs`, if any.
pub open spec fn field_value<V>(pairs: Seq<(Seq<char>, V)>, name: Seq<char>) -> Option<V> {
    let i = field_index(pairs, name);
    if i < pairs.len() {
        Some(pairs[i].1)
    } else {
        None
    }
}

/// Where a field is looked up: in range, on that field, and the first one.
pub proof fn lemma_field_index_bounds<V>(pairs: Seq<(Seq<char>, V)>, name: Seq<char>)
    ensures
        0 <= field_index(pairs, name) <= pairs.len(),
        field_index(pairs, name) < pairs.len() ==> pairs[field_index(pairs, name)].0 == name,
        forall|j: int| 0 <= j < field_index(pairs, name) ==> pairs[j].0 != name,
    decreases pairs.len(),
{
    if pairs.len() > 0 && pairs[0].0 != name {
        lemma_field_index_bounds(pairs.drop_first(), name);
        assert forall|j: int| 0 <= j < field_index(pairs, name) implies pairs[j].0 != name by {
            if j > 0 {
                assert(pairs[j] == pairs.drop_first()[j - 1]);
            }
        }
    }
}

proof fn lemma_field_index_found<V>(pairs: Seq<(Seq<char>, V)>, name: Seq<char>, i: int)
    requires
        0 <= i < pairs.len(),
        pairs[i].0 == name,
        forall|j: int| 0 <= j < i ==> pairs[j].0 != name,
    ensures
        field_index(pairs, name) == i,
    decreases i,
{
    if i > 0 {
        lemma_field_index_found(pairs.drop_first(), name, i - 1);
    }
}

/// A field that is not there is looked up past the end.
pub proof fn lemma_field_index_absent<V>(pairs: Seq<(Seq<char>, V)>, name: Seq<char>)
    requires
        forall|j: int| 0 <= j < pairs.len() ==> pairs[j].0 != name,
    ensures
        field_index(pairs, name) == pairs.len(),
    decreases pairs.len(),
{
    if pairs.len() > 0 {
        lemma_field_index_absent(pairs.drop_first(), name);
    }
}

/// Named pairs with their names read as characters.
pub open spec fn pairs_view(pairs: Seq<(String, Value)>) -> Seq<(Seq<char>, Value)> {
    pairs.map_values(|p: (String, Value)| (p.0@, p.1))
}

impl View for Args {
    type V = Seq<(Seq<char>, Value)>;

    closed spec fn view(&self) -> Seq<(Seq<char>, Value)> {
        pairs_view(self.pairs@)
    }
}

impl Args {
    /// A record with no fields.
    pub fn new() -> (r: Self)
        ensures
            r@ == Seq::<(Seq<char>, Value)>::empty(),
    {
        let r = Args { pairs: Vec::new() };
        assert(r@ =~= Seq::<(Seq<char>, Value)>::empty());
        r
    }

    /// How many fields are set.
    pub fn len(&self) -> (r: usize)
        ensures
            r == self@.len(),
    {
        self.pairs.len()
    }

    /// Whether no field is set.
    pub fn is_empty(&self) -> (r: bool)
        ensures
            r == (self@.len() == 0),
    {
        self.pairs.len() == 0
    }

    /// Where `name` is, or the number of fields when it is not set.
    fn position(&self, name: &str) -> (r: usize)
        ensures
            r == field_index(self@, name@),
    {
        let mut i: usize = 0;
        while i < self.pairs.len()
            invariant
                i <= self.pairs.len(),
                forall|j: int| 0 <= j < i ==> self@[j].0 != name@,
            decreases self.pairs.len() - i,
        {
            if str_eq(self.pairs[i].0.as_str(), name) {
                proof {
                    lemma_field_index_found(self@, name@, i as int);
                }
                return i;
            }
            i = i + 1;
        }
        proof {
            lemma_field_index_absent(self@, name@);
        }
        i
    }

    /// Sets `name` to `value`, replacing it where it stands if it is already
    /// set.
    pub fn set(&mut self, name: &str, value: Value)
        ensures
            final(self)@ == with_field(old(self)@, name@, value),
    {
        let i = self.position(name);
        proof {
            lemma_field_index_bounds(old(self)@, name@);
        }
        let owned = String::from_str(name);
        if i < self.pairs.len() {
            self.pairs.set(i, (owned, value));
        } else {
            self.pairs.push((owned, value));
        }
        assert(self@ =~= with_field(old(self)@, name@, value));
    }

    /// This record with `name` set to `value`.
    pub fn with(self, name: &str, value: Value) -> (r: Self)
        ensures
            r@ == with_field(self@, name@, value),
    {
        let mut r = self;
        r.set(name, value);
        r
    }

    /// The value `name` holds, if it is set.
    pub fn get(&self, name: &str) -> (r: Option<&Value>)
        ensures
            r == (match field_value(self@, name@) {
                Some(v) => Some(&v),
                None => None::<&Value>,
            }),
    {
        let i = self.position(name);
        proof {
            lemma_field_index_bounds(self@, name@);
        }
        if i < self.pairs.len() {
            Some(&self.pairs[i].1)
        } else {
            None
        }
    }

    /// The fields, in order.
    pub fn into_pairs(self) -> (r: Vec<(String, Value)>)
        ensures
            pairs_view(r@) == self@,
    {
        self.pairs
    }
}

/// `pairs` with every field of `fields` set on it, in order.
pub open spec fn with_fields<V>(pairs: Seq<(Seq<char>, V)>, fields: Seq<(Seq<char>, V)>) -> Seq<(Seq<char>, V)>
    decreases fields.len(),
{
    if fields.len() == 0 {
        pairs
    } else {
        let last = fields.last();
        with_field(with_fields(pairs, fields.drop_last()), last.0, last.1)
    }
}

/// A value with its text as characters.
pub enum ValueV {
    Null,
    Bool(bool),
    Int(i64),
    Text(Seq<char>),
    List(Seq<ValueV>),
    Record(Seq<(Seq<char>, ValueV)>),
}

/// A value by its view.
pub closed spec fn value_view(v: Value) -> ValueV
    decreases v,
{
    match v {
        Value::Null => ValueV::Null,
        Value::Bool(b) => ValueV::Bool(b),
        Value::Int(i) => ValueV::Int(i),
        Value::Text(t) => ValueV::Text(t@),
        Value::List(items) => ValueV::List(items_view(items@)),
        Value::Record(a) => ValueV::Record(owned_fields_view(a.pairs@)),
    }
}

spec fn items_view(items: Seq<Value>) -> Seq<ValueV>
    decreases items,
{
    if items.len() == 0 {
        Seq::empty()
    } else {
        items_view(items.drop_last()).push(value_view(items.last()))
    }
}

spec fn owned_fields_view(pairs: Seq<(String, Value)>) -> Seq<(Seq<char>, ValueV)>
    decreases pairs,
{
    if pairs.len() == 0 {
        Seq::empty()
    } else {
        owned_fields_view(pairs.drop_last()).push((pairs.last().0@, value_view(pairs.last().1)))
    }
}

/// Some values, each by its view.
pub open spec fn values_view(items: Seq<Value>) -> Seq<ValueV> {
    items.map_values(|v: Value| value_view(v))
}

/// Named values, each value by its view.
pub open spec fn record_view(pairs: Seq<(Seq<char>, Value)>) -> Seq<(Seq<char>, ValueV)> {
    pairs.map_values(|p: (Seq<char>, Value)| (p.0, value_view(p.1)))
}

proof fn lemma_items_view(items: Seq<Value>)
    ensures
        items_view(items) == values_view(items),
    decreases items.len(),
{
    if items.len() > 0 {
        lemma_items_view(items.drop_last());
        assert(values_view(items) =~= values_view(items.drop_last()).push(value_view(items.last())));
    } else {
        assert(values_view(items) =~= Seq::<ValueV>::empty());
    }
}

proof fn lemma_owned_fields_view(pairs: Seq<(String, Value)>)
    ensures
        owned_fields_view(pairs) == record_view(pairs_view(pairs)),
    decreases pairs.len(),
{
    if pairs.len() > 0 {
        lemma_owned_fields_view(pairs.drop_last());
        assert(pairs_view(pairs.drop_last()) =~= pairs_view(pairs).drop_last());
        assert(record_view(pairs_view(pairs)) =~= record_view(pairs_view(pairs.drop_last())).push(
            (pairs.last().0@, value_view(pairs.last().1)),
        ));
    } else {
        assert(record_view(pairs_view(pairs)) =~= Seq::<(Seq<char>, ValueV)>::empty());
    }
}

/// What each kind of value is seen as.
pub proof fn lemma_value_view(v: Value)
    ensures
        v is Null ==> value_view(v) == ValueV::Null,
        v matches Value::Bool(b) ==> value_view(v) == ValueV::Bool(b),
        v matches Value::Int(i) ==> value_view(v) == ValueV::Int(i),
        v matches Value::Text(t) ==> value_view(v) == ValueV::Text(t@),
        v matches Value::List(items) ==> value_view(v) == ValueV::List(values_view(items@)),
        v matches Value::Record(a) ==> value_view(v) == ValueV::Record(record_view(a@)),
{
    match v {
        Value::List(items) => lemma_items_view(items@),
        Value::Record(a) => lemma_owned_fields_view(a.pairs@),
        _ => {},
    }
}

/// Seeing values commutes with setting a field.
pub proof fn lemma_record_view_with_field(pairs: Seq<(Seq<char>, Value)>, name: Seq<char>, value: Value)
    ensures
        record_view(with_field(pairs, name, value)) == with_field(record_view(pairs), name, value_view(value)),
{
    lemma_field_index_same(pairs, name);
    lemma_field_index_bounds(pairs, name);
    let i = field_index(pairs, name);
    if i < pairs.len() {
        assert(record_view(pairs.update(i, (name, value))) =~= record_view(pairs).update(i, (name, value_view(value))));
    } else {
        assert(record_view(pairs.push((name, value))) =~= record_view(pairs).push((name, value_view(value))));
    }
}

proof fn lemma_field_index_same(pairs: Seq<(Seq<char>, Value)>, name: Seq<char>)
    ensures
        field_index(record_view(pairs), name) == field_index(pairs, name),
    decreases pairs.len(),
{
    if pairs.len() > 0 {
        assert(record_view(pairs).drop_first() =~= record_view(pairs.drop_first()));
        lemma_field_index_same(pairs.drop_first(), name);
    }
}

/// Seeing values commutes with setting fields.
pub proof fn lemma_record_view_with_fields(pairs: Seq<(Seq<char>, Value)>, fields: Seq<(Seq<char>, Value)>)
    ensures
        record_view(with_fields(pairs, fields)) == with_fields(record_view(pairs), record_view(fields)),
    decreases fields.len(),
{
    if fields.len() > 0 {
        lemma_record_view_with_fields(pairs, fields.drop_last());
        lemma_record_view_with_field(with_fields(pairs, fields.drop_last()), fields.last().0, fields.last().1);
        assert(record_view(fields).drop_last() =~= record_view(fields.drop_last()));
    }
}

impl Value {
    /// A tagged record: the tag under [`TAG_FIELD`], then each of `fields`.
    pub fn tagged(tag: &str, fields: Args) -> (r: Self)
        ensures
            r matches Value::Record(a) && exists|t: String| t@ == tag@
                && a@ == with_fields(seq![(TAG_FIELD@, Value::Text(t))], fields@),
    {
        let t = String::from_str(tag);
        let ghost tv = t;
        let mut args = Args::new().with(TAG_FIELD, Value::Text(t));
        assert(args@ =~= seq![(TAG_FIELD@, Value::Text(tv))]);
        let ghost init = args@;
        let ghost fv = fields@;
        let mut pairs = fields.into_pairs();
        let ghost n = pairs.len();
        let mut i: usize = 0;
        while pairs.len() > 0
            invariant
                i + pairs.len() == n,
                n == fv.len(),
                pairs_view(pairs@) == fv.skip(i as int),
                args@ == with_fields(init, fv.take(i as int)),
            decreases pairs.len(),
        {
            let ghost before = pairs@;
            let (name, value) = pairs.remove(0);
            assert(fv.skip(i as int)[0] == (name@, value));
            assert forall|j: int| 0 <= j < pairs@.len() implies
                pairs_view(pairs@)[j] == fv.skip(i + 1)[j] by {
                assert(pairs@[j] == before[j + 1]);
                assert(fv.skip(i + 1)[j] == fv.skip(i as int)[j + 1]);
            }
            assert(pairs_view(pairs@) =~= fv.skip(i + 1));
            args.set(name.as_str(), value);
            assert(fv.take(i + 1).drop_last() =~= fv.take(i as int));
            i = i + 1;
        }
        assert(fv.take(i as int) =~= fv);
        Value::Record(args)
    }
}

impl Value {
    /// A tagged record's tag: the text under [`TAG_FIELD`].
    pub fn tag(&self) -> (r: Option<&str>)
        ensures
            match value_view(*self) {
                ValueV::Record(rec) => match field_value(rec, TAG_FIELD@) {
                    Some(ValueV::Text(t)) => r matches Some(s) && s@ == t,
                    _ => r is None,
                },
                _ => r is None,
            },
    {
        proof {
            lemma_value_view(*self);
        }
        match self {
            Value::Record(a) => {
                proof {
                    lemma_field_value_view(a@, TAG_FIELD@);
                }
                match a.get(TAG_FIELD) {
                    Some(Value::Text(t)) => {
                        proof {
                            lemma_value_view(Value::Text(*t));
                        }
                        Some(t.as_str())
                    },
                    Some(other) => {
                        proof {
                            lemma_value_view(*other);
                        }
                        None
                    },
                    None => None,
                }
            },
            _ => None,
        }
    }
}

impl Clone for Value {
    fn clone(&self) -> (r: Self)
        ensures
            value_view(r) == value_view(*self),
        decreases self,
    {
        match self {
            Value::Null => Value::Null,
            Value::Bool(b) => Value::Bool(*b),
            Value::Int(i) => Value::Int(*i),
            Value::Text(t) => Value::Text(t.clone()),
            Value::List(items) => {
                let mut out: Vec<Value> = Vec::new();
                let mut i: usize = 0;
                assert(items@.take(0) =~= Seq::<Value>::empty());
                assert(out@ =~= Seq::<Value>::empty());
                while i < items.len()
                    invariant
                        i <= items.len(),
                        self is List,
                        self->List_0 == *items,
                        items_view(out@) == items_view(items@.take(i as int)),
                    decreases items.len() - i,
                {
                    assert(decreases_to!(*self => self->List_0));
                    assert(decreases_to!(self->List_0 => self->List_0@));
                    assert(decreases_to!(items@ => items@[i as int]));
                    assert(decreases_to!(*self => items@[i as int]));
                    let ghost before = out@;
                    out.push(items[i].clone());
                    assert(out@.drop_last() =~= before);
                    assert(items@.take(i + 1).drop_last() =~= items@.take(i as int));
                    i = i + 1;
                }
                assert(items@.take(i as int) =~= items@);
                Value::List(out)
            },
            Value::Record(args) => {
                assert(decreases_to!(*self => *args));
                let r = Value::Record(args.clone());
                proof {
                    lemma_value_view(r);
                    lemma_value_view(*self);
                }
                r
            },
        }
    }
}

impl Clone for Args {
    fn clone(&self) -> (r: Self)
        ensures
            record_view(r@) == record_view(self@),
        decreases self,
    {
        let mut out: Vec<(String, Value)> = Vec::new();
        let mut i: usize = 0;
        assert(self.pairs@.take(0) =~= Seq::<(String, Value)>::empty());
        assert(out@ =~= Seq::<(String, Value)>::empty());
        while i < self.pairs.len()
            invariant
                i <= self.pairs.len(),
                owned_fields_view(out@) == owned_fields_view(self.pairs@.take(i as int)),
            decreases self.pairs.len() - i,
        {
            let pair = &self.pairs[i];
            assert(decreases_to!(*self => self.pairs@[i as int].1));
            let ghost before = out@;
            out.push((pair.0.clone(), pair.1.clone()));
            assert(out@.drop_last() =~= before);
            assert(self.pairs@.take(i + 1).drop_last() =~= self.pairs@.take(i as int));
            i = i + 1;
        }
        assert(self.pairs@.take(i as int) =~= self.pairs@);
        proof {
            lemma_owned_fields_view(out@);
            lemma_owned_fields_view(self.pairs@);
        }
        Args { pairs: out }
    }
}

/// A door-neutral call: a capability's name and its named arguments.
#[derive(Debug, PartialEq, Eq)]
pub struct Call {
    /// The capability's canonical name.
    pub name: String,
    /// Its arguments, by name.
    pub args: Args,
}

/// Why a value does not have the shape an argument needs.
#[derive(Debug, PartialEq, Eq)]
pub enum WireError {
    /// A required field is absent.
    Missing {
        /// Which.
        field: &'static str,
    },
    /// The value has another shape than the one expected.
    Shape {
        /// What was expected.
        expected: &'static str,
    },
    /// A tag that names none of the arms.
    Tag {
        /// The tag that came.
        got: String,
        /// The tags that would have been accepted.
        expected: Vec<&'static str>,
    },
    /// A field that is there and malformed.
    Field {
        /// Which.
        field: &'static str,
        /// What is wrong with it.
        source: Box<WireError>,
    },
}

/// A [`WireError`] as values.
pub enum WireErrorV {
    Missing { field: Seq<char> },
    Shape { expected: Seq<char> },
    Tag { got: Seq<char>, expected: Seq<Seq<char>> },
    Field { field: Seq<char>, source: Box<WireErrorV> },
}

/// Some static names, each as characters.
pub open spec fn names_view(names: Seq<&'static str>) -> Seq<Seq<char>> {
    names.map_values(|n: &'static str| n@)
}

/// A wire error by value.
pub open spec fn error_view(e: WireError) -> WireErrorV
    decreases e,
{
    match e {
        WireError::Missing { field } => WireErrorV::Missing { field: field@ },
        WireError::Shape { expected } => WireErrorV::Shape { expected: expected@ },
        WireError::Tag { got, expected } => WireErrorV::Tag { got: got@, expected: names_view(expected@) },
        WireError::Field { field, source } => WireErrorV::Field { field: field@, source: Box::new(error_view(*source)) },
    }
}

/// What the doors agree on for a payload type: the value it encodes as, and
/// what decoding a value gives back.
///
/// Decoding is stated by encodings: a value that decodes gives a payload
/// whose encoding is what [`Wire::unwire`] says, and one that does not gives
/// the error it says.
pub trait Wire: Sized {
    /// The value this encodes as.
    spec fn wire(&self) -> ValueV;

    /// Whether this encodes without loss: every id it holds fits an `i64`.
    spec fn fits(&self) -> bool;

    /// Decoding `v`: the encoding of what it decodes to, or why it does not.
    spec fn unwire(v: ValueV) -> Result<ValueV, WireErrorV>;

    /// Whether an absent argument of this type decodes, as `Null` does.
    spec fn optional() -> bool;

    /// Encodes.
    fn to_value(&self) -> (r: Value)
        ensures
            value_view(r) == self.wire(),
    ;

    /// Decodes.
    fn from_value(v: &Value) -> (r: Result<Self, WireError>)
        ensures
            match Self::unwire(value_view(*v)) {
                Ok(w) => r matches Ok(x) && x.wire() == w,
                Err(e) => r matches Err(err) && error_view(err) == e,
            },
    ;

    /// Whether an absent argument of this type decodes.
    fn is_optional() -> (r: bool)
        ensures
            r == Self::optional(),
    ;

    /// What a payload encodes as decodes to a payload with that encoding.
    proof fn lemma_wire_round_trip(x: Self)
        requires
            x.fits(),
        ensures
            Self::unwire(x.wire()) == Ok::<ValueV, WireErrorV>(x.wire()),
    ;
}

/// `r` is what `s` says decoding gives.
pub open spec fn decoded<T: Wire>(r: Result<T, WireError>, s: Result<ValueV, WireErrorV>) -> bool {
    match s {
        Ok(w) => r matches Ok(x) && x.wire() == w,
        Err(e) => r matches Err(err) && error_view(err) == e,
    }
}

/// A record of these fields, set in order.
pub open spec fn record_of(fields: Seq<(Seq<char>, ValueV)>) -> ValueV {
    ValueV::Record(with_fields(Seq::empty(), fields))
}

/// Decoding the argument `name` of a record: an absent one decodes as `Null`
/// for an optional type and is missing otherwise; a malformed one names the
/// field.
pub open spec fn field_unwire<T: Wire>(rec: Seq<(Seq<char>, ValueV)>, name: Seq<char>) -> Result<ValueV, WireErrorV> {
    match field_value(rec, name) {
        Some(v) => match T::unwire(v) {
            Ok(w) => Ok(w),
            Err(e) => Err(WireErrorV::Field { field: name, source: Box::new(e) }),
        },
        None => if T::optional() {
            T::unwire(ValueV::Null)
        } else {
            Err(WireErrorV::Missing { field: name })
        },
    }
}

/// No two fields share a name.
pub open spec fn names_distinct(fields: Seq<(Seq<char>, ValueV)>) -> bool {
    forall|i: int, j: int| 0 <= i < j < fields.len() ==> fields[i].0 != fields[j].0
}

/// Setting fields with distinct names, one after another, lists them.
pub proof fn lemma_distinct_fields(fields: Seq<(Seq<char>, ValueV)>)
    requires
        names_distinct(fields),
    ensures
        with_fields(Seq::empty(), fields) == fields,
        forall|i: int| 0 <= i < fields.len() ==> field_value(fields, #[trigger] fields[i].0) == Some(fields[i].1),
    decreases fields.len(),
{
    if fields.len() > 0 {
        let d = fields.drop_last();
        assert(names_distinct(d));
        lemma_distinct_fields(d);
        assert forall|j: int| 0 <= j < d.len() implies d[j].0 != fields.last().0 by {
            assert(d[j] == fields[j]);
        }
        lemma_field_index_absent(d, fields.last().0);
        assert(d.push(fields.last()) =~= fields);
    }
    assert forall|i: int| 0 <= i < fields.len() implies field_value(fields, #[trigger] fields[i].0) == Some(fields[i].1) by {
        lemma_field_index_found(fields, fields[i].0, i);
    }
}

/// Field `i` of distinct fields reads back.
pub proof fn lemma_field_of(fields: Seq<(Seq<char>, ValueV)>, i: int)
    requires
        names_distinct(fields),
        0 <= i < fields.len(),
    ensures
        field_value(with_fields(Seq::empty(), fields), fields[i].0) == Some(fields[i].1),
{
    lemma_distinct_fields(fields);
}

/// The field names and values of a list of named values.
pub open spec fn named_view(fields: Seq<(&'static str, Value)>) -> Seq<(Seq<char>, ValueV)> {
    fields.map_values(|p: (&'static str, Value)| (p.0@, value_view(p.1)))
}

/// Arguments with these fields, set in order.
pub fn args_from(fields: Vec<(&'static str, Value)>) -> (r: Args)
    ensures
        record_view(r@) == with_fields(Seq::empty(), named_view(fields@)),
{
    let ghost all = fields@;
    let mut args = Args::new();
    let mut rest = fields;
    let ghost mut done: Seq<(&'static str, Value)> = Seq::empty();
    assert(record_view(args@) =~= Seq::<(Seq<char>, ValueV)>::empty());
    assert(named_view(done) =~= Seq::<(Seq<char>, ValueV)>::empty());
    while rest.len() > 0
        invariant
            done + rest@ == all,
            record_view(args@) == with_fields(Seq::empty(), named_view(done)),
        decreases rest.len(),
    {
        let (name, value) = rest.remove(0);
        let ghost v = value;
        let ghost before = args@;
        args.set(name, value);
        proof {
            lemma_record_view_with_field(before, name@, v);
            let nd = done.push((name, v));
            assert(named_view(nd).drop_last() =~= named_view(done));
            assert(named_view(nd).last() == (name@, value_view(v)));
            done = nd;
        }
        assert(done + rest@ =~= all);
    }
    assert(done =~= all);
    args
}

/// A record of these fields, set in order.
pub fn record_from(fields: Vec<(&'static str, Value)>) -> (r: Value)
    ensures
        value_view(r) == record_of(named_view(fields@)),
{
    let r = Value::Record(args_from(fields));
    proof {
        lemma_value_view(r);
    }
    r
}

impl Args {
    /// Decodes the argument `name`, as [`field_unwire`] says.
    pub fn field<T: Wire>(&self, name: &'static str) -> (r: Result<T, WireError>)
        ensures
            decoded(r, field_unwire::<T>(record_view(self@), name@)),
    {
        proof {
            lemma_field_index_same(self@, name@);
            lemma_field_index_bounds(self@, name@);
        }
        match self.get(name) {
            Some(v) => match T::from_value(v) {
                Ok(x) => Ok(x),
                Err(e) => Err(WireError::Field { field: name, source: Box::new(e) }),
            },
            None => {
                if T::is_optional() {
                    T::from_value(&Value::Null)
                } else {
                    Err(WireError::Missing { field: name })
                }
            },
        }
    }
}

/// Looking a field up commutes with seeing values.
pub proof fn lemma_field_value_view(pairs: Seq<(Seq<char>, Value)>, name: Seq<char>)
    ensures
        field_value(record_view(pairs), name) == match field_value(pairs, name) {
            Some(x) => Some(value_view(x)),
            None => None,
        },
{
    lemma_field_index_same(pairs, name);
    lemma_field_index_bounds(pairs, name);
}

/// The shape error for a value that is not of the kind `expected` names.
pub open spec fn shape(expected: Seq<char>) -> WireErrorV {
    WireErrorV::Shape { expected }
}

impl Wire for bool {
    open spec fn wire(&self) -> ValueV {
        ValueV::Bool(*self)
    }

    open spec fn fits(&self) -> bool {
        true
    }

    open spec fn unwire(v: ValueV) -> Result<ValueV, WireErrorV> {
        match v {
            ValueV::Bool(b) => Ok(ValueV::Bool(b)),
            _ => Err(shape("bool"@)),
        }
    }

    open spec fn optional() -> bool {
        false
    }

    fn to_value(&self) -> (r: Value) {
        let r = Value::Bool(*self);
        proof {
            lemma_value_view(r);
        }
        r
    }

    fn from_value(v: &Value) -> (r: Result<Self, WireError>) {
        proof {
            lemma_value_view(*v);
        }
        match v {
            Value::Bool(b) => Ok(*b),
            _ => Err(WireError::Shape { expected: "bool" }),
        }
    }

    fn is_optional() -> (r: bool) {
        false
    }

    proof fn lemma_wire_round_trip(x: Self) {
    }
}

impl Wire for i64 {
    open spec fn wire(&self) -> ValueV {
        ValueV::Int(*self)
    }

    open spec fn fits(&self) -> bool {
        true
    }

    open spec fn unwire(v: ValueV) -> Result<ValueV, WireErrorV> {
        match v {
            ValueV::Int(i) => Ok(ValueV::Int(i)),
            _ => Err(shape("integer"@)),
        }
    }

    open spec fn optional() -> bool {
        false
    }

    fn to_value(&self) -> (r: Value) {
        let r = Value::Int(*self);
        proof {
            lemma_value_view(r);
        }
        r
    }

    fn from_value(v: &Value) -> (r: Result<Self, WireError>) {
        proof {
            lemma_value_view(*v);
        }
        match v {
            Value::Int(i) => Ok(*i),
            _ => Err(WireError::Shape { expected: "integer" }),
        }
    }

    fn is_optional() -> (r: bool) {
        false
    }

    proof fn lemma_wire_round_trip(x: Self) {
    }
}

impl Wire for u32 {
    open spec fn wire(&self) -> ValueV {
        ValueV::Int(*self as i64)
    }

    open spec fn fits(&self) -> bool {
        true
    }

    open spec fn unwire(v: ValueV) -> Result<ValueV, WireErrorV> {
        match v {
            ValueV::Int(i) => if 0 <= i <= u32::MAX {
                Ok(ValueV::Int(i))
            } else {
                Err(shape("u32"@))
            },
            _ => Err(shape("u32"@)),
        }
    }

    open spec fn optional() -> bool {
        false
    }

    fn to_value(&self) -> (r: Value) {
        let r = Value::Int(*self as i64);
        proof {
            lemma_value_view(r);
        }
        r
    }

    fn from_value(v: &Value) -> (r: Result<Self, WireError>) {
        proof {
            lemma_value_view(*v);
        }
        match v {
            Value::Int(i) => if 0 <= *i && *i <= 0xffff_ffff {
                Ok(*i as u32)
            } else {
                Err(WireError::Shape { expected: "u32" })
            },
            _ => Err(WireError::Shape { expected: "u32" }),
        }
    }

    fn is_optional() -> (r: bool) {
        false
    }

    proof fn lemma_wire_round_trip(x: Self) {
    }
}

impl Wire for u64 {
    open spec fn wire(&self) -> ValueV {
        ValueV::Int(if *self <= i64::MAX { *self as i64 } else { i64::MAX })
    }

    open spec fn fits(&self) -> bool {
        *self <= i64::MAX
    }

    open spec fn unwire(v: ValueV) -> Result<ValueV, WireErrorV> {
        match v {
            ValueV::Int(i) => if 0 <= i {
                Ok(ValueV::Int(i))
            } else {
                Err(shape("non-negative integer"@))
            },
            _ => Err(shape("non-negative integer"@)),
        }
    }

    open spec fn optional() -> bool {
        false
    }

    fn to_value(&self) -> (r: Value) {
        let r = Value::Int(if *self <= 0x7fff_ffff_ffff_ffff { *self as i64 } else { 0x7fff_ffff_ffff_ffff });
        proof {
            lemma_value_view(r);
        }
        r
    }

    fn from_value(v: &Value) -> (r: Result<Self, WireError>) {
        proof {
            lemma_value_view(*v);
        }
        match v {
            Value::Int(i) => if 0 <= *i {
                Ok(*i as u64)
            } else {
                Err(WireError::Shape { expected: "non-negative integer" })
            },
            _ => Err(WireError::Shape { expected: "non-negative integer" }),
        }
    }

    fn is_optional() -> (r: bool) {
        false
    }

    proof fn lemma_wire_round_trip(x: Self) {
    }
}

impl Wire for String {
    open spec fn wire(&self) -> ValueV {
        ValueV::Text(self@)
    }

    open spec fn fits(&self) -> bool {
        true
    }

    open spec fn unwire(v: ValueV) -> Result<ValueV, WireErrorV> {
        match v {
            ValueV::Text(t) => Ok(ValueV::Text(t)),
            _ => Err(shape("text"@)),
        }
    }

    open spec fn optional() -> bool {
        false
    }

    fn to_value(&self) -> (r: Value) {
        let r = Value::Text(self.clone());
        proof {
            lemma_value_view(r);
        }
        r
    }

    fn from_value(v: &Value) -> (r: Result<Self, WireError>) {
        proof {
            lemma_value_view(*v);
        }
        match v {
            Value::Text(t) => Ok(t.clone()),
            _ => Err(WireError::Shape { expected: "text" }),
        }
    }

    fn is_optional() -> (r: bool) {
        false
    }

    proof fn lemma_wire_round_trip(x: Self) {
    }
}

impl Wire for char {
    open spec fn wire(&self) -> ValueV {
        ValueV::Text(seq![*self])
    }

    open spec fn fits(&self) -> bool {
        true
    }

    open spec fn unwire(v: ValueV) -> Result<ValueV, WireErrorV> {
        match v {
            ValueV::Text(t) => if t.len() == 1 {
                Ok(ValueV::Text(t))
            } else {
                Err(shape("one character"@))
            },
            _ => Err(shape("one character"@)),
        }
    }

    open spec fn optional() -> bool {
        false
    }

    fn to_value(&self) -> (r: Value) {
        let mut t = String::new();
        crate::text_util::push_char(&mut t, *self);
        proof {
            assert(t@ =~= seq![*self]);
        }
        let r = Value::Text(t);
        proof {
            lemma_value_view(r);
        }
        r
    }

    fn from_value(v: &Value) -> (r: Result<Self, WireError>) {
        proof {
            lemma_value_view(*v);
        }
        match v {
            Value::Text(t) => {
                let cs = crate::text_util::chars_of(t.as_str());
                if cs.len() == 1 {
                    proof {
                        assert(t@ =~= seq![cs@[0]]);
                    }
                    Ok(cs[0])
                } else {
                    Err(WireError::Shape { expected: "one character" })
                }
            },
            _ => Err(WireError::Shape { expected: "one character" }),
        }
    }

    fn is_optional() -> (r: bool) {
        false
    }

    proof fn lemma_wire_round_trip(x: Self) {
    }
}

impl Wire for Value {
    open spec fn wire(&self) -> ValueV {
        value_view(*self)
    }

    open spec fn fits(&self) -> bool {
        true
    }

    open spec fn unwire(v: ValueV) -> Result<ValueV, WireErrorV> {
        Ok(v)
    }

    open spec fn optional() -> bool {
        false
    }

    fn to_value(&self) -> (r: Value) {
        self.clone()
    }

    fn from_value(v: &Value) -> (r: Result<Self, WireError>) {
        Ok(v.clone())
    }

    fn is_optional() -> (r: bool) {
        false
    }

    proof fn lemma_wire_round_trip(x: Self) {
    }
}

impl Wire for Args {
    open spec fn wire(&self) -> ValueV {
        ValueV::Record(record_view(self@))
    }

    open spec fn fits(&self) -> bool {
        true
    }

    open spec fn unwire(v: ValueV) -> Result<ValueV, WireErrorV> {
        match v {
            ValueV::Record(r) => Ok(ValueV::Record(r)),
            _ => Err(shape("record"@)),
        }
    }

    open spec fn optional() -> bool {
        false
    }

    fn to_value(&self) -> (r: Value) {
        let r = Value::Record(self.clone());
        proof {
            lemma_value_view(r);
        }
        r
    }

    fn from_value(v: &Value) -> (r: Result<Self, WireError>) {
        proof {
            lemma_value_view(*v);
        }
        match v {
            Value::Record(a) => Ok(a.clone()),
            _ => Err(WireError::Shape { expected: "record" }),
        }
    }

    fn is_optional() -> (r: bool) {
        false
    }

    proof fn lemma_wire_round_trip(x: Self) {
    }
}

impl<T: Wire> Wire for Option<T> {
    open spec fn wire(&self) -> ValueV {
        match self {
            Some(x) => x.wire(),
            None => ValueV::Null,
        }
    }

    open spec fn fits(&self) -> bool {
        match self {
            Some(x) => x.fits(),
            None => true,
        }
    }

    open spec fn unwire(v: ValueV) -> Result<ValueV, WireErrorV> {
        match v {
            ValueV::Null => Ok(ValueV::Null),
            _ => T::unwire(v),
        }
    }

    open spec fn optional() -> bool {
        true
    }

    fn to_value(&self) -> (r: Value) {
        match self {
            Some(x) => x.to_value(),
            None => {
                let r = Value::Null;
                proof {
                    lemma_value_view(r);
                }
                r
            },
        }
    }

    fn from_value(v: &Value) -> (r: Result<Self, WireError>) {
        proof {
            lemma_value_view(*v);
        }
        match v {
            Value::Null => Ok(None),
            _ => match T::from_value(v) {
                Ok(x) => Ok(Some(x)),
                Err(e) => Err(e),
            },
        }
    }

    fn is_optional() -> (r: bool) {
        true
    }

    proof fn lemma_wire_round_trip(x: Self) {
        if let Some(y) = x {
            T::lemma_wire_round_trip(y);
        }
    }
}

/// The encodings of some payloads.
pub open spec fn wires<T: Wire>(items: Seq<T>) -> Seq<ValueV> {
    items.map_values(|x: T| x.wire())
}

/// Decoding the items of a list, each in turn: their encodings, or the first
/// item's error.
pub open spec fn unwire_items<T: Wire>(items: Seq<ValueV>) -> Result<Seq<ValueV>, WireErrorV>
    decreases items.len(),
{
    if items.len() == 0 {
        Ok(Seq::empty())
    } else {
        match unwire_items::<T>(items.drop_last()) {
            Ok(front) => match T::unwire(items.last()) {
                Ok(w) => Ok(front.push(w)),
                Err(e) => Err(e),
            },
            Err(e) => Err(e),
        }
    }
}

proof fn lemma_unwire_items<T: Wire>(items: Seq<T>)
    requires
        forall|i: int| 0 <= i < items.len() ==> (#[trigger] items[i]).fits(),
    ensures
        unwire_items::<T>(wires(items)) == Ok::<Seq<ValueV>, WireErrorV>(wires(items)),
    decreases items.len(),
{
    if items.len() > 0 {
        let d = items.drop_last();
        lemma_unwire_items::<T>(d);
        assert(wires(items).drop_last() =~= wires(d));
        T::lemma_wire_round_trip(items.last());
        assert(wires(d).push(items.last().wire()) =~= wires(items));
    } else {
        assert(wires(items) =~= Seq::<ValueV>::empty());
    }
}

impl<T: Wire> Wire for Vec<T> {
    open spec fn wire(&self) -> ValueV {
        ValueV::List(wires(self@))
    }

    open spec fn fits(&self) -> bool {
        forall|i: int| 0 <= i < self@.len() ==> (#[trigger] self@[i]).fits()
    }

    open spec fn unwire(v: ValueV) -> Result<ValueV, WireErrorV> {
        match v {
            ValueV::List(items) => match unwire_items::<T>(items) {
                Ok(ws) => Ok(ValueV::List(ws)),
                Err(e) => Err(e),
            },
            _ => Err(shape("list"@)),
        }
    }

    open spec fn optional() -> bool {
        false
    }

    fn to_value(&self) -> (r: Value) {
        let mut out: Vec<Value> = Vec::new();
        let mut i: usize = 0;
        while i < self.len()
            invariant
                i <= self.len(),
                values_view(out@) == wires(self@.take(i as int)),
            decreases self.len() - i,
        {
            let ghost before = out@;
            out.push(self[i].to_value());
            assert(values_view(out@) =~= values_view(before).push(self@[i as int].wire()));
            assert(wires(self@.take(i + 1)) =~= wires(self@.take(i as int)).push(self@[i as int].wire()));
            i = i + 1;
        }
        assert(self@.take(i as int) =~= self@);
        let r = Value::List(out);
        proof {
            lemma_value_view(r);
        }
        r
    }

    fn from_value(v: &Value) -> (r: Result<Self, WireError>) {
        proof {
            lemma_value_view(*v);
        }
        match v {
            Value::List(items) => {
                let ghost iv = values_view(items@);
                let mut out: Vec<T> = Vec::new();
                let mut i: usize = 0;
                assert(iv.take(0) =~= Seq::<ValueV>::empty());
                assert(wires(out@) =~= Seq::<ValueV>::empty());
                while i < items.len()
                    invariant
                        i <= items.len(),
                        iv == values_view(items@),
                        value_view(*v) == ValueV::List(iv),
                        unwire_items::<T>(iv.take(i as int)) == Ok::<Seq<ValueV>, WireErrorV>(wires(out@)),
                    decreases items.len() - i,
                {
                    assert(iv.take(i + 1).drop_last() =~= iv.take(i as int));
                    assert(iv.take(i + 1).last() == value_view(items@[i as int]));
                    match T::from_value(&items[i]) {
                        Ok(x) => {
                            let ghost before = out@;
                            out.push(x);
                            assert(wires(out@) =~= wires(before).push(x.wire()));
                        },
                        Err(e) => {
                            proof {
                                assert(unwire_items::<T>(iv.take(i + 1)) == Err::<Seq<ValueV>, WireErrorV>(error_view(e)));
                                lemma_unwire_items_prefix::<T>(iv, i as int + 1);
                                assert(unwire_items::<T>(iv) == Err::<Seq<ValueV>, WireErrorV>(error_view(e)));
                                assert(value_view(*v) == ValueV::List(iv));
                                assert(<Vec<T> as Wire>::unwire(value_view(*v)) == Err::<ValueV, WireErrorV>(error_view(e)));
                            }
                            return Err(e);
                        },
                    }
                    i = i + 1;
                }
                assert(iv.take(i as int) =~= iv);
                Ok(out)
            },
            _ => Err(WireError::Shape { expected: "list" }),
        }
    }

    fn is_optional() -> (r: bool) {
        false
    }

    proof fn lemma_wire_round_trip(x: Self) {
        lemma_unwire_items::<T>(x@);
    }
}

/// A prefix that fails fails the whole list the same way.
proof fn lemma_unwire_items_prefix<T: Wire>(items: Seq<ValueV>, k: int)
    requires
        0 <= k <= items.len(),
        unwire_items::<T>(items.take(k)) is Err,
    ensures
        unwire_items::<T>(items) == unwire_items::<T>(items.take(k)),
    decreases items.len() - k,
{
    if k < items.len() {
        assert(items.take(k + 1).drop_last() =~= items.take(k));
        lemma_unwire_items_prefix::<T>(items, k + 1);
    } else {
        assert(items.take(k) =~= items);
    }
}

} // verus!
